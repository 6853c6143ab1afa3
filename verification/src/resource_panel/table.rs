//! Ordered tables of resource rows: stable insertion into a sorted table,
//! sorting, replacing a row by key, removing rows by key, and the set of
//! selected row keys.
use vstd::prelude::*;
use crate::text::chars_of;

verus! {

/// Strict lexicographic order of texts by character code (the order of
/// `String`'s `Ord`, which compares UTF-8 bytes).
pub open spec fn text_lt(a: Seq<char>, b: Seq<char>) -> bool
    decreases a.len(),
{
    if a.len() == 0 {
        b.len() > 0
    } else if b.len() == 0 {
        false
    } else if a[0] != b[0] {
        (a[0] as u32) < (b[0] as u32)
    } else {
        text_lt(a.drop_first(), b.drop_first())
    }
}

fn chars_lt_from(a: &Vec<char>, b: &Vec<char>, i: usize) -> (r: bool)
    requires
        i <= a@.len(),
        i <= b@.len(),
    ensures
        r == text_lt(a@.skip(i as int), b@.skip(i as int)),
    decreases a@.len() - i,
{
    let ghost sa = a@.skip(i as int);
    let ghost sb = b@.skip(i as int);
    if i == a.len() {
        assert(sa.len() == 0);
        i < b.len()
    } else if i == b.len() {
        false
    } else if a[i] != b[i] {
        assert(sa[0] == a@[i as int] && sb[0] == b@[i as int]);
        (a[i] as u32) < (b[i] as u32)
    } else {
        assert(sa.drop_first() =~= a@.skip(i + 1));
        assert(sb.drop_first() =~= b@.skip(i + 1));
        chars_lt_from(a, b, i + 1)
    }
}

/// `a` sorts strictly before `b` as texts.
pub fn text_less(a: &str, b: &str) -> (r: bool)
    ensures
        r == text_lt(a@, b@),
{
    let ca = chars_of(a);
    let cb = chars_of(b);
    assert(ca@.skip(0) =~= ca@);
    assert(cb@.skip(0) =~= cb@);
    chars_lt_from(&ca, &cb, 0)
}

/// A row of a resource table: it has a key, and an order in which tables
/// keep their rows.
pub trait TableRow: View + Sized {
    /// The key of a row's view.
    spec fn key_of(v: Self::V) -> Seq<char>;

    /// `a` sorts strictly before `b`.
    spec fn ordered_before(a: Self::V, b: Self::V) -> bool;

    /// The row's key.
    fn row_key(&self) -> (r: &str)
        ensures
            r@ == Self::key_of(self@),
    ;

    /// Whether this row sorts strictly before `other`.
    fn before(&self, other: &Self) -> (r: bool)
        ensures
            r == Self::ordered_before(self@, other@),
    ;
}

/// The views of a sequence of rows.
pub open spec fn views<T: View>(s: Seq<T>) -> Seq<T::V> {
    s.map_values(|r: T| r@)
}

/// Where a stable insertion puts `x`: before the first row that `x` sorts
/// strictly before, or at the end.
pub open spec fn insert_pos<T: TableRow>(s: Seq<T::V>, x: T::V) -> int
    decreases s.len(),
{
    if s.len() == 0 {
        0
    } else if T::ordered_before(x, s[0]) {
        0
    } else {
        1 + insert_pos::<T>(s.drop_first(), x)
    }
}

/// `s` with `x` inserted at its stable position.
pub open spec fn insert_sorted<T: TableRow>(s: Seq<T::V>, x: T::V) -> Seq<T::V> {
    s.insert(insert_pos::<T>(s, x), x)
}

/// The rows in table order: a stable sort (rows that neither precedes keep
/// their relative order).
pub open spec fn sort_views<T: TableRow>(s: Seq<T::V>) -> Seq<T::V>
    decreases s.len(),
{
    if s.len() == 0 {
        Seq::empty()
    } else {
        insert_sorted::<T>(sort_views::<T>(s.drop_last()), s.last())
    }
}

/// The index of the first row with the given key.
pub open spec fn key_index<T: TableRow>(s: Seq<T::V>, key: Seq<char>) -> Option<int>
    decreases s.len(),
{
    if s.len() == 0 {
        None
    } else if T::key_of(s[0]) == key {
        Some(0)
    } else {
        match key_index::<T>(s.drop_first(), key) {
            Some(i) => Some(i + 1),
            None => None,
        }
    }
}

/// The rows after `row` replaces the first row with its key, or is appended
/// when no row has it; then in table order.
pub open spec fn upsert_views<T: TableRow>(s: Seq<T::V>, row: T::V) -> Seq<T::V> {
    let replaced = match key_index::<T>(s, T::key_of(row)) {
        Some(i) => s.update(i, row),
        None => s.push(row),
    };
    sort_views::<T>(replaced)
}

/// The rows whose key differs from `key`, in their order.
pub open spec fn without_key<T: TableRow>(s: Seq<T::V>, key: Seq<char>) -> Seq<T::V>
    decreases s.len(),
{
    if s.len() == 0 {
        Seq::empty()
    } else if T::key_of(s.last()) == key {
        without_key::<T>(s.drop_last(), key)
    } else {
        without_key::<T>(s.drop_last(), key).push(s.last())
    }
}

pub proof fn lemma_insert_pos_bounds<T: TableRow>(s: Seq<T::V>, x: T::V)
    ensures
        0 <= insert_pos::<T>(s, x) <= s.len(),
    decreases s.len(),
{
    if s.len() > 0 && !T::ordered_before(x, s[0]) {
        lemma_insert_pos_bounds::<T>(s.drop_first(), x);
    }
}

proof fn lemma_views_insert<T: View>(s: Seq<T>, i: int, x: T)
    requires
        0 <= i <= s.len(),
    ensures
        views(s.insert(i, x)) == views(s).insert(i, x@),
{
    assert(views(s.insert(i, x)) =~= views(s).insert(i, x@));
}

proof fn lemma_views_remove<T: View>(s: Seq<T>, i: int)
    requires
        0 <= i < s.len(),
    ensures
        views(s.remove(i)) == views(s).remove(i),
        views(s)[i] == s[i]@,
        views(s).len() == s.len(),
{
    assert(views(s.remove(i)) =~= views(s).remove(i));
}

/// Inserts `x` at its stable position in a table.
pub fn insert_row_sorted<T: TableRow>(v: &mut Vec<T>, x: T)
    ensures
        views(final(v)@) == insert_sorted::<T>(views(old(v)@), x@),
{
    let ghost s = views(v@);
    let mut i: usize = 0;
    assert(s.skip(0) =~= s);
    while i < v.len()
        invariant
            s == views(v@),
            i <= v@.len(),
            insert_pos::<T>(s, x@) == i + insert_pos::<T>(s.skip(i as int), x@),
        ensures
            s == views(v@),
            i <= v@.len(),
            insert_pos::<T>(s, x@) == i + insert_pos::<T>(s.skip(i as int), x@),
            i < v@.len() ==> T::ordered_before(x@, s[i as int]),
        decreases v@.len() - i,
    {
        assert(s.skip(i as int)[0] == v@[i as int]@);
        if x.before(&v[i]) {
            break;
        }
        assert(s.skip(i as int).drop_first() =~= s.skip(i + 1));
        i = i + 1;
    }
    proof {
        if i == v@.len() {
            assert(s.skip(i as int).len() == 0);
        } else {
            assert(s.skip(i as int)[0] == s[i as int]);
        }
        lemma_views_insert(v@, i as int, x);
    }
    v.insert(i, x);
}

/// Puts a table in table order (a stable sort).
pub fn sort_rows<T: TableRow>(v: Vec<T>) -> (r: Vec<T>)
    ensures
        views(r@) == sort_views::<T>(views(v@)),
{
    let ghost orig = views(v@);
    assert(orig.len() == v.len());
    let mut src = v;
    let mut out: Vec<T> = Vec::new();
    let mut k: usize = 0;
    assert(orig.take(0) =~= Seq::<T::V>::empty());
    assert(views(src@) =~= orig.skip(0));
    while src.len() > 0
        invariant
            k <= orig.len(),
            orig.len() <= usize::MAX,
            views(src@) == orig.skip(k as int),
            views(out@) == sort_views::<T>(orig.take(k as int)),
        decreases src@.len(),
    {
        let ghost before = src@;
        let x = src.remove(0);
        proof {
            lemma_views_remove(before, 0);
        }
        assert(x@ == orig[k as int]);
        assert(views(src@) =~= orig.skip(k + 1));
        insert_row_sorted(&mut out, x);
        assert(orig.take(k + 1).drop_last() =~= orig.take(k as int));
        k = k + 1;
    }
    assert(orig.take(k as int) =~= orig);
    out
}

/// Replaces the first row with the new row's key, or appends the new row;
/// then puts the table in table order.
pub fn upsert_row<T: TableRow>(v: &mut Vec<T>, row: T)
    ensures
        views(final(v)@) == upsert_views::<T>(views(old(v)@), row@),
{
    let ghost s = views(v@);
    let ghost key = T::key_of(row@);
    let mut i: usize = 0;
    assert(s.skip(0) =~= s);
    while i < v.len()
        invariant
            s == views(v@),
            key == T::key_of(row@),
            i <= v@.len(),
            key_index::<T>(s, key) == match key_index::<T>(s.skip(i as int), key) {
                Some(j) => Some(i + j),
                None => None,
            },
        ensures
            s == views(v@),
            i <= v@.len(),
            key_index::<T>(s, key) == match key_index::<T>(s.skip(i as int), key) {
                Some(j) => Some(i + j),
                None => None,
            },
            i < v@.len() ==> T::key_of(s[i as int]) == key,
        decreases v@.len() - i,
    {
        assert(s[i as int] == v@[i as int]@);
        assert(s.skip(i as int)[0] == v@[i as int]@);
        let here = v[i].row_key();
        let wanted = row.row_key();
        assert(here@ == T::key_of(v@[i as int]@));
        assert(wanted@ == key);
        if crate::text::str_eq(here, wanted) {
            break;
        }
        assert(T::key_of(s.skip(i as int)[0]) != key);
        assert(s.skip(i as int).drop_first() =~= s.skip(i + 1));
        i = i + 1;
    }
    let mut table: Vec<T> = Vec::new();
    std::mem::swap(&mut table, v);
    if i < table.len() {
        assert(s.skip(i as int)[0] == s[i as int]);
        assert(key_index::<T>(s.skip(i as int), key) == Some(0int));
        let _old = table.remove(i);
        table.insert(i, row);
        assert(views(table@) =~= s.update(i as int, row@));
    } else {
        assert(s.skip(i as int).len() == 0);
        table.push(row);
        assert(views(table@) =~= s.push(row@));
    }
    *v = sort_rows(table);
}

/// Removes every row with the given key, keeping the others in order.
pub fn remove_rows_with_key<T: TableRow>(v: &mut Vec<T>, key: &str)
    ensures
        views(final(v)@) == without_key::<T>(views(old(v)@), key@),
{
    let ghost orig = views(v@);
    assert(orig.len() == v.len());
    let mut src: Vec<T> = Vec::new();
    std::mem::swap(&mut src, v);
    let mut out: Vec<T> = Vec::new();
    let mut k: usize = 0;
    assert(orig.take(0) =~= Seq::<T::V>::empty());
    assert(views(src@) =~= orig.skip(0));
    while src.len() > 0
        invariant
            k <= orig.len(),
            orig.len() <= usize::MAX,
            views(src@) == orig.skip(k as int),
            views(out@) == without_key::<T>(orig.take(k as int), key@),
        decreases src@.len(),
    {
        let ghost before = src@;
        let x = src.remove(0);
        proof {
            lemma_views_remove(before, 0);
        }
        assert(x@ == orig[k as int]);
        assert(views(src@) =~= orig.skip(k + 1));
        assert(orig.take(k + 1).drop_last() =~= orig.take(k as int));
        assert(orig.take(k + 1).last() == x@);
        if !crate::text::str_eq(x.row_key(), key) {
            out.push(x);
            assert(views(out@) =~= without_key::<T>(orig.take(k as int), key@).push(x@));
        }
        k = k + 1;
    }
    assert(orig.take(k as int) =~= orig);
    *v = out;
}

/// A set of row keys (the selected rows of a table).  The keys are kept
/// in a vector without repetition rather than in a `BTreeSet<String>`:
/// vstd gives `String` no order that its `BTreeSet` specification can use,
/// so nothing could be proved of membership after an insert or a removal
/// there, while the vector's contents are fully specified.
#[derive(Debug, Default, PartialEq, Eq)]
pub struct KeySet {
    pub keys: Vec<String>,
}

/// The views of a list of keys.
pub open spec fn key_views(s: Seq<String>) -> Seq<Seq<char>> {
    s.map_values(|k: String| k@)
}

impl View for KeySet {
    type V = Set<Seq<char>>;

    open spec fn view(&self) -> Set<Seq<char>> {
        key_views(self.keys@).to_set()
    }
}

impl KeySet {
    /// No key occurs twice.
    pub open spec fn wf(&self) -> bool {
        key_views(self.keys@).no_duplicates()
    }

    /// The empty set.
    pub fn new() -> (r: KeySet)
        ensures
            r.wf(),
            r@ == Set::<Seq<char>>::empty(),
    {
        let r = KeySet { keys: Vec::new() };
        assert(r@ =~= Set::<Seq<char>>::empty());
        r
    }

    fn index_of(&self, key: &str) -> (r: Option<usize>)
        ensures
            r matches Some(i) ==> i < self.keys@.len() && self.keys@[i as int]@ == key@,
            r is None ==> !self@.contains(key@),
    {
        let mut i: usize = 0;
        while i < self.keys.len()
            invariant
                i <= self.keys@.len(),
                forall|j: int| 0 <= j < i ==> self.keys@[j]@ != key@,
            decreases self.keys@.len() - i,
        {
            if crate::text::str_eq(self.keys[i].as_str(), key) {
                return Some(i);
            }
            i = i + 1;
        }
        proof {
            if self@.contains(key@) {
                let j = choose|j: int| 0 <= j < key_views(self.keys@).len() && key_views(self.keys@)[j] == key@;
                assert(self.keys@[j]@ == key@);
            }
        }
        None
    }

    proof fn lemma_key_views_remove(s: Seq<String>, i: int)
        requires
            0 <= i < s.len(),
        ensures
            key_views(s.remove(i)) == key_views(s).remove(i),
            key_views(s)[i] == s[i]@,
            key_views(s).len() == s.len(),
    {
        assert(key_views(s.remove(i)) =~= key_views(s).remove(i));
    }

    /// Whether `key` is in the set.
    pub fn contains(&self, key: &str) -> (r: bool)
        ensures
            r == self@.contains(key@),
    {
        match self.index_of(key) {
            Some(i) => {
                assert(key_views(self.keys@)[i as int] == key@);
                true
            },
            None => false,
        }
    }

    /// The number of keys.
    pub fn len(&self) -> (r: usize)
        requires
            self.wf(),
        ensures
            r == self@.len(),
    {
        proof {
            key_views(self.keys@).unique_seq_to_set();
        }
        self.keys.len()
    }

    /// Adds `key`.
    pub fn insert(&mut self, key: &str)
        requires
            old(self).wf(),
        ensures
            final(self).wf(),
            final(self)@ == old(self)@.insert(key@),
    {
        let ghost before = key_views(self.keys@);
        match self.index_of(key) {
            Some(i) => {
                assert(before[i as int] == key@);
                assert(self@ =~= old(self)@.insert(key@));
            },
            None => {
                self.keys.push(key.to_owned());
                assert(key_views(self.keys@) =~= before.push(key@));
                proof {
                    before.lemma_push_to_set_commute(key@);
                    assert(!before.contains(key@));
                    assert forall|a: int, b: int|
                        0 <= a < b < before.len() + 1 implies #[trigger] before.push(key@)[a]
                            != #[trigger] before.push(key@)[b] by {
                        if b == before.len() {
                            assert(before[a] == before.push(key@)[a]);
                        }
                    }
                }
                assert(self@ =~= old(self)@.insert(key@));
            },
        }
    }

    /// Removes `key`.
    pub fn remove(&mut self, key: &str)
        requires
            old(self).wf(),
        ensures
            final(self).wf(),
            final(self)@ == old(self)@.remove(key@),
    {
        match self.index_of(key) {
            None => {
                assert(self@ =~= old(self)@.remove(key@));
            },
            Some(i) => {
                let ghost before = key_views(self.keys@);
                assert(before[i as int] == key@);
                let _gone = self.keys.remove(i);
                assert(key_views(self.keys@) =~= before.remove(i as int));
                assert forall|k: Seq<char>| self@.contains(k) <==> old(self)@.remove(key@).contains(k) by {
                    if self@.contains(k) {
                        let j = choose|j: int| 0 <= j < key_views(self.keys@).len() && key_views(self.keys@)[j] == k;
                        if j < i {
                            assert(before[j] == k);
                        } else {
                            assert(before[j + 1] == k);
                        }
                        assert(k != key@);
                    }
                    if old(self)@.remove(key@).contains(k) {
                        let j = choose|j: int| 0 <= j < before.len() && before[j] == k;
                        assert(j != i);
                        if j < i {
                            assert(key_views(self.keys@)[j] == k);
                        } else {
                            assert(key_views(self.keys@)[j - 1] == k);
                        }
                    }
                }
                assert(self@ =~= old(self)@.remove(key@));
            },
        }
    }

    /// Makes `key` the only key (a click on a row outside its checkbox).
    pub fn select_only(&mut self, key: &str)
        ensures
            final(self).wf(),
            final(self)@ == set![key@],
    {
        self.clear();
        self.insert(key);
        assert(Set::<Seq<char>>::empty().insert(key@) =~= set![key@]);
    }

    /// Removes every key.
    pub fn clear(&mut self)
        ensures
            final(self).wf(),
            final(self)@ == Set::<Seq<char>>::empty(),
    {
        self.keys = Vec::new();
        assert(self@ =~= Set::<Seq<char>>::empty());
    }

    /// Keeps only the keys that are also in `keep`.
    pub fn retain_in(&mut self, keep: &KeySet)
        requires
            old(self).wf(),
        ensures
            final(self).wf(),
            final(self)@ == old(self)@.intersect(keep@),
    {
        let ghost orig = key_views(self.keys@);
        assert(orig.len() == self.keys.len());
        let mut src: Vec<String> = Vec::new();
        std::mem::swap(&mut src, &mut self.keys);
        let mut out: Vec<String> = Vec::new();
        let mut k: usize = 0;
        assert(key_views(src@) =~= orig.skip(0));
        assert(key_views(out@).to_set() =~= orig.take(0).to_set().intersect(keep@));
        while src.len() > 0
            invariant
                orig.no_duplicates(),
                k <= orig.len(),
                orig.len() <= usize::MAX,
                key_views(src@) == orig.skip(k as int),
                key_views(out@).no_duplicates(),
                key_views(out@).to_set() == orig.take(k as int).to_set().intersect(keep@),
            decreases src@.len(),
        {
            let ghost src_before = src@;
            let x = src.remove(0);
            proof {
                KeySet::lemma_key_views_remove(src_before, 0);
            }
            assert(x@ == orig[k as int]);
            assert(key_views(src@) =~= orig.skip(k + 1));
            assert(orig.take(k + 1) =~= orig.take(k as int).push(x@));
            proof {
                orig.take(k as int).lemma_push_to_set_commute(x@);
            }
            if keep.contains(x.as_str()) {
                let ghost before = key_views(out@);
                proof {
                    if before.contains(x@) {
                        assert(before.to_set().contains(x@));
                        assert(orig.take(k as int).contains(x@));
                        let j = choose|j: int| 0 <= j < k && orig.take(k as int)[j] == x@;
                        assert(orig.take(k as int)[j] == orig[j]);
                        assert(false);
                    }
                    before.lemma_push_to_set_commute(x@);
                }
                out.push(x);
                assert(key_views(out@) =~= before.push(x@));
                assert(key_views(out@).to_set() =~= orig.take(k + 1).to_set().intersect(keep@));
            } else {
                assert(key_views(out@).to_set() =~= orig.take(k + 1).to_set().intersect(keep@));
            }
            k = k + 1;
        }
        assert(orig.take(k as int) =~= orig);
        self.keys = out;
        assert(self@ =~= old(self)@.intersect(keep@));
    }
}

/// Texts sort as texts, keyed by themselves.
impl TableRow for String {
    open spec fn key_of(v: Seq<char>) -> Seq<char> {
        v
    }

    open spec fn ordered_before(a: Seq<char>, b: Seq<char>) -> bool {
        text_lt(a, b)
    }

    fn row_key(&self) -> (r: &str) {
        self.as_str()
    }

    fn before(&self, other: &Self) -> (r: bool) {
        text_less(self.as_str(), other.as_str())
    }
}


// ---------------------------------------------------------------------------
// Laws of the text order and of table order
// ---------------------------------------------------------------------------

/// No text sorts before itself.
pub proof fn lemma_text_lt_irreflexive(a: Seq<char>)
    ensures
        !text_lt(a, a),
    decreases a.len(),
{
    if a.len() > 0 {
        lemma_text_lt_irreflexive(a.drop_first());
    }
}

/// The text order is transitive.
pub proof fn lemma_text_lt_transitive(a: Seq<char>, b: Seq<char>, c: Seq<char>)
    requires
        text_lt(a, b),
        text_lt(b, c),
    ensures
        text_lt(a, c),
    decreases a.len(),
{
    if a.len() > 0 && b.len() > 0 && c.len() > 0 {
        if a[0] == b[0] && b[0] == c[0] {
            lemma_text_lt_transitive(a.drop_first(), b.drop_first(), c.drop_first());
        }
    }
}

/// A table in table order: no row sorts strictly before an earlier one.
pub open spec fn in_table_order<R: TableRow>(s: Seq<R::V>) -> bool {
    forall|i: int, j: int| 0 <= i < j < s.len() ==> !R::ordered_before(#[trigger] s[j], #[trigger] s[i])
}

/// The row order is a strict order on the rows that `p` admits: none
/// before itself, and transitive.
pub open spec fn strict_order_on<R: TableRow>(p: spec_fn(R::V) -> bool) -> bool {
    &&& forall|a: R::V| p(a) ==> !R::ordered_before(a, a)
    &&& forall|a: R::V, b: R::V, c: R::V|
        p(a) && p(b) && p(c) && #[trigger] R::ordered_before(a, b) && #[trigger] R::ordered_before(b, c)
            ==> R::ordered_before(a, c)
}

proof fn lemma_insert_pos_facts<R: TableRow>(s: Seq<R::V>, x: R::V)
    ensures
        forall|k: int| 0 <= k < insert_pos::<R>(s, x) ==> !R::ordered_before(x, #[trigger] s[k]),
        insert_pos::<R>(s, x) < s.len() ==> R::ordered_before(x, s[insert_pos::<R>(s, x)]),
    decreases s.len(),
{
    lemma_insert_pos_bounds::<R>(s, x);
    if s.len() > 0 && !R::ordered_before(x, s[0]) {
        lemma_insert_pos_facts::<R>(s.drop_first(), x);
        assert forall|k: int| 0 <= k < insert_pos::<R>(s, x) implies !R::ordered_before(x, #[trigger] s[k]) by {
            if k > 0 {
                assert(s[k] == s.drop_first()[k - 1]);
            }
        }
        lemma_insert_pos_bounds::<R>(s.drop_first(), x);
        let q = insert_pos::<R>(s.drop_first(), x);
        if q < s.drop_first().len() {
            assert(s[q + 1] == s.drop_first()[q]);
        }
    }
}

/// Inserting at the stable position keeps a table in table order.
pub proof fn lemma_insert_sorted_in_order<R: TableRow>(s: Seq<R::V>, x: R::V, p: spec_fn(R::V) -> bool)
    requires
        strict_order_on::<R>(p),
        forall|i: int| 0 <= i < s.len() ==> p(#[trigger] s[i]),
        p(x),
        in_table_order::<R>(s),
    ensures
        in_table_order::<R>(insert_sorted::<R>(s, x)),
        forall|i: int| 0 <= i < insert_sorted::<R>(s, x).len() ==> p(#[trigger] insert_sorted::<R>(s, x)[i]),
{
    let q = insert_pos::<R>(s, x);
    lemma_insert_pos_bounds::<R>(s, x);
    lemma_insert_pos_facts::<R>(s, x);
    let t = insert_sorted::<R>(s, x);
    assert forall|i: int, j: int| 0 <= i < j < t.len() implies !R::ordered_before(#[trigger] t[j], #[trigger] t[i]) by {
        if j < q {
            assert(t[i] == s[i] && t[j] == s[j]);
        } else if j == q {
            assert(t[j] == x && t[i] == s[i]);
        } else if i == q {
            assert(t[i] == x && t[j] == s[j - 1]);
            if R::ordered_before(s[j - 1], x) {
                assert(R::ordered_before(x, s[q]));
                assert(p(s[q]) && p(s[j - 1]));
                if j - 1 == q {
                    assert(R::ordered_before(s[q], s[q]));
                } else {
                    assert(R::ordered_before(s[j - 1], s[q]));
                }
            }
        } else if i < q {
            assert(t[i] == s[i] && t[j] == s[j - 1]);
        } else {
            assert(t[i] == s[i - 1] && t[j] == s[j - 1]);
        }
    }
    assert forall|i: int| 0 <= i < t.len() implies p(#[trigger] t[i]) by {
        if i < q {
            assert(t[i] == s[i]);
        } else if i > q {
            assert(t[i] == s[i - 1]);
        }
    }
}

/// Table order puts rows in order, for a row order that is strict on the
/// rows of the table.
pub proof fn lemma_sort_views_in_order<R: TableRow>(s: Seq<R::V>, p: spec_fn(R::V) -> bool)
    requires
        strict_order_on::<R>(p),
        forall|i: int| 0 <= i < s.len() ==> p(#[trigger] s[i]),
    ensures
        in_table_order::<R>(sort_views::<R>(s)),
        forall|i: int| 0 <= i < sort_views::<R>(s).len() ==> p(#[trigger] sort_views::<R>(s)[i]),
    decreases s.len(),
{
    if s.len() > 0 {
        assert forall|i: int| 0 <= i < s.drop_last().len() implies p(#[trigger] s.drop_last()[i]) by {
            assert(s.drop_last()[i] == s[i]);
        }
        lemma_sort_views_in_order::<R>(s.drop_last(), p);
        assert(p(s[s.len() - 1]));
        lemma_insert_sorted_in_order::<R>(sort_views::<R>(s.drop_last()), s.last(), p);
    }
}

} // verus!
