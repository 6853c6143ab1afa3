use vstd::prelude::*;

verus! {

/// State of the "new cluster" dialog: whether it is shown, the context name and
/// kubeconfig text typed so far, and the last save error.
#[derive(Debug, PartialEq, Eq)]
pub struct NewClusterForm {
    pub open: bool,
    pub context: String,
    pub config: String,
    pub error: Option<String>,
}

impl NewClusterForm {
    /// The cleared form: closed, empty inputs, no error.
    pub open spec fn is_cleared(&self) -> bool {
        &&& !self.open
        &&& self.context@ == Seq::<char>::empty()
        &&& self.config@ == Seq::<char>::empty()
        &&& self.error is None
    }

    /// Shows the dialog and forgets an earlier error; the typed inputs stay.
    pub fn open(&mut self)
        ensures
            final(self).open,
            final(self).error is None,
            final(self).context == old(self).context,
            final(self).config == old(self).config,
    {
        self.open = true;
        self.error = None;
    }

    /// Closes the dialog and clears every input.
    pub fn cancel(&mut self)
        ensures
            final(self).is_cleared(),
    {
        *self = Self::default();
    }

    /// A save is under way: the earlier error goes, the rest stays.
    pub fn save_started(&mut self)
        ensures
            final(self).error is None,
            final(self).open == old(self).open,
            final(self).context == old(self).context,
            final(self).config == old(self).config,
    {
        self.error = None;
    }

    /// A save failed: the error is recorded and the inputs are kept for another try.
    pub fn save_failed(&mut self, error: &str)
        ensures
            final(self).error matches Some(e) && e@ == error@,
            final(self).open == old(self).open,
            final(self).context == old(self).context,
            final(self).config == old(self).config,
    {
        self.error = Some(error.to_owned());
    }

    /// A save succeeded: the dialog closes and the form is cleared.
    pub fn save_succeeded(&mut self)
        ensures
            final(self).is_cleared(),
    {
        self.cancel();
    }
}

impl Default for NewClusterForm {
    fn default() -> (form: Self)
        ensures
            form.is_cleared(),
    {
        NewClusterForm { open: false, context: String::new(), config: String::new(), error: None }
    }
}

} // verus!
