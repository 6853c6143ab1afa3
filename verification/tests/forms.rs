use miku_ui::forms::NewClusterForm;

#[test]
fn new_cluster_form_cancel_clears_state() {
    let mut form = NewClusterForm {
        open: true,
        context: "kind-miku".to_owned(),
        config: "apiVersion: v1".to_owned(),
        error: Some("failed".to_owned()),
    };

    form.cancel();

    assert_eq!(form, NewClusterForm::default());
}

#[test]
fn new_cluster_form_save_success_closes_and_clears_state() {
    let mut form = NewClusterForm {
        open: true,
        context: "kind-miku".to_owned(),
        config: "apiVersion: v1".to_owned(),
        error: None,
    };

    form.save_succeeded();

    assert_eq!(form, NewClusterForm::default());
}

#[test]
fn new_cluster_form_save_failure_keeps_input() {
    let mut form = NewClusterForm {
        open: true,
        context: "kind-miku".to_owned(),
        config: "apiVersion: v1".to_owned(),
        error: None,
    };

    form.save_failed("duplicate context");

    assert!(form.open);
    assert_eq!(form.context, "kind-miku");
    assert_eq!(form.config, "apiVersion: v1");
    assert_eq!(form.error.as_deref(), Some("duplicate context"));
}

#[test]
fn new_cluster_form_open_keeps_input_and_clears_error() {
    let mut form = NewClusterForm {
        open: false,
        context: "kind-miku".to_owned(),
        config: "apiVersion: v1".to_owned(),
        error: Some("failed".to_owned()),
    };

    form.open();

    assert!(form.open);
    assert_eq!(form.context, "kind-miku");
    assert_eq!(form.error, None);
}

#[test]
fn new_cluster_form_save_started_clears_error_only() {
    let mut form = NewClusterForm {
        open: true,
        context: "kind-miku".to_owned(),
        config: "apiVersion: v1".to_owned(),
        error: Some("failed".to_owned()),
    };

    form.save_started();

    assert!(form.open);
    assert_eq!(form.config, "apiVersion: v1");
    assert_eq!(form.error, None);
}
