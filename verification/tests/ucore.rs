use u_window::UCore;

#[test]
fn new_core_has_nothing_to_show_or_commit() {
    let core = UCore::new();
    assert_eq!(core.render_pre_edit(), "");
    assert!(core.get_hide());
    assert!(!core.should_commit());
}

#[test]
fn commit_on_a_new_core_gives_the_empty_text() {
    let mut core = UCore::new();
    assert_eq!(core.commit(), "");
    assert!(!core.should_commit());
}

#[test]
fn process_key_changes_nothing() {
    let mut core = UCore::new();
    core.process_key(65, 0);
    assert_eq!(core.render_pre_edit(), "");
    assert!(core.get_hide());
    assert!(!core.should_commit());
    assert_eq!(core.commit(), "");
}
