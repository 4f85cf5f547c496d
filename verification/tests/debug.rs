use git_nav::debug::Debugger;

#[test]
fn debugger_starts_empty() {
    let debugger = Debugger::new();
    assert_eq!(debugger.get_data(), "");
}

#[test]
fn debugger_keeps_last_update() {
    let mut debugger = Debugger::new();
    debugger.update("first".to_string());
    debugger.update("second".to_string());
    assert_eq!(debugger.get_data(), "second");
}
