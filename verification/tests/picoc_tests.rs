use guest_driver::picoc::Picoc;

#[test]
fn fresh_session_is_ready_and_passes_reports_through() {
    let mut pc = Picoc::default();
    assert!(pc.execute("int main() { return 0; }".to_string(), true));
    assert!(!pc.execute("int main() { return 1 }".to_string(), false));
    // the session stays usable across programs
    assert!(pc.execute("void f() {}".to_string(), true));
}
