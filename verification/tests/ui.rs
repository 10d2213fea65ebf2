use sovereign_cli::ui::{local_url, ready_line, ready_url, READY_PREFIX};

#[test]
fn the_ready_line_the_desktop_shell_parses_is_stable() {
    assert_eq!(READY_PREFIX, "sovereign-ui listening on ");
}

#[test]
fn the_ready_line_carries_the_bound_address_and_parses_back() {
    assert_eq!(local_url(7787), "http://127.0.0.1:7787");
    let line = ready_line(41234);
    assert_eq!(line, "sovereign-ui listening on http://127.0.0.1:41234");
    assert_eq!(ready_url(&line).as_deref(), Some("http://127.0.0.1:41234"));
    assert_eq!(ready_url("Sovereign Founder OS · local app"), None);
}
