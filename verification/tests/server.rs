use shellshop::server::{server_settings, ClientHandler, OutputBuffer, ShellShopServer, ShellStart};

#[test]
fn clients_are_numbered_in_order() {
    let mut server = ShellShopServer::default();
    assert_eq!(server.new_client().id(), 0);
    assert_eq!(server.new_client().id(), 1);
    assert_eq!(server.new_client().id(), 2);
}

#[test]
fn new_session_defaults() {
    let h = ClientHandler::new(7);
    assert_eq!(h.id(), 7);
    assert_eq!(h.dims(), (80, 24));
    assert!(h.accepts_auth());
    assert!(h.accepts_session_channel());
    assert_eq!(h.data(b"ignored"), None);
}

#[test]
fn terminal_sizes_follow_the_client() {
    let mut h = ClientHandler::new(1);
    h.pty_request(120, 40);
    assert_eq!(h.dims(), (120, 40));
    h.window_change_request(70000, 65537);
    assert_eq!(h.dims(), (4464, 1));
}

#[test]
fn shell_starts_once() {
    let mut h = ClientHandler::new(3);
    h.pty_request(100, 30);
    assert_eq!(h.shell_request(), Some(ShellStart { client_id: 3, cols: 100, rows: 30 }));
    assert_eq!(h.data(b"ab"), Some(b"ab".to_vec()));
    assert_eq!(h.shell_request(), None);
    assert_eq!(h.data(b"c"), Some(b"c".to_vec()));
}

#[test]
fn input_stops_after_eof_or_close() {
    let mut h = ClientHandler::new(0);
    assert!(h.shell_request().is_some());
    h.channel_eof();
    assert_eq!(h.data(b"x"), None);
    assert_eq!(h.shell_request(), None);
    assert_eq!(h.data(b"x"), None);

    let mut h = ClientHandler::new(0);
    assert!(h.shell_request().is_some());
    h.channel_close();
    assert_eq!(h.data(b"x"), None);
}

#[test]
fn output_is_flushed_in_order() {
    let mut out = OutputBuffer::new();
    assert_eq!(out.take_pending(), None);
    assert_eq!(out.write(b"ab"), 2);
    assert_eq!(out.write(b""), 0);
    assert_eq!(out.write(b"cde"), 3);
    assert_eq!(out.take_pending(), Some(b"abcde".to_vec()));
    assert_eq!(out.take_pending(), None);
    out.write(b"f");
    assert_eq!(out.take_pending(), Some(b"f".to_vec()));
}

#[test]
fn settings_for_interactive_use() {
    let s = server_settings();
    assert_eq!(s.inactivity_timeout_secs, Some(3600));
    assert_eq!(s.auth_rejection_time_ms, 500);
    assert_eq!(s.auth_rejection_time_initial_secs, Some(0));
    assert!(s.nodelay);
}
