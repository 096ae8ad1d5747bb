use psst_core::connection::TcpShutdown;

#[test]
fn fresh_guard_is_open() {
    let g = TcpShutdown::new();
    assert!(!g.has_been_shut_down());
}

#[test]
fn first_shutdown_closes_later_ones_do_not() {
    // Many shutdown requests: exactly one is told to close the socket.
    let mut g = TcpShutdown::new();
    let mut closes = 0;
    for _ in 0..10 {
        if g.shutdown() {
            closes += 1;
        }
    }
    assert_eq!(closes, 1);
    assert!(g.has_been_shut_down());
}

#[test]
fn shutdown_reports_terminal_state() {
    let mut g = TcpShutdown::new();
    assert!(g.shutdown());
    assert!(g.has_been_shut_down());
    assert!(!g.shutdown());
    assert!(g.has_been_shut_down());
}
