use sol_trade_sdk::keepalive::{KeepAlive, Restart};

#[test]
fn second_start_aborts_first() {
    let mut k = KeepAlive::new();
    let first = k.start();
    assert_eq!(first, Restart { start: 0, abort: None });
    assert!(k.may_ping(0));
    let second = k.start();
    assert_eq!(second, Restart { start: 1, abort: Some(0) });
    assert!(!k.may_ping(0));
    assert!(k.may_ping(1));
}

#[test]
fn stop_aborts_live_loop() {
    let mut k = KeepAlive::new();
    assert_eq!(k.stop(), None);
    k.start();
    assert_eq!(k.stop(), Some(0));
    assert!(!k.may_ping(0));
    assert_eq!(k.live, None);
    assert!(k.stopped);
}
