use mirrord_layer::tunnel::{Tunnel, TunnelAction, TunnelEvent, DRAIN_SECONDS};
use std::io::ErrorKind;

fn is_write(action: &TunnelAction, expected: &[u8]) -> bool {
    match action {
        TunnelAction::Write(chunk) => chunk.as_slice() == expected,
        _ => false,
    }
}

#[test]
fn new_tunnel_waits_on_the_channel() {
    let tunnel = Tunnel::new();
    assert_eq!(tunnel, Tunnel { remote_closed: false, exited: false });
    assert!(tunnel.polls_remote());
    assert!(!tunnel.drains());
}

#[test]
fn drain_period_is_one_second() {
    assert_eq!(DRAIN_SECONDS, 1);
}

#[test]
fn chunk_is_written_in_full() {
    let mut tunnel = Tunnel::new();
    let action = tunnel.step(TunnelEvent::Remote(Some(b"hello".to_vec())));
    assert!(is_write(&action, b"hello"));
    assert_eq!(tunnel, Tunnel::new());
}

#[test]
fn empty_chunk_is_written_too() {
    let mut tunnel = Tunnel::new();
    let action = tunnel.step(TunnelEvent::Remote(Some(Vec::new())));
    assert!(is_write(&action, b""));
    assert_eq!(tunnel, Tunnel::new());
}

#[test]
fn local_bytes_are_discarded() {
    let mut tunnel = Tunnel::new();
    assert!(matches!(tunnel.step(TunnelEvent::LocalRead(Ok(1024))), TunnelAction::Continue));
    assert!(matches!(tunnel.step(TunnelEvent::LocalRead(Ok(1))), TunnelAction::Continue));
    assert_eq!(tunnel, Tunnel::new());
}

#[test]
fn would_block_is_no_event() {
    let mut tunnel = Tunnel::new();
    let action = tunnel.step(TunnelEvent::LocalRead(Err(ErrorKind::WouldBlock)));
    assert!(matches!(action, TunnelAction::Continue));
    assert_eq!(tunnel, Tunnel::new());
}

#[test]
fn local_end_of_stream_ends_the_tunnel() {
    let mut tunnel = Tunnel::new();
    assert!(matches!(tunnel.step(TunnelEvent::LocalRead(Ok(0))), TunnelAction::Exit));
    assert_eq!(tunnel, Tunnel { remote_closed: false, exited: true });
    assert!(!tunnel.polls_remote());
    assert!(!tunnel.drains());
}

#[test]
fn local_read_error_ends_the_tunnel() {
    let mut tunnel = Tunnel::new();
    let action = tunnel.step(TunnelEvent::LocalRead(Err(ErrorKind::ConnectionReset)));
    assert!(matches!(action, TunnelAction::Exit));
    assert!(tunnel.exited);
}

#[test]
fn failed_write_ends_the_tunnel() {
    let mut tunnel = Tunnel::new();
    assert!(is_write(&tunnel.step(TunnelEvent::Remote(Some(vec![1]))), &[1]));
    assert!(matches!(tunnel.step(TunnelEvent::WriteFailed), TunnelAction::Exit));
    assert!(tunnel.exited);
}

#[test]
fn remote_close_starts_the_drain() {
    let mut tunnel = Tunnel::new();
    assert!(matches!(tunnel.step(TunnelEvent::Remote(None)), TunnelAction::Drain(1)));
    assert_eq!(tunnel, Tunnel { remote_closed: true, exited: false });
    assert!(!tunnel.polls_remote());
    assert!(tunnel.drains());
}

#[test]
fn draining_tunnel_keeps_discarding() {
    let mut tunnel = Tunnel::new();
    tunnel.step(TunnelEvent::Remote(None));
    assert!(matches!(tunnel.step(TunnelEvent::LocalRead(Ok(512))), TunnelAction::Continue));
    let action = tunnel.step(TunnelEvent::LocalRead(Err(ErrorKind::WouldBlock)));
    assert!(matches!(action, TunnelAction::Continue));
    assert_eq!(tunnel, Tunnel { remote_closed: true, exited: false });
}

#[test]
fn drain_timer_ends_the_tunnel() {
    let mut tunnel = Tunnel::new();
    tunnel.step(TunnelEvent::Remote(None));
    assert!(matches!(tunnel.step(TunnelEvent::DrainElapsed), TunnelAction::Exit));
    assert_eq!(tunnel, Tunnel { remote_closed: true, exited: true });
    assert!(!tunnel.drains());
}

#[test]
fn close_right_after_open_writes_nothing() {
    let mut tunnel = Tunnel::new();
    let mut written: Vec<u8> = Vec::new();
    for event in [TunnelEvent::Remote(None), TunnelEvent::DrainElapsed] {
        if let TunnelAction::Write(chunk) = tunnel.step(event) {
            written.extend(chunk);
        }
    }
    assert!(written.is_empty());
    assert!(tunnel.exited);
}

#[test]
fn local_end_of_stream_while_draining() {
    let mut tunnel = Tunnel::new();
    tunnel.step(TunnelEvent::Remote(None));
    assert!(matches!(tunnel.step(TunnelEvent::LocalRead(Ok(0))), TunnelAction::Exit));
    assert!(tunnel.exited);
}

#[test]
fn exited_tunnel_stays_exited() {
    let mut tunnel = Tunnel::new();
    tunnel.step(TunnelEvent::LocalRead(Ok(0)));
    let before = tunnel;
    assert!(matches!(tunnel.step(TunnelEvent::LocalRead(Ok(10))), TunnelAction::Exit));
    assert!(matches!(tunnel.step(TunnelEvent::WriteFailed), TunnelAction::Exit));
    assert!(matches!(tunnel.step(TunnelEvent::Remote(Some(vec![1]))), TunnelAction::Exit));
    assert_eq!(tunnel, before);
}

#[test]
fn chunks_are_written_in_order() {
    let mut tunnel = Tunnel::new();
    let mut written: Vec<u8> = Vec::new();
    let events = vec![
        TunnelEvent::Remote(Some(b"ab".to_vec())),
        TunnelEvent::LocalRead(Ok(3)),
        TunnelEvent::Remote(Some(b"".to_vec())),
        TunnelEvent::LocalRead(Err(ErrorKind::WouldBlock)),
        TunnelEvent::Remote(Some(b"cde".to_vec())),
        TunnelEvent::Remote(None),
    ];
    for event in events {
        if let TunnelAction::Write(chunk) = tunnel.step(event) {
            written.extend(chunk);
        }
    }
    assert_eq!(written, b"abcde".to_vec());
    assert!(tunnel.remote_closed);
    assert!(!tunnel.exited);
}

#[test]
fn early_exit_truncates_the_suffix() {
    let mut tunnel = Tunnel::new();
    let mut written: Vec<u8> = Vec::new();
    let events = vec![
        TunnelEvent::Remote(Some(b"ab".to_vec())),
        TunnelEvent::LocalRead(Ok(0)),
        TunnelEvent::Remote(Some(b"cd".to_vec())),
    ];
    for event in events {
        if let TunnelAction::Write(chunk) = tunnel.step(event) {
            written.extend(chunk);
        }
    }
    assert_eq!(written, b"ab".to_vec());
}
