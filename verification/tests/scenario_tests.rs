use mirrord_layer::error::LayerError;
use mirrord_layer::handler::TcpMirrorHandler;
use mirrord_layer::protocol::{
    ClientMessage, IpAddress, LayerTcp, Listen, NewTcpConnection, Protocol, SocketAddress,
    TcpClose, TcpData,
};
use mirrord_layer::tunnel::{Tunnel, TunnelAction, TunnelEvent};
use tokio::sync::mpsc::error::TryRecvError;
use tokio::sync::mpsc::Receiver;

/// A local server that counts what it is sent, with the tunnel that feeds it.
struct LocalServer {
    tunnel: Tunnel,
    receiver: Receiver<Vec<u8>>,
    received: Vec<u8>,
    discarded: usize,
    timer_armed: bool,
    closed: bool,
}

impl LocalServer {
    fn new(receiver: Receiver<Vec<u8>>) -> Self {
        LocalServer {
            tunnel: Tunnel::new(),
            receiver,
            received: Vec::new(),
            discarded: 0,
            timer_armed: false,
            closed: false,
        }
    }

    fn perform(&mut self, action: TunnelAction) {
        match action {
            TunnelAction::Write(chunk) => self.received.extend(chunk),
            TunnelAction::Continue => {}
            TunnelAction::Drain(seconds) => {
                assert_eq!(seconds, 1);
                self.timer_armed = true;
            }
            TunnelAction::Exit => self.closed = true,
        }
    }

    /// Takes everything that the channel holds right now.
    fn pump(&mut self) {
        while self.tunnel.polls_remote() {
            let event = match self.receiver.try_recv() {
                Ok(chunk) => TunnelEvent::Remote(Some(chunk)),
                Err(TryRecvError::Disconnected) => TunnelEvent::Remote(None),
                Err(TryRecvError::Empty) => return,
            };
            let action = self.tunnel.step(event);
            self.perform(action);
        }
    }

    /// The server answers with that many bytes.
    fn answer(&mut self, count: usize) {
        let action = self.tunnel.step(TunnelEvent::LocalRead(Ok(count)));
        if matches!(action, TunnelAction::Continue) {
            self.discarded += count;
        }
        self.perform(action);
    }

    /// The drain timer runs out, if it was started.
    fn second_passes(&mut self) {
        if self.timer_armed && self.tunnel.drains() {
            let action = self.tunnel.step(TunnelEvent::DrainElapsed);
            self.perform(action);
        }
    }
}

fn listen(port: u16) -> Listen {
    Listen {
        requested_port: port,
        actual_local_addr: SocketAddress { ip: IpAddress::V4(0x7f00_0001), port },
        protocol: Protocol::Tcp,
    }
}

fn new_connection(id: u64, port: u16) -> NewTcpConnection {
    NewTcpConnection {
        connection_id: id,
        remote_address: SocketAddress { ip: IpAddress::V4(0x0a00_0005), port: 40000 },
        destination_port: port,
        local_address: SocketAddress { ip: IpAddress::V4(0x0a00_0001), port },
    }
}

fn data(id: u64, bytes: &[u8]) -> TcpData {
    TcpData { connection_id: id, bytes: bytes.to_vec() }
}

#[test]
fn one_request_is_replayed_and_the_connection_closed() {
    let mut handler = TcpMirrorHandler::new();
    assert_eq!(
        handler.handle_listen(listen(8080)),
        Ok(ClientMessage::Tcp(LayerTcp::PortSubscribe(8080)))
    );
    let receiver = handler.handle_new_connection(new_connection(1, 8080), Ok(())).unwrap();
    let mut server = LocalServer::new(receiver);
    assert_eq!(handler.handle_new_data(data(1, b"GET / HTTP/1.0\r\n\r\n")), Ok(()));
    assert_eq!(handler.handle_close(TcpClose { connection_id: 1 }), Ok(()));
    server.pump();
    assert_eq!(server.received, b"GET / HTTP/1.0\r\n\r\n".to_vec());
    assert_eq!(server.received.len(), 18);
    assert!(server.timer_armed);
    assert!(!server.closed);
    server.second_passes();
    assert!(server.closed);
    assert_eq!(server.received.len(), 18);
}

#[test]
fn interleaved_connections_do_not_mix() {
    let mut handler = TcpMirrorHandler::new();
    handler.handle_listen(listen(8080)).unwrap();
    handler.handle_listen(listen(9090)).unwrap();
    let mut first = LocalServer::new(handler.handle_new_connection(new_connection(1, 8080), Ok(())).unwrap());
    let mut second =
        LocalServer::new(handler.handle_new_connection(new_connection(2, 9090), Ok(())).unwrap());
    for round in 0..10 {
        assert_eq!(handler.handle_new_data(data(1, b"a")), Ok(()));
        assert_eq!(handler.handle_new_data(data(2, b"b")), Ok(()));
        if round % 3 == 0 {
            first.pump();
        } else {
            second.pump();
        }
    }
    first.pump();
    second.pump();
    assert_eq!(first.received, b"aaaaaaaaaa".to_vec());
    assert_eq!(second.received, b"bbbbbbbbbb".to_vec());
}

#[test]
fn server_that_never_reads_loses_the_connection() {
    let mut handler = TcpMirrorHandler::new();
    let mut wire = Vec::new();
    wire.push(handler.handle_listen(listen(8080)).unwrap());
    let mut server = LocalServer::new(handler.handle_new_connection(new_connection(1, 8080), Ok(())).unwrap());
    for _ in 0..1000 {
        assert_eq!(handler.handle_new_data(data(1, b"x")), Ok(()));
    }
    assert_eq!(handler.handle_new_data(data(1, b"x")), Err(LayerError::ChannelSend));
    assert_eq!(
        handler.handle_close(TcpClose { connection_id: 1 }),
        Err(LayerError::NoConnectionId(1))
    );
    assert_eq!(wire, vec![ClientMessage::Tcp(LayerTcp::PortSubscribe(8080))]);
    server.pump();
    assert_eq!(server.received.len(), 1000);
    assert!(server.timer_armed);
    server.second_passes();
    assert!(server.closed);
}

#[test]
fn unknown_connection_leaves_the_core_healthy() {
    let mut handler = TcpMirrorHandler::new();
    assert_eq!(handler.handle_new_data(data(42, b"x")), Err(LayerError::NoConnectionId(42)));
    assert_eq!(
        handler.handle_listen(listen(8080)),
        Ok(ClientMessage::Tcp(LayerTcp::PortSubscribe(8080)))
    );
    let mut server = LocalServer::new(handler.handle_new_connection(new_connection(42, 8080), Ok(())).unwrap());
    assert_eq!(handler.handle_new_data(data(42, b"x")), Ok(()));
    server.pump();
    assert_eq!(server.received, b"x".to_vec());
}

#[test]
fn second_subscription_is_not_announced() {
    let mut handler = TcpMirrorHandler::new();
    let mut wire = Vec::new();
    let first = handler.handle_listen(listen(8080));
    let second = handler.handle_listen(listen(8080));
    for result in [first, second] {
        if let Ok(message) = result {
            wire.push(message);
        }
    }
    assert_eq!(second, Err(LayerError::ListenAlreadyExists));
    assert_eq!(wire, vec![ClientMessage::Tcp(LayerTcp::PortSubscribe(8080))]);
}

#[test]
fn answer_of_the_local_server_is_discarded() {
    let mut handler = TcpMirrorHandler::new();
    handler.handle_listen(listen(8080)).unwrap();
    let mut server = LocalServer::new(handler.handle_new_connection(new_connection(1, 8080), Ok(())).unwrap());
    for _ in 0..512 {
        server.answer(1024);
    }
    assert_eq!(handler.handle_close(TcpClose { connection_id: 1 }), Ok(()));
    server.pump();
    assert!(server.timer_armed);
    for _ in 0..512 {
        server.answer(1024);
    }
    assert!(!server.closed);
    server.answer(0);
    assert!(server.closed);
    assert_eq!(server.discarded, 1024 * 1024);
    assert!(server.received.is_empty());
}

#[test]
fn close_right_after_open_ends_the_tunnel_within_the_drain() {
    let mut handler = TcpMirrorHandler::new();
    handler.handle_listen(listen(8080)).unwrap();
    let mut server = LocalServer::new(handler.handle_new_connection(new_connection(1, 8080), Ok(())).unwrap());
    assert_eq!(handler.handle_close(TcpClose { connection_id: 1 }), Ok(()));
    server.pump();
    assert!(server.timer_armed);
    server.second_passes();
    assert!(server.closed);
    assert!(server.received.is_empty());
}

#[test]
fn dropping_the_handler_ends_every_tunnel() {
    let mut handler = TcpMirrorHandler::new();
    handler.handle_listen(listen(8080)).unwrap();
    let mut first = LocalServer::new(handler.handle_new_connection(new_connection(1, 8080), Ok(())).unwrap());
    let mut second =
        LocalServer::new(handler.handle_new_connection(new_connection(2, 8080), Ok(())).unwrap());
    drop(handler);
    for server in [&mut first, &mut second] {
        server.pump();
        server.second_passes();
        assert!(server.closed);
    }
}
