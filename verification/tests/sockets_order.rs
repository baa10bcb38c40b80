use wsentry::model::{SocketProtocol, SocketSnapshot};
use wsentry::sockets::{listener_socket, order_sockets, socket_priority};

fn socket(protocol: SocketProtocol, port: u16, state: &str) -> SocketSnapshot {
    SocketSnapshot {
        protocol,
        local_address: "127.0.0.1".to_owned(),
        local_port: port,
        remote_address: None,
        remote_port: None,
        state: state.to_owned(),
        associated_pids: vec![42],
        process_names: vec!["api".to_owned()],
    }
}

#[test]
fn prioritizes_listening_tcp_sockets() {
    let socket = SocketSnapshot {
        protocol: SocketProtocol::Tcp,
        local_address: "127.0.0.1".to_owned(),
        local_port: 8080,
        remote_address: None,
        remote_port: None,
        state: "LISTEN".to_owned(),
        associated_pids: vec![42],
        process_names: vec!["api".to_owned()],
    };
    assert_eq!(socket_priority(&socket), 0);
}

#[test]
fn other_sockets_follow_listeners() {
    assert_eq!(socket_priority(&socket(SocketProtocol::Tcp, 1, "ESTABLISHED")), 1);
    assert_eq!(socket_priority(&socket(SocketProtocol::Udp, 1, "LISTEN")), 2);
}

#[test]
fn ordering_puts_listeners_first_then_by_port() {
    let ordered = order_sockets(vec![
        socket(SocketProtocol::Udp, 53, "NONE"),
        socket(SocketProtocol::Tcp, 9000, "ESTABLISHED"),
        socket(SocketProtocol::Tcp, 8080, "LISTEN"),
        socket(SocketProtocol::Tcp, 22, "LISTEN"),
    ]);
    let ports: Vec<u16> = ordered.iter().map(|s| s.local_port).collect();
    assert_eq!(ports, vec![22, 8080, 9000, 53]);
}

#[test]
fn listeners_become_socket_records() {
    let s = listener_socket("Tcp", "0.0.0.0".to_owned(), 8080, "listen", 42, "api".to_owned());
    assert_eq!(s.protocol, SocketProtocol::Tcp);
    assert_eq!(s.state, "LISTEN");
    assert_eq!(s.associated_pids, vec![42]);
    assert_eq!(s.process_names, vec!["api".to_owned()]);
    assert!(s.remote_address.is_none());
    let u = listener_socket("UDP", "::".to_owned(), 53, "", 7, "dns".to_owned());
    assert_eq!(u.protocol, SocketProtocol::Udp);
}
