use tcp_socket::socket::{Socket, SocketError, SocketState};

#[test]
fn test_can_create_socket() {
    let sock = Socket::new(3);
    assert_eq!(
        sock.is_ok(),
        true,
        "retured a file descriptor with a value of -1"
    );
}

#[test]
fn test_bind_socket_to_port() {
    let mut sock = Socket::new(3).expect("Failed to create socket");
    // use 0 to allow the use to chose an avaiable ephepermal port
    let record = sock.bind("0.0.0.0", 0);
    assert!(record.is_ok());
    let _ = sock.bind_complete(0);
    // close the socket after use
    let _ = sock.release();
}

#[test]
fn test_bind_socket_invalid_fd() {
    let sock = Socket::new(3).expect("Failed to create socket");
    // use 0 to allow the use to chose an avaiable ephepermal port
    let res = sock.bind("-dvddfvfdvdvd0.0.0.0", 0);

    assert_eq!(res.is_err(), true, "Should fail to bind scoket")
}

#[test]
fn test_bind_socket_port_in_use() {
    let mut sock_1 = Socket::new(3).expect("Failed to create socket");
    let mut sock_2 = Socket::new(4).expect("Failed to create socket");

    // bind first soccket
    assert!(sock_1.bind("0.0.0.0", 1150).is_ok());
    let res1 = sock_1.bind_complete(0);
    // bind second sock to the same port: the OS reports failure
    assert!(sock_2.bind("0.0.0.0", 1150).is_ok());
    let res2 = sock_2.bind_complete(-1);

    assert_eq!(res1.is_ok(), true, "Failed to bind socket to port");
    assert_ne!(res2.is_ok(), true, "Bound socket to port successfully");

    let _ = sock_1.release();
    let _ = sock_2.release();
}

#[test]
fn test_new_socket_is_created_and_owns_descriptor() {
    let sock = Socket::new(3).unwrap();
    assert_eq!(sock.state(), SocketState::Created);
    assert_eq!(sock.descriptor(), 3);
    let other = Socket::new(4).unwrap();
    assert_ne!(sock.descriptor(), other.descriptor());
}

#[test]
fn test_new_socket_reports_creation_failure() {
    let sock = Socket::new(-1);
    assert_eq!(sock.unwrap_err(), SocketError::SocketCreation);
}

#[test]
fn test_lifecycle_chain() {
    let mut sock = Socket::new(5).unwrap();
    assert_eq!(sock.state(), SocketState::Created);

    let record = sock.bind("127.0.0.1", 8080).unwrap();
    assert_eq!(record.len(), 16);
    sock.bind_complete(0).unwrap();
    assert_eq!(sock.state(), SocketState::Bound);

    sock.listen(16).unwrap();
    sock.listen_complete(0).unwrap();
    assert_eq!(sock.state(), SocketState::Listening);

    sock.accept().unwrap();
    let conn = sock.accept_complete(7).unwrap();
    assert_eq!(conn.state(), SocketState::Connected);
    assert_eq!(conn.descriptor(), 7);
    assert_eq!(sock.state(), SocketState::Listening);

    let conn2 = sock.accept_complete(9).unwrap();
    assert_eq!(conn2.state(), SocketState::Connected);
    assert_eq!(conn2.descriptor(), 9);
    assert_eq!(sock.state(), SocketState::Listening);
}

#[test]
fn test_listen_before_bind_fails_invalid_state() {
    let sock = Socket::new(4).unwrap();
    let res = sock.listen(16);
    assert_eq!(res.unwrap_err(), SocketError::InvalidState);
    assert_eq!(sock.state(), SocketState::Created);
}

#[test]
fn test_accept_before_listening_fails_invalid_state() {
    let mut sock = Socket::new(4).unwrap();
    assert_eq!(sock.accept().unwrap_err(), SocketError::InvalidState);
    assert_eq!(
        sock.accept_complete(7).unwrap_err(),
        SocketError::InvalidState
    );

    sock.bind("0.0.0.0", 0).unwrap();
    sock.bind_complete(0).unwrap();
    assert_eq!(sock.state(), SocketState::Bound);
    assert_eq!(sock.accept().unwrap_err(), SocketError::InvalidState);
    assert_eq!(
        sock.accept_complete(7).unwrap_err(),
        SocketError::InvalidState
    );
}

#[test]
fn test_malformed_address_leaves_state_created() {
    let mut sock = Socket::new(4).unwrap();
    let res = sock.bind("not dotted decimal!", 80);
    assert_eq!(res.unwrap_err(), SocketError::AddressParse);
    assert_eq!(sock.state(), SocketState::Created);

    // the handle is still usable afterward
    assert!(sock.bind("10.0.0.1", 80).is_ok());
    sock.bind_complete(0).unwrap();
    assert_eq!(sock.state(), SocketState::Bound);
}

#[test]
fn test_bind_port_zero_succeeds() {
    let mut sock = Socket::new(4).unwrap();
    let record = sock.bind("0.0.0.0", 0).unwrap();
    assert_eq!(record[2], 0);
    assert_eq!(record[3], 0);
    sock.bind_complete(0).unwrap();
    assert_eq!(sock.state(), SocketState::Bound);
}

#[test]
fn test_bind_failure_keeps_first_handle_usable() {
    let mut sock_1 = Socket::new(3).unwrap();
    let mut sock_2 = Socket::new(4).unwrap();

    assert!(sock_1.bind("0.0.0.0", 1150).is_ok());
    sock_1.bind_complete(0).unwrap();

    assert!(sock_2.bind("0.0.0.0", 1150).is_ok());
    assert_eq!(sock_2.bind_complete(-1).unwrap_err(), SocketError::Bind);
    assert_eq!(sock_2.state(), SocketState::Created);

    // the first handle is untouched by the second one's failure
    assert_eq!(sock_1.state(), SocketState::Bound);
    assert_eq!(sock_1.listen(16).unwrap(), 16);
    sock_1.listen_complete(0).unwrap();
    assert_eq!(sock_1.state(), SocketState::Listening);
}

#[test]
fn test_release_is_idempotent() {
    let mut sock = Socket::new(6).unwrap();
    assert_eq!(sock.release(), Some(6));
    assert_eq!(sock.state(), SocketState::Closed);
    assert_eq!(sock.release(), None);
    assert_eq!(sock.state(), SocketState::Closed);
}

#[test]
fn test_operations_after_release_fail_invalid_state() {
    let mut sock = Socket::new(6).unwrap();
    assert_eq!(sock.release(), Some(6));
    assert_eq!(
        sock.bind("0.0.0.0", 80).unwrap_err(),
        SocketError::InvalidState
    );
    assert_eq!(sock.bind_complete(0).unwrap_err(), SocketError::InvalidState);
    assert_eq!(sock.listen(16).unwrap_err(), SocketError::InvalidState);
    assert_eq!(
        sock.listen_complete(0).unwrap_err(),
        SocketError::InvalidState
    );
    assert_eq!(sock.accept().unwrap_err(), SocketError::InvalidState);
    assert_eq!(
        sock.accept_complete(8).unwrap_err(),
        SocketError::InvalidState
    );
}

#[test]
fn test_os_failures_leave_state_unchanged() {
    let mut sock = Socket::new(5).unwrap();
    sock.bind("0.0.0.0", 0).unwrap();
    assert_eq!(sock.bind_complete(-1).unwrap_err(), SocketError::Bind);
    assert_eq!(sock.state(), SocketState::Created);

    sock.bind_complete(0).unwrap();
    assert_eq!(sock.listen_complete(-1).unwrap_err(), SocketError::Listen);
    assert_eq!(sock.state(), SocketState::Bound);

    sock.listen_complete(0).unwrap();
    assert_eq!(sock.accept_complete(-1).unwrap_err(), SocketError::Accept);
    assert_eq!(sock.state(), SocketState::Listening);
}
