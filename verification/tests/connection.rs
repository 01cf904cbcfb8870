use remconn::errors::SshErrorKind;
use remconn::ssh::frame_writer::FrameWriter;
use remconn::ssh::ssh_connection::{
    ConnectionState, SshConnection, DEFAULT_TCP_PORT, LOCALHOST_HOSTNAME, READ_BUFFER_LENGTH,
};
use remconn::ssh::ssh_packet::SshPacket;

fn local_connection() -> SshConnection {
    SshConnection::new(
        String::from(LOCALHOST_HOSTNAME),
        String::from(DEFAULT_TCP_PORT),
        String::from("admin"),
    )
}

fn connected() -> SshConnection {
    let mut connection = local_connection();
    connection.connect().unwrap();
    connection.finish_connect(Ok(())).unwrap();
    connection
}

#[test]
fn test_connect_unknown_host() {
    let hostname = String::from("unknown_host");
    let tcp_port = String::from(DEFAULT_TCP_PORT);
    let user = String::from("admin");

    let mut ssh_connection = SshConnection::new(hostname, tcp_port, user);

    let address = ssh_connection.connect().unwrap();
    let outcome = Err(format!("failed to lookup address information: {}", address));
    assert!(ssh_connection.finish_connect(outcome).is_err());
}

#[test]
fn new_connection_is_disconnected_and_keeps_its_endpoint() {
    let connection = local_connection();
    assert_eq!(connection.state(), ConnectionState::Disconnected);
    assert_eq!(connection.hostname(), "127.0.0.1");
    assert_eq!(connection.tcp_port(), "22");
    assert_eq!(connection.user(), "admin");
}

#[test]
fn connect_names_host_and_port() {
    let connection = local_connection();
    assert_eq!(connection.connect().unwrap(), "127.0.0.1:22");
    assert_eq!(connection.state(), ConnectionState::Disconnected);

    let other = SshConnection::new(String::from("example.org"), String::from("2222"), String::new());
    assert_eq!(other.connect().unwrap(), "example.org:2222");
}

#[test]
fn failed_connect_is_a_connect_error_and_can_be_tried_again() {
    let mut connection = SshConnection::new(
        String::from("unknown_host"),
        String::from(DEFAULT_TCP_PORT),
        String::from("admin"),
    );
    assert_eq!(connection.connect().unwrap(), "unknown_host:22");
    let error = connection
        .finish_connect(Err(String::from("connection refused")))
        .unwrap_err();
    assert_eq!(error.kind(), SshErrorKind::ConnectError);
    assert_eq!(error.message(), "Couldn't connect to server : connection refused");
    assert_eq!(connection.state(), ConnectionState::Disconnected);

    assert_eq!(connection.connect().unwrap(), "unknown_host:22");
    assert!(connection.finish_connect(Ok(())).is_ok());
    assert_eq!(connection.state(), ConnectionState::Connected);
    assert_eq!(connection.hostname(), "unknown_host");
    assert_eq!(connection.tcp_port(), "22");
    assert_eq!(connection.user(), "admin");
}

#[test]
fn connect_while_connected_is_refused() {
    let mut connection = connected();
    let error = connection.connect().unwrap_err();
    assert_eq!(error.kind(), SshErrorKind::AlreadyConnected);
    assert_eq!(error.message(), "Already connected");
    assert_eq!(connection.state(), ConnectionState::Connected);

    let error = connection.finish_connect(Ok(())).unwrap_err();
    assert_eq!(error.kind(), SshErrorKind::AlreadyConnected);
    let error = connection.finish_connect(Err(String::from("refused"))).unwrap_err();
    assert_eq!(error.kind(), SshErrorKind::AlreadyConnected);
    assert_eq!(connection.state(), ConnectionState::Connected);
}

#[test]
fn send_while_disconnected_gives_nothing_to_write() {
    let connection = local_connection();
    let error = connection.send(String::from("echo test")).unwrap_err();
    assert_eq!(error.kind(), SshErrorKind::NotConnected);
    assert_eq!(
        error.message(),
        "You have to connect to the server before sending commands"
    );

    let packet = SshPacket::from_parts(String::from("abc"), vec![0; 8]).unwrap();
    let error = connection.send_packet(packet).unwrap_err();
    assert_eq!(error.kind(), SshErrorKind::NotConnected);
}

#[test]
fn read_while_disconnected_is_refused() {
    let connection = local_connection();
    let error = connection.read().unwrap_err();
    assert_eq!(error.kind(), SshErrorKind::NotConnected);
    assert_eq!(error.message(), "You have to connect to the server before reading");

    let error = connection.finish_read(Ok(vec![b'o', b'k'])).unwrap_err();
    assert_eq!(error.kind(), SshErrorKind::NotConnected);
}

#[test]
fn disconnect_while_disconnected_is_refused() {
    let error = local_connection().disconnect().unwrap_err();
    assert_eq!(error.kind(), SshErrorKind::NotConnected);
    assert_eq!(
        error.message(),
        "You have to connect to the server before disconnecting"
    );
}

#[test]
fn session_against_a_peer_that_answers_ok() {
    let mut connection = local_connection();
    assert_eq!(connection.connect().unwrap(), "127.0.0.1:22");
    assert!(connection.finish_connect(Ok(())).is_ok());

    let mut observed: Vec<u8> = Vec::new();
    let mut writer = connection.send(String::from("echo test")).unwrap();
    while !writer.is_complete() {
        let offered = writer.remaining();
        let taken: usize = if offered.len() > 5 { 5 } else { offered.len() };
        observed.extend_from_slice(&offered[..taken]);
        writer.advance(Ok(taken)).unwrap();
    }
    assert_eq!(observed.len() % 8, 0);
    assert_eq!(&observed[5..14], "echo test".as_bytes());
    assert_eq!(observed.len(), 5 + 9 + observed[4] as usize);

    assert_eq!(connection.read().unwrap(), 128);
    assert_eq!(connection.finish_read(Ok(b"ok".to_vec())).unwrap(), "ok");

    assert!(connection.disconnect().is_ok());
    assert!(SshConnection::finish_disconnect(Ok(())).is_ok());
}

#[test]
fn send_packet_hands_out_the_frame_unwritten() {
    let connection = connected();
    let packet = SshPacket::from_parts(String::from("abc"), vec![1, 2, 3, 4, 5, 6, 7, 8]).unwrap();
    let writer = connection.send_packet(packet).unwrap();
    assert!(!writer.is_complete());
    assert_eq!(
        writer.remaining(),
        &[0u8, 0, 0, 12, 8, 97, 98, 99, 1, 2, 3, 4, 5, 6, 7, 8][..]
    );
}

#[test]
fn frame_that_fails_the_checks_is_an_encode_error() {
    let connection = connected();
    let packet = SshPacket::from_parts(String::from("abc"), vec![0; 4]).unwrap();
    let error = connection.send_packet(packet).unwrap_err();
    assert_eq!(error.kind(), SshErrorKind::EncodeError);
    assert_eq!(
        error.message(),
        "An error occured while creating SSH packets : A problem occurred on SSH crate : The minimum size of the packet is less than 16 bytes"
    );

    let packet = SshPacket::from_parts(String::from("abcd"), vec![0; 8]).unwrap();
    let error = connection.send_packet(packet).unwrap_err();
    assert_eq!(error.kind(), SshErrorKind::EncodeError);
    assert_eq!(
        error.message(),
        "An error occured while creating SSH packets : A problem occurred on SSH crate : The size of the packet must be a multiple of 8"
    );
}

#[test]
fn oversized_command_is_an_encode_error() {
    let connection = connected();
    let mut command = String::new();
    let mut i: usize = 0;
    while i < 35000 {
        command.push('a');
        i += 1;
    }
    let error = connection.send(command).unwrap_err();
    assert_eq!(error.kind(), SshErrorKind::EncodeError);
    assert_eq!(
        error.message(),
        "An error occured while creating SSH packets : A problem occurred on SSH crate : The maximum size of the packet is more than 35000 bytes"
    );
}

#[test]
fn read_asks_for_the_buffer_length() {
    let connection = connected();
    assert_eq!(READ_BUFFER_LENGTH, 128);
    assert_eq!(connection.read().unwrap(), READ_BUFFER_LENGTH);
}

#[test]
fn read_of_no_bytes_is_the_empty_text() {
    let connection = connected();
    assert_eq!(connection.finish_read(Ok(Vec::new())).unwrap(), "");
}

#[test]
fn read_keeps_valid_utf8_as_it_is() {
    let connection = connected();
    let bytes: Vec<u8> = vec![0x68, 0xc3, 0xa9, 0xe2, 0x82, 0xac, 0x0a];
    assert_eq!(connection.finish_read(Ok(bytes)).unwrap(), "h\u{e9}\u{20ac}\n");
}

#[test]
fn read_replaces_invalid_bytes() {
    let connection = connected();
    let bytes: Vec<u8> = vec![b'f', 0xff, b'o', 0xc3];
    assert_eq!(
        connection.finish_read(Ok(bytes)).unwrap(),
        "f\u{fffd}o\u{fffd}"
    );
}

#[test]
fn failed_read_is_a_read_error() {
    let connection = connected();
    let error = connection
        .finish_read(Err(String::from("connection reset")))
        .unwrap_err();
    assert_eq!(error.kind(), SshErrorKind::ReadError);
    assert_eq!(
        error.message(),
        "An error occured while reading datas : connection reset"
    );
    assert_eq!(connection.state(), ConnectionState::Connected);
}

#[test]
fn disconnect_while_connected_asks_for_the_shutdown() {
    let connection = connected();
    assert!(connection.disconnect().is_ok());
}

#[test]
fn failed_shutdown_is_a_disconnect_error() {
    let error = SshConnection::finish_disconnect(Err(String::from("not connected"))).unwrap_err();
    assert_eq!(error.kind(), SshErrorKind::DisconnectError);
    assert_eq!(
        error.message(),
        "An error occured while shutting down the stream : not connected"
    );
    assert!(SshConnection::finish_disconnect(Ok(())).is_ok());
}

#[test]
fn write_that_takes_no_bytes_is_a_write_error() {
    let mut writer = FrameWriter::new(vec![7; 16]);
    let mut round: u32 = 0;
    while round < 3 {
        let error = writer.advance(Ok(0)).unwrap_err();
        assert_eq!(error.kind(), SshErrorKind::WriteError);
        assert_eq!(
            error.message(),
            "An error occured while sending datas : the stream took no bytes"
        );
        assert_eq!(writer.remaining().len(), 16);
        round += 1;
    }
}

#[test]
fn failed_write_is_a_write_error() {
    let mut writer = FrameWriter::new(vec![7; 16]);
    writer.advance(Ok(6)).unwrap();
    let error = writer.advance(Err(String::from("broken pipe"))).unwrap_err();
    assert_eq!(error.kind(), SshErrorKind::WriteError);
    assert_eq!(
        error.message(),
        "An error occured while sending datas : broken pipe"
    );
    assert_eq!(writer.remaining().len(), 10);
}

#[test]
fn write_that_claims_too_much_is_a_write_error() {
    let mut writer = FrameWriter::new(vec![7; 16]);
    let error = writer.advance(Ok(17)).unwrap_err();
    assert_eq!(error.kind(), SshErrorKind::WriteError);
    assert_eq!(
        error.message(),
        "An error occured while sending datas : the stream reported more bytes than it was given"
    );
    assert_eq!(writer.remaining().len(), 16);
    assert!(writer.advance(Ok(16)).is_ok());
    assert!(writer.is_complete());
    assert!(writer.advance(Ok(1)).is_err());
    assert!(writer.advance(Ok(0)).is_ok());
}

#[test]
fn partial_writes_go_on_where_the_last_one_ended() {
    let frame: Vec<u8> = vec![0, 1, 2, 3, 4, 5, 6, 7, 8, 9, 10, 11, 12, 13, 14, 15];
    let mut writer = FrameWriter::new(frame.clone());
    assert_eq!(writer.remaining(), &frame[..]);
    writer.advance(Ok(1)).unwrap();
    assert_eq!(writer.remaining(), &frame[1..]);
    writer.advance(Ok(9)).unwrap();
    assert_eq!(writer.remaining(), &frame[10..]);
    assert!(!writer.is_complete());
    writer.advance(Ok(6)).unwrap();
    assert!(writer.is_complete());
    assert_eq!(writer.remaining().len(), 0);
}

#[test]
fn writer_of_an_empty_frame_is_complete() {
    let writer = FrameWriter::new(Vec::new());
    assert!(writer.is_complete());
}
