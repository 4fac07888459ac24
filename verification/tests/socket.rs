// Scenarios of a socket's life: what the library hands to nanomsg for
// each operation, and what it makes of nanomsg's answers.

use nanomsg::reader::DEFAULT_BUF_SIZE;
use nanomsg::socket::{open_call, receive_into, send_outcome};
use nanomsg::{
    Duration, IoErrorKind, NanoErrorKind, OptionValue, Protocol, ReadStep, ReadToEnd, Socket,
    SocketOption,
};

fn open(protocol: Protocol, descriptor: i32) -> Socket {
    let (domain, number) = open_call(protocol);
    assert_eq!(domain, 1);
    assert_eq!(number, protocol.to_raw());
    match Socket::from_raw(descriptor) {
        Ok(socket) => socket,
        Err(err) => panic!("{}", err.description),
    }
}

fn int_value(value: &OptionValue) -> i32 {
    match value {
        OptionValue::Int(v) => *v,
        OptionValue::Text(t) => panic!("unexpected text option {}", t),
    }
}

fn set(socket: &Socket, opt: SocketOption, level: i32, name: i32) -> OptionValue {
    let call = socket.option_call(&opt);
    assert_eq!(call.socket, socket.raw());
    assert_eq!(call.level, level);
    assert_eq!(call.option, name);
    match socket.option_outcome(&opt, 0) {
        Ok(..) => {}
        Err(err) => panic!("{}", err.description),
    }
    call.value
}

fn receive(buf: &mut [u8], msg: &[u8]) -> usize {
    match receive_into(buf, msg, msg.len() as i32) {
        Ok(len) => len,
        Err(err) => panic!("{:?}", err),
    }
}

#[test]
fn initialize_socket() {
    let socket = open(Protocol::Pull, 0);
    assert!(socket.raw() >= 0);
}

#[test]
fn bind_socket() {
    let socket = open(Protocol::Pull, 0);
    match socket.bind_outcome("ipc:///tmp/bind_socket.ipc", 1) {
        Ok(endpoint) => {
            assert_eq!(endpoint.value, 1);
            assert_eq!(endpoint.socket, 0);
        }
        Err(err) => panic!("{}", err.description),
    }
}

#[test]
fn receive_from_socket() {
    let pull = open(Protocol::Pull, 0);
    assert!(pull.bind_outcome("ipc:///tmp/pipeline.ipc", 1).is_ok());
    let push = open(Protocol::Push, 1);
    assert!(push.connect_outcome("ipc:///tmp/pipeline.ipc", 1).is_ok());
    let sent = b"foobar";
    match send_outcome(sent.len(), 6) {
        Ok(..) => {}
        Err(err) => panic!("Failed to write to the socket: {:?}", err),
    }
    let mut buf = [0u8; 6];
    let len = receive(&mut buf, sent);
    assert_eq!(len, 6);
    assert_eq!(&buf[..], b"foobar");
}

#[test]
fn receive_string_from_req_rep_socket() {
    let rep = open(Protocol::Rep, 0);
    assert!(rep.bind_outcome("ipc:///tmp/reqrep.ipc", 1).is_ok());
    let req = open(Protocol::Req, 1);
    assert!(req.connect_outcome("ipc:///tmp/reqrep.ipc", 1).is_ok());
    let message = "This is a long string for the test.";
    assert!(send_outcome(message.len(), message.len() as i32).is_ok());

    let mut reader = ReadToEnd::new();
    let mut buf = vec![0u8; DEFAULT_BUF_SIZE];
    let read = receive_into(&mut buf, message.as_bytes(), message.len() as i32);
    match reader.step(read, &buf) {
        ReadStep::Done(bytes) => {
            assert_eq!(String::from_utf8(bytes).unwrap(), "This is a long string for the test.")
        }
        other => panic!("{:?}", other),
    }
}

#[test]
fn send_and_recv_from_socket_in_pair() {
    let bound = open(Protocol::Pair, 0);
    assert!(bound.bind_outcome("ipc:///tmp/pair.ipc", 1).is_ok());
    let connected = open(Protocol::Pair, 1);
    assert!(connected.connect_outcome("ipc:///tmp/pair.ipc", 1).is_ok());

    assert!(send_outcome(6, 6).is_ok());
    let mut buf = [0u8; 6];
    assert_eq!(receive(&mut buf, b"foobar"), 6);
    assert_eq!(&buf[..], b"foobar");

    assert!(send_outcome(6, 6).is_ok());
    let mut buf = [0u8; 6];
    assert_eq!(receive(&mut buf, b"foobaz"), 6);
    assert_eq!(&buf[..], b"foobaz");
}

#[test]
fn send_and_receive_from_socket_in_bus() {
    let hub = open(Protocol::Bus, 0);
    assert!(hub.bind_outcome("ipc:///tmp/bus.ipc", 1).is_ok());
    for descriptor in 1..3 {
        let node = open(Protocol::Bus, descriptor);
        assert!(node.connect_outcome("ipc:///tmp/bus.ipc", 1).is_ok());
        let mut buf = [0u8; 6];
        assert_eq!(receive(&mut buf, b"foobar"), 6);
        assert_eq!(&buf[..], b"foobar");
    }
    assert!(send_outcome(6, 6).is_ok());
}

#[test]
fn send_and_receive_from_socket_in_pubsub() {
    for descriptor in 1..3 {
        let sub = open(Protocol::Sub, descriptor);
        let value = set(&sub, SocketOption::Subscribe("foo".to_string()), 33, 1);
        match value {
            OptionValue::Text(topic) => assert_eq!(topic, "foo"),
            OptionValue::Int(v) => panic!("unexpected int option {}", v),
        }
        assert!(sub.connect_outcome("ipc:///tmp/pubsub.ipc", 1).is_ok());
        let mut buf = [0u8; 6];
        assert_eq!(receive(&mut buf, b"foobar"), 6);
        assert_eq!(&buf[..], b"foobar");
    }
    let publisher = open(Protocol::Pub, 0);
    assert!(publisher.bind_outcome("ipc:///tmp/pubsub.ipc", 1).is_ok());
    assert!(send_outcome(6, 6).is_ok());
}

#[test]
fn send_and_receive_from_socket_in_survey() {
    for (descriptor, answer) in [(1, b"yes"), (2, b"YES")] {
        let respondent = open(Protocol::Respondent, descriptor);
        assert!(respondent.connect_outcome("ipc:///tmp/survey.ipc", 1).is_ok());
        let mut buf = [0u8; 9];
        assert_eq!(receive(&mut buf, b"yes_or_no"), 9);
        assert_eq!(&buf[..], b"yes_or_no");
        assert!(send_outcome(answer.len(), 3).is_ok());
    }

    let surveyor = open(Protocol::Surveyor, 0);
    let deadline = Duration::milliseconds(500);
    let value = set(&surveyor, SocketOption::SurveyDeadline(deadline), 98, 1);
    assert_eq!(int_value(&value), 500);
    assert!(surveyor.bind_outcome("ipc:///tmp/survey.ipc", 1).is_ok());
    assert!(send_outcome(9, 9).is_ok());

    for answer in [b"yes", b"YES"] {
        let mut buf = [0u8; 3];
        assert_eq!(receive(&mut buf, answer), 3);
        assert!(&buf[..] == b"yes" || &buf[..] == b"YES");
    }
}

#[test]
fn should_change_linger() {
    let socket = open(Protocol::Pair, 0);
    assert!(socket.raw() >= 0);
    let linger = Duration::milliseconds(1024);
    let value = set(&socket, SocketOption::Linger(linger), 0, 1);
    assert_eq!(int_value(&value), 1024);
}

#[test]
fn should_change_send_buffer_size() {
    let socket = open(Protocol::Pair, 0);
    assert!(socket.raw() >= 0);
    let size: isize = 64 * 1024;
    let value = set(&socket, SocketOption::SendBufferSize(size), 0, 2);
    assert_eq!(int_value(&value), 65536);
}

#[test]
fn should_change_receive_buffer_size() {
    let socket = open(Protocol::Pair, 0);
    assert!(socket.raw() >= 0);
    let size: isize = 64 * 1024;
    let value = set(&socket, SocketOption::ReceiveBufferSize(size), 0, 3);
    assert_eq!(int_value(&value), 65536);
}

#[test]
fn should_change_send_timeout() {
    let socket = open(Protocol::Pair, 0);
    assert!(socket.raw() >= 0);
    let timeout = Duration::milliseconds(-2);
    let value = set(&socket, SocketOption::SendTimeout(timeout), 0, 4);
    assert_eq!(int_value(&value), -2);
}

#[test]
fn should_change_receive_timeout() {
    let socket = open(Protocol::Pair, 0);
    assert!(socket.raw() >= 0);
    let timeout = Duration::milliseconds(200);
    let value = set(&socket, SocketOption::ReceiveTimeout(timeout), 0, 5);
    assert_eq!(int_value(&value), 200);
}

#[test]
fn should_change_reconnect_interval() {
    let socket = open(Protocol::Pair, 0);
    assert!(socket.raw() >= 0);
    let interval = Duration::milliseconds(142);
    let value = set(&socket, SocketOption::ReconnectInterval(interval), 0, 6);
    assert_eq!(int_value(&value), 142);
}

#[test]
fn should_change_max_reconnect_interval() {
    let socket = open(Protocol::Pair, 0);
    assert!(socket.raw() >= 0);
    let interval = Duration::milliseconds(666);
    let value = set(&socket, SocketOption::MaxReconnectInterval(interval), 0, 7);
    assert_eq!(int_value(&value), 666);
}

#[test]
fn should_change_send_priority() {
    let socket = open(Protocol::Pair, 0);
    assert!(socket.raw() >= 0);
    let value = set(&socket, SocketOption::SendPriority(15u8), 0, 8);
    assert_eq!(int_value(&value), 15);
}

#[test]
fn should_change_receive_priority() {
    let socket = open(Protocol::Pair, 0);
    assert!(socket.raw() >= 0);
    let value = set(&socket, SocketOption::ReceivePriority(2u8), 0, 9);
    assert_eq!(int_value(&value), 2);
}

#[test]
fn should_change_ipv4_only() {
    let socket = open(Protocol::Pair, 0);
    assert!(socket.raw() >= 0);
    let value = set(&socket, SocketOption::Ipv4Only(true), 0, 14);
    assert_eq!(int_value(&value), 1);
}

#[test]
fn should_change_socket_name() {
    let socket = open(Protocol::Pair, 0);
    assert!(socket.raw() >= 0);
    let value = set(&socket, SocketOption::SocketName("bob".to_string()), 0, 15);
    match value {
        OptionValue::Text(name) => assert_eq!(name, "bob"),
        OptionValue::Int(v) => panic!("unexpected int option {}", v),
    }
}

#[test]
fn should_change_request_resend_interval() {
    let socket = open(Protocol::Req, 0);
    assert!(socket.raw() >= 0);
    let interval = Duration::milliseconds(60042);
    let value = set(&socket, SocketOption::RequestResendInterval(interval), 48, 1);
    assert_eq!(int_value(&value), 60042);
}

#[test]
fn should_change_tcp_nodelay() {
    let socket = open(Protocol::Pair, 0);
    assert!(socket.raw() >= 0);
    let value = set(&socket, SocketOption::TcpNoDelay(true), -3, 1);
    assert_eq!(int_value(&value), 1);
}

#[test]
fn failed_open_reports_initialization_error() {
    match Socket::from_raw(-1) {
        Ok(..) => panic!("a socket from -1"),
        Err(err) => {
            assert_eq!(err.kind, NanoErrorKind::SocketInitializationError);
            assert_eq!(err.description, "Failed to create a new nanomsg socket. Error: {}");
        }
    }
}

#[test]
fn descriptor_other_than_minus_one_is_a_socket() {
    let socket = Socket::from_raw(7).unwrap();
    assert_eq!(socket.raw(), 7);
    assert!(Socket::from_raw(-2).is_ok());
}

#[test]
fn failed_bind_and_connect_report_bind_error() {
    let socket = open(Protocol::Pull, 4);
    let err = socket.bind_outcome("tcp://nowhere:1", -1).unwrap_err();
    assert_eq!(err.kind, NanoErrorKind::SocketBindError);
    assert_eq!(err.description, "Failed to find the socket to the address: tcp://nowhere:1");
    let err = socket.connect_outcome("ipc:///tmp/x.ipc", -1).unwrap_err();
    assert_eq!(err.kind, NanoErrorKind::SocketBindError);
    assert_eq!(err.description, "Failed to find the socket to the address: ipc:///tmp/x.ipc");
    assert!(socket.connect_outcome("ipc:///tmp/x.ipc", 0).is_ok());
}

#[test]
fn send_fails_unless_every_byte_goes() {
    assert!(send_outcome(6, 6).is_ok());
    assert_eq!(send_outcome(6, 5), Err(IoErrorKind::OtherIoError));
    assert_eq!(send_outcome(6, -1), Err(IoErrorKind::OtherIoError));
    assert_eq!(send_outcome(0, 0), Ok(()));
}

#[test]
fn failed_receive_leaves_buffer() {
    let mut buf = [9u8; 4];
    assert_eq!(receive_into(&mut buf, b"ab", -1), Err(IoErrorKind::OtherIoError));
    assert_eq!(buf, [9u8; 4]);
}

#[test]
fn receive_copies_what_fits() {
    let mut short = [0u8; 3];
    assert_eq!(receive_into(&mut short, b"foobar", 6), Ok(3));
    assert_eq!(&short, b"foo");
    let mut long = [7u8; 8];
    assert_eq!(receive_into(&mut long, b"foo", 3), Ok(3));
    assert_eq!(&long, &[b'f', b'o', b'o', 7, 7, 7, 7, 7]);
}

#[test]
fn read_to_end_skips_empty_messages() {
    let mut reader = ReadToEnd::new();
    let mut buf = vec![0u8; DEFAULT_BUF_SIZE];
    for _ in 0..5 {
        let read = receive_into(&mut buf, b"", 0);
        assert!(matches!(reader.step(read, &buf), ReadStep::Receive));
    }
    let read = receive_into(&mut buf, b"hello", 5);
    match reader.step(read, &buf) {
        ReadStep::Done(bytes) => assert_eq!(bytes, b"hello".to_vec()),
        other => panic!("{:?}", other),
    }
}

#[test]
fn read_to_end_gives_up_after_empty_messages() {
    let mut reader = ReadToEnd::new();
    let buf = vec![0u8; 16];
    for _ in 0..999 {
        assert!(matches!(reader.step(Ok(0), &buf), ReadStep::Receive));
    }
    assert!(matches!(reader.step(Ok(0), &buf), ReadStep::Failed(IoErrorKind::NoProgress)));
}

#[test]
fn read_to_end_passes_failure_on() {
    let mut reader = ReadToEnd::new();
    let buf = vec![0u8; 16];
    assert!(matches!(
        reader.step(Err(IoErrorKind::OtherIoError), &buf),
        ReadStep::Failed(IoErrorKind::OtherIoError)
    ));
}

#[test]
fn read_to_end_keeps_at_most_the_buffer() {
    let mut reader = ReadToEnd::new();
    let buf = vec![1u8, 2, 3, 4];
    match reader.step(Ok(10), &buf) {
        ReadStep::Done(bytes) => assert_eq!(bytes, vec![1u8, 2, 3, 4]),
        other => panic!("{:?}", other),
    }
}

#[test]
fn read_to_end_of_a_long_message_keeps_the_buffer() {
    let mut reader = ReadToEnd::new();
    let mut buf = vec![0u8; 4];
    let read = receive_into(&mut buf, b"abcdefgh", 8);
    assert_eq!(read, Ok(4));
    match reader.step(read, &buf) {
        ReadStep::Done(bytes) => assert_eq!(bytes, b"abcd".to_vec()),
        other => panic!("{:?}", other),
    }
}
