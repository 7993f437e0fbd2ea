use hdc_rs::{ForwardNode, ForwardTask, HdcError};

#[test]
fn test_parse_tcp() {
    let node = ForwardNode::parse("tcp:8080").unwrap();
    assert_eq!(node, ForwardNode::Tcp(8080));
    assert_eq!(node.as_protocol_string(), "tcp:8080");
}

#[test]
fn test_parse_jdwp() {
    let node = ForwardNode::parse("jdwp:1234").unwrap();
    assert_eq!(node, ForwardNode::Jdwp(1234));
    assert_eq!(node.as_protocol_string(), "jdwp:1234");
}

#[test]
fn test_parse_ark() {
    let node = ForwardNode::parse("ark:100@200@Debugger").unwrap();
    let expected = ForwardNode::Ark {
        pid: 100,
        tid: 200,
        debugger: "Debugger".to_string(),
    };
    assert_eq!(node, expected);
    assert_eq!(node.as_protocol_string(), "ark:100@200@Debugger");
}

#[test]
fn test_forward_task() {
    let task = ForwardTask::forward(ForwardNode::Tcp(8080), ForwardNode::Tcp(8081));
    assert_eq!(task.to_command_string(), "fport tcp:8080 tcp:8081");
    assert_eq!(task.task_string(), "tcp:8080 tcp:8081");
}

fn protocol_error(input: &str) -> String {
    match ForwardNode::parse(input) {
        Err(HdcError::Protocol(msg)) => msg,
        other => panic!("unexpected result for {:?}: {:?}", input, other),
    }
}

#[test]
fn every_variant_round_trips() {
    let nodes = vec![
        ForwardNode::Tcp(0),
        ForwardNode::Tcp(9),
        ForwardNode::Tcp(10),
        ForwardNode::Tcp(8080),
        ForwardNode::Tcp(65535),
        ForwardNode::LocalFilesystem("/tmp/socket".to_string()),
        ForwardNode::LocalFilesystem(String::new()),
        ForwardNode::LocalReserved("name".to_string()),
        ForwardNode::LocalAbstract("tcp:80".to_string()),
        ForwardNode::Dev("device_name".to_string()),
        ForwardNode::Dev("设备@1".to_string()),
        ForwardNode::Jdwp(0),
        ForwardNode::Jdwp(1234),
        ForwardNode::Jdwp(u32::MAX),
        ForwardNode::Ark { pid: 1234, tid: 5678, debugger: "Debugger".to_string() },
        ForwardNode::Ark { pid: 0, tid: u32::MAX, debugger: String::new() },
    ];
    for node in nodes {
        let text = node.as_protocol_string();
        assert_eq!(ForwardNode::parse(&text).unwrap(), node, "{}", text);
    }
}

#[test]
fn wire_forms() {
    assert_eq!(ForwardNode::Tcp(65535).as_protocol_string(), "tcp:65535");
    assert_eq!(ForwardNode::Tcp(0).as_protocol_string(), "tcp:0");
    assert_eq!(
        ForwardNode::LocalFilesystem("/tmp/socket".to_string()).as_protocol_string(),
        "localfilesystem:/tmp/socket"
    );
    assert_eq!(
        ForwardNode::LocalReserved("name".to_string()).as_protocol_string(),
        "localreserved:name"
    );
    assert_eq!(
        ForwardNode::LocalAbstract("name".to_string()).as_protocol_string(),
        "localabstract:name"
    );
    assert_eq!(ForwardNode::Dev("ttyS0".to_string()).as_protocol_string(), "dev:ttyS0");
    assert_eq!(ForwardNode::Jdwp(4294967295).as_protocol_string(), "jdwp:4294967295");
    assert_eq!(
        ForwardNode::Ark { pid: 1234, tid: 5678, debugger: "Debugger".to_string() }
            .as_protocol_string(),
        "ark:1234@5678@Debugger"
    );
}

#[test]
fn parse_names() {
    assert_eq!(
        ForwardNode::parse("localfilesystem:/tmp/socket").unwrap(),
        ForwardNode::LocalFilesystem("/tmp/socket".to_string())
    );
    assert_eq!(
        ForwardNode::parse("localreserved:name").unwrap(),
        ForwardNode::LocalReserved("name".to_string())
    );
    assert_eq!(
        ForwardNode::parse("localabstract:name").unwrap(),
        ForwardNode::LocalAbstract("name".to_string())
    );
    assert_eq!(
        ForwardNode::parse("dev:device_name").unwrap(),
        ForwardNode::Dev("device_name".to_string())
    );
    assert_eq!(ForwardNode::parse("dev:").unwrap(), ForwardNode::Dev(String::new()));
}

#[test]
fn wrong_arity_of_ark_is_rejected() {
    assert_eq!(
        protocol_error("ark:1@2"),
        "Invalid ark format: expected pid@tid@debugger, got 1@2"
    );
    assert_eq!(
        protocol_error("ark:1"),
        "Invalid ark format: expected pid@tid@debugger, got 1"
    );
    assert_eq!(
        protocol_error("ark:"),
        "Invalid ark format: expected pid@tid@debugger, got "
    );
    assert_eq!(
        protocol_error("ark:1@2@a@b"),
        "Invalid ark format: expected pid@tid@debugger, got 1@2@a@b"
    );
}

#[test]
fn ark_with_a_debugger_name_that_holds_the_separator_does_not_round_trip() {
    let node = ForwardNode::Ark { pid: 1, tid: 2, debugger: "a@b".to_string() };
    assert_eq!(node.as_protocol_string(), "ark:1@2@a@b");
    assert!(matches!(ForwardNode::parse("ark:1@2@a@b"), Err(HdcError::Protocol(_))));
}

#[test]
fn non_numeric_fields_are_rejected() {
    assert_eq!(protocol_error("tcp:abc"), "Invalid TCP port: abc");
    assert_eq!(protocol_error("tcp:"), "Invalid TCP port: ");
    assert_eq!(protocol_error("tcp:80a"), "Invalid TCP port: 80a");
    assert_eq!(protocol_error("tcp: 80"), "Invalid TCP port:  80");
    assert_eq!(protocol_error("tcp:-1"), "Invalid TCP port: -1");
    assert_eq!(protocol_error("tcp:+"), "Invalid TCP port: +");
    assert_eq!(protocol_error("tcp:８０"), "Invalid TCP port: ８０");
    assert_eq!(protocol_error("jdwp:x"), "Invalid JDWP pid: x");
    assert_eq!(protocol_error("jdwp:"), "Invalid JDWP pid: ");
    assert_eq!(protocol_error("ark:a@2@d"), "Invalid pid in ark: a");
    assert_eq!(protocol_error("ark:@2@d"), "Invalid pid in ark: ");
    assert_eq!(protocol_error("ark:1@b@d"), "Invalid tid in ark: b");
    assert_eq!(protocol_error("ark:1@@d"), "Invalid tid in ark: ");
}

#[test]
fn numbers_out_of_range_are_rejected() {
    assert_eq!(protocol_error("tcp:65536"), "Invalid TCP port: 65536");
    assert_eq!(protocol_error("tcp:99999999999999999999999"), "Invalid TCP port: 99999999999999999999999");
    assert_eq!(protocol_error("jdwp:4294967296"), "Invalid JDWP pid: 4294967296");
    assert_eq!(protocol_error("ark:4294967296@1@d"), "Invalid pid in ark: 4294967296");
    assert_eq!(protocol_error("ark:1@4294967296@d"), "Invalid tid in ark: 4294967296");
}

#[test]
fn numerals_may_have_a_plus_sign_and_leading_zeros() {
    assert_eq!(ForwardNode::parse("tcp:+80").unwrap(), ForwardNode::Tcp(80));
    assert_eq!(ForwardNode::parse("tcp:0080").unwrap(), ForwardNode::Tcp(80));
    assert_eq!(ForwardNode::parse("tcp:000000000000000000000065535").unwrap(), ForwardNode::Tcp(65535));
    assert_eq!(ForwardNode::parse("jdwp:+0").unwrap(), ForwardNode::Jdwp(0));
    assert_eq!(
        ForwardNode::parse("ark:+1@02@d").unwrap(),
        ForwardNode::Ark { pid: 1, tid: 2, debugger: "d".to_string() }
    );
    assert_eq!(protocol_error("tcp:++80"), "Invalid TCP port: ++80");
}

#[test]
fn unknown_tags_are_rejected() {
    assert_eq!(protocol_error("udp:80"), "Invalid forward node format: udp:80");
    assert_eq!(protocol_error(""), "Invalid forward node format: ");
    assert_eq!(protocol_error("tcp"), "Invalid forward node format: tcp");
    assert_eq!(protocol_error("TCP:80"), "Invalid forward node format: TCP:80");
    assert_eq!(protocol_error(" tcp:80"), "Invalid forward node format:  tcp:80");
    assert_eq!(protocol_error("local:x"), "Invalid forward node format: local:x");
}

#[test]
fn forward_and_reverse_command_strings() {
    let forward = ForwardTask::forward(ForwardNode::Tcp(8080), ForwardNode::Tcp(8081));
    assert!(forward.is_forward);
    assert_eq!(forward.local_node, ForwardNode::Tcp(8080));
    assert_eq!(forward.remote_node, ForwardNode::Tcp(8081));
    assert_eq!(forward.to_command_string(), "fport tcp:8080 tcp:8081");
    assert_eq!(forward.task_string(), "tcp:8080 tcp:8081");

    let reverse = ForwardTask::reverse(ForwardNode::Tcp(9090), ForwardNode::Tcp(9091));
    assert!(!reverse.is_forward);
    assert_eq!(reverse.remote_node, ForwardNode::Tcp(9090));
    assert_eq!(reverse.local_node, ForwardNode::Tcp(9091));
    assert_eq!(reverse.to_command_string(), "rport tcp:9090 tcp:9091");
    assert_eq!(reverse.task_string(), "tcp:9091 tcp:9090");
}

#[test]
fn task_with_mixed_nodes() {
    let task = ForwardTask::forward(
        ForwardNode::LocalAbstract("sock".to_string()),
        ForwardNode::Ark { pid: 7, tid: 8, debugger: "Dbg".to_string() },
    );
    assert_eq!(task.to_command_string(), "fport localabstract:sock ark:7@8@Dbg");
    assert_eq!(task.task_string(), "localabstract:sock ark:7@8@Dbg");
}
