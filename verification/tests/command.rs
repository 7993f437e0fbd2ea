use hdc_rs::protocol::command::HdcCommand;

#[test]
fn codes_of_the_catalogue() {
    assert_eq!(HdcCommand::KernelHelp.as_u16(), 0);
    assert_eq!(HdcCommand::KernelHandshake.as_u16(), 1);
    assert_eq!(HdcCommand::KernelChannelClose.as_u16(), 2);
    assert_eq!(HdcCommand::KernelTargetDiscover.as_u16(), 4);
    assert_eq!(HdcCommand::ServiceStart.as_u16(), 17);
    assert_eq!(HdcCommand::UnityExecute.as_u16(), 1001);
    assert_eq!(HdcCommand::UnityRootrun.as_u16(), 1007);
    assert_eq!(HdcCommand::JdwpTrack.as_u16(), 1009);
    assert_eq!(HdcCommand::ShellInit.as_u16(), 2000);
    assert_eq!(HdcCommand::ShellData.as_u16(), 2001);
    assert_eq!(HdcCommand::ForwardInit.as_u16(), 2500);
    assert_eq!(HdcCommand::ForwardSuccess.as_u16(), 2509);
    assert_eq!(HdcCommand::FileInit.as_u16(), 3000);
    assert_eq!(HdcCommand::DirMode.as_u16(), 3007);
    assert_eq!(HdcCommand::AppInit.as_u16(), 3500);
    assert_eq!(HdcCommand::AppUninstall.as_u16(), 3506);
    assert_eq!(HdcCommand::HeartbeatMsg.as_u16(), 5000);
}

#[test]
fn decoded_codes_give_their_command() {
    let decoded = [
        (0u16, HdcCommand::KernelHelp),
        (1, HdcCommand::KernelHandshake),
        (2, HdcCommand::KernelChannelClose),
        (4, HdcCommand::KernelTargetDiscover),
        (5, HdcCommand::KernelTargetList),
        (6, HdcCommand::KernelTargetAny),
        (7, HdcCommand::KernelTargetConnect),
        (8, HdcCommand::KernelTargetDisconnect),
        (9, HdcCommand::KernelEcho),
        (10, HdcCommand::KernelEchoRaw),
        (13, HdcCommand::CheckServer),
        (14, HdcCommand::CheckDevice),
        (1001, HdcCommand::UnityExecute),
        (1002, HdcCommand::UnityRemount),
        (1003, HdcCommand::UnityReboot),
        (2000, HdcCommand::ShellInit),
        (2001, HdcCommand::ShellData),
        (3000, HdcCommand::FileInit),
        (3003, HdcCommand::FileData),
        (3004, HdcCommand::FileFinish),
    ];
    for (code, command) in decoded {
        assert_eq!(HdcCommand::from_u16(code), Some(command));
        assert_eq!(command.as_u16(), code);
    }
    let count = (0..=u16::MAX).filter(|c| HdcCommand::from_u16(*c).is_some()).count();
    assert_eq!(count, 20);
}

#[test]
fn other_codes_are_not_decoded() {
    for code in [3u16, 11, 12, 15, 16, 17, 1004, 1005, 2505, 2509, 3001, 3500, 5000, 65535] {
        assert_eq!(HdcCommand::from_u16(code), None);
    }
}

#[test]
fn response_commands() {
    for command in [
        HdcCommand::ShellData,
        HdcCommand::FileData,
        HdcCommand::FileFinish,
        HdcCommand::ForwardData,
        HdcCommand::KernelEcho,
    ] {
        assert!(command.is_response());
    }
    for command in [
        HdcCommand::KernelHelp,
        HdcCommand::ShellInit,
        HdcCommand::FileInit,
        HdcCommand::ForwardInit,
        HdcCommand::AppData,
        HdcCommand::HeartbeatMsg,
    ] {
        assert!(!command.is_response());
    }
}
