//! The command catalogue: the codes of the protocol's commands, and which
//! of them are recognised in front of a response.

use vstd::prelude::*;

verus! {

/// HDC command codes.
#[derive(Debug, Clone, Copy, PartialEq, Eq, Structural)]
pub enum HdcCommand {
    // Core commands
    /// Code 0
    KernelHelp,
    /// Code 1
    KernelHandshake,
    /// Code 2
    KernelChannelClose,
    /// Code 4
    KernelTargetDiscover,
    /// Code 5
    KernelTargetList,
    /// Code 6
    KernelTargetAny,
    /// Code 7
    KernelTargetConnect,
    /// Code 8
    KernelTargetDisconnect,
    /// Code 9
    KernelEcho,
    /// Code 10
    KernelEchoRaw,
    /// Code 11
    KernelEnableKeepalive,
    /// Code 12
    KernelWakeupSlavetask,
    /// Code 13
    CheckServer,
    /// Code 14
    CheckDevice,
    /// Code 15
    WaitFor,
    /// Code 16
    ServerKill,
    /// Code 17
    ServiceStart,
    // Unity commands (simple one-pass commands)
    /// Code 1001
    UnityExecute,
    /// Code 1002
    UnityRemount,
    /// Code 1003
    UnityReboot,
    /// Code 1004
    UnityRunmode,
    /// Code 1005
    UnityHilog,
    /// Code 1007
    UnityRootrun,
    /// Code 1008
    JdwpList,
    /// Code 1009
    JdwpTrack,
    // Shell commands
    /// Code 2000
    ShellInit,
    /// Code 2001
    ShellData,
    // Forward commands
    /// Code 2500
    ForwardInit,
    /// Code 2501
    ForwardCheck,
    /// Code 2502
    ForwardCheckResult,
    /// Code 2503
    ForwardActiveSlave,
    /// Code 2504
    ForwardActiveMaster,
    /// Code 2505
    ForwardData,
    /// Code 2506
    ForwardFreeContext,
    /// Code 2507
    ForwardList,
    /// Code 2508
    ForwardRemove,
    /// Code 2509
    ForwardSuccess,
    // File commands
    /// Code 3000
    FileInit,
    /// Code 3001
    FileCheck,
    /// Code 3002
    FileBegin,
    /// Code 3003
    FileData,
    /// Code 3004
    FileFinish,
    /// Code 3005
    AppSideload,
    /// Code 3006
    FileMode,
    /// Code 3007
    DirMode,
    // App commands
    /// Code 3500
    AppInit,
    /// Code 3501
    AppCheck,
    /// Code 3502
    AppBegin,
    /// Code 3503
    AppData,
    /// Code 3504
    AppFinish,
    /// Code 3506
    AppUninstall,
    // Heartbeat
    /// Code 5000
    HeartbeatMsg,
}

/// True for the codes that are decoded when read from the wire: twenty of
/// the codes of the catalogue.
pub open spec fn is_decoded_code(value: u16) -> bool {
    value == 0
        || value == 1
        || value == 2
        || value == 4
        || value == 5
        || value == 6
        || value == 7
        || value == 8
        || value == 9
        || value == 10
        || value == 13
        || value == 14
        || value == 1001
        || value == 1002
        || value == 1003
        || value == 2000
        || value == 2001
        || value == 3000
        || value == 3003
        || value == 3004
}

impl HdcCommand {
    /// The 16-bit code of the command.
    pub open spec fn code(self) -> u16 {
        match self {
            HdcCommand::KernelHelp => 0,
            HdcCommand::KernelHandshake => 1,
            HdcCommand::KernelChannelClose => 2,
            HdcCommand::KernelTargetDiscover => 4,
            HdcCommand::KernelTargetList => 5,
            HdcCommand::KernelTargetAny => 6,
            HdcCommand::KernelTargetConnect => 7,
            HdcCommand::KernelTargetDisconnect => 8,
            HdcCommand::KernelEcho => 9,
            HdcCommand::KernelEchoRaw => 10,
            HdcCommand::KernelEnableKeepalive => 11,
            HdcCommand::KernelWakeupSlavetask => 12,
            HdcCommand::CheckServer => 13,
            HdcCommand::CheckDevice => 14,
            HdcCommand::WaitFor => 15,
            HdcCommand::ServerKill => 16,
            HdcCommand::ServiceStart => 17,
            HdcCommand::UnityExecute => 1001,
            HdcCommand::UnityRemount => 1002,
            HdcCommand::UnityReboot => 1003,
            HdcCommand::UnityRunmode => 1004,
            HdcCommand::UnityHilog => 1005,
            HdcCommand::UnityRootrun => 1007,
            HdcCommand::JdwpList => 1008,
            HdcCommand::JdwpTrack => 1009,
            HdcCommand::ShellInit => 2000,
            HdcCommand::ShellData => 2001,
            HdcCommand::ForwardInit => 2500,
            HdcCommand::ForwardCheck => 2501,
            HdcCommand::ForwardCheckResult => 2502,
            HdcCommand::ForwardActiveSlave => 2503,
            HdcCommand::ForwardActiveMaster => 2504,
            HdcCommand::ForwardData => 2505,
            HdcCommand::ForwardFreeContext => 2506,
            HdcCommand::ForwardList => 2507,
            HdcCommand::ForwardRemove => 2508,
            HdcCommand::ForwardSuccess => 2509,
            HdcCommand::FileInit => 3000,
            HdcCommand::FileCheck => 3001,
            HdcCommand::FileBegin => 3002,
            HdcCommand::FileData => 3003,
            HdcCommand::FileFinish => 3004,
            HdcCommand::AppSideload => 3005,
            HdcCommand::FileMode => 3006,
            HdcCommand::DirMode => 3007,
            HdcCommand::AppInit => 3500,
            HdcCommand::AppCheck => 3501,
            HdcCommand::AppBegin => 3502,
            HdcCommand::AppData => 3503,
            HdcCommand::AppFinish => 3504,
            HdcCommand::AppUninstall => 3506,
            HdcCommand::HeartbeatMsg => 5000,
        }
    }

    /// True for the five commands that mark a response: shell data, file
    /// data, file finish, forward data and echo.
    pub open spec fn marks_response(self) -> bool {
        self == HdcCommand::ShellData || self == HdcCommand::FileData || self
            == HdcCommand::FileFinish || self == HdcCommand::ForwardData || self
            == HdcCommand::KernelEcho
    }

    /// Converts the command to its 16-bit code.
    pub fn as_u16(self) -> (value: u16)
        ensures
            value == self.code(),
    {
        match self {
            HdcCommand::KernelHelp => 0,
            HdcCommand::KernelHandshake => 1,
            HdcCommand::KernelChannelClose => 2,
            HdcCommand::KernelTargetDiscover => 4,
            HdcCommand::KernelTargetList => 5,
            HdcCommand::KernelTargetAny => 6,
            HdcCommand::KernelTargetConnect => 7,
            HdcCommand::KernelTargetDisconnect => 8,
            HdcCommand::KernelEcho => 9,
            HdcCommand::KernelEchoRaw => 10,
            HdcCommand::KernelEnableKeepalive => 11,
            HdcCommand::KernelWakeupSlavetask => 12,
            HdcCommand::CheckServer => 13,
            HdcCommand::CheckDevice => 14,
            HdcCommand::WaitFor => 15,
            HdcCommand::ServerKill => 16,
            HdcCommand::ServiceStart => 17,
            HdcCommand::UnityExecute => 1001,
            HdcCommand::UnityRemount => 1002,
            HdcCommand::UnityReboot => 1003,
            HdcCommand::UnityRunmode => 1004,
            HdcCommand::UnityHilog => 1005,
            HdcCommand::UnityRootrun => 1007,
            HdcCommand::JdwpList => 1008,
            HdcCommand::JdwpTrack => 1009,
            HdcCommand::ShellInit => 2000,
            HdcCommand::ShellData => 2001,
            HdcCommand::ForwardInit => 2500,
            HdcCommand::ForwardCheck => 2501,
            HdcCommand::ForwardCheckResult => 2502,
            HdcCommand::ForwardActiveSlave => 2503,
            HdcCommand::ForwardActiveMaster => 2504,
            HdcCommand::ForwardData => 2505,
            HdcCommand::ForwardFreeContext => 2506,
            HdcCommand::ForwardList => 2507,
            HdcCommand::ForwardRemove => 2508,
            HdcCommand::ForwardSuccess => 2509,
            HdcCommand::FileInit => 3000,
            HdcCommand::FileCheck => 3001,
            HdcCommand::FileBegin => 3002,
            HdcCommand::FileData => 3003,
            HdcCommand::FileFinish => 3004,
            HdcCommand::AppSideload => 3005,
            HdcCommand::FileMode => 3006,
            HdcCommand::DirMode => 3007,
            HdcCommand::AppInit => 3500,
            HdcCommand::AppCheck => 3501,
            HdcCommand::AppBegin => 3502,
            HdcCommand::AppData => 3503,
            HdcCommand::AppFinish => 3504,
            HdcCommand::AppUninstall => 3506,
            HdcCommand::HeartbeatMsg => 5000,
        }
    }

    /// Converts a 16-bit code to the command, if it is one of the codes
    /// that are decoded.
    pub fn from_u16(value: u16) -> (r: Option<Self>)
        ensures
            r is Some <==> is_decoded_code(value),
            r is Some ==> r->0.code() == value,
    {
        match value {
            0 => Some(HdcCommand::KernelHelp),
            1 => Some(HdcCommand::KernelHandshake),
            2 => Some(HdcCommand::KernelChannelClose),
            4 => Some(HdcCommand::KernelTargetDiscover),
            5 => Some(HdcCommand::KernelTargetList),
            6 => Some(HdcCommand::KernelTargetAny),
            7 => Some(HdcCommand::KernelTargetConnect),
            8 => Some(HdcCommand::KernelTargetDisconnect),
            9 => Some(HdcCommand::KernelEcho),
            10 => Some(HdcCommand::KernelEchoRaw),
            13 => Some(HdcCommand::CheckServer),
            14 => Some(HdcCommand::CheckDevice),
            1001 => Some(HdcCommand::UnityExecute),
            1002 => Some(HdcCommand::UnityRemount),
            1003 => Some(HdcCommand::UnityReboot),
            2000 => Some(HdcCommand::ShellInit),
            2001 => Some(HdcCommand::ShellData),
            3000 => Some(HdcCommand::FileInit),
            3003 => Some(HdcCommand::FileData),
            3004 => Some(HdcCommand::FileFinish),
            _ => None,
        }
    }

    /// Checks if this is a response command (one that comes with a command
    /// prefix).
    pub fn is_response(&self) -> (b: bool)
        ensures
            b == self.marks_response(),
    {
        match self {
            HdcCommand::ShellData
            | HdcCommand::FileData
            | HdcCommand::FileFinish
            | HdcCommand::ForwardData
            | HdcCommand::KernelEcho => true,
            _ => false,
        }
    }
}

/// No two commands share a code: a command is known by its code.
pub proof fn lemma_code_injective(a: HdcCommand, b: HdcCommand)
    requires
        a.code() == b.code(),
    ensures
        a == b,
{
}

} // verus!
