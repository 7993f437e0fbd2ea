//! File transfer types and options.

use vstd::prelude::*;
use vstd::string::*;

use crate::text::{chars_of, find_char, flag_if, join_with_space, lemma_index_of, push_part};

verus! {

/// File transfer options for send and receive operations.
#[derive(Debug, Clone, Default)]
pub struct FileTransferOptions {
    /// Hold target file timestamp (-a)
    hold_timestamp: bool,
    /// Sync mode: only update newer files (-sync)
    sync_mode: bool,
    /// Compress transfer (-z)
    compress: bool,
    /// Mode sync (-m)
    mode_sync: bool,
    /// Send/receive file to debug application directory (-b)
    debug_dir: bool,
}

/// The mathematical content of [`FileTransferOptions`]: which of the five
/// options are set.
pub struct FileTransferOptionsView {
    pub hold_timestamp: bool,
    pub sync_mode: bool,
    pub compress: bool,
    pub mode_sync: bool,
    pub debug_dir: bool,
}

impl View for FileTransferOptions {
    type V = FileTransferOptionsView;

    closed spec fn view(&self) -> FileTransferOptionsView {
        FileTransferOptionsView {
            hold_timestamp: self.hold_timestamp,
            sync_mode: self.sync_mode,
            compress: self.compress,
            mode_sync: self.mode_sync,
            debug_dir: self.debug_dir,
        }
    }
}

/// The flags of a file transfer, in the order `-a`, `-sync`, `-z`, `-m`,
/// `-b`, each present if its option is set.
pub open spec fn transfer_flags(opts: FileTransferOptionsView) -> Seq<char> {
    join_with_space(
        flag_if(opts.hold_timestamp, "-a"@) + flag_if(opts.sync_mode, "-sync"@) + flag_if(
            opts.compress,
            "-z"@,
        ) + flag_if(opts.mode_sync, "-m"@) + flag_if(opts.debug_dir, "-b"@),
    )
}

/// True for a path that can be named in a transfer: not empty, and without
/// a NUL character.
pub open spec fn path_ok(path: Seq<char>) -> bool {
    path.len() > 0 && !path.contains('\0')
}

impl FileTransferOptions {
    /// Creates new file transfer options, with nothing set.
    pub fn new() -> (opts: Self)
        ensures
            opts@ == (FileTransferOptionsView {
                hold_timestamp: false,
                sync_mode: false,
                compress: false,
                mode_sync: false,
                debug_dir: false,
            }),
    {
        FileTransferOptions {
            hold_timestamp: false,
            sync_mode: false,
            compress: false,
            mode_sync: false,
            debug_dir: false,
        }
    }

    /// Hold target file timestamp.
    pub fn hold_timestamp(self, enable: bool) -> (opts: Self)
        ensures
            opts@ == (FileTransferOptionsView { hold_timestamp: enable, ..self@ }),
    {
        let mut opts = self;
        opts.hold_timestamp = enable;
        opts
    }

    /// Enable sync mode (only update newer files).
    pub fn sync_mode(self, enable: bool) -> (opts: Self)
        ensures
            opts@ == (FileTransferOptionsView { sync_mode: enable, ..self@ }),
    {
        let mut opts = self;
        opts.sync_mode = enable;
        opts
    }

    /// Enable compression during transfer.
    pub fn compress(self, enable: bool) -> (opts: Self)
        ensures
            opts@ == (FileTransferOptionsView { compress: enable, ..self@ }),
    {
        let mut opts = self;
        opts.compress = enable;
        opts
    }

    /// Enable mode sync.
    pub fn mode_sync(self, enable: bool) -> (opts: Self)
        ensures
            opts@ == (FileTransferOptionsView { mode_sync: enable, ..self@ }),
    {
        let mut opts = self;
        opts.mode_sync = enable;
        opts
    }

    /// Send/receive to debug application directory.
    pub fn debug_dir(self, enable: bool) -> (opts: Self)
        ensures
            opts@ == (FileTransferOptionsView { debug_dir: enable, ..self@ }),
    {
        let mut opts = self;
        opts.debug_dir = enable;
        opts
    }

    /// Converts the options to the flags of the command line.
    pub fn to_flags(&self) -> (flags: String)
        ensures
            flags@ == transfer_flags(self@),
    {
        proof {
            reveal_strlit("-a");
            reveal_strlit("-sync");
            reveal_strlit("-z");
            reveal_strlit("-m");
            reveal_strlit("-b");
        }
        let mut flags = String::new();
        let ghost mut parts: Seq<Seq<char>> = Seq::empty();
        if self.hold_timestamp {
            push_part(&mut flags, Ghost(parts), "-a");
            proof {
                parts = parts.push("-a"@);
            }
        }
        let ghost p1 = flag_if(self.hold_timestamp, "-a"@);
        assert(parts =~= p1);
        if self.sync_mode {
            push_part(&mut flags, Ghost(parts), "-sync");
            proof {
                parts = parts.push("-sync"@);
            }
        }
        let ghost p2 = p1 + flag_if(self.sync_mode, "-sync"@);
        assert(parts =~= p2);
        if self.compress {
            push_part(&mut flags, Ghost(parts), "-z");
            proof {
                parts = parts.push("-z"@);
            }
        }
        let ghost p3 = p2 + flag_if(self.compress, "-z"@);
        assert(parts =~= p3);
        if self.mode_sync {
            push_part(&mut flags, Ghost(parts), "-m");
            proof {
                parts = parts.push("-m"@);
            }
        }
        let ghost p4 = p3 + flag_if(self.mode_sync, "-m"@);
        assert(parts =~= p4);
        if self.debug_dir {
            push_part(&mut flags, Ghost(parts), "-b");
            proof {
                parts = parts.push("-b"@);
            }
        }
        assert(parts =~= p4 + flag_if(self.debug_dir, "-b"@));
        flags
    }
}

/// File transfer direction.
#[derive(Debug, Clone, Copy, PartialEq, Eq, Structural)]
pub enum FileTransferDirection {
    /// Send file from local to remote device
    Send,
    /// Receive file from remote device to local
    Recv,
}

/// Validates a file path for transfer: it must not be empty and must not
/// hold a NUL character.
pub fn validate_path(path: &str) -> (ok: bool)
    ensures
        ok == path_ok(path@),
{
    let chars = chars_of(path);
    let n = chars.len();
    let nul = find_char(&chars, 0, n, '\0');
    proof {
        assert(chars@.subrange(0, n as int) =~= path@);
        lemma_index_of(path@, '\0');
    }
    n > 0 && nul == n
}

} // verus!
