//! Options of the application management commands.

use vstd::prelude::*;
use vstd::string::*;

use crate::text::{flag_if, join_with_space, push_part};

verus! {

/// Application install options.
#[derive(Debug, Clone, Default)]
pub struct InstallOptions {
    /// Replace existing application
    pub replace: bool,
    /// Install shared bundle for multi-apps
    pub shared: bool,
}

/// The flags of an install command: `-r` to replace, then `-s` for a shared
/// bundle.
pub open spec fn install_flags(replace: bool, shared: bool) -> Seq<char> {
    join_with_space(flag_if(replace, "-r"@) + flag_if(shared, "-s"@))
}

impl InstallOptions {
    /// Creates default install options: nothing set.
    pub fn new() -> (opts: Self)
        ensures
            !opts.replace,
            !opts.shared,
    {
        InstallOptions { replace: false, shared: false }
    }

    /// Sets the replace option.
    pub fn replace(self, replace: bool) -> (opts: Self)
        ensures
            opts.replace == replace,
            opts.shared == self.shared,
    {
        InstallOptions { replace, shared: self.shared }
    }

    /// Sets the shared option.
    pub fn shared(self, shared: bool) -> (opts: Self)
        ensures
            opts.replace == self.replace,
            opts.shared == shared,
    {
        InstallOptions { replace: self.replace, shared }
    }

    /// Converts to command line flags.
    pub fn to_flags(&self) -> (flags: String)
        ensures
            flags@ == install_flags(self.replace, self.shared),
    {
        proof {
            reveal_strlit("-r");
            reveal_strlit("-s");
        }
        let mut flags = String::new();
        let ghost mut parts: Seq<Seq<char>> = Seq::empty();
        if self.replace {
            push_part(&mut flags, Ghost(parts), "-r");
            proof {
                parts = parts.push("-r"@);
            }
        }
        assert(parts =~= flag_if(self.replace, "-r"@));
        if self.shared {
            push_part(&mut flags, Ghost(parts), "-s");
            proof {
                parts = parts.push("-s"@);
            }
        }
        assert(parts =~= flag_if(self.replace, "-r"@) + flag_if(self.shared, "-s"@));
        flags
    }
}

/// Application uninstall options.
#[derive(Debug, Clone, Default)]
pub struct UninstallOptions {
    /// Keep the data and cache directories
    pub keep_data: bool,
    /// Remove shared bundle
    pub shared: bool,
}

/// The flags of an uninstall command: `-k` to keep the data, then `-s` for a
/// shared bundle.
pub open spec fn uninstall_flags(keep_data: bool, shared: bool) -> Seq<char> {
    join_with_space(flag_if(keep_data, "-k"@) + flag_if(shared, "-s"@))
}

impl UninstallOptions {
    /// Creates default uninstall options: nothing set.
    pub fn new() -> (opts: Self)
        ensures
            !opts.keep_data,
            !opts.shared,
    {
        UninstallOptions { keep_data: false, shared: false }
    }

    /// Sets the keep_data option.
    pub fn keep_data(self, keep: bool) -> (opts: Self)
        ensures
            opts.keep_data == keep,
            opts.shared == self.shared,
    {
        UninstallOptions { keep_data: keep, shared: self.shared }
    }

    /// Sets the shared option.
    pub fn shared(self, shared: bool) -> (opts: Self)
        ensures
            opts.keep_data == self.keep_data,
            opts.shared == shared,
    {
        UninstallOptions { keep_data: self.keep_data, shared }
    }

    /// Converts to command line flags.
    pub fn to_flags(&self) -> (flags: String)
        ensures
            flags@ == uninstall_flags(self.keep_data, self.shared),
    {
        proof {
            reveal_strlit("-k");
            reveal_strlit("-s");
        }
        let mut flags = String::new();
        let ghost mut parts: Seq<Seq<char>> = Seq::empty();
        if self.keep_data {
            push_part(&mut flags, Ghost(parts), "-k");
            proof {
                parts = parts.push("-k"@);
            }
        }
        assert(parts =~= flag_if(self.keep_data, "-k"@));
        if self.shared {
            push_part(&mut flags, Ghost(parts), "-s");
            proof {
                parts = parts.push("-s"@);
            }
        }
        assert(parts =~= flag_if(self.keep_data, "-k"@) + flag_if(self.shared, "-s"@));
        flags
    }
}

} // verus!
