//! Port forwarding: the address forms of a forward and the task that pairs
//! two of them.

use vstd::prelude::*;
use vstd::string::*;

use crate::error::{HdcError, HdcErrorView};
use crate::text::{
    chars_of, decimal_text, find_char, has_prefix, index_of, lemma_decimal_round_trip,
    lemma_decimal_text_digits, lemma_index_of_is, parse_decimal_up_to,
    parse_number, push_chars, push_decimal, string_of,
};

verus! {

/// One end of a forward.
#[derive(Debug, Clone, PartialEq, Eq)]
pub enum ForwardNode {
    /// TCP port: `tcp:port`
    Tcp(u16),
    /// Local filesystem Unix domain socket: `localfilesystem:name`
    LocalFilesystem(String),
    /// Local reserved Unix domain socket: `localreserved:name`
    LocalReserved(String),
    /// Local abstract Unix domain socket: `localabstract:name`
    LocalAbstract(String),
    /// Device: `dev:name`
    Dev(String),
    /// JDWP process (remote only): `jdwp:pid`
    Jdwp(u32),
    /// Ark debugger (remote only): `ark:pid@tid@debugger`
    Ark { pid: u32, tid: u32, debugger: String },
}

/// The mathematical content of a [`ForwardNode`].
pub enum ForwardNodeView {
    Tcp(u16),
    LocalFilesystem(Seq<char>),
    LocalReserved(Seq<char>),
    LocalAbstract(Seq<char>),
    Dev(Seq<char>),
    Jdwp(u32),
    Ark { pid: u32, tid: u32, debugger: Seq<char> },
}

impl View for ForwardNode {
    type V = ForwardNodeView;

    open spec fn view(&self) -> ForwardNodeView {
        match self {
            ForwardNode::Tcp(port) => ForwardNodeView::Tcp(*port),
            ForwardNode::LocalFilesystem(name) => ForwardNodeView::LocalFilesystem(name@),
            ForwardNode::LocalReserved(name) => ForwardNodeView::LocalReserved(name@),
            ForwardNode::LocalAbstract(name) => ForwardNodeView::LocalAbstract(name@),
            ForwardNode::Dev(name) => ForwardNodeView::Dev(name@),
            ForwardNode::Jdwp(pid) => ForwardNodeView::Jdwp(*pid),
            ForwardNode::Ark { pid, tid, debugger } => ForwardNodeView::Ark {
                pid: *pid,
                tid: *tid,
                debugger: debugger@,
            },
        }
    }
}

/// The wire form of a node: the tag of its kind, a colon, and its fields.
pub open spec fn protocol_text(node: ForwardNodeView) -> Seq<char> {
    match node {
        ForwardNodeView::Tcp(port) => "tcp:"@ + decimal_text(port as nat),
        ForwardNodeView::LocalFilesystem(name) => "localfilesystem:"@ + name,
        ForwardNodeView::LocalReserved(name) => "localreserved:"@ + name,
        ForwardNodeView::LocalAbstract(name) => "localabstract:"@ + name,
        ForwardNodeView::Dev(name) => "dev:"@ + name,
        ForwardNodeView::Jdwp(pid) => "jdwp:"@ + decimal_text(pid as nat),
        ForwardNodeView::Ark { pid, tid, debugger } => "ark:"@ + decimal_text(pid as nat)
            + seq!['@'] + decimal_text(tid as nat) + seq!['@'] + debugger,
    }
}

/// What is left of `s` behind `prefix`, if `s` begins with it.
pub open spec fn strip_prefix(s: Seq<char>, prefix: Seq<char>) -> Option<Seq<char>> {
    if prefix.is_prefix_of(s) {
        Some(s.skip(prefix.len() as int))
    } else {
        None
    }
}

/// Reading `tcp:` and what follows it: a port number up to 65535.
pub open spec fn parse_tcp(rest: Seq<char>) -> Result<ForwardNodeView, Seq<char>> {
    match parse_decimal_up_to(rest, u16::MAX as nat) {
        Some(port) => Ok(ForwardNodeView::Tcp(port as u16)),
        None => Err("Invalid TCP port: "@ + rest),
    }
}

/// Reading `jdwp:` and what follows it: a process id up to `u32::MAX`.
pub open spec fn parse_jdwp(rest: Seq<char>) -> Result<ForwardNodeView, Seq<char>> {
    match parse_decimal_up_to(rest, u32::MAX as nat) {
        Some(pid) => Ok(ForwardNodeView::Jdwp(pid as u32)),
        None => Err("Invalid JDWP pid: "@ + rest),
    }
}

/// Reading `ark:` and what follows it: exactly three parts separated by `@`,
/// of which the first two are numbers up to `u32::MAX` and the third is the
/// debugger's name.
pub open spec fn parse_ark(rest: Seq<char>) -> Result<ForwardNodeView, Seq<char>> {
    let first = index_of(rest, '@');
    let behind_first = rest.skip(first + 1);
    let second = index_of(behind_first, '@');
    let behind_second = behind_first.skip(second + 1);
    if first >= rest.len() || second >= behind_first.len() || index_of(behind_second, '@')
        < behind_second.len() {
        Err("Invalid ark format: expected pid@tid@debugger, got "@ + rest)
    } else {
        match parse_decimal_up_to(rest.take(first), u32::MAX as nat) {
            None => Err("Invalid pid in ark: "@ + rest.take(first)),
            Some(pid) => match parse_decimal_up_to(behind_first.take(second), u32::MAX as nat) {
                None => Err("Invalid tid in ark: "@ + behind_first.take(second)),
                Some(tid) => Ok(
                    ForwardNodeView::Ark {
                        pid: pid as u32,
                        tid: tid as u32,
                        debugger: behind_second,
                    },
                ),
            },
        }
    }
}

/// Reading the wire form of a node: the node, or the text of the error. The
/// tags are tried in the order `tcp:`, `localfilesystem:`, `localreserved:`,
/// `localabstract:`, `dev:`, `jdwp:`, `ark:`.
pub open spec fn parse_text(s: Seq<char>) -> Result<ForwardNodeView, Seq<char>> {
    if let Some(rest) = strip_prefix(s, "tcp:"@) {
        parse_tcp(rest)
    } else if let Some(name) = strip_prefix(s, "localfilesystem:"@) {
        Ok(ForwardNodeView::LocalFilesystem(name))
    } else if let Some(name) = strip_prefix(s, "localreserved:"@) {
        Ok(ForwardNodeView::LocalReserved(name))
    } else if let Some(name) = strip_prefix(s, "localabstract:"@) {
        Ok(ForwardNodeView::LocalAbstract(name))
    } else if let Some(name) = strip_prefix(s, "dev:"@) {
        Ok(ForwardNodeView::Dev(name))
    } else if let Some(rest) = strip_prefix(s, "jdwp:"@) {
        parse_jdwp(rest)
    } else if let Some(rest) = strip_prefix(s, "ark:"@) {
        parse_ark(rest)
    } else {
        Err("Invalid forward node format: "@ + s)
    }
}

/// Whether a parsing result is the one that `expected` describes: the node,
/// or a protocol error with the text.
pub open spec fn parse_result_is(
    r: Result<ForwardNode, HdcError>,
    expected: Result<ForwardNodeView, Seq<char>>,
) -> bool {
    match expected {
        Ok(node) => r matches Ok(n) && n@ == node,
        Err(text) => r matches Err(e) && e@ == HdcErrorView::Protocol(text),
    }
}

/// A protocol error whose text is `head` followed by `chars[from..to]`.
fn protocol_error(head: &str, chars: &[char], from: usize, to: usize) -> (e: HdcError)
    requires
        from <= to <= chars@.len(),
    ensures
        e@ == HdcErrorView::Protocol(head@ + chars@.subrange(from as int, to as int)),
{
    let mut msg = head.to_owned();
    push_chars(&mut msg, chars, from, to);
    HdcError::Protocol(msg)
}

impl ForwardNode {
    /// Parses a forward node from its wire form.
    ///
    /// Format examples:
    /// - `tcp:8080`
    /// - `localfilesystem:/tmp/socket`
    /// - `localreserved:name`
    /// - `localabstract:name`
    /// - `dev:device_name`
    /// - `jdwp:1234`
    /// - `ark:1234@5678@Debugger`
    pub fn parse(s: &str) -> (r: Result<ForwardNode, HdcError>)
        ensures
            parse_result_is(r, parse_text(s@)),
    {
        let chars = chars_of(s);
        let n = chars.len();
        proof {
            reveal_strlit("tcp:");
            reveal_strlit("localfilesystem:");
            reveal_strlit("localreserved:");
            reveal_strlit("localabstract:");
            reveal_strlit("dev:");
            reveal_strlit("jdwp:");
            reveal_strlit("ark:");
            assert(chars@.subrange(0, n as int) =~= s@);
        }
        if has_prefix(&chars, 0, n, "tcp:") {
            assert(chars@.subrange(4, n as int) =~= s@.skip(4));
            match parse_number(&chars, 4, n, 65535) {
                Some(port) => Ok(ForwardNode::Tcp(port as u16)),
                None => Err(protocol_error("Invalid TCP port: ", &chars, 4, n)),
            }
        } else if has_prefix(&chars, 0, n, "localfilesystem:") {
            assert(chars@.subrange(16, n as int) =~= s@.skip(16));
            Ok(ForwardNode::LocalFilesystem(string_of(&chars, 16, n)))
        } else if has_prefix(&chars, 0, n, "localreserved:") {
            assert(chars@.subrange(14, n as int) =~= s@.skip(14));
            Ok(ForwardNode::LocalReserved(string_of(&chars, 14, n)))
        } else if has_prefix(&chars, 0, n, "localabstract:") {
            assert(chars@.subrange(14, n as int) =~= s@.skip(14));
            Ok(ForwardNode::LocalAbstract(string_of(&chars, 14, n)))
        } else if has_prefix(&chars, 0, n, "dev:") {
            assert(chars@.subrange(4, n as int) =~= s@.skip(4));
            Ok(ForwardNode::Dev(string_of(&chars, 4, n)))
        } else if has_prefix(&chars, 0, n, "jdwp:") {
            assert(chars@.subrange(5, n as int) =~= s@.skip(5));
            match parse_number(&chars, 5, n, 4294967295) {
                Some(pid) => Ok(ForwardNode::Jdwp(pid)),
                None => Err(protocol_error("Invalid JDWP pid: ", &chars, 5, n)),
            }
        } else if has_prefix(&chars, 0, n, "ark:") {
            assert(chars@.subrange(4, n as int) =~= s@.skip(4));
            Self::parse_ark_parts(&chars)
        } else {
            Err(protocol_error("Invalid forward node format: ", &chars, 0, n))
        }
    }

    /// Parses what follows the tag `ark:`, which is `chars[4..]`.
    fn parse_ark_parts(chars: &[char]) -> (r: Result<ForwardNode, HdcError>)
        requires
            chars@.len() >= 4,
        ensures
            parse_result_is(r, parse_ark(chars@.skip(4))),
    {
        let n = chars.len();
        let ghost rest = chars@.skip(4);
        assert(chars@.subrange(4, n as int) =~= rest);
        let first = find_char(chars, 4, n, '@');
        if first >= n {
            return Err(
                protocol_error(
                    "Invalid ark format: expected pid@tid@debugger, got ",
                    chars,
                    4,
                    n,
                ),
            );
        }
        let ghost behind_first = rest.skip(first - 4 + 1);
        assert(chars@.subrange(first + 1, n as int) =~= behind_first);
        let second = find_char(chars, first + 1, n, '@');
        if second >= n {
            return Err(
                protocol_error(
                    "Invalid ark format: expected pid@tid@debugger, got ",
                    chars,
                    4,
                    n,
                ),
            );
        }
        let ghost behind_second = behind_first.skip(second - (first + 1) + 1);
        assert(chars@.subrange(second + 1, n as int) =~= behind_second);
        let third = find_char(chars, second + 1, n, '@');
        if third < n {
            return Err(
                protocol_error(
                    "Invalid ark format: expected pid@tid@debugger, got ",
                    chars,
                    4,
                    n,
                ),
            );
        }
        assert(chars@.subrange(4, first as int) =~= rest.take(first - 4));
        assert(chars@.subrange(first + 1, second as int) =~= behind_first.take(
            second - (first + 1),
        ));
        let pid = match parse_number(chars, 4, first, 4294967295) {
            Some(pid) => pid,
            None => {
                return Err(protocol_error("Invalid pid in ark: ", chars, 4, first));
            },
        };
        let tid = match parse_number(chars, first + 1, second, 4294967295) {
            Some(tid) => tid,
            None => {
                return Err(protocol_error("Invalid tid in ark: ", chars, first + 1, second));
            },
        };
        Ok(ForwardNode::Ark { pid, tid, debugger: string_of(chars, second + 1, n) })
    }

    /// Converts to the wire form.
    pub fn as_protocol_string(&self) -> (s: String)
        ensures
            s@ == protocol_text(self@),
    {
        match self {
            ForwardNode::Tcp(port) => {
                let mut s = "tcp:".to_owned();
                push_decimal(&mut s, *port as u64);
                s
            },
            ForwardNode::LocalFilesystem(name) => {
                let mut s = "localfilesystem:".to_owned();
                s.append(name.as_str());
                s
            },
            ForwardNode::LocalReserved(name) => {
                let mut s = "localreserved:".to_owned();
                s.append(name.as_str());
                s
            },
            ForwardNode::LocalAbstract(name) => {
                let mut s = "localabstract:".to_owned();
                s.append(name.as_str());
                s
            },
            ForwardNode::Dev(name) => {
                let mut s = "dev:".to_owned();
                s.append(name.as_str());
                s
            },
            ForwardNode::Jdwp(pid) => {
                let mut s = "jdwp:".to_owned();
                push_decimal(&mut s, *pid as u64);
                s
            },
            ForwardNode::Ark { pid, tid, debugger } => {
                let mut s = "ark:".to_owned();
                push_decimal(&mut s, *pid as u64);
                s.push('@');
                push_decimal(&mut s, *tid as u64);
                s.push('@');
                s.append(debugger.as_str());
                s
            },
        }
    }
}

/// A text that begins with `prefix` gives back what follows it.
proof fn lemma_strip_own_prefix(prefix: Seq<char>, rest: Seq<char>)
    ensures
        strip_prefix(prefix + rest, prefix) == Some(rest),
{
    let s = prefix + rest;
    assert(s.subrange(0, prefix.len() as int) =~= prefix);
    assert(s.skip(prefix.len() as int) =~= rest);
}

/// A text does not begin with a prefix that differs from it at position `k`.
proof fn lemma_not_prefix(s: Seq<char>, prefix: Seq<char>, k: int)
    requires
        0 <= k < prefix.len(),
        k < s.len() ==> s[k] != prefix[k],
    ensures
        strip_prefix(s, prefix) is None,
{
    if prefix.len() <= s.len() {
        assert(s.subrange(0, prefix.len() as int)[k] == s[k]);
    }
}

/// Parsing the part of an `ark:` address behind the tag gives back the
/// fields it was written from, if the debugger's name holds no `@`.
proof fn lemma_parse_ark_round_trip(pid: u32, tid: u32, debugger: Seq<char>)
    requires
        !debugger.contains('@'),
    ensures
        parse_ark(
            decimal_text(pid as nat) + seq!['@'] + decimal_text(tid as nat) + seq!['@'] + debugger,
        ) == Ok::<ForwardNodeView, Seq<char>>(ForwardNodeView::Ark { pid, tid, debugger }),
{
    let p = decimal_text(pid as nat);
    let t = decimal_text(tid as nat);
    let rest = p + seq!['@'] + t + seq!['@'] + debugger;
    lemma_decimal_text_digits(pid as nat);
    lemma_decimal_text_digits(tid as nat);
    lemma_decimal_round_trip(pid as nat);
    lemma_decimal_round_trip(tid as nat);
    assert forall|k: int| 0 <= k < p.len() implies rest[k] != '@' by {
        assert(rest[k] == p[k]);
        assert(crate::text::is_digit(p[k]));
    }
    assert(rest[p.len() as int] == '@');
    lemma_index_of_is(rest, '@', p.len() as int);
    let behind_first = rest.skip(p.len() as int + 1);
    assert(behind_first =~= t + seq!['@'] + debugger);
    assert forall|k: int| 0 <= k < t.len() implies behind_first[k] != '@' by {
        assert(behind_first[k] == t[k]);
        assert(crate::text::is_digit(t[k]));
    }
    assert(behind_first[t.len() as int] == '@');
    lemma_index_of_is(behind_first, '@', t.len() as int);
    let behind_second = behind_first.skip(t.len() as int + 1);
    assert(behind_second =~= debugger);
    assert forall|k: int| 0 <= k < debugger.len() implies debugger[k] != '@' by {
        if debugger[k] == '@' {
            assert(debugger.contains('@'));
        }
    }
    lemma_index_of_is(debugger, '@', debugger.len() as int);
    assert(rest.take(p.len() as int) =~= p);
    assert(behind_first.take(t.len() as int) =~= t);
}

/// Parsing the wire form of a node gives back the node. The one exception
/// is an `ark:` node whose debugger name holds an `@`: its wire form has
/// more than three parts and is rejected.
pub proof fn lemma_parse_round_trip(node: ForwardNodeView)
    requires
        node matches ForwardNodeView::Ark { debugger, .. } ==> !debugger.contains('@'),
    ensures
        parse_text(protocol_text(node)) == Ok::<ForwardNodeView, Seq<char>>(node),
{
    reveal_strlit("tcp:");
    reveal_strlit("localfilesystem:");
    reveal_strlit("localreserved:");
    reveal_strlit("localabstract:");
    reveal_strlit("dev:");
    reveal_strlit("jdwp:");
    reveal_strlit("ark:");
    let s = protocol_text(node);
    match node {
        ForwardNodeView::Tcp(port) => {
            lemma_strip_own_prefix("tcp:"@, decimal_text(port as nat));
            lemma_decimal_round_trip(port as nat);
        },
        ForwardNodeView::LocalFilesystem(name) => {
            lemma_not_prefix(s, "tcp:"@, 0);
            lemma_strip_own_prefix("localfilesystem:"@, name);
        },
        ForwardNodeView::LocalReserved(name) => {
            lemma_not_prefix(s, "tcp:"@, 0);
            lemma_not_prefix(s, "localfilesystem:"@, 5);
            lemma_strip_own_prefix("localreserved:"@, name);
        },
        ForwardNodeView::LocalAbstract(name) => {
            lemma_not_prefix(s, "tcp:"@, 0);
            lemma_not_prefix(s, "localfilesystem:"@, 5);
            lemma_not_prefix(s, "localreserved:"@, 5);
            lemma_strip_own_prefix("localabstract:"@, name);
        },
        ForwardNodeView::Dev(name) => {
            lemma_not_prefix(s, "tcp:"@, 0);
            lemma_not_prefix(s, "localfilesystem:"@, 0);
            lemma_not_prefix(s, "localreserved:"@, 0);
            lemma_not_prefix(s, "localabstract:"@, 0);
            lemma_strip_own_prefix("dev:"@, name);
        },
        ForwardNodeView::Jdwp(pid) => {
            lemma_not_prefix(s, "tcp:"@, 0);
            lemma_not_prefix(s, "localfilesystem:"@, 0);
            lemma_not_prefix(s, "localreserved:"@, 0);
            lemma_not_prefix(s, "localabstract:"@, 0);
            lemma_not_prefix(s, "dev:"@, 0);
            lemma_strip_own_prefix("jdwp:"@, decimal_text(pid as nat));
            lemma_decimal_round_trip(pid as nat);
        },
        ForwardNodeView::Ark { pid, tid, debugger } => {
            lemma_not_prefix(s, "tcp:"@, 0);
            lemma_not_prefix(s, "localfilesystem:"@, 0);
            lemma_not_prefix(s, "localreserved:"@, 0);
            lemma_not_prefix(s, "localabstract:"@, 0);
            lemma_not_prefix(s, "dev:"@, 0);
            lemma_not_prefix(s, "jdwp:"@, 0);
            let rest = decimal_text(pid as nat) + seq!['@'] + decimal_text(tid as nat)
                + seq!['@'] + debugger;
            assert(s =~= "ark:"@ + rest);
            lemma_strip_own_prefix("ark:"@, rest);
            lemma_parse_ark_round_trip(pid, tid, debugger);
        },
    }
}

/// A pairing of a local and a remote node, forward or reverse.
#[derive(Debug, Clone)]
pub struct ForwardTask {
    pub local_node: ForwardNode,
    pub remote_node: ForwardNode,
    /// True for a forward (`fport`), false for a reverse (`rport`).
    pub is_forward: bool,
}

/// The mathematical content of a [`ForwardTask`].
pub struct ForwardTaskView {
    pub local_node: ForwardNodeView,
    pub remote_node: ForwardNodeView,
    pub is_forward: bool,
}

impl View for ForwardTask {
    type V = ForwardTaskView;

    open spec fn view(&self) -> ForwardTaskView {
        ForwardTaskView {
            local_node: self.local_node@,
            remote_node: self.remote_node@,
            is_forward: self.is_forward,
        }
    }
}

/// The command line that creates a forward from `local` to `remote`.
pub open spec fn fport_text(local: ForwardNodeView, remote: ForwardNodeView) -> Seq<char> {
    "fport "@ + protocol_text(local) + " "@ + protocol_text(remote)
}

/// The command line that creates a reverse forward from `remote` to `local`.
pub open spec fn rport_text(remote: ForwardNodeView, local: ForwardNodeView) -> Seq<char> {
    "rport "@ + protocol_text(remote) + " "@ + protocol_text(local)
}

/// The command line that creates a task: the verb of its direction, then
/// the node on the side where traffic enters, then the other.
pub open spec fn command_text(task: ForwardTaskView) -> Seq<char> {
    if task.is_forward {
        fport_text(task.local_node, task.remote_node)
    } else {
        rport_text(task.remote_node, task.local_node)
    }
}

/// The key under which a task is listed and removed: the local node, a
/// space, the remote node, whatever the direction.
pub open spec fn task_text(task: ForwardTaskView) -> Seq<char> {
    protocol_text(task.local_node) + " "@ + protocol_text(task.remote_node)
}

/// `verb`, then the wire forms of `first` and `second`, each after one space
/// (`verb` ends with its own).
pub fn node_pair_string(verb: &str, first: &ForwardNode, second: &ForwardNode) -> (s: String)
    ensures
        s@ == verb@ + protocol_text(first@) + " "@ + protocol_text(second@),
{
    let mut s = verb.to_owned();
    let a = first.as_protocol_string();
    s.append(a.as_str());
    s.append(" ");
    let b = second.as_protocol_string();
    s.append(b.as_str());
    s
}

impl ForwardTask {
    /// Creates a forward (`fport`) task.
    pub fn forward(local: ForwardNode, remote: ForwardNode) -> (task: Self)
        ensures
            task.local_node == local,
            task.remote_node == remote,
            task.is_forward,
    {
        ForwardTask { local_node: local, remote_node: remote, is_forward: true }
    }

    /// Creates a reverse (`rport`) task.
    pub fn reverse(remote: ForwardNode, local: ForwardNode) -> (task: Self)
        ensures
            task.local_node == local,
            task.remote_node == remote,
            !task.is_forward,
    {
        ForwardTask { local_node: local, remote_node: remote, is_forward: false }
    }

    /// Converts to the command line that creates the task.
    pub fn to_command_string(&self) -> (s: String)
        ensures
            s@ == command_text(self@),
    {
        if self.is_forward {
            node_pair_string("fport ", &self.local_node, &self.remote_node)
        } else {
            node_pair_string("rport ", &self.remote_node, &self.local_node)
        }
    }

    /// The task string, by which the task is removed.
    pub fn task_string(&self) -> (s: String)
        ensures
            s@ == task_text(self@),
    {
        let s = node_pair_string("", &self.local_node, &self.remote_node);
        proof {
            reveal_strlit("");
            assert(""@ + protocol_text(self.local_node@) =~= protocol_text(self.local_node@));
        }
        s
    }
}

} // verus!
