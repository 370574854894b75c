//! Reading one line of a system-call trace: the file or the network
//! endpoint that it names.

use vstd::prelude::*;
use crate::text::{
    chars_of, contains, find, find_from, includes, lemma_find_from_meaning, occurs_at,
    occurs_at_index, slice_of, starts_with, text_of, view_of,
};

verus! {

/// The double quote alone, as a pattern.
pub open spec fn quote() -> Seq<char> {
    seq!['"']
}

/// The text of `line` from index `from` up to the next double quote.
pub open spec fn quoted_after(line: Seq<char>, from: int) -> Option<Seq<char>> {
    match find_from(line, quote(), from) {
        Some(end) => Some(line.subrange(from, end)),
        None => None,
    }
}

/// The first double-quoted text of `line`.
pub open spec fn first_quoted(line: Seq<char>) -> Option<Seq<char>> {
    match find_from(line, quote(), 0) {
        Some(open) => quoted_after(line, open + 1),
        None => None,
    }
}

/// Paths that every traced program touches and that say nothing of it.
pub open spec fn is_ignored_path(path: Seq<char>) -> bool {
    ||| starts_with(path, "/proc/"@)
    ||| starts_with(path, "/sys/"@)
    ||| starts_with(path, "/dev/"@)
    ||| path == "/etc/ld.so.cache"@
}

/// The path that `line` names: its first double-quoted text, unless that is
/// an ignored path.
pub open spec fn file_path_of(line: Seq<char>) -> Option<Seq<char>> {
    match first_quoted(line) {
        Some(path) => if is_ignored_path(path) {
            None
        } else {
            Some(path)
        },
        None => None,
    }
}

/// The IPv4 address that `line` names: the text inside the first
/// `inet_addr("...")`, on a line that carries the marker `AF_INET`.
pub open spec fn network_address_of(line: Seq<char>) -> Option<Seq<char>> {
    if contains(line, "AF_INET"@) {
        match find_from(line, "inet_addr(\""@, 0) {
            Some(at) => quoted_after(line, at + "inet_addr(\""@.len()),
            None => None,
        }
    } else {
        None
    }
}

/// `line` records a call that opens a file.
pub open spec fn is_file_record(line: Seq<char>) -> bool {
    contains(line, "openat("@) || contains(line, "open("@)
}

/// `line` records a call that connects or binds a socket.
pub open spec fn is_network_record(line: Seq<char>) -> bool {
    contains(line, "connect("@) || contains(line, "bind("@)
}

/// The file that `line` reports as accessed.
pub open spec fn accessed_file(line: Seq<char>) -> Option<Seq<char>> {
    if is_file_record(line) {
        file_path_of(line)
    } else {
        None
    }
}

/// The network endpoint that `line` reports as accessed.
pub open spec fn network_endpoint(line: Seq<char>) -> Option<Seq<char>> {
    if is_network_record(line) {
        network_address_of(line)
    } else {
        None
    }
}

/// The fixed texts that the scan of a trace looks for.
pub struct Markers {
    quote: Vec<char>,
    proc_prefix: Vec<char>,
    sys_prefix: Vec<char>,
    dev_prefix: Vec<char>,
    ld_so_cache: Vec<char>,
    openat: Vec<char>,
    open: Vec<char>,
    connect: Vec<char>,
    bind: Vec<char>,
    af_inet: Vec<char>,
    inet_addr: Vec<char>,
}

impl Markers {
    /// Each field holds the text it is named after.
    pub closed spec fn wf(&self) -> bool {
        &&& self.quote@ == quote()
        &&& self.proc_prefix@ == "/proc/"@
        &&& self.sys_prefix@ == "/sys/"@
        &&& self.dev_prefix@ == "/dev/"@
        &&& self.ld_so_cache@ == "/etc/ld.so.cache"@
        &&& self.openat@ == "openat("@
        &&& self.open@ == "open("@
        &&& self.connect@ == "connect("@
        &&& self.bind@ == "bind("@
        &&& self.af_inet@ == "AF_INET"@
        &&& self.inet_addr@ == "inet_addr(\""@
    }

    /// The markers of a trace.
    pub fn new() -> (m: Markers)
        ensures
            m.wf(),
    {
        let mut quote: Vec<char> = Vec::new();
        quote.push('"');
        assert(quote@ =~= self::quote());
        Markers {
            quote,
            proc_prefix: chars_of("/proc/"),
            sys_prefix: chars_of("/sys/"),
            dev_prefix: chars_of("/dev/"),
            ld_so_cache: chars_of("/etc/ld.so.cache"),
            openat: chars_of("openat("),
            open: chars_of("open("),
            connect: chars_of("connect("),
            bind: chars_of("bind("),
            af_inet: chars_of("AF_INET"),
            inet_addr: chars_of("inet_addr(\""),
        }
    }

    /// Whether two texts are the same.
    fn same(a: &Vec<char>, b: &Vec<char>) -> (r: bool)
        ensures
            r == (a@ == b@),
    {
        if a.len() != b.len() {
            return false;
        }
        let r = occurs_at_index(a, b, 0);
        assert(a@.subrange(0, a@.len() as int) =~= a@);
        r
    }

    /// The text of `line` from index `from` up to the next double quote.
    fn quoted_after(&self, line: &Vec<char>, from: usize) -> (r: Option<Vec<char>>)
        requires
            self.wf(),
        ensures
            view_of(r) == self::quoted_after(line@, from as int),
    {
        proof {
            lemma_find_from_meaning(line@, quote(), from as int);
        }
        match find(line, &self.quote, from) {
            Some(end) => Some(slice_of(line, from, end)),
            None => None,
        }
    }

    /// Whether `path` is one of the ignored paths.
    fn is_ignored(&self, path: &Vec<char>) -> (r: bool)
        requires
            self.wf(),
        ensures
            r == is_ignored_path(path@),
    {
        occurs_at_index(path, &self.proc_prefix, 0) || occurs_at_index(path, &self.sys_prefix, 0)
            || occurs_at_index(path, &self.dev_prefix, 0) || Self::same(path, &self.ld_so_cache)
    }

    /// The path that `line` names.
    pub fn file_path(&self, line: &Vec<char>) -> (r: Option<Vec<char>>)
        requires
            self.wf(),
        ensures
            view_of(r) == file_path_of(line@),
    {
        proof {
            lemma_find_from_meaning(line@, quote(), 0);
        }
        match find(line, &self.quote, 0) {
            Some(open) => {
                match self.quoted_after(line, open + 1) {
                    Some(path) => if self.is_ignored(&path) {
                        None
                    } else {
                        Some(path)
                    },
                    None => None,
                }
            },
            None => None,
        }
    }

    /// The IPv4 address that `line` names.
    pub fn network_address(&self, line: &Vec<char>) -> (r: Option<Vec<char>>)
        requires
            self.wf(),
        ensures
            view_of(r) == network_address_of(line@),
    {
        if !includes(line, &self.af_inet) {
            return None;
        }
        proof {
            lemma_find_from_meaning(line@, "inet_addr(\""@, 0);
        }
        match find(line, &self.inet_addr, 0) {
            Some(at) => self.quoted_after(line, at + self.inet_addr.len()),
            None => None,
        }
    }

    /// The file that `line` reports as accessed.
    pub fn accessed_file(&self, line: &Vec<char>) -> (r: Option<Vec<char>>)
        requires
            self.wf(),
        ensures
            view_of(r) == self::accessed_file(line@),
    {
        if includes(line, &self.openat) || includes(line, &self.open) {
            self.file_path(line)
        } else {
            None
        }
    }

    /// The network endpoint that `line` reports as accessed.
    pub fn network_endpoint(&self, line: &Vec<char>) -> (r: Option<Vec<char>>)
        requires
            self.wf(),
        ensures
            view_of(r) == self::network_endpoint(line@),
    {
        if includes(line, &self.connect) || includes(line, &self.bind) {
            self.network_address(line)
        } else {
            None
        }
    }
}

/// The two kinds of access that a trace is read for.
#[derive(Debug, Clone, Copy, PartialEq, Eq, Structural)]
pub enum Access {
    /// A file was opened.
    File,
    /// A socket was connected or bound.
    Network,
}

/// What `line` reports of the given kind.
pub open spec fn record_of(kind: Access, line: Seq<char>) -> Option<Seq<char>> {
    match kind {
        Access::File => accessed_file(line),
        Access::Network => network_endpoint(line),
    }
}

/// The path that a line of a trace names: its first double-quoted text,
/// unless that is an ignored path.
pub fn extract_file_path(line: &str) -> (r: Option<String>)
    ensures
        view_of(r) == file_path_of(line@),
{
    let markers = Markers::new();
    let chars = chars_of(line);
    match markers.file_path(&chars) {
        Some(path) => Some(text_of(&path)),
        None => None,
    }
}

/// The IPv4 address that a line of a trace names.
pub fn extract_network_address(line: &str) -> (r: Option<String>)
    ensures
        view_of(r) == network_address_of(line@),
{
    let markers = Markers::new();
    let chars = chars_of(line);
    match markers.network_address(&chars) {
        Some(addr) => Some(text_of(&addr)),
        None => None,
    }
}

/// A line without the marker `AF_INET` reports no network endpoint, whatever
/// else it holds.
pub proof fn law_no_marker_no_endpoint(line: Seq<char>)
    requires
        !contains(line, "AF_INET"@),
    ensures
        network_address_of(line) is None,
        network_endpoint(line) is None,
{
}

/// The path that a line names holds no double quote, and is not an ignored
/// path.
pub proof fn law_path_is_quoted_text(line: Seq<char>)
    ensures
        file_path_of(line) matches Some(path) ==> !is_ignored_path(path) && !path.contains('"'),
{
    if let Some(path) = file_path_of(line) {
        let open = find_from(line, quote(), 0)->Some_0;
        lemma_quoted_holds_no_quote(line, open + 1);
    }
}

/// The text up to the next double quote holds none.
proof fn lemma_quoted_holds_no_quote(line: Seq<char>, from: int)
    requires
        0 <= from,
    ensures
        quoted_after(line, from) matches Some(text) ==> !text.contains('"'),
{
    lemma_find_from_meaning(line, quote(), from);
    if let Some(text) = quoted_after(line, from) {
        let end = find_from(line, quote(), from)->Some_0;
        assert forall|k: int| 0 <= k < text.len() implies text[k] != '"' by {
            if text[k] == '"' {
                assert(line.subrange(from + k, from + k + 1) =~= quote());
                assert(occurs_at(line, quote(), from + k));
            }
        }
    }
}

} // verus!
