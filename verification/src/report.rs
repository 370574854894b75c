//! The report of an audited run: what the lines of a trace log name, each
//! value once, and the summary that is shown of it.

use vstd::prelude::*;
use vstd::string::StringExecFns;
use crate::text::{chars_of, decimal, lines, push_decimal, rows, split_lines, text_of, texts};
use crate::trace::{is_ignored_path, record_of, Access, Markers};

verus! {

/// What `lines` report of the given kind: each value once, in the order in
/// which the values first occur.
pub open spec fn distinct_records(kind: Access, lines: Seq<Seq<char>>) -> Seq<Seq<char>>
    decreases lines.len(),
{
    if lines.len() == 0 {
        Seq::empty()
    } else {
        let before = distinct_records(kind, lines.drop_last());
        match record_of(kind, lines.last()) {
            Some(value) => if before.contains(value) {
                before
            } else {
                before.push(value)
            },
            None => before,
        }
    }
}

/// What an audited run touched, as texts.
pub struct AuditModel {
    pub files: Seq<Seq<char>>,
    pub connections: Seq<Seq<char>>,
}

impl AuditModel {
    /// No file and no endpoint stands twice.
    pub open spec fn is_deduplicated(self) -> bool {
        self.files.no_duplicates() && self.connections.no_duplicates()
    }
}

/// What an audited run touched. A report that was read from a trace log
/// holds each file and each endpoint once.
#[derive(Debug, Clone)]
pub struct AuditReport {
    /// Files that were opened during the run.
    pub accessed_files: Vec<String>,
    /// Network endpoints that were connected to or bound.
    pub network_connections: Vec<String>,
}

impl View for AuditReport {
    type V = AuditModel;

    open spec fn view(&self) -> AuditModel {
        AuditModel {
            files: texts(self.accessed_files@),
            connections: texts(self.network_connections@),
        }
    }
}

/// The report that a trace log with the given content stands for.
pub open spec fn report_of(content: Seq<char>) -> AuditModel {
    AuditModel {
        files: distinct_records(Access::File, lines(content)),
        connections: distinct_records(Access::Network, lines(content)),
    }
}

/// Adds `item` to `list` unless the list holds its text already.
fn push_if_new(list: &mut Vec<String>, item: String)
    ensures
        texts(final(list)@) == if texts(old(list)@).contains(item@) {
            texts(old(list)@)
        } else {
            texts(old(list)@).push(item@)
        },
{
    let mut i: usize = 0;
    while i < list.len()
        invariant
            i <= list@.len(),
            *list == *old(list),
            forall|j: int| 0 <= j < i ==> texts(list@)[j] != item@,
        decreases list@.len() - i,
    {
        if list[i] == item {
            assert(texts(list@)[i as int] == item@);
            return ;
        }
        i += 1;
    }
    list.push(item);
    assert(texts(list@) =~= texts(old(list)@).push(item@));
}

/// Reads the content of a trace log into a report.
pub fn parse_audit_log(content: &str) -> (report: AuditReport)
    ensures
        report@ == report_of(content@),
        report@.is_deduplicated(),
{
    proof {
        law_records_are_distinct(Access::File, lines(content@));
        law_records_are_distinct(Access::Network, lines(content@));
    }
    let markers = Markers::new();
    let chars = chars_of(content);
    let all = split_lines(&chars);
    let mut files: Vec<String> = Vec::new();
    let mut connections: Vec<String> = Vec::new();
    let mut i: usize = 0;
    assert(texts(files@) =~= distinct_records(Access::File, rows(all@).take(0)));
    assert(texts(connections@) =~= distinct_records(Access::Network, rows(all@).take(0)));
    while i < all.len()
        invariant
            i <= all@.len(),
            markers.wf(),
            texts(files@) == distinct_records(Access::File, rows(all@).take(i as int)),
            texts(connections@) == distinct_records(Access::Network, rows(all@).take(i as int)),
        decreases all@.len() - i,
    {
        let line = &all[i];
        proof {
            let upto = rows(all@).take(i + 1);
            assert(upto.drop_last() =~= rows(all@).take(i as int));
            assert(upto.last() == line@);
        }
        match markers.accessed_file(line) {
            Some(path) => {
                push_if_new(&mut files, text_of(&path));
            },
            None => {},
        }
        match markers.network_endpoint(line) {
            Some(addr) => {
                push_if_new(&mut connections, text_of(&addr));
            },
            None => {},
        }
        i += 1;
    }
    assert(rows(all@).take(i as int) =~= rows(all@));
    AuditReport { accessed_files: files, network_connections: connections }
}

/// Each item on a line of its own, between `before` and `after`.
pub open spec fn item_lines(items: Seq<Seq<char>>, before: Seq<char>, after: Seq<char>) -> Seq<char>
    decreases items.len(),
{
    if items.len() == 0 {
        Seq::empty()
    } else {
        item_lines(items.drop_last(), before, after) + before + items.last() + after
    }
}

/// The heading of a list: `before`, the number of items, `after`.
pub open spec fn counted_heading(before: Seq<char>, count: nat, after: Seq<char>) -> Seq<char> {
    before + decimal(count) + after
}

/// The part of the summary that lists what was accessed.
pub open spec fn access_listing(r: AuditModel) -> Seq<char> {
    let files = if r.files.len() > 0 {
        counted_heading("\n📁 File Access ("@, r.files.len(), " unique paths):\n"@) + item_lines(
            r.files,
            "  • "@,
            "\n"@,
        )
    } else {
        Seq::empty()
    };
    let connections = if r.connections.len() > 0 {
        counted_heading("\n🌐 Network Access ("@, r.connections.len(), " unique connections):\n"@)
            + item_lines(r.connections, "  • "@, "\n"@)
    } else {
        Seq::empty()
    };
    files + connections
}

/// The part of the summary that proposes configuration: nothing where
/// nothing was accessed.
pub open spec fn recommendations(r: AuditModel) -> Seq<char> {
    if r.files.len() == 0 && r.connections.len() == 0 {
        Seq::empty()
    } else {
        let files = if r.files.len() > 0 {
            "  Add to security.readOnlyPaths or security.readWritePaths:\n"@ + item_lines(
                r.files,
                "    - \""@,
                "\"\n"@,
            )
        } else {
            Seq::empty()
        };
        let connections = if r.connections.len() > 0 {
            "  Add to security.allowedHosts:\n"@ + item_lines(r.connections, "    - \""@, "\"\n"@)
        } else {
            Seq::empty()
        };
        "\n💡 Recommendations:\n"@ + files + connections
    }
}

/// The summary of a report: a title, what was accessed or one line that says
/// that nothing was, and the recommendations.
pub open spec fn summary_text(r: AuditModel) -> Seq<char> {
    let body = if r.files.len() == 0 && r.connections.len() == 0 {
        "  No file or network access detected\n"@
    } else {
        access_listing(r)
    };
    "🔍 Audit Report:\n================\n"@ + body + recommendations(r)
}

/// Appends each item on a line of its own, between `before` and `after`.
fn push_item_lines(out: &mut String, items: &Vec<String>, before: &str, after: &str)
    ensures
        final(out)@ == old(out)@ + item_lines(texts(items@), before@, after@),
{
    let mut i: usize = 0;
    assert(out@ =~= old(out)@ + item_lines(texts(items@).take(0), before@, after@));
    while i < items.len()
        invariant
            i <= items@.len(),
            out@ == old(out)@ + item_lines(texts(items@).take(i as int), before@, after@),
        decreases items@.len() - i,
    {
        let ghost upto = texts(items@).take(i + 1);
        assert(upto.drop_last() =~= texts(items@).take(i as int));
        assert(upto.last() == items@[i as int]@);
        out.append(before);
        out.append(items[i].as_str());
        out.append(after);
        assert(out@ =~= old(out)@ + item_lines(upto, before@, after@));
        i += 1;
    }
    assert(texts(items@).take(i as int) =~= texts(items@));
}

/// Appends the heading of a list of `count` items.
fn push_counted_heading(out: &mut String, before: &str, count: usize, after: &str)
    ensures
        final(out)@ == old(out)@ + counted_heading(before@, count as nat, after@),
{
    out.append(before);
    push_decimal(out, count);
    out.append(after);
    assert(out@ =~= old(out)@ + counted_heading(before@, count as nat, after@));
}

impl AuditReport {
    /// A report of nothing.
    pub fn empty() -> (r: AuditReport)
        ensures
            r@.files.len() == 0,
            r@.connections.len() == 0,
            r@.is_deduplicated(),
    {
        AuditReport { accessed_files: Vec::new(), network_connections: Vec::new() }
    }

    /// The summary of this report, for people to read.
    pub fn summary(&self) -> (s: String)
        ensures
            s@ == summary_text(self@),
    {
        let mut out = String::from_str("🔍 Audit Report:\n================\n");
        let ghost title = out@;
        let no_files = self.accessed_files.len() == 0;
        let no_connections = self.network_connections.len() == 0;
        if no_files && no_connections {
            out.append("  No file or network access detected\n");
            assert(out@ =~= summary_text(self@));
            return out;
        }
        if !no_files {
            push_counted_heading(
                &mut out,
                "\n📁 File Access (",
                self.accessed_files.len(),
                " unique paths):\n",
            );
            push_item_lines(&mut out, &self.accessed_files, "  • ", "\n");
        }
        if !no_connections {
            push_counted_heading(
                &mut out,
                "\n🌐 Network Access (",
                self.network_connections.len(),
                " unique connections):\n",
            );
            push_item_lines(&mut out, &self.network_connections, "  • ", "\n");
        }
        assert(out@ =~= title + access_listing(self@));
        let ghost listed = out@;
        out.append("\n💡 Recommendations:\n");
        if !no_files {
            out.append("  Add to security.readOnlyPaths or security.readWritePaths:\n");
            push_item_lines(&mut out, &self.accessed_files, "    - \"", "\"\n");
        }
        if !no_connections {
            out.append("  Add to security.allowedHosts:\n");
            push_item_lines(&mut out, &self.network_connections, "    - \"", "\"\n");
        }
        assert(out@ =~= listed + recommendations(self@));
        assert(out@ =~= summary_text(self@));
        out
    }
}

/// No value stands twice in a report.
pub proof fn law_records_are_distinct(kind: Access, lines: Seq<Seq<char>>)
    ensures
        distinct_records(kind, lines).no_duplicates(),
    decreases lines.len(),
{
    if lines.len() > 0 {
        law_records_are_distinct(kind, lines.drop_last());
    }
}

/// A report holds a value exactly if some line reports it.
pub proof fn law_records_are_what_lines_report(
    kind: Access,
    lines: Seq<Seq<char>>,
    value: Seq<char>,
)
    ensures
        distinct_records(kind, lines).contains(value) <==> exists|i: int|
            0 <= i < lines.len() && record_of(kind, #[trigger] lines[i]) == Some(value),
    decreases lines.len(),
{
    if lines.len() > 0 {
        let before = lines.drop_last();
        law_records_are_what_lines_report(kind, before, value);
        let found = distinct_records(kind, before);
        if distinct_records(kind, lines).contains(value) {
            if found.contains(value) {
                let i = choose|i: int|
                    0 <= i < before.len() && record_of(kind, #[trigger] before[i]) == Some(value);
                assert(lines[i] == before[i]);
            } else {
                assert(record_of(kind, lines.last()) == Some(value)) by {
                    let at = choose|j: int|
                        0 <= j < distinct_records(kind, lines).len() && distinct_records(
                            kind,
                            lines,
                        )[j] == value;
                    if at < found.len() {
                        assert(found[at] == value);
                    }
                }
                assert(lines[lines.len() - 1] == lines.last());
            }
        }
        if exists|i: int|
            0 <= i < lines.len() && record_of(kind, #[trigger] lines[i]) == Some(value) {
            let i = choose|i: int|
                0 <= i < lines.len() && record_of(kind, #[trigger] lines[i]) == Some(value);
            if i < before.len() {
                assert(before[i] == lines[i]);
                assert(found.contains(value));
                let at = choose|j: int| 0 <= j < found.len() && found[j] == value;
                if !distinct_records(kind, lines).contains(value) {
                    assert(distinct_records(kind, lines)[at] == value);
                }
            } else {
                assert(lines.last() == lines[i]);
                if !found.contains(value) {
                    assert(distinct_records(kind, lines) == found.push(value));
                    assert(found.push(value)[found.len() as int] == value);
                }
            }
        }
    }
}

/// An ignored path is in no report, whatever the lines hold.
pub proof fn law_ignored_paths_are_left_out(lines: Seq<Seq<char>>, path: Seq<char>)
    requires
        is_ignored_path(path),
    ensures
        !distinct_records(Access::File, lines).contains(path),
{
    law_records_are_what_lines_report(Access::File, lines, path);
}

/// Reading the same log twice gives reports that hold the same files and
/// the same endpoints.
pub proof fn law_same_log_same_report(first: AuditModel, second: AuditModel, content: Seq<char>)
    requires
        first == report_of(content),
        second == report_of(content),
    ensures
        first.files.to_set() == second.files.to_set(),
        first.connections.to_set() == second.connections.to_set(),
{
}

/// The summary of a report of nothing is the title and one line that says
/// so, without recommendations.
pub proof fn law_nothing_accessed_summary(r: AuditModel)
    requires
        r.files.len() == 0,
        r.connections.len() == 0,
    ensures
        recommendations(r) == Seq::<char>::empty(),
        summary_text(r) == "🔍 Audit Report:\n================\n"@
            + "  No file or network access detected\n"@,
{
    assert(summary_text(r) =~= "🔍 Audit Report:\n================\n"@
        + "  No file or network access detected\n"@);
}

} // verus!
