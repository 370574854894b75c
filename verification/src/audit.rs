//! An audited run: the tracer that is launched around a command, and what
//! its exit code and its log come to.

use vstd::prelude::*;
use vstd::string::StringExecFns;
use crate::error::Error;
use crate::policy::Platform;
use crate::report::{parse_audit_log, report_of, AuditModel, AuditReport};
use crate::text::{lemma_texts_push, texts, view_of};

verus! {

/// The file that the tracer writes its log to.
pub const AUDIT_LOG_PATH: &'static str = "/tmp/cuenv_audit.log";

/// The program that traces a command.
pub const TRACER: &'static str = "strace";

/// The texts that are there, in order.
pub open spec fn present(items: Seq<Option<Seq<char>>>) -> Seq<Seq<char>>
    decreases items.len(),
{
    if items.len() == 0 {
        Seq::empty()
    } else {
        match items.last() {
            Some(text) => present(items.drop_last()).push(text),
            None => present(items.drop_last()),
        }
    }
}

/// The view of each string that is there.
pub open spec fn optional_texts(items: Seq<Option<String>>) -> Seq<Option<Seq<char>>> {
    Seq::new(items.len(), |i: int| view_of(items[i]))
}

/// The arguments of the tracer around a command: follow forks, trace the
/// calls on files and on the network, write to the log file, then the
/// command's program and arguments as far as they are text.
pub open spec fn tracer_arguments(program: Option<Seq<char>>, args: Seq<Option<Seq<char>>>) -> Seq<
    Seq<char>,
> {
    seq!["-f"@, "-e"@, "trace=file,network"@, "-o"@, AUDIT_LOG_PATH@, "--"@] + present(
        seq![program] + args,
    )
}

/// A program to launch, with its arguments.
#[derive(Debug, Clone)]
pub struct TracerInvocation {
    pub program: String,
    pub args: Vec<String>,
}

/// The message of the error that refuses an audit off Linux.
pub open spec fn audit_unsupported_message() -> Seq<char> {
    "Audit mode is only supported on Linux systems"@
}

/// How to launch the tracer around a command, given the command's program
/// and arguments (`None` for one that is not text). Off Linux there is no
/// tracer, and the answer is a configuration error.
pub fn plan_audit(platform: Platform, program: Option<&str>, args: &Vec<Option<String>>) -> (r:
    Result<TracerInvocation, Error>)
    ensures
        match platform {
            Platform::Other => r matches Err(e) && e is Configuration && e.message_text()
                == audit_unsupported_message(),
            Platform::Linux => r matches Ok(tracer) && tracer.program@ == TRACER@ && texts(
                tracer.args@,
            ) == tracer_arguments(view_of(program), optional_texts(args@)),
        },
{
    match platform {
        Platform::Other => {
            return Err(
                Error::configuration(
                    String::from_str("Audit mode is only supported on Linux systems"),
                ),
            );
        },
        Platform::Linux => {},
    }
    let mut out: Vec<String> = Vec::new();
    out.push(String::from_str("-f"));
    out.push(String::from_str("-e"));
    out.push(String::from_str("trace=file,network"));
    out.push(String::from_str("-o"));
    out.push(String::from_str(AUDIT_LOG_PATH));
    out.push(String::from_str("--"));
    let ghost fixed = seq!["-f"@, "-e"@, "trace=file,network"@, "-o"@, AUDIT_LOG_PATH@, "--"@];
    assert(texts(out@) =~= fixed);
    let ghost all = seq![view_of(program)] + optional_texts(args@);
    match program {
        Some(p) => {
            let ghost before = out@;
            let item = String::from_str(p);
            out.push(item);
            proof {
                lemma_texts_push(before, item);
            }
        },
        None => {},
    }
    assert(all.take(1).drop_last() =~= Seq::empty());
    assert(all.take(1).last() == view_of(program));
    assert(present(Seq::<Option<Seq<char>>>::empty()) =~= Seq::empty());
    assert(present(all.take(1)) =~= match program {
        Some(p) => seq![p@],
        None => Seq::empty(),
    });
    assert(texts(out@) =~= fixed + present(all.take(1)));
    let mut i: usize = 0;
    while i < args.len()
        invariant
            i <= args@.len(),
            all == seq![view_of(program)] + optional_texts(args@),
            texts(out@) == fixed + present(all.take(i + 1)),
        decreases args@.len() - i,
    {
        let ghost before = out@;
        assert(all.take(i + 2).drop_last() =~= all.take(i + 1));
        assert(all.take(i + 2).last() == view_of(args@[i as int]));
        match &args[i] {
            Some(a) => {
                let item = a.clone();
                out.push(item);
                proof {
                    lemma_texts_push(before, item);
                }
                assert(texts(out@) =~= fixed + present(all.take(i + 2)));
            },
            None => {},
        }
        i += 1;
    }
    assert(all.take(i + 1) =~= all);
    Ok(TracerInvocation { program: String::from_str(TRACER), args: out })
}

/// The error for a tracer that could not be launched, from the cause that
/// the system gave.
pub fn tracer_launch_failure(cause: &str) -> (e: Error)
    ensures
        e matches Error::CommandExecution { command, args, message, exit_code } && command@
            == TRACER@ && texts(args@) == seq!["monitoring command"@] && message@
            == "Failed to run audit command: "@ + cause@ && exit_code is None,
{
    let mut args: Vec<String> = Vec::new();
    args.push(String::from_str("monitoring command"));
    assert(texts(args@) =~= seq!["monitoring command"@]);
    let message = String::from_str("Failed to run audit command: ").concat(cause);
    Error::command_execution(TRACER, args, message, None)
}

/// The report of an empty or unreadable log.
pub open spec fn nothing_accessed() -> AuditModel {
    AuditModel { files: Seq::empty(), connections: Seq::empty() }
}

/// What an audited run comes to, from the exit code of the tracer (`None`
/// where a signal ended it) and the content of its log (`None` where the log
/// could not be read): the tracer's exit code, or 1 without one, and the
/// report of the log, or of nothing.
pub fn audit_outcome(exit_code: Option<i32>, log: Option<&str>) -> (r: (i32, AuditReport))
    ensures
        r.0 == match exit_code {
            Some(code) => code,
            None => 1,
        },
        r.1@ == match log {
            Some(content) => report_of(content@),
            None => nothing_accessed(),
        },
        r.1@.is_deduplicated(),
{
    let code: i32 = match exit_code {
        Some(code) => code,
        None => 1,
    };
    let report = match log {
        Some(content) => parse_audit_log(content),
        None => {
            let empty = AuditReport::empty();
            assert(empty@.files =~= Seq::empty());
            assert(empty@.connections =~= Seq::empty());
            empty
        },
    };
    (code, report)
}

} // verus!
