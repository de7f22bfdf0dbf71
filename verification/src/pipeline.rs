//! Wiring a parsed line into an executable plan.
//!
//! A pipeline of `n` stages forms a chain: stage 0 reads nothing, stage
//! `i + 1` reads what stage `i` writes, and only the last stage's output
//! may go to the stdout redirection target (or the terminal).  The stderr
//! destination is opened once and shared by every stage.  [`plan_line`]
//! computes that wiring; the host program opens the files, creates the
//! connecting pipes and moves the bytes.

use vstd::prelude::*;

use crate::parser::{err_target_view, out_target_view, ParseOutput};
use crate::text::clone_strings;

verus! {

/// Where a stage reads from: nothing (the first stage), or the previous
/// stage's output.
#[derive(Debug, Clone, Copy, PartialEq, Eq, Structural)]
pub enum StageInput {
    Empty,
    FromPrev,
}

/// Where a stage writes to: a connector feeding the next stage, the
/// stdout redirection target (with its append flag), or the process's
/// own standard output.
#[derive(Debug, PartialEq, Eq)]
pub enum StageOutput {
    PipeToNext,
    ToFile(String, bool),
    Inherit,
}

/// The shared stderr destination of a whole line: a file opened for
/// truncation, or the process's own standard error.
#[derive(Debug, PartialEq, Eq)]
pub enum ErrSink {
    ToFile(String),
    Inherit,
}

/// One stage of the plan: its argument list and its two endpoints.
#[derive(Debug)]
pub struct StagePlan {
    pub argv: Vec<String>,
    pub input: StageInput,
    pub output: StageOutput,
}

/// The plan for a whole line: its stages, in pipeline order, and the
/// shared stderr destination.
#[derive(Debug)]
pub struct LinePlan {
    pub stages: Vec<StagePlan>,
    pub err: ErrSink,
}

/// The wiring invariant of a plan against the parsed line it came from:
/// one plan stage per command group, carrying that group's arguments;
/// input from the previous stage exactly for the stages after the first;
/// every stage but the last feeding the next; the last stage writing to
/// the stdout target if one was given, and to the terminal otherwise.
pub open spec fn plan_wires(p: LinePlan, parsed: ParseOutput) -> bool {
    let n = p.stages@.len() as int;
    &&& n == parsed.commands@.len()
    &&& forall|i: int|
        0 <= i < n ==> (#[trigger] p.stages@[i]).argv.deep_view() == parsed.commands.deep_view()[i]
    &&& forall|i: int| 0 <= i < n ==> ((#[trigger] p.stages@[i]).input is FromPrev <==> i > 0)
    &&& forall|i: int| 0 <= i < n - 1 ==> (#[trigger] p.stages@[i]).output is PipeToNext
    &&& (n > 0 ==> match out_target_view(parsed.out_target) {
        Some((f, a)) => p.stages@[n - 1].output matches StageOutput::ToFile(g, b) && g@ == f && b
            == a,
        None => p.stages@[n - 1].output is Inherit,
    })
    &&& match err_target_view(parsed.err_target) {
        Some(f) => p.err matches ErrSink::ToFile(g) && g@ == f,
        None => p.err is Inherit,
    }
}

/// Computes the wiring of a parsed line, per [`plan_wires`].
pub fn plan_line(parsed: &ParseOutput) -> (p: LinePlan)
    ensures
        plan_wires(p, *parsed),
{
    let n = parsed.commands.len();
    let mut stages: Vec<StagePlan> = Vec::new();
    let mut i: usize = 0;
    while i < n
        invariant
            i <= n,
            n == parsed.commands@.len(),
            stages@.len() == i,
            forall|k: int|
                0 <= k < i ==> (#[trigger] stages@[k]).argv.deep_view()
                    == parsed.commands.deep_view()[k],
            forall|k: int| 0 <= k < i ==> ((#[trigger] stages@[k]).input is FromPrev <==> k > 0),
            forall|k: int| 0 <= k < i ==> (#[trigger] stages@[k]).output is PipeToNext || k == n - 1,
            forall|k: int|
                0 <= k < i && k == n - 1 ==> match out_target_view(parsed.out_target) {
                    Some((f, a)) => (#[trigger] stages@[k]).output matches StageOutput::ToFile(
                        g,
                        b,
                    ) && g@ == f && b == a,
                    None => stages@[k].output is Inherit,
                },
        decreases n - i,
    {
        let argv = clone_strings(&parsed.commands[i]);
        proof {
            assert(argv.deep_view() =~= parsed.commands.deep_view()[i as int]);
        }
        let input = if i == 0 {
            StageInput::Empty
        } else {
            StageInput::FromPrev
        };
        let output = if i + 1 < n {
            StageOutput::PipeToNext
        } else {
            match &parsed.out_target {
                Some(t) => StageOutput::ToFile(t.0.clone(), t.1),
                None => StageOutput::Inherit,
            }
        };
        stages.push(StagePlan { argv, input, output });
        i = i + 1;
    }
    let err = match &parsed.err_target {
        Some(f) => ErrSink::ToFile(f.clone()),
        None => ErrSink::Inherit,
    };
    LinePlan { stages, err }
}

} // verus!
