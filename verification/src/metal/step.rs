//! The single-token steps: built once, fired per token.
//!
//! A step owns its dispatch list and its place in the shared bind passes; the
//! buffers themselves are the device's.

use crate::metal::dag;
use crate::metal::dag::Dispatch;
use crate::metal::dispatch_gptoss;
use crate::metal::dispatch_gptoss::build_gptoss_dag;
use crate::metal::dispatch_llama;
use crate::metal::dispatch_llama::build_llama_dag;
use crate::metal::error::{Error, ErrorView};
use crate::metal::geometry::{GptOssGeometry, LlamaGeometry};
use crate::metal::tuning::Tuning;
use crate::strings;
use crate::strings::push_decimal;
use core::ops::Range;
use vstd::prelude::*;
use vstd::string::*;

verus! {

/// Which pool colours each dispatch of a step binds.
#[derive(Debug)]
pub struct ScratchSchedule {
    /// One entry per dispatch.
    pub per_dispatch: Vec<Vec<u32>>,
}

/// One prepared gpt-oss decode step.
#[derive(Debug)]
pub struct GptOssStep {
    /// The dispatch list.
    pub dag: Vec<Dispatch>,
    /// Whether every barrier is forced.
    pub force_barriers: bool,
}

/// One prepared llama decode step.
#[derive(Debug)]
pub struct LlamaStep {
    /// The dispatch list.
    pub dag: Vec<Dispatch>,
    /// Whether every barrier is forced.
    pub force_barriers: bool,
}

/// The refusal of a schedule that does not cover a step.
pub open spec fn uncovered(what: Seq<char>, covers: nat, has: nat) -> ErrorView {
    ErrorView::Create {
        what,
        message: "the scratch schedule covers "@ + strings::decimal(covers)
            + " dispatches, the DAG has "@ + strings::decimal(has),
    }
}

/// Refuse a schedule that does not cover a step.
fn mismatch(what: &'static str, covers: usize, has: usize) -> (e: Error)
    ensures
        e@ == uncovered(what@, covers as nat, has as nat),
{
    let mut message = String::from_str("the scratch schedule covers ");
    push_decimal(&mut message, covers as u64);
    message.append(" dispatches, the DAG has ");
    push_decimal(&mut message, has as u64);
    Error::Create { what, message }
}

impl GptOssStep {
    /// Build the step's dispatch list, with the argmax, and hold it ready; or
    /// refuse a scratch schedule that does not cover it. Refused before
    /// anything is bound, so a prepared step is never half-bound.
    pub fn prepare(g: &GptOssGeometry, schedule: &ScratchSchedule) -> (step: Result<Self, Error>)
        requires
            dispatch_gptoss::step_fits(*g),
        ensures
            ({
                let steps = dispatch_gptoss::gptoss_steps(*g, true);
                match step {
                    Ok(s) => {
                        &&& schedule.per_dispatch@.len() == steps.len()
                        &&& dag::states(s.dag@, steps)
                        &&& !s.force_barriers
                    },
                    Err(e) => {
                        &&& schedule.per_dispatch@.len() != steps.len()
                        &&& e@ == uncovered(
                            "gpt-oss step"@,
                            schedule.per_dispatch@.len(),
                            steps.len(),
                        )
                    },
                }
            }),
    {
        let dag = build_gptoss_dag(g, true);
        if schedule.per_dispatch.len() != dag.len() {
            return Err(mismatch("gpt-oss step", schedule.per_dispatch.len(), dag.len()));
        }
        Ok(GptOssStep { dag, force_barriers: false })
    }

    /// The dispatches a fire encodes: all of them.
    pub fn fire(&self) -> (range: Range<usize>)
        ensures
            range.start == 0,
            range.end == self.dag@.len(),
    {
        self.fire_prefix(self.dag.len())
    }

    /// The dispatches a truncated fire encodes: those before `end`.
    pub fn fire_prefix(&self, end: usize) -> (range: Range<usize>)
        ensures
            range.start == 0,
            range.end == end,
    {
        Range { start: 0, end }
    }
}

impl LlamaStep {
    /// Build the step's dispatch list, with the argmax, and hold it ready; or
    /// refuse a scratch schedule that does not cover it.
    pub fn prepare(g: &LlamaGeometry, tuning: &Tuning, schedule: &ScratchSchedule) -> (step: Result<
        Self,
        Error,
    >)
        requires
            dispatch_llama::step_fits(*g, *tuning),
        ensures
            ({
                let steps = dispatch_llama::llama_steps(*g, *tuning, true);
                match step {
                    Ok(s) => {
                        &&& schedule.per_dispatch@.len() == steps.len()
                        &&& dag::states(s.dag@, steps)
                        &&& !s.force_barriers
                    },
                    Err(e) => {
                        &&& schedule.per_dispatch@.len() != steps.len()
                        &&& e@ == uncovered(
                            "llama step"@,
                            schedule.per_dispatch@.len(),
                            steps.len(),
                        )
                    },
                }
            }),
    {
        let dag = build_llama_dag(g, tuning, true);
        if schedule.per_dispatch.len() != dag.len() {
            return Err(mismatch("llama step", schedule.per_dispatch.len(), dag.len()));
        }
        Ok(LlamaStep { dag, force_barriers: false })
    }

    /// The dispatches a fire encodes: all of them.
    pub fn fire(&self) -> (range: Range<usize>)
        ensures
            range.start == 0,
            range.end == self.dag@.len(),
    {
        self.fire_prefix(self.dag.len())
    }

    /// The dispatches a truncated fire encodes: those before `end`.
    pub fn fire_prefix(&self, end: usize) -> (range: Range<usize>)
        ensures
            range.start == 0,
            range.end == end,
    {
        Range { start: 0, end }
    }
}

/// The refusal of a schedule says what it is of, how many dispatches the
/// schedule covers, and, last, how many there are.
pub proof fn law_an_uncovered_step_says_both_counts(what: Seq<char>, covers: nat, has: nat)
    ensures
        uncovered(what, covers, has) matches ErrorView::Create { what: said, message } && said
            == what && ("the scratch schedule covers "@ + strings::decimal(covers)).is_prefix_of(
            message,
        ) && strings::decimal(has).is_suffix_of(message),
{
    let message = uncovered(what, covers, has)->Create_message;
    let head = "the scratch schedule covers "@ + strings::decimal(covers);
    let tail = strings::decimal(has);
    assert(head =~= message.subrange(0, head.len() as int));
    assert(tail =~= message.subrange((message.len() - tail.len()) as int, message.len() as int));
}

} // verus!
