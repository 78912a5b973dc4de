//! A traced forward and its lowering, as the executor reads them.
//!
//! The trace states operations over values; the lowering turns it into
//! rectangles over an arena. Both are plain descriptions here: what an
//! operation names, where a value was placed, and which operands a launch
//! carries.

use core::ops::Range;
use vstd::prelude::*;

verus! {

/// A value of the trace.
pub type ValueId = u32;

/// One dimension of a value's shape.
#[derive(Clone, Copy, Debug, PartialEq, Eq, Structural)]
pub enum Dim {
    /// The fire's row count: not known until the fire.
    Rows,
    /// An extent the deployment fixes.
    Const(u32),
}

/// A value: its shape, rows first.
#[derive(Debug)]
pub struct Value {
    /// The dimensions.
    pub shape: Vec<Dim>,
}

/// The per-request store an operation addresses.
#[derive(Clone, Copy, Debug, PartialEq, Eq, Structural)]
pub struct StateRef {
    /// The model layer whose state it is.
    pub layer: u16,
}

/// One arm of a guard: how many operations its region holds.
#[derive(Clone, Copy, Debug, PartialEq, Eq, Structural)]
pub struct GuardArm {
    /// Operations in the region.
    pub ops: u32,
}

/// What an operation states, as far as a launch needs it.
#[derive(Debug)]
pub enum OpKind {
    /// Token embedding.
    Embed { weight: String },
    /// Whole-row RMS norm.
    Rmsnorm { weight: String },
    /// RMS norm over each head.
    RmsnormPerHead { weight: String, head_dim: u32 },
    /// A bias added to each row.
    AddBias { weight: String },
    /// The gated norm a linear-attention block lands through.
    RmsnormGated { weight: String },
    /// A causal convolution over the sequence.
    CausalConv1d { weight: String },
    /// The vocabulary projection.
    LmHead { weight: String },
    /// A projection; `beta_one` folds the residual in.
    Matmul { weight: String, beta_one: bool },
    /// The gated-delta preparation, which names two parameters.
    GdnPrep { a_log: String, dt_bias: String },
    /// A kernel stated directly, with the weights it names.
    Launch { weights: Vec<String> },
    /// A rotation; `partial` is the rotary width when it is not the head's.
    Rope { partial: Option<u32> },
    /// A choice between regions that share the guard's outputs.
    Guard { arms: Vec<GuardArm>, else_ops: u32 },
    /// Any other operation: nothing a launch joins with.
    Other,
}

/// One operation.
#[derive(Debug)]
pub struct Op {
    /// What it states.
    pub kind: OpKind,
    /// The values it produces.
    pub outputs: Vec<ValueId>,
    /// The per-request store it addresses, when it addresses one.
    pub state: Option<StateRef>,
}

/// A traced forward.
#[derive(Debug)]
pub struct ForwardPlan {
    /// Every value, by id.
    pub values: Vec<Value>,
    /// Every operation, in program order; a guard's regions follow it.
    pub ops: Vec<Op>,
}

/// One operand of a launch.
#[derive(Clone, Debug, PartialEq, Eq)]
pub enum Arg {
    /// A slot of the activation arena.
    Arena {
        /// Byte offset into the arena.
        at: usize,
        /// Elements per row.
        width: u32,
    },
    /// A value the backend names.
    Named {
        /// The value.
        value: ValueId,
        /// Elements per row.
        width: u32,
    },
    /// A weight, by name.
    Weight(String),
}

/// [`Arg`] with its name as text.
pub enum ArgView {
    Arena { at: usize, width: u32 },
    Named { value: ValueId, width: u32 },
    Weight(Seq<char>),
}

impl View for Arg {
    type V = ArgView;

    open spec fn view(&self) -> ArgView {
        match *self {
            Arg::Arena { at, width } => ArgView::Arena { at, width },
            Arg::Named { value, width } => ArgView::Named { value, width },
            Arg::Weight(name) => ArgView::Weight(name@),
        }
    }
}

/// The value-offset entry of a value the backend names rather than places.
pub const NAMED: usize = usize::MAX;

/// One launch: a kernel over a rectangle of rows and layers.
#[derive(Debug)]
pub struct Launch {
    /// Index into [`Lowered::kernels`].
    pub kernel: u32,
    /// The operation it lowers.
    pub op: u32,
    /// The rectangle's rows.
    pub rows: Range<u32>,
    /// The rectangle's layers.
    pub layers: Range<u16>,
    /// Its operands, as a range of [`Lowered::args`].
    pub args: Range<u32>,
}

/// A lowering: the launches of one fire.
#[derive(Debug)]
pub struct Lowered {
    /// The launches, in order.
    pub launches: Vec<Launch>,
    /// The kernel symbols they name.
    pub kernels: Vec<String>,
    /// Every launch's operands, end to end.
    pub args: Vec<Arg>,
    /// Where each value was placed, or [`NAMED`].
    pub value_offset: Vec<usize>,
    /// The arena the offsets were assigned in.
    pub arena_bytes: usize,
}

/// The fire classes a deployment traces.
#[derive(Clone, Copy, Debug, PartialEq, Eq, Structural)]
pub enum FireClass {
    /// One token per request.
    Decode,
    /// A run of tokens per request.
    Prefill,
}

} // verus!
