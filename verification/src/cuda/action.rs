//! What a dispatched launch asks the device to do, and why one is refused.
//!
//! An action is plain data: the staging copies to enqueue, then one kernel
//! entry with its operands in the order that entry takes them. Whoever holds
//! the device performs it.

use crate::cuda::launch::{AttentionWorkspaceView, DType, KvCacheLayerView};
use vstd::prelude::*;

verus! {

/// A kernel entry the executor has an arm for.
#[derive(Clone, Copy, Debug, PartialEq, Eq, Structural)]
pub enum Entry {
    LayoutEmbedBf16,
    RopeStandardTable,
    NormRmsnormBf16,
    GemmActXW,
    MlpChunkedSwigluBf16,
    AttnQkvDecodeQkNormRopeWriteKvBf16,
    AttnDispatchFlashinferDecode,
    AttnSplitQkvBf16,
    RopeQkRmsnormRopeBf16,
    AttnWriteKvToPages,
    AttnDequantKvCacheLayerToBf16Active,
    AttnDispatchFlashinferPrefillBf16,
    RopeRopeBf16,
    NormResidualAddBf16,
    NormAddBiasBf16,
    NormRmsnormGemmaBf16,
    RopeRopePartialBf16,
    LayoutSplitQGateBf16,
    MlpSigmoidGateInplaceBf16,
    SsmCausalConv1dUpdateBatchedBf16,
    SsmCausalConv1dPrefillBatchedBf16,
    SsmQwenGdnPostConvPrepBf16,
    SsmRecurrentGatedDeltaStepBatchedStateBf16,
    SsmChunkGatedDeltaPrefillBatched,
    SsmChunkGatedDeltaPrefillBatchedStateBf16,
    NormRmsnormGatedFp32InBf16,
    NormScalarMulBf16,
    MlpGegluTanhBf16,
    AttnLogitSoftcapBf16,
    AttnQkvPackedQkNormRopeVnormWriteKvBf16,
    RopeQkRmsnormRopeBf16Rounded,
    AttnFlashinferPrefill,
    AttnNaivePaged,
    LayoutTransposeBf16NldToLnd,
    NormRmsnormResidualAddScaleRmsnormBf16,
    NormRmsnormResidualAddBf16,
    MlpChunkedGegluTanhBf16,
    NormRmsnormNoScaleBf16,
}

/// One operand of a kernel entry.
#[derive(Clone, Copy, Debug, PartialEq, Eq, Structural)]
pub enum Operand {
    /// An address, zero for none.
    Addr(u64),
    /// A 32-bit integer.
    Int(i32),
    /// A 64-bit integer.
    Long(i64),
    /// An element count.
    Count(u64),
    /// A float, as its bits.
    Float(u32),
    /// A switch.
    Flag(bool),
    /// An element type.
    Type(DType),
    /// A weight stored raw: its address and element type.
    RawWeight(u64, DType),
    /// A layer's KV storage.
    Layer(KvCacheLayerView),
    /// The attention workspace.
    Workspace(AttentionWorkspaceView),
}

/// A device-to-device copy that stages an in-place kernel's input into the
/// output the lowering assigned it.
#[derive(Clone, Copy, Debug, PartialEq, Eq, Structural)]
pub struct StageCopy {
    /// Where the bytes go.
    pub dst: u64,
    /// Where they come from.
    pub src: u64,
    /// How many.
    pub bytes: u64,
}

/// One launch, ready for the device: the copies in order, then the entry.
#[derive(Debug)]
pub struct DispatchAction {
    /// The staging copies.
    pub copies: Vec<StageCopy>,
    /// The entry to call.
    pub entry: Entry,
    /// Its operands.
    pub operands: Vec<Operand>,
}

/// [`DispatchAction`] over sequences.
pub struct ActionView {
    pub copies: Seq<StageCopy>,
    pub entry: Entry,
    pub operands: Seq<Operand>,
}

impl View for DispatchAction {
    type V = ActionView;

    open spec fn view(&self) -> ActionView {
        ActionView { copies: self.copies@, entry: self.entry, operands: self.operands@ }
    }
}

/// Why a bound launch could not be dispatched.
#[derive(Clone, Debug, PartialEq, Eq)]
pub enum DispatchRefusal {
    /// No arm exists for this kernel, or the arm lacks a fact it needs. An
    /// explicit refusal keeps a missing arm from reading as a covered launch.
    NoArm(String),
    /// The join names a weight the resolver does not hold.
    UnknownWeight(String),
    /// The arm expected the join to name a weight and it named none.
    NoWeight(String),
    /// An attention arm ran without an attention context, or with one whose
    /// layer list does not cover the launch's layer.
    NoAttnCtx(String),
    /// A linear-attention arm ran without its context, or with one whose state
    /// does not cover the launch's state layer.
    NoGdnCtx(String),
    /// An output placement failed to resolve.
    Out(String),
    /// The arm and the lowering disagree about the operand count.
    ArgCount {
        /// The kernel whose arm refused.
        kernel: String,
        /// Operands the arm expects.
        expected: usize,
        /// Operands the launch bound.
        got: usize,
    },
}

/// [`DispatchRefusal`] with its texts as sequences.
pub enum DispatchRefusalView {
    NoArm(Seq<char>),
    UnknownWeight(Seq<char>),
    NoWeight(Seq<char>),
    NoAttnCtx(Seq<char>),
    NoGdnCtx(Seq<char>),
    Out(Seq<char>),
    ArgCount { kernel: Seq<char>, expected: usize, got: usize },
}

impl View for DispatchRefusal {
    type V = DispatchRefusalView;

    open spec fn view(&self) -> DispatchRefusalView {
        match *self {
            DispatchRefusal::NoArm(text) => DispatchRefusalView::NoArm(text@),
            DispatchRefusal::UnknownWeight(text) => DispatchRefusalView::UnknownWeight(text@),
            DispatchRefusal::NoWeight(text) => DispatchRefusalView::NoWeight(text@),
            DispatchRefusal::NoAttnCtx(text) => DispatchRefusalView::NoAttnCtx(text@),
            DispatchRefusal::NoGdnCtx(text) => DispatchRefusalView::NoGdnCtx(text@),
            DispatchRefusal::Out(text) => DispatchRefusalView::Out(text@),
            DispatchRefusal::ArgCount { kernel, expected, got } => DispatchRefusalView::ArgCount {
                kernel: kernel@,
                expected,
                got,
            },
        }
    }
}

/// What dispatching a launch comes to.
pub type Outcome = Result<ActionView, DispatchRefusalView>;

/// The outcome a result stands for.
pub open spec fn outcome_of(result: Result<DispatchAction, DispatchRefusal>) -> Outcome {
    match result {
        Ok(action) => Ok(action@),
        Err(refusal) => Err(refusal@),
    }
}

/// An operand list under construction.
pub(crate) struct Operands {
    pub(crate) list: Vec<Operand>,
}

impl Operands {
    pub(crate) fn new() -> (ops: Self)
        ensures
            ops.list@ == Seq::<Operand>::empty(),
    {
        Operands { list: Vec::new() }
    }

    pub(crate) fn with(self, operand: Operand) -> (ops: Self)
        ensures
            ops.list@ == self.list@.push(operand),
    {
        let mut list = self.list;
        list.push(operand);
        Operands { list }
    }

    pub(crate) fn addr(self, address: u64) -> (ops: Self)
        ensures
            ops.list@ == self.list@.push(Operand::Addr(address)),
    {
        self.with(Operand::Addr(address))
    }

    pub(crate) fn num(self, n: i32) -> (ops: Self)
        ensures
            ops.list@ == self.list@.push(Operand::Int(n)),
    {
        self.with(Operand::Int(n))
    }

    pub(crate) fn float(self, bits: u32) -> (ops: Self)
        ensures
            ops.list@ == self.list@.push(Operand::Float(bits)),
    {
        self.with(Operand::Float(bits))
    }

    pub(crate) fn flag(self, on: bool) -> (ops: Self)
        ensures
            ops.list@ == self.list@.push(Operand::Flag(on)),
    {
        self.with(Operand::Flag(on))
    }
}

/// The action of one entry with no staging.
pub(crate) fn launched(entry: Entry, ops: Operands) -> (action: DispatchAction)
    ensures
        action@ == (ActionView {
            copies: Seq::<StageCopy>::empty(),
            entry,
            operands: ops.list@,
        }),
{
    DispatchAction { copies: Vec::new(), entry, operands: ops.list }
}

/// The action of one entry behind its staging copies.
pub(crate) fn staged(copies: Vec<StageCopy>, entry: Entry, ops: Operands) -> (action:
    DispatchAction)
    ensures
        action@ == (ActionView { copies: copies@, entry, operands: ops.list@ }),
{
    DispatchAction { copies, entry, operands: ops.list }
}

} // verus!
