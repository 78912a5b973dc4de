//! The decode step's vocabulary: regions, IO slots, kernel kinds, and the graph
//! key.
//!
//! The positions of [`Kernel`], [`IoSlot`] and [`Region`] are part of the
//! argument-table ABI: the lists are append-only, and every table indexed by a
//! kind is sized from the kind count.

use vstd::prelude::*;

verus! {

/// One fixed region of the decode heap.
#[derive(Clone, Copy, Debug, PartialEq, Eq, Structural)]
pub enum Region {
    /// Load-once read-only weights.
    Weights,
    /// The contiguous K/V ring for the full-attention layers.
    Kv,
    /// Resident convolution and recurrent state, updated in place.
    State,
    /// The activation ping-pong pool ([`SCRATCH_POOL`] buffers).
    Scratch,
    /// Per-token scalars and the logits.
    Io,
    /// Multi-batch CSR buffers (the [`IoSlot`] tail).
    MbIo,
    /// The paged K/V pool the paged kernels read.
    KvPagePool,
}

/// The activation ping-pong pool's size cap: the current peak and not a round
/// number above it, so the next value that does not fit says so.
pub const SCRATCH_POOL: usize = 9;

/// One slot of the IO region.
#[derive(Clone, Copy, Debug, PartialEq, Eq, Structural)]
pub enum IoSlot {
    /// The fired token ids.
    TokenId,
    /// Absolute positions.
    Position,
    /// Per-token KV extent.
    SeqLen,
    /// The logits.
    Logits,
    /// The optional device argmax.
    NextToken,
    /// Per-request token spans.
    QoIndptr,
    /// Per-request page-list base.
    KvPageIndptr,
    /// Flat physical page ids.
    KvPageIndices,
    /// Fill count of each request's last page.
    KvLastPageLens,
    /// Recurrent-state slot per request.
    RsSlotIds,
    /// Per-slot fresh or continue flags.
    RsSlotFlags,
    /// Per-token owning request.
    ReqOfToken,
    /// Per-token recurrent-state slot.
    SlotOfToken,
    /// Physical destination page per appended token.
    WPage,
    /// In-page destination offset per appended token.
    WOff,
    /// The dense attention allow-mask.
    AttnMask,
    /// The dense mask's row stride.
    AttnMaskStride,
    /// Whether each row consumes the mask.
    AttnMaskEnabled,
    /// Which body rows the fire samples, in readout order.
    SampleRows,
}

/// How many [`IoSlot`]s there are.
pub const IO_SLOT_COUNT: usize = 19;

/// The slot count ends at the last slot, and every slot stands below it.
pub proof fn law_slot_count_is_the_end(slot: IoSlot)
    ensures
        IoSlot::SampleRows as int + 1 == IO_SLOT_COUNT,
        0 <= slot as int,
        (slot as int) < IO_SLOT_COUNT,
{
}

/// The position of a slot is its place in the argument tables: a table built for
/// one order is not read in another.
pub proof fn law_each_slot_keeps_its_place()
    ensures
        IoSlot::TokenId as int == 0,
        IoSlot::Position as int == 1,
        IoSlot::SeqLen as int == 2,
        IoSlot::Logits as int == 3,
        IoSlot::NextToken as int == 4,
        IoSlot::QoIndptr as int == 5,
        IoSlot::KvPageIndptr as int == 6,
        IoSlot::KvPageIndices as int == 7,
        IoSlot::KvLastPageLens as int == 8,
        IoSlot::RsSlotIds as int == 9,
        IoSlot::RsSlotFlags as int == 10,
        IoSlot::ReqOfToken as int == 11,
        IoSlot::SlotOfToken as int == 12,
        IoSlot::WPage as int == 13,
        IoSlot::WOff as int == 14,
        IoSlot::AttnMask as int == 15,
        IoSlot::AttnMaskStride as int == 16,
        IoSlot::AttnMaskEnabled as int == 17,
        IoSlot::SampleRows as int == 18,
{
}

/// The position of a region is its place in the decode heap.
pub proof fn law_each_region_keeps_its_place()
    ensures
        Region::Weights as int == 0,
        Region::Kv as int == 1,
        Region::State as int == 2,
{
}

/// The argmax kernel's constant block: ten words.
#[derive(Clone, Copy, Debug, PartialEq, Eq)]
pub struct ArgmaxParams {
    /// The logits row width.
    pub vocab: u32,
    /// Valid entries in [`Self::eos_ids`]; zero means the stop flag never fires.
    pub n_eos: u32,
    /// Stop-token ids the device compares the winner against.
    pub eos_ids: [u32; 8],
}

impl Default for ArgmaxParams {
    fn default() -> (params: Self)
        ensures
            params.vocab == 0,
            params.n_eos == 0,
            forall|i: int| 0 <= i < 8 ==> #[trigger] params.eos_ids@[i] == 0,
    {
        ArgmaxParams { vocab: 0, n_eos: 0, eos_ids: [0, 0, 0, 0, 0, 0, 0, 0] }
    }
}

/// One dispatch kind of the decode step.
///
/// A kind is a weight name as much as a kernel, which is why families that
/// reuse a kernel under a different tensor name get their own kinds.
#[derive(Clone, Copy, Debug, PartialEq, Eq, Hash, Structural)]
pub enum Kernel {
    /// Embedding gather off the tied 4-bit head bundle.
    EmbedGather,
    /// Pre-attention RMS norm.
    Rms,
    /// GDN in-projection, 4-bit qkv.
    QmvIn,
    /// GDN in-projection, 4-bit z gate.
    QmvInZ,
    /// GDN `a` projection, dense bf16.
    GdnInA,
    /// GDN `b` projection, dense bf16.
    GdnInB,
    /// The hoisted GDN q/k prologue (one dispatch per head).
    GdnPrep,
    /// The fused GDN core: conv+silu, norms, gating, recurrent step.
    GdnCore,
    /// The gated RMS norm closing the GDN block.
    GatedRms,
    /// GDN out-projection.
    QmvOut,
    /// Residual add.
    Residual,
    /// Attention q projection.
    QmvQ,
    /// Deinterleave of the 2x-wide gated-q projection.
    QSplit,
    /// Attention k projection.
    QmvK,
    /// Attention v projection.
    QmvV,
    /// Per-head q norm.
    QNorm,
    /// Per-head k norm.
    KNorm,
    /// Rope on q.
    Rope,
    /// Rope on k.
    RopeK,
    /// The M=1 contiguous-ring KV append.
    KvAppend,
    /// The M=1 single-pass decode attention.
    Sdpa,
    /// `attn *= sigmoid(gate)` before the o projection.
    AttnGate,
    /// Attention o projection.
    QmvO,
    /// Pre-FFN RMS norm.
    FfnRms,
    /// FFN gate projection.
    QmvGate,
    /// FFN up projection.
    QmvUp,
    /// SwiGLU.
    SiluMul,
    /// FFN down projection.
    QmvDown,
    /// The layer's closing residual add.
    LayerOut,
    /// The final RMS norm.
    FinalRms,
    /// The tied LM head matvec.
    QmvLmHead,
    /// The optional device argmax.
    Argmax,
    /// The paged KV scatter (M>1).
    KvAppendPaged,
    /// The paged-attention read (M>1).
    SdpaPaged,
    /// The slot-indexed GDN core (S>1).
    GdnCoreSlotted,
    /// The slot-indexed GDN prologue (S>1).
    GdnPrepSlotted,
    /// gemma4 `post_attention_layernorm`.
    G4AttnPostNorm,
    /// gemma4 `pre_feedforward_layernorm`.
    G4FfnPreNorm,
    /// gemma4 `post_feedforward_layernorm`.
    G4FfnPostNorm,
    /// gemma4's weightless RMS on v before the KV write.
    G4VNorm,
    /// gemma4 `gelu_tanh(gate) * up`.
    G4Geglu,
    /// gemma4's learned per-layer gain.
    G4LayerScalar,
    /// gemma4 `cap * tanh(logits / cap)`.
    G4Softcap,
    /// gemma4's sampled-row compaction before the tail.
    G4RowGather,
    /// gemma4 sliding-window decode attention.
    G4SdpaSliding,
    /// gemma4 `embed_tokens_per_layer` gather.
    G4PleTokenGather,
    /// gemma4 `per_layer_model_projection` matvec.
    G4PleProjGemv,
    /// gemma4 `per_layer_projection_norm`.
    G4PleProjNorm,
    /// gemma4 `(proj + token) * 1/sqrt(2)`.
    G4PleCombine,
    /// gemma4 `per_layer_input_gate` matvec.
    G4PleGateGemv,
    /// gemma4 `gelu_tanh(gate) * ple`.
    G4PleGeglu,
    /// gemma4 `per_layer_projection` matvec.
    G4PleProjLayerGemv,
    /// gemma4 `post_per_layer_input_norm`.
    G4PleNorm,
    /// gemma4 `hidden += ple`.
    G4PleResidual,
    /// gemma4's fused post-attention norm + residual.
    G4AttnPostResidual,
    /// gemma4's fused post-FFN norm + residual.
    G4FfnPostResidual,
    /// gemma4's fused PLE norm + residual, scaled.
    G4PleResidualScaled,
    /// An untied quantized embedding (`model.embed_tokens`).
    EmbedUntied,
    /// An untied quantized LM head.
    LmHeadUntied,
    /// gpt-oss biased q projection.
    GoQmvQ,
    /// gpt-oss biased k projection.
    GoQmvK,
    /// gpt-oss biased v projection.
    GoQmvV,
    /// gpt-oss biased o projection.
    GoQmvO,
    /// gpt-oss decode attention with the learned per-head sink.
    GoSdpaSink,
    /// gpt-oss router (8-bit affine, biased).
    GoRouter,
    /// gpt-oss routed expert gate projection.
    GoExpertGate,
    /// gpt-oss routed expert up projection.
    GoExpertUp,
    /// gpt-oss routed expert down projection.
    GoExpertDown,
    /// Top-k + softmax over the router's logits.
    GoRouterTopK,
    /// gpt-oss's clamped SwiGLU variant.
    GoSwiGlu,
    /// The weighted sum of the k experts' outputs.
    GoExpertCombine,
    /// Qwen-MoE router (`mlp.gate`, no bias).
    LlRouter,
    /// Qwen-MoE stacked expert gate projections.
    LlExpertGate,
    /// Qwen-MoE stacked expert up projections.
    LlExpertUp,
    /// Qwen-MoE stacked expert down projections.
    LlExpertDown,
    /// The batched mixture's expert-major sort.
    LlMoeSort,
    /// The sorted-row gather.
    LlMoeGather,
    /// The sorted-results combine, through the sort's inverse.
    LlMoeCombine,
    /// Shared expert gate projection (`mlp.shared_expert.gate_proj`).
    LlSharedGate,
    /// Shared expert up projection.
    LlSharedUp,
    /// Shared expert down projection.
    LlSharedDown,
    /// `mlp.shared_expert_gate` — hidden to one logit a token.
    LlSharedGateProj,
    /// `routed + sigmoid(gate) * shared`.
    LlSharedCombine,
    /// The mixture's SwiGLU over the sorted stack.
    LlExpertSiluMul,
    /// gemma4 MoE router (`router.proj` + per-expert scale).
    G4Router,
    /// gemma4 router norm (`router.scale`, folded at load).
    G4RouterNorm,
    /// gemma4 top-k + softmax + gain.
    G4RouterTopK,
    /// gemma4 `pre_feedforward_layernorm_2`.
    G4MoeNorm,
    /// gemma4 `post_feedforward_layernorm_1`.
    G4DenseBranchNorm,
    /// gemma4 `post_feedforward_layernorm_2`.
    G4MoeBranchNorm,
    /// gemma4 stacked expert gate projections.
    G4ExpertGate,
    /// gemma4 stacked expert up projections.
    G4ExpertUp,
    /// gemma4 stacked expert down projections.
    G4ExpertDown,
    /// GeGLU over the sorted stack — gemma's activation.
    G4ExpertGeglu,
    /// gemma4's expert-major sort.
    G4MoeSort,
    /// gemma4's sorted-row gather.
    G4MoeGather,
    /// gemma4's expert combine.
    G4ExpertCombine,
    /// The dense and mixture branches meeting.
    G4BranchAdd,
}

impl Kernel {
    /// How many kinds there are: the size of every table indexed by
    /// [`Self::index`].
    pub const COUNT: usize = 98;

    /// Every kind, in ABI order.
    pub const ALL: [Kernel; 98] = [
        Kernel::EmbedGather,
        Kernel::Rms,
        Kernel::QmvIn,
        Kernel::QmvInZ,
        Kernel::GdnInA,
        Kernel::GdnInB,
        Kernel::GdnPrep,
        Kernel::GdnCore,
        Kernel::GatedRms,
        Kernel::QmvOut,
        Kernel::Residual,
        Kernel::QmvQ,
        Kernel::QSplit,
        Kernel::QmvK,
        Kernel::QmvV,
        Kernel::QNorm,
        Kernel::KNorm,
        Kernel::Rope,
        Kernel::RopeK,
        Kernel::KvAppend,
        Kernel::Sdpa,
        Kernel::AttnGate,
        Kernel::QmvO,
        Kernel::FfnRms,
        Kernel::QmvGate,
        Kernel::QmvUp,
        Kernel::SiluMul,
        Kernel::QmvDown,
        Kernel::LayerOut,
        Kernel::FinalRms,
        Kernel::QmvLmHead,
        Kernel::Argmax,
        Kernel::KvAppendPaged,
        Kernel::SdpaPaged,
        Kernel::GdnCoreSlotted,
        Kernel::GdnPrepSlotted,
        Kernel::G4AttnPostNorm,
        Kernel::G4FfnPreNorm,
        Kernel::G4FfnPostNorm,
        Kernel::G4VNorm,
        Kernel::G4Geglu,
        Kernel::G4LayerScalar,
        Kernel::G4Softcap,
        Kernel::G4RowGather,
        Kernel::G4SdpaSliding,
        Kernel::G4PleTokenGather,
        Kernel::G4PleProjGemv,
        Kernel::G4PleProjNorm,
        Kernel::G4PleCombine,
        Kernel::G4PleGateGemv,
        Kernel::G4PleGeglu,
        Kernel::G4PleProjLayerGemv,
        Kernel::G4PleNorm,
        Kernel::G4PleResidual,
        Kernel::G4AttnPostResidual,
        Kernel::G4FfnPostResidual,
        Kernel::G4PleResidualScaled,
        Kernel::EmbedUntied,
        Kernel::LmHeadUntied,
        Kernel::GoQmvQ,
        Kernel::GoQmvK,
        Kernel::GoQmvV,
        Kernel::GoQmvO,
        Kernel::GoSdpaSink,
        Kernel::GoRouter,
        Kernel::GoExpertGate,
        Kernel::GoExpertUp,
        Kernel::GoExpertDown,
        Kernel::GoRouterTopK,
        Kernel::GoSwiGlu,
        Kernel::GoExpertCombine,
        Kernel::LlRouter,
        Kernel::LlExpertGate,
        Kernel::LlExpertUp,
        Kernel::LlExpertDown,
        Kernel::LlMoeSort,
        Kernel::LlMoeGather,
        Kernel::LlMoeCombine,
        Kernel::LlSharedGate,
        Kernel::LlSharedUp,
        Kernel::LlSharedDown,
        Kernel::LlSharedGateProj,
        Kernel::LlSharedCombine,
        Kernel::LlExpertSiluMul,
        Kernel::G4Router,
        Kernel::G4RouterNorm,
        Kernel::G4RouterTopK,
        Kernel::G4MoeNorm,
        Kernel::G4DenseBranchNorm,
        Kernel::G4MoeBranchNorm,
        Kernel::G4ExpertGate,
        Kernel::G4ExpertUp,
        Kernel::G4ExpertDown,
        Kernel::G4ExpertGeglu,
        Kernel::G4MoeSort,
        Kernel::G4MoeGather,
        Kernel::G4ExpertCombine,
        Kernel::G4BranchAdd,
    ];

    /// This kind's table index: its position in the ABI order.
    pub fn index(self) -> (i: usize)
        ensures
            i == self as usize,
            i < Self::COUNT,
            Self::ALL@[i as int] == self,
    {
        proof {
            law_all_lists_every_kind(self);
        }
        self as usize
    }
}

/// Every kind stands in the list at its own index, so the list is every kind
/// once: a table of one entry per list position, indexed by kind, is never
/// indexed past and shares no entry.
pub proof fn law_all_lists_every_kind(k: Kernel)
    ensures
        Kernel::ALL@.len() == Kernel::COUNT,
        0 <= k as int,
        (k as int) < Kernel::COUNT,
        Kernel::ALL@[k as int] == k,
{
    match k {
        Kernel::EmbedGather => {},
        Kernel::Rms => {},
        Kernel::QmvIn => {},
        Kernel::QmvInZ => {},
        Kernel::GdnInA => {},
        Kernel::GdnInB => {},
        Kernel::GdnPrep => {},
        Kernel::GdnCore => {},
        Kernel::GatedRms => {},
        Kernel::QmvOut => {},
        Kernel::Residual => {},
        Kernel::QmvQ => {},
        Kernel::QSplit => {},
        Kernel::QmvK => {},
        Kernel::QmvV => {},
        Kernel::QNorm => {},
        Kernel::KNorm => {},
        Kernel::Rope => {},
        Kernel::RopeK => {},
        Kernel::KvAppend => {},
        Kernel::Sdpa => {},
        Kernel::AttnGate => {},
        Kernel::QmvO => {},
        Kernel::FfnRms => {},
        Kernel::QmvGate => {},
        Kernel::QmvUp => {},
        Kernel::SiluMul => {},
        Kernel::QmvDown => {},
        Kernel::LayerOut => {},
        Kernel::FinalRms => {},
        Kernel::QmvLmHead => {},
        Kernel::Argmax => {},
        Kernel::KvAppendPaged => {},
        Kernel::SdpaPaged => {},
        Kernel::GdnCoreSlotted => {},
        Kernel::GdnPrepSlotted => {},
        Kernel::G4AttnPostNorm => {},
        Kernel::G4FfnPreNorm => {},
        Kernel::G4FfnPostNorm => {},
        Kernel::G4VNorm => {},
        Kernel::G4Geglu => {},
        Kernel::G4LayerScalar => {},
        Kernel::G4Softcap => {},
        Kernel::G4RowGather => {},
        Kernel::G4SdpaSliding => {},
        Kernel::G4PleTokenGather => {},
        Kernel::G4PleProjGemv => {},
        Kernel::G4PleProjNorm => {},
        Kernel::G4PleCombine => {},
        Kernel::G4PleGateGemv => {},
        Kernel::G4PleGeglu => {},
        Kernel::G4PleProjLayerGemv => {},
        Kernel::G4PleNorm => {},
        Kernel::G4PleResidual => {},
        Kernel::G4AttnPostResidual => {},
        Kernel::G4FfnPostResidual => {},
        Kernel::G4PleResidualScaled => {},
        Kernel::EmbedUntied => {},
        Kernel::LmHeadUntied => {},
        Kernel::GoQmvQ => {},
        Kernel::GoQmvK => {},
        Kernel::GoQmvV => {},
        Kernel::GoQmvO => {},
        Kernel::GoSdpaSink => {},
        Kernel::GoRouter => {},
        Kernel::GoExpertGate => {},
        Kernel::GoExpertUp => {},
        Kernel::GoExpertDown => {},
        Kernel::GoRouterTopK => {},
        Kernel::GoSwiGlu => {},
        Kernel::GoExpertCombine => {},
        Kernel::LlRouter => {},
        Kernel::LlExpertGate => {},
        Kernel::LlExpertUp => {},
        Kernel::LlExpertDown => {},
        Kernel::LlMoeSort => {},
        Kernel::LlMoeGather => {},
        Kernel::LlMoeCombine => {},
        Kernel::LlSharedGate => {},
        Kernel::LlSharedUp => {},
        Kernel::LlSharedDown => {},
        Kernel::LlSharedGateProj => {},
        Kernel::LlSharedCombine => {},
        Kernel::LlExpertSiluMul => {},
        Kernel::G4Router => {},
        Kernel::G4RouterNorm => {},
        Kernel::G4RouterTopK => {},
        Kernel::G4MoeNorm => {},
        Kernel::G4DenseBranchNorm => {},
        Kernel::G4MoeBranchNorm => {},
        Kernel::G4ExpertGate => {},
        Kernel::G4ExpertUp => {},
        Kernel::G4ExpertDown => {},
        Kernel::G4ExpertGeglu => {},
        Kernel::G4MoeSort => {},
        Kernel::G4MoeGather => {},
        Kernel::G4ExpertCombine => {},
        Kernel::G4BranchAdd => {},
    }
}

/// The position of a kind is its place in every table indexed by one: the list
/// only grows at its end.
pub proof fn law_each_kind_keeps_its_place()
    ensures
        Kernel::EmbedGather as int == 0,
        Kernel::Rms as int == 1,
        Kernel::QmvIn as int == 2,
        Kernel::QmvInZ as int == 3,
        Kernel::GdnInA as int == 4,
        Kernel::GdnInB as int == 5,
        Kernel::GdnPrep as int == 6,
        Kernel::GdnCore as int == 7,
        Kernel::GatedRms as int == 8,
        Kernel::QmvOut as int == 9,
        Kernel::Residual as int == 10,
        Kernel::QmvQ as int == 11,
        Kernel::QSplit as int == 12,
        Kernel::QmvK as int == 13,
        Kernel::QmvV as int == 14,
        Kernel::QNorm as int == 15,
        Kernel::KNorm as int == 16,
        Kernel::Rope as int == 17,
        Kernel::RopeK as int == 18,
        Kernel::KvAppend as int == 19,
        Kernel::Sdpa as int == 20,
        Kernel::AttnGate as int == 21,
        Kernel::QmvO as int == 22,
        Kernel::FfnRms as int == 23,
        Kernel::QmvGate as int == 24,
        Kernel::QmvUp as int == 25,
        Kernel::SiluMul as int == 26,
        Kernel::QmvDown as int == 27,
        Kernel::LayerOut as int == 28,
        Kernel::FinalRms as int == 29,
        Kernel::QmvLmHead as int == 30,
        Kernel::Argmax as int == 31,
        Kernel::KvAppendPaged as int == 32,
        Kernel::SdpaPaged as int == 33,
        Kernel::GdnCoreSlotted as int == 34,
        Kernel::GdnPrepSlotted as int == 35,
        Kernel::G4AttnPostNorm as int == 36,
        Kernel::G4FfnPreNorm as int == 37,
        Kernel::G4FfnPostNorm as int == 38,
        Kernel::G4VNorm as int == 39,
        Kernel::G4Geglu as int == 40,
        Kernel::G4LayerScalar as int == 41,
        Kernel::G4Softcap as int == 42,
        Kernel::G4RowGather as int == 43,
        Kernel::G4SdpaSliding as int == 44,
        Kernel::G4PleTokenGather as int == 45,
        Kernel::G4PleProjGemv as int == 46,
        Kernel::G4PleProjNorm as int == 47,
        Kernel::G4PleCombine as int == 48,
        Kernel::G4PleGateGemv as int == 49,
        Kernel::G4PleGeglu as int == 50,
        Kernel::G4PleProjLayerGemv as int == 51,
        Kernel::G4PleNorm as int == 52,
        Kernel::G4PleResidual as int == 53,
        Kernel::G4AttnPostResidual as int == 54,
        Kernel::G4FfnPostResidual as int == 55,
        Kernel::G4PleResidualScaled as int == 56,
        Kernel::EmbedUntied as int == 57,
        Kernel::LmHeadUntied as int == 58,
        Kernel::GoQmvQ as int == 59,
        Kernel::GoQmvK as int == 60,
        Kernel::GoQmvV as int == 61,
        Kernel::GoQmvO as int == 62,
        Kernel::GoSdpaSink as int == 63,
        Kernel::GoRouter as int == 64,
        Kernel::GoExpertGate as int == 65,
        Kernel::GoExpertUp as int == 66,
        Kernel::GoExpertDown as int == 67,
        Kernel::GoRouterTopK as int == 68,
        Kernel::GoSwiGlu as int == 69,
        Kernel::GoExpertCombine as int == 70,
        Kernel::LlRouter as int == 71,
        Kernel::LlExpertGate as int == 72,
        Kernel::LlExpertUp as int == 73,
        Kernel::LlExpertDown as int == 74,
        Kernel::LlMoeSort as int == 75,
        Kernel::LlMoeGather as int == 76,
        Kernel::LlMoeCombine as int == 77,
        Kernel::LlSharedGate as int == 78,
        Kernel::LlSharedUp as int == 79,
        Kernel::LlSharedDown as int == 80,
        Kernel::LlSharedGateProj as int == 81,
        Kernel::LlSharedCombine as int == 82,
        Kernel::LlExpertSiluMul as int == 83,
        Kernel::G4Router as int == 84,
        Kernel::G4RouterNorm as int == 85,
        Kernel::G4RouterTopK as int == 86,
        Kernel::G4MoeNorm as int == 87,
        Kernel::G4DenseBranchNorm as int == 88,
        Kernel::G4MoeBranchNorm as int == 89,
        Kernel::G4ExpertGate as int == 90,
        Kernel::G4ExpertUp as int == 91,
        Kernel::G4ExpertDown as int == 92,
        Kernel::G4ExpertGeglu as int == 93,
        Kernel::G4MoeSort as int == 94,
        Kernel::G4MoeGather as int == 95,
        Kernel::G4ExpertCombine as int == 96,
        Kernel::G4BranchAdd as int == 97,
{
}

/// The list is in index order.
pub proof fn law_all_is_in_index_order(i: int)
    requires
        0 <= i < Kernel::COUNT,
    ensures
        Kernel::ALL@[i] as int == i,
{
}

/// The bucketed command-buffer key.
///
/// Grids change with the batch shape, so an encoded buffer is reused within a
/// shape bucket. Single-stream decode is one stable bucket.
#[derive(Clone, Copy, Debug, PartialEq, Eq, Hash, Structural)]
pub struct ForwardGraphKey {
    /// Requests in the fire.
    pub requests: u32,
    /// Total tokens across the batch.
    pub tokens: u32,
    /// The largest request's pages, coarsened by [`PAGE_BUCKET_GRAN`].
    pub page_bucket: u32,
    /// Every request contributes exactly one token.
    pub is_pure_decode: bool,
}

/// The page-count bucketing granularity for [`ForwardGraphKey`].
pub const PAGE_BUCKET_GRAN: u32 = 8;

/// The key of a fire.
pub open spec fn graph_key(
    requests: u32,
    tokens: u32,
    max_pages: u32,
    is_pure_decode: bool,
) -> ForwardGraphKey {
    ForwardGraphKey {
        requests,
        tokens,
        page_bucket: crate::arith::ceil_div(max_pages as int, PAGE_BUCKET_GRAN as int) as u32,
        is_pure_decode,
    }
}

impl ForwardGraphKey {
    /// The key for a fire of `requests` and `tokens` whose largest request
    /// holds `max_pages` pages.
    pub fn of(requests: u32, tokens: u32, max_pages: u32, is_pure_decode: bool) -> (key: Self)
        ensures
            key == graph_key(requests, tokens, max_pages, is_pure_decode),
    {
        ForwardGraphKey {
            requests,
            tokens,
            page_bucket: crate::arith::div_ceil_u32(max_pages, PAGE_BUCKET_GRAN),
            is_pure_decode,
        }
    }
}

/// Two page counts share a bucket exactly when the same number of granules
/// covers both, and any other difference in shape makes another key.
pub proof fn law_key_buckets_pages_and_nothing_else(
    requests: u32,
    tokens: u32,
    pages: u32,
    pure: bool,
    requests2: u32,
    tokens2: u32,
    pages2: u32,
    pure2: bool,
)
    ensures
        graph_key(requests, tokens, pages, pure) == graph_key(requests2, tokens2, pages2, pure2)
            <==> requests == requests2 && tokens == tokens2 && pure == pure2
            && crate::arith::ceil_div(pages as int, 8) == crate::arith::ceil_div(
            pages2 as int,
            8,
        ),
{
}

/// Growing within a granule keeps the key: single-stream decode is one stable
/// bucket between granule boundaries.
pub proof fn law_key_is_stable_within_a_granule(
    requests: u32,
    tokens: u32,
    granule: int,
    a: u32,
    b: u32,
    pure: bool,
)
    requires
        granule * PAGE_BUCKET_GRAN < a <= (granule + 1) * PAGE_BUCKET_GRAN,
        granule * PAGE_BUCKET_GRAN < b <= (granule + 1) * PAGE_BUCKET_GRAN,
    ensures
        graph_key(requests, tokens, a, pure) == graph_key(requests, tokens, b, pure),
{
}

} // verus!
