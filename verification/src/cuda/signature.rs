//! The kernels' signatures, and what a dispatched launch hands each parameter.
//!
//! A kernel's entry takes its parameters in an order of its own, and a launch
//! states its operands in the trace's: inputs, then outputs, then weights. Here
//! both are written down by what each is for, and every launch is held to them:
//! the operand at a parameter is the operand, the weight or the field of the
//! fire that the parameter is for.

use crate::cuda::action::{DispatchRefusalView, Entry, Operand, StageCopy};
use crate::cuda::arm;
use crate::cuda::bind;
use crate::cuda::bind::{BoundArg, BoundView};
use crate::cuda::context::{AttnCtx, DispatchCtx, Frame, GdnCtx};
use crate::cuda::dispatch;
use crate::cuda::fits;
use crate::cuda::launch::{DType, KvCacheLayerView};
use crate::cuda::plan::LaunchSpecView;
use crate::cuda::resolver::{MapResolver, Resolver};
use crate::cuda::symbols;
use crate::strings;
use vstd::prelude::*;

verus! {

/// What an operand a launch states is.
pub enum Name {
    /// The result.
    Y,
    /// The rotation table.
    Table,
    /// The input.
    X,
    /// The residual a projection folds in.
    Resid,
    /// Projections side by side in one row.
    Packed,
    /// The query norm's weight.
    QNorm,
    /// The key norm's weight.
    KNorm,
    /// The query.
    Q,
    /// The attention's output.
    O,
    /// The key.
    K,
    /// The value.
    V,
    /// The query before a rotation.
    QIn,
    /// The key before a rotation.
    KIn,
    /// The query after it.
    QOut,
    /// The key after it.
    KOut,
    /// The first of two inputs.
    A,
    /// The second.
    B,
    /// Where an in-place kernel's result lands.
    Out,
    /// What gates the input.
    Gate,
    /// A weight stated as an operand.
    W,
    /// The recurrence's decay.
    G,
    /// The recurrence's step.
    Beta,
    /// The slot of a named constant.
    Scale,
    /// The up projection.
    Up,
    /// The residual stream before.
    HiddenIn,
    /// The residual stream after.
    HiddenOut,
    /// The next block's norm weight.
    NextW,
}

/// What a parameter of a kernel's entry is for.
pub enum Param {
    /// Where an operand is.
    At(Name),
    /// How wide an operand's row is.
    Width(Name),
    /// How many of the deployment's heads an operand's row holds.
    Heads(Name),
    /// How many of the layer's heads an operand's row holds.
    LayerHeads(Name),
    /// How many layers' embeddings an operand's row holds.
    PleLayers(Name),
    /// How many query heads the key and value heads leave of a packed row.
    QueryHeads(Name),
    /// How many elements an operand holds over the rectangle, in 32 bits.
    Elements(Name),
    /// How many elements an operand holds over the rectangle.
    Count(Name),
    /// The rows a norm of an operand has: one for each head of a per-head norm.
    NormRows(Name),
    /// How wide each of those is.
    NormWidth(Name),
    /// The fire's token ids.
    TokenIds,
    /// The weight the operation names.
    Weight,
    /// The rectangle's rows.
    Rows,
    /// The vocabulary rows.
    Vocab,
    /// The fire's stream.
    Stream,
    /// The fire's positions.
    Positions,
    /// The deployment's head width.
    HeadDim,
    /// The rotation's theta.
    RopeTheta,
    /// The norm's epsilon.
    RmsEps,
    /// The matrix-multiply library's handle.
    Cublas,
    /// The weight the operation names, as raw bf16.
    RawWeight,
    /// One where the residual is folded in, and zero.
    Beta,
    /// The bf16 element type.
    Bf16,
    /// Whether a pair has its gating half second.
    GateSecond,
    /// The observed-query pin.
    QueryPin,
    /// The layer's key pages.
    KPages,
    /// The layer's value pages.
    VPages,
    /// The fire's page indices.
    PageIndices,
    /// The fire's page indptr.
    PageIndptr,
    /// The fire's last-page lengths.
    LastPageLens,
    /// The page each row appends to.
    WritePage,
    /// The offset each row appends at.
    WriteOffset,
    /// Which rows append.
    RowValid,
    /// The layer's key and value heads.
    KvHeads,
    /// The layer's head width.
    LayerHeadDim,
    /// The layer's page size.
    PageSize,
    /// The layer's page layout.
    HndLayout,
    /// The planned decode.
    DecodePlan,
    /// The layer's storage.
    Layer,
    /// The output slot the guard around it owns.
    OutputSlot,
    /// The attention workspace.
    Workspace,
    /// The layer's sliding window.
    Window,
    /// The attention's soft cap.
    SoftCap,
    /// The attention's scale.
    SmScale,
    /// The log-sum-exp scratch.
    LseOut,
    /// The fire's query indptr.
    QueryIndptr,
    /// The fire's requests.
    Requests,
    /// The fire's write origin.
    FirstToken,
    /// The fire's pages.
    Pages,
    /// The planned prefill.
    PrefillPlan,
    /// The layer's bf16 key pages.
    KMirror,
    /// The layer's bf16 value pages.
    VMirror,
    /// Whether pairs are adjacent.
    Interleaved,
    /// The rotary width the operation states.
    Rotary,
    /// The bias beside the operation's weight, or none.
    BiasOfWeight,
    /// The layer's convolution slab.
    ConvState,
    /// The requests' state slots.
    SlotIds,
    /// Elements per convolution slot.
    ConvStride,
    /// The convolution channels.
    ConvDim,
    /// The convolution window.
    ConvWindow,
    /// Whether the fire advances state.
    WriteState,
    /// No address.
    Null,
    /// The second weight the operation names.
    Weight2,
    /// The key heads.
    KeyHeads,
    /// The value heads.
    ValueHeads,
    /// The key head width.
    KeyDim,
    /// The value head width.
    ValueDim,
    /// The layer's recurrent slab.
    RecurrentState,
    /// Elements per recurrent slot.
    StateStride,
    /// The output the join places.
    JoinedOutput,
    /// One row for each row and value head.
    RowsByValueHead,
    /// The constant the operation names.
    Constant,
    /// The deployment's final softcap.
    FinalSoftcap,
    /// No heads.
    NoHeads,
    /// The fire's query indptr, on the host.
    HostQueryIndptr,
    /// The fire's page indptr, on the host.
    HostPageIndptr,
    /// The per-layer embedding width.
    PleDim,
    /// The landing's scale.
    LandingScale,
}

/// How many operands a launch of an entry may state.
pub open spec fn takes(e: Entry, n: int, s: LaunchSpecView) -> bool {
    match e {
        Entry::LayoutEmbedBf16 => n == 1,
        Entry::RopeStandardTable => n == 1,
        Entry::NormRmsnormBf16 => n == 2,
        Entry::GemmActXW => n == (if s.beta_one {
            3int
        } else {
            2int
        }),
        Entry::MlpChunkedSwigluBf16 => n == 2,
        Entry::AttnQkvDecodeQkNormRopeWriteKvBf16 => n == 4,
        Entry::AttnDispatchFlashinferDecode => n == 1 || n == 2,
        Entry::AttnSplitQkvBf16 => n == 4,
        Entry::RopeQkRmsnormRopeBf16 => n == 6,
        Entry::AttnWriteKvToPages => n == 2,
        Entry::AttnDequantKvCacheLayerToBf16Active => n == 0,
        Entry::AttnDispatchFlashinferPrefillBf16 => n == 1 || n == 2,
        Entry::RopeRopeBf16 => n == 4,
        Entry::NormResidualAddBf16 => n == 3,
        Entry::NormAddBiasBf16 => n == 2,
        Entry::NormRmsnormGemmaBf16 => n == 2,
        Entry::RopeRopePartialBf16 => n == 4,
        Entry::LayoutSplitQGateBf16 => n == 3,
        Entry::MlpSigmoidGateInplaceBf16 => n == 2 || n == 3,
        Entry::SsmCausalConv1dUpdateBatchedBf16 => n == 3,
        Entry::SsmCausalConv1dPrefillBatchedBf16 => n == 3,
        Entry::SsmQwenGdnPostConvPrepBf16 => n == 8,
        Entry::SsmRecurrentGatedDeltaStepBatchedStateBf16 => n == 6,
        Entry::SsmChunkGatedDeltaPrefillBatched => n == 5,
        Entry::SsmChunkGatedDeltaPrefillBatchedStateBf16 => n == 5,
        Entry::NormRmsnormGatedFp32InBf16 => n == 3,
        Entry::NormScalarMulBf16 => n == 3,
        Entry::MlpGegluTanhBf16 => n == 3,
        Entry::AttnLogitSoftcapBf16 => n == 2,
        Entry::AttnQkvPackedQkNormRopeVnormWriteKvBf16 => n == 4,
        Entry::RopeQkRmsnormRopeBf16Rounded => n == 3 || n == 4,
        Entry::AttnFlashinferPrefill => n == 2,
        Entry::AttnNaivePaged => n == 2,
        Entry::LayoutTransposeBf16NldToLnd => n == 2,
        Entry::NormRmsnormResidualAddScaleRmsnormBf16 => n == 6,
        Entry::NormRmsnormResidualAddBf16 => n == 4,
        Entry::MlpChunkedGegluTanhBf16 => n == 2,
        Entry::NormRmsnormNoScaleBf16 => n == 2,
    }
}

/// The operands a launch of an entry states, in the trace's order.
pub open spec fn stated(e: Entry, n: int, s: LaunchSpecView) -> Seq<Name> {
    match e {
        Entry::LayoutEmbedBf16 => seq![Name::Y],
        Entry::RopeStandardTable => seq![Name::Table],
        Entry::NormRmsnormBf16 => seq![Name::X, Name::Y],
        Entry::GemmActXW => if !s.beta_one {
            seq![Name::X, Name::Y]
        } else {
            seq![Name::X, Name::Resid, Name::Y]
        },
        Entry::MlpChunkedSwigluBf16 => seq![Name::Packed, Name::Y],
        Entry::AttnQkvDecodeQkNormRopeWriteKvBf16 => seq![Name::Packed, Name::Table, Name::QNorm, Name::KNorm],
        Entry::AttnDispatchFlashinferDecode => if n == 1 {
            seq![Name::Q]
        } else {
            seq![Name::Q, Name::O]
        },
        Entry::AttnSplitQkvBf16 => seq![Name::Packed, Name::Q, Name::K, Name::V],
        Entry::RopeQkRmsnormRopeBf16 => seq![Name::QIn, Name::KIn, Name::QOut, Name::KOut, Name::QNorm, Name::KNorm],
        Entry::AttnWriteKvToPages => seq![Name::K, Name::V],
        Entry::AttnDequantKvCacheLayerToBf16Active => Seq::empty(),
        Entry::AttnDispatchFlashinferPrefillBf16 => if n == 1 {
            seq![Name::Q]
        } else {
            seq![Name::Q, Name::O]
        },
        Entry::RopeRopeBf16 => seq![Name::QIn, Name::KIn, Name::QOut, Name::KOut],
        Entry::NormResidualAddBf16 => seq![Name::A, Name::B, Name::Out],
        Entry::NormAddBiasBf16 => seq![Name::X, Name::Out],
        Entry::NormRmsnormGemmaBf16 => seq![Name::X, Name::Y],
        Entry::RopeRopePartialBf16 => seq![Name::QIn, Name::KIn, Name::QOut, Name::KOut],
        Entry::LayoutSplitQGateBf16 => seq![Name::Packed, Name::Q, Name::Gate],
        Entry::MlpSigmoidGateInplaceBf16 => if n == 2 {
            seq![Name::X, Name::Gate]
        } else {
            seq![Name::X, Name::Gate, Name::Out]
        },
        Entry::SsmCausalConv1dUpdateBatchedBf16 => seq![Name::X, Name::Y, Name::W],
        Entry::SsmCausalConv1dPrefillBatchedBf16 => seq![Name::X, Name::Y, Name::W],
        Entry::SsmQwenGdnPostConvPrepBf16 => seq![Name::Packed, Name::A, Name::B, Name::Q, Name::K, Name::V, Name::G, Name::Beta],
        Entry::SsmRecurrentGatedDeltaStepBatchedStateBf16 => seq![Name::Q, Name::K, Name::V, Name::G, Name::Beta, Name::Out],
        Entry::SsmChunkGatedDeltaPrefillBatched => seq![Name::Q, Name::K, Name::V, Name::G, Name::Beta],
        Entry::SsmChunkGatedDeltaPrefillBatchedStateBf16 => seq![Name::Q, Name::K, Name::V, Name::G, Name::Beta],
        Entry::NormRmsnormGatedFp32InBf16 => seq![Name::X, Name::Gate, Name::Y],
        Entry::NormScalarMulBf16 => seq![Name::X, Name::Out, Name::Scale],
        Entry::MlpGegluTanhBf16 => seq![Name::Gate, Name::Up, Name::Y],
        Entry::AttnLogitSoftcapBf16 => seq![Name::X, Name::Out],
        Entry::AttnQkvPackedQkNormRopeVnormWriteKvBf16 => seq![Name::Packed, Name::QOut, Name::QNorm, Name::KNorm],
        Entry::RopeQkRmsnormRopeBf16Rounded => if n == 4 {
            seq![Name::Q, Name::K, Name::QNorm, Name::KNorm]
        } else {
            seq![Name::QIn, Name::QOut, Name::QNorm]
        },
        Entry::AttnFlashinferPrefill => seq![Name::Q, Name::O],
        Entry::AttnNaivePaged => seq![Name::Q, Name::O],
        Entry::LayoutTransposeBf16NldToLnd => seq![Name::X, Name::Out],
        Entry::NormRmsnormResidualAddScaleRmsnormBf16 => seq![Name::X, Name::HiddenIn, Name::HiddenOut, Name::Y, Name::W, Name::NextW],
        Entry::NormRmsnormResidualAddBf16 => seq![Name::X, Name::HiddenIn, Name::HiddenOut, Name::W],
        Entry::MlpChunkedGegluTanhBf16 => seq![Name::Packed, Name::Y],
        Entry::NormRmsnormNoScaleBf16 => seq![Name::X, Name::Y],
    }
}

/// An entry's parameters, in the order it takes them.
pub open spec fn parameters(e: Entry, n: int, s: LaunchSpecView) -> Seq<Param> {
    match e {
        Entry::LayoutEmbedBf16 => seq![
                Param::TokenIds,
                Param::Weight,
                Param::At(Name::Y),
                Param::Rows,
                Param::Width(Name::Y),
                Param::Vocab,
                Param::Stream,
            ],
        Entry::RopeStandardTable => seq![
                Param::Positions,
                Param::At(Name::Table),
                Param::Rows,
                Param::HeadDim,
                Param::RopeTheta,
                Param::Stream,
            ],
        Entry::NormRmsnormBf16 => seq![
                Param::At(Name::X),
                Param::Weight,
                Param::At(Name::Y),
                Param::Rows,
                Param::Width(Name::X),
                Param::RmsEps,
                Param::Stream,
            ],
        Entry::GemmActXW => if !s.beta_one {
            seq![
                Param::Cublas,
                Param::At(Name::X),
                Param::RawWeight,
                Param::At(Name::Y),
                Param::Rows,
                Param::Width(Name::Y),
                Param::Width(Name::X),
                Param::Beta,
                Param::Bf16,
                Param::Bf16,
            ]
        } else {
            seq![
                Param::Cublas,
                Param::At(Name::X),
                Param::RawWeight,
                Param::At(Name::Y),
                Param::Rows,
                Param::Width(Name::Y),
                Param::Width(Name::X),
                Param::Beta,
                Param::Bf16,
                Param::Bf16,
            ]
        },
        Entry::MlpChunkedSwigluBf16 => seq![
                Param::At(Name::Packed),
                Param::At(Name::Y),
                Param::Rows,
                Param::Width(Name::Y),
                Param::Stream,
                Param::GateSecond,
            ],
        Entry::AttnQkvDecodeQkNormRopeWriteKvBf16 => seq![
                Param::At(Name::Packed),
                Param::QueryPin,
                Param::KPages,
                Param::VPages,
                Param::At(Name::QNorm),
                Param::At(Name::KNorm),
                Param::Positions,
                Param::At(Name::Table),
                Param::PageIndices,
                Param::PageIndptr,
                Param::LastPageLens,
                Param::WritePage,
                Param::WriteOffset,
                Param::RowValid,
                Param::Rows,
                Param::QueryHeads(Name::Packed),
                Param::KvHeads,
                Param::LayerHeadDim,
                Param::PageSize,
                Param::HndLayout,
                Param::RopeTheta,
                Param::RmsEps,
                Param::Stream,
            ],
        Entry::AttnDispatchFlashinferDecode => if n == 1 {
            seq![
                Param::DecodePlan,
                Param::At(Name::Q),
                Param::Layer,
                Param::OutputSlot,
                Param::PageIndices,
                Param::PageIndptr,
                Param::LastPageLens,
                Param::Workspace,
                Param::Stream,
                Param::Window,
                Param::SoftCap,
                Param::SmScale,
                Param::LseOut,
            ]
        } else {
            seq![
                Param::DecodePlan,
                Param::At(Name::Q),
                Param::Layer,
                Param::At(Name::O),
                Param::PageIndices,
                Param::PageIndptr,
                Param::LastPageLens,
                Param::Workspace,
                Param::Stream,
                Param::Window,
                Param::SoftCap,
                Param::SmScale,
                Param::LseOut,
            ]
        },
        Entry::AttnSplitQkvBf16 => seq![
                Param::At(Name::Packed),
                Param::At(Name::Q),
                Param::At(Name::K),
                Param::At(Name::V),
                Param::Rows,
                Param::Width(Name::Q),
                Param::Width(Name::K),
                Param::Stream,
            ],
        Entry::RopeQkRmsnormRopeBf16 => seq![
                Param::At(Name::QOut),
                Param::At(Name::KOut),
                Param::At(Name::QNorm),
                Param::At(Name::KNorm),
                Param::Positions,
                Param::Rows,
                Param::Heads(Name::QOut),
                Param::Heads(Name::KOut),
                Param::HeadDim,
                Param::RopeTheta,
                Param::RmsEps,
                Param::Stream,
            ],
        Entry::AttnWriteKvToPages => seq![
                Param::Layer,
                Param::At(Name::K),
                Param::At(Name::V),
                Param::QueryIndptr,
                Param::PageIndices,
                Param::PageIndptr,
                Param::LastPageLens,
                Param::Rows,
                Param::Requests,
                Param::Stream,
                Param::RowValid,
                Param::FirstToken,
            ],
        Entry::AttnDequantKvCacheLayerToBf16Active => seq![
                Param::Layer,
                Param::PageIndices,
                Param::Pages,
                Param::Stream,
            ],
        Entry::AttnDispatchFlashinferPrefillBf16 => if n == 1 {
            seq![
                Param::PrefillPlan,
                Param::At(Name::Q),
                Param::KMirror,
                Param::VMirror,
                Param::OutputSlot,
                Param::QueryIndptr,
                Param::PageIndices,
                Param::PageIndptr,
                Param::LastPageLens,
                Param::Workspace,
                Param::Stream,
                Param::SoftCap,
                Param::SmScale,
                Param::LseOut,
            ]
        } else {
            seq![
                Param::PrefillPlan,
                Param::At(Name::Q),
                Param::KMirror,
                Param::VMirror,
                Param::At(Name::O),
                Param::QueryIndptr,
                Param::PageIndices,
                Param::PageIndptr,
                Param::LastPageLens,
                Param::Workspace,
                Param::Stream,
                Param::SoftCap,
                Param::SmScale,
                Param::LseOut,
            ]
        },
        Entry::RopeRopeBf16 => seq![
                Param::At(Name::QOut),
                Param::At(Name::KOut),
                Param::Positions,
                Param::Rows,
                Param::Heads(Name::QOut),
                Param::Heads(Name::KOut),
                Param::HeadDim,
                Param::RopeTheta,
                Param::Stream,
                Param::Interleaved,
            ],
        Entry::NormResidualAddBf16 => seq![
                Param::At(Name::Out),
                Param::At(Name::B),
                Param::Count(Name::Out),
                Param::Stream,
            ],
        Entry::NormAddBiasBf16 => seq![
                Param::At(Name::Out),
                Param::Weight,
                Param::Rows,
                Param::Width(Name::Out),
                Param::Stream,
            ],
        Entry::NormRmsnormGemmaBf16 => seq![
                Param::At(Name::X),
                Param::Weight,
                Param::At(Name::Y),
                Param::NormRows(Name::X),
                Param::NormWidth(Name::X),
                Param::RmsEps,
                Param::Stream,
            ],
        Entry::RopeRopePartialBf16 => seq![
                Param::At(Name::QOut),
                Param::At(Name::KOut),
                Param::Positions,
                Param::Rows,
                Param::Heads(Name::QOut),
                Param::Heads(Name::KOut),
                Param::HeadDim,
                Param::Rotary,
                Param::RopeTheta,
                Param::Stream,
            ],
        Entry::LayoutSplitQGateBf16 => seq![
                Param::At(Name::Packed),
                Param::At(Name::Q),
                Param::At(Name::Gate),
                Param::Rows,
                Param::Heads(Name::Q),
                Param::HeadDim,
                Param::Stream,
            ],
        Entry::MlpSigmoidGateInplaceBf16 => if n == 2 {
            seq![
                Param::At(Name::X),
                Param::At(Name::Gate),
                Param::Elements(Name::X),
                Param::Stream,
            ]
        } else {
            seq![
                Param::At(Name::Out),
                Param::At(Name::Gate),
                Param::Elements(Name::Out),
                Param::Stream,
            ]
        },
        Entry::SsmCausalConv1dUpdateBatchedBf16 => seq![
                Param::At(Name::X),
                Param::At(Name::W),
                Param::BiasOfWeight,
                Param::ConvState,
                Param::SlotIds,
                Param::ConvStride,
                Param::At(Name::Y),
                Param::Rows,
                Param::ConvDim,
                Param::ConvWindow,
                Param::Stream,
            ],
        Entry::SsmCausalConv1dPrefillBatchedBf16 => seq![
                Param::At(Name::X),
                Param::At(Name::W),
                Param::BiasOfWeight,
                Param::At(Name::Y),
                Param::ConvState,
                Param::SlotIds,
                Param::QueryIndptr,
                Param::ConvStride,
                Param::Requests,
                Param::ConvDim,
                Param::ConvWindow,
                Param::Stream,
                Param::WriteState,
                Param::Null,
                Param::Null,
            ],
        Entry::SsmQwenGdnPostConvPrepBf16 => seq![
                Param::At(Name::Packed),
                Param::At(Name::A),
                Param::At(Name::B),
                Param::Weight,
                Param::Weight2,
                Param::At(Name::Q),
                Param::At(Name::K),
                Param::At(Name::V),
                Param::At(Name::G),
                Param::At(Name::Beta),
                Param::Rows,
                Param::KeyHeads,
                Param::ValueHeads,
                Param::KeyDim,
                Param::ValueDim,
                Param::ConvDim,
                Param::Stream,
            ],
        Entry::SsmRecurrentGatedDeltaStepBatchedStateBf16 => seq![
                Param::At(Name::Q),
                Param::At(Name::K),
                Param::At(Name::V),
                Param::At(Name::G),
                Param::At(Name::Beta),
                Param::RecurrentState,
                Param::SlotIds,
                Param::StateStride,
                Param::At(Name::Out),
                Param::Rows,
                Param::ValueHeads,
                Param::KeyDim,
                Param::ValueDim,
                Param::Stream,
            ],
        Entry::SsmChunkGatedDeltaPrefillBatched => seq![
                Param::At(Name::Q),
                Param::At(Name::K),
                Param::At(Name::V),
                Param::At(Name::G),
                Param::At(Name::Beta),
                Param::RecurrentState,
                Param::SlotIds,
                Param::QueryIndptr,
                Param::StateStride,
                Param::JoinedOutput,
                Param::Requests,
                Param::KeyHeads,
                Param::ValueHeads,
                Param::KeyDim,
                Param::ValueDim,
                Param::Stream,
                Param::WriteState,
                Param::Null,
                Param::Null,
            ],
        Entry::SsmChunkGatedDeltaPrefillBatchedStateBf16 => seq![
                Param::At(Name::Q),
                Param::At(Name::K),
                Param::At(Name::V),
                Param::At(Name::G),
                Param::At(Name::Beta),
                Param::RecurrentState,
                Param::SlotIds,
                Param::QueryIndptr,
                Param::StateStride,
                Param::JoinedOutput,
                Param::Requests,
                Param::KeyHeads,
                Param::ValueHeads,
                Param::KeyDim,
                Param::ValueDim,
                Param::Stream,
                Param::WriteState,
                Param::Null,
                Param::Null,
            ],
        Entry::NormRmsnormGatedFp32InBf16 => seq![
                Param::At(Name::X),
                Param::At(Name::Gate),
                Param::Weight,
                Param::At(Name::Y),
                Param::RowsByValueHead,
                Param::ValueDim,
                Param::RmsEps,
                Param::Stream,
            ],
        Entry::NormScalarMulBf16 => seq![
                Param::At(Name::Out),
                Param::Constant,
                Param::Count(Name::Out),
                Param::Stream,
            ],
        Entry::MlpGegluTanhBf16 => seq![
                Param::At(Name::Y),
                Param::At(Name::Up),
                Param::At(Name::Y),
                Param::Elements(Name::Y),
                Param::Stream,
            ],
        Entry::AttnLogitSoftcapBf16 => seq![
                Param::At(Name::Out),
                Param::FinalSoftcap,
                Param::Count(Name::Out),
                Param::Stream,
            ],
        Entry::AttnQkvPackedQkNormRopeVnormWriteKvBf16 => seq![
                Param::At(Name::Packed),
                Param::At(Name::QOut),
                Param::KPages,
                Param::VPages,
                Param::At(Name::QNorm),
                Param::At(Name::KNorm),
                Param::Positions,
                Param::PageIndices,
                Param::PageIndptr,
                Param::LastPageLens,
                Param::RowValid,
                Param::Rows,
                Param::LayerHeads(Name::QOut),
                Param::KvHeads,
                Param::LayerHeadDim,
                Param::PageSize,
                Param::HndLayout,
                Param::RopeTheta,
                Param::RmsEps,
                Param::Stream,
            ],
        Entry::RopeQkRmsnormRopeBf16Rounded => if n == 4 {
            seq![
                Param::At(Name::Q),
                Param::At(Name::K),
                Param::At(Name::QNorm),
                Param::At(Name::KNorm),
                Param::Positions,
                Param::Rows,
                Param::LayerHeads(Name::Q),
                Param::KvHeads,
                Param::LayerHeadDim,
                Param::RopeTheta,
                Param::RmsEps,
                Param::Stream,
            ]
        } else {
            seq![
                Param::At(Name::QOut),
                Param::Null,
                Param::At(Name::QNorm),
                Param::Null,
                Param::Positions,
                Param::Rows,
                Param::LayerHeads(Name::QOut),
                Param::NoHeads,
                Param::LayerHeadDim,
                Param::RopeTheta,
                Param::RmsEps,
                Param::Stream,
            ]
        },
        Entry::AttnFlashinferPrefill => seq![
                Param::At(Name::Q),
                Param::Layer,
                Param::At(Name::O),
                Param::QueryIndptr,
                Param::PageIndices,
                Param::PageIndptr,
                Param::LastPageLens,
                Param::HostQueryIndptr,
                Param::HostPageIndptr,
                Param::Rows,
                Param::Requests,
                Param::LayerHeads(Name::Q),
                Param::Workspace,
                Param::Stream,
                Param::Window,
                Param::SoftCap,
                Param::SmScale,
                Param::LseOut,
            ],
        Entry::AttnNaivePaged => seq![
                Param::At(Name::Q),
                Param::Layer,
                Param::At(Name::O),
                Param::QueryIndptr,
                Param::PageIndices,
                Param::PageIndptr,
                Param::LastPageLens,
                Param::Rows,
                Param::Requests,
                Param::Pages,
                Param::LayerHeads(Name::Q),
                Param::Stream,
                Param::Window,
                Param::SmScale,
            ],
        Entry::LayoutTransposeBf16NldToLnd => seq![
                Param::At(Name::X),
                Param::At(Name::Out),
                Param::Rows,
                Param::PleLayers(Name::X),
                Param::PleDim,
                Param::Stream,
            ],
        Entry::NormRmsnormResidualAddScaleRmsnormBf16 => seq![
                Param::At(Name::X),
                Param::At(Name::W),
                Param::At(Name::HiddenOut),
                Param::LandingScale,
                Param::At(Name::NextW),
                Param::At(Name::Y),
                Param::Rows,
                Param::Width(Name::X),
                Param::RmsEps,
                Param::Stream,
            ],
        Entry::NormRmsnormResidualAddBf16 => seq![
                Param::At(Name::X),
                Param::At(Name::W),
                Param::At(Name::HiddenOut),
                Param::Rows,
                Param::Width(Name::X),
                Param::RmsEps,
                Param::Stream,
            ],
        Entry::MlpChunkedGegluTanhBf16 => seq![
                Param::At(Name::Packed),
                Param::At(Name::Y),
                Param::Rows,
                Param::Width(Name::Y),
                Param::Stream,
                Param::GateSecond,
            ],
        Entry::NormRmsnormNoScaleBf16 => seq![
                Param::At(Name::X),
                Param::At(Name::Y),
                Param::NormRows(Name::X),
                Param::NormWidth(Name::X),
                Param::RmsEps,
                Param::Stream,
            ],
    }
}

/// The copies an entry that works in place needs first: into the first of each
/// pair, from the second.
pub open spec fn staged(e: Entry, n: int, s: LaunchSpecView) -> Seq<(Name, Name)> {
    match e {
        Entry::LayoutEmbedBf16 => Seq::empty(),
        Entry::RopeStandardTable => Seq::empty(),
        Entry::NormRmsnormBf16 => Seq::empty(),
        Entry::GemmActXW => if !s.beta_one {
            Seq::empty()
        } else {
            Seq::empty()
        },
        Entry::MlpChunkedSwigluBf16 => Seq::empty(),
        Entry::AttnQkvDecodeQkNormRopeWriteKvBf16 => Seq::empty(),
        Entry::AttnDispatchFlashinferDecode => if n == 1 {
            Seq::empty()
        } else {
            Seq::empty()
        },
        Entry::AttnSplitQkvBf16 => Seq::empty(),
        Entry::RopeQkRmsnormRopeBf16 => seq![(Name::QOut, Name::QIn), (Name::KOut, Name::KIn)],
        Entry::AttnWriteKvToPages => Seq::empty(),
        Entry::AttnDequantKvCacheLayerToBf16Active => Seq::empty(),
        Entry::AttnDispatchFlashinferPrefillBf16 => if n == 1 {
            Seq::empty()
        } else {
            Seq::empty()
        },
        Entry::RopeRopeBf16 => seq![(Name::QOut, Name::QIn), (Name::KOut, Name::KIn)],
        Entry::NormResidualAddBf16 => seq![(Name::Out, Name::A)],
        Entry::NormAddBiasBf16 => seq![(Name::Out, Name::X)],
        Entry::NormRmsnormGemmaBf16 => Seq::empty(),
        Entry::RopeRopePartialBf16 => seq![(Name::QOut, Name::QIn), (Name::KOut, Name::KIn)],
        Entry::LayoutSplitQGateBf16 => Seq::empty(),
        Entry::MlpSigmoidGateInplaceBf16 => if n == 2 {
            Seq::empty()
        } else {
            seq![(Name::Out, Name::X)]
        },
        Entry::SsmCausalConv1dUpdateBatchedBf16 => Seq::empty(),
        Entry::SsmCausalConv1dPrefillBatchedBf16 => Seq::empty(),
        Entry::SsmQwenGdnPostConvPrepBf16 => Seq::empty(),
        Entry::SsmRecurrentGatedDeltaStepBatchedStateBf16 => Seq::empty(),
        Entry::SsmChunkGatedDeltaPrefillBatched => Seq::empty(),
        Entry::SsmChunkGatedDeltaPrefillBatchedStateBf16 => Seq::empty(),
        Entry::NormRmsnormGatedFp32InBf16 => Seq::empty(),
        Entry::NormScalarMulBf16 => seq![(Name::Out, Name::X)],
        Entry::MlpGegluTanhBf16 => seq![(Name::Y, Name::Gate)],
        Entry::AttnLogitSoftcapBf16 => seq![(Name::Out, Name::X)],
        Entry::AttnQkvPackedQkNormRopeVnormWriteKvBf16 => Seq::empty(),
        Entry::RopeQkRmsnormRopeBf16Rounded => if n == 4 {
            Seq::empty()
        } else {
            seq![(Name::QOut, Name::QIn)]
        },
        Entry::AttnFlashinferPrefill => Seq::empty(),
        Entry::AttnNaivePaged => Seq::empty(),
        Entry::LayoutTransposeBf16NldToLnd => Seq::empty(),
        Entry::NormRmsnormResidualAddScaleRmsnormBf16 => seq![(Name::HiddenOut, Name::HiddenIn)],
        Entry::NormRmsnormResidualAddBf16 => seq![(Name::HiddenOut, Name::HiddenIn)],
        Entry::MlpChunkedGegluTanhBf16 => Seq::empty(),
        Entry::NormRmsnormNoScaleBf16 => Seq::empty(),
    }
}

/// The operand count a refusal of another says was expected.
pub open spec fn expected(e: Entry, s: LaunchSpecView) -> int {
    match e {
        Entry::LayoutEmbedBf16 => 1,
        Entry::RopeStandardTable => 1,
        Entry::NormRmsnormBf16 => 2,
        Entry::GemmActXW => if s.beta_one {
            3
        } else {
            2
        },
        Entry::MlpChunkedSwigluBf16 => 2,
        Entry::AttnQkvDecodeQkNormRopeWriteKvBf16 => 4,
        Entry::AttnDispatchFlashinferDecode => 1,
        Entry::AttnSplitQkvBf16 => 4,
        Entry::RopeQkRmsnormRopeBf16 => 6,
        Entry::AttnWriteKvToPages => 2,
        Entry::AttnDequantKvCacheLayerToBf16Active => 0,
        Entry::AttnDispatchFlashinferPrefillBf16 => 1,
        Entry::RopeRopeBf16 => 4,
        Entry::NormResidualAddBf16 => 3,
        Entry::NormAddBiasBf16 => 2,
        Entry::NormRmsnormGemmaBf16 => 2,
        Entry::RopeRopePartialBf16 => 4,
        Entry::LayoutSplitQGateBf16 => 3,
        Entry::MlpSigmoidGateInplaceBf16 => 2,
        Entry::SsmCausalConv1dUpdateBatchedBf16 => 3,
        Entry::SsmCausalConv1dPrefillBatchedBf16 => 3,
        Entry::SsmQwenGdnPostConvPrepBf16 => 8,
        Entry::SsmRecurrentGatedDeltaStepBatchedStateBf16 => 6,
        Entry::SsmChunkGatedDeltaPrefillBatched => 5,
        Entry::SsmChunkGatedDeltaPrefillBatchedStateBf16 => 5,
        Entry::NormRmsnormGatedFp32InBf16 => 3,
        Entry::NormScalarMulBf16 => 3,
        Entry::MlpGegluTanhBf16 => 3,
        Entry::AttnLogitSoftcapBf16 => 2,
        Entry::AttnQkvPackedQkNormRopeVnormWriteKvBf16 => 4,
        Entry::RopeQkRmsnormRopeBf16Rounded => 4,
        Entry::AttnFlashinferPrefill => 2,
        Entry::AttnNaivePaged => 2,
        Entry::LayoutTransposeBf16NldToLnd => 2,
        Entry::NormRmsnormResidualAddScaleRmsnormBf16 => 6,
        Entry::NormRmsnormResidualAddBf16 => 4,
        Entry::MlpChunkedGegluTanhBf16 => 2,
        Entry::NormRmsnormNoScaleBf16 => 2,
    }
}

/// A count handed on in 32 bits: the count itself where it fits them.
pub open spec fn counts(op: Operand, n: int) -> bool {
    op matches Operand::Int(k) && (i32::MIN <= n <= i32::MAX ==> k == n)
}

/// `q` whole `d`s go into `n`, and not one more.
pub open spec fn goes_into(q: int, n: int, d: int) -> bool {
    q * d <= n < (q + 1) * d
}

/// A head's width, and at least one.
pub open spec fn head_width(d: i32) -> int {
    if d < 1 {
        1
    } else {
        d as int
    }
}

/// The operand of a name.
pub open spec fn operand(b: BoundView, names: Seq<Name>, name: Name) -> BoundArg {
    b.args[names.index_of(name)]
}

/// The heads of a width that a row holds, where the row's width fits 32 bits.
pub open spec fn heads_in_row(op: Operand, width: u32, d: i32) -> bool {
    op matches Operand::Int(k) && (width <= i32::MAX ==> goes_into(
        k as int,
        width as int,
        head_width(d),
    ))
}

/// The launch's layer of the fire's attention context.
pub open spec fn layer_at(b: BoundView, attn: Option<&AttnCtx>) -> Option<KvCacheLayerView> {
    match attn {
        Some(a) => if b.layers.start < a.layers@.len() {
            Some(a.layers@[b.layers.start as int])
        } else {
            None
        },
        None => None,
    }
}

/// The slab of the operation's state layer.
pub open spec fn slab_at(s: LaunchSpecView, slabs: Seq<u64>) -> Option<u64> {
    match s.state {
        Some(state) => if state.layer < slabs.len() && slabs[state.layer as int] != 0 {
            Some(slabs[state.layer as int])
        } else {
            None
        },
        None => None,
    }
}

/// An operand is what its parameter is for.
pub open spec fn plays<R: Resolver>(
    p: Param,
    op: Operand,
    names: Seq<Name>,
    b: BoundView,
    s: LaunchSpecView,
    frame: Frame,
    r: R,
    c: &DispatchCtx,
    attn: Option<&AttnCtx>,
    gdn: Option<&GdnCtx>,
) -> bool {
    let rows = b.rows.end - b.rows.start;
    match p {
        Param::At(x) => op == Operand::Addr(operand(b, names, x).ptr),
        Param::Width(x) => counts(op, operand(b, names, x).width as int),
        Param::Heads(x) => heads_in_row(op, operand(b, names, x).width, c.head_dim),
        Param::LayerHeads(x) => layer_at(b, attn) matches Some(l) && heads_in_row(
            op,
            operand(b, names, x).width,
            l.head_dim,
        ),
        Param::PleLayers(x) => heads_in_row(op, operand(b, names, x).width, c.ple_dim),
        Param::QueryHeads(x) => layer_at(b, attn) matches Some(l) && op matches Operand::Int(k) && {
            let d = head_width(l.head_dim);
            let kv = 2 * l.num_kv_heads * l.head_dim;
            let left = operand(b, names, x).width - kv;
            &&& 0 <= left <= i32::MAX ==> goes_into(k as int, left, d)
            &&& i32::MIN <= left < 0 ==> goes_into(-k, -left, d)
        },
        Param::Elements(x) => counts(op, rows * operand(b, names, x).width),
        Param::Count(x) => op matches Operand::Count(n) && n == rows * operand(b, names, x).width,
        Param::NormRows(x) => match s.per_head_dim {
            None => counts(op, rows),
            Some(d) => forall|h: int|
                d > 0 && #[trigger] goes_into(h, operand(b, names, x).width as int, d as int)
                    ==> counts(op, rows * h),
        },
        Param::NormWidth(x) => match s.per_head_dim {
            None => counts(op, operand(b, names, x).width as int),
            Some(d) => d > 0 ==> counts(op, d as int),
        },
        Param::TokenIds => op == Operand::Addr(c.token_ids),
        Param::Weight => s.weight matches Some(name) && r.weight_at(name) matches Some(w) && op
            == Operand::Addr(w),
        Param::Weight2 => s.weight2 matches Some(name) && r.weight_at(name) matches Some(w) && op
            == Operand::Addr(w),
        Param::RawWeight => s.weight matches Some(name) && r.weight_at(name) matches Some(w) && op
            == Operand::RawWeight(w, DType::Bf16),
        Param::BiasOfWeight => {
            &&& op is Addr
            &&& s.weight is None ==> op == Operand::Addr(0)
            &&& s.weight matches Some(name) ==> {
                &&& r.weight_at(name + "_bias"@) matches Some(w) ==> op == Operand::Addr(w)
                &&& r.weight_at(name + "_bias"@) is None ==> op == Operand::Addr(0)
            }
        },
        Param::Constant => s.weight matches Some(full) && "scale."@.is_prefix_of(full) && (
        c.scales.lookup(full.skip(6)) matches Some(factor) && op == Operand::Float(factor)),
        Param::LandingScale => {
            let named = s.weight matches Some(name) && "ple_norm"@.is_suffix_of(name)
                && c.scales.lookup(name) is Some;
            &&& named ==> op == Operand::Float(c.scales.lookup(s.weight->Some_0)->Some_0)
            &&& !named ==> op == Operand::Float(0x3f80_0000)
        },
        Param::Rotary => s.rope_partial matches Some(n) && counts(op, n as int),
        Param::Beta => op == Operand::Float(
            if s.beta_one {
                0x3f80_0000u32
            } else {
                0u32
            },
        ),
        Param::JoinedOutput => s.outs.len() > 0 && (bind::resolved(s.outs[0], frame, r) matches Ok(
            out,
        ) && op == Operand::Addr(out.ptr)),
        Param::Rows => counts(op, rows),
        Param::Vocab => op == Operand::Int(c.vocab),
        Param::Stream => op == Operand::Addr(c.stream),
        Param::Positions => op == Operand::Addr(c.positions),
        Param::HeadDim => op == Operand::Int(c.head_dim),
        Param::RopeTheta => op == Operand::Float(c.rope_theta),
        Param::RmsEps => op == Operand::Float(c.rms_eps),
        Param::Cublas => op == Operand::Addr(c.cublas),
        Param::Bf16 => op == Operand::Type(DType::Bf16),
        Param::GateSecond => op == Operand::Flag(c.gate_second),
        Param::Interleaved => op == Operand::Flag(c.rope_interleaved),
        Param::FinalSoftcap => op == Operand::Float(c.final_logit_softcap),
        Param::PleDim => op == Operand::Int(c.ple_dim),
        Param::Null => op == Operand::Addr(0),
        Param::NoHeads => op == Operand::Int(0),
        Param::Layer => layer_at(b, attn) matches Some(l) && op == Operand::Layer(l),
        Param::KPages => layer_at(b, attn) matches Some(l) && op == Operand::Addr(l.k_pages),
        Param::VPages => layer_at(b, attn) matches Some(l) && op == Operand::Addr(l.v_pages),
        Param::KMirror => layer_at(b, attn) matches Some(l) && op == Operand::Addr(l.k_bf16_pages),
        Param::VMirror => layer_at(b, attn) matches Some(l) && op == Operand::Addr(l.v_bf16_pages),
        Param::KvHeads => layer_at(b, attn) matches Some(l) && op == Operand::Int(l.num_kv_heads),
        Param::LayerHeadDim => layer_at(b, attn) matches Some(l) && op == Operand::Int(l.head_dim),
        Param::PageSize => layer_at(b, attn) matches Some(l) && op == Operand::Int(l.page_size),
        Param::HndLayout => layer_at(b, attn) matches Some(l) && op == Operand::Flag(l.hnd_layout),
        Param::Window => attn matches Some(a) && op == Operand::Int(
            if b.layers.start < a.window_left_by_layer@.len() {
                a.window_left_by_layer@[b.layers.start as int]
            } else {
                a.window_left
            },
        ),
        Param::QueryPin => attn matches Some(a) && op == Operand::Addr(a.q_out),
        Param::OutputSlot => attn matches Some(a) && op == Operand::Addr(a.o_out),
        Param::PageIndices => attn matches Some(a) && op == Operand::Addr(a.kv_page_indices_d),
        Param::PageIndptr => attn matches Some(a) && op == Operand::Addr(a.kv_page_indptr_d),
        Param::LastPageLens => attn matches Some(a) && op == Operand::Addr(a.kv_last_page_lens_d),
        Param::QueryIndptr => attn matches Some(a) && op == Operand::Addr(a.qo_indptr_d),
        Param::HostQueryIndptr => attn matches Some(a) && op == Operand::Addr(a.qo_indptr_h),
        Param::HostPageIndptr => attn matches Some(a) && op == Operand::Addr(a.kv_page_indptr_h),
        Param::WritePage => attn matches Some(a) && op == Operand::Addr(a.w_page_d),
        Param::WriteOffset => attn matches Some(a) && op == Operand::Addr(a.w_off_d),
        Param::RowValid => attn matches Some(a) && op == Operand::Addr(a.row_valid_d),
        Param::LseOut => attn matches Some(a) && op == Operand::Addr(a.lse_out_d),
        Param::DecodePlan => attn matches Some(a) && op == Operand::Addr(a.decode_plan),
        Param::PrefillPlan => attn matches Some(a) && op == Operand::Addr(a.prefill_plan),
        Param::Workspace => attn matches Some(a) && op == Operand::Workspace(a.workspace),
        Param::SoftCap => attn matches Some(a) && op == Operand::Float(a.logits_soft_cap),
        Param::SmScale => attn matches Some(a) && op == Operand::Float(a.sm_scale),
        Param::Requests => attn matches Some(a) && op == Operand::Int(a.num_requests),
        Param::Pages => attn matches Some(a) && op == Operand::Int(a.num_pages_in_batch),
        Param::FirstToken => attn matches Some(a) && op == Operand::Int(a.first_token),
        Param::KeyHeads => gdn matches Some(g) && op == Operand::Int(g.k_h),
        Param::ValueHeads => gdn matches Some(g) && op == Operand::Int(g.v_h),
        Param::KeyDim => gdn matches Some(g) && op == Operand::Int(g.k_d),
        Param::ValueDim => gdn matches Some(g) && op == Operand::Int(g.v_d),
        Param::ConvDim => gdn matches Some(g) && op == Operand::Int(g.conv_dim),
        Param::ConvWindow => gdn matches Some(g) && op == Operand::Int(g.conv_k),
        Param::ConvStride => gdn matches Some(g) && op == Operand::Long(g.conv_stride_elems),
        Param::StateStride => gdn matches Some(g) && op == Operand::Long(g.state_stride_elems),
        Param::SlotIds => gdn matches Some(g) && op == Operand::Addr(g.slot_ids_d),
        Param::WriteState => gdn matches Some(g) && op == Operand::Flag(g.write_state),
        Param::RowsByValueHead => gdn matches Some(g) && counts(op, rows * g.v_h),
        Param::ConvState => gdn matches Some(g) && slab_at(s, g.conv_state@) matches Some(slab)
            && op == Operand::Addr(slab),
        Param::RecurrentState => gdn matches Some(g) && slab_at(
            s,
            g.recurrent_state@,
        ) matches Some(slab) && op == Operand::Addr(slab),
    }
}

/// What a parameter is for is at hand: the weight is named and held, the
/// context is the fire's and covers the layer, and what the operation has to
/// state it states.
pub open spec fn at_hand<R: Resolver>(
    p: Param,
    b: BoundView,
    s: LaunchSpecView,
    frame: Frame,
    r: R,
    c: &DispatchCtx,
    attn: Option<&AttnCtx>,
    gdn: Option<&GdnCtx>,
) -> bool {
    match p {
        Param::Weight | Param::RawWeight => s.weight matches Some(name) && r.weight_at(
            name,
        ) is Some,
        Param::Weight2 => s.weight2 matches Some(name) && r.weight_at(name) is Some,
        Param::Constant => s.weight matches Some(full) && "scale."@.is_prefix_of(full)
            && c.scales.lookup(full.skip(6)) is Some,
        Param::Rotary => s.rope_partial is Some,
        Param::PleDim => c.ple_dim > 0,
        Param::JoinedOutput => s.outs.len() > 0 && bind::resolved(s.outs[0], frame, r) is Ok,
        Param::LayerHeads(_)
        | Param::QueryHeads(_)
        | Param::Layer
        | Param::KPages
        | Param::VPages
        | Param::KMirror
        | Param::VMirror
        | Param::KvHeads
        | Param::LayerHeadDim
        | Param::PageSize
        | Param::HndLayout => layer_at(b, attn) is Some,
        Param::Window
        | Param::QueryPin
        | Param::OutputSlot
        | Param::PageIndices
        | Param::PageIndptr
        | Param::LastPageLens
        | Param::QueryIndptr
        | Param::HostQueryIndptr
        | Param::HostPageIndptr
        | Param::WritePage
        | Param::WriteOffset
        | Param::RowValid
        | Param::LseOut
        | Param::DecodePlan
        | Param::PrefillPlan
        | Param::Workspace
        | Param::SoftCap
        | Param::SmScale
        | Param::Requests
        | Param::Pages
        | Param::FirstToken => attn is Some,
        Param::KeyHeads
        | Param::ValueHeads
        | Param::KeyDim
        | Param::ValueDim
        | Param::ConvDim
        | Param::ConvWindow
        | Param::ConvStride
        | Param::StateStride
        | Param::SlotIds
        | Param::WriteState
        | Param::RowsByValueHead => gdn is Some,
        Param::ConvState => gdn matches Some(g) && slab_at(s, g.conv_state@) is Some,
        Param::RecurrentState => gdn matches Some(g) && slab_at(s, g.recurrent_state@) is Some,
        _ => true,
    }
}

/// Everything an entry's parameters are for is at hand.
pub open spec fn all_at_hand<R: Resolver>(
    params: Seq<Param>,
    b: BoundView,
    s: LaunchSpecView,
    frame: Frame,
    r: R,
    c: &DispatchCtx,
    attn: Option<&AttnCtx>,
    gdn: Option<&GdnCtx>,
) -> bool {
    forall|i: int|
        0 <= i < params.len() ==> #[trigger] at_hand(params[i], b, s, frame, r, c, attn, gdn)
}

/// One of them.
proof fn lemma_at_hand<R: Resolver>(
    params: Seq<Param>,
    i: int,
    b: BoundView,
    s: LaunchSpecView,
    frame: Frame,
    r: R,
    c: &DispatchCtx,
    attn: Option<&AttnCtx>,
    gdn: Option<&GdnCtx>,
)
    requires
        all_at_hand(params, b, s, frame, r, c, attn, gdn),
        0 <= i < params.len(),
    ensures
        at_hand(params[i], b, s, frame, r, c, attn, gdn),
{
}

/// What a parameter counts is a kernel's 32-bit count, and so is what the
/// count is computed from.
pub open spec fn in_32_bits(
    p: Param,
    names: Seq<Name>,
    b: BoundView,
    s: LaunchSpecView,
    attn: Option<&AttnCtx>,
    gdn: Option<&GdnCtx>,
) -> bool {
    let rows = b.rows.end - b.rows.start;
    match p {
        Param::Width(x) | Param::Heads(x) | Param::LayerHeads(x) | Param::PleLayers(x) => operand(
            b,
            names,
            x,
        ).width <= i32::MAX,
        Param::QueryHeads(x) => layer_at(b, attn) matches Some(l) ==> {
            let kv = 2 * l.num_kv_heads * l.head_dim;
            &&& operand(b, names, x).width <= i32::MAX
            &&& i32::MIN <= 2 * l.num_kv_heads <= i32::MAX
            &&& i32::MIN <= kv <= i32::MAX
            &&& i32::MIN <= operand(b, names, x).width - kv <= i32::MAX
        },
        Param::Elements(x) => operand(b, names, x).width <= i32::MAX && rows * operand(
            b,
            names,
            x,
        ).width <= i32::MAX,
        Param::NormRows(x) => s.per_head_dim matches Some(d) ==> d > 0 && forall|h: int| #[trigger]
            goes_into(h, operand(b, names, x).width as int, d as int) ==> rows * h <= i32::MAX,
        Param::NormWidth(x) => operand(b, names, x).width <= i32::MAX && (
        s.per_head_dim matches Some(d) ==> d <= i32::MAX),
        Param::Rotary => s.rope_partial matches Some(n) ==> n <= i32::MAX,
        Param::RowsByValueHead => gdn matches Some(g) ==> i32::MIN <= rows * g.v_h <= i32::MAX,
        _ => true,
    }
}

/// Every count an entry takes is.
pub open spec fn all_in_32_bits(
    params: Seq<Param>,
    names: Seq<Name>,
    b: BoundView,
    s: LaunchSpecView,
    attn: Option<&AttnCtx>,
    gdn: Option<&GdnCtx>,
) -> bool {
    forall|i: int|
        0 <= i < params.len() ==> #[trigger] in_32_bits(params[i], names, b, s, attn, gdn)
}

/// One of them.
proof fn lemma_in_32_bits(
    params: Seq<Param>,
    i: int,
    names: Seq<Name>,
    b: BoundView,
    s: LaunchSpecView,
    attn: Option<&AttnCtx>,
    gdn: Option<&GdnCtx>,
)
    requires
        all_in_32_bits(params, names, b, s, attn, gdn),
        0 <= i < params.len(),
    ensures
        in_32_bits(params[i], names, b, s, attn, gdn),
{
}

/// The copies that stage these operands: every row of the source's two-byte
/// elements, and none between operands that share a buffer.
pub open spec fn moves(b: BoundView, names: Seq<Name>, pairs: Seq<(Name, Name)>) -> Seq<StageCopy>
    decreases pairs.len(),
{
    if pairs.len() == 0 {
        Seq::empty()
    } else {
        let before = moves(b, names, pairs.drop_last());
        let dst = operand(b, names, pairs.last().0);
        let src = operand(b, names, pairs.last().1);
        if dst.ptr == src.ptr {
            before
        } else {
            before.push(
                StageCopy {
                    dst: dst.ptr,
                    src: src.ptr,
                    bytes: (2 * ((b.rows.end - b.rows.start) * src.width)) as u64,
                },
            )
        }
    }
}

/// An entry's launches keep to its signature.
pub open spec fn holds<R: Resolver>(
    e: Entry,
    b: BoundView,
    s: LaunchSpecView,
    frame: Frame,
    r: R,
    c: &DispatchCtx,
    attn: Option<&AttnCtx>,
    gdn: Option<&GdnCtx>,
) -> bool {
    let n = b.args.len() as int;
    let names = stated(e, n, s);
    let params = parameters(e, n, s);
    let out = dispatch::arm_outcome(e, b, s, frame, r, c, attn, gdn);
    &&& out is Ok <==> takes(e, n, s) && all_at_hand(params, b, s, frame, r, c, attn, gdn)
    &&& out matches Ok(action) ==> {
        &&& action.entry == e
        &&& action.operands.len() == params.len()
        &&& forall|i: int|
            0 <= i < params.len() ==> #[trigger] plays(
                params[i],
                action.operands[i],
                names,
                b,
                s,
                frame,
                r,
                c,
                attn,
                gdn,
            )
        &&& action.copies == moves(b, names, staged(e, n, s))
    }
    &&& out matches Err(refusal) ==> is_true(refusal, e, b, s, frame, r, c, attn, gdn)
    &&& takes(e, n, s) ==> dispatch::arm_fits(e, b, s, attn, gdn) == all_in_32_bits(
        params,
        names,
        b,
        s,
        attn,
        gdn,
    )
}

/// The entries that read the launch's layer before they count its operands.
pub open spec fn reads_its_layer_first(e: Entry) -> bool {
    ||| e == Entry::AttnDispatchFlashinferDecode
    ||| e == Entry::AttnDispatchFlashinferPrefillBf16
    ||| e == Entry::RopeQkRmsnormRopeBf16Rounded
}

/// The recurrent prefills, which read both of the fire's contexts.
pub open spec fn reads_both_contexts(e: Entry) -> bool {
    ||| e == Entry::SsmCausalConv1dPrefillBatchedBf16
    ||| e == Entry::SsmChunkGatedDeltaPrefillBatched
    ||| e == Entry::SsmChunkGatedDeltaPrefillBatchedStateBf16
}

/// The entries that read a weight behind the linear-attention context.
pub open spec fn reads_a_weight_behind_its_context(e: Entry) -> bool {
    e == Entry::SsmQwenGdnPostConvPrepBf16 || e == Entry::NormRmsnormGatedFp32InBf16
}

/// The slabs an entry reads.
pub open spec fn slabs_read(e: Entry, g: &GdnCtx) -> Seq<u64> {
    if e == Entry::SsmCausalConv1dUpdateBatchedBf16 || e
        == Entry::SsmCausalConv1dPrefillBatchedBf16 {
        g.conv_state@
    } else {
        g.recurrent_state@
    }
}

/// What an entry's slabs are called.
pub open spec fn slab_name(e: Entry) -> Seq<char> {
    if e == Entry::SsmCausalConv1dUpdateBatchedBf16 || e
        == Entry::SsmCausalConv1dPrefillBatchedBf16 {
        "conv"@
    } else {
        "recurrent"@
    }
}

/// A refusal says what is so, and is the first there is reason for: the
/// operands' count, then the contexts, then the state, then what the operation
/// names.
pub open spec fn is_true<R: Resolver>(
    refusal: DispatchRefusalView,
    e: Entry,
    b: BoundView,
    s: LaunchSpecView,
    frame: Frame,
    r: R,
    c: &DispatchCtx,
    attn: Option<&AttnCtx>,
    gdn: Option<&GdnCtx>,
) -> bool {
    let counted = takes(e, b.args.len() as int, s);
    match refusal {
        DispatchRefusalView::ArgCount { kernel, expected: said, got } => {
            &&& kernel == b.kernel
            &&& got == b.args.len() as usize
            &&& said == expected(e, s)
            &&& !counted
            &&& reads_its_layer_first(e) ==> layer_at(b, attn) is Some
        },
        DispatchRefusalView::NoAttnCtx(kernel) => {
            &&& kernel == b.kernel
            &&& counted || reads_its_layer_first(e)
            &&& if reads_both_contexts(e) {
                attn is None && gdn is Some
            } else {
                layer_at(b, attn) is None
            }
        },
        DispatchRefusalView::NoGdnCtx(text) => {
            &&& counted
            &&& match gdn {
                None => text == b.kernel,
                Some(g) => {
                    &&& reads_both_contexts(e) ==> attn is Some
                    &&& match s.state {
                        None => text == b.kernel + ": op states no layer"@,
                        Some(state) => {
                            &&& slab_at(s, slabs_read(e, g)) is None
                            &&& text == b.kernel + ": layer "@ + strings::decimal(
                                state.layer as nat,
                            ) + " has no "@ + slab_name(e) + " slab"@
                        },
                    }
                },
            }
        },
        DispatchRefusalView::Out(text) => {
            &&& counted
            &&& reads_both_contexts(e)
            &&& attn is Some
            &&& gdn matches Some(g) && slab_at(s, g.recurrent_state@) is Some
            &&& s.outs.len() == 0 ==> text == b.kernel + ": no output 0"@
            &&& s.outs.len() > 0 ==> (bind::resolved(s.outs[0], frame, r) matches Err(why) && text
                == b.kernel + ": "@ + arm::refusal_text(why))
        },
        DispatchRefusalView::NoWeight(kernel) => {
            &&& counted
            &&& kernel == b.kernel
            &&& reads_a_weight_behind_its_context(e) ==> gdn is Some
            &&& {
                ||| s.weight is None
                ||| e == Entry::SsmQwenGdnPostConvPrepBf16 && s.weight2 is None && (
                s.weight matches Some(first) && r.weight_at(first) is Some)
                ||| e == Entry::NormScalarMulBf16 && (s.weight matches Some(full)
                    && !"scale."@.is_prefix_of(full))
            }
        },
        DispatchRefusalView::UnknownWeight(name) => {
            &&& counted
            &&& reads_a_weight_behind_its_context(e) ==> gdn is Some
            &&& {
                ||| s.weight == Some(name) && r.weight_at(name) is None && e
                    != Entry::NormScalarMulBf16
                ||| e == Entry::SsmQwenGdnPostConvPrepBf16 && s.weight2 == Some(name)
                    && r.weight_at(name) is None && (s.weight matches Some(first)
                    && r.weight_at(first) is Some)
                ||| e == Entry::NormScalarMulBf16 && s.weight == Some(name)
                    && "scale."@.is_prefix_of(name) && c.scales.lookup(name.skip(6)) is None
            }
        },
        DispatchRefusalView::NoArm(text) => {
            &&& counted
            &&& {
                ||| e == Entry::RopeRopePartialBf16 && s.rope_partial is None && text == b.kernel
                    + ": op states no rotary width"@
                ||| e == Entry::LayoutTransposeBf16NldToLnd && c.ple_dim <= 0 && text == b.kernel
                    + ": the fire states no ple_dim"@
            }
        },
    }
}

/// No name stands twice, so each is found where it stands.
proof fn lemma_named(names: Seq<Name>, i: int)
    requires
        0 <= i < names.len(),
        forall|j: int, k: int| 0 <= j < k < names.len() ==> names[j] != names[k],
    ensures
        names.index_of(names[i]) == i,
{
}

/// Division is the quotient that goes in.
proof fn lemma_quotients()
    ensures
        forall|w: int, d: int|
            w >= 0 && d > 0 ==> #[trigger] goes_into(w / d, w, d) && 0 <= w / d <= w,
        forall|q: int, w: int, d: int|
            w >= 0 && d > 0 && #[trigger] goes_into(q, w, d) ==> q == w / d,
{
    assert forall|w: int, d: int| w >= 0 && d > 0 implies #[trigger] goes_into(w / d, w, d) && 0
        <= w / d <= w by {
        vstd::arithmetic::div_mod::lemma_fundamental_div_mod(w, d);
        vstd::arithmetic::div_mod::lemma_mod_bound(w, d);
        vstd::arithmetic::div_mod::lemma_div_pos_is_pos(w, d);
        vstd::arithmetic::div_mod::lemma_div_is_ordered_by_denominator(w, 1, d);
        vstd::arithmetic::div_mod::lemma_div_basics(w);
        let q = w / d;
        assert(q * d <= w < (q + 1) * d) by (nonlinear_arith)
            requires
                w == d * q + w % d,
                0 <= w % d < d,
        ;
    }
    assert forall|q: int, w: int, d: int|
        w >= 0 && d > 0 && #[trigger] goes_into(q, w, d) implies q == w / d by {
        assert(w == q * d + (w - q * d));
        assert(0 <= w - q * d < d) by (nonlinear_arith)
            requires
                q * d <= w < (q + 1) * d,
        ;
        vstd::arithmetic::div_mod::lemma_fundamental_div_mod_converse(w, d, q, w - q * d);
    }
}

/// A rectangle's elements fit 64 bits, and so do their bytes.
proof fn lemma_elements(b: BoundView)
    requires
        0 <= b.rows.end - b.rows.start <= i32::MAX,
    ensures
        forall|i: int|
            0 <= i < b.args.len() ==> 0 <= (b.rows.end - b.rows.start) * (
            #[trigger] b.args[i]).width && 2 * ((b.rows.end - b.rows.start) * b.args[i].width)
                <= u64::MAX,
{
    let n = b.rows.end - b.rows.start;
    assert forall|i: int| 0 <= i < b.args.len() implies 0 <= n * (#[trigger] b.args[i]).width && 2
        * (n * b.args[i].width) <= u64::MAX by {
        let w = b.args[i].width as int;
        assert(0 <= n * w && 2 * (n * w) <= u64::MAX) by (nonlinear_arith)
            requires
                0 <= n <= 0x7fff_ffff,
                0 <= w <= 0xffff_ffff,
        ;
    }
}


#[verifier::spinoff_prover]
#[verifier::rlimit(100)]
proof fn lemma_layout_embed_bf16<R: Resolver>(
    b: BoundView,
    s: LaunchSpecView,
    frame: Frame,
    r: R,
    c: &DispatchCtx,
    attn: Option<&AttnCtx>,
    gdn: Option<&GdnCtx>,
)
    requires
        0 <= b.rows.end - b.rows.start <= i32::MAX,
    ensures
        holds(Entry::LayoutEmbedBf16, b, s, frame, r, c, attn, gdn),
{
    let e = Entry::LayoutEmbedBf16;
    let n = b.args.len() as int;
    let names = stated(e, n, s);
    let params = parameters(e, n, s);
    if takes(e, n, s) && n == 1 {
        lemma_named(names, 0);
    }
    if takes(e, n, s) && all_in_32_bits(params, names, b, s, attn, gdn) {
        lemma_in_32_bits(params, 4, names, b, s, attn, gdn);
    }
    if takes(e, n, s) && all_at_hand(params, b, s, frame, r, c, attn, gdn) {
        lemma_at_hand(params, 1, b, s, frame, r, c, attn, gdn);
    }
}

#[verifier::spinoff_prover]
#[verifier::rlimit(100)]
proof fn lemma_rope_standard_table<R: Resolver>(
    b: BoundView,
    s: LaunchSpecView,
    frame: Frame,
    r: R,
    c: &DispatchCtx,
    attn: Option<&AttnCtx>,
    gdn: Option<&GdnCtx>,
)
    requires
        0 <= b.rows.end - b.rows.start <= i32::MAX,
    ensures
        holds(Entry::RopeStandardTable, b, s, frame, r, c, attn, gdn),
{
    let e = Entry::RopeStandardTable;
    let n = b.args.len() as int;
    let names = stated(e, n, s);
    let params = parameters(e, n, s);
    if takes(e, n, s) && n == 1 {
        lemma_named(names, 0);
    }
}

#[verifier::spinoff_prover]
#[verifier::rlimit(100)]
proof fn lemma_norm_rmsnorm_bf16<R: Resolver>(
    b: BoundView,
    s: LaunchSpecView,
    frame: Frame,
    r: R,
    c: &DispatchCtx,
    attn: Option<&AttnCtx>,
    gdn: Option<&GdnCtx>,
)
    requires
        0 <= b.rows.end - b.rows.start <= i32::MAX,
    ensures
        holds(Entry::NormRmsnormBf16, b, s, frame, r, c, attn, gdn),
{
    let e = Entry::NormRmsnormBf16;
    let n = b.args.len() as int;
    let names = stated(e, n, s);
    let params = parameters(e, n, s);
    if takes(e, n, s) && n == 2 {
        lemma_named(names, 0);
        lemma_named(names, 1);
    }
    if takes(e, n, s) && all_in_32_bits(params, names, b, s, attn, gdn) {
        lemma_in_32_bits(params, 4, names, b, s, attn, gdn);
    }
    if takes(e, n, s) && all_at_hand(params, b, s, frame, r, c, attn, gdn) {
        lemma_at_hand(params, 1, b, s, frame, r, c, attn, gdn);
    }
}

#[verifier::spinoff_prover]
#[verifier::rlimit(100)]
proof fn lemma_gemm_act_x_w<R: Resolver>(
    b: BoundView,
    s: LaunchSpecView,
    frame: Frame,
    r: R,
    c: &DispatchCtx,
    attn: Option<&AttnCtx>,
    gdn: Option<&GdnCtx>,
)
    requires
        0 <= b.rows.end - b.rows.start <= i32::MAX,
    ensures
        holds(Entry::GemmActXW, b, s, frame, r, c, attn, gdn),
{
    let e = Entry::GemmActXW;
    let n = b.args.len() as int;
    let names = stated(e, n, s);
    let params = parameters(e, n, s);
    if takes(e, n, s) && !s.beta_one {
        lemma_named(names, 0);
        lemma_named(names, 1);
    }
    if takes(e, n, s) && s.beta_one {
        lemma_named(names, 0);
        lemma_named(names, 1);
        lemma_named(names, 2);
    }
    if takes(e, n, s) && all_in_32_bits(params, names, b, s, attn, gdn) {
        lemma_in_32_bits(params, 5, names, b, s, attn, gdn);
        lemma_in_32_bits(params, 6, names, b, s, attn, gdn);
    }
    if takes(e, n, s) && all_at_hand(params, b, s, frame, r, c, attn, gdn) {
        lemma_at_hand(params, 2, b, s, frame, r, c, attn, gdn);
    }
}

#[verifier::spinoff_prover]
#[verifier::rlimit(100)]
proof fn lemma_mlp_chunked_swiglu_bf16<R: Resolver>(
    b: BoundView,
    s: LaunchSpecView,
    frame: Frame,
    r: R,
    c: &DispatchCtx,
    attn: Option<&AttnCtx>,
    gdn: Option<&GdnCtx>,
)
    requires
        0 <= b.rows.end - b.rows.start <= i32::MAX,
    ensures
        holds(Entry::MlpChunkedSwigluBf16, b, s, frame, r, c, attn, gdn),
{
    let e = Entry::MlpChunkedSwigluBf16;
    let n = b.args.len() as int;
    let names = stated(e, n, s);
    let params = parameters(e, n, s);
    if takes(e, n, s) && n == 2 {
        lemma_named(names, 0);
        lemma_named(names, 1);
    }
    if takes(e, n, s) && all_in_32_bits(params, names, b, s, attn, gdn) {
        lemma_in_32_bits(params, 3, names, b, s, attn, gdn);
    }
}

#[verifier::spinoff_prover]
#[verifier::rlimit(100)]
proof fn lemma_attn_qkv_decode_qk_norm_rope_write_kv_bf16<R: Resolver>(
    b: BoundView,
    s: LaunchSpecView,
    frame: Frame,
    r: R,
    c: &DispatchCtx,
    attn: Option<&AttnCtx>,
    gdn: Option<&GdnCtx>,
)
    requires
        0 <= b.rows.end - b.rows.start <= i32::MAX,
    ensures
        holds(Entry::AttnQkvDecodeQkNormRopeWriteKvBf16, b, s, frame, r, c, attn, gdn),
{
    let e = Entry::AttnQkvDecodeQkNormRopeWriteKvBf16;
    let n = b.args.len() as int;
    let names = stated(e, n, s);
    let params = parameters(e, n, s);
    if takes(e, n, s) && n == 4 {
        lemma_named(names, 0);
        lemma_named(names, 1);
        lemma_named(names, 2);
        lemma_named(names, 3);
    }
    if takes(e, n, s) && all_in_32_bits(params, names, b, s, attn, gdn) {
        lemma_in_32_bits(params, 15, names, b, s, attn, gdn);
    }
    lemma_quotients();
    if takes(e, n, s) && all_at_hand(params, b, s, frame, r, c, attn, gdn) {
        lemma_at_hand(params, 2, b, s, frame, r, c, attn, gdn);
    }
}

#[verifier::spinoff_prover]
#[verifier::rlimit(100)]
proof fn lemma_attn_dispatch_flashinfer_decode<R: Resolver>(
    b: BoundView,
    s: LaunchSpecView,
    frame: Frame,
    r: R,
    c: &DispatchCtx,
    attn: Option<&AttnCtx>,
    gdn: Option<&GdnCtx>,
)
    requires
        0 <= b.rows.end - b.rows.start <= i32::MAX,
    ensures
        holds(Entry::AttnDispatchFlashinferDecode, b, s, frame, r, c, attn, gdn),
{
    let e = Entry::AttnDispatchFlashinferDecode;
    let n = b.args.len() as int;
    let names = stated(e, n, s);
    let params = parameters(e, n, s);
    if takes(e, n, s) && n == 1 {
        lemma_named(names, 0);
    }
    if takes(e, n, s) && n == 2 {
        lemma_named(names, 0);
        lemma_named(names, 1);
    }
    if takes(e, n, s) && all_at_hand(params, b, s, frame, r, c, attn, gdn) {
        lemma_at_hand(params, 2, b, s, frame, r, c, attn, gdn);
    }
}

#[verifier::spinoff_prover]
#[verifier::rlimit(100)]
proof fn lemma_attn_split_qkv_bf16<R: Resolver>(
    b: BoundView,
    s: LaunchSpecView,
    frame: Frame,
    r: R,
    c: &DispatchCtx,
    attn: Option<&AttnCtx>,
    gdn: Option<&GdnCtx>,
)
    requires
        0 <= b.rows.end - b.rows.start <= i32::MAX,
    ensures
        holds(Entry::AttnSplitQkvBf16, b, s, frame, r, c, attn, gdn),
{
    let e = Entry::AttnSplitQkvBf16;
    let n = b.args.len() as int;
    let names = stated(e, n, s);
    let params = parameters(e, n, s);
    if takes(e, n, s) && n == 4 {
        lemma_named(names, 0);
        lemma_named(names, 1);
        lemma_named(names, 2);
        lemma_named(names, 3);
    }
    if takes(e, n, s) && all_in_32_bits(params, names, b, s, attn, gdn) {
        lemma_in_32_bits(params, 5, names, b, s, attn, gdn);
        lemma_in_32_bits(params, 6, names, b, s, attn, gdn);
    }
}

#[verifier::spinoff_prover]
#[verifier::rlimit(100)]
proof fn lemma_rope_qk_rmsnorm_rope_bf16<R: Resolver>(
    b: BoundView,
    s: LaunchSpecView,
    frame: Frame,
    r: R,
    c: &DispatchCtx,
    attn: Option<&AttnCtx>,
    gdn: Option<&GdnCtx>,
)
    requires
        0 <= b.rows.end - b.rows.start <= i32::MAX,
    ensures
        holds(Entry::RopeQkRmsnormRopeBf16, b, s, frame, r, c, attn, gdn),
{
    let e = Entry::RopeQkRmsnormRopeBf16;
    let n = b.args.len() as int;
    let names = stated(e, n, s);
    let params = parameters(e, n, s);
    if takes(e, n, s) && n == 6 {
        lemma_named(names, 0);
        lemma_named(names, 1);
        lemma_named(names, 2);
        lemma_named(names, 3);
        lemma_named(names, 4);
        lemma_named(names, 5);
    }
    if takes(e, n, s) && all_in_32_bits(params, names, b, s, attn, gdn) {
        lemma_in_32_bits(params, 6, names, b, s, attn, gdn);
        lemma_in_32_bits(params, 7, names, b, s, attn, gdn);
    }
    lemma_quotients();
    lemma_elements(b);
    reveal_with_fuel(moves, 3);
    assert(staged(e, n, s).drop_last() =~= seq![staged(e, n, s)[0]]);
    assert(staged(e, n, s).drop_last().drop_last() =~= Seq::empty());
    if let Ok(action) = dispatch::arm_outcome(e, b, s, frame, r, c, attn, gdn) {
        assert(action.copies =~= moves(b, names, staged(e, n, s)));
    }
}

#[verifier::spinoff_prover]
#[verifier::rlimit(100)]
proof fn lemma_attn_write_kv_to_pages<R: Resolver>(
    b: BoundView,
    s: LaunchSpecView,
    frame: Frame,
    r: R,
    c: &DispatchCtx,
    attn: Option<&AttnCtx>,
    gdn: Option<&GdnCtx>,
)
    requires
        0 <= b.rows.end - b.rows.start <= i32::MAX,
    ensures
        holds(Entry::AttnWriteKvToPages, b, s, frame, r, c, attn, gdn),
{
    let e = Entry::AttnWriteKvToPages;
    let n = b.args.len() as int;
    let names = stated(e, n, s);
    let params = parameters(e, n, s);
    if takes(e, n, s) && n == 2 {
        lemma_named(names, 0);
        lemma_named(names, 1);
    }
    if takes(e, n, s) && all_at_hand(params, b, s, frame, r, c, attn, gdn) {
        lemma_at_hand(params, 0, b, s, frame, r, c, attn, gdn);
    }
}

#[verifier::spinoff_prover]
#[verifier::rlimit(100)]
proof fn lemma_attn_dequant_kv_cache_layer_to_bf16_active<R: Resolver>(
    b: BoundView,
    s: LaunchSpecView,
    frame: Frame,
    r: R,
    c: &DispatchCtx,
    attn: Option<&AttnCtx>,
    gdn: Option<&GdnCtx>,
)
    requires
        0 <= b.rows.end - b.rows.start <= i32::MAX,
    ensures
        holds(Entry::AttnDequantKvCacheLayerToBf16Active, b, s, frame, r, c, attn, gdn),
{
    let e = Entry::AttnDequantKvCacheLayerToBf16Active;
    let n = b.args.len() as int;
    let names = stated(e, n, s);
    let params = parameters(e, n, s);
    if takes(e, n, s) && all_at_hand(params, b, s, frame, r, c, attn, gdn) {
        lemma_at_hand(params, 0, b, s, frame, r, c, attn, gdn);
    }
}

#[verifier::spinoff_prover]
#[verifier::rlimit(100)]
proof fn lemma_attn_dispatch_flashinfer_prefill_bf16<R: Resolver>(
    b: BoundView,
    s: LaunchSpecView,
    frame: Frame,
    r: R,
    c: &DispatchCtx,
    attn: Option<&AttnCtx>,
    gdn: Option<&GdnCtx>,
)
    requires
        0 <= b.rows.end - b.rows.start <= i32::MAX,
    ensures
        holds(Entry::AttnDispatchFlashinferPrefillBf16, b, s, frame, r, c, attn, gdn),
{
    let e = Entry::AttnDispatchFlashinferPrefillBf16;
    let n = b.args.len() as int;
    let names = stated(e, n, s);
    let params = parameters(e, n, s);
    if takes(e, n, s) && n == 1 {
        lemma_named(names, 0);
    }
    if takes(e, n, s) && n == 2 {
        lemma_named(names, 0);
        lemma_named(names, 1);
    }
    if takes(e, n, s) && all_at_hand(params, b, s, frame, r, c, attn, gdn) {
        lemma_at_hand(params, 2, b, s, frame, r, c, attn, gdn);
    }
}

#[verifier::spinoff_prover]
#[verifier::rlimit(100)]
proof fn lemma_rope_rope_bf16<R: Resolver>(
    b: BoundView,
    s: LaunchSpecView,
    frame: Frame,
    r: R,
    c: &DispatchCtx,
    attn: Option<&AttnCtx>,
    gdn: Option<&GdnCtx>,
)
    requires
        0 <= b.rows.end - b.rows.start <= i32::MAX,
    ensures
        holds(Entry::RopeRopeBf16, b, s, frame, r, c, attn, gdn),
{
    let e = Entry::RopeRopeBf16;
    let n = b.args.len() as int;
    let names = stated(e, n, s);
    let params = parameters(e, n, s);
    if takes(e, n, s) && n == 4 {
        lemma_named(names, 0);
        lemma_named(names, 1);
        lemma_named(names, 2);
        lemma_named(names, 3);
    }
    if takes(e, n, s) && all_in_32_bits(params, names, b, s, attn, gdn) {
        lemma_in_32_bits(params, 4, names, b, s, attn, gdn);
        lemma_in_32_bits(params, 5, names, b, s, attn, gdn);
    }
    lemma_quotients();
    lemma_elements(b);
    reveal_with_fuel(moves, 3);
    assert(staged(e, n, s).drop_last() =~= seq![staged(e, n, s)[0]]);
    assert(staged(e, n, s).drop_last().drop_last() =~= Seq::empty());
    if let Ok(action) = dispatch::arm_outcome(e, b, s, frame, r, c, attn, gdn) {
        assert(action.copies =~= moves(b, names, staged(e, n, s)));
    }
}

#[verifier::spinoff_prover]
#[verifier::rlimit(100)]
proof fn lemma_norm_residual_add_bf16<R: Resolver>(
    b: BoundView,
    s: LaunchSpecView,
    frame: Frame,
    r: R,
    c: &DispatchCtx,
    attn: Option<&AttnCtx>,
    gdn: Option<&GdnCtx>,
)
    requires
        0 <= b.rows.end - b.rows.start <= i32::MAX,
    ensures
        holds(Entry::NormResidualAddBf16, b, s, frame, r, c, attn, gdn),
{
    let e = Entry::NormResidualAddBf16;
    let n = b.args.len() as int;
    let names = stated(e, n, s);
    let params = parameters(e, n, s);
    if takes(e, n, s) && n == 3 {
        lemma_named(names, 0);
        lemma_named(names, 1);
        lemma_named(names, 2);
    }
    lemma_elements(b);
    reveal_with_fuel(moves, 3);
    if staged(e, n, s).len() == 1 {
        assert(staged(e, n, s).drop_last() =~= Seq::empty());
    }
}

#[verifier::spinoff_prover]
#[verifier::rlimit(100)]
proof fn lemma_norm_add_bias_bf16<R: Resolver>(
    b: BoundView,
    s: LaunchSpecView,
    frame: Frame,
    r: R,
    c: &DispatchCtx,
    attn: Option<&AttnCtx>,
    gdn: Option<&GdnCtx>,
)
    requires
        0 <= b.rows.end - b.rows.start <= i32::MAX,
    ensures
        holds(Entry::NormAddBiasBf16, b, s, frame, r, c, attn, gdn),
{
    let e = Entry::NormAddBiasBf16;
    let n = b.args.len() as int;
    let names = stated(e, n, s);
    let params = parameters(e, n, s);
    if takes(e, n, s) && n == 2 {
        lemma_named(names, 0);
        lemma_named(names, 1);
    }
    if takes(e, n, s) && all_in_32_bits(params, names, b, s, attn, gdn) {
        lemma_in_32_bits(params, 3, names, b, s, attn, gdn);
    }
    lemma_elements(b);
    reveal_with_fuel(moves, 3);
    if staged(e, n, s).len() == 1 {
        assert(staged(e, n, s).drop_last() =~= Seq::empty());
    }
    if takes(e, n, s) && all_at_hand(params, b, s, frame, r, c, attn, gdn) {
        lemma_at_hand(params, 1, b, s, frame, r, c, attn, gdn);
    }
}

#[verifier::spinoff_prover]
#[verifier::rlimit(100)]
proof fn lemma_norm_rmsnorm_gemma_bf16<R: Resolver>(
    b: BoundView,
    s: LaunchSpecView,
    frame: Frame,
    r: R,
    c: &DispatchCtx,
    attn: Option<&AttnCtx>,
    gdn: Option<&GdnCtx>,
)
    requires
        0 <= b.rows.end - b.rows.start <= i32::MAX,
    ensures
        holds(Entry::NormRmsnormGemmaBf16, b, s, frame, r, c, attn, gdn),
{
    let e = Entry::NormRmsnormGemmaBf16;
    let n = b.args.len() as int;
    let names = stated(e, n, s);
    let params = parameters(e, n, s);
    if takes(e, n, s) && n == 2 {
        lemma_named(names, 0);
        lemma_named(names, 1);
    }
    if takes(e, n, s) && all_in_32_bits(params, names, b, s, attn, gdn) {
        lemma_in_32_bits(params, 3, names, b, s, attn, gdn);
        lemma_in_32_bits(params, 4, names, b, s, attn, gdn);
    }
    lemma_quotients();
    if let Some(d) = s.per_head_dim {
        if n == 2 && d > 0 {
            let w = b.args[0].width as int;
            assert(goes_into(w / d as int, w, d as int));
        }
    }
    if takes(e, n, s) && all_at_hand(params, b, s, frame, r, c, attn, gdn) {
        lemma_at_hand(params, 1, b, s, frame, r, c, attn, gdn);
    }
}

#[verifier::spinoff_prover]
#[verifier::rlimit(100)]
proof fn lemma_rope_rope_partial_bf16<R: Resolver>(
    b: BoundView,
    s: LaunchSpecView,
    frame: Frame,
    r: R,
    c: &DispatchCtx,
    attn: Option<&AttnCtx>,
    gdn: Option<&GdnCtx>,
)
    requires
        0 <= b.rows.end - b.rows.start <= i32::MAX,
    ensures
        holds(Entry::RopeRopePartialBf16, b, s, frame, r, c, attn, gdn),
{
    let e = Entry::RopeRopePartialBf16;
    let n = b.args.len() as int;
    let names = stated(e, n, s);
    let params = parameters(e, n, s);
    if takes(e, n, s) && n == 4 {
        lemma_named(names, 0);
        lemma_named(names, 1);
        lemma_named(names, 2);
        lemma_named(names, 3);
    }
    if takes(e, n, s) && all_in_32_bits(params, names, b, s, attn, gdn) {
        lemma_in_32_bits(params, 4, names, b, s, attn, gdn);
        lemma_in_32_bits(params, 5, names, b, s, attn, gdn);
        lemma_in_32_bits(params, 7, names, b, s, attn, gdn);
    }
    lemma_quotients();
    lemma_elements(b);
    reveal_with_fuel(moves, 3);
    assert(staged(e, n, s).drop_last() =~= seq![staged(e, n, s)[0]]);
    assert(staged(e, n, s).drop_last().drop_last() =~= Seq::empty());
    if let Ok(action) = dispatch::arm_outcome(e, b, s, frame, r, c, attn, gdn) {
        assert(action.copies =~= moves(b, names, staged(e, n, s)));
    }
    if takes(e, n, s) && all_at_hand(params, b, s, frame, r, c, attn, gdn) {
        lemma_at_hand(params, 7, b, s, frame, r, c, attn, gdn);
    }
}

#[verifier::spinoff_prover]
#[verifier::rlimit(100)]
proof fn lemma_layout_split_q_gate_bf16<R: Resolver>(
    b: BoundView,
    s: LaunchSpecView,
    frame: Frame,
    r: R,
    c: &DispatchCtx,
    attn: Option<&AttnCtx>,
    gdn: Option<&GdnCtx>,
)
    requires
        0 <= b.rows.end - b.rows.start <= i32::MAX,
    ensures
        holds(Entry::LayoutSplitQGateBf16, b, s, frame, r, c, attn, gdn),
{
    let e = Entry::LayoutSplitQGateBf16;
    let n = b.args.len() as int;
    let names = stated(e, n, s);
    let params = parameters(e, n, s);
    if takes(e, n, s) && n == 3 {
        lemma_named(names, 0);
        lemma_named(names, 1);
        lemma_named(names, 2);
    }
    if takes(e, n, s) && all_in_32_bits(params, names, b, s, attn, gdn) {
        lemma_in_32_bits(params, 4, names, b, s, attn, gdn);
    }
    lemma_quotients();
}

#[verifier::spinoff_prover]
#[verifier::rlimit(100)]
proof fn lemma_mlp_sigmoid_gate_inplace_bf16<R: Resolver>(
    b: BoundView,
    s: LaunchSpecView,
    frame: Frame,
    r: R,
    c: &DispatchCtx,
    attn: Option<&AttnCtx>,
    gdn: Option<&GdnCtx>,
)
    requires
        0 <= b.rows.end - b.rows.start <= i32::MAX,
    ensures
        holds(Entry::MlpSigmoidGateInplaceBf16, b, s, frame, r, c, attn, gdn),
{
    let e = Entry::MlpSigmoidGateInplaceBf16;
    let n = b.args.len() as int;
    let names = stated(e, n, s);
    let params = parameters(e, n, s);
    if takes(e, n, s) && n == 2 {
        lemma_named(names, 0);
        lemma_named(names, 1);
    }
    if takes(e, n, s) && n == 3 {
        lemma_named(names, 0);
        lemma_named(names, 1);
        lemma_named(names, 2);
    }
    if takes(e, n, s) && all_in_32_bits(params, names, b, s, attn, gdn) {
        lemma_in_32_bits(params, 2, names, b, s, attn, gdn);
    }
    lemma_elements(b);
    reveal_with_fuel(moves, 3);
    if staged(e, n, s).len() == 1 {
        assert(staged(e, n, s).drop_last() =~= Seq::empty());
    }
}

#[verifier::spinoff_prover]
#[verifier::rlimit(100)]
proof fn lemma_ssm_causal_conv1d_update_batched_bf16<R: Resolver>(
    b: BoundView,
    s: LaunchSpecView,
    frame: Frame,
    r: R,
    c: &DispatchCtx,
    attn: Option<&AttnCtx>,
    gdn: Option<&GdnCtx>,
)
    requires
        0 <= b.rows.end - b.rows.start <= i32::MAX,
    ensures
        holds(Entry::SsmCausalConv1dUpdateBatchedBf16, b, s, frame, r, c, attn, gdn),
{
    let e = Entry::SsmCausalConv1dUpdateBatchedBf16;
    let n = b.args.len() as int;
    let names = stated(e, n, s);
    let params = parameters(e, n, s);
    if takes(e, n, s) && n == 3 {
        lemma_named(names, 0);
        lemma_named(names, 1);
        lemma_named(names, 2);
    }
    if takes(e, n, s) && all_at_hand(params, b, s, frame, r, c, attn, gdn) {
        lemma_at_hand(params, 3, b, s, frame, r, c, attn, gdn);
    }
}

#[verifier::spinoff_prover]
#[verifier::rlimit(100)]
proof fn lemma_ssm_causal_conv1d_prefill_batched_bf16<R: Resolver>(
    b: BoundView,
    s: LaunchSpecView,
    frame: Frame,
    r: R,
    c: &DispatchCtx,
    attn: Option<&AttnCtx>,
    gdn: Option<&GdnCtx>,
)
    requires
        0 <= b.rows.end - b.rows.start <= i32::MAX,
    ensures
        holds(Entry::SsmCausalConv1dPrefillBatchedBf16, b, s, frame, r, c, attn, gdn),
{
    let e = Entry::SsmCausalConv1dPrefillBatchedBf16;
    let n = b.args.len() as int;
    let names = stated(e, n, s);
    let params = parameters(e, n, s);
    if takes(e, n, s) && n == 3 {
        lemma_named(names, 0);
        lemma_named(names, 1);
        lemma_named(names, 2);
    }
    if takes(e, n, s) && all_at_hand(params, b, s, frame, r, c, attn, gdn) {
        lemma_at_hand(params, 4, b, s, frame, r, c, attn, gdn);
        lemma_at_hand(params, 6, b, s, frame, r, c, attn, gdn);
    }
}

#[verifier::spinoff_prover]
#[verifier::rlimit(100)]
proof fn lemma_ssm_qwen_gdn_post_conv_prep_bf16<R: Resolver>(
    b: BoundView,
    s: LaunchSpecView,
    frame: Frame,
    r: R,
    c: &DispatchCtx,
    attn: Option<&AttnCtx>,
    gdn: Option<&GdnCtx>,
)
    requires
        0 <= b.rows.end - b.rows.start <= i32::MAX,
    ensures
        holds(Entry::SsmQwenGdnPostConvPrepBf16, b, s, frame, r, c, attn, gdn),
{
    let e = Entry::SsmQwenGdnPostConvPrepBf16;
    let n = b.args.len() as int;
    let names = stated(e, n, s);
    let params = parameters(e, n, s);
    if takes(e, n, s) && n == 8 {
        lemma_named(names, 0);
        lemma_named(names, 1);
        lemma_named(names, 2);
        lemma_named(names, 3);
        lemma_named(names, 4);
        lemma_named(names, 5);
        lemma_named(names, 6);
        lemma_named(names, 7);
    }
    if takes(e, n, s) && all_at_hand(params, b, s, frame, r, c, attn, gdn) {
        lemma_at_hand(params, 3, b, s, frame, r, c, attn, gdn);
        lemma_at_hand(params, 4, b, s, frame, r, c, attn, gdn);
        lemma_at_hand(params, 11, b, s, frame, r, c, attn, gdn);
    }
}

#[verifier::spinoff_prover]
#[verifier::rlimit(100)]
proof fn lemma_ssm_recurrent_gated_delta_step_batched_state_bf16<R: Resolver>(
    b: BoundView,
    s: LaunchSpecView,
    frame: Frame,
    r: R,
    c: &DispatchCtx,
    attn: Option<&AttnCtx>,
    gdn: Option<&GdnCtx>,
)
    requires
        0 <= b.rows.end - b.rows.start <= i32::MAX,
    ensures
        holds(Entry::SsmRecurrentGatedDeltaStepBatchedStateBf16, b, s, frame, r, c, attn, gdn),
{
    let e = Entry::SsmRecurrentGatedDeltaStepBatchedStateBf16;
    let n = b.args.len() as int;
    let names = stated(e, n, s);
    let params = parameters(e, n, s);
    if takes(e, n, s) && n == 6 {
        lemma_named(names, 0);
        lemma_named(names, 1);
        lemma_named(names, 2);
        lemma_named(names, 3);
        lemma_named(names, 4);
        lemma_named(names, 5);
    }
    if takes(e, n, s) && all_at_hand(params, b, s, frame, r, c, attn, gdn) {
        lemma_at_hand(params, 5, b, s, frame, r, c, attn, gdn);
    }
}

#[verifier::spinoff_prover]
#[verifier::rlimit(100)]
proof fn lemma_ssm_chunk_gated_delta_prefill_batched<R: Resolver>(
    b: BoundView,
    s: LaunchSpecView,
    frame: Frame,
    r: R,
    c: &DispatchCtx,
    attn: Option<&AttnCtx>,
    gdn: Option<&GdnCtx>,
)
    requires
        0 <= b.rows.end - b.rows.start <= i32::MAX,
    ensures
        holds(Entry::SsmChunkGatedDeltaPrefillBatched, b, s, frame, r, c, attn, gdn),
{
    let e = Entry::SsmChunkGatedDeltaPrefillBatched;
    let n = b.args.len() as int;
    let names = stated(e, n, s);
    let params = parameters(e, n, s);
    if takes(e, n, s) && n == 5 {
        lemma_named(names, 0);
        lemma_named(names, 1);
        lemma_named(names, 2);
        lemma_named(names, 3);
        lemma_named(names, 4);
    }
    if takes(e, n, s) && all_at_hand(params, b, s, frame, r, c, attn, gdn) {
        lemma_at_hand(params, 5, b, s, frame, r, c, attn, gdn);
        lemma_at_hand(params, 7, b, s, frame, r, c, attn, gdn);
        lemma_at_hand(params, 9, b, s, frame, r, c, attn, gdn);
    }
}

#[verifier::spinoff_prover]
#[verifier::rlimit(100)]
proof fn lemma_ssm_chunk_gated_delta_prefill_batched_state_bf16<R: Resolver>(
    b: BoundView,
    s: LaunchSpecView,
    frame: Frame,
    r: R,
    c: &DispatchCtx,
    attn: Option<&AttnCtx>,
    gdn: Option<&GdnCtx>,
)
    requires
        0 <= b.rows.end - b.rows.start <= i32::MAX,
    ensures
        holds(Entry::SsmChunkGatedDeltaPrefillBatchedStateBf16, b, s, frame, r, c, attn, gdn),
{
    let e = Entry::SsmChunkGatedDeltaPrefillBatchedStateBf16;
    let n = b.args.len() as int;
    let names = stated(e, n, s);
    let params = parameters(e, n, s);
    if takes(e, n, s) && n == 5 {
        lemma_named(names, 0);
        lemma_named(names, 1);
        lemma_named(names, 2);
        lemma_named(names, 3);
        lemma_named(names, 4);
    }
    if takes(e, n, s) && all_at_hand(params, b, s, frame, r, c, attn, gdn) {
        lemma_at_hand(params, 5, b, s, frame, r, c, attn, gdn);
        lemma_at_hand(params, 7, b, s, frame, r, c, attn, gdn);
        lemma_at_hand(params, 9, b, s, frame, r, c, attn, gdn);
    }
}

#[verifier::spinoff_prover]
#[verifier::rlimit(100)]
proof fn lemma_norm_rmsnorm_gated_fp32_in_bf16<R: Resolver>(
    b: BoundView,
    s: LaunchSpecView,
    frame: Frame,
    r: R,
    c: &DispatchCtx,
    attn: Option<&AttnCtx>,
    gdn: Option<&GdnCtx>,
)
    requires
        0 <= b.rows.end - b.rows.start <= i32::MAX,
    ensures
        holds(Entry::NormRmsnormGatedFp32InBf16, b, s, frame, r, c, attn, gdn),
{
    let e = Entry::NormRmsnormGatedFp32InBf16;
    let n = b.args.len() as int;
    let names = stated(e, n, s);
    let params = parameters(e, n, s);
    if takes(e, n, s) && n == 3 {
        lemma_named(names, 0);
        lemma_named(names, 1);
        lemma_named(names, 2);
    }
    if takes(e, n, s) && all_in_32_bits(params, names, b, s, attn, gdn) {
        lemma_in_32_bits(params, 4, names, b, s, attn, gdn);
    }
    if takes(e, n, s) && all_at_hand(params, b, s, frame, r, c, attn, gdn) {
        lemma_at_hand(params, 2, b, s, frame, r, c, attn, gdn);
        lemma_at_hand(params, 4, b, s, frame, r, c, attn, gdn);
    }
}

#[verifier::spinoff_prover]
#[verifier::rlimit(100)]
proof fn lemma_norm_scalar_mul_bf16<R: Resolver>(
    b: BoundView,
    s: LaunchSpecView,
    frame: Frame,
    r: R,
    c: &DispatchCtx,
    attn: Option<&AttnCtx>,
    gdn: Option<&GdnCtx>,
)
    requires
        0 <= b.rows.end - b.rows.start <= i32::MAX,
    ensures
        holds(Entry::NormScalarMulBf16, b, s, frame, r, c, attn, gdn),
{
    let e = Entry::NormScalarMulBf16;
    let n = b.args.len() as int;
    let names = stated(e, n, s);
    let params = parameters(e, n, s);
    if takes(e, n, s) && n == 3 {
        lemma_named(names, 0);
        lemma_named(names, 1);
        lemma_named(names, 2);
    }
    lemma_elements(b);
    reveal_strlit("scale.");
    if let Some(full) = s.weight {
        strings::law_ends_are_ends(full, "scale."@);
    }
    reveal_with_fuel(moves, 3);
    if staged(e, n, s).len() == 1 {
        assert(staged(e, n, s).drop_last() =~= Seq::empty());
    }
    if takes(e, n, s) && all_at_hand(params, b, s, frame, r, c, attn, gdn) {
        lemma_at_hand(params, 1, b, s, frame, r, c, attn, gdn);
    }
}

#[verifier::spinoff_prover]
#[verifier::rlimit(100)]
proof fn lemma_mlp_geglu_tanh_bf16<R: Resolver>(
    b: BoundView,
    s: LaunchSpecView,
    frame: Frame,
    r: R,
    c: &DispatchCtx,
    attn: Option<&AttnCtx>,
    gdn: Option<&GdnCtx>,
)
    requires
        0 <= b.rows.end - b.rows.start <= i32::MAX,
    ensures
        holds(Entry::MlpGegluTanhBf16, b, s, frame, r, c, attn, gdn),
{
    let e = Entry::MlpGegluTanhBf16;
    let n = b.args.len() as int;
    let names = stated(e, n, s);
    let params = parameters(e, n, s);
    if takes(e, n, s) && n == 3 {
        lemma_named(names, 0);
        lemma_named(names, 1);
        lemma_named(names, 2);
    }
    if takes(e, n, s) && all_in_32_bits(params, names, b, s, attn, gdn) {
        lemma_in_32_bits(params, 3, names, b, s, attn, gdn);
    }
    lemma_elements(b);
    reveal_with_fuel(moves, 3);
    if staged(e, n, s).len() == 1 {
        assert(staged(e, n, s).drop_last() =~= Seq::empty());
    }
}

#[verifier::spinoff_prover]
#[verifier::rlimit(100)]
proof fn lemma_attn_logit_softcap_bf16<R: Resolver>(
    b: BoundView,
    s: LaunchSpecView,
    frame: Frame,
    r: R,
    c: &DispatchCtx,
    attn: Option<&AttnCtx>,
    gdn: Option<&GdnCtx>,
)
    requires
        0 <= b.rows.end - b.rows.start <= i32::MAX,
    ensures
        holds(Entry::AttnLogitSoftcapBf16, b, s, frame, r, c, attn, gdn),
{
    let e = Entry::AttnLogitSoftcapBf16;
    let n = b.args.len() as int;
    let names = stated(e, n, s);
    let params = parameters(e, n, s);
    if takes(e, n, s) && n == 2 {
        lemma_named(names, 0);
        lemma_named(names, 1);
    }
    lemma_elements(b);
    reveal_with_fuel(moves, 3);
    if staged(e, n, s).len() == 1 {
        assert(staged(e, n, s).drop_last() =~= Seq::empty());
    }
}

#[verifier::spinoff_prover]
#[verifier::rlimit(100)]
proof fn lemma_attn_qkv_packed_qk_norm_rope_vnorm_write_kv_bf16<R: Resolver>(
    b: BoundView,
    s: LaunchSpecView,
    frame: Frame,
    r: R,
    c: &DispatchCtx,
    attn: Option<&AttnCtx>,
    gdn: Option<&GdnCtx>,
)
    requires
        0 <= b.rows.end - b.rows.start <= i32::MAX,
    ensures
        holds(Entry::AttnQkvPackedQkNormRopeVnormWriteKvBf16, b, s, frame, r, c, attn, gdn),
{
    let e = Entry::AttnQkvPackedQkNormRopeVnormWriteKvBf16;
    let n = b.args.len() as int;
    let names = stated(e, n, s);
    let params = parameters(e, n, s);
    if takes(e, n, s) && n == 4 {
        lemma_named(names, 0);
        lemma_named(names, 1);
        lemma_named(names, 2);
        lemma_named(names, 3);
    }
    if takes(e, n, s) && all_in_32_bits(params, names, b, s, attn, gdn) {
        lemma_in_32_bits(params, 12, names, b, s, attn, gdn);
    }
    lemma_quotients();
    if takes(e, n, s) && all_at_hand(params, b, s, frame, r, c, attn, gdn) {
        lemma_at_hand(params, 2, b, s, frame, r, c, attn, gdn);
    }
}

#[verifier::spinoff_prover]
#[verifier::rlimit(100)]
proof fn lemma_rope_qk_rmsnorm_rope_bf16_rounded<R: Resolver>(
    b: BoundView,
    s: LaunchSpecView,
    frame: Frame,
    r: R,
    c: &DispatchCtx,
    attn: Option<&AttnCtx>,
    gdn: Option<&GdnCtx>,
)
    requires
        0 <= b.rows.end - b.rows.start <= i32::MAX,
    ensures
        holds(Entry::RopeQkRmsnormRopeBf16Rounded, b, s, frame, r, c, attn, gdn),
{
    let e = Entry::RopeQkRmsnormRopeBf16Rounded;
    let n = b.args.len() as int;
    let names = stated(e, n, s);
    let params = parameters(e, n, s);
    if takes(e, n, s) && n == 4 {
        lemma_named(names, 0);
        lemma_named(names, 1);
        lemma_named(names, 2);
        lemma_named(names, 3);
    }
    if takes(e, n, s) && n == 3 {
        lemma_named(names, 0);
        lemma_named(names, 1);
        lemma_named(names, 2);
    }
    if takes(e, n, s) && all_in_32_bits(params, names, b, s, attn, gdn) {
        lemma_in_32_bits(params, 6, names, b, s, attn, gdn);
    }
    lemma_quotients();
    lemma_elements(b);
    reveal_with_fuel(moves, 3);
    if staged(e, n, s).len() == 1 {
        assert(staged(e, n, s).drop_last() =~= Seq::empty());
    }
    if let Ok(action) = dispatch::arm_outcome(e, b, s, frame, r, c, attn, gdn) {
        assert(action.copies =~= moves(b, names, staged(e, n, s)));
    }
    if takes(e, n, s) && all_at_hand(params, b, s, frame, r, c, attn, gdn) {
        lemma_at_hand(params, 8, b, s, frame, r, c, attn, gdn);
    }
}

#[verifier::spinoff_prover]
#[verifier::rlimit(100)]
proof fn lemma_attn_flashinfer_prefill<R: Resolver>(
    b: BoundView,
    s: LaunchSpecView,
    frame: Frame,
    r: R,
    c: &DispatchCtx,
    attn: Option<&AttnCtx>,
    gdn: Option<&GdnCtx>,
)
    requires
        0 <= b.rows.end - b.rows.start <= i32::MAX,
    ensures
        holds(Entry::AttnFlashinferPrefill, b, s, frame, r, c, attn, gdn),
{
    let e = Entry::AttnFlashinferPrefill;
    let n = b.args.len() as int;
    let names = stated(e, n, s);
    let params = parameters(e, n, s);
    if takes(e, n, s) && n == 2 {
        lemma_named(names, 0);
        lemma_named(names, 1);
    }
    if takes(e, n, s) && all_in_32_bits(params, names, b, s, attn, gdn) {
        lemma_in_32_bits(params, 11, names, b, s, attn, gdn);
    }
    lemma_quotients();
    if takes(e, n, s) && all_at_hand(params, b, s, frame, r, c, attn, gdn) {
        lemma_at_hand(params, 1, b, s, frame, r, c, attn, gdn);
    }
}

#[verifier::spinoff_prover]
#[verifier::rlimit(100)]
proof fn lemma_attn_naive_paged<R: Resolver>(
    b: BoundView,
    s: LaunchSpecView,
    frame: Frame,
    r: R,
    c: &DispatchCtx,
    attn: Option<&AttnCtx>,
    gdn: Option<&GdnCtx>,
)
    requires
        0 <= b.rows.end - b.rows.start <= i32::MAX,
    ensures
        holds(Entry::AttnNaivePaged, b, s, frame, r, c, attn, gdn),
{
    let e = Entry::AttnNaivePaged;
    let n = b.args.len() as int;
    let names = stated(e, n, s);
    let params = parameters(e, n, s);
    if takes(e, n, s) && n == 2 {
        lemma_named(names, 0);
        lemma_named(names, 1);
    }
    if takes(e, n, s) && all_in_32_bits(params, names, b, s, attn, gdn) {
        lemma_in_32_bits(params, 10, names, b, s, attn, gdn);
    }
    lemma_quotients();
    if takes(e, n, s) && all_at_hand(params, b, s, frame, r, c, attn, gdn) {
        lemma_at_hand(params, 1, b, s, frame, r, c, attn, gdn);
    }
}

#[verifier::spinoff_prover]
#[verifier::rlimit(100)]
proof fn lemma_layout_transpose_bf16_nld_to_lnd<R: Resolver>(
    b: BoundView,
    s: LaunchSpecView,
    frame: Frame,
    r: R,
    c: &DispatchCtx,
    attn: Option<&AttnCtx>,
    gdn: Option<&GdnCtx>,
)
    requires
        0 <= b.rows.end - b.rows.start <= i32::MAX,
    ensures
        holds(Entry::LayoutTransposeBf16NldToLnd, b, s, frame, r, c, attn, gdn),
{
    let e = Entry::LayoutTransposeBf16NldToLnd;
    let n = b.args.len() as int;
    let names = stated(e, n, s);
    let params = parameters(e, n, s);
    if takes(e, n, s) && n == 2 {
        lemma_named(names, 0);
        lemma_named(names, 1);
    }
    if takes(e, n, s) && all_in_32_bits(params, names, b, s, attn, gdn) {
        lemma_in_32_bits(params, 3, names, b, s, attn, gdn);
    }
    lemma_quotients();
    if takes(e, n, s) && all_at_hand(params, b, s, frame, r, c, attn, gdn) {
        lemma_at_hand(params, 4, b, s, frame, r, c, attn, gdn);
    }
}

#[verifier::spinoff_prover]
#[verifier::rlimit(100)]
proof fn lemma_norm_rmsnorm_residual_add_scale_rmsnorm_bf16<R: Resolver>(
    b: BoundView,
    s: LaunchSpecView,
    frame: Frame,
    r: R,
    c: &DispatchCtx,
    attn: Option<&AttnCtx>,
    gdn: Option<&GdnCtx>,
)
    requires
        0 <= b.rows.end - b.rows.start <= i32::MAX,
    ensures
        holds(Entry::NormRmsnormResidualAddScaleRmsnormBf16, b, s, frame, r, c, attn, gdn),
{
    let e = Entry::NormRmsnormResidualAddScaleRmsnormBf16;
    let n = b.args.len() as int;
    let names = stated(e, n, s);
    let params = parameters(e, n, s);
    if takes(e, n, s) && n == 6 {
        lemma_named(names, 0);
        lemma_named(names, 1);
        lemma_named(names, 2);
        lemma_named(names, 3);
        lemma_named(names, 4);
        lemma_named(names, 5);
    }
    if takes(e, n, s) && all_in_32_bits(params, names, b, s, attn, gdn) {
        lemma_in_32_bits(params, 7, names, b, s, attn, gdn);
    }
    lemma_elements(b);
    if let Some(name) = s.weight {
        strings::law_ends_are_ends(name, "ple_norm"@);
    }
    reveal_with_fuel(moves, 3);
    if staged(e, n, s).len() == 1 {
        assert(staged(e, n, s).drop_last() =~= Seq::empty());
    }
}

#[verifier::spinoff_prover]
#[verifier::rlimit(100)]
proof fn lemma_norm_rmsnorm_residual_add_bf16<R: Resolver>(
    b: BoundView,
    s: LaunchSpecView,
    frame: Frame,
    r: R,
    c: &DispatchCtx,
    attn: Option<&AttnCtx>,
    gdn: Option<&GdnCtx>,
)
    requires
        0 <= b.rows.end - b.rows.start <= i32::MAX,
    ensures
        holds(Entry::NormRmsnormResidualAddBf16, b, s, frame, r, c, attn, gdn),
{
    let e = Entry::NormRmsnormResidualAddBf16;
    let n = b.args.len() as int;
    let names = stated(e, n, s);
    let params = parameters(e, n, s);
    if takes(e, n, s) && n == 4 {
        lemma_named(names, 0);
        lemma_named(names, 1);
        lemma_named(names, 2);
        lemma_named(names, 3);
    }
    if takes(e, n, s) && all_in_32_bits(params, names, b, s, attn, gdn) {
        lemma_in_32_bits(params, 4, names, b, s, attn, gdn);
    }
    lemma_elements(b);
    reveal_with_fuel(moves, 3);
    if staged(e, n, s).len() == 1 {
        assert(staged(e, n, s).drop_last() =~= Seq::empty());
    }
}

#[verifier::spinoff_prover]
#[verifier::rlimit(100)]
proof fn lemma_mlp_chunked_geglu_tanh_bf16<R: Resolver>(
    b: BoundView,
    s: LaunchSpecView,
    frame: Frame,
    r: R,
    c: &DispatchCtx,
    attn: Option<&AttnCtx>,
    gdn: Option<&GdnCtx>,
)
    requires
        0 <= b.rows.end - b.rows.start <= i32::MAX,
    ensures
        holds(Entry::MlpChunkedGegluTanhBf16, b, s, frame, r, c, attn, gdn),
{
    let e = Entry::MlpChunkedGegluTanhBf16;
    let n = b.args.len() as int;
    let names = stated(e, n, s);
    let params = parameters(e, n, s);
    if takes(e, n, s) && n == 2 {
        lemma_named(names, 0);
        lemma_named(names, 1);
    }
    if takes(e, n, s) && all_in_32_bits(params, names, b, s, attn, gdn) {
        lemma_in_32_bits(params, 3, names, b, s, attn, gdn);
    }
}

#[verifier::spinoff_prover]
#[verifier::rlimit(100)]
proof fn lemma_norm_rmsnorm_no_scale_bf16<R: Resolver>(
    b: BoundView,
    s: LaunchSpecView,
    frame: Frame,
    r: R,
    c: &DispatchCtx,
    attn: Option<&AttnCtx>,
    gdn: Option<&GdnCtx>,
)
    requires
        0 <= b.rows.end - b.rows.start <= i32::MAX,
    ensures
        holds(Entry::NormRmsnormNoScaleBf16, b, s, frame, r, c, attn, gdn),
{
    let e = Entry::NormRmsnormNoScaleBf16;
    let n = b.args.len() as int;
    let names = stated(e, n, s);
    let params = parameters(e, n, s);
    if takes(e, n, s) && n == 2 {
        lemma_named(names, 0);
        lemma_named(names, 1);
    }
    if takes(e, n, s) && all_in_32_bits(params, names, b, s, attn, gdn) {
        lemma_in_32_bits(params, 2, names, b, s, attn, gdn);
        lemma_in_32_bits(params, 3, names, b, s, attn, gdn);
    }
    lemma_quotients();
    if let Some(d) = s.per_head_dim {
        if n == 2 && d > 0 {
            let w = b.args[0].width as int;
            assert(goes_into(w / d as int, w, d as int));
        }
    }
}

/// Every entry keeps to its signature.
proof fn lemma_every_entry<R: Resolver>(
    e: Entry,
    b: BoundView,
    s: LaunchSpecView,
    frame: Frame,
    r: R,
    c: &DispatchCtx,
    attn: Option<&AttnCtx>,
    gdn: Option<&GdnCtx>,
)
    requires
        0 <= b.rows.end - b.rows.start <= i32::MAX,
    ensures
        holds(e, b, s, frame, r, c, attn, gdn),
{
    match e {
        Entry::LayoutEmbedBf16 => lemma_layout_embed_bf16(b, s, frame, r, c, attn, gdn),
        Entry::RopeStandardTable => lemma_rope_standard_table(b, s, frame, r, c, attn, gdn),
        Entry::NormRmsnormBf16 => lemma_norm_rmsnorm_bf16(b, s, frame, r, c, attn, gdn),
        Entry::GemmActXW => lemma_gemm_act_x_w(b, s, frame, r, c, attn, gdn),
        Entry::MlpChunkedSwigluBf16 => lemma_mlp_chunked_swiglu_bf16(b, s, frame, r, c, attn, gdn),
        Entry::AttnQkvDecodeQkNormRopeWriteKvBf16 => lemma_attn_qkv_decode_qk_norm_rope_write_kv_bf16(b, s, frame, r, c, attn, gdn),
        Entry::AttnDispatchFlashinferDecode => lemma_attn_dispatch_flashinfer_decode(b, s, frame, r, c, attn, gdn),
        Entry::AttnSplitQkvBf16 => lemma_attn_split_qkv_bf16(b, s, frame, r, c, attn, gdn),
        Entry::RopeQkRmsnormRopeBf16 => lemma_rope_qk_rmsnorm_rope_bf16(b, s, frame, r, c, attn, gdn),
        Entry::AttnWriteKvToPages => lemma_attn_write_kv_to_pages(b, s, frame, r, c, attn, gdn),
        Entry::AttnDequantKvCacheLayerToBf16Active => lemma_attn_dequant_kv_cache_layer_to_bf16_active(b, s, frame, r, c, attn, gdn),
        Entry::AttnDispatchFlashinferPrefillBf16 => lemma_attn_dispatch_flashinfer_prefill_bf16(b, s, frame, r, c, attn, gdn),
        Entry::RopeRopeBf16 => lemma_rope_rope_bf16(b, s, frame, r, c, attn, gdn),
        Entry::NormResidualAddBf16 => lemma_norm_residual_add_bf16(b, s, frame, r, c, attn, gdn),
        Entry::NormAddBiasBf16 => lemma_norm_add_bias_bf16(b, s, frame, r, c, attn, gdn),
        Entry::NormRmsnormGemmaBf16 => lemma_norm_rmsnorm_gemma_bf16(b, s, frame, r, c, attn, gdn),
        Entry::RopeRopePartialBf16 => lemma_rope_rope_partial_bf16(b, s, frame, r, c, attn, gdn),
        Entry::LayoutSplitQGateBf16 => lemma_layout_split_q_gate_bf16(b, s, frame, r, c, attn, gdn),
        Entry::MlpSigmoidGateInplaceBf16 => lemma_mlp_sigmoid_gate_inplace_bf16(b, s, frame, r, c, attn, gdn),
        Entry::SsmCausalConv1dUpdateBatchedBf16 => lemma_ssm_causal_conv1d_update_batched_bf16(b, s, frame, r, c, attn, gdn),
        Entry::SsmCausalConv1dPrefillBatchedBf16 => lemma_ssm_causal_conv1d_prefill_batched_bf16(b, s, frame, r, c, attn, gdn),
        Entry::SsmQwenGdnPostConvPrepBf16 => lemma_ssm_qwen_gdn_post_conv_prep_bf16(b, s, frame, r, c, attn, gdn),
        Entry::SsmRecurrentGatedDeltaStepBatchedStateBf16 => lemma_ssm_recurrent_gated_delta_step_batched_state_bf16(b, s, frame, r, c, attn, gdn),
        Entry::SsmChunkGatedDeltaPrefillBatched => lemma_ssm_chunk_gated_delta_prefill_batched(b, s, frame, r, c, attn, gdn),
        Entry::SsmChunkGatedDeltaPrefillBatchedStateBf16 => lemma_ssm_chunk_gated_delta_prefill_batched_state_bf16(b, s, frame, r, c, attn, gdn),
        Entry::NormRmsnormGatedFp32InBf16 => lemma_norm_rmsnorm_gated_fp32_in_bf16(b, s, frame, r, c, attn, gdn),
        Entry::NormScalarMulBf16 => lemma_norm_scalar_mul_bf16(b, s, frame, r, c, attn, gdn),
        Entry::MlpGegluTanhBf16 => lemma_mlp_geglu_tanh_bf16(b, s, frame, r, c, attn, gdn),
        Entry::AttnLogitSoftcapBf16 => lemma_attn_logit_softcap_bf16(b, s, frame, r, c, attn, gdn),
        Entry::AttnQkvPackedQkNormRopeVnormWriteKvBf16 => lemma_attn_qkv_packed_qk_norm_rope_vnorm_write_kv_bf16(b, s, frame, r, c, attn, gdn),
        Entry::RopeQkRmsnormRopeBf16Rounded => lemma_rope_qk_rmsnorm_rope_bf16_rounded(b, s, frame, r, c, attn, gdn),
        Entry::AttnFlashinferPrefill => lemma_attn_flashinfer_prefill(b, s, frame, r, c, attn, gdn),
        Entry::AttnNaivePaged => lemma_attn_naive_paged(b, s, frame, r, c, attn, gdn),
        Entry::LayoutTransposeBf16NldToLnd => lemma_layout_transpose_bf16_nld_to_lnd(b, s, frame, r, c, attn, gdn),
        Entry::NormRmsnormResidualAddScaleRmsnormBf16 => lemma_norm_rmsnorm_residual_add_scale_rmsnorm_bf16(b, s, frame, r, c, attn, gdn),
        Entry::NormRmsnormResidualAddBf16 => lemma_norm_rmsnorm_residual_add_bf16(b, s, frame, r, c, attn, gdn),
        Entry::MlpChunkedGegluTanhBf16 => lemma_mlp_chunked_geglu_tanh_bf16(b, s, frame, r, c, attn, gdn),
        Entry::NormRmsnormNoScaleBf16 => lemma_norm_rmsnorm_no_scale_bf16(b, s, frame, r, c, attn, gdn),
    }
}

/// A dispatched launch calls its kernel's entry with, at each parameter, what
/// that parameter is for, behind the copies that stage what the kernel works on
/// in place.
pub proof fn law_each_parameter_gets_what_it_is_for<R: Resolver>(
    e: Entry,
    b: BoundView,
    s: LaunchSpecView,
    frame: Frame,
    r: R,
    c: &DispatchCtx,
    attn: Option<&AttnCtx>,
    gdn: Option<&GdnCtx>,
)
    requires
        symbols::symbol_of(e) == b.kernel,
        0 <= b.rows.end - b.rows.start <= i32::MAX,
        dispatch::dispatched(b, s, frame, r, c, attn, gdn) is Ok,
    ensures
        ({
            let n = b.args.len() as int;
            let action = dispatch::dispatched(b, s, frame, r, c, attn, gdn)->Ok_0;
            let names = stated(e, n, s);
            &&& action.entry == e
            &&& action.operands.len() == parameters(e, n, s).len()
            &&& forall|i: int|
                0 <= i < action.operands.len() ==> plays(
                    parameters(e, n, s)[i],
                    #[trigger] action.operands[i],
                    names,
                    b,
                    s,
                    frame,
                    r,
                    c,
                    attn,
                    gdn,
                )
            &&& action.copies == moves(b, names, staged(e, n, s))
        }),
{
    symbols::law_symbol_names_its_entry(e);
    lemma_every_entry(e, b, s, frame, r, c, attn, gdn);
    let n = b.args.len() as int;
    let action = dispatch::dispatched(b, s, frame, r, c, attn, gdn)->Ok_0;
    assert forall|i: int| 0 <= i < action.operands.len() implies plays(
        parameters(e, n, s)[i],
        #[trigger] action.operands[i],
        stated(e, n, s),
        b,
        s,
        frame,
        r,
        c,
        attn,
        gdn,
    ) by {
        assert(plays(
            parameters(e, n, s)[i],
            action.operands[i],
            stated(e, n, s),
            b,
            s,
            frame,
            r,
            c,
            attn,
            gdn,
        ));
    }
}

/// A launch is dispatched exactly where it states as many operands as its
/// kernel takes and everything its kernel's parameters are for is at hand; and
/// where it is refused, the refusal says what is so.
pub proof fn law_a_launch_is_dispatched_where_all_is_at_hand<R: Resolver>(
    e: Entry,
    b: BoundView,
    s: LaunchSpecView,
    frame: Frame,
    r: R,
    c: &DispatchCtx,
    attn: Option<&AttnCtx>,
    gdn: Option<&GdnCtx>,
)
    requires
        symbols::symbol_of(e) == b.kernel,
        0 <= b.rows.end - b.rows.start <= i32::MAX,
    ensures
        dispatch::dispatched(b, s, frame, r, c, attn, gdn) is Ok <==> takes(
            e,
            b.args.len() as int,
            s,
        ) && all_at_hand(
            parameters(e, b.args.len() as int, s),
            b,
            s,
            frame,
            r,
            c,
            attn,
            gdn,
        ),
        dispatch::dispatched(b, s, frame, r, c, attn, gdn) matches Err(refusal) ==> is_true(
            refusal,
            e,
            b,
            s,
            frame,
            r,
            c,
            attn,
            gdn,
        ),
{
    symbols::law_symbol_names_its_entry(e);
    lemma_every_entry(e, b, s, frame, r, c, attn, gdn);
}

/// A launch of as many operands as its kernel takes fits exactly where every
/// count that its kernel's parameters are for is a 32-bit count.
pub proof fn law_a_launch_fits_where_its_counts_do(
    e: Entry,
    b: BoundView,
    s: LaunchSpecView,
    attn: Option<&AttnCtx>,
    gdn: Option<&GdnCtx>,
)
    requires
        symbols::symbol_of(e) == b.kernel,
        takes(e, b.args.len() as int, s),
    ensures
        fits::within(b, s, attn, gdn) <==> 0 <= b.rows.end - b.rows.start <= i32::MAX
            && all_in_32_bits(
            parameters(e, b.args.len() as int, s),
            stated(e, b.args.len() as int, s),
            b,
            s,
            attn,
            gdn,
        ),
{
    symbols::law_symbol_names_its_entry(e);
    if 0 <= b.rows.end - b.rows.start <= i32::MAX {
        let frame: Frame = arbitrary();
        let r: MapResolver = arbitrary();
        let c: &DispatchCtx = arbitrary();
        lemma_every_entry(e, b, s, frame, r, c, attn, gdn);
    }
}

/// The key is written where keys are read, and the value where values are: a
/// launch that appends a token's key and value hands the first operand it
/// states to the entry's key and the second to its value.
pub proof fn law_the_key_goes_to_the_key_pages<R: Resolver>(
    b: BoundView,
    s: LaunchSpecView,
    frame: Frame,
    r: R,
    c: &DispatchCtx,
    attn: Option<&AttnCtx>,
    gdn: Option<&GdnCtx>,
)
    requires
        b.kernel == "attn::write_kv_to_pages"@,
        b.args.len() == 2,
        attn is Some,
        b.layers.start < attn->Some_0.layers@.len(),
        0 <= b.rows.end - b.rows.start <= i32::MAX,
    ensures
        dispatch::dispatched(b, s, frame, r, c, attn, gdn) matches Ok(action) && {
            &&& action.operands[0] == Operand::Layer(
                attn->Some_0.layers@[b.layers.start as int],
            )
            &&& action.operands[1] == Operand::Addr(b.args[0].ptr)
            &&& action.operands[2] == Operand::Addr(b.args[1].ptr)
        },
{
    symbols::law_symbol_names_its_entry(Entry::AttnWriteKvToPages);
}

} // verus!
