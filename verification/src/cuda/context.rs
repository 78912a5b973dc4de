//! What a fire hands its dispatch arms beside the launch itself.
//!
//! Addresses are plain numbers, zero for none. A 32-bit float is carried as
//! its IEEE 754 bits: no arm computes with one, it is only handed on.

use crate::cuda::launch::{AttentionWorkspaceView, KvCacheLayerView};
use crate::cuda::resolver::NameTable;
use vstd::prelude::*;

verus! {

/// The bits of the float one.
pub const F32_ONE: u32 = 0x3f80_0000;

/// The bits of the float zero.
pub const F32_ZERO: u32 = 0;

/// The frame's activation arena: one device block, allocated per fire or
/// reused across them.
#[derive(Clone, Copy, Debug, PartialEq, Eq, Structural)]
pub struct Frame {
    /// Device base of the arena.
    pub arena: u64,
    /// Its extent. Offsets are checked against it, because an arena reused
    /// across fires can be smaller than the new fire needs.
    pub arena_bytes: usize,
}

/// The deployment's constants and the fire's handles.
#[derive(Clone, Debug)]
pub struct DispatchCtx {
    /// The fire's stream.
    pub stream: u64,
    /// The matrix-multiply library's handle.
    pub cublas: u64,
    /// RMS norm epsilon (float bits).
    pub rms_eps: u32,
    /// Rotation theta, for the table fill (float bits).
    pub rope_theta: u32,
    /// Head width, for the table fill.
    pub head_dim: i32,
    /// Vocabulary rows the embedding holds.
    pub vocab: i32,
    /// The packed gate and up order the chunked activation was bound with.
    pub gate_second: bool,
    /// Adjacent-pair rotation rather than half and half.
    pub rope_interleaved: bool,
    /// The fire's token ids (device, one per row).
    pub token_ids: u64,
    /// The fire's positions (device, one per row).
    pub positions: u64,
    /// The final logit softcap (float bits).
    pub final_logit_softcap: u32,
    /// The per-layer embedding width; zero on families without one.
    pub ple_dim: i32,
    /// The scalar constants launches name (float bits).
    pub scales: NameTable<u32>,
}

/// The fire's attention context.
#[derive(Clone, Debug)]
pub struct AttnCtx {
    /// The planned decode cache's handle. Zero on a pure-prefill fire.
    pub decode_plan: u64,
    /// The planned prefill cache's handle. Zero on a pure-decode fire.
    pub prefill_plan: u64,
    /// The workspace, as launchers take it.
    pub workspace: AttentionWorkspaceView,
    /// One KV view per layer, indexed by the launch's layer.
    pub layers: Vec<KvCacheLayerView>,
    /// Device page-index CSR.
    pub kv_page_indices_d: u64,
    /// Device page indptr.
    pub kv_page_indptr_d: u64,
    /// Device last-page lengths.
    pub kv_last_page_lens_d: u64,
    /// Device query indptr.
    pub qo_indptr_d: u64,
    /// Host query indptr, for the planless dispatch.
    pub qo_indptr_h: u64,
    /// Host page indptr, the planless dispatch's other host read.
    pub kv_page_indptr_h: u64,
    /// Requests in the fire.
    pub num_requests: i32,
    /// Pages the fire's CSR names.
    pub num_pages_in_batch: i32,
    /// The fire's write origin.
    pub first_token: i32,
    /// Per-row target page for the append.
    pub w_page_d: u64,
    /// Per-row offset in the page for the append.
    pub w_off_d: u64,
    /// Per-row validity for the append.
    pub row_valid_d: u64,
    /// The observed-query pin the fused projection writes.
    pub q_out: u64,
    /// The attention output slot, for a launch that records none.
    pub o_out: u64,
    /// Scratch the decode dispatch writes.
    pub lse_out_d: u64,
    /// Sliding-window extent, `-1` for none.
    pub window_left: i32,
    /// Per-layer window extents; a layer past its end takes
    /// [`Self::window_left`].
    pub window_left_by_layer: Vec<i32>,
    /// Logit soft cap (float bits), zero for none.
    pub logits_soft_cap: u32,
    /// The attention scale (float bits).
    pub sm_scale: u32,
}

/// The fire's linear-attention context.
#[derive(Clone, Debug)]
pub struct GdnCtx {
    /// Key heads, before any repeat.
    pub k_h: i32,
    /// Value heads.
    pub v_h: i32,
    /// Key head width.
    pub k_d: i32,
    /// Value head width.
    pub v_d: i32,
    /// Convolution channels.
    pub conv_dim: i32,
    /// Convolution window width.
    pub conv_k: i32,
    /// Device base of each model layer's convolution slab; zero for a layer
    /// with no linear-attention state.
    pub conv_state: Vec<u64>,
    /// Elements per convolution slot.
    pub conv_stride_elems: i64,
    /// Device base of each model layer's recurrent slab; zero for a layer with
    /// no linear-attention state.
    pub recurrent_state: Vec<u64>,
    /// Elements per recurrent slot.
    pub state_stride_elems: i64,
    /// Device request-to-slot ids.
    pub slot_ids_d: u64,
    /// Whether this fire advances state.
    pub write_state: bool,
}

} // verus!
