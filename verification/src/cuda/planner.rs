//! The attention planners' calls.
//!
//! A plan cache is an opaque handle made and destroyed by its own factory.
//! What is decided here is what one planning call hands the planner: the
//! request and token counts come from the fire's host CSRs.

use crate::cuda::action::{Operand, Operands};
use crate::cuda::launch::AttentionWorkspaceView;
use vstd::prelude::*;

verus! {

/// The decode plan cache's handle.
#[derive(Debug, PartialEq, Eq)]
pub struct DecodePlan {
    cache: u64,
}

/// The prefill plan cache's handle.
#[derive(Debug, PartialEq, Eq)]
pub struct PrefillPlan {
    cache: u64,
}

/// One planner call: the cache comes first, then the host arrays, then the
/// rest in order.
#[derive(Debug)]
pub struct PlannerCall<'a> {
    /// The plan cache.
    pub cache: u64,
    /// The host arrays the planner reads.
    pub arrays: Vec<&'a [u32]>,
    /// The operands that follow the host arrays.
    pub operands: Vec<Operand>,
}

/// A CSR states at least one boundary, and its requests are a planner's 32-bit
/// count.
pub open spec fn is_indptr(indptr: Seq<u32>) -> bool {
    1 <= indptr.len() <= i32::MAX + 1
}

/// What a planner's parameter is for, behind its host arrays.
pub enum PlanParam {
    /// The tokens planned for.
    Tokens,
    /// The requests planned for.
    Requests,
    /// The model's query heads.
    QueryHeads,
    /// The model's key and value heads.
    KvHeads,
    /// The width of a head.
    HeadDim,
    /// The tokens of a page.
    PageSize,
    /// The workspace the plan sits in.
    Workspace,
    /// The stream it is staged on.
    Stream,
    /// Whether a graph captures it.
    CudaGraph,
    /// The sliding window.
    Window,
    /// A choice the driver leaves off.
    Off,
    /// A choice the driver turns on.
    On,
}

/// What one planning is of.
pub struct Planned {
    pub tokens: int,
    pub requests: int,
    pub query_heads: i32,
    pub kv_heads: i32,
    pub head_dim: i32,
    pub page_size: i32,
    pub workspace: AttentionWorkspaceView,
    pub stream: u64,
    pub cuda_graph: bool,
    pub window: i32,
}

/// The decode planner's parameters.
pub open spec fn decode_parameters() -> Seq<PlanParam> {
    seq![
        PlanParam::Requests,
        PlanParam::QueryHeads,
        PlanParam::KvHeads,
        PlanParam::HeadDim,
        PlanParam::PageSize,
        PlanParam::Workspace,
        PlanParam::Stream,
        PlanParam::CudaGraph,
        PlanParam::Off,
        PlanParam::Off,
        PlanParam::Window,
    ]
}

/// The prefill planner's parameters.
pub open spec fn prefill_parameters() -> Seq<PlanParam> {
    seq![
        PlanParam::Tokens,
        PlanParam::Requests,
        PlanParam::QueryHeads,
        PlanParam::KvHeads,
        PlanParam::HeadDim,
        PlanParam::PageSize,
        PlanParam::Workspace,
        PlanParam::Stream,
        PlanParam::CudaGraph,
        PlanParam::Window,
        PlanParam::Off,
        PlanParam::Off,
        PlanParam::On,
        PlanParam::Off,
        PlanParam::Off,
    ]
}

/// An operand is what its parameter is for.
pub open spec fn plays(p: PlanParam, op: Operand, of: Planned) -> bool {
    match p {
        PlanParam::Tokens => op matches Operand::Int(n) && n == of.tokens,
        PlanParam::Requests => op matches Operand::Int(n) && n == of.requests,
        PlanParam::QueryHeads => op == Operand::Int(of.query_heads),
        PlanParam::KvHeads => op == Operand::Int(of.kv_heads),
        PlanParam::HeadDim => op == Operand::Int(of.head_dim),
        PlanParam::PageSize => op == Operand::Int(of.page_size),
        PlanParam::Workspace => op == Operand::Workspace(of.workspace),
        PlanParam::Stream => op == Operand::Addr(of.stream),
        PlanParam::CudaGraph => op == Operand::Flag(of.cuda_graph),
        PlanParam::Window => op == Operand::Int(of.window),
        PlanParam::Off => op == Operand::Flag(false),
        PlanParam::On => op == Operand::Flag(true),
    }
}

/// Every parameter of a planner gets what it is for.
pub open spec fn all_play(params: Seq<PlanParam>, ops: Seq<Operand>, of: Planned) -> bool {
    &&& ops.len() == params.len()
    &&& forall|i: int| 0 <= i < params.len() ==> plays(params[i], #[trigger] ops[i], of)
}

impl DecodePlan {
    /// The handle.
    pub closed spec fn handle(&self) -> u64 {
        self.cache
    }

    /// Own a fresh, unplanned cache.
    pub fn new(cache: u64) -> (plan: Self)
        requires
            cache != 0,
        ensures
            plan.handle() == cache,
    {
        DecodePlan { cache }
    }

    /// The raw handle a dispatch arm passes.
    pub fn as_ptr(&self) -> (cache: u64)
        ensures
            cache == self.handle(),
    {
        self.cache
    }

    /// The decode planner's call over the fire's host page indptr: one request
    /// per pair of neighbouring boundaries.
    pub fn plan_decode<'a>(
        &mut self,
        kv_page_indptr_h: &'a [u32],
        num_q_heads: i32,
        num_kv_heads: i32,
        head_dim: i32,
        page_size: i32,
        workspace: AttentionWorkspaceView,
        stream: u64,
        enable_cuda_graph: bool,
        window_left: i32,
    ) -> (call: PlannerCall<'a>)
        requires
            is_indptr(kv_page_indptr_h@),
        ensures
            final(self).handle() == old(self).handle(),
            call.cache == old(self).handle(),
            call.arrays@ == Seq::<&[u32]>::empty().push(kv_page_indptr_h),
            call.operands@ == Seq::<Operand>::empty()
                .push(Operand::Int((kv_page_indptr_h@.len() - 1) as i32))
                .push(Operand::Int(num_q_heads))
                .push(Operand::Int(num_kv_heads))
                .push(Operand::Int(head_dim))
                .push(Operand::Int(page_size))
                .push(Operand::Workspace(workspace))
                .push(Operand::Addr(stream))
                .push(Operand::Flag(enable_cuda_graph))
                .push(Operand::Flag(false))
                .push(Operand::Flag(false))
                .push(Operand::Int(window_left)),
            all_play(
                decode_parameters(),
                call.operands@,
                (Planned {
                    tokens: 0int,
                    requests: kv_page_indptr_h@.len() - 1,
                    query_heads: num_q_heads,
                    kv_heads: num_kv_heads,
                    head_dim,
                    page_size,
                    workspace,
                    stream,
                    cuda_graph: enable_cuda_graph,
                    window: window_left,
                }),
            ),
    {
        let num_requests: i32 = (kv_page_indptr_h.len() - 1) as i32;
        let ops = Operands::new()
            .num(num_requests)
            .num(num_q_heads)
            .num(num_kv_heads)
            .num(head_dim)
            .num(page_size)
            .with(Operand::Workspace(workspace))
            .addr(stream)
            .flag(enable_cuda_graph)
            .flag(false)
            .flag(false)
            .num(window_left);
        let mut arrays: Vec<&'a [u32]> = Vec::new();
        arrays.push(kv_page_indptr_h);
        PlannerCall { cache: self.cache, arrays, operands: ops.list }
    }
}

impl PrefillPlan {
    /// The handle.
    pub closed spec fn handle(&self) -> u64 {
        self.cache
    }

    /// Own a fresh, unplanned cache.
    pub fn new(cache: u64) -> (plan: Self)
        requires
            cache != 0,
        ensures
            plan.handle() == cache,
    {
        PrefillPlan { cache }
    }

    /// The raw handle a dispatch arm passes.
    pub fn as_ptr(&self) -> (cache: u64)
        ensures
            cache == self.handle(),
    {
        self.cache
    }

    /// The prefill planner's call over the fire's host CSRs: one request per
    /// pair of neighbouring query boundaries, and as many tokens as the last
    /// boundary states.
    pub fn plan_prefill<'a>(
        &mut self,
        qo_indptr_h: &'a [u32],
        kv_page_indptr_h: &'a [u32],
        kv_last_page_lens_h: &'a [u32],
        num_q_heads: i32,
        num_kv_heads: i32,
        head_dim: i32,
        page_size: i32,
        workspace: AttentionWorkspaceView,
        stream: u64,
        enable_cuda_graph: bool,
        window_left: i32,
    ) -> (call: PlannerCall<'a>)
        requires
            is_indptr(qo_indptr_h@),
            qo_indptr_h@.last() <= i32::MAX,
        ensures
            final(self).handle() == old(self).handle(),
            call.cache == old(self).handle(),
            call.arrays@ == Seq::<&[u32]>::empty()
                .push(qo_indptr_h)
                .push(kv_page_indptr_h)
                .push(kv_last_page_lens_h),
            call.operands@ == Seq::<Operand>::empty()
                .push(Operand::Int(qo_indptr_h@.last() as i32))
                .push(Operand::Int((qo_indptr_h@.len() - 1) as i32))
                .push(Operand::Int(num_q_heads))
                .push(Operand::Int(num_kv_heads))
                .push(Operand::Int(head_dim))
                .push(Operand::Int(page_size))
                .push(Operand::Workspace(workspace))
                .push(Operand::Addr(stream))
                .push(Operand::Flag(enable_cuda_graph))
                .push(Operand::Int(window_left))
                .push(Operand::Flag(false))
                .push(Operand::Flag(false))
                .push(Operand::Flag(true))
                .push(Operand::Flag(false))
                .push(Operand::Flag(false)),
            all_play(
                prefill_parameters(),
                call.operands@,
                (Planned {
                    tokens: qo_indptr_h@.last() as int,
                    requests: qo_indptr_h@.len() - 1,
                    query_heads: num_q_heads,
                    kv_heads: num_kv_heads,
                    head_dim,
                    page_size,
                    workspace,
                    stream,
                    cuda_graph: enable_cuda_graph,
                    window: window_left,
                }),
            ),
    {
        let last: usize = qo_indptr_h.len() - 1;
        let ops = Operands::new()
            .num(qo_indptr_h[last] as i32)
            .num(last as i32)
            .num(num_q_heads)
            .num(num_kv_heads)
            .num(head_dim)
            .num(page_size)
            .with(Operand::Workspace(workspace))
            .addr(stream)
            .flag(enable_cuda_graph)
            .num(window_left)
            .flag(false)
            .flag(false)
            .flag(true)
            .flag(false)
            .flag(false);
        let mut arrays: Vec<&'a [u32]> = Vec::new();
        arrays.push(qo_indptr_h);
        arrays.push(kv_page_indptr_h);
        arrays.push(kv_last_page_lens_h);
        PlannerCall { cache: self.cache, arrays, operands: ops.list }
    }
}

} // verus!
