//! Captured graphs, launch records and the attention planners.

use pie_driver::cuda::action::Operand;
use pie_driver::cuda::launch::{AttentionWorkspaceView, DType, KvCacheLayerView, KvCacheScheme};
use pie_driver::cuda::planner::{DecodePlan, PrefillPlan};
use pie_driver::cuda::supergraph::{BucketKey, GraphExec, SupergraphCache};
use pie_driver::cuda::trace::FireClass;

#[test]
fn variant_bits_are_not_in_the_key() {
    let a = BucketKey::new(4, 4, FireClass::Decode, 7);
    let b = BucketKey::new(4, 4, FireClass::Decode, 7);
    assert_eq!(a, b);
}

#[test]
fn the_shape_axes_are() {
    let base = BucketKey::new(4, 4, FireClass::Decode, 7);
    assert_ne!(base, BucketKey::new(5, 4, FireClass::Decode, 7));
    assert_ne!(base, BucketKey::new(4, 8, FireClass::Decode, 7));
    assert_ne!(base, BucketKey::new(4, 4, FireClass::Prefill, 7));
    assert_ne!(base, BucketKey::new(4, 4, FireClass::Decode, 8));
}

#[test]
fn a_miss_is_not_an_error() {
    let mut c = SupergraphCache::new();
    assert!(c.is_empty());
    assert!(c.get(BucketKey::new(1, 1, FireClass::Decode, 0)).is_none());
    assert_eq!(c.stats(), (0, 1));
}

#[test]
fn a_bucket_holds_the_exec_it_was_last_given() {
    let mut c = SupergraphCache::new();
    let k = BucketKey::new(2, 2, FireClass::Decode, 1);
    let other = BucketKey::new(2, 2, FireClass::Prefill, 1);
    assert_eq!(c.insert(k, GraphExec { handle: 10 }), None);
    assert_eq!(c.insert(other, GraphExec { handle: 11 }), None);
    assert_eq!(
        c.insert(k, GraphExec { handle: 12 }),
        Some(GraphExec { handle: 10 }),
        "the replaced exec is the caller's to release"
    );
    assert_eq!(c.len(), 2, "captured again is captured once");
    assert!(!c.is_empty());
    assert_eq!(c.get(k), Some(&GraphExec { handle: 12 }));
    assert_eq!(c.replay(other), Some(GraphExec { handle: 11 }));
    assert_eq!(c.replay(BucketKey::new(3, 2, FireClass::Decode, 1)), None);
    assert_eq!(c.stats(), (2, 1));
}

#[test]
fn a_default_cache_is_empty() {
    let c = SupergraphCache::default();
    assert!(c.is_empty());
    assert_eq!(c.stats(), (0, 0));
}

fn workspace() -> AttentionWorkspaceView {
    AttentionWorkspaceView {
        float_buffer: 200,
        float_bytes: 64,
        int_buffer: 201,
        int_bytes: 32,
        page_locked_int: 202,
    }
}

fn view() -> KvCacheLayerView {
    KvCacheLayerView {
        layer: 0,
        source_layer: 0,
        num_pages: 4,
        page_size: 16,
        num_kv_heads: 2,
        head_dim: 64,
        scheme: KvCacheScheme::Native,
        storage_dtype: DType::Bf16,
        block_size: 0,
        k_pages: 0,
        v_pages: 0,
        k_scales: 0,
        v_scales: 0,
        k_bf16_pages: 0,
        v_bf16_pages: 0,
        k_env_min: 0,
        k_env_max: 0,
        hnd_layout: false,
        native_bf16: true,
    }
}

#[test]
fn a_view_is_a_borrow_and_owns_nothing() {
    let v = view();
    let copy = v;
    assert_eq!(copy.num_pages, 4);
    assert!(copy.is_native_bf16());
}

#[test]
fn one_envelope_plane_is_not_envelopes() {
    let mut v = KvCacheLayerView {
        num_pages: 1,
        page_size: 1,
        num_kv_heads: 1,
        head_dim: 1,
        ..view()
    };
    assert!(!v.has_envelopes());
    v.k_env_min = 0x40;
    assert!(!v.has_envelopes(), "one plane is not enough");
    v.k_env_max = 0x40;
    assert!(v.has_envelopes());
}

#[test]
fn the_schemes_are_in_the_launchers_order() {
    assert_eq!(KvCacheScheme::Native as u8, 0);
    assert_eq!(KvCacheScheme::Fp8PerTensor as u8, 1);
    assert_eq!(KvCacheScheme::Int8PerTokenHead as u8, 2);
    assert_eq!(KvCacheScheme::Fp8PerTokenHead as u8, 3);
    assert_eq!(KvCacheScheme::Fp4Block as u8, 4);
}

#[test]
fn the_decode_planner_plans_one_request_per_span() {
    let mut plan = DecodePlan::new(77);
    assert_eq!(plan.as_ptr(), 77);
    let indptr = [0u32, 2, 5];
    let call = plan.plan_decode(
        &indptr,
        16,
        4,
        128,
        16,
        workspace(),
        9,
        true,
        -1,
    );
    assert_eq!(call.cache, 77);
    assert_eq!(call.arrays, vec![&indptr[..]]);
    assert_eq!(
        call.operands,
        vec![
            Operand::Int(2),
            Operand::Int(16),
            Operand::Int(4),
            Operand::Int(128),
            Operand::Int(16),
            Operand::Workspace(workspace()),
            Operand::Addr(9),
            Operand::Flag(true),
            Operand::Flag(false),
            Operand::Flag(false),
            Operand::Int(-1),
        ]
    );
}

#[test]
fn the_prefill_planner_counts_tokens_off_the_last_boundary() {
    let mut plan = PrefillPlan::new(78);
    let qo = [0u32, 3, 10];
    let pages = [0u32, 1, 2];
    let last = [3u32, 7];
    let call = plan.plan_prefill(
        &qo,
        &pages,
        &last,
        16,
        4,
        128,
        16,
        workspace(),
        9,
        false,
        64,
    );
    assert_eq!((plan.as_ptr(), call.cache), (78, 78));
    assert_eq!(call.arrays, vec![&qo[..], &pages[..], &last[..]]);
    assert_eq!(call.operands[0], Operand::Int(10));
    assert_eq!(call.operands[1], Operand::Int(2));
    assert_eq!(call.operands[9], Operand::Int(64));
    assert_eq!(call.operands[12], Operand::Flag(true));
    assert_eq!(call.operands.len(), 15);
}
