//! Binding, dispatching and walking a fire.

use pie_driver::cuda::action::{DispatchAction, DispatchRefusal, Entry, Operand, StageCopy};
use pie_driver::cuda::arm::unknown_weight_text;
use pie_driver::cuda::bind::{bind, resolve_arg, BindRefusal, BoundArg, BoundLaunch, CONSTANT_SLOT};
use pie_driver::cuda::context::{AttnCtx, DispatchCtx, Frame, GdnCtx, F32_ONE, F32_ZERO};
use pie_driver::cuda::dispatch::dispatch;
use pie_driver::cuda::fits::fits;
use pie_driver::cuda::launch::{AttentionWorkspaceView, DType, KvCacheLayerView, KvCacheScheme};
use pie_driver::cuda::plan::{DispatchPlan, LaunchSpec};
use pie_driver::cuda::resolver::{MapResolver, NameTable, Resolver};
use pie_driver::cuda::run::{launch_at, run, RunRefusalKind};
use pie_driver::cuda::trace::{
    Arg, Dim, ForwardPlan, GuardArm, Launch, Lowered, Op, OpKind, StateRef, Value, NAMED,
};

const FRAME: Frame = Frame {
    arena: 0x10000,
    arena_bytes: 4096,
};

/// Binds the seam value and holds no weight at all.
fn no_weights() -> MapResolver {
    let mut store = MapResolver::new();
    store.insert_named(9, 0x2000);
    store
}

fn ctx() -> DispatchCtx {
    let mut scales = NameTable::new();
    scales.insert("embed".to_string(), 0x4200_0000);
    scales.insert("layer.0.ple_norm".to_string(), 0x4000_0000);
    DispatchCtx {
        stream: 1,
        cublas: 2,
        rms_eps: 3,
        rope_theta: 4,
        head_dim: 64,
        vocab: 1000,
        gate_second: true,
        rope_interleaved: false,
        token_ids: 5,
        positions: 6,
        final_logit_softcap: 7,
        ple_dim: 0,
        scales,
    }
}

fn layer() -> KvCacheLayerView {
    KvCacheLayerView {
        layer: 0,
        source_layer: 0,
        num_pages: 4,
        page_size: 16,
        num_kv_heads: 2,
        head_dim: 64,
        scheme: KvCacheScheme::Native,
        storage_dtype: DType::Bf16,
        block_size: 0,
        k_pages: 100,
        v_pages: 101,
        k_scales: 0,
        v_scales: 0,
        k_bf16_pages: 102,
        v_bf16_pages: 103,
        k_env_min: 0,
        k_env_max: 0,
        hnd_layout: true,
        native_bf16: true,
    }
}

fn workspace() -> AttentionWorkspaceView {
    AttentionWorkspaceView {
        float_buffer: 200,
        float_bytes: 64,
        int_buffer: 201,
        int_bytes: 32,
        page_locked_int: 202,
    }
}

fn attn() -> AttnCtx {
    AttnCtx {
        decode_plan: 20,
        prefill_plan: 21,
        workspace: workspace(),
        layers: vec![layer(), layer()],
        kv_page_indices_d: 23,
        kv_page_indptr_d: 24,
        kv_last_page_lens_d: 25,
        qo_indptr_d: 26,
        qo_indptr_h: 27,
        kv_page_indptr_h: 28,
        num_requests: 3,
        num_pages_in_batch: 9,
        first_token: 11,
        w_page_d: 29,
        w_off_d: 30,
        row_valid_d: 31,
        q_out: 32,
        o_out: 33,
        lse_out_d: 34,
        window_left: -1,
        window_left_by_layer: vec![512],
        logits_soft_cap: 35,
        sm_scale: 36,
    }
}

fn gdn() -> GdnCtx {
    GdnCtx {
        k_h: 4,
        v_h: 8,
        k_d: 16,
        v_d: 32,
        conv_dim: 384,
        conv_k: 4,
        conv_state: vec![0, 500],
        conv_stride_elems: 1536,
        recurrent_state: vec![600, 0],
        state_stride_elems: 4096,
        slot_ids_d: 40,
        write_state: true,
    }
}

fn spec() -> LaunchSpec {
    LaunchSpec {
        weight: None,
        beta_one: false,
        outs: Vec::new(),
        weight2: None,
        state: None,
        per_head_dim: None,
        rope_partial: None,
        aux: Vec::new(),
    }
}

fn weighted(name: &str) -> LaunchSpec {
    LaunchSpec {
        weight: Some(name.to_string()),
        ..spec()
    }
}

fn arg(ptr: u64, width: u32) -> BoundArg {
    BoundArg { ptr, width }
}

fn bound(kernel: &str, args: Vec<BoundArg>) -> BoundLaunch<'_> {
    BoundLaunch {
        kernel,
        rows: 0..4,
        layers: 0..1,
        args,
    }
}

fn store() -> MapResolver {
    let mut store = MapResolver::new();
    store.insert_weight("w".to_string(), 700);
    store.insert_weight("v".to_string(), 701);
    store.insert_weight("conv".to_string(), 702);
    store.insert_weight("conv_bias".to_string(), 703);
    store.insert_named(9, 800);
    store
}

fn go(b: &BoundLaunch<'_>, s: &LaunchSpec) -> Result<DispatchAction, DispatchRefusal> {
    dispatch(
        b,
        s,
        FRAME,
        &mut store(),
        &ctx(),
        Some(&attn()),
        Some(&gdn()),
    )
}

fn done(b: &BoundLaunch<'_>, s: &LaunchSpec) -> DispatchAction {
    go(b, s).unwrap_or_else(|e| panic!("{e:?}"))
}

fn refused(b: &BoundLaunch<'_>, s: &LaunchSpec) -> DispatchRefusal {
    match go(b, s) {
        Err(e) => e,
        Ok(a) => panic!("dispatched: {a:?}"),
    }
}

/// A lowering of two launches: a norm over the arena, and a projection that
/// names a weight and a seam value.
fn lowered() -> Lowered {
    Lowered {
        launches: vec![
            Launch {
                kernel: 0,
                op: 0,
                rows: 0..4,
                layers: 0..1,
                args: 0..2,
            },
            Launch {
                kernel: 1,
                op: 1,
                rows: 0..4,
                layers: 0..1,
                args: 2..4,
            },
        ],
        kernels: vec![
            "norm::rmsnorm_bf16".to_string(),
            "gemm::act_x_w".to_string(),
        ],
        args: vec![
            Arg::Arena { at: 0, width: 64 },
            Arg::Arena { at: 512, width: 64 },
            Arg::Arena { at: 512, width: 64 },
            Arg::Named { value: 9, width: 128 },
        ],
        value_offset: vec![0, 512, NAMED],
        arena_bytes: 1024,
    }
}

fn plan() -> ForwardPlan {
    let shape = |w: u32| Value {
        shape: vec![Dim::Rows, Dim::Const(w)],
    };
    ForwardPlan {
        values: vec![shape(64), shape(64), shape(128)],
        ops: vec![
            Op {
                kind: OpKind::Rmsnorm {
                    weight: "w".to_string(),
                },
                outputs: vec![1],
                state: None,
            },
            Op {
                kind: OpKind::Matmul {
                    weight: "v".to_string(),
                    beta_one: false,
                },
                outputs: vec![2],
                state: None,
            },
        ],
    }
}

#[test]
fn the_three_rules_resolve_an_operand() {
    let mut r = store();
    assert_eq!(
        resolve_arg(&Arg::Arena { at: 16, width: 8 }, FRAME, &mut r),
        Ok(arg(0x10010, 8))
    );
    assert_eq!(
        resolve_arg(&Arg::Named { value: 9, width: 8 }, FRAME, &mut r),
        Ok(arg(800, 8))
    );
    assert_eq!(
        resolve_arg(&Arg::Weight("w".to_string()), FRAME, &mut r),
        Ok(arg(700, 0))
    );
    assert_eq!(
        resolve_arg(&Arg::Weight("scale.embed".to_string()), FRAME, &mut no_weights()),
        Ok(arg(CONSTANT_SLOT, 0)),
        "a binder never looks for a constant"
    );
}

#[test]
fn the_arena_ends_where_the_frame_says() {
    let mut r = store();
    let last = Arg::Arena { at: 4095, width: 1 };
    assert_eq!(resolve_arg(&last, FRAME, &mut r), Ok(arg(0x10fff, 1)));
    assert_eq!(
        resolve_arg(&Arg::Arena { at: 4096, width: 1 }, FRAME, &mut r),
        Err(BindRefusal::ArenaOutOfBounds {
            at: 4096,
            arena_bytes: 4096
        })
    );
}

#[test]
fn every_launch_binds_in_the_trace_s_order() {
    let l = lowered();
    let mut r = no_weights();
    let first = bind(&l, &l.launches[0], FRAME, &mut r).expect("binds");
    assert_eq!(first.kernel, "norm::rmsnorm_bf16");
    assert_eq!((first.rows.clone(), first.layers.clone()), (0..4, 0..1));
    assert_eq!(first.args, vec![arg(0x10000, 64), arg(0x10200, 64)]);
    let second = bind(&l, &l.launches[1], FRAME, &mut r).expect("binds");
    assert_eq!(second.args, vec![arg(0x10200, 64), arg(0x2000, 128)]);
}

#[test]
fn the_binder_diagnoses_drift_rather_than_addressing_through_it() {
    let l = lowered();
    let starved = Frame {
        arena: 0x10000,
        arena_bytes: 1,
    };
    let mut r = no_weights();
    let refusal = l
        .launches
        .iter()
        .find_map(|launch| bind(&l, launch, starved, &mut r).err());
    assert!(
        matches!(
            refusal,
            Some(BindRefusal::ArenaOutOfBounds { arena_bytes: 1, .. })
        ),
        "a one-byte arena must refuse: {refusal:?}"
    );

    let mut weighty = lowered();
    weighty.args.push(Arg::Weight("layer.3.q_norm".to_string()));
    weighty.launches[1].args = 2..5;
    let refusal = weighty
        .launches
        .iter()
        .find_map(|launch| bind(&weighty, launch, FRAME, &mut no_weights()).err());
    assert_eq!(
        refusal,
        Some(BindRefusal::UnknownWeight("layer.3.q_norm".to_string())),
        "a weightless store must be diagnosed by NAME"
    );
    let refusal = bind(&l, &l.launches[1], FRAME, &mut MapResolver::new()).err();
    assert_eq!(refusal, Some(BindRefusal::UnknownNamed(9)));
}

#[test]
fn the_first_operand_that_refuses_decides() {
    let mut l = lowered();
    l.args[2] = Arg::Weight("nowhere".to_string());
    let refusal = bind(&l, &l.launches[1], FRAME, &mut MapResolver::new()).err();
    assert_eq!(
        refusal,
        Some(BindRefusal::UnknownWeight("nowhere".to_string()))
    );
}

#[test]
fn a_name_bound_again_holds_its_latest_value() {
    let mut r = MapResolver::new();
    assert_eq!(r.weight("a"), None);
    r.insert_weight("a".to_string(), 1);
    r.insert_weight("b".to_string(), 2);
    r.insert_weight("a".to_string(), 3);
    assert_eq!((r.weight("a"), r.weight("b")), (Some(3), Some(2)));
    assert_eq!(r.weight(""), None);
    assert_eq!(r.named(7), None);
    r.insert_named(7, 4);
    r.insert_named(7, 5);
    assert_eq!(r.named(7), Some(5));
}

#[test]
fn the_join_carries_what_the_operation_states() {
    let joined = DispatchPlan::new(&plan(), &lowered());
    let norm = joined.spec(0);
    assert_eq!(norm.weight.as_deref(), Some("w"));
    assert_eq!(norm.outs, vec![Arg::Arena { at: 512, width: 64 }]);
    let gemm = joined.spec(1);
    assert_eq!(gemm.weight.as_deref(), Some("v"));
    assert_eq!(gemm.outs, vec![Arg::Named { value: 2, width: 128 }]);
    assert!(!gemm.beta_one && gemm.weight2.is_none() && gemm.state.is_none());
}

fn op(kind: OpKind, outputs: Vec<u32>) -> Op {
    Op {
        kind,
        outputs,
        state: None,
    }
}

fn launch_of(op: u32) -> Launch {
    Launch {
        kernel: 0,
        op,
        rows: 0..1,
        layers: 0..1,
        args: 0..0,
    }
}

fn lowering_of(ops: u32, value_offset: Vec<usize>) -> Lowered {
    Lowered {
        launches: (0..ops).map(launch_of).collect(),
        kernels: vec!["k".to_string()],
        args: Vec::new(),
        value_offset,
        arena_bytes: 0,
    }
}

#[test]
fn a_region_s_launches_bind_the_guard_s_outputs() {
    // 0: guard over 1..=3 (an arm of one, then an inner guard and its body),
    // 4: outside.
    let plan = ForwardPlan {
        values: vec![
            Value {
                shape: vec![Dim::Rows, Dim::Const(8), Dim::Const(16)],
            },
            Value { shape: vec![] },
        ],
        ops: vec![
            op(
                OpKind::Guard {
                    arms: vec![GuardArm { ops: 1 }],
                    else_ops: 2,
                },
                vec![0],
            ),
            op(OpKind::Other, vec![]),
            op(
                OpKind::Guard {
                    arms: vec![GuardArm { ops: 1 }],
                    else_ops: 0,
                },
                vec![1],
            ),
            op(OpKind::Other, vec![]),
            op(OpKind::Other, vec![]),
        ],
    };
    let joined = DispatchPlan::new(&plan, &lowering_of(5, vec![64]));
    let first = vec![Arg::Arena { at: 64, width: 128 }];
    assert_eq!(joined.spec(0).outs, first, "the guard's own");
    assert_eq!(joined.spec(1).outs, first, "its arm");
    let inner = vec![Arg::Named { value: 1, width: 1 }];
    assert_eq!(joined.spec(2).outs, inner, "an operation's own come first");
    assert_eq!(joined.spec(3).outs, inner, "the innermost guard owns it");
    assert!(joined.spec(4).outs.is_empty(), "past every region");
}

#[test]
fn each_operation_joins_with_its_own_fields() {
    let text = |s: &str| s.to_string();
    let mut ops = vec![
        op(
            OpKind::RmsnormPerHead {
                weight: text("qn"),
                head_dim: 64,
            },
            vec![],
        ),
        op(
            OpKind::Matmul {
                weight: text("o"),
                beta_one: true,
            },
            vec![],
        ),
        op(
            OpKind::GdnPrep {
                a_log: text("a"),
                dt_bias: text("d"),
            },
            vec![],
        ),
        op(
            OpKind::Launch {
                weights: vec![text("x"), text("y"), text("z")],
            },
            vec![],
        ),
        op(OpKind::Launch { weights: vec![] }, vec![]),
        op(OpKind::Rope { partial: Some(32) }, vec![]),
    ];
    ops[2].state = Some(StateRef { layer: 7 });
    let plan = ForwardPlan {
        values: vec![],
        ops,
    };
    let joined = DispatchPlan::new(&plan, &lowering_of(6, vec![]));
    assert_eq!(joined.spec(0).per_head_dim, Some(64));
    assert!(joined.spec(1).beta_one);
    assert_eq!(joined.spec(2).weight2.as_deref(), Some("d"));
    assert_eq!(joined.spec(2).state, Some(StateRef { layer: 7 }));
    assert_eq!(joined.spec(3).weight.as_deref(), Some("x"));
    assert_eq!(joined.spec(3).weight2.as_deref(), Some("y"));
    assert_eq!(joined.spec(4).weight, None);
    assert_eq!(joined.spec(5).rope_partial, Some(32));
    assert_eq!(joined.spec(0).rope_partial, None);
}

#[test]
fn every_pair_form_activation_recovers_its_up_projection() {
    let matmul = |name: &str, value: u32| {
        op(
            OpKind::Matmul {
                weight: name.to_string(),
                beta_one: false,
            },
            vec![value],
        )
    };
    let wide = || Value {
        shape: vec![Dim::Rows, Dim::Const(256)],
    };
    let plan = ForwardPlan {
        values: vec![wide(), wide(), wide(), wide()],
        ops: vec![
            op(OpKind::Other, vec![]),
            matmul("layer.0.gate_proj", 0),
            matmul("layer.0.up_proj", 1),
            op(OpKind::Other, vec![]),
            matmul("layer.1.up_proj", 2),
            matmul("layer.1.gate_proj", 3),
            op(OpKind::Other, vec![]),
        ],
    };
    for kernel in [
        "mlp::swiglu_bf16",
        "mlp::swiglu_clamp_bf16",
        "mlp::situ_bf16",
    ] {
        let mut l = lowering_of(7, vec![0, 512, NAMED, 1024]);
        l.kernels = vec![kernel.to_string()];
        let joined = DispatchPlan::new(&plan, &l);
        assert!(joined.spec(0).aux.is_empty(), "nothing is projected yet");
        assert_eq!(
            joined.spec(3).aux,
            vec![Arg::Arena {
                at: 512,
                width: 256
            }]
        );
        assert_eq!(
            joined.spec(6).aux,
            vec![Arg::Named {
                value: 2,
                width: 256
            }],
            "the nearest one before it"
        );
    }
    let joined = DispatchPlan::new(&plan, &lowering_of(7, vec![]));
    assert!((0..7).all(|i| joined.spec(i).aux.is_empty()));
}

#[test]
fn the_embed_reads_the_fire_s_tokens_and_the_operation_s_weight() {
    let a = done(
        &bound("layout::embed_bf16", vec![arg(50, 256)]),
        &weighted("w"),
    );
    assert_eq!(a.entry, Entry::LayoutEmbedBf16);
    assert!(a.copies.is_empty());
    assert_eq!(
        a.operands,
        vec![
            Operand::Addr(5),
            Operand::Addr(700),
            Operand::Addr(50),
            Operand::Int(4),
            Operand::Int(256),
            Operand::Int(1000),
            Operand::Addr(1),
        ]
    );
}

#[test]
fn the_projection_folds_the_residual_when_the_operation_says_so() {
    let two = bound("gemm::act_x_w", vec![arg(50, 64), arg(51, 128)]);
    let plain = done(&two, &weighted("w"));
    assert_eq!(
        plain.operands,
        vec![
            Operand::Addr(2),
            Operand::Addr(50),
            Operand::RawWeight(700, DType::Bf16),
            Operand::Addr(51),
            Operand::Int(4),
            Operand::Int(128),
            Operand::Int(64),
            Operand::Float(F32_ZERO),
            Operand::Type(DType::Bf16),
            Operand::Type(DType::Bf16),
        ]
    );
    let folded = LaunchSpec {
        beta_one: true,
        ..weighted("w")
    };
    let three = bound(
        "gemm::act_x_w",
        vec![arg(50, 64), arg(52, 128), arg(52, 128)],
    );
    let a = done(&three, &folded);
    assert_eq!(a.operands[3], Operand::Addr(52));
    assert_eq!(a.operands[7], Operand::Float(F32_ONE));
    assert_eq!(f32::from_bits(F32_ONE), 1.0);
    assert_eq!(
        refused(&two, &folded),
        DispatchRefusal::ArgCount {
            kernel: "gemm::act_x_w".to_string(),
            expected: 3,
            got: 2
        }
    );
}

#[test]
fn an_in_place_rotation_stages_what_has_another_buffer() {
    let mut b = bound(
        "rope::rope_bf16",
        vec![arg(50, 128), arg(51, 64), arg(60, 128), arg(51, 64)],
    );
    b.rows = 2..5;
    let a = done(&b, &spec());
    assert_eq!(
        a.copies,
        vec![StageCopy {
            dst: 60,
            src: 50,
            bytes: 3 * 128 * 2
        }],
        "the key's input and output share a buffer"
    );
    assert_eq!(
        a.operands,
        vec![
            Operand::Addr(60),
            Operand::Addr(51),
            Operand::Addr(6),
            Operand::Int(3),
            Operand::Int(2),
            Operand::Int(1),
            Operand::Int(64),
            Operand::Float(4),
            Operand::Addr(1),
            Operand::Flag(false),
        ]
    );
}

#[test]
fn a_partial_rotation_needs_its_width_stated() {
    let args = vec![arg(50, 128), arg(51, 64), arg(50, 128), arg(51, 64)];
    let b = bound("rope::rope_partial_bf16", args);
    assert_eq!(
        refused(&b, &spec()),
        DispatchRefusal::NoArm("rope::rope_partial_bf16: op states no rotary width".to_string())
    );
    let stated = LaunchSpec {
        rope_partial: Some(32),
        ..spec()
    };
    assert_eq!(done(&b, &stated).operands[7], Operand::Int(32));
}

#[test]
fn the_fused_decode_projection_counts_the_query_heads_left_over() {
    let b = bound(
        "attn::qkv_decode_qk_norm_rope_write_kv_bf16",
        vec![arg(50, 768), arg(51, 64), arg(52, 0), arg(53, 0)],
    );
    let a = done(&b, &spec());
    assert_eq!(a.operands.len(), 23);
    assert_eq!(a.operands[1], Operand::Addr(32), "the pin");
    assert_eq!(a.operands[7], Operand::Addr(51), "the table");
    assert_eq!(
        a.operands[15],
        Operand::Int(8),
        "768 less two runs of two heads of 64"
    );
    assert_eq!(a.operands[19], Operand::Flag(true));
}

#[test]
fn an_attention_launch_writes_the_guard_s_slot_or_its_own() {
    let kernel = "attn::dispatch_attention_flashinfer_decode";
    let one = done(&bound(kernel, vec![arg(50, 128)]), &spec());
    assert_eq!(one.operands[3], Operand::Addr(33));
    assert_eq!(one.operands[7], Operand::Workspace(workspace()));
    assert_eq!(one.operands[9], Operand::Int(512), "layer 0 states a window");
    let mut two = bound(kernel, vec![arg(50, 128), arg(51, 128)]);
    two.layers = 1..2;
    let two = done(&two, &spec());
    assert_eq!(two.operands[3], Operand::Addr(51));
    assert_eq!(two.operands[9], Operand::Int(-1), "layer 1 takes the uniform one");
    assert_eq!(
        refused(&bound(kernel, vec![]), &spec()),
        DispatchRefusal::ArgCount {
            kernel: kernel.to_string(),
            expected: 1,
            got: 0
        }
    );
    let prefill = done(
        &bound(
            "attn::dispatch_attention_flashinfer_prefill_bf16",
            vec![arg(50, 128)],
        ),
        &spec(),
    );
    assert_eq!(prefill.operands[2], Operand::Addr(102), "the bf16 pages");
    assert_eq!(prefill.operands[4], Operand::Addr(33));
}

#[test]
fn the_query_only_form_passes_no_key() {
    let kernel = "rope::qk_rmsnorm_rope_bf16_rounded";
    let pair = done(
        &bound(
            kernel,
            vec![arg(50, 256), arg(51, 128), arg(52, 0), arg(53, 0)],
        ),
        &spec(),
    );
    assert_eq!(pair.operands[1], Operand::Addr(51));
    assert_eq!(pair.operands[7], Operand::Int(2));
    let alone = done(
        &bound(kernel, vec![arg(50, 256), arg(54, 256), arg(52, 0)]),
        &spec(),
    );
    assert_eq!(alone.copies.len(), 1);
    assert_eq!(alone.operands[0], Operand::Addr(54));
    assert_eq!(alone.operands[1], Operand::Addr(0));
    assert_eq!(alone.operands[3], Operand::Addr(0));
    assert_eq!(alone.operands[6], Operand::Int(4));
    assert_eq!(alone.operands[7], Operand::Int(0));
}

#[test]
fn a_per_head_norm_has_a_row_per_head() {
    let b = bound("norm::rmsnorm_gemma_bf16", vec![arg(50, 256), arg(51, 256)]);
    let whole = done(&b, &weighted("w"));
    assert_eq!(whole.operands[3..5], [Operand::Int(4), Operand::Int(256)]);
    let per_head = LaunchSpec {
        per_head_dim: Some(64),
        ..weighted("w")
    };
    let heads = done(&b, &per_head);
    assert_eq!(heads.operands[3..5], [Operand::Int(16), Operand::Int(64)]);
}

#[test]
fn a_constant_is_read_by_its_name() {
    let b = bound(
        "norm::scalar_mul_bf16",
        vec![arg(50, 64), arg(51, 64), arg(CONSTANT_SLOT, 0)],
    );
    let a = done(&b, &weighted("scale.embed"));
    assert_eq!(
        a.operands,
        vec![
            Operand::Addr(51),
            Operand::Float(0x4200_0000),
            Operand::Count(256),
            Operand::Addr(1),
        ]
    );
    assert_eq!(
        refused(&b, &weighted("scale.other")),
        DispatchRefusal::UnknownWeight("scale.other".to_string())
    );
    assert_eq!(
        refused(&b, &weighted("w")),
        DispatchRefusal::NoWeight("norm::scalar_mul_bf16".to_string())
    );
}

#[test]
fn a_landing_scales_under_a_per_layer_norm_alone() {
    let args = || {
        vec![
            arg(50, 64),
            arg(51, 64),
            arg(52, 64),
            arg(53, 64),
            arg(54, 0),
            arg(55, 0),
        ]
    };
    let kernel = "norm::rmsnorm_residual_add_scale_rmsnorm_bf16";
    let scale = |s: LaunchSpec| done(&bound(kernel, args()), &s).operands[3];
    assert_eq!(
        scale(weighted("layer.0.ple_norm")),
        Operand::Float(0x4000_0000)
    );
    assert_eq!(scale(weighted("layer.1.ple_norm")), Operand::Float(F32_ONE));
    assert_eq!(scale(weighted("w")), Operand::Float(F32_ONE));
    assert_eq!(scale(spec()), Operand::Float(F32_ONE));
}

#[test]
fn the_convolution_s_bias_rides_its_weight_s_name() {
    let b = bound(
        "ssm::causal_conv1d_update_batched_bf16",
        vec![arg(50, 384), arg(51, 384), arg(52, 0)],
    );
    let at = |name: &str| LaunchSpec {
        state: Some(StateRef { layer: 1 }),
        ..weighted(name)
    };
    let a = done(&b, &at("conv"));
    assert_eq!(a.operands[2], Operand::Addr(703));
    assert_eq!(a.operands[3], Operand::Addr(500));
    assert_eq!(a.operands[5], Operand::Long(1536));
    assert_eq!(done(&b, &at("w")).operands[2], Operand::Addr(0));
    assert_eq!(
        refused(&b, &weighted("conv")),
        DispatchRefusal::NoGdnCtx(
            "ssm::causal_conv1d_update_batched_bf16: op states no layer".to_string()
        )
    );
    let slabless = LaunchSpec {
        state: Some(StateRef { layer: 0 }),
        ..weighted("conv")
    };
    assert_eq!(
        refused(&b, &slabless),
        DispatchRefusal::NoGdnCtx(
            "ssm::causal_conv1d_update_batched_bf16: layer 0 has no conv slab".to_string()
        )
    );
}

#[test]
fn the_prefill_recurrence_writes_the_joined_output() {
    let kernel = "ssm::chunk_gated_delta_prefill_batched_state_bf16";
    let b = bound(
        kernel,
        vec![arg(50, 1), arg(51, 1), arg(52, 1), arg(53, 1), arg(54, 1)],
    );
    let out = |outs: Vec<Arg>| LaunchSpec {
        outs,
        state: Some(StateRef { layer: 0 }),
        ..spec()
    };
    let a = done(&b, &out(vec![Arg::Arena { at: 8, width: 1 }]));
    assert_eq!(a.operands[9], Operand::Addr(0x10008));
    assert_eq!(a.operands[5], Operand::Addr(600));
    assert_eq!(a.operands[16], Operand::Flag(true));
    assert_eq!(
        refused(&b, &out(vec![])),
        DispatchRefusal::Out(format!("{kernel}: no output 0"))
    );
    assert_eq!(
        refused(&b, &out(vec![Arg::Arena { at: 9999, width: 1 }])),
        DispatchRefusal::Out(format!(
            "{kernel}: ArenaOutOfBounds {{ at: 9999, arena_bytes: 4096 }}"
        ))
    );
    assert_eq!(
        refused(&b, &out(vec![Arg::Named { value: 3, width: 1 }])),
        DispatchRefusal::Out(format!("{kernel}: UnknownNamed(3)"))
    );
    assert_eq!(
        refused(&b, &out(vec![Arg::Weight("a \"b\"\n".to_string())])),
        DispatchRefusal::Out(format!("{kernel}: UnknownWeight(\"a \\\"b\\\"\\n\")")),
        "the name is quoted as Rust quotes it"
    );
    assert_eq!(unknown_weight_text("\"w\""), "UnknownWeight(\"w\")");
}

#[test]
fn a_context_the_fire_lacks_is_named() {
    let none = |b: &BoundLaunch<'_>, s: &LaunchSpec| {
        dispatch(b, s, FRAME, &mut store(), &ctx(), None, None).expect_err("no context")
    };
    let kv = bound("attn::write_kv_to_pages", vec![arg(50, 1), arg(51, 1)]);
    assert_eq!(
        none(&kv, &spec()),
        DispatchRefusal::NoAttnCtx("attn::write_kv_to_pages".to_string())
    );
    let gated = bound(
        "norm::rmsnorm_gated_fp32_in_bf16",
        vec![arg(50, 1), arg(51, 1), arg(52, 1)],
    );
    assert_eq!(
        none(&gated, &weighted("w")),
        DispatchRefusal::NoGdnCtx("norm::rmsnorm_gated_fp32_in_bf16".to_string())
    );
    assert_eq!(done(&gated, &weighted("w")).operands[4], Operand::Int(32));
    let mut past = bound("attn::dequant_kv_cache_layer_to_bf16_active", vec![]);
    past.layers = 2..3;
    assert_eq!(
        refused(&past, &spec()),
        DispatchRefusal::NoAttnCtx("attn::dequant_kv_cache_layer_to_bf16_active".to_string())
    );
    past.layers = 1..2;
    assert_eq!(done(&past, &spec()).operands.len(), 4);
}

#[test]
fn a_weight_the_join_does_not_name_or_the_store_lacks_is_refused() {
    let b = bound("norm::rmsnorm_bf16", vec![arg(50, 64), arg(51, 64)]);
    assert_eq!(
        refused(&b, &spec()),
        DispatchRefusal::NoWeight("norm::rmsnorm_bf16".to_string())
    );
    assert_eq!(
        refused(&b, &weighted("absent")),
        DispatchRefusal::UnknownWeight("absent".to_string())
    );
    let prep = bound(
        "ssm::qwen_gdn_post_conv_prep_bf16",
        (0..8).map(|i| arg(50 + i, 1)).collect(),
    );
    assert_eq!(
        refused(&prep, &weighted("w")),
        DispatchRefusal::NoWeight("ssm::qwen_gdn_post_conv_prep_bf16".to_string())
    );
    let both = LaunchSpec {
        weight2: Some("v".to_string()),
        ..weighted("w")
    };
    let a = done(&prep, &both);
    assert_eq!(a.operands[3..5], [Operand::Addr(700), Operand::Addr(701)]);
}

#[test]
fn a_kernel_with_no_arm_is_refused_by_name() {
    assert_eq!(
        refused(&bound("mlp::situ_bf16", vec![]), &spec()),
        DispatchRefusal::NoArm("mlp::situ_bf16".to_string())
    );
    assert_eq!(
        refused(
            &bound(
                "layout::transpose_bf16_nld_to_lnd",
                vec![arg(50, 64), arg(51, 64)]
            ),
            &spec()
        ),
        DispatchRefusal::NoArm(
            "layout::transpose_bf16_nld_to_lnd: the fire states no ple_dim".to_string()
        )
    );
}

#[test]
fn symbols_and_entries_name_each_other() {
    for kernel in [
        "layout::embed_bf16",
        "rope::rope_standard_table",
        "norm::rmsnorm_bf16",
        "gemm::act_x_w",
        "mlp::chunked_swiglu_bf16",
        "attn::qkv_decode_qk_norm_rope_write_kv_bf16",
        "attn::dispatch_attention_flashinfer_decode",
        "attn::split_qkv_bf16",
        "rope::qk_rmsnorm_rope_bf16",
        "attn::write_kv_to_pages",
        "attn::dequant_kv_cache_layer_to_bf16_active",
        "attn::dispatch_attention_flashinfer_prefill_bf16",
        "rope::rope_bf16",
        "norm::residual_add_bf16",
        "norm::add_bias_bf16",
        "norm::rmsnorm_gemma_bf16",
        "rope::rope_partial_bf16",
        "layout::split_q_gate_bf16",
        "mlp::sigmoid_gate_inplace_bf16",
        "ssm::causal_conv1d_update_batched_bf16",
        "ssm::causal_conv1d_prefill_batched_bf16",
        "ssm::qwen_gdn_post_conv_prep_bf16",
        "ssm::recurrent_gated_delta_step_batched_state_bf16",
        "ssm::chunk_gated_delta_prefill_batched",
        "ssm::chunk_gated_delta_prefill_batched_state_bf16",
        "norm::rmsnorm_gated_fp32_in_bf16",
        "norm::scalar_mul_bf16",
        "mlp::geglu_tanh_bf16",
        "attn::logit_softcap_bf16",
        "attn::qkv_packed_qk_norm_rope_vnorm_write_kv_bf16",
        "rope::qk_rmsnorm_rope_bf16_rounded",
        "attn::attention_flashinfer_prefill",
        "attn::attention_naive_paged",
        "layout::transpose_bf16_nld_to_lnd",
        "norm::rmsnorm_residual_add_scale_rmsnorm_bf16",
        "norm::rmsnorm_residual_add_bf16",
        "mlp::chunked_geglu_tanh_bf16",
        "norm::rmsnorm_no_scale_bf16",
    ] {
        let entry = Entry::named(kernel).unwrap_or_else(|| panic!("{kernel}"));
        assert_eq!(entry.symbol(), kernel);
    }
    assert_eq!(Entry::named("rope::rope"), None);
}

#[test]
fn a_fire_queues_every_launch_in_order() {
    let l = lowered();
    let joined = DispatchPlan::new(&plan(), &l);
    let mut queue = Vec::new();
    let ran = run(
        &l,
        &joined,
        FRAME,
        &mut store(),
        &ctx(),
        None,
        None,
        &mut queue,
    );
    assert_eq!(ran.expect("every launch has an arm"), 2);
    let entries: Vec<Entry> = queue.iter().map(|a| a.entry).collect();
    assert_eq!(entries, vec![Entry::NormRmsnormBf16, Entry::GemmActXW]);
    assert_eq!(queue[1].operands[3], Operand::Addr(800));
}

#[test]
fn a_fire_stops_at_the_first_refusal() {
    let mut l = lowered();
    l.kernels[1] = "mlp::situ_bf16".to_string();
    let joined = DispatchPlan::new(&plan(), &l);
    let mut queue = Vec::new();
    let e = run(
        &l,
        &joined,
        FRAME,
        &mut store(),
        &ctx(),
        None,
        None,
        &mut queue,
    )
    .expect_err("no arm");
    assert_eq!((e.launch, e.kernel.as_str()), (1, "mlp::situ_bf16"));
    assert!(matches!(
        e.why,
        RunRefusalKind::Dispatch(DispatchRefusal::NoArm(_))
    ));
    assert_eq!(queue.len(), 1, "the launch before it");

    let mut queue = Vec::new();
    let starved = Frame {
        arena: 0x10000,
        arena_bytes: 100,
    };
    let e = run(
        &l,
        &joined,
        starved,
        &mut store(),
        &ctx(),
        None,
        None,
        &mut queue,
    )
    .expect_err("too small");
    assert_eq!((e.launch, e.kernel.as_str()), (0, "norm::rmsnorm_bf16"));
    assert!(matches!(
        e.why,
        RunRefusalKind::Bind(BindRefusal::ArenaOutOfBounds { at: 512, .. })
    ));
    assert!(queue.is_empty());
}

const WIDE: u32 = 0x8000_0000;

#[test]
fn only_what_an_arm_hands_on_must_fit_its_kernel() {
    let fitting = |b: &BoundLaunch<'_>, s: &LaunchSpec| fits(b, s, Some(&attn()), Some(&gdn()));
    // The embedding hands on its one operand's width.
    let s = weighted("embed");
    assert!(fitting(&bound("layout::embed_bf16", vec![arg(1, WIDE - 1)]), &s));
    assert!(!fitting(&bound("layout::embed_bf16", vec![arg(1, WIDE)]), &s));
    // The norm hands on its input's, and never its output's.
    assert!(fitting(&bound("norm::rmsnorm_bf16", vec![arg(1, 8), arg(2, WIDE)]), &s));
    assert!(!fitting(&bound("norm::rmsnorm_bf16", vec![arg(1, WIDE), arg(2, 8)]), &s));
    // A kernel with no arm is refused by name, whatever its widths.
    assert!(fitting(&bound("no::such", vec![arg(1, WIDE)]), &s));
}

#[test]
fn what_an_arm_computes_must_fit_its_kernel() {
    let mut wide = bound("mlp::geglu_tanh_bf16", vec![arg(1, 4), arg(2, 4), arg(3, 0x1000_0000)]);
    wide.rows = 0..7;
    assert!(fits(&wide, &spec(), None, None));
    wide.rows = 0..8;
    assert!(!fits(&wide, &spec(), None, None), "the element count is 32 bits");
    let mut tall = bound("no::such", Vec::new());
    tall.rows = 0..WIDE;
    assert!(!fits(&tall, &spec(), None, None));
    tall.rows = 2..1;
    assert!(!fits(&tall, &spec(), None, None), "a rectangle has no rows to lose");
    let per_head = LaunchSpec {
        per_head_dim: Some(0),
        ..LaunchSpec::default()
    };
    let norm = bound("norm::rmsnorm_no_scale_bf16", vec![arg(1, 8), arg(2, 8)]);
    assert!(!fits(&norm, &per_head, None, None), "nothing divides by zero");
    let rotary = LaunchSpec {
        rope_partial: Some(WIDE),
        ..LaunchSpec::default()
    };
    let rope = bound("rope::rope_partial_bf16", vec![arg(1, 8); 4]);
    assert!(!fits(&rope, &rotary, None, None));
    let mut tower = attn();
    tower.layers[0].num_kv_heads = i32::MAX;
    let qkv = bound("attn::qkv_decode_qk_norm_rope_write_kv_bf16", vec![arg(1, 8); 4]);
    assert!(fits(&qkv, &spec(), Some(&attn()), None));
    assert!(!fits(&qkv, &spec(), Some(&tower), None));
    let mut heads = gdn();
    heads.v_h = i32::MAX;
    let mut gated = bound("norm::rmsnorm_gated_fp32_in_bf16", vec![arg(1, 8); 3]);
    gated.rows = 0..2;
    assert!(fits(&gated, &spec(), None, Some(&gdn())));
    assert!(!fits(&gated, &spec(), None, Some(&heads)));
}

#[test]
fn a_default_join_states_nothing() {
    let plain = LaunchSpec::default();
    assert!(plain.weight.is_none() && plain.weight2.is_none() && !plain.beta_one);
    assert!(plain.outs.is_empty() && plain.aux.is_empty() && plain.state.is_none());
    let mut asked = MapResolver::default();
    assert_eq!(asked.weight("embed"), None);
    assert_eq!(asked.named(9), None);
}

#[test]
fn a_launch_is_asked_for_its_action_its_refusal_or_nothing() {
    let mut l = lowered();
    let joined = DispatchPlan::new(&plan(), &l);
    let ask = |l: &Lowered, i: usize| {
        launch_at(l, &joined, i, FRAME, &mut store(), &ctx(), None, None)
    };
    let action = ask(&l, 0).expect("it fits").expect("it has an arm");
    assert_eq!(action.entry, Entry::NormRmsnormBf16);
    // A width the arm hands on and the kernel does not take: nothing to perform.
    l.args[0] = Arg::Arena { at: 0, width: WIDE };
    assert!(ask(&l, 0).is_none());
    // The same launch an operand short is refused for that, whatever its width.
    l.launches[0].args = 0..1;
    let e = ask(&l, 0).expect("a refusal").expect_err("an operand short");
    assert_eq!((e.launch, e.kernel.as_str()), (0, "norm::rmsnorm_bf16"));
    assert!(matches!(
        e.why,
        RunRefusalKind::Dispatch(DispatchRefusal::ArgCount {
            expected: 2,
            got: 1,
            ..
        })
    ));
    // Binding refuses before anything is counted.
    l.launches[0].rows = 2..1;
    assert!(ask(&l, 0).is_none(), "a rectangle has no rows to lose");
    l.args[0] = Arg::Arena { at: 9000, width: 8 };
    let e = ask(&l, 0).expect("a refusal").expect_err("past the arena");
    assert!(matches!(
        e.why,
        RunRefusalKind::Bind(BindRefusal::ArenaOutOfBounds { at: 9000, .. })
    ));
}

#[test]
fn the_join_covers_its_launches_and_no_more() {
    let l = lowered();
    let mut joined = DispatchPlan::new(&plan(), &l);
    assert_eq!(joined.get(1).and_then(|s| s.weight.as_deref()), Some("v"));
    assert!(joined.get(2).is_none());
    let mut one = lowered();
    one.launches.truncate(1);
    joined = DispatchPlan::new(&plan(), &one);
    let asked = launch_at(&l, &joined, 1, FRAME, &mut store(), &ctx(), None, None);
    assert!(asked.is_none(), "the join stops short of it");
}
