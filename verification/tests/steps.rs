//! The per-token dispatch lists, their costs, and the compile list.

use pie_driver::metal::abi::Kernel;
use pie_driver::metal::dispatch_gptoss::{build_gptoss_dag, elementwise, gptoss_dag_stats};
use pie_driver::metal::dispatch_llama::{build_llama_dag, llama_dag_stats};
use pie_driver::metal::error::Error;
use pie_driver::metal::geometry::{GptOssGeometry, LlamaGeometry};
use pie_driver::metal::psos_gptoss::{plan_gptoss_psos, suffix, GptOssSlot};
use pie_driver::metal::step::{GptOssStep, LlamaStep, ScratchSchedule};
use pie_driver::metal::tuning::Tuning;

#[test]
fn the_20b_step_is_twenty_one_dispatches_a_layer_plus_the_ends() {
    let g = GptOssGeometry::default();
    let dag = build_gptoss_dag(&g, true);
    assert_eq!(dag.len(), 1 + 24 * 21 + 3);
    assert!(dag.iter().enumerate().all(|(i, d)| d.ordinal as usize == i));
    let stats = gptoss_dag_stats(&dag, &g);
    assert_eq!(stats.full_attn_layers, 12);
    assert_eq!(stats.sliding_attn_layers, 12);
    assert_eq!(
        stats.gemv,
        24 * 8 + 1,
        "seven per layer plus the router, plus the head"
    );
    assert_eq!(stats.routed, 24 * 3);
    assert_eq!(stats.total, dag.len());
}

#[test]
fn the_routed_projections_launch_over_the_sorted_stack() {
    let g = GptOssGeometry::default();
    let dag = build_gptoss_dag(&g, false);
    let gate = dag
        .iter()
        .find(|d| d.kind == Kernel::GoExpertGate)
        .expect("every layer routes");
    assert_eq!(gate.launch.grid[0], 32 * 4);
    let plain = dag.iter().find(|d| d.kind == Kernel::GoQmvQ).unwrap();
    assert_eq!(plain.launch.grid[0], 32, "the dense matvec stays one row");
}

#[test]
fn the_8b_step_is_sixteen_dispatches_a_layer_plus_the_ends() {
    let g = LlamaGeometry::default();
    let dag = build_llama_dag(&g, &Tuning::default(), true);
    assert_eq!(dag.len(), 1 + 32 * 16 + 3);
    assert!(dag.iter().enumerate().all(|(i, d)| d.ordinal as usize == i));
    assert!(dag.iter().all(|d| d.kind != Kernel::QSplit
        && d.kind != Kernel::AttnGate
        && d.kind != Kernel::QNorm));
    assert!(dag.iter().any(|d| d.kind == Kernel::LmHeadUntied));
    assert!(dag.iter().any(|d| d.kind == Kernel::EmbedUntied));
    let q = dag.iter().find(|d| d.kind == Kernel::QmvQ).unwrap();
    assert_eq!(
        q.launch.tg,
        [32, 2, 1],
        "the plain q projection is a matvec at its own width"
    );
    let stats = llama_dag_stats(&dag, &g);
    assert_eq!(stats.gemv, 32 * 7 + 1, "seven a layer plus the head");
    assert_eq!(stats.routed, 0);
    assert_eq!((stats.total, stats.layers), (516, 32));
}

#[test]
fn qwen3_gets_the_norm_pair_between_v_and_the_rotation() {
    let g = LlamaGeometry {
        qk_norm: true,
        tied_embeddings: true,
        ..LlamaGeometry::default()
    };
    let dag = build_llama_dag(&g, &Tuning::default(), false);
    assert_eq!(dag.len(), 1 + 32 * 18 + 2);
    let v = dag.iter().position(|d| d.kind == Kernel::QmvV).unwrap();
    assert_eq!(dag[v + 1].kind, Kernel::QNorm);
    assert_eq!(dag[v + 2].kind, Kernel::KNorm);
    assert_eq!(dag[v + 3].kind, Kernel::Rope);
    assert!(dag.iter().any(|d| d.kind == Kernel::EmbedGather));
    assert!(dag.iter().any(|d| d.kind == Kernel::QmvLmHead));
}

#[test]
fn the_mixture_swaps_four_dense_dispatches_for_the_nine_routed_ones() {
    let g = LlamaGeometry {
        qk_norm: true,
        n_experts: 128,
        experts_per_token: 8,
        moe_intermediate: 768,
        ..LlamaGeometry::default()
    };
    let dag = build_llama_dag(&g, &Tuning::default(), true);
    assert_eq!(dag.len(), 1 + 32 * (18 - 4 + 9) + 3);
    let stats = llama_dag_stats(&dag, &g);
    assert_eq!(stats.routed, 32 * 3);
    assert_eq!(stats.gemv, 32 * 8 + 1, "q k v o, router, three routed");
    let gate = dag.iter().find(|d| d.kind == Kernel::LlExpertGate).unwrap();
    assert_eq!(gate.launch.grid[0], 32 * 8);
    assert!(dag.iter().all(|d| d.kind != Kernel::LlSharedGate));
}

#[test]
fn a_dispatch_carries_its_layer_and_the_single_token_defaults() {
    let g = LlamaGeometry::default();
    let dag = build_llama_dag(&g, &Tuning::default(), true);
    assert_eq!(dag[0].layer, None);
    assert_eq!(dag[1].layer, Some(0));
    assert_eq!(dag[16].kind, Kernel::LayerOut);
    assert_eq!(dag[17].layer, Some(1));
    assert_eq!(dag[515].layer, None);
    assert!(dag
        .iter()
        .all(|d| !d.fuse_residual && d.qmm_bn == 0 && d.qmm_split == 1 && d.qmm_bm == 16));
}

#[test]
fn a_model_of_no_layers_is_its_ends() {
    let g = LlamaGeometry {
        n_layers: 0,
        ..LlamaGeometry::default()
    };
    let kinds: Vec<Kernel> = build_llama_dag(&g, &Tuning::default(), true)
        .iter()
        .map(|d| d.kind)
        .collect();
    assert_eq!(
        kinds,
        vec![
            Kernel::EmbedUntied,
            Kernel::FinalRms,
            Kernel::LmHeadUntied,
            Kernel::Argmax
        ]
    );
}

#[test]
fn the_clamped_activation_runs_over_the_sorted_stack() {
    let g = GptOssGeometry::default();
    let dag = build_gptoss_dag(&g, false);
    let act = dag.iter().find(|d| d.kind == Kernel::GoSwiGlu).unwrap();
    assert_eq!(act.launch, elementwise(2880 * 4));
    assert_eq!(act.launch.grid, [11520, 1, 1]);
    assert_eq!(act.launch.tg, [256, 1, 1]);
    let sum = dag
        .iter()
        .find(|d| d.kind == Kernel::GoExpertCombine)
        .unwrap();
    assert_eq!(sum.launch.grid, [2880, 1, 1]);
    assert_eq!(sum.launch.tg, [256, 1, 1]);
}

#[test]
fn an_unusual_head_width_skips_the_matrix_unit_rather_than_lying() {
    let wide = GptOssGeometry {
        head_dim: 128,
        ..GptOssGeometry::default()
    };
    let plan = plan_gptoss_psos(&wide);
    assert!(
        plan.iter().all(|r| r.slot != GptOssSlot::SdpaSinkPagedMma),
        "the MMA pipeline is instantiated at d=64; other widths fall back"
    );
    let sink = plan
        .iter()
        .find(|r| r.slot == GptOssSlot::SdpaSink)
        .unwrap();
    assert!(sink.entry.ends_with("_d_128"));
}

#[test]
fn the_compile_list_is_spelled_from_the_geometry() {
    let plan = plan_gptoss_psos(&GptOssGeometry::default());
    assert_eq!(plan.len(), 16);
    assert_eq!(plan[0].file, "quant/qmv.metal");
    assert_eq!(plan[0].entry, "affine_qmv_tail_bfloat16_gs_64_b_4");
    assert_eq!(plan[2].entry, "affine_qmv_routed_bias_bfloat16_gs_64_b_4");
    assert_eq!(plan[3].slot, GptOssSlot::QmvRouter);
    assert_eq!(plan[3].entry, "affine_qmv_tail_bias_bfloat16_gs_64_b_8");
    assert_eq!(plan[12].slot, GptOssSlot::SdpaSinkPagedMma);
    assert_eq!(plan[12].entry, "sdpa_paged_mma_sink_bfloat16_d_64");

    let packed = plan_gptoss_psos(&GptOssGeometry {
        mxfp4_experts: true,
        router_bits: 4,
        proj_bits: 8,
        ..GptOssGeometry::default()
    });
    assert_eq!(packed[1].entry, "affine_qmv_tail_bias_bfloat16_gs_64_b_8");
    assert_eq!(packed[2].entry, "mxfp4_qmv_routed_bias_bfloat16_gs_32_b_4");
    assert_eq!(packed[3].entry, "affine_qmv_tail_bias_bfloat16_gs_64_b_4");
    assert_eq!(suffix(4, 128), "_bfloat16_gs_128_b_4");
}

#[test]
fn each_fact_selects_its_own_entrypoints() {
    let base = plan_gptoss_psos(&GptOssGeometry::default());
    let changed = |g: GptOssGeometry| -> Vec<usize> {
        let plan = plan_gptoss_psos(&g);
        (0..12).filter(|&i| plan[i] != base[i]).collect()
    };
    let d = GptOssGeometry::default;
    assert_eq!(changed(GptOssGeometry { proj_bits: 8, ..d() }), vec![0, 1]);
    assert_eq!(
        changed(GptOssGeometry {
            mxfp4_experts: true,
            ..d()
        }),
        vec![2]
    );
    assert_eq!(changed(GptOssGeometry { router_bits: 4, ..d() }), vec![3]);
    assert_eq!(
        changed(GptOssGeometry { head_dim: 6, ..d() }),
        vec![9, 10, 11]
    );
}

fn schedule(n: usize) -> ScratchSchedule {
    ScratchSchedule {
        per_dispatch: (0..n).map(|_| vec![0]).collect(),
    }
}

#[test]
fn a_step_is_prepared_only_over_a_schedule_that_covers_it() {
    let g = GptOssGeometry::default();
    let step = GptOssStep::prepare(&g, &schedule(508)).expect("508 dispatches");
    assert_eq!(step.dag.len(), 508);
    assert!(!step.force_barriers);
    assert_eq!(step.fire(), 0..508);
    assert_eq!(step.fire_prefix(7), 0..7);
    assert_eq!(
        GptOssStep::prepare(&g, &schedule(507)).unwrap_err(),
        Error::Create {
            what: "gpt-oss step",
            message: "the scratch schedule covers 507 dispatches, the DAG has 508".to_string(),
        }
    );

    let g = LlamaGeometry::default();
    let step = LlamaStep::prepare(&g, &Tuning::default(), &schedule(516)).expect("516");
    assert_eq!(step.fire(), 0..516);
    assert_eq!(step.fire_prefix(0), 0..0);
    assert_eq!(
        LlamaStep::prepare(&g, &Tuning::default(), &schedule(0)).unwrap_err(),
        Error::Create {
            what: "llama step",
            message: "the scratch schedule covers 0 dispatches, the DAG has 516".to_string(),
        }
    );
}
