//! The launch rules and the shapes they name.

use pie_driver::metal::rule::{Dims, Rule, Ungeometric};
use pie_driver::metal::shapes as dispatch;

fn dims() -> Dims {
    Dims {
        rows: 7,
        width: 4096,
        q_heads: 16,
        kv_heads: 4,
        head_dim: 128,
        rotary_dims: 64,
        n_experts: 128,
        experts_per_token: 8,
    }
}

#[test]
fn every_rule_reproduces_the_function_the_driver_already_uses() {
    let d = dims();
    for (rule, expected) in [
        (Rule::Qmv, dispatch::qmv(d.width)),
        (Rule::Rms, dispatch::rms(d.width, d.rows)),
        (Rule::Rope, dispatch::rope(d.rotary_dims, d.q_heads)),
        (Rule::Elementwise, dispatch::residual(d.width)),
        (Rule::PerHead, dispatch::kv_append(d.head_dim, d.kv_heads)),
        (Rule::SdpaVector, dispatch::sdpa(d.q_heads)),
        (
            Rule::PerHeadElementwise,
            dispatch::attn_gate(d.q_heads, d.head_dim),
        ),
        (Rule::GatedRms, dispatch::gated_rms(d.kv_heads, d.head_dim)),
        (Rule::RouterLane, dispatch::router_topk(d.n_experts)),
        (Rule::RouteRows, dispatch::route_rows(d.width, d.rows)),
        (
            Rule::RoutedQmv,
            dispatch::routed_qmv(d.width, d.experts_per_token, d.rows),
        ),
    ] {
        assert_eq!(
            rule.eval(d).expect("a stated rule evaluates"),
            expected,
            "{rule:?} does not reproduce its function"
        );
    }
}

#[test]
fn the_shapes_that_share_a_function_are_one_variant_not_three() {
    let d = dims();
    let ew = Rule::Elementwise.eval(d).expect("stated");
    assert_eq!(ew, dispatch::residual(d.width));
    assert_eq!(ew, dispatch::embed(d.width));
    assert_eq!(ew, dispatch::silu_mul(d.width));
    assert_eq!(
        Rule::PerHead.eval(d).expect("stated"),
        dispatch::q_split(d.head_dim, d.kv_heads),
        "one rule, read with the head count the operand names"
    );
}

#[test]
fn an_unstated_rule_refuses_rather_than_launching_something_plausible() {
    assert_eq!(
        Rule::default().eval(dims()),
        Err(Ungeometric::Unstated),
        "unstated must not fall back to anything"
    );
}

#[test]
fn a_rule_reads_only_the_dims_it_names() {
    let d = dims();
    let wider = Dims {
        n_experts: 999,
        experts_per_token: 3,
        ..d
    };
    assert_eq!(Rule::Rms.eval(d), Rule::Rms.eval(wider));
    assert_eq!(Rule::SdpaVector.eval(d), Rule::SdpaVector.eval(wider));
    assert_ne!(
        Rule::RouterLane.eval(d),
        Rule::RouterLane.eval(wider),
        "and one that DOES name it must move"
    );
}

#[test]
fn every_stated_rule_makes_a_grid_the_device_runs() {
    for rule in [
        Rule::Qmv,
        Rule::Rms,
        Rule::Rope,
        Rule::Elementwise,
        Rule::PerHead,
        Rule::SdpaVector,
        Rule::PerHeadElementwise,
        Rule::GatedRms,
        Rule::RouterLane,
        Rule::RouteRows,
        Rule::RoutedQmv,
    ] {
        let launch = rule.eval(dims()).expect("stated");
        let group: u32 = launch.tg.iter().product();
        assert!(launch.grid.iter().all(|&n| n > 0), "{rule:?}");
        assert!(group > 0 && group <= 1024, "{rule:?}");
    }
}

#[test]
fn the_matvec_rounds_its_outputs_up() {
    assert_eq!(dispatch::qmv(4096).grid, [32, 1024, 1]);
    assert_eq!(dispatch::qmv(4097).grid, [32, 1026, 1]);
    assert_eq!(dispatch::qmv(4096).tg, [32, 2, 1]);
}

#[test]
fn norm_and_expert_lanes_are_whole_simdgroups_within_the_widest() {
    assert_eq!(dispatch::rms(4096, 7).tg, [1024, 1, 1]);
    assert_eq!(dispatch::rms(2880, 1).tg, [736, 1, 1]);
    assert_eq!(dispatch::rms(8192, 3).grid, [1024, 3, 1]);
    assert_eq!(dispatch::rms(0, 1).tg, [32, 1, 1]);
    assert_eq!(dispatch::router_topk(33).tg, [64, 1, 1]);
    assert_eq!(dispatch::route_sort(5000).tg, [1024, 1, 1]);
    assert_eq!(dispatch::route_rows(100, 4).tg, [100, 1, 1]);
    assert_eq!(dispatch::route_rows(4096, 4).tg, [256, 1, 1]);
    assert_eq!(Dims::default().rows, 0);
}
