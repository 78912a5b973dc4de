//! The signature table: what a row covers and generates.

use pie_driver::kernels::{sig_in, Axis, Cap, KernelSig, Prepare};

const AFFINE: Axis = Axis {
    what: "affine group and width",
    points: &[
        "_gs_32_b_4",
        "_gs_64_b_4",
        "_gs_128_b_4",
        "_gs_32_b_8",
        "_gs_64_b_8",
        "_gs_128_b_8",
    ],
};
const TILE: Axis = Axis {
    what: "routed GEMM tile",
    points: &["_bm_16_bn_16", "_bm_32_bn_32", "_bm_64_bn_64"],
};
const DTYPE: Axis = Axis {
    what: "activation dtype",
    points: &["_bfloat16"],
};

const fn row(
    name: &'static str,
    symbol: &'static str,
    axes: &'static [Axis],
) -> KernelSig {
    KernelSig {
        name,
        symbol,
        whole: false,
        needs: Prepare::NoPlan,
        lacks: &[],
        sink: None,
        depth_prefix_plan: false,
        axes,
    }
}

const TABLE: &[KernelSig] = &[
    row("qmv", "affine_qmv_fast", &[DTYPE, AFFINE]),
    row("qmm_t", "affine_qmm_t", &[DTYPE, AFFINE, TILE]),
    row("route_sort", "moe_route_sort", &[]),
    row("router", "router_topk", &[DTYPE]),
];

fn named(symbol: &str) -> Option<&'static str> {
    sig_in(TABLE, symbol).map(|k| k.name)
}

#[test]
fn a_row_covers_every_point_of_its_axes() {
    assert_eq!(named("affine_qmv_fast_bfloat16_gs_64_b_4"), Some("qmv"));
    assert_eq!(named("affine_qmv_fast_bfloat16_gs_128_b_8"), Some("qmv"));
    assert_eq!(
        named("affine_qmm_t_bfloat16_gs_32_b_4_bm_64_bn_64"),
        Some("qmm_t")
    );
}

#[test]
fn a_partial_or_permuted_spelling_is_refused() {
    assert_eq!(named("affine_qmm_t_bfloat16_gs_64_b_4"), None);
    assert_eq!(named("affine_qmm_t_bm_16_bn_16"), None);
    assert_eq!(named("affine_qmm_t_bfloat16_bm_16_bn_16_gs_64_b_4"), None);
    assert_eq!(named("affine_qmv_fast_bfloat16_gs_16_b_4"), None);
}

#[test]
fn a_row_resolves_by_its_base_and_by_every_point() {
    assert_eq!(named("moe_route_sort"), Some("route_sort"));
    assert_eq!(named("router_topk_bfloat16"), Some("router"));
    assert_eq!(named("router_topk"), Some("router"));
    assert_eq!(named("affine_qmm_t"), Some("qmm_t"));
}

#[test]
fn an_axisless_row_is_unchanged_by_the_axis_machinery() {
    assert_eq!(named("moe_route_sort_bfloat16"), None);
    assert_eq!(named("moe_route_sor"), None);
    assert_eq!(named("xmoe_route_sort"), None);
}

#[test]
fn an_axis_may_have_a_point_that_adds_no_text() {
    const DIM: Axis = Axis {
        what: "head dim",
        points: &["_d_64", "_d_128"],
    };
    const PAGE: Axis = Axis {
        what: "page table width and simdgroup count",
        points: &["_p32_sg8", "_p32", ""],
    };
    const T: &[KernelSig] = &[row("sdpa_paged", "sdpa_paged_decode", &[DTYPE, DIM, PAGE])];
    for name in [
        "sdpa_paged_decode_bfloat16_d_128",
        "sdpa_paged_decode_bfloat16_d_128_p32",
        "sdpa_paged_decode_bfloat16_d_64_p32_sg8",
    ] {
        assert!(sig_in(T, name).is_some(), "{name}");
    }
    assert!(sig_in(T, "sdpa_paged_decode_bfloat16_d_256").is_none());
    assert!(sig_in(T, "sdpa_paged_decode_bfloat16").is_none());
    assert_eq!(T[0].entrypoints().len(), 1 * 2 * 3);
}

#[test]
fn everything_a_row_generates_is_something_it_covers() {
    for row in TABLE {
        for name in row.entrypoints() {
            assert_eq!(
                sig_in(TABLE, &name).map(|k| k.name),
                Some(row.name),
                "{name}"
            );
        }
    }
}

#[test]
fn entrypoints_append_the_axes_in_declaration_order() {
    let names = row("r", "r", &[DTYPE, TILE]).entrypoints();
    assert_eq!(
        names,
        vec![
            "r_bfloat16_bm_16_bn_16",
            "r_bfloat16_bm_32_bn_32",
            "r_bfloat16_bm_64_bn_64"
        ]
    );
    assert_eq!(row("r", "r", &[]).entrypoints(), vec!["r"]);
}

#[test]
fn an_exact_symbol_wins_over_a_row_that_could_peel_to_it() {
    const T: &[KernelSig] = &[
        row("family", "sort", &[DTYPE]),
        row("sibling", "sort_bfloat16", &[]),
    ];
    assert_eq!(sig_in(T, "sort_bfloat16").map(|k| k.name), Some("sibling"));
    assert!(T[0].covers("sort_bfloat16"));
    assert!(T[0].covers_point("sort_bfloat16"));
    assert!(!T[0].covers_point("sort"));
    assert!(T[0].covers("sort"));
}

#[test]
fn an_earlier_point_that_shadows_a_later_one_hides_its_entrypoint() {
    const SHADOW: Axis = Axis {
        what: "a short point before a longer one it ends",
        points: &["_b", "_a_b"],
    };
    let shadowed = row("x", "x", &[SHADOW]);
    assert!(shadowed.covers("x_b"));
    assert!(!shadowed.covers("x_a_b"));
}

#[test]
fn a_point_alone_is_not_an_entrypoint() {
    let bare = row("empty", "", &[DTYPE]);
    assert!(!bare.covers_point("_bfloat16"));
    assert!(bare.covers(""));
}

#[test]
fn a_row_keeps_its_clauses() {
    let clause = KernelSig {
        name: "xqa",
        symbol: "attn::xqa",
        whole: true,
        needs: Prepare::FireWide,
        lacks: &[Cap::Scores],
        sink: Some("kv.pages"),
        depth_prefix_plan: true,
        axes: &[],
    };
    assert!(clause.whole && clause.depth_prefix_plan);
    assert_eq!(clause.needs, Prepare::FireWide);
    assert_eq!(clause.lacks, &[Cap::Scores]);
}

#[test]
fn a_point_listed_twice_is_still_covered() {
    const TWICE: Axis = Axis {
        what: "a point, twice",
        points: &["_a", "_b", "_a"],
    };
    let row = row("r", "r", &[TWICE]);
    assert_eq!(row.entrypoints(), vec!["r_a", "r_b", "r_a"]);
    for name in row.entrypoints() {
        assert!(row.covers_point(&name), "{name}");
    }
}

#[test]
fn a_generated_name_resolves_to_the_row_that_answers_first() {
    // Both rows generate `sort_bfloat16_bm_16_bn_16`; the first has it.
    const T: &[KernelSig] = &[
        row("long", "sort_bfloat16", &[TILE]),
        row("short", "sort", &[DTYPE, TILE]),
        row("same", "sort", &[]),
    ];
    let shared = "sort_bfloat16_bm_16_bn_16";
    assert!(T[0].covers_point(shared) && T[1].covers_point(shared));
    assert_eq!(sig_in(T, shared).map(|k| k.name), Some("long"));
    assert_eq!(sig_in(T, "sort").map(|k| k.name), Some("short"));
}
