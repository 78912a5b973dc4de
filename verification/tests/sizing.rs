//! The sorted stack, the scratch slot and the pool's colours.

use pie_driver::metal::dag::Dispatch;
use pie_driver::metal::dispatch_llama::build_llama_dag;
use pie_driver::metal::geometry::{DecodeGeometry, LlamaGeometry};
use pie_driver::metal::sizing::{
    moe_sorted_rows, pool_colour_elems, scratch_slot_elems, scratch_widest_elems, sorted_rows,
    Coloring, RoutedProjection, RowAxis, Use, ValueExtent,
};
use pie_driver::metal::tuning::Tuning;

fn moe_geometry() -> DecodeGeometry {
    DecodeGeometry {
        n_experts: 512,
        experts_per_token: 10,
        moe_intermediate: 768,
        ..DecodeGeometry::default()
    }
}

#[test]
fn the_sorted_bound_is_reached_and_tile_aligned() {
    assert_eq!(sorted_rows(256, 32, 16), 736);
    assert_eq!(sorted_rows(5, 2, 4), 12);
    assert_eq!(sorted_rows(256, 32, 1), 256);
    assert_eq!(sorted_rows(0, 32, 16), 0);
}

#[test]
fn an_unbatched_sort_is_a_grouping_not_a_padding() {
    let geometry = moe_geometry();
    let tuning = Tuning::default();
    assert_eq!(
        moe_sorted_rows(&geometry, &tuning, 512, RoutedProjection::Matvec),
        5120
    );
}

#[test]
fn the_mixtures_stack_does_not_scale_linearly_with_tokens() {
    let geometry = moe_geometry();
    let tuning = Tuning::default();
    assert_eq!(
        moe_sorted_rows(&geometry, &tuning, 512, RoutedProjection::Matmul),
        12800
    );
}

#[test]
fn the_default_shapes_widest_row_is_the_gdn_in_projection() {
    let geometry = DecodeGeometry::default();
    let tuning = Tuning::default();
    assert_eq!(scratch_widest_elems(&geometry, &tuning), 6144);
}

#[test]
fn the_slot_holds_the_mixture_or_the_batch_whichever_is_wider() {
    let geometry = moe_geometry();
    let tuning = Tuning::default();
    let widest = scratch_widest_elems(&geometry, &tuning);
    assert_eq!(widest, 10 * 1024);
    assert_eq!(
        scratch_slot_elems(&geometry, &tuning, 512),
        12800 * 1024,
        "the padded stack beats n rows of the M=1 footprint"
    );
    let dense = DecodeGeometry::default();
    assert_eq!(
        scratch_slot_elems(&dense, &tuning, 8),
        scratch_widest_elems(&dense, &tuning) * 8
    );
}

#[test]
fn the_largest_sort_does_not_overflow() {
    assert_eq!(
        sorted_rows(u32::MAX, u32::MAX, u32::MAX),
        4294967295 * 4294967295
    );
    assert_eq!(sorted_rows(7, 0, 4), 8);
    assert_eq!(sorted_rows(7, 9, 0), 7);
}

#[test]
fn every_routing_of_a_small_batch_fits_the_bound() {
    // Five pairs over three experts at a tile of four, every way they can go.
    let bound = sorted_rows(5, 3, 4);
    for a in 0..=5u64 {
        for b in 0..=(5 - a) {
            let c = 5 - a - b;
            let rows: u64 = [a, b, c].iter().map(|n| n.div_ceil(4) * 4).sum();
            assert!(rows <= bound, "{a} {b} {c}");
        }
    }
}

#[test]
fn the_worst_routing_reaches_the_bound() {
    // 256 pairs over 32 experts at a tile of sixteen: one pair to each expert,
    // and the 224 that are left to the first.
    let mut counts = vec![1u64; 32];
    counts[0] += 224;
    let rows: u64 = counts.iter().map(|n| n.div_ceil(16) * 16).sum();
    assert_eq!(rows, sorted_rows(256, 32, 16));
}

#[test]
fn no_tokens_are_sized_as_one() {
    let geometry = moe_geometry();
    let tuning = Tuning::default();
    assert_eq!(
        moe_sorted_rows(&geometry, &tuning, 0, RoutedProjection::Matmul),
        10
    );
    assert_eq!(
        scratch_slot_elems(&geometry, &tuning, 0),
        scratch_slot_elems(&geometry, &tuning, 1)
    );
}

fn dag() -> Vec<Dispatch> {
    build_llama_dag(&LlamaGeometry::default(), &Tuning::default(), false)
}

/// Ordinal 1 writes eight elements a row, ordinal 2 four on the tail, and
/// ordinal 3 two on the sorted stack.
fn extent(d: &Dispatch) -> ValueExtent {
    match d.ordinal {
        1 => ValueExtent {
            elems: 8,
            axis: RowAxis::Body,
        },
        2 => ValueExtent {
            elems: 4,
            axis: RowAxis::Tail,
        },
        3 => ValueExtent {
            elems: 2,
            axis: RowAxis::Sorted,
        },
        _ => ValueExtent::default(),
    }
}

fn write(ordinal: u32, value: u32) -> Use {
    Use {
        ordinal,
        value,
        is_write: true,
    }
}

#[test]
fn a_colour_is_sized_by_its_widest_value() {
    let coloring = Coloring {
        color: vec![Some(0), Some(0), Some(1), None],
        colors_used: 3,
    };
    let uses = [write(1, 0), write(2, 1), write(3, 2), write(1, 3)];
    // Ten rows, four sampled, a hundred sorted.
    assert_eq!(
        pool_colour_elems(&dag(), &uses, &coloring, extent, 10, 4, 100, 7),
        vec![80, 200, 7],
        "the fallback sizes a colour nothing needs"
    );
}

#[test]
fn an_in_place_pass_never_shrinks_a_colour() {
    let coloring = Coloring {
        color: vec![Some(0)],
        colors_used: 1,
    };
    let once = [write(1, 0)];
    let wide = pool_colour_elems(&dag(), &once, &coloring, extent, 10, 0, 1, 0);
    assert_eq!(wide, vec![80]);
    // A narrower writer of fewer rows changes neither, before or after.
    let twice = [write(1, 0), write(2, 0)];
    assert_eq!(
        pool_colour_elems(&dag(), &twice, &coloring, extent, 10, 0, 1, 0),
        vec![80]
    );
    assert_eq!(
        pool_colour_elems(&dag(), &twice, &coloring, extent, 10, 4, 1, 0),
        vec![80]
    );
    let swapped = [write(2, 0), write(1, 0)];
    assert_eq!(
        pool_colour_elems(&dag(), &swapped, &coloring, extent, 10, 4, 1, 0),
        vec![80]
    );
    assert_eq!(
        pool_colour_elems(&dag(), &[write(2, 0)], &coloring, extent, 10, 4, 1, 0),
        vec![16],
        "the tail alone keeps its own rows"
    );
    let sorted = [write(3, 0), write(2, 0), write(1, 0)];
    assert_eq!(
        pool_colour_elems(&dag(), &sorted, &coloring, extent, 10, 4, 100, 0),
        vec![800]
    );
}

#[test]
fn every_write_fits_its_colour() {
    let coloring = Coloring {
        color: vec![Some(0)],
        colors_used: 1,
    };
    let ten = |axis: RowAxis| ValueExtent { elems: 10, axis };
    let by_ordinal = |d: &Dispatch| match d.ordinal {
        1 => ten(RowAxis::Body),
        2 => ten(RowAxis::Tail),
        _ => ten(RowAxis::Sorted),
    };
    let sized = |uses: &[Use], sorted: u32| {
        pool_colour_elems(&dag(), uses, &coloring, by_ordinal, 8, 1, sorted, 0)
    };
    assert_eq!(sized(&[write(1, 0)], 8), vec![80]);
    assert_eq!(sized(&[write(2, 0)], 8), vec![10]);
    assert_eq!(sized(&[write(1, 0), write(2, 0)], 8), vec![80]);
    assert_eq!(sized(&[write(2, 0), write(3, 0)], 20), vec![200]);
    assert_eq!(
        sized(&[write(1, 0), write(3, 0)], 3),
        vec![80],
        "a stack shorter than the batch does not shrink it either"
    );
    assert_eq!(sized(&[write(3, 0)], 3), vec![30]);
}

#[test]
fn reads_claim_nothing_and_unplaced_values_are_ignored() {
    let coloring = Coloring {
        color: vec![Some(0)],
        colors_used: 1,
    };
    let uses = [
        Use {
            ordinal: 1,
            value: 0,
            is_write: false,
        },
        write(1, 9),
    ];
    assert_eq!(
        pool_colour_elems(&dag(), &uses, &coloring, extent, 3, 0, 1, 5),
        vec![5]
    );
    assert_eq!(
        pool_colour_elems(&dag(), &[write(2, 0)], &coloring, extent, 0, 9, 1, 5),
        vec![4],
        "no rows are one row, and the tail is never taller than the body"
    );
}

#[test]
fn only_the_writes_decide_and_not_their_order() {
    let coloring = Coloring {
        color: vec![Some(0), Some(1), Some(0)],
        colors_used: 2,
    };
    let read = |ordinal: u32, value: u32| Use {
        ordinal,
        value,
        is_write: false,
    };
    let sized = |uses: &[Use]| pool_colour_elems(&dag(), uses, &coloring, extent, 10, 4, 100, 7);
    let first = [write(1, 0), read(3, 0), write(2, 0), write(2, 1), write(3, 2)];
    let expected = vec![200, 16];
    assert_eq!(sized(&first), expected);
    let mut last = first;
    last.reverse();
    assert_eq!(sized(&last), expected, "another order");
    let writes = [write(1, 0), write(2, 0), write(2, 1), write(3, 2)];
    assert_eq!(sized(&writes), expected, "no reads");
    let twice = [write(2, 1), write(1, 0), write(2, 0), write(2, 1), write(3, 2)];
    assert_eq!(sized(&twice), expected, "a write stated again");
}

#[test]
fn the_extent_is_asked_of_placed_writes_alone() {
    let coloring = Coloring {
        color: vec![Some(0)],
        colors_used: 1,
    };
    let asked = std::cell::RefCell::new(Vec::new());
    let uses = [
        write(1, 0),
        Use {
            ordinal: 2,
            value: 0,
            is_write: false,
        },
        write(3, 9),
        write(2, 0),
        Use {
            ordinal: 9999,
            value: 0,
            is_write: false,
        },
    ];
    let noting = |d: &Dispatch| {
        asked.borrow_mut().push(d.ordinal);
        extent(d)
    };
    assert_eq!(
        pool_colour_elems(&dag(), &uses, &coloring, noting, 10, 4, 100, 0),
        vec![80]
    );
    assert_eq!(*asked.borrow(), vec![1, 2], "once for each, in order");
}

#[test]
fn rows_that_are_not_stated_are_made_up() {
    let coloring = Coloring {
        color: vec![Some(0)],
        colors_used: 1,
    };
    let sized = |rows: u32, head_rows: u32| {
        pool_colour_elems(&dag(), &[write(2, 0)], &coloring, extent, rows, head_rows, 100, 0)
    };
    assert_eq!(sized(10, 10), vec![40]);
    assert_eq!(sized(10, 0), vec![40], "none sampled is all of them");
    assert_eq!(sized(10, 11), vec![40], "and so is more than there are");
    assert_eq!(sized(0, 3), sized(1, 3));
}
