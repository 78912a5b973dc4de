//! The tuned constants and their overrides.

use pie_driver::metal::tuning::{Device, Overrides, Tuning};

#[test]
fn an_unknown_device_gets_the_m1_defaults() {
    assert_eq!(Tuning::for_device(Device::default()), Tuning::default());
}

#[test]
fn apple9_lowers_the_tile_crossover_and_keeps_the_dense_routed_pair() {
    let t = Tuning::for_device(Device {
        apple_family: 9,
        gpu_core_count: 20,
    });
    assert_eq!(t.qmm_bn_crossover_tg, 96);
    assert_eq!(t.qmm_min_batch, 8);
    assert_eq!(t.qmm_min_batch_moe, 8);
}

#[test]
fn apple8_names_the_routed_crossover_and_inherits_the_dense_one() {
    let t = Tuning::for_device(Device {
        apple_family: 8,
        gpu_core_count: 38,
    });
    assert_eq!(t.qmm_min_batch, 8, "dense is the default, not restated");
    assert_eq!(t.qmm_min_batch_moe, 12, "routed is named on this family");
}

#[test]
fn a_future_family_falls_back_rather_than_guessing() {
    let t = Tuning::for_device(Device {
        apple_family: 10,
        gpu_core_count: 64,
    });
    assert_eq!(t, Tuning::default());
}

#[test]
fn the_emulated_crossover_is_selected_by_format_not_by_routing() {
    let t = Tuning::default();
    assert_eq!(t.qmm_min_batch_for(false, false), t.qmm_min_batch_emulated);
    assert_eq!(t.qmm_min_batch_for(true, false), t.qmm_min_batch_emulated);
    assert_eq!(t.qmm_min_batch_for(false, true), t.qmm_min_batch);
    assert_eq!(t.qmm_min_batch_for(true, true), t.qmm_min_batch_moe);
}

#[test]
fn only_group64_4bit_reaches_the_fp16_path() {
    let t = Tuning::default();
    assert!(t.fp16_gemm_format(4, 64));
    assert!(!t.fp16_gemm_format(4, 128));
    assert!(!t.fp16_gemm_format(8, 64));

    let off = Tuning {
        fp16_qmm: false,
        ..Tuning::default()
    };
    assert!(!off.fp16_gemm_format(4, 64));
}

fn none() -> Overrides {
    Overrides {
        qmm_min_batch: None,
        qmm_min_batch_moe: None,
        qmm_min_batch_emulated: None,
        qmm_bn_crossover_tg: None,
        moe_tile_mid_per: None,
        moe_tile_wide_per: None,
        fp16_qmm: None,
        sdpa_tile_min_rows_per_request: None,
        sdpa_mma: None,
        moe_batch_min_per_expert: None,
        gdn_scan_lanes: None,
        gdn_scan_rows: None,
    }
}

fn said(text: &str) -> Option<String> {
    Some(text.to_string())
}

#[test]
fn nothing_overridden_is_the_table() {
    let device = Device {
        apple_family: 9,
        gpu_core_count: 20,
    };
    assert_eq!(Tuning::resolve(device, &none()), Tuning::for_device(device));
    let t = Tuning::default();
    assert_eq!(
        (t.qmm_min_batch_emulated, t.moe_tile_wide_per, t.gdn_scan_lanes, t.gdn_scan_rows),
        (12, 1 << 24, 32, 4)
    );
}

#[test]
fn the_dense_override_carries_the_others_unless_they_are_named() {
    let t = Tuning::resolve(
        Device::default(),
        &Overrides {
            qmm_min_batch: said("20"),
            ..none()
        },
    );
    assert_eq!(
        (t.qmm_min_batch, t.qmm_min_batch_moe, t.qmm_min_batch_emulated),
        (20, 20, 20)
    );
    let t = Tuning::resolve(
        Device::default(),
        &Overrides {
            qmm_min_batch: said("20"),
            qmm_min_batch_moe: said("+7"),
            qmm_min_batch_emulated: said("many"),
            ..none()
        },
    );
    assert_eq!(
        (t.qmm_min_batch, t.qmm_min_batch_moe, t.qmm_min_batch_emulated),
        (20, 7, 20)
    );
}

#[test]
fn a_count_that_is_not_a_positive_number_is_rejected() {
    for text in ["0", "", "-3", " 4", "4 ", "4294967296", "+", "1_000", "x"] {
        let t = Tuning::resolve(
            Device::default(),
            &Overrides {
                gdn_scan_rows: said(text),
                ..none()
            },
        );
        assert_eq!(t.gdn_scan_rows, 4, "{text:?}");
    }
    let t = Tuning::resolve(
        Device::default(),
        &Overrides {
            gdn_scan_rows: said("0004294967295"),
            ..none()
        },
    );
    assert_eq!(t.gdn_scan_rows, u32::MAX);
}

#[test]
fn a_switch_reads_zero_as_off_and_empty_as_unset() {
    let t = Tuning::resolve(
        Device::default(),
        &Overrides {
            fp16_qmm: said("0"),
            sdpa_mma: said(""),
            ..none()
        },
    );
    assert!(!t.fp16_qmm);
    assert!(t.sdpa_mma);
    let t = Tuning::resolve(
        Device::default(),
        &Overrides {
            fp16_qmm: said("off"),
            ..none()
        },
    );
    assert!(t.fp16_qmm, "anything else that is not empty is on");
}

#[test]
fn the_mixture_tile_widens_with_rows_per_expert() {
    let t = Tuning::default();
    assert_eq!(t.moe_tile_rows(10, 512), 1);
    assert_eq!(t.moe_tile_rows(5120, 512), 16);
    assert_eq!(t.moe_tile_rows(32 * 512, 512), 32);
    assert_eq!(t.moe_tile_rows(8, 0), 1);
    let wide = Tuning {
        moe_tile_wide_per: 64,
        ..t
    };
    assert_eq!(wide.moe_tile_rows(64 * 512, 512), 64);
}
