//! Per-device tuned constants: the table, the family selection, and the
//! overrides a sweep measures them with.
//!
//! The only device-specific part of tuning is asking the device what it is;
//! everything downstream of that answer is decided here. Reading the process
//! environment is the caller's; what an override's text means is not.

use crate::strings;
use crate::strings::{parse_u32, str_eq};
use vstd::prelude::*;

verus! {

/// What the device is, as far as tuning cares. Zero means unknown, and selects
/// the defaults.
#[derive(Clone, Copy, Debug, PartialEq, Eq, Structural)]
pub struct Device {
    /// The newest GPU family the device answers for.
    pub apple_family: u32,
    /// The GPU core count.
    pub gpu_core_count: u32,
}

impl Default for Device {
    fn default() -> (device: Self)
        ensures
            device == (Device { apple_family: 0, gpu_core_count: 0 }),
    {
        Device { apple_family: 0, gpu_core_count: 0 }
    }
}

/// The tuned constants.
#[derive(Clone, Copy, Debug, PartialEq, Eq, Structural)]
pub struct Tuning {
    /// The batch at which the tiled GEMM overtakes the batched GEMV, for a
    /// checkpoint whose GEMM reaches the FP16 matrix path.
    pub qmm_min_batch: u32,
    /// The same crossover for a routed checkpoint.
    pub qmm_min_batch_moe: u32,
    /// The same crossover for a checkpoint whose quantization runs the
    /// emulated GEMM.
    pub qmm_min_batch_emulated: u32,
    /// The threadgroup count at which the narrow tile overtakes the wide one.
    pub qmm_bn_crossover_tg: u32,
    /// Mixture tiling: rows per expert at which the middle tile is taken.
    pub moe_tile_mid_per: u32,
    /// Mixture tiling: rows per expert at which the wide tile is taken. The
    /// default is effectively never.
    pub moe_tile_wide_per: u32,
    /// Whether the 4-bit dense projections use the hardware's matrix path.
    pub fp16_qmm: bool,
    /// Rows per request below which attention does not tile.
    pub sdpa_tile_min_rows_per_request: u32,
    /// Whether attention uses the matrix path.
    pub sdpa_mma: bool,
    /// Rows per expert before a mixture batches that expert.
    pub moe_batch_min_per_expert: u32,
    /// Gated-delta scan geometry: lanes.
    pub gdn_scan_lanes: u32,
    /// Gated-delta scan geometry: rows.
    pub gdn_scan_rows: u32,
}

/// The constants every device gets that the table does not name.
pub open spec fn default_tuning() -> Tuning {
    Tuning {
        qmm_min_batch: 8,
        qmm_min_batch_moe: 8,
        qmm_min_batch_emulated: 12,
        qmm_bn_crossover_tg: 160,
        moe_tile_mid_per: 32,
        moe_tile_wide_per: 0x100_0000,
        fp16_qmm: true,
        sdpa_tile_min_rows_per_request: 32,
        sdpa_mma: true,
        moe_batch_min_per_expert: 1,
        gdn_scan_lanes: 32,
        gdn_scan_rows: 4,
    }
}

impl Default for Tuning {
    fn default() -> (t: Self)
        ensures
            t == default_tuning(),
    {
        Tuning {
            qmm_min_batch: 8,
            qmm_min_batch_moe: 8,
            qmm_min_batch_emulated: 12,
            qmm_bn_crossover_tg: 160,
            moe_tile_mid_per: 32,
            moe_tile_wide_per: 0x100_0000,
            fp16_qmm: true,
            sdpa_tile_min_rows_per_request: 32,
            sdpa_mma: true,
            moe_batch_min_per_expert: 1,
            gdn_scan_lanes: 32,
            gdn_scan_rows: 4,
        }
    }
}

/// The overrides' texts, one per tuned constant; `None` for one that is not
/// set.
#[derive(Debug)]
pub struct Overrides {
    /// `PIE_METAL_QMM_MIN_BATCH`.
    pub qmm_min_batch: Option<String>,
    /// `PIE_METAL_QMM_MIN_BATCH_MOE`.
    pub qmm_min_batch_moe: Option<String>,
    /// `PIE_METAL_QMM_MIN_BATCH_EMULATED`.
    pub qmm_min_batch_emulated: Option<String>,
    /// `PIE_METAL_QMM_BN_CROSSOVER_TG`.
    pub qmm_bn_crossover_tg: Option<String>,
    /// `PIE_METAL_MOE_TILE_MID_PER`.
    pub moe_tile_mid_per: Option<String>,
    /// `PIE_METAL_MOE_TILE_WIDE_PER`.
    pub moe_tile_wide_per: Option<String>,
    /// `PIE_METAL_FP16_QMM`.
    pub fp16_qmm: Option<String>,
    /// `PIE_METAL_SDPA_TILE_MIN_ROWS`.
    pub sdpa_tile_min_rows_per_request: Option<String>,
    /// `PIE_METAL_SDPA_MMA`.
    pub sdpa_mma: Option<String>,
    /// `PIE_METAL_MOE_BATCH_MIN_PER_EXPERT`.
    pub moe_batch_min_per_expert: Option<String>,
    /// `PIE_METAL_GDN_SCAN_LANES`.
    pub gdn_scan_lanes: Option<String>,
    /// `PIE_METAL_GDN_SCAN_ROWS`.
    pub gdn_scan_rows: Option<String>,
}

/// A positive integer from an override, or the fallback. Zero is rejected:
/// every constant this reads is a count, and zero would disable the thing
/// being measured rather than tune it.
pub open spec fn chosen_u32(raw: Option<String>, fallback: u32) -> u32 {
    match raw {
        None => fallback,
        Some(text) => match strings::written_u32(text@) {
            Some(v) => if v > 0 {
                v
            } else {
                fallback
            },
            None => fallback,
        },
    }
}

/// A switch from an override, or the fallback. Here zero is a value: it is how
/// a sweep turns a path off. Anything else that is not empty is on.
pub open spec fn chosen_bool(raw: Option<String>, fallback: bool) -> bool {
    match raw {
        None => fallback,
        Some(text) => if text@.len() == 0 {
            fallback
        } else {
            text@ != "0"@
        },
    }
}

/// See [`chosen_u32`].
fn env_u32(raw: &Option<String>, fallback: u32) -> (v: u32)
    ensures
        v == chosen_u32(*raw, fallback),
{
    match raw {
        None => fallback,
        Some(text) => match parse_u32(text.as_str()) {
            Some(v) => if v > 0 {
                v
            } else {
                fallback
            },
            None => fallback,
        },
    }
}

/// See [`chosen_bool`].
fn env_bool(raw: &Option<String>, fallback: bool) -> (v: bool)
    ensures
        v == chosen_bool(*raw, fallback),
{
    match raw {
        None => fallback,
        Some(text) => if text.as_str().is_empty() {
            fallback
        } else {
            !str_eq(text.as_str(), "0")
        },
    }
}

/// The table: what each measured family changes.
pub open spec fn tuning_for(device: Device) -> Tuning {
    if device.apple_family == 9 {
        Tuning { qmm_bn_crossover_tg: 96, qmm_min_batch_moe: 8, ..default_tuning() }
    } else if device.apple_family == 8 {
        Tuning { qmm_min_batch_moe: 12, ..default_tuning() }
    } else {
        default_tuning()
    }
}

/// The table with the overrides applied. The dense crossover's override
/// carries the routed and the emulated ones, unless they are named separately.
pub open spec fn resolved_tuning(device: Device, over: Overrides) -> Tuning {
    let t = tuning_for(device);
    Tuning {
        qmm_min_batch: chosen_u32(over.qmm_min_batch, t.qmm_min_batch),
        qmm_min_batch_moe: chosen_u32(
            over.qmm_min_batch_moe,
            chosen_u32(over.qmm_min_batch, t.qmm_min_batch_moe),
        ),
        qmm_min_batch_emulated: chosen_u32(
            over.qmm_min_batch_emulated,
            chosen_u32(over.qmm_min_batch, t.qmm_min_batch_emulated),
        ),
        qmm_bn_crossover_tg: chosen_u32(over.qmm_bn_crossover_tg, t.qmm_bn_crossover_tg),
        moe_tile_mid_per: chosen_u32(over.moe_tile_mid_per, t.moe_tile_mid_per),
        moe_tile_wide_per: chosen_u32(over.moe_tile_wide_per, t.moe_tile_wide_per),
        fp16_qmm: chosen_bool(over.fp16_qmm, t.fp16_qmm),
        sdpa_tile_min_rows_per_request: chosen_u32(
            over.sdpa_tile_min_rows_per_request,
            t.sdpa_tile_min_rows_per_request,
        ),
        sdpa_mma: chosen_bool(over.sdpa_mma, t.sdpa_mma),
        moe_batch_min_per_expert: chosen_u32(
            over.moe_batch_min_per_expert,
            t.moe_batch_min_per_expert,
        ),
        gdn_scan_lanes: chosen_u32(over.gdn_scan_lanes, t.gdn_scan_lanes),
        gdn_scan_rows: chosen_u32(over.gdn_scan_rows, t.gdn_scan_rows),
    }
}

/// The tile a routed batch is padded to: one row, a grouping with no padding,
/// until every expert has its minimum of rows on average; then sixteen rows,
/// and the wider tiles past their own crossovers.
pub open spec fn tile_rows(t: Tuning, pairs: u32, n_experts: u32) -> u32 {
    if n_experts == 0 || pairs / n_experts < t.moe_batch_min_per_expert {
        1
    } else if pairs / n_experts >= t.moe_tile_wide_per {
        64
    } else if pairs / n_experts >= t.moe_tile_mid_per {
        32
    } else {
        16
    }
}

/// The batch at which the tiled GEMM overtakes, for a checkpoint shape.
pub open spec fn crossover(t: Tuning, is_moe: bool, fp16_gemm: bool) -> u32 {
    if !fp16_gemm {
        t.qmm_min_batch_emulated
    } else if is_moe {
        t.qmm_min_batch_moe
    } else {
        t.qmm_min_batch
    }
}

/// A quantization reaches the FP16 matrix path.
pub open spec fn reaches_fp16(t: Tuning, bits: u32, group: u32) -> bool {
    t.fp16_qmm && bits == 4 && group == 64
}

impl Tuning {
    /// The table entry for `device`, before any override.
    pub fn for_device(device: Device) -> (t: Self)
        ensures
            t == tuning_for(device),
    {
        let mut t = Self::default();
        if device.apple_family == 9 {
            t.qmm_bn_crossover_tg = 96;
            t.qmm_min_batch_moe = 8;
        } else if device.apple_family == 8 {
            t.qmm_min_batch_moe = 12;
        }
        t
    }

    /// [`Self::for_device`] with the overrides applied.
    pub fn resolve(device: Device, over: &Overrides) -> (t: Self)
        ensures
            t == resolved_tuning(device, *over),
    {
        let mut t = Self::for_device(device);
        t.qmm_min_batch = env_u32(&over.qmm_min_batch, t.qmm_min_batch);
        let dense_moe: u32 = env_u32(&over.qmm_min_batch, t.qmm_min_batch_moe);
        t.qmm_min_batch_moe = env_u32(&over.qmm_min_batch_moe, dense_moe);
        let dense_emulated: u32 = env_u32(&over.qmm_min_batch, t.qmm_min_batch_emulated);
        t.qmm_min_batch_emulated = env_u32(&over.qmm_min_batch_emulated, dense_emulated);
        t.qmm_bn_crossover_tg = env_u32(&over.qmm_bn_crossover_tg, t.qmm_bn_crossover_tg);
        t.moe_tile_mid_per = env_u32(&over.moe_tile_mid_per, t.moe_tile_mid_per);
        t.moe_tile_wide_per = env_u32(&over.moe_tile_wide_per, t.moe_tile_wide_per);
        t.fp16_qmm = env_bool(&over.fp16_qmm, t.fp16_qmm);
        t.sdpa_tile_min_rows_per_request = env_u32(
            &over.sdpa_tile_min_rows_per_request,
            t.sdpa_tile_min_rows_per_request,
        );
        t.sdpa_mma = env_bool(&over.sdpa_mma, t.sdpa_mma);
        t.moe_batch_min_per_expert = env_u32(
            &over.moe_batch_min_per_expert,
            t.moe_batch_min_per_expert,
        );
        t.gdn_scan_lanes = env_u32(&over.gdn_scan_lanes, t.gdn_scan_lanes);
        t.gdn_scan_rows = env_u32(&over.gdn_scan_rows, t.gdn_scan_rows);
        t
    }

    /// The GEMM and GEMV crossover for a given checkpoint shape.
    pub fn qmm_min_batch_for(&self, is_moe: bool, fp16_gemm: bool) -> (batch: u32)
        ensures
            batch == (if !fp16_gemm {
                self.qmm_min_batch_emulated
            } else if is_moe {
                self.qmm_min_batch_moe
            } else {
                self.qmm_min_batch
            }),
            batch == crossover(*self, is_moe, fp16_gemm),
    {
        if !fp16_gemm {
            return self.qmm_min_batch_emulated;
        }
        if is_moe {
            self.qmm_min_batch_moe
        } else {
            self.qmm_min_batch
        }
    }

    /// Whether a quantization of `bits` in groups of `group` reaches the FP16
    /// matrix path.
    pub fn fp16_gemm_format(&self, bits: u32, group: u32) -> (yes: bool)
        ensures
            yes <==> self.fp16_qmm && bits == 4 && group == 64,
            yes == reaches_fp16(*self, bits, group),
    {
        self.fp16_qmm && bits == 4 && group == 64
    }

    /// The tile a routed batch of `pairs` over `n_experts` is padded to.
    pub fn moe_tile_rows(&self, pairs: u32, n_experts: u32) -> (tile: u32)
        ensures
            tile == tile_rows(*self, pairs, n_experts),
    {
        if n_experts == 0 {
            return 1;
        }
        let per: u32 = pairs / n_experts;
        if per < self.moe_batch_min_per_expert {
            1
        } else if per >= self.moe_tile_wide_per {
            64
        } else if per >= self.moe_tile_mid_per {
            32
        } else {
            16
        }
    }
}

/// A device the table does not name gets the defaults rather than a guess.
pub proof fn law_an_unmeasured_family_gets_the_defaults(device: Device)
    requires
        device.apple_family != 8,
        device.apple_family != 9,
    ensures
        tuning_for(device) == default_tuning(),
{
}

/// The core count does not select: devices of one family are tuned alike.
pub proof fn law_only_the_family_selects(a: Device, b: Device)
    requires
        a.apple_family == b.apple_family,
    ensures
        tuning_for(a) == tuning_for(b),
{
}

/// With nothing overridden the table stands.
pub proof fn law_no_override_is_the_table(device: Device, over: Overrides)
    requires
        over.qmm_min_batch is None,
        over.qmm_min_batch_moe is None,
        over.qmm_min_batch_emulated is None,
        over.qmm_bn_crossover_tg is None,
        over.moe_tile_mid_per is None,
        over.moe_tile_wide_per is None,
        over.fp16_qmm is None,
        over.sdpa_tile_min_rows_per_request is None,
        over.sdpa_mma is None,
        over.moe_batch_min_per_expert is None,
        over.gdn_scan_lanes is None,
        over.gdn_scan_rows is None,
    ensures
        resolved_tuning(device, over) == tuning_for(device),
{
}

/// A dense crossover that a sweep sets moves all three crossovers, except the
/// ones that are themselves overridden: those take their own value.
pub proof fn law_the_dense_override_carries_the_others(device: Device, over: Overrides, v: u32)
    requires
        over.qmm_min_batch matches Some(text) && strings::written_u32(text@) == Some(v),
        v > 0,
    ensures
        resolved_tuning(device, over).qmm_min_batch == v,
        over.qmm_min_batch_moe is None ==> resolved_tuning(device, over).qmm_min_batch_moe == v,
        over.qmm_min_batch_emulated is None ==> resolved_tuning(
            device,
            over,
        ).qmm_min_batch_emulated == v,
        over.qmm_min_batch_moe matches Some(text) ==> resolved_tuning(
            device,
            over,
        ).qmm_min_batch_moe == (match strings::written_u32(text@) {
            Some(m) => if m > 0 {
                m
            } else {
                v
            },
            None => v,
        }),
        over.qmm_min_batch_emulated matches Some(text) ==> resolved_tuning(
            device,
            over,
        ).qmm_min_batch_emulated == (match strings::written_u32(text@) {
            Some(m) => if m > 0 {
                m
            } else {
                v
            },
            None => v,
        }),
{
}

/// The tile by what a batch gives each expert, without dividing: a grouping
/// until every expert has its minimum of rows, then sixteen, thirty-two once
/// every expert has the middle tile's rows, and sixty-four once every expert has
/// the wide one's.
pub proof fn law_the_tile_follows_the_rows_an_expert_gets(t: Tuning, pairs: u32, n_experts: u32)
    ensures
        ({
            let tile = tile_rows(t, pairs, n_experts);
            let batches = n_experts > 0 && pairs >= t.moe_batch_min_per_expert * n_experts;
            let wide = pairs >= t.moe_tile_wide_per * n_experts;
            let mid = pairs >= t.moe_tile_mid_per * n_experts;
            &&& !batches <==> tile == 1
            &&& batches && wide <==> tile == 64
            &&& batches && !wide && mid <==> tile == 32
            &&& batches && !wide && !mid <==> tile == 16
        }),
{
    if n_experts > 0 {
        lemma_divides_at_least(pairs, n_experts, t.moe_batch_min_per_expert);
        lemma_divides_at_least(pairs, n_experts, t.moe_tile_wide_per);
        lemma_divides_at_least(pairs, n_experts, t.moe_tile_mid_per);
    }
}

/// So many whole times, exactly where the multiple fits.
proof fn lemma_divides_at_least(a: u32, b: u32, m: u32)
    requires
        b > 0,
    ensures
        a / b >= m <==> a >= m * b,
{
    let q = (a / b) as int;
    vstd::arithmetic::div_mod::lemma_fundamental_div_mod(a as int, b as int);
    vstd::arithmetic::div_mod::lemma_mod_bound(a as int, b as int);
    assert(q >= m ==> a >= m * b) by (nonlinear_arith)
        requires
            a >= b * q,
            b > 0,
    ;
    assert(q < m ==> a < m * b) by (nonlinear_arith)
        requires
            a < b * q + b,
            b > 0,
    ;
}

/// What an override's text says is what is used, a positive count for a count
/// and anything but the text `0` for a switch, and each constant answers to its
/// own override and no other, but for the dense crossover, which the other two
/// crossovers fall back to.
pub proof fn law_each_constant_answers_to_its_own_override(
    device: Device,
    over: Overrides,
    text: String,
    v: u32,
)
    requires
        strings::written_u32(text@) == Some(v),
        v > 0,
    ensures
        ({
            let t = resolved_tuning(device, over);
            &&& over.qmm_min_batch == Some(text) ==> t.qmm_min_batch == v
            &&& over.qmm_min_batch_moe == Some(text) ==> t.qmm_min_batch_moe == v
            &&& over.qmm_min_batch_emulated == Some(text) ==> t.qmm_min_batch_emulated == v
            &&& over.qmm_bn_crossover_tg == Some(text) ==> t.qmm_bn_crossover_tg == v
            &&& over.moe_tile_mid_per == Some(text) ==> t.moe_tile_mid_per == v
            &&& over.moe_tile_wide_per == Some(text) ==> t.moe_tile_wide_per == v
            &&& over.sdpa_tile_min_rows_per_request == Some(text)
                ==> t.sdpa_tile_min_rows_per_request == v
            &&& over.moe_batch_min_per_expert == Some(text) ==> t.moe_batch_min_per_expert == v
            &&& over.gdn_scan_lanes == Some(text) ==> t.gdn_scan_lanes == v
            &&& over.gdn_scan_rows == Some(text) ==> t.gdn_scan_rows == v
        }),
{
}

/// A constant whose override is not set, is not a number, or is zero keeps the
/// table's value; the routed and the emulated crossovers, with the dense one's
/// unset too.
pub proof fn law_an_override_that_says_nothing_keeps_the_table(device: Device, over: Overrides)
    ensures
        ({
            let t = resolved_tuning(device, over);
            let table = tuning_for(device);
            &&& says_no_count(over.qmm_min_batch) ==> t.qmm_min_batch == table.qmm_min_batch
            &&& says_no_count(over.qmm_min_batch) && says_no_count(over.qmm_min_batch_moe)
                ==> t.qmm_min_batch_moe == table.qmm_min_batch_moe
            &&& says_no_count(over.qmm_min_batch) && says_no_count(over.qmm_min_batch_emulated)
                ==> t.qmm_min_batch_emulated == table.qmm_min_batch_emulated
            &&& says_no_count(over.qmm_bn_crossover_tg) ==> t.qmm_bn_crossover_tg
                == table.qmm_bn_crossover_tg
            &&& says_no_count(over.moe_tile_mid_per) ==> t.moe_tile_mid_per
                == table.moe_tile_mid_per
            &&& says_no_count(over.moe_tile_wide_per) ==> t.moe_tile_wide_per
                == table.moe_tile_wide_per
            &&& says_no_count(over.sdpa_tile_min_rows_per_request)
                ==> t.sdpa_tile_min_rows_per_request == table.sdpa_tile_min_rows_per_request
            &&& says_no_count(over.moe_batch_min_per_expert) ==> t.moe_batch_min_per_expert
                == table.moe_batch_min_per_expert
            &&& says_no_count(over.gdn_scan_lanes) ==> t.gdn_scan_lanes == table.gdn_scan_lanes
            &&& says_no_count(over.gdn_scan_rows) ==> t.gdn_scan_rows == table.gdn_scan_rows
            &&& over.fp16_qmm is None ==> t.fp16_qmm == table.fp16_qmm
            &&& over.sdpa_mma is None ==> t.sdpa_mma == table.sdpa_mma
            &&& over.fp16_qmm matches Some(text) ==> (text@.len() == 0 ==> t.fp16_qmm
                == table.fp16_qmm) && (text@ == seq!['0'] ==> !t.fp16_qmm) && (text@.len() > 0
                && text@ != seq!['0'] ==> t.fp16_qmm)
            &&& over.sdpa_mma matches Some(text) ==> (text@.len() == 0 ==> t.sdpa_mma
                == table.sdpa_mma) && (text@ == seq!['0'] ==> !t.sdpa_mma) && (text@.len() > 0
                && text@ != seq!['0'] ==> t.sdpa_mma)
        }),
{
    reveal_strlit("0");
    assert("0"@ =~= seq!['0']);
}

/// No count is stated: nothing is, or what is is no positive number.
pub open spec fn says_no_count(raw: Option<String>) -> bool {
    match raw {
        None => true,
        Some(text) => strings::written_u32(text@) is None || strings::written_u32(text@) == Some(
            0u32,
        ),
    }
}

/// A checkpoint that reaches the matrix path takes its own crossover, the
/// routed one's apart from the dense one's; one that does not takes the
/// emulated one's, routed or not. Without the path, every format is emulated.
pub proof fn law_each_checkpoint_takes_its_own_crossover(
    t: Tuning,
    is_moe: bool,
    bits: u32,
    group: u32,
)
    ensures
        crossover(t, false, true) == t.qmm_min_batch,
        crossover(t, true, true) == t.qmm_min_batch_moe,
        crossover(t, is_moe, false) == t.qmm_min_batch_emulated,
        reaches_fp16(t, bits, group) ==> t.fp16_qmm,
        t.fp16_qmm ==> (reaches_fp16(t, bits, group) <==> (bits, group) == (4u32, 64u32)),
{
}

/// A measured family keeps every default but what was measured on it: the
/// ninth takes the narrow tile at fewer threadgroups, and the eighth batches a
/// mixture later.
pub proof fn law_a_measured_family_changes_what_was_measured(device: Device)
    ensures
        ({
            let t = tuning_for(device);
            let d = default_tuning();
            &&& t.qmm_min_batch == d.qmm_min_batch
            &&& t.qmm_min_batch_emulated == d.qmm_min_batch_emulated
            &&& t.moe_tile_mid_per == d.moe_tile_mid_per
            &&& t.moe_tile_wide_per == d.moe_tile_wide_per
            &&& t.fp16_qmm == d.fp16_qmm
            &&& t.sdpa_tile_min_rows_per_request == d.sdpa_tile_min_rows_per_request
            &&& t.sdpa_mma == d.sdpa_mma
            &&& t.moe_batch_min_per_expert == d.moe_batch_min_per_expert
            &&& t.gdn_scan_lanes == d.gdn_scan_lanes
            &&& t.gdn_scan_rows == d.gdn_scan_rows
            &&& t.qmm_bn_crossover_tg < d.qmm_bn_crossover_tg <==> device.apple_family == 9
            &&& t.qmm_bn_crossover_tg == 96 || t.qmm_bn_crossover_tg == d.qmm_bn_crossover_tg
            &&& t.qmm_min_batch_moe > d.qmm_min_batch_moe <==> device.apple_family == 8
            &&& t.qmm_min_batch_moe == 12 || t.qmm_min_batch_moe == d.qmm_min_batch_moe
        }),
{
}

/// The defaults: every crossover is a positive count, an emulated GEMM takes
/// over no earlier than a native one, both matrix paths are on, the tiles widen
/// with the rows, and a scan's group is a SIMD group's lanes wide.
pub proof fn law_the_defaults_are_in_order()
    ensures
        ({
            let d = default_tuning();
            &&& d.qmm_min_batch == 8 && d.qmm_min_batch_moe == d.qmm_min_batch
            &&& d.qmm_min_batch < d.qmm_min_batch_emulated == 12
            &&& d.qmm_bn_crossover_tg == 160
            &&& 1 == d.moe_batch_min_per_expert < d.moe_tile_mid_per == 32
            &&& d.moe_tile_mid_per < d.moe_tile_wide_per == 0x100_0000
            &&& d.fp16_qmm && d.sdpa_mma
            &&& d.sdpa_tile_min_rows_per_request == 32
            &&& d.gdn_scan_lanes == 32 && d.gdn_scan_rows == 4
        }),
{
}

} // verus!
