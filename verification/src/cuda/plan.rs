//! The join between a lowering's launches and the operations they lower.
//!
//! A launch's operands carry values; the operation it lowers carries the
//! rest: the weights its statement names, the accumulate flag, and where its
//! outputs were placed. The join is computed once per lowering.

use crate::cuda::trace::{
    Arg, ArgView, Dim, ForwardPlan, GuardArm, Launch, Lowered, Op, OpKind, StateRef, ValueId, NAMED,
};
use crate::strings;
use crate::strings::{str_eq, without_suffix};
use vstd::prelude::*;

verus! {

/// What one launch needs beyond its bound operands.
#[derive(Clone, Debug)]
pub struct LaunchSpec {
    /// The weight the operation names, when it names one. Concrete: the trace
    /// is layer-unrolled, so this is `layer.3.q_proj`, never a template.
    pub weight: Option<String>,
    /// The residual fold. The launch then carries the accumulate target as
    /// its last operand.
    pub beta_one: bool,
    /// The operation's output placements: the values a launch writes that its
    /// operands do not carry.
    pub outs: Vec<Arg>,
    /// The second weight, when the operation names two.
    pub weight2: Option<String>,
    /// The per-request store the operation addresses.
    pub state: Option<StateRef>,
    /// A per-head norm's head width: the launch's rows are token rows, the
    /// kernel's are `tokens * (width / head_dim)`.
    pub per_head_dim: Option<u32>,
    /// A rotation's partial-rotary channel count, when one is stated.
    pub rope_partial: Option<u32>,
    /// The operand a pair-form activation takes and its statement drops: where
    /// the up projection before it was placed.
    pub aux: Vec<Arg>,
}

/// [`LaunchSpec`] with its names as text.
#[verifier::ext_equal]
pub struct LaunchSpecView {
    pub weight: Option<Seq<char>>,
    pub beta_one: bool,
    pub outs: Seq<ArgView>,
    pub weight2: Option<Seq<char>>,
    pub state: Option<StateRef>,
    pub per_head_dim: Option<u32>,
    pub rope_partial: Option<u32>,
    pub aux: Seq<ArgView>,
}

/// The text of an optional name.
pub open spec fn text_of(name: Option<String>) -> Option<Seq<char>> {
    match name {
        Some(s) => Some(s@),
        None => None,
    }
}

/// The views of a run of operands.
pub open spec fn arg_views(args: Seq<Arg>) -> Seq<ArgView> {
    Seq::new(args.len(), |i: int| args[i]@)
}

impl View for LaunchSpec {
    type V = LaunchSpecView;

    open spec fn view(&self) -> LaunchSpecView {
        LaunchSpecView {
            weight: text_of(self.weight),
            beta_one: self.beta_one,
            outs: arg_views(self.outs@),
            weight2: text_of(self.weight2),
            state: self.state,
            per_head_dim: self.per_head_dim,
            rope_partial: self.rope_partial,
            aux: arg_views(self.aux@),
        }
    }
}

/// The join of an operation that states nothing beyond its operands.
pub open spec fn nothing_stated() -> LaunchSpecView {
    LaunchSpecView {
        weight: None,
        beta_one: false,
        outs: Seq::empty(),
        weight2: None,
        state: None,
        per_head_dim: None,
        rope_partial: None,
        aux: Seq::empty(),
    }
}

impl Default for LaunchSpec {
    fn default() -> (spec: Self)
        ensures
            spec@ == nothing_stated(),
    {
        let spec = LaunchSpec {
            weight: None,
            beta_one: false,
            outs: Vec::new(),
            weight2: None,
            state: None,
            per_head_dim: None,
            rope_partial: None,
            aux: Vec::new(),
        };
        assert(spec@ =~= nothing_stated());
        spec
    }
}

/// The product of a shape's fixed extents.
pub open spec fn const_product(shape: Seq<Dim>) -> nat
    decreases shape.len(),
{
    if shape.len() == 0 {
        1
    } else {
        match shape.last() {
            Dim::Const(w) => const_product(shape.drop_last()) * (w as nat),
            Dim::Rows => const_product(shape.drop_last()),
        }
    }
}

/// Elements per row of a shape: the product of its fixed extents, and never
/// less than one.
pub open spec fn row_width(shape: Seq<Dim>) -> nat {
    if const_product(shape) < 1 {
        1
    } else {
        const_product(shape)
    }
}

/// The product can be taken, extent by extent, in 32 bits.
pub open spec fn width_fits(shape: Seq<Dim>) -> bool {
    forall|k: int| 0 <= k <= shape.len() ==> const_product(#[trigger] shape.take(k)) <= u32::MAX
}

/// Where a value lives: its arena slot, or the name the backend binds when it
/// was not placed.
pub open spec fn placement(plan: ForwardPlan, lowered: Lowered, v: ValueId) -> ArgView {
    let width = row_width(plan.values@[v as int].shape@) as u32;
    if v < lowered.value_offset@.len() && lowered.value_offset@[v as int] != NAMED {
        ArgView::Arena { at: lowered.value_offset@[v as int], width }
    } else {
        ArgView::Named { value: v, width }
    }
}

/// Operations in a guard's arms.
pub open spec fn arm_ops(arms: Seq<GuardArm>) -> nat
    decreases arms.len(),
{
    if arms.len() == 0 {
        0
    } else {
        arm_ops(arms.drop_last()) + arms.last().ops as nat
    }
}

/// Operations in the regions of a guard, or zero for anything else.
pub open spec fn region_ops(kind: OpKind) -> nat {
    match kind {
        OpKind::Guard { arms, else_ops } => arm_ops(arms@) + else_ops as nat,
        _ => 0,
    }
}

/// Operation `o` stands in one of guard `g`'s regions.
pub open spec fn in_region(ops: Seq<Op>, g: int, o: int) -> bool {
    g < o <= g + region_ops(ops[g].kind)
}

/// The last of the first `n` operations that is a guard with `o` in one of its
/// regions: the innermost guard around `o`, for `n` at `o` or beyond.
pub open spec fn owning_guard(ops: Seq<Op>, o: int, n: int) -> Option<int>
    decreases n,
{
    if n <= 0 {
        None
    } else if in_region(ops, n - 1, o) {
        Some(n - 1)
    } else {
        owning_guard(ops, o, n - 1)
    }
}

/// The values a launch of operation `o` writes: the operation's own, or, for
/// one that records none, those of the guard around it.
pub open spec fn written_values(plan: ForwardPlan, o: int) -> Seq<ValueId> {
    if plan.ops@[o].outputs@.len() > 0 {
        plan.ops@[o].outputs@
    } else {
        match owning_guard(plan.ops@, o, plan.ops@.len() as int) {
            Some(g) => plan.ops@[g].outputs@,
            None => Seq::empty(),
        }
    }
}

/// The first weight an operation names.
pub open spec fn first_weight(kind: OpKind) -> Option<Seq<char>> {
    match kind {
        OpKind::Embed { weight } => Some(weight@),
        OpKind::Rmsnorm { weight } => Some(weight@),
        OpKind::RmsnormPerHead { weight, .. } => Some(weight@),
        OpKind::AddBias { weight } => Some(weight@),
        OpKind::RmsnormGated { weight } => Some(weight@),
        OpKind::CausalConv1d { weight } => Some(weight@),
        OpKind::LmHead { weight } => Some(weight@),
        OpKind::Matmul { weight, .. } => Some(weight@),
        OpKind::GdnPrep { a_log, .. } => Some(a_log@),
        OpKind::Launch { weights } => if weights@.len() > 0 {
            Some(weights@[0]@)
        } else {
            None
        },
        _ => None,
    }
}

/// The second weight an operation names.
pub open spec fn second_weight(kind: OpKind) -> Option<Seq<char>> {
    match kind {
        OpKind::GdnPrep { dt_bias, .. } => Some(dt_bias@),
        OpKind::Launch { weights } => if weights@.len() > 1 {
            Some(weights@[1]@)
        } else {
            None
        },
        _ => None,
    }
}

/// The activations whose launcher takes two projections and whose statement
/// records one.
pub open spec fn is_pair_form(kernel: Seq<char>) -> bool {
    ||| kernel == "mlp::swiglu_bf16"@
    ||| kernel == "mlp::swiglu_clamp_bf16"@
    ||| kernel == "mlp::situ_bf16"@
}

/// The operation is an up projection, by the name of its weight.
pub open spec fn is_up_projection(op: Op) -> bool {
    &&& op.outputs@.len() > 0
    &&& op.kind matches OpKind::Matmul { weight, .. } && strings::is_suffix(weight@, "up_proj"@)
}

/// The last up projection of the first `n` operations.
pub open spec fn last_up_projection(ops: Seq<Op>, n: int) -> Option<int>
    decreases n,
{
    if n <= 0 {
        None
    } else if is_up_projection(ops[n - 1]) {
        Some(n - 1)
    } else {
        last_up_projection(ops, n - 1)
    }
}

/// The value a pair-form launch recovers: what the last up projection before
/// it produced.
pub open spec fn recovered_value(
    plan: ForwardPlan,
    lowered: Lowered,
    launch: Launch,
) -> Option<ValueId> {
    if launch.kernel < lowered.kernels@.len() && is_pair_form(
        lowered.kernels@[launch.kernel as int]@,
    ) {
        match last_up_projection(plan.ops@, launch.op as int) {
            Some(u) => Some(plan.ops@[u].outputs@[0]),
            None => None,
        }
    } else {
        None
    }
}

/// Where the recovered value was placed.
pub open spec fn recovered_args(
    plan: ForwardPlan,
    lowered: Lowered,
    launch: Launch,
) -> Seq<ArgView> {
    match recovered_value(plan, lowered, launch) {
        Some(v) => Seq::<ArgView>::empty().push(placement(plan, lowered, v)),
        None => Seq::empty(),
    }
}

/// The join of one launch with the operation it lowers.
pub open spec fn joined(plan: ForwardPlan, lowered: Lowered, launch: Launch) -> LaunchSpecView {
    let o = launch.op as int;
    let kind = plan.ops@[o].kind;
    let outs = written_values(plan, o);
    LaunchSpecView {
        weight: first_weight(kind),
        beta_one: kind is Matmul && kind->beta_one,
        outs: Seq::new(outs.len(), |i: int| placement(plan, lowered, outs[i])),
        weight2: second_weight(kind),
        state: plan.ops@[o].state,
        per_head_dim: if kind is RmsnormPerHead {
            Some(kind->head_dim)
        } else {
            None
        },
        rope_partial: if kind is Rope {
            kind->partial
        } else {
            None
        },
        aux: recovered_args(plan, lowered, launch),
    }
}

/// The plan and the lowering speak of the same trace: every launch lowers an
/// operation of the plan, and every value it writes or recovers has a shape
/// whose width can be taken.
pub open spec fn joinable(plan: ForwardPlan, lowered: Lowered) -> bool {
    forall|i: int|
        0 <= i < lowered.launches@.len() ==> launch_joinable(
            plan,
            lowered,
            #[trigger] lowered.launches@[i],
        )
}

/// The plan has the value, and its width can be taken.
pub open spec fn has_width(plan: ForwardPlan, v: ValueId) -> bool {
    v < plan.values@.len() && width_fits(plan.values@[v as int].shape@)
}

/// One launch's share of [`joinable`].
pub open spec fn launch_joinable(plan: ForwardPlan, lowered: Lowered, launch: Launch) -> bool {
    let o = launch.op as int;
    &&& o < plan.ops@.len()
    &&& forall|k: int|
        0 <= k < written_values(plan, o).len() ==> has_width(
            plan,
            #[trigger] written_values(plan, o)[k],
        )
    &&& recovered_value(plan, lowered, launch) matches Some(v) ==> has_width(plan, v)
}

/// The per-launch join over a whole lowering.
#[derive(Clone, Debug)]
pub struct DispatchPlan {
    specs: Vec<LaunchSpec>,
}

/// Elements per row of a shape.
fn width_of(shape: &Vec<Dim>) -> (width: u32)
    requires
        width_fits(shape@),
    ensures
        width == row_width(shape@),
{
    let mut product: u32 = 1;
    let mut k: usize = 0;
    while k < shape.len()
        invariant
            k <= shape@.len(),
            width_fits(shape@),
            product == const_product(shape@.take(k as int)),
        decreases shape@.len() - k,
    {
        let ghost next = shape@.take(k + 1);
        assert(next.drop_last() =~= shape@.take(k as int));
        assert(const_product(next) <= u32::MAX);
        if let Dim::Const(w) = shape[k] {
            assert(next.last() == Dim::Const(w));
            product = product * w;
        }
        k += 1;
    }
    assert(shape@.take(k as int) =~= shape@);
    if product < 1 {
        1
    } else {
        product
    }
}

/// Where a value lives.
fn placed(plan: &ForwardPlan, lowered: &Lowered, v: ValueId) -> (arg: Arg)
    requires
        v < plan.values@.len(),
        width_fits(plan.values@[v as int].shape@),
    ensures
        arg@ == placement(*plan, *lowered, v),
{
    let width: u32 = width_of(&plan.values[v as usize].shape);
    if (v as usize) < lowered.value_offset.len() && lowered.value_offset[v as usize] != NAMED {
        Arg::Arena { at: lowered.value_offset[v as usize], width }
    } else {
        Arg::Named { value: v, width }
    }
}

/// A guard's region operations, counted no further than `limit`.
fn region_len(kind: &OpKind, limit: usize) -> (n: usize)
    ensures
        n == (if region_ops(*kind) <= limit {
            region_ops(*kind)
        } else {
            limit as nat
        }),
{
    match kind {
        OpKind::Guard { arms, else_ops } => {
            let mut n: usize = 0;
            let mut i: usize = 0;
            while i < arms.len()
                invariant
                    i <= arms@.len(),
                    n == (if arm_ops(arms@.take(i as int)) <= limit {
                        arm_ops(arms@.take(i as int))
                    } else {
                        limit as nat
                    }),
                decreases arms@.len() - i,
            {
                assert(arms@.take(i + 1).drop_last() =~= arms@.take(i as int));
                let step: u32 = arms[i].ops;
                if (step as u64) > (limit - n) as u64 {
                    n = limit;
                } else {
                    n = n + step as usize;
                }
                i += 1;
            }
            assert(arms@.take(i as int) =~= arms@);
            let step: u32 = *else_ops;
            if (step as u64) > (limit - n) as u64 {
                limit
            } else {
                n + step as usize
            }
        },
        _ => 0,
    }
}

/// The guard index [`owning_guard`] finds, as the table holds it.
pub open spec fn guard_entry(owner: Option<int>) -> Option<usize> {
    match owner {
        Some(g) => Some(g as usize),
        None => None,
    }
}

/// Each operation's owning guard. A later guard's regions overwrite an earlier
/// one's, so the innermost is what stays.
fn guard_table(ops: &Vec<Op>) -> (table: Vec<Option<usize>>)
    ensures
        table@.len() == ops@.len(),
        forall|o: int|
            0 <= o < ops@.len() ==> #[trigger] table@[o] == guard_entry(
                owning_guard(ops@, o, ops@.len() as int),
            ),
{
    let n: usize = ops.len();
    let mut table: Vec<Option<usize>> = Vec::new();
    let mut i: usize = 0;
    while i < n
        invariant
            i <= n,
            table@.len() == i,
            forall|o: int| 0 <= o < i ==> #[trigger] table@[o] is None,
        decreases n - i,
    {
        table.push(None);
        i += 1;
    }
    let mut g: usize = 0;
    while g < n
        invariant
            g <= n,
            n == ops@.len(),
            table@.len() == n,
            forall|o: int|
                0 <= o < n ==> #[trigger] table@[o] == guard_entry(
                    owning_guard(ops@, o, g as int),
                ),
        decreases n - g,
    {
        let ghost before = table@;
        let span: usize = region_len(&ops[g].kind, n);
        let end: usize = if span > n - g - 1 {
            n
        } else {
            g + 1 + span
        };
        let mut o: usize = g + 1;
        while o < end
            invariant
                g < n,
                g + 1 <= o <= end <= n,
                table@.len() == n,
                before.len() == n,
                forall|k: int|
                    0 <= k < n ==> #[trigger] table@[k] == (if g < k < o {
                        Some(g)
                    } else {
                        before[k]
                    }),
            decreases end - o,
        {
            table.set(o, Some(g));
            o += 1;
        }
        assert forall|k: int| 0 <= k < n implies #[trigger] table@[k] == guard_entry(
            owning_guard(ops@, k, g + 1),
        ) by {
            assert(in_region(ops@, g as int, k) <==> g < k < end);
            assert(before[k] == guard_entry(owning_guard(ops@, k, g as int)));
        }
        g += 1;
    }
    table
}

/// A copy of an optional name.
fn copy_name(weights: &Vec<String>, i: usize) -> (name: Option<String>)
    ensures
        text_of(name) == (if i < weights@.len() {
            Some(weights@[i as int]@)
        } else {
            None
        }),
{
    if i < weights.len() {
        Some(weights[i].clone())
    } else {
        None
    }
}

/// The weights an operation names.
fn weights_of(kind: &OpKind) -> (names: (Option<String>, Option<String>))
    ensures
        text_of(names.0) == first_weight(*kind),
        text_of(names.1) == second_weight(*kind),
{
    match kind {
        OpKind::Embed { weight } => (Some(weight.clone()), None),
        OpKind::Rmsnorm { weight } => (Some(weight.clone()), None),
        OpKind::RmsnormPerHead { weight, .. } => (Some(weight.clone()), None),
        OpKind::AddBias { weight } => (Some(weight.clone()), None),
        OpKind::RmsnormGated { weight } => (Some(weight.clone()), None),
        OpKind::CausalConv1d { weight } => (Some(weight.clone()), None),
        OpKind::LmHead { weight } => (Some(weight.clone()), None),
        OpKind::Matmul { weight, .. } => (Some(weight.clone()), None),
        OpKind::GdnPrep { a_log, dt_bias } => (Some(a_log.clone()), Some(dt_bias.clone())),
        OpKind::Launch { weights } => (copy_name(weights, 0), copy_name(weights, 1)),
        OpKind::Rope { .. } => (None, None),
        OpKind::Guard { .. } => (None, None),
        OpKind::Other => (None, None),
    }
}

/// Is the kernel a pair-form activation?
fn pair_form(kernel: &str) -> (yes: bool)
    ensures
        yes <==> is_pair_form(kernel@),
{
    str_eq(kernel, "mlp::swiglu_bf16") || str_eq(kernel, "mlp::swiglu_clamp_bf16") || str_eq(
        kernel,
        "mlp::situ_bf16",
    )
}

/// Is the operation an up projection?
fn up_projection(op: &Op) -> (yes: bool)
    ensures
        yes <==> is_up_projection(*op),
{
    match &op.kind {
        OpKind::Matmul { weight, .. } => op.outputs.len() > 0 && without_suffix(
            weight.as_str(),
            "up_proj",
        ).is_some(),
        _ => false,
    }
}

/// The value a pair-form launch recovers.
fn recover(plan: &ForwardPlan, lowered: &Lowered, launch: &Launch) -> (value: Option<ValueId>)
    requires
        launch.op < plan.ops@.len(),
    ensures
        value == recovered_value(*plan, *lowered, *launch),
{
    if launch.kernel as usize >= lowered.kernels.len() {
        return None;
    }
    if !pair_form(lowered.kernels[launch.kernel as usize].as_str()) {
        return None;
    }
    let mut n: usize = launch.op as usize;
    while n > 0
        invariant
            n <= plan.ops@.len(),
            last_up_projection(plan.ops@, n as int) == last_up_projection(
                plan.ops@,
                launch.op as int,
            ),
            launch.kernel < lowered.kernels@.len(),
            is_pair_form(lowered.kernels@[launch.kernel as int]@),
        decreases n,
    {
        if up_projection(&plan.ops[n - 1]) {
            return Some(plan.ops[n - 1].outputs[0]);
        }
        n = n - 1;
    }
    None
}

/// Join one launch.
fn join_launch(
    plan: &ForwardPlan,
    lowered: &Lowered,
    launch: &Launch,
    guard_of: &Vec<Option<usize>>,
) -> (spec: LaunchSpec)
    requires
        launch_joinable(*plan, *lowered, *launch),
        guard_of@.len() == plan.ops@.len(),
        forall|o: int|
            0 <= o < plan.ops@.len() ==> #[trigger] guard_of@[o] == guard_entry(
                owning_guard(plan.ops@, o, plan.ops@.len() as int),
            ),
    ensures
        spec@ == joined(*plan, *lowered, *launch),
{
    let o: usize = launch.op as usize;
    let ghost written = written_values(*plan, o as int);
    let op = &plan.ops[o];
    let mut outs: Vec<Arg> = Vec::new();
    let mut source: usize = o;
    let mut known: bool = op.outputs.len() > 0;
    if !known {
        proof {
            lemma_owner_in_range(plan.ops@, o as int, plan.ops@.len() as int);
        }
        if let Some(g) = guard_of[o] {
            source = g;
            known = true;
        }
    }
    if known {
        let values = &plan.ops[source].outputs;
        assert(values@ == written);
        let mut i: usize = 0;
        while i < values.len()
            invariant
                i <= values@.len(),
                values@ == written,
                written == written_values(*plan, o as int),
                o == launch.op,
                launch_joinable(*plan, *lowered, *launch),
                outs@.len() == i,
                forall|k: int|
                    0 <= k < i ==> (#[trigger] outs@[k])@ == placement(*plan, *lowered, written[k]),
            decreases values@.len() - i,
        {
            assert(has_width(*plan, written_values(*plan, o as int)[i as int]));
            let arg = placed(plan, lowered, values[i]);
            outs.push(arg);
            i += 1;
        }
    }
    let (weight, weight2) = weights_of(&op.kind);
    let beta_one: bool = match &op.kind {
        OpKind::Matmul { beta_one, .. } => *beta_one,
        _ => false,
    };
    let per_head_dim: Option<u32> = match &op.kind {
        OpKind::RmsnormPerHead { head_dim, .. } => Some(*head_dim),
        _ => None,
    };
    let rope_partial: Option<u32> = match &op.kind {
        OpKind::Rope { partial } => *partial,
        _ => None,
    };
    let mut aux: Vec<Arg> = Vec::new();
    if let Some(v) = recover(plan, lowered, launch) {
        aux.push(placed(plan, lowered, v));
    }
    let spec = LaunchSpec {
        weight,
        beta_one,
        outs,
        weight2,
        state: op.state,
        per_head_dim,
        rope_partial,
        aux,
    };
    assert(spec@.outs =~= joined(*plan, *lowered, *launch).outs);
    assert(spec@.aux =~= recovered_args(*plan, *lowered, *launch));
    spec
}

/// An owning guard stands before the operation it owns.
pub proof fn lemma_owner_in_range(ops: Seq<Op>, o: int, n: int)
    ensures
        owning_guard(ops, o, n) matches Some(g) ==> 0 <= g < n && in_region(ops, g, o),
    decreases n,
{
    if n > 0 && !in_region(ops, n - 1, o) {
        lemma_owner_in_range(ops, o, n - 1);
    }
}

impl View for DispatchPlan {
    type V = Seq<LaunchSpecView>;

    closed spec fn view(&self) -> Seq<LaunchSpecView> {
        Seq::new(self.specs@.len(), |i: int| self.specs@[i]@)
    }
}

impl DispatchPlan {
    /// Join `lowered`'s launches with the operations that produced them.
    pub fn new(plan: &ForwardPlan, lowered: &Lowered) -> (joined_plan: Self)
        requires
            joinable(*plan, *lowered),
        ensures
            joined_plan@ == Seq::new(
                lowered.launches@.len(),
                |i: int| joined(*plan, *lowered, lowered.launches@[i]),
            ),
    {
        let guard_of = guard_table(&plan.ops);
        let mut specs: Vec<LaunchSpec> = Vec::new();
        let mut i: usize = 0;
        while i < lowered.launches.len()
            invariant
                i <= lowered.launches@.len(),
                joinable(*plan, *lowered),
                guard_of@.len() == plan.ops@.len(),
                forall|o: int|
                    0 <= o < plan.ops@.len() ==> #[trigger] guard_of@[o] == guard_entry(
                        owning_guard(plan.ops@, o, plan.ops@.len() as int),
                    ),
                specs@.len() == i,
                forall|k: int|
                    0 <= k < i ==> (#[trigger] specs@[k])@ == joined(
                        *plan,
                        *lowered,
                        lowered.launches@[k],
                    ),
            decreases lowered.launches@.len() - i,
        {
            let launch = &lowered.launches[i];
            assert(launch_joinable(*plan, *lowered, lowered.launches@[i as int]));
            let spec = join_launch(plan, lowered, launch, &guard_of);
            specs.push(spec);
            i += 1;
        }
        let joined_plan = DispatchPlan { specs };
        assert(joined_plan@ =~= Seq::new(
            lowered.launches@.len(),
            |i: int| joined(*plan, *lowered, lowered.launches@[i]),
        ));
        joined_plan
    }

    /// The spec for launch `i`, where the join covers it.
    pub fn get(&self, i: usize) -> (spec: Option<&LaunchSpec>)
        ensures
            match spec {
                Some(s) => i < self@.len() && s@ == self@[i as int],
                None => i >= self@.len(),
            },
    {
        if i < self.specs.len() {
            Some(&self.specs[i])
        } else {
            None
        }
    }

    /// The spec for launch `i`, index-parallel with the launches.
    pub fn spec(&self, i: usize) -> (spec: &LaunchSpec)
        requires
            i < self@.len(),
        ensures
            spec@ == self@[i as int],
    {
        &self.specs[i]
    }
}

/// Where the last up projection before an operation stands.
proof fn lemma_last_up_projection(ops: Seq<Op>, n: int, u: int)
    requires
        0 <= u < n <= ops.len(),
        is_up_projection(ops[u]),
    ensures
        last_up_projection(ops, n) matches Some(found) && u <= found < n && is_up_projection(
            ops[found],
        ),
    decreases n,
{
    if !is_up_projection(ops[n - 1]) {
        lemma_last_up_projection(ops, n - 1, u);
    }
}

/// A pair-form activation with an up projection before it recovers exactly one
/// operand from the join, and it is what an up projection produced. No other
/// launch recovers any.
pub proof fn law_a_pair_form_recovers_its_up_projection(
    plan: ForwardPlan,
    lowered: Lowered,
    launch: Launch,
    u: int,
)
    requires
        launch.kernel < lowered.kernels@.len(),
        0 <= u < launch.op <= plan.ops@.len(),
        is_up_projection(plan.ops@[u]),
    ensures
        is_pair_form(lowered.kernels@[launch.kernel as int]@) ==> {
            &&& joined(plan, lowered, launch).aux.len() == 1
            &&& exists|up: int|
                u <= up < launch.op && is_up_projection(#[trigger] plan.ops@[up]) && joined(
                    plan,
                    lowered,
                    launch,
                ).aux[0] == placement(plan, lowered, plan.ops@[up].outputs@[0])
        },
        !is_pair_form(lowered.kernels@[launch.kernel as int]@) ==> joined(
            plan,
            lowered,
            launch,
        ).aux.len() == 0,
{
    lemma_last_up_projection(plan.ops@, launch.op as int, u);
    let found = last_up_projection(plan.ops@, launch.op as int)->Some_0;
    assert(is_up_projection(plan.ops@[found]));
}

/// An operation that names a weight hands it to its launch as it is written,
/// and one that names none hands none: a norm, a projection, an embedding, a
/// bias, a convolution and the head name one, the gated-delta preparation two,
/// and a kernel stated directly its first two.
pub proof fn law_a_launch_gets_the_weights_its_operation_names(
    plan: ForwardPlan,
    lowered: Lowered,
    launch: Launch,
)
    ensures
        ({
            let spec = joined(plan, lowered, launch);
            let kind = plan.ops@[launch.op as int].kind;
            &&& kind matches OpKind::Embed { weight } ==> names_one(spec, weight@)
            &&& kind matches OpKind::Rmsnorm { weight } ==> names_one(spec, weight@)
            &&& kind matches OpKind::RmsnormPerHead { weight, .. } ==> names_one(spec, weight@)
            &&& kind matches OpKind::AddBias { weight } ==> names_one(spec, weight@)
            &&& kind matches OpKind::RmsnormGated { weight } ==> names_one(spec, weight@)
            &&& kind matches OpKind::CausalConv1d { weight } ==> names_one(spec, weight@)
            &&& kind matches OpKind::LmHead { weight } ==> names_one(spec, weight@)
            &&& kind matches OpKind::Matmul { weight, .. } ==> names_one(spec, weight@)
            &&& kind matches OpKind::GdnPrep { a_log, dt_bias } ==> spec.weight == Some(a_log@)
                && spec.weight2 == Some(dt_bias@)
            &&& kind matches OpKind::Launch { weights } ==> {
                &&& weights@.len() == 0 ==> spec.weight is None && spec.weight2 is None
                &&& weights@.len() > 0 ==> spec.weight == Some(weights@[0]@)
                &&& weights@.len() == 1 ==> spec.weight2 is None
                &&& weights@.len() > 1 ==> spec.weight2 == Some(weights@[1]@)
            }
            &&& kind is Rope || kind is Guard || kind is Other ==> spec.weight is None
                && spec.weight2 is None
        }),
{
}

/// One weight, of this name.
pub open spec fn names_one(spec: LaunchSpecView, name: Seq<char>) -> bool {
    spec.weight == Some(name) && spec.weight2 is None
}

/// What an operation states beside its weights reaches its launch, and nothing
/// it does not state: the residual fold is a projection's, the head width a
/// per-head norm's, the rotary width a rotation's, and the store the
/// operation's own.
pub proof fn law_a_launch_gets_what_its_operation_states(
    plan: ForwardPlan,
    lowered: Lowered,
    launch: Launch,
)
    ensures
        ({
            let spec = joined(plan, lowered, launch);
            let op = plan.ops@[launch.op as int];
            &&& spec.beta_one <==> (op.kind matches OpKind::Matmul { beta_one, .. } && beta_one)
            &&& op.kind matches OpKind::RmsnormPerHead { head_dim, .. } ==> spec.per_head_dim
                == Some(head_dim)
            &&& !(op.kind is RmsnormPerHead) ==> spec.per_head_dim is None
            &&& op.kind matches OpKind::Rope { partial } ==> spec.rope_partial == partial
            &&& !(op.kind is Rope) ==> spec.rope_partial is None
            &&& spec.state == op.state
        }),
{
}

/// A launch writes its operation's values, in their order; where the operation
/// records none, those of the innermost guard around it; and none where no
/// guard is. Each is placed where the lowering put it, or named where it put it
/// nowhere.
pub proof fn law_a_launch_writes_its_own_values_or_its_guards(
    plan: ForwardPlan,
    lowered: Lowered,
    launch: Launch,
    g: int,
)
    requires
        0 <= launch.op < plan.ops@.len(),
        0 <= g < launch.op,
    ensures
        ({
            let spec = joined(plan, lowered, launch);
            let o = launch.op as int;
            let own = plan.ops@[o].outputs@;
            let guards = plan.ops@[g].outputs@;
            &&& own.len() > 0 ==> places(plan, lowered, spec.outs, own)
            &&& own.len() == 0 && in_region(plan.ops@, g, o) && (forall|h: int|
                g < h < o ==> !in_region(plan.ops@, h, o)) ==> places(
                plan,
                lowered,
                spec.outs,
                guards,
            )
            &&& own.len() == 0 && (forall|h: int| 0 <= h < o ==> !in_region(plan.ops@, h, o))
                ==> spec.outs.len() == 0
        }),
{
    let o = launch.op as int;
    let n = plan.ops@.len() as int;
    lemma_no_owner_from(plan.ops@, o, n);
    if in_region(plan.ops@, g, o) && (forall|h: int| g < h < o ==> !in_region(plan.ops@, h, o)) {
        lemma_owner_is_the_last(plan.ops@, o, o, g);
    }
    if forall|h: int| 0 <= h < o ==> !in_region(plan.ops@, h, o) {
        lemma_no_owner(plan.ops@, o, o);
    }
}

/// Each value stands where the lowering placed it, at its own row width, or is
/// named.
pub open spec fn places(
    plan: ForwardPlan,
    lowered: Lowered,
    outs: Seq<ArgView>,
    values: Seq<ValueId>,
) -> bool {
    &&& outs.len() == values.len()
    &&& forall|k: int|
        0 <= k < outs.len() ==> {
            let v = values[k];
            let width = row_width(plan.values@[v as int].shape@) as u32;
            let at = lowered.value_offset@;
            &&& v < at.len() && at[v as int] != NAMED ==> #[trigger] outs[k] == (ArgView::Arena {
                at: at[v as int],
                width,
            })
            &&& v >= at.len() || at[v as int] == NAMED ==> outs[k] == (ArgView::Named {
                value: v,
                width,
            })
        }
}

/// No guard stands after what it owns.
proof fn lemma_no_owner_from(ops: Seq<Op>, o: int, n: int)
    requires
        0 <= o <= n,
    ensures
        owning_guard(ops, o, n) == owning_guard(ops, o, o),
    decreases n - o,
{
    if n > o {
        lemma_no_owner_from(ops, o, n - 1);
    }
}

/// The last guard around an operation owns it.
proof fn lemma_owner_is_the_last(ops: Seq<Op>, o: int, n: int, g: int)
    requires
        0 <= g < n,
        in_region(ops, g, o),
        forall|h: int| g < h < n ==> !in_region(ops, h, o),
    ensures
        owning_guard(ops, o, n) == Some(g),
    decreases n - g,
{
    if n - 1 > g {
        lemma_owner_is_the_last(ops, o, n - 1, g);
    }
}

/// Where no guard is around an operation, none owns it.
proof fn lemma_no_owner(ops: Seq<Op>, o: int, n: int)
    requires
        forall|h: int| 0 <= h < n ==> !in_region(ops, h, o),
    ensures
        owning_guard(ops, o, n) is None,
    decreases n,
{
    if n > 0 {
        lemma_no_owner(ops, o, n - 1);
    }
}

/// A guard's regions are the operations that follow it, as many as its arms and
/// its else hold together; nothing else has any.
pub proof fn law_a_guards_regions_follow_it(
    ops: Seq<Op>,
    g: int,
    o: int,
    first: GuardArm,
    second: GuardArm,
)
    requires
        0 <= g < ops.len(),
    ensures
        !(ops[g].kind is Guard) ==> !in_region(ops, g, o),
        ops[g].kind matches OpKind::Guard { arms, else_ops } ==> {
            &&& arms@ == seq![first] ==> (in_region(ops, g, o) <==> g < o <= g + first.ops
                + else_ops)
            &&& arms@ == seq![first, second] ==> (in_region(ops, g, o) <==> g < o <= g + first.ops
                + second.ops + else_ops)
            &&& arms@.len() == 0 ==> (in_region(ops, g, o) <==> g < o <= g + else_ops)
        },
{
    reveal_with_fuel(arm_ops, 3);
    assert(seq![first].drop_last() =~= Seq::<GuardArm>::empty());
    assert(seq![first, second].drop_last() =~= seq![first]);
}

/// Arms count together what they count apart, in any split.
pub proof fn law_arms_count_together(a: Seq<GuardArm>, b: Seq<GuardArm>)
    ensures
        arm_ops(a + b) == arm_ops(a) + arm_ops(b),
    decreases b.len(),
{
    if b.len() > 0 {
        law_arms_count_together(a, b.drop_last());
        assert((a + b).drop_last() =~= a + b.drop_last());
    } else {
        assert(a + b =~= a);
    }
}

/// A row's width is the product of the extents the deployment fixes: a row
/// count adds nothing to it, and two shapes end to end multiply.
pub proof fn law_a_row_is_as_wide_as_its_fixed_extents(a: Seq<Dim>, b: Seq<Dim>, w: u32)
    ensures
        const_product(a + b) == const_product(a) * const_product(b),
        const_product(seq![Dim::Rows]) == 1,
        const_product(seq![Dim::Const(w)]) == w,
        row_width(seq![Dim::Rows]) == 1,
        w > 0 ==> row_width(seq![Dim::Rows, Dim::Const(w)]) == w,
        row_width(a) >= 1,
    decreases b.len(),
{
    reveal_with_fuel(const_product, 3);
    assert(seq![Dim::Rows].drop_last() =~= Seq::<Dim>::empty());
    assert(seq![Dim::Const(w)].drop_last() =~= Seq::<Dim>::empty());
    assert(seq![Dim::Rows, Dim::Const(w)].drop_last() =~= seq![Dim::Rows]);
    assert(1 * (w as nat) == w);
    if b.len() > 0 {
        law_a_row_is_as_wide_as_its_fixed_extents(a, b.drop_last(), w);
        assert((a + b).drop_last() =~= a + b.drop_last());
        let x = const_product(a);
        let y = const_product(b.drop_last());
        if let Dim::Const(k) = b.last() {
            assert((x * y) * (k as nat) == x * (y * (k as nat))) by (nonlinear_arith);
        }
    } else {
        assert(a + b =~= a);
        assert(const_product(a) * 1 == const_product(a));
    }
}

/// The up projection a pair form recovers is the nearest one before it: no
/// other stands between. An up projection is a projection whose weight's name
/// ends in `up_proj` and which produces something.
pub proof fn law_the_recovered_up_projection_is_the_nearest(
    plan: ForwardPlan,
    lowered: Lowered,
    launch: Launch,
    u: int,
)
    requires
        launch.kernel < lowered.kernels@.len(),
        0 <= u < launch.op <= plan.ops@.len(),
        plan.ops@[u].outputs@.len() > 0,
        plan.ops@[u].kind matches OpKind::Matmul { weight, .. } && strings::is_suffix(
            weight@,
            "up_proj"@,
        ),
        forall|h: int|
            u < h < launch.op ==> !(#[trigger] plan.ops@[h].kind matches OpKind::Matmul {
                weight,
                ..
            } && strings::is_suffix(weight@, "up_proj"@) && plan.ops@[h].outputs@.len() > 0),
        ({
            let kernel = lowered.kernels@[launch.kernel as int]@;
            kernel == "mlp::swiglu_bf16"@ || kernel == "mlp::swiglu_clamp_bf16"@ || kernel
                == "mlp::situ_bf16"@
        }),
    ensures
        joined(plan, lowered, launch).aux == seq![
            placement(plan, lowered, plan.ops@[u].outputs@[0]),
        ],
{
    lemma_last_up_projection_is(plan.ops@, launch.op as int, u);
    assert(joined(plan, lowered, launch).aux =~= seq![
        placement(plan, lowered, plan.ops@[u].outputs@[0]),
    ]);
}

/// The join of nothing names no weight, folds no residual, writes nowhere,
/// addresses no store, and recovers nothing.
pub proof fn law_the_default_join_states_nothing()
    ensures
        ({
            let s = nothing_stated();
            &&& s.weight is None && s.weight2 is None
            &&& !s.beta_one
            &&& s.outs.len() == 0 && s.aux.len() == 0
            &&& s.state is None && s.per_head_dim is None && s.rope_partial is None
        }),
{
}

/// Only the activations of two projections recover one: a launch of another
/// kernel, or with no up projection before it, recovers nothing.
pub proof fn law_nothing_else_recovers_a_projection(
    plan: ForwardPlan,
    lowered: Lowered,
    launch: Launch,
)
    requires
        launch.kernel < lowered.kernels@.len(),
        launch.op <= plan.ops@.len(),
        ({
            let kernel = lowered.kernels@[launch.kernel as int]@;
            kernel != "mlp::swiglu_bf16"@ && kernel != "mlp::swiglu_clamp_bf16"@ && kernel
                != "mlp::situ_bf16"@
        }) || forall|h: int|
            0 <= h < launch.op ==> !(#[trigger] plan.ops@[h].kind matches OpKind::Matmul {
                weight,
                ..
            } && "up_proj"@.is_suffix_of(weight@) && plan.ops@[h].outputs@.len() > 0),
    ensures
        joined(plan, lowered, launch).aux.len() == 0,
{
    if is_pair_form(lowered.kernels@[launch.kernel as int]@) {
        assert forall|h: int| 0 <= h < launch.op implies !is_up_projection(
            #[trigger] plan.ops@[h],
        ) by {
            if let OpKind::Matmul { weight, .. } = plan.ops@[h].kind {
                strings::law_ends_are_ends(weight@, "up_proj"@);
            }
        }
        lemma_no_up_projection(plan.ops@, launch.op as int);
    }
}

/// No up projection, where none stands.
proof fn lemma_no_up_projection(ops: Seq<Op>, n: int)
    requires
        0 <= n <= ops.len(),
        forall|h: int| 0 <= h < n ==> !is_up_projection(#[trigger] ops[h]),
    ensures
        last_up_projection(ops, n) is None,
    decreases n,
{
    if n > 0 {
        lemma_no_up_projection(ops, n - 1);
    }
}

/// The last up projection, where none stands after it.
proof fn lemma_last_up_projection_is(ops: Seq<Op>, n: int, u: int)
    requires
        0 <= u < n <= ops.len(),
        is_up_projection(ops[u]),
        forall|h: int| u < h < n ==> !is_up_projection(#[trigger] ops[h]),
    ensures
        last_up_projection(ops, n) == Some(u),
    decreases n - u,
{
    if n - 1 > u {
        assert(!is_up_projection(ops[n - 1]));
        lemma_last_up_projection_is(ops, n - 1, u);
    }
}

} // verus!
