//! A step's dispatch list.

use crate::metal::abi::Kernel;
use crate::metal::shapes::{Launch, Shape};
use vstd::prelude::*;

verus! {

/// One dispatch of a step.
#[derive(Clone, Copy, Debug, PartialEq, Eq)]
pub struct Dispatch {
    /// What is dispatched.
    pub kind: Kernel,
    /// Its position in the step.
    pub ordinal: u32,
    /// The layer it belongs to, when it belongs to one.
    pub layer: Option<u32>,
    /// How it is launched.
    pub launch: Launch,
    /// Whether a residual add is folded in.
    pub fuse_residual: bool,
    /// The matmul's column tile, zero when it is not one.
    pub qmm_bn: u32,
    /// The matmul's split.
    pub qmm_split: u32,
    /// The matmul's row tile.
    pub qmm_bm: u32,
}

/// What one dispatch states: the rest of [`Dispatch`] is its position and the
/// single-token defaults.
pub struct Step {
    pub kind: Kernel,
    pub layer: Option<u32>,
    pub shape: Shape,
}

/// A step of a layer.
pub open spec fn at_layer(kind: Kernel, layer: u32, shape: Shape) -> Step {
    Step { kind, layer: Some(layer), shape }
}

/// A step outside the layers.
pub open spec fn outside(kind: Kernel, shape: Shape) -> Step {
    Step { kind, layer: None, shape }
}

/// `d` is `s`, at position `i` of a single-token step: nothing is fused and no
/// projection is a matmul.
pub open spec fn is_step(d: Dispatch, s: Step, i: int) -> bool {
    &&& d.kind == s.kind
    &&& d.ordinal == i
    &&& d.layer == s.layer
    &&& d.launch@ == s.shape
    &&& !d.fuse_residual
    &&& d.qmm_bn == 0
    &&& d.qmm_split == 1
    &&& d.qmm_bm == 16
}

/// A list states these steps in order, each at its own position.
pub open spec fn states(dag: Seq<Dispatch>, steps: Seq<Step>) -> bool {
    &&& dag.len() == steps.len()
    &&& forall|i: int| 0 <= i < dag.len() ==> is_step(#[trigger] dag[i], steps[i], i)
}

/// A dispatch list under construction, with the steps it states.
pub(crate) struct DagBuilder {
    pub(crate) dag: Vec<Dispatch>,
    pub(crate) steps: Ghost<Seq<Step>>,
}

impl DagBuilder {
    pub(crate) open spec fn wf(&self) -> bool {
        states(self.dag@, self.steps@)
    }

    pub(crate) fn new() -> (b: Self)
        ensures
            b.wf(),
            b.steps@ == Seq::<Step>::empty(),
    {
        DagBuilder { dag: Vec::new(), steps: Ghost(Seq::empty()) }
    }

    /// Append one dispatch, at the next position.
    pub(crate) fn emit(&mut self, kind: Kernel, layer: Option<u32>, launch: Launch)
        requires
            old(self).wf(),
            old(self).steps@.len() <= u32::MAX,
        ensures
            final(self).wf(),
            final(self).steps@ == old(self).steps@.push(Step { kind, layer, shape: launch@ }),
    {
        let ordinal: u32 = self.dag.len() as u32;
        self.dag.push(
            Dispatch {
                kind,
                ordinal,
                layer,
                launch,
                fuse_residual: false,
                qmm_bn: 0,
                qmm_split: 1,
                qmm_bm: 16,
            },
        );
        self.steps = Ghost(self.steps@.push(Step { kind, layer, shape: launch@ }));
    }
}

/// How many of a run of steps are of the kinds `counts` names.
pub open spec fn count_kinds(steps: Seq<Step>, counts: spec_fn(Kernel) -> bool) -> int
    decreases steps.len(),
{
    if steps.len() == 0 {
        0
    } else {
        count_kinds(steps.drop_last(), counts) + (if counts(steps.last().kind) {
            1int
        } else {
            0
        })
    }
}

/// How many dispatches are of the kinds `counts` names.
pub open spec fn count_dispatches(dag: Seq<Dispatch>, counts: spec_fn(Kernel) -> bool) -> int
    decreases dag.len(),
{
    if dag.len() == 0 {
        0
    } else {
        count_dispatches(dag.drop_last(), counts) + (if counts(dag.last().kind) {
            1int
        } else {
            0
        })
    }
}

/// A list counts as the steps it states.
pub proof fn lemma_counts_agree(
    dag: Seq<Dispatch>,
    steps: Seq<Step>,
    counts: spec_fn(Kernel) -> bool,
)
    requires
        states(dag, steps),
    ensures
        count_dispatches(dag, counts) == count_kinds(steps, counts),
    decreases dag.len(),
{
    if dag.len() > 0 {
        assert(is_step(dag.last(), steps.last(), dag.len() - 1));
        assert forall|i: int| 0 <= i < dag.len() - 1 implies is_step(
            #[trigger] dag.drop_last()[i],
            steps.drop_last()[i],
            i,
        ) by {
            assert(is_step(dag[i], steps[i], i));
        }
        lemma_counts_agree(dag.drop_last(), steps.drop_last(), counts);
    }
}

/// Appending a step counts it.
pub proof fn lemma_count_push(steps: Seq<Step>, s: Step, counts: spec_fn(Kernel) -> bool)
    ensures
        count_kinds(steps.push(s), counts) == count_kinds(steps, counts) + (if counts(s.kind) {
            1int
        } else {
            0
        }),
{
    assert(steps.push(s).drop_last() =~= steps);
}

/// In a list that states steps, the ordinals are the positions.
pub proof fn law_ordinals_are_positions(dag: Seq<Dispatch>, steps: Seq<Step>, i: int)
    requires
        states(dag, steps),
        0 <= i < dag.len(),
    ensures
        dag[i].ordinal == i,
{
    assert(is_step(dag[i], steps[i], i));
}

/// The places of a run of steps rise: each stands after all before it.
pub open spec fn rises(steps: Seq<Step>, place: spec_fn(Step) -> int) -> bool {
    forall|i: int, j: int|
        #![trigger steps[i], steps[j]]
        0 <= i < j < steps.len() ==> place(steps[i]) < place(steps[j])
}

/// A step past the last keeps the places rising.
pub proof fn lemma_rises_push(steps: Seq<Step>, s: Step, place: spec_fn(Step) -> int)
    requires
        rises(steps, place),
        steps.len() > 0 ==> place(steps.last()) < place(s),
    ensures
        rises(steps.push(s), place),
        steps.push(s).last() == s,
        steps.push(s).len() > 0,
{
    let more = steps.push(s);
    assert forall|i: int, j: int|
        #![trigger more[i], more[j]]
        0 <= i < j < more.len() implies place(more[i]) < place(more[j]) by {
        assert(more[i] == steps[i]);
        if j < steps.len() {
            assert(more[j] == steps[j]);
        } else if i < steps.len() - 1 {
            assert(steps[steps.len() - 1] == steps.last());
        }
    }
}

/// Every step of a run meets a condition.
pub open spec fn all_meet(steps: Seq<Step>, condition: spec_fn(Step) -> bool) -> bool {
    forall|i: int| 0 <= i < steps.len() ==> condition(#[trigger] steps[i])
}

/// One more that meets it.
pub proof fn lemma_meets_push(steps: Seq<Step>, s: Step, condition: spec_fn(Step) -> bool)
    requires
        all_meet(steps, condition),
        condition(s),
    ensures
        all_meet(steps.push(s), condition),
{
    let more = steps.push(s);
    assert forall|i: int| 0 <= i < more.len() implies condition(#[trigger] more[i]) by {
        if i < steps.len() {
            assert(more[i] == steps[i]);
        }
    }
}

/// A kind stands in a layer of a run.
pub open spec fn has(steps: Seq<Step>, layer: u32, kind: Kernel) -> bool {
    exists|i: int|
        0 <= i < steps.len() && (#[trigger] steps[i]).kind == kind && steps[i].layer == Some(layer)
}

/// It stands there.
pub proof fn lemma_has_at(steps: Seq<Step>, i: int)
    requires
        0 <= i < steps.len(),
        steps[i].layer is Some,
    ensures
        has(steps, steps[i].layer->Some_0, steps[i].kind),
{
}

/// A run holds on to what a run it begins with has.
pub proof fn lemma_has_more(before: Seq<Step>, after: Seq<Step>, layer: u32, kind: Kernel)
    requires
        has(before, layer, kind),
        before.len() <= after.len(),
        before =~= after.take(before.len() as int),
    ensures
        has(after, layer, kind),
{
    let i = choose|i: int|
        0 <= i < before.len() && (#[trigger] before[i]).kind == kind && before[i].layer == Some(
            layer,
        );
    assert(after.take(before.len() as int)[i] == after[i]);
    assert(after[i].kind == kind);
}

/// A dispatch of a single-token list is at its own position, stands alone, and
/// runs no projection as a matmul: no column tile, one split, and a row tile of
/// sixteen.
pub proof fn law_a_single_token_dispatch_stands_alone(dag: Seq<Dispatch>, steps: Seq<Step>, i: int)
    requires
        states(dag, steps),
        0 <= i < dag.len(),
    ensures
        dag[i].kind == steps[i].kind,
        dag[i].layer == steps[i].layer,
        dag[i].ordinal == i,
        dag[i].launch@ == steps[i].shape,
        !dag[i].fuse_residual,
        dag[i].qmm_bn == 0,
        dag[i].qmm_split == 1,
        dag[i].qmm_bm == 16,
{
}

} // verus!
