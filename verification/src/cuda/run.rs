//! Walking a fire: every launch of a lowering, bound and dispatched in order.

use crate::cuda::action::{ActionView, DispatchAction, DispatchRefusal, DispatchRefusalView};
use crate::cuda::arm;
use crate::cuda::bind;
use crate::cuda::bind::{bind, BindRefusal, BindRefusalView};
use crate::cuda::context::{AttnCtx, DispatchCtx, Frame, GdnCtx};
use crate::cuda::dispatch;
use crate::cuda::dispatch::outcome;
use crate::cuda::fits::{fits, rows_ok};
use crate::cuda::plan::{DispatchPlan, LaunchSpecView};
use crate::cuda::resolver;
use crate::cuda::resolver::Resolver;
use crate::cuda::symbols;
use crate::cuda::trace::Lowered;
use vstd::prelude::*;

verus! {

/// Why a fire's walk stopped.
#[derive(Debug)]
pub struct RunRefusal {
    /// Which launch refused.
    pub launch: usize,
    /// Its kernel.
    pub kernel: String,
    /// The refusal itself.
    pub why: RunRefusalKind,
}

/// The two ways a launch refuses.
#[derive(Debug)]
pub enum RunRefusalKind {
    /// Binding refused.
    Bind(BindRefusal),
    /// Dispatch refused.
    Dispatch(DispatchRefusal),
}

/// [`RunRefusalKind`] with its texts as sequences.
pub enum RunRefusalKindView {
    Bind(BindRefusalView),
    Dispatch(DispatchRefusalView),
}

impl View for RunRefusalKind {
    type V = RunRefusalKindView;

    open spec fn view(&self) -> RunRefusalKindView {
        match *self {
            RunRefusalKind::Bind(e) => RunRefusalKindView::Bind(e@),
            RunRefusalKind::Dispatch(e) => RunRefusalKindView::Dispatch(e@),
        }
    }
}

/// What launch `i` of a fire comes to.
pub open spec fn step<R: Resolver>(
    lowered: Lowered,
    specs: Seq<LaunchSpecView>,
    i: int,
    frame: Frame,
    r: R,
    c: &DispatchCtx,
    attn: Option<&AttnCtx>,
    gdn: Option<&GdnCtx>,
) -> Result<ActionView, RunRefusalKindView> {
    match bind::bound_launch(lowered, lowered.launches@[i], frame, r) {
        Err(e) => Err(RunRefusalKindView::Bind(e)),
        Ok(b) => match dispatch::dispatched(b, specs[i], frame, r, c, attn, gdn) {
            Err(e) => Err(RunRefusalKindView::Dispatch(e)),
            Ok(action) => Ok(action),
        },
    }
}

/// Launch `i` can be asked for: its operands and kernel are the lowering's,
/// and, where it binds, the join covers it and its arm's arithmetic fits.
pub open spec fn askable<R: Resolver>(
    lowered: Lowered,
    specs: Seq<LaunchSpecView>,
    i: int,
    frame: Frame,
    r: R,
    c: &DispatchCtx,
    attn: Option<&AttnCtx>,
    gdn: Option<&GdnCtx>,
) -> bool {
    let launch = lowered.launches@[i];
    &&& launch.args.start <= launch.args.end <= lowered.args@.len()
    &&& launch.kernel < lowered.kernels@.len()
    &&& bind::bound_launch(lowered, launch, frame, r) matches Ok(b) ==> i < specs.len()
        && dispatch::dispatchable(b, specs[i], frame, r, c, attn, gdn)
}

/// Every launch the walk reaches can be asked for.
pub open spec fn walkable<R: Resolver>(
    lowered: Lowered,
    specs: Seq<LaunchSpecView>,
    frame: Frame,
    r: R,
    c: &DispatchCtx,
    attn: Option<&AttnCtx>,
    gdn: Option<&GdnCtx>,
) -> bool {
    forall|i: int|
        0 <= i < lowered.launches@.len() && (forall|j: int|
            0 <= j < i ==> #[trigger] step(lowered, specs, j, frame, r, c, attn, gdn) is Ok)
            ==> #[trigger] askable(lowered, specs, i, frame, r, c, attn, gdn)
}

/// Resolvers that answer alike dispatch alike.
pub proof fn lemma_dispatched_by_answers<R: Resolver>(
    b: bind::BoundView,
    s: LaunchSpecView,
    frame: Frame,
    x: R,
    y: R,
    c: &DispatchCtx,
    attn: Option<&AttnCtx>,
    gdn: Option<&GdnCtx>,
)
    requires
        resolver::same_answers(x, y),
    ensures
        dispatch::dispatched(b, s, frame, x, c, attn, gdn) == dispatch::dispatched(
            b,
            s,
            frame,
            y,
            c,
            attn,
            gdn,
        ),
{
    bind::lemma_resolved_by_answers(Seq::empty(), frame, x, y);
    if let Some(n) = s.weight {
        assert(y.weight_at(n) == x.weight_at(n));
        assert(y.weight_at(n + "_bias"@) == x.weight_at(n + "_bias"@));
    }
    if let Some(n) = s.weight2 {
        assert(y.weight_at(n) == x.weight_at(n));
    }
    if s.outs.len() > 0 {
        assert(bind::resolved(s.outs[0], frame, x) == bind::resolved(s.outs[0], frame, y));
    }
}

/// The lowering holds what launch `i` names: its operands and its kernel.
pub open spec fn in_lowering(lowered: Lowered, i: int) -> bool {
    let launch = lowered.launches@[i];
    &&& 0 <= i < lowered.launches@.len()
    &&& launch.args.start <= launch.args.end <= lowered.args@.len()
    &&& launch.kernel < lowered.kernels@.len()
}

/// Bind and dispatch launch `i` of a fire: its action, or its refusal. `None`
/// where it can be neither: it binds, but the join does not cover it, or its
/// rows are no kernel's count, or its arm launches and hands on a count that
/// the kernel does not take.
pub fn launch_at<R: Resolver>(
    lowered: &Lowered,
    dplan: &DispatchPlan,
    i: usize,
    frame: Frame,
    resolver: &mut R,
    ctx: &DispatchCtx,
    attn: Option<&AttnCtx>,
    gdn: Option<&GdnCtx>,
) -> (asked: Option<Result<DispatchAction, RunRefusal>>)
    requires
        bind::addressable(frame),
        in_lowering(*lowered, i as int),
    ensures
        asked is Some <==> askable(
            *lowered,
            dplan@,
            i as int,
            frame,
            *old(resolver),
            ctx,
            attn,
            gdn,
        ),
        asked matches Some(Ok(action)) ==> step(
            *lowered,
            dplan@,
            i as int,
            frame,
            *old(resolver),
            ctx,
            attn,
            gdn,
        ) == Ok::<ActionView, RunRefusalKindView>(action@),
        asked matches Some(Err(e)) ==> {
            &&& e.launch == i
            &&& e.kernel@ == lowered.kernels@[lowered.launches@[i as int].kernel as int]@
            &&& step(
                *lowered,
                dplan@,
                i as int,
                frame,
                *old(resolver),
                ctx,
                attn,
                gdn,
            ) == Err::<ActionView, RunRefusalKindView>(e.why@)
        },
        resolver::same_answers(*old(resolver), *final(resolver)),
{
    let ghost first = *resolver;
    let launch = &lowered.launches[i];
    let kernel = &lowered.kernels[launch.kernel as usize];
    let bound = match bind(lowered, launch, frame, resolver) {
        Ok(bound) => bound,
        Err(e) => {
            return Some(
                Err(
                    RunRefusal { launch: i, kernel: kernel.clone(), why: RunRefusalKind::Bind(e) },
                ),
            );
        },
    };
    let spec = match dplan.get(i) {
        Some(spec) => spec,
        None => return None,
    };
    if !rows_ok(&bound) {
        return None;
    }
    proof {
        lemma_dispatched_by_answers(bound@, spec@, frame, first, *resolver, ctx, attn, gdn);
    }
    match outcome(&bound, spec, frame, resolver, ctx, attn, gdn) {
        Ok(action) => if fits(&bound, spec, attn, gdn) {
            Some(Ok(action))
        } else {
            None
        },
        Err(e) => Some(
            Err(
                RunRefusal { launch: i, kernel: kernel.clone(), why: RunRefusalKind::Dispatch(e) },
            ),
        ),
    }
}

/// Resolvers that answer alike are asked alike.
proof fn lemma_asked_by_answers<R: Resolver>(
    lowered: Lowered,
    specs: Seq<LaunchSpecView>,
    i: int,
    frame: Frame,
    x: R,
    y: R,
    c: &DispatchCtx,
    attn: Option<&AttnCtx>,
    gdn: Option<&GdnCtx>,
)
    requires
        resolver::same_answers(x, y),
    ensures
        step(lowered, specs, i, frame, x, c, attn, gdn) == step(
            lowered,
            specs,
            i,
            frame,
            y,
            c,
            attn,
            gdn,
        ),
        askable(lowered, specs, i, frame, x, c, attn, gdn) == askable(
            lowered,
            specs,
            i,
            frame,
            y,
            c,
            attn,
            gdn,
        ),
{
    let launch = lowered.launches@[i];
    bind::lemma_resolved_by_answers(bind::stated_args(lowered, launch), frame, x, y);
    if let Ok(b) = bind::bound_launch(lowered, launch, frame, x) {
        lemma_dispatched_by_answers(b, specs[i], frame, x, y, c, attn, gdn);
    }
}

/// Execute one fire: bind and dispatch every launch of the lowering, in order,
/// queueing each launch's action.
///
/// Returns how many launches there were, or the first that refused; the queue
/// then holds the actions of the launches before it.
pub fn run<R: Resolver>(
    lowered: &Lowered,
    dplan: &DispatchPlan,
    frame: Frame,
    resolver: &mut R,
    ctx: &DispatchCtx,
    attn: Option<&AttnCtx>,
    gdn: Option<&GdnCtx>,
    queue: &mut Vec<DispatchAction>,
) -> (ran: Result<usize, RunRefusal>)
    requires
        bind::addressable(frame),
        walkable(*lowered, dplan@, frame, *old(resolver), ctx, attn, gdn),
    ensures
        ({
            let asked = match ran {
                Ok(n) => n as int,
                Err(e) => e.launch as int,
            };
            &&& asked <= lowered.launches@.len()
            &&& final(queue)@.len() == old(queue)@.len() + asked
            &&& final(queue)@.take(old(queue)@.len() as int) == old(queue)@
            &&& forall|i: int|
                0 <= i < asked ==> #[trigger] step(
                    *lowered,
                    dplan@,
                    i,
                    frame,
                    *old(resolver),
                    ctx,
                    attn,
                    gdn,
                ) == Ok::<ActionView, RunRefusalKindView>(final(queue)@[old(queue)@.len() + i]@)
        }),
        match ran {
            Ok(n) => n == lowered.launches@.len(),
            Err(e) => {
                &&& e.launch < lowered.launches@.len()
                &&& e.kernel@
                    == lowered.kernels@[lowered.launches@[e.launch as int].kernel as int]@
                &&& step(
                    *lowered,
                    dplan@,
                    e.launch as int,
                    frame,
                    *old(resolver),
                    ctx,
                    attn,
                    gdn,
                ) == Err::<ActionView, RunRefusalKindView>(e.why@)
            },
        },
        resolver::same_answers(*old(resolver), *final(resolver)),
{
    let ghost first = *resolver;
    let ghost queued = queue@;
    let count: usize = lowered.launches.len();
    let mut i: usize = 0;
    assert(queue@.take(queued.len() as int) =~= queued);
    while i < count
        invariant
            i <= count,
            count == lowered.launches@.len(),
            first == *old(resolver),
            queued == old(queue)@,
            bind::addressable(frame),
            walkable(*lowered, dplan@, frame, first, ctx, attn, gdn),
            resolver::same_answers(first, *resolver),
            queue@.len() == queued.len() + i,
            queue@.take(queued.len() as int) == queued,
            forall|j: int|
                0 <= j < i ==> #[trigger] step(
                    *lowered,
                    dplan@,
                    j,
                    frame,
                    first,
                    ctx,
                    attn,
                    gdn,
                ) == Ok::<ActionView, RunRefusalKindView>(queue@[queued.len() + j]@),
        decreases count - i,
    {
        assert(askable(*lowered, dplan@, i as int, frame, first, ctx, attn, gdn));
        proof {
            lemma_asked_by_answers(
                *lowered,
                dplan@,
                i as int,
                frame,
                first,
                *resolver,
                ctx,
                attn,
                gdn,
            );
        }
        match launch_at(lowered, dplan, i, frame, resolver, ctx, attn, gdn) {
            Some(Ok(action)) => {
                let ghost before = queue@;
                queue.push(action);
                assert(queue@.take(queued.len() as int) =~= before.take(queued.len() as int));
            },
            Some(Err(e)) => {
                return Err(e);
            },
            None => {
                assert(false);
            },
        }
        i += 1;
    }
    Ok(count)
}

/// A launch of a fire that comes to an action comes to the call its own kernel
/// is for, of its own operands as they bind and of what the join states of it;
/// one that does not is refused by its binding where that fails, and by its
/// dispatch where it does not.
pub proof fn law_a_launch_comes_to_its_own_kernels_call<R: Resolver>(
    lowered: Lowered,
    specs: Seq<LaunchSpecView>,
    i: int,
    frame: Frame,
    r: R,
    c: &DispatchCtx,
    attn: Option<&AttnCtx>,
    gdn: Option<&GdnCtx>,
)
    requires
        in_lowering(lowered, i),
    ensures
        ({
            let bound = bind::bound_launch(lowered, lowered.launches@[i], frame, r);
            match step(lowered, specs, i, frame, r, c, attn, gdn) {
                Ok(action) => bound matches Ok(b) && dispatch::dispatched(
                    b,
                    specs[i],
                    frame,
                    r,
                    c,
                    attn,
                    gdn,
                ) == Ok::<ActionView, DispatchRefusalView>(action) && symbols::symbol_of(
                    action.entry,
                ) == lowered.kernels@[lowered.launches@[i].kernel as int]@,
                Err(RunRefusalKindView::Bind(e)) => bound == Err::<
                    bind::BoundView,
                    bind::BindRefusalView,
                >(e),
                Err(RunRefusalKindView::Dispatch(e)) => bound matches Ok(b)
                    && dispatch::dispatched(b, specs[i], frame, r, c, attn, gdn) == Err::<
                    ActionView,
                    DispatchRefusalView,
                >(e),
            }
        }),
{
    if let Ok(b) = bind::bound_launch(lowered, lowered.launches@[i], frame, r) {
        if let Some(e) = symbols::entry_named(b.kernel) {
            dispatch::law_an_action_calls_its_own_kernel(b, specs[i], frame, r, c, attn, gdn);
        }
    }
}

/// A launch that refuses is answered with its refusal whatever its operands'
/// widths: only its rows and the join have to be in order.
pub proof fn law_a_refusal_needs_no_width<R: Resolver>(
    lowered: Lowered,
    specs: Seq<LaunchSpecView>,
    i: int,
    frame: Frame,
    r: R,
    c: &DispatchCtx,
    attn: Option<&AttnCtx>,
    gdn: Option<&GdnCtx>,
)
    requires
        in_lowering(lowered, i),
        i < specs.len(),
        bind::bound_launch(lowered, lowered.launches@[i], frame, r) matches Ok(b) ==> arm::rows_fit(
            b,
        ),
        step(lowered, specs, i, frame, r, c, attn, gdn) is Err,
    ensures
        askable(lowered, specs, i, frame, r, c, attn, gdn),
{
}

} // verus!
