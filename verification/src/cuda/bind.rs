//! Binding a launch's operands: three resolution rules, stated once.
//!
//! An operand is an arena offset, a value the backend names, or a weight's
//! name. Binding is not dispatching: a bound launch still has to reach its
//! kernel with the operands in the order that kernel takes them.

use crate::cuda::context::Frame;
use crate::cuda::resolver;
use crate::cuda::resolver::Resolver;
use crate::cuda::trace::{Arg, ArgView, Launch, Lowered, ValueId};
use crate::strings;
use crate::strings::has_prefix;
use core::ops::Range;
use vstd::prelude::*;

verus! {

/// The address bound for a constant that rides a name slot: no tensor stands
/// behind it, and the operand only keeps the launch's arity.
pub const CONSTANT_SLOT: u64 = 1;

/// One resolved operand: where it is, and how wide one row is.
#[derive(Clone, Copy, Debug, PartialEq, Eq, Structural)]
pub struct BoundArg {
    /// The device address.
    pub ptr: u64,
    /// Elements per row, for the operands that carry one; zero for a weight,
    /// whose extent is the tensor's.
    pub width: u32,
}

/// A launch with every operand resolved.
#[derive(Debug)]
pub struct BoundLaunch<'a> {
    /// The kernel's symbol.
    pub kernel: &'a str,
    /// The rectangle's rows.
    pub rows: Range<u32>,
    /// The layer range.
    pub layers: Range<u16>,
    /// Operands in the trace's stated order: inputs, outputs, weights.
    pub args: Vec<BoundArg>,
}

/// [`BoundLaunch`] over sequences.
pub struct BoundView {
    pub kernel: Seq<char>,
    pub rows: Range<u32>,
    pub layers: Range<u16>,
    pub args: Seq<BoundArg>,
}

impl View for BoundLaunch<'_> {
    type V = BoundView;

    open spec fn view(&self) -> BoundView {
        BoundView {
            kernel: self.kernel@,
            rows: self.rows,
            layers: self.layers,
            args: self.args@,
        }
    }
}

/// Why a launch refused to bind. Every variant is a drift diagnosis.
#[derive(Clone, Debug, PartialEq, Eq)]
pub enum BindRefusal {
    /// An arena operand addresses past the frame's arena.
    ArenaOutOfBounds {
        /// The offending offset.
        at: usize,
        /// What the frame holds.
        arena_bytes: usize,
    },
    /// The trace names a weight the resolver does not hold.
    UnknownWeight(String),
    /// The trace names a seam value the resolver does not bind.
    UnknownNamed(ValueId),
}

/// [`BindRefusal`] with its name as text.
pub enum BindRefusalView {
    ArenaOutOfBounds { at: usize, arena_bytes: usize },
    UnknownWeight(Seq<char>),
    UnknownNamed(ValueId),
}

impl View for BindRefusal {
    type V = BindRefusalView;

    open spec fn view(&self) -> BindRefusalView {
        match *self {
            BindRefusal::ArenaOutOfBounds { at, arena_bytes } => BindRefusalView::ArenaOutOfBounds {
                at,
                arena_bytes,
            },
            BindRefusal::UnknownWeight(name) => BindRefusalView::UnknownWeight(name@),
            BindRefusal::UnknownNamed(value) => BindRefusalView::UnknownNamed(value),
        }
    }
}

/// The arena is a block of the address space.
pub open spec fn addressable(frame: Frame) -> bool {
    frame.arena + frame.arena_bytes <= u64::MAX + 1
}

/// The name of a constant rather than of a tensor.
pub open spec fn is_constant_name(name: Seq<char>) -> bool {
    strings::is_prefix(name, "scale."@)
}

/// The three rules: an offset inside the arena is its base plus the offset, a
/// named value is what the resolver binds, and a weight is what the resolver
/// holds, unless its name is a constant's.
pub open spec fn resolved<R: Resolver>(arg: ArgView, frame: Frame, r: R) -> Result<
    BoundArg,
    BindRefusalView,
> {
    match arg {
        ArgView::Arena { at, width } => if at >= frame.arena_bytes {
            Err(BindRefusalView::ArenaOutOfBounds { at, arena_bytes: frame.arena_bytes })
        } else {
            Ok(BoundArg { ptr: (frame.arena + at) as u64, width })
        },
        ArgView::Named { value, width } => match r.named_at(value) {
            Some(ptr) => Ok(BoundArg { ptr, width }),
            None => Err(BindRefusalView::UnknownNamed(value)),
        },
        ArgView::Weight(name) => if is_constant_name(name) {
            Ok(BoundArg { ptr: CONSTANT_SLOT, width: 0 })
        } else {
            match r.weight_at(name) {
                Some(ptr) => Ok(BoundArg { ptr, width: 0 }),
                None => Err(BindRefusalView::UnknownWeight(name)),
            }
        },
    }
}

/// A run of operands, each resolved; the first that refuses decides.
pub open spec fn resolved_all<R: Resolver>(args: Seq<Arg>, frame: Frame, r: R) -> Result<
    Seq<BoundArg>,
    BindRefusalView,
>
    decreases args.len(),
{
    if args.len() == 0 {
        Ok(Seq::empty())
    } else {
        match resolved_all(args.drop_last(), frame, r) {
            Err(e) => Err(e),
            Ok(done) => match resolved(args.last()@, frame, r) {
                Err(e) => Err(e),
                Ok(b) => Ok(done.push(b)),
            },
        }
    }
}

/// The operands a launch states.
pub open spec fn stated_args(lowered: Lowered, launch: Launch) -> Seq<Arg> {
    lowered.args@.subrange(launch.args.start as int, launch.args.end as int)
}

/// What binding a launch comes to: its operands resolved, beside its kernel and
/// its rectangle.
pub open spec fn bound_launch<R: Resolver>(
    lowered: Lowered,
    launch: Launch,
    frame: Frame,
    r: R,
) -> Result<BoundView, BindRefusalView> {
    match resolved_all(stated_args(lowered, launch), frame, r) {
        Err(e) => Err(e),
        Ok(args) => Ok(
            BoundView {
                kernel: lowered.kernels@[launch.kernel as int]@,
                rows: launch.rows,
                layers: launch.layers,
                args,
            },
        ),
    }
}

/// A launch's operands and kernel are the lowering's: the kernel matters once
/// the operands have bound.
pub open spec fn well_stated<R: Resolver>(
    lowered: Lowered,
    launch: Launch,
    frame: Frame,
    r: R,
) -> bool {
    &&& launch.args.start <= launch.args.end <= lowered.args@.len()
    &&& resolved_all(stated_args(lowered, launch), frame, r) is Ok ==> launch.kernel
        < lowered.kernels@.len()
}

/// Resolve one operand.
pub fn resolve_arg<R: Resolver>(arg: &Arg, frame: Frame, resolver: &mut R) -> (bound: Result<
    BoundArg,
    BindRefusal,
>)
    requires
        addressable(frame),
    ensures
        match bound {
            Ok(b) => resolved(arg@, frame, *old(resolver)) == Ok::<BoundArg, BindRefusalView>(b),
            Err(e) => resolved(arg@, frame, *old(resolver)) == Err::<BoundArg, BindRefusalView>(
                e@,
            ),
        },
        resolver::same_answers(*old(resolver), *final(resolver)),
{
    match arg {
        Arg::Arena { at, width } => {
            if *at >= frame.arena_bytes {
                return Err(
                    BindRefusal::ArenaOutOfBounds { at: *at, arena_bytes: frame.arena_bytes },
                );
            }
            Ok(BoundArg { ptr: frame.arena + *at as u64, width: *width })
        },
        Arg::Named { value, width } => match resolver.named(*value) {
            Some(ptr) => Ok(BoundArg { ptr, width: *width }),
            None => Err(BindRefusal::UnknownNamed(*value)),
        },
        Arg::Weight(name) => {
            if has_prefix(name.as_str(), "scale.") {
                Ok(BoundArg { ptr: CONSTANT_SLOT, width: 0 })
            } else {
                match resolver.weight(name.as_str()) {
                    Some(ptr) => Ok(BoundArg { ptr, width: 0 }),
                    None => Err(BindRefusal::UnknownWeight(name.clone())),
                }
            }
        },
    }
}

/// Resolvers that answer alike bind alike.
pub proof fn lemma_resolved_by_answers<R: Resolver>(args: Seq<Arg>, frame: Frame, a: R, b: R)
    requires
        resolver::same_answers(a, b),
    ensures
        resolved_all(args, frame, a) == resolved_all(args, frame, b),
        forall|arg: ArgView| #[trigger] resolved(arg, frame, a) == resolved(arg, frame, b),
    decreases args.len(),
{
    assert forall|arg: ArgView| #[trigger] resolved(arg, frame, a) == resolved(arg, frame, b) by {
        match arg {
            ArgView::Weight(name) => {
                assert(b.weight_at(name) == a.weight_at(name));
            },
            ArgView::Named { value, .. } => {
                assert(b.named_at(value) == a.named_at(value));
            },
            _ => {},
        }
    }
    if args.len() > 0 {
        lemma_resolved_by_answers(args.drop_last(), frame, a, b);
    }
}

/// A refusal among the first operands is the refusal of all of them.
proof fn lemma_refusal_persists<R: Resolver>(args: Seq<Arg>, n: int, frame: Frame, r: R)
    requires
        0 <= n <= args.len(),
        resolved_all(args.take(n), frame, r) is Err,
    ensures
        resolved_all(args, frame, r) == resolved_all(args.take(n), frame, r),
    decreases args.len() - n,
{
    if n == args.len() {
        assert(args.take(n) =~= args);
    } else {
        assert(args.take(n + 1).drop_last() =~= args.take(n));
        lemma_refusal_persists(args, n + 1, frame, r);
    }
}

/// Bind one launch's operands against the frame and the resolver.
pub fn bind<'a, R: Resolver>(
    lowered: &'a Lowered,
    launch: &Launch,
    frame: Frame,
    resolver: &mut R,
) -> (bound: Result<BoundLaunch<'a>, BindRefusal>)
    requires
        addressable(frame),
        well_stated(*lowered, *launch, frame, *old(resolver)),
    ensures
        match bound {
            Ok(b) => bound_launch(*lowered, *launch, frame, *old(resolver)) == Ok::<
                BoundView,
                BindRefusalView,
            >(b@),
            Err(e) => bound_launch(*lowered, *launch, frame, *old(resolver)) == Err::<
                BoundView,
                BindRefusalView,
            >(e@),
        },
        resolver::same_answers(*old(resolver), *final(resolver)),
{
    let ghost stated = stated_args(*lowered, *launch);
    let ghost first = *resolver;
    let mut args: Vec<BoundArg> = Vec::new();
    let start: usize = launch.args.start as usize;
    let count: usize = (launch.args.end - launch.args.start) as usize;
    let mut i: usize = 0;
    assert(stated.take(0) =~= Seq::<Arg>::empty());
    assert(args@ =~= Seq::<BoundArg>::empty());
    while i < count
        invariant
            i <= count,
            count == stated.len(),
            start == launch.args.start,
            start + count == launch.args.end <= lowered.args@.len(),
            first == *old(resolver),
            stated == stated_args(*lowered, *launch),
            addressable(frame),
            resolver::same_answers(first, *resolver),
            resolved_all(stated.take(i as int), frame, first) == Ok::<
                Seq<BoundArg>,
                BindRefusalView,
            >(args@),
        decreases count - i,
    {
        let ghost here = *resolver;
        assert(stated.take(i + 1).drop_last() =~= stated.take(i as int));
        assert(stated.take(i + 1).last() == lowered.args@[start + i]);
        proof {
            lemma_resolved_by_answers(stated, frame, first, here);
        }
        match resolve_arg(&lowered.args[start + i], frame, resolver) {
            Ok(b) => {
                args.push(b);
            },
            Err(e) => {
                proof {
                    lemma_refusal_persists(stated, i + 1, frame, first);
                }
                return Err(e);
            },
        }
        i += 1;
    }
    assert(stated.take(count as int) =~= stated);
    let bound = BoundLaunch {
        kernel: lowered.kernels[launch.kernel as usize].as_str(),
        rows: Range { start: launch.rows.start, end: launch.rows.end },
        layers: Range { start: launch.layers.start, end: launch.layers.end },
        args,
    };
    Ok(bound)
}

/// An arena operand that binds is inside the arena: binding never addresses
/// past the block the frame holds.
pub proof fn law_bound_arena_operand_is_inside<R: Resolver>(
    at: usize,
    width: u32,
    frame: Frame,
    r: R,
)
    requires
        addressable(frame),
    ensures
        resolved(ArgView::Arena { at, width }, frame, r) matches Ok(b) ==> frame.arena <= b.ptr
            && b.ptr < frame.arena + frame.arena_bytes,
        resolved(ArgView::Arena { at, width }, frame, r) is Ok <==> at < frame.arena_bytes,
{
}

/// Each operand is bound by its own rule. An arena operand is as far into the
/// block as its offset says, and keeps its width. A named value is where the
/// resolver has it, and keeps its width. A weight is where the resolver holds
/// it, and a constant needs no resolver; neither has a row.
pub proof fn law_each_operand_is_bound_by_its_own_rule<R: Resolver>(
    arg: ArgView,
    frame: Frame,
    r: R,
    b: BoundArg,
)
    requires
        addressable(frame),
    ensures
        resolved(arg, frame, r) == Ok::<BoundArg, BindRefusalView>(b) <==> match arg {
            ArgView::Arena { at, width } => at < frame.arena_bytes && b.ptr - frame.arena == at
                && b.width == width,
            ArgView::Named { value, width } => r.named_at(value) == Some(b.ptr) && b.width == width,
            ArgView::Weight(name) => b.width == 0 && if "scale."@.is_prefix_of(name) {
                b.ptr == 1
            } else {
                r.weight_at(name) == Some(b.ptr)
            },
        },
{
    if let ArgView::Weight(name) = arg {
        let head = "scale."@;
        if head.len() <= name.len() {
            assert(name.take(head.len() as int) =~= name.subrange(0, head.len() as int));
        }
    }
}

/// A refusal to bind an operand names what could not be found: the offset and
/// the block it is past, the value no resolver bound, or the weight none holds.
pub proof fn law_a_refusal_names_what_is_missing<R: Resolver>(arg: ArgView, frame: Frame, r: R)
    ensures
        resolved(arg, frame, r) matches Err(refusal) ==> match refusal {
            BindRefusalView::ArenaOutOfBounds { at, arena_bytes } => arg is Arena && at
                == arg->Arena_at && arena_bytes == frame.arena_bytes && arena_bytes <= at,
            BindRefusalView::UnknownNamed(value) => arg is Named && value == arg->value
                && r.named_at(value) is None,
            BindRefusalView::UnknownWeight(name) => arg == ArgView::Weight(name) && r.weight_at(
                name,
            ) is None,
        },
{
}

/// A launch that binds is the lowering's own: the kernel its index names, its
/// rectangle and its layers as it states them, and each operand the one that
/// stands as far into its run of the lowering's.
pub proof fn law_a_bound_launch_is_the_lowerings<R: Resolver>(
    lowered: Lowered,
    launch: Launch,
    frame: Frame,
    r: R,
    i: int,
)
    requires
        well_stated(lowered, launch, frame, r),
    ensures
        bound_launch(lowered, launch, frame, r) matches Ok(b) ==> {
            &&& b.kernel == lowered.kernels@[launch.kernel as int]@
            &&& b.rows.start == launch.rows.start && b.rows.end == launch.rows.end
            &&& b.layers.start == launch.layers.start && b.layers.end == launch.layers.end
            &&& b.args.len() == launch.args.end - launch.args.start
            &&& 0 <= i < b.args.len() ==> resolved(
                lowered.args@[launch.args.start + i]@,
                frame,
                r,
            ) == Ok::<BoundArg, BindRefusalView>(b.args[i])
        },
{
    let args = stated_args(lowered, launch);
    law_binding_keeps_arity_and_order(args, frame, r);
    if 0 <= i < args.len() {
        assert(args[i] == lowered.args@[launch.args.start + i]);
    }
}

/// A launch that binds keeps every operand it states, in order: as many come
/// out as went in, and each is its own operand resolved.
pub proof fn law_binding_keeps_arity_and_order<R: Resolver>(args: Seq<Arg>, frame: Frame, r: R)
    ensures
        resolved_all(args, frame, r) matches Ok(bound) ==> {
            &&& bound.len() == args.len()
            &&& forall|i: int|
                0 <= i < args.len() ==> resolved((#[trigger] args[i])@, frame, r) == Ok::<
                    BoundArg,
                    BindRefusalView,
                >(bound[i])
        },
    decreases args.len(),
{
    if args.len() > 0 {
        law_binding_keeps_arity_and_order(args.drop_last(), frame, r);
        if let Ok(done) = resolved_all(args.drop_last(), frame, r) {
            assert forall|i: int| 0 <= i < args.len() - 1 implies resolved(
                (#[trigger] args[i])@,
                frame,
                r,
            ) == Ok::<BoundArg, BindRefusalView>(done[i]) by {
                assert(args.drop_last()[i] == args[i]);
            }
        }
    }
}

/// A refusal to bind is the first operand's that refuses: every operand before
/// it resolves.
pub proof fn law_refusal_is_the_first<R: Resolver>(args: Seq<Arg>, frame: Frame, r: R)
    ensures
        resolved_all(args, frame, r) matches Err(e) ==> exists|i: int| #![trigger args[i]]
            0 <= i < args.len() && resolved(args[i]@, frame, r) == Err::<BoundArg, BindRefusalView>(
                e,
            ) && forall|j: int| 0 <= j < i ==> resolved((#[trigger] args[j])@, frame, r) is Ok,
    decreases args.len(),
{
    if args.len() > 0 {
        let init = args.drop_last();
        law_refusal_is_the_first(init, frame, r);
        match resolved_all(init, frame, r) {
            Err(e) => {
                let i = choose|i: int| #![trigger init[i]]
                    0 <= i < init.len() && resolved(init[i]@, frame, r) == Err::<
                        BoundArg,
                        BindRefusalView,
                    >(e) && forall|j: int|
                        0 <= j < i ==> resolved((#[trigger] init[j])@, frame, r) is Ok;
                assert(args[i] == init[i]);
                assert forall|j: int| 0 <= j < i implies resolved(
                    (#[trigger] args[j])@,
                    frame,
                    r,
                ) is Ok by {
                    assert(init[j] == args[j]);
                }
            },
            Ok(done) => {
                law_binding_keeps_arity_and_order(init, frame, r);
                let i = args.len() - 1;
                assert(args[i] == args.last());
                assert forall|j: int| 0 <= j < i implies resolved(
                    (#[trigger] args[j])@,
                    frame,
                    r,
                ) is Ok by {
                    assert(init[j] == args[j]);
                }
            },
        }
    }
}

} // verus!
