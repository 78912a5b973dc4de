//! What the dispatch arms share: the reads an arm makes before it launches,
//! each with the refusal it gives when the read fails.

use crate::cuda::action::{
    ActionView, DispatchRefusal, DispatchRefusalView, Entry, Operand, Outcome, StageCopy,
};
use crate::cuda::bind;
use crate::cuda::bind::{
    resolve_arg, BindRefusal, BindRefusalView, BoundArg, BoundLaunch, BoundView,
};
use crate::cuda::context::{AttnCtx, Frame, GdnCtx};
use crate::cuda::launch::KvCacheLayerView;
use crate::cuda::plan::{LaunchSpec, LaunchSpecView};
use crate::cuda::resolver;
use crate::cuda::resolver::Resolver;
use crate::strings;
use crate::strings::push_decimal;
use vstd::prelude::*;
use vstd::string::*;

verus! {

// ---- What the arms read -------------------------------------------------
/// Rows of the launch's rectangle.
pub open spec fn rows(b: BoundView) -> int {
    b.rows.end - b.rows.start
}

/// The rectangle is one, and its rows are a kernel's 32-bit count.
pub open spec fn rows_fit(b: BoundView) -> bool {
    0 <= rows(b) <= i32::MAX
}

/// Operand `i`'s width, where the launch has that operand, is a kernel's
/// 32-bit count.
pub open spec fn width_fits(b: BoundView, i: int) -> bool {
    0 <= i < b.args.len() ==> b.args[i].width <= i32::MAX
}

/// The row count as an operand.
pub open spec fn row_operand(b: BoundView) -> Operand {
    Operand::Int(rows(b) as i32)
}

/// Operand `i`'s address.
pub open spec fn addr_of(b: BoundView, i: int) -> Operand {
    Operand::Addr(b.args[i].ptr)
}

/// Operand `i`'s width.
pub open spec fn width_of(b: BoundView, i: int) -> Operand {
    Operand::Int(b.args[i].width as i32)
}

/// A head width no arm divides by zero with.
pub open spec fn at_least_one(n: i32) -> int {
    if n < 1 {
        1
    } else {
        n as int
    }
}

/// How many heads of `head_dim` operand `i` holds per row.
pub open spec fn heads_of(b: BoundView, i: int, head_dim: i32) -> Operand {
    Operand::Int((b.args[i].width as int / at_least_one(head_dim)) as i32)
}

/// Elements operand `i` holds over the rectangle.
pub open spec fn elements_of(b: BoundView, i: int) -> int {
    rows(b) * b.args[i].width
}

/// The copy that stages operand `src` into operand `dst`: none when they are
/// one buffer, else every row of two-byte elements.
pub open spec fn stage(b: BoundView, dst: int, src: int) -> Seq<StageCopy> {
    if b.args[dst].ptr == b.args[src].ptr {
        Seq::empty()
    } else {
        seq![
            StageCopy {
                dst: b.args[dst].ptr,
                src: b.args[src].ptr,
                bytes: (elements_of(b, src) * 2) as u64,
            },
        ]
    }
}

/// A launch of `entry` alone.
pub open spec fn launch_of(entry: Entry, operands: Seq<Operand>) -> Outcome {
    Ok(ActionView { copies: Seq::empty(), entry, operands })
}

/// A launch of `entry` behind staging copies.
pub open spec fn staged_launch(copies: Seq<StageCopy>, entry: Entry, operands: Seq<Operand>) -> Outcome {
    Ok(ActionView { copies, entry, operands })
}

/// The launch bound another number of operands than the arm reads.
pub open spec fn wrong_count(b: BoundView, expected: usize) -> DispatchRefusalView {
    DispatchRefusalView::ArgCount { kernel: b.kernel, expected, got: b.args.len() as usize }
}

/// The weight the join names, where the resolver holds it.
pub open spec fn named_weight<R: Resolver>(
    b: BoundView,
    name: Option<Seq<char>>,
    r: R,
) -> Result<u64, DispatchRefusalView> {
    match name {
        None => Err(DispatchRefusalView::NoWeight(b.kernel)),
        Some(n) => match r.weight_at(n) {
            None => Err(DispatchRefusalView::UnknownWeight(n)),
            Some(address) => Ok(address),
        },
    }
}

/// The fire's attention context.
pub open spec fn attention<'a>(b: BoundView, attn: Option<&'a AttnCtx>) -> Result<
    &'a AttnCtx,
    DispatchRefusalView,
> {
    match attn {
        None => Err(DispatchRefusalView::NoAttnCtx(b.kernel)),
        Some(a) => Ok(a),
    }
}

/// The fire's attention context and the launch's layer of it.
pub open spec fn attention_layer<'a>(b: BoundView, attn: Option<&'a AttnCtx>) -> Result<
    (&'a AttnCtx, KvCacheLayerView),
    DispatchRefusalView,
> {
    match attn {
        None => Err(DispatchRefusalView::NoAttnCtx(b.kernel)),
        Some(a) => if (b.layers.start as int) < a.layers@.len() {
            Ok((a, a.layers@[b.layers.start as int]))
        } else {
            Err(DispatchRefusalView::NoAttnCtx(b.kernel))
        },
    }
}

/// The launch layer's sliding-window extent.
pub open spec fn window_of(b: BoundView, a: &AttnCtx) -> i32 {
    if (b.layers.start as int) < a.window_left_by_layer@.len() {
        a.window_left_by_layer@[b.layers.start as int]
    } else {
        a.window_left
    }
}

/// The fire's linear-attention context.
pub open spec fn linear_attention<'a>(b: BoundView, gdn: Option<&'a GdnCtx>) -> Result<
    &'a GdnCtx,
    DispatchRefusalView,
> {
    match gdn {
        None => Err(DispatchRefusalView::NoGdnCtx(b.kernel)),
        Some(g) => Ok(g),
    }
}

/// The state layer the operation states.
pub open spec fn state_layer(b: BoundView, s: LaunchSpecView) -> Result<
    int,
    DispatchRefusalView,
> {
    match s.state {
        None => Err(DispatchRefusalView::NoGdnCtx(b.kernel + ": op states no layer"@)),
        Some(state) => Ok(state.layer as int),
    }
}

/// A layer's slab, where the context holds one.
pub open spec fn slab(
    b: BoundView,
    slabs: Seq<u64>,
    layer: int,
    what: Seq<char>,
) -> Result<u64, DispatchRefusalView> {
    if layer < slabs.len() && slabs[layer] != 0 {
        Ok(slabs[layer])
    } else {
        Err(
            DispatchRefusalView::NoGdnCtx(
                b.kernel + ": layer "@ + strings::decimal(layer as nat) + " has no "@ + what
                    + " slab"@,
            ),
        )
    }
}

/// The debug form of a string: quoted, with its escapes.
pub uninterp spec fn quoted(text: Seq<char>) -> Seq<char>;

/// The refusal of a weight, written out around its quoted name.
pub open spec fn unknown_weight(quoted_name: Seq<char>) -> Seq<char> {
    "UnknownWeight("@ + quoted_name + ")"@
}

/// A binding refusal, written out.
pub open spec fn refusal_text(e: BindRefusalView) -> Seq<char> {
    match e {
        BindRefusalView::ArenaOutOfBounds { at, arena_bytes } => "ArenaOutOfBounds { at: "@
            + strings::decimal(at as nat) + ", arena_bytes: "@ + strings::decimal(
            arena_bytes as nat,
        ) + " }"@,
        BindRefusalView::UnknownWeight(name) => unknown_weight(quoted(name)),
        BindRefusalView::UnknownNamed(value) => "UnknownNamed("@ + strings::decimal(value as nat)
            + ")"@,
    }
}

/// The join's first output placement, resolved.
pub open spec fn output<R: Resolver>(
    b: BoundView,
    s: LaunchSpecView,
    frame: Frame,
    r: R,
) -> Result<BoundArg, DispatchRefusalView> {
    if s.outs.len() == 0 {
        Err(DispatchRefusalView::Out(b.kernel + ": no output 0"@))
    } else {
        match bind::resolved(s.outs[0], frame, r) {
            Ok(out) => Ok(out),
            Err(e) => Err(DispatchRefusalView::Out(b.kernel + ": "@ + refusal_text(e))),
        }
    }
}

/// The norm's rows and row width: the launch's own, or, for a per-head norm,
/// one row per head. Heads of no width make no rows.
pub open spec fn norm_rows(b: BoundView, s: LaunchSpecView) -> (int, int) {
    match s.per_head_dim {
        Some(d) => if d == 0 {
            (0, 0)
        } else {
            (rows(b) * (b.args[0].width as int / d as int), d as int)
        },
        None => (rows(b), b.args[0].width as int),
    }
}

/// The norm's rows can be counted.
pub open spec fn norm_rows_fit(b: BoundView, s: LaunchSpecView) -> bool {
    &&& width_fits(b, 0)
    &&& s.per_head_dim matches Some(d) ==> 0 < d <= i32::MAX && (b.args.len() > 0 ==> norm_rows(
        b,
        s,
    ).0 <= i32::MAX)
}

// ---- The reads themselves -----------------------------------------------
/// `head` followed by `tail`.
pub(crate) fn text2(head: &str, tail: &str) -> (text: String)
    ensures
        text@ == head@ + tail@,
{
    let mut text = String::from_str(head);
    text.append(tail);
    text
}

/// The row count.
pub(crate) fn row_count(b: &BoundLaunch<'_>) -> (n: i32)
    requires
        rows_fit(b@),
    ensures
        n == rows(b@),
{
    (b.rows.end - b.rows.start) as i32
}

/// Refuse a launch that bound another number of operands.
pub(crate) fn need(b: &BoundLaunch<'_>, expected: usize) -> (checked: Result<(), DispatchRefusal>)
    ensures
        checked is Ok <==> b.args@.len() == expected,
        checked matches Err(e) ==> e@ == wrong_count(b@, expected),
{
    if b.args.len() == expected {
        Ok(())
    } else {
        Err(miscounted(b, expected))
    }
}

/// The refusal of a wrong operand count.
pub(crate) fn miscounted(b: &BoundLaunch<'_>, expected: usize) -> (refusal: DispatchRefusal)
    ensures
        refusal@ == wrong_count(b@, expected),
{
    DispatchRefusal::ArgCount { kernel: b.kernel.to_owned(), expected, got: b.args.len() }
}

/// Heads of `head_dim` in a width.
pub(crate) fn heads_in(width: u32, head_dim: i32) -> (n: i32)
    ensures
        n == (width as int / at_least_one(head_dim)) as i32,
{
    let d: u32 = if head_dim < 1 {
        1
    } else {
        head_dim as u32
    };
    (width / d) as i32
}

/// Elements an operand holds over the rectangle.
pub(crate) fn element_count(b: &BoundLaunch<'_>, i: usize) -> (n: u64)
    requires
        rows_fit(b@),
        i < b.args@.len(),
    ensures
        n == elements_of(b@, i as int),
        n * 2 <= u64::MAX,
{
    let r: u64 = (b.rows.end - b.rows.start) as u64;
    let w: u64 = b.args[i].width as u64;
    assert(r * w * 2 <= u64::MAX && 0 <= r * w) by (nonlinear_arith)
        requires
            r <= 0x7fff_ffff,
            w <= 0xffff_ffff,
    ;
    r * w
}

/// Append the copy that stages operand `src` into operand `dst`.
pub(crate) fn push_stage(copies: &mut Vec<StageCopy>, b: &BoundLaunch<'_>, dst: usize, src: usize)
    requires
        rows_fit(b@),
        dst < b.args@.len(),
        src < b.args@.len(),
    ensures
        final(copies)@ == old(copies)@ + stage(b@, dst as int, src as int),
{
    if b.args[dst].ptr != b.args[src].ptr {
        let n: u64 = element_count(b, src);
        copies.push(StageCopy { dst: b.args[dst].ptr, src: b.args[src].ptr, bytes: n * 2 });
    }
    assert(copies@ =~= old(copies)@ + stage(b@, dst as int, src as int));
}

/// One staging copy.
pub(crate) fn stage_one(b: &BoundLaunch<'_>, dst: usize, src: usize) -> (copies: Vec<StageCopy>)
    requires
        rows_fit(b@),
        dst < b.args@.len(),
        src < b.args@.len(),
    ensures
        copies@ == stage(b@, dst as int, src as int),
{
    let mut copies: Vec<StageCopy> = Vec::new();
    push_stage(&mut copies, b, dst, src);
    assert(copies@ =~= stage(b@, dst as int, src as int));
    copies
}

/// The two copies that stage operands 0 and 1 into operands 2 and 3.
pub(crate) fn stage_pair(b: &BoundLaunch<'_>) -> (copies: Vec<StageCopy>)
    requires
        rows_fit(b@),
        b.args@.len() >= 4,
    ensures
        copies@ == stage(b@, 2, 0) + stage(b@, 3, 1),
{
    let mut copies: Vec<StageCopy> = Vec::new();
    push_stage(&mut copies, b, 2, 0);
    push_stage(&mut copies, b, 3, 1);
    assert(copies@ =~= stage(b@, 2, 0) + stage(b@, 3, 1));
    copies
}

/// The weight the join names.
pub(crate) fn weight<R: Resolver>(
    b: &BoundLaunch<'_>,
    name: &Option<String>,
    resolver: &mut R,
) -> (address: Result<u64, DispatchRefusal>)
    ensures
        match address {
            Ok(w) => named_weight(b@, crate::cuda::plan::text_of(*name), *old(resolver)) == Ok::<
                u64,
                DispatchRefusalView,
            >(w),
            Err(e) => named_weight(b@, crate::cuda::plan::text_of(*name), *old(resolver)) == Err::<
                u64,
                DispatchRefusalView,
            >(e@),
        },
        resolver::same_answers(*old(resolver), *final(resolver)),
{
    match name {
        None => Err(DispatchRefusal::NoWeight(b.kernel.to_owned())),
        Some(n) => match resolver.weight(n.as_str()) {
            Some(address) => Ok(address),
            None => Err(DispatchRefusal::UnknownWeight(n.clone())),
        },
    }
}

/// The fire's attention context.
pub(crate) fn need_attention<'a>(b: &BoundLaunch<'_>, attn: Option<&'a AttnCtx>) -> (found: Result<
    &'a AttnCtx,
    DispatchRefusal,
>)
    ensures
        match found {
            Ok(a) => attention(b@, attn) == Ok::<&AttnCtx, DispatchRefusalView>(a),
            Err(e) => attention(b@, attn) == Err::<&AttnCtx, DispatchRefusalView>(e@),
        },
{
    match attn {
        None => Err(DispatchRefusal::NoAttnCtx(b.kernel.to_owned())),
        Some(a) => Ok(a),
    }
}

/// The fire's attention context and the launch's layer.
pub(crate) fn need_layer<'a>(b: &BoundLaunch<'_>, attn: Option<&'a AttnCtx>) -> (found: Result<
    (&'a AttnCtx, KvCacheLayerView),
    DispatchRefusal,
>)
    ensures
        match found {
            Ok(pair) => attention_layer(b@, attn) == Ok::<
                (&AttnCtx, KvCacheLayerView),
                DispatchRefusalView,
            >(pair),
            Err(e) => attention_layer(b@, attn) == Err::<
                (&AttnCtx, KvCacheLayerView),
                DispatchRefusalView,
            >(e@),
        },
{
    match attn {
        None => Err(DispatchRefusal::NoAttnCtx(b.kernel.to_owned())),
        Some(a) => {
            let layer: usize = b.layers.start as usize;
            if layer < a.layers.len() {
                Ok((a, a.layers[layer]))
            } else {
                Err(DispatchRefusal::NoAttnCtx(b.kernel.to_owned()))
            }
        },
    }
}

/// The launch layer's window.
pub(crate) fn window(b: &BoundLaunch<'_>, a: &AttnCtx) -> (extent: i32)
    ensures
        extent == window_of(b@, a),
{
    let layer: usize = b.layers.start as usize;
    if layer < a.window_left_by_layer.len() {
        a.window_left_by_layer[layer]
    } else {
        a.window_left
    }
}

/// The fire's linear-attention context.
pub(crate) fn need_linear<'a>(b: &BoundLaunch<'_>, gdn: Option<&'a GdnCtx>) -> (found: Result<
    &'a GdnCtx,
    DispatchRefusal,
>)
    ensures
        match found {
            Ok(g) => linear_attention(b@, gdn) == Ok::<&GdnCtx, DispatchRefusalView>(g),
            Err(e) => linear_attention(b@, gdn) == Err::<&GdnCtx, DispatchRefusalView>(e@),
        },
{
    match gdn {
        None => Err(DispatchRefusal::NoGdnCtx(b.kernel.to_owned())),
        Some(g) => Ok(g),
    }
}

/// The state layer the operation states.
pub(crate) fn need_state(b: &BoundLaunch<'_>, spec: &LaunchSpec) -> (layer: Result<
    usize,
    DispatchRefusal,
>)
    ensures
        match layer {
            Ok(l) => state_layer(b@, spec@) == Ok::<int, DispatchRefusalView>(l as int),
            Err(e) => state_layer(b@, spec@) == Err::<int, DispatchRefusalView>(e@),
        },
{
    match spec.state {
        None => Err(DispatchRefusal::NoGdnCtx(text2(b.kernel, ": op states no layer"))),
        Some(state) => Ok(state.layer as usize),
    }
}

/// A layer's slab.
pub(crate) fn need_slab(b: &BoundLaunch<'_>, slabs: &Vec<u64>, layer: usize, what: &str) -> (base:
    Result<u64, DispatchRefusal>)
    ensures
        match base {
            Ok(s) => slab(b@, slabs@, layer as int, what@) == Ok::<u64, DispatchRefusalView>(s),
            Err(e) => slab(b@, slabs@, layer as int, what@) == Err::<u64, DispatchRefusalView>(e@),
        },
{
    if layer < slabs.len() && slabs[layer] != 0 {
        Ok(slabs[layer])
    } else {
        let mut text = text2(b.kernel, ": layer ");
        push_decimal(&mut text, layer as u64);
        text.append(" has no ");
        text.append(what);
        text.append(" slab");
        Err(DispatchRefusal::NoGdnCtx(text))
    }
}

/// `str`'s `Debug`, as `format!("{:?}")` writes it: the text between double
/// quotes with Rust's escapes. Which escapes are used is left to the name.
#[verifier::external_body]
fn debug_str(text: &str) -> (out: String)
    ensures
        out@ == quoted(text@),
{
    format!("{:?}", text)
}

/// The refusal of a weight, written out around its quoted name.
pub fn unknown_weight_text(quoted_name: &str) -> (text: String)
    ensures
        text@ == unknown_weight(quoted_name@),
{
    let mut text = String::from_str("UnknownWeight(");
    text.append(quoted_name);
    text.append(")");
    text
}

/// A binding refusal, written out.
fn refusal_string(e: &BindRefusal) -> (text: String)
    ensures
        text@ == refusal_text(e@),
{
    match e {
        BindRefusal::ArenaOutOfBounds { at, arena_bytes } => {
            let mut text = String::from_str("ArenaOutOfBounds { at: ");
            push_decimal(&mut text, *at as u64);
            text.append(", arena_bytes: ");
            push_decimal(&mut text, *arena_bytes as u64);
            text.append(" }");
            text
        },
        BindRefusal::UnknownWeight(name) => {
            let name = debug_str(name.as_str());
            unknown_weight_text(name.as_str())
        },
        BindRefusal::UnknownNamed(value) => {
            let mut text = String::from_str("UnknownNamed(");
            push_decimal(&mut text, *value as u64);
            text.append(")");
            text
        },
    }
}

/// The join's first output placement, resolved.
pub(crate) fn need_output<R: Resolver>(
    b: &BoundLaunch<'_>,
    spec: &LaunchSpec,
    frame: Frame,
    resolver: &mut R,
) -> (out: Result<BoundArg, DispatchRefusal>)
    requires
        bind::addressable(frame),
    ensures
        match out {
            Ok(o) => output(b@, spec@, frame, *old(resolver)) == Ok::<
                BoundArg,
                DispatchRefusalView,
            >(o),
            Err(e) => output(b@, spec@, frame, *old(resolver)) == Err::<
                BoundArg,
                DispatchRefusalView,
            >(e@),
        },
        resolver::same_answers(*old(resolver), *final(resolver)),
{
    if spec.outs.len() == 0 {
        return Err(DispatchRefusal::Out(text2(b.kernel, ": no output 0")));
    }
    assert(spec@.outs[0] == spec.outs@[0]@);
    match resolve_arg(&spec.outs[0], frame, resolver) {
        Ok(out) => Ok(out),
        Err(e) => {
            let why = refusal_string(&e);
            let mut text = text2(b.kernel, ": ");
            text.append(why.as_str());
            Err(DispatchRefusal::Out(text))
        },
    }
}

/// The norm's rows and row width.
pub(crate) fn norm_shape(b: &BoundLaunch<'_>, spec: &LaunchSpec) -> (shape: (i32, i32))
    requires
        rows_fit(b@),
        b.args@.len() > 0,
    ensures
        shape.0 == norm_rows(b@, spec@).0 as i32,
        shape.1 == norm_rows(b@, spec@).1 as i32,
{
    let n: u64 = (b.rows.end - b.rows.start) as u64;
    let w: u32 = b.args[0].width;
    match spec.per_head_dim {
        Some(d) => {
            if d == 0 {
                return (0, 0);
            }
            let h: u64 = (w / d) as u64;
            assert(0 <= n * h <= u64::MAX) by (nonlinear_arith)
                requires
                    0 <= n <= 0x7fff_ffff,
                    0 <= h <= 0xffff_ffff,
            ;
            ((n * h) as i32, d as i32)
        },
        None => (n as i32, w as i32),
    }
}

/// A binding refusal written out says what was refused: the offset and then the
/// block's bytes, the weight's name, or the value.
pub proof fn law_a_binding_refusal_is_written_with_its_facts(
    at: usize,
    arena_bytes: usize,
    name: Seq<char>,
    value: u32,
)
    ensures
        ({
            let past = refusal_text(BindRefusalView::ArenaOutOfBounds { at, arena_bytes });
            let head = "ArenaOutOfBounds { at: "@ + strings::decimal(at as nat);
            let tail = "arena_bytes: "@ + strings::decimal(arena_bytes as nat) + " }"@;
            &&& head.is_prefix_of(past)
            &&& tail.is_suffix_of(past)
        }),
        ("UnknownWeight("@ + quoted(name)).is_prefix_of(
            refusal_text(BindRefusalView::UnknownWeight(name)),
        ),
        ("UnknownNamed("@ + strings::decimal(value as nat)).is_prefix_of(
            refusal_text(BindRefusalView::UnknownNamed(value)),
        ),
{
    reveal_strlit(", arena_bytes: ");
    reveal_strlit("arena_bytes: ");
    let past = refusal_text(BindRefusalView::ArenaOutOfBounds { at, arena_bytes });
    let head = "ArenaOutOfBounds { at: "@ + strings::decimal(at as nat);
    let tail = "arena_bytes: "@ + strings::decimal(arena_bytes as nat) + " }"@;
    assert(head =~= past.subrange(0, head.len() as int));
    assert(tail =~= past.subrange((past.len() - tail.len()) as int, past.len() as int));
    let weight = refusal_text(BindRefusalView::UnknownWeight(name));
    let named = "UnknownWeight("@ + quoted(name);
    assert(named =~= weight.subrange(0, named.len() as int));
    let unbound = refusal_text(BindRefusalView::UnknownNamed(value));
    let numbered = "UnknownNamed("@ + strings::decimal(value as nat);
    assert(numbered =~= unbound.subrange(0, numbered.len() as int));
}

} // verus!
