//! Kernel signatures: one contract per symbol.
//!
//! A row is a kernel, and the axes beside it are what it is instantiated over:
//! an entrypoint is the row's symbol with one point of each axis appended, in
//! the order the axes are declared. A model text states the kernel; a pipeline
//! is built from a point.

use crate::strings;
use crate::strings::{str_eq, without_suffix};
use vstd::prelude::*;
use vstd::string::*;

verus! {

/// A capability a seam may ask of the kernel covering its rows.
#[derive(Clone, Copy, Debug, PartialEq, Eq, Structural)]
pub enum Cap {
    /// The attention scores, published for an observer.
    Scores,
    /// The page-mask sink a query tap writes.
    PageMaskSink,
}

/// The host-side plan a kernel's contract obligates.
#[derive(Clone, Copy, Debug, PartialEq, Eq, Structural)]
pub enum Prepare {
    /// No host plan.
    NoPlan,
    /// The decode plan, per fire and layer group.
    DecodePlan,
    /// The ragged prefill plan.
    PrefillPlan,
    /// The custom-mask plan.
    CustomPlan,
    /// A fire-wide prepare, which cannot be built per row window.
    FireWide,
    /// The latent-attention plan.
    MlaPlan,
}

/// One instantiation axis, and the text each of its points contributes.
#[derive(Clone, Copy, Debug, PartialEq, Eq)]
pub struct Axis {
    /// What varies. Prose: the matcher never reads it.
    pub what: &'static str,
    /// The suffixes this axis can contribute. Matching is first-wins, so a
    /// longer point goes before a shorter one it ends with, and the empty
    /// point goes last.
    pub points: &'static [&'static str],
}

/// One kernel's contract.
#[derive(Debug)]
pub struct KernelSig {
    /// The name a model text spells.
    pub name: &'static str,
    /// The launcher symbol the trace records.
    pub symbol: &'static str,
    /// The kernel refuses a row split.
    pub whole: bool,
    /// The host plan its contract obligates.
    pub needs: Prepare,
    /// Capabilities this kernel cannot serve.
    pub lacks: &'static [Cap],
    /// Where a sink-writing seam's output lands, if this kernel accepts one.
    pub sink: Option<&'static str>,
    /// On a union tail layer this dispatch pairs the depth prefix plan.
    pub depth_prefix_plan: bool,
    /// The axes `symbol` is instantiated over; none for a row that is one
    /// entrypoint.
    pub axes: &'static [Axis],
}

/// `point` can be peeled off `text`: it ends it and leaves something.
pub open spec fn peels(text: Seq<char>, point: Seq<char>) -> bool {
    point.len() < text.len() && strings::is_suffix(text, point)
}

/// The first of the points that can be peeled off `text`.
pub open spec fn first_peel(points: Seq<&'static str>, text: Seq<char>) -> Option<Seq<char>>
    decreases points.len(),
{
    if points.len() == 0 {
        None
    } else if peels(text, points[0]@) {
        Some(points[0]@)
    } else {
        first_peel(points.skip(1), text)
    }
}

/// What is left of `text` once each axis, from the last to the first, has had
/// its first peelable point taken off; `None` when an axis has none.
pub open spec fn peeled(axes: Seq<Axis>, text: Seq<char>) -> Option<Seq<char>>
    decreases axes.len(),
{
    if axes.len() == 0 {
        Some(text)
    } else {
        match first_peel(axes.last().points@, text) {
            None => None,
            Some(point) => peeled(axes.drop_last(), text.take(text.len() - point.len())),
        }
    }
}

/// `text` is the row at one point of its axes.
pub open spec fn is_point(row: KernelSig, text: Seq<char>) -> bool {
    row.axes@.len() > 0 && peeled(row.axes@, text) == Some(row.symbol@)
}

/// `text` names the row: the kernel itself, or one point of its axes.
pub open spec fn is_covered(row: KernelSig, text: Seq<char>) -> bool {
    text == row.symbol@ || is_point(row, text)
}

/// One stem with each of the points appended.
pub open spec fn with_points(stem: Seq<char>, points: Seq<&'static str>) -> Seq<Seq<char>> {
    Seq::new(points.len(), |j: int| stem + points[j]@)
}

/// Each stem in turn with each of the points appended.
pub open spec fn extended(stems: Seq<Seq<char>>, points: Seq<&'static str>) -> Seq<Seq<char>>
    decreases stems.len(),
{
    if stems.len() == 0 {
        Seq::empty()
    } else {
        extended(stems.drop_last(), points) + with_points(stems.last(), points)
    }
}

/// The product of the axes on a symbol, appended in declaration order.
pub open spec fn product(symbol: Seq<char>, axes: Seq<Axis>) -> Seq<Seq<char>>
    decreases axes.len(),
{
    if axes.len() == 0 {
        seq![symbol]
    } else {
        extended(product(symbol, axes.drop_last()), axes.last().points@)
    }
}

/// The texts of a run of names.
pub open spec fn texts(names: Seq<String>) -> Seq<Seq<char>> {
    Seq::new(names.len(), |i: int| names[i]@)
}

impl KernelSig {
    /// Does `symbol` name this row, as the kernel itself or at one point of
    /// its axes?
    pub fn covers(&self, symbol: &str) -> (yes: bool)
        ensures
            yes == is_covered(*self, symbol@),
    {
        str_eq(self.symbol, symbol) || self.covers_point(symbol)
    }

    /// `symbol` is this row at one point of its axes, not the bare base.
    ///
    /// Points are peeled from the end, one axis at a time, and what must
    /// remain is the base. That refuses a name an axis short, and a permuted
    /// spelling.
    pub fn covers_point(&self, symbol: &str) -> (yes: bool)
        ensures
            yes == is_point(*self, symbol@),
    {
        if self.axes.is_empty() {
            return false;
        }
        let mut rest: &str = symbol;
        let mut left: usize = self.axes.len();
        assert(self.axes@.take(left as int) =~= self.axes@);
        while left > 0
            invariant
                left <= self.axes@.len(),
                peeled(self.axes@, symbol@) == peeled(self.axes@.take(left as int), rest@),
                self.axes@.len() > 0,
            decreases left,
        {
            let ghost here = self.axes@.take(left as int);
            assert(here.last() == self.axes@[left - 1]);
            assert(here.drop_last() =~= self.axes@.take(left - 1));
            match peel_one(self.axes[left - 1].points, rest) {
                Some(shorter) => {
                    rest = shorter;
                },
                None => {
                    return false;
                },
            }
            left -= 1;
        }
        assert(self.axes@.take(0).len() == 0);
        str_eq(rest, self.symbol)
    }

    /// Every entrypoint this row names: the product of its axes, appended in
    /// declaration order; the symbol itself when there are none.
    pub fn entrypoints(&self) -> (names: Vec<String>)
        ensures
            texts(names@) == product(self.symbol@, self.axes@),
    {
        let mut out: Vec<String> = Vec::new();
        out.push(self.symbol.to_owned());
        assert(texts(out@) =~= seq![self.symbol@]);
        let mut i: usize = 0;
        assert(self.axes@.take(0).len() == 0);
        while i < self.axes.len()
            invariant
                i <= self.axes@.len(),
                texts(out@) == product(self.symbol@, self.axes@.take(i as int)),
            decreases self.axes@.len() - i,
        {
            assert(self.axes@.take(i + 1).drop_last() =~= self.axes@.take(i as int));
            assert(self.axes@.take(i + 1).last() == self.axes@[i as int]);
            out = extend_all(&out, self.axes[i].points);
            i += 1;
        }
        assert(self.axes@.take(i as int) =~= self.axes@);
        out
    }
}

/// `text` without the first of the points that can be peeled off it.
fn peel_one<'a>(points: &'static [&'static str], text: &'a str) -> (rest: Option<&'a str>)
    ensures
        match rest {
            Some(r) => first_peel(points@, text@) matches Some(p) && r@ == text@.take(
                text@.len() - p.len(),
            ),
            None => first_peel(points@, text@) is None,
        },
{
    let mut i: usize = 0;
    assert(points@.skip(0) =~= points@);
    while i < points.len()
        invariant
            i <= points@.len(),
            first_peel(points@, text@) == first_peel(points@.skip(i as int), text@),
        decreases points@.len() - i,
    {
        assert(points@.skip(i as int)[0] == points@[i as int]);
        assert(points@.skip(i as int).skip(1) =~= points@.skip(i + 1));
        if let Some(rest) = without_suffix(text, points[i]) {
            if !rest.is_empty() {
                return Some(rest);
            }
        }
        i += 1;
    }
    None
}

/// Each stem in turn with each of the points appended.
fn extend_all(stems: &Vec<String>, points: &'static [&'static str]) -> (out: Vec<String>)
    ensures
        texts(out@) == extended(texts(stems@), points@),
{
    let mut out: Vec<String> = Vec::new();
    let mut i: usize = 0;
    let ghost all = texts(stems@);
    assert(texts(out@) =~= Seq::<Seq<char>>::empty());
    assert(all.take(0) =~= Seq::<Seq<char>>::empty());
    while i < stems.len()
        invariant
            i <= stems@.len(),
            all == texts(stems@),
            texts(out@) == extended(all.take(i as int), points@),
        decreases stems@.len() - i,
    {
        let ghost before = texts(out@);
        let ghost stem = all[i as int];
        let mut j: usize = 0;
        assert(texts(out@) =~= before + with_points(stem, points@).take(0));
        while j < points.len()
            invariant
                i < stems@.len(),
                all == texts(stems@),
                stem == all[i as int],
                j <= points@.len(),
                texts(out@) == before + with_points(stem, points@).take(j as int),
            decreases points@.len() - j,
        {
            let mut name = String::from_str(stems[i].as_str());
            name.append(points[j]);
            let ghost so_far = texts(out@);
            assert(name@ == with_points(stem, points@)[j as int]);
            out.push(name);
            assert(texts(out@) =~= so_far.push(with_points(stem, points@)[j as int]));
            assert(texts(out@) =~= before + with_points(stem, points@).take(j + 1));
            j += 1;
        }
        assert(with_points(stem, points@).take(j as int) =~= with_points(stem, points@));
        assert(all.take(i + 1).drop_last() =~= all.take(i as int));
        assert(all.take(i + 1).last() == stem);
        i += 1;
    }
    assert(all.take(i as int) =~= all);
    out
}

/// The first row of `table`, from row `i` on, that `accepts` takes.
pub open spec fn first_row(
    table: Seq<KernelSig>,
    accepts: spec_fn(KernelSig) -> bool,
    i: int,
) -> Option<int>
    decreases table.len() - i,
{
    if i >= table.len() {
        None
    } else if accepts(table[i]) {
        Some(i)
    } else {
        first_row(table, accepts, i + 1)
    }
}

/// The rows whose symbol this is.
pub open spec fn with_symbol(symbol: Seq<char>) -> spec_fn(KernelSig) -> bool {
    |row: KernelSig| row.symbol@ == symbol
}

/// The rows that have this as a point.
pub open spec fn with_point(symbol: Seq<char>) -> spec_fn(KernelSig) -> bool {
    |row: KernelSig| is_point(row, symbol)
}

/// Which row of a table a symbol names: the first whose symbol it is, or else
/// the first that has it as a point.
pub open spec fn row_named(table: Seq<KernelSig>, symbol: Seq<char>) -> Option<int> {
    match first_row(table, with_symbol(symbol), 0) {
        Some(i) => Some(i),
        None => first_row(table, with_point(symbol), 0),
    }
}

/// The contract for one symbol, in `table`.
///
/// Exact matches on the symbol are tried first and across the whole table,
/// before any row is allowed to claim `symbol` as a point of its axes: which
/// row wins must not depend on a sibling whose base ends in one of its points.
pub fn sig_in<'a>(table: &'a [KernelSig], symbol: &str) -> (row: Option<&'a KernelSig>)
    ensures
        match row {
            Some(r) => row_named(table@, symbol@) matches Some(i) && 0 <= i < table@.len() && *r
                == table@[i],
            None => row_named(table@, symbol@) is None,
        },
{
    let ghost exact = with_symbol(symbol@);
    let ghost point = with_point(symbol@);
    let mut i: usize = 0;
    while i < table.len()
        invariant
            i <= table@.len(),
            exact == with_symbol(symbol@),
            first_row(table@, exact, 0) == first_row(table@, exact, i as int),
        decreases table@.len() - i,
    {
        if str_eq(table[i].symbol, symbol) {
            return Some(&table[i]);
        }
        i += 1;
    }
    let mut k: usize = 0;
    while k < table.len()
        invariant
            k <= table@.len(),
            exact == with_symbol(symbol@),
            point == with_point(symbol@),
            first_row(table@, exact, 0) is None,
            first_row(table@, point, 0) == first_row(table@, point, k as int),
        decreases table@.len() - k,
    {
        if table[k].covers_point(symbol) {
            return Some(&table[k]);
        }
        k += 1;
    }
    None
}

/// A row with no axes is named by its symbol and by nothing else.
pub proof fn law_an_axisless_row_is_its_symbol_alone(row: KernelSig, text: Seq<char>)
    requires
        row.axes@.len() == 0,
    ensures
        is_covered(row, text) <==> text == row.symbol@,
        product(row.symbol@, row.axes@) == seq![row.symbol@],
{
}

/// A point the first peel takes is one of the points, and it can be peeled.
proof fn lemma_first_peel(points: Seq<&'static str>, text: Seq<char>)
    ensures
        first_peel(points, text) matches Some(p) ==> peels(text, p) && exists|j: int|
            0 <= j < points.len() && #[trigger] points[j]@ == p,
    decreases points.len(),
{
    if points.len() > 0 && !peels(text, points[0]@) {
        lemma_first_peel(points.skip(1), text);
        if let Some(p) = first_peel(points.skip(1), text) {
            let j = choose|j: int|
                0 <= j < points.skip(1).len() && #[trigger] points.skip(1)[j]@ == p;
            assert(points[j + 1]@ == p);
        }
    }
}

/// A stem with a point appended stands among the extended stems.
proof fn lemma_extended_contains(
    stems: Seq<Seq<char>>,
    points: Seq<&'static str>,
    i: int,
    j: int,
)
    requires
        0 <= i < stems.len(),
        0 <= j < points.len(),
    ensures
        extended(stems, points).contains(stems[i] + points[j]@),
    decreases stems.len(),
{
    let head = extended(stems.drop_last(), points);
    let tail = with_points(stems.last(), points);
    if i == stems.len() - 1 {
        assert((head + tail)[head.len() + j] == stems[i] + points[j]@);
    } else {
        lemma_extended_contains(stems.drop_last(), points, i, j);
        let k = choose|k: int| 0 <= k < head.len() && head[k] == stems[i] + points[j]@;
        assert((head + tail)[k] == stems[i] + points[j]@);
    }
}

/// What stands among the extended stems is a stem with a point appended.
proof fn lemma_extended_is(stems: Seq<Seq<char>>, points: Seq<&'static str>, text: Seq<char>)
    requires
        extended(stems, points).contains(text),
    ensures
        exists|i: int, j: int|
            #![trigger stems[i], points[j]]
            0 <= i < stems.len() && 0 <= j < points.len() && text == stems[i] + points[j]@,
    decreases stems.len(),
{
    let head = extended(stems.drop_last(), points);
    let tail = with_points(stems.last(), points);
    let k = choose|k: int| 0 <= k < (head + tail).len() && (head + tail)[k] == text;
    if k < head.len() {
        assert(head[k] == text);
        lemma_extended_is(stems.drop_last(), points, text);
        let (i, j) = choose|i: int, j: int|
            #![trigger stems.drop_last()[i], points[j]]
            0 <= i < stems.drop_last().len() && 0 <= j < points.len() && text
                == stems.drop_last()[i] + points[j]@;
        assert(stems[i] == stems.drop_last()[i]);
        assert(text == stems[i] + points[j]@);
    } else {
        let j = k - head.len();
        let i = stems.len() - 1;
        assert(text == stems[i] + points[j]@);
    }
}

/// Text that peels down to a symbol is an entrypoint of it.
proof fn lemma_peeled_is_product(symbol: Seq<char>, axes: Seq<Axis>, text: Seq<char>)
    requires
        peeled(axes, text) == Some(symbol),
    ensures
        product(symbol, axes).contains(text),
    decreases axes.len(),
{
    if axes.len() == 0 {
        assert(product(symbol, axes)[0] == text);
    } else {
        let points = axes.last().points@;
        lemma_first_peel(points, text);
        let p = first_peel(points, text)->Some_0;
        let j = choose|j: int| 0 <= j < points.len() && #[trigger] points[j]@ == p;
        let stem = text.take(text.len() - p.len());
        lemma_peeled_is_product(symbol, axes.drop_last(), stem);
        let stems = product(symbol, axes.drop_last());
        let i = choose|i: int| 0 <= i < stems.len() && stems[i] == stem;
        assert(text =~= stem + p) by {
            assert(text.skip(text.len() - p.len()) == p);
        }
        lemma_extended_contains(stems, points, i, j);
    }
}

/// A row claims nothing it does not generate: a name it covers as a point is
/// one of its entrypoints, so a name an axis short, a permuted spelling and a
/// point no axis has are all refused.
pub proof fn law_a_covered_point_is_an_entrypoint(row: KernelSig, text: Seq<char>)
    requires
        is_point(row, text),
    ensures
        product(row.symbol@, row.axes@).contains(text),
{
    lemma_peeled_is_product(row.symbol@, row.axes@, text);
}

/// On every stem, no axis has a point that an earlier point of the same axis,
/// and of another text, would be peeled in place of.
pub open spec fn unambiguous(symbol: Seq<char>, axes: Seq<Axis>) -> bool
    decreases axes.len(),
{
    axes.len() > 0 ==> {
        &&& unambiguous(symbol, axes.drop_last())
        &&& forall|s: int, i: int, j: int|
            #![trigger product(symbol, axes.drop_last())[s], axes.last().points@[i], axes.last().points@[j]]
            0 <= s < product(symbol, axes.drop_last()).len() && 0 <= i < j
                < axes.last().points@.len() && axes.last().points@[i]@
                != axes.last().points@[j]@ ==> !peels(
                product(symbol, axes.drop_last())[s] + axes.last().points@[j]@,
                axes.last().points@[i]@,
            )
    }
}

/// The first peel takes a point that can be peeled when none of another text
/// before it can.
proof fn lemma_first_peel_at(points: Seq<&'static str>, text: Seq<char>, j: int)
    requires
        0 <= j < points.len(),
        peels(text, points[j]@),
        forall|i: int|
            0 <= i < j && (#[trigger] points[i])@ != points[j]@ ==> !peels(text, points[i]@),
    ensures
        first_peel(points, text) == Some(points[j]@),
    decreases points.len(),
{
    if j > 0 && points[0]@ != points[j]@ {
        let rest = points.skip(1);
        assert(!peels(text, points[0]@));
        assert(rest[j - 1] == points[j]);
        assert forall|i: int|
            0 <= i < j - 1 && (#[trigger] rest[i])@ != rest[j - 1]@ implies !peels(
            text,
            rest[i]@,
        ) by {
            assert(rest[i] == points[i + 1]);
        }
        lemma_first_peel_at(rest, text, j - 1);
    }
}

/// Every entrypoint of an unambiguous row peels down to its symbol.
proof fn lemma_product_peels(symbol: Seq<char>, axes: Seq<Axis>, text: Seq<char>)
    requires
        symbol.len() > 0,
        unambiguous(symbol, axes),
        product(symbol, axes).contains(text),
    ensures
        peeled(axes, text) == Some(symbol),
        text.len() > 0,
    decreases axes.len(),
{
    if axes.len() == 0 {
        assert(product(symbol, axes) == seq![symbol]);
    } else {
        let init = axes.drop_last();
        let points = axes.last().points@;
        let stems = product(symbol, init);
        lemma_extended_is(stems, points, text);
        let (s, j) = choose|s: int, j: int|
            #![trigger stems[s], points[j]]
            0 <= s < stems.len() && 0 <= j < points.len() && text == stems[s] + points[j]@;
        assert(stems.contains(stems[s]));
        lemma_product_peels(symbol, init, stems[s]);
        let p = points[j]@;
        assert(text.skip(text.len() - p.len()) =~= p);
        assert(text.take(text.len() - p.len()) =~= stems[s]);
        assert forall|i: int|
            0 <= i < j && (#[trigger] points[i])@ != points[j]@ implies !peels(
            text,
            points[i]@,
        ) by {
            assert(!peels(stems[s] + points[j]@, points[i]@));
        }
        lemma_first_peel_at(points, text, j);
    }
}

/// Everything a row generates is something it covers, where no earlier point
/// of an axis shadows a later one of another text.
pub proof fn law_every_entrypoint_is_covered(row: KernelSig, text: Seq<char>)
    requires
        row.symbol@.len() > 0,
        unambiguous(row.symbol@, row.axes@),
        product(row.symbol@, row.axes@).contains(text),
    ensures
        is_covered(row, text),
        row.axes@.len() > 0 ==> is_point(row, text),
{
    lemma_product_peels(row.symbol@, row.axes@, text);
    if row.axes@.len() == 0 {
        assert(text == row.symbol@);
    }
}

/// A row found by its first match is one of the table's, and is accepted.
proof fn lemma_first_row(
    table: Seq<KernelSig>,
    accepts: spec_fn(KernelSig) -> bool,
    i: int,
)
    requires
        0 <= i,
    ensures
        match first_row(table, accepts, i) {
            Some(k) => i <= k < table.len() && accepts(table[k]) && forall|j: int|
                i <= j < k ==> !accepts(#[trigger] table[j]),
            None => forall|j: int| i <= j < table.len() ==> !accepts(#[trigger] table[j]),
        },
    decreases table.len() - i,
{
    if i < table.len() && !accepts(table[i]) {
        lemma_first_row(table, accepts, i + 1);
    }
}

/// A symbol that is a row's own always resolves to a row with that symbol,
/// whatever points other rows could peel it to; and whatever resolves, the row
/// found covers it.
pub proof fn law_exact_symbols_win(table: Seq<KernelSig>, symbol: Seq<char>)
    ensures
        (exists|k: int| 0 <= k < table.len() && #[trigger] table[k].symbol@ == symbol) ==> (
        row_named(table, symbol) matches Some(i) && 0 <= i < table.len() && table[i].symbol@
            == symbol),
        row_named(table, symbol) matches Some(i) ==> 0 <= i < table.len() && is_covered(
            table[i],
            symbol,
        ),
        row_named(table, symbol) is None <==> forall|k: int|
            0 <= k < table.len() ==> !is_covered(#[trigger] table[k], symbol),
{
    let exact = with_symbol(symbol);
    let point = with_point(symbol);
    lemma_first_row(table, exact, 0);
    lemma_first_row(table, point, 0);
    if exists|k: int| 0 <= k < table.len() && #[trigger] table[k].symbol@ == symbol {
        let k = choose|k: int| 0 <= k < table.len() && #[trigger] table[k].symbol@ == symbol;
        assert(exact(table[k]));
    }
    if row_named(table, symbol) is None {
        assert forall|k: int| 0 <= k < table.len() implies !is_covered(
            #[trigger] table[k],
            symbol,
        ) by {
            assert(!exact(table[k]));
            assert(!point(table[k]));
        }
    }
}

/// No row of the table answers to `text` before row `k` is tried: for a row's
/// own symbol no earlier row has that symbol, and for a point of it no row has
/// the text as its symbol and no earlier row has it as a point.
pub open spec fn unclaimed(table: Seq<KernelSig>, k: int, text: Seq<char>) -> bool {
    if text == table[k].symbol@ {
        forall|j: int| 0 <= j < k ==> (#[trigger] table[j]).symbol@ != text
    } else {
        &&& forall|j: int| 0 <= j < table.len() ==> (#[trigger] table[j]).symbol@ != text
        &&& forall|j: int| 0 <= j < k ==> !is_point(#[trigger] table[j], text)
    }
}

/// In a table of rows, everything a row generates resolves to that row, unless
/// another row answers to the name first.
pub proof fn law_a_generated_name_resolves_to_its_row(
    table: Seq<KernelSig>,
    k: int,
    text: Seq<char>,
)
    requires
        0 <= k < table.len(),
        table[k].symbol@.len() > 0,
        unambiguous(table[k].symbol@, table[k].axes@),
        product(table[k].symbol@, table[k].axes@).contains(text),
        unclaimed(table, k, text),
    ensures
        row_named(table, text) == Some(k),
{
    let exact = with_symbol(text);
    let point = with_point(text);
    law_every_entrypoint_is_covered(table[k], text);
    lemma_first_row(table, exact, 0);
    lemma_first_row(table, point, 0);
    if text == table[k].symbol@ {
        assert(exact(table[k]));
    } else {
        assert(point(table[k]));
        assert(first_row(table, exact, 0) is None) by {
            if let Some(j) = first_row(table, exact, 0) {
                assert(exact(table[j]));
            }
        }
    }
}

/// A name that no row of a table but the one that generates it covers resolves
/// to that row.
pub proof fn law_a_name_of_one_row_resolves_to_it(table: Seq<KernelSig>, k: int, text: Seq<char>)
    requires
        0 <= k < table.len(),
        table[k].symbol@.len() > 0,
        unambiguous(table[k].symbol@, table[k].axes@),
        product(table[k].symbol@, table[k].axes@).contains(text),
        forall|j: int| 0 <= j < table.len() && j != k ==> !is_covered(#[trigger] table[j], text),
    ensures
        row_named(table, text) == Some(k),
{
    law_a_generated_name_resolves_to_its_row(table, k, text);
}

/// Extending runs through the stems, and for each through the points.
proof fn lemma_extended_at(stems: Seq<Seq<char>>, points: Seq<&'static str>, s: int, j: int)
    ensures
        extended(stems, points).len() == stems.len() * points.len(),
        0 <= s < stems.len() && 0 <= j < points.len() ==> 0 <= s * points.len() + j < extended(
            stems,
            points,
        ).len() && extended(stems, points)[s * points.len() + j] == stems[s] + points[j]@,
    decreases stems.len(),
{
    let m = points.len() as int;
    if stems.len() > 0 {
        let before = stems.drop_last();
        lemma_extended_at(before, points, s, j);
        let n = before.len() as int;
        assert((n + 1) * m == n * m + m) by (nonlinear_arith);
        if 0 <= s < stems.len() && 0 <= j < m {
            if s == n {
                assert(0 <= n * m) by (nonlinear_arith)
                    requires
                        n >= 0,
                        m >= 0,
                ;
                assert(extended(stems, points)[n * m + j] == with_points(stems.last(), points)[j]);
            }
        }
    }
}

/// A row generates a name for every choice of a point on each axis, the first
/// axis outermost: a further axis puts each of its points, in its order, behind
/// each of the names there were, in theirs.
pub proof fn law_an_axis_puts_its_points_behind(
    symbol: Seq<char>,
    axes: Seq<Axis>,
    axis: Axis,
    s: int,
    j: int,
)
    ensures
        ({
            let names = product(symbol, axes);
            let m = axis.points@.len() as int;
            let more = product(symbol, axes.push(axis));
            &&& more.len() == names.len() * m
            &&& 0 <= s < names.len() && 0 <= j < m ==> 0 <= s * m + j < more.len() && more[s * m
                + j] == names[s] + axis.points@[j]@
        }),
{
    assert(axes.push(axis).drop_last() =~= axes);
    lemma_extended_at(product(symbol, axes), axis.points@, s, j);
}

/// A point is peeled off the end of a name, and never all of it.
pub proof fn law_a_peeled_point_ends_the_name(text: Seq<char>, point: Seq<char>)
    ensures
        peels(text, point) <==> point.is_suffix_of(text) && point != text,
{
    strings::law_ends_are_ends(text, point);
    if point.len() == text.len() && point.is_suffix_of(text) {
        assert(text.subrange(0, text.len() as int) =~= text);
        assert(point =~= text);
    }
}

} // verus!
