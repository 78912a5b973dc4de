//! Which text the loaded checkpoint is.
//!
//! Selecting is not choosing: the checkpoint states its architecture, and this
//! answers with the family whose text was written for it. Which kernels fire
//! is the text's to say.

use crate::cuda::trace::FireClass;
use crate::strings::str_eq;
use vstd::prelude::*;

verus! {

/// A family of architectures one text serves.
#[derive(Clone, Copy, Debug, PartialEq, Eq, Structural)]
pub enum Family {
    /// The llama-like family.
    LlamaLike,
}

/// The text to trace: a family's, for a fire class.
#[derive(Clone, Copy, Debug, PartialEq, Eq, Structural)]
pub struct TextChoice {
    /// Whose text.
    pub family: Family,
    /// For which fires.
    pub class: FireClass,
}

/// Why no text could be selected.
#[derive(Clone, Debug, PartialEq, Eq)]
pub enum Unfamiliar {
    /// No text has been written for this architecture.
    NoText {
        /// What the checkpoint called itself.
        arch: String,
        /// The architectures a text does exist for.
        known: Vec<&'static str>,
    },
}

/// The architectures the llama-like text serves.
pub open spec fn llama_like() -> Seq<Seq<char>> {
    Seq::<Seq<char>>::empty()
        .push("llama"@)
        .push("llama3"@)
        .push("llama4"@)
        .push("mistral"@)
        .push("phi3"@)
        .push("olmo2"@)
        .push("qwen2"@)
        .push("qwen3"@)
}

/// The texts of a run of names.
pub open spec fn names(list: Seq<&'static str>) -> Seq<Seq<char>> {
    Seq::new(list.len(), |i: int| list[i]@)
}

/// Append one name.
fn push_name(list: &mut Vec<&'static str>, name: &'static str)
    ensures
        names(final(list)@) == names(old(list)@).push(name@),
{
    let ghost before = list@;
    list.push(name);
    assert(names(list@) =~= names(before).push(name@));
}

/// Every architecture some text serves.
pub fn known() -> (list: Vec<&'static str>)
    ensures
        names(list@) == llama_like(),
{
    let mut list: Vec<&'static str> = Vec::new();
    assert(names(list@) =~= Seq::<Seq<char>>::empty());
    push_name(&mut list, "llama");
    push_name(&mut list, "llama3");
    push_name(&mut list, "llama4");
    push_name(&mut list, "mistral");
    push_name(&mut list, "phi3");
    push_name(&mut list, "olmo2");
    push_name(&mut list, "qwen2");
    push_name(&mut list, "qwen3");
    list
}

/// Whether any text serves `arch`.
pub fn serves(arch: &str) -> (yes: bool)
    ensures
        yes <==> llama_like().contains(arch@),
{
    let list = known();
    let mut i: usize = 0;
    while i < list.len()
        invariant
            i <= list@.len(),
            names(list@) == llama_like(),
            forall|j: int| 0 <= j < i ==> #[trigger] llama_like()[j] != arch@,
        decreases list@.len() - i,
    {
        assert(names(list@)[i as int] == list@[i as int]@);
        if str_eq(list[i], arch) {
            assert(llama_like()[i as int] == arch@);
            return true;
        }
        i += 1;
    }
    assert(llama_like().len() == list@.len());
    false
}

/// The text for `arch`, to be traced for `class`; or a refusal that names the
/// architecture and what is known. A guess here would run another model's
/// program against this checkpoint's weights.
pub fn plan_for(arch: &str, class: FireClass) -> (choice: Result<TextChoice, Unfamiliar>)
    ensures
        choice is Ok <==> llama_like().contains(arch@),
        choice matches Ok(c) ==> c == (TextChoice { family: Family::LlamaLike, class }),
        choice matches Err(Unfamiliar::NoText { arch: a, known: k }) ==> a@ == arch@ && names(k@)
            == llama_like(),
{
    if serves(arch) {
        return Ok(TextChoice { family: Family::LlamaLike, class });
    }
    Err(Unfamiliar::NoText { arch: arch.to_owned(), known: known() })
}

/// The architectures the text serves are these and no other, each listed once.
pub proof fn law_the_text_serves_these(arch: Seq<char>, i: int, j: int)
    ensures
        llama_like().contains(arch) <==> {
            ||| arch == "llama"@
            ||| arch == "llama3"@
            ||| arch == "llama4"@
            ||| arch == "mistral"@
            ||| arch == "phi3"@
            ||| arch == "olmo2"@
            ||| arch == "qwen2"@
            ||| arch == "qwen3"@
        },
        0 <= i < j < llama_like().len() ==> llama_like()[i] != llama_like()[j],
{
    reveal_strlit("llama");
    reveal_strlit("llama3");
    reveal_strlit("llama4");
    reveal_strlit("mistral");
    reveal_strlit("phi3");
    reveal_strlit("olmo2");
    reveal_strlit("qwen2");
    reveal_strlit("qwen3");
    let list = llama_like();
    if list.contains(arch) {
        let k = choose|k: int| 0 <= k < list.len() && list[k] == arch;
        assert(list[k] == arch);
    }
    assert(list[0] == "llama"@);
    assert(list[1] == "llama3"@);
    assert(list[2] == "llama4"@);
    assert(list[3] == "mistral"@);
    assert(list[4] == "phi3"@);
    assert(list[5] == "olmo2"@);
    assert(list[6] == "qwen2"@);
    assert(list[7] == "qwen3"@);
    if 0 <= i < j < list.len() {
        assert(list[i].len() != list[j].len() || list[i][0] != list[j][0] || list[i].last()
            != list[j].last());
    }
}

} // verus!
