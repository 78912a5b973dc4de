//! Which text serves which architecture.

use pie_driver::cuda::trace::FireClass;
use pie_driver::metal::text::{known, plan_for, serves, Family, Unfamiliar};

#[test]
fn one_text_serves_many_architectures_which_is_what_a_family_is() {
    assert!(serves("qwen3"));
    assert!(serves("llama3"));
    assert!(serves("mistral"));
}

#[test]
fn an_architecture_with_no_text_says_so_and_says_what_is_known() {
    assert!(!serves("gemma4"));
    match plan_for("gemma4", FireClass::Decode) {
        Err(Unfamiliar::NoText { arch, known }) => {
            assert_eq!(arch, "gemma4");
            assert!(known.contains(&"qwen3"), "and what IS served: {known:?}");
        }
        Ok(_) => panic!("gemma4 has no metal text yet"),
    }
}

#[test]
fn a_served_architecture_traces_a_plan_of_that_family() {
    let choice = plan_for("qwen3", FireClass::Decode).expect("qwen3 is served");
    assert_eq!(choice.family, Family::LlamaLike, "the choice states its family");
    assert_eq!(choice.class, FireClass::Decode);
}

#[test]
fn a_served_architecture_selects_its_familys_text_for_the_class() {
    let choice = plan_for("qwen3", FireClass::Prefill).expect("qwen3 is served");
    assert_eq!(choice.family, Family::LlamaLike);
    assert_eq!(choice.class, FireClass::Prefill);
}

#[test]
fn what_is_known_is_what_is_served() {
    let list = known();
    assert_eq!(
        list,
        vec!["llama", "llama3", "llama4", "mistral", "phi3", "olmo2", "qwen2", "qwen3"]
    );
    assert!(list.iter().all(|arch| serves(arch)));
    assert!(!serves("llam"));
    assert!(!serves("llama33"));
    assert!(!serves(""));
}
