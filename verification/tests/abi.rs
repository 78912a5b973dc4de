//! The decode step's vocabulary.

use pie_driver::metal::abi::{
    ArgmaxParams, ForwardGraphKey, IoSlot, Kernel, Region, IO_SLOT_COUNT, SCRATCH_POOL,
};

#[test]
fn the_count_is_the_end_of_the_enum_by_construction() {
    assert_eq!(Kernel::COUNT, Kernel::ALL.len());
    assert_eq!(
        Kernel::ALL.last().map(|k| k.index()),
        Some(Kernel::COUNT - 1),
        "the last kind's discriminant is one below the count"
    );
    for (position, kind) in Kernel::ALL.iter().enumerate() {
        assert_eq!(kind.index(), position);
    }
}

#[test]
fn the_abi_anchor_values_hold() {
    assert_eq!(Kernel::EmbedGather.index(), 0);
    assert_eq!(Kernel::Residual.index(), 10);
    assert_eq!(Kernel::QmvO.index(), 22);
    assert_eq!(Kernel::Argmax.index(), 31);
    assert_eq!(Kernel::KvAppendPaged.index(), 32);
    assert_eq!(Kernel::G4AttnPostNorm.index(), 36);
    assert_eq!(Kernel::G4PleResidual.index(), 53);
    assert_eq!(Kernel::LmHeadUntied.index(), 58);
    assert_eq!(Kernel::LlRouter.index(), 71);
    assert_eq!(Kernel::G4Router.index(), 84);
    assert_eq!(Kernel::G4BranchAdd.index(), 97);
    assert_eq!(Kernel::COUNT, 98);
    assert!(Kernel::LmHeadUntied.index() > Kernel::G4PleResidual.index() + 1);

    assert_eq!(IoSlot::TokenId as usize, 0);
    assert_eq!(IoSlot::SampleRows as usize, 18);
    assert_eq!(IO_SLOT_COUNT, 19);
    assert_eq!(Region::KvPagePool as usize, 6);
}

#[test]
fn a_kind_indexed_table_covers_every_kind_by_construction() {
    let mut table = [0u32; Kernel::COUNT];
    for kind in Kernel::ALL {
        table[kind.index()] += 1;
    }
    assert!(table.iter().all(|&hits| hits == 1));
}

#[test]
fn the_graph_key_buckets_pages_and_keeps_m1_stable() {
    let a = ForwardGraphKey::of(1, 1, 3, true);
    let b = ForwardGraphKey::of(1, 1, 8, true);
    assert_eq!(a, b, "3 and 8 pages share ceil(n/8) = 1");
    let c = ForwardGraphKey::of(1, 1, 9, true);
    assert_ne!(a, c, "9 pages crosses into bucket 2");
    assert_eq!(ForwardGraphKey::of(1, 1, 0, true).page_bucket, 0);
    assert_ne!(a, ForwardGraphKey::of(2, 2, 3, true));
    assert_ne!(a, ForwardGraphKey::of(1, 1, 3, false));
}

#[test]
fn the_largest_page_count_has_a_bucket() {
    assert_eq!(ForwardGraphKey::of(1, 1, u32::MAX, true).page_bucket, 536870912);
}

#[test]
fn the_argmax_block_is_ten_words() {
    assert_eq!(std::mem::size_of::<ArgmaxParams>(), 40);
    let params = ArgmaxParams::default();
    assert_eq!(params.vocab, 0);
    assert_eq!(params.n_eos, 0);
    assert_eq!(params.eos_ids, [0; 8]);
    assert_eq!(SCRATCH_POOL, 9);
}
