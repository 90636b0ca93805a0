use bip::{Layout, LayoutMismatch};

#[test]
fn layout_of_reads_size_and_alignment() {
    assert_eq!(Layout::of::<u8>(), Layout { size: 1, align: 1 });
    assert_eq!(Layout::of::<i16>(), Layout { size: 2, align: 2 });
    assert_eq!(Layout::of::<i32>().size, 4);
    assert_eq!(Layout::of::<f32>().size, 4);
    assert_eq!(Layout::of::<u64>().size, 8);
    assert_eq!(Layout::of::<[u8; 8]>(), Layout { size: 8, align: 1 });
    assert_eq!(Layout::of::<()>(), Layout { size: 0, align: 1 });
    assert_eq!(Layout::of::<[u16; 3]>(), Layout { size: 6, align: 2 });
}

#[test]
fn equal_layouts_are_accepted() {
    let l = Layout { size: 4, align: 4 };
    assert_eq!(l.reusable_for(&l), Ok(()));
    assert_eq!(Layout::of::<i32>().reusable_for(&Layout::of::<f32>()), Ok(()));
    let empty = Layout { size: 0, align: 1 };
    assert_eq!(empty.reusable_for(&empty), Ok(()));
}

#[test]
fn weaker_alignment_fits() {
    let cell = Layout { size: 8, align: 8 };
    assert_eq!(cell.reusable_for(&Layout { size: 8, align: 1 }), Ok(()));
    assert_eq!(cell.reusable_for(&Layout { size: 8, align: 4 }), Ok(()));
    assert_eq!(cell.reusable_for(&Layout { size: 8, align: 8 }), Ok(()));
}

#[test]
fn four_bytes_do_not_go_into_two() {
    let four = Layout { size: 4, align: 4 };
    let two = Layout { size: 2, align: 2 };
    assert_eq!(
        four.reusable_for(&two),
        Err(LayoutMismatch::SizeMismatch { source: 4, target: 2 })
    );
    assert_eq!(
        two.reusable_for(&four),
        Err(LayoutMismatch::SizeMismatch { source: 2, target: 4 })
    );
}

#[test]
fn stricter_alignment_is_refused() {
    let bytes = Layout { size: 8, align: 1 };
    let word = Layout { size: 8, align: 8 };
    assert_eq!(
        bytes.reusable_for(&word),
        Err(LayoutMismatch::InsufficientAlignment { source: 1, target: 8 })
    );
    assert_eq!(word.reusable_for(&bytes), Ok(()));
}

#[test]
fn a_pair_that_breaks_both_rules_is_a_size_mismatch() {
    let small = Layout { size: 1, align: 1 };
    let large = Layout { size: 16, align: 16 };
    assert_eq!(
        small.reusable_for(&large),
        Err(LayoutMismatch::SizeMismatch { source: 1, target: 16 })
    );
}

#[test]
fn fitting_composes() {
    let chain = [
        Layout { size: 8, align: 8 },
        Layout { size: 8, align: 4 },
        Layout { size: 8, align: 4 },
        Layout { size: 8, align: 1 },
    ];
    for i in 0..chain.len() {
        for j in i..chain.len() {
            assert_eq!(chain[i].reusable_for(&chain[j]), Ok(()));
        }
    }
    assert!(chain[3].reusable_for(&chain[0]).is_err());
}

#[test]
fn messages_name_the_rule() {
    assert_eq!(
        LayoutMismatch::SizeMismatch { source: 4, target: 2 }.message(),
        "`T` and `U` are of different sizes"
    );
    assert_eq!(
        LayoutMismatch::InsufficientAlignment { source: 1, target: 8 }.message(),
        "alignment of `U` is too large"
    );
}
