use evmla_lowering::stack::{dup, pop, push, push_tag, swap, Context, StackError};
use evmla_lowering::word::Word;

fn word(v: u64) -> Word {
    Word::from_u64(v)
}

/// A context whose stack holds `values`, bottom first, each slot in the cell
/// of its own position and labelled "v<value>".
fn context_with(values: &[u64], cells: usize) -> Context {
    let mut context = Context::new(cells);
    for v in values {
        context
            .push_slot(word(*v), Some(format!("v{}", v)))
            .expect("room for the slot");
    }
    context
}

#[test]
fn push_hex_literal() {
    let mut context = Context::new(0);
    assert_eq!(push(&mut context, "1a".to_owned()), Ok(word(26)));
    assert_eq!(push(&mut context, "FF".to_owned()), Ok(word(255)));
}

#[test]
fn push_tag_decimal() {
    let mut context = Context::new(0);
    assert_eq!(push_tag(&mut context, "12".to_owned()), Ok(word(12)));
    assert_eq!(push_tag(&mut context, "1a".to_owned()), Err(StackError::MalformedImmediate));
}

#[test]
fn push_carries_across_limbs() {
    let mut context = Context::new(0);
    let expected = Word { l0: 0, l1: 1, l2: 0, l3: 0 };
    assert_eq!(push(&mut context, "10000000000000000".to_owned()), Ok(expected));
    assert_eq!(push_tag(&mut context, "18446744073709551616".to_owned()), Ok(expected));
}

#[test]
fn push_full_width_and_beyond() {
    let mut context = Context::new(0);
    let max = Word { l0: u64::MAX, l1: u64::MAX, l2: u64::MAX, l3: u64::MAX };
    assert_eq!(push(&mut context, "f".repeat(64)), Ok(max));
    let too_wide = format!("1{}", "0".repeat(64));
    assert_eq!(push(&mut context, too_wide), Err(StackError::MalformedImmediate));
}

#[test]
fn push_malformed() {
    let mut context = Context::new(0);
    assert_eq!(push(&mut context, "".to_owned()), Err(StackError::MalformedImmediate));
    assert_eq!(push(&mut context, "0x1a".to_owned()), Err(StackError::MalformedImmediate));
    assert_eq!(push(&mut context, "g".to_owned()), Err(StackError::MalformedImmediate));
}

#[test]
fn dup_reads_the_addressed_slot() {
    let mut context = context_with(&[1, 2, 3], 4);
    let mut original = None;
    assert_eq!(dup(&mut context, 0, 3, &mut original), Ok(word(3)));
    assert_eq!(original, Some("v3".to_owned()));
    assert_eq!(dup(&mut context, 2, 3, &mut original), Ok(word(1)));
    assert_eq!(original, Some("v1".to_owned()));
    assert_eq!(context.load(1), word(2));
    assert_eq!(context.height(), 3);
}

#[test]
fn dup_out_of_range_underflows() {
    let mut context = context_with(&[1, 2, 3], 4);
    let mut original = Some("kept".to_owned());
    assert_eq!(dup(&mut context, 3, 3, &mut original), Err(StackError::StackUnderflow));
    assert_eq!(dup(&mut context, 5, 3, &mut original), Err(StackError::StackUnderflow));
    assert_eq!(original, Some("kept".to_owned()));
}

#[test]
fn dup_with_wrong_height_is_a_mismatch() {
    let mut context = context_with(&[1, 2, 3], 4);
    let mut original = None;
    assert_eq!(dup(&mut context, 0, 2, &mut original), Err(StackError::HeightMismatch));
    assert_eq!(original, None);
}

#[test]
fn swap_exchanges_values_and_labels() {
    let mut context = context_with(&[1, 2, 3], 4);
    assert_eq!(swap(&mut context, 2, 3), Ok(()));
    assert_eq!(context.load(2), word(1));
    assert_eq!(context.load(0), word(3));
    assert_eq!(context.load(1), word(2));
    assert_eq!(context.stack[2].original, Some("v1".to_owned()));
    assert_eq!(context.stack[0].original, Some("v3".to_owned()));
    assert_eq!(context.stack[2].storage, 2);
    assert_eq!(context.stack[0].storage, 0);
}

#[test]
fn swap_twice_restores() {
    let mut context = context_with(&[1, 2, 3], 4);
    assert_eq!(swap(&mut context, 1, 3), Ok(()));
    assert_eq!(swap(&mut context, 1, 3), Ok(()));
    for (i, v) in [1u64, 2, 3].iter().enumerate() {
        assert_eq!(context.load(i), word(*v));
        assert_eq!(context.stack[i].original, Some(format!("v{}", v)));
        assert_eq!(context.stack[i].storage, i);
    }
}

#[test]
fn swap_top_with_itself_changes_nothing() {
    let mut context = context_with(&[1, 2], 2);
    assert_eq!(swap(&mut context, 0, 2), Ok(()));
    assert_eq!(context.load(1), word(2));
    assert_eq!(context.load(0), word(1));
    assert_eq!(context.stack[1].original, Some("v2".to_owned()));
}

#[test]
fn swap_out_of_range_underflows() {
    let mut context = context_with(&[1, 2], 2);
    assert_eq!(swap(&mut context, 2, 2), Err(StackError::StackUnderflow));
    assert_eq!(swap(&mut context, 1, 3), Err(StackError::HeightMismatch));
    assert_eq!(context.load(1), word(2));
    assert_eq!(context.load(0), word(1));
}

#[test]
fn push_then_dup_gives_the_same_value_and_label() {
    let mut context = context_with(&[7], 3);
    let value = push(&mut context, "2a".to_owned()).expect("a valid literal");
    context.push_slot(value, Some("x".to_owned())).expect("room for the slot");
    let mut original = None;
    assert_eq!(dup(&mut context, 0, 2, &mut original), Ok(word(42)));
    assert_eq!(original, Some("x".to_owned()));
    assert_eq!(context.load(1), word(42));
}

#[test]
fn pop_emits_nothing_and_the_cell_keeps_its_value() {
    let mut context = context_with(&[1, 2], 2);
    assert_eq!(pop(&mut context), Ok(()));
    assert_eq!(context.height(), 2);
    assert_eq!(context.pop_slot(), Ok(()));
    assert_eq!(context.height(), 1);
    assert_eq!(context.load(1), word(2));
}

#[test]
fn slots_are_bounded_by_cells() {
    let mut context = context_with(&[1], 1);
    assert_eq!(context.push_slot(word(2), None), Err(StackError::StackOverflow));
    assert_eq!(context.pop_slot(), Ok(()));
    assert_eq!(context.pop_slot(), Err(StackError::StackUnderflow));
}
