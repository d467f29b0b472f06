use libafl::corpus::{InMemoryCorpus, Testcase};
use libafl::inputs::BytesInput;
use libafl::mutations::{get_and_mutate, MutationKind, MutationResult};
use libafl::rand::{Rand, XKCDRand};
use libafl::state::State;

fn state_with(seed: u64, entries: &[&[u8]]) -> State<XKCDRand> {
    let mut corpus = InMemoryCorpus::new();
    for e in entries {
        corpus.add(Testcase::new(e.to_vec())).unwrap();
    }
    State::new(XKCDRand::with_seed(seed), corpus, InMemoryCorpus::new())
}

fn apply(kind: MutationKind, state: &mut State<XKCDRand>, bytes: &[u8]) -> (MutationResult, Vec<u8>) {
    let mut input = BytesInput::new(bytes.to_vec());
    let r = get_and_mutate(kind, state, &mut input);
    (r, input.to_vec())
}

#[test]
fn byte_flip_at_drawn_position() {
    let mut s = state_with(1, &[]);
    assert_eq!(apply(MutationKind::ByteFlip, &mut s, &[0, 0, 0]), (MutationResult::Mutated, vec![0, 0xff, 0]));
}

#[test]
fn bit_flip_and_byte_arith() {
    let mut s = state_with(1, &[]);
    // Position 1 % 2, bit 1 % 8.
    assert_eq!(apply(MutationKind::BitFlip, &mut s, &[0, 0]), (MutationResult::Mutated, vec![0, 2]));
    assert_eq!(apply(MutationKind::ByteInc, &mut s, &[0, 0xff]), (MutationResult::Mutated, vec![0, 0]));
    assert_eq!(apply(MutationKind::ByteDec, &mut s, &[0, 0]), (MutationResult::Mutated, vec![0, 0xff]));
    assert_eq!(apply(MutationKind::ByteNeg, &mut s, &[0, 1]), (MutationResult::Mutated, vec![0, 0xff]));
    // Value 1 % 255 + 1 == 2 is xored in.
    assert_eq!(apply(MutationKind::ByteRand, &mut s, &[0, 1]), (MutationResult::Mutated, vec![0, 3]));
}

#[test]
fn word_add_wraps_little_endian() {
    // Position 0, delta 1, added.
    let mut s = state_with(0, &[]);
    assert_eq!(apply(MutationKind::WordAdd, &mut s, &[0xff, 0x00, 5]), (MutationResult::Mutated, vec![0x00, 0x01, 5]));
    assert_eq!(apply(MutationKind::ByteAdd, &mut s, &[0xff]), (MutationResult::Mutated, vec![0x00]));
    assert_eq!(
        apply(MutationKind::QwordAdd, &mut s, &[0xff; 8]),
        (MutationResult::Mutated, vec![0; 8])
    );
    // Delta 2, subtracted (1 % 2 == 1).
    let mut s = state_with(1, &[]);
    assert_eq!(apply(MutationKind::DwordAdd, &mut s, &[9, 1, 0, 0, 0]), (MutationResult::Mutated, vec![9, 0xff, 0xff, 0xff, 0xff]));
}

#[test]
fn arith_skips_short_inputs() {
    let mut s = state_with(0, &[]);
    assert_eq!(apply(MutationKind::WordAdd, &mut s, &[1]), (MutationResult::Skipped, vec![1]));
    assert_eq!(apply(MutationKind::QwordAdd, &mut s, &[1; 7]), (MutationResult::Skipped, vec![1; 7]));
    assert_eq!(apply(MutationKind::ByteInc, &mut s, &[]), (MutationResult::Skipped, vec![]));
}

#[test]
fn interesting_values() {
    let mut s = state_with(1, &[]);
    // Position 1 % 3, value index 1 (-1).
    assert_eq!(
        apply(MutationKind::WordInteresting, &mut s, &[0, 0, 0, 0]),
        (MutationResult::Mutated, vec![0, 0xff, 0xff, 0])
    );
    let mut s = state_with(0, &[]);
    // Value index 0 (-128).
    assert_eq!(apply(MutationKind::ByteInteresting, &mut s, &[7]), (MutationResult::Mutated, vec![0x80]));
    let mut s = state_with(19, &[]);
    // Position 0, value index 19 (i32::MIN).
    assert_eq!(
        apply(MutationKind::DwordInteresting, &mut s, &[1, 1, 1, 1]),
        (MutationResult::Mutated, vec![0, 0, 0, 0x80])
    );
}

#[test]
fn block_delete() {
    let mut s = state_with(1, &[]);
    // Offset 1, length 1 + 1 % 3 == 2.
    assert_eq!(apply(MutationKind::BytesDelete, &mut s, &[1, 2, 3, 4]), (MutationResult::Mutated, vec![1, 4]));
    assert_eq!(apply(MutationKind::BytesDelete, &mut s, &[1, 2]), (MutationResult::Skipped, vec![1, 2]));
}

#[test]
fn block_insert_duplicate_set_copy_swap() {
    let mut s = state_with(0, &[]);
    assert_eq!(apply(MutationKind::BytesExpand, &mut s, &[1, 2, 3]), (MutationResult::Mutated, vec![1, 1, 2, 3]));
    assert_eq!(apply(MutationKind::BytesInsert, &mut s, &[7, 2]), (MutationResult::Mutated, vec![7, 7, 2]));
    assert_eq!(apply(MutationKind::BytesRandInsert, &mut s, &[]), (MutationResult::Mutated, vec![0]));
    assert_eq!(apply(MutationKind::BytesSet, &mut s, &[5, 6]), (MutationResult::Mutated, vec![5, 6]));
    assert_eq!(apply(MutationKind::BytesRandSet, &mut s, &[5, 6]), (MutationResult::Mutated, vec![0, 6]));
    assert_eq!(apply(MutationKind::BytesCopy, &mut s, &[5, 6]), (MutationResult::Mutated, vec![5, 6]));
    assert_eq!(apply(MutationKind::BytesSwap, &mut s, &[1, 2, 3, 4]), (MutationResult::Mutated, vec![2, 1, 3, 4]));
    assert_eq!(apply(MutationKind::BytesSwap, &mut s, &[1]), (MutationResult::Skipped, vec![1]));
}

#[test]
fn growth_past_max_size_is_skipped() {
    let mut s = state_with(0, &[b"zz"]);
    s.set_max_size(3);
    assert_eq!(apply(MutationKind::BytesRandInsert, &mut s, &[1, 2, 3]), (MutationResult::Skipped, vec![1, 2, 3]));
    assert_eq!(apply(MutationKind::BytesExpand, &mut s, &[1, 2, 3]), (MutationResult::Skipped, vec![1, 2, 3]));
    // Two bytes plus a copy of one still fits.
    assert_eq!(apply(MutationKind::BytesExpand, &mut s, &[1, 2]), (MutationResult::Mutated, vec![1, 1, 2]));
}

#[test]
fn tokens_need_a_dictionary() {
    let mut s = state_with(0, &[]);
    assert_eq!(apply(MutationKind::TokenInsert, &mut s, &[1]), (MutationResult::Skipped, vec![1]));
    assert_eq!(apply(MutationKind::TokenReplace, &mut s, &[1]), (MutationResult::Skipped, vec![1]));
    s.add_token(vec![9, 9]);
    assert_eq!(apply(MutationKind::TokenInsert, &mut s, &[1]), (MutationResult::Mutated, vec![9, 9, 1]));
    assert_eq!(apply(MutationKind::TokenReplace, &mut s, &[1, 2, 3]), (MutationResult::Mutated, vec![9, 9, 3]));
    assert_eq!(apply(MutationKind::TokenReplace, &mut s, &[1]), (MutationResult::Mutated, vec![9]));
}

#[test]
fn crossover_needs_two_entries() {
    let mut s = state_with(1, &[b"abc"]);
    assert_eq!(apply(MutationKind::CrossoverInsert, &mut s, b"xy"), (MutationResult::Skipped, b"xy".to_vec()));
    assert_eq!(apply(MutationKind::CrossoverReplace, &mut s, b"xy"), (MutationResult::Skipped, b"xy".to_vec()));
    assert_eq!(apply(MutationKind::Splice, &mut s, b"xy"), (MutationResult::Skipped, b"xy".to_vec()));
}

#[test]
fn crossover_insert_and_replace() {
    // Donor index 1 % 2 == 1 ("def"); from 1 % 3 == 1; length 1 + 1 % 2 == 2.
    let mut s = state_with(1, &[b"abc", b"def"]);
    // Position 1 % 3 == 1.
    assert_eq!(apply(MutationKind::CrossoverInsert, &mut s, b"xy"), (MutationResult::Mutated, b"xefy".to_vec()));
    // Replace: from 1, to 1 % 3 == 1, length 1 + 1 % 2 == 2.
    assert_eq!(apply(MutationKind::CrossoverReplace, &mut s, b"xyz"), (MutationResult::Mutated, b"xef".to_vec()));
}

#[test]
fn crossover_excludes_current_entry() {
    let mut s = state_with(0, &[b"abc", b"def"]);
    s.corpus.set_current(Some(0));
    // 0 % 1 == 0, shifted past the current entry: the donor is "def".
    assert_eq!(apply(MutationKind::CrossoverReplace, &mut s, b"xyz"), (MutationResult::Mutated, b"dyz".to_vec()));
}

#[test]
fn splice_skips_when_no_two_differences() {
    let mut s = state_with(5, &[b"abc", b"abc"]);
    assert_eq!(apply(MutationKind::Splice, &mut s, b"abc"), (MutationResult::Skipped, b"abc".to_vec()));
}

#[test]
fn catalog_names() {
    assert_eq!(MutationKind::BitFlip.name(), "BitFlipMutator");
    assert_eq!(MutationKind::Splice.name(), "SpliceMutator");
    assert_eq!(MutationKind::TokenInsert.name(), "TokenInsert");
}

#[test]
fn crossover_replace_regression() {
    // Donor 5 % 2 == 1 ("def"), from 5 % 3 == 2, to 5 % 3 == 2, one byte.
    let mut s = state_with(5, &[b"abc", b"def"]);
    assert_eq!(apply(MutationKind::CrossoverReplace, &mut s, b"abc"), (MutationResult::Mutated, b"abf".to_vec()));
}

#[test]
fn bytes_input_from_slice() {
    let i = BytesInput::from(&[1u8, 2][..]);
    assert_eq!(i.bytes(), &[1, 2]);
}
