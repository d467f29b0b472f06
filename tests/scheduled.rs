use libafl::corpus::{InMemoryCorpus, Testcase};
use libafl::inputs::BytesInput;
use libafl::mutations::{MutationKind, MutationResult, SpliceMutator};
use libafl::rand::{below, Rand, StdRand, XKCDRand};
use libafl::scheduled::{
    draw_iterations, havoc_mutations, ComposedByMutations, LoggerScheduledMutator, MutationsMetadata,
    ScheduledMutator, StdScheduledMutator,
};
use libafl::state::State;
use libafl::AflError;

fn two_entry_corpus() -> InMemoryCorpus {
    let mut corpus = InMemoryCorpus::new();
    corpus.add(Testcase::new(vec!['a' as u8, 'b' as u8, 'c' as u8])).unwrap();
    corpus.add(Testcase::new(vec!['d' as u8, 'e' as u8, 'f' as u8])).unwrap();
    corpus
}

#[test]
fn test_mut_scheduled() {
    // With the fixed generator, the splice cuts at position 2.
    let mut rand = XKCDRand::with_seed(5);
    let corpus = two_entry_corpus();

    let testcase = corpus.get(0).expect("Corpus did not contain entries");
    let mut input = testcase.load_input().unwrap().clone();

    let mut state = State::new(rand, corpus, InMemoryCorpus::new());

    rand.set_seed(5);

    let mut splice = SpliceMutator::new();
    splice.mutate(&mut state, &mut input, 0).unwrap();

    println!("{:?}", input.bytes());

    assert_eq!(input.bytes(), &['a' as u8, 'b' as u8, 'f' as u8])
}

#[test]
fn test_havoc() {
    let rand = StdRand::with_seed(0x1337);
    let corpus = two_entry_corpus();

    let testcase = corpus.get(0).expect("Corpus did not contain entries");
    let mut input = testcase.load_input().unwrap().clone();
    let input_prior = input.clone();

    let mut state = State::new(rand, corpus, InMemoryCorpus::new());

    let mut havoc = StdScheduledMutator::new(havoc_mutations());

    assert_eq!(input, input_prior);

    let mut equal_in_a_row = 0;

    for i in 0..42 {
        havoc.mutate(&mut state, &mut input, i).unwrap();

        // Make sure we actually mutate something, at least sometimes
        equal_in_a_row = if input == input_prior { equal_in_a_row + 1 } else { 0 };
        assert_ne!(equal_in_a_row, 5);
    }
}

#[test]
fn havoc_catalog_has_28_entries() {
    let h = havoc_mutations();
    assert_eq!(h.len(), 28);
    assert_eq!(h[0], MutationKind::BitFlip);
    assert_eq!(h[27], MutationKind::CrossoverReplace);
    assert_eq!(h.iter().filter(|k| **k == MutationKind::BytesDelete).count(), 4);
}

#[test]
fn stack_depth_is_power_of_two_and_roughly_uniform() {
    let mut rand = StdRand::with_seed(0xdead_beef);
    let mut counts = [0u32; 6];
    let draws = 12000;
    for _ in 0..draws {
        let d = draw_iterations(&mut rand);
        let k = match d {
            2 => 0,
            4 => 1,
            8 => 2,
            16 => 3,
            32 => 4,
            64 => 5,
            _ => panic!("unexpected depth {}", d),
        };
        counts[k] += 1;
    }
    let expected = draws as f64 / 6.0;
    for c in counts.iter() {
        let ratio = *c as f64 / expected;
        assert!(ratio > 0.8 && ratio < 1.2, "counts {:?}", counts);
    }
}

#[test]
fn depth_draw_with_fixed_generator() {
    // below(6) of 5 is 5, so the depth is 2^6.
    let mut rand = XKCDRand::with_seed(5);
    assert_eq!(draw_iterations(&mut rand), 64);
    let mut rand = XKCDRand::with_seed(6);
    assert_eq!(draw_iterations(&mut rand), 2);
}

fn run_havoc(seed: u64, bytes: Vec<u8>) -> (Vec<u8>, Vec<MutationResult>) {
    let mut state = State::new(StdRand::with_seed(seed), two_entry_corpus(), InMemoryCorpus::new());
    let mut input = BytesInput::new(bytes);
    let mut havoc = StdScheduledMutator::new(havoc_mutations());
    let mut outs = Vec::new();
    for i in 0..20 {
        outs.push(havoc.scheduled_mutate(&mut state, &mut input, i).unwrap());
    }
    (input.to_vec(), outs)
}

#[test]
fn same_seed_same_output_bytes() {
    let a = run_havoc(99, b"hello fuzzing world".to_vec());
    let b = run_havoc(99, b"hello fuzzing world".to_vec());
    assert_eq!(a, b);
    let c = run_havoc(100, b"hello fuzzing world".to_vec());
    assert_ne!(a.0, c.0);
}

#[test]
fn empty_catalog_is_an_error() {
    let mut state = State::new(StdRand::with_seed(1), InMemoryCorpus::new(), InMemoryCorpus::new());
    let mut input = BytesInput::new(vec![1, 2, 3]);
    let mut m = StdScheduledMutator::new(Vec::new());
    let before = state.rand;
    assert_eq!(m.mutate(&mut state, &mut input, 0), Err(AflError::EmptyCatalog));
    assert_eq!(input.bytes(), &[1, 2, 3]);
    assert_eq!(state.rand, before);
}

#[test]
fn single_entry_catalog_always_mutates_nonempty_input() {
    let mut state = State::new(StdRand::with_seed(5), InMemoryCorpus::new(), InMemoryCorpus::new());
    let mut input = BytesInput::new(vec![0; 8]);
    let mut m = StdScheduledMutator::new(vec![MutationKind::ByteInc]);
    for i in 0..10 {
        assert_eq!(m.mutate(&mut state, &mut input, i), Ok(MutationResult::Mutated));
    }
    // Skipped only where every step was a no-op.
    let mut empty = BytesInput::new(vec![]);
    assert_eq!(m.mutate(&mut state, &mut empty, 0), Ok(MutationResult::Skipped));
}

#[test]
fn schedule_and_iterations_through_trait() {
    let mut state = State::new(XKCDRand::with_seed(7), InMemoryCorpus::new(), InMemoryCorpus::new());
    let m = StdScheduledMutator::new(havoc_mutations());
    let input = BytesInput::new(vec![1]);
    // 7 % 6 == 1, so 2^2; 7 % 28 == 7.
    assert_eq!(m.iterations(&mut state, &input), 4);
    assert_eq!(m.schedule(&mut state, &input), 7);
    assert_eq!(m.mutations().len(), 28);
}

#[test]
fn logger_records_and_attaches_names() {
    let mut state = State::new(XKCDRand::with_seed(0), two_entry_corpus(), InMemoryCorpus::new());
    let mut input = BytesInput::new(vec![1, 2, 3]);
    let mut logger = LoggerScheduledMutator::new(StdScheduledMutator::new(vec![
        MutationKind::ByteFlip,
        MutationKind::ByteInc,
    ]));
    // Depth 2 (0 % 6 == 0), both draws pick index 0.
    assert_eq!(logger.mutate(&mut state, &mut input, 0), Ok(MutationResult::Mutated));
    assert_eq!(logger.mutation_log(), &vec![0usize, 0]);
    assert_eq!(input.bytes(), &[1, 2, 3]);
    logger.post_exec(&mut state, 0, Some(1)).unwrap();
    assert!(logger.mutation_log().is_empty());
    let t = state.corpus.get(1).unwrap();
    assert_eq!(t.metadata().len(), 1);
    let names: Vec<String> = t.metadata()[0].as_slice().to_vec();
    assert_eq!(names, vec!["ByteFlipMutator".to_string(), "ByteFlipMutator".to_string()]);
    assert_eq!(state.corpus.get(0).unwrap().metadata().len(), 0);
}

#[test]
fn logger_clears_log_without_entry_and_on_bad_index() {
    let mut state = State::new(StdRand::with_seed(3), two_entry_corpus(), InMemoryCorpus::new());
    let mut input = BytesInput::new(vec![1, 2, 3, 4]);
    let mut logger = LoggerScheduledMutator::new(StdScheduledMutator::new(havoc_mutations()));
    logger.mutate(&mut state, &mut input, 0).unwrap();
    assert!(!logger.mutation_log().is_empty());
    assert_eq!(logger.post_exec(&mut state, 0, None), Ok(()));
    assert!(logger.mutation_log().is_empty());
    logger.mutate(&mut state, &mut input, 1).unwrap();
    assert_eq!(logger.post_exec(&mut state, 0, Some(9)), Err(AflError::KeyNotFound));
    assert!(logger.mutation_log().is_empty());
    assert_eq!(state.corpus.get(0).unwrap().metadata().len(), 0);
}

#[test]
fn metadata_holds_names() {
    let m = MutationsMetadata::new(vec!["a".to_string(), "b".to_string()]);
    assert_eq!(m.as_slice(), &["a".to_string(), "b".to_string()]);
    assert_eq!(m.clone_metadata().list, m.list);
}

#[test]
fn below_bounds() {
    let mut r = StdRand::with_seed(11);
    for n in 1..50u64 {
        assert!(below(&mut r, n) < n);
    }
    assert_eq!(below(&mut r, 0), 0);
}

#[test]
fn logger_through_scheduler_trait_and_catalog_change() {
    let mut state = State::new(XKCDRand::with_seed(1), two_entry_corpus(), InMemoryCorpus::new());
    let mut input = BytesInput::new(vec![0, 0]);
    let mut logger = LoggerScheduledMutator::new(StdScheduledMutator::new(vec![MutationKind::ByteInc]));
    // 1 % 6 == 1: depth 4, each step increments byte 1 % 2 == 1.
    assert_eq!(logger.scheduled_mutate(&mut state, &mut input, 0), Ok(MutationResult::Mutated));
    assert_eq!(input.bytes(), &[0, 4]);
    assert_eq!(logger.mutation_log(), &vec![0usize; 4]);
    assert_eq!(logger.iterations(&mut state, &input), 4);
    assert_eq!(logger.schedule(&mut state, &input), 0);
    logger.mutations_mut().push(MutationKind::ByteDec);
    assert!(logger.mutation_log().is_empty());
    assert_eq!(logger.mutations().len(), 2);
    let mut std = StdScheduledMutator::new(vec![]);
    std.mutations_mut().push(MutationKind::ByteFlip);
    assert_eq!(std.mutations(), &vec![MutationKind::ByteFlip]);
}
