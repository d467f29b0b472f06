use libafl::corpus::{InMemoryCorpus, Testcase};
use libafl::rand::{Rand, StdRand};
use libafl::snapshot::{deserialize_state_corpus, serialize_state_corpus, EngineCounters};
use libafl::state::State;
use libafl::AflError;

#[test]
fn snapshot_round_trip() {
    let mut corpus = InMemoryCorpus::new();
    corpus.add(Testcase::new(b"abc".to_vec())).unwrap();
    corpus.add(Testcase::new(vec![])).unwrap();
    corpus.add(Testcase::new(vec![0, 255, 7])).unwrap();
    let mut state = State::new(StdRand::with_seed(1), corpus, InMemoryCorpus::new());
    state.executions = 12345;
    state.set_max_size(4096);
    let bytes = serialize_state_corpus(Some(&state)).unwrap();
    let (counters, corpus2) = deserialize_state_corpus(&bytes).unwrap();
    assert_eq!(counters, EngineCounters { executions: 12345, max_size: 4096 });
    assert_eq!(corpus2.count(), 3);
    for i in 0..3 {
        assert_eq!(corpus2.get(i).unwrap().input().bytes(), state.corpus.get(i).unwrap().input().bytes());
    }
}

#[test]
fn empty_corpus_round_trips() {
    let state = State::new(StdRand::with_seed(1), InMemoryCorpus::new(), InMemoryCorpus::new());
    let bytes = serialize_state_corpus(Some(&state)).unwrap();
    assert!(!bytes.is_empty());
    let (counters, corpus) = deserialize_state_corpus(&bytes).unwrap();
    assert_eq!(counters.executions, 0);
    assert_eq!(corpus.count(), 0);
}

#[test]
fn snapshot_without_state_is_illegal() {
    assert_eq!(serialize_state_corpus::<StdRand>(None), Err(AflError::IllegalState));
}

#[test]
fn malformed_snapshot_is_a_codec_error() {
    assert!(matches!(deserialize_state_corpus(&[]), Err(AflError::Codec)));
    assert!(matches!(deserialize_state_corpus(&[1, 2, 200]), Err(AflError::Codec)));
}

#[test]
fn snapshot_bytes_follow_postcard_wire_format() {
    let mut corpus = InMemoryCorpus::new();
    corpus.add(Testcase::new(vec![7, 8])).unwrap();
    let mut state = State::new(StdRand::with_seed(1), corpus, InMemoryCorpus::new());
    state.executions = 300;
    state.set_max_size(5);
    let bytes = serialize_state_corpus(Some(&state)).unwrap();
    // varint(300), varint(5), one entry, its length, its bytes.
    assert_eq!(bytes, vec![0xac, 0x02, 5, 1, 2, 7, 8]);
}
