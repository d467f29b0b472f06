//! The snapshot of engine state and corpus that a worker hands to its
//! supervisor before it dies, and its decoding after the restart.
//!
//! The blob is postcard's encoding of the executions counter, the maximum
//! input size and the corpus entries' bytes, in corpus order.
use vstd::prelude::*;
use crate::corpus::{InMemoryCorpus, Testcase};
use crate::rand::Rand;
use crate::state::State;

verus! {

#[verifier::external_type_specification]
#[verifier::external_body]
pub struct ExPostcardError(postcard::Error);

/// Postcard's varint of `n`: seven bits per byte, least significant first, the
/// high bit set on every byte but the last.
pub open spec fn varint(n: u64) -> Seq<u8>
    decreases n,
{
    if n < 128 {
        seq![n as u8]
    } else {
        seq![((n % 128) + 128) as u8] + varint(n / 128)
    }
}

/// Postcard's encoding of the entries of a sequence of byte strings, each as
/// its length (a varint) and then its bytes.
pub open spec fn postcard_entries(entries: Seq<Seq<u8>>) -> Seq<u8>
    decreases entries.len(),
{
    if entries.len() == 0 {
        Seq::empty()
    } else {
        postcard_entries(entries.drop_last()) + varint(entries.last().len() as u64) + entries.last()
    }
}

/// Postcard's encoding of `(executions, max_size, entries)` as
/// `(u64, u64, Vec<Vec<u8>>)`: the two varints, the number of entries as a
/// varint, then the entries.
pub open spec fn postcard_snapshot(executions: u64, max_size: u64, entries: Seq<Seq<u8>>) -> Seq<u8> {
    varint(executions) + varint(max_size) + varint(entries.len() as u64) + postcard_entries(entries)
}

/// The bytes of each entry.
pub open spec fn deep_bytes(v: Seq<Vec<u8>>) -> Seq<Seq<u8>> {
    v.map_values(|e: Vec<u8>| e@)
}

/// Relies on `postcard::to_allocvec` for `(u64, u64, Vec<Vec<u8>>)`: into a
/// growing `Vec` (whose pushes never fail) and with every length known, it
/// succeeds, with postcard's wire encoding of the triple.
#[verifier::external_body]
fn encode_snapshot(executions: u64, max_size: u64, entries: &Vec<Vec<u8>>) -> (r: Result<Vec<u8>, postcard::Error>)
    ensures
        r is Ok,
        r matches Ok(b) ==> b@ == postcard_snapshot(executions, max_size, deep_bytes(entries@)),
{
    postcard::to_allocvec(&(executions, max_size, entries))
}

/// Relies on `postcard::from_bytes` for `(u64, u64, Vec<Vec<u8>>)`: the bytes
/// that `to_allocvec` produced for a triple decode to that triple, and an
/// empty slice fails at the first read.
#[verifier::external_body]
fn decode_snapshot(bytes: &[u8]) -> (r: Result<(u64, u64, Vec<Vec<u8>>), postcard::Error>)
    ensures
        bytes@.len() == 0 ==> r is Err,
        r is Ok || forall|e: u64, m: u64, s: Seq<Seq<u8>>| #[trigger] postcard_snapshot(e, m, s) != bytes@,
        r matches Ok(t) ==> forall|e: u64, m: u64, s: Seq<Seq<u8>>| #[trigger] postcard_snapshot(e, m, s) == bytes@
            ==> t.0 == e && t.1 == m && deep_bytes(t.2@) == s,
{
    postcard::from_bytes::<(u64, u64, Vec<Vec<u8>>)>(bytes)
}

/// The engine counters that a snapshot carries.
#[derive(Clone, Copy, Debug, PartialEq, Eq, Structural)]
pub struct EngineCounters {
    pub executions: u64,
    pub max_size: u64,
}

/// The counters of a state.
pub open spec fn counters_of<R: Rand>(state: State<R>) -> EngineCounters {
    EngineCounters { executions: state.executions, max_size: state.max_size as u64 }
}

/// The snapshot of counters `c` and corpus entries `entries`.
pub open spec fn snapshot_bytes(c: EngineCounters, entries: Seq<Seq<u8>>) -> Seq<u8> {
    postcard_snapshot(c.executions, c.max_size, entries)
}

/// What `deserialize_state_corpus` promises of its result `r` for `bytes`:
/// the snapshot of some counters and entries decodes to exactly those, and
/// every failure is a codec error.
pub open spec fn deserialized_from(bytes: Seq<u8>, r: Result<(EngineCounters, InMemoryCorpus), crate::AflError>) -> bool {
    &&& forall|c: EngineCounters, e: Seq<Seq<u8>>| #[trigger] snapshot_bytes(c, e) == bytes ==> (r matches Ok(p)
        && p.0 == c && p.1@ == e)
    &&& r is Err ==> r == Err::<(EngineCounters, InMemoryCorpus), crate::AflError>(crate::AflError::Codec)
    &&& bytes.len() == 0 ==> r == Err::<(EngineCounters, InMemoryCorpus), crate::AflError>(crate::AflError::Codec)
}

/// Serializes the registered state's counters and its corpus. With no state
/// registered (outside an executor's run context) it is an illegal-state
/// error; an encoder failure is a codec error.
pub fn serialize_state_corpus<R: Rand>(state: Option<&State<R>>) -> (r: Result<Vec<u8>, crate::AflError>)
    ensures
        state is None <==> r == Err::<Vec<u8>, crate::AflError>(crate::AflError::IllegalState),
        state is Some ==> r is Ok,
        state matches Some(s) ==> (r matches Ok(b) && b@ == snapshot_bytes(counters_of(*s), s.corpus@)),
{
    let state = match state {
        Some(s) => s,
        None => return Err(crate::AflError::IllegalState),
    };
    let mut entries: Vec<Vec<u8>> = Vec::new();
    let n = state.corpus.count();
    let mut i: usize = 0;
    while i < n
        invariant
            i <= n,
            n == state.corpus@.len(),
            deep_bytes(entries@) == state.corpus@.subrange(0, i as int),
        decreases n - i,
    {
        let t = match state.corpus.get(i) {
            Some(t) => t,
            None => return Err(crate::AflError::Codec),
        };
        let bytes = t.input().to_vec();
        let ghost prev = entries@;
        entries.push(bytes);
        proof {
            assert(deep_bytes(entries@) =~= deep_bytes(prev).push(state.corpus@[i as int]));
            assert(state.corpus@.subrange(0, i + 1) =~= state.corpus@.subrange(0, i as int).push(state.corpus@[i as int]));
        }
        i = i + 1;
    }
    assert(state.corpus@.subrange(0, n as int) =~= state.corpus@);
    match encode_snapshot(state.executions, state.max_size as u64, &entries) {
        Ok(b) => Ok(b),
        Err(_) => Err(crate::AflError::Codec),
    }
}

/// Decodes a snapshot into its counters and a corpus holding its entries, in
/// order.
pub fn deserialize_state_corpus(bytes: &[u8]) -> (r: Result<(EngineCounters, InMemoryCorpus), crate::AflError>)
    ensures
        deserialized_from(bytes@, r),
{
    let (executions, max_size, entries) = match decode_snapshot(bytes) {
        Ok(t) => t,
        Err(_) => return Err(crate::AflError::Codec),
    };
    let mut corpus = InMemoryCorpus::new();
    let mut i: usize = 0;
    while i < entries.len()
        invariant
            i <= entries@.len(),
            corpus@ == deep_bytes(entries@).subrange(0, i as int),
        decreases entries@.len() - i,
    {
        let e = entries[i].clone();
        let _ = corpus.add(Testcase::new(e));
        proof {
            assert(deep_bytes(entries@).subrange(0, i + 1) =~= deep_bytes(entries@).subrange(0, i as int).push(entries@[i as int]@));
        }
        i = i + 1;
    }
    assert(deep_bytes(entries@).subrange(0, entries@.len() as int) =~= deep_bytes(entries@));
    let counters = EngineCounters { executions, max_size };
    proof {
        assert forall|c: EngineCounters, e: Seq<Seq<u8>>| #[trigger] snapshot_bytes(c, e) == bytes@ implies c == counters
            && corpus@ == e by {
            assert(postcard_snapshot(c.executions, c.max_size, e) == bytes@);
        }
    }
    Ok((counters, corpus))
}

/// Round trip: the bytes that serializing a state produced decode to the
/// state's counters and a corpus with the same entries, in the same order.
pub proof fn lemma_snapshot_round_trip<R: Rand>(
    state: State<R>,
    bytes: Seq<u8>,
    decoded: Result<(EngineCounters, InMemoryCorpus), crate::AflError>,
)
    requires
        bytes == snapshot_bytes(counters_of(state), state.corpus@),
        deserialized_from(bytes, decoded),
    ensures
        decoded matches Ok(p) && p.0 == counters_of(state) && p.1@ == state.corpus@,
{
    assert(snapshot_bytes(counters_of(state), state.corpus@) == bytes);
}

} // verus!
