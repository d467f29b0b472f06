//! Stacked scheduling of the mutation catalog, and the provenance it records.
use vstd::prelude::*;
use crate::corpus::InMemoryCorpus;
use crate::inputs::BytesInput;
use crate::mutations::{mutate_with, mutation_spec, pick, MutationContext, MutationKind, MutationResult};
use crate::rand::{below, below_spec, Rand};
use crate::state::State;
use crate::AflError;

verus! {

/// The names of the mutations that produced a test case, in the order applied.
#[derive(Clone, Debug)]
pub struct MutationsMetadata {
    pub list: Vec<String>,
}

impl View for MutationsMetadata {
    type V = Seq<Seq<char>>;

    open spec fn view(&self) -> Seq<Seq<char>> {
        self.list@.map_values(|s: String| s@)
    }
}

impl MutationsMetadata {
    /// Metadata holding the given names.
    pub fn new(list: Vec<String>) -> (r: MutationsMetadata)
        ensures
            r@ == list@.map_values(|s: String| s@),
    {
        MutationsMetadata { list }
    }

    /// The names, in the order applied.
    pub fn as_slice(&self) -> (r: &[String])
        ensures
            r@ == self.list@,
    {
        self.list.as_slice()
    }

    /// A copy holding the same names.
    pub fn clone_metadata(&self) -> (r: MutationsMetadata)
        ensures
            r@ == self@,
    {
        let mut list: Vec<String> = Vec::new();
        let mut i: usize = 0;
        while i < self.list.len()
            invariant
                i <= self.list@.len(),
                list@.len() == i,
                forall|j: int| 0 <= j < i ==> #[trigger] list@[j]@ == self.list@[j]@,
            decreases self.list@.len() - i,
        {
            let s = self.list[i].clone();
            list.push(s);
            i = i + 1;
        }
        assert(list@.map_values(|s: String| s@) =~= self.list@.map_values(|s: String| s@));
        MutationsMetadata { list }
    }
}

/// The number of stack depths to choose from: `2^1` to `2^6`.
pub const DEPTH_CHOICES: u64 = 6;

/// The stack depth for a draw `v` in `[0, DEPTH_CHOICES)`: `2^(1+v)`.
pub open spec fn depth_of(v: u64) -> u64 {
    1u64 << ((1 + v) as u64)
}

/// The depth draw: the generator after it and the depth.
pub open spec fn iterations_spec<R: Rand>(r: R) -> (R, u64) {
    let (r1, v) = below_spec(r, DEPTH_CHOICES);
    (r1, depth_of(v))
}

/// The depths that the scheduler can draw.
pub open spec fn is_stack_depth(d: u64) -> bool {
    d == 2 || d == 4 || d == 8 || d == 16 || d == 32 || d == 64
}

proof fn lemma_depth_of(v: u64)
    requires
        v < DEPTH_CHOICES,
    ensures
        is_stack_depth(depth_of(v)),
        depth_of(v) == if v == 0 { 2u64 } else if v == 1 { 4u64 } else if v == 2 { 8u64 } else if v == 3 {
            16u64
        } else if v == 4 { 32u64 } else { 64u64 },
{
    assert(1u64 << 1u64 == 2u64) by (bit_vector);
    assert(1u64 << 2u64 == 4u64) by (bit_vector);
    assert(1u64 << 3u64 == 8u64) by (bit_vector);
    assert(1u64 << 4u64 == 16u64) by (bit_vector);
    assert(1u64 << 5u64 == 32u64) by (bit_vector);
    assert(1u64 << 6u64 == 64u64) by (bit_vector);
}

/// Draws the stack depth: one of 2, 4, 8, 16, 32, 64.
pub fn draw_iterations<R: Rand>(rand: &mut R) -> (r: u64)
    ensures
        (*final(rand), r) == iterations_spec(*old(rand)),
        is_stack_depth(r),
{
    let v = below(rand, DEPTH_CHOICES);
    proof {
        lemma_depth_of(v);
    }
    1u64 << (1 + v)
}

/// `k` stacked steps from generator `r` and bytes `s`: each draws a catalog
/// index uniformly and applies that entry. The result holds the generator,
/// the bytes, whether any step mutated, and the indices drawn in order.
pub open spec fn run_steps<R: Rand>(
    catalog: Seq<MutationKind>,
    ctx: MutationContext,
    r: R,
    s: Seq<u8>,
    k: nat,
) -> (R, Seq<u8>, bool, Seq<int>)
    decreases k,
{
    if k == 0 {
        (r, s, false, Seq::empty())
    } else {
        let (r1, s1, m1, log1) = run_steps(catalog, ctx, r, s, (k - 1) as nat);
        let (r2, idx) = pick(r1, catalog.len() as int);
        let (r3, s2, out) = mutation_spec(catalog[idx], r2, s1, ctx);
        (r3, s2, m1 || out == MutationResult::Mutated, log1.push(idx))
    }
}

/// One scheduled mutation: a depth draw, then that many stacked steps. The
/// outcome is `Mutated` exactly when some step mutated.
pub open spec fn scheduled_spec<R: Rand>(
    catalog: Seq<MutationKind>,
    ctx: MutationContext,
    r: R,
    s: Seq<u8>,
) -> (R, Seq<u8>, MutationResult, Seq<int>) {
    let (r1, depth) = iterations_spec(r);
    let (r2, s2, m, log) = run_steps(catalog, ctx, r1, s, depth as nat);
    (r2, s2, if m { MutationResult::Mutated } else { MutationResult::Skipped }, log)
}

proof fn lemma_run_steps_log<R: Rand>(catalog: Seq<MutationKind>, ctx: MutationContext, r: R, s: Seq<u8>, k: nat)
    requires
        catalog.len() > 0,
    ensures
        run_steps(catalog, ctx, r, s, k).3.len() == k,
        forall|i: int| 0 <= i < k ==> 0 <= #[trigger] run_steps(catalog, ctx, r, s, k).3[i] < catalog.len(),
    decreases k,
{
    if k > 0 {
        lemma_run_steps_log(catalog, ctx, r, s, (k - 1) as nat);
        let (r1, s1, m1, log1) = run_steps(catalog, ctx, r, s, (k - 1) as nat);
        let (r2, idx) = pick(r1, catalog.len() as int);
        assert(0 <= idx < catalog.len());
    }
}

/// The stacked mutation loop shared by both schedulers: draws the depth, then
/// applies that many drawn catalog entries to `input`, and returns the
/// outcome with the indices drawn.
fn stacked_mutate<R: Rand>(catalog: &Vec<MutationKind>, state: &mut State<R>, input: &mut BytesInput) -> (r: (MutationResult, Vec<usize>))
    requires
        catalog@.len() > 0,
    ensures
        ({
            let (rs, bytes, out, log) = scheduled_spec(catalog@, old(state).context(), old(state).rand, old(input)@);
            &&& final(state).rand == rs
            &&& final(input)@ == bytes
            &&& r.0 == out
            &&& r.1@.map_values(|i: usize| i as int) == log
        }),
        final(state).same_but_rand(*old(state)),
{
    let ghost ctx = state.context();
    let ghost r0 = state.rand;
    let ghost s0 = input@;
    let num = draw_iterations(&mut state.rand);
    let ghost r1 = state.rand;
    let mut mutated = false;
    let mut log: Vec<usize> = Vec::new();
    let mut i: u64 = 0;
    while i < num
        invariant
            i <= num,
            iterations_spec(r0) == (r1, num),
            catalog@.len() > 0,
            ctx == state.context(),
            ({
                let (rs, bytes, m, lg) = run_steps(catalog@, ctx, r1, s0, i as nat);
                &&& state.rand == rs
                &&& input@ == bytes
                &&& mutated == m
                &&& log@.map_values(|j: usize| j as int) == lg
            }),
            state.corpus == old(state).corpus,
            state.solutions == old(state).solutions,
            state.tokens == old(state).tokens,
            state.max_size == old(state).max_size,
            state.executions == old(state).executions,
        decreases num - i,
    {
        let idx = below(&mut state.rand, catalog.len() as u64) as usize;
        let kind = catalog[idx];
        let out = mutate_with(kind, &mut state.rand, input, &state.corpus, &state.tokens, state.max_size);
        if out == MutationResult::Mutated {
            mutated = true;
        }
        let ghost prev = log@;
        log.push(idx);
        proof {
            assert(log@.map_values(|j: usize| j as int) =~= prev.map_values(|j: usize| j as int).push(idx as int));
        }
        i = i + 1;
    }
    let out = if mutated { MutationResult::Mutated } else { MutationResult::Skipped };
    (out, log)
}

/// The contract of a scheduled mutation: from `state` and input bytes `input`,
/// the generator `rand` and bytes `bytes` after the call, with result `r`. An
/// empty catalog is an error that changes nothing; otherwise the result is
/// exactly the scheduled spec.
pub open spec fn mutate_outcome<R: Rand>(
    catalog: Seq<MutationKind>,
    state: State<R>,
    input: Seq<u8>,
    rand: R,
    bytes: Seq<u8>,
    r: Result<MutationResult, AflError>,
) -> bool {
    if catalog.len() == 0 {
        r == Err::<MutationResult, AflError>(AflError::EmptyCatalog) && rand == state.rand && bytes == input
    } else {
        let (rs, bs, out, _log) = scheduled_spec(catalog, state.context(), state.rand, input);
        &&& r == Ok::<MutationResult, AflError>(out)
        &&& rand == rs
        &&& bytes == bs
    }
}

/// Determinism: two scheduled mutations over the same catalog, from states
/// whose generators hold the same seed and whose side inputs agree, applied
/// to the same input bytes, leave byte-identical inputs, the same outcome
/// and the same generator.
pub proof fn lemma_scheduled_mutate_deterministic<R: Rand>(
    catalog: Seq<MutationKind>,
    seed: u64,
    state1: State<R>,
    state2: State<R>,
    input: Seq<u8>,
    rand1: R,
    bytes1: Seq<u8>,
    r1: Result<MutationResult, AflError>,
    rand2: R,
    bytes2: Seq<u8>,
    r2: Result<MutationResult, AflError>,
)
    requires
        state1.rand == R::seeded(seed),
        state2.rand == R::seeded(seed),
        state1.context() == state2.context(),
        mutate_outcome(catalog, state1, input, rand1, bytes1, r1),
        mutate_outcome(catalog, state2, input, rand2, bytes2, r2),
    ensures
        bytes1 == bytes2,
        r1 == r2,
        rand1 == rand2,
{
}

/// Termination and outcome: over a non-empty catalog, a scheduled mutation
/// returns `Mutated` or `Skipped`, never an error; only an empty catalog fails.
pub proof fn lemma_scheduled_mutate_fails_only_on_empty<R: Rand>(
    catalog: Seq<MutationKind>,
    state: State<R>,
    input: Seq<u8>,
    rand: R,
    bytes: Seq<u8>,
    r: Result<MutationResult, AflError>,
)
    requires
        mutate_outcome(catalog, state, input, rand, bytes, r),
    ensures
        catalog.len() > 0 ==> (r == Ok::<MutationResult, AflError>(MutationResult::Mutated) || r == Ok::<
            MutationResult,
            AflError,
        >(MutationResult::Skipped)),
        catalog.len() == 0 ==> r is Err,
{
}

/// The names recorded for the catalog indices of a log, in order.
pub open spec fn names_of(catalog: Seq<MutationKind>, log: Seq<usize>) -> Seq<Seq<char>> {
    log.map_values(|i: usize| catalog[i as int].name_spec())
}

/// A mutator made of a catalog of mutations.
pub trait ComposedByMutations {
    /// The catalog, in index order.
    spec fn mutations_spec(&self) -> Seq<MutationKind>;

    /// Whatever the mutator keeps beside its catalog agrees with the catalog.
    spec fn wf(&self) -> bool;

    /// The catalog.
    fn mutations(&self) -> (r: &Vec<MutationKind>)
        ensures
            r@ == self.mutations_spec(),
    ;

    /// The catalog, for change.
    fn mutations_mut(&mut self) -> (r: &mut Vec<MutationKind>)
        ensures
            r@ == old(self).mutations_spec(),
            final(self).mutations_spec() == final(r)@,
            final(self).wf(),
    ;
}

/// A mutator that applies a drawn stack of catalog entries per call.
pub trait ScheduledMutator: ComposedByMutations {
    /// Whether what the mutator recorded of its last call is exactly the
    /// catalog indices `drawn` (true of a mutator that records nothing).
    spec fn records(&self, drawn: Seq<int>) -> bool;

    /// Draws the number of stacked steps.
    fn iterations<R: Rand>(&self, state: &mut State<R>, input: &BytesInput) -> (r: u64)
        ensures
            (final(state).rand, r) == iterations_spec(old(state).rand),
            is_stack_depth(r),
            final(state).same_but_rand(*old(state)),
    ;

    /// Draws the catalog index of the next step.
    fn schedule<R: Rand>(&self, state: &mut State<R>, input: &BytesInput) -> (r: usize)
        requires
            self.mutations_spec().len() > 0,
        ensures
            (final(state).rand, r as int) == pick(old(state).rand, self.mutations_spec().len() as int),
            r < self.mutations_spec().len(),
            final(state).same_but_rand(*old(state)),
    ;

    /// Applies one drawn stack of mutations to `input`. An empty catalog is an
    /// error, and then nothing changes.
    fn scheduled_mutate<R: Rand>(&mut self, state: &mut State<R>, input: &mut BytesInput, stage_idx: i32) -> (r: Result<MutationResult, AflError>)
        ensures
            final(self).mutations_spec() == old(self).mutations_spec(),
            final(state).same_but_rand(*old(state)),
            mutate_outcome(old(self).mutations_spec(), *old(state), old(input)@, final(state).rand, final(input)@, r),
            final(self).wf(),
            old(self).mutations_spec().len() > 0 ==> final(self).records(
                scheduled_spec(old(self).mutations_spec(), old(state).context(), old(state).rand, old(input)@).3,
            ),
    ;
}

/// The standard scheduler: a depth of `2^(1+k)` for a drawn `k` in `[0, 6)`,
/// then that many catalog entries drawn uniformly.
pub struct StdScheduledMutator {
    mutations: Vec<MutationKind>,
}

impl ComposedByMutations for StdScheduledMutator {
    closed spec fn mutations_spec(&self) -> Seq<MutationKind> {
        self.mutations@
    }

    open spec fn wf(&self) -> bool {
        true
    }

    fn mutations(&self) -> (r: &Vec<MutationKind>) {
        &self.mutations
    }

    fn mutations_mut(&mut self) -> (r: &mut Vec<MutationKind>) {
        &mut self.mutations
    }
}

impl ScheduledMutator for StdScheduledMutator {
    open spec fn records(&self, drawn: Seq<int>) -> bool {
        true
    }

    fn iterations<R: Rand>(&self, state: &mut State<R>, input: &BytesInput) -> (r: u64) {
        draw_iterations(&mut state.rand)
    }

    fn schedule<R: Rand>(&self, state: &mut State<R>, input: &BytesInput) -> (r: usize) {
        below(&mut state.rand, self.mutations.len() as u64) as usize
    }

    fn scheduled_mutate<R: Rand>(&mut self, state: &mut State<R>, input: &mut BytesInput, stage_idx: i32) -> (r: Result<MutationResult, AflError>) {
        if self.mutations.len() == 0 {
            return Err(AflError::EmptyCatalog);
        }
        let (out, _log) = stacked_mutate(&self.mutations, state, input);
        Ok(out)
    }
}

impl StdScheduledMutator {
    /// A scheduler over the given catalog.
    pub fn new(mutations: Vec<MutationKind>) -> (r: StdScheduledMutator)
        ensures
            r.mutations_spec() == mutations@,
    {
        StdScheduledMutator { mutations }
    }

    /// Applies one drawn stack of mutations to `input`.
    pub fn mutate<R: Rand>(&mut self, state: &mut State<R>, input: &mut BytesInput, stage_idx: i32) -> (r: Result<MutationResult, AflError>)
        ensures
            final(self).mutations_spec() == old(self).mutations_spec(),
            final(state).same_but_rand(*old(state)),
            mutate_outcome(old(self).mutations_spec(), *old(state), old(input)@, final(state).rand, final(input)@, r),
    {
        self.scheduled_mutate(state, input, stage_idx)
    }
}

/// The havoc catalog, in index order. Block delete stands four times, so
/// that it is drawn more often.
pub open spec fn havoc_catalog() -> Seq<MutationKind> {
    seq![
        MutationKind::BitFlip,
        MutationKind::ByteFlip,
        MutationKind::ByteInc,
        MutationKind::ByteDec,
        MutationKind::ByteNeg,
        MutationKind::ByteRand,
        MutationKind::ByteAdd,
        MutationKind::WordAdd,
        MutationKind::DwordAdd,
        MutationKind::QwordAdd,
        MutationKind::ByteInteresting,
        MutationKind::WordInteresting,
        MutationKind::DwordInteresting,
        MutationKind::BytesDelete,
        MutationKind::BytesDelete,
        MutationKind::BytesDelete,
        MutationKind::BytesDelete,
        MutationKind::BytesExpand,
        MutationKind::BytesInsert,
        MutationKind::BytesRandInsert,
        MutationKind::BytesSet,
        MutationKind::BytesRandSet,
        MutationKind::BytesCopy,
        MutationKind::BytesSwap,
        MutationKind::TokenInsert,
        MutationKind::TokenReplace,
        MutationKind::CrossoverInsert,
        MutationKind::CrossoverReplace,
    ]
}

/// The catalog of the havoc mutator.
pub fn havoc_mutations() -> (r: Vec<MutationKind>)
    ensures
        r@ == havoc_catalog(),
{
    let r = vec![
        MutationKind::BitFlip,
        MutationKind::ByteFlip,
        MutationKind::ByteInc,
        MutationKind::ByteDec,
        MutationKind::ByteNeg,
        MutationKind::ByteRand,
        MutationKind::ByteAdd,
        MutationKind::WordAdd,
        MutationKind::DwordAdd,
        MutationKind::QwordAdd,
        MutationKind::ByteInteresting,
        MutationKind::WordInteresting,
        MutationKind::DwordInteresting,
        MutationKind::BytesDelete,
        MutationKind::BytesDelete,
        MutationKind::BytesDelete,
        MutationKind::BytesDelete,
        MutationKind::BytesExpand,
        MutationKind::BytesInsert,
        MutationKind::BytesRandInsert,
        MutationKind::BytesSet,
        MutationKind::BytesRandSet,
        MutationKind::BytesCopy,
        MutationKind::BytesSwap,
        MutationKind::TokenInsert,
        MutationKind::TokenReplace,
        MutationKind::CrossoverInsert,
        MutationKind::CrossoverReplace,
    ];
    assert(r@ =~= havoc_catalog());
    r
}

/// A scheduler wrapped so that it records the catalog indices that it draws,
/// and attaches them by name to the corpus entry that a run adds.
pub struct LoggerScheduledMutator<SM: ScheduledMutator> {
    scheduled: SM,
    mutation_log: Vec<usize>,
}

impl<SM: ScheduledMutator> ComposedByMutations for LoggerScheduledMutator<SM> {
    closed spec fn mutations_spec(&self) -> Seq<MutationKind> {
        self.scheduled.mutations_spec()
    }

    /// Every recorded index is an index of the catalog.
    open spec fn wf(&self) -> bool {
        forall|i: int| 0 <= i < self.log().len() ==> #[trigger] self.log()[i] < self.mutations_spec().len()
    }

    fn mutations(&self) -> (r: &Vec<MutationKind>) {
        self.scheduled.mutations()
    }

    fn mutations_mut(&mut self) -> (r: &mut Vec<MutationKind>) {
        self.mutation_log.clear();
        self.scheduled.mutations_mut()
    }
}

impl<SM: ScheduledMutator> ScheduledMutator for LoggerScheduledMutator<SM> {
    /// The log holds exactly the indices drawn, in draw order.
    open spec fn records(&self, drawn: Seq<int>) -> bool {
        self.log().map_values(|i: usize| i as int) == drawn
    }

    fn iterations<R: Rand>(&self, state: &mut State<R>, input: &BytesInput) -> (r: u64) {
        draw_iterations(&mut state.rand)
    }

    fn schedule<R: Rand>(&self, state: &mut State<R>, input: &BytesInput) -> (r: usize) {
        below(&mut state.rand, self.scheduled.mutations().len() as u64) as usize
    }

    fn scheduled_mutate<R: Rand>(&mut self, state: &mut State<R>, input: &mut BytesInput, stage_idx: i32) -> (r: Result<MutationResult, AflError>) {
        self.logged_mutate(state, input)
    }
}

impl<SM: ScheduledMutator> LoggerScheduledMutator<SM> {
    /// The indices recorded since the last clear, in draw order.
    pub closed spec fn log(&self) -> Seq<usize> {
        self.mutation_log@
    }

    /// Wraps a scheduler, with an empty log.
    pub fn new(scheduled: SM) -> (r: LoggerScheduledMutator<SM>)
        ensures
            r.mutations_spec() == scheduled.mutations_spec(),
            r.log().len() == 0,
            r.wf(),
    {
        LoggerScheduledMutator { scheduled, mutation_log: Vec::new() }
    }

    /// The indices recorded since the last clear, in draw order.
    pub fn mutation_log(&self) -> (r: &Vec<usize>)
        ensures
            r@ == self.log(),
    {
        &self.mutation_log
    }

    /// Applies one drawn stack of mutations to `input`, recording the drawn
    /// catalog indices in the log (which starts empty).
    fn logged_mutate<R: Rand>(&mut self, state: &mut State<R>, input: &mut BytesInput) -> (r: Result<MutationResult, AflError>)
        ensures
            final(self).wf(),
            final(self).mutations_spec() == old(self).mutations_spec(),
            final(state).same_but_rand(*old(state)),
            mutate_outcome(old(self).mutations_spec(), *old(state), old(input)@, final(state).rand, final(input)@, r),
            old(self).mutations_spec().len() > 0 ==> final(self).log().map_values(|i: usize| i as int)
                == scheduled_spec(old(self).mutations_spec(), old(state).context(), old(state).rand, old(input)@).3,
    {
        self.mutation_log.clear();
        if self.scheduled.mutations().len() == 0 {
            return Err(AflError::EmptyCatalog);
        }
        let ghost catalog = self.mutations_spec();
        let ghost ctx = state.context();
        let ghost r0 = state.rand;
        let ghost s0 = input@;
        let (out, log) = stacked_mutate(self.scheduled.mutations(), state, input);
        self.mutation_log = log;
        proof {
            let (r1, depth) = iterations_spec(r0);
            lemma_run_steps_log(catalog, ctx, r1, s0, depth as nat);
            assert forall|i: int| 0 <= i < self.log().len() implies #[trigger] self.log()[i] < self.mutations_spec().len() by {
                assert(self.log().map_values(|j: usize| j as int)[i] == self.log()[i] as int);
            }
        }
        Ok(out)
    }

    /// Applies one drawn stack of mutations to `input`, recording the drawn
    /// catalog indices in the log (which starts empty).
    pub fn mutate<R: Rand>(&mut self, state: &mut State<R>, input: &mut BytesInput, stage_idx: i32) -> (r: Result<MutationResult, AflError>)
        ensures
            final(self).wf(),
            final(self).mutations_spec() == old(self).mutations_spec(),
            final(state).same_but_rand(*old(state)),
            mutate_outcome(old(self).mutations_spec(), *old(state), old(input)@, final(state).rand, final(input)@, r),
            old(self).mutations_spec().len() > 0 ==> final(self).log().map_values(|i: usize| i as int)
                == scheduled_spec(old(self).mutations_spec(), old(state).context(), old(state).rand, old(input)@).3,
    {
        self.logged_mutate(state, input)
    }

    /// After a run: where the run added corpus entry `corpus_idx`, attaches the
    /// names of the recorded mutations to it (an index past the end is an
    /// error). The log is cleared in every case.
    pub fn post_exec<R: Rand>(&mut self, state: &mut State<R>, stage_idx: i32, corpus_idx: Option<usize>) -> (r: Result<(), AflError>)
        requires
            old(self).wf(),
        ensures
            final(self).wf(),
            final(self).log().len() == 0,
            final(self).mutations_spec() == old(self).mutations_spec(),
            final(state).rand == old(state).rand,
            final(state).solutions == old(state).solutions,
            final(state).tokens == old(state).tokens,
            final(state).max_size == old(state).max_size,
            final(state).executions == old(state).executions,
            final(state).corpus@ == old(state).corpus@,
            final(state).corpus.current_spec() == old(state).corpus.current_spec(),
            corpus_idx is None ==> r is Ok && final(state).corpus == old(state).corpus,
            corpus_idx is Some && corpus_idx->Some_0 >= old(state).corpus@.len() ==> r == Err::<(), AflError>(AflError::KeyNotFound)
                && final(state).corpus == old(state).corpus,
            corpus_idx is Some && corpus_idx->Some_0 < old(state).corpus@.len() ==> {
                let i = corpus_idx->Some_0 as int;
                &&& r is Ok
                &&& final(state).corpus.testcases().len() == old(state).corpus.testcases().len()
                &&& final(state).corpus.testcases()[i].metadata_spec()
                    == old(state).corpus.testcases()[i].metadata_spec().push(
                        names_of(old(self).mutations_spec(), old(self).log()),
                    )
                &&& forall|j: int| 0 <= j < old(state).corpus@.len() && j != i ==>
                    #[trigger] final(state).corpus.testcases()[j] == old(state).corpus.testcases()[j]
            },
    {
        let r = match corpus_idx {
            None => Ok(()),
            Some(idx) => {
                if idx >= state.corpus.count() {
                    Err(AflError::KeyNotFound)
                } else {
                    let catalog = self.scheduled.mutations();
                    let mut names: Vec<String> = Vec::new();
                    let mut j: usize = 0;
                    while j < self.mutation_log.len()
                        invariant
                            self.wf(),
                            catalog@ == self.mutations_spec(),
                            j <= self.log().len(),
                            names@.map_values(|s: String| s@) == names_of(catalog@, self.log().subrange(0, j as int)),
                        decreases self.log().len() - j,
                    {
                        let k = self.mutation_log[j];
                        assert(self.log()[j as int] < self.mutations_spec().len());
                        let name = catalog[k].name().to_owned();
                        let ghost prev = names@;
                        names.push(name);
                        proof {
                            assert(names@.map_values(|s: String| s@) =~= prev.map_values(|s: String| s@).push(name@));
                            assert(self.log().subrange(0, j + 1) =~= self.log().subrange(0, j as int).push(k));
                            assert(names_of(catalog@, self.log().subrange(0, j + 1)) =~= names_of(catalog@, self.log().subrange(0, j as int)).push(catalog@[k as int].name_spec()));
                        }
                        j = j + 1;
                    }
                    assert(self.log().subrange(0, self.log().len() as int) =~= self.log());
                    let meta = MutationsMetadata::new(names);
                    state.corpus.add_metadata_to(idx, meta)
                }
            },
        };
        self.mutation_log.clear();
        r
    }
}

} // verus!
