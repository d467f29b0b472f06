//! Test cases and the in-memory corpus that holds them.
use vstd::prelude::*;
use crate::inputs::BytesInput;
use crate::scheduled::MutationsMetadata;
use crate::AflError;

verus! {

/// One corpus entry: an input and the metadata attached to it.
#[derive(Clone, Debug)]
pub struct Testcase {
    input: BytesInput,
    metadata: Vec<MutationsMetadata>,
}

impl View for Testcase {
    type V = Seq<u8>;

    closed spec fn view(&self) -> Seq<u8> {
        self.input@
    }
}

impl Testcase {
    /// A test case holding the given bytes and no metadata.
    pub fn new(bytes: Vec<u8>) -> (r: Testcase)
        ensures
            r@ == bytes@,
            r.metadata_spec().len() == 0,
    {
        Testcase { input: BytesInput::new(bytes), metadata: Vec::new() }
    }

    /// A test case holding the given input and no metadata.
    pub fn with_input(input: BytesInput) -> (r: Testcase)
        ensures
            r@ == input@,
            r.metadata_spec().len() == 0,
    {
        Testcase { input, metadata: Vec::new() }
    }

    /// The metadata records attached, oldest first, each as its list of names.
    pub closed spec fn metadata_spec(&self) -> Seq<Seq<Seq<char>>> {
        self.metadata@.map_values(|m: MutationsMetadata| m@)
    }

    /// The input of this test case; an in-memory entry always has it at hand.
    pub fn load_input(&self) -> (r: Result<&BytesInput, AflError>)
        ensures
            r matches Ok(i) && i@ == self@,
    {
        Ok(&self.input)
    }

    /// The input of this test case.
    pub fn input(&self) -> (r: &BytesInput)
        ensures
            r@ == self@,
    {
        &self.input
    }

    /// Attaches a metadata record.
    pub fn add_metadata(&mut self, meta: MutationsMetadata)
        ensures
            final(self)@ == old(self)@,
            final(self).metadata_spec() == old(self).metadata_spec().push(meta@),
    {
        self.metadata.push(meta);
        proof {
            assert(self.metadata_spec() =~= old(self).metadata_spec().push(meta@));
        }
    }

    /// The metadata records attached, oldest first.
    pub fn metadata(&self) -> (r: &Vec<MutationsMetadata>)
        ensures
            r@.map_values(|m: MutationsMetadata| m@) == self.metadata_spec(),
    {
        &self.metadata
    }
}

/// The bytes of each entry of a sequence of test cases.
pub open spec fn entry_bytes(entries: Seq<Testcase>) -> Seq<Seq<u8>> {
    entries.map_values(|t: Testcase| t@)
}

/// A corpus kept in memory, in order of insertion, with an optional current
/// entry (the one being fuzzed).
#[derive(Clone, Debug)]
pub struct InMemoryCorpus {
    entries: Vec<Testcase>,
    current: Option<usize>,
}

impl View for InMemoryCorpus {
    type V = Seq<Seq<u8>>;

    closed spec fn view(&self) -> Seq<Seq<u8>> {
        entry_bytes(self.entries@)
    }
}

impl InMemoryCorpus {
    /// The entries, as test cases.
    pub closed spec fn testcases(&self) -> Seq<Testcase> {
        self.entries@
    }

    /// The entry being fuzzed, if one is marked.
    pub closed spec fn current_spec(&self) -> Option<usize> {
        self.current
    }

    /// An empty corpus.
    pub fn new() -> (r: InMemoryCorpus)
        ensures
            r@.len() == 0,
            r.testcases().len() == 0,
            r.current_spec() is None,
    {
        InMemoryCorpus { entries: Vec::new(), current: None }
    }

    /// The number of entries.
    pub fn count(&self) -> (r: usize)
        ensures
            r == self@.len(),
            r == self.testcases().len(),
    {
        proof {
            assert(self@.len() == self.entries@.len());
        }
        self.entries.len()
    }

    /// Appends an entry and returns its index.
    pub fn add(&mut self, testcase: Testcase) -> (r: Result<usize, AflError>)
        ensures
            r == Ok::<usize, AflError>(old(self)@.len() as usize),
            final(self).testcases() == old(self).testcases().push(testcase),
            final(self)@ == old(self)@.push(testcase@),
            final(self).current_spec() == old(self).current_spec(),
    {
        let n = self.entries.len();
        self.entries.push(testcase);
        proof {
            assert(entry_bytes(self.entries@) =~= entry_bytes(old(self).entries@).push(testcase@));
        }
        Ok(n)
    }

    /// The entry at `idx`, if there is one.
    pub fn get(&self, idx: usize) -> (r: Option<&Testcase>)
        ensures
            idx < self@.len() ==> (r matches Some(t) && *t == self.testcases()[idx as int]
                && t@ == self@[idx as int]),
            idx >= self@.len() ==> r is None,
    {
        if idx < self.entries.len() {
            Some(&self.entries[idx])
        } else {
            None
        }
    }

    /// Attaches a metadata record to the entry at `idx`; an index past the end
    /// is an error.
    pub fn add_metadata_to(&mut self, idx: usize, meta: MutationsMetadata) -> (r: Result<(), AflError>)
        ensures
            idx < old(self)@.len() <==> r is Ok,
            final(self)@ == old(self)@,
            final(self).current_spec() == old(self).current_spec(),
            final(self).testcases().len() == old(self).testcases().len(),
            idx < old(self)@.len() ==> final(self).testcases()[idx as int].metadata_spec()
                == old(self).testcases()[idx as int].metadata_spec().push(meta@),
            forall|j: int| 0 <= j < old(self)@.len() && j != idx ==>
                #[trigger] final(self).testcases()[j] == old(self).testcases()[j],
    {
        if idx >= self.entries.len() {
            return Err(AflError::KeyNotFound);
        }
        let mut t = self.entries[idx].clone_testcase();
        t.add_metadata(meta);
        self.entries.set(idx, t);
        assert(self.entries@[idx as int]@ == old(self).entries@[idx as int]@);
        proof {
            assert(entry_bytes(self.entries@) =~= entry_bytes(old(self).entries@));
        }
        Ok(())
    }

    /// The entry being fuzzed, if one is marked.
    pub fn current(&self) -> (r: Option<usize>)
        ensures
            r == self.current_spec(),
    {
        self.current
    }

    /// Marks the entry being fuzzed.
    pub fn set_current(&mut self, current: Option<usize>)
        ensures
            final(self).current_spec() == current,
            final(self).testcases() == old(self).testcases(),
            final(self)@ == old(self)@,
    {
        self.current = current;
    }
}

impl Testcase {
    /// A copy of the test case, metadata included.
    pub fn clone_testcase(&self) -> (r: Testcase)
        ensures
            r@ == self@,
            r.metadata_spec() == self.metadata_spec(),
    {
        let mut metadata: Vec<MutationsMetadata> = Vec::new();
        let mut i: usize = 0;
        while i < self.metadata.len()
            invariant
                i <= self.metadata@.len(),
                metadata@.len() == i,
                forall|j: int| 0 <= j < i ==> #[trigger] metadata@[j]@ == self.metadata@[j]@,
            decreases self.metadata@.len() - i,
        {
            let m = self.metadata[i].clone_metadata();
            metadata.push(m);
            i = i + 1;
        }
        assert(metadata@.map_values(|m: MutationsMetadata| m@) =~= self.metadata@.map_values(
            |m: MutationsMetadata| m@,
        ));
        Testcase { input: self.input.duplicate(), metadata }
    }
}

} // verus!
