//! The diagnostic capability the trap handler reports through.
//!
//! The kernel's logging facility is an outside collaborator that may or may
//! not be configured in the final image, so it is modelled as an injectable
//! capability with a single error-severity emit operation. The handler's
//! behaviour is the same whichever implementation is wired in; `NullSink`
//! stands for the unconfigured case, `MemorySink` keeps the records so that
//! they can be inspected.

use vstd::prelude::*;

verus! {

/// A facility that accepts error-severity diagnostic records.
///
/// `emitted` is the abstract history of records handed to the facility, in
/// order; `emit_error` appends exactly the given record to that history and
/// does nothing else. What a concrete facility does with a record (print it,
/// store it, drop it) is its own business.
pub trait DiagnosticSink {
    /// The records emitted through this facility so far, oldest first.
    spec fn emitted(&self) -> Seq<Seq<char>>;

    /// Hands one error-severity record to the facility.
    fn emit_error(&mut self, record: String)
        ensures
            final(self).emitted() == old(self).emitted().push(record@),
    ;
}

/// The facility of an image with no logger configured: emitting is a silent
/// no-op. Only the abstract history remembers what was emitted.
pub struct NullSink {
    records: Ghost<Seq<Seq<char>>>,
}

impl NullSink {
    /// An unconfigured facility with an empty history.
    pub fn new() -> (sink: NullSink)
        ensures
            sink.emitted() == Seq::<Seq<char>>::empty(),
    {
        NullSink { records: Ghost(Seq::empty()) }
    }
}

impl DiagnosticSink for NullSink {
    closed spec fn emitted(&self) -> Seq<Seq<char>> {
        self.records@
    }

    fn emit_error(&mut self, record: String) {
        let ghost history = self.records@.push(record@);
        self.records = Ghost(history);
    }
}

/// A facility that keeps every record, so a caller can see what the trap
/// handler reported.
pub struct MemorySink {
    records: Vec<String>,
}

impl MemorySink {
    /// A recording facility with an empty history.
    pub fn new() -> (sink: MemorySink)
        ensures
            sink.emitted() == Seq::<Seq<char>>::empty(),
    {
        let sink = MemorySink { records: Vec::new() };
        proof {
            assert(sink.emitted() =~= Seq::<Seq<char>>::empty());
        }
        sink
    }

    /// How many records were emitted.
    pub fn len(&self) -> (n: usize)
        ensures
            n == self.emitted().len(),
    {
        self.records.len()
    }

    /// The `i`-th record, oldest first.
    pub fn record(&self, i: usize) -> (record: &String)
        requires
            i < self.emitted().len(),
        ensures
            record@ == self.emitted()[i as int],
    {
        &self.records[i]
    }
}

impl DiagnosticSink for MemorySink {
    closed spec fn emitted(&self) -> Seq<Seq<char>> {
        self.records.deep_view()
    }

    fn emit_error(&mut self, record: String) {
        let ghost previous = self.emitted();
        let ghost entry = record@;
        self.records.push(record);
        proof {
            assert(self.emitted() =~= previous.push(entry));
        }
    }
}

} // verus!
