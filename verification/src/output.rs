//! The output-file lifecycle.
//!
//! A sink models one output file per registered proving system as a
//! sequence of characters. Preparing a session truncates the files of the
//! chosen systems; appending a record extends exactly one file by one
//! timing line. The harness talks to any sink through the `OutputSink`
//! trait; `MemorySink` is the in-memory implementation, and a caller may
//! supply a filesystem-backed one with the same observable behaviour.

use vstd::prelude::*;
use vstd::string::*;
use crate::registry::System;
use crate::sampling::spec_record_line;

verus! {

/// An output-file creation or write failure. Fatal for the benchmark
/// run that encounters it: a measurement that cannot be persisted must
/// not be dropped silently.
#[derive(Debug)]
pub struct IoError {
    pub message: String,
}

/// A destination for timing records, one append-only file per system.
pub trait OutputSink: Sized {
    type Error;

    /// The text held by the output file of system `s`. An implementation
    /// overrides this with its own model of its files; the default says
    /// nothing is held.
    open spec fn file(&self, s: System) -> Seq<char> {
        Seq::<char>::empty()
    }

    /// Creates or truncates to empty the output file of every system in
    /// `systems`, leaving the others untouched. Creating an output
    /// directory that already exists is a no-op, not an error.
    fn prepare_session(&mut self, systems: &Vec<System>) -> (r: Result<(), Self::Error>)
        ensures
            r is Ok ==> forall|s: System|
                (#[trigger] final(self).file(s)) == if systems@.contains(s) {
                    Seq::<char>::empty()
                } else {
                    old(self).file(s)
                },
    ;

    /// Appends one timing record to the output file of `id` and flushes
    /// it before returning.
    fn append_record(&mut self, id: System, k: usize, millis: u128) -> (r: Result<
        (),
        Self::Error,
    >)
        ensures
            r is Ok ==> final(self).file(id) == old(self).file(id) + spec_record_line(
                k as int,
                millis as int,
            ),
            r is Ok ==> forall|s: System|
                s != id ==> (#[trigger] final(self).file(s)) == old(self).file(s),
    ;
}

/// Holds when `post` is the sink state left by preparing a session for
/// `ids` from state `pre`: the file of every listed system is empty and
/// every other file is unchanged.
pub open spec fn session_prepared<S: OutputSink>(pre: S, post: S, ids: Seq<System>) -> bool {
    forall|s: System|
        (#[trigger] post.file(s)) == if ids.contains(s) {
            Seq::<char>::empty()
        } else {
            pre.file(s)
        }
}

/// Holds when `post` is the sink state left by appending the record for
/// `(k, millis)` to the file of `id` in state `pre`: that file grows by
/// exactly one line and every other file is unchanged.
pub open spec fn record_appended<S: OutputSink>(
    pre: S,
    post: S,
    id: System,
    k: int,
    millis: int,
) -> bool {
    &&& post.file(id) == pre.file(id) + spec_record_line(k, millis)
    &&& forall|s: System| s != id ==> (#[trigger] post.file(s)) == pre.file(s)
}

/// An in-memory sink: one string per registered system.
pub struct MemorySink {
    pub hyperplonk: String,
    pub unihyperplonk: String,
    pub halo2: String,
    pub espresso_hyperplonk: String,
}

/// Whether `v` holds `s`.
fn systems_contain(v: &Vec<System>, s: System) -> (r: bool)
    ensures
        r == v@.contains(s),
{
    let mut i: usize = 0;
    while i < v.len()
        invariant
            0 <= i <= v.len(),
            forall|j: int| 0 <= j < i ==> v@[j] != s,
        decreases v.len() - i,
    {
        if v[i] == s {
            return true;
        }
        i += 1;
    }
    false
}

impl MemorySink {
    /// A sink whose files are all empty.
    pub fn new() -> (r: MemorySink)
        ensures
            forall|s: System| (#[trigger] r.file(s)) == Seq::<char>::empty(),
    {
        MemorySink {
            hyperplonk: String::new(),
            unihyperplonk: String::new(),
            halo2: String::new(),
            espresso_hyperplonk: String::new(),
        }
    }

    /// The current text of the output file of `s`.
    pub fn contents(&self, s: System) -> (r: &String)
        ensures
            r@ == self.file(s),
    {
        match s {
            System::HyperPlonk => &self.hyperplonk,
            System::UniHyperPlonk => &self.unihyperplonk,
            System::Halo2 => &self.halo2,
            System::EspressoHyperPlonk => &self.espresso_hyperplonk,
        }
    }
}

impl OutputSink for MemorySink {
    type Error = IoError;

    open spec fn file(&self, s: System) -> Seq<char> {
        match s {
            System::HyperPlonk => self.hyperplonk@,
            System::UniHyperPlonk => self.unihyperplonk@,
            System::Halo2 => self.halo2@,
            System::EspressoHyperPlonk => self.espresso_hyperplonk@,
        }
    }

    fn prepare_session(&mut self, systems: &Vec<System>) -> (r: Result<(), Self::Error>)
        ensures
            r is Ok,
    {
        if systems_contain(systems, System::HyperPlonk) {
            self.hyperplonk = String::new();
        }
        if systems_contain(systems, System::UniHyperPlonk) {
            self.unihyperplonk = String::new();
        }
        if systems_contain(systems, System::Halo2) {
            self.halo2 = String::new();
        }
        if systems_contain(systems, System::EspressoHyperPlonk) {
            self.espresso_hyperplonk = String::new();
        }
        Ok(())
    }

    fn append_record(&mut self, id: System, k: usize, millis: u128) -> (r: Result<
        (),
        Self::Error,
    >)
        ensures
            r is Ok,
    {
        let line = crate::sampling::format_record(k, millis);
        match id {
            System::HyperPlonk => self.hyperplonk.append(line.as_str()),
            System::UniHyperPlonk => self.unihyperplonk.append(line.as_str()),
            System::Halo2 => self.halo2.append(line.as_str()),
            System::EspressoHyperPlonk => self.espresso_hyperplonk.append(line.as_str()),
        }
        Ok(())
    }
}

/// Preparing a session is idempotent: preparing the same set of systems
/// twice in a row leaves every file exactly as one preparation does.
pub proof fn lemma_prepare_session_idempotent<S: OutputSink>(s0: S, s1: S, s2: S, ids: Seq<System>)
    requires
        session_prepared(s0, s1, ids),
        session_prepared(s1, s2, ids),
    ensures
        forall|s: System| (#[trigger] s2.file(s)) == s1.file(s),
{
}

/// On a freshly prepared session, two appended records for one system
/// leave its file holding exactly the two lines, in append order.
pub proof fn lemma_two_records_in_order<S: OutputSink>(
    s0: S,
    s1: S,
    s2: S,
    s3: S,
    ids: Seq<System>,
    id: System,
    k1: int,
    m1: int,
    k2: int,
    m2: int,
)
    requires
        ids.contains(id),
        session_prepared(s0, s1, ids),
        record_appended(s1, s2, id, k1, m1),
        record_appended(s2, s3, id, k2, m2),
    ensures
        s3.file(id) == spec_record_line(k1, m1) + spec_record_line(k2, m2),
{
    assert(s1.file(id) == Seq::<char>::empty());
    assert(s2.file(id) == Seq::<char>::empty() + spec_record_line(k1, m1));
    assert(Seq::<char>::empty() + spec_record_line(k1, m1) =~= spec_record_line(k1, m1));
    assert(s3.file(id) == spec_record_line(k1, m1) + spec_record_line(k2, m2));
}

} // verus!
