//! The benchmark driver.
//!
//! The driver is generic over any proving system that offers the four
//! lifecycle capabilities — setup, preprocess, prove, verify — together
//! with proof serialization to bytes, and over any circuit that can
//! report its descriptor and public instances. For one system identifier,
//! circuit and size parameter it truncates the system's output file, runs
//! setup and preprocessing once, times repeated proving through the
//! sampler, then verifies the last proof and treats a rejection as a
//! hard failure.

use vstd::prelude::*;
use crate::output::OutputSink;
use crate::output::record_appended;
use crate::registry::System;
use crate::sampling::SampleError;
use crate::sampling::sample;
use crate::sampling::spec_record_line;

verus! {

/// The circuit capability contract: a circuit reports a descriptor of
/// its structure and its public instances.
pub trait Circuit: Sized {
    type CircuitInfo;

    type Instances;

    type Error;

    /// The circuit's structural descriptor, consumed by setup and
    /// preprocessing; a circuit may fail to produce one.
    fn circuit_info(&self) -> Result<Self::CircuitInfo, Self::Error>;

    /// The circuit's public instances, consumed by verification.
    fn instances(&self) -> Self::Instances;
}

/// The proving-system capability contract: the four lifecycle
/// operations, with the proof carried between them as opaque bytes
/// produced by the system's own serialization.
pub trait ProvingSystem<C: Circuit>: Sized {
    type Param;

    type ProverParam;

    type VerifierParam;

    type Error;

    /// Produces the system parameters for circuits shaped like `info`.
    fn setup(info: &C::CircuitInfo) -> Result<Self::Param, Self::Error>;

    /// Splits the parameters into a proving key and a verifying key.
    fn preprocess(param: &Self::Param, info: &C::CircuitInfo) -> Result<
        (Self::ProverParam, Self::VerifierParam),
        Self::Error,
    >;

    /// Proves one satisfying run of `circuit` and serializes the proof.
    fn prove(pp: &Self::ProverParam, circuit: &C) -> Result<Vec<u8>, Self::Error>;

    /// Checks a serialized proof against the public instances; `Err`
    /// means the proof was rejected or could not be read.
    fn verify(vp: &Self::VerifierParam, instances: &C::Instances, proof: &Vec<u8>) -> Result<
        (),
        Self::Error,
    >;
}

/// Why a benchmark run stopped. Every failure is fatal for the run:
/// nothing is retried, and no failure is converted into a skipped
/// measurement.
#[derive(Debug)]
pub enum BenchError<CE, PE, IE> {
    /// The output directory or file could not be prepared or written.
    Io(IE),
    /// The circuit could not report its descriptor.
    Circuit(CE),
    /// Setup failed; it is foundational and not retried.
    Setup(PE),
    /// Preprocessing failed.
    Preprocess(PE),
    /// A proving run failed; one failed proof invalidates the sample run.
    Prove(PE),
    /// Verification completed and rejected the last proof: a correctness
    /// regression in the system under test, reported loudly.
    VerificationRejected(PE),
}

/// Benchmarks proving system `B` on `circuit` at size parameter `k`.
///
/// Truncates the output file of `system`, runs setup and preprocessing
/// once, times `sample_size(k)` proving runs, appends one averaged
/// timing record, and verifies the last proof. On success, and likewise
/// when verification rejects the proof (the record is written before
/// verification, deliberately), the file of `system` holds exactly one
/// timing record for `k`; on an earlier proving-system or circuit
/// failure it has been truncated and nothing was recorded. Files of
/// other systems are never touched.
pub fn bench_plonkish_backend<C: Circuit, B: ProvingSystem<C>, S: OutputSink>(
    sink: &mut S,
    system: System,
    k: usize,
    circuit: &C,
) -> (r: Result<(), BenchError<C::Error, B::Error, S::Error>>)
    ensures
        (r is Ok || r matches Err(BenchError::VerificationRejected(_))) ==> (exists|m: int|
            0 <= m && final(sink).file(system) == spec_record_line(k as int, m)),
        r matches Err(e) && (e matches BenchError::Circuit(_) || e matches BenchError::Setup(_)
            || e matches BenchError::Preprocess(_) || e matches BenchError::Prove(_))
            ==> final(sink).file(system) == Seq::<char>::empty(),
        !(r matches Err(BenchError::Io(_))) ==> forall|s: System|
            s != system ==> (#[trigger] final(sink).file(s)) == old(sink).file(s),
{
    let mut ids: Vec<System> = Vec::new();
    ids.push(system);
    match sink.prepare_session(&ids) {
        Ok(_) => {},
        Err(e) => {
            return Err(BenchError::Io(e));
        },
    }
    proof {
        assert(ids@[0] == system);
        assert(ids@.contains(system));
        assert(sink.file(system) == Seq::<char>::empty());
    }
    let info = match circuit.circuit_info() {
        Ok(ci) => ci,
        Err(e) => {
            return Err(BenchError::Circuit(e));
        },
    };
    let instances = circuit.instances();
    let param = match B::setup(&info) {
        Ok(p) => p,
        Err(e) => {
            return Err(BenchError::Setup(e));
        },
    };
    let (pp, vp) = match B::preprocess(&param, &info) {
        Ok(keys) => keys,
        Err(e) => {
            return Err(BenchError::Preprocess(e));
        },
    };
    let prove_op = || -> (res: Result<Vec<u8>, B::Error>) { B::prove(&pp, circuit) };
    let ghost pre_sample: S = *sink;
    let proof_bytes = match sample(sink, system, k, prove_op) {
        Ok(bytes) => bytes,
        Err(SampleError::Op(e)) => {
            return Err(BenchError::Prove(e));
        },
        Err(SampleError::Io(e)) => {
            return Err(BenchError::Io(e));
        },
    };
    proof {
        let m = choose|m: int|
            0 <= m && record_appended(pre_sample, *sink, system, k as int, m);
        assert(pre_sample.file(system) == Seq::<char>::empty());
        assert(sink.file(system) =~= spec_record_line(k as int, m));
    }
    match B::verify(&vp, &instances, &proof_bytes) {
        Ok(_) => Ok(()),
        Err(e) => Err(BenchError::VerificationRejected(e)),
    }
}

} // verus!
