use vstd::prelude::*;

use crate::decoder::{decode_status, decoded};
use crate::outcome::{
    failure_message, report, settle, settled, FaultOrigin, OutcomeView, RunOutcome,
    RunTermination,
};

verus! {

/// Address of the first status byte that the test program writes.
pub const FIRST_STATUS_ADDRESS: u16 = 0x0002;

/// Address of the second status byte that the test program writes.
pub const SECOND_STATUS_ADDRESS: u16 = 0x0003;

/// Cycle budget that lets the nestest program run to completion.
pub const NESTEST_CYCLES: usize = 10000;

/// What an implementation under test offers the oracle.
pub trait TestableCpu: Sized {
    /// Loads an iNES ROM image and runs it for `num_cycles` cycles, or says
    /// why it could not.
    fn run_ines_rom(rom: &[u8], num_cycles: usize) -> Result<Self, String>;

    /// The byte stored at `address` once the run is over.
    fn memory_read(&self, address: u16) -> u8;
}

/// The outcome of a run that either failed to construct an implementation,
/// with its error text, or completed and left the status pair `(b1, b2)`.
pub open spec fn run_outcome(built: Result<(u8, u8), String>) -> OutcomeView {
    match built {
        Ok((b1, b2)) => decoded(b1, b2),
        Err(e) => OutcomeView::Faulted(FaultOrigin::ImplementationError, e@),
    }
}

/// Classifies a run: a construction error becomes an implementation-error
/// fault that keeps its text unchanged; a status pair is decoded.
pub fn outcome_of_run(built: Result<(u8, u8), String>) -> (r: RunOutcome)
    ensures
        r@ == run_outcome(built),
{
    match built {
        Ok((b1, b2)) => decode_status(b1, b2),
        Err(e) => RunOutcome::Faulted(FaultOrigin::ImplementationError, e),
    }
}

/// Whether `built` is what a run of `rom` for `num_cycles` cycles on `T` can
/// leave: a construction error that `run_ines_rom` returned, or the bytes that
/// `memory_read` returned at the two status addresses of the implementation
/// that it built.
pub open spec fn run_leaves<T: TestableCpu>(
    rom: &[u8],
    num_cycles: usize,
    built: Result<(u8, u8), String>,
) -> bool {
    match built {
        Err(e) => call_ensures(T::run_ines_rom, (rom, num_cycles), Err::<T, String>(e)),
        Ok((b1, b2)) => exists|cpu: T|
            call_ensures(T::run_ines_rom, (rom, num_cycles), Ok::<T, String>(cpu))
                && call_ensures(T::memory_read, (&cpu, FIRST_STATUS_ADDRESS), b1)
                && call_ensures(T::memory_read, (&cpu, SECOND_STATUS_ADDRESS), b2),
    }
}

/// Runs `rom` on the implementation `T` for `num_cycles` cycles, reads the two
/// status bytes and classifies the run.
pub fn run_program<T: TestableCpu>(rom: &[u8], num_cycles: usize) -> (r: RunOutcome)
    ensures
        exists|built: Result<(u8, u8), String>|
            run_leaves::<T>(rom, num_cycles, built) && r@ == run_outcome(built),
{
    let run = T::run_ines_rom;
    let read = T::memory_read;
    let built = match run(rom, num_cycles) {
        Ok(cpu) => {
            let b1 = read(&cpu, FIRST_STATUS_ADDRESS);
            let b2 = read(&cpu, SECOND_STATUS_ADDRESS);
            assert(run_leaves::<T>(rom, num_cycles, Ok((b1, b2))));
            Ok((b1, b2))
        },
        Err(e) => Err(e),
    };
    outcome_of_run(built)
}

/// One named conformance test: the program to run and its cycle budget.
#[derive(Clone, Copy, Debug)]
pub struct ConformanceTest {
    pub name: &'static str,
    pub num_cycles: usize,
}

pub open spec fn spec_nestest() -> ConformanceTest {
    ConformanceTest { name: "nestest", num_cycles: NESTEST_CYCLES }
}

/// The nestest program, run for its full cycle budget.
pub fn nestest() -> (t: ConformanceTest)
    ensures
        t == spec_nestest(),
{
    ConformanceTest { name: "nestest", num_cycles: NESTEST_CYCLES }
}

/// Whether `r` is what the suite reports for test `name` with outcome `o`:
/// `Ok` for a pass, else the failure message.
pub open spec fn reports(r: Result<(), String>, name: Seq<char>, o: OutcomeView) -> bool {
    match r {
        Ok(()) => failure_message(name, o) is None,
        Err(m) => failure_message(name, o) == Some(m@),
    }
}

/// Runs every conformance test, each through `run_isolated`, which runs it in
/// a failure-isolated unit and says how that unit ended. Returns `Ok` when all
/// pass, else the message of the first that fails.
pub fn run_all_tests<F: Fn(ConformanceTest) -> RunTermination>(run_isolated: F) -> (r: Result<
    (),
    String,
>)
    requires
        forall|t: ConformanceTest| run_isolated.requires((t,)),
    ensures
        exists|term: RunTermination|
            run_isolated.ensures((spec_nestest(),), term) && reports(
                r,
                spec_nestest().name@,
                settled(term),
            ),
{
    let test = nestest();
    let term = run_isolated(test);
    report(test.name, settle(term))
}

} // verus!
