use nes_cpu_oracle::outcome::{FaultOrigin, RunOutcome, RunTermination};
use nes_cpu_oracle::runner::{
    nestest, outcome_of_run, run_program, FIRST_STATUS_ADDRESS, NESTEST_CYCLES, SECOND_STATUS_ADDRESS,
};
use nes_cpu_oracle::{run_all_tests, TestableCpu};

/// A stand-in implementation whose memory holds a fixed status pair.
struct FixedCpu<const B1: u8, const B2: u8>;

impl<const B1: u8, const B2: u8> TestableCpu for FixedCpu<B1, B2> {
    fn run_ines_rom(rom: &[u8], num_cycles: usize) -> Result<Self, String> {
        assert_eq!(rom, &[0x4E, 0x45, 0x53, 0x1A]);
        assert_eq!(num_cycles, NESTEST_CYCLES);
        Ok(FixedCpu)
    }

    fn memory_read(&self, address: u16) -> u8 {
        match address {
            0x0002 => B1,
            0x0003 => B2,
            _ => 0xEE,
        }
    }
}

/// A stand-in implementation that refuses every ROM.
struct RefusingCpu;

impl TestableCpu for RefusingCpu {
    fn run_ines_rom(_rom: &[u8], _num_cycles: usize) -> Result<Self, String> {
        Err("bad header".to_string())
    }

    fn memory_read(&self, _address: u16) -> u8 {
        0
    }
}

const ROM: [u8; 4] = [0x4E, 0x45, 0x53, 0x1A];

fn run_in_place<T: TestableCpu>(test: nes_cpu_oracle::runner::ConformanceTest) -> RunTermination {
    RunTermination::Completed(run_program::<T>(&ROM, test.num_cycles))
}

#[test]
fn status_addresses_and_budget() {
    assert_eq!(FIRST_STATUS_ADDRESS, 0x0002);
    assert_eq!(SECOND_STATUS_ADDRESS, 0x0003);
    assert_eq!(nestest().name, "nestest");
    assert_eq!(nestest().num_cycles, 10000);
}

#[test]
fn construction_error_text_is_kept() {
    assert_eq!(
        outcome_of_run(Err("no mapper 4".to_string())),
        RunOutcome::Faulted(FaultOrigin::ImplementationError, "no mapper 4".to_string())
    );
    assert_eq!(
        run_program::<RefusingCpu>(&ROM, NESTEST_CYCLES),
        RunOutcome::Faulted(FaultOrigin::ImplementationError, "bad header".to_string())
    );
}

#[test]
fn completed_run_is_decoded() {
    assert_eq!(outcome_of_run(Ok((0x05, 0x01))), RunOutcome::Diagnosed("BEQ failed to branch".to_string()));
    assert_eq!(outcome_of_run(Ok((0x05, 0x00))), RunOutcome::Passed);
    assert_eq!(
        run_program::<FixedCpu<0x05, 0x01>>(&ROM, NESTEST_CYCLES),
        RunOutcome::Diagnosed("BEQ failed to branch".to_string())
    );
}

#[test]
fn correct_implementation_passes() {
    assert_eq!(run_all_tests(run_in_place::<FixedCpu<0, 0>>), Ok(()));
}

#[test]
fn first_byte_still_zero_passes_end_to_end() {
    assert_eq!(run_all_tests(run_in_place::<FixedCpu<0, 0x07>>), Ok(()));
    assert_eq!(run_all_tests(run_in_place::<FixedCpu<0x05, 0>>), Ok(()));
}

#[test]
fn beq_defect_reported_end_to_end() {
    assert_eq!(
        run_all_tests(run_in_place::<FixedCpu<0x05, 0x01>>),
        Err("cpu didn't pass test nestest: BEQ failed to branch".to_string())
    );
}

#[test]
fn construction_error_reported_end_to_end() {
    assert_eq!(
        run_all_tests(run_in_place::<RefusingCpu>),
        Err("cpu failed while running test nestest with custom error message bad header".to_string())
    );
}

#[test]
fn panic_reported_end_to_end() {
    let r = run_all_tests(|_test| RunTermination::Aborted(Some("index out of bounds".to_string())));
    let m = r.unwrap_err();
    assert!(m.contains("implementation panicked"));
    assert!(m.contains("index out of bounds"));
    assert_eq!(m, "cpu implementation panicked while running test nestest: index out of bounds");
}

#[test]
fn panic_without_payload_reported_end_to_end() {
    assert_eq!(
        run_all_tests(|_test| RunTermination::Aborted(None)),
        Err("cpu implementation panicked while running test nestest: <no information>".to_string())
    );
}
