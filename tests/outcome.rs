use nes_cpu_oracle::outcome::{report, settle, FaultOrigin, RunOutcome, RunTermination, NO_PANIC_INFO};

#[test]
fn panic_payload_text_is_kept() {
    let r = settle(RunTermination::Aborted(Some("index out of bounds".to_string())));
    assert_eq!(r, RunOutcome::Faulted(FaultOrigin::ImplementationPanic, "index out of bounds".to_string()));
}

#[test]
fn panic_without_payload_uses_fallback() {
    assert_eq!(NO_PANIC_INFO, "<no information>");
    let r = settle(RunTermination::Aborted(None));
    assert_eq!(r, RunOutcome::Faulted(FaultOrigin::ImplementationPanic, "<no information>".to_string()));
}

#[test]
fn completed_run_keeps_its_outcome() {
    assert_eq!(settle(RunTermination::Completed(RunOutcome::Passed)), RunOutcome::Passed);
    assert_eq!(
        settle(RunTermination::Completed(RunOutcome::Diagnosed("BIT failure".to_string()))),
        RunOutcome::Diagnosed("BIT failure".to_string())
    );
}

#[test]
fn report_of_pass_is_ok() {
    assert_eq!(report("nestest", RunOutcome::Passed), Ok(()));
}

#[test]
fn report_of_diagnosis() {
    assert_eq!(
        report("nestest", RunOutcome::Diagnosed("BEQ failed to branch".to_string())),
        Err("cpu didn't pass test nestest: BEQ failed to branch".to_string())
    );
}

#[test]
fn report_of_construction_error() {
    assert_eq!(
        report("nestest", RunOutcome::Faulted(FaultOrigin::ImplementationError, "bad header".to_string())),
        Err("cpu failed while running test nestest with custom error message bad header".to_string())
    );
}

#[test]
fn report_of_panic() {
    assert_eq!(
        report("other", RunOutcome::Faulted(FaultOrigin::ImplementationPanic, "boom".to_string())),
        Err("cpu implementation panicked while running test other: boom".to_string())
    );
}
