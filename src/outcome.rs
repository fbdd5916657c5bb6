use vstd::prelude::*;

verus! {

/// Text carried by a crash whose payload holds no readable message.
pub const NO_PANIC_INFO: &'static str = "<no information>";

/// Where a run that did not complete normally went wrong.
#[derive(Clone, Copy, Debug, PartialEq, Eq, Structural)]
pub enum FaultOrigin {
    /// The implementation refused the ROM or failed to initialise.
    ImplementationError,
    /// The implementation's run aborted abnormally.
    ImplementationPanic,
}

/// The result of one conformance run.
#[derive(Debug, PartialEq, Eq)]
pub enum RunOutcome {
    Passed,
    /// The implementation ran but is defective; the text names the defect.
    Diagnosed(String),
    /// The implementation could not be evaluated.
    Faulted(FaultOrigin, String),
}

/// The mathematical model of a [`RunOutcome`].
pub enum OutcomeView {
    Passed,
    Diagnosed(Seq<char>),
    Faulted(FaultOrigin, Seq<char>),
}

impl View for RunOutcome {
    type V = OutcomeView;

    open spec fn view(&self) -> OutcomeView {
        match self {
            RunOutcome::Passed => OutcomeView::Passed,
            RunOutcome::Diagnosed(m) => OutcomeView::Diagnosed(m@),
            RunOutcome::Faulted(o, m) => OutcomeView::Faulted(*o, m@),
        }
    }
}

/// How the isolated unit that ran an implementation came to an end.
#[derive(Debug)]
pub enum RunTermination {
    /// It finished normally and produced an outcome.
    Completed(RunOutcome),
    /// It aborted; the payload's text, when it carried one.
    Aborted(Option<String>),
}

/// The outcome that a termination of the isolated unit stands for.
pub open spec fn settled(t: RunTermination) -> OutcomeView {
    match t {
        RunTermination::Completed(o) => o@,
        RunTermination::Aborted(Some(m)) => OutcomeView::Faulted(FaultOrigin::ImplementationPanic, m@),
        RunTermination::Aborted(None) => OutcomeView::Faulted(
            FaultOrigin::ImplementationPanic,
            NO_PANIC_INFO@,
        ),
    }
}

/// Turns the way the isolated unit ended into an outcome: an abort becomes a
/// panic fault that keeps the payload's text, or the fixed fallback text.
pub fn settle(t: RunTermination) -> (r: RunOutcome)
    ensures
        r@ == settled(t),
{
    match t {
        RunTermination::Completed(o) => o,
        RunTermination::Aborted(Some(m)) => RunOutcome::Faulted(FaultOrigin::ImplementationPanic, m),
        RunTermination::Aborted(None) => RunOutcome::Faulted(
            FaultOrigin::ImplementationPanic,
            NO_PANIC_INFO.to_owned(),
        ),
    }
}

/// The failure message reported for test `name` with outcome `o`, or `None`
/// when the test passed.
pub open spec fn failure_message(name: Seq<char>, o: OutcomeView) -> Option<Seq<char>> {
    match o {
        OutcomeView::Passed => None,
        OutcomeView::Diagnosed(d) => Some("cpu didn't pass test "@ + name + ": "@ + d),
        OutcomeView::Faulted(FaultOrigin::ImplementationError, e) => Some(
            "cpu failed while running test "@ + name + " with custom error message "@ + e,
        ),
        OutcomeView::Faulted(FaultOrigin::ImplementationPanic, m) => Some(
            "cpu implementation panicked while running test "@ + name + ": "@ + m,
        ),
    }
}

/// Reports the outcome of test `name`: `Ok` when it passed, otherwise one
/// message that names the test, the kind of failure and its text.
pub fn report(name: &str, outcome: RunOutcome) -> (r: Result<(), String>)
    ensures
        r is Ok <==> failure_message(name@, outcome@) is None,
        r matches Err(m) ==> failure_message(name@, outcome@) == Some(m@),
{
    match outcome {
        RunOutcome::Passed => Ok(()),
        RunOutcome::Diagnosed(d) => {
            let mut m = "cpu didn't pass test ".to_owned();
            m.append(name);
            m.append(": ");
            m.append(d.as_str());
            Err(m)
        },
        RunOutcome::Faulted(FaultOrigin::ImplementationError, e) => {
            let mut m = "cpu failed while running test ".to_owned();
            m.append(name);
            m.append(" with custom error message ");
            m.append(e.as_str());
            Err(m)
        },
        RunOutcome::Faulted(FaultOrigin::ImplementationPanic, p) => {
            let mut m = "cpu implementation panicked while running test ".to_owned();
            m.append(name);
            m.append(": ");
            m.append(p.as_str());
            Err(m)
        },
    }
}

} // verus!
