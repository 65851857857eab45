//! Sending a frame: which action comes next, and when to stop.
//!
//! [`Transmitter`] walks a driver through the script of a frame. The driver
//! performs each action and reports how it went. The first failure that it
//! reports ends the transmission with that error: nothing more is handed
//! out and nothing is tried again. A transmission succeeds only when the
//! whole script has been performed.

use vstd::prelude::*;
use crate::frame::CM17ACommand;
use crate::line::reset;
#[allow(unused_imports)]
use crate::script::{lemma_script, nth_action, script, Action};

verus! {

/// An operating-system error, by its error number.
#[derive(Clone, Copy, Debug, PartialEq, Eq, Structural)]
pub struct IoError {
    pub code: i32,
}

/// What the transmitter answers to a report.
#[derive(Clone, Copy, Debug, PartialEq, Eq)]
pub enum Step {
    /// Perform this action, then report how it went.
    Perform(Action),
    /// The transmission is over, with this result.
    Finished(Result<(), IoError>),
}

/// How far a transmission has come: the mathematical state of a
/// [`Transmitter`].
pub struct Transmission {
    /// The bytes being sent.
    pub frame: Seq<u8>,
    /// How many actions of the script have been handed out.
    pub issued: nat,
    /// The result, once the transmission is over.
    pub result: Option<Result<(), IoError>>,
}

impl Transmission {
    /// The state in which the first action of the script has been handed
    /// out and nothing else has happened.
    pub open spec fn start(frame: Seq<u8>) -> Transmission {
        Transmission { frame, issued: 1, result: None }
    }

    /// The state and the answer that follow the report `outcome`.
    ///
    /// * Once over, a transmission stays as it is and repeats its result.
    /// * A failure ends it with that error.
    /// * A success brings the next action of the script or, after the
    ///   last one, ends it with success.
    pub open spec fn step(self, outcome: Result<(), IoError>) -> (Transmission, Step) {
        if self.result is Some {
            (self, Step::Finished(self.result->0))
        } else if outcome is Err {
            (Transmission { result: Some(outcome), ..self }, Step::Finished(outcome))
        } else if self.issued < script(self.frame).len() {
            (
                Transmission { issued: self.issued + 1, ..self },
                Step::Perform(script(self.frame)[self.issued as int]),
            )
        } else {
            (Transmission { result: Some(Ok(())), ..self }, Step::Finished(Ok(())))
        }
    }
}

/// The state a transmission of `frame` is in after the reports `outcomes`,
/// made in this order since the start.
pub open spec fn state_after(frame: Seq<u8>, outcomes: Seq<Result<(), IoError>>) -> Transmission
    decreases outcomes.len(),
{
    if outcomes.len() == 0 {
        Transmission::start(frame)
    } else {
        state_after(frame, outcomes.drop_last()).step(outcomes.last()).0
    }
}

/// The answer to the last of the reports `outcomes`, made in this order
/// since the start of a transmission of `frame`.
pub open spec fn answer_to(frame: Seq<u8>, outcomes: Seq<Result<(), IoError>>) -> Step
    recommends
        outcomes.len() > 0,
{
    state_after(frame, outcomes.drop_last()).step(outcomes.last()).1
}

/// Whether every one of `outcomes` is a success.
pub open spec fn all_ok(outcomes: Seq<Result<(), IoError>>) -> bool {
    forall|i: int| 0 <= i < outcomes.len() ==> (#[trigger] outcomes[i]) is Ok
}

/// While every action succeeds, the driver is handed the script in order:
/// after `n` successes, with actions still left, `n + 1` actions have been
/// handed out, the transmission is still going, and the answer to the
/// `n`-th report was action `n` of the script.
pub proof fn lemma_script_is_followed(frame: Seq<u8>, outcomes: Seq<Result<(), IoError>>)
    requires
        all_ok(outcomes),
        outcomes.len() < script(frame).len(),
    ensures
        state_after(frame, outcomes) == (Transmission {
            frame,
            issued: outcomes.len() + 1,
            result: None,
        }),
        outcomes.len() > 0 ==> answer_to(frame, outcomes) == Step::Perform(
            script(frame)[outcomes.len() as int],
        ),
    decreases outcomes.len(),
{
    if outcomes.len() > 0 {
        let earlier = outcomes.drop_last();
        assert forall|i: int| 0 <= i < earlier.len() implies (#[trigger] earlier[i]) is Ok by {
            assert(earlier[i] == outcomes[i]);
        }
        lemma_script_is_followed(frame, earlier);
    }
}

/// A transmission succeeds when every action of the script has been
/// performed: once as many successes have been reported as the script has
/// actions, the result is success, whatever is reported after that.
pub proof fn lemma_success_after_whole_script(frame: Seq<u8>, outcomes: Seq<Result<(), IoError>>)
    requires
        outcomes.len() >= script(frame).len(),
        all_ok(outcomes.take(script(frame).len() as int)),
    ensures
        answer_to(frame, outcomes) == Step::Finished(Ok(())),
        state_after(frame, outcomes) == (Transmission {
            frame,
            issued: script(frame).len(),
            result: Some(Ok(())),
        }),
    decreases outcomes.len(),
{
    lemma_script(frame);
    let whole = script(frame).len() as int;
    let earlier = outcomes.drop_last();
    if outcomes.len() == whole {
        assert(earlier =~= outcomes.take(whole).drop_last());
        assert forall|i: int| 0 <= i < earlier.len() implies (#[trigger] earlier[i]) is Ok by {
            assert(outcomes.take(whole)[i] is Ok);
        }
        lemma_script_is_followed(frame, earlier);
        assert(outcomes.take(whole)[whole - 1] is Ok);
    } else {
        assert(earlier.take(whole) =~= outcomes.take(whole));
        lemma_success_after_whole_script(frame, earlier);
    }
}

/// The first failure ends the transmission with the error that was
/// reported. Where report `k` is the first failure, and it is the report
/// on an action of the script, the result is that error, whatever is
/// reported after it, and no action beyond the failed one is handed out.
pub proof fn lemma_first_failure_ends_transmission(
    frame: Seq<u8>,
    outcomes: Seq<Result<(), IoError>>,
    k: int,
    error: IoError,
)
    requires
        0 <= k < outcomes.len(),
        k < script(frame).len(),
        all_ok(outcomes.take(k)),
        outcomes[k] == Err::<(), IoError>(error),
    ensures
        answer_to(frame, outcomes) == Step::Finished(Err(error)),
        state_after(frame, outcomes) == (Transmission {
            frame,
            issued: (k + 1) as nat,
            result: Some(Err(error)),
        }),
    decreases outcomes.len(),
{
    let earlier = outcomes.drop_last();
    if outcomes.len() == k + 1 {
        assert(earlier =~= outcomes.take(k));
        lemma_script_is_followed(frame, earlier);
    } else {
        assert(earlier.take(k) =~= outcomes.take(k));
        lemma_first_failure_ends_transmission(frame, earlier, k, error);
    }
}

/// Success is never partial: whatever has been reported, at least one and
/// at most all actions of the script have been handed out, and the result
/// is success only if all of them have been.
pub proof fn lemma_success_means_whole_script(
    frame: Seq<u8>,
    outcomes: Seq<Result<(), IoError>>,
)
    ensures
        state_after(frame, outcomes).frame == frame,
        1 <= state_after(frame, outcomes).issued <= script(frame).len(),
        state_after(frame, outcomes).result == Some(Ok::<(), IoError>(())) ==> state_after(
            frame,
            outcomes,
        ).issued == script(frame).len(),
    decreases outcomes.len(),
{
    lemma_script(frame);
    if outcomes.len() > 0 {
        lemma_success_means_whole_script(frame, outcomes.drop_last());
    }
}

/// A transmission that is over stays over: whatever is reported to it, it
/// hands out no action, does not change, and repeats its result. So
/// nothing is sent after a failure, and nothing is tried again.
pub proof fn lemma_over_stays_over(transmission: Transmission, outcome: Result<(), IoError>)
    requires
        transmission.result is Some,
    ensures
        transmission.step(outcome) == (transmission, Step::Finished(transmission.result->0)),
{
}

/// A failure reported to a transmission that is still going ends it at
/// once, with that error, and without handing out a further action.
pub proof fn lemma_failure_is_propagated(transmission: Transmission, error: IoError)
    requires
        transmission.result is None,
    ensures
        transmission.step(Err(error)) == (
            Transmission { result: Some(Err(error)), ..transmission },
            Step::Finished(Err(error)),
        ),
{
}

/// Walks a driver through the transmission of one frame.
#[derive(Clone, Debug)]
pub struct Transmitter {
    frame: CM17ACommand,
    issued: usize,
    result: Option<Result<(), IoError>>,
}

impl View for Transmitter {
    type V = Transmission;

    closed spec fn view(&self) -> Transmission {
        Transmission { frame: self.frame@, issued: self.issued as nat, result: self.result }
    }
}

impl Transmitter {
    /// Begins the transmission of `frame`.
    ///
    /// Returns the transmitter and the first action of the script, which
    /// resets the lines. The driver performs it and reports to
    /// [`Transmitter::step`].
    pub fn start(frame: CM17ACommand) -> (begun: (Transmitter, Action))
        ensures
            begun.0@ == Transmission::start(frame@),
            begun.1 == script(frame@)[0],
            begun.1 == Action::SetLines(reset()),
    {
        proof {
            lemma_script(frame@);
        }
        (Transmitter { frame, issued: 1, result: None }, Action::SetLines(reset()))
    }

    /// How many actions of the script have been handed out so far.
    pub fn issued(&self) -> (count: usize)
        ensures
            count == self@.issued,
    {
        self.issued
    }

    /// The result of the transmission, once it is over.
    pub fn result(&self) -> (result: Option<Result<(), IoError>>)
        ensures
            result == self@.result,
    {
        self.result
    }

    /// Takes the report on the action handed out last and answers with
    /// what comes next.
    ///
    /// `outcome` is `Ok` if the driver performed the action, and the
    /// error if it could not. The answer is the next action of the script,
    /// or the end of the transmission: with the reported error at the first
    /// failure, with success when the last action of the script has been
    /// performed. Once the transmission is over, every further call gives
    /// the same result and hands out nothing.
    pub fn step(&mut self, outcome: Result<(), IoError>) -> (next: Step)
        ensures
            (final(self)@, next) == old(self)@.step(outcome),
    {
        match self.result {
            Some(result) => Step::Finished(result),
            None => match outcome {
                Err(error) => {
                    self.result = Some(Err(error));
                    Step::Finished(Err(error))
                },
                Ok(_) => match nth_action(&self.frame, self.issued) {
                    Some(action) => {
                        proof {
                            lemma_script(self.frame@);
                        }
                        self.issued = self.issued + 1;
                        Step::Perform(action)
                    },
                    None => {
                        self.result = Some(Ok(()));
                        Step::Finished(Ok(()))
                    },
                },
            },
        }
    }
}

} // verus!
