//! The session controller: a state machine from an input line to the next
//! state and the messages sent to the I/O actor.

use crate::game::{
    digits_of, spec_balls, spec_strikes, valid_guess_text, valid_secret, GameSession, GuessResult,
};
use crate::text::{classify_confirmation, is_no, is_yes, trim, trimmed, Confirmation};
use vstd::prelude::*;

verus! {

/// A fixed line of user-facing text, named rather than spelt out, so that
/// the presentation layer owns the wording.
#[derive(Clone, Copy, PartialEq, Eq, Structural, Debug)]
pub enum Msg {
    /// Asks whether to start a game (`YES` / `NO`).
    StartPrompt,
    /// Announces the new game and asks for a three-digit guess.
    EnterGuess,
    /// Says goodbye after the player declines to play.
    GoodBye,
    /// Says the confirmation input was not understood and asks again.
    Unrecognized,
    /// Says the guess must be three digits and asks again.
    MalformedGuess,
    /// Reports the strike and ball counts of a wrong guess.
    Report { strikes: u32, balls: u32 },
    /// Announces a correct guess and offers a replay.
    Correct,
}

/// One message from the controller to the I/O actor.
#[derive(Clone, Copy, PartialEq, Eq, Structural, Debug)]
pub enum Output {
    /// Show this line to the player.
    Display(Msg),
    /// Read one line from the player and hand it back.
    RequestInput,
    /// Stop the I/O loop; nothing follows.
    Terminate,
}

/// The controller's outer state: waiting for a start or replay
/// confirmation, or holding the one active game session.
#[derive(Clone, Copy)]
pub enum ControllerState {
    AwaitingStartConfirmation,
    InSession(GameSession),
}

/// Any session the controller holds wraps a well-formed secret.
pub open spec fn state_wf(s: ControllerState) -> bool {
    match s {
        ControllerState::AwaitingStartConfirmation => true,
        ControllerState::InSession(g) => valid_secret(g.secret@),
    }
}

/// One step's outcome: the state to continue in (`None` once the controller
/// has terminated) and the messages sent to the I/O actor, in order.
pub struct StepResult {
    pub next: Option<ControllerState>,
    pub outputs: Vec<Output>,
}

/// Everything one controller step does, as a relation between the state, the
/// raw input line, and the outcome.
pub open spec fn step_spec(state: ControllerState, input: Seq<char>, r: StepResult) -> bool {
    match state {
        ControllerState::AwaitingStartConfirmation => {
            if is_yes(input) {
                &&& r.next matches Some(ControllerState::InSession(g)) && valid_secret(g.secret@)
                &&& r.outputs@ == seq![Output::Display(Msg::EnterGuess), Output::RequestInput]
            } else if is_no(input) {
                &&& r.next is None
                &&& r.outputs@ == seq![Output::Display(Msg::GoodBye), Output::Terminate]
            } else {
                &&& r.next == Some(ControllerState::AwaitingStartConfirmation)
                &&& r.outputs@ == seq![Output::Display(Msg::Unrecognized), Output::RequestInput]
            }
        },
        ControllerState::InSession(g) => {
            let t = trimmed(input);
            if !valid_guess_text(t) {
                &&& r.next == Some(ControllerState::InSession(g))
                &&& r.outputs@ == seq![Output::Display(Msg::MalformedGuess), Output::RequestInput]
            } else if digits_of(t) =~= g.secret@ {
                &&& r.next == Some(ControllerState::AwaitingStartConfirmation)
                &&& r.outputs@ == seq![Output::Display(Msg::Correct), Output::RequestInput]
            } else {
                &&& r.next == Some(ControllerState::InSession(g))
                &&& r.outputs@ == seq![
                    Output::Display(
                        Msg::Report {
                            strikes: spec_strikes(digits_of(t), g.secret@) as u32,
                            balls: spec_balls(digits_of(t), g.secret@) as u32,
                        },
                    ),
                    Output::RequestInput,
                ]
            }
        },
    }
}

/// A two-message send.
fn outputs2(a: Output, b: Output) -> (r: Vec<Output>)
    ensures
        r@ == seq![a, b],
{
    let mut r: Vec<Output> = Vec::new();
    r.push(a);
    r.push(b);
    proof {
        assert(r@ =~= seq![a, b]);
    }
    r
}

/// The controller's starting state and the messages it sends on
/// construction: the start prompt and one request for input.
pub fn initial() -> (r: (ControllerState, Vec<Output>))
    ensures
        r.0 == ControllerState::AwaitingStartConfirmation,
        r.1@ == seq![Output::Display(Msg::StartPrompt), Output::RequestInput],
{
    (
        ControllerState::AwaitingStartConfirmation,
        outputs2(Output::Display(Msg::StartPrompt), Output::RequestInput),
    )
}

/// Drives the dialogue one input line forward.
///
/// At the confirmation prompt an affirmative token opens a fresh session, a
/// negative one says goodbye and terminates, anything else re-prompts. In a
/// session a malformed guess re-prompts without touching the session, a
/// correct guess closes the session and offers a replay, and any other
/// guess reports its strikes and balls and keeps the session.
pub fn step(state: ControllerState, input: &str) -> (r: StepResult)
    ensures
        step_spec(state, input@, r),
        state_wf(state) ==> (r.next matches Some(s) ==> state_wf(s)),
{
    match state {
        ControllerState::AwaitingStartConfirmation => {
            match classify_confirmation(input) {
                Confirmation::Yes => {
                    let g = GameSession::new();
                    StepResult {
                        next: Some(ControllerState::InSession(g)),
                        outputs: outputs2(Output::Display(Msg::EnterGuess), Output::RequestInput),
                    }
                },
                Confirmation::No => StepResult {
                    next: None,
                    outputs: outputs2(Output::Display(Msg::GoodBye), Output::Terminate),
                },
                Confirmation::Other => StepResult {
                    next: Some(ControllerState::AwaitingStartConfirmation),
                    outputs: outputs2(Output::Display(Msg::Unrecognized), Output::RequestInput),
                },
            }
        },
        ControllerState::InSession(g) => {
            let t = trim(input);
            match g.validate(t) {
                Err(_) => StepResult {
                    next: Some(ControllerState::InSession(g)),
                    outputs: outputs2(Output::Display(Msg::MalformedGuess), Output::RequestInput),
                },
                Ok(v) => {
                    match g.check_answer(v) {
                        GuessResult::Correct => StepResult {
                            next: Some(ControllerState::AwaitingStartConfirmation),
                            outputs: outputs2(Output::Display(Msg::Correct), Output::RequestInput),
                        },
                        GuessResult::Incorrect { strikes, balls } => StepResult {
                            next: Some(ControllerState::InSession(g)),
                            outputs: outputs2(
                                Output::Display(Msg::Report { strikes, balls }),
                                Output::RequestInput,
                            ),
                        },
                    }
                },
            }
        },
    }
}

} // verus!
