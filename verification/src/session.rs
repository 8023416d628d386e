//! The guessing session: a two-state machine driven by input events.
//!
//! A session holds an immutable target value and a state, `Running` or
//! `Won`. Each event is either one line of input or the failure of the
//! input source. A line is trimmed and parsed; an unparsable line asks
//! for a number and leaves the session running, a parsed guess is
//! compared three ways against the target, and only an equal guess
//! moves the session to `Won`. A source failure is fatal and consumes
//! nothing.

use crate::game::{compare_guess, compare_spec, Comparison};
use crate::parse::{parse_guess, parse_u32_spec, trim_spec};
use vstd::prelude::*;

verus! {

/// The session's continuation state.
#[derive(Clone, Copy, Debug, PartialEq, Eq, Structural)]
pub enum SessionState {
    Running,
    Won,
}

/// One interaction with the input source: a full line, or its failure.
pub enum InputEvent {
    Line(String),
    Closed,
}

/// The user-visible feedback to one event.
#[derive(Clone, Copy, Debug, PartialEq, Eq, Structural)]
pub enum Feedback {
    PromptNumber,
    TooSmall,
    TooBig,
    Win,
}

/// The one fatal condition: the input source could not supply a line.
#[derive(Clone, Copy, Debug, PartialEq, Eq, Structural)]
pub enum SessionError {
    InputSourceFailure,
}

/// How a run over a finite script of events ended.
#[derive(Clone, Copy, Debug, PartialEq, Eq, Structural)]
pub enum RunOutcome {
    Won,
    SourceFailed,
    AwaitingInput,
}

/// The feedback owed to one line of input, before any state change.
pub open spec fn feedback_of(target: u32, line: Seq<char>) -> Feedback {
    match parse_u32_spec(trim_spec(line)) {
        Option::None => Feedback::PromptNumber,
        Option::Some(g) => match compare_spec(g, target) {
            Comparison::Less => Feedback::TooSmall,
            Comparison::Greater => Feedback::TooBig,
            Comparison::Equal => Feedback::Win,
        },
    }
}

impl Feedback {
    /// The message the session emits for this feedback.
    pub fn message(&self) -> (m: &'static str)
        ensures
            m@ == match *self {
                Feedback::PromptNumber => "Please enter a number!"@,
                Feedback::TooSmall => "Too small!"@,
                Feedback::TooBig => "Too big!"@,
                Feedback::Win => "You win!"@,
            },
    {
        match self {
            Feedback::PromptNumber => "Please enter a number!",
            Feedback::TooSmall => "Too small!",
            Feedback::TooBig => "Too big!",
            Feedback::Win => "You win!",
        }
    }
}

impl SessionError {
    /// The message the session emits when the input source fails.
    pub fn message(&self) -> (m: &'static str)
        ensures
            m@ == "Failed to read line"@,
    {
        "Failed to read line"
    }
}

/// One run of the guess-compare loop: an immutable target value and the
/// loop's continuation state.
pub struct Session {
    pub target: u32,
    pub state: SessionState,
}

/// Relies on rand's `Rng::random_range` called on `rand::rng()` with the
/// range `1..=100`: it generates a random value in the given range and
/// panics only on an empty range.
#[verifier::external_body]
fn sample_target() -> (t: u32)
    ensures
        1 <= t <= 100,
{
    rand::Rng::random_range(&mut rand::rng(), 1..=100)
}

impl Session {
    /// A target value is always within the fixed inclusive range.
    pub open spec fn wf(self) -> bool {
        1 <= self.target <= 100
    }

    /// Starts a session around an injected target value.
    pub fn new(target: u32) -> (s: Session)
        requires
            1 <= target <= 100,
        ensures
            s.target == target,
            s.state == SessionState::Running,
            s.wf(),
    {
        Session { target, state: SessionState::Running }
    }

    /// Starts a session around a freshly drawn random target value.
    pub fn new_random() -> (s: Session)
        ensures
            s.state == SessionState::Running,
            s.wf(),
    {
        Session::new(sample_target())
    }

    /// The single transition rule: answer one event and move state.
    pub fn step(&mut self, event: &InputEvent) -> (r: Result<Feedback, SessionError>)
        requires
            old(self).state == SessionState::Running,
        ensures
            final(self).target == old(self).target,
            match *event {
                InputEvent::Closed => r == Result::<Feedback, SessionError>::Err(
                    SessionError::InputSourceFailure,
                ) && final(self).state == SessionState::Running,
                InputEvent::Line(line) => r == Result::<Feedback, SessionError>::Ok(
                    feedback_of(old(self).target, line@),
                ) && final(self).state == (if feedback_of(old(self).target, line@)
                    == Feedback::Win {
                    SessionState::Won
                } else {
                    SessionState::Running
                }),
            },
    {
        match event {
            InputEvent::Closed => Err(SessionError::InputSourceFailure),
            InputEvent::Line(line) => match parse_guess(line.as_str()) {
                None => Ok(Feedback::PromptNumber),
                Some(g) => match compare_guess(g, self.target) {
                    Comparison::Less => Ok(Feedback::TooSmall),
                    Comparison::Greater => Ok(Feedback::TooBig),
                    Comparison::Equal => {
                        self.state = SessionState::Won;
                        Ok(Feedback::Win)
                    },
                },
            },
        }
    }
}

/// The feedback and outcome of a session run over a finite script of
/// events: events are answered in order until the guess equals the
/// target, the source fails, or the script runs out.
pub open spec fn run_spec(target: u32, events: Seq<InputEvent>) -> (Seq<Feedback>, RunOutcome)
    decreases events.len(),
{
    if events.len() == 0 {
        (Seq::<Feedback>::empty(), RunOutcome::AwaitingInput)
    } else {
        match events[0] {
            InputEvent::Closed => (Seq::<Feedback>::empty(), RunOutcome::SourceFailed),
            InputEvent::Line(line) => {
                let f = feedback_of(target, line@);
                if f == Feedback::Win {
                    (seq![f], RunOutcome::Won)
                } else {
                    let rest = run_spec(target, events.drop_first());
                    (seq![f] + rest.0, rest.1)
                }
            },
        }
    }
}

/// Drives a fresh session over a pre-read script of events.
pub fn run_session(target: u32, events: &Vec<InputEvent>) -> (r: (Vec<Feedback>, RunOutcome))
    requires
        1 <= target <= 100,
    ensures
        r.0@ == run_spec(target, events@).0,
        r.1 == run_spec(target, events@).1,
{
    let mut session = Session::new(target);
    let mut out: Vec<Feedback> = Vec::new();
    let n: usize = events.len();
    let mut i: usize = 0;
    proof {
        assert(events@.skip(0) =~= events@);
        assert(out@ =~= Seq::<Feedback>::empty());
        assert(out@ + run_spec(target, events@).0 =~= run_spec(target, events@).0);
    }
    while i < n
        invariant
            0 <= i <= n,
            n == events@.len(),
            session.target == target,
            session.state == SessionState::Running,
            run_spec(target, events@).0 == out@ + run_spec(target, events@.skip(i as int)).0,
            run_spec(target, events@).1 == run_spec(target, events@.skip(i as int)).1,
        decreases n - i,
    {
        let ev = &events[i];
        proof {
            assert(events@.skip(i as int)[0] == events@[i as int]);
            assert(events@.skip(i as int).drop_first() =~= events@.skip(i as int + 1));
        }
        match session.step(ev) {
            Err(_) => {
                proof {
                    assert(out@ + Seq::<Feedback>::empty() =~= out@);
                }
                return (out, RunOutcome::SourceFailed);
            },
            Ok(fb) => {
                let ghost prev = out@;
                out.push(fb);
                proof {
                    assert(out@ =~= prev + seq![fb]);
                }
                if matches!(fb, Feedback::Win) {
                    return (out, RunOutcome::Won);
                }
                proof {
                    assert(run_spec(target, events@).0 == out@ + run_spec(
                        target,
                        events@.skip(i as int + 1),
                    ).0) by {
                        let rest = run_spec(target, events@.skip(i as int + 1));
                        assert(prev + (seq![fb] + rest.0) =~= (prev + seq![fb]) + rest.0);
                    }
                }
                i = i + 1;
            },
        }
    }
    proof {
        assert(events@.skip(n as int) =~= Seq::<InputEvent>::empty());
        assert(out@ + Seq::<Feedback>::empty() =~= out@);
    }
    (out, RunOutcome::AwaitingInput)
}

/// After a source failure nothing more of the input is consumed: a run
/// whose first event is the failure emits no feedback and halts.
pub proof fn lemma_source_failure_halts(target: u32, events: Seq<InputEvent>)
    requires
        events.len() > 0,
        events[0] matches InputEvent::Closed,
    ensures
        run_spec(target, events).0 =~= Seq::<Feedback>::empty(),
        run_spec(target, events).1 == RunOutcome::SourceFailed,
{
}

/// A line whose trimmed text parses to the target wins the session in
/// exactly that one comparison.
pub proof fn lemma_correct_guess_wins(target: u32, line: Seq<char>)
    requires
        parse_u32_spec(trim_spec(line)) == Some(target),
    ensures
        feedback_of(target, line) == Feedback::Win,
{
}

} // verus!
