use guessing_game::game::{compare_guess, Comparison};
use guessing_game::session::{
    run_session, Feedback, InputEvent, RunOutcome, Session, SessionError, SessionState,
};

#[test]
fn comparison_is_total_and_deterministic() {
    let t = 42u32;
    for g in 1..=100u32 {
        let r1 = compare_guess(g, t);
        let r2 = compare_guess(g, t);
        assert_eq!(r1, r2);
        let expected = if g < t {
            Comparison::Less
        } else if g > t {
            Comparison::Greater
        } else {
            Comparison::Equal
        };
        assert_eq!(r1, expected);
    }
}

#[test]
fn generated_target_always_in_range() {
    for _ in 0..10_000 {
        let s = Session::new_random();
        assert!(1 <= s.target && s.target <= 100);
        assert_eq!(s.state, SessionState::Running);
    }
}

#[test]
fn scripted_session_emits_feedback_in_order() {
    let events = vec![
        InputEvent::Line(String::from("10")),
        InputEvent::Line(String::from("90")),
        InputEvent::Line(String::from("42")),
    ];
    let (fb, outcome) = run_session(42, &events);
    assert_eq!(fb, vec![Feedback::TooSmall, Feedback::TooBig, Feedback::Win]);
    assert_eq!(outcome, RunOutcome::Won);
    assert_eq!(fb[0].message(), "Too small!");
    assert_eq!(fb[1].message(), "Too big!");
    assert_eq!(fb[2].message(), "You win!");
}

#[test]
fn non_numeric_input_reprompts() {
    let mut session = Session::new(5);
    let r = session.step(&InputEvent::Line(String::from("abc")));
    assert_eq!(r, Ok(Feedback::PromptNumber));
    assert_eq!(r.unwrap().message(), "Please enter a number!");
    assert_eq!(session.state, SessionState::Running);
    let r2 = session.step(&InputEvent::Line(String::from("5")));
    assert_eq!(r2, Ok(Feedback::Win));
    assert_eq!(session.state, SessionState::Won);
}

#[test]
fn exact_guess_wins_after_one_comparison() {
    let mut session = Session::new(5);
    let r = session.step(&InputEvent::Line(String::from("5")));
    assert_eq!(r, Ok(Feedback::Win));
    assert_eq!(session.state, SessionState::Won);

    let events = vec![
        InputEvent::Line(String::from("5")),
        InputEvent::Line(String::from("7")),
    ];
    let (fb, outcome) = run_session(5, &events);
    assert_eq!(fb.len(), 1);
    assert_eq!(fb[0], Feedback::Win);
    assert_eq!(outcome, RunOutcome::Won);
}

#[test]
fn source_failure_stops_session() {
    let events = vec![InputEvent::Closed, InputEvent::Line(String::from("5"))];
    let (fb, outcome) = run_session(5, &events);
    assert!(fb.is_empty());
    assert_eq!(outcome, RunOutcome::SourceFailed);

    let mut session = Session::new(5);
    let r = session.step(&InputEvent::Closed);
    assert_eq!(r, Err(SessionError::InputSourceFailure));
    assert_eq!(r.unwrap_err().message(), "Failed to read line");
    assert_eq!(session.state, SessionState::Running);
}

#[test]
fn exhausted_script_leaves_session_awaiting_input() {
    let events = vec![InputEvent::Line(String::from("3"))];
    let (fb, outcome) = run_session(5, &events);
    assert_eq!(fb, vec![Feedback::TooSmall]);
    assert_eq!(outcome, RunOutcome::AwaitingInput);

    let (fb2, outcome2) = run_session(5, &Vec::new());
    assert!(fb2.is_empty());
    assert_eq!(outcome2, RunOutcome::AwaitingInput);
}

#[test]
fn boundary_targets_accept_boundary_guesses() {
    let events = vec![InputEvent::Line(String::from("1"))];
    let (fb, outcome) = run_session(1, &events);
    assert_eq!(fb, vec![Feedback::Win]);
    assert_eq!(outcome, RunOutcome::Won);

    let events = vec![InputEvent::Line(String::from("100"))];
    let (fb, outcome) = run_session(100, &events);
    assert_eq!(fb, vec![Feedback::Win]);
    assert_eq!(outcome, RunOutcome::Won);
}

#[test]
fn out_of_range_guesses_still_compare() {
    let mut session = Session::new(100);
    let r = session.step(&InputEvent::Line(String::from("4294967295")));
    assert_eq!(r, Ok(Feedback::TooBig));
    assert_eq!(session.state, SessionState::Running);
}
