use radio::session::{Action, Event, Input, Phase, Session, SessionState};
use radio::sink::PcmBlock;
use radio::token::Token;
use radio::{DecodeError, Error, StreamError};

fn block(seed: i16) -> PcmBlock {
    PcmBlock { channels: 1, sample_rate: 22050, samples: vec![seed, seed + 1, seed + 2] }
}

fn fresh() -> Session {
    Session::new(String::from("http://radio.example/live"), Token::new())
}

fn live(events: Vec<Event>) -> Vec<(bool, Event)> {
    events.into_iter().map(|event| (false, event)).collect()
}

fn clean_stream() -> Vec<Event> {
    vec![
        Event::Play,
        Event::Opened,
        Event::Chunk(vec![1, 2]),
        Event::Block(block(10)),
        Event::Rendered,
        Event::Block(block(20)),
        Event::Rendered,
        Event::NeedMore,
        Event::Chunk(vec![3]),
        Event::NeedMore,
        Event::EndOfStream,
        Event::Block(block(30)),
        Event::Rendered,
        Event::NeedMore,
    ]
}

fn releases(actions: &[Action]) -> usize {
    actions.iter().filter(|action| matches!(action, Action::Finish(_))).count()
}

#[test]
fn an_empty_run_changes_nothing() {
    let mut session = fresh();
    assert_eq!(session.replay(Vec::new()), Vec::new());
    assert_eq!(session.phase(), Phase::Idle);
}

#[test]
fn a_clean_run_answers_each_report_and_completes() {
    let mut session = fresh();
    let actions = session.replay(live(clean_stream()));
    assert_eq!(
        actions,
        vec![
            Action::Open(String::from("http://radio.example/live")),
            Action::Read,
            Action::Decode(Input::Chunk(vec![1, 2])),
            Action::Render(block(10)),
            Action::Decode(Input::Buffered),
            Action::Render(block(20)),
            Action::Decode(Input::Buffered),
            Action::Read,
            Action::Decode(Input::Chunk(vec![3])),
            Action::Read,
            Action::Decode(Input::End),
            Action::Render(block(30)),
            Action::Decode(Input::Buffered),
            Action::Finish(Ok(())),
        ]
    );
    assert_eq!(session.state(), SessionState::Completed);
    assert_eq!(session.outcome(), Some(Ok(())));
    assert_eq!(releases(&actions), 1);
}

#[test]
fn a_run_in_pieces_is_the_run_as_a_whole() {
    let mut whole = fresh();
    let all = whole.replay(live(clean_stream()));
    let mut pieces = fresh();
    let mut events = clean_stream();
    let tail = events.split_off(5);
    let mut answers = pieces.replay(live(events));
    assert_eq!(pieces.phase(), Phase::Decoding { source_ended: false });
    assert_eq!(releases(&answers), 0);
    answers.extend(pieces.replay(live(tail)));
    assert_eq!(answers, all);
    assert_eq!(pieces.phase(), whole.phase());
}

#[test]
fn the_token_fired_in_the_middle_of_a_run_ends_it_there() {
    let mut reports = live(clean_stream());
    reports[6].0 = true;
    for report in reports.iter_mut().skip(7) {
        report.0 = true;
    }
    let mut session = fresh();
    let actions = session.replay(reports);
    assert_eq!(actions[5], Action::Render(block(20)));
    assert_eq!(actions[6], Action::Finish(Err(Error::Cancelled)));
    assert!(actions[7..].iter().all(|action| *action == Action::Nothing));
    assert_eq!(session.state(), SessionState::Cancelled);
    assert_eq!(releases(&actions), 1);
}

#[test]
fn a_failure_in_the_middle_of_a_run_ends_it_there() {
    let mut events = clean_stream();
    events[5] = Event::DecodeFailed(DecodeError::Corrupt);
    let mut session = fresh();
    let actions = session.replay(live(events));
    assert_eq!(actions[5], Action::Finish(Err(Error::DecodeError(DecodeError::Corrupt))));
    assert!(actions[6..].iter().all(|action| *action == Action::Nothing));
    assert_eq!(session.state(), SessionState::Failed);
    assert_eq!(releases(&actions), 1);
}

#[test]
fn a_run_that_never_opens_gives_the_decoder_nothing() {
    let mut session = fresh();
    let actions = session.replay(live(vec![
        Event::Play,
        Event::Chunk(vec![1]),
        Event::Block(block(1)),
        Event::Rendered,
        Event::SourceFailed(StreamError::Status(500)),
        Event::Chunk(vec![2]),
    ]));
    assert_eq!(session.outcome(), Some(Err(Error::ConnectError(StreamError::Status(500)))));
    assert!(actions.iter().all(|action| !matches!(action, Action::Decode(_) | Action::Render(_))));
    assert_eq!(releases(&actions), 1);
}

#[test]
fn a_run_that_has_not_ended_has_released_nothing() {
    let mut events = clean_stream();
    events.truncate(11);
    let mut session = fresh();
    let actions = session.replay(live(events));
    assert_eq!(session.state(), SessionState::Streaming);
    assert_eq!(releases(&actions), 0);
}
