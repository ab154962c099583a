use radio::radio::{Command, Message, Radio, Screen, WindowId};
use radio::session::{Action, Event, Session, SessionState};
use radio::sink::Gain;
use radio::station::Station;
use radio::{DecodeError, Error};

const MAIN: WindowId = WindowId(1);
const DIALOG: WindowId = WindowId(2);

fn station(name: &str, url: &str) -> Station {
    Station { name: String::from(name), url: String::from(url) }
}

fn two_stations() -> Radio {
    Radio::new(
        vec![
            station("World Service", "http://stream.example/world"),
            station("LoFi", "http://stream.example/lofi"),
        ],
        MAIN,
    )
}

#[test]
fn a_new_controller_is_at_full_volume_with_a_live_token() {
    let radio = two_stations();
    assert_eq!(radio.stations.len(), 2);
    assert_eq!(radio.volume, Gain::full());
    assert_eq!(radio.volume.hundredths(), 100);
    assert!(!radio.token.is_cancelled());
    assert_eq!(radio.main_window, MAIN);
    assert_eq!(radio.dialog_window, None);
    assert_eq!(radio.new_station_name, "");
    assert_eq!(radio.new_station_url, "");
}

#[test]
fn play_hands_out_the_address_and_a_live_token() {
    let mut radio = two_stations();
    match radio.update(Message::Play(String::from("http://stream.example/world"))) {
        Command::Play { url, token } => {
            assert_eq!(url, "http://stream.example/world");
            assert!(!token.is_cancelled());
            assert!(token.shared() == radio.token.shared());
        }
        other => panic!("unexpected command {:?}", other),
    }
    assert!(!radio.token.is_cancelled());
}

#[test]
fn stop_cancels_the_current_session() {
    let mut radio = two_stations();
    let session_token = match radio.update(Message::Play(String::from("http://stream.example/world"))) {
        Command::Play { token, .. } => token,
        other => panic!("unexpected command {:?}", other),
    };
    assert!(matches!(radio.update(Message::Stop), Command::Nothing));
    assert!(session_token.is_cancelled());
    assert!(radio.token.is_cancelled());
}

#[test]
fn stopping_twice_is_stopping_once() {
    let mut radio = two_stations();
    let session_token = match radio.update(Message::Play(String::from("http://stream.example/lofi"))) {
        Command::Play { token, .. } => token,
        other => panic!("unexpected command {:?}", other),
    };
    assert!(matches!(radio.update(Message::Stop), Command::Nothing));
    assert!(matches!(radio.update(Message::Stop), Command::Nothing));
    assert!(session_token.is_cancelled());
    assert_eq!(radio.stations.len(), 2);
    assert_eq!(radio.volume, Gain::full());
    assert_eq!(radio.dialog_window, None);
}

#[test]
fn stop_without_a_session_is_harmless() {
    let mut radio = two_stations();
    assert!(matches!(radio.update(Message::Stop), Command::Nothing));
    assert_eq!(radio.stations, vec![
        station("World Service", "http://stream.example/world"),
        station("LoFi", "http://stream.example/lofi"),
    ]);
    match radio.update(Message::Play(String::from("http://stream.example/lofi"))) {
        Command::Play { token, .. } => assert!(!token.is_cancelled()),
        other => panic!("unexpected command {:?}", other),
    }
}

#[test]
fn a_new_play_cancels_exactly_the_previous_session() {
    let mut radio = two_stations();
    let first = match radio.update(Message::Play(String::from("http://stream.example/world"))) {
        Command::Play { token, .. } => token,
        other => panic!("unexpected command {:?}", other),
    };
    let second = match radio.update(Message::Play(String::from("http://stream.example/lofi"))) {
        Command::Play { url, token } => {
            assert_eq!(url, "http://stream.example/lofi");
            token
        }
        other => panic!("unexpected command {:?}", other),
    };
    assert!(first.is_cancelled());
    assert!(!second.is_cancelled());
    assert!(first.shared() != second.shared());
    let third = match radio.update(Message::Play(String::from("http://stream.example/world"))) {
        Command::Play { token, .. } => token,
        other => panic!("unexpected command {:?}", other),
    };
    assert!(first.is_cancelled());
    assert!(second.is_cancelled());
    assert!(!third.is_cancelled());
    assert!(second.shared() != third.shared());
    assert!(first.shared() != third.shared());
}

#[test]
fn a_superseded_session_ends_cancelled_and_the_new_one_runs() {
    let mut radio = two_stations();
    let (first_url, first_token) = match radio.update(Message::Play(String::from("http://stream.example/world"))) {
        Command::Play { url, token } => (url, token),
        other => panic!("unexpected command {:?}", other),
    };
    let mut first = Session::new(first_url, first_token);
    first.advance(Event::Play);
    first.advance(Event::Opened);
    let (second_url, second_token) = match radio.update(Message::Play(String::from("http://stream.example/lofi"))) {
        Command::Play { url, token } => (url, token),
        other => panic!("unexpected command {:?}", other),
    };
    let mut second = Session::new(second_url, second_token);
    assert_eq!(second.advance(Event::Play), Action::Open(String::from("http://stream.example/lofi")));
    assert_eq!(first.advance(Event::Chunk(vec![1, 2, 3])), Action::Finish(Err(Error::Cancelled)));
    assert_eq!(first.state(), SessionState::Cancelled);
    assert_eq!(second.advance(Event::Opened), Action::Read);
    assert_eq!(second.state(), SessionState::Streaming);
}

#[test]
fn a_finished_session_changes_nothing() {
    let mut radio = two_stations();
    let token = match radio.update(Message::Play(String::from("http://stream.example/world"))) {
        Command::Play { token, .. } => token,
        other => panic!("unexpected command {:?}", other),
    };
    assert!(matches!(radio.update(Message::Stopped(Ok(()))), Command::Nothing));
    assert!(matches!(radio.update(Message::Stopped(Err(Error::Cancelled))), Command::Nothing));
    assert!(matches!(
        radio.update(Message::Stopped(Err(Error::DecodeError(DecodeError::Corrupt)))),
        Command::Nothing
    ));
    assert!(!token.is_cancelled());
    assert_eq!(radio.stations.len(), 2);
    match radio.update(Message::Play(String::from("http://stream.example/world"))) {
        Command::Play { token, .. } => assert!(!token.is_cancelled()),
        other => panic!("unexpected command {:?}", other),
    }
}

#[test]
fn the_volume_follows_the_control() {
    let mut radio = two_stations();
    let token = match radio.update(Message::Play(String::from("http://stream.example/world"))) {
        Command::Play { token, .. } => token,
        other => panic!("unexpected command {:?}", other),
    };
    let quiet = Gain::new(35).unwrap();
    match radio.update(Message::VolumeChanged(quiet)) {
        Command::SetGain(gain) => assert_eq!(gain, quiet),
        other => panic!("unexpected command {:?}", other),
    }
    assert_eq!(radio.volume, quiet);
    assert_eq!(radio.volume.hundredths(), 35);
    assert!(!token.is_cancelled());
    assert!(matches!(radio.update(Message::VolumeChanged(Gain::silent())), Command::SetGain(_)));
    assert_eq!(radio.volume.hundredths(), 0);
}

#[test]
fn the_dialog_opens_once() {
    let mut radio = two_stations();
    assert!(matches!(radio.update(Message::AddStationDialog), Command::OpenDialog));
    assert_eq!(radio.dialog_window, None);
    radio.dialog_opened(DIALOG);
    assert_eq!(radio.dialog_window, Some(DIALOG));
    assert!(matches!(radio.update(Message::AddStationDialog), Command::Nothing));
    assert!(matches!(radio.update(Message::WindowOpened(DIALOG)), Command::Nothing));
    assert_eq!(radio.dialog_window, Some(DIALOG));
}

#[test]
fn the_fields_of_the_dialog_follow_the_input() {
    let mut radio = two_stations();
    assert!(matches!(radio.update(Message::StationNameChanged(String::from("Jazz"))), Command::Nothing));
    assert!(matches!(
        radio.update(Message::StationUrlChanged(String::from("http://stream.example/jazz"))),
        Command::Nothing
    ));
    assert_eq!(radio.new_station_name, "Jazz");
    assert_eq!(radio.new_station_url, "http://stream.example/jazz");
}

#[test]
fn a_station_is_added_from_the_dialog() {
    let mut radio = two_stations();
    radio.update(Message::AddStationDialog);
    radio.dialog_opened(DIALOG);
    radio.update(Message::StationNameChanged(String::from("Jazz")));
    radio.update(Message::StationUrlChanged(String::from("http://stream.example/jazz")));
    match radio.update(Message::AddNewStation) {
        Command::SaveAndClose(window) => assert_eq!(window, DIALOG),
        other => panic!("unexpected command {:?}", other),
    }
    assert_eq!(radio.stations.len(), 3);
    assert_eq!(radio.stations[2], station("Jazz", "http://stream.example/jazz"));
    assert_eq!(radio.stations[0], station("World Service", "http://stream.example/world"));
    assert_eq!(radio.dialog_window, None);
    assert_eq!(radio.new_station_name, "Jazz");
    assert!(matches!(radio.update(Message::WindowClosed(DIALOG)), Command::Nothing));
    assert_eq!(radio.new_station_name, "");
    assert_eq!(radio.new_station_url, "");
}

#[test]
fn a_station_without_name_or_address_is_not_added() {
    let mut radio = two_stations();
    radio.update(Message::AddStationDialog);
    radio.dialog_opened(DIALOG);
    assert!(matches!(radio.update(Message::AddNewStation), Command::Nothing));
    radio.update(Message::StationNameChanged(String::from("Jazz")));
    assert!(matches!(radio.update(Message::AddNewStation), Command::Nothing));
    radio.update(Message::StationNameChanged(String::new()));
    radio.update(Message::StationUrlChanged(String::from("http://stream.example/jazz")));
    assert!(matches!(radio.update(Message::AddNewStation), Command::Nothing));
    assert_eq!(radio.stations.len(), 2);
    assert_eq!(radio.dialog_window, Some(DIALOG));
}

#[test]
fn a_station_is_deleted_by_its_index() {
    let mut radio = two_stations();
    assert!(matches!(radio.update(Message::DeleteStation(0)), Command::Save));
    assert_eq!(radio.stations, vec![station("LoFi", "http://stream.example/lofi")]);
    assert!(matches!(radio.update(Message::DeleteStation(0)), Command::Save));
    assert!(radio.stations.is_empty());
    assert!(!radio.has_stations());
}

#[test]
fn closing_the_dialog_clears_it() {
    let mut radio = two_stations();
    radio.update(Message::AddStationDialog);
    radio.dialog_opened(DIALOG);
    radio.update(Message::StationNameChanged(String::from("Jazz")));
    radio.update(Message::StationUrlChanged(String::from("http://stream.example/jazz")));
    assert!(matches!(radio.update(Message::WindowClosed(DIALOG)), Command::Nothing));
    assert_eq!(radio.dialog_window, None);
    assert_eq!(radio.new_station_name, "");
    assert_eq!(radio.new_station_url, "");
    assert!(!radio.token.is_cancelled());
    assert!(matches!(radio.update(Message::AddStationDialog), Command::OpenDialog));
}

#[test]
fn closing_the_main_window_stops_playback_and_exits() {
    let mut radio = two_stations();
    let token = match radio.update(Message::Play(String::from("http://stream.example/world"))) {
        Command::Play { token, .. } => token,
        other => panic!("unexpected command {:?}", other),
    };
    assert!(matches!(radio.update(Message::WindowClosed(MAIN)), Command::Exit));
    assert!(token.is_cancelled());
    assert_eq!(radio.stations.len(), 2);
}

#[test]
fn each_window_shows_its_screen() {
    let mut radio = two_stations();
    assert_eq!(radio.screen(MAIN), Screen::Player);
    assert_eq!(radio.screen(DIALOG), Screen::Blank);
    radio.dialog_opened(DIALOG);
    assert_eq!(radio.screen(MAIN), Screen::Player);
    assert_eq!(radio.screen(DIALOG), Screen::AddStation);
    assert_eq!(radio.screen(WindowId(3)), Screen::Blank);
    radio.update(Message::WindowClosed(DIALOG));
    assert_eq!(radio.screen(DIALOG), Screen::Blank);
    assert!(radio.has_stations());
    assert!(!Radio::new(Vec::new(), MAIN).has_stations());
}

#[test]
fn the_controller_says_what_it_accepts() {
    let mut radio = two_stations();
    assert!(radio.accepts(&Message::DeleteStation(0)));
    assert!(radio.accepts(&Message::DeleteStation(1)));
    assert!(!radio.accepts(&Message::DeleteStation(2)));
    assert!(!radio.accepts(&Message::DeleteStation(usize::MAX)));
    assert!(radio.accepts(&Message::AddNewStation));
    assert!(radio.accepts(&Message::Play(String::new())));
    assert!(radio.accepts(&Message::Stop));
    radio.update(Message::StationNameChanged(String::from("Jazz")));
    assert!(radio.accepts(&Message::AddNewStation));
    radio.update(Message::StationUrlChanged(String::from("http://stream.example/jazz")));
    assert!(!radio.accepts(&Message::AddNewStation));
    radio.dialog_opened(DIALOG);
    assert!(radio.accepts(&Message::AddNewStation));
    assert!(radio.accepts(&Message::WindowClosed(WindowId(99))));
    assert!(radio.accepts(&Message::VolumeChanged(Gain::silent())));
}

#[test]
fn every_message_but_play_leaves_the_controller_on_its_token() {
    let mut radio = two_stations();
    let session = match radio.update(Message::Play(String::from("http://stream.example/world"))) {
        Command::Play { token, .. } => token,
        other => panic!("unexpected command {:?}", other),
    };
    let flag = radio.token.shared().clone();
    radio.update(Message::VolumeChanged(Gain::new(50).unwrap()));
    radio.update(Message::Stopped(Ok(())));
    radio.update(Message::AddStationDialog);
    radio.dialog_opened(DIALOG);
    radio.update(Message::StationNameChanged(String::from("Jazz")));
    radio.update(Message::StationUrlChanged(String::from("http://stream.example/jazz")));
    radio.update(Message::AddNewStation);
    radio.update(Message::WindowClosed(DIALOG));
    radio.update(Message::WindowOpened(DIALOG));
    radio.update(Message::DeleteStation(0));
    assert!(radio.token.shared() == &flag);
    assert!(session.shared() == &flag);
    assert!(!session.is_cancelled());
    radio.update(Message::Stop);
    assert!(radio.token.shared() == &flag);
    assert!(session.is_cancelled());
    radio.update(Message::Stop);
    assert!(radio.token.shared() == &flag);
    radio.update(Message::WindowClosed(MAIN));
    assert!(radio.token.shared() == &flag);
}
