//! The controller behind the player's windows.
//!
//! It owns the list of stations, the volume, the token of the current
//! session and the state of the dialog in which a station is added. Each
//! message from the user interface changes that state and yields a
//! [`Command`] for the shell to carry out: the controller itself opens no
//! window, writes no file and starts no background work.

use crate::error::Error;
use crate::sink::Gain;
use crate::station::{station_views, Station, StationView};
use crate::token::{Token, TokenView};
use tokio_util::sync::CancellationToken;
use vstd::prelude::*;

verus! {

/// The identity of a window.
#[derive(Clone, Copy, Debug, PartialEq, Eq, Structural)]
pub struct WindowId(pub u64);

/// What a window shows.
#[derive(Clone, Copy, Debug, PartialEq, Eq, Structural)]
pub enum Screen {
    /// The list of stations and the playback controls.
    Player,
    /// The form in which a station is added.
    AddStation,
    /// Nothing: the window is not one of the controller's.
    Blank,
}

/// A message from the user interface or from a finished session.
#[derive(Debug, PartialEq, Eq)]
pub enum Message {
    /// Play the stream at this address.
    Play(String),
    /// Stop playback.
    Stop,
    /// A session has ended with this result.
    Stopped(Result<(), Error>),
    /// The volume control was moved.
    VolumeChanged(Gain),
    /// The dialog for adding a station was asked for.
    AddStationDialog,
    WindowOpened(WindowId),
    WindowClosed(WindowId),
    /// The name in the dialog was edited.
    StationNameChanged(String),
    /// The address in the dialog was edited.
    StationUrlChanged(String),
    /// The dialog was confirmed.
    AddNewStation,
    /// The station at this index is to be deleted.
    DeleteStation(usize),
}

/// The contents of a [`Message`].
pub enum MessageView {
    Play(Seq<char>),
    Stop,
    Stopped(Result<(), Error>),
    VolumeChanged(nat),
    AddStationDialog,
    WindowOpened(WindowId),
    WindowClosed(WindowId),
    StationNameChanged(Seq<char>),
    StationUrlChanged(Seq<char>),
    AddNewStation,
    DeleteStation(int),
}

impl View for Message {
    type V = MessageView;

    open spec fn view(&self) -> MessageView {
        match self {
            Message::Play(url) => MessageView::Play(url@),
            Message::Stop => MessageView::Stop,
            Message::Stopped(result) => MessageView::Stopped(*result),
            Message::VolumeChanged(gain) => MessageView::VolumeChanged(gain.value()),
            Message::AddStationDialog => MessageView::AddStationDialog,
            Message::WindowOpened(id) => MessageView::WindowOpened(*id),
            Message::WindowClosed(id) => MessageView::WindowClosed(*id),
            Message::StationNameChanged(name) => MessageView::StationNameChanged(name@),
            Message::StationUrlChanged(url) => MessageView::StationUrlChanged(url@),
            Message::AddNewStation => MessageView::AddNewStation,
            Message::DeleteStation(index) => MessageView::DeleteStation(*index as int),
        }
    }
}

/// What the shell is to do after a message.
#[derive(Debug)]
pub enum Command {
    Nothing,
    /// Start a session for the stream at `url` in the background, bound to
    /// `token`.
    Play { url: String, token: Token },
    /// Make the sink use this gain from now on.
    SetGain(Gain),
    /// Open the dialog for adding a station and report its window with
    /// [`Radio::dialog_opened`].
    OpenDialog,
    /// Write the list of stations to disk.
    Save,
    /// Write the list of stations to disk and close this window.
    SaveAndClose(WindowId),
    /// Leave the program.
    Exit,
}

/// The contents of a [`Command`].
pub enum CommandView {
    Nothing,
    Play(Seq<char>, TokenView),
    SetGain(nat),
    OpenDialog,
    Save,
    SaveAndClose(WindowId),
    Exit,
}

impl View for Command {
    type V = CommandView;

    open spec fn view(&self) -> CommandView {
        match self {
            Command::Nothing => CommandView::Nothing,
            Command::Play { url, token } => CommandView::Play(url@, token@),
            Command::SetGain(gain) => CommandView::SetGain(gain.value()),
            Command::OpenDialog => CommandView::OpenDialog,
            Command::Save => CommandView::Save,
            Command::SaveAndClose(id) => CommandView::SaveAndClose(*id),
            Command::Exit => CommandView::Exit,
        }
    }
}

/// The state of the controller.
pub struct Radio {
    pub stations: Vec<Station>,
    pub volume: Gain,
    /// The token of the current session, or of none if nothing was played
    /// since the last stop.
    pub token: Token,
    pub main_window: WindowId,
    /// The window of the dialog for adding a station, while it is open.
    pub dialog_window: Option<WindowId>,
    pub new_station_name: String,
    pub new_station_url: String,
    /// The tokens of the sessions that were superseded, oldest first.
    pub retired: Ghost<Seq<Token>>,
}

/// The contents of a [`Radio`].
pub struct RadioView {
    pub stations: Seq<StationView>,
    /// The volume in hundredths.
    pub volume: nat,
    /// The current token.
    pub token: TokenView,
    /// The tokens that were superseded, oldest first.
    pub retired: Seq<TokenView>,
    pub main_window: WindowId,
    pub dialog_window: Option<WindowId>,
    pub new_station_name: Seq<char>,
    pub new_station_url: Seq<char>,
}

impl View for Radio {
    type V = RadioView;

    open spec fn view(&self) -> RadioView {
        RadioView {
            stations: station_views(self.stations@),
            volume: self.volume.value(),
            token: self.token@,
            retired: Seq::new(self.retired@.len(), |i: int| self.retired@[i]@),
            main_window: self.main_window,
            dialog_window: self.dialog_window,
            new_station_name: self.new_station_name@,
            new_station_url: self.new_station_url@,
        }
    }
}

impl RadioView {
    /// Whether the controller can take `message`: a station to delete must
    /// exist, and a station can be added only from the open dialog.
    pub open spec fn accepts(self, message: MessageView) -> bool {
        match message {
            MessageView::DeleteStation(index) => 0 <= index < self.stations.len(),
            MessageView::AddNewStation => self.new_station_name.len() > 0
                && self.new_station_url.len() > 0 ==> self.dialog_window is Some,
            _ => true,
        }
    }

    /// The controller with cancellation requested through its token, which
    /// stays on its flag.
    pub open spec fn stopped(self) -> RadioView {
        RadioView { token: TokenView { flag: self.token.flag, requested: true }, ..self }
    }

    /// The controller after `message`, and the command for the shell.
    /// `minted` is the flag that is made for the new session if the message
    /// is a play request; it has no part in any other message.
    ///
    /// Playing a station requests cancellation through the current token,
    /// retires it and binds the controller to a token on the new flag,
    /// through which nothing has been requested; the command carries a share
    /// of that token. Stopping, and closing the main window, request
    /// cancellation through the current token. Every message but a play
    /// request leaves the controller on its flag.
    pub open spec fn update(self, message: MessageView, minted: CancellationToken) -> (
        RadioView,
        CommandView,
    ) {
        match message {
            MessageView::Play(url) => {
                let token = TokenView { flag: minted, requested: false };
                (
                    RadioView { token, retired: self.retired.push(self.stopped().token), ..self },
                    CommandView::Play(url, token),
                )
            },
            MessageView::Stop => (self.stopped(), CommandView::Nothing),
            MessageView::Stopped(_) => (self, CommandView::Nothing),
            MessageView::VolumeChanged(gain) => (
                RadioView { volume: gain, ..self },
                CommandView::SetGain(gain),
            ),
            MessageView::AddStationDialog => if self.dialog_window is None {
                (self, CommandView::OpenDialog)
            } else {
                (self, CommandView::Nothing)
            },
            MessageView::WindowOpened(_) => (self, CommandView::Nothing),
            MessageView::WindowClosed(id) => if id == self.main_window {
                (self.stopped(), CommandView::Exit)
            } else {
                (
                    RadioView {
                        dialog_window: None,
                        new_station_name: Seq::empty(),
                        new_station_url: Seq::empty(),
                        ..self
                    },
                    CommandView::Nothing,
                )
            },
            MessageView::StationNameChanged(name) => (
                RadioView { new_station_name: name, ..self },
                CommandView::Nothing,
            ),
            MessageView::StationUrlChanged(url) => (
                RadioView { new_station_url: url, ..self },
                CommandView::Nothing,
            ),
            MessageView::AddNewStation => if self.new_station_name.len() == 0
                || self.new_station_url.len() == 0 {
                (self, CommandView::Nothing)
            } else {
                (
                    RadioView {
                        stations: self.stations.push(
                            StationView { name: self.new_station_name, url: self.new_station_url },
                        ),
                        dialog_window: None,
                        ..self
                    },
                    CommandView::SaveAndClose(self.dialog_window.unwrap()),
                )
            },
            MessageView::DeleteStation(index) => (
                RadioView { stations: self.stations.remove(index), ..self },
                CommandView::Save,
            ),
        }
    }

    /// What the window `window` shows.
    pub open spec fn screen(self, window: WindowId) -> Screen {
        if window == self.main_window {
            Screen::Player
        } else if self.dialog_window == Some(window) {
            Screen::AddStation
        } else {
            Screen::Blank
        }
    }
}

impl Radio {
    /// The controller at start: the stations that were loaded, full volume, a
    /// token of its own, no dialog and empty fields.
    pub fn new(stations: Vec<Station>, main_window: WindowId) -> (radio: Radio)
        ensures
            radio@ == (RadioView {
                stations: station_views(stations@),
                volume: 100,
                token: TokenView { flag: radio.token.flag(), requested: false },
                retired: Seq::empty(),
                main_window,
                dialog_window: None,
                new_station_name: Seq::empty(),
                new_station_url: Seq::empty(),
            }),
    {
        let radio = Radio {
            stations,
            volume: Gain::full(),
            token: Token::new(),
            main_window,
            dialog_window: None,
            new_station_name: String::new(),
            new_station_url: String::new(),
            retired: Ghost(Seq::empty()),
        };
        assert(radio@.retired =~= Seq::empty());
        radio
    }

    /// Whether the controller can take `message`.
    pub fn accepts(&self, message: &Message) -> (accepted: bool)
        ensures
            accepted == self@.accepts(message@),
    {
        match message {
            Message::DeleteStation(index) => *index < self.stations.len(),
            Message::AddNewStation => self.new_station_name.as_str().is_empty()
                || self.new_station_url.as_str().is_empty() || self.dialog_window.is_some(),
            _ => true,
        }
    }

    /// Takes a message that the controller accepts and answers with the
    /// command for the shell.
    pub fn update(&mut self, message: Message) -> (command: Command)
        requires
            old(self)@.accepts(message@),
        ensures
            (final(self)@, command@) == old(self)@.update(message@, final(self).token.flag()),
            message is Play ==> final(self).token.flag() != old(self).token.flag(),
    {
        match message {
            Message::Play(url) => {
                let retired = self.token.supersede();
                self.retired = Ghost(self.retired@.push(retired));
                assert(self@.retired =~= old(self)@.retired.push(old(self)@.stopped().token));
                Command::Play { url, token: self.token.share() }
            },
            Message::Stop => {
                self.token.cancel();
                Command::Nothing
            },
            Message::Stopped(_) => Command::Nothing,
            Message::VolumeChanged(gain) => {
                self.volume = gain;
                Command::SetGain(gain)
            },
            Message::AddStationDialog => {
                if self.dialog_window.is_none() {
                    Command::OpenDialog
                } else {
                    Command::Nothing
                }
            },
            Message::WindowOpened(_) => Command::Nothing,
            Message::WindowClosed(id) => {
                if id == self.main_window {
                    self.token.cancel();
                    Command::Exit
                } else {
                    self.new_station_name = String::new();
                    self.new_station_url = String::new();
                    self.dialog_window = None;
                    Command::Nothing
                }
            },
            Message::StationNameChanged(name) => {
                self.new_station_name = name;
                Command::Nothing
            },
            Message::StationUrlChanged(url) => {
                self.new_station_url = url;
                Command::Nothing
            },
            Message::AddNewStation => {
                if self.new_station_name.as_str().is_empty() || self.new_station_url.as_str().is_empty() {
                    Command::Nothing
                } else {
                    let dialog = self.dialog_window.unwrap();
                    let station = Station {
                        name: self.new_station_name.clone(),
                        url: self.new_station_url.clone(),
                    };
                    self.stations.push(station);
                    self.dialog_window = None;
                    assert(station_views(self.stations@) =~= station_views(old(self).stations@).push(
                        station@,
                    ));
                    Command::SaveAndClose(dialog)
                }
            },
            Message::DeleteStation(index) => {
                let _removed = self.stations.remove(index);
                assert(station_views(self.stations@) =~= station_views(old(self).stations@).remove(
                    index as int,
                ));
                Command::Save
            },
        }
    }

    /// Records the window in which the dialog for adding a station was
    /// opened.
    pub fn dialog_opened(&mut self, window: WindowId)
        ensures
            final(self)@ == (RadioView { dialog_window: Some(window), ..old(self)@ }),
    {
        self.dialog_window = Some(window);
    }

    /// Whether there is any station to list.
    pub fn has_stations(&self) -> (any: bool)
        ensures
            any == (self@.stations.len() > 0),
    {
        self.stations.len() > 0
    }

    /// What the window `window` shows: the player in the main window, the
    /// form in the dialog, nothing anywhere else.
    pub fn screen(&self, window: WindowId) -> (screen: Screen)
        ensures
            screen == self@.screen(window),
    {
        if window == self.main_window {
            Screen::Player
        } else {
            match self.dialog_window {
                Some(dialog) => if dialog == window {
                    Screen::AddStation
                } else {
                    Screen::Blank
                },
                None => Screen::Blank,
            }
        }
    }
}

} // verus!
