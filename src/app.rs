use crate::player::{PlaybackEvent, Player, PlayerState};
use crate::station::{EditField, Key, Mode, Station};
use crate::store::{encode_stations, table_bytes};
use vstd::prelude::*;

verus! {

/// What the surrounding program has to do after a key press.
#[derive(Clone, Debug)]
pub enum Action {
    Nothing,
    /// Load this stream on the playback backend, then report whether it
    /// accepted the command to `Player::play`.
    Play(String),
    /// Stop the playback backend, then report whether it accepted the
    /// command to `App::stop`.
    Stop,
    /// Open an empty draft form.
    ClearDraft,
    /// Open the draft form filled with this station.
    FillDraft(Station),
    /// Hand the key to the text field that has the focus.
    EditText,
    /// The station list changed: write it out (see `App::save_stations`).
    Save,
}

/// The application state as a value.
pub struct AppView {
    pub stations: Seq<Station>,
    pub player: Player,
    pub current_station: Option<usize>,
    pub mode: Mode,
    pub edit_field: EditField,
    pub selected: Option<usize>,
}

impl AppView {
    /// The selection is set exactly when there are stations, and the
    /// selection and the playing station both point into the list.
    pub open spec fn wf(self) -> bool {
        &&& (self.selected is None <==> self.stations.len() == 0)
        &&& (self.selected matches Some(i) ==> i < self.stations.len())
        &&& (self.current_station matches Some(c) ==> c < self.stations.len())
    }

    /// The selection moved up by one, stopping at the first station.
    pub open spec fn selected_previous(self) -> AppView {
        AppView {
            selected: match self.selected {
                Some(i) => Some(if i == 0 { 0usize } else { (i - 1) as usize }),
                None => None,
            },
            ..self
        }
    }

    /// The selection moved down by one, stopping at the last station.
    pub open spec fn selected_next(self) -> AppView {
        AppView {
            selected: match self.selected {
                Some(i) => Some(if i + 1 < self.stations.len() { (i + 1) as usize } else { i }),
                None => None,
            },
            ..self
        }
    }

    /// A station added at the end; it becomes selected when it is the only one.
    pub open spec fn with_appended(self, s: Station) -> AppView {
        AppView {
            stations: self.stations.push(s),
            selected: match self.selected {
                None => Some(0usize),
                Some(i) => Some(i),
            },
            ..self
        }
    }

    /// The station at `i` replaced, where there is one.
    pub open spec fn with_replaced(self, i: usize, s: Station) -> AppView {
        if i < self.stations.len() {
            AppView { stations: self.stations.update(i as int, s), ..self }
        } else {
            self
        }
    }

    /// The station at `i` removed, where there is one. The selection keeps
    /// to the same station, or to the one now at `i` (the last one, when
    /// `i` was last) where the selected one went; the playing station is
    /// followed too, and forgotten where it went.
    pub open spec fn with_removed(self, i: usize) -> AppView {
        if i < self.stations.len() {
            let len = self.stations.len() - 1;
            AppView {
                stations: self.stations.remove(i as int),
                selected: match self.selected {
                    Some(s) => if s == i {
                        if len == 0 {
                            None
                        } else if i < len {
                            Some(i)
                        } else {
                            Some((len - 1) as usize)
                        }
                    } else if s > i {
                        Some((s - 1) as usize)
                    } else {
                        Some(s)
                    },
                    None => None,
                },
                current_station: match self.current_station {
                    Some(c) => if c == i {
                        None
                    } else if c > i {
                        Some((c - 1) as usize)
                    } else {
                        Some(c)
                    },
                    None => None,
                },
                ..self
            }
        } else {
            self
        }
    }

    /// The stations at `i` and `j` exchanged, where both exist; the playing
    /// station is followed to its new place.
    pub open spec fn with_swapped(self, i: usize, j: usize) -> AppView {
        if i < self.stations.len() && j < self.stations.len() {
            AppView {
                stations: self.stations.update(i as int, self.stations[j as int]).update(
                    j as int,
                    self.stations[i as int],
                ),
                current_station: match self.current_station {
                    Some(c) => if c == i {
                        Some(j)
                    } else if c == j {
                        Some(i)
                    } else {
                        Some(c)
                    },
                    None => None,
                },
                ..self
            }
        } else {
            self
        }
    }

    /// The station at `i` marked as the one playing, where there is one.
    pub open spec fn with_playing(self, i: usize) -> AppView {
        if i < self.stations.len() {
            AppView { current_station: Some(i), ..self }
        } else {
            self
        }
    }

    pub open spec fn with_mode(self, mode: Mode) -> AppView {
        AppView { mode, ..self }
    }

    /// A key pressed in the normal mode.
    pub open spec fn normal_step(self, key: Key) -> (AppView, Action) {
        if key == Key::Up || key == Key::Char('k') {
            (self.selected_previous(), Action::Nothing)
        } else if key == Key::Down || key == Key::Char('j') {
            (self.selected_next(), Action::Nothing)
        } else if key == Key::Char(' ') {
            (self, Action::Stop)
        } else if key == Key::Char('q') {
            (self.with_mode(Mode::Exit), Action::Nothing)
        } else if key == Key::Char('n') {
            (AppView { mode: Mode::Add, edit_field: EditField::Name, ..self }, Action::ClearDraft)
        } else {
            match self.selected {
                Some(i) => if i >= self.stations.len() {
                    (self, Action::Nothing)
                } else if key == Key::Enter {
                    (self.with_playing(i), Action::Play(self.stations[i as int].url))
                } else if key == Key::Char('e') {
                    (
                        AppView { mode: Mode::Edit(i), edit_field: EditField::Name, ..self },
                        Action::FillDraft(self.stations[i as int]),
                    )
                } else if key == Key::Char('d') {
                    (self.with_mode(Mode::Delete(i)), Action::Nothing)
                } else {
                    (self, Action::Nothing)
                },
                None => (self, Action::Nothing),
            }
        }
    }

    /// A key pressed while a draft is open, with the draft's texts.
    pub open spec fn edit_step(self, key: Key, name: String, url: String) -> (AppView, Action) {
        if key == Key::Enter {
            match self.mode {
                Mode::Add => (
                    self.with_appended(Station { name, url }).with_mode(Mode::Normal),
                    Action::Save,
                ),
                Mode::Edit(i) => if i < self.stations.len() {
                    (self.with_replaced(i, Station { name, url }).with_mode(Mode::Normal), Action::Save)
                } else {
                    (self.with_mode(Mode::Normal), Action::Nothing)
                },
                _ => (self.with_mode(Mode::Normal), Action::Nothing),
            }
        } else if key == Key::Tab {
            (AppView { edit_field: self.edit_field.toggled(), ..self }, Action::Nothing)
        } else if key == Key::Esc {
            (self.with_mode(Mode::Normal), Action::Nothing)
        } else {
            (self, Action::EditText)
        }
    }

    /// A key pressed while a deletion waits for confirmation.
    pub open spec fn delete_step(self, key: Key) -> (AppView, Action) {
        if key == Key::Esc {
            (self.with_mode(Mode::Normal), Action::Nothing)
        } else if key == Key::Enter {
            match self.mode {
                Mode::Delete(i) => if i < self.stations.len() {
                    (self.with_removed(i).with_mode(Mode::Normal), Action::Save)
                } else {
                    (self.with_mode(Mode::Normal), Action::Nothing)
                },
                _ => (self.with_mode(Mode::Normal), Action::Nothing),
            }
        } else {
            (self, Action::Nothing)
        }
    }

    /// A key pressed in the current mode. Nothing leaves `Exit`.
    pub open spec fn step(self, key: Key, name: String, url: String) -> (AppView, Action) {
        match self.mode {
            Mode::Add | Mode::Edit(_) => self.edit_step(key, name, url),
            Mode::Delete(_) => self.delete_step(key),
            Mode::Exit => (self, Action::Nothing),
            Mode::Normal => self.normal_step(key),
        }
    }
}

/// The application state: the station list, the selection, the playback
/// adapter, the station that was last sent to it, and the input mode.
pub struct App {
    pub stations: Vec<Station>,
    pub player: Player,
    pub current_station: Option<usize>,
    pub mode: Mode,
    pub edit_field: EditField,
    pub selected: Option<usize>,
}

impl View for App {
    type V = AppView;

    open spec fn view(&self) -> AppView {
        AppView {
            stations: self.stations@,
            player: self.player,
            current_station: self.current_station,
            mode: self.mode,
            edit_field: self.edit_field,
            selected: self.selected,
        }
    }
}

impl Default for App {
    fn default() -> (r: App)
        ensures
            r@ == (AppView {
                stations: Seq::empty(),
                player: Player { state: PlayerState::Stopped, current_title: None },
                current_station: None,
                mode: Mode::Normal,
                edit_field: EditField::Name,
                selected: None,
            }),
            r@.wf(),
    {
        App::new(Vec::new())
    }
}

impl App {
    /// A fresh state over these stations: the first one selected where there
    /// is one, nothing playing, in the normal mode.
    pub fn new(stations: Vec<Station>) -> (r: App)
        ensures
            r@ == (AppView {
                stations: stations@,
                player: Player { state: PlayerState::Stopped, current_title: None },
                current_station: None,
                mode: Mode::Normal,
                edit_field: EditField::Name,
                selected: if stations@.len() == 0 {
                    None
                } else {
                    Some(0usize)
                },
            }),
            r@.wf(),
    {
        let selected = if stations.len() == 0 {
            None
        } else {
            Some(0)
        };
        App {
            stations,
            player: Player::new(),
            current_station: None,
            mode: Mode::Normal,
            edit_field: EditField::Name,
            selected,
        }
    }

    /// Marks the station at `index` as the one playing and returns its
    /// stream address, for the backend to load; nothing where there is no
    /// such station.
    pub fn change_station(&mut self, index: usize) -> (r: Option<String>)
        ensures
            final(self)@ == old(self)@.with_playing(index),
            r == (if index < old(self)@.stations.len() {
                Some(old(self)@.stations[index as int].url)
            } else {
                None
            }),
    {
        if index < self.stations.len() {
            self.current_station = Some(index);
            Some(self.stations[index].url.clone())
        } else {
            None
        }
    }

    /// Records the outcome of a stop command (see `Player::stop`).
    pub fn stop(&mut self, accepted: bool)
        ensures
            final(self)@ == (AppView {
                player: Player {
                    state: if accepted {
                        PlayerState::Stopped
                    } else {
                        old(self).player.state
                    },
                    ..old(self).player
                },
                ..old(self)@
            }),
    {
        self.player.stop(accepted);
    }

    /// Folds one polled backend event into the playback state (see
    /// `Player::update_status`).
    pub fn update_status(&mut self, event: Option<PlaybackEvent>) -> (r: Option<PlayerState>)
        ensures
            old(self).player.folds(event, final(self).player, r),
            final(self)@ == (AppView { player: final(self).player, ..old(self)@ }),
    {
        self.player.update_status(event)
    }

    /// Replaces the station at `index` with one of this name and address;
    /// tells whether there was one.
    pub fn update_station(&mut self, index: usize, name: String, url: String) -> (r: bool)
        requires
            old(self)@.wf(),
        ensures
            final(self)@ == old(self)@.with_replaced(index, Station { name, url }),
            r == (index < old(self)@.stations.len()),
            final(self)@.wf(),
    {
        if index < self.stations.len() {
            self.stations[index] = Station::new(name, url);
            true
        } else {
            false
        }
    }

    /// Adds a station at the end of the list.
    pub fn add_station(&mut self, station: Station)
        requires
            old(self)@.wf(),
        ensures
            final(self)@ == old(self)@.with_appended(station),
            final(self)@.wf(),
    {
        proof {
            lemma_selection_invariant(self@, station, 0, 0);
        }
        self.stations.push(station);
        if self.selected.is_none() {
            self.selected = Some(0);
        }
    }

    /// Removes the station at `index`, keeping the selection and the playing
    /// station on the stations they pointed to; tells whether there was one.
    pub fn delete_station(&mut self, index: usize) -> (r: bool)
        requires
            old(self)@.wf(),
        ensures
            final(self)@ == old(self)@.with_removed(index),
            r == (index < old(self)@.stations.len()),
            final(self)@.wf(),
    {
        proof {
            lemma_selection_invariant(self@, self.stations@[0], index, 0);
        }
        if index >= self.stations.len() {
            return false;
        }
        self.stations.remove(index);
        let len = self.stations.len();
        self.selected = match self.selected {
            Some(s) => if s == index {
                if len == 0 {
                    None
                } else if index < len {
                    Some(index)
                } else {
                    Some(len - 1)
                }
            } else if s > index {
                Some(s - 1)
            } else {
                Some(s)
            },
            None => None,
        };
        self.current_station = match self.current_station {
            Some(c) => if c == index {
                None
            } else if c > index {
                Some(c - 1)
            } else {
                Some(c)
            },
            None => None,
        };
        true
    }

    /// The station file's contents for the current list (see
    /// `encode_stations`).
    pub fn save_stations(&self) -> (r: Option<Vec<u8>>)
        ensures
            r is Some,
            r matches Some(b) ==> b@ == table_bytes(self@.stations),
    {
        encode_stations(&self.stations)
    }

    /// Whether the backend is playing.
    pub fn is_playing(&self) -> (r: bool)
        ensures
            r == (self.player.state is Playing),
    {
        match self.player.state {
            PlayerState::Playing(_) => true,
            _ => false,
        }
    }

    /// Moves the selection up by one, stopping at the first station.
    pub fn select_previous(&mut self)
        ensures
            final(self)@ == old(self)@.selected_previous(),
    {
        self.selected = match self.selected {
            Some(i) => Some(if i == 0 { 0 } else { i - 1 }),
            None => None,
        };
    }

    /// Moves the selection down by one, stopping at the last station.
    pub fn select_next(&mut self)
        ensures
            final(self)@ == old(self)@.selected_next(),
    {
        let len = self.stations.len();
        self.selected = match self.selected {
            Some(i) => Some(if i < len && i + 1 < len { i + 1 } else { i }),
            None => None,
        };
    }

    /// The selected station's index.
    pub fn selected_index(&self) -> (r: Option<usize>)
        ensures
            r == self.selected,
    {
        self.selected
    }

    /// Exchanges the stations at `index` and `with`, where both exist, and
    /// follows the playing station; tells whether they were swapped.
    pub fn swap_station(&mut self, index: usize, with: usize) -> (r: bool)
        requires
            old(self)@.wf(),
        ensures
            final(self)@ == old(self)@.with_swapped(index, with),
            r == (index < old(self)@.stations.len() && with < old(self)@.stations.len()),
            final(self)@.wf(),
    {
        proof {
            lemma_selection_invariant(self@, self.stations@[0], index, with);
        }
        if index >= self.stations.len() || with >= self.stations.len() {
            return false;
        }
        self.current_station = match self.current_station {
            Some(i) => if i == index {
                Some(with)
            } else if i == with {
                Some(index)
            } else {
                Some(i)
            },
            None => None,
        };
        let a = Station::new(self.stations[index].name.clone(), self.stations[index].url.clone());
        let b = Station::new(self.stations[with].name.clone(), self.stations[with].url.clone());
        self.stations[index] = b;
        self.stations[with] = a;
        true
    }

    /// Interprets a key in the normal mode: up/`k` and down/`j` move the
    /// selection, enter plays the selected station, space stops, `e` edits
    /// and `d` deletes the selected station, `n` adds one, `q` quits.
    pub fn handle_normal_mode(&mut self, key: Key) -> (r: Action)
        requires
            old(self)@.wf(),
        ensures
            (final(self)@, r) == old(self)@.normal_step(key),
            final(self)@.wf(),
    {
        match key {
            Key::Up => {
                self.select_previous();
                Action::Nothing
            },
            Key::Down => {
                self.select_next();
                Action::Nothing
            },
            Key::Char(c) => {
                if c == 'k' {
                    self.select_previous();
                    Action::Nothing
                } else if c == 'j' {
                    self.select_next();
                    Action::Nothing
                } else if c == ' ' {
                    Action::Stop
                } else if c == 'q' {
                    self.mode = Mode::Exit;
                    Action::Nothing
                } else if c == 'n' {
                    self.mode = Mode::Add;
                    self.edit_field = EditField::Name;
                    Action::ClearDraft
                } else if c == 'e' || c == 'd' {
                    match self.selected {
                        Some(i) => if i >= self.stations.len() {
                            Action::Nothing
                        } else if c == 'e' {
                            let s = &self.stations[i];
                            let draft = Station::new(s.name.clone(), s.url.clone());
                            self.mode = Mode::Edit(i);
                            self.edit_field = EditField::Name;
                            Action::FillDraft(draft)
                        } else {
                            self.mode = Mode::Delete(i);
                            Action::Nothing
                        },
                        None => Action::Nothing,
                    }
                } else {
                    Action::Nothing
                }
            },
            Key::Enter => match self.selected {
                Some(i) => match self.change_station(i) {
                    Some(url) => Action::Play(url),
                    None => Action::Nothing,
                },
                None => Action::Nothing,
            },
            _ => Action::Nothing,
        }
    }

    /// Interprets a key while a draft is open; `name` and `url` are the
    /// draft's texts. Enter adds the draft (in `Add`) or puts it in place of
    /// the edited station, where that still exists (in `Edit`), and returns
    /// to the normal mode; tab moves the focus to the other field; escape
    /// returns to the normal mode and drops the draft; any other key goes to
    /// the focused field.
    pub fn handle_edit_mode(&mut self, key: Key, name: String, url: String) -> (r: Action)
        requires
            old(self)@.wf(),
        ensures
            (final(self)@, r) == old(self)@.edit_step(key, name, url),
            final(self)@.wf(),
    {
        proof {
            lemma_selection_invariant(old(self)@, Station { name, url }, 0, 0);
        }
        match key {
            Key::Enter => {
                let r = match self.mode {
                    Mode::Add => {
                        self.add_station(Station::new(name, url));
                        Action::Save
                    },
                    Mode::Edit(i) => {
                        if self.update_station(i, name, url) {
                            Action::Save
                        } else {
                            Action::Nothing
                        }
                    },
                    _ => Action::Nothing,
                };
                self.mode = Mode::Normal;
                r
            },
            Key::Tab => {
                self.edit_field = self.edit_field.toggle();
                Action::Nothing
            },
            Key::Esc => {
                self.mode = Mode::Normal;
                Action::Nothing
            },
            _ => Action::EditText,
        }
    }

    /// Interprets a key while a deletion waits for confirmation: enter
    /// removes the station that the mode names, where it still exists, and
    /// escape keeps it; both return to the normal mode. Other keys are
    /// ignored.
    pub fn handle_delete_mode(&mut self, key: Key) -> (r: Action)
        requires
            old(self)@.wf(),
        ensures
            (final(self)@, r) == old(self)@.delete_step(key),
            final(self)@.wf(),
    {
        match key {
            Key::Esc => {
                self.mode = Mode::Normal;
                Action::Nothing
            },
            Key::Enter => {
                let r = match self.mode {
                    Mode::Delete(i) => {
                        if self.delete_station(i) {
                            Action::Save
                        } else {
                            Action::Nothing
                        }
                    },
                    _ => Action::Nothing,
                };
                self.mode = Mode::Normal;
                r
            },
            _ => Action::Nothing,
        }
    }

    /// Interprets a key in the current mode (see `AppView::step`).
    pub fn handle_key(&mut self, key: Key, name: String, url: String) -> (r: Action)
        requires
            old(self)@.wf(),
        ensures
            (final(self)@, r) == old(self)@.step(key, name, url),
            final(self)@.wf(),
    {
        match self.mode {
            Mode::Add | Mode::Edit(_) => self.handle_edit_mode(key, name, url),
            Mode::Delete(_) => self.handle_delete_mode(key),
            Mode::Exit => Action::Nothing,
            Mode::Normal => self.handle_normal_mode(key),
        }
    }
}

/// Adding, replacing, removing and swapping stations keep the selection
/// set exactly when there are stations, and in range, and keep the playing
/// station in range.
pub proof fn lemma_selection_invariant(v: AppView, s: Station, i: usize, j: usize)
    requires
        v.wf(),
    ensures
        v.with_appended(s).wf(),
        v.with_replaced(i, s).wf(),
        v.with_removed(i).wf(),
        v.with_swapped(i, j).wf(),
{
}

/// Every key press keeps the state well formed.
pub proof fn lemma_step_wf(v: AppView, key: Key, name: String, url: String)
    requires
        v.wf(),
    ensures
        v.step(key, name, url).0.wf(),
{
    lemma_selection_invariant(v, Station { name, url }, 0, 0);
    match v.mode {
        Mode::Edit(i) => lemma_selection_invariant(v, Station { name, url }, i, 0),
        Mode::Delete(i) => lemma_selection_invariant(v, Station { name, url }, i, 0),
        _ => {},
    }
}

/// One key press moves from `Normal` only to `Add`, `Exit`, or `Edit(i)` or
/// `Delete(i)` for the selected `i`; from `Add`, `Edit` or `Delete` only
/// back to `Normal`; and `Exit` is entered only from `Normal` and never left.
pub proof fn lemma_mode_transitions(v: AppView, key: Key, name: String, url: String)
    ensures
        ({
            let m = v.step(key, name, url).0.mode;
            &&& v.mode == Mode::Normal ==> {
                ||| m == Mode::Normal
                ||| m == Mode::Add
                ||| m == Mode::Exit
                ||| (v.selected matches Some(i) && (m == Mode::Edit(i) || m == Mode::Delete(i)))
            }
            &&& (v.mode == Mode::Add || v.mode is Edit || v.mode is Delete) ==> (m == v.mode
                || m == Mode::Normal)
            &&& v.mode == Mode::Exit ==> m == Mode::Exit
            &&& m == Mode::Exit ==> (v.mode == Mode::Normal || v.mode == Mode::Exit)
        }),
{
}

/// Opening the selected station for editing and cancelling right away
/// leaves the stations and the selection as they were.
pub proof fn lemma_cancel_edit(v: AppView, name: String, url: String)
    requires
        v.wf(),
        v.mode == Mode::Normal,
        v.selected is Some,
    ensures
        v.step(Key::Char('e'), name, url).0.mode == Mode::Edit(v.selected->0),
        ({
            let w = v.step(Key::Char('e'), name, url).0.step(Key::Esc, name, url).0;
            &&& w.stations == v.stations
            &&& w.selected == v.selected
            &&& w.mode == Mode::Normal
        }),
{
}

} // verus!
