//! What the application does with the keyboard, the mouse and the changes
//! on disk: how each event changes the state, and what it asks of the
//! world outside.
use vstd::prelude::*;
use vstd::string::StrSliceExecFns;
use crate::canvas::Canvas;
use crate::error::Error;
use crate::library::Flag;
use crate::model::{
    controls_of, refreshed_to, row_after, row_before, Controls, Model, SEARCH,
};
use crate::player::{louder, quieter, Mode, Player};
use crate::song::Song;
use crate::text::{
    control, display_width, drop_last_char, is_control, push_char, width_of, without_last,
};

verus! {

/// The widest filter text that still takes a character.
pub const QUERY_WIDTH: usize = 64;

/// A key of the keyboard.
#[derive(Debug, Clone, Copy, PartialEq, Eq, Structural)]
pub enum Key {
    Char(char),
    Esc,
    Backspace,
    Up,
    Down,
    Left,
    Right,
    Enter,
    Tab,
    F(u8),
    Other,
}

/// A key that was pressed. `control` says that the control key, and no
/// other modifier, was held with it.
#[derive(Debug, Clone, Copy, PartialEq, Eq, Structural)]
pub struct KeyPress {
    pub key: Key,
    pub control: bool,
}

/// What the mouse did. `Down` is a button pressed at column `x` and row
/// `y`, and `left` says that it was the left button.
#[derive(Debug, Clone, Copy, PartialEq, Eq, Structural)]
pub enum Mouse {
    ScrollDown,
    ScrollUp,
    Down { left: bool, x: u16, y: u16 },
    Other,
}

/// What the terminal reports.
#[derive(Debug, Clone, Copy, PartialEq, Eq, Structural)]
pub enum Input {
    Key(KeyPress),
    Mouse(Mouse),
    Other,
}

/// What the application reacts to.
#[derive(Debug, Clone, Copy, PartialEq, Eq, Structural)]
pub enum Event {
    /// Something was created, removed or renamed under the library root.
    LibraryChanged,
    /// The configuration file was written.
    ConfigUpdated,
    UserInput(Input),
}

/// What an event asks of the world outside the state.
#[derive(Debug)]
pub enum Request {
    Nothing,
    /// Scan the library anew and commit the snapshot in place of the
    /// stored one.
    Rescan,
    /// Open the file of the track and hand the track to the player.
    Play(Song),
    /// Set the output to this volume, in percent.
    Volume(u64),
}

/// The state of the application.
#[derive(Debug)]
pub struct App {
    pub model: Model,
    pub canvas: Canvas,
    pub terminated: bool,
}

/// The window that gets the focus from `focus` by the tabulator: from
/// the board the timeline, from the timeline the spectrum, from the
/// spectrum the board.
pub open spec fn focus_after_tab(focus: u64) -> u64 {
    if focus == 0 {
        2
    } else if focus == 1 {
        0
    } else if focus == 2 {
        1
    } else {
        focus
    }
}

/// The mode that the function key `n` sets, if it sets one.
pub open spec fn mode_of_key(n: u8) -> Option<Mode> {
    if n == 1 {
        Some(Mode::Sequential)
    } else if n == 2 {
        Some(Mode::Random)
    } else if n == 3 {
        Some(Mode::SingleCycle)
    } else {
        None
    }
}

/// The controls after the character `c` was typed. On the board `/`
/// opens the search field and `t`, `a` and `d` set the sort key to title,
/// artist and duration. In the search field a character that is no
/// control character is added to the filter text, unless the text is
/// wider than [`QUERY_WIDTH`], and the selection is dropped.
pub open spec fn typed(model: Model, c: char) -> Controls {
    let now = controls_of(model);
    if model.focus == 0 {
        if c == '/' {
            Controls { focus: SEARCH, ..now }
        } else if c == 't' {
            Controls { flag: Flag::Title, ..now }
        } else if c == 'a' {
            Controls { flag: Flag::Artist, ..now }
        } else if c == 'd' {
            Controls { flag: Flag::Duration, ..now }
        } else {
            now
        }
    } else if model.focus == SEARCH && !control(c) && width_of(model.query@) <= QUERY_WIDTH {
        Controls { query: model.query@.push(c), offset: None, board_state: None, ..now }
    } else {
        now
    }
}

/// The controls after the last character of the filter text was deleted:
/// the selection is dropped, and the search field is left where the text
/// is empty.
pub open spec fn erased(model: Model) -> Controls {
    Controls {
        focus: if without_last(model.query@).len() == 0 {
            0
        } else {
            model.focus
        },
        query: without_last(model.query@),
        offset: None,
        board_state: None,
        ..controls_of(model)
    }
}

/// The controls after the search field was left.
pub open spec fn closed(model: Model) -> Controls {
    Controls {
        focus: 0,
        query: Seq::empty(),
        offset: None,
        board_state: None,
        ..controls_of(model)
    }
}

/// The sum of `a` and `b`, and the largest number where the sum is
/// beyond it.
pub open spec fn capped(a: int, b: int) -> usize {
    if a + b > usize::MAX {
        usize::MAX
    } else if a + b < 0 {
        0
    } else {
        (a + b) as usize
    }
}

/// The first and the last row of the scroll window, in this order, after
/// it was moved to hold the selected row `offset`. `rows` is the number of
/// rows that the board shows at once and `tracks` the number of tracks.
pub open spec fn scrolled(
    topline: usize,
    baseline: usize,
    offset: usize,
    rows: usize,
    tracks: usize,
) -> (usize, usize) {
    let page = capped(rows as int, -1);
    if offset <= rows && topline == 0 {
        (topline, page)
    } else if offset + 1 == tracks {
        (capped(offset as int, -page), offset)
    } else if offset > baseline {
        (capped(offset as int, -page), offset)
    } else if offset < topline {
        (offset, capped(baseline as int, page as int))
    } else {
        (topline, baseline)
    }
}

fn sum(a: usize, b: usize) -> (total: usize)
    ensures
        total == capped(a as int, b as int),
{
    if b > usize::MAX - a {
        usize::MAX
    } else {
        a + b
    }
}

fn difference(a: usize, b: usize) -> (rest: usize)
    ensures
        rest == capped(a as int, -(b as int)),
{
    if b > a {
        0
    } else {
        a - b
    }
}

impl App {
    /// The model after a press on the board at row `y`, which selects the
    /// track drawn there: the rows of tracks begin at row 2, and with a row
    /// selected they begin at the top of the scroll window.
    pub open spec fn board_pressed(model: Model, y: u16) -> Model {
        let row = if model.offset is Some {
            capped(y - 2, model.topline as int)
        } else {
            (y - 2) as usize
        };
        Model { offset: Some(row), board_state: Some(row), ..model }
    }

    /// The state after a press of the left button at column `x` and row
    /// `y`. Outside the search field, the focus goes to the window that
    /// was pressed on, to the last of board, spectrum and timeline where
    /// they meet; a press on the board below its header selects a track.
    pub open spec fn clicked(self, x: u16, y: u16) -> App {
        if self.model.focus == SEARCH {
            self
        } else {
            let focus = if self.canvas.timeline.area.holds(x, y) {
                self.canvas.timeline.win_id
            } else if self.canvas.spectrum.area.holds(x, y) {
                self.canvas.spectrum.win_id
            } else if self.canvas.board.area.holds(x, y) {
                self.canvas.board.win_id
            } else {
                self.model.focus
            };
            let model = Model { focus, ..self.model };
            if focus == 0 && y > 1 {
                App { model: App::board_pressed(model, y), ..self }
            } else {
                App { model, ..self }
            }
        }
    }

    /// The state after the scroll window was moved to hold the selected
    /// row; it moves only while the board has the focus and a row is
    /// selected.
    pub open spec fn bounded(self) -> App {
        if self.model.focus == 0 && self.model.offset is Some {
            let window = scrolled(
                self.model.topline,
                self.model.baseline,
                self.model.offset->0,
                capped(self.canvas.board.area.height as int, -2),
                self.model.library.record.cache@.len() as usize,
            );
            App { model: Model { topline: window.0, baseline: window.1, ..self.model }, ..self }
        } else {
            self
        }
    }

    /// Whether the state is valid: its library is.
    pub open spec fn valid(self) -> bool {
        self.model.library.wf()
    }

    /// The state with the row `row` selected.
    pub open spec fn selecting(self, row: usize) -> App {
        App { model: Model { offset: Some(row), board_state: Some(row), ..self.model }, ..self }
    }

    /// The state with the volume of the player at `volume`.
    pub open spec fn sounding(self, volume: u64) -> App {
        App {
            model: Model { player: Player { volume, ..self.model.player }, ..self.model },
            ..self
        }
    }

    /// Whether the board or the search field has the focus.
    pub open spec fn browsing(self) -> bool {
        self.model.focus == 0 || self.model.focus == SEARCH
    }

    /// The state after the up key or the wheel turned up, with `wheel`
    /// set for the wheel: while browsing the previous row is selected, and
    /// on the timeline the key raises the volume by a step.
    pub open spec fn raised(self, wheel: bool) -> App {
        if self.browsing() {
            self.selecting(row_before(self.model.board_state, self.model.songs@.len()))
        } else if self.model.focus == 2 && !wheel {
            self.sounding(louder(self.model.player.volume))
        } else {
            self
        }
    }

    /// The state after the down key or the wheel turned down, with
    /// `wheel` set for the wheel: while browsing the next row is selected,
    /// and on the timeline the key lowers the volume by a step.
    pub open spec fn lowered(self, wheel: bool) -> App {
        if self.browsing() {
            self.selecting(row_after(self.model.board_state, self.model.songs@.len()))
        } else if self.model.focus == 2 && !wheel {
            self.sounding(quieter(self.model.player.volume))
        } else {
            self
        }
    }

    /// The state after the tabulator: the focus goes on.
    pub open spec fn tabbed(self) -> App {
        App { model: Model { focus: focus_after_tab(self.model.focus), ..self.model }, ..self }
    }

    /// The state after the function key `n`: the first three set the mode.
    pub open spec fn moded(self, n: u8) -> App {
        App {
            model: Model {
                player: Player {
                    mode: match mode_of_key(n) {
                        Some(mode) => mode,
                        None => self.model.player.mode,
                    },
                    ..self.model.player
                },
                ..self.model
            },
            ..self
        }
    }

    /// The track that the enter key plays: while browsing, that of the
    /// selected row of the current view, if a row of it is selected.
    pub open spec fn to_play(self) -> Option<Song> {
        if self.browsing() {
            match self.model.offset {
                Some(i) => if i < self.model.tracks@.len() {
                    Some(self.model.tracks@[i as int])
                } else {
                    None
                },
                None => None,
            }
        } else {
            None
        }
    }

    /// What a key on the timeline asks of the output: to follow the
    /// volume.
    pub open spec fn volume_request(self) -> Request {
        if self.model.focus == 2 {
            Request::Volume(self.model.player.volume)
        } else {
            Request::Nothing
        }
    }

    /// Whether `after` is this state after the character `c` was typed:
    /// `q` outside the search field ends the application, and while
    /// browsing the controls change as [`typed`] says and the rows are laid
    /// out anew.
    pub open spec fn typed_into(self, after: App, c: char) -> bool {
        &&& after.terminated == (self.terminated || (c == 'q' && self.model.focus != SEARCH))
        &&& after.canvas == self.canvas
        &&& if self.browsing() {
            refreshed_to(self.model, after.model, typed(self.model, c))
        } else {
            after.model == self.model
        }
    }

    /// Whether `after` is this state after the escape key: on the board
    /// the selection is dropped, and the search field is left, with the
    /// rows laid out anew.
    pub open spec fn escaped_into(self, after: App) -> bool {
        &&& after.terminated == self.terminated
        &&& after.canvas == self.canvas
        &&& if self.model.focus == 0 {
            after.model == (Model { offset: None, board_state: None, ..self.model })
        } else if self.model.focus == SEARCH {
            refreshed_to(self.model, after.model, closed(self.model))
        } else {
            after.model == self.model
        }
    }

    /// Whether `after` is this state after the backspace key: in the
    /// search field the controls change as [`erased`] says and the rows
    /// are laid out anew.
    pub open spec fn erased_into(self, after: App) -> bool {
        &&& after.terminated == self.terminated
        &&& after.canvas == self.canvas
        &&& if self.model.focus == SEARCH {
            refreshed_to(self.model, after.model, erased(self.model))
        } else {
            after.model == self.model
        }
    }

    /// Whether `after` and `request` are what a pressed key leads to from
    /// this state.
    pub open spec fn keyed_into(self, after: App, press: KeyPress, request: Request) -> bool {
        match press.key {
            Key::Char(c) => request is Nothing && self.typed_into(after, c),
            Key::Esc => request is Nothing && self.escaped_into(after),
            Key::Backspace => request is Nothing && self.erased_into(after),
            Key::Up => after == self.raised(false) && request == after.volume_request(),
            Key::Down => after == self.lowered(false) && request == after.volume_request(),
            Key::Enter => after == self && request == match self.to_play() {
                Some(song) => Request::Play(song),
                None => Request::Nothing,
            },
            Key::Tab => request is Nothing && after == self.tabbed(),
            Key::F(n) => request is Nothing && after == self.moded(n),
            _ => request is Nothing && after == self,
        }
    }

    /// The state after the mouse did `mouse`: the wheel selects a row, and
    /// a press of the left button is a click.
    pub open spec fn moused(self, mouse: Mouse) -> App {
        match mouse {
            Mouse::ScrollDown => self.lowered(true),
            Mouse::ScrollUp => self.raised(true),
            Mouse::Down { left, x, y } => if left {
                self.clicked(x, y)
            } else {
                self
            },
            Mouse::Other => self,
        }
    }

    /// This state with the application ended where `press` is the letter
    /// `c` with the control key.
    pub open spec fn interrupted(self, press: KeyPress) -> App {
        App {
            terminated: self.terminated || (press.key == Key::Char('c') && press.control),
            ..self
        }
    }

    /// Whether `after` and `request` are what `event` leads to from this
    /// state: the scroll window is moved first; a change of the library
    /// asks for a new scan, and what the terminal reports is acted on.
    pub open spec fn led_into(self, after: App, event: Event, request: Request) -> bool {
        match event {
            Event::ConfigUpdated => request is Nothing && after == self.bounded(),
            Event::LibraryChanged => request is Rescan && after == self.bounded(),
            Event::UserInput(Input::Key(press)) => self.bounded().interrupted(press).keyed_into(
                after,
                press,
                request,
            ),
            Event::UserInput(Input::Mouse(mouse)) => request is Nothing && after
                == self.bounded().moused(mouse),
            Event::UserInput(Input::Other) => request is Nothing && after == self.bounded(),
        }
    }

    /// Acts on a typed character: see [`App::typed_into`]. It is always
    /// `Ok`.
    pub fn on_char(&mut self, c: char) -> (done: Result<(), Error>)
        requires
            old(self).valid(),
        ensures
            final(self).valid(),
            done is Ok,
            old(self).typed_into(*final(self), c),
    {
        if c == 'q' && self.model.focus != SEARCH {
            self.terminated = true;
        }
        if self.model.focus == 0 {
            if c == '/' {
                self.model.open_search();
            } else if c == 't' {
                self.model.flag(Flag::Title);
            } else if c == 'a' {
                self.model.flag(Flag::Artist);
            } else if c == 'd' {
                self.model.flag(Flag::Duration);
            }
            self.model.sync_headers()
        } else if self.model.focus == SEARCH {
            if !is_control(c) && display_width(self.model.query.as_str()) <= QUERY_WIDTH {
                push_char(&mut self.model.query, c);
                self.model.unselect_board();
            }
            self.model.sync_headers()
        } else {
            Ok(())
        }
    }

    /// Acts on the escape key: see [`App::escaped_into`].
    pub fn on_esc(&mut self)
        requires
            old(self).valid(),
        ensures
            final(self).valid(),
            old(self).escaped_into(*final(self)),
    {
        if self.model.focus == 0 {
            self.model.unselect_board();
        } else if self.model.focus == 1 {
            self.model.unselect_spectrum();
        } else if self.model.focus == SEARCH {
            self.model.close_search();
            assert(self.model.query@ =~= closed(old(self).model).query);
            let _ = self.model.sync_headers();
        }
    }

    /// Acts on the backspace key: see [`App::erased_into`].
    pub fn on_backspace(&mut self)
        requires
            old(self).valid(),
        ensures
            final(self).valid(),
            old(self).erased_into(*final(self)),
    {
        if self.model.focus == SEARCH {
            self.model.query = drop_last_char(self.model.query.as_str());
            self.model.unselect_board();
            if self.model.query.as_str().unicode_len() == 0 {
                self.model.close_search();
            }
            assert(self.model.query@ =~= erased(old(self).model).query);
            let _ = self.model.sync_headers();
        }
    }

    /// Acts on the up key: see [`App::raised`]. On the timeline the
    /// output is to follow the volume.
    pub fn on_up(&mut self) -> (request: Request)
        ensures
            old(self).valid() ==> final(self).valid(),
            *final(self) == old(self).raised(false),
            request == final(self).volume_request(),
    {
        if self.model.focus == 0 || self.model.focus == SEARCH {
            self.model.select_previous_song();
            Request::Nothing
        } else if self.model.focus == 2 {
            self.model.player.increase_volume();
            Request::Volume(self.model.player.volume)
        } else {
            Request::Nothing
        }
    }

    /// Acts on the down key: see [`App::lowered`]. On the timeline the
    /// output is to follow the volume.
    pub fn on_down(&mut self) -> (request: Request)
        ensures
            old(self).valid() ==> final(self).valid(),
            *final(self) == old(self).lowered(false),
            request == final(self).volume_request(),
    {
        if self.model.focus == 0 || self.model.focus == SEARCH {
            self.model.select_next_song();
            Request::Nothing
        } else if self.model.focus == 2 {
            self.model.player.decrease_volume();
            Request::Volume(self.model.player.volume)
        } else {
            Request::Nothing
        }
    }

    /// Acts on the left key: there is nothing to do.
    pub fn on_left(&mut self)
        ensures
            old(self).valid() ==> final(self).valid(),
            *final(self) == *old(self),
    {
    }

    /// Acts on the right key: there is nothing to do.
    pub fn on_right(&mut self)
        ensures
            old(self).valid() ==> final(self).valid(),
            *final(self) == *old(self),
    {
    }

    /// Acts on the enter key: the track of [`App::to_play`], if there is
    /// one, is to be played. The state stays as it is.
    pub fn on_enter(&self) -> (request: Request)
        ensures
            request == match self.to_play() {
                Some(song) => Request::Play(song),
                None => Request::Nothing,
            },
    {
        if self.model.focus == 0 || self.model.focus == SEARCH {
            match self.model.selected_song() {
                Some(song) => Request::Play(song),
                None => Request::Nothing,
            }
        } else {
            Request::Nothing
        }
    }

    /// Acts on the tabulator: see [`App::tabbed`].
    pub fn on_tab(&mut self)
        ensures
            old(self).valid() ==> final(self).valid(),
            *final(self) == old(self).tabbed(),
    {
        if self.model.focus == 0 {
            self.model.focus = 2;
        } else if self.model.focus == 1 {
            self.model.focus = 0;
        } else if self.model.focus == 2 {
            self.model.focus = 1;
        }
    }

    /// Acts on the function key `n`: see [`App::moded`].
    pub fn on_f(&mut self, n: u8)
        ensures
            old(self).valid() ==> final(self).valid(),
            *final(self) == old(self).moded(n),
    {
        if n == 1 {
            self.model.player.mode = Mode::Sequential;
        } else if n == 2 {
            self.model.player.mode = Mode::Random;
        } else if n == 3 {
            self.model.player.mode = Mode::SingleCycle;
        }
    }

    /// Acts on the wheel turned up: see [`App::raised`].
    pub fn on_scroll_up(&mut self)
        ensures
            old(self).valid() ==> final(self).valid(),
            *final(self) == old(self).raised(true),
    {
        if self.model.focus == 0 || self.model.focus == SEARCH {
            self.model.select_previous_song();
        }
    }

    /// Acts on the wheel turned down: see [`App::lowered`].
    pub fn on_scroll_down(&mut self)
        ensures
            old(self).valid() ==> final(self).valid(),
            *final(self) == old(self).lowered(true),
    {
        if self.model.focus == 0 || self.model.focus == SEARCH {
            self.model.select_next_song();
        }
    }

    /// Acts on a press of the left button at column `x` and row `y`: see
    /// [`App::clicked`].
    pub fn on_click(&mut self, x: u16, y: u16)
        ensures
            old(self).valid() ==> final(self).valid(),
            *final(self) == old(self).clicked(x, y),
    {
        if self.model.focus != SEARCH {
            if self.canvas.board.area.contains(x, y) {
                self.model.focus = self.canvas.board.win_id;
            }
            if self.canvas.spectrum.area.contains(x, y) {
                self.model.focus = self.canvas.spectrum.win_id;
            }
            if self.canvas.timeline.area.contains(x, y) {
                self.model.focus = self.canvas.timeline.win_id;
            }
            if self.model.focus == 0 && y > 1 {
                let row: usize = (y - 2) as usize;
                if self.model.offset.is_some() {
                    let top = self.model.topline;
                    self.model.select_board(sum(row, top));
                } else {
                    self.model.select_board(row);
                }
            }
        }
    }

    /// Moves the scroll window so that it holds the selected row: see
    /// [`App::bounded`].
    pub fn sync_boundary(&mut self)
        ensures
            old(self).valid() ==> final(self).valid(),
            *final(self) == old(self).bounded(),
    {
        if self.model.focus == 0 {
            let rows = difference(self.canvas.board.area.height as usize, 2);
            let page = difference(rows, 1);
            let tracks = self.model.library.record.cache.len();
            match self.model.offset {
                Some(offset) => {
                    if offset <= rows && self.model.topline == 0 {
                        self.model.baseline = page;
                    } else if offset < usize::MAX && offset + 1 == tracks {
                        self.model.baseline = offset;
                        self.model.topline = difference(offset, page);
                    } else if offset > self.model.baseline {
                        self.model.baseline = offset;
                        self.model.topline = difference(offset, page);
                    } else if offset < self.model.topline {
                        self.model.topline = offset;
                        self.model.baseline = sum(self.model.baseline, page);
                    }
                },
                None => {},
            }
        }
    }

    /// Acts on a pressed key: see [`App::keyed_into`]. The letter `c`
    /// with the control key ends the application, and is then acted on as
    /// the letter. It is always `Ok`.
    pub fn handle_key(&mut self, press: KeyPress) -> (done: Result<Request, Error>)
        requires
            old(self).valid(),
        ensures
            final(self).valid(),
            done matches Ok(request) && old(self).interrupted(press).keyed_into(
                *final(self),
                press,
                request,
            ),
    {
        match press.key {
            Key::Char(c) => {
                if c == 'c' && press.control {
                    self.terminated = true;
                }
            },
            _ => {},
        }
        match press.key {
            Key::Char(c) => {
                match self.on_char(c) {
                    Ok(_) => Ok(Request::Nothing),
                    Err(e) => Err(e),
                }
            },
            Key::Esc => {
                self.on_esc();
                Ok(Request::Nothing)
            },
            Key::Backspace => {
                self.on_backspace();
                Ok(Request::Nothing)
            },
            Key::Up => Ok(self.on_up()),
            Key::Down => Ok(self.on_down()),
            Key::Left => {
                self.on_left();
                Ok(Request::Nothing)
            },
            Key::Right => {
                self.on_right();
                Ok(Request::Nothing)
            },
            Key::Enter => Ok(self.on_enter()),
            Key::Tab => {
                self.on_tab();
                Ok(Request::Nothing)
            },
            Key::F(n) => {
                self.on_f(n);
                Ok(Request::Nothing)
            },
            Key::Other => Ok(Request::Nothing),
        }
    }

    /// Acts on the mouse: see [`App::moused`]. It is always `Ok`.
    pub fn handle_mouse(&mut self, mouse: Mouse) -> (done: Result<(), Error>)
        ensures
            old(self).valid() ==> final(self).valid(),
            done is Ok,
            *final(self) == old(self).moused(mouse),
    {
        match mouse {
            Mouse::ScrollDown => self.on_scroll_down(),
            Mouse::ScrollUp => self.on_scroll_up(),
            Mouse::Down { left, x, y } => {
                if left {
                    self.on_click(x, y);
                }
            },
            Mouse::Other => {},
        }
        Ok(())
    }

    /// Acts on an event: see [`App::led_into`]. It is always `Ok`.
    pub fn handle_event(&mut self, event: Event) -> (done: Result<Request, Error>)
        requires
            old(self).valid(),
        ensures
            final(self).valid(),
            done matches Ok(request) && old(self).led_into(*final(self), event, request),
    {
        self.sync_boundary();
        match event {
            Event::ConfigUpdated => Ok(Request::Nothing),
            Event::LibraryChanged => Ok(Request::Rescan),
            Event::UserInput(input) => match input {
                Input::Key(press) => self.handle_key(press),
                Input::Mouse(mouse) => match self.handle_mouse(mouse) {
                    Ok(_) => Ok(Request::Nothing),
                    Err(e) => Err(e),
                },
                Input::Other => Ok(Request::Nothing),
            },
        }
    }
}

impl Default for App {
    fn default() -> (app: App)
        ensures
            app.valid(),
            !app.terminated,
            app.model.focus == 0,
            app.model.offset is None,
            app.model.songs@.len() == 0,
            app.canvas.board.win_id == 0,
            app.canvas.spectrum.win_id == 1,
            app.canvas.timeline.win_id == 2,
    {
        App { model: Model::default(), canvas: Canvas::default(), terminated: false }
    }
}

} // verus!
