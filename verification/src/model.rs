//! What the screen shows and what its commands act on: the library, the
//! player, the filter and the selected row.
use vstd::prelude::*;
use vstd::string::StrSliceExecFns;
use crate::error::{Error, InvalidVolume};
use crate::config::Config;
use crate::library::{
    selection, song_views, sorted_by, tracks_seen_under, Commit, Flag, Library, Record, Startup,
    Timestamp,
};
use crate::Launch;
use crate::player::{Player, MAX_VOLUME};
use crate::song::{row_of, Song, SongView};
use crate::text::{decimal, decimal_string, views};

verus! {

/// The window that holds the search field.
pub const SEARCH: u64 = 3;

/// The state behind the screen.
///
/// `focus` is the window that has the focus, `flag` the sort key and
/// `query` the text of the search field. `tracks` is the current view of
/// the library and `songs` its rows, each with its number in front.
/// `offset` is the selected row and `board_state` the row that the board
/// marks.
#[derive(Debug)]
pub struct Model {
    pub focus: u64,
    pub flag: Flag,
    pub query: String,
    pub player: Player,
    pub topline: usize,
    pub baseline: usize,
    pub library: Library,
    pub offset: Option<usize>,
    pub board_state: Option<usize>,
    pub tracks: Vec<Song>,
    pub songs: Vec<Vec<String>>,
    pub current_play_idx: Option<usize>,
}

/// The filter in force: the text of the search field while that field
/// has the focus and is not empty.
pub open spec fn filter_of(focus: u64, query: Seq<char>) -> Option<Seq<char>> {
    if query.len() > 0 && focus == SEARCH {
        Some(query)
    } else {
        None
    }
}

/// The row after `selected` among `rows` rows, the first after the last;
/// the first where none is selected.
pub open spec fn row_after(selected: Option<usize>, rows: nat) -> usize {
    match selected {
        Some(i) => if i + 1 >= rows {
            0
        } else {
            (i + 1) as usize
        },
        None => 0,
    }
}

/// The row before `selected` among `rows` rows, the last before the
/// first; the first where none is selected or there are no rows.
pub open spec fn row_before(selected: Option<usize>, rows: nat) -> usize {
    match selected {
        Some(i) => if i == 0 {
            if rows == 0 {
                0
            } else {
                (rows - 1) as usize
            }
        } else {
            (i - 1) as usize
        },
        None => 0,
    }
}

/// The row of the track at `index` of a view: its number, counted from
/// 1, then its cells.
pub open spec fn numbered_row(song: SongView, index: int) -> Seq<Seq<char>> {
    seq![decimal((index + 1) as nat)] + row_of(song)
}

/// The value of each row of `rows`.
pub open spec fn row_views(rows: Seq<Vec<String>>) -> Seq<Seq<Seq<char>>> {
    rows.map_values(|row: Vec<String>| views(row@))
}

/// The rows of a view.
pub open spec fn numbered_rows(tracks: Seq<SongView>) -> Seq<Seq<Seq<char>>> {
    Seq::new(tracks.len(), |i: int| numbered_row(tracks[i], i))
}

/// Whether `after` is the library `before` as it is after a view under
/// the key `flag` was taken of it.
pub open spec fn seen_under(before: Library, after: Library, flag: Flag) -> bool {
    &&& after.flag == flag
    &&& after.sorted
    &&& after.record.pos == before.record.pos
    &&& after.record.modified == before.record.modified
    &&& tracks_seen_under(
        before.in_order_of(flag),
        before.record.cache@,
        after.record.cache@,
        flag,
    )
    &&& after.wf()
}

/// Whether the rows of `model` are laid out: its tracks are the view of
/// its library under the filter in force, in the order of the sort key,
/// and its rows are theirs.
pub open spec fn laid_out(model: Model) -> bool {
    &&& sorted_by(song_views(model.tracks@), model.library.flag)
    &&& song_views(model.tracks@) == selection(
        song_views(model.library.record.cache@),
        filter_of(model.focus, model.query@),
    )
    &&& row_views(model.songs@) == numbered_rows(song_views(model.tracks@))
}

/// What a command sets of a model before the rows are laid out anew.
pub struct Controls {
    pub focus: u64,
    pub flag: Flag,
    pub query: Seq<char>,
    pub offset: Option<usize>,
    pub board_state: Option<usize>,
}

/// The controls of `model` as they are.
pub open spec fn controls_of(model: Model) -> Controls {
    Controls {
        focus: model.focus,
        flag: model.flag,
        query: model.query@,
        offset: model.offset,
        board_state: model.board_state,
    }
}

/// Whether `after` is `before` with its controls set to `controls` and
/// its rows laid out anew; the player and the scroll window are as before.
pub open spec fn refreshed_to(before: Model, after: Model, controls: Controls) -> bool {
    &&& controls_of(after) == controls
    &&& seen_under(before.library, after.library, controls.flag)
    &&& laid_out(after)
    &&& after.player == before.player
    &&& after.topline == before.topline
    &&& after.baseline == before.baseline
    &&& after.current_play_idx == before.current_play_idx
}

/// Whether `after` is `before` with its rows laid out anew.
pub open spec fn refreshed(before: Model, after: Model) -> bool {
    refreshed_to(before, after, controls_of(before))
}

impl Model {
    /// Selects the next row, and the first after the last.
    pub fn select_next_song(&mut self)
        ensures
            *final(self) == (Model {
                offset: Some(row_after(old(self).board_state, old(self).songs@.len())),
                board_state: Some(row_after(old(self).board_state, old(self).songs@.len())),
                ..*old(self)
            }),
    {
        self.offset = match self.board_state {
            Some(i) => {
                if self.songs.len() == 0 || i >= self.songs.len() - 1 {
                    Some(0)
                } else {
                    Some(i + 1)
                }
            },
            None => Some(0),
        };
        self.board_state = self.offset;
    }

    /// Selects the previous row, and the last before the first.
    pub fn select_previous_song(&mut self)
        ensures
            *final(self) == (Model {
                offset: Some(row_before(old(self).board_state, old(self).songs@.len())),
                board_state: Some(row_before(old(self).board_state, old(self).songs@.len())),
                ..*old(self)
            }),
    {
        self.offset = match self.board_state {
            Some(i) => {
                if i == 0 {
                    if self.songs.len() == 0 {
                        Some(0)
                    } else {
                        Some(self.songs.len() - 1)
                    }
                } else {
                    Some(i - 1)
                }
            },
            None => Some(0),
        };
        self.board_state = self.offset;
    }

    /// Gives the focus to the search field.
    pub fn open_search(&mut self)
        ensures
            *final(self) == (Model { focus: SEARCH, ..*old(self) }),
    {
        self.focus = SEARCH;
    }

    /// Leaves the search field: the focus goes to the board, the filter
    /// text is emptied, and no row is selected.
    pub fn close_search(&mut self)
        ensures
            final(self).focus == 0,
            final(self).query@.len() == 0,
            final(self).offset is None,
            final(self).board_state is None,
            final(self).flag == old(self).flag,
            final(self).songs == old(self).songs,
            final(self).tracks == old(self).tracks,
            final(self).player == old(self).player,
            final(self).library == old(self).library,
            final(self).topline == old(self).topline,
            final(self).baseline == old(self).baseline,
            final(self).current_play_idx == old(self).current_play_idx,
    {
        self.focus = 0;
        self.query = String::new();
        self.unselect_board();
    }

    /// Selects the row `pos`.
    pub fn select_board(&mut self, pos: usize)
        ensures
            *final(self) == (Model { offset: Some(pos), board_state: Some(pos), ..*old(self) }),
    {
        self.board_state = Some(pos);
        self.offset = Some(pos);
    }

    /// Selects no row.
    pub fn unselect_board(&mut self)
        ensures
            *final(self) == (Model { offset: None, board_state: None, ..*old(self) }),
    {
        self.board_state = None;
        self.offset = None;
    }

    /// Leaves the spectrum: there is nothing to undo.
    pub fn unselect_spectrum(&mut self)
        ensures
            *final(self) == *old(self),
    {
    }

    /// Sets the sort key of the next view.
    pub fn flag(&mut self, flag: Flag)
        ensures
            *final(self) == (Model { flag, ..*old(self) }),
    {
        self.flag = flag;
    }

    /// The filter in force, if any.
    pub fn query(&self) -> (filter: Option<String>)
        ensures
            match filter {
                Some(q) => filter_of(self.focus, self.query@) == Some(q@),
                None => filter_of(self.focus, self.query@) is None,
            },
    {
        if self.query.as_str().unicode_len() > 0 && self.focus == SEARCH {
            Some(self.query.clone())
        } else {
            None
        }
    }

    /// The track of the selected row of the current view, if a row of it
    /// is selected.
    pub fn selected_song(&self) -> (song: Option<Song>)
        ensures
            match self.offset {
                Some(i) => if i < self.tracks@.len() {
                    song == Some(self.tracks@[i as int])
                } else {
                    song is None
                },
                None => song is None,
            },
    {
        match self.offset {
            Some(i) => {
                if i < self.tracks.len() {
                    Some(self.tracks[i].clone())
                } else {
                    None
                }
            },
            None => None,
        }
    }

    /// Takes the view of the library under the sort key and the filter in
    /// force, and lays out its rows. It is always `Ok`.
    pub fn sync_headers(&mut self) -> (done: Result<(), Error>)
        requires
            old(self).library.wf(),
        ensures
            done is Ok,
            refreshed(*old(self), *final(self)),
            final(self).query == old(self).query,
    {
        let filter = self.query();
        let tracks = match self.library.songs(self.flag, filter) {
            Ok(tracks) => tracks,
            Err(e) => {
                return Err(e);
            },
        };
        let mut rows: Vec<Vec<String>> = Vec::new();
        let mut i: usize = 0;
        while i < tracks.len()
            invariant
                i <= tracks.len(),
                rows@.len() == i,
                forall|k: int|
                    0 <= k < i ==> views(#[trigger] rows@[k]@) == numbered_row(tracks@[k]@, k),
            decreases tracks.len() - i,
        {
            let cells = tracks[i].row();
            let mut row: Vec<String> = Vec::new();
            row.push(decimal_string((i + 1) as u64));
            let mut k: usize = 0;
            while k < cells.len()
                invariant
                    k <= cells.len(),
                    views(row@) == seq![decimal((i + 1) as nat)] + views(cells@).take(k as int),
                decreases cells.len() - k,
            {
                let ghost before = row@;
                row.push(cells[k].clone());
                assert(views(row@) =~= views(before).push(cells@[k as int]@));
                assert(views(row@) =~= seq![decimal((i + 1) as nat)] + views(cells@).take(
                    k + 1,
                ));
                k += 1;
            }
            assert(views(cells@).take(cells.len() as int) =~= views(cells@));
            rows.push(row);
            i += 1;
        }
        assert(row_views(rows@) =~= numbered_rows(song_views(tracks@)));
        self.tracks = tracks;
        self.songs = rows;
        Ok(())
    }

    /// Sets up the player and opens the library, as [`Player::bootstrap`]
    /// and [`Library::bootstrap`] do. Where the cached snapshot was
    /// adopted, the rows are laid out; else the snapshot is still to be
    /// committed, see [`Library::commit`] and [`Model::recommit`]. Fails,
    /// and changes nothing, where the volume of `config` is not valid, and
    /// else where the fetch failed.
    pub fn bootstrap(
        &mut self,
        config: &Config,
        live: Timestamp,
        fetched: Result<Option<Record>, Error>,
    ) -> (done: Result<Startup, Error>)
        requires
            config.lib_pos is Some,
        ensures
            old(self).library.wf() ==> final(self).library.wf(),
            match Model::refusal(*config, fetched) {
                Some(e) => done == Err::<Startup, Error>(e) && *final(self) == *old(self),
                None => {
                    &&& done matches Ok(plan)
                    &&& final(self).player == (Player {
                        volume: config.volume->0,
                        ..old(self).player
                    })
                    &&& final(self).library.record.pos@ == config.lib_pos->0@
                    &&& controls_of(*final(self)) == controls_of(*old(self))
                    &&& final(self).topline == old(self).topline
                    &&& final(self).baseline == old(self).baseline
                    &&& final(self).current_play_idx == old(self).current_play_idx
                    &&& match fetched->Ok_0 {
                        Some(record) => if record.modified == Some(live) {
                            &&& plan == Startup::Adopted
                            &&& final(self).library.record.modified == Some(live)
                            &&& final(self).library.flag == old(self).flag
                            &&& final(self).library.sorted
                            &&& final(self).library.wf()
                            &&& tracks_seen_under(
                                false,
                                record.cache@,
                                final(self).library.record.cache@,
                                old(self).flag,
                            )
                            &&& laid_out(*final(self))
                        } else {
                            &&& plan == (Startup::Commit { append: false })
                            &&& final(self).library.record.cache == old(self).library.record.cache
                            &&& final(self).library.record.modified
                                == old(self).library.record.modified
                            &&& final(self).songs == old(self).songs
                            &&& final(self).tracks == old(self).tracks
                        },
                        None => {
                            &&& plan == (Startup::Commit { append: true })
                            &&& final(self).library.record.cache == old(self).library.record.cache
                            &&& final(self).library.record.modified
                                == old(self).library.record.modified
                            &&& final(self).songs == old(self).songs
                            &&& final(self).tracks == old(self).tracks
                        },
                    }
                },
            },
    {
        let valid = match config.volume {
            Some(v) => v <= MAX_VOLUME,
            None => false,
        };
        if !valid {
            return Err(Error::InvalidVolume(InvalidVolume));
        }
        let stored = match fetched {
            Ok(stored) => stored,
            Err(e) => {
                return Err(e);
            },
        };
        match self.player.bootstrap(config) {
            Ok(_) => {},
            Err(e) => {
                return Err(e);
            },
        }
        let plan = match self.library.bootstrap(config, live, Ok(stored)) {
            Ok(plan) => plan,
            Err(e) => {
                return Err(e);
            },
        };
        match plan {
            Startup::Adopted => {
                match self.sync_headers() {
                    Ok(_) => {},
                    Err(e) => {
                        return Err(e);
                    },
                }
            },
            _ => {},
        }
        Ok(plan)
    }

    /// Why [`Model::bootstrap`] refuses, if it does: the volume of the
    /// configuration is missing or above the largest, or else the fetch
    /// failed.
    pub open spec fn refusal(config: Config, fetched: Result<Option<Record>, Error>) -> Option<
        Error,
    > {
        if !(config.volume matches Some(v) && v <= MAX_VOLUME) {
            Some(Error::InvalidVolume(InvalidVolume))
        } else {
            match fetched {
                Err(e) => Some(e),
                Ok(_) => None,
            }
        }
    }

    /// Takes the snapshot of a planned commit, as [`Library::sync`] does,
    /// and lays out the rows anew. `stored` says how the writes to the
    /// cache store went: where they failed, the failure is handed on and
    /// nothing changes.
    pub fn recommit(&mut self, planned: Commit, stored: Result<(), Error>) -> (done: Result<
        (),
        Error,
    >)
        ensures
            match stored {
                Err(e) => done == Err::<(), Error>(e) && *final(self) == *old(self),
                Ok(_) => {
                    &&& done == Ok::<(), Error>(())
                    &&& final(self).library.flag == old(self).flag
                    &&& final(self).library.sorted
                    &&& final(self).library.wf()
                    &&& final(self).library.record.pos == planned.record.pos
                    &&& final(self).library.record.modified == planned.record.modified
                    &&& tracks_seen_under(
                        false,
                        planned.record.cache@,
                        final(self).library.record.cache@,
                        old(self).flag,
                    )
                    &&& laid_out(*final(self))
                    &&& controls_of(*final(self)) == controls_of(*old(self))
                    &&& final(self).player == old(self).player
                    &&& final(self).topline == old(self).topline
                    &&& final(self).baseline == old(self).baseline
                    &&& final(self).current_play_idx == old(self).current_play_idx
                },
            },
    {
        match self.library.sync(planned, stored) {
            Ok(_) => {},
            Err(e) => {
                return Err(e);
            },
        }
        match self.sync_headers() {
            Ok(_) => Ok(()),
            Err(e) => Err(e),
        }
    }
}

impl Default for Model {
    fn default() -> (model: Model)
        ensures
            model.focus == 0,
            model.flag == Flag::Title,
            model.query@.len() == 0,
            model.offset is None,
            model.board_state is None,
            model.tracks@.len() == 0,
            model.songs@.len() == 0,
            model.library.flag == Flag::Title,
            !model.library.sorted,
            model.library.record.cache@.len() == 0,
            model.player@.wf(),
            model.player@.current is None,
    {
        Model {
            focus: 0,
            flag: Flag::Title,
            query: String::new(),
            player: Player::default(),
            topline: 0,
            baseline: 0,
            library: Library::default(),
            offset: None,
            board_state: None,
            tracks: Vec::new(),
            songs: Vec::new(),
            current_play_idx: None,
        }
    }
}

} // verus!
