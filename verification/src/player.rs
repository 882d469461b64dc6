//! The playback controller: which track is attached to the output, whether
//! it is paused, how long it has played, and what was played before.
use vstd::prelude::*;
use vstd::string::StringExecFns;
use crate::config::Config;
use crate::error::{Error, InvalidVolume, Unplayable};
use crate::library::song_views;
use crate::song::{Song, SongView};
use crate::utils::{display_duration, duration_text};
use crate::Launch;

verus! {

/// How the next track is chosen when one ends. It is stored and read, and
/// nothing in the controller acts on it.
#[derive(Debug, Clone, Copy, PartialEq, Eq, Structural)]
pub enum Mode {
    Sequential,
    SingleCycle,
    Random,
}

impl Default for Mode {
    fn default() -> (mode: Mode)
        ensures
            mode == Mode::Sequential,
    {
        Mode::Sequential
    }
}

/// The largest volume, in percent.
pub const MAX_VOLUME: u64 = 100;

/// By how much a step changes the volume.
pub const VOLUME_STEP: u64 = 2;

/// Milliseconds between two turns of the loop that resets the clock.
pub const RESET_INTERVAL: u64 = 200;

/// Milliseconds between two turns of the clock.
pub const TICK_INTERVAL: u64 = 1000;

/// Milliseconds between two turns of a watcher.
pub const WATCH_INTERVAL: u64 = 100;

/// Milliseconds that a discarded output is given to settle before the
/// next stream is attached.
pub const SETTLE_DELAY: u64 = 200;

/// The volume one step above `volume`, and the largest where that is
/// beyond it.
pub open spec fn louder(volume: u64) -> u64 {
    if volume + VOLUME_STEP <= MAX_VOLUME {
        (volume + VOLUME_STEP) as u64
    } else {
        MAX_VOLUME
    }
}

/// The volume one step below `volume`, and 0 where that is below it.
pub open spec fn quieter(volume: u64) -> u64 {
    if volume >= VOLUME_STEP {
        (volume - VOLUME_STEP) as u64
    } else {
        0
    }
}

/// What the controller asks of the output after a track was handled.
#[derive(Debug, Clone, Copy, PartialEq, Eq, Structural)]
pub enum Command {
    /// Attach a fresh stream of the current track and watch for its end.
    Start,
    /// Silence the attached stream.
    Pause,
    /// Let the attached stream sound again.
    Resume,
    /// Discard the output and its stream, take a new output, let the old
    /// one settle, then do as for `Start`.
    Switch,
}

/// The state of the controller as one value.
#[derive(Debug, Clone, Copy, PartialEq, Eq, Structural)]
pub enum Status {
    /// No stream is attached.
    Idle,
    /// A stream is attached and sounds.
    Playing,
    /// A stream is attached and is silenced.
    Paused,
}

/// A position in a track, as the fraction `part / whole`. The whole is
/// not 0 and the part is at most the whole, so the fraction lies between
/// 0 and 1.
#[derive(Debug, Clone, Copy, PartialEq, Eq, Structural)]
pub struct Ratio {
    pub part: u64,
    pub whole: u64,
}

/// The playback controller.
///
/// `occupied` says that a stream is attached to the output, `paused` that
/// the attached stream is silenced, `switched` that the track has changed
/// and `elapsed` is due to be reset. `elapsed` counts the seconds played,
/// `generation` the streams that were attached. `history` holds the tracks
/// that were handled, each once, in the order in which they first came.
#[derive(Debug)]
pub struct Player {
    pub mode: Mode,
    pub volume: u64,
    pub current: Option<Song>,
    pub elapsed: u64,
    pub paused: bool,
    pub occupied: bool,
    pub switched: bool,
    pub generation: u64,
    pub history: Vec<Song>,
}

/// The mathematical value of a [`Player`].
pub struct PlayerView {
    pub mode: Mode,
    pub volume: u64,
    pub current: Option<SongView>,
    pub elapsed: u64,
    pub paused: bool,
    pub occupied: bool,
    pub switched: bool,
    pub generation: u64,
    pub history: Seq<SongView>,
}

impl View for Player {
    type V = PlayerView;

    open spec fn view(&self) -> PlayerView {
        PlayerView {
            mode: self.mode,
            volume: self.volume,
            current: match self.current {
                Some(song) => Some(song@),
                None => None,
            },
            elapsed: self.elapsed,
            paused: self.paused,
            occupied: self.occupied,
            switched: self.switched,
            generation: self.generation,
            history: song_views(self.history@),
        }
    }
}

/// `history` with `song` added at its end, unless it holds `song` already.
pub open spec fn remembered(history: Seq<SongView>, song: SongView) -> Seq<SongView> {
    if history.contains(song) {
        history
    } else {
        history.push(song)
    }
}

/// The tracks of `tracks`, each once, in the order in which they first
/// occur.
pub open spec fn first_seen(tracks: Seq<SongView>) -> Seq<SongView>
    decreases tracks.len(),
{
    if tracks.len() == 0 {
        tracks
    } else {
        remembered(first_seen(tracks.drop_last()), tracks.last())
    }
}

/// Whether no track occurs twice in `tracks`.
pub open spec fn distinct(tracks: Seq<SongView>) -> bool {
    forall|i: int, j: int| 0 <= i < j < tracks.len() ==> tracks[i] != tracks[j]
}

/// The number after `n`, and 0 after the largest.
pub open spec fn next(n: u64) -> u64 {
    if n == u64::MAX {
        0
    } else {
        (n + 1) as u64
    }
}

impl PlayerView {
    /// What the play button asks of the output: to start where nothing is
    /// attached, else to resume what is paused and to pause what sounds.
    pub open spec fn engage(self) -> Command {
        if !self.occupied {
            Command::Start
        } else if self.paused {
            Command::Resume
        } else {
            Command::Pause
        }
    }

    /// What handling `song` asks of the output: to switch where another
    /// track is current, and else what the play button asks.
    pub open spec fn command_for(self, song: SongView) -> Command {
        match self.current {
            None => self.engage(),
            Some(current) => if current == song {
                self.engage()
            } else {
                Command::Switch
            },
        }
    }

    /// Whether handling `song` fails: it needs a stream of `song`, and the
    /// file of `song` could not be opened and decoded.
    pub open spec fn fails(self, song: SongView, opened: bool) -> bool {
        !opened && (self.command_for(song) is Start || self.command_for(song) is Switch)
    }

    /// The state after `song` was handled. In every case `song` is in the
    /// history. Where handling fails, nothing else changes. Else `song` is
    /// current and attached; it is paused where it was paused by this; and
    /// after a switch `elapsed` is due to be reset.
    pub open spec fn handled(self, song: SongView, opened: bool) -> PlayerView {
        let command = self.command_for(song);
        if self.fails(song, opened) {
            PlayerView { history: remembered(self.history, song), ..self }
        } else {
            PlayerView {
                current: Some(song),
                occupied: true,
                paused: command is Pause,
                switched: self.switched || command is Switch,
                generation: if command is Start || command is Switch {
                    next(self.generation)
                } else {
                    self.generation
                },
                history: remembered(self.history, song),
                ..self
            }
        }
    }

    /// The state after `song` was handled `times` times, its file opening
    /// each time.
    pub open spec fn handled_again(self, song: SongView, times: nat) -> PlayerView
        decreases times,
    {
        if times == 0 {
            self
        } else {
            self.handled_again(song, (times - 1) as nat).handled(song, true)
        }
    }

    /// The state after each track of `tracks` was handled in turn, where
    /// `opened` says of each whether its file opened.
    pub open spec fn handled_all(self, tracks: Seq<SongView>, opened: Seq<bool>) -> PlayerView
        decreases tracks.len(),
    {
        if tracks.len() == 0 {
            self
        } else {
            self.handled_all(tracks.drop_last(), opened).handled(
                tracks.last(),
                opened[tracks.len() - 1],
            )
        }
    }

    /// The position in the current track: none where no track is current
    /// or its duration is unknown; else `elapsed` of the duration, and 0
    /// where `elapsed` has passed the duration. A track of duration 0 is
    /// over as it starts: its position is 0 of 1.
    pub open spec fn ratio(self) -> Option<Ratio> {
        match self.current {
            None => None,
            Some(current) => match current.metadata.duration {
                None => None,
                Some(duration) => if duration == 0 {
                    Some(Ratio { part: 0, whole: 1 })
                } else if self.elapsed > duration {
                    Some(Ratio { part: 0, whole: duration })
                } else {
                    Some(Ratio { part: self.elapsed, whole: duration })
                },
            },
        }
    }

    /// The state as one value.
    pub open spec fn status(self) -> Status {
        if !self.occupied {
            Status::Idle
        } else if self.paused {
            Status::Paused
        } else {
            Status::Playing
        }
    }

    /// Whether the state is valid: the volume is at most the largest and
    /// no track occurs twice in the history.
    pub open spec fn wf(self) -> bool {
        self.volume <= MAX_VOLUME && distinct(self.history)
    }
}

fn holds(history: &Vec<Song>, song: &Song) -> (found: bool)
    ensures
        found == song_views(history@).contains(song@),
{
    let mut i: usize = 0;
    while i < history.len()
        invariant
            i <= history.len(),
            forall|k: int| 0 <= k < i ==> song_views(history@)[k] != song@,
        decreases history.len() - i,
    {
        if history[i] == *song {
            assert(song_views(history@)[i as int] == song@);
            return true;
        }
        i += 1;
    }
    false
}

fn successor(n: u64) -> (m: u64)
    ensures
        m == next(n),
{
    if n == u64::MAX {
        0
    } else {
        n + 1
    }
}

impl Player {
    /// A controller at rest: nothing current, nothing played, the volume
    /// at `volume` and at most the largest.
    pub fn new(volume: u64) -> (player: Player)
        ensures
            player@.wf(),
            player@.volume == if volume > MAX_VOLUME {
                MAX_VOLUME
            } else {
                volume
            },
            player@.mode == Mode::Sequential,
            player@.current is None,
            player@.history.len() == 0,
            player@.elapsed == 0,
            player@.generation == 0,
            !player@.occupied && !player@.paused && !player@.switched,
    {
        Player {
            mode: Mode::Sequential,
            volume: if volume > MAX_VOLUME {
                MAX_VOLUME
            } else {
                volume
            },
            current: None,
            elapsed: 0,
            paused: false,
            occupied: false,
            switched: false,
            generation: 0,
            history: Vec::new(),
        }
    }

    /// What [`Player::handle`] would ask of the output for `song`.
    pub fn command(&self, song: &Song) -> (command: Command)
        ensures
            command == self@.command_for(song@),
    {
        let engage = if !self.occupied {
            Command::Start
        } else if self.paused {
            Command::Resume
        } else {
            Command::Pause
        };
        match &self.current {
            None => engage,
            Some(current) => {
                if *current == *song {
                    engage
                } else {
                    Command::Switch
                }
            },
        }
    }

    /// Handles the selected track: remembers it in the history, then
    /// starts it, toggles between pause and play where it is the current
    /// track, or switches to it.
    ///
    /// `opened` says whether the file of `song` could be opened and
    /// decoded; it is read only where the command needs a stream. Where
    /// it does and the file did not open, the result is [`Unplayable`]:
    /// the track is in the history, and nothing else has changed. Else the
    /// result is the command for the output, and the controller is in the
    /// state that follows.
    pub fn handle(&mut self, song: &Song, opened: bool) -> (done: Result<Command, Error>)
        ensures
            final(self)@ == old(self)@.handled(song@, opened),
            final(self)@.history == remembered(old(self)@.history, song@),
            old(self)@.fails(song@, opened) ==> done == Err::<Command, Error>(
                Error::Unplayable(Unplayable),
            ) && *final(self) == (Player { history: final(self).history, ..*old(self) }),
            !old(self)@.fails(song@, opened) ==> done == Ok::<Command, Error>(
                old(self)@.command_for(song@),
            ),
            old(self)@.wf() ==> final(self)@.wf(),
    {
        let command = self.command(song);
        proof {
            if self@.wf() {
                lemma_remembered_distinct(song_views(self.history@), song@);
            }
        }
        if !holds(&self.history, song) {
            let ghost before = self.history@;
            self.history.push(song.clone());
            assert(song_views(self.history@) =~= song_views(before).push(song@));
        }
        let streams = match command {
            Command::Start => true,
            Command::Switch => true,
            _ => false,
        };
        if streams && !opened {
            return Err(Error::Unplayable(Unplayable));
        }
        match command {
            Command::Switch => Ok(self.switch(song)),
            _ => {
                if self.current.is_none() {
                    self.current = Some(song.clone());
                }
                Ok(self.play())
            },
        }
    }

    /// Acts on the current track as its play button does: starts it
    /// where nothing is attached, else pauses it or lets it sound again.
    fn play(&mut self) -> (command: Command)
        ensures
            command == if !old(self).occupied {
                Command::Start
            } else if old(self).paused {
                Command::Resume
            } else {
                Command::Pause
            },
            final(self)@ == (PlayerView {
                occupied: true,
                paused: old(self).occupied && !old(self).paused,
                generation: if old(self).occupied {
                    old(self).generation
                } else {
                    next(old(self).generation)
                },
                ..old(self)@
            }),
    {
        if self.occupied {
            if self.paused {
                self.paused = false;
                Command::Resume
            } else {
                self.paused = true;
                Command::Pause
            }
        } else {
            self.paused = false;
            self.occupied = true;
            self.generation = successor(self.generation);
            Command::Start
        }
    }

    /// Goes over to another track: marks the change so that the clock is
    /// reset, frees the output, and starts `song` as the current track.
    fn switch(&mut self, song: &Song) -> (command: Command)
        ensures
            command == Command::Switch,
            final(self)@ == (PlayerView {
                switched: true,
                current: Some(song@),
                occupied: true,
                paused: false,
                generation: next(old(self).generation),
                ..old(self)@
            }),
    {
        self.switched = true;
        self.current = Some(song.clone());
        self.occupied = false;
        self.play();
        Command::Switch
    }

    /// The label of the timeline: the time played, a `/`, and the length
    /// of the current track, which reads `00:00` where nothing is current.
    pub fn label(&self) -> (text: String)
        ensures
            text@ == duration_text(Some(self.elapsed)) + "/"@ + match self.current {
                Some(song) => duration_text(song.metadata.duration),
                None => "00:00"@,
            },
    {
        let total = match &self.current {
            Some(song) => display_duration(song.metadata.duration),
            None => "00:00".to_owned(),
        };
        display_duration(Some(self.elapsed)).concat("/").concat(total.as_str())
    }

    /// The position in the current track, if it is known. It is unknown
    /// exactly where no track is current or the current track has no known
    /// duration, whatever time has elapsed; else it is a fraction between
    /// 0 and 1, and 0 once the time elapsed has passed the duration.
    pub fn ratio(&self) -> (ratio: Option<Ratio>)
        ensures
            ratio == self@.ratio(),
            ratio is None <==> (self@.current is None
                || self@.current->0.metadata.duration is None),
            forall|d: u64|
                self@.current is Some && self@.current->0.metadata.duration == Some(d)
                    && self.elapsed > d ==> ratio is Some && ratio->0.part == 0,
            ratio matches Some(r) ==> r.whole > 0 && r.part <= r.whole,
    {
        match &self.current {
            None => None,
            Some(current) => match current.metadata.duration {
                None => None,
                Some(duration) => {
                    if duration == 0 {
                        Some(Ratio { part: 0, whole: 1 })
                    } else if self.elapsed > duration {
                        Some(Ratio { part: 0, whole: duration })
                    } else {
                        Some(Ratio { part: self.elapsed, whole: duration })
                    }
                },
            },
        }
    }

    /// The state of the controller as one value.
    pub fn status(&self) -> (status: Status)
        ensures
            status == self@.status(),
    {
        if !self.occupied {
            Status::Idle
        } else if self.paused {
            Status::Paused
        } else {
            Status::Playing
        }
    }

    /// One turn of the clock that runs every second: counts a second
    /// unless the stream is paused.
    pub fn tick(&mut self)
        ensures
            *final(self) == (Player {
                elapsed: if old(self).paused {
                    old(self).elapsed
                } else {
                    next(old(self).elapsed)
                },
                ..*old(self)
            }),
    {
        if !self.paused {
            self.elapsed = successor(self.elapsed);
        }
    }

    /// One turn of the loop that resets the clock: after a switch, sets
    /// `elapsed` to 0 and takes the mark of the switch away.
    pub fn reset(&mut self)
        ensures
            *final(self) == if old(self).switched {
                Player { elapsed: 0, switched: false, ..*old(self) }
            } else {
                *old(self)
            },
    {
        if self.switched {
            self.switched = false;
            self.elapsed = 0;
        }
    }

    /// One turn of the watcher of the stream that was attached as number
    /// `generation`. `ended` says whether that stream has run out.
    ///
    /// The result says whether the watcher goes on. It stops, and changes
    /// nothing, where its stream is no longer the attached one or nothing
    /// is attached. Else it goes on, and where its stream has run out it
    /// marks the output as free.
    pub fn watch(&mut self, generation: u64, ended: bool) -> (watching: bool)
        ensures
            watching == (old(self).generation == generation && old(self).occupied),
            *final(self) == (Player {
                occupied: old(self).occupied && !(old(self).generation == generation && ended),
                ..*old(self)
            }),
    {
        if self.generation != generation || !self.occupied {
            return false;
        }
        if ended {
            self.occupied = false;
        }
        true
    }

    /// Raises the volume by a step, to at most the largest.
    pub fn increase_volume(&mut self)
        ensures
            *final(self) == (Player { volume: louder(old(self).volume), ..*old(self) }),
            final(self).volume <= MAX_VOLUME,
    {
        if self.volume <= MAX_VOLUME - VOLUME_STEP {
            self.volume += VOLUME_STEP;
        } else {
            self.volume = MAX_VOLUME;
        }
    }

    /// Lowers the volume by a step, to at least 0.
    pub fn decrease_volume(&mut self)
        ensures
            *final(self) == (Player { volume: quieter(old(self).volume), ..*old(self) }),
            final(self).volume <= old(self).volume,
    {
        if self.volume >= VOLUME_STEP {
            self.volume -= VOLUME_STEP;
        } else {
            self.volume = 0;
        }
    }
}

impl Default for Player {
    fn default() -> (player: Player)
        ensures
            player@.wf(),
            player@.volume == 0,
            player@.current is None,
            player@.history.len() == 0,
            player@.status() == Status::Idle,
    {
        Player::new(0)
    }
}

impl Launch for Player {
    /// The player is set up from any configuration.
    open spec fn accepts(&self, config: &Config) -> bool {
        true
    }

    /// Takes the volume from `config`. Fails with [`InvalidVolume`], and
    /// changes nothing, where `config` sets none or one above the largest.
    fn bootstrap(&mut self, config: &Config) -> (done: Result<(), Error>)
        ensures
            match config.volume {
                Some(v) => if v <= MAX_VOLUME {
                    &&& done == Ok::<(), Error>(())
                    &&& *final(self) == (Player { volume: v, ..*old(self) })
                } else {
                    &&& done == Err::<(), Error>(Error::InvalidVolume(InvalidVolume))
                    &&& *final(self) == *old(self)
                },
                None => {
                    &&& done == Err::<(), Error>(Error::InvalidVolume(InvalidVolume))
                    &&& *final(self) == *old(self)
                },
            },
    {
        match config.volume {
            Some(v) => {
                if v <= MAX_VOLUME {
                    self.volume = v;
                    Ok(())
                } else {
                    Err(Error::InvalidVolume(InvalidVolume))
                }
            },
            None => Err(Error::InvalidVolume(InvalidVolume)),
        }
    }
}

/// Remembering a track keeps a history free of repetitions, and keeps
/// what it held in place.
pub proof fn lemma_remembered_distinct(history: Seq<SongView>, song: SongView)
    requires
        distinct(history),
    ensures
        distinct(remembered(history, song)),
        remembered(history, song).contains(song),
        history.len() <= remembered(history, song).len(),
        forall|i: int| 0 <= i < history.len() ==> remembered(history, song)[i] == history[i],
{
    if !history.contains(song) {
        let after = history.push(song);
        assert(after[history.len() as int] == song);
        assert forall|i: int, j: int| 0 <= i < j < after.len() implies after[i] != after[j] by {
            if j == history.len() {
                assert(history.contains(after[i]));
            }
        }
    }
}

/// Handling a track, whether it succeeds or fails, remembers the track,
/// keeps the history free of repetitions and keeps what it held in place.
pub proof fn lemma_handled_keeps_history(player: PlayerView, song: SongView, opened: bool)
    requires
        distinct(player.history),
    ensures
        player.handled(song, opened).history == remembered(player.history, song),
        distinct(player.handled(song, opened).history),
        player.handled(song, opened).history.contains(song),
        player.history.len() <= player.handled(song, opened).history.len(),
        forall|i: int|
            0 <= i < player.history.len() ==> player.handled(song, opened).history[i]
                == player.history[i],
{
    lemma_remembered_distinct(player.history, song);
}

/// The tracks seen first are free of repetitions, and they are the tracks
/// that were seen.
pub proof fn lemma_first_seen(tracks: Seq<SongView>)
    ensures
        distinct(first_seen(tracks)),
        forall|song: SongView| #[trigger]
            tracks.contains(song) <==> first_seen(tracks).contains(song),
    decreases tracks.len(),
{
    if tracks.len() > 0 {
        let front = tracks.drop_last();
        lemma_first_seen(front);
        lemma_remembered_distinct(first_seen(front), tracks.last());
        assert forall|song: SongView| tracks.contains(song) implies first_seen(tracks).contains(
            song,
        ) by {
            let i = choose|i: int| 0 <= i < tracks.len() && tracks[i] == song;
            if i < front.len() {
                assert(front[i] == song);
                assert(front.contains(song));
                assert(first_seen(front).contains(song));
                let k = choose|k: int|
                    0 <= k < first_seen(front).len() && first_seen(front)[k] == song;
                assert(first_seen(tracks)[k] == song);
            }
        }
        assert forall|song: SongView| first_seen(tracks).contains(song) implies tracks.contains(
            song,
        ) by {
            let k = choose|k: int| 0 <= k < first_seen(tracks).len() && first_seen(tracks)[k]
                == song;
            if k < first_seen(front).len() {
                assert(first_seen(front)[k] == song);
                assert(first_seen(front).contains(song));
                assert(front.contains(song));
                let i = choose|i: int| 0 <= i < front.len() && front[i] == song;
                assert(tracks[i] == song);
            } else {
                assert(song == tracks.last());
                assert(tracks[tracks.len() - 1] == song);
            }
        }
    }
}

/// However often tracks are handled and repeated, and whichever of their
/// files open, a history that began empty holds each handled track once,
/// in the order in which the tracks first came.
pub proof fn lemma_history_is_first_seen(
    player: PlayerView,
    tracks: Seq<SongView>,
    opened: Seq<bool>,
)
    requires
        player.history.len() == 0,
    ensures
        player.handled_all(tracks, opened).history == first_seen(tracks),
        distinct(player.handled_all(tracks, opened).history),
    decreases tracks.len(),
{
    if tracks.len() == 0 {
        assert(player.history =~= first_seen(tracks));
    } else {
        lemma_history_is_first_seen(player, tracks.drop_last(), opened);
    }
    lemma_first_seen(tracks);
}

/// Once a call has started a track, each further call with the same track
/// toggles: the first pauses, the second resumes, and so on, whether or
/// not the file would open; the track stays attached and current.
pub proof fn lemma_same_track_toggles(player: PlayerView, song: SongView, times: nat)
    requires
        player.current == Some(song),
        player.occupied,
        !player.paused,
    ensures
        player.handled_again(song, times).current == Some(song),
        player.handled_again(song, times).occupied,
        player.handled_again(song, times).paused == (times % 2 == 1),
        player.handled_again(song, times).generation == player.generation,
        player.handled_again(song, times).handled(song, false) == player.handled_again(
            song,
            times,
        ).handled(song, true),
    decreases times,
{
    if times > 0 {
        lemma_same_track_toggles(player, song, (times - 1) as nat);
    }
}

/// A call that starts a track or switches to it, its file opening, leaves
/// the track current, attached and not paused.
pub proof fn lemma_started_plays(player: PlayerView, song: SongView)
    requires
        player.command_for(song) is Start || player.command_for(song) is Switch,
    ensures
        player.handled(song, true).current == Some(song),
        player.handled(song, true).status() == Status::Playing,
        player.handled(song, true).handled(song, true).status() == Status::Paused,
        player.handled(song, true).handled(song, true).handled(song, true).status()
            == Status::Playing,
{
}

} // verus!
