//! The library cache engine: the cached snapshot of a music directory,
//! when it is fresh, and its sorted and filtered views.
use rayon::slice::ParallelSliceMut;
use vstd::prelude::*;
use vstd::string::StrSliceExecFns;
use crate::config::Config;
use crate::error::Error;
use crate::song::{row_of, shown, Song, SongView};
use crate::text::{
    contains, is_substring, join, joined, lemma_lex_le_antisymmetric, lemma_lex_le_transitive,
    lex_at_most, lex_le, lowercase, lowercase_of, occurs_at, to_chars, views,
};
use crate::utils::unknown_label;

verus! {

/// The key by which the tracks are sorted.
#[derive(Debug, Clone, Copy, PartialEq, Eq, Structural)]
pub enum Flag {
    Title,
    Artist,
    Duration,
}

impl Default for Flag {
    fn default() -> (flag: Flag)
        ensures
            flag == Flag::Title,
    {
        Flag::Title
    }
}

/// When a directory was last modified: seconds and nanoseconds since the
/// start of 1970.
#[derive(Debug, Clone, Copy, PartialEq, Eq, Structural)]
pub struct Timestamp {
    pub seconds: u64,
    pub nanos: u32,
}

/// A snapshot of a library: its root directory, the tracks found under
/// it, and when the root was last modified as the tracks were collected.
#[derive(Debug)]
pub struct Record {
    pub pos: String,
    pub cache: Vec<Song>,
    pub modified: Option<Timestamp>,
}

/// The cache engine: the snapshot in use, the key of the last view, and
/// whether the tracks of the snapshot have been sorted by that key since
/// the snapshot was taken.
#[derive(Debug)]
pub struct Library {
    pub flag: Flag,
    pub sorted: bool,
    pub record: Record,
}

/// What opening the library leaves to do.
#[derive(Debug, Clone, Copy, PartialEq, Eq, Structural)]
pub enum Startup {
    /// The cached snapshot is fresh and was adopted: nothing.
    Adopted,
    /// The directory has to be scanned and the snapshot committed: to a
    /// store that has no record of this root if `append`, else in place of
    /// the record it has.
    Commit { append: bool },
}

/// A write to the cache store, which holds at most one record per root.
#[derive(Debug, Clone, Copy, PartialEq, Eq, Structural)]
pub enum Write {
    /// Delete the record of the library's root.
    Delete,
    /// Insert the library's snapshot as the record of its root.
    Insert,
}

/// A snapshot that is to be committed, with the writes that commit it to
/// the cache store.
#[derive(Debug)]
pub struct Commit {
    pub record: Record,
    pub writes: Vec<Write>,
}

/// A root directory that the cache store has a record of.
#[derive(Debug)]
pub struct Root {
    /// The path of the directory.
    pub pos: String,
    /// Whether the directory still exists.
    pub exists: bool,
}

/// The writes that commit a snapshot: an insert, after a delete unless
/// the store is known to have no record of the root.
pub open spec fn commit_writes(append: bool) -> Seq<Write> {
    if append {
        seq![Write::Insert]
    } else {
        seq![Write::Delete, Write::Insert]
    }
}

/// The tracks among `loaded`, in their order: what failed to load is
/// left out.
pub open spec fn loaded_tracks(loaded: Seq<Result<Song, Error>>) -> Seq<Song> {
    loaded.filter(|one: Result<Song, Error>| one is Ok).map_values(
        |one: Result<Song, Error>| one->Ok_0,
    )
}

/// The paths of the roots that no longer exist, in their order.
pub open spec fn stale_roots(roots: Seq<Root>) -> Seq<Seq<char>> {
    roots.filter(|root: Root| !root.exists).map_values(|root: Root| root.pos@)
}

/// The value of each track of `songs`.
pub open spec fn song_views(songs: Seq<Song>) -> Seq<SongView> {
    songs.map_values(|song: Song| song@)
}

/// What a track is sorted by under `flag`: a number, then a string. By
/// title and by artist the number is 0 and the string is the tag, the
/// unknown label where the tag is missing; by duration the number is the
/// duration, 0 where it is missing, and the string is empty.
pub open spec fn key_of(song: SongView, flag: Flag) -> (u64, Seq<char>) {
    match flag {
        Flag::Title => (0u64, shown(song.metadata.title)),
        Flag::Artist => (0u64, shown(song.metadata.artist)),
        Flag::Duration => (
            match song.metadata.duration {
                Some(d) => d,
                None => 0u64,
            },
            Seq::<char>::empty(),
        ),
    }
}

/// The order of sort keys: by the number, then by the string.
pub open spec fn key_le(a: (u64, Seq<char>), b: (u64, Seq<char>)) -> bool {
    a.0 < b.0 || (a.0 == b.0 && lex_le(a.1, b.1))
}

/// Whether no track of `songs` stands before one of a smaller key.
pub open spec fn sorted_by(songs: Seq<SongView>, flag: Flag) -> bool {
    forall|i: int, j: int|
        0 <= i < j < songs.len() ==> key_le(
            #[trigger] key_of(songs[i], flag),
            #[trigger] key_of(songs[j], flag),
        )
}

/// The tracks of `songs` whose key under `flag` is `key`, in their order.
pub open spec fn with_key(songs: Seq<SongView>, flag: Flag, key: (u64, Seq<char>)) -> Seq<
    SongView,
> {
    songs.filter(|song: SongView| key_of(song, flag) == key)
}

/// Whether `after` is `before` rearranged so that tracks of equal key
/// keep the order they had.
pub open spec fn rearranged_stably(
    before: Seq<SongView>,
    after: Seq<SongView>,
    flag: Flag,
) -> bool {
    &&& after.to_multiset() == before.to_multiset()
    &&& forall|key: (u64, Seq<char>)| #[trigger]
        with_key(after, flag, key) == with_key(before, flag, key)
}

/// Whether `after` holds the tracks `before` as a view under the key
/// `flag` leaves them: as they were where they were `in_order` already,
/// and else sorted by `flag`, stably.
pub open spec fn tracks_seen_under(
    in_order: bool,
    before: Seq<Song>,
    after: Seq<Song>,
    flag: Flag,
) -> bool {
    &&& in_order ==> after == before
    &&& !in_order ==> sorted_by(song_views(after), flag) && rearranged_stably(
        song_views(before),
        song_views(after),
        flag,
    )
}

/// The cells of a track's row in lower case, a space between them: the
/// text that a filter is searched in.
pub open spec fn folded_row(song: SongView) -> Seq<char> {
    joined(row_of(song).map_values(|cell: Seq<char>| lowercase_of(cell)), " "@)
}

/// Whether a track passes the filter `query`: the lower-case form of
/// `query` occurs in the track's folded row.
pub open spec fn passes(song: SongView, query: Seq<char>) -> bool {
    is_substring(lowercase_of(query), folded_row(song))
}

/// The tracks of `songs` that pass the filter `query`, in their order.
pub open spec fn filtered(songs: Seq<SongView>, query: Seq<char>) -> Seq<SongView> {
    songs.filter(|song: SongView| passes(song, query))
}

/// The view of `songs` under a filter: all of them where there is no
/// filter text or an empty one, else those that pass it.
pub open spec fn selection(songs: Seq<SongView>, query: Option<Seq<char>>) -> Seq<SongView> {
    match query {
        Some(q) => if q.len() > 0 {
            filtered(songs, q)
        } else {
            songs
        },
        None => songs,
    }
}

/// The key that a track is sorted by under `flag`.
pub fn sort_key(song: &Song, flag: Flag) -> (key: (u64, String))
    ensures
        (key.0, key.1@) == key_of(song@, flag),
{
    match flag {
        Flag::Title => (
            0,
            match &song.metadata.title {
                Some(t) => t.clone(),
                None => "Unknown".to_owned(),
            },
        ),
        Flag::Artist => (
            0,
            match &song.metadata.artist {
                Some(t) => t.clone(),
                None => "Unknown".to_owned(),
            },
        ),
        Flag::Duration => (
            match song.metadata.duration {
                Some(d) => d,
                None => 0,
            },
            String::new(),
        ),
    }
}

fn key_at_most(a: &(u64, String), b: &(u64, String)) -> (at_most: bool)
    ensures
        at_most == key_le((a.0, a.1@), (b.0, b.1@)),
{
    if a.0 != b.0 {
        a.0 < b.0
    } else {
        lex_at_most(&to_chars(a.1.as_str()), &to_chars(b.1.as_str()))
    }
}

/// Whether the tracks are in the order of the key `flag`.
pub fn is_sorted(songs: &Vec<Song>, flag: Flag) -> (sorted: bool)
    ensures
        sorted == sorted_by(song_views(songs@), flag),
{
    if songs.len() < 2 {
        return true;
    }
    let ghost all = song_views(songs@);
    let mut i: usize = 1;
    while i < songs.len()
        invariant
            1 <= i <= songs.len(),
            all == song_views(songs@),
            forall|a: int, b: int|
                0 <= a < b < i ==> key_le(
                    #[trigger] key_of(all[a], flag),
                    #[trigger] key_of(all[b], flag),
                ),
        decreases songs.len() - i,
    {
        let before = sort_key(&songs[i - 1], flag);
        let here = sort_key(&songs[i], flag);
        if !key_at_most(&before, &here) {
            assert(!key_le(key_of(all[i - 1], flag), key_of(all[i as int], flag)));
            return false;
        }
        proof {
            assert forall|a: int, b: int| 0 <= a < b < i + 1 implies key_le(
                #[trigger] key_of(all[a], flag),
                #[trigger] key_of(all[b], flag),
            ) by {
                if b == i && a < i - 1 {
                    assert(key_le(key_of(all[a], flag), key_of(all[i - 1], flag)));
                    lemma_key_le_transitive(
                        key_of(all[a], flag),
                        key_of(all[i - 1], flag),
                        key_of(all[b], flag),
                    );
                }
            }
        }
        i += 1;
    }
    true
}

/// rayon's `par_sort_by_key` on the tracks, with [`sort_key`] as the key
/// function. rayon documents the sort as stable, and the standard library
/// orders a pair by its first part and then its second, and strings
/// character by character: so afterwards the tracks are in the order of
/// their keys, and they are the tracks that were there, those of equal key
/// in the order they had.
#[verifier::external_body]
fn sort_by_key(songs: &mut Vec<Song>, flag: Flag)
    ensures
        sorted_by(song_views(final(songs)@), flag),
        rearranged_stably(song_views(old(songs)@), song_views(final(songs)@), flag),
{
    songs.par_sort_by_key(|song| sort_key(song, flag));
}

fn folded_cells(cells: &Vec<String>) -> (folded: Vec<String>)
    ensures
        views(folded@) == views(cells@).map_values(|cell: Seq<char>| lowercase_of(cell)),
{
    let mut folded: Vec<String> = Vec::new();
    let mut i: usize = 0;
    while i < cells.len()
        invariant
            i <= cells.len(),
            folded@.len() == i,
            forall|k: int| 0 <= k < i ==> folded@[k]@ == lowercase_of(cells@[k]@),
        decreases cells.len() - i,
    {
        folded.push(lowercase(cells[i].as_str()));
        i += 1;
    }
    assert(views(folded@) =~= views(cells@).map_values(|cell: Seq<char>| lowercase_of(cell)));
    folded
}

/// Whether `song` passes the filter whose lower-case form is `needle`.
fn song_passes(song: &Song, needle: &Vec<char>) -> (found: bool)
    ensures
        found == is_substring(needle@, folded_row(song@)),
{
    let cells = song.row();
    let folded = folded_cells(&cells);
    let text = join(&folded, " ");
    let hay = to_chars(text.as_str());
    contains(&hay, needle)
}

fn select(songs: &Vec<Song>, query: &str) -> (list: Vec<Song>)
    ensures
        song_views(list@) == filtered(song_views(songs@), query@),
{
    let needle = to_chars(lowercase(query).as_str());
    let mut list: Vec<Song> = Vec::new();
    let mut i: usize = 0;
    while i < songs.len()
        invariant
            i <= songs.len(),
            needle@ == lowercase_of(query@),
            song_views(list@) == filtered(song_views(songs@).take(i as int), query@),
        decreases songs.len() - i,
    {
        let ghost before = song_views(songs@).take(i as int);
        let ghost after = song_views(songs@).take(i + 1);
        proof {
            reveal(Seq::filter);
            assert(after.drop_last() =~= before);
            assert(after.last() == songs@[i as int]@);
        }
        if song_passes(&songs[i], &needle) {
            let ghost old_list = list@;
            list.push(songs[i].clone());
            assert(song_views(list@) =~= song_views(old_list).push(songs@[i as int]@));
        }
        i += 1;
    }
    proof {
        reveal(Seq::filter);
        assert(song_views(songs@).take(songs.len() as int) =~= song_views(songs@));
    }
    list
}

fn copy_all(songs: &Vec<Song>) -> (list: Vec<Song>)
    ensures
        list@ == songs@,
{
    let mut list: Vec<Song> = Vec::new();
    let mut i: usize = 0;
    while i < songs.len()
        invariant
            i <= songs.len(),
            list@ == songs@.take(i as int),
        decreases songs.len() - i,
    {
        list.push(songs[i].clone());
        assert(list@ =~= songs@.take(i + 1));
        i += 1;
    }
    assert(songs@.take(songs.len() as int) =~= songs@);
    list
}

impl Library {
    /// Whether the tracks are known to be in the order of the key `flag`.
    pub open spec fn in_order_of(self, flag: Flag) -> bool {
        self.sorted && self.flag == flag
    }

    /// Whether the library is valid: its tracks are in the order of the
    /// key of the last view where it says that they were sorted.
    pub open spec fn wf(self) -> bool {
        self.sorted ==> sorted_by(song_views(self.record.cache@), self.flag)
    }

    /// Makes the library valid: where it says that its tracks were sorted
    /// and they are not in the order of its key, the mark is taken away,
    /// so that the next view sorts them. Nothing else changes. This is for
    /// callers that cannot know whether the library is valid.
    pub fn validate(&mut self)
        ensures
            final(self).wf(),
            *final(self) == (Library { sorted: old(self).sorted && old(self).wf(), ..*old(self) }),
    {
        if self.sorted && !is_sorted(&self.record.cache, self.flag) {
            self.sorted = false;
        }
    }

    /// The view of the cached tracks under `flag` and `query`.
    ///
    /// Unless the cached tracks were sorted by `flag` already, they are
    /// first sorted by it, stably; the order then persists until another
    /// key is asked for or another snapshot is taken. The result holds, in
    /// the order of the cache, the tracks that pass the filter, and all of
    /// them where `query` is `None` or empty: so it is in the order of
    /// `flag` too. It is always `Ok`.
    pub fn songs(&mut self, flag: Flag, query: Option<String>) -> (found: Result<Vec<Song>, Error>)
        requires
            old(self).wf(),
        ensures
            final(self).wf(),
            final(self).flag == flag,
            final(self).sorted,
            final(self).record.pos == old(self).record.pos,
            final(self).record.modified == old(self).record.modified,
            tracks_seen_under(
                old(self).in_order_of(flag),
                old(self).record.cache@,
                final(self).record.cache@,
                flag,
            ),
            found matches Ok(list) && song_views(list@) == selection(
                song_views(final(self).record.cache@),
                match query {
                    Some(q) => Some(q@),
                    None => None,
                },
            ) && sorted_by(song_views(list@), flag),
    {
        if !self.sorted || self.flag != flag {
            self.flag = flag;
            self.sorted = true;
            sort_by_key(&mut self.record.cache, flag);
        }
        match query {
            Some(q) => {
                if q.as_str().unicode_len() > 0 {
                    proof {
                        lemma_filtered_sorted(song_views(self.record.cache@), flag, q@);
                    }
                    Ok(select(&self.record.cache, q.as_str()))
                } else {
                    Ok(copy_all(&self.record.cache))
                }
            },
            None => Ok(copy_all(&self.record.cache)),
        }
    }

    /// Opens the library at the root that `config` names.
    ///
    /// `live` is when the root was last modified, and `fetched` what
    /// fetching the record of the root from the cache store gave. Where
    /// the fetch failed, the failure is handed on and the library is as it
    /// was. A record as old as `live` is fresh: its tracks are adopted as
    /// they are, and nothing is left to scan. Any other record is stale
    /// and is to be replaced; with no record, one is to be added. Until
    /// then the library keeps the tracks it has.
    pub fn bootstrap(
        &mut self,
        config: &Config,
        live: Timestamp,
        fetched: Result<Option<Record>, Error>,
    ) -> (plan: Result<Startup, Error>)
        requires
            config.lib_pos is Some,
        ensures
            old(self).wf() ==> final(self).wf(),
            match fetched {
                Err(e) => plan == Err::<Startup, Error>(e) && *final(self) == *old(self),
                Ok(stored) => {
                    &&& final(self).flag == old(self).flag
                    &&& final(self).record.pos@ == config.lib_pos->0@
                    &&& match stored {
                        Some(record) => if record.modified == Some(live) {
                            &&& plan == Ok::<Startup, Error>(Startup::Adopted)
                            &&& final(self).record.cache == record.cache
                            &&& final(self).record.modified == Some(live)
                            &&& !final(self).sorted
                        } else {
                            &&& plan == Ok::<Startup, Error>(Startup::Commit { append: false })
                            &&& final(self).record.cache == old(self).record.cache
                            &&& final(self).record.modified == old(self).record.modified
                            &&& final(self).sorted == old(self).sorted
                        },
                        None => {
                            &&& plan == Ok::<Startup, Error>(Startup::Commit { append: true })
                            &&& final(self).record.cache == old(self).record.cache
                            &&& final(self).record.modified == old(self).record.modified
                            &&& final(self).sorted == old(self).sorted
                        },
                    }
                },
            },
    {
        let stored = match fetched {
            Ok(stored) => stored,
            Err(e) => {
                return Err(e);
            },
        };
        let root = match &config.lib_pos {
            Some(pos) => pos.clone(),
            None => String::new(),
        };
        self.record.pos = root;
        match stored {
            Some(record) => {
                let fresh = match record.modified {
                    Some(at) => at == live,
                    None => false,
                };
                if fresh {
                    self.record.cache = record.cache;
                    self.record.modified = Some(live);
                    self.sorted = false;
                    Ok(Startup::Adopted)
                } else {
                    Ok(Startup::Commit { append: false })
                }
            },
            None => Ok(Startup::Commit { append: true }),
        }
    }

    /// Plans the commit of a new snapshot: the tracks among `loaded`, what
    /// loading the files under the root gave, with `live`, when the root
    /// was last modified. A file that failed to load is left out. The
    /// result holds the snapshot and what to write to the cache store, see
    /// [`commit_writes`]; the library itself stays as it is until
    /// [`Library::sync`] is told how the writes went.
    pub fn commit(
        &self,
        append: bool,
        loaded: &Vec<Result<Song, Error>>,
        live: Timestamp,
    ) -> (planned: Commit)
        ensures
            planned.record.pos == self.record.pos,
            planned.record.cache@ == loaded_tracks(loaded@),
            planned.record.modified == Some(live),
            planned.writes@ == commit_writes(append),
    {
        let mut tracks: Vec<Song> = Vec::new();
        let mut i: usize = 0;
        while i < loaded.len()
            invariant
                i <= loaded.len(),
                tracks@ == loaded_tracks(loaded@.take(i as int)),
            decreases loaded.len() - i,
        {
            proof {
                reveal(Seq::filter);
                assert(loaded@.take(i + 1).drop_last() =~= loaded@.take(i as int));
            }
            match &loaded[i] {
                Ok(song) => {
                    tracks.push(song.clone());
                    assert(tracks@ =~= loaded_tracks(loaded@.take(i + 1)));
                },
                Err(_) => {},
            }
            i += 1;
        }
        assert(loaded@.take(loaded.len() as int) =~= loaded@);
        let mut writes: Vec<Write> = Vec::new();
        if !append {
            writes.push(Write::Delete);
        }
        writes.push(Write::Insert);
        assert(writes@ =~= commit_writes(append));
        Commit {
            record: Record { pos: self.record.pos.clone(), cache: tracks, modified: Some(live) },
            writes,
        }
    }

    /// Takes the snapshot of a planned commit as the library's, once the
    /// cache store has taken it: `stored` says how the writes went. Where
    /// they failed, the failure is handed on and the library stays in the
    /// state it was in.
    pub fn sync(&mut self, planned: Commit, stored: Result<(), Error>) -> (done: Result<(), Error>)
        ensures
            match stored {
                Ok(_) => {
                    &&& done == Ok::<(), Error>(())
                    &&& final(self).record == planned.record
                    &&& final(self).flag == old(self).flag
                    &&& !final(self).sorted
                },
                Err(e) => done == Err::<(), Error>(e) && *final(self) == *old(self),
            },
            old(self).wf() ==> final(self).wf(),
    {
        match stored {
            Ok(_) => {
                self.record = planned.record;
                self.sorted = false;
                Ok(())
            },
            Err(e) => Err(e),
        }
    }

    /// The roots whose records are to be deleted from the cache store:
    /// those that no longer exist.
    pub fn clean_up(roots: &Vec<Root>) -> (stale: Vec<String>)
        ensures
            views(stale@) == stale_roots(roots@),
    {
        let mut stale: Vec<String> = Vec::new();
        let mut i: usize = 0;
        while i < roots.len()
            invariant
                i <= roots.len(),
                views(stale@) == stale_roots(roots@.take(i as int)),
            decreases roots.len() - i,
        {
            proof {
                reveal(Seq::filter);
                assert(roots@.take(i + 1).drop_last() =~= roots@.take(i as int));
            }
            if !roots[i].exists {
                let ghost before = stale@;
                stale.push(roots[i].pos.clone());
                assert(views(stale@) =~= views(before).push(roots@[i as int].pos@));
                assert(views(stale@) =~= stale_roots(roots@.take(i + 1)));
            }
            i += 1;
        }
        assert(roots@.take(roots.len() as int) =~= roots@);
        stale
    }
}

impl Default for Record {
    fn default() -> (record: Record)
        ensures
            record.pos@.len() == 0,
            record.cache@.len() == 0,
            record.modified is None,
    {
        Record { pos: String::new(), cache: Vec::new(), modified: None }
    }
}

impl Default for Library {
    fn default() -> (library: Library)
        ensures
            library.flag == Flag::Title,
            !library.sorted,
            library.record.pos@.len() == 0,
            library.record.cache@.len() == 0,
            library.record.modified is None,
    {
        Library { flag: Flag::Title, sorted: false, record: Record::default() }
    }
}

/// The tracks of a sorted sequence that pass a filter are sorted too.
pub proof fn lemma_filtered_sorted(songs: Seq<SongView>, flag: Flag, query: Seq<char>)
    requires
        sorted_by(songs, flag),
    ensures
        sorted_by(filtered(songs, query), flag),
    decreases songs.len(),
{
    reveal(Seq::filter);
    if songs.len() > 0 {
        let front = songs.drop_last();
        let kept = filtered(front, query);
        assert(sorted_by(front, flag)) by {
            assert forall|i: int, j: int| 0 <= i < j < front.len() implies key_le(
                #[trigger] key_of(front[i], flag),
                #[trigger] key_of(front[j], flag),
            ) by {
                assert(front[i] == songs[i] && front[j] == songs[j]);
            }
        }
        lemma_filtered_sorted(front, flag, query);
        if passes(songs.last(), query) {
            let all = filtered(songs, query);
            assert(all == kept.push(songs.last()));
            assert forall|i: int, j: int| 0 <= i < j < all.len() implies key_le(
                #[trigger] key_of(all[i], flag),
                #[trigger] key_of(all[j], flag),
            ) by {
                if j < kept.len() {
                    assert(all[i] == kept[i] && all[j] == kept[j]);
                } else {
                    assert(kept.contains(kept[i]));
                    front.lemma_filter_contains_rev(
                        |song: SongView| passes(song, query),
                        kept[i],
                    );
                    let k = choose|k: int| 0 <= k < front.len() && front[k] == kept[i];
                    assert(songs[k] == all[i]);
                    assert(songs[songs.len() - 1] == all[j]);
                }
            }
        }
    }
}

/// The order of sort keys is transitive.
pub proof fn lemma_key_le_transitive(
    a: (u64, Seq<char>),
    b: (u64, Seq<char>),
    c: (u64, Seq<char>),
)
    requires
        key_le(a, b),
        key_le(b, c),
    ensures
        key_le(a, c),
{
    if a.0 == b.0 && b.0 == c.0 {
        lemma_lex_le_transitive(a.1, b.1, c.1);
    }
}

/// Two sort keys that are at most each other are equal.
pub proof fn lemma_key_le_antisymmetric(a: (u64, Seq<char>), b: (u64, Seq<char>))
    requires
        key_le(a, b),
        key_le(b, a),
    ensures
        a == b,
{
    lemma_lex_le_antisymmetric(a.1, b.1);
}

/// Sorted by duration, a track of unknown duration stands before every
/// track whose duration is known and not zero.
pub proof fn lemma_unknown_duration_first(songs: Seq<SongView>, i: int, j: int)
    requires
        sorted_by(songs, Flag::Duration),
        0 <= i < songs.len(),
        0 <= j < songs.len(),
        songs[i].metadata.duration is None,
        songs[j].metadata.duration matches Some(d) && d > 0,
    ensures
        i < j,
{
    if j < i {
        assert(key_le(key_of(songs[j], Flag::Duration), key_of(songs[i], Flag::Duration)));
    }
}

/// Sorted by title or by artist, a track without that tag stands where
/// the unknown label puts it: after the tracks whose tag is at most the
/// label, before those whose tag is at least the label.
pub proof fn lemma_missing_tag_sorts_as_unknown(songs: Seq<SongView>, flag: Flag, i: int, j: int)
    requires
        flag != Flag::Duration,
        sorted_by(songs, flag),
        0 <= i < songs.len(),
        0 <= j < songs.len(),
        key_of(songs[i], flag).1 == unknown_label(),
    ensures
        i < j ==> lex_le(unknown_label(), key_of(songs[j], flag).1),
        j < i ==> lex_le(key_of(songs[j], flag).1, unknown_label()),
{
    if i < j {
        assert(key_le(key_of(songs[i], flag), key_of(songs[j], flag)));
    }
    if j < i {
        assert(key_le(key_of(songs[j], flag), key_of(songs[i], flag)));
    }
}

/// In a sorted sequence the tracks of one key are neighbours: between two
/// of them stands no track of another key. So the tracks without a title
/// stand together with those titled with the unknown label.
pub proof fn lemma_equal_keys_are_neighbours(
    songs: Seq<SongView>,
    flag: Flag,
    i: int,
    k: int,
    j: int,
)
    requires
        sorted_by(songs, flag),
        0 <= i <= k <= j < songs.len(),
        key_of(songs[i], flag) == key_of(songs[j], flag),
    ensures
        key_of(songs[k], flag) == key_of(songs[i], flag),
{
    if i < k && k < j {
        assert(key_le(key_of(songs[i], flag), key_of(songs[k], flag)));
        assert(key_le(key_of(songs[k], flag), key_of(songs[j], flag)));
        lemma_key_le_antisymmetric(key_of(songs[i], flag), key_of(songs[k], flag));
    }
}

/// Two filter texts of the same lower-case form pass the same tracks, so
/// that the case of a filter text does not matter.
pub proof fn lemma_same_fold_same_view(songs: Seq<SongView>, first: Seq<char>, second: Seq<char>)
    requires
        lowercase_of(first) == lowercase_of(second),
    ensures
        filtered(songs, first) == filtered(songs, second),
    decreases songs.len(),
{
    reveal(Seq::filter);
    if songs.len() > 0 {
        lemma_same_fold_same_view(songs.drop_last(), first, second);
        assert(passes(songs.last(), first) == passes(songs.last(), second));
    }
}

/// A filter text whose lower-case form is that of the unknown label
/// passes every track one of whose cells shows the unknown label.
pub proof fn lemma_unknown_passes_defaulted(song: SongView, query: Seq<char>, cell: int)
    requires
        0 <= cell < 4,
        row_of(song)[cell] == unknown_label(),
    ensures
        lowercase_of(query) == lowercase_of(unknown_label()) ==> passes(song, query),
{
    if lowercase_of(query) == lowercase_of(unknown_label()) {
        let needle = lowercase_of(query);
        let cells = row_of(song).map_values(|c: Seq<char>| lowercase_of(c));
        let space = " "@;
        reveal_with_fuel(joined, 5);
        let three = cells.drop_last();
        let two = three.drop_last();
        let one = two.drop_last();
        assert(joined(one, space) == cells[0]);
        assert(joined(two, space) == cells[0] + space + cells[1]);
        assert(joined(three, space) == cells[0] + space + cells[1] + space + cells[2]);
        let hay = cells[0] + space + cells[1] + space + cells[2] + space + cells[3];
        assert(folded_row(song) == hay);
        assert(cells[cell] == needle);
        let start: int = if cell == 0 {
            0
        } else if cell == 1 {
            (cells[0] + space).len() as int
        } else if cell == 2 {
            (cells[0] + space + cells[1] + space).len() as int
        } else {
            (cells[0] + space + cells[1] + space + cells[2] + space).len() as int
        };
        assert(hay.subrange(start, start + needle.len()) =~= needle);
        assert(occurs_at(needle, hay, start));
    }
}

} // verus!
