//! A track: where its file lies and what its tags say.
use vstd::prelude::*;
use vstd::std_specs::cmp::PartialEqSpecImpl;
use vstd::string::{StrSliceExecFns, StringExecFns};
use crate::error::{Error, Unknown};
use crate::format::Format;
use crate::text::{
    find_last, join, joined, last_index_of, lemma_last_index_found, to_chars, views,
};
use crate::utils::{
    display_duration, duration_text, file_name, file_name_of, file_stem, stem_of, unknown_label,
};

verus! {

/// What a track's tags say of it. A field that the tags do not give is
/// `None`.
#[derive(Debug)]
pub struct Metadata {
    pub title: Option<String>,
    pub artist: Option<String>,
    pub album: Option<String>,
    pub duration: Option<u64>,
}

/// The mathematical value of a [`Metadata`].
pub struct MetadataView {
    pub title: Option<Seq<char>>,
    pub artist: Option<Seq<char>>,
    pub album: Option<Seq<char>>,
    pub duration: Option<u64>,
}

/// The characters of an optional string.
pub open spec fn text_of(text: Option<String>) -> Option<Seq<char>> {
    match text {
        Some(t) => Some(t@),
        None => None,
    }
}

impl View for Metadata {
    type V = MetadataView;

    open spec fn view(&self) -> MetadataView {
        MetadataView {
            title: text_of(self.title),
            artist: text_of(self.artist),
            album: text_of(self.album),
            duration: self.duration,
        }
    }
}

impl Clone for Metadata {
    fn clone(&self) -> (copy: Self)
        ensures
            copy == *self,
    {
        Metadata {
            title: self.title.clone(),
            artist: self.artist.clone(),
            album: self.album.clone(),
            duration: self.duration,
        }
    }
}

fn same_text(a: &Option<String>, b: &Option<String>) -> (same: bool)
    ensures
        same == (text_of(*a) == text_of(*b)),
{
    match a {
        Some(x) => match b {
            Some(y) => *x == *y,
            None => false,
        },
        None => b.is_none(),
    }
}

impl PartialEq for Metadata {
    fn eq(&self, other: &Self) -> (same: bool) {
        let durations = match self.duration {
            Some(a) => match other.duration {
                Some(b) => a == b,
                None => false,
            },
            None => other.duration.is_none(),
        };
        same_text(&self.title, &other.title) && same_text(&self.artist, &other.artist)
            && same_text(&self.album, &other.album) && durations
    }
}

impl PartialEqSpecImpl for Metadata {
    open spec fn obeys_eq_spec() -> bool {
        true
    }

    open spec fn eq_spec(&self, other: &Self) -> bool {
        self@ == other@
    }
}

/// The comment block of a FLAC file. A field may hold several values.
#[derive(Debug)]
pub struct VorbisComments {
    pub title: Option<Vec<String>>,
    pub artist: Option<Vec<String>>,
    pub album: Option<Vec<String>>,
}

/// The frames of an ID3 tag that the library reads.
#[derive(Debug)]
pub struct Id3Tag {
    pub title: Option<String>,
    pub artist: Option<String>,
    pub album: Option<String>,
    pub duration: Option<u32>,
}

/// What reading the tags of a file gave.
#[derive(Debug)]
pub enum Tags {
    /// The tags of a FLAC file, with its comment block if it has one.
    Flac(Option<VorbisComments>),
    /// The tag of an MP3 file.
    Mp3(Id3Tag),
    /// No tags: none were looked for, or they could not be read.
    Unread,
}

/// The values of a comment field as one string, a space between them.
pub open spec fn values_text(values: Option<Vec<String>>) -> Option<Seq<char>> {
    match values {
        Some(v) => Some(joined(views(v@), " "@)),
        None => None,
    }
}

/// Metadata without any field.
pub open spec fn empty_metadata() -> MetadataView {
    MetadataView { title: None, artist: None, album: None, duration: None }
}

/// The metadata of a file of container `format` whose tags read as `tags`
/// and whose audio stream, where it was probed, lasts `probed` seconds.
///
/// A FLAC file takes its duration from the stream alone. An MP3 file takes
/// it from its tag and, where the tag has none, from the stream. Tags that
/// do not fit the container, and containers without tags, give empty
/// metadata.
pub open spec fn extracted(format: Format, tags: Tags, probed: Option<u64>) -> MetadataView {
    match (format, tags) {
        (Format::FLAC, Tags::Flac(Some(comments))) => MetadataView {
            title: values_text(comments.title),
            artist: values_text(comments.artist),
            album: values_text(comments.album),
            duration: probed,
        },
        (Format::FLAC, Tags::Flac(None)) => MetadataView {
            title: None,
            artist: None,
            album: None,
            duration: probed,
        },
        (Format::MP3, Tags::Mp3(tag)) => MetadataView {
            title: text_of(tag.title),
            artist: text_of(tag.artist),
            album: text_of(tag.album),
            duration: match tag.duration {
                Some(d) => Some(d as u64),
                None => probed,
            },
        },
        _ => empty_metadata(),
    }
}

/// Whether the metadata of such a file depends on the length of its audio
/// stream, so that the stream has to be probed.
pub open spec fn probe_wanted(format: Format, tags: Tags) -> bool {
    match (format, tags) {
        (Format::FLAC, Tags::Flac(_)) => true,
        (Format::MP3, Tags::Mp3(tag)) => tag.duration is None,
        _ => false,
    }
}

fn values_string(values: &Option<Vec<String>>) -> (text: Option<String>)
    ensures
        text_of(text) == values_text(*values),
{
    match values {
        Some(v) => Some(join(v, " ")),
        None => None,
    }
}

impl Metadata {
    /// Metadata without any field.
    pub fn empty() -> (metadata: Metadata)
        ensures
            metadata@ == empty_metadata(),
    {
        Metadata { title: None, artist: None, album: None, duration: None }
    }

    /// Whether [`Metadata::new`] reads `probed` for these tags.
    pub fn wants_probe(format: Format, tags: &Tags) -> (wanted: bool)
        ensures
            wanted == probe_wanted(format, *tags),
    {
        match format {
            Format::FLAC => match tags {
                Tags::Flac(_) => true,
                _ => false,
            },
            Format::MP3 => match tags {
                Tags::Mp3(tag) => tag.duration.is_none(),
                _ => false,
            },
            _ => false,
        }
    }

    /// Builds the metadata of a file from what was read of it. It never
    /// fails: where the tags are missing or do not fit, every field is
    /// `None`.
    pub fn new(format: Format, tags: &Tags, probed: Option<u64>) -> (metadata: Metadata)
        ensures
            metadata@ == extracted(format, *tags, probed),
    {
        match format {
            Format::FLAC => match tags {
                Tags::Flac(Some(comments)) => Metadata {
                    title: values_string(&comments.title),
                    artist: values_string(&comments.artist),
                    album: values_string(&comments.album),
                    duration: probed,
                },
                Tags::Flac(None) => Metadata {
                    title: None,
                    artist: None,
                    album: None,
                    duration: probed,
                },
                _ => Metadata::empty(),
            },
            Format::MP3 => match tags {
                Tags::Mp3(tag) => Metadata {
                    title: tag.title.clone(),
                    artist: tag.artist.clone(),
                    album: tag.album.clone(),
                    duration: match tag.duration {
                        Some(d) => Some(d as u64),
                        None => probed,
                    },
                },
                _ => Metadata::empty(),
            },
            _ => Metadata::empty(),
        }
    }
}

/// A track: the directory of its file, the name of the file in that
/// directory, and its metadata. The directory does not include the file
/// name; the two together are the file's path.
#[derive(Debug)]
pub struct Song {
    pub directory: String,
    pub file_name: String,
    pub metadata: Metadata,
}

/// The mathematical value of a [`Song`]. Two tracks are the same track
/// where their values are equal.
pub struct SongView {
    pub directory: Seq<char>,
    pub file_name: Seq<char>,
    pub metadata: MetadataView,
}

impl View for Song {
    type V = SongView;

    open spec fn view(&self) -> SongView {
        SongView {
            directory: self.directory@,
            file_name: self.file_name@,
            metadata: self.metadata@,
        }
    }
}

impl Clone for Song {
    fn clone(&self) -> (copy: Self)
        ensures
            copy == *self,
    {
        Song {
            directory: self.directory.clone(),
            file_name: self.file_name.clone(),
            metadata: self.metadata.clone(),
        }
    }
}

impl PartialEq for Song {
    fn eq(&self, other: &Self) -> (same: bool) {
        self.directory == other.directory && self.file_name == other.file_name
            && self.metadata == other.metadata
    }
}

impl PartialEqSpecImpl for Song {
    open spec fn obeys_eq_spec() -> bool {
        true
    }

    open spec fn eq_spec(&self, other: &Self) -> bool {
        self@ == other@
    }
}

/// The directory part of a path whose components are separated by `/`:
/// what precedes the last `/`, the root itself for a file in the root, and
/// nothing for a bare file name.
///
/// Paths are taken as text and split at the last `/`; nothing is
/// normalised. So, unlike `std::path`, a trailing `/` leaves an empty file
/// name, a doubled `/` stays in the directory, and no other character
/// separates components. The paths that a walk of a directory hands out
/// on a system that separates by `/` are [`plain`], and on plain paths
/// splitting and joining undo each other: see [`lemma_split_joins`].
pub open spec fn directory_of(path: Seq<char>) -> Seq<char> {
    match last_index_of(path, '/') {
        None => Seq::empty(),
        Some(i) => if i == 0 {
            path.subrange(0, 1)
        } else {
            path.subrange(0, i)
        },
    }
}

/// The path of the file `file_name` in `directory`: the two with a `/`
/// between them, and without it where the directory is empty or ends in
/// `/`. Unlike the join of `std::path`, a file name that begins with `/`
/// does not take the place of the directory.
pub open spec fn path_of(directory: Seq<char>, file_name: Seq<char>) -> Seq<char> {
    if directory.len() == 0 {
        file_name
    } else if directory.last() == '/' {
        directory + file_name
    } else {
        directory + "/"@ + file_name
    }
}

/// Whether the last `/` of a path does not follow another `/`.
pub open spec fn plain(path: Seq<char>) -> bool {
    match last_index_of(path, '/') {
        Some(i) => i == 0 || path[i - 1] != '/',
        None => true,
    }
}

/// A plain path is the path of its file name in its directory.
pub proof fn lemma_split_joins(path: Seq<char>)
    requires
        plain(path),
    ensures
        path_of(directory_of(path), file_name_of(path)) == path,
{
    lemma_last_index_found(path, '/');
    reveal_strlit("/");
    match last_index_of(path, '/') {
        Some(i) => {
            if i == 0 {
                assert(path.subrange(0, 1) + path.subrange(1, path.len() as int) =~= path);
            } else {
                assert(path.subrange(0, i) + "/"@ + path.subrange(i + 1, path.len() as int)
                    =~= path);
            }
        },
        None => {},
    }
}

/// A text field as it is shown: the unknown label where it is missing.
pub open spec fn shown(text: Option<Seq<char>>) -> Seq<char> {
    match text {
        Some(t) => t,
        None => unknown_label(),
    }
}

/// The title under which a track is shown: its title tag, else the stem
/// of its file name, else the unknown label.
pub open spec fn shown_title(song: SongView) -> Seq<char> {
    match song.metadata.title {
        Some(t) => t,
        None => if song.file_name.len() == 0 {
            unknown_label()
        } else {
            stem_of(song.file_name)
        },
    }
}

/// The cells of a track's display row: title, album, artist, duration.
pub open spec fn row_of(song: SongView) -> Seq<Seq<char>> {
    seq![
        shown_title(song),
        shown(song.metadata.album),
        shown(song.metadata.artist),
        duration_text(song.metadata.duration),
    ]
}

fn shown_text(text: &Option<String>) -> (cell: String)
    ensures
        cell@ == shown(text_of(*text)),
{
    match text {
        Some(t) => t.clone(),
        None => "Unknown".to_owned(),
    }
}

fn directory_part(path: &str) -> (directory: String)
    ensures
        directory@ == directory_of(path@),
{
    let chars = to_chars(path);
    match find_last(&chars, '/') {
        None => String::new(),
        Some(i) => {
            if i == 0 {
                path.substring_char(0, 1).to_owned()
            } else {
                path.substring_char(0, i).to_owned()
            }
        },
    }
}

impl Song {
    /// Builds the track of the file at `path` from what was read of the
    /// file. Fails with [`Unknown`] where the path does not name a file of
    /// a known container: see [`Format::of_path`].
    pub fn new(path: &str, tags: &Tags, probed: Option<u64>) -> (song: Result<Song, Error>)
        ensures
            match Format::of_path(path@) {
                Some(format) => song matches Ok(s) && s@ == (SongView {
                    directory: directory_of(path@),
                    file_name: file_name_of(path@),
                    metadata: extracted(format, *tags, probed),
                }),
                None => song matches Err(e) && e == Error::Unknown(Unknown),
            },
            song is Ok && plain(path@) ==> path_of(song->Ok_0@.directory, song->Ok_0@.file_name)
                == path@,
    {
        proof {
            if plain(path@) {
                lemma_split_joins(path@);
            }
        }
        match Format::new(path) {
            Ok(format) => Ok(
                Song {
                    directory: directory_part(path),
                    file_name: file_name(path),
                    metadata: Metadata::new(format, tags, probed),
                },
            ),
            Err(e) => Err(e),
        }
    }

    /// The path of the track's file.
    pub fn path(&self) -> (path: String)
        ensures
            path@ == path_of(self@.directory, self@.file_name),
    {
        let directory = to_chars(self.directory.as_str());
        if directory.len() == 0 {
            self.file_name.clone()
        } else if directory[directory.len() - 1] == '/' {
            self.directory.clone().concat(self.file_name.as_str())
        } else {
            self.directory.clone().concat("/").concat(self.file_name.as_str())
        }
    }

    /// The cells of the track's display row: title, album, artist and
    /// duration, each with its fallback where the tags say nothing.
    pub fn row(&self) -> (cells: Vec<String>)
        ensures
            views(cells@) == row_of(self@),
    {
        let title = match &self.metadata.title {
            Some(t) => t.clone(),
            None => {
                if to_chars(self.file_name.as_str()).len() == 0 {
                    "Unknown".to_owned()
                } else {
                    file_stem(self.file_name.as_str())
                }
            },
        };
        let mut cells: Vec<String> = Vec::new();
        cells.push(title);
        cells.push(shown_text(&self.metadata.album));
        cells.push(shown_text(&self.metadata.artist));
        cells.push(display_duration(self.metadata.duration));
        assert(views(cells@) =~= row_of(self@));
        cells
    }
}

} // verus!
