use ultra::error::Error;
use ultra::format::Format;
use ultra::song::{Id3Tag, Metadata, Song, Tags, VorbisComments};

fn text(value: &str) -> Option<String> {
    Some(value.to_string())
}

fn mp3_tag(title: Option<&str>, duration: Option<u32>) -> Tags {
    Tags::Mp3(Id3Tag {
        title: title.map(|t| t.to_string()),
        artist: text("Artist"),
        album: text("Album"),
        duration,
    })
}

#[test]
fn flac_metadata_joins_values_and_probes_duration() {
    let tags = Tags::Flac(Some(VorbisComments {
        title: Some(vec!["Foo".to_string(), "Part 2".to_string()]),
        artist: Some(vec!["Bar".to_string()]),
        album: None,
    }));
    assert!(Metadata::wants_probe(Format::FLAC, &tags));
    let metadata = Metadata::new(Format::FLAC, &tags, Some(215));
    assert_eq!(metadata.title, text("Foo Part 2"));
    assert_eq!(metadata.artist, text("Bar"));
    assert_eq!(metadata.album, None);
    assert_eq!(metadata.duration, Some(215));
    let unprobed = Metadata::new(Format::FLAC, &tags, None);
    assert_eq!(unprobed.duration, None);
}

#[test]
fn flac_without_comment_block_has_only_a_duration() {
    let tags = Tags::Flac(None);
    assert!(Metadata::wants_probe(Format::FLAC, &tags));
    let metadata = Metadata::new(Format::FLAC, &tags, Some(9));
    assert_eq!(metadata.title, None);
    assert_eq!(metadata.artist, None);
    assert_eq!(metadata.album, None);
    assert_eq!(metadata.duration, Some(9));
}

#[test]
fn mp3_metadata_prefers_the_duration_of_the_tag() {
    let tagged = mp3_tag(Some("Song"), Some(180));
    assert!(!Metadata::wants_probe(Format::MP3, &tagged));
    let metadata = Metadata::new(Format::MP3, &tagged, Some(999));
    assert_eq!(metadata.title, text("Song"));
    assert_eq!(metadata.artist, text("Artist"));
    assert_eq!(metadata.album, text("Album"));
    assert_eq!(metadata.duration, Some(180));
}

#[test]
fn mp3_metadata_falls_back_to_the_probed_duration() {
    let untimed = mp3_tag(None, None);
    assert!(Metadata::wants_probe(Format::MP3, &untimed));
    let metadata = Metadata::new(Format::MP3, &untimed, Some(42));
    assert_eq!(metadata.title, None);
    assert_eq!(metadata.duration, Some(42));
    assert_eq!(Metadata::new(Format::MP3, &untimed, None).duration, None);
}

#[test]
fn unread_tags_and_other_containers_give_empty_metadata() {
    let empty = Metadata::empty();
    assert_eq!(Metadata::new(Format::FLAC, &Tags::Unread, Some(5)), empty);
    assert_eq!(Metadata::new(Format::MP3, &Tags::Unread, Some(5)), empty);
    assert_eq!(Metadata::new(Format::WAV, &Tags::Unread, Some(5)), empty);
    assert_eq!(Metadata::new(Format::OGG, &mp3_tag(Some("x"), Some(1)), Some(5)), empty);
    assert_eq!(Metadata::new(Format::Unsupported, &Tags::Flac(None), Some(5)), empty);
    assert_eq!(Metadata::new(Format::FLAC, &mp3_tag(Some("x"), Some(1)), Some(5)), empty);
    assert_eq!(Metadata::new(Format::MP3, &Tags::Flac(None), Some(5)), empty);
    assert!(!Metadata::wants_probe(Format::WAV, &Tags::Unread));
    assert!(!Metadata::wants_probe(Format::FLAC, &Tags::Unread));
    assert!(!Metadata::wants_probe(Format::MP3, &Tags::Flac(None)));
}

#[test]
fn a_track_splits_its_path() {
    let song = Song::new("/music/rock/a.mp3", &mp3_tag(Some("A"), Some(1)), None).unwrap();
    assert_eq!(song.directory, "/music/rock");
    assert_eq!(song.file_name, "a.mp3");
    assert_eq!(song.path(), "/music/rock/a.mp3");
    let root = Song::new("/a.wav", &Tags::Unread, None).unwrap();
    assert_eq!(root.directory, "/");
    assert_eq!(root.file_name, "a.wav");
    assert_eq!(root.path(), "/a.wav");
    let bare = Song::new("a.ogg", &Tags::Unread, None).unwrap();
    assert_eq!(bare.directory, "");
    assert_eq!(bare.file_name, "a.ogg");
    assert_eq!(bare.path(), "a.ogg");
    assert!(!song.directory.ends_with("a.mp3"));
}

#[test]
fn a_track_needs_a_known_container() {
    assert!(matches!(Song::new("/music/a.txt", &Tags::Unread, None), Err(Error::Unknown(_))));
    assert!(matches!(Song::new("/music/a", &Tags::Unread, None), Err(Error::Unknown(_))));
    assert!(matches!(Song::new("/music/", &Tags::Unread, None), Err(Error::Unknown(_))));
    assert!(matches!(Song::new("", &Tags::Unread, None), Err(Error::Unknown(_))));
}

#[test]
fn row_shows_fallbacks() {
    let song = Song::new("/m/track one.wav", &Tags::Unread, None).unwrap();
    assert_eq!(song.row(), vec!["track one", "Unknown", "Unknown", "Unknown"]);
    let tagged = Song::new("/m/b.mp3", &mp3_tag(Some("Title"), Some(61)), None).unwrap();
    assert_eq!(tagged.row(), vec!["Title", "Album", "Artist", "01:01"]);
    let nameless = Song {
        directory: "/m".to_string(),
        file_name: String::new(),
        metadata: Metadata::empty(),
    };
    assert_eq!(nameless.row(), vec!["Unknown", "Unknown", "Unknown", "Unknown"]);
}

#[test]
fn tracks_are_equal_by_value() {
    let a = Song::new("/m/b.mp3", &mp3_tag(Some("Title"), Some(61)), None).unwrap();
    let b = Song::new("/m/b.mp3", &mp3_tag(Some("Title"), Some(61)), None).unwrap();
    let c = Song::new("/m/b.mp3", &mp3_tag(Some("Title"), Some(62)), None).unwrap();
    let d = Song::new("/n/b.mp3", &mp3_tag(Some("Title"), Some(61)), None).unwrap();
    let e = Song::new("/m/b.mp3", &mp3_tag(None, Some(61)), None).unwrap();
    assert_eq!(a, b);
    assert_eq!(a, a.clone());
    assert_ne!(a, c);
    assert_ne!(a, d);
    assert_ne!(a, e);
}
