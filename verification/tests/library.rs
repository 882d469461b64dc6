use ultra::config::Config;
use ultra::error::Error;
use ultra::library::{
    is_sorted, sort_key, Flag, Library, Record, Root, Startup, Timestamp, Write,
};
use ultra::song::{Id3Tag, Metadata, Song, Tags, VorbisComments};
use ultra::utils::{get_snapshot, Entry};

fn track(name: &str, title: Option<&str>, artist: Option<&str>, duration: Option<u64>) -> Song {
    Song {
        directory: "/music".to_string(),
        file_name: name.to_string(),
        metadata: Metadata {
            title: title.map(|t| t.to_string()),
            artist: artist.map(|t| t.to_string()),
            album: None,
            duration,
        },
    }
}

fn library_of(cache: Vec<Song>) -> Library {
    let mut library = Library::default();
    library.record.pos = "/music".to_string();
    library.record.cache = cache;
    library
}

fn names(songs: &[Song]) -> Vec<String> {
    songs.iter().map(|s| s.file_name.clone()).collect()
}

fn config_at(root: &str) -> Config {
    Config {
        overlay_background: None,
        theme: None,
        lib_pos: Some(root.to_string()),
        db_pos: None,
        volume: None,
        debug: None,
    }
}

fn stamp(seconds: u64) -> Timestamp {
    Timestamp { seconds, nanos: 0 }
}

#[test]
fn sort_keys() {
    let song = track("a.mp3", Some("T"), None, Some(7));
    assert_eq!(sort_key(&song, Flag::Title), (0, "T".to_string()));
    assert_eq!(sort_key(&song, Flag::Artist), (0, "Unknown".to_string()));
    assert_eq!(sort_key(&song, Flag::Duration), (7, String::new()));
    let bare = track("b.mp3", None, None, None);
    assert_eq!(sort_key(&bare, Flag::Title), (0, "Unknown".to_string()));
    assert_eq!(sort_key(&bare, Flag::Duration), (0, String::new()));
}

#[test]
fn the_first_view_of_a_snapshot_is_sorted() {
    let mut library = library_of(vec![
        track("c.mp3", Some("C"), None, None),
        track("a.mp3", Some("A"), None, None),
    ]);
    assert!(!library.sorted);
    let view = library.songs(Flag::Title, None).unwrap();
    assert_eq!(names(&view), vec!["a.mp3", "c.mp3"]);
    assert_eq!(names(&library.record.cache), vec!["a.mp3", "c.mp3"]);
    assert!(library.sorted);
}

#[test]
fn a_new_snapshot_is_sorted_by_the_next_view() {
    let mut library = library_of(vec![track("x.mp3", None, Some("x"), None)]);
    library.songs(Flag::Artist, None).unwrap();
    let loaded = vec![
        Ok(track("b.mp3", None, Some("b"), None)),
        Ok(track("a.mp3", None, Some("a"), None)),
    ];
    let planned = library.commit(false, &loaded, stamp(2));
    library.sync(planned, Ok(())).unwrap();
    assert!(!library.sorted);
    assert_eq!(names(&library.record.cache), vec!["b.mp3", "a.mp3"]);
    let view = library.songs(Flag::Artist, Some("mp3".to_string())).unwrap();
    assert!(view.is_empty());
    assert_eq!(names(&library.record.cache), vec!["a.mp3", "b.mp3"]);
}

#[test]
fn sorting_by_artist_is_stable_and_persists() {
    let mut library = library_of(vec![
        track("1.mp3", None, Some("b"), None),
        track("2.mp3", None, Some("a"), None),
        track("3.mp3", None, Some("b"), None),
        track("4.mp3", None, Some("a"), None),
        track("5.mp3", None, Some("B"), None),
    ]);
    let view = library.songs(Flag::Artist, None).unwrap();
    assert_eq!(names(&view), vec!["5.mp3", "2.mp3", "4.mp3", "1.mp3", "3.mp3"]);
    assert_eq!(library.flag, Flag::Artist);
    assert_eq!(names(&library.record.cache), names(&view));
    library.record.cache.swap(0, 4);
    let again = library.songs(Flag::Artist, None).unwrap();
    assert_eq!(names(&again), vec!["3.mp3", "2.mp3", "4.mp3", "1.mp3", "5.mp3"]);
}

#[test]
fn sorting_by_duration_puts_unknown_first() {
    let mut library = library_of(vec![
        track("long.mp3", None, None, Some(300)),
        track("none.mp3", None, None, None),
        track("short.mp3", None, None, Some(1)),
        track("zero.mp3", None, None, Some(0)),
    ]);
    let view = library.songs(Flag::Duration, None).unwrap();
    assert_eq!(names(&view), vec!["none.mp3", "zero.mp3", "short.mp3", "long.mp3"]);
}

#[test]
fn sorting_by_title_treats_missing_as_unknown() {
    let mut library = library_of(vec![
        track("z.mp3", Some("Zebra"), None, None),
        track("m1.mp3", None, None, None),
        track("u.mp3", Some("Unknown"), None, None),
        track("a.mp3", Some("Apple"), None, None),
        track("m2.mp3", None, None, None),
        track("l.mp3", Some("apple"), None, None),
    ]);
    library.flag = Flag::Duration;
    let view = library.songs(Flag::Title, None).unwrap();
    assert_eq!(names(&view), vec!["a.mp3", "m1.mp3", "u.mp3", "m2.mp3", "z.mp3", "l.mp3"]);
}

#[test]
fn filtering_ignores_case_and_keeps_order() {
    let mut library = library_of(vec![
        track("1.mp3", Some("Blue Moon"), Some("X"), Some(61)),
        track("2.mp3", Some("Red Sun"), Some("moonlight"), None),
        track("3.mp3", Some("Green"), Some("Y"), None),
    ]);
    let view = library.songs(Flag::Title, Some("MOON".to_string())).unwrap();
    assert_eq!(names(&view), vec!["1.mp3", "2.mp3"]);
    let by_duration = library.songs(Flag::Title, Some("01:01".to_string())).unwrap();
    assert_eq!(names(&by_duration), vec!["1.mp3"]);
    let across = library.songs(Flag::Title, Some("sun unknown moon".to_string())).unwrap();
    assert_eq!(names(&across), vec!["2.mp3"]);
    let none = library.songs(Flag::Title, Some("purple".to_string())).unwrap();
    assert!(none.is_empty());
    assert_eq!(library.record.cache.len(), 3);
}

#[test]
fn filtering_folds_letters_beyond_ascii() {
    let mut library = library_of(vec![track("1.mp3", Some("ÉTÉ"), None, None)]);
    assert_eq!(library.songs(Flag::Title, Some("été".to_string())).unwrap().len(), 1);
    assert_eq!(library.songs(Flag::Title, Some("Été".to_string())).unwrap().len(), 1);
}

#[test]
fn an_empty_filter_selects_everything() {
    let mut library = library_of(vec![
        track("1.mp3", Some("a"), None, None),
        track("2.mp3", Some("b"), None, None),
    ]);
    assert_eq!(library.songs(Flag::Title, Some(String::new())).unwrap().len(), 2);
    assert_eq!(library.songs(Flag::Title, None).unwrap().len(), 2);
}

#[test]
fn filtering_by_unknown_matches_defaulted_cells() {
    let mut library = library_of(vec![
        track("full.mp3", Some("T"), Some("A"), Some(5)),
        track("no artist.mp3", Some("T"), None, Some(5)),
        track("no title.mp3", None, Some("A"), Some(5)),
    ]);
    library.record.cache[0].metadata.album = Some("Album".to_string());
    library.record.cache[2].metadata.album = Some("Album".to_string());
    for query in ["unknown", "UNKNOWN", "Unknown", "uNkNoWn"] {
        let view = library.songs(Flag::Title, Some(query.to_string())).unwrap();
        assert_eq!(names(&view), vec!["no artist.mp3"]);
    }
}

#[test]
fn a_fresh_record_is_adopted() {
    let mut library = Library::default();
    let cached = vec![track("b.mp3", Some("B"), None, None), track("a.mp3", Some("A"), None, None)];
    let record = Record { pos: "/music".to_string(), cache: cached.clone(), modified: Some(stamp(10)) };
    let plan = library.bootstrap(&config_at("/music"), stamp(10), Ok(Some(record))).unwrap();
    assert_eq!(plan, Startup::Adopted);
    assert!(!library.sorted);
    assert_eq!(library.record.cache, cached);
    assert_eq!(library.record.pos, "/music");
    assert_eq!(library.record.modified, Some(stamp(10)));
}

#[test]
fn a_stale_record_is_replaced() {
    let mut library = library_of(vec![track("kept.mp3", None, None, None)]);
    library.record.modified = Some(stamp(1));
    let record = Record {
        pos: "/music".to_string(),
        cache: vec![track("b.mp3", None, None, None)],
        modified: Some(stamp(10)),
    };
    let plan = library.bootstrap(&config_at("/music"), stamp(11), Ok(Some(record))).unwrap();
    assert_eq!(plan, Startup::Commit { append: false });
    assert_eq!(names(&library.record.cache), vec!["kept.mp3"]);
    assert_eq!(library.record.modified, Some(stamp(1)));
    let by_nanos = Record { pos: "/music".to_string(), cache: vec![], modified: Some(stamp(11)) };
    let live = Timestamp { seconds: 11, nanos: 1 };
    assert_eq!(
        library.bootstrap(&config_at("/music"), live, Ok(Some(by_nanos))).unwrap(),
        Startup::Commit { append: false }
    );
    let undated = Record { pos: "/music".to_string(), cache: vec![], modified: None };
    assert_eq!(
        library.bootstrap(&config_at("/music"), live, Ok(Some(undated))).unwrap(),
        Startup::Commit { append: false }
    );
}

#[test]
fn a_missing_record_is_added() {
    let mut library = Library::default();
    let plan = library.bootstrap(&config_at("/music"), stamp(3), Ok(None)).unwrap();
    assert_eq!(plan, Startup::Commit { append: true });
    assert_eq!(library.record.pos, "/music");
    assert_eq!(library.record.modified, None);
}

#[test]
fn a_failed_fetch_is_handed_on() {
    let mut library = library_of(vec![track("kept.mp3", None, None, None)]);
    library.record.pos = "/old".to_string();
    let failed = Err(Error::StoreFailure(ultra::error::StoreFailure("disk".to_string())));
    match library.bootstrap(&config_at("/music"), stamp(3), failed) {
        Err(Error::StoreFailure(e)) => assert_eq!(e.0, "disk"),
        _ => panic!("the fetch failed"),
    }
    assert_eq!(library.record.pos, "/old");
    assert_eq!(names(&library.record.cache), vec!["kept.mp3"]);
    assert_eq!(library.record.modified, None);
    let broken = Err(Error::BrokenConnection(ultra::error::BrokenConnection));
    assert!(matches!(
        library.bootstrap(&config_at("/music"), stamp(3), broken),
        Err(Error::BrokenConnection(_))
    ));
}

#[test]
fn committing_installs_the_snapshot_once_it_is_stored() {
    let mut library = library_of(vec![track("old.mp3", None, None, None)]);
    library.flag = Flag::Artist;
    let loaded = vec![
        Ok(track("b.mp3", None, None, None)),
        Err(Error::Unknown(ultra::error::Unknown)),
        Ok(track("a.mp3", None, None, None)),
    ];
    let planned = library.commit(false, &loaded, stamp(20));
    assert_eq!(planned.writes, vec![Write::Delete, Write::Insert]);
    assert_eq!(names(&planned.record.cache), vec!["b.mp3", "a.mp3"]);
    assert_eq!(planned.record.modified, Some(stamp(20)));
    assert_eq!(planned.record.pos, "/music");
    assert_eq!(names(&library.record.cache), vec!["old.mp3"]);
    assert_eq!(library.record.modified, None);
    assert!(library.sync(planned, Ok(())).is_ok());
    assert_eq!(names(&library.record.cache), vec!["b.mp3", "a.mp3"]);
    assert_eq!(library.record.modified, Some(stamp(20)));
    assert_eq!(library.record.pos, "/music");
    assert_eq!(library.flag, Flag::Artist);
    assert!(!library.sorted);
    let empty = library.commit(true, &vec![], stamp(21));
    assert_eq!(empty.writes, vec![Write::Insert]);
    assert!(empty.record.cache.is_empty());
}

#[test]
fn a_failed_write_leaves_the_last_snapshot() {
    let mut library = library_of(vec![track("old.mp3", None, Some("x"), None)]);
    library.record.modified = Some(stamp(5));
    library.songs(Flag::Artist, None).unwrap();
    let loaded = vec![Ok(track("new.mp3", None, None, None))];
    let planned = library.commit(false, &loaded, stamp(20));
    let failed = Err(Error::BrokenConnection(ultra::error::BrokenConnection));
    assert!(matches!(library.sync(planned, failed), Err(Error::BrokenConnection(_))));
    assert_eq!(names(&library.record.cache), vec!["old.mp3"]);
    assert_eq!(library.record.modified, Some(stamp(5)));
    assert!(library.sorted);
    assert_eq!(library.flag, Flag::Artist);
}

#[test]
fn validating_takes_a_wrong_mark_away() {
    let mut library = library_of(vec![
        track("b.mp3", Some("b"), None, None),
        track("a.mp3", Some("a"), None, None),
    ]);
    assert!(!is_sorted(&library.record.cache, Flag::Title));
    assert!(is_sorted(&library.record.cache, Flag::Artist));
    library.sorted = true;
    library.validate();
    assert!(!library.sorted);
    assert_eq!(names(&library.record.cache), vec!["b.mp3", "a.mp3"]);
    library.songs(Flag::Title, None).unwrap();
    assert!(is_sorted(&library.record.cache, Flag::Title));
    library.validate();
    assert!(library.sorted);
    assert!(is_sorted(&vec![], Flag::Duration));
    let by_length = vec![
        track("1.mp3", None, None, None),
        track("2.mp3", None, None, Some(3)),
        track("3.mp3", None, None, Some(3)),
        track("4.mp3", None, None, Some(9)),
    ];
    assert!(is_sorted(&by_length, Flag::Duration));
    let unordered = vec![track("1.mp3", None, None, Some(2)), track("2.mp3", None, None, Some(1))];
    assert!(!is_sorted(&unordered, Flag::Duration));
}

#[test]
fn the_case_of_a_filter_does_not_matter() {
    let mut library = library_of(vec![
        track("1.mp3", Some("One"), Some("UNKNOWN BAND"), Some(5)),
        track("2.mp3", Some("Two"), Some("Known"), Some(5)),
        track("3.mp3", Some("Three"), Some("Band"), Some(5)),
    ]);
    for song in library.record.cache.iter_mut() {
        song.metadata.album = Some("Album".to_string());
    }
    let lower = library.songs(Flag::Title, Some("unknown".to_string())).unwrap();
    assert_eq!(names(&lower), vec!["1.mp3"]);
    for query in ["UNKNOWN", "UnKnown", "unknown band"] {
        assert_eq!(library.songs(Flag::Title, Some(query.to_string())).unwrap(), lower);
    }
}

#[test]
fn cleaning_up_names_the_roots_that_are_gone() {
    let roots = vec![
        Root { pos: "/a".to_string(), exists: true },
        Root { pos: "/b".to_string(), exists: false },
        Root { pos: "/c".to_string(), exists: true },
        Root { pos: "/d".to_string(), exists: false },
    ];
    assert_eq!(Library::clean_up(&roots), vec!["/b", "/d"]);
    assert!(Library::clean_up(&vec![]).is_empty());
}

fn entry(path: &str, names: &[&str], file: bool) -> Entry {
    Entry {
        path: path.to_string(),
        names: names.iter().map(|n| n.to_string()).collect(),
        file,
    }
}

#[test]
fn scanning_skips_hidden_directories() {
    let entries = vec![
        entry("/root", &["root"], false),
        entry("/root/a.flac", &["root", "a.flac"], true),
        entry("/root/.hidden", &["root", ".hidden"], false),
        entry("/root/.hidden/b.mp3", &["root", ".hidden", "b.mp3"], true),
    ];
    let paths = get_snapshot(&entries);
    assert_eq!(paths, vec!["/root/a.flac"]);
    let tags = Tags::Flac(Some(VorbisComments {
        title: Some(vec!["Foo".to_string()]),
        artist: Some(vec!["Bar".to_string()]),
        album: None,
    }));
    let loaded: Vec<Result<Song, Error>> =
        paths.iter().map(|p| Song::new(p, &tags, None)).collect();
    let mut library = Library::default();
    let planned = library.commit(true, &loaded, stamp(1));
    library.sync(planned, Ok(())).unwrap();
    assert_eq!(library.record.cache.len(), 1);
    let only = &library.record.cache[0];
    assert_eq!(only.file_name, "a.flac");
    assert_eq!(only.metadata.title, Some("Foo".to_string()));
    assert_eq!(only.metadata.artist, Some("Bar".to_string()));
    assert_eq!(only.metadata.duration, None);
}

#[test]
fn scanning_keeps_regular_files_of_supported_extensions() {
    let entries = vec![
        entry("/r/a.mp3", &["r", "a.mp3"], true),
        entry("/r/b.MP3", &["r", "b.MP3"], true),
        entry("/r/c.ogg", &["r", "c.ogg"], false),
        entry("/r/d.txt", &["r", "d.txt"], true),
        entry("/r/.e.wav", &["r", ".e.wav"], true),
        entry("/r/sub/f.wav", &["r", "sub", "f.wav"], true),
        entry("/r/g", &["r", "g"], true),
        entry("/r/h.ogg", &["r", "h.ogg"], true),
    ];
    assert_eq!(get_snapshot(&entries), vec!["/r/a.mp3", "/r/sub/f.wav", "/r/h.ogg"]);
    let under_hidden_root = vec![entry("/.r/a.mp3", &[".r", "a.mp3"], true)];
    assert!(get_snapshot(&under_hidden_root).is_empty());
}

#[test]
fn id3_duration_is_taken_as_it_is() {
    let tags = Tags::Mp3(Id3Tag { title: None, artist: None, album: None, duration: Some(u32::MAX) });
    let song = Song::new("/r/a.mp3", &tags, Some(1)).unwrap();
    assert_eq!(song.metadata.duration, Some(4_294_967_295));
}
