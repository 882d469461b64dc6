use ultra::config::Config;
use ultra::error::Error;
use ultra::player::{Command, Mode, Player, Ratio, Status};
use ultra::song::{Metadata, Song};
use ultra::Launch;

fn track(name: &str, duration: Option<u64>) -> Song {
    Song {
        directory: "/music".to_string(),
        file_name: name.to_string(),
        metadata: Metadata { title: None, artist: None, album: None, duration },
    }
}

fn volume_config(volume: Option<u64>) -> Config {
    Config {
        overlay_background: None,
        theme: None,
        lib_pos: None,
        db_pos: None,
        volume,
        debug: None,
    }
}

#[test]
fn a_new_player_is_at_rest() {
    let player = Player::new(40);
    assert_eq!(player.volume, 40);
    assert_eq!(player.mode, Mode::Sequential);
    assert!(player.current.is_none());
    assert!(player.history.is_empty());
    assert_eq!(player.status(), Status::Idle);
    assert_eq!(player.elapsed, 0);
    assert_eq!(Player::new(101).volume, 100);
    assert_eq!(Player::default().volume, 0);
    assert_eq!(Mode::default(), Mode::Sequential);
}

#[test]
fn the_first_track_starts_and_the_same_track_pauses() {
    let a = track("a.mp3", Some(100));
    let mut player = Player::new(50);
    assert_eq!(player.command(&a), Command::Start);
    assert_eq!(player.handle(&a, true).unwrap(), Command::Start);
    assert!(player.occupied);
    assert!(!player.paused);
    assert_eq!(player.current, Some(a.clone()));
    assert_eq!(player.status(), Status::Playing);
    assert_eq!(player.handle(&a, true).unwrap(), Command::Pause);
    assert!(player.paused);
    assert!(player.occupied);
    assert_eq!(player.status(), Status::Paused);
    assert_eq!(player.current, Some(a));
}

#[test]
fn the_same_track_toggles_between_pause_and_play() {
    let a = track("a.mp3", None);
    let mut player = Player::new(50);
    player.handle(&a, true).unwrap();
    let generation = player.generation;
    for call in 1..=10 {
        let command = player.handle(&a, false).unwrap();
        if call % 2 == 1 {
            assert_eq!(command, Command::Pause);
            assert!(player.paused);
        } else {
            assert_eq!(command, Command::Resume);
            assert!(!player.paused);
        }
        assert!(player.occupied);
        assert_eq!(player.generation, generation);
    }
    assert_eq!(player.history, vec![a]);
}

#[test]
fn another_track_switches() {
    let a = track("a.mp3", None);
    let b = track("b.mp3", None);
    let mut player = Player::new(50);
    player.handle(&a, true).unwrap();
    player.handle(&a, true).unwrap();
    assert!(player.paused);
    assert_eq!(player.command(&b), Command::Switch);
    assert_eq!(player.handle(&b, true).unwrap(), Command::Switch);
    assert_eq!(player.current, Some(b.clone()));
    assert!(player.occupied);
    assert!(!player.paused);
    assert!(player.switched);
    assert_eq!(player.generation, 2);
    assert_eq!(player.history, vec![a, b]);
}

#[test]
fn a_track_that_does_not_open_is_remembered_and_changes_nothing_else() {
    let a = track("a.mp3", None);
    let b = track("b.mp3", None);
    let mut player = Player::new(50);
    assert!(matches!(player.handle(&a, false), Err(Error::Unplayable(_))));
    assert!(player.current.is_none());
    assert_eq!(player.history, vec![a.clone()]);
    assert!(!player.occupied);
    assert_eq!(player.generation, 0);
    player.handle(&a, true).unwrap();
    player.elapsed = 7;
    assert!(matches!(player.handle(&b, false), Err(Error::Unplayable(_))));
    assert_eq!(player.current, Some(a.clone()));
    assert_eq!(player.history, vec![a, b]);
    assert!(player.occupied);
    assert!(!player.paused);
    assert!(!player.switched);
    assert_eq!(player.generation, 1);
    assert_eq!(player.elapsed, 7);
    assert_eq!(player.volume, 50);
    assert_eq!(player.mode, Mode::Sequential);
}

#[test]
fn history_keeps_first_seen_order_across_failures() {
    let a = track("a.mp3", None);
    let b = track("b.mp3", None);
    let mut player = Player::new(50);
    assert!(player.handle(&a, false).is_err());
    player.handle(&b, true).unwrap();
    player.handle(&a, true).unwrap();
    assert_eq!(player.history, vec![a.clone(), b.clone()]);
    let c = track("c.mp3", None);
    let mut fresh = Player::new(50);
    for song in [&a, &b, &a, &c, &b] {
        fresh.handle(song, true).unwrap();
    }
    assert_eq!(fresh.history, vec![a, b, c]);
}

#[test]
fn history_holds_each_track_once_in_first_seen_order() {
    let a = track("a.mp3", None);
    let b = track("b.mp3", None);
    let c = track("c.mp3", None);
    let mut player = Player::new(50);
    for song in [&b, &a, &b, &b, &c, &a, &c, &b] {
        player.handle(song, true).unwrap();
    }
    assert_eq!(player.history, vec![b, a, c]);
}

#[test]
fn a_track_that_ended_starts_again() {
    let a = track("a.mp3", None);
    let mut player = Player::new(50);
    player.handle(&a, true).unwrap();
    assert!(player.watch(1, false));
    assert!(player.occupied);
    assert!(player.watch(1, true));
    assert!(!player.occupied);
    assert!(!player.watch(1, true));
    assert_eq!(player.status(), Status::Idle);
    assert_eq!(player.handle(&a, true).unwrap(), Command::Start);
    assert_eq!(player.generation, 2);
    assert!(!player.switched);
}

#[test]
fn a_stale_watcher_changes_nothing() {
    let a = track("a.mp3", None);
    let b = track("b.mp3", None);
    let mut player = Player::new(50);
    player.handle(&a, true).unwrap();
    player.handle(&b, true).unwrap();
    assert!(!player.watch(1, true));
    assert!(player.occupied);
    assert_eq!(player.current, Some(b));
    assert!(player.watch(2, false));
}

#[test]
fn ratio_is_unknown_without_a_duration() {
    let mut player = Player::new(50);
    assert_eq!(player.ratio(), None);
    player.handle(&track("a.mp3", None), true).unwrap();
    for elapsed in [0, 1, 1_000, u64::MAX] {
        player.elapsed = elapsed;
        assert_eq!(player.ratio(), None);
    }
}

#[test]
fn ratio_is_zero_past_the_end() {
    let mut player = Player::new(50);
    player.handle(&track("a.mp3", Some(200)), true).unwrap();
    player.elapsed = 50;
    assert_eq!(player.ratio(), Some(Ratio { part: 50, whole: 200 }));
    player.elapsed = 200;
    assert_eq!(player.ratio(), Some(Ratio { part: 200, whole: 200 }));
    player.elapsed = 201;
    assert_eq!(player.ratio(), Some(Ratio { part: 0, whole: 200 }));
    player.elapsed = u64::MAX;
    assert_eq!(player.ratio(), Some(Ratio { part: 0, whole: 200 }));
    let ratio = player.ratio().unwrap();
    assert_eq!(ratio.part as f64 / ratio.whole as f64, 0.0);
}

#[test]
fn ratio_of_a_track_without_length_is_zero() {
    let mut player = Player::new(50);
    player.handle(&track("a.mp3", Some(0)), true).unwrap();
    for elapsed in [0, 1, u64::MAX] {
        player.elapsed = elapsed;
        assert_eq!(player.ratio(), Some(Ratio { part: 0, whole: 1 }));
    }
}

#[test]
fn the_clock_counts_while_not_paused() {
    let a = track("a.mp3", Some(10));
    let mut player = Player::new(50);
    player.tick();
    assert_eq!(player.elapsed, 1);
    player.handle(&a, true).unwrap();
    player.tick();
    assert_eq!(player.elapsed, 2);
    player.handle(&a, true).unwrap();
    player.tick();
    assert_eq!(player.elapsed, 2);
    player.handle(&a, true).unwrap();
    player.tick();
    assert_eq!(player.elapsed, 3);
    player.elapsed = u64::MAX;
    player.tick();
    assert_eq!(player.elapsed, 0);
}

#[test]
fn a_switch_resets_the_clock() {
    let mut player = Player::new(50);
    player.handle(&track("a.mp3", None), true).unwrap();
    player.elapsed = 30;
    player.reset();
    assert_eq!(player.elapsed, 30);
    player.handle(&track("b.mp3", None), true).unwrap();
    assert!(player.switched);
    player.reset();
    assert_eq!(player.elapsed, 0);
    assert!(!player.switched);
}

#[test]
fn volume_moves_in_steps_of_two_within_bounds() {
    let mut player = Player::new(97);
    player.increase_volume();
    assert_eq!(player.volume, 99);
    player.increase_volume();
    assert_eq!(player.volume, 100);
    player.increase_volume();
    assert_eq!(player.volume, 100);
    player.decrease_volume();
    assert_eq!(player.volume, 98);
    let mut low = Player::new(3);
    low.decrease_volume();
    assert_eq!(low.volume, 1);
    low.decrease_volume();
    assert_eq!(low.volume, 0);
    low.decrease_volume();
    assert_eq!(low.volume, 0);
    low.increase_volume();
    assert_eq!(low.volume, 2);
}

#[test]
fn the_volume_comes_from_the_configuration() {
    let mut player = Player::default();
    assert!(player.bootstrap(&volume_config(Some(64))).is_ok());
    assert_eq!(player.volume, 64);
    assert!(matches!(
        player.bootstrap(&volume_config(Some(101))),
        Err(Error::InvalidVolume(_))
    ));
    assert!(matches!(player.bootstrap(&volume_config(None)), Err(Error::InvalidVolume(_))));
    assert_eq!(player.volume, 64);
    assert!(player.bootstrap(&volume_config(Some(100))).is_ok());
    assert!(player.bootstrap(&volume_config(Some(0))).is_ok());
    assert_eq!(player.volume, 0);
}

#[test]
fn the_label_shows_time_played_and_length() {
    let mut player = Player::new(50);
    assert_eq!(player.label(), "Unknown/00:00");
    player.handle(&track("a.mp3", Some(3_661)), true).unwrap();
    player.elapsed = 61;
    assert_eq!(player.label(), "01:01/01:01:01");
    player.handle(&track("b.mp3", None), true).unwrap();
    assert_eq!(player.label(), "01:01/Unknown");
}
