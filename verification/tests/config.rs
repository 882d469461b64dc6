use ultra::config::{volume_check, Config, Theme};
use ultra::error::Error;
use ultra::utils::{hex_to_rgb, path_check, Location, Rgb};

const GOOD: Location = Location { absolute: true, directory: true };

fn full(preset: &str, volume: u64) -> Config {
    let mut theme = Theme::dark();
    theme.preset = Some(preset.to_string());
    Config {
        overlay_background: Some(false),
        theme: Some(theme),
        lib_pos: Some("/music".to_string()),
        db_pos: Some("/data".to_string()),
        volume: Some(volume),
        debug: Some(false),
    }
}

fn unset() -> Config {
    Config {
        overlay_background: None,
        theme: None,
        lib_pos: None,
        db_pos: None,
        volume: None,
        debug: None,
    }
}

#[test]
fn locations_must_be_absolute_directories() {
    assert!(path_check(&GOOD).is_ok());
    for (absolute, directory) in [(false, true), (true, false), (false, false)] {
        assert!(matches!(
            path_check(&Location { absolute, directory }),
            Err(Error::InvalidLocation(_))
        ));
    }
}

#[test]
fn preset_themes() {
    let dark = Theme::dark();
    assert_eq!(dark.preset.as_deref(), Some("Dark"));
    assert_eq!(dark.background.as_deref(), Some("#554236"));
    assert_eq!(dark.focus.as_deref(), Some("#f17c67"));
    assert_eq!(dark.board_border.as_deref(), Some("#BDC0BA"));
    assert_eq!(dark.board_header.as_deref(), Some("#58B2DC"));
    assert_eq!(dark.board_selected.as_deref(), Some("#A8D8B9"));
    assert_eq!(dark.board_unselected.as_deref(), Some("#FEDFE1"));
    assert_eq!(dark.search_border.as_deref(), Some("#554236"));
    assert_eq!(dark.query.as_deref(), Some("#ffffff"));
    assert_eq!(dark.timeline_border.as_deref(), Some("#BDC0BA"));
    assert_eq!(dark.spectrum_border.as_deref(), Some("#BDC0BA"));
    let light = Theme::light();
    assert_eq!(light.preset.as_deref(), Some("Light"));
    assert_eq!(light.background.as_deref(), Some("#fffffb"));
    assert_eq!(light.focus.as_deref(), Some("#f17c67"));
    assert_eq!(light.board_border.as_deref(), Some("#4F4F48"));
    assert_eq!(light.board_header.as_deref(), Some("#BDC0BA"));
    assert_eq!(light.board_selected.as_deref(), Some("#854836"));
    assert_eq!(light.board_unselected.as_deref(), Some("#563F2E"));
    assert_eq!(light.search_border.as_deref(), Some("#4F4F48"));
    assert_eq!(light.query.as_deref(), Some("#000000"));
    assert_eq!(light.timeline_border.as_deref(), Some("#4F4F48"));
    assert_eq!(light.spectrum_border.as_deref(), Some("#4F4F48"));
    assert_eq!(Theme::default().preset.as_deref(), Some("Dark"));
}

#[test]
fn colors_of_the_presets() {
    let dark = Theme::dark().colorscheme().unwrap();
    assert_eq!(dark.background, Rgb { red: 0x55, green: 0x42, blue: 0x36 });
    assert_eq!(dark.query, Rgb { red: 255, green: 255, blue: 255 });
    assert_eq!(dark.board_header, Rgb { red: 0x58, green: 0xB2, blue: 0xDC });
    let light = Theme::light().colorscheme().unwrap();
    assert_eq!(light.query, Rgb { red: 0, green: 0, blue: 0 });
    assert_eq!(light.spectrum_border, Rgb { red: 0x4F, green: 0x4F, blue: 0x48 });
    let mut broken = Theme::light();
    broken.focus = Some("red".to_string());
    assert!(matches!(broken.colorscheme(), Err(Error::InvalidColor(_))));
}

#[test]
fn reading_a_color() {
    assert_eq!(hex_to_rgb("#000000").unwrap(), Rgb { red: 0, green: 0, blue: 0 });
    assert_eq!(hex_to_rgb("#0a1B2c").unwrap(), Rgb { red: 10, green: 27, blue: 44 });
    assert_eq!(hex_to_rgb("#FFfe7f").unwrap(), Rgb { red: 255, green: 254, blue: 127 });
    assert_eq!(hex_to_rgb("#+1+f+0").unwrap(), Rgb { red: 1, green: 15, blue: 0 });
    for bad in ["", "#", "000000", "#00000", "#0000000", "0000000", "#gg0000", "#00 000",
        "#-10000", "#1+0000", "#++0000", "#00000é", "#é0000"]
    {
        assert!(matches!(hex_to_rgb(bad), Err(Error::InvalidColor(_))));
    }
}

#[test]
fn the_command_line_overrides_the_system() {
    let sys = full("Dark", 80);
    let mut cli = unset();
    cli.volume = Some(20);
    cli.lib_pos = Some("/other".to_string());
    let merged = sys.clone().overlay(cli);
    assert_eq!(merged.volume, Some(20));
    assert_eq!(merged.lib_pos.as_deref(), Some("/other"));
    assert_eq!(merged.db_pos.as_deref(), Some("/data"));
    assert_eq!(merged.overlay_background, Some(false));
    assert_eq!(merged.debug, Some(false));
    assert_eq!(merged.theme.unwrap().preset.as_deref(), Some("Dark"));
    let mut themed = unset();
    themed.theme = Some(Theme::light());
    themed.debug = Some(true);
    let merged = sys.clone().merge(themed, GOOD, GOOD).unwrap();
    assert_eq!(merged.theme.unwrap().preset.as_deref(), Some("Light"));
    assert_eq!(merged.debug, Some(true));
    assert_eq!(merged.volume, Some(80));
    let filled = sys.overlay(unset());
    assert_eq!(filled.volume, Some(80));
    assert_eq!(unset().overlay(unset()).volume, None);
}

#[test]
fn checking_finds_the_first_fault() {
    let bad = Location { absolute: true, directory: false };
    assert!(full("Dark", 100).check(GOOD, GOOD).is_ok());
    assert!(full("Light", 0).check(GOOD, GOOD).is_ok());
    assert!(matches!(full("Nope", 200).check(bad, GOOD), Err(Error::InvalidLocation(_))));
    assert!(matches!(full("Nope", 200).check(GOOD, bad), Err(Error::InvalidLocation(_))));
    match full("Nope", 200).check(GOOD, GOOD) {
        Err(Error::NonexistentPresetTheme(e)) => assert_eq!(e.0, "Nope"),
        _ => panic!("the preset is not built in"),
    }
    assert!(matches!(
        full("dark", 50).check(GOOD, GOOD),
        Err(Error::NonexistentPresetTheme(_))
    ));
    assert!(matches!(full("Dark", 101).check(GOOD, GOOD), Err(Error::InvalidVolume(_))));
    let mut cli = unset();
    cli.volume = Some(500);
    assert!(matches!(
        full("Dark", 10).merge(cli, GOOD, GOOD),
        Err(Error::InvalidVolume(_))
    ));
}

#[test]
fn built_in_themes_by_name() {
    assert_eq!(Theme::named("Dark").unwrap().query.as_deref(), Some("#ffffff"));
    assert_eq!(Theme::named("Light").unwrap().preset.as_deref(), Some("Light"));
    assert!(Theme::named("dark").is_none());
    assert!(Theme::named("").is_none());
}

#[test]
fn volumes_up_to_a_hundred_are_valid() {
    assert!(volume_check(0).is_ok());
    assert!(volume_check(100).is_ok());
    assert!(matches!(volume_check(101), Err(Error::InvalidVolume(_))));
    assert!(matches!(volume_check(u64::MAX), Err(Error::InvalidVolume(_))));
}
