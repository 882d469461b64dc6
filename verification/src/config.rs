//! The configuration: where the library and its cache lie, the theme, the
//! volume, and how a command line overrides what the system provides.
use vstd::prelude::*;
use crate::error::{Error, InvalidColor, InvalidLocation, InvalidVolume, NonexistentPresetTheme};
use crate::player::MAX_VOLUME;
use crate::song::text_of;
use crate::utils::{color_of, hex_to_rgb, path_check, Location, Rgb};

verus! {

/// A color theme: the name of a preset, and a color `#rrggbb` for each
/// part of the screen.
#[derive(Debug)]
pub struct Theme {
    pub preset: Option<String>,
    pub background: Option<String>,
    pub focus: Option<String>,
    pub board_border: Option<String>,
    pub board_header: Option<String>,
    pub board_selected: Option<String>,
    pub board_unselected: Option<String>,
    pub search_border: Option<String>,
    pub query: Option<String>,
    pub timeline_border: Option<String>,
    pub spectrum_border: Option<String>,
}

/// The settings of the application. A field that a source does not set is
/// `None`.
#[derive(Debug)]
pub struct Config {
    pub overlay_background: Option<bool>,
    pub theme: Option<Theme>,
    pub lib_pos: Option<String>,
    pub db_pos: Option<String>,
    pub volume: Option<u64>,
    pub debug: Option<bool>,
}

impl Clone for Theme {
    fn clone(&self) -> (copy: Self)
        ensures
            copy == *self,
    {
        Theme {
            preset: self.preset.clone(),
            background: self.background.clone(),
            focus: self.focus.clone(),
            board_border: self.board_border.clone(),
            board_header: self.board_header.clone(),
            board_selected: self.board_selected.clone(),
            board_unselected: self.board_unselected.clone(),
            search_border: self.search_border.clone(),
            query: self.query.clone(),
            timeline_border: self.timeline_border.clone(),
            spectrum_border: self.spectrum_border.clone(),
        }
    }
}

impl Clone for Config {
    fn clone(&self) -> (copy: Self)
        ensures
            copy == *self,
    {
        Config {
            overlay_background: self.overlay_background,
            theme: match &self.theme {
                Some(t) => Some(t.clone()),
                None => None,
            },
            lib_pos: self.lib_pos.clone(),
            db_pos: self.db_pos.clone(),
            volume: self.volume,
            debug: self.debug,
        }
    }
}

impl Theme {
    /// The preset named `Dark`.
    pub fn dark() -> (theme: Theme)
        ensures
            text_of(theme.preset) == Some("Dark"@),
            text_of(theme.background) == Some("#554236"@),
            text_of(theme.focus) == Some("#f17c67"@),
            text_of(theme.board_border) == Some("#BDC0BA"@),
            text_of(theme.board_header) == Some("#58B2DC"@),
            text_of(theme.board_selected) == Some("#A8D8B9"@),
            text_of(theme.board_unselected) == Some("#FEDFE1"@),
            text_of(theme.search_border) == Some("#554236"@),
            text_of(theme.query) == Some("#ffffff"@),
            text_of(theme.timeline_border) == Some("#BDC0BA"@),
            text_of(theme.spectrum_border) == Some("#BDC0BA"@),
    {
        Theme {
            preset: Some("Dark".to_owned()),
            background: Some("#554236".to_owned()),
            focus: Some("#f17c67".to_owned()),
            board_border: Some("#BDC0BA".to_owned()),
            board_header: Some("#58B2DC".to_owned()),
            board_selected: Some("#A8D8B9".to_owned()),
            board_unselected: Some("#FEDFE1".to_owned()),
            search_border: Some("#554236".to_owned()),
            query: Some("#ffffff".to_owned()),
            timeline_border: Some("#BDC0BA".to_owned()),
            spectrum_border: Some("#BDC0BA".to_owned()),
        }
    }

    /// The preset named `Light`.
    pub fn light() -> (theme: Theme)
        ensures
            text_of(theme.preset) == Some("Light"@),
            text_of(theme.background) == Some("#fffffb"@),
            text_of(theme.focus) == Some("#f17c67"@),
            text_of(theme.board_border) == Some("#4F4F48"@),
            text_of(theme.board_header) == Some("#BDC0BA"@),
            text_of(theme.board_selected) == Some("#854836"@),
            text_of(theme.board_unselected) == Some("#563F2E"@),
            text_of(theme.search_border) == Some("#4F4F48"@),
            text_of(theme.query) == Some("#000000"@),
            text_of(theme.timeline_border) == Some("#4F4F48"@),
            text_of(theme.spectrum_border) == Some("#4F4F48"@),
    {
        Theme {
            preset: Some("Light".to_owned()),
            background: Some("#fffffb".to_owned()),
            focus: Some("#f17c67".to_owned()),
            board_border: Some("#4F4F48".to_owned()),
            board_header: Some("#BDC0BA".to_owned()),
            board_selected: Some("#854836".to_owned()),
            board_unselected: Some("#563F2E".to_owned()),
            search_border: Some("#4F4F48".to_owned()),
            query: Some("#000000".to_owned()),
            timeline_border: Some("#4F4F48".to_owned()),
            spectrum_border: Some("#4F4F48".to_owned()),
        }
    }
}

/// The colors of a theme, one for each part of the screen.
#[derive(Debug, Clone, Copy, PartialEq, Eq, Structural)]
pub struct Colorscheme {
    pub background: Rgb,
    pub focus: Rgb,
    pub board_border: Rgb,
    pub board_header: Rgb,
    pub board_selected: Rgb,
    pub board_unselected: Rgb,
    pub search_border: Rgb,
    pub query: Rgb,
    pub timeline_border: Rgb,
    pub spectrum_border: Rgb,
}

/// The color that an optional text writes, if it is set and is a color.
pub open spec fn color_at(text: Option<String>) -> Option<Rgb> {
    match text {
        Some(t) => color_of(t@),
        None => None,
    }
}

fn color(text: &Option<String>) -> (color: Result<Rgb, Error>)
    requires
        text is Some,
    ensures
        color == match color_at(*text) {
            Some(rgb) => Ok::<Rgb, Error>(rgb),
            None => Err::<Rgb, Error>(Error::InvalidColor(InvalidColor)),
        },
{
    match text {
        Some(t) => hex_to_rgb(t.as_str()),
        None => Err(Error::InvalidColor(InvalidColor)),
    }
}

impl Theme {
    /// Whether the theme sets each of its colors.
    pub open spec fn colored(self) -> bool {
        &&& self.background is Some
        &&& self.focus is Some
        &&& self.board_border is Some
        &&& self.board_header is Some
        &&& self.board_selected is Some
        &&& self.board_unselected is Some
        &&& self.search_border is Some
        &&& self.query is Some
        &&& self.timeline_border is Some
        &&& self.spectrum_border is Some
    }

    /// Whether each color of the theme is written as `#rrggbb`.
    pub open spec fn readable(self) -> bool {
        &&& color_at(self.background) is Some
        &&& color_at(self.focus) is Some
        &&& color_at(self.board_border) is Some
        &&& color_at(self.board_header) is Some
        &&& color_at(self.board_selected) is Some
        &&& color_at(self.board_unselected) is Some
        &&& color_at(self.search_border) is Some
        &&& color_at(self.query) is Some
        &&& color_at(self.timeline_border) is Some
        &&& color_at(self.spectrum_border) is Some
    }

    /// The built-in theme of the name `name`, if there is one.
    pub fn named(name: &str) -> (theme: Option<Theme>)
        ensures
            theme is Some <==> built_in(name@),
            theme matches Some(t) ==> text_of(t.preset) == Some(name@),
    {
        if eq_str(name, "Dark") {
            Some(Theme::dark())
        } else if eq_str(name, "Light") {
            Some(Theme::light())
        } else {
            None
        }
    }

    /// The colors of the theme. Fails with [`InvalidColor`] where one of
    /// them is not written as `#rrggbb`.
    pub fn colorscheme(&self) -> (colors: Result<Colorscheme, Error>)
        requires
            self.colored(),
        ensures
            colors == match written_colors(*self) {
                Some(c) => Ok::<Colorscheme, Error>(c),
                None => Err::<Colorscheme, Error>(Error::InvalidColor(InvalidColor)),
            },
    {
        Ok(
            Colorscheme {
                background: color(&self.background)?,
                focus: color(&self.focus)?,
                board_border: color(&self.board_border)?,
                board_header: color(&self.board_header)?,
                board_selected: color(&self.board_selected)?,
                board_unselected: color(&self.board_unselected)?,
                search_border: color(&self.search_border)?,
                query: color(&self.query)?,
                timeline_border: color(&self.timeline_border)?,
                spectrum_border: color(&self.spectrum_border)?,
            },
        )
    }
}

/// The colors that a theme writes, if each of them is readable.
pub open spec fn written_colors(theme: Theme) -> Option<Colorscheme> {
    if theme.readable() {
        Some(
            Colorscheme {
                background: color_at(theme.background)->0,
                focus: color_at(theme.focus)->0,
                board_border: color_at(theme.board_border)->0,
                board_header: color_at(theme.board_header)->0,
                board_selected: color_at(theme.board_selected)->0,
                board_unselected: color_at(theme.board_unselected)->0,
                search_border: color_at(theme.search_border)->0,
                query: color_at(theme.query)->0,
                timeline_border: color_at(theme.timeline_border)->0,
                spectrum_border: color_at(theme.spectrum_border)->0,
            },
        )
    } else {
        None
    }
}

impl Default for Theme {
    fn default() -> (theme: Theme)
        ensures
            text_of(theme.preset) == Some("Dark"@),
    {
        Theme::dark()
    }
}

/// Whether `name` is the name of a built-in theme.
pub open spec fn built_in(name: Seq<char>) -> bool {
    name == "Dark"@ || name == "Light"@
}

/// The first of two optional values that is set, `over` before `under`.
pub open spec fn preferred<T>(over: Option<T>, under: Option<T>) -> Option<T> {
    if over is None {
        under
    } else {
        over
    }
}

/// `cli` laid over `sys`: each field as `cli` has it, and as `sys` has it
/// where `cli` does not set it.
pub open spec fn overlaid(sys: Config, cli: Config) -> Config {
    Config {
        overlay_background: preferred(cli.overlay_background, sys.overlay_background),
        theme: preferred(cli.theme, sys.theme),
        lib_pos: preferred(cli.lib_pos, sys.lib_pos),
        db_pos: preferred(cli.db_pos, sys.db_pos),
        volume: preferred(cli.volume, sys.volume),
        debug: preferred(cli.debug, sys.debug),
    }
}

fn eq_str(a: &str, b: &str) -> (same: bool)
    ensures
        same == (a@ == b@),
{
    a.to_owned() == b.to_owned()
}

/// Accepts a volume of at most the largest, and fails with
/// [`InvalidVolume`] on any other.
pub fn volume_check(volume: u64) -> (checked: Result<(), Error>)
    ensures
        checked == if volume <= MAX_VOLUME {
            Ok::<(), Error>(())
        } else {
            Err::<(), Error>(Error::InvalidVolume(InvalidVolume))
        },
{
    if volume <= MAX_VOLUME {
        Ok(())
    } else {
        Err(Error::InvalidVolume(InvalidVolume))
    }
}

impl Config {
    /// Whether the fields that [`Config::check`] reads are set: both
    /// locations, the theme with its preset, and the volume.
    pub open spec fn complete(self) -> bool {
        &&& self.lib_pos is Some
        &&& self.db_pos is Some
        &&& self.theme matches Some(theme) && theme.preset is Some
        &&& self.volume is Some
    }

    /// The error that [`Config::check`] finds first, if any: the library
    /// location, the cache location, the preset, the volume, in this order.
    pub open spec fn fault(self, lib: Location, db: Location) -> Option<Error>
        recommends
            self.complete(),
    {
        if !(lib.absolute && lib.directory) {
            Some(Error::InvalidLocation(InvalidLocation))
        } else if !(db.absolute && db.directory) {
            Some(Error::InvalidLocation(InvalidLocation))
        } else if !built_in(self.theme->0.preset->0@) {
            Some(Error::NonexistentPresetTheme(NonexistentPresetTheme(self.theme->0.preset->0)))
        } else if self.volume->0 > MAX_VOLUME {
            Some(Error::InvalidVolume(InvalidVolume))
        } else {
            None
        }
    }

    /// Lays the settings of the command line, `cli`, over these.
    pub fn overlay(self, cli: Config) -> (merged: Config)
        ensures
            merged == overlaid(self, cli),
    {
        Config {
            overlay_background: if cli.overlay_background.is_none() {
                self.overlay_background
            } else {
                cli.overlay_background
            },
            theme: if cli.theme.is_none() {
                self.theme
            } else {
                cli.theme
            },
            lib_pos: if cli.lib_pos.is_none() {
                self.lib_pos
            } else {
                cli.lib_pos
            },
            db_pos: if cli.db_pos.is_none() {
                self.db_pos
            } else {
                cli.db_pos
            },
            volume: if cli.volume.is_none() {
                self.volume
            } else {
                cli.volume
            },
            debug: if cli.debug.is_none() {
                self.debug
            } else {
                cli.debug
            },
        }
    }

    /// Merges the settings of the command line, `cli`, into these and
    /// checks the result. `lib` and `db` say what the file system holds
    /// at the library and cache locations of the merged settings.
    pub fn merge(self, cli: Config, lib: Location, db: Location) -> (merged: Result<Config, Error>)
        requires
            overlaid(self, cli).complete(),
        ensures
            merged == match overlaid(self, cli).fault(lib, db) {
                Some(e) => Err::<Config, Error>(e),
                None => Ok::<Config, Error>(overlaid(self, cli)),
            },
    {
        self.overlay(cli).check(lib, db)
    }

    /// Checks the settings: both locations are absolute paths of existing
    /// directories, the preset is built in, and the volume is at most the largest.
    pub fn check(self, lib: Location, db: Location) -> (checked: Result<Config, Error>)
        requires
            self.complete(),
        ensures
            checked == match self.fault(lib, db) {
                Some(e) => Err::<Config, Error>(e),
                None => Ok::<Config, Error>(self),
            },
    {
        match path_check(&lib) {
            Err(e) => {
                return Err(e);
            },
            Ok(_) => {},
        }
        match path_check(&db) {
            Err(e) => {
                return Err(e);
            },
            Ok(_) => {},
        }
        let known = match &self.theme {
            Some(theme) => match &theme.preset {
                Some(name) => {
                    if eq_str(name.as_str(), "Dark") || eq_str(name.as_str(), "Light") {
                        None
                    } else {
                        Some(name.clone())
                    }
                },
                None => None,
            },
            None => None,
        };
        match known {
            Some(name) => {
                return Err(Error::NonexistentPresetTheme(NonexistentPresetTheme(name)));
            },
            None => {},
        }
        match self.volume {
            Some(v) => match volume_check(v) {
                Err(e) => {
                    return Err(e);
                },
                Ok(_) => {},
            },
            None => {},
        }
        Ok(self)
    }
}

} // verus!
