//! The windows of the screen: where each lies, which has which number,
//! and the colors they are drawn in.
use vstd::prelude::*;
use crate::config::{written_colors, Colorscheme, Config, Theme};
use crate::error::{Error, InvalidColor};
use crate::song::text_of;
use crate::utils::Rgb;
use crate::Launch;

verus! {

/// A rectangle of the screen: its upper left corner and its size.
#[derive(Debug, Clone, Copy, PartialEq, Eq, Structural)]
pub struct Rect {
    pub x: u16,
    pub y: u16,
    pub width: u16,
    pub height: u16,
}

/// The sum of `a` and `b`, and the largest number where the sum is
/// beyond it.
pub open spec fn capped_sum(a: u16, b: u16) -> u16 {
    if a + b > u16::MAX {
        u16::MAX
    } else {
        (a + b) as u16
    }
}

impl Rect {
    /// The column of the left edge.
    pub fn left(self) -> (column: u16)
        ensures
            column == self.x,
    {
        self.x
    }

    /// The column after the right edge.
    pub fn right(self) -> (column: u16)
        ensures
            column == capped_sum(self.x, self.width),
    {
        if self.width > u16::MAX - self.x {
            u16::MAX
        } else {
            self.x + self.width
        }
    }

    /// The row of the upper edge.
    pub fn top(self) -> (row: u16)
        ensures
            row == self.y,
    {
        self.y
    }

    /// The row after the lower edge.
    pub fn bottom(self) -> (row: u16)
        ensures
            row == capped_sum(self.y, self.height),
    {
        if self.height > u16::MAX - self.y {
            u16::MAX
        } else {
            self.y + self.height
        }
    }

    /// Whether a click at column `x` and row `y` counts as one on this
    /// rectangle: it lies on it or on the column or row after it.
    pub open spec fn holds(self, x: u16, y: u16) -> bool {
        &&& self.x <= x <= capped_sum(self.x, self.width)
        &&& self.y <= y <= capped_sum(self.y, self.height)
    }

    /// Whether a click at column `x` and row `y` counts as one on this
    /// rectangle.
    pub fn contains(self, x: u16, y: u16) -> (inside: bool)
        ensures
            inside == self.holds(x, y),
    {
        self.left() <= x && x <= self.right() && self.top() <= y && y <= self.bottom()
    }
}

impl Default for Rect {
    fn default() -> (rect: Rect)
        ensures
            rect == (Rect { x: 0, y: 0, width: 0, height: 0 }),
    {
        Rect { x: 0, y: 0, width: 0, height: 0 }
    }
}

/// The search field, window 3.
#[derive(Debug, Clone, Copy, PartialEq, Eq, Structural)]
pub struct Search {
    pub win_id: u64,
    pub area: Rect,
}

/// The board of tracks, window 0, with the search field below it.
#[derive(Debug, Clone, Copy, PartialEq, Eq, Structural)]
pub struct Board {
    pub win_id: u64,
    pub area: Rect,
    pub search: Search,
}

/// The spectrum, window 1.
#[derive(Debug, Clone, Copy, PartialEq, Eq, Structural)]
pub struct Spectrum {
    pub win_id: u64,
    pub area: Rect,
}

/// The timeline, window 2.
#[derive(Debug, Clone, Copy, PartialEq, Eq, Structural)]
pub struct Timeline {
    pub win_id: u64,
    pub area: Rect,
}

impl Default for Search {
    fn default() -> (search: Search)
        ensures
            search == (Search { win_id: 3, area: Rect { x: 0, y: 0, width: 0, height: 0 } }),
    {
        Search { win_id: 3, area: Rect::default() }
    }
}

impl Default for Board {
    fn default() -> (board: Board)
        ensures
            board == (Board {
                win_id: 0,
                area: Rect { x: 0, y: 0, width: 0, height: 0 },
                search: Search { win_id: 3, area: Rect { x: 0, y: 0, width: 0, height: 0 } },
            }),
    {
        Board { win_id: 0, area: Rect::default(), search: Search::default() }
    }
}

impl Default for Spectrum {
    fn default() -> (spectrum: Spectrum)
        ensures
            spectrum == (Spectrum { win_id: 1, area: Rect { x: 0, y: 0, width: 0, height: 0 } }),
    {
        Spectrum { win_id: 1, area: Rect::default() }
    }
}

impl Default for Timeline {
    fn default() -> (timeline: Timeline)
        ensures
            timeline == (Timeline { win_id: 2, area: Rect { x: 0, y: 0, width: 0, height: 0 } }),
    {
        Timeline { win_id: 2, area: Rect::default() }
    }
}

/// The screen: its windows, whether the background is painted over, and
/// the colors in use.
#[derive(Debug, Clone, Copy, PartialEq, Eq, Structural)]
pub struct Canvas {
    pub board: Board,
    pub timeline: Timeline,
    pub spectrum: Spectrum,
    pub overlay_background: bool,
    pub colorscheme: Colorscheme,
}

/// A color by the number `0xrrggbb`.
pub open spec fn rgb(number: nat) -> Rgb {
    Rgb {
        red: (number / 0x10000) as u8,
        green: (number / 0x100 % 0x100) as u8,
        blue: (number % 0x100) as u8,
    }
}

/// The colors of the preset `Dark`.
pub open spec fn dark_colors() -> Colorscheme {
    Colorscheme {
        background: rgb(0x554236),
        focus: rgb(0xf17c67),
        board_border: rgb(0xBDC0BA),
        board_header: rgb(0x58B2DC),
        board_selected: rgb(0xA8D8B9),
        board_unselected: rgb(0xFEDFE1),
        search_border: rgb(0x554236),
        query: rgb(0xffffff),
        timeline_border: rgb(0xBDC0BA),
        spectrum_border: rgb(0xBDC0BA),
    }
}

/// The colors of the preset `Light`.
pub open spec fn light_colors() -> Colorscheme {
    Colorscheme {
        background: rgb(0xfffffb),
        focus: rgb(0xf17c67),
        board_border: rgb(0x4F4F48),
        board_header: rgb(0xBDC0BA),
        board_selected: rgb(0x854836),
        board_unselected: rgb(0x563F2E),
        search_border: rgb(0x4F4F48),
        query: rgb(0x000000),
        timeline_border: rgb(0x4F4F48),
        spectrum_border: rgb(0x4F4F48),
    }
}

/// The colors that the screen takes from `theme`: those of the preset
/// that the theme names, the colors in use where it names another preset,
/// and with no preset the colors that the theme writes, if they are
/// readable.
pub open spec fn chosen_colors(theme: Theme, in_use: Colorscheme) -> Option<Colorscheme> {
    match theme.preset {
        Some(name) => if name@ == "Dark"@ {
            Some(dark_colors())
        } else if name@ == "Light"@ {
            Some(light_colors())
        } else {
            Some(in_use)
        },
        None => written_colors(theme),
    }
}

impl Launch for Canvas {
    /// Whether `config` holds what the screen is set up from: whether to
    /// paint over the background, and a theme that names a preset or sets
    /// each of its colors.
    open spec fn accepts(&self, config: &Config) -> bool {
        &&& config.overlay_background is Some
        &&& config.theme matches Some(theme) && (theme.preset is Some || theme.colored())
    }

    /// Takes from `config` whether to paint over the background, and the
    /// colors: see [`chosen_colors`]. Fails with [`InvalidColor`], and
    /// changes nothing, where the theme has no preset and a color of it is
    /// not readable.
    fn bootstrap(&mut self, config: &Config) -> (done: Result<(), Error>)
        ensures
            match chosen_colors(config.theme->0, old(self).colorscheme) {
                Some(colors) => done == Ok::<(), Error>(()) && *final(self) == (Canvas {
                    overlay_background: config.overlay_background->0,
                    colorscheme: colors,
                    ..*old(self)
                }),
                None => done == Err::<(), Error>(Error::InvalidColor(InvalidColor)) && *final(self)
                    == *old(self),
            },
    {
        let overlay = match config.overlay_background {
            Some(overlay) => overlay,
            None => false,
        };
        let colors = match &config.theme {
            Some(theme) => match &theme.preset {
                Some(name) => {
                    if *name == "Dark".to_owned() {
                        let dark = Theme::dark();
                        proof {
                            lemma_dark_colors(dark);
                        }
                        dark.colorscheme()?
                    } else if *name == "Light".to_owned() {
                        let light = Theme::light();
                        proof {
                            lemma_light_colors(light);
                        }
                        light.colorscheme()?
                    } else {
                        self.colorscheme
                    }
                },
                None => theme.colorscheme()?,
            },
            None => self.colorscheme,
        };
        self.overlay_background = overlay;
        self.colorscheme = colors;
        Ok(())
    }
}

impl Default for Canvas {
    fn default() -> (canvas: Canvas)
        ensures
            canvas.board.win_id == 0,
            canvas.board.search.win_id == 3,
            canvas.spectrum.win_id == 1,
            canvas.timeline.win_id == 2,
            !canvas.overlay_background,
    {
        let black = Rgb { red: 0, green: 0, blue: 0 };
        Canvas {
            board: Board::default(),
            timeline: Timeline::default(),
            spectrum: Spectrum::default(),
            overlay_background: false,
            colorscheme: Colorscheme {
                background: black,
                focus: black,
                board_border: black,
                board_header: black,
                board_selected: black,
                board_unselected: black,
                search_border: black,
                query: black,
                timeline_border: black,
                spectrum_border: black,
            },
        }
    }
}

proof fn lemma_dark_colors(theme: Theme)
    requires
        text_of(theme.background) == Some("#554236"@),
        text_of(theme.focus) == Some("#f17c67"@),
        text_of(theme.board_border) == Some("#BDC0BA"@),
        text_of(theme.board_header) == Some("#58B2DC"@),
        text_of(theme.board_selected) == Some("#A8D8B9"@),
        text_of(theme.board_unselected) == Some("#FEDFE1"@),
        text_of(theme.search_border) == Some("#554236"@),
        text_of(theme.query) == Some("#ffffff"@),
        text_of(theme.timeline_border) == Some("#BDC0BA"@),
        text_of(theme.spectrum_border) == Some("#BDC0BA"@),
    ensures
        written_colors(theme) == Some(dark_colors()),
{
    reveal_strlit("#554236");
    reveal_strlit("#f17c67");
    reveal_strlit("#BDC0BA");
    reveal_strlit("#58B2DC");
    reveal_strlit("#A8D8B9");
    reveal_strlit("#FEDFE1");
    reveal_strlit("#ffffff");
}

proof fn lemma_light_colors(theme: Theme)
    requires
        text_of(theme.background) == Some("#fffffb"@),
        text_of(theme.focus) == Some("#f17c67"@),
        text_of(theme.board_border) == Some("#4F4F48"@),
        text_of(theme.board_header) == Some("#BDC0BA"@),
        text_of(theme.board_selected) == Some("#854836"@),
        text_of(theme.board_unselected) == Some("#563F2E"@),
        text_of(theme.search_border) == Some("#4F4F48"@),
        text_of(theme.query) == Some("#000000"@),
        text_of(theme.timeline_border) == Some("#4F4F48"@),
        text_of(theme.spectrum_border) == Some("#4F4F48"@),
    ensures
        written_colors(theme) == Some(light_colors()),
{
    reveal_strlit("#fffffb");
    reveal_strlit("#f17c67");
    reveal_strlit("#4F4F48");
    reveal_strlit("#BDC0BA");
    reveal_strlit("#854836");
    reveal_strlit("#563F2E");
    reveal_strlit("#000000");
}

} // verus!
