//! Shared UI state: the colour theme and the choice between the simulated
//! background and a plain one.

use vstd::prelude::*;

verus! {

/// The two-valued colour theme. The dark theme is the default.
#[derive(Debug, Clone, Copy, PartialEq, Eq, Structural)]
pub enum Theme {
    Light,
    Dark,
}

impl Default for Theme {
    fn default() -> (r: Self)
        ensures
            r == Theme::Dark,
    {
        Theme::Dark
    }
}

impl Theme {
    /// The display name of the theme.
    pub fn as_str(self) -> (r: &'static str)
        ensures
            self == Theme::Light ==> r@ == "Light"@,
            self == Theme::Dark ==> r@ == "Dark"@,
    {
        match self {
            Theme::Light => "Light",
            Theme::Dark => "Dark",
        }
    }

    /// The other theme.
    pub fn toggle(self) -> (r: Self)
        ensures
            r == (match self {
                Theme::Light => Theme::Dark,
                Theme::Dark => Theme::Light,
            }),
    {
        match self {
            Theme::Light => Theme::Dark,
            Theme::Dark => Theme::Light,
        }
    }

    /// The background colour of the theme, as a CSS hex string.
    pub fn background_color(self) -> (r: &'static str)
        ensures
            self == Theme::Light ==> r@ == "#f0f0f0"@,
            self == Theme::Dark ==> r@ == "#151515"@,
    {
        match self {
            Theme::Light => "#f0f0f0",
            Theme::Dark => "#151515",
        }
    }

    /// The background colour of the theme, packed as 0xRRGGBB.
    pub fn background_color_hex(self) -> (r: u32)
        ensures
            r == self.spec_background_color_hex(),
    {
        match self {
            Theme::Light => 0xf0f0f0,
            Theme::Dark => 0x151515,
        }
    }

    /// What `background_color_hex` returns.
    pub open spec fn spec_background_color_hex(self) -> u32 {
        match self {
            Theme::Light => 0xf0f0f0,
            Theme::Dark => 0x151515,
        }
    }

    /// The foreground colour: the other theme's background colour.
    pub fn foreground_color(self) -> (r: &'static str)
        ensures
            self == Theme::Light ==> r@ == "#151515"@,
            self == Theme::Dark ==> r@ == "#f0f0f0"@,
    {
        self.toggle().background_color()
    }
}

/// Whether the page shows the simulated background.
#[derive(Debug, Clone, Copy, PartialEq, Eq, PartialOrd, Ord, Structural)]
pub struct BackgroundSimulated(bool);

impl Default for BackgroundSimulated {
    fn default() -> (r: Self)
        ensures
            !r.spec_is_simulated(),
    {
        BackgroundSimulated(false)
    }
}

impl BackgroundSimulated {
    /// Whether the simulated background is chosen.
    pub closed spec fn spec_is_simulated(self) -> bool {
        self.0
    }

    pub fn new(simulated: bool) -> (r: Self)
        ensures
            r.spec_is_simulated() == simulated,
    {
        BackgroundSimulated(simulated)
    }

    pub fn toggle(self) -> (r: Self)
        ensures
            r.spec_is_simulated() == !self.spec_is_simulated(),
    {
        BackgroundSimulated(!self.0)
    }

    pub fn is_simulated(self) -> (r: bool)
        ensures
            r == self.spec_is_simulated(),
    {
        self.0
    }
}

impl From<BackgroundSimulated> for bool {
    fn from(background_simulated: BackgroundSimulated) -> (r: bool) {
        background_simulated.0
    }
}

impl vstd::std_specs::convert::FromSpecImpl<BackgroundSimulated> for bool {
    open spec fn obeys_from_spec() -> bool {
        true
    }

    closed spec fn from_spec(background_simulated: BackgroundSimulated) -> bool {
        background_simulated.spec_is_simulated()
    }
}

impl From<bool> for BackgroundSimulated {
    fn from(simulated: bool) -> (r: Self) {
        BackgroundSimulated(simulated)
    }
}

impl vstd::std_specs::convert::FromSpecImpl<bool> for BackgroundSimulated {
    open spec fn obeys_from_spec() -> bool {
        true
    }

    closed spec fn from_spec(simulated: bool) -> BackgroundSimulated {
        BackgroundSimulated(simulated)
    }
}

/// The persisted page preferences.
#[derive(Debug, Clone, Copy, PartialEq, Eq, Structural)]
pub struct AppState {
    pub theme: Theme,
    pub background_simulated: BackgroundSimulated,
}

impl Default for AppState {
    fn default() -> (r: Self)
        ensures
            r.theme == Theme::Dark,
            !r.background_simulated.spec_is_simulated(),
    {
        AppState { theme: Theme::Dark, background_simulated: BackgroundSimulated(false) }
    }
}

} // verus!
