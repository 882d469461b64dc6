//! The error conditions that the library reports.
use vstd::prelude::*;
use vstd::string::StringExecFns;

verus! {

/// A failure without a more specific description.
#[derive(Debug, Clone, Copy, PartialEq, Eq, Structural)]
pub struct Unknown;

/// A path that is not valid UTF-8.
#[derive(Debug, Clone, Copy, PartialEq, Eq, Structural)]
pub struct InvalidUTF8Path;

/// A preset theme name that is not built in; the field is the name.
#[derive(Debug)]
pub struct NonexistentPresetTheme(pub String);

/// A volume outside 0..=100.
#[derive(Debug, Clone, Copy, PartialEq, Eq, Structural)]
pub struct InvalidVolume;

/// The cache store is not connected.
#[derive(Debug, Clone, Copy, PartialEq, Eq, Structural)]
pub struct BrokenConnection;

/// A location that is not an absolute path of an existing directory.
#[derive(Debug, Clone, Copy, PartialEq, Eq, Structural)]
pub struct InvalidLocation;

/// A color that is not of the form `#rrggbb`.
#[derive(Debug, Clone, Copy, PartialEq, Eq, Structural)]
pub struct InvalidColor;

/// A track whose file cannot be opened or decoded for playback.
#[derive(Debug, Clone, Copy, PartialEq, Eq, Structural)]
pub struct Unplayable;

/// A failure of the cache store; the field says what failed.
#[derive(Debug)]
pub struct StoreFailure(pub String);

impl Unknown {
    pub fn message(&self) -> (text: String)
        ensures
            text@ == "Unknown error."@,
    {
        "Unknown error.".to_owned()
    }
}

impl InvalidUTF8Path {
    pub fn message(&self) -> (text: String)
        ensures
            text@ == "Non-UTF-8 strings are perfectly valid for this OS."@,
    {
        "Non-UTF-8 strings are perfectly valid for this OS.".to_owned()
    }
}

impl NonexistentPresetTheme {
    pub fn message(&self) -> (text: String)
        ensures
            text@ == "No preset theme named "@ + self.0@ + "."@,
    {
        let head = "No preset theme named ".to_owned();
        head.concat(self.0.as_str()).concat(".")
    }
}

impl InvalidVolume {
    pub fn message(&self) -> (text: String)
        ensures
            text@ == "The volume value must be between 0 and 100."@,
    {
        "The volume value must be between 0 and 100.".to_owned()
    }
}

impl BrokenConnection {
    pub fn message(&self) -> (text: String)
        ensures
            text@ == "Unable to connect to the database!"@,
    {
        "Unable to connect to the database!".to_owned()
    }
}

impl InvalidLocation {
    pub fn message(&self) -> (text: String)
        ensures
            text@ == "Value must be an absolute path that exists!"@,
    {
        "Value must be an absolute path that exists!".to_owned()
    }
}

impl InvalidColor {
    pub fn message(&self) -> (text: String)
        ensures
            text@ == Seq::<char>::empty(),
    {
        String::new()
    }
}

impl StoreFailure {
    pub fn message(&self) -> (text: String)
        ensures
            text@ == "The cache store failed: "@ + self.0@,
    {
        "The cache store failed: ".to_owned().concat(self.0.as_str())
    }
}

impl Unplayable {
    pub fn message(&self) -> (text: String)
        ensures
            text@ == "The track cannot be opened or decoded."@,
    {
        "The track cannot be opened or decoded.".to_owned()
    }
}

/// Any of the library's error conditions.
#[derive(Debug)]
pub enum Error {
    Unknown(Unknown),
    InvalidUTF8Path(InvalidUTF8Path),
    NonexistentPresetTheme(NonexistentPresetTheme),
    InvalidVolume(InvalidVolume),
    BrokenConnection(BrokenConnection),
    InvalidLocation(InvalidLocation),
    InvalidColor(InvalidColor),
    Unplayable(Unplayable),
    StoreFailure(StoreFailure),
}

impl Error {
    /// The text shown for this error: that of the condition it holds.
    pub fn message(&self) -> (text: String)
        ensures
            text@ == self.text(),
    {
        match self {
            Error::Unknown(e) => e.message(),
            Error::InvalidUTF8Path(e) => e.message(),
            Error::NonexistentPresetTheme(e) => e.message(),
            Error::InvalidVolume(e) => e.message(),
            Error::BrokenConnection(e) => e.message(),
            Error::InvalidLocation(e) => e.message(),
            Error::InvalidColor(e) => e.message(),
            Error::Unplayable(e) => e.message(),
            Error::StoreFailure(e) => e.message(),
        }
    }

    pub open spec fn text(&self) -> Seq<char> {
        match self {
            Error::Unknown(_) => "Unknown error."@,
            Error::InvalidUTF8Path(_) => "Non-UTF-8 strings are perfectly valid for this OS."@,
            Error::NonexistentPresetTheme(e) => "No preset theme named "@ + e.0@ + "."@,
            Error::InvalidVolume(_) => "The volume value must be between 0 and 100."@,
            Error::BrokenConnection(_) => "Unable to connect to the database!"@,
            Error::InvalidLocation(_) => "Value must be an absolute path that exists!"@,
            Error::InvalidColor(_) => Seq::<char>::empty(),
            Error::Unplayable(_) => "The track cannot be opened or decoded."@,
            Error::StoreFailure(e) => "The cache store failed: "@ + e.0@,
        }
    }
}

} // verus!
