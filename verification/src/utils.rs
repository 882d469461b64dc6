//! Helpers shared by the library: how a duration is shown, what a file
//! name says about a file, and which entries of a directory walk are tracks.
use vstd::prelude::*;
use vstd::string::StringExecFns;
use vstd::string::StrSliceExecFns;
use crate::error::{Error, InvalidColor, InvalidLocation};
use crate::text::{find_last, last_index_of, to_chars, two_digit_string, two_digits, views};

verus! {

/// The label shown in place of a value that is not known.
pub open spec fn unknown_label() -> Seq<char> {
    "Unknown"@
}

/// How a duration in seconds is shown: `hh:mm:ss` above an hour, `mm:ss`
/// above a minute, `00:ss` up to a minute, and the unknown label for none
/// or zero. Exactly an hour reads `60:00` and exactly a minute `00:60`.
pub open spec fn duration_text(duration: Option<u64>) -> Seq<char> {
    match duration {
        None => unknown_label(),
        Some(d) => if d == 0 {
            unknown_label()
        } else if d > 3600 {
            two_digits((d / 3600) as nat) + ":"@ + two_digits(((d % 3600) / 60) as nat) + ":"@
                + two_digits((d % 60) as nat)
        } else if d > 60 {
            two_digits((d / 60) as nat) + ":"@ + two_digits((d % 60) as nat)
        } else {
            "00:"@ + two_digits(d as nat)
        },
    }
}

/// Formats a duration in seconds for display.
pub fn display_duration(duration: Option<u64>) -> (text: String)
    ensures
        text@ == duration_text(duration),
{
    match duration {
        None => "Unknown".to_owned(),
        Some(d) => {
            if d == 0 {
                "Unknown".to_owned()
            } else if d > 3600 {
                let hours = two_digit_string(d / 3600);
                let minutes = two_digit_string((d % 3600) / 60);
                let seconds = two_digit_string(d % 60);
                hours.concat(":").concat(minutes.as_str()).concat(":").concat(seconds.as_str())
            } else if d > 60 {
                let minutes = two_digit_string(d / 60);
                let seconds = two_digit_string(d % 60);
                minutes.concat(":").concat(seconds.as_str())
            } else {
                let seconds = two_digit_string(d);
                "00:".to_owned().concat(seconds.as_str())
            }
        },
    }
}

/// The extension of a file name: what follows its last `.`, where there
/// is one that is not the first character of the name.
///
/// This and [`stem_of`] read a file name as text: the name of one entry
/// of a directory, without separators. On such a name they agree with the
/// rule that `std::path` documents for extension and stem. They do not
/// look for components, so on a text that holds a separator they go by
/// the last `.` of the whole text.
pub open spec fn extension_of(name: Seq<char>) -> Option<Seq<char>> {
    match last_index_of(name, '.') {
        None => None,
        Some(i) => if i == 0 {
            None
        } else {
            Some(name.subrange(i + 1, name.len() as int))
        },
    }
}

/// The stem of a file name: what precedes the `.` of its extension, and
/// the whole name where it has no extension.
pub open spec fn stem_of(name: Seq<char>) -> Seq<char> {
    match last_index_of(name, '.') {
        None => name,
        Some(i) => if i == 0 {
            name
        } else {
            name.subrange(0, i)
        },
    }
}

/// The last component of a path whose components are separated by `/`:
/// what follows the last `/`, and the whole path where it has none.
///
/// The path is taken as text and nothing is normalised: unlike
/// `std::path`, a path that ends in `/` has an empty last component, and
/// `.` and `..` are components like any other. No other character
/// separates components.
pub open spec fn file_name_of(path: Seq<char>) -> Seq<char> {
    match last_index_of(path, '/') {
        None => path,
        Some(i) => path.subrange(i + 1, path.len() as int),
    }
}

/// Whether a file name marks its entry as hidden: it begins with `.`.
pub open spec fn hidden_name(name: Seq<char>) -> bool {
    name.len() > 0 && name[0] == '.'
}

/// The extension of the file name `name`, if it has one.
pub fn extension(name: &str) -> (found: Option<String>)
    ensures
        match found {
            Some(e) => extension_of(name@) == Some(e@),
            None => extension_of(name@) is None,
        },
{
    let chars = to_chars(name);
    match find_last(&chars, '.') {
        None => None,
        Some(i) => {
            if i == 0 {
                None
            } else {
                Some(name.substring_char(i + 1, chars.len()).to_owned())
            }
        },
    }
}

/// The stem of the file name `name`.
pub fn file_stem(name: &str) -> (stem: String)
    ensures
        stem@ == stem_of(name@),
{
    let chars = to_chars(name);
    match find_last(&chars, '.') {
        None => name.to_owned(),
        Some(i) => {
            if i == 0 {
                name.to_owned()
            } else {
                name.substring_char(0, i).to_owned()
            }
        },
    }
}

/// The last component of the path `path`.
pub fn file_name(path: &str) -> (name: String)
    ensures
        name@ == file_name_of(path@),
{
    let chars = to_chars(path);
    match find_last(&chars, '/') {
        None => path.to_owned(),
        Some(i) => path.substring_char(i + 1, chars.len()).to_owned(),
    }
}

/// Whether an entry named `name` is hidden.
pub fn is_hidden(name: &str) -> (hidden: bool)
    ensures
        hidden == hidden_name(name@),
{
    let chars = to_chars(name);
    chars.len() > 0 && chars[0] == '.'
}

/// What the file system says of a path.
#[derive(Debug, Clone, Copy, PartialEq, Eq, Structural)]
pub struct Location {
    /// The path is absolute.
    pub absolute: bool,
    /// The path leads to an existing directory.
    pub directory: bool,
}

/// Accepts the absolute path of an existing directory, and fails with
/// [`InvalidLocation`] on any other.
pub fn path_check(location: &Location) -> (checked: Result<(), Error>)
    ensures
        location.absolute && location.directory ==> checked == Ok::<(), Error>(()),
        !(location.absolute && location.directory) ==> checked == Err::<(), Error>(
            Error::InvalidLocation(InvalidLocation),
        ),
{
    if location.absolute && location.directory {
        Ok(())
    } else {
        Err(Error::InvalidLocation(InvalidLocation))
    }
}

/// Whether `extension` is that of a supported audio file: exactly one of
/// `flac`, `mp3`, `wav` and `ogg`, in lower case.
pub open spec fn supported(extension: Option<Seq<char>>) -> bool {
    match extension {
        Some(e) => e == "flac"@ || e == "mp3"@ || e == "wav"@ || e == "ogg"@,
        None => false,
    }
}

/// An entry that a walk of a directory tree came by.
#[derive(Debug)]
pub struct Entry {
    /// The path of the entry.
    pub path: String,
    /// The names on the way to the entry: that of the root of the walk,
    /// those of the directories below it that hold the entry, and that of
    /// the entry itself.
    pub names: Vec<String>,
    /// Whether the entry is a regular file.
    pub file: bool,
}

/// Whether any of `names` is hidden.
pub open spec fn any_hidden(names: Seq<String>) -> bool {
    exists|k: int| 0 <= k < names.len() && hidden_name(#[trigger] names[k]@)
}

/// Whether an entry is a track: a regular file with a supported
/// extension that is not hidden and lies in no hidden directory.
pub open spec fn is_track(entry: Entry) -> bool {
    &&& !any_hidden(entry.names@)
    &&& entry.file
    &&& supported(extension_of(file_name_of(entry.path@)))
}

/// The paths of the tracks among `entries`, in their order.
pub open spec fn snapshot_of(entries: Seq<Entry>) -> Seq<Seq<char>> {
    entries.filter(|entry: Entry| is_track(entry)).map_values(|entry: Entry| entry.path@)
}

/// Whether the file at `path` has a supported extension.
pub fn is_supported(path: &str) -> (accepted: bool)
    ensures
        accepted == supported(extension_of(file_name_of(path@))),
{
    let name = file_name(path);
    match extension(name.as_str()) {
        Some(e) => e == "flac".to_owned() || e == "mp3".to_owned() || e == "wav".to_owned() || e
            == "ogg".to_owned(),
        None => false,
    }
}

fn has_hidden(names: &Vec<String>) -> (found: bool)
    ensures
        found == any_hidden(names@),
{
    let mut i: usize = 0;
    while i < names.len()
        invariant
            i <= names.len(),
            forall|k: int| 0 <= k < i ==> !hidden_name(#[trigger] names@[k]@),
        decreases names.len() - i,
    {
        if is_hidden(names[i].as_str()) {
            return true;
        }
        i += 1;
    }
    false
}

/// Picks the tracks among the entries of a walk: the regular files with a
/// supported extension, but for what is hidden or lies in a hidden
/// directory. The result holds their paths in the order of the walk.
pub fn get_snapshot(entries: &Vec<Entry>) -> (paths: Vec<String>)
    ensures
        views(paths@) == snapshot_of(entries@),
{
    let mut paths: Vec<String> = Vec::new();
    let mut i: usize = 0;
    while i < entries.len()
        invariant
            i <= entries.len(),
            views(paths@) == snapshot_of(entries@.take(i as int)),
        decreases entries.len() - i,
    {
        proof {
            reveal(Seq::filter);
            assert(entries@.take(i + 1).drop_last() =~= entries@.take(i as int));
        }
        let entry = &entries[i];
        if !has_hidden(&entry.names) && entry.file && is_supported(entry.path.as_str()) {
            let ghost before = paths@;
            paths.push(entry.path.clone());
            assert(views(paths@) =~= views(before).push(entry.path@));
            assert(views(paths@) =~= snapshot_of(entries@.take(i + 1)));
        }
        i += 1;
    }
    assert(entries@.take(entries.len() as int) =~= entries@);
    paths
}

/// A color by its red, green and blue parts.
#[derive(Debug, Clone, Copy, PartialEq, Eq, Structural)]
pub struct Rgb {
    pub red: u8,
    pub green: u8,
    pub blue: u8,
}

/// The value of a hexadecimal digit, in either case.
pub open spec fn hex_digit(c: char) -> Option<u8> {
    if '0' <= c && c <= '9' {
        Some((c as u8 - 48) as u8)
    } else if 'a' <= c && c <= 'f' {
        Some((c as u8 - 87) as u8)
    } else if 'A' <= c && c <= 'F' {
        Some((c as u8 - 55) as u8)
    } else {
        None
    }
}

/// The number that two characters write in base sixteen: two digits, or
/// a `+` and one digit.
pub open spec fn hex_pair(high: char, low: char) -> Option<u8> {
    match hex_digit(low) {
        None => None,
        Some(l) => if high == '+' {
            Some(l)
        } else {
            match hex_digit(high) {
                Some(h) => Some((16 * h + l) as u8),
                None => None,
            }
        },
    }
}

/// The color that `hex` writes: a `#` and three numbers of two
/// characters each, for red, green and blue.
pub open spec fn color_of(hex: Seq<char>) -> Option<Rgb> {
    if hex.len() == 7 && hex[0] == '#' {
        match (hex_pair(hex[1], hex[2]), hex_pair(hex[3], hex[4]), hex_pair(hex[5], hex[6])) {
            (Some(red), Some(green), Some(blue)) => Some(Rgb { red, green, blue }),
            _ => None,
        }
    } else {
        None
    }
}

fn digit_value(c: char) -> (value: Option<u8>)
    ensures
        value == hex_digit(c),
        value matches Some(v) ==> v < 16,
{
    if '0' <= c && c <= '9' {
        Some(c as u8 - 48)
    } else if 'a' <= c && c <= 'f' {
        Some(c as u8 - 87)
    } else if 'A' <= c && c <= 'F' {
        Some(c as u8 - 55)
    } else {
        None
    }
}

fn pair_value(high: char, low: char) -> (value: Option<u8>)
    ensures
        value == hex_pair(high, low),
{
    match digit_value(low) {
        None => None,
        Some(l) => {
            if high == '+' {
                Some(l)
            } else {
                match digit_value(high) {
                    Some(h) => Some(16 * h + l),
                    None => None,
                }
            }
        },
    }
}

/// Reads a color written as `#rrggbb`. Fails with [`InvalidColor`] on any
/// other text.
pub fn hex_to_rgb(hex: &str) -> (color: Result<Rgb, Error>)
    ensures
        color == match color_of(hex@) {
            Some(rgb) => Ok::<Rgb, Error>(rgb),
            None => Err::<Rgb, Error>(Error::InvalidColor(InvalidColor)),
        },
{
    let chars = to_chars(hex);
    if chars.len() != 7 || chars[0] != '#' {
        return Err(Error::InvalidColor(InvalidColor));
    }
    let red = pair_value(chars[1], chars[2]);
    let green = pair_value(chars[3], chars[4]);
    let blue = pair_value(chars[5], chars[6]);
    match (red, green, blue) {
        (Some(red), Some(green), Some(blue)) => Ok(Rgb { red, green, blue }),
        _ => Err(Error::InvalidColor(InvalidColor)),
    }
}

} // verus!
