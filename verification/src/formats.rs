//! The kinds of track file and of activity.

use vstd::prelude::*;
use vstd::string::StringSliceAdditionalSpecFns;
use crate::text::str_eq;

verus! {

/// A kind of track file.
#[derive(Clone, Copy, Debug, PartialEq, Eq, Structural)]
pub enum FileType {
    Fit,
    Tcx,
    Gpx,
    Unknown,
}

/// The lower-case form of an ASCII letter; any other byte is itself.
pub open spec fn lower(b: u8) -> u8 {
    if 65 <= b <= 90 {
        (b + 32) as u8
    } else {
        b
    }
}

/// Whether the bytes of a path end in a file name with the three-letter
/// extension `a b c`, in either case: a dot and the letters, after at least
/// one byte of the name itself.
pub open spec fn has_extension(path: Seq<u8>, a: u8, b: u8, c: u8) -> bool {
    let n = path.len() as int;
    &&& n >= 5
    &&& path[n - 5] != 47
    &&& path[n - 4] == 46
    &&& lower(path[n - 3]) == a
    &&& lower(path[n - 2]) == b
    &&& lower(path[n - 1]) == c
}

/// The kind of file that the bytes of a path name.
pub open spec fn file_type_of(path: Seq<u8>) -> FileType {
    if has_extension(path, 102, 105, 116) {
        FileType::Fit
    } else if has_extension(path, 116, 99, 120) {
        FileType::Tcx
    } else if has_extension(path, 103, 112, 120) {
        FileType::Gpx
    } else {
        FileType::Unknown
    }
}

/// The name of a kind of file.
pub open spec fn file_type_name(kind: FileType) -> Seq<char> {
    match kind {
        FileType::Fit => "FIT"@,
        FileType::Tcx => "TCX"@,
        FileType::Gpx => "GPX"@,
        FileType::Unknown => "Unknown"@,
    }
}

fn lower_exec(b: u8) -> (r: u8)
    ensures
        r == lower(b),
{
    if 65 <= b && b <= 90 {
        b + 32
    } else {
        b
    }
}

fn ends_in(path: &[u8], a: u8, b: u8, c: u8) -> (r: bool)
    ensures
        r == has_extension(path@, a, b, c),
{
    let n = path.len();
    if n < 5 {
        return false;
    }
    path[n - 5] != 47 && path[n - 4] == 46 && lower_exec(path[n - 3]) == a && lower_exec(
        path[n - 2],
    ) == b && lower_exec(path[n - 1]) == c
}

/// The kind of file that a path names, by its extension.
pub fn file_type(path: &str) -> (kind: FileType)
    ensures
        kind == file_type_of(path.spec_bytes()),
{
    let bytes = path.as_bytes();
    if ends_in(bytes, 102, 105, 116) {
        FileType::Fit
    } else if ends_in(bytes, 116, 99, 120) {
        FileType::Tcx
    } else if ends_in(bytes, 103, 112, 120) {
        FileType::Gpx
    } else {
        FileType::Unknown
    }
}

/// The name of the kind of file that a path names: `FIT`, `TCX`, `GPX` or
/// `Unknown`.
pub fn detect_file_type(path: &str) -> (name: &'static str)
    ensures
        name@ == file_type_name(file_type_of(path.spec_bytes())),
{
    match file_type(path) {
        FileType::Fit => "FIT",
        FileType::Tcx => "TCX",
        FileType::Gpx => "GPX",
        FileType::Unknown => "Unknown",
    }
}

/// The kind of track for a sport as a TCX file names it: cycling for
/// `Biking`, any other name as it is.
pub open spec fn track_type_of(sport: Seq<char>) -> Seq<char> {
    if sport == "Biking"@ {
        "Cycling"@
    } else {
        sport
    }
}

/// The kind of track for a sport as a TCX file names it.
pub fn map_sport_to_track_type(sport: &str) -> (kind: String)
    ensures
        kind@ == track_type_of(sport@),
{
    if str_eq(sport, "Biking") {
        "Cycling".to_owned()
    } else {
        sport.to_owned()
    }
}

/// What std's `str::to_lowercase` gives for a text.
pub uninterp spec fn lowercase_of(text: Seq<char>) -> Seq<char>;

/// Calls std's `str::to_lowercase`, which maps each character by the
/// Unicode rules for lower case and depends on nothing but the text. The
/// contract only gives the outcome its name.
#[verifier::external_body]
fn to_lowercase(text: &str) -> (lowered: String)
    ensures
        lowered@ == lowercase_of(text@),
{
    text.to_lowercase()
}

/// The kind of track for a sport as a FIT file names it, given the name in
/// lower case: one of five kinds for the names known, any other name as it
/// is.
pub open spec fn fit_track_type_of(sport: Seq<char>, lowered: Seq<char>) -> Seq<char> {
    if lowered == "running"@ || lowered == "trail_running"@ || lowered == "track_running"@ {
        "Running"@
    } else if lowered == "cycling"@ || lowered == "road_cycling"@ || lowered == "mountain_biking"@
        || lowered == "cyclocross"@ {
        "Cycling"@
    } else if lowered == "walking"@ || lowered == "casual_walking"@ {
        "Walking"@
    } else if lowered == "hiking"@ || lowered == "mountaineering"@ {
        "Hiking"@
    } else if lowered == "swimming"@ || lowered == "pool_swimming"@ || lowered
        == "open_water_swimming"@ {
        "Swimming"@
    } else {
        sport
    }
}

/// The kind of track for a sport, given its name in lower case.
pub fn fit_track_type(sport: &str, lowered: &str) -> (kind: String)
    ensures
        kind@ == fit_track_type_of(sport@, lowered@),
{
    if str_eq(lowered, "running") || str_eq(lowered, "trail_running") || str_eq(
        lowered,
        "track_running",
    ) {
        "Running".to_owned()
    } else if str_eq(lowered, "cycling") || str_eq(lowered, "road_cycling") || str_eq(
        lowered,
        "mountain_biking",
    ) || str_eq(lowered, "cyclocross") {
        "Cycling".to_owned()
    } else if str_eq(lowered, "walking") || str_eq(lowered, "casual_walking") {
        "Walking".to_owned()
    } else if str_eq(lowered, "hiking") || str_eq(lowered, "mountaineering") {
        "Hiking".to_owned()
    } else if str_eq(lowered, "swimming") || str_eq(lowered, "pool_swimming") || str_eq(
        lowered,
        "open_water_swimming",
    ) {
        "Swimming".to_owned()
    } else {
        sport.to_owned()
    }
}

/// The kind of track for a sport as a FIT file names it, in any case.
pub fn map_fit_sport_to_track_type(sport: &str) -> (kind: String)
    ensures
        kind@ == fit_track_type_of(sport@, lowercase_of(sport@)),
{
    let lowered = to_lowercase(sport);
    fit_track_type(sport, lowered.as_str())
}

} // verus!
