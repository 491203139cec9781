//! The track and the totals of an activity, read from the elements of a
//! TCX file.

use vstd::prelude::*;
use vstd::string::StringSliceAdditionalSpecFns;
use crate::numbers::{decimal_value, parse_decimal, within_limit};
use crate::summary::TcxExtraData;
use crate::text::str_eq;
use crate::track::{GeoPoint, INSTANT_LIMIT_MS, Sensor, TrackPoint, instant_ok, track_wf};
use crate::video::{parse_rfc3339_millis, rfc3339_millis_of_text};

verus! {

/// One attribute of an element.
pub struct XmlAttribute {
    pub name: String,
    pub value: String,
}

/// One piece of an XML text, with names taken without their prefix.
pub enum XmlItem {
    /// An element opens.
    Start { name: String, attributes: Vec<XmlAttribute> },
    /// An element closes.
    End { name: String },
    /// Text inside an element that is more than white space.
    Text(String),
    /// Anything else: the declaration, a comment, white space.
    Other,
}

/// Why a track file could not be read.
#[derive(Clone, Copy, Debug, PartialEq, Eq, Structural)]
pub enum SourceError {
    /// The text is no well-formed XML.
    Malformed,
    /// The text holds no training centre database.
    NotTcx,
}

/// The elements of a TCX file that are read.
#[derive(Clone, Copy, Debug, PartialEq, Eq, Structural)]
pub enum TcxTag {
    TrainingCenterDatabase,
    Activity,
    Trackpoint,
    Time,
    LatitudeDegrees,
    LongitudeDegrees,
    AltitudeMeters,
    Value,
    RunCadence,
    TotalTimeSeconds,
    DistanceMeters,
    Calories,
    MaximumSpeed,
    Other,
}

/// A track read from a TCX file, with what else the file tells.
pub struct TcxProcessResult {
    pub track: Vec<TrackPoint>,
    pub extra_data: TcxExtraData,
}

/// The pieces that xml-rs reads from a text with its default settings, in
/// order; `None` where it reports an error.
pub uninterp spec fn xml_events_of(bytes: Seq<u8>) -> Option<Seq<XmlItem>>;

/// Runs xml-rs's `EventReader::new` over the bytes and takes every event of
/// its iterator: the local name and the attributes of a `StartElement`, the
/// local name of an `EndElement`, the text of `Characters`; any other event
/// counts as `Other`. An error ends the reading. The contract only gives
/// the pieces their name.
#[verifier::external_body]
fn read_xml(bytes: &[u8]) -> (items: Option<Vec<XmlItem>>)
    ensures
        match items {
            Some(v) => xml_events_of(bytes@) == Some(v@),
            None => xml_events_of(bytes@) is None,
        },
{
    let mut items = Vec::new();
    for event in xml::reader::EventReader::new(bytes) {
        items.push(match event {
            Ok(xml::reader::XmlEvent::StartElement { name, attributes, .. }) => XmlItem::Start {
                name: name.local_name,
                attributes: attributes.into_iter().map(|a| XmlAttribute { name: a.name.local_name, value: a.value }).collect(),
            },
            Ok(xml::reader::XmlEvent::EndElement { name }) => XmlItem::End { name: name.local_name },
            Ok(xml::reader::XmlEvent::Characters(text)) => XmlItem::Text(text),
            Ok(_) => XmlItem::Other,
            Err(_) => return None,
        });
    }
    Some(items)
}

/// The element that a name names.
pub open spec fn tag_of(name: Seq<char>) -> TcxTag {
    if name == "TrainingCenterDatabase"@ {
        TcxTag::TrainingCenterDatabase
    } else if name == "Activity"@ {
        TcxTag::Activity
    } else if name == "Trackpoint"@ {
        TcxTag::Trackpoint
    } else if name == "Time"@ {
        TcxTag::Time
    } else if name == "LatitudeDegrees"@ {
        TcxTag::LatitudeDegrees
    } else if name == "LongitudeDegrees"@ {
        TcxTag::LongitudeDegrees
    } else if name == "AltitudeMeters"@ {
        TcxTag::AltitudeMeters
    } else if name == "Value"@ {
        TcxTag::Value
    } else if name == "RunCadence"@ {
        TcxTag::RunCadence
    } else if name == "TotalTimeSeconds"@ {
        TcxTag::TotalTimeSeconds
    } else if name == "DistanceMeters"@ {
        TcxTag::DistanceMeters
    } else if name == "Calories"@ {
        TcxTag::Calories
    } else if name == "MaximumSpeed"@ {
        TcxTag::MaximumSpeed
    } else {
        TcxTag::Other
    }
}

/// The element that a name names.
pub fn parse_tag(name: &str) -> (tag: TcxTag)
    ensures
        tag == tag_of(name@),
{
    if str_eq(name, "TrainingCenterDatabase") {
        TcxTag::TrainingCenterDatabase
    } else if str_eq(name, "Activity") {
        TcxTag::Activity
    } else if str_eq(name, "Trackpoint") {
        TcxTag::Trackpoint
    } else if str_eq(name, "Time") {
        TcxTag::Time
    } else if str_eq(name, "LatitudeDegrees") {
        TcxTag::LatitudeDegrees
    } else if str_eq(name, "LongitudeDegrees") {
        TcxTag::LongitudeDegrees
    } else if str_eq(name, "AltitudeMeters") {
        TcxTag::AltitudeMeters
    } else if str_eq(name, "Value") {
        TcxTag::Value
    } else if str_eq(name, "RunCadence") {
        TcxTag::RunCadence
    } else if str_eq(name, "TotalTimeSeconds") {
        TcxTag::TotalTimeSeconds
    } else if str_eq(name, "DistanceMeters") {
        TcxTag::DistanceMeters
    } else if str_eq(name, "Calories") {
        TcxTag::Calories
    } else if str_eq(name, "MaximumSpeed") {
        TcxTag::MaximumSpeed
    } else {
        TcxTag::Other
    }
}

/// The value of the first attribute `Sport` at or after `i`, if there is
/// one.
pub open spec fn sport_from(attributes: Seq<XmlAttribute>, i: int) -> Option<Seq<char>>
    decreases attributes.len() - i,
{
    if i < 0 || i >= attributes.len() {
        None
    } else if attributes[i].name@ == "Sport"@ {
        Some(attributes[i].value@)
    } else {
        sport_from(attributes, i + 1)
    }
}

/// What has been read of a TCX file so far.
pub struct TcxModel {
    /// Whether a training centre database was opened.
    pub is_tcx: bool,
    /// Whether a track point is open.
    pub in_trackpoint: bool,
    /// The element opened last and not yet closed over.
    pub tag: TcxTag,
    pub lat: i64,
    pub lon: i64,
    pub time: Option<i64>,
    pub elevation: Option<i64>,
    pub heart_rate: Option<u32>,
    pub cadence: Option<u32>,
    pub points: Seq<TrackPoint>,
    pub sport: Option<Seq<char>>,
    pub total_time_ms: u64,
    pub total_distance_mm: u64,
    pub total_calories: u64,
    pub max_speed: u64,
    pub heart_rates: Seq<u32>,
    pub cadences: Seq<u32>,
}

/// The state of reading a TCX file piece by piece.
pub struct TcxReader {
    is_tcx: bool,
    in_trackpoint: bool,
    tag: TcxTag,
    lat: i64,
    lon: i64,
    time: Option<i64>,
    elevation: Option<i64>,
    heart_rate: Option<u32>,
    cadence: Option<u32>,
    track: Vec<TrackPoint>,
    extra: TcxExtraData,
}

/// The characters of a text, if there is one.
pub open spec fn chars_of(text: Option<String>) -> Option<Seq<char>> {
    match text {
        Some(s) => Some(s@),
        None => None,
    }
}

impl View for TcxReader {
    type V = TcxModel;

    closed spec fn view(&self) -> TcxModel {
        TcxModel {
            is_tcx: self.is_tcx,
            in_trackpoint: self.in_trackpoint,
            tag: self.tag,
            lat: self.lat,
            lon: self.lon,
            time: self.time,
            elevation: self.elevation,
            heart_rate: self.heart_rate,
            cadence: self.cadence,
            points: self.track@,
            sport: chars_of(self.extra.sport),
            total_time_ms: self.extra.total_time_ms,
            total_distance_mm: self.extra.total_distance_mm,
            total_calories: self.extra.total_calories,
            max_speed: self.extra.max_speed,
            heart_rates: self.extra.heart_rates@,
            cadences: self.extra.cadences@,
        }
    }
}

/// Nothing read yet.
pub open spec fn blank() -> TcxModel {
    TcxModel {
        is_tcx: false,
        in_trackpoint: false,
        tag: TcxTag::Other,
        lat: 0,
        lon: 0,
        time: None,
        elevation: None,
        heart_rate: None,
        cadence: None,
        points: Seq::empty(),
        sport: None,
        total_time_ms: 0,
        total_distance_mm: 0,
        total_calories: 0,
        max_speed: 0,
        heart_rates: Seq::empty(),
        cadences: Seq::empty(),
    }
}

/// The number that a text writes with `places` places kept, within the
/// limit.
pub open spec fn fixed(text: Seq<u8>, places: nat) -> Option<i64> {
    within_limit(decimal_value(text, places))
}

/// The count that a text writes: a whole number that is not negative,
/// places after the point cut off.
pub open spec fn count_of(text: Seq<u8>) -> Option<u32> {
    match fixed(text, 0) {
        Some(v) => if 0 <= v <= u32::MAX {
            Some(v as u32)
        } else {
            None
        },
        None => None,
    }
}

/// The amount that a text writes, and zero where it writes none or a
/// negative one.
pub open spec fn amount_of(text: Seq<u8>, places: nat) -> u64 {
    match fixed(text, places) {
        Some(v) => if v >= 0 {
            v as u64
        } else {
            0
        },
        None => 0,
    }
}

/// The angle in 1e-7 degrees that a text writes, and zero where it writes
/// none.
pub open spec fn angle_of(text: Seq<u8>) -> i64 {
    match fixed(text, 7) {
        Some(v) => v,
        None => 0,
    }
}

/// The instant cut to whole seconds, where it lies within the limit.
pub open spec fn whole_seconds(reading: Option<i64>) -> Option<i64> {
    match reading {
        Some(ms) => if instant_ok(ms as int) {
            Some((ms - ms % 1000) as i64)
        } else {
            None
        },
        None => None,
    }
}

/// The point that the open track point stands for.
pub open spec fn candidate(m: TcxModel) -> TrackPoint {
    TrackPoint {
        position: GeoPoint { lat_e7: m.lat, lon_e7: m.lon },
        elevation: m.elevation,
        timestamp: m.time,
        sensor: Sensor { heart_rate: m.heart_rate, cadence: m.cadence, instant_speed: None },
    }
}

/// After an element opens. An activity tells the sport; a track point
/// starts afresh.
pub open spec fn after_start(m: TcxModel, tag: TcxTag, sport: Option<Seq<char>>) -> TcxModel {
    let named = TcxModel {
        tag,
        is_tcx: m.is_tcx || tag == TcxTag::TrainingCenterDatabase,
        sport: if tag == TcxTag::Activity && sport is Some {
            sport
        } else {
            m.sport
        },
        ..m
    };
    if tag == TcxTag::Trackpoint {
        TcxModel {
            in_trackpoint: true,
            lat: 0,
            lon: 0,
            time: None,
            elevation: None,
            heart_rate: None,
            cadence: None,
            ..named
        }
    } else {
        named
    }
}

/// After an element closes. A track point joins the track where it is well
/// formed.
pub open spec fn after_end(m: TcxModel, tag: TcxTag) -> TcxModel {
    if tag == TcxTag::Trackpoint {
        TcxModel {
            in_trackpoint: false,
            tag: TcxTag::Other,
            points: if candidate(m).wf() {
                m.points.push(candidate(m))
            } else {
                m.points
            },
            ..m
        }
    } else {
        TcxModel { tag: TcxTag::Other, ..m }
    }
}

/// After a text inside the element opened last; `reading` is the instant
/// that the text writes, if it writes one.
pub open spec fn after_text(m: TcxModel, text: Seq<u8>, reading: Option<i64>) -> TcxModel {
    match m.tag {
        TcxTag::Time => if m.in_trackpoint && whole_seconds(reading) is Some {
            TcxModel { time: whole_seconds(reading), ..m }
        } else {
            m
        },
        TcxTag::LatitudeDegrees => if m.in_trackpoint {
            TcxModel { lat: angle_of(text), ..m }
        } else {
            m
        },
        TcxTag::LongitudeDegrees => if m.in_trackpoint {
            TcxModel { lon: angle_of(text), ..m }
        } else {
            m
        },
        TcxTag::AltitudeMeters => if m.in_trackpoint {
            TcxModel { elevation: fixed(text, 3), ..m }
        } else {
            m
        },
        TcxTag::Value => if m.in_trackpoint && count_of(text) is Some {
            TcxModel {
                heart_rate: count_of(text),
                heart_rates: m.heart_rates.push(count_of(text).unwrap()),
                ..m
            }
        } else {
            m
        },
        TcxTag::RunCadence => if m.in_trackpoint && count_of(text) is Some {
            TcxModel {
                cadence: count_of(text),
                cadences: m.cadences.push(count_of(text).unwrap()),
                ..m
            }
        } else {
            m
        },
        TcxTag::TotalTimeSeconds => TcxModel { total_time_ms: amount_of(text, 3), ..m },
        TcxTag::DistanceMeters => TcxModel { total_distance_mm: amount_of(text, 3), ..m },
        TcxTag::Calories => TcxModel { total_calories: amount_of(text, 0), ..m },
        TcxTag::MaximumSpeed => TcxModel { max_speed: amount_of(text, 3), ..m },
        _ => m,
    }
}

/// After one piece of the file.
pub open spec fn after_item(m: TcxModel, item: XmlItem) -> TcxModel {
    match item {
        XmlItem::Start { name, attributes } => after_start(
            m,
            tag_of(name@),
            sport_from(attributes@, 0),
        ),
        XmlItem::End { name } => after_end(m, tag_of(name@)),
        XmlItem::Text(text) => after_text(
            m,
            vstd::utf8::encode_utf8(text@),
            rfc3339_millis_of_text(text@),
        ),
        XmlItem::Other => m,
    }
}

/// After the first `n` pieces of the file.
pub open spec fn after_items(items: Seq<XmlItem>, n: int) -> TcxModel
    decreases n,
{
    if n <= 0 {
        blank()
    } else {
        after_item(after_items(items, n - 1), items[n - 1])
    }
}

fn floor_seconds(ms: i64) -> (cut: i64)
    requires
        instant_ok(ms as int),
    ensures
        cut == ms - ms % 1000,
{
    if ms >= 0 {
        ms - ms % 1000
    } else {
        let back: i64 = -ms;
        let rest: i64 = back % 1000;
        proof {
            let q = (back as int) / 1000;
            vstd::arithmetic::div_mod::lemma_fundamental_div_mod(back as int, 1000);
            if rest == 0 {
                vstd::arithmetic::div_mod::lemma_fundamental_div_mod_converse(
                    ms as int,
                    1000,
                    -q,
                    0,
                );
            } else {
                vstd::arithmetic::div_mod::lemma_fundamental_div_mod_converse(
                    ms as int,
                    1000,
                    -q - 1,
                    1000 - rest,
                );
            }
        }
        if rest == 0 {
            ms
        } else {
            ms - (1000 - rest)
        }
    }
}

fn read_count(text: &str) -> (count: Option<u32>)
    ensures
        count == count_of(text.spec_bytes()),
{
    match parse_decimal(text, 0) {
        Some(v) => {
            if 0 <= v && v <= 0xffff_ffff {
                Some(v as u32)
            } else {
                None
            }
        },
        None => None,
    }
}

fn read_amount(text: &str, places: u32) -> (amount: u64)
    requires
        places <= crate::numbers::PLACES_LIMIT,
    ensures
        amount == amount_of(text.spec_bytes(), places as nat),
{
    match parse_decimal(text, places) {
        Some(v) => {
            if v >= 0 {
                v as u64
            } else {
                0
            }
        },
        None => 0,
    }
}

fn read_angle(text: &str) -> (angle: i64)
    ensures
        angle == angle_of(text.spec_bytes()),
{
    match parse_decimal(text, 7) {
        Some(v) => v,
        None => 0,
    }
}

fn find_sport(attributes: &Vec<XmlAttribute>) -> (found: Option<usize>)
    ensures
        match found {
            Some(i) => i < attributes.len() && sport_from(attributes@, 0) == Some(
                attributes[i as int].value@,
            ),
            None => sport_from(attributes@, 0) is None,
        },
{
    let mut i: usize = 0;
    while i < attributes.len()
        invariant
            i <= attributes.len(),
            sport_from(attributes@, 0) == sport_from(attributes@, i as int),
        decreases attributes.len() - i,
    {
        if str_eq(attributes[i].name.as_str(), "Sport") {
            return Some(i);
        }
        i += 1;
    }
    None
}

impl TcxReader {
    /// A reader that has read nothing.
    pub fn new() -> (reader: TcxReader)
        ensures
            reader@ == blank(),
            track_wf(reader@.points),
    {
        TcxReader {
            is_tcx: false,
            in_trackpoint: false,
            tag: TcxTag::Other,
            lat: 0,
            lon: 0,
            time: None,
            elevation: None,
            heart_rate: None,
            cadence: None,
            track: Vec::new(),
            extra: TcxExtraData {
                sport: None,
                total_time_ms: 0,
                total_distance_mm: 0,
                total_calories: 0,
                max_speed: 0,
                heart_rates: Vec::new(),
                cadences: Vec::new(),
            },
        }
    }

    /// Reads the opening of an element with the attributes given.
    pub fn start(&mut self, name: &str, attributes: &Vec<XmlAttribute>)
        requires
            track_wf(old(self)@.points),
        ensures
            final(self)@ == after_start(old(self)@, tag_of(name@), sport_from(attributes@, 0)),
            track_wf(final(self)@.points),
    {
        let tag = parse_tag(name);
        self.tag = tag;
        if tag == TcxTag::TrainingCenterDatabase {
            self.is_tcx = true;
        }
        if tag == TcxTag::Activity {
            match find_sport(attributes) {
                Some(i) => {
                    self.extra.sport = Some(attributes[i].value.clone());
                },
                None => {},
            }
        }
        if tag == TcxTag::Trackpoint {
            self.in_trackpoint = true;
            self.lat = 0;
            self.lon = 0;
            self.time = None;
            self.elevation = None;
            self.heart_rate = None;
            self.cadence = None;
        }
    }

    /// Reads the closing of an element.
    pub fn end(&mut self, name: &str)
        requires
            track_wf(old(self)@.points),
        ensures
            final(self)@ == after_end(old(self)@, tag_of(name@)),
            track_wf(final(self)@.points),
    {
        let tag = parse_tag(name);
        if tag == TcxTag::Trackpoint {
            self.in_trackpoint = false;
            let point = TrackPoint {
                position: GeoPoint { lat_e7: self.lat, lon_e7: self.lon },
                elevation: self.elevation,
                timestamp: self.time,
                sensor: Sensor {
                    heart_rate: self.heart_rate,
                    cadence: self.cadence,
                    instant_speed: None,
                },
            };
            if point.is_wf() {
                self.track.push(point);
            }
        }
        self.tag = TcxTag::Other;
    }

    /// Reads a text inside the element opened last; `reading` is the
    /// instant that the text writes in RFC 3339 form, if it writes one.
    pub fn text(&mut self, text: &str, reading: Option<i64>)
        requires
            track_wf(old(self)@.points),
        ensures
            final(self)@ == after_text(old(self)@, text.spec_bytes(), reading),
            track_wf(final(self)@.points),
    {
        match self.tag {
            TcxTag::Time => {
                if self.in_trackpoint {
                    match reading {
                        Some(ms) => {
                            if -INSTANT_LIMIT_MS <= ms && ms <= INSTANT_LIMIT_MS {
                                self.time = Some(floor_seconds(ms));
                            }
                        },
                        None => {},
                    }
                }
            },
            TcxTag::LatitudeDegrees => {
                if self.in_trackpoint {
                    self.lat = read_angle(text);
                }
            },
            TcxTag::LongitudeDegrees => {
                if self.in_trackpoint {
                    self.lon = read_angle(text);
                }
            },
            TcxTag::AltitudeMeters => {
                if self.in_trackpoint {
                    self.elevation = parse_decimal(text, 3);
                }
            },
            TcxTag::Value => {
                if self.in_trackpoint {
                    match read_count(text) {
                        Some(v) => {
                            self.heart_rate = Some(v);
                            self.extra.heart_rates.push(v);
                        },
                        None => {},
                    }
                }
            },
            TcxTag::RunCadence => {
                if self.in_trackpoint {
                    match read_count(text) {
                        Some(v) => {
                            self.cadence = Some(v);
                            self.extra.cadences.push(v);
                        },
                        None => {},
                    }
                }
            },
            TcxTag::TotalTimeSeconds => {
                self.extra.total_time_ms = read_amount(text, 3);
            },
            TcxTag::DistanceMeters => {
                self.extra.total_distance_mm = read_amount(text, 3);
            },
            TcxTag::Calories => {
                self.extra.total_calories = read_amount(text, 0);
            },
            TcxTag::MaximumSpeed => {
                self.extra.max_speed = read_amount(text, 3);
            },
            _ => {},
        }
    }

    /// Whether a training centre database was opened.
    pub fn is_tcx(&self) -> (yes: bool)
        ensures
            yes == self@.is_tcx,
    {
        self.is_tcx
    }

    /// The track and the totals read.
    pub fn finish(self) -> (result: TcxProcessResult)
        ensures
            result.track@ == self@.points,
            chars_of(result.extra_data.sport) == self@.sport,
            result.extra_data.total_time_ms == self@.total_time_ms,
            result.extra_data.total_distance_mm == self@.total_distance_mm,
            result.extra_data.total_calories == self@.total_calories,
            result.extra_data.max_speed == self@.max_speed,
            result.extra_data.heart_rates@ == self@.heart_rates,
            result.extra_data.cadences@ == self@.cadences,
    {
        TcxProcessResult { track: self.track, extra_data: self.extra }
    }
}

/// Whether what was read is what the model says.
pub open spec fn reads_as(result: TcxProcessResult, m: TcxModel) -> bool {
    &&& result.track@ == m.points
    &&& chars_of(result.extra_data.sport) == m.sport
    &&& result.extra_data.total_time_ms == m.total_time_ms
    &&& result.extra_data.total_distance_mm == m.total_distance_mm
    &&& result.extra_data.total_calories == m.total_calories
    &&& result.extra_data.max_speed == m.max_speed
    &&& result.extra_data.heart_rates@ == m.heart_rates
    &&& result.extra_data.cadences@ == m.cadences
}

/// The track and the totals that the pieces of a TCX file tell. Fails
/// where no training centre database is among them.
pub fn process_tcx_items(items: &Vec<XmlItem>) -> (result: Result<TcxProcessResult, SourceError>)
    ensures
        match result {
            Ok(r) => after_items(items@, items.len() as int).is_tcx && reads_as(
                r,
                after_items(items@, items.len() as int),
            ) && track_wf(r.track@),
            Err(e) => !after_items(items@, items.len() as int).is_tcx && e == SourceError::NotTcx,
        },
{
    let mut reader = TcxReader::new();
    let mut i: usize = 0;
    while i < items.len()
        invariant
            i <= items.len(),
            reader@ == after_items(items@, i as int),
            track_wf(reader@.points),
        decreases items.len() - i,
    {
        match &items[i] {
            XmlItem::Start { name, attributes } => {
                reader.start(name.as_str(), attributes);
            },
            XmlItem::End { name } => {
                reader.end(name.as_str());
            },
            XmlItem::Text(text) => {
                let reading = parse_rfc3339_millis(text.as_str());
                reader.text(text.as_str(), reading);
            },
            XmlItem::Other => {},
        }
        i += 1;
    }
    if reader.is_tcx() {
        Ok(reader.finish())
    } else {
        Err(SourceError::NotTcx)
    }
}

/// What the pieces read from the bytes of a file tell, if they can be
/// read: the state after all of them.
pub open spec fn tcx_of(items: Option<Seq<XmlItem>>) -> Result<TcxModel, SourceError> {
    match items {
        None => Err(SourceError::Malformed),
        Some(items) => if after_items(items, items.len() as int).is_tcx {
            Ok(after_items(items, items.len() as int))
        } else {
            Err(SourceError::NotTcx)
        },
    }
}

/// The track and the totals of the activity that the bytes of a TCX file
/// tell. Fails where the bytes are no well-formed XML, or hold no training
/// centre database.
pub fn read_and_process_tcx(bytes: &[u8]) -> (result: Result<TcxProcessResult, SourceError>)
    ensures
        match result {
            Ok(r) => tcx_of(xml_events_of(bytes@)) is Ok && reads_as(
                r,
                tcx_of(xml_events_of(bytes@)).unwrap(),
            ) && track_wf(r.track@),
            Err(e) => tcx_of(xml_events_of(bytes@)) == Err::<TcxModel, SourceError>(e),
        },
{
    match read_xml(bytes) {
        Some(items) => process_tcx_items(&items),
        None => Err(SourceError::Malformed),
    }
}

} // verus!
