//! The span of time that a video covers, from what a probe of the file
//! tells about it.

use vstd::prelude::*;
use vstd::string::StringSliceAdditionalSpecFns;
use crate::align::VideoWindow;
use crate::i18n::Lang;
use crate::numbers::{decimal_value, parse_decimal, within_limit};
use crate::text::{holds_bytes, str_contains, str_eq};

verus! {

/// Why the span of a video is not known.
#[derive(Clone, Copy, Debug, PartialEq, Eq, Structural)]
pub enum VideoError {
    /// The probing tool is not installed.
    ProbeNotFound,
    /// The probing tool failed.
    ProbeFailed,
    /// No video stream tells when it was made.
    CreationTimeMissing,
    /// The time of making is no RFC 3339 instant.
    CreationTimeInvalid,
    /// The time of making names no single instant in the zone of the
    /// camera.
    LocalTimeUnclear,
    /// The file does not tell how long it lasts.
    DurationMissing,
    /// The duration is no number of seconds, or it is negative.
    DurationInvalid,
    /// The span lies beyond the instants that can be handled.
    OutOfRange,
}

/// What a probe tells about one stream of the file.
pub struct StreamInfo {
    pub codec_type: Option<String>,
    pub creation_time: Option<String>,
}

/// Whether the stream holds video.
pub open spec fn is_video(stream: StreamInfo) -> bool {
    stream.codec_type is Some && stream.codec_type.unwrap()@ == "video"@
}

/// The place of the first video stream at or after `i`, if there is one.
pub open spec fn first_video_from(streams: Seq<StreamInfo>, i: int) -> Option<usize>
    decreases streams.len() - i,
{
    if i < 0 || i >= streams.len() {
        None
    } else if is_video(streams[i]) {
        Some(i as usize)
    } else {
        first_video_from(streams, i + 1)
    }
}

/// The place of the first video stream, if there is one.
pub fn first_video_stream(streams: &Vec<StreamInfo>) -> (found: Option<usize>)
    ensures
        found == first_video_from(streams@, 0),
        found is Some ==> found.unwrap() < streams.len(),
{
    let mut i: usize = 0;
    while i < streams.len()
        invariant
            i <= streams.len(),
            first_video_from(streams@, 0) == first_video_from(streams@, i as int),
        decreases streams.len() - i,
    {
        let video = match &streams[i].codec_type {
            Some(kind) => str_eq(kind.as_str(), "video"),
            None => false,
        };
        if video {
            return Some(i);
        }
        i += 1;
    }
    None
}

/// The instant, in milliseconds since the Unix epoch, that chrono reads from
/// a text in RFC 3339 form; `None` where it reads none.
pub uninterp spec fn rfc3339_millis_of_text(text: Seq<char>) -> Option<i64>;

/// Calls chrono's `DateTime::parse_from_rfc3339` on the text and, on
/// success, `DateTime::timestamp_millis` on what it gave. The contract only
/// gives that outcome its name.
#[verifier::external_body]
pub(crate) fn parse_rfc3339_millis(text: &str) -> (ms: Option<i64>)
    ensures
        ms == rfc3339_millis_of_text(text@),
{
    match chrono::DateTime::parse_from_rfc3339(text) {
        Ok(instant) => Some(instant.timestamp_millis()),
        Err(_) => None,
    }
}

/// The instant that a wall-clock reading names in the zone
/// America/Sao_Paulo, by the zone rules that chrono-tz holds; `None` where
/// the reading names no instant there, or two.
pub uninterp spec fn sao_paulo_utc_of_local(local_ms: i64) -> Option<i64>;

/// Takes the milliseconds as a wall-clock reading (chrono's
/// `DateTime::from_timestamp_millis` and `naive_utc`), places it in the
/// zone `chrono_tz::America::Sao_Paulo` with `TimeZone::from_local_datetime`
/// and `single`, and gives the instant by `timestamp_millis`. The contract
/// only gives that outcome its name.
#[verifier::external_body]
fn sao_paulo_local_to_utc(local_ms: i64) -> (utc_ms: Option<i64>)
    ensures
        utc_ms == sao_paulo_utc_of_local(local_ms),
{
    let naive = chrono::DateTime::from_timestamp_millis(local_ms)?.naive_utc();
    chrono::TimeZone::from_local_datetime(&chrono_tz::America::Sao_Paulo, &naive)
        .single()
        .map(|instant| instant.timestamp_millis())
}

/// The reading of the time of making of the first video stream: what the
/// stream tells, read as RFC 3339.
pub open spec fn creation_reading(streams: Seq<StreamInfo>, first: Option<usize>) -> Result<
    i64,
    VideoError,
> {
    match first {
        Some(i) => match streams[i as int].creation_time {
            Some(text) => match rfc3339_millis_of_text(text@) {
                Some(ms) => Ok(ms),
                None => Err(VideoError::CreationTimeInvalid),
            },
            None => Err(VideoError::CreationTimeMissing),
        },
        None => Err(VideoError::CreationTimeMissing),
    }
}

/// The duration in milliseconds that a text tells in seconds.
pub open spec fn duration_of(duration: Option<String>) -> Result<u64, VideoError> {
    match duration {
        Some(text) => match within_limit(decimal_value(vstd::utf8::encode_utf8(text@), 3)) {
            Some(ms) => if ms >= 0 {
                Ok(ms as u64)
            } else {
                Err(VideoError::DurationInvalid)
            },
            None => Err(VideoError::DurationInvalid),
        },
        None => Err(VideoError::DurationMissing),
    }
}

/// The span of a video that starts at an instant, if it names one, and
/// lasts as long as a text tells in seconds.
pub open spec fn window_of(start: Option<i64>, duration: Option<String>) -> Result<
    VideoWindow,
    VideoError,
> {
    match start {
        None => Err(VideoError::LocalTimeUnclear),
        Some(s) => match duration_of(duration) {
            Err(e) => Err(e),
            Ok(d) => if crate::track::instant_ok(s as int) && crate::track::instant_ok(s + d) {
                Ok(VideoWindow { start: s, end: (s + d) as i64 })
            } else {
                Err(VideoError::OutOfRange)
            },
        },
    }
}

/// The span of a video that starts at an instant and lasts as long as a
/// text tells in seconds.
pub fn window_from(start: Option<i64>, duration: &Option<String>) -> (result: Result<
    VideoWindow,
    VideoError,
>)
    ensures
        result == window_of(start, *duration),
        result is Ok ==> result.unwrap().wf(),
{
    let s = match start {
        Some(s) => s,
        None => {
            return Err(VideoError::LocalTimeUnclear);
        },
    };
    let d: u64 = match duration {
        Some(text) => match parse_decimal(text.as_str(), 3) {
            Some(ms) => {
                if ms < 0 {
                    return Err(VideoError::DurationInvalid);
                }
                ms as u64
            },
            None => {
                return Err(VideoError::DurationInvalid);
            },
        },
        None => {
            return Err(VideoError::DurationMissing);
        },
    };
    match VideoWindow::new(s, d) {
        Some(w) => Ok(w),
        None => Err(VideoError::OutOfRange),
    }
}

/// The span of a video, from the streams and the duration that a probe
/// tells. The time of making of the first video stream is read as a
/// wall-clock time in the zone America/Sao_Paulo.
pub fn get_video_time_range(streams: &Vec<StreamInfo>, duration: &Option<String>) -> (result:
    Result<VideoWindow, VideoError>)
    ensures
        result == match creation_reading(streams@, first_video_from(streams@, 0)) {
            Err(e) => Err(e),
            Ok(local) => window_of(sao_paulo_utc_of_local(local), *duration),
        },
        result is Ok ==> result.unwrap().wf(),
{
    let first = first_video_stream(streams);
    let text = match first {
        Some(i) => match &streams[i].creation_time {
            Some(text) => text,
            None => {
                return Err(VideoError::CreationTimeMissing);
            },
        },
        None => {
            return Err(VideoError::CreationTimeMissing);
        },
    };
    let local = match parse_rfc3339_millis(text.as_str()) {
        Some(ms) => ms,
        None => {
            return Err(VideoError::CreationTimeInvalid);
        },
    };
    window_from(sao_paulo_local_to_utc(local), duration)
}

/// What a failure of the probing tool means: the tool is missing where its
/// message says that something was not found.
pub open spec fn probe_error_of(message: Seq<u8>) -> VideoError {
    if holds_bytes(message, vstd::utf8::encode_utf8("No such file or directory"@)) || holds_bytes(
        message,
        vstd::utf8::encode_utf8("not found"@),
    ) {
        VideoError::ProbeNotFound
    } else {
        VideoError::ProbeFailed
    }
}

/// What a failure of the probing tool with that message means.
pub fn classify_probe_error(message: &str) -> (e: VideoError)
    ensures
        e == probe_error_of(message.spec_bytes()),
{
    if str_contains(message, "No such file or directory") || str_contains(message, "not found") {
        VideoError::ProbeNotFound
    } else {
        VideoError::ProbeFailed
    }
}

/// The text that tells the user of the error.
pub open spec fn video_error_text(e: VideoError, lang: Lang) -> Seq<char> {
    match lang {
        Lang::En => match e {
            VideoError::ProbeNotFound => "Command 'ffprobe' not found. Make sure FFmpeg is installed and in the system's PATH."@,
            VideoError::ProbeFailed => "Error executing ffprobe."@,
            VideoError::CreationTimeMissing => "Tag 'creation_time' not found in the video stream."@,
            VideoError::CreationTimeInvalid => "Tag 'creation_time' of the video stream is no valid time."@,
            VideoError::LocalTimeUnclear => "Could not convert local time for the São Paulo timezone."@,
            VideoError::DurationMissing => "Duration not found."@,
            VideoError::DurationInvalid => "Duration is no valid number."@,
            VideoError::OutOfRange => "The time of the video is out of range."@,
        },
        Lang::Pt => match e {
            VideoError::ProbeNotFound => "Comando 'ffprobe' não encontrado. Verifique se o FFmpeg está instalado e no PATH do sistema."@,
            VideoError::ProbeFailed => "Erro ao executar o ffprobe."@,
            VideoError::CreationTimeMissing => "Tag 'creation_time' não encontrada no stream de vídeo."@,
            VideoError::CreationTimeInvalid => "Tag 'creation_time' do stream de vídeo não é uma hora válida."@,
            VideoError::LocalTimeUnclear => "Não foi possível converter a hora local para o fuso de São Paulo."@,
            VideoError::DurationMissing => "Duração não encontrada."@,
            VideoError::DurationInvalid => "Duração não é um número válido."@,
            VideoError::OutOfRange => "A hora do vídeo está fora do intervalo."@,
        },
    }
}

/// The text that tells the user of the error.
pub fn video_error_message(e: VideoError, lang: Lang) -> (text: &'static str)
    ensures
        text@ == video_error_text(e, lang),
{
    match lang {
        Lang::En => match e {
            VideoError::ProbeNotFound => "Command 'ffprobe' not found. Make sure FFmpeg is installed and in the system's PATH.",
            VideoError::ProbeFailed => "Error executing ffprobe.",
            VideoError::CreationTimeMissing => "Tag 'creation_time' not found in the video stream.",
            VideoError::CreationTimeInvalid => "Tag 'creation_time' of the video stream is no valid time.",
            VideoError::LocalTimeUnclear => "Could not convert local time for the São Paulo timezone.",
            VideoError::DurationMissing => "Duration not found.",
            VideoError::DurationInvalid => "Duration is no valid number.",
            VideoError::OutOfRange => "The time of the video is out of range.",
        },
        Lang::Pt => match e {
            VideoError::ProbeNotFound => "Comando 'ffprobe' não encontrado. Verifique se o FFmpeg está instalado e no PATH do sistema.",
            VideoError::ProbeFailed => "Erro ao executar o ffprobe.",
            VideoError::CreationTimeMissing => "Tag 'creation_time' não encontrada no stream de vídeo.",
            VideoError::CreationTimeInvalid => "Tag 'creation_time' do stream de vídeo não é uma hora válida.",
            VideoError::LocalTimeUnclear => "Não foi possível converter a hora local para o fuso de São Paulo.",
            VideoError::DurationMissing => "Duração não encontrada.",
            VideoError::DurationInvalid => "Duração não é um número válido.",
            VideoError::OutOfRange => "A hora do vídeo está fora do intervalo.",
        },
    }
}

} // verus!
