//! The messages of the job log, in English and in Portuguese.

use vstd::prelude::*;
use crate::text::str_eq;

verus! {

/// The language of the messages.
#[derive(Clone, Copy, Debug, PartialEq, Eq, Structural)]
pub enum Lang {
    En,
    Pt,
}

/// What a message says.
#[derive(Clone, Copy, Debug, PartialEq, Eq, Structural)]
pub enum MessageKey {
    ProcessingComplete,
    ErrorOccurred,
    ReadingVideoMetadata,
    VideoStartTime,
    SyncPointSelected,
    TimeOffsetCalculated,
    ReadingGpx,
    GpxReadSuccess,
    InterpolatingPoints,
    InterpolationComplete,
    GeneratingTrackImage,
    GeneratingMarkerImage,
    MapAssetsGenerated,
    ProcessingGpxPoints,
    FrameGenerationComplete,
    GeneratingFinalVideo,
    FinalVideoSuccess,
    NoOverlaySelected,
    NoGpxMatch,
    FfmpegFailed,
    DetectingTcxData,
    TcxDataFound,
}

/// The language that a tag names: English for `en`, Portuguese for any
/// other.
pub open spec fn lang_of(lang: Seq<char>) -> Lang {
    if lang == "en"@ {
        Lang::En
    } else {
        Lang::Pt
    }
}

/// The message that a key names, if it names one.
pub open spec fn key_of(key: Seq<char>) -> Option<MessageKey> {
    if key == "processing_complete"@ {
        Some(MessageKey::ProcessingComplete)
    } else if key == "error_occurred"@ {
        Some(MessageKey::ErrorOccurred)
    } else if key == "reading_video_metadata"@ {
        Some(MessageKey::ReadingVideoMetadata)
    } else if key == "video_start_time"@ {
        Some(MessageKey::VideoStartTime)
    } else if key == "sync_point_selected"@ {
        Some(MessageKey::SyncPointSelected)
    } else if key == "time_offset_calculated"@ {
        Some(MessageKey::TimeOffsetCalculated)
    } else if key == "reading_gpx"@ {
        Some(MessageKey::ReadingGpx)
    } else if key == "gpx_read_success"@ {
        Some(MessageKey::GpxReadSuccess)
    } else if key == "interpolating_points"@ {
        Some(MessageKey::InterpolatingPoints)
    } else if key == "interpolation_complete"@ {
        Some(MessageKey::InterpolationComplete)
    } else if key == "generating_track_image"@ {
        Some(MessageKey::GeneratingTrackImage)
    } else if key == "generating_marker_image"@ {
        Some(MessageKey::GeneratingMarkerImage)
    } else if key == "map_assets_generated"@ {
        Some(MessageKey::MapAssetsGenerated)
    } else if key == "processing_gpx_points"@ {
        Some(MessageKey::ProcessingGpxPoints)
    } else if key == "frame_generation_complete"@ {
        Some(MessageKey::FrameGenerationComplete)
    } else if key == "generating_final_video"@ {
        Some(MessageKey::GeneratingFinalVideo)
    } else if key == "final_video_success"@ {
        Some(MessageKey::FinalVideoSuccess)
    } else if key == "no_overlay_selected"@ {
        Some(MessageKey::NoOverlaySelected)
    } else if key == "no_gpx_match"@ {
        Some(MessageKey::NoGpxMatch)
    } else if key == "ffmpeg_failed"@ {
        Some(MessageKey::FfmpegFailed)
    } else if key == "detecting_tcx_data"@ {
        Some(MessageKey::DetectingTcxData)
    } else if key == "tcx_data_found"@ {
        Some(MessageKey::TcxDataFound)
    } else {
        None
    }
}

/// The text of a message in a language.
pub open spec fn message_of(key: MessageKey, lang: Lang) -> Seq<char> {
    match lang {
        Lang::En => match key {
            MessageKey::ProcessingComplete => "Processing completed successfully!"@,
            MessageKey::ErrorOccurred => "An error occurred:"@,
            MessageKey::ReadingVideoMetadata => "Reading video metadata:"@,
            MessageKey::VideoStartTime => "Video start (UTC):"@,
            MessageKey::SyncPointSelected => "Selected track sync point (UTC):"@,
            MessageKey::TimeOffsetCalculated => "Calculated time offset:"@,
            MessageKey::ReadingGpx => "Reading track file:"@,
            MessageKey::GpxReadSuccess => "Track file read successfully!"@,
            MessageKey::InterpolatingPoints => "Interpolating track points..."@,
            MessageKey::InterpolationComplete => "Track point interpolation complete!"@,
            MessageKey::GeneratingTrackImage => "Generating base track image..."@,
            MessageKey::GeneratingMarkerImage => "Generating marker image..."@,
            MessageKey::MapAssetsGenerated => "Map assets generated."@,
            MessageKey::ProcessingGpxPoints => "Processing track points to generate frames..."@,
            MessageKey::FrameGenerationComplete => "Data frame generation complete:"@,
            MessageKey::GeneratingFinalVideo => "Generating final video..."@,
            MessageKey::FinalVideoSuccess => "Final video generated successfully!"@,
            MessageKey::NoOverlaySelected => "No overlay was selected. Generating copy of the original video."@,
            MessageKey::NoGpxMatch => "No track points matched the video time. Generating copy of the original video."@,
            MessageKey::FfmpegFailed => "FFmpeg command failed. Filter:"@,
            MessageKey::DetectingTcxData => "Detecting TCX extra data in track file..."@,
            MessageKey::TcxDataFound => "TCX data found! Heart rate, cadence and calories will be displayed."@,
        },
        Lang::Pt => match key {
            MessageKey::ProcessingComplete => "Processo concluído com sucesso!"@,
            MessageKey::ErrorOccurred => "Ocorreu um erro:"@,
            MessageKey::ReadingVideoMetadata => "A ler metadados do vídeo:"@,
            MessageKey::VideoStartTime => "Início do vídeo (UTC):"@,
            MessageKey::SyncPointSelected => "Ponto de sincronização da trilha selecionado (UTC):"@,
            MessageKey::TimeOffsetCalculated => "Desvio de tempo calculado:"@,
            MessageKey::ReadingGpx => "Lendo arquivo de trilha:"@,
            MessageKey::GpxReadSuccess => "Arquivo de trilha lido com sucesso!"@,
            MessageKey::InterpolatingPoints => "A interpolar pontos da trilha..."@,
            MessageKey::InterpolationComplete => "Interpolação de pontos da trilha concluída!"@,
            MessageKey::GeneratingTrackImage => "A gerar imagem base do trajeto..."@,
            MessageKey::GeneratingMarkerImage => "A gerar imagem do marcador..."@,
            MessageKey::MapAssetsGenerated => "Assets do mapa gerados."@,
            MessageKey::ProcessingGpxPoints => "A processar pontos da trilha para gerar frames..."@,
            MessageKey::FrameGenerationComplete => "Geração de frames de dados concluída:"@,
            MessageKey::GeneratingFinalVideo => "A gerar o vídeo final..."@,
            MessageKey::FinalVideoSuccess => "Vídeo final gerado com sucesso!"@,
            MessageKey::NoOverlaySelected => "Nenhum overlay foi selecionado. A gerar cópia do vídeo original."@,
            MessageKey::NoGpxMatch => "Nenhum ponto da trilha coincidiu com o tempo do vídeo. A gerar cópia do vídeo original."@,
            MessageKey::FfmpegFailed => "O comando FFmpeg falhou. Filtro:"@,
            MessageKey::DetectingTcxData => "Detectando dados extras TCX no arquivo de trilha..."@,
            MessageKey::TcxDataFound => "Dados TCX encontrados! Frequência cardíaca, cadência e calorias serão exibidos."@,
        },
    }
}

/// The text for a key in the language of a tag: the message that the key
/// names, or the key itself where it names none.
pub open spec fn translated(key: Seq<char>, lang: Seq<char>) -> Seq<char> {
    match key_of(key) {
        Some(k) => message_of(k, lang_of(lang)),
        None => key,
    }
}

/// The language that a tag names.
pub fn parse_lang(lang: &str) -> (l: Lang)
    ensures
        l == lang_of(lang@),
{
    if str_eq(lang, "en") {
        Lang::En
    } else {
        Lang::Pt
    }
}

/// The message that a key names, if it names one.
pub fn parse_key(key: &str) -> (k: Option<MessageKey>)
    ensures
        k == key_of(key@),
{
    if str_eq(key, "processing_complete") {
        Some(MessageKey::ProcessingComplete)
    } else if str_eq(key, "error_occurred") {
        Some(MessageKey::ErrorOccurred)
    } else if str_eq(key, "reading_video_metadata") {
        Some(MessageKey::ReadingVideoMetadata)
    } else if str_eq(key, "video_start_time") {
        Some(MessageKey::VideoStartTime)
    } else if str_eq(key, "sync_point_selected") {
        Some(MessageKey::SyncPointSelected)
    } else if str_eq(key, "time_offset_calculated") {
        Some(MessageKey::TimeOffsetCalculated)
    } else if str_eq(key, "reading_gpx") {
        Some(MessageKey::ReadingGpx)
    } else if str_eq(key, "gpx_read_success") {
        Some(MessageKey::GpxReadSuccess)
    } else if str_eq(key, "interpolating_points") {
        Some(MessageKey::InterpolatingPoints)
    } else if str_eq(key, "interpolation_complete") {
        Some(MessageKey::InterpolationComplete)
    } else if str_eq(key, "generating_track_image") {
        Some(MessageKey::GeneratingTrackImage)
    } else if str_eq(key, "generating_marker_image") {
        Some(MessageKey::GeneratingMarkerImage)
    } else if str_eq(key, "map_assets_generated") {
        Some(MessageKey::MapAssetsGenerated)
    } else if str_eq(key, "processing_gpx_points") {
        Some(MessageKey::ProcessingGpxPoints)
    } else if str_eq(key, "frame_generation_complete") {
        Some(MessageKey::FrameGenerationComplete)
    } else if str_eq(key, "generating_final_video") {
        Some(MessageKey::GeneratingFinalVideo)
    } else if str_eq(key, "final_video_success") {
        Some(MessageKey::FinalVideoSuccess)
    } else if str_eq(key, "no_overlay_selected") {
        Some(MessageKey::NoOverlaySelected)
    } else if str_eq(key, "no_gpx_match") {
        Some(MessageKey::NoGpxMatch)
    } else if str_eq(key, "ffmpeg_failed") {
        Some(MessageKey::FfmpegFailed)
    } else if str_eq(key, "detecting_tcx_data") {
        Some(MessageKey::DetectingTcxData)
    } else if str_eq(key, "tcx_data_found") {
        Some(MessageKey::TcxDataFound)
    } else {
        None
    }
}

/// The text of a message in a language.
pub fn message(key: MessageKey, lang: Lang) -> (text: &'static str)
    ensures
        text@ == message_of(key, lang),
{
    match lang {
        Lang::En => match key {
            MessageKey::ProcessingComplete => "Processing completed successfully!",
            MessageKey::ErrorOccurred => "An error occurred:",
            MessageKey::ReadingVideoMetadata => "Reading video metadata:",
            MessageKey::VideoStartTime => "Video start (UTC):",
            MessageKey::SyncPointSelected => "Selected track sync point (UTC):",
            MessageKey::TimeOffsetCalculated => "Calculated time offset:",
            MessageKey::ReadingGpx => "Reading track file:",
            MessageKey::GpxReadSuccess => "Track file read successfully!",
            MessageKey::InterpolatingPoints => "Interpolating track points...",
            MessageKey::InterpolationComplete => "Track point interpolation complete!",
            MessageKey::GeneratingTrackImage => "Generating base track image...",
            MessageKey::GeneratingMarkerImage => "Generating marker image...",
            MessageKey::MapAssetsGenerated => "Map assets generated.",
            MessageKey::ProcessingGpxPoints => "Processing track points to generate frames...",
            MessageKey::FrameGenerationComplete => "Data frame generation complete:",
            MessageKey::GeneratingFinalVideo => "Generating final video...",
            MessageKey::FinalVideoSuccess => "Final video generated successfully!",
            MessageKey::NoOverlaySelected => "No overlay was selected. Generating copy of the original video.",
            MessageKey::NoGpxMatch => "No track points matched the video time. Generating copy of the original video.",
            MessageKey::FfmpegFailed => "FFmpeg command failed. Filter:",
            MessageKey::DetectingTcxData => "Detecting TCX extra data in track file...",
            MessageKey::TcxDataFound => "TCX data found! Heart rate, cadence and calories will be displayed.",
        },
        Lang::Pt => match key {
            MessageKey::ProcessingComplete => "Processo concluído com sucesso!",
            MessageKey::ErrorOccurred => "Ocorreu um erro:",
            MessageKey::ReadingVideoMetadata => "A ler metadados do vídeo:",
            MessageKey::VideoStartTime => "Início do vídeo (UTC):",
            MessageKey::SyncPointSelected => "Ponto de sincronização da trilha selecionado (UTC):",
            MessageKey::TimeOffsetCalculated => "Desvio de tempo calculado:",
            MessageKey::ReadingGpx => "Lendo arquivo de trilha:",
            MessageKey::GpxReadSuccess => "Arquivo de trilha lido com sucesso!",
            MessageKey::InterpolatingPoints => "A interpolar pontos da trilha...",
            MessageKey::InterpolationComplete => "Interpolação de pontos da trilha concluída!",
            MessageKey::GeneratingTrackImage => "A gerar imagem base do trajeto...",
            MessageKey::GeneratingMarkerImage => "A gerar imagem do marcador...",
            MessageKey::MapAssetsGenerated => "Assets do mapa gerados.",
            MessageKey::ProcessingGpxPoints => "A processar pontos da trilha para gerar frames...",
            MessageKey::FrameGenerationComplete => "Geração de frames de dados concluída:",
            MessageKey::GeneratingFinalVideo => "A gerar o vídeo final...",
            MessageKey::FinalVideoSuccess => "Vídeo final gerado com sucesso!",
            MessageKey::NoOverlaySelected => "Nenhum overlay foi selecionado. A gerar cópia do vídeo original.",
            MessageKey::NoGpxMatch => "Nenhum ponto da trilha coincidiu com o tempo do vídeo. A gerar cópia do vídeo original.",
            MessageKey::FfmpegFailed => "O comando FFmpeg falhou. Filtro:",
            MessageKey::DetectingTcxData => "Detectando dados extras TCX no arquivo de trilha...",
            MessageKey::TcxDataFound => "Dados TCX encontrados! Frequência cardíaca, cadência e calorias serão exibidos.",
        },
    }
}

/// The text for a key in the language of a tag. A key that names no
/// message is returned as it is.
pub fn t(key: &str, lang: &str) -> (text: String)
    ensures
        text@ == translated(key@, lang@),
{
    match parse_key(key) {
        Some(k) => message(k, parse_lang(lang)).to_owned(),
        None => key.to_owned(),
    }
}

} // verus!
