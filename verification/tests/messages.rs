use track_overlay::decimal::{decimal, join, push_decimal};
use track_overlay::i18n::{message, parse_key, parse_lang, t, Lang, MessageKey};
use track_overlay::position::{anchor_coords, get_position_coords, parse_anchor_position};
use track_overlay::schedule::AnchorPosition;
use track_overlay::text::str_eq;

#[test]
fn messages_come_in_english_for_en() {
    assert_eq!(t("processing_complete", "en"), "Processing completed successfully!");
    assert_eq!(t("error_occurred", "en"), "An error occurred:");
    assert_eq!(t("ffmpeg_failed", "en"), "FFmpeg command failed. Filter:");
    assert_eq!(
        t("tcx_data_found", "en"),
        "TCX data found! Heart rate, cadence and calories will be displayed."
    );
    assert_eq!(
        t("no_gpx_match", "en"),
        "No track points matched the video time. Generating copy of the original video."
    );
}

#[test]
fn messages_come_in_portuguese_for_any_other_tag() {
    assert_eq!(t("processing_complete", "pt-BR"), "Processo concluído com sucesso!");
    assert_eq!(t("processing_complete", ""), "Processo concluído com sucesso!");
    assert_eq!(t("processing_complete", "EN"), "Processo concluído com sucesso!");
    assert_eq!(t("reading_video_metadata", "pt"), "A ler metadados do vídeo:");
    assert_eq!(
        t("no_overlay_selected", "fr"),
        "Nenhum overlay foi selecionado. A gerar cópia do vídeo original."
    );
    assert_eq!(
        t("detecting_tcx_data", "pt-BR"),
        "Detectando dados extras TCX no arquivo de trilha..."
    );
}

#[test]
fn unknown_key_is_returned_as_it_is() {
    assert_eq!(t("no_such_key", "en"), "no_such_key");
    assert_eq!(t("no_such_key", "pt-BR"), "no_such_key");
    assert_eq!(t("", "en"), "");
    assert_eq!(t("Processing_Complete", "en"), "Processing_Complete");
}

#[test]
fn every_key_has_both_texts() {
    let keys = [
        "processing_complete",
        "error_occurred",
        "reading_video_metadata",
        "video_start_time",
        "sync_point_selected",
        "time_offset_calculated",
        "reading_gpx",
        "gpx_read_success",
        "interpolating_points",
        "interpolation_complete",
        "generating_track_image",
        "generating_marker_image",
        "map_assets_generated",
        "processing_gpx_points",
        "frame_generation_complete",
        "generating_final_video",
        "final_video_success",
        "no_overlay_selected",
        "no_gpx_match",
        "ffmpeg_failed",
        "detecting_tcx_data",
        "tcx_data_found",
    ];
    for key in keys {
        let k = parse_key(key).unwrap();
        assert_eq!(t(key, "en"), message(k, Lang::En));
        assert_eq!(t(key, "pt-BR"), message(k, Lang::Pt));
        assert_ne!(t(key, "en"), key);
        assert_ne!(t(key, "en"), t(key, "pt-BR"));
    }
    assert_eq!(parse_key("video_start_time"), Some(MessageKey::VideoStartTime));
    assert_eq!(parse_key("video_start_time "), None);
    assert_eq!(parse_lang("en"), Lang::En);
    assert_eq!(parse_lang("en-US"), Lang::Pt);
}

#[test]
fn texts_are_compared_by_content() {
    assert!(str_eq("", ""));
    assert!(str_eq("vídeo", "vídeo"));
    assert!(!str_eq("vídeo", "video"));
    assert!(!str_eq("abc", "abd"));
    assert!(!str_eq("abc", "ab"));
    assert!(!str_eq("", "a"));
}

#[test]
fn corners_are_named_by_tokens() {
    assert_eq!(parse_anchor_position("top-left"), AnchorPosition::TopLeft);
    assert_eq!(parse_anchor_position("top-right"), AnchorPosition::TopRight);
    assert_eq!(parse_anchor_position("bottom-right"), AnchorPosition::BottomRight);
    assert_eq!(parse_anchor_position("bottom-left"), AnchorPosition::BottomLeft);
    assert_eq!(parse_anchor_position(""), AnchorPosition::BottomLeft);
    assert_eq!(parse_anchor_position("Top-Left"), AnchorPosition::BottomLeft);
}

#[test]
fn corners_are_placed_ten_pixels_in() {
    assert_eq!(get_position_coords("top-left"), "10:10");
    assert_eq!(get_position_coords("top-right"), "main_w-overlay_w-10:10");
    assert_eq!(get_position_coords("bottom-right"), "main_w-overlay_w-10:main_h-overlay_h-10");
    assert_eq!(get_position_coords("bottom-left"), "10:main_h-overlay_h-10");
    assert_eq!(get_position_coords("centre"), "10:main_h-overlay_h-10");
    assert_eq!(anchor_coords(AnchorPosition::TopLeft), "10:10");
}

#[test]
fn numbers_are_written_in_decimal() {
    assert_eq!(decimal(0), "0");
    assert_eq!(decimal(7), "7");
    assert_eq!(decimal(10), "10");
    assert_eq!(decimal(1_234_567_890), "1234567890");
    assert_eq!(decimal(u64::MAX), "18446744073709551615");
    let mut s = String::from("n=");
    push_decimal(&mut s, 405);
    assert_eq!(s, "n=405");
}

#[test]
fn texts_are_joined_by_the_separator() {
    let parts = vec!["a".to_string(), "".to_string(), "bc".to_string()];
    assert_eq!(join(&parts, ","), "a,,bc");
    assert_eq!(join(&parts, ""), "abc");
    assert_eq!(join(&vec!["x".to_string()], "&"), "x");
    assert_eq!(join(&vec![], "&"), "");
}
