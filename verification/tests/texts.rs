use video_note_bot::messages::chat_log;
use video_note_bot::messages::fallback_log;
use video_note_bot::messages::fallback_text;
use video_note_bot::messages::greeting;
use video_note_bot::messages::rejection_text;
use video_note_bot::messages::start_log;
use video_note_bot::numfmt::i64_to_decimal;
use video_note_bot::numfmt::u64_to_decimal;
use video_note_bot::transfer::fresh_local_path;
use video_note_bot::transfer::local_path;
use video_note_bot::video::RejectionReason;

const RULES: &str = "ПРАВИЛА:\nвидео не должно быть больше 360p\nвидео должно быть квадратным\nвидео должно быть короче 60 секунд\nвидео не должно быть тяжелее 8 мегабайт";

#[test]
fn greeting_names_the_sender_and_recites_the_rules() {
    let g = greeting(Some("Ann"));
    assert_eq!(g, format!("привет, Ann, пришли видео\n{RULES}"));
    assert!(g.contains("Ann"));
    assert!(g.contains("видео не должно быть больше 360p"));
    assert!(g.contains("видео должно быть квадратным"));
    assert!(g.contains("видео должно быть короче 60 секунд"));
    assert!(g.contains("видео не должно быть тяжелее 8 мегабайт"));
}

#[test]
fn greeting_without_a_name_stays_nameless() {
    let g = greeting(None);
    assert_eq!(g, format!("привет, пришли видео\n{RULES}"));
}

#[test]
fn each_rejection_reason_has_its_fixed_message() {
    assert_eq!(
        rejection_text(RejectionReason::ResolutionTooHigh),
        "видео не должно быть больше 360p:("
    );
    assert_eq!(
        rejection_text(RejectionReason::NotSquare),
        "видео должно быть квадратным:("
    );
    assert_eq!(
        rejection_text(RejectionReason::TooLong),
        "видео должно быть короче 60 секунд:("
    );
    assert_eq!(
        rejection_text(RejectionReason::TooHeavy),
        "видео не должно быть тяжелее 8 мегабайт:("
    );
}

#[test]
fn fallback_text_is_fixed() {
    assert_eq!(fallback_text(), "не понял тебя. пришли видео!");
}

#[test]
fn log_lines_carry_handle_id_and_detail() {
    assert_eq!(start_log(Some("bob")), "@bob, /start");
    assert_eq!(start_log(None), "@, /start");
    assert_eq!(chat_log(Some("bob"), 42, "x"), "@bob, id=42, x");
    assert_eq!(
        chat_log(None, -100123, "./videos/-t.mp4"),
        "@, id=-100123, ./videos/-t.mp4"
    );
    assert_eq!(
        fallback_log(Some("bob"), 5, Some("hi")),
        "@bob, id=5, hi"
    );
    assert_eq!(fallback_log(Some("bob"), 5, None), "@bob, id=5, ");
}

#[test]
fn decimal_rendering_is_exact() {
    assert_eq!(u64_to_decimal(0), "0");
    assert_eq!(u64_to_decimal(7), "7");
    assert_eq!(u64_to_decimal(1024), "1024");
    assert_eq!(u64_to_decimal(u64::MAX), "18446744073709551615");
    assert_eq!(i64_to_decimal(0), "0");
    assert_eq!(i64_to_decimal(-1), "-1");
    assert_eq!(i64_to_decimal(-12345), "-12345");
    assert_eq!(i64_to_decimal(i64::MIN), "-9223372036854775808");
    assert_eq!(i64_to_decimal(i64::MAX), "9223372036854775807");
}

#[test]
fn local_path_is_built_from_handle_and_timestamp() {
    assert_eq!(local_path(Some("ann"), "TS"), "./videos/ann-TS.mp4");
    assert_eq!(local_path(None, "TS"), "./videos/-TS.mp4");
}

#[test]
fn fresh_local_path_frames_a_clock_reading() {
    let p = fresh_local_path(Some("ann"));
    assert!(p.starts_with("./videos/ann-"));
    assert!(p.ends_with(".mp4"));
    // Something actually stands between the handle and the extension.
    assert!(p.len() > "./videos/ann-.mp4".len());
}
