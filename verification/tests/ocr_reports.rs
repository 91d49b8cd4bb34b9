use froggi::ocr::{
    apply_ocr_fields, clock_from_text, count_from_text, ocr_api_button_html, ocr_request,
    toggle_ocr_api, CountReading, HeaderText, OcrFields, OcrOutcome, OcrReply, Scoreboard,
};

fn board() -> Scoreboard {
    Scoreboard { game_clock: 5, home_points: 1, away_points: 2, quarter: 3, downs_togo: 4, down: 1 }
}

fn none_fields() -> OcrFields {
    OcrFields { time: None, home_score: None, away_score: None, period: None, to_go: None, down: None }
}

#[test]
fn clock_reads_minutes_and_seconds() {
    assert_eq!(clock_from_text("12:30"), Some(750));
    assert_eq!(clock_from_text("0:05"), Some(5));
    assert_eq!(clock_from_text("12:30:00"), None);
    assert_eq!(clock_from_text("1230"), None);
    assert_eq!(clock_from_text("a:30"), None);
    assert_eq!(clock_from_text(":30"), None);
}

#[test]
fn clock_wraps_like_the_release_build() {
    // 4294967295 * 60 + 0 computed in 32 bits
    let expected = (4294967295u32.wrapping_mul(60)) as u64;
    assert_eq!(clock_from_text("4294967295:0"), Some(expected));
}

#[test]
fn counts_with_ordinal_suffix_use_the_first_character() {
    assert_eq!(count_from_text("1st"), CountReading::Value(1));
    assert_eq!(count_from_text("2nd"), CountReading::Value(2));
    assert_eq!(count_from_text("3rd"), CountReading::Value(3));
    assert_eq!(count_from_text("4th"), CountReading::Value(4));
    assert_eq!(count_from_text("12th"), CountReading::Value(1));
    assert_eq!(count_from_text("xth"), CountReading::Invalid);
    assert_eq!(count_from_text("th"), CountReading::Invalid);
    assert_eq!(count_from_text("éth"), CountReading::Unsliceable);
}

#[test]
fn counts_without_suffix_parse_whole() {
    assert_eq!(count_from_text("4"), CountReading::Value(4));
    assert_eq!(count_from_text("300"), CountReading::Unchanged);
    assert_eq!(count_from_text("OT"), CountReading::Unchanged);
}

#[test]
fn full_report_is_applied() {
    let mut b = board();
    let f = OcrFields {
        time: Some("2:00".into()),
        home_score: Some("14".into()),
        away_score: Some("7".into()),
        period: Some("2nd".into()),
        to_go: Some("10".into()),
        down: Some("3".into()),
    };
    assert_eq!(apply_ocr_fields(&mut b, &f), OcrOutcome::Applied);
    assert_eq!(b, Scoreboard { game_clock: 120, home_points: 14, away_points: 7, quarter: 2, downs_togo: 10, down: 3 });
    // applying it again changes nothing
    let again = b;
    assert_eq!(apply_ocr_fields(&mut b, &f), OcrOutcome::Applied);
    assert_eq!(b, again);
}

#[test]
fn empty_report_keeps_board() {
    let mut b = board();
    assert_eq!(apply_ocr_fields(&mut b, &none_fields()), OcrOutcome::Applied);
    assert_eq!(b, board());
}

#[test]
fn failing_period_keeps_earlier_readings() {
    let mut b = board();
    let mut f = none_fields();
    f.home_score = Some("9".into());
    f.period = Some("?st".into());
    f.to_go = Some("8".into());
    assert_eq!(apply_ocr_fields(&mut b, &f), OcrOutcome::Invalid);
    assert_eq!(b.home_points, 9);
    assert_eq!(b.downs_togo, 4);
}

#[test]
fn request_needs_header_switch_and_key() {
    let body = r#"{"Home Score":"21"}"#;
    let mut b = board();
    assert_eq!(ocr_request(&mut b, true, &HeaderText::Absent, Some("k"), body), OcrReply::Unauthorized);
    assert_eq!(ocr_request(&mut b, false, &HeaderText::Text("k".into()), Some("k"), body), OcrReply::Disabled);
    assert_eq!(ocr_request(&mut b, true, &HeaderText::Text("x".into()), Some("k"), body), OcrReply::Unauthorized);
    assert_eq!(ocr_request(&mut b, true, &HeaderText::NotVisibleAscii, Some("k"), body), OcrReply::ServerError);
    assert_eq!(ocr_request(&mut b, true, &HeaderText::Text("k".into()), None, body), OcrReply::ServerError);
    assert_eq!(b, board());
    assert_eq!(ocr_request(&mut b, true, &HeaderText::Text("k".into()), Some("k"), body), OcrReply::Updated);
    assert_eq!(b.home_points, 21);
}

#[test]
fn request_with_bad_json_fails() {
    let mut b = board();
    let key = HeaderText::Text("k".into());
    assert_eq!(ocr_request(&mut b, true, &key, Some("k"), "not json"), OcrReply::ServerError);
    assert_eq!(ocr_request(&mut b, true, &key, Some("k"), r#"{"Time": 5}"#), OcrReply::ServerError);
    assert_eq!(b, board());
}

#[test]
fn request_reads_every_member() {
    let mut b = board();
    let key = HeaderText::Text("k".into());
    let body = r#"{"Time":"1:01","Home Score":"3","Away Score":"6","Period":"4th","To Go":"2","Down":"1st","Other":"x"}"#;
    assert_eq!(ocr_request(&mut b, true, &key, Some("k"), body), OcrReply::Updated);
    assert_eq!(b, Scoreboard { game_clock: 61, home_points: 3, away_points: 6, quarter: 4, downs_togo: 2, down: 1 });
}

#[test]
fn unsliceable_reading_abandons() {
    let mut b = board();
    let key = HeaderText::Text("k".into());
    assert_eq!(ocr_request(&mut b, true, &key, Some("k"), r#"{"Down":"ñth","Away Score":"1"}"#), OcrReply::Abandoned);
    assert_eq!(b.away_points, 1);
}

#[test]
fn toggle_flips_and_names_next_action() {
    let mut on = false;
    assert_eq!(toggle_ocr_api(&mut on), "Disable OCR API");
    assert!(on);
    assert_eq!(toggle_ocr_api(&mut on), "Enable OCR API");
    assert!(!on);
}

#[test]
fn button_shows_switch_label() {
    assert_eq!(
        ocr_api_button_html(false),
        "<button class=\"button-settings\" hx-post=\"/ocr/api/toggle\">Enable OCR API</button>"
    );
    let mut s = true;
    let label = toggle_ocr_api(&mut s);
    assert_eq!(ocr_api_button_html(s), format!("<button class=\"button-settings\" hx-post=\"/ocr/api/toggle\">{}</button>", label));
}
