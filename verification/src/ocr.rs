//! Scoreboard updates read by optical character recognition, and the switch
//! that lets them in.

use vstd::prelude::*;
use crate::json::{json_string_object, member_value, parse_string_object};
use crate::text::{
    all_digits, decimal_value, has_char, lemma_split_on_joined, unsigned_body, digit_value, str_equal, ends_with, is_digit, is_suffix, parse_u32, parse_u8, parse_unsigned, split_char,
    split_on,
};

verus! {

/// The game state that OCR readings may overwrite.
#[derive(Clone, Copy, Debug, PartialEq, Eq, Structural)]
pub struct Scoreboard {
    pub game_clock: u64,
    pub home_points: u32,
    pub away_points: u32,
    pub quarter: u8,
    pub downs_togo: u8,
    pub down: u8,
}

/// The readings of one OCR report, each present when the report has that member.
pub struct OcrFields {
    pub time: Option<String>,
    pub home_score: Option<String>,
    pub away_score: Option<String>,
    pub period: Option<String>,
    pub to_go: Option<String>,
    pub down: Option<String>,
}

/// The text of the readings of one OCR report.
pub struct OcrText {
    pub time: Option<Seq<char>>,
    pub home_score: Option<Seq<char>>,
    pub away_score: Option<Seq<char>>,
    pub period: Option<Seq<char>>,
    pub to_go: Option<Seq<char>>,
    pub down: Option<Seq<char>>,
}

pub open spec fn opt_view(o: Option<String>) -> Option<Seq<char>> {
    match o {
        Some(s) => Some(s@),
        None => None,
    }
}

impl View for OcrFields {
    type V = OcrText;

    open spec fn view(&self) -> OcrText {
        OcrText {
            time: opt_view(self.time),
            home_score: opt_view(self.home_score),
            away_score: opt_view(self.away_score),
            period: opt_view(self.period),
            to_go: opt_view(self.to_go),
            down: opt_view(self.down),
        }
    }
}

/// How a period or down reading is read.
#[derive(Clone, Copy, Debug, PartialEq, Eq, Structural)]
pub enum CountReading {
    /// Not a number and no ordinal suffix: the count is left as it is.
    Unchanged,
    /// The count to store.
    Value(u8),
    /// An ordinal suffix after something that is not a digit: the report fails.
    Invalid,
    /// An ordinal suffix after a first character of more than one byte, which
    /// slicing after the first byte cannot split: the request is abandoned.
    Unsliceable,
}

/// How applying a report ended.
#[derive(Clone, Copy, Debug, PartialEq, Eq, Structural)]
pub enum OcrOutcome {
    Applied,
    Invalid,
    Unsliceable,
}

/// The clock reading `MM:SS`: exactly one `:` between two unsigned 32-bit numbers;
/// the seconds are `MM * 60 + SS`, computed in 32 bits with wrap-around.
pub open spec fn clock_reading(d: Seq<char>) -> Option<u64> {
    let p = split_on(d, ':');
    if p.len() == 2 && parse_unsigned(p[0], u32::MAX as nat) is Some && parse_unsigned(
        p[1],
        u32::MAX as nat,
    ) is Some {
        Some(
            ((parse_unsigned(p[0], u32::MAX as nat)->0 * 60 + parse_unsigned(
                p[1],
                u32::MAX as nat,
            )->0) % 0x1_0000_0000) as u64,
        )
    } else {
        None
    }
}

/// `d` ends in one of the ordinal suffixes `st`, `nd`, `rd`, `th`.
pub open spec fn has_ordinal_suffix(d: Seq<char>) -> bool {
    ||| is_suffix(seq!['s', 't'], d)
    ||| is_suffix(seq!['n', 'd'], d)
    ||| is_suffix(seq!['r', 'd'], d)
    ||| is_suffix(seq!['t', 'h'], d)
}

/// A period or down reading: with an ordinal suffix, the first character alone is
/// the count; otherwise the whole text, when it is an unsigned 8-bit number.
pub open spec fn count_reading(d: Seq<char>) -> CountReading {
    if has_ordinal_suffix(d) {
        if d[0] as int >= 0x80 {
            CountReading::Unsliceable
        } else if is_digit(d[0]) {
            CountReading::Value(digit_value(d[0]) as u8)
        } else {
            CountReading::Invalid
        }
    } else {
        match parse_unsigned(d, u8::MAX as nat) {
            Some(v) => CountReading::Value(v as u8),
            None => CountReading::Unchanged,
        }
    }
}

pub open spec fn read_count(t: Option<Seq<char>>) -> CountReading {
    match t {
        Some(d) => count_reading(d),
        None => CountReading::Unchanged,
    }
}

pub open spec fn with_clock(b: Scoreboard, t: Option<Seq<char>>) -> Scoreboard {
    match t {
        Some(d) => match clock_reading(d) {
            Some(c) => Scoreboard { game_clock: c, ..b },
            None => b,
        },
        None => b,
    }
}

pub open spec fn read_u32(t: Option<Seq<char>>) -> Option<u32> {
    match t {
        Some(d) => match parse_unsigned(d, u32::MAX as nat) {
            Some(v) => Some(v as u32),
            None => None,
        },
        None => None,
    }
}

pub open spec fn read_u8(t: Option<Seq<char>>) -> Option<u8> {
    match t {
        Some(d) => match parse_unsigned(d, u8::MAX as nat) {
            Some(v) => Some(v as u8),
            None => None,
        },
        None => None,
    }
}

/// The board after the clock and both scores of a report are applied.
pub open spec fn with_clock_and_scores(b: Scoreboard, t: OcrText) -> Scoreboard {
    let b1 = with_clock(b, t.time);
    let b2 = match read_u32(t.home_score) {
        Some(v) => Scoreboard { home_points: v, ..b1 },
        None => b1,
    };
    match read_u32(t.away_score) {
        Some(v) => Scoreboard { away_points: v, ..b2 },
        None => b2,
    }
}

/// The board after the period, the yards to go and the down are applied to `b`.
pub open spec fn with_counts(b: Scoreboard, t: OcrText) -> (Scoreboard, OcrOutcome) {
    match read_count(t.period) {
        CountReading::Unsliceable => (b, OcrOutcome::Unsliceable),
        CountReading::Invalid => (b, OcrOutcome::Invalid),
        CountReading::Value(q) => with_down(Scoreboard { quarter: q, ..b }, t),
        CountReading::Unchanged => with_down(b, t),
    }
}

pub open spec fn with_down(b: Scoreboard, t: OcrText) -> (Scoreboard, OcrOutcome) {
    let b5 = match read_u8(t.to_go) {
        Some(v) => Scoreboard { downs_togo: v, ..b },
        None => b,
    };
    match read_count(t.down) {
        CountReading::Unsliceable => (b5, OcrOutcome::Unsliceable),
        CountReading::Invalid => (b5, OcrOutcome::Invalid),
        CountReading::Value(d) => (Scoreboard { down: d, ..b5 }, OcrOutcome::Applied),
        CountReading::Unchanged => (b5, OcrOutcome::Applied),
    }
}

/// Applying a report to `b` in the order clock, home score, away score, period,
/// yards to go, down; a failing reading ends it, with the earlier ones applied.
pub open spec fn ocr_result(b: Scoreboard, t: OcrText) -> (Scoreboard, OcrOutcome) {
    with_counts(with_clock_and_scores(b, t), t)
}

/// A clock reading `MM:SS` of two unsigned 32-bit decimal numbers shows
/// `MM * 60 + SS` seconds, wrapped to 32 bits.
pub proof fn law_clock_reading_value(minutes: Seq<char>, seconds: Seq<char>)
    requires
        minutes.len() > 0,
        seconds.len() > 0,
        all_digits(minutes),
        all_digits(seconds),
        decimal_value(minutes) <= u32::MAX,
        decimal_value(seconds) <= u32::MAX,
    ensures
        clock_reading(minutes + seq![':'] + seconds) == Some(
            ((decimal_value(minutes) * 60 + decimal_value(seconds)) % 0x1_0000_0000) as u64,
        ),
{
    assert(!has_char(minutes, ':')) by {
        if has_char(minutes, ':') {
            let i = choose|i: int| 0 <= i < minutes.len() && minutes[i] == ':';
            assert(is_digit(minutes[i]));
        }
    }
    assert(!has_char(seconds, ':')) by {
        if has_char(seconds, ':') {
            let i = choose|i: int| 0 <= i < seconds.len() && seconds[i] == ':';
            assert(is_digit(seconds[i]));
        }
    }
    lemma_split_on_joined(minutes, seconds, ':');
    assert(is_digit(minutes[0]));
    assert(is_digit(seconds[0]));
    assert(unsigned_body(minutes) == minutes);
    assert(unsigned_body(seconds) == seconds);
}

/// A report whose `Time` is a clock reading sets the game clock to it, whatever
/// the report's other members are and however applying them ends.
pub proof fn law_clock_reading_applied(b: Scoreboard, t: OcrText, d: Seq<char>)
    requires
        t.time == Some(d),
        clock_reading(d) is Some,
    ensures
        ocr_result(b, t).0.game_clock == clock_reading(d)->0,
{
}

/// A report without a clock reading leaves the game clock as it was.
pub proof fn law_clock_kept(b: Scoreboard, t: OcrText)
    requires
        !(t.time matches Some(d) && clock_reading(d) is Some),
    ensures
        ocr_result(b, t).0.game_clock == b.game_clock,
{
}

/// A report whose `Home Score` is an unsigned 32-bit number sets the home points to it,
/// whatever the report's other members are and however applying them ends.
pub proof fn law_home_score_applied(b: Scoreboard, t: OcrText, d: Seq<char>)
    requires
        t.home_score == Some(d),
        parse_unsigned(d, u32::MAX as nat) is Some,
    ensures
        ocr_result(b, t).0.home_points == parse_unsigned(d, u32::MAX as nat)->0,
{
}

/// A report without such a `Home Score` leaves the home points as they were.
pub proof fn law_home_score_kept(b: Scoreboard, t: OcrText)
    requires
        !(t.home_score matches Some(d) && parse_unsigned(d, u32::MAX as nat) is Some),
    ensures
        ocr_result(b, t).0.home_points == b.home_points,
{
}

/// A report whose `Away Score` is an unsigned 32-bit number sets the away points to it,
/// whatever the report's other members are and however applying them ends.
pub proof fn law_away_score_applied(b: Scoreboard, t: OcrText, d: Seq<char>)
    requires
        t.away_score == Some(d),
        parse_unsigned(d, u32::MAX as nat) is Some,
    ensures
        ocr_result(b, t).0.away_points == parse_unsigned(d, u32::MAX as nat)->0,
{
}

/// A report without such a `Away Score` leaves the away points as they were.
pub proof fn law_away_score_kept(b: Scoreboard, t: OcrText)
    requires
        !(t.away_score matches Some(d) && parse_unsigned(d, u32::MAX as nat) is Some),
    ensures
        ocr_result(b, t).0.away_points == b.away_points,
{
}

/// The seconds shown by a clock reading `MM:SS`, or `None` where it is not one.
pub fn clock_from_text(d: &str) -> (r: Option<u64>)
    ensures
        r == clock_reading(d@),
{
    let pieces = split_char(d, ':');
    proof {
        assert(pieces@.map_values(|p: String| p@).len() == pieces@.len());
    }
    if pieces.len() != 2 {
        return None;
    }
    assert(pieces@.map_values(|p: String| p@)[0] == pieces@[0]@);
    assert(pieces@.map_values(|p: String| p@)[1] == pieces@[1]@);
    let m = parse_u32(pieces[0].as_str());
    let s = parse_u32(pieces[1].as_str());
    match (m, s) {
        (Some(m), Some(s)) => {
            let a = m.wrapping_mul(60);
            let c = a.wrapping_add(s);
            proof {
                let big: int = 0x1_0000_0000;
                assert(a == (m as int * 60) % big);
                vstd::arithmetic::div_mod::lemma_add_mod_noop(m as int * 60, s as int, big);
                vstd::arithmetic::div_mod::lemma_small_mod(s as nat, big as nat);
                vstd::arithmetic::div_mod::lemma_mod_twice(m as int * 60, big);
                assert(c as int == (m as int * 60 + s as int) % big);
            }
            Some(c as u64)
        },
        _ => None,
    }
}

proof fn lemma_suffix_literals()
    ensures
        "st"@ == seq!['s', 't'],
        "nd"@ == seq!['n', 'd'],
        "rd"@ == seq!['r', 'd'],
        "th"@ == seq!['t', 'h'],
{
    reveal_strlit("st");
    reveal_strlit("nd");
    reveal_strlit("rd");
    reveal_strlit("th");
    assert("st"@ =~= seq!['s', 't']);
    assert("nd"@ =~= seq!['n', 'd']);
    assert("rd"@ =~= seq!['r', 'd']);
    assert("th"@ =~= seq!['t', 'h']);
}

/// Reads a period or down reading.
pub fn count_from_text(d: &str) -> (r: CountReading)
    ensures
        r == count_reading(d@),
{
    proof {
        lemma_suffix_literals();
    }
    if ends_with(d, "st") || ends_with(d, "nd") || ends_with(d, "rd") || ends_with(d, "th") {
        assert(d@.len() >= 2);
        let c = d.get_char(0);
        if c as u32 >= 0x80 {
            CountReading::Unsliceable
        } else if '0' <= c && c <= '9' {
            CountReading::Value((c as u32 - '0' as u32) as u8)
        } else {
            CountReading::Invalid
        }
    } else {
        match parse_u8(d) {
            Some(v) => CountReading::Value(v),
            None => CountReading::Unchanged,
        }
    }
}

fn read_opt_u32(t: &Option<String>) -> (r: Option<u32>)
    ensures
        r == read_u32(opt_view(*t)),
{
    match t {
        Some(d) => parse_u32(d.as_str()),
        None => None,
    }
}

fn read_opt_u8(t: &Option<String>) -> (r: Option<u8>)
    ensures
        r == read_u8(opt_view(*t)),
{
    match t {
        Some(d) => parse_u8(d.as_str()),
        None => None,
    }
}

fn read_opt_count(t: &Option<String>) -> (r: CountReading)
    ensures
        r == read_count(opt_view(*t)),
{
    match t {
        Some(d) => count_from_text(d.as_str()),
        None => CountReading::Unchanged,
    }
}

/// Applies one OCR report to the board, reading by reading.
pub fn apply_ocr_fields(board: &mut Scoreboard, fields: &OcrFields) -> (r: OcrOutcome)
    ensures
        (*final(board), r) == ocr_result(*old(board), fields@),
{
    if let Some(d) = &fields.time {
        if let Some(c) = clock_from_text(d.as_str()) {
            board.game_clock = c;
        }
    }
    if let Some(v) = read_opt_u32(&fields.home_score) {
        board.home_points = v;
    }
    if let Some(v) = read_opt_u32(&fields.away_score) {
        board.away_points = v;
    }
    assert(*board == with_clock_and_scores(*old(board), fields@));
    match read_opt_count(&fields.period) {
        CountReading::Unsliceable => {
            return OcrOutcome::Unsliceable;
        },
        CountReading::Invalid => {
            return OcrOutcome::Invalid;
        },
        CountReading::Value(q) => {
            board.quarter = q;
        },
        CountReading::Unchanged => {},
    }
    let ghost b4 = *board;
    if let Some(v) = read_opt_u8(&fields.to_go) {
        board.downs_togo = v;
    }
    match read_opt_count(&fields.down) {
        CountReading::Unsliceable => OcrOutcome::Unsliceable,
        CountReading::Invalid => OcrOutcome::Invalid,
        CountReading::Value(d) => {
            board.down = d;
            OcrOutcome::Applied
        },
        CountReading::Unchanged => OcrOutcome::Applied,
    }
}

/// A request header as the handler sees it.
pub enum HeaderText {
    /// The request has no such header.
    Absent,
    /// The header's value holds bytes other than visible ASCII, so it has no text.
    NotVisibleAscii,
    /// The header's text.
    Text(String),
}

/// How an OCR report request is answered.
#[derive(Clone, Copy, Debug, PartialEq, Eq, Structural)]
pub enum OcrReply {
    /// 200: the report was applied.
    Updated,
    /// 401: no key, or the wrong one.
    Unauthorized,
    /// 409: OCR reports are switched off.
    Disabled,
    /// 500: the stored login or the header could not be read, the body is not a
    /// JSON object of strings, or a reading failed.
    ServerError,
    /// A reading could not be sliced; the request is abandoned without an answer.
    Abandoned,
}

/// The value stored under `k`, if any.
pub open spec fn member(m: Map<Seq<char>, Seq<char>>, k: Seq<char>) -> Option<Seq<char>> {
    if m.dom().contains(k) {
        Some(m[k])
    } else {
        None
    }
}

/// The readings that a report's JSON members give.
pub open spec fn ocr_text_of(m: Map<Seq<char>, Seq<char>>) -> OcrText {
    OcrText {
        time: member(m, "Time"@),
        home_score: member(m, "Home Score"@),
        away_score: member(m, "Away Score"@),
        period: member(m, "Period"@),
        to_go: member(m, "To Go"@),
        down: member(m, "Down"@),
    }
}

pub open spec fn reply_of(o: OcrOutcome) -> OcrReply {
    match o {
        OcrOutcome::Applied => OcrReply::Updated,
        OcrOutcome::Invalid => OcrReply::ServerError,
        OcrOutcome::Unsliceable => OcrReply::Abandoned,
    }
}

/// The board and answer after an OCR report request: the key header must be
/// present, reports switched on, the stored key and the header readable and equal,
/// and the body a JSON object of strings; then the report is applied.
pub open spec fn ocr_request_result(
    b: Scoreboard,
    enabled: bool,
    api_key: HeaderText,
    stored_key: Option<Seq<char>>,
    body: Seq<char>,
) -> (Scoreboard, OcrReply) {
    match api_key {
        HeaderText::Absent => (b, OcrReply::Unauthorized),
        _ => if !enabled {
            (b, OcrReply::Disabled)
        } else {
            match (api_key, stored_key) {
                (HeaderText::Text(k), Some(s)) => if k@ != s {
                    (b, OcrReply::Unauthorized)
                } else {
                    match json_string_object(body) {
                        None => (b, OcrReply::ServerError),
                        Some(m) => {
                            let (b1, o) = ocr_result(b, ocr_text_of(m));
                            (b1, reply_of(o))
                        },
                    }
                },
                _ => (b, OcrReply::ServerError),
            }
        },
    }
}

/// Answers an OCR report: checks the key header against the stored API key,
/// parses the body as a JSON object with serde_json and applies the readings.
pub fn ocr_request(
    board: &mut Scoreboard,
    enabled: bool,
    api_key: &HeaderText,
    stored_key: Option<&str>,
    body: &str,
) -> (r: OcrReply)
    ensures
        (*final(board), r) == ocr_request_result(
            *old(board),
            enabled,
            *api_key,
            match stored_key {
                Some(s) => Some(s@),
                None => None,
            },
            body@,
        ),
{
    match api_key {
        HeaderText::Absent => {
            return OcrReply::Unauthorized;
        },
        _ => {},
    }
    if !enabled {
        return OcrReply::Disabled;
    }
    let (k, s) = match (api_key, stored_key) {
        (HeaderText::Text(k), Some(s)) => (k, s),
        _ => {
            return OcrReply::ServerError;
        },
    };
    if !str_equal(k.as_str(), s) {
        return OcrReply::Unauthorized;
    }
    let pairs = match parse_string_object(body) {
        Some(p) => p,
        None => {
            return OcrReply::ServerError;
        },
    };
    let ghost m = json_string_object(body@)->0;
    let fields = OcrFields {
        time: member_value(&pairs, "Time", Ghost(m)),
        home_score: member_value(&pairs, "Home Score", Ghost(m)),
        away_score: member_value(&pairs, "Away Score", Ghost(m)),
        period: member_value(&pairs, "Period", Ghost(m)),
        to_go: member_value(&pairs, "To Go", Ghost(m)),
        down: member_value(&pairs, "Down", Ghost(m)),
    };
    assert(fields@ == ocr_text_of(m));
    match apply_ocr_fields(board, &fields) {
        OcrOutcome::Applied => OcrReply::Updated,
        OcrOutcome::Invalid => OcrReply::ServerError,
        OcrOutcome::Unsliceable => OcrReply::Abandoned,
    }
}

/// The word on the switch: what pressing it does.
pub open spec fn ocr_action_word(enabled: bool) -> Seq<char> {
    if !enabled {
        "Enable"@
    } else {
        "Disable"@
    }
}

/// The text that names the switch's action.
pub open spec fn ocr_switch_label(enabled: bool) -> Seq<char> {
    ocr_action_word(enabled) + " OCR API"@
}

/// Flips whether OCR reports are let in; answers with the switch's new label.
pub fn toggle_ocr_api(enabled: &mut bool) -> (label: String)
    ensures
        *final(enabled) == !*old(enabled),
        label@ == ocr_switch_label(*final(enabled)),
{
    *enabled = !*enabled;
    let mut label = if !*enabled {
        "Enable".to_owned()
    } else {
        "Disable".to_owned()
    };
    label.append(" OCR API");
    label
}

/// The settings button that flips the OCR switch.
pub fn ocr_api_button_html(enabled: bool) -> (html: String)
    ensures
        html@ == "<button class=\"button-settings\" hx-post=\"/ocr/api/toggle\">"@
            + ocr_action_word(enabled) + " OCR API</button>"@,
{
    let mut html = "<button class=\"button-settings\" hx-post=\"/ocr/api/toggle\">".to_owned();
    if !enabled {
        html.append("Enable");
    } else {
        html.append("Disable");
    }
    html.append(" OCR API</button>");
    html
}

/// A report with no readings leaves the board as it was and is applied.
pub proof fn lemma_empty_report_keeps_board(b: Scoreboard)
    ensures
        ocr_result(
            b,
            OcrText {
                time: None,
                home_score: None,
                away_score: None,
                period: None,
                to_go: None,
                down: None,
            },
        ) == (b, OcrOutcome::Applied),
{
}

/// Applying a report that went through a second time changes nothing.
pub proof fn lemma_report_idempotent(b: Scoreboard, t: OcrText)
    requires
        ocr_result(b, t).1 == OcrOutcome::Applied,
    ensures
        ocr_result(ocr_result(b, t).0, t) == ocr_result(b, t),
{
}

/// A reading that the report does not carry keeps its value on the board.
pub proof fn lemma_missing_readings_untouched(b: Scoreboard, t: OcrText)
    ensures
        t.time is None ==> ocr_result(b, t).0.game_clock == b.game_clock,
        t.home_score is None ==> ocr_result(b, t).0.home_points == b.home_points,
        t.away_score is None ==> ocr_result(b, t).0.away_points == b.away_points,
        t.period is None ==> ocr_result(b, t).0.quarter == b.quarter,
        t.to_go is None ==> ocr_result(b, t).0.downs_togo == b.downs_togo,
        t.down is None ==> ocr_result(b, t).0.down == b.down,
{
}

/// A request that is refused, for want of a key, a matching key or an open switch,
/// leaves the board as it was.
pub proof fn lemma_refused_request_keeps_board(
    b: Scoreboard,
    enabled: bool,
    api_key: HeaderText,
    stored_key: Option<Seq<char>>,
    body: Seq<char>,
)
    ensures
        ({
            let (b1, r) = ocr_request_result(b, enabled, api_key, stored_key, body);
            (r == OcrReply::Unauthorized || r == OcrReply::Disabled) ==> b1 == b
        }),
{
}

/// A report changes the board only when the switch is on and the request's key
/// header holds the stored key.
pub proof fn lemma_board_changes_need_key_and_switch(
    b: Scoreboard,
    enabled: bool,
    api_key: HeaderText,
    stored_key: Option<Seq<char>>,
    body: Seq<char>,
)
    ensures
        ocr_request_result(b, enabled, api_key, stored_key, body).0 != b ==> (enabled && (api_key matches HeaderText::Text(k) && stored_key == Some(k@))),
{
}

/// The switch's answer after a flip is the label that its button then shows.
pub proof fn lemma_toggle_answer_matches_button(enabled: bool)
    ensures
        "<button class=\"button-settings\" hx-post=\"/ocr/api/toggle\">"@ + ocr_action_word(enabled)
            + " OCR API</button>"@ == "<button class=\"button-settings\" hx-post=\"/ocr/api/toggle\">"@
            + ocr_switch_label(enabled) + "</button>"@,
{
    reveal_strlit(" OCR API</button>");
    reveal_strlit(" OCR API");
    reveal_strlit("</button>");
    assert(" OCR API</button>"@ =~= " OCR API"@ + "</button>"@);
    assert("<button class=\"button-settings\" hx-post=\"/ocr/api/toggle\">"@ + ocr_action_word(enabled)
        + " OCR API</button>"@ =~= "<button class=\"button-settings\" hx-post=\"/ocr/api/toggle\">"@
        + ocr_switch_label(enabled) + "</button>"@);
}

} // verus!
