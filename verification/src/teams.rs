//! Team presets: the stored team info, the selected preset, team colours, and
//! the files of a preset's upload, listing, download and import.

use vstd::prelude::*;
use std::io::{Read, Write};
use crate::images::{base64_standard, dotted_piece, DirEntryInfo, EntryChoice, image_subtype};
use crate::pages::{
    archive_member_name, archive_member_name_text, border_css, border_css_html, button_css,
    button_css_html, preset_away_image_path, preset_away_image_path_text, preset_entry,
    preset_entry_html, preset_home_image_path, preset_home_image_path_text, preset_import_path,
    preset_import_path_text,
};
use crate::text::{has_char, holds_text, is_prefix, split_on, split_piece, starts_with, str_equal};

verus! {

/// The names and colours of a match's two teams.
pub struct Teaminfo {
    pub home_name: String,
    pub home_color: String,
    pub away_name: String,
    pub away_color: String,
}

impl Teaminfo {
    /// Team info with every field empty.
    pub fn new() -> (t: Teaminfo)
        ensures
            t.home_name@ == Seq::<char>::empty(),
            t.home_color@ == Seq::<char>::empty(),
            t.away_name@ == Seq::<char>::empty(),
            t.away_color@ == Seq::<char>::empty(),
    {
        Teaminfo {
            home_name: String::new(),
            home_color: String::new(),
            away_name: String::new(),
            away_color: String::new(),
        }
    }
}

/// The selected preset and the team names shown on the overlay.
pub struct PresetState {
    pub preset_id: String,
    pub home_name: String,
    pub away_name: String,
}

/// The name shown for team `side`: the home or away name, and nothing for any
/// other side.
pub open spec fn shown_team_name(state: PresetState, side: Seq<char>) -> Seq<char> {
    if side == "home"@ {
        state.home_name@
    } else if side == "away"@ {
        state.away_name@
    } else {
        Seq::<char>::empty()
    }
}

/// The name shown for team `side`.
pub fn team_name_for(state: &PresetState, side: &str) -> (r: String)
    ensures
        r@ == shown_team_name(*state, side@),
{
    if str_equal(side, "home") {
        state.home_name.clone()
    } else if str_equal(side, "away") {
        state.away_name.clone()
    } else {
        String::new()
    }
}

/// Selects preset `id`; its team names are taken from `teaminfo` when its
/// `teams.json` could be read, which the result tells.
pub fn select_preset(state: &mut PresetState, id: String, teaminfo: Option<&Teaminfo>) -> (r: bool)
    ensures
        final(state).preset_id@ == id@,
        r == teaminfo is Some,
        teaminfo matches Some(t) ==> final(state).home_name@ == t.home_name@
            && final(state).away_name@ == t.away_name@,
        teaminfo is None ==> final(state).home_name@ == old(state).home_name@
            && final(state).away_name@ == old(state).away_name@,
{
    state.preset_id = id;
    match teaminfo {
        Some(t) => {
            state.home_name = t.home_name.clone();
            state.away_name = t.away_name.clone();
            true
        },
        None => false,
    }
}

/// After a preset's directory is removed, no preset is selected; a failed removal
/// changes nothing.
pub fn forget_removed_preset(state: &mut PresetState, removed: bool)
    ensures
        removed ==> final(state).preset_id@ == Seq::<char>::empty(),
        !removed ==> final(state).preset_id@ == old(state).preset_id@,
        final(state).home_name@ == old(state).home_name@,
        final(state).away_name@ == old(state).away_name@,
{
    if removed {
        state.preset_id = String::new();
    }
}

/// The first directory, from `from` on, named `id`; an entry whose type cannot
/// be read on the way ends the search with an error.
pub open spec fn preset_dir_pick(entries: Seq<DirEntryInfo>, id: Seq<char>, from: int) -> EntryChoice
    decreases entries.len() - from,
{
    if from < 0 || from >= entries.len() {
        EntryChoice::NotFound
    } else {
        match entries[from].is_dir {
            None => EntryChoice::ServerError,
            Some(true) => if entries[from].name@ == id {
                EntryChoice::Found(from as usize)
            } else {
                preset_dir_pick(entries, id, from + 1)
            },
            Some(false) => preset_dir_pick(entries, id, from + 1),
        }
    }
}

/// Finds the directory of preset `id` in the presets listing.
pub fn find_preset_dir(entries: &Vec<DirEntryInfo>, id: &str) -> (r: EntryChoice)
    ensures
        r == preset_dir_pick(entries@, id@, 0),
{
    let mut i: usize = 0;
    while i < entries.len()
        invariant
            i <= entries.len(),
            preset_dir_pick(entries@, id@, 0) == preset_dir_pick(entries@, id@, i as int),
        decreases entries.len() - i,
    {
        match entries[i].is_dir {
            None => {
                return EntryChoice::ServerError;
            },
            Some(true) => {
                if str_equal(entries[i].name.as_str(), id) {
                    return EntryChoice::Found(i);
                }
            },
            Some(false) => {},
        }
        i = i + 1;
    }
    EntryChoice::NotFound
}

/// What was made of a preset's `teams.json`.
pub enum TeamsFile {
    /// The file could not be read: 500.
    Unreadable,
    /// The file is not valid team info.
    Unparsable,
    Parsed(Teaminfo),
}

/// The answer of a style request that depends on the selected preset.
pub enum StyleAnswer {
    /// 200 with an empty body.
    Empty,
    /// 200 with this style.
    Style(String),
    /// 500.
    ServerError,
}

/// The content of a style answer.
pub enum StyleModel {
    Empty,
    Style(Seq<char>),
    ServerError,
}

pub open spec fn style_view(a: StyleAnswer) -> StyleModel {
    match a {
        StyleAnswer::Empty => StyleModel::Empty,
        StyleAnswer::Style(s) => StyleModel::Style(s@),
        StyleAnswer::ServerError => StyleModel::ServerError,
    }
}

/// A style that depends on the selected preset: nothing without one, an error
/// where its team info cannot be read, nothing where it does not parse, and
/// `style` of the team info otherwise.
pub open spec fn preset_style_model(preset_id: Seq<char>, teams: TeamsFile, style: spec_fn(Teaminfo) -> Seq<char>) -> StyleModel {
    if preset_id.len() == 0 {
        StyleModel::Empty
    } else {
        match teams {
            TeamsFile::Unreadable => StyleModel::ServerError,
            TeamsFile::Unparsable => StyleModel::Empty,
            TeamsFile::Parsed(t) => StyleModel::Style(style(t)),
        }
    }
}

/// The overlay's border style for the selected preset.
pub open spec fn border_style_model(preset_id: Seq<char>, teams: TeamsFile) -> StyleModel {
    preset_style_model(preset_id, teams, |t: Teaminfo| border_css(t.home_color@, t.away_color@))
}

/// The dashboard's button style for the selected preset.
pub open spec fn button_style_model(preset_id: Seq<char>, teams: TeamsFile) -> StyleModel {
    preset_style_model(
        preset_id,
        teams,
        |t: Teaminfo|
            button_css(
                t.home_color@,
                hex_of_color(inverse_color(color_of_hex(t.home_color@))),
                t.away_color@,
                hex_of_color(inverse_color(color_of_hex(t.away_color@))),
            ),
    )
}

/// Once a selected preset's directory is removed, neither team style is served.
pub proof fn lemma_removed_preset_has_no_style(state: PresetState, teams: TeamsFile)
    requires
        state.preset_id@ == Seq::<char>::empty(),
    ensures
        border_style_model(state.preset_id@, teams) == StyleModel::Empty,
        button_style_model(state.preset_id@, teams) == StyleModel::Empty,
{
}

/// The overlay's border style: nothing without a selected preset or with team info
/// that does not parse; the team colours otherwise.
pub fn overlay_border_style(preset_id: &str, teams: &TeamsFile) -> (r: StyleAnswer)
    ensures
        style_view(r) == border_style_model(preset_id@, *teams),
{
    if preset_id.is_empty() {
        return StyleAnswer::Empty;
    }
    match teams {
        TeamsFile::Unreadable => StyleAnswer::ServerError,
        TeamsFile::Unparsable => StyleAnswer::Empty,
        TeamsFile::Parsed(t) => StyleAnswer::Style(
            border_css_html(t.home_color.as_str(), t.away_color.as_str()),
        ),
    }
}

/// A colour as red, green and blue components.
pub type Rgb = (u8, u8, u8);

/// The value of a hexadecimal digit, either case.
pub open spec fn hex_value(c: char) -> Option<nat> {
    if '0' <= c && c <= '9' {
        Some((c as int - '0' as int) as nat)
    } else if 'a' <= c && c <= 'f' {
        Some((c as int - 'a' as int + 10) as nat)
    } else if 'A' <= c && c <= 'F' {
        Some((c as int - 'A' as int + 10) as nat)
    } else {
        None
    }
}

/// The component written by the two hexadecimal digits `hi` and `lo`.
pub open spec fn hex_pair(hi: char, lo: char) -> Option<u8> {
    match (hex_value(hi), hex_value(lo)) {
        (Some(h), Some(l)) => Some((h * 16 + l) as u8),
        _ => None,
    }
}

/// The colour written `#rrggbb`, in either case; black for anything else.
pub open spec fn color_of_hex(s: Seq<char>) -> Rgb {
    if s.len() == 7 && s[0] == '#' && hex_pair(s[1], s[2]) is Some && hex_pair(s[3], s[4]) is Some
        && hex_pair(s[5], s[6]) is Some {
        (hex_pair(s[1], s[2])->0, hex_pair(s[3], s[4])->0, hex_pair(s[5], s[6])->0)
    } else {
        (0, 0, 0)
    }
}

/// The lower-case hexadecimal digit for `n` below 16.
pub open spec fn hex_digit(n: nat) -> char {
    if n < 10 {
        ('0' as int + n) as char
    } else {
        ('a' as int + n - 10) as char
    }
}

/// The colour written as `#rrggbb` in lower case.
pub open spec fn hex_of_color(c: Rgb) -> Seq<char> {
    seq![
        '#',
        hex_digit(c.0 as nat / 16),
        hex_digit(c.0 as nat % 16),
        hex_digit(c.1 as nat / 16),
        hex_digit(c.1 as nat % 16),
        hex_digit(c.2 as nat / 16),
        hex_digit(c.2 as nat % 16),
    ]
}

fn hex_char_value(c: char) -> (r: Option<u8>)
    ensures
        r is Some == hex_value(c) is Some,
        r matches Some(v) ==> v as nat == hex_value(c)->0,
{
    if '0' <= c && c <= '9' {
        Some((c as u32 - '0' as u32) as u8)
    } else if 'a' <= c && c <= 'f' {
        Some((c as u32 - 'a' as u32 + 10) as u8)
    } else if 'A' <= c && c <= 'F' {
        Some((c as u32 - 'A' as u32 + 10) as u8)
    } else {
        None
    }
}

fn hex_pair_value(hi: char, lo: char) -> (r: Option<u8>)
    ensures
        r == hex_pair(hi, lo),
{
    match (hex_char_value(hi), hex_char_value(lo)) {
        (Some(h), Some(l)) => Some(h * 16 + l),
        _ => None,
    }
}

/// The colour of a `#rrggbb` text.
pub fn hex_to_rgb(s: &str) -> (r: Rgb)
    ensures
        r == color_of_hex(s@),
{
    if s.unicode_len() != 7 || s.get_char(0) != '#' {
        return (0, 0, 0);
    }
    let r = hex_pair_value(s.get_char(1), s.get_char(2));
    let g = hex_pair_value(s.get_char(3), s.get_char(4));
    let b = hex_pair_value(s.get_char(5), s.get_char(6));
    match (r, g, b) {
        (Some(r), Some(g), Some(b)) => (r, g, b),
        _ => (0, 0, 0),
    }
}

fn hex_digit_text(n: u8) -> (r: &'static str)
    requires
        n < 16,
    ensures
        r@ == seq![hex_digit(n as nat)],
{
    proof {
        reveal_strlit("0");
        reveal_strlit("1");
        reveal_strlit("2");
        reveal_strlit("3");
        reveal_strlit("4");
        reveal_strlit("5");
        reveal_strlit("6");
        reveal_strlit("7");
        reveal_strlit("8");
        reveal_strlit("9");
        reveal_strlit("a");
        reveal_strlit("b");
        reveal_strlit("c");
        reveal_strlit("d");
        reveal_strlit("e");
        reveal_strlit("f");
    }
    let r = match n {
        0 => "0",
        1 => "1",
        2 => "2",
        3 => "3",
        4 => "4",
        5 => "5",
        6 => "6",
        7 => "7",
        8 => "8",
        9 => "9",
        10 => "a",
        11 => "b",
        12 => "c",
        13 => "d",
        14 => "e",
        _ => "f",
    };
    assert(r@ =~= seq![hex_digit(n as nat)]);
    r
}

/// The `#rrggbb` text of a colour, in lower case.
pub fn rgb_to_hex(c: &Rgb) -> (r: String)
    ensures
        r@ == hex_of_color(*c),
{
    proof {
        reveal_strlit("#");
    }
    let mut r = "#".to_owned();
    r.append(hex_digit_text(c.0 / 16));
    r.append(hex_digit_text(c.0 % 16));
    r.append(hex_digit_text(c.1 / 16));
    r.append(hex_digit_text(c.1 % 16));
    r.append(hex_digit_text(c.2 / 16));
    r.append(hex_digit_text(c.2 % 16));
    assert(r@ =~= hex_of_color(*c));
    r
}

/// The colour whose components are 255 minus the given ones.
pub open spec fn inverse_color(c: Rgb) -> Rgb {
    ((255 - c.0) as u8, (255 - c.1) as u8, (255 - c.2) as u8)
}

/// The text colour on a button of colour `hex`: the inverse colour.
pub fn text_color_for(hex: &str) -> (r: String)
    ensures
        r@ == hex_of_color(inverse_color(color_of_hex(hex@))),
{
    let c = hex_to_rgb(hex);
    rgb_to_hex(&(255 - c.0, 255 - c.1, 255 - c.2))
}

/// The dashboard's button style: nothing without a selected preset or with team
/// info that does not parse; the team colours, with inverse text colours,
/// otherwise.
pub fn dashboard_button_style(preset_id: &str, teams: &TeamsFile) -> (r: StyleAnswer)
    ensures
        style_view(r) == button_style_model(preset_id@, *teams),
{
    if preset_id.is_empty() {
        return StyleAnswer::Empty;
    }
    match teams {
        TeamsFile::Unreadable => StyleAnswer::ServerError,
        TeamsFile::Unparsable => StyleAnswer::Empty,
        TeamsFile::Parsed(t) => {
            let home_text = text_color_for(t.home_color.as_str());
            let away_text = text_color_for(t.away_color.as_str());
            StyleAnswer::Style(
                button_css_html(
                    t.home_color.as_str(),
                    home_text.as_str(),
                    t.away_color.as_str(),
                    away_text.as_str(),
                ),
            )
        },
    }
}

/// A colour written by `rgb_to_hex` reads back as the same colour.
pub proof fn lemma_hex_round_trip(c: Rgb)
    ensures
        color_of_hex(hex_of_color(c)) == c,
{
    let s = hex_of_color(c);
    assert(s.len() == 7);
    assert forall|n: nat| n < 16 implies #[trigger] hex_value(hex_digit(n)) == Some(n) by {
        if n < 10 {
            assert(hex_digit(n) as int == '0' as int + n);
        } else {
            assert(hex_digit(n) as int == 'a' as int + n - 10);
        }
    }
    assert(hex_value(s[1]) == Some(c.0 as nat / 16));
    assert(hex_value(s[2]) == Some(c.0 as nat % 16));
    assert(hex_value(s[3]) == Some(c.1 as nat / 16));
    assert(hex_value(s[4]) == Some(c.1 as nat % 16));
    assert(hex_value(s[5]) == Some(c.2 as nat / 16));
    assert(hex_value(s[6]) == Some(c.2 as nat % 16));
}

/// The text colour `text` is the inverse of `color`: written as a colour, each of
/// its components and the matching one of `color` add up to 255.
pub open spec fn inverse_text(text: Seq<char>, color: Seq<char>) -> bool {
    hex_of_color(color_of_hex(text)) == text && color_of_hex(text).0 as int + color_of_hex(color).0 as int
        == 255 && color_of_hex(text).1 as int + color_of_hex(color).1 as int == 255 && color_of_hex(
        text,
    ).2 as int + color_of_hex(color).2 as int == 255
}

/// The dashboard rule for `selector`: background in `color`, text in `text`.
pub open spec fn button_rule(selector: Seq<char>, color: Seq<char>, text: Seq<char>) -> Seq<char> {
    selector + " {\n                    background-color: "@ + color + ";\n                    color: "@ + text + ";"@
}

/// With a preset selected and its team info parsed, the dashboard style paints
/// every home button in the home colour with the inverse text colour, and every
/// away button in the away colour with its inverse.
#[verifier::rlimit(100)]
pub proof fn law_dashboard_buttons_in_team_colours(preset_id: Seq<char>, t: Teaminfo)
    requires
        preset_id.len() > 0,
    ensures
        button_style_model(preset_id, TeamsFile::Parsed(t)) is Style,
        exists|text: Seq<char>|
            holds_text(
                button_style_model(preset_id, TeamsFile::Parsed(t))->Style_0,
                #[trigger] button_rule(".button-decrement-home"@, t.home_color@, text),
            ) && inverse_text(text, t.home_color@),
        exists|text: Seq<char>|
            holds_text(
                button_style_model(preset_id, TeamsFile::Parsed(t))->Style_0,
                #[trigger] button_rule(".button-increment-home"@, t.home_color@, text),
            ) && inverse_text(text, t.home_color@),
        exists|text: Seq<char>|
            holds_text(
                button_style_model(preset_id, TeamsFile::Parsed(t))->Style_0,
                #[trigger] button_rule(".button-preset-score-home"@, t.home_color@, text),
            ) && inverse_text(text, t.home_color@),
        exists|text: Seq<char>|
            holds_text(
                button_style_model(preset_id, TeamsFile::Parsed(t))->Style_0,
                #[trigger] button_rule(".trigger-home-popup"@, t.home_color@, text),
            ) && inverse_text(text, t.home_color@),
        exists|text: Seq<char>|
            holds_text(
                button_style_model(preset_id, TeamsFile::Parsed(t))->Style_0,
                #[trigger] button_rule(".button-decrement-away"@, t.away_color@, text),
            ) && inverse_text(text, t.away_color@),
        exists|text: Seq<char>|
            holds_text(
                button_style_model(preset_id, TeamsFile::Parsed(t))->Style_0,
                #[trigger] button_rule(".button-increment-away"@, t.away_color@, text),
            ) && inverse_text(text, t.away_color@),
        exists|text: Seq<char>|
            holds_text(
                button_style_model(preset_id, TeamsFile::Parsed(t))->Style_0,
                #[trigger] button_rule(".button-preset-score-away"@, t.away_color@, text),
            ) && inverse_text(text, t.away_color@),
        exists|text: Seq<char>|
            holds_text(
                button_style_model(preset_id, TeamsFile::Parsed(t))->Style_0,
                #[trigger] button_rule(".trigger-away-popup"@, t.away_color@, text),
            ) && inverse_text(text, t.away_color@),
{
    let home_text = hex_of_color(inverse_color(color_of_hex(t.home_color@)));
    let away_text = hex_of_color(inverse_color(color_of_hex(t.away_color@)));
    lemma_hex_round_trip(inverse_color(color_of_hex(t.home_color@)));
    lemma_hex_round_trip(inverse_color(color_of_hex(t.away_color@)));
    crate::pages::law_button_css_colours(t.home_color@, home_text, t.away_color@, away_text);
    let css = button_style_model(preset_id, TeamsFile::Parsed(t))->Style_0;
    assert(css == button_css(t.home_color@, home_text, t.away_color@, away_text));
    assert(button_rule(".button-decrement-home"@, t.home_color@, home_text) == ".button-decrement-home {\n                    background-color: "@ + t.home_color@
        + ";\n                    color: "@ + home_text + ";"@) by {
        reveal_strlit(".button-decrement-home");
        reveal_strlit(".button-decrement-home {\n                    background-color: ");
        reveal_strlit(" {\n                    background-color: ");
        assert(".button-decrement-home {\n                    background-color: "@ =~= ".button-decrement-home"@ + " {\n                    background-color: "@);
        lemma_rule_literal(".button-decrement-home"@, ".button-decrement-home {\n                    background-color: "@, t.home_color@, home_text);
    }
    assert(button_rule(".button-increment-home"@, t.home_color@, home_text) == ".button-increment-home {\n                    background-color: "@ + t.home_color@
        + ";\n                    color: "@ + home_text + ";"@) by {
        reveal_strlit(".button-increment-home");
        reveal_strlit(".button-increment-home {\n                    background-color: ");
        reveal_strlit(" {\n                    background-color: ");
        assert(".button-increment-home {\n                    background-color: "@ =~= ".button-increment-home"@ + " {\n                    background-color: "@);
        lemma_rule_literal(".button-increment-home"@, ".button-increment-home {\n                    background-color: "@, t.home_color@, home_text);
    }
    assert(button_rule(".button-preset-score-home"@, t.home_color@, home_text) == ".button-preset-score-home {\n                    background-color: "@ + t.home_color@
        + ";\n                    color: "@ + home_text + ";"@) by {
        reveal_strlit(".button-preset-score-home");
        reveal_strlit(".button-preset-score-home {\n                    background-color: ");
        reveal_strlit(" {\n                    background-color: ");
        assert(".button-preset-score-home {\n                    background-color: "@ =~= ".button-preset-score-home"@ + " {\n                    background-color: "@);
        lemma_rule_literal(".button-preset-score-home"@, ".button-preset-score-home {\n                    background-color: "@, t.home_color@, home_text);
    }
    assert(button_rule(".trigger-home-popup"@, t.home_color@, home_text) == ".trigger-home-popup {\n                    background-color: "@ + t.home_color@
        + ";\n                    color: "@ + home_text + ";"@) by {
        reveal_strlit(".trigger-home-popup");
        reveal_strlit(".trigger-home-popup {\n                    background-color: ");
        reveal_strlit(" {\n                    background-color: ");
        assert(".trigger-home-popup {\n                    background-color: "@ =~= ".trigger-home-popup"@ + " {\n                    background-color: "@);
        lemma_rule_literal(".trigger-home-popup"@, ".trigger-home-popup {\n                    background-color: "@, t.home_color@, home_text);
    }
    assert(button_rule(".button-decrement-away"@, t.away_color@, away_text) == ".button-decrement-away {\n                    background-color: "@ + t.away_color@
        + ";\n                    color: "@ + away_text + ";"@) by {
        reveal_strlit(".button-decrement-away");
        reveal_strlit(".button-decrement-away {\n                    background-color: ");
        reveal_strlit(" {\n                    background-color: ");
        assert(".button-decrement-away {\n                    background-color: "@ =~= ".button-decrement-away"@ + " {\n                    background-color: "@);
        lemma_rule_literal(".button-decrement-away"@, ".button-decrement-away {\n                    background-color: "@, t.away_color@, away_text);
    }
    assert(button_rule(".button-increment-away"@, t.away_color@, away_text) == ".button-increment-away {\n                    background-color: "@ + t.away_color@
        + ";\n                    color: "@ + away_text + ";"@) by {
        reveal_strlit(".button-increment-away");
        reveal_strlit(".button-increment-away {\n                    background-color: ");
        reveal_strlit(" {\n                    background-color: ");
        assert(".button-increment-away {\n                    background-color: "@ =~= ".button-increment-away"@ + " {\n                    background-color: "@);
        lemma_rule_literal(".button-increment-away"@, ".button-increment-away {\n                    background-color: "@, t.away_color@, away_text);
    }
    assert(button_rule(".button-preset-score-away"@, t.away_color@, away_text) == ".button-preset-score-away {\n                    background-color: "@ + t.away_color@
        + ";\n                    color: "@ + away_text + ";"@) by {
        reveal_strlit(".button-preset-score-away");
        reveal_strlit(".button-preset-score-away {\n                    background-color: ");
        reveal_strlit(" {\n                    background-color: ");
        assert(".button-preset-score-away {\n                    background-color: "@ =~= ".button-preset-score-away"@ + " {\n                    background-color: "@);
        lemma_rule_literal(".button-preset-score-away"@, ".button-preset-score-away {\n                    background-color: "@, t.away_color@, away_text);
    }
    assert(button_rule(".trigger-away-popup"@, t.away_color@, away_text) == ".trigger-away-popup {\n                    background-color: "@ + t.away_color@
        + ";\n                    color: "@ + away_text + ";"@) by {
        reveal_strlit(".trigger-away-popup");
        reveal_strlit(".trigger-away-popup {\n                    background-color: ");
        reveal_strlit(" {\n                    background-color: ");
        assert(".trigger-away-popup {\n                    background-color: "@ =~= ".trigger-away-popup"@ + " {\n                    background-color: "@);
        lemma_rule_literal(".trigger-away-popup"@, ".trigger-away-popup {\n                    background-color: "@, t.away_color@, away_text);
    }
}

/// With a preset selected and its team info parsed, the overlay style borders
/// the home box (and the buttons) in the home colour and the away box in the away
/// colour.
pub proof fn law_overlay_borders_in_team_colours(preset_id: Seq<char>, t: Teaminfo)
    requires
        preset_id.len() > 0,
    ensures
        border_style_model(preset_id, TeamsFile::Parsed(t)) is Style,
        holds_text(
            border_style_model(preset_id, TeamsFile::Parsed(t))->Style_0,
            ".ol-home-box, .button {\n                    border-color: "@ + t.home_color@ + ";"@,
        ),
        holds_text(
            border_style_model(preset_id, TeamsFile::Parsed(t))->Style_0,
            ".ol-away-box {\n                    border-color: "@ + t.away_color@ + ";"@,
        ),
{
    crate::pages::law_border_css_colours(t.home_color@, t.away_color@);
}

/// A rule whose selector and opening text are one literal.
proof fn lemma_rule_literal(selector: Seq<char>, opening: Seq<char>, color: Seq<char>, text: Seq<char>)
    requires
        opening == selector + " {\n                    background-color: "@,
    ensures
        button_rule(selector, color, text) == opening + color + ";\n                    color: "@ + text + ";"@,
{
    assert(button_rule(selector, color, text) =~= opening + color + ";\n                    color: "@ + text + ";"@);
}

/// The text colour of the text colour is the colour again.
pub proof fn lemma_inverse_color_involutive(c: Rgb)
    ensures
        inverse_color(inverse_color(c)) == c,
{
}

/// Which part of a preset a form field fills.
#[derive(Clone, Copy, Debug, PartialEq, Eq, Structural)]
pub enum PresetField {
    HomeName,
    HomeImage,
    HomeColor,
    AwayName,
    AwayImage,
    AwayColor,
    /// Any other field is ignored.
    Other,
    /// A field without a name: 400 "Failed to extract field name from form".
    Unnamed,
}

/// The part of a preset that the field named `name` fills.
pub open spec fn preset_field_of(name: Option<Seq<char>>) -> PresetField {
    match name {
        None => PresetField::Unnamed,
        Some(n) => if n == "home_name"@ {
            PresetField::HomeName
        } else if n == "home_img"@ {
            PresetField::HomeImage
        } else if n == "home_color"@ {
            PresetField::HomeColor
        } else if n == "away_name"@ {
            PresetField::AwayName
        } else if n == "away_img"@ {
            PresetField::AwayImage
        } else if n == "away_color"@ {
            PresetField::AwayColor
        } else {
            PresetField::Other
        },
    }
}

/// Classifies a preset form field by its name.
pub fn preset_field_kind(name: Option<&str>) -> (r: PresetField)
    ensures
        r == preset_field_of(
            match name {
                Some(n) => Some(n@),
                None => None,
            },
        ),
{
    match name {
        None => PresetField::Unnamed,
        Some(n) => if str_equal(n, "home_name") {
            PresetField::HomeName
        } else if str_equal(n, "home_img") {
            PresetField::HomeImage
        } else if str_equal(n, "home_color") {
            PresetField::HomeColor
        } else if str_equal(n, "away_name") {
            PresetField::AwayName
        } else if str_equal(n, "away_img") {
            PresetField::AwayImage
        } else if str_equal(n, "away_color") {
            PresetField::AwayColor
        } else {
            PresetField::Other
        },
    }
}

/// Stores a text field of a preset form in the team info; other fields leave it
/// as it is.
pub fn set_team_text(t: &mut Teaminfo, field: PresetField, text: String)
    ensures
        final(t).home_name@ == (if field == PresetField::HomeName {
            text@
        } else {
            old(t).home_name@
        }),
        final(t).home_color@ == (if field == PresetField::HomeColor {
            text@
        } else {
            old(t).home_color@
        }),
        final(t).away_name@ == (if field == PresetField::AwayName {
            text@
        } else {
            old(t).away_name@
        }),
        final(t).away_color@ == (if field == PresetField::AwayColor {
            text@
        } else {
            old(t).away_color@
        }),
{
    match field {
        PresetField::HomeName => {
            t.home_name = text;
        },
        PresetField::HomeColor => {
            t.home_color = text;
        },
        PresetField::AwayName => {
            t.away_name = text;
        },
        PresetField::AwayColor => {
            t.away_color = text;
        },
        _ => {},
    }
}

/// Where a preset's logo uploaded as `file_name` is stored.
pub fn preset_image_path(id: &str, home: bool, file_name: &str) -> (r: String)
    requires
        split_on(file_name@, '.').len() >= 2,
    ensures
        r@ == (if home {
            preset_home_image_path_text(id@, dotted_piece(file_name@, 1))
        } else {
            preset_away_image_path_text(id@, dotted_piece(file_name@, 1))
        }),
{
    let ext = split_piece(file_name, '.', 1);
    if home {
        preset_home_image_path(id, ext.as_str())
    } else {
        preset_away_image_path(id, ext.as_str())
    }
}

/// What a file in a preset's directory is, by its name.
pub open spec fn is_home_logo(name: Seq<char>) -> bool {
    is_prefix("home."@, name)
}

pub open spec fn is_away_logo(name: Seq<char>) -> bool {
    !is_prefix("home."@, name) && is_prefix("away."@, name)
}

pub open spec fn is_teams_file(name: Seq<char>) -> bool {
    !is_prefix("home."@, name) && !is_prefix("away."@, name) && name == "teams.json"@
}

/// `j` is the last index of `names` whose name satisfies `p`, or `None` when none does.
pub open spec fn is_last_with(names: Seq<String>, p: spec_fn(Seq<char>) -> bool, j: Option<usize>) -> bool {
    match j {
        Some(j) => j < names.len() && p(names[j as int]@) && forall|k: int|
            j < k < names.len() ==> !p(#[trigger] names[k]@),
        None => forall|k: int| 0 <= k < names.len() ==> !p(#[trigger] names[k]@),
    }
}

/// The files of a preset's directory that make up its selector entry.
pub struct PresetFiles {
    pub home: Option<usize>,
    pub away: Option<usize>,
    pub teams: Option<usize>,
}

/// Finds the logos and the team info among a preset's file names; where a name
/// occurs more than once, the last one counts.
pub fn preset_files(names: &Vec<String>) -> (r: PresetFiles)
    ensures
        is_last_with(names@, |n: Seq<char>| is_home_logo(n), r.home),
        is_last_with(names@, |n: Seq<char>| is_away_logo(n), r.away),
        is_last_with(names@, |n: Seq<char>| is_teams_file(n), r.teams),
{
    let mut home: Option<usize> = None;
    let mut away: Option<usize> = None;
    let mut teams: Option<usize> = None;
    let mut i: usize = 0;
    while i < names.len()
        invariant
            i <= names.len(),
            is_last_with(names@.take(i as int), |n: Seq<char>| is_home_logo(n), home),
            is_last_with(names@.take(i as int), |n: Seq<char>| is_away_logo(n), away),
            is_last_with(names@.take(i as int), |n: Seq<char>| is_teams_file(n), teams),
        decreases names.len() - i,
    {
        let name = names[i].as_str();
        if starts_with(name, "home.") {
            home = Some(i);
        } else if starts_with(name, "away.") {
            away = Some(i);
        } else if str_equal(name, "teams.json") {
            teams = Some(i);
        }
        assert forall|k: int| 0 <= k < i implies names@.take(i + 1)[k] == names@.take(i as int)[k] by {}
        i = i + 1;
    }
    assert(names@.take(names.len() as int) =~= names@);
    PresetFiles { home, away, teams }
}

/// What a preset's selector entry can be made from.
pub enum EntryLogos {
    /// The indices of the home and away logo files.
    Both { home: usize, away: usize },
    /// A logo is missing: reading it fails, and the selector answers 500.
    Missing,
}

/// The logos of a preset's selector entry, where it has both.
pub fn entry_logos(files: &PresetFiles) -> (r: EntryLogos)
    ensures
        match (files.home, files.away) {
            (Some(h), Some(a)) => r matches EntryLogos::Both { home, away } && home == h && away == a,
            _ => r is Missing,
        },
{
    match (files.home, files.away) {
        (Some(home), Some(away)) => EntryLogos::Both { home, away },
        _ => EntryLogos::Missing,
    }
}

/// The selector entry of preset `id` from its logo files and team info.
pub fn preset_selector_entry(
    id: &str,
    home_file: &str,
    home_image: &[u8],
    away_file: &str,
    away_image: &[u8],
    teaminfo: &Teaminfo,
) -> (r: String)
    requires
        split_on(home_file@, '.').len() >= 2,
        split_on(away_file@, '.').len() >= 2,
    ensures
        r@ == preset_entry(
            image_subtype(dotted_piece(home_file@, 1)),
            base64_standard(home_image@),
            teaminfo.home_color@,
            teaminfo.home_name@,
            teaminfo.away_name@,
            image_subtype(dotted_piece(away_file@, 1)),
            base64_standard(away_image@),
            teaminfo.away_color@,
            id@,
        ),
        holds_text(
            r@,
            "<img class=\"home-logo\" src=\"data:image/"@ + image_subtype(dotted_piece(home_file@, 1))
                + ";base64,"@ + base64_standard(home_image@) + "\" alt=\"home-img\""@,
        ),
        holds_text(
            r@,
            "<img class=\"away-logo\" src=\"data:image/"@ + image_subtype(dotted_piece(away_file@, 1))
                + ";base64,"@ + base64_standard(away_image@) + "\" alt=\"away-img\""@,
        ),
{
    proof {
        crate::pages::law_preset_entry_logos(
            image_subtype(dotted_piece(home_file@, 1)),
            base64_standard(home_image@),
            teaminfo.home_color@,
            teaminfo.home_name@,
            teaminfo.away_name@,
            image_subtype(dotted_piece(away_file@, 1)),
            base64_standard(away_image@),
            teaminfo.away_color@,
            id@,
        );
    }
    let home_ext = split_piece(home_file, '.', 1);
    let away_ext = split_piece(away_file, '.', 1);
    let home_subtype = crate::images::image_subtype_for(home_ext.as_str());
    let away_subtype = crate::images::image_subtype_for(away_ext.as_str());
    let home_data = crate::images::base64_encode(home_image);
    let away_data = crate::images::base64_encode(away_image);
    preset_entry_html(
        home_subtype,
        home_data.as_str(),
        teaminfo.home_color.as_str(),
        teaminfo.home_name.as_str(),
        teaminfo.away_name.as_str(),
        away_subtype,
        away_data.as_str(),
        teaminfo.away_color.as_str(),
        id,
    )
}

/// Selecting a preset shows its teams' names.
pub proof fn lemma_selected_names_shown(state: PresetState, t: Teaminfo)
    requires
        state.home_name@ == t.home_name@,
        state.away_name@ == t.away_name@,
    ensures
        shown_team_name(state, "home"@) == t.home_name@,
        shown_team_name(state, "away"@) == t.away_name@,
{
    reveal_strlit("home");
    reveal_strlit("away");
    assert("home"@ != "away"@) by {
        assert("home"@[0] != "away"@[0]);
    }
}

/// What flate2's gzip encoder, at default compression and with `name` recorded
/// as the file name, makes of `data`.
pub uninterp spec fn gzip_named(data: Seq<u8>, name: Seq<char>) -> Seq<u8>;

/// Compresses `data` with `flate2::GzBuilder` (file name `name`, default
/// compression) into memory. `GzBuilder::filename` panics on a zero byte, which
/// `requires` leaves out. The contract claims that the encoder succeeds and gives
/// the named bytes: its header is fixed bytes, writes into a `Vec` do not fail,
/// and the deflate stream is fed plain writes and then finished once, which leaves
/// miniz_oxide no error to report.
#[verifier::external_body]
fn gzip_with_name(data: &[u8], name: &str) -> (r: Option<Vec<u8>>)
    requires
        !has_char(name@, '\0'),
    ensures
        r is Some,
        r matches Some(v) ==> v@ == gzip_named(data@, name@),
{
    let mut gz = flate2::GzBuilder::new().filename(name).write(
        Vec::new(),
        flate2::Compression::default(),
    );
    gz.write_all(data).ok()?;
    gz.finish().ok()
}

/// The team names can be recorded in a gzip header: neither holds a zero
/// character.
pub open spec fn names_recordable(t: Teaminfo) -> bool {
    !has_char(t.home_name@, '\0') && !has_char(t.away_name@, '\0')
}

/// Whether the team names can be recorded in a gzip header.
pub fn names_are_recordable(t: &Teaminfo) -> (r: bool)
    ensures
        r == names_recordable(*t),
{
    !crate::text::contains_char(t.home_name.as_str(), '\0') && !crate::text::contains_char(
        t.away_name.as_str(),
        '\0',
    )
}

/// Compresses a preset's tar archive for download, recording `{home}-{away}.tar`
/// as its name.
pub fn compress_preset_archive(tar: &[u8], t: &Teaminfo) -> (r: Option<Vec<u8>>)
    requires
        names_recordable(*t),
    ensures
        r matches Some(v) && v@ == gzip_named(
            tar@,
            archive_member_name_text(t.home_name@, t.away_name@),
        ),
{
    let name = archive_member_name(t.home_name.as_str(), t.away_name.as_str());
    proof {
        lemma_member_name_recordable(t.home_name@, t.away_name@);
    }
    gzip_with_name(tar, name.as_str())
}

/// The archive's recorded name holds no zero where the team names hold none.
proof fn lemma_member_name_recordable(a: Seq<char>, b: Seq<char>)
    requires
        !has_char(a, '\0'),
        !has_char(b, '\0'),
    ensures
        !has_char(archive_member_name_text(a, b), '\0'),
{
    reveal_strlit("-");
    reveal_strlit(".tar");
    let n = archive_member_name_text(a, b);
    assert(n =~= a + "-"@ + b + ".tar"@);
    assert forall|i: int| 0 <= i < n.len() implies n[i] != '\0' by {
        if i < a.len() {
            assert(n[i] == a[i]);
        } else if i < a.len() + 1 {
        } else if i < a.len() + 1 + b.len() {
            assert(n[i] == b[i - a.len() - 1]);
        } else {
        }
    }
}

/// What a tar header records of a file besides its path and size: its mode,
/// owner, group, modification time and entry type.
pub struct FileMeta {
    pub mode: u32,
    pub uid: u64,
    pub gid: u64,
    pub mtime: u64,
    pub kind: u8,
}

pub open spec fn meta_view(m: FileMeta) -> (u32, u64, u64, u64, u8) {
    (m.mode, m.uid, m.gid, m.mtime, m.kind)
}

/// A file of a preset's directory: its name, contents and metadata.
pub struct PresetFile {
    pub name: String,
    pub contents: Vec<u8>,
    pub meta: FileMeta,
}

pub open spec fn preset_file_view(f: PresetFile) -> (Seq<char>, Seq<u8>, (u32, u64, u64, u64, u8)) {
    (f.name@, f.contents@, meta_view(f.meta))
}

/// A member to store in a tar archive: its path, contents and metadata.
pub struct TarMember {
    pub path: String,
    pub contents: Vec<u8>,
    pub meta: FileMeta,
}

pub open spec fn tar_member_view(m: TarMember) -> (Seq<char>, Seq<u8>, (u32, u64, u64, u64, u8)) {
    (m.path@, m.contents@, meta_view(m.meta))
}

/// The entry type of a regular file in a tar header (`'0'`).
pub open spec fn regular_kind() -> u8 {
    48u8
}

/// A file name that stands for itself wherever a path is read: a plain name
/// without a zero, a `\\` or a `:`.
pub open spec fn simple_name(n: Seq<char>) -> bool {
    plain_file_name(n) && !has_char(n, '\\') && !has_char(n, '\0') && !has_char(n, ':')
}

/// The path under which a preset's file is stored in its archive.
pub open spec fn member_path_text(name: Seq<char>) -> Seq<char> {
    "./"@ + name
}

/// Every file has a simple name and is a regular file.
pub open spec fn files_archivable(fs: Seq<(Seq<char>, Seq<u8>, (u32, u64, u64, u64, u8))>) -> bool {
    forall|k: int| 0 <= k < fs.len() ==> simple_name((#[trigger] fs[k]).0) && fs[k].2.4 == regular_kind()
}

/// The tar members of a preset's files: each file under `./{name}`.
pub open spec fn preset_members(fs: Seq<(Seq<char>, Seq<u8>, (u32, u64, u64, u64, u8))>) -> Seq<(Seq<char>, Seq<u8>, (u32, u64, u64, u64, u8))> {
    fs.map_values(|f: (Seq<char>, Seq<u8>, (u32, u64, u64, u64, u8))| (member_path_text(f.0), f.1, f.2))
}

/// Every member is stored under `./` and a simple name, as a regular file.
pub open spec fn members_archivable(ms: Seq<(Seq<char>, Seq<u8>, (u32, u64, u64, u64, u8))>) -> bool {
    forall|k: int|
        0 <= k < ms.len() ==> is_prefix("./"@, (#[trigger] ms[k]).0) && simple_name(ms[k].0.skip(2))
            && ms[k].2.4 == regular_kind()
}

/// A listing gives back the members: each in its place, with its contents, and
/// under its path or that path without its leading `./`.
pub open spec fn lists_members(
    l: Seq<(Option<Seq<char>>, Option<Seq<u8>>)>,
    ms: Seq<(Seq<char>, Seq<u8>, (u32, u64, u64, u64, u8))>,
) -> bool {
    l.len() == ms.len() && forall|k: int|
        0 <= k < l.len() ==> (#[trigger] l[k]).1 == Some(ms[k].1) && (l[k].0 == Some(ms[k].0)
            || l[k].0 == Some(ms[k].0.skip(2)))
}

/// What the tar crate's `Builder` writes for the members, each appended with a
/// GNU header that records its metadata and size.
pub uninterp spec fn tar_built(members: Seq<(Seq<char>, Seq<u8>, (u32, u64, u64, u64, u8))>) -> Seq<u8>;

/// Builds a tar archive in memory with `tar::Builder`: for each member a GNU
/// header with its mode, owner, group, modification time, entry type, zero device
/// numbers and size, appended by `append_data` under its path. The contract claims
/// the named archive; that it is built where every path is `./` and a simple name
/// of a regular file (`append_data` refuses only an empty, absolute or `..` path,
/// or one with a zero, and stores a long one under the GNU long-name extension);
/// and that a gzip of it, with any name that has no zero, is read back by
/// `GzDecoder` and `Archive::entries` as those members, in order, ending cleanly,
/// each under its path (the long-name form) or without the `./` (the short form).
#[verifier::external_body]
fn build_tar(members: &Vec<TarMember>) -> (r: Option<Vec<u8>>)
    ensures
        r matches Some(v) ==> v@ == tar_built(members@.map_values(|m: TarMember| tar_member_view(m))),
        members_archivable(members@.map_values(|m: TarMember| tar_member_view(m))) ==> r is Some,
        r matches Some(v) ==> (members_archivable(members@.map_values(|m: TarMember| tar_member_view(m)))
            ==> forall|n: Seq<char>| !has_char(n, '\0') ==> lists_members(
            #[trigger] preset_archive_listing(gzip_named(v@, n)).0,
            members@.map_values(|m: TarMember| tar_member_view(m)),
        ) && preset_archive_listing(gzip_named(v@, n)).1),
{
    let mut b = tar::Builder::new(Vec::new());
    for m in members.iter() {
        let mut h = tar::Header::new_gnu();
        h.set_mode(m.meta.mode);
        h.set_uid(m.meta.uid);
        h.set_gid(m.meta.gid);
        h.set_mtime(m.meta.mtime);
        h.set_entry_type(tar::EntryType::new(m.meta.kind));
        h.set_device_major(0).ok()?;
        h.set_device_minor(0).ok()?;
        h.set_size(m.contents.len() as u64);
        b.append_data(&mut h, &m.path, m.contents.as_slice()).ok()?;
    }
    b.into_inner().ok()
}

/// A preset's files as tar members, each under `./{name}`.
pub fn preset_tar_members(files: Vec<PresetFile>) -> (r: Vec<TarMember>)
    ensures
        r@.map_values(|m: TarMember| tar_member_view(m)) == preset_members(
            files@.map_values(|f: PresetFile| preset_file_view(f)),
        ),
{
    let ghost fv = files@.map_values(|f: PresetFile| preset_file_view(f));
    let mut rest = files;
    let mut members: Vec<TarMember> = Vec::new();
    let n = rest.len();
    let mut i: usize = 0;
    while i < n
        invariant
            n == fv.len(),
            fv == files@.map_values(|f: PresetFile| preset_file_view(f)),
            rest@.len() == n - i,
            forall|k: int| 0 <= k < rest@.len() ==> preset_file_view(#[trigger] rest@[k]) == fv[i + k],
            i <= n,
            members@.map_values(|m: TarMember| tar_member_view(m)) == preset_members(fv.take(i as int)),
        decreases n - i,
    {
        let ghost before_rest = rest@;
        let f = rest.remove(0);
        assert(preset_file_view(before_rest[0]) == fv[i + 0]);
        assert(forall|k: int| 0 <= k < rest@.len() ==> rest@[k] == before_rest[k + 1]);
        let mut path = "./".to_owned();
        path.append(f.name.as_str());
        proof {
            reveal_strlit("./");
        }
        let meta = FileMeta {
            mode: f.meta.mode,
            uid: f.meta.uid,
            gid: f.meta.gid,
            mtime: f.meta.mtime,
            kind: f.meta.kind,
        };
        let ghost before = members@.map_values(|m: TarMember| tar_member_view(m));
        members.push(TarMember { path, contents: f.contents, meta });
        assert(members@.map_values(|m: TarMember| tar_member_view(m)) =~= before.push(
            (member_path_text(fv[i as int].0), fv[i as int].1, fv[i as int].2),
        ));
        assert(fv.take(i + 1) =~= fv.take(i as int).push(fv[i as int]));
        assert(preset_members(fv.take(i + 1)) =~= preset_members(fv.take(i as int)).push(
            (member_path_text(fv[i as int].0), fv[i as int].1, fv[i as int].2),
        ));
        i = i + 1;
    }
    assert(fv.take(n as int) =~= fv);
    members
}

/// A listing gives back a preset's files: each in its place, with its contents,
/// under `./{name}` or under its bare name.
pub open spec fn lists_files(
    l: Seq<(Option<Seq<char>>, Option<Seq<u8>>)>,
    fs: Seq<(Seq<char>, Seq<u8>, (u32, u64, u64, u64, u8))>,
) -> bool {
    l.len() == fs.len() && forall|k: int|
        0 <= k < l.len() ==> (#[trigger] l[k]).1 == Some(fs[k].1) && (l[k].0 == Some(
            member_path_text(fs[k].0),
        ) || l[k].0 == Some(fs[k].0))
}

proof fn lemma_member_path_skip(name: Seq<char>)
    ensures
        member_path_text(name).skip(2) == name,
        is_prefix("./"@, member_path_text(name)),
{
    reveal_strlit("./");
    assert(member_path_text(name).skip(2) =~= name);
    assert(member_path_text(name).subrange(0, 2) =~= "./"@);
}

/// The tar archive of a preset's files, each stored under `./{name}` in the order
/// given.
fn preset_tar(files: Vec<PresetFile>) -> (r: Option<Vec<u8>>)
    ensures
        r matches Some(v) ==> v@ == tar_built(
            preset_members(files@.map_values(|f: PresetFile| preset_file_view(f))),
        ),
        files_archivable(files@.map_values(|f: PresetFile| preset_file_view(f))) ==> r is Some,
        r matches Some(v) ==> (files_archivable(files@.map_values(|f: PresetFile| preset_file_view(f)))
            ==> forall|n: Seq<char>| !has_char(n, '\0') ==> lists_files(
            #[trigger] preset_archive_listing(gzip_named(v@, n)).0,
            files@.map_values(|f: PresetFile| preset_file_view(f)),
        ) && preset_archive_listing(gzip_named(v@, n)).1),
{
    let ghost fv = files@.map_values(|f: PresetFile| preset_file_view(f));
    let members = preset_tar_members(files);
    let ghost mv = members@.map_values(|m: TarMember| tar_member_view(m));
    proof {
        if files_archivable(fv) {
            assert forall|k: int| 0 <= k < mv.len() implies is_prefix("./"@, (#[trigger] mv[k]).0)
                && simple_name(mv[k].0.skip(2)) && mv[k].2.4 == regular_kind() by {
                lemma_member_path_skip(fv[k].0);
                assert(simple_name(fv[k].0));
            }
        }
    }
    let r = build_tar(&members);
    proof {
        if r is Some && files_archivable(fv) {
            let v = r->0;
            assert forall|n: Seq<char>| !has_char(n, '\0') implies lists_files(
                #[trigger] preset_archive_listing(gzip_named(v@, n)).0,
                fv,
            ) && preset_archive_listing(gzip_named(v@, n)).1 by {
                let l = preset_archive_listing(gzip_named(v@, n)).0;
                assert(lists_members(l, mv));
                assert forall|k: int| 0 <= k < l.len() implies (#[trigger] l[k]).1 == Some(fv[k].1) && (
                l[k].0 == Some(member_path_text(fv[k].0)) || l[k].0 == Some(fv[k].0)) by {
                    lemma_member_path_skip(fv[k].0);
                    assert(mv[k].0 == member_path_text(fv[k].0));
                }
            }
        }
    }
    r
}

/// The download of a preset: the tar archive of its files, each stored under
/// `./{name}`, compressed with `{home}-{away}.tar` recorded as its name. Where
/// every file has a simple name and is a regular file, the download is made, and
/// reading it back gives the files, in order, with their contents.
pub fn preset_download(files: Vec<PresetFile>, t: &Teaminfo) -> (r: Option<Vec<u8>>)
    requires
        names_recordable(*t),
    ensures
        r matches Some(v) ==> v@ == gzip_named(
            tar_built(preset_members(files@.map_values(|f: PresetFile| preset_file_view(f)))),
            archive_member_name_text(t.home_name@, t.away_name@),
        ),
        files_archivable(files@.map_values(|f: PresetFile| preset_file_view(f))) ==> (r matches Some(v)
            && preset_archive_listing(v@).1 && lists_files(
            preset_archive_listing(v@).0,
            files@.map_values(|f: PresetFile| preset_file_view(f)),
        )),
{
    let ghost fv = files@.map_values(|f: PresetFile| preset_file_view(f));
    let tar = match preset_tar(files) {
        Some(tar) => tar,
        None => return None,
    };
    let r = compress_preset_archive(tar.as_slice(), t);
    proof {
        let name = archive_member_name_text(t.home_name@, t.away_name@);
        lemma_member_name_recordable(t.home_name@, t.away_name@);
        if files_archivable(fv) {
            assert(!has_char(name, '\0'));
            assert(lists_files(preset_archive_listing(gzip_named(tar@, name)).0, fv));
        }
    }
    r
}

/// One member of an imported preset archive: its path and its contents, each
/// where it could be read.
pub struct ImportedFile {
    pub path: Option<String>,
    pub contents: Option<Vec<u8>>,
}

pub open spec fn imported_view(f: ImportedFile) -> (Option<Seq<char>>, Option<Seq<u8>>) {
    (
        crate::ocr::opt_view(f.path),
        match f.contents {
            Some(v) => Some(v@),
            None => None,
        },
    )
}

/// What reading the gzip-compressed tar archive `bytes` gives: each member's path
/// and contents, and whether the listing ended without an error.
pub uninterp spec fn preset_archive_listing(bytes: Seq<u8>) -> (Seq<(Option<Seq<char>>, Option<Seq<u8>>)>, bool);

/// Decompresses `bytes` with `flate2::bufread::GzDecoder` and lists the members
/// of the tar archive inside with `tar::Archive::entries`: each member's path
/// (lossily converted to text) and contents, up to the first member that cannot be
/// read. The contract claims the named listing.
#[verifier::external_body]
fn list_preset_archive(bytes: &[u8]) -> (r: (Vec<ImportedFile>, bool))
    ensures
        (r.0@.map_values(|f: ImportedFile| imported_view(f)), r.1) == preset_archive_listing(bytes@),
{
    let mut archive = tar::Archive::new(flate2::bufread::GzDecoder::new(bytes));
    let mut files = Vec::new();
    let Ok(entries) = archive.entries() else { return (files, false) };
    for entry in entries {
        let Ok(mut entry) = entry else { return (files, false) };
        let path = entry.path().ok().map(|p| p.to_string_lossy().into_owned());
        let mut data = Vec::new();
        let contents = entry.read_to_end(&mut data).ok().map(|_| data);
        files.push(ImportedFile { path, contents });
    }
    (files, true)
}

/// What `std::path::Path::file_name` gives for a path: its last component,
/// unless that is `..`, under the path rules of the platform the crate is built
/// for.
pub uninterp spec fn file_name_of(path: Seq<char>) -> Option<Seq<char>>;

/// A name that can only stand for a file directly inside a directory: not empty,
/// not `.` or `..`, and without a `/`.
pub open spec fn plain_file_name(n: Seq<char>) -> bool {
    n.len() > 0 && n != "."@ && n != ".."@ && !has_char(n, '/')
}

/// `p` begins with the Windows verbatim prefix `\\?\`, after which `/` is no
/// separator.
pub open spec fn verbatim_prefixed(p: Seq<char>) -> bool {
    is_prefix("\\\\?\\"@, p)
}

/// The file name of a path, by `std::path::Path::file_name`, lossily converted to
/// text. The contract claims the named result and, but after a Windows verbatim
/// prefix, that a name it gives is a plain one: `file_name` gives only a normal
/// component, which is never empty, `.` or `..`, and holds no separator, and `/`
/// separates on every platform. It also claims that a simple name, alone or after
/// `./`, is its own file name: it is then the path's one normal component.
#[verifier::external_body]
fn path_file_name(path: &str) -> (r: Option<String>)
    ensures
        crate::ocr::opt_view(r) == file_name_of(path@),
        !verbatim_prefixed(path@) ==> (r matches Some(n) ==> plain_file_name(n@)),
        forall|n: Seq<char>|
            #![trigger simple_name(n)]
            simple_name(n) && (path@ == n || path@ == member_path_text(n)) ==> crate::ocr::opt_view(r)
                == Some(n),
{
    std::path::Path::new(path).file_name().map(|n| n.to_string_lossy().into_owned())
}

/// What importing a preset archive stores.
pub struct ImportPlan {
    /// The files to write, in order, with their contents.
    pub writes: Vec<(String, Vec<u8>)>,
    /// A file created, and left empty, before reading its contents failed.
    pub left_empty: Option<String>,
    /// Whether the import succeeds; otherwise it ends with a 500.
    pub ok: bool,
}

/// The files an import writes from member `from` on, given the members' paths and
/// contents: it stops at a member whose path is unreadable or has no file name,
/// and at one whose contents cannot be read, after creating that one's file.
pub open spec fn import_writes(
    id: Seq<char>,
    l: Seq<(Option<Seq<char>>, Option<Seq<u8>>)>,
    from: int,
) -> (Seq<(Seq<char>, Seq<u8>)>, Option<Seq<char>>, bool)
    decreases l.len() - from,
{
    if from < 0 || from >= l.len() {
        (Seq::empty(), None, true)
    } else {
        match l[from].0 {
            None => (Seq::empty(), None, false),
            Some(p) => match file_name_of(p) {
                None => (Seq::empty(), None, false),
                Some(n) => match l[from].1 {
                    None => (Seq::empty(), Some(preset_import_path_text(id, n)), false),
                    Some(c) => {
                        let rest = import_writes(id, l, from + 1);
                        (seq![(preset_import_path_text(id, n), c)] + rest.0, rest.1, rest.2)
                    },
                },
            },
        }
    }
}

/// The members of an archive listing, each by its path and contents.
pub open spec fn imported_views(files: Seq<ImportedFile>) -> Seq<(Option<Seq<char>>, Option<Seq<u8>>)> {
    files.map_values(|f: ImportedFile| imported_view(f))
}

pub open spec fn plan_view(p: ImportPlan) -> (Seq<(Seq<char>, Seq<u8>)>, Option<Seq<char>>, bool) {
    (
        p.writes@.map_values(|w: (String, Vec<u8>)| (w.0@, w.1@)),
        crate::ocr::opt_view(p.left_empty),
        p.ok,
    )
}

/// The import of the preset archive `bytes` as preset `id`: the files that the
/// members give, and whether the import succeeds, which also needs the listing to
/// end without an error.
pub open spec fn import_plan_of(id: Seq<char>, bytes: Seq<u8>) -> (Seq<(Seq<char>, Seq<u8>)>, Option<Seq<char>>, bool) {
    let (l, clean) = preset_archive_listing(bytes);
    let (w, e, ok) = import_writes(id, l, 0);
    (w, e, ok && clean)
}

/// `path` names a file directly inside the directory of imported preset `id`.
pub open spec fn in_import_dir(id: Seq<char>, path: Seq<char>) -> bool {
    exists|n: Seq<char>| plain_file_name(n) && path == preset_import_path_text(id, n)
}

/// Every file that the plan writes, or leaves empty, lies directly inside the
/// directory of imported preset `id`.
pub open spec fn plan_stays_in_dir(id: Seq<char>, p: (Seq<(Seq<char>, Seq<u8>)>, Option<Seq<char>>, bool)) -> bool {
    (forall|k: int| 0 <= k < p.0.len() ==> in_import_dir(id, (#[trigger] p.0[k]).0)) && (p.1 matches Some(
        e,
    ) ==> in_import_dir(id, e))
}

/// No member path of the listing begins with a Windows verbatim prefix.
pub open spec fn members_not_verbatim(l: Seq<(Option<Seq<char>>, Option<Seq<u8>>)>) -> bool {
    forall|k: int| 0 <= k < l.len() ==> ((#[trigger] l[k]).0 matches Some(p) ==> !verbatim_prefixed(p))
}

/// Where an import stores a preset's files: each under its name in the directory
/// of imported preset `id`, with its contents.
pub open spec fn import_files(id: Seq<char>, fs: Seq<(Seq<char>, Seq<u8>, (u32, u64, u64, u64, u8))>) -> Seq<(Seq<char>, Seq<u8>)> {
    fs.map_values(|f: (Seq<char>, Seq<u8>, (u32, u64, u64, u64, u8))| (preset_import_path_text(id, f.0), f.1))
}

/// Reads a downloaded preset archive and plans its import as preset `id`.
pub fn plan_preset_import(id: &str, bytes: &[u8]) -> (r: ImportPlan)
    ensures
        plan_view(r) == import_plan_of(id@, bytes@),
        members_not_verbatim(preset_archive_listing(bytes@).0) ==> plan_stays_in_dir(
            id@,
            plan_view(r),
        ),
        forall|fs: Seq<(Seq<char>, Seq<u8>, (u32, u64, u64, u64, u8))>|
            #![trigger lists_files(preset_archive_listing(bytes@).0, fs)]
            files_archivable(fs) && lists_files(preset_archive_listing(bytes@).0, fs)
                && preset_archive_listing(bytes@).1 ==> plan_view(r) == (
                import_files(id@, fs),
                None::<Seq<char>>,
                true,
            ),
{
    let (files, clean) = list_preset_archive(bytes);
    assert(imported_views(files@) == preset_archive_listing(bytes@).0);
    assert(clean == preset_archive_listing(bytes@).1);
    plan_import_of_listing(id, files, clean)
}

/// Plans the import as preset `id` of an archive's members, whose listing ended
/// without an error where `clean` says so.
pub fn plan_import_of_listing(id: &str, listing: Vec<ImportedFile>, clean: bool) -> (r: ImportPlan)
    ensures
        ({
            let (w, e, ok) = import_writes(
                id@,
                listing@.map_values(|f: ImportedFile| imported_view(f)),
                0,
            );
            plan_view(r) == (w, e, ok && clean)
        }),
        members_not_verbatim(listing@.map_values(|f: ImportedFile| imported_view(f)))
            ==> plan_stays_in_dir(id@, plan_view(r)),
        forall|fs: Seq<(Seq<char>, Seq<u8>, (u32, u64, u64, u64, u8))>|
            #![trigger lists_files(imported_views(listing@), fs)]
            files_archivable(fs) && lists_files(imported_views(listing@), fs) ==> plan_view(r) == (
                import_files(id@, fs),
                None::<Seq<char>>,
                clean,
            ),
{
    let ghost l = listing@.map_values(|f: ImportedFile| imported_view(f));
    let mut files = listing;
    let n = files.len();
    let mut writes: Vec<(String, Vec<u8>)> = Vec::new();
    let mut i: usize = 0;
    assert forall|k: int| 0 <= k < files@.len() implies imported_view(#[trigger] files@[k]) == l[0 + k] by {
        assert(l[k] == imported_view(files@[k]));
    }
    while i < n
        invariant
            n == l.len(),
            l == listing@.map_values(|f: ImportedFile| imported_view(f)),
            files@.len() == n - i,
            forall|k: int| 0 <= k < files@.len() ==> imported_view(#[trigger] files@[k]) == l[i + k],
            i <= n,
            import_writes(id@, l, 0).0 == writes@.map_values(|w: (String, Vec<u8>)| (w.0@, w.1@))
                + import_writes(id@, l, i as int).0,
            import_writes(id@, l, 0).1 == import_writes(id@, l, i as int).1,
            import_writes(id@, l, 0).2 == import_writes(id@, l, i as int).2,
            members_not_verbatim(l) ==> forall|k: int|
                0 <= k < writes@.len() ==> in_import_dir(id@, (#[trigger] writes@[k]).0@),
            forall|fs: Seq<(Seq<char>, Seq<u8>, (u32, u64, u64, u64, u8))>|
                #![trigger lists_files(l, fs)]
                files_archivable(fs) && lists_files(l, fs) ==> writes@.map_values(
                    |w: (String, Vec<u8>)| (w.0@, w.1@),
                ) == import_files(id@, fs.take(i as int)),
        decreases n - i,
    {
        let ghost before_files = files@;
        let f = files.remove(0);
        assert(imported_view(before_files[0]) == l[i + 0]);
        assert(forall|k: int| 0 <= k < files@.len() ==> files@[k] == before_files[k + 1]);
        let member_path = match f.path {
            Some(p) => p,
            None => {
                proof {
                    assert forall|fs: Seq<(Seq<char>, Seq<u8>, (u32, u64, u64, u64, u8))>|
                        files_archivable(fs) && #[trigger] lists_files(l, fs) implies false by {
                        assert(l[i as int].0 is None);
                    }
                }
                return ImportPlan { writes, left_empty: None, ok: false };
            },
        };
        let found = path_file_name(member_path.as_str());
        proof {
            assert(l[i as int].0 == Some(member_path@));
            assert forall|fs: Seq<(Seq<char>, Seq<u8>, (u32, u64, u64, u64, u8))>|
                files_archivable(fs) && #[trigger] lists_files(l, fs) implies crate::ocr::opt_view(found)
                == Some(fs[i as int].0) by {
                assert(simple_name(fs[i as int].0));
                assert(l[i as int].0 == Some(member_path_text(fs[i as int].0)) || l[i as int].0 == Some(
                    fs[i as int].0,
                ));
            }
        }
        let name = match found {
            Some(name) => name,
            None => {
                return ImportPlan { writes, left_empty: None, ok: false };
            },
        };
        let path = preset_import_path(id, name.as_str());
        proof {
            if members_not_verbatim(l) {
                assert(l[i as int].0 matches Some(p) ==> !verbatim_prefixed(p));
                assert(l[i as int].0 == Some(member_path@));
                assert(plain_file_name(name@));
                assert(in_import_dir(id@, path@));
            }
        }
        match f.contents {
            Some(c) => {
                let ghost before = writes@.map_values(|w: (String, Vec<u8>)| (w.0@, w.1@));
                let ghost wbefore = writes@;
                writes.push((path, c));
                assert(forall|k: int| 0 <= k < wbefore.len() ==> writes@[k] == wbefore[k]);
                assert(writes@.map_values(|w: (String, Vec<u8>)| (w.0@, w.1@)) =~= before.push(
                    (preset_import_path_text(id@, name@), l[i as int].1->0),
                ));
                assert(before + import_writes(id@, l, i as int).0 =~= before.push(
                    (preset_import_path_text(id@, name@), l[i as int].1->0),
                ) + import_writes(id@, l, i + 1).0);
                assert forall|fs: Seq<(Seq<char>, Seq<u8>, (u32, u64, u64, u64, u8))>|
                    files_archivable(fs) && #[trigger] lists_files(l, fs) implies writes@.map_values(
                    |w: (String, Vec<u8>)| (w.0@, w.1@),
                ) == import_files(id@, fs.take(i + 1)) by {
                    assert(l[i as int].1 == Some(fs[i as int].1));
                    assert(fs.take(i + 1) =~= fs.take(i as int).push(fs[i as int]));
                    assert(import_files(id@, fs.take(i + 1)) =~= import_files(id@, fs.take(i as int)).push(
                        (preset_import_path_text(id@, fs[i as int].0), fs[i as int].1),
                    ));
                }
            },
            None => {
                proof {
                    assert forall|fs: Seq<(Seq<char>, Seq<u8>, (u32, u64, u64, u64, u8))>|
                        files_archivable(fs) && #[trigger] lists_files(l, fs) implies false by {
                        assert(l[i as int].1 is None);
                    }
                }
                return ImportPlan { writes, left_empty: Some(path), ok: false };
            },
        }
        i = i + 1;
    }
    assert forall|fs: Seq<(Seq<char>, Seq<u8>, (u32, u64, u64, u64, u8))>|
        files_archivable(fs) && #[trigger] lists_files(l, fs) implies fs.take(n as int) == fs by {
        assert(fs.take(n as int) =~= fs);
    }
    ImportPlan { writes, left_empty: None, ok: clean }
}

} // verus!
