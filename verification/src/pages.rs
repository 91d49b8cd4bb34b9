//! The HTML fragments, headers and storage paths that the handlers format.

use vstd::prelude::*;
use crate::text::holds_text;

verus! {

/// The API key settings box for a masked key and the key.
pub open spec fn api_key_box(hidden_key: Seq<char>, api_key: Seq<char>) -> Seq<char> {
    "<div class=\"settings-box-api\">\n        <h6 id=\"api-key\">"@ + hidden_key + "</h6>\n        <button class=\"copy-button\" onclick=\"apiCopy(this, '"@ + api_key + "')\">Copy</button>\n        <button class=\"button-settings\" hx-post=\"/api/key/reveal\" hx-target=\"#api-key\">Reveal Key</button>\n        <button hx-post=\"/api/key/regen\" hx-swap=\"none\" class=\"button-settings\" hx-confirm=\"This will reset the API key to a new, random API key, are you sure?\">Regenerate Api Key</button>\n        </div>"@
}

/// The settings box that shows the API key masked, with copy, reveal and regenerate buttons.
pub fn api_key_box_html(hidden_key: &str, api_key: &str) -> (r: String)
    ensures
        r@ == api_key_box(hidden_key@, api_key@),
{
    let mut r = "<div class=\"settings-box-api\">\n        <h6 id=\"api-key\">".to_owned();
    r.append(hidden_key);
    r.append("</h6>\n        <button class=\"copy-button\" onclick=\"apiCopy(this, '");
    r.append(api_key);
    r.append("')\">Copy</button>\n        <button class=\"button-settings\" hx-post=\"/api/key/reveal\" hx-target=\"#api-key\">Reveal Key</button>\n        <button hx-post=\"/api/key/regen\" hx-swap=\"none\" class=\"button-settings\" hx-confirm=\"This will reset the API key to a new, random API key, are you sure?\">Regenerate Api Key</button>\n        </div>");
    r
}

/// The home logo tag for an image subtype and Base64 image data.
pub open spec fn home_icon(subtype: Seq<char>, image_base64: Seq<char>) -> Seq<char> {
    "<img class=\"ol-team-logo\" src=\"data:image/"@ + subtype + ";base64,"@ + image_base64 + "\" height=\"30px\" width=\"auto\" alt=\"home-icon\">"@
}

/// The overlay image tag of the home team's logo.
pub fn home_icon_html(subtype: &str, image_base64: &str) -> (r: String)
    ensures
        r@ == home_icon(subtype@, image_base64@),
{
    let mut r = "<img class=\"ol-team-logo\" src=\"data:image/".to_owned();
    r.append(subtype);
    r.append(";base64,");
    r.append(image_base64);
    r.append("\" height=\"30px\" width=\"auto\" alt=\"home-icon\">");
    r
}

/// The away logo tag for an image subtype and Base64 image data.
pub open spec fn away_icon(subtype: Seq<char>, image_base64: Seq<char>) -> Seq<char> {
    "<img class=\"ol-team-logo\" src=\"data:image/"@ + subtype + ";base64,"@ + image_base64 + "\" height=\"30px\" width=\"auto\" alt=\"away-icon\">"@
}

/// The overlay image tag of the away team's logo.
pub fn away_icon_html(subtype: &str, image_base64: &str) -> (r: String)
    ensures
        r@ == away_icon(subtype@, image_base64@),
{
    let mut r = "<img class=\"ol-team-logo\" src=\"data:image/".to_owned();
    r.append(subtype);
    r.append(";base64,");
    r.append(image_base64);
    r.append("\" height=\"30px\" width=\"auto\" alt=\"away-icon\">");
    r
}

/// The border style for the two team colours.
pub open spec fn border_css(home_color: Seq<char>, away_color: Seq<char>) -> Seq<char> {
    "\n            <style>\n                .ol-home-box, .button {\n                    border-color: "@ + home_color + ";\n                    border-style: solid;\n                }\n                .ol-away-box {\n                    border-color: "@ + away_color + ";\n                    border-style: solid;\n                }\n            </style>\n            "@
}

/// The overlay style that borders each team's box in its colour.
pub fn border_css_html(home_color: &str, away_color: &str) -> (r: String)
    ensures
        r@ == border_css(home_color@, away_color@),
{
    let mut r = "\n            <style>\n                .ol-home-box, .button {\n                    border-color: ".to_owned();
    r.append(home_color);
    r.append(";\n                    border-style: solid;\n                }\n                .ol-away-box {\n                    border-color: ");
    r.append(away_color);
    r.append(";\n                    border-style: solid;\n                }\n            </style>\n            ");
    r
}

/// The management entry of one sponsor.
pub open spec fn sponsor_entry(subtype: Seq<char>, image_base64: Seq<char>, id: Seq<char>) -> Seq<char> {
    "<div class=\"ti-sponsor-wrapper\">\n                <img src=\"data:image/"@ + subtype + ";base64,"@ + image_base64 + "\" alt=\"away-img\" height=\"30px\" width=\"auto\">\n                <button class=\"ti-sponsor-remove-button\" hx-post=\"/sponsors/remove/"@ + id + "\" hx-swap=\"none\">Remove</button>\n            </div>"@
}

/// One sponsor in the management list: its image and its remove button.
pub fn sponsor_entry_html(subtype: &str, image_base64: &str, id: &str) -> (r: String)
    ensures
        r@ == sponsor_entry(subtype@, image_base64@, id@),
{
    let mut r = "<div class=\"ti-sponsor-wrapper\">\n                <img src=\"data:image/".to_owned();
    r.append(subtype);
    r.append(";base64,");
    r.append(image_base64);
    r.append("\" alt=\"away-img\" height=\"30px\" width=\"auto\">\n                <button class=\"ti-sponsor-remove-button\" hx-post=\"/sponsors/remove/");
    r.append(id);
    r.append("\" hx-swap=\"none\">Remove</button>\n            </div>");
    r
}

/// The selector entry of one preset.
pub open spec fn preset_entry(home_subtype: Seq<char>, home_base64: Seq<char>, home_color: Seq<char>, home_name: Seq<char>, away_name: Seq<char>, away_subtype: Seq<char>, away_base64: Seq<char>, away_color: Seq<char>, id: Seq<char>) -> Seq<char> {
    "<div class=\"ti-match-selector\">\n                <img class=\"home-logo\" src=\"data:image/"@ + home_subtype + ";base64,"@ + home_base64 + "\" alt=\"home-img\" height=\"30px\" width=\"auto\" style=\"border-color: "@ + home_color + "; border-style: solid; border-radius: 3px; border-width: 2px\">\n                <p class=\"ti-teampreset-title\">"@ + home_name + " vs "@ + away_name + "</p>\n                <img class=\"away-logo\" src=\"data:image/"@ + away_subtype + ";base64,"@ + away_base64 + "\" alt=\"away-img\" height=\"30px\" width=\"auto\" style=\"border-color: "@ + away_color + "; border-style: solid; border-radius: 3px; border-width: 2px;\">\n                <div class=\"ti-button-container\">\n                    <button class=\"ti-select-button\" hx-post=\"/teaminfo/select/"@ + id + "\" hx-swap=\"none\">Select</button>\n                    <button class=\"ti-remove-button\" hx-post=\"/teaminfo/remove/"@ + id + "\" hx-swap=\"none\">Remove</button>\n                    <a class=\"ti-download-button\" href=\"/teaminfo/download-preset/"@ + id + "\">Download</a>\n                </div>\n            </div>"@
}

/// One preset in the selector: both logos, the match title and the preset's buttons.
pub fn preset_entry_html(home_subtype: &str, home_base64: &str, home_color: &str, home_name: &str, away_name: &str, away_subtype: &str, away_base64: &str, away_color: &str, id: &str) -> (r: String)
    ensures
        r@ == preset_entry(home_subtype@, home_base64@, home_color@, home_name@, away_name@, away_subtype@, away_base64@, away_color@, id@),
{
    let mut r = "<div class=\"ti-match-selector\">\n                <img class=\"home-logo\" src=\"data:image/".to_owned();
    r.append(home_subtype);
    r.append(";base64,");
    r.append(home_base64);
    r.append("\" alt=\"home-img\" height=\"30px\" width=\"auto\" style=\"border-color: ");
    r.append(home_color);
    r.append("; border-style: solid; border-radius: 3px; border-width: 2px\">\n                <p class=\"ti-teampreset-title\">");
    r.append(home_name);
    r.append(" vs ");
    r.append(away_name);
    r.append("</p>\n                <img class=\"away-logo\" src=\"data:image/");
    r.append(away_subtype);
    r.append(";base64,");
    r.append(away_base64);
    r.append("\" alt=\"away-img\" height=\"30px\" width=\"auto\" style=\"border-color: ");
    r.append(away_color);
    r.append("; border-style: solid; border-radius: 3px; border-width: 2px;\">\n                <div class=\"ti-button-container\">\n                    <button class=\"ti-select-button\" hx-post=\"/teaminfo/select/");
    r.append(id);
    r.append("\" hx-swap=\"none\">Select</button>\n                    <button class=\"ti-remove-button\" hx-post=\"/teaminfo/remove/");
    r.append(id);
    r.append("\" hx-swap=\"none\">Remove</button>\n                    <a class=\"ti-download-button\" href=\"/teaminfo/download-preset/");
    r.append(id);
    r.append("\">Download</a>\n                </div>\n            </div>");
    r
}

/// The button style for the team colours and their text colours.
pub open spec fn button_css(home_color: Seq<char>, home_text: Seq<char>, away_color: Seq<char>, away_text: Seq<char>) -> Seq<char> {
    "\n            <style>\n                .button-decrement-home {\n                    background-color: "@ + home_color + ";\n                    color: "@ + home_text + ";\n                }\n                .button-increment-home {\n                    background-color: "@ + home_color + ";\n                    color: "@ + home_text + ";\n                }\n                .button-preset-score-home {\n                    background-color: "@ + home_color + ";\n                    color: "@ + home_text + ";\n                }\n                .button-decrement-away {\n                    background-color: "@ + away_color + ";\n                    color: "@ + away_text + ";\n                }\n                .button-increment-away {\n                    background-color: "@ + away_color + ";\n                    color: "@ + away_text + ";\n                }\n                .button-preset-score-away {\n                    background-color: "@ + away_color + ";\n                    color: "@ + away_text + ";\n                }\n                .trigger-home-popup {\n                    background-color: "@ + home_color + ";\n                    color: "@ + home_text + ";\n                }\n                .trigger-away-popup {\n                    background-color: "@ + away_color + ";\n                    color: "@ + away_text + ";\n                }\n            </style>\n            "@
}

/// The dashboard style that paints each team's buttons in its colour.
pub fn button_css_html(home_color: &str, home_text: &str, away_color: &str, away_text: &str) -> (r: String)
    ensures
        r@ == button_css(home_color@, home_text@, away_color@, away_text@),
{
    let mut r = "\n            <style>\n                .button-decrement-home {\n                    background-color: ".to_owned();
    r.append(home_color);
    r.append(";\n                    color: ");
    r.append(home_text);
    r.append(";\n                }\n                .button-increment-home {\n                    background-color: ");
    r.append(home_color);
    r.append(";\n                    color: ");
    r.append(home_text);
    r.append(";\n                }\n                .button-preset-score-home {\n                    background-color: ");
    r.append(home_color);
    r.append(";\n                    color: ");
    r.append(home_text);
    r.append(";\n                }\n                .button-decrement-away {\n                    background-color: ");
    r.append(away_color);
    r.append(";\n                    color: ");
    r.append(away_text);
    r.append(";\n                }\n                .button-increment-away {\n                    background-color: ");
    r.append(away_color);
    r.append(";\n                    color: ");
    r.append(away_text);
    r.append(";\n                }\n                .button-preset-score-away {\n                    background-color: ");
    r.append(away_color);
    r.append(";\n                    color: ");
    r.append(away_text);
    r.append(";\n                }\n                .trigger-home-popup {\n                    background-color: ");
    r.append(home_color);
    r.append(";\n                    color: ");
    r.append(home_text);
    r.append(";\n                }\n                .trigger-away-popup {\n                    background-color: ");
    r.append(away_color);
    r.append(";\n                    color: ");
    r.append(away_text);
    r.append(";\n                }\n            </style>\n            ");
    r
}

/// The update offer from the running version to the published one.
pub open spec fn update_menu(local_version: Seq<char>, remote_version: Seq<char>) -> Seq<char> {
    "\n        <div class=\"settings-box\">\n            <div class=\"settings-title\">\n                <h2>Update</h2>\n                <div class=\"subtext-settings\">\n                    <h6>Update availible! ("@ + local_version + " -> "@ + remote_version + ")</h6>\n                    <h6>Do not restart the server during update!</h6>\n                </div>\n            </div>\n            <div class=\"setting\">\n                <button hx-post=\"/update\" hx-confirm=\"You are trying to update Froggi, are you sure? This completely stops Froggi until the update is complete.\">Update now</button>\n            </div>\n        </div>\n        "@
}

/// The settings box that offers an update from one version to another.
pub fn update_menu_html(local_version: &str, remote_version: &str) -> (r: String)
    ensures
        r@ == update_menu(local_version@, remote_version@),
{
    let mut r = "\n        <div class=\"settings-box\">\n            <div class=\"settings-title\">\n                <h2>Update</h2>\n                <div class=\"subtext-settings\">\n                    <h6>Update availible! (".to_owned();
    r.append(local_version);
    r.append(" -> ");
    r.append(remote_version);
    r.append(")</h6>\n                    <h6>Do not restart the server during update!</h6>\n                </div>\n            </div>\n            <div class=\"setting\">\n                <button hx-post=\"/update\" hx-confirm=\"You are trying to update Froggi, are you sure? This completely stops Froggi until the update is complete.\">Update now</button>\n            </div>\n        </div>\n        ");
    r
}

/// The attachment header naming a preset archive after its teams.
pub open spec fn download_disposition_text(home_name: Seq<char>, away_name: Seq<char>) -> Seq<char> {
    "attachment; filename=\""@ + home_name + "-"@ + away_name + ".tar.gz\""@
}

/// The `Content-Disposition` of a downloaded preset.
pub fn download_disposition(home_name: &str, away_name: &str) -> (r: String)
    ensures
        r@ == download_disposition_text(home_name@, away_name@),
{
    let mut r = "attachment; filename=\"".to_owned();
    r.append(home_name);
    r.append("-");
    r.append(away_name);
    r.append(".tar.gz\"");
    r
}

/// The archive name recorded for a preset's teams.
pub open spec fn archive_member_name_text(home_name: Seq<char>, away_name: Seq<char>) -> Seq<char> {
    home_name + "-"@ + away_name + ".tar"@
}

/// The file name recorded in a downloaded preset's gzip header.
pub fn archive_member_name(home_name: &str, away_name: &str) -> (r: String)
    ensures
        r@ == archive_member_name_text(home_name@, away_name@),
{
    let mut r = home_name.to_owned();
    r.append("-");
    r.append(away_name);
    r.append(".tar");
    r
}

/// The stored path of a sponsor image.
pub open spec fn sponsor_path_text(id: Seq<char>, extension: Seq<char>) -> Seq<char> {
    "./sponsors/"@ + id + "."@ + extension
}

/// Where an uploaded sponsor image is stored.
pub fn sponsor_path(id: &str, extension: &str) -> (r: String)
    ensures
        r@ == sponsor_path_text(id@, extension@),
{
    let mut r = "./sponsors/".to_owned();
    r.append(id);
    r.append(".");
    r.append(extension);
    r
}

/// The stored path of a preset's home logo.
pub open spec fn preset_home_image_path_text(id: Seq<char>, extension: Seq<char>) -> Seq<char> {
    "team-presets/"@ + id + "/home."@ + extension
}

/// Where a preset's home logo is stored.
pub fn preset_home_image_path(id: &str, extension: &str) -> (r: String)
    ensures
        r@ == preset_home_image_path_text(id@, extension@),
{
    let mut r = "team-presets/".to_owned();
    r.append(id);
    r.append("/home.");
    r.append(extension);
    r
}

/// The stored path of a preset's away logo.
pub open spec fn preset_away_image_path_text(id: Seq<char>, extension: Seq<char>) -> Seq<char> {
    "team-presets/"@ + id + "/away."@ + extension
}

/// Where a preset's away logo is stored.
pub fn preset_away_image_path(id: &str, extension: &str) -> (r: String)
    ensures
        r@ == preset_away_image_path_text(id@, extension@),
{
    let mut r = "team-presets/".to_owned();
    r.append(id);
    r.append("/away.");
    r.append(extension);
    r
}

/// The stored path of an imported preset file.
pub open spec fn preset_import_path_text(id: Seq<char>, file_name: Seq<char>) -> Seq<char> {
    "./team-presets/"@ + id + "/"@ + file_name
}

/// Where a file of an imported preset is stored.
pub fn preset_import_path(id: &str, file_name: &str) -> (r: String)
    ensures
        r@ == preset_import_path_text(id@, file_name@),
{
    let mut r = "./team-presets/".to_owned();
    r.append(id);
    r.append("/");
    r.append(file_name);
    r
}

/// The overlay border style gives the home box (and the buttons) the home
/// team's colour, and the away box the away team's colour.
pub proof fn law_border_css_colours(home: Seq<char>, away: Seq<char>)
    ensures
        holds_text(
            border_css(home, away),
            ".ol-home-box, .button {\n                    border-color: "@ + home + ";"@,
        ),
        holds_text(
            border_css(home, away),
            ".ol-away-box {\n                    border-color: "@ + away + ";"@,
        ),
{
    let css = border_css(home, away);
    reveal_strlit("\n            <style>\n                .ol-home-box, .button {\n                    border-color: ");
    reveal_strlit(";\n                    border-style: solid;\n                }\n                .ol-away-box {\n                    border-color: ");
    reveal_strlit(";\n                    border-style: solid;\n                }\n            </style>\n            ");
    reveal_strlit(".ol-home-box, .button {\n                    border-color: ");
    reveal_strlit(".ol-away-box {\n                    border-color: ");
    reveal_strlit(";");
    let home_needle = ".ol-home-box, .button {\n                    border-color: "@ + home + ";"@;
    let i: int = 37;
    assert(css.subrange(i, i + home_needle.len()) =~= home_needle);
    let away_needle = ".ol-away-box {\n                    border-color: "@ + away + ";"@;
    let j: int = 95 + home.len() as int + 77;
    assert(css.subrange(j, j + away_needle.len()) =~= away_needle);
}

/// The dashboard button style paints every home button (decrement, increment,
/// preset score, popup trigger) in the home colour with the home text colour, and
/// every away button in the away colour with the away text colour.
#[verifier::rlimit(100)]
pub proof fn law_button_css_colours(home_bg: Seq<char>, home_fg: Seq<char>, away_bg: Seq<char>, away_fg: Seq<char>)
    ensures
        holds_text(button_css(home_bg, home_fg, away_bg, away_fg), ".button-decrement-home {\n                    background-color: "@ + home_bg + ";\n                    color: "@ + home_fg + ";"@),
        holds_text(button_css(home_bg, home_fg, away_bg, away_fg), ".button-increment-home {\n                    background-color: "@ + home_bg + ";\n                    color: "@ + home_fg + ";"@),
        holds_text(button_css(home_bg, home_fg, away_bg, away_fg), ".button-preset-score-home {\n                    background-color: "@ + home_bg + ";\n                    color: "@ + home_fg + ";"@),
        holds_text(button_css(home_bg, home_fg, away_bg, away_fg), ".trigger-home-popup {\n                    background-color: "@ + home_bg + ";\n                    color: "@ + home_fg + ";"@),
        holds_text(button_css(home_bg, home_fg, away_bg, away_fg), ".button-decrement-away {\n                    background-color: "@ + away_bg + ";\n                    color: "@ + away_fg + ";"@),
        holds_text(button_css(home_bg, home_fg, away_bg, away_fg), ".button-increment-away {\n                    background-color: "@ + away_bg + ";\n                    color: "@ + away_fg + ";"@),
        holds_text(button_css(home_bg, home_fg, away_bg, away_fg), ".button-preset-score-away {\n                    background-color: "@ + away_bg + ";\n                    color: "@ + away_fg + ";"@),
        holds_text(button_css(home_bg, home_fg, away_bg, away_fg), ".trigger-away-popup {\n                    background-color: "@ + away_bg + ";\n                    color: "@ + away_fg + ";"@),
{
    reveal_strlit(".button-decrement-away {\n                    background-color: ");
    reveal_strlit(".button-decrement-home {\n                    background-color: ");
    reveal_strlit(".button-increment-away {\n                    background-color: ");
    reveal_strlit(".button-increment-home {\n                    background-color: ");
    reveal_strlit(".button-preset-score-away {\n                    background-color: ");
    reveal_strlit(".button-preset-score-home {\n                    background-color: ");
    reveal_strlit(".trigger-away-popup {\n                    background-color: ");
    reveal_strlit(".trigger-home-popup {\n                    background-color: ");
    reveal_strlit(";");
    reveal_strlit(";\n                    color: ");
    reveal_strlit(";\n                }\n                .button-decrement-away {\n                    background-color: ");
    reveal_strlit(";\n                }\n                .button-increment-away {\n                    background-color: ");
    reveal_strlit(";\n                }\n                .button-increment-home {\n                    background-color: ");
    reveal_strlit(";\n                }\n                .button-preset-score-away {\n                    background-color: ");
    reveal_strlit(";\n                }\n                .button-preset-score-home {\n                    background-color: ");
    reveal_strlit(";\n                }\n                .trigger-away-popup {\n                    background-color: ");
    reveal_strlit(";\n                }\n                .trigger-home-popup {\n                    background-color: ");
    reveal_strlit(";\n                }\n            </style>\n            ");
    reveal_strlit("\n            <style>\n                .button-decrement-home {\n                    background-color: ");
    let text = button_css(home_bg, home_fg, away_bg, away_fg);
    let needle0 = ".button-decrement-home {\n                    background-color: "@ + home_bg + ";\n                    color: "@ + home_fg + ";"@;
    let at0: int = 37;
    assert(text.subrange(at0, at0 + needle0.len()) =~= needle0) by {
        assert forall|k: int| 0 <= k < needle0.len() implies text.subrange(at0, at0 + needle0.len())[k] == needle0[k] by {}
    }
    let needle1 = ".button-increment-home {\n                    background-color: "@ + home_bg + ";\n                    color: "@ + home_fg + ";"@;
    let at1: int = 165 + home_bg.len() as int + home_fg.len() as int;
    assert(text.subrange(at1, at1 + needle1.len()) =~= needle1) by {
        assert forall|k: int| 0 <= k < needle1.len() implies text.subrange(at1, at1 + needle1.len())[k] == needle1[k] by {}
    }
    let needle2 = ".button-preset-score-home {\n                    background-color: "@ + home_bg + ";\n                    color: "@ + home_fg + ";"@;
    let at2: int = 293 + home_bg.len() as int + home_fg.len() as int + home_bg.len() as int + home_fg.len() as int;
    assert(text.subrange(at2, at2 + needle2.len()) =~= needle2) by {
        assert forall|k: int| 0 <= k < needle2.len() implies text.subrange(at2, at2 + needle2.len())[k] == needle2[k] by {}
    }
    let needle3 = ".trigger-home-popup {\n                    background-color: "@ + home_bg + ";\n                    color: "@ + home_fg + ";"@;
    let at3: int = 811 + home_bg.len() as int + home_fg.len() as int + home_bg.len() as int + home_fg.len() as int + home_bg.len() as int + home_fg.len() as int + away_bg.len() as int + away_fg.len() as int + away_bg.len() as int + away_fg.len() as int + away_bg.len() as int + away_fg.len() as int;
    assert(text.subrange(at3, at3 + needle3.len()) =~= needle3) by {
        assert forall|k: int| 0 <= k < needle3.len() implies text.subrange(at3, at3 + needle3.len())[k] == needle3[k] by {}
    }
    let needle4 = ".button-decrement-away {\n                    background-color: "@ + away_bg + ";\n                    color: "@ + away_fg + ";"@;
    let at4: int = 424 + home_bg.len() as int + home_fg.len() as int + home_bg.len() as int + home_fg.len() as int + home_bg.len() as int + home_fg.len() as int;
    assert(text.subrange(at4, at4 + needle4.len()) =~= needle4) by {
        assert forall|k: int| 0 <= k < needle4.len() implies text.subrange(at4, at4 + needle4.len())[k] == needle4[k] by {}
    }
    let needle5 = ".button-increment-away {\n                    background-color: "@ + away_bg + ";\n                    color: "@ + away_fg + ";"@;
    let at5: int = 552 + home_bg.len() as int + home_fg.len() as int + home_bg.len() as int + home_fg.len() as int + home_bg.len() as int + home_fg.len() as int + away_bg.len() as int + away_fg.len() as int;
    assert(text.subrange(at5, at5 + needle5.len()) =~= needle5) by {
        assert forall|k: int| 0 <= k < needle5.len() implies text.subrange(at5, at5 + needle5.len())[k] == needle5[k] by {}
    }
    let needle6 = ".button-preset-score-away {\n                    background-color: "@ + away_bg + ";\n                    color: "@ + away_fg + ";"@;
    let at6: int = 680 + home_bg.len() as int + home_fg.len() as int + home_bg.len() as int + home_fg.len() as int + home_bg.len() as int + home_fg.len() as int + away_bg.len() as int + away_fg.len() as int + away_bg.len() as int + away_fg.len() as int;
    assert(text.subrange(at6, at6 + needle6.len()) =~= needle6) by {
        assert forall|k: int| 0 <= k < needle6.len() implies text.subrange(at6, at6 + needle6.len())[k] == needle6[k] by {}
    }
    let needle7 = ".trigger-away-popup {\n                    background-color: "@ + away_bg + ";\n                    color: "@ + away_fg + ";"@;
    let at7: int = 936 + home_bg.len() as int + home_fg.len() as int + home_bg.len() as int + home_fg.len() as int + home_bg.len() as int + home_fg.len() as int + away_bg.len() as int + away_fg.len() as int + away_bg.len() as int + away_fg.len() as int + away_bg.len() as int + away_fg.len() as int + home_bg.len() as int + home_fg.len() as int;
    assert(text.subrange(at7, at7 + needle7.len()) =~= needle7) by {
        assert forall|k: int| 0 <= k < needle7.len() implies text.subrange(at7, at7 + needle7.len())[k] == needle7[k] by {}
    }
}

/// In a preset's selector entry, the home logo image carries the home image's
/// media subtype and Base64 data, and the away logo image the away image's.
pub proof fn law_preset_entry_logos(home_kind: Seq<char>, home_data: Seq<char>, home_color: Seq<char>, home_name: Seq<char>, away_name: Seq<char>, away_kind: Seq<char>, away_data: Seq<char>, away_color: Seq<char>, id: Seq<char>)
    ensures
        holds_text(preset_entry(home_kind, home_data, home_color, home_name, away_name, away_kind, away_data, away_color, id), "<img class=\"home-logo\" src=\"data:image/"@ + home_kind + ";base64,"@ + home_data + "\" alt=\"home-img\""@),
        holds_text(preset_entry(home_kind, home_data, home_color, home_name, away_name, away_kind, away_data, away_color, id), "<img class=\"away-logo\" src=\"data:image/"@ + away_kind + ";base64,"@ + away_data + "\" alt=\"away-img\""@),
{
    reveal_strlit(" vs ");
    reveal_strlit("; border-style: solid; border-radius: 3px; border-width: 2px;\">\n                <div class=\"ti-button-container\">\n                    <button class=\"ti-select-button\" hx-post=\"/teaminfo/select/");
    reveal_strlit("; border-style: solid; border-radius: 3px; border-width: 2px\">\n                <p class=\"ti-teampreset-title\">");
    reveal_strlit(";base64,");
    reveal_strlit("</p>\n                <img class=\"away-logo\" src=\"data:image/");
    reveal_strlit("<div class=\"ti-match-selector\">\n                <img class=\"home-logo\" src=\"data:image/");
    reveal_strlit("<img class=\"away-logo\" src=\"data:image/");
    reveal_strlit("<img class=\"home-logo\" src=\"data:image/");
    reveal_strlit("\" alt=\"away-img\"");
    reveal_strlit("\" alt=\"away-img\" height=\"30px\" width=\"auto\" style=\"border-color: ");
    reveal_strlit("\" alt=\"home-img\"");
    reveal_strlit("\" alt=\"home-img\" height=\"30px\" width=\"auto\" style=\"border-color: ");
    reveal_strlit("\" hx-swap=\"none\">Remove</button>\n                    <a class=\"ti-download-button\" href=\"/teaminfo/download-preset/");
    reveal_strlit("\" hx-swap=\"none\">Select</button>\n                    <button class=\"ti-remove-button\" hx-post=\"/teaminfo/remove/");
    reveal_strlit("\">Download</a>\n                </div>\n            </div>");
    let text = preset_entry(home_kind, home_data, home_color, home_name, away_name, away_kind, away_data, away_color, id);
    let needle0 = "<img class=\"home-logo\" src=\"data:image/"@ + home_kind + ";base64,"@ + home_data + "\" alt=\"home-img\""@;
    let at0: int = 48;
    assert(text.subrange(at0, at0 + needle0.len()) =~= needle0);
    let needle1 = "<img class=\"away-logo\" src=\"data:image/"@ + away_kind + ";base64,"@ + away_data + "\" alt=\"away-img\""@;
    let at1: int = 295 + home_kind.len() as int + home_data.len() as int + home_color.len() as int + home_name.len() as int + away_name.len() as int;
    assert(text.subrange(at1, at1 + needle1.len()) =~= needle1);
}

/// A preset's selector entry is titled `home vs away`, borders each logo in its
/// team's colour, and selects, removes and downloads that preset.
pub proof fn law_preset_entry_teams_and_buttons(hk: Seq<char>, hd: Seq<char>, home_rim: Seq<char>, home_title: Seq<char>, away_title: Seq<char>, ak: Seq<char>, ad: Seq<char>, away_rim: Seq<char>, preset: Seq<char>)
    ensures
        holds_text(preset_entry(hk, hd, home_rim, home_title, away_title, ak, ad, away_rim, preset), "<p class=\"ti-teampreset-title\">"@ + home_title + " vs "@ + away_title + "</p>"@),
        holds_text(preset_entry(hk, hd, home_rim, home_title, away_title, ak, ad, away_rim, preset), "\" alt=\"home-img\" height=\"30px\" width=\"auto\" style=\"border-color: "@ + home_rim + ";"@),
        holds_text(preset_entry(hk, hd, home_rim, home_title, away_title, ak, ad, away_rim, preset), "\" alt=\"away-img\" height=\"30px\" width=\"auto\" style=\"border-color: "@ + away_rim + ";"@),
        holds_text(preset_entry(hk, hd, home_rim, home_title, away_title, ak, ad, away_rim, preset), "hx-post=\"/teaminfo/select/"@ + preset + "\""@),
        holds_text(preset_entry(hk, hd, home_rim, home_title, away_title, ak, ad, away_rim, preset), "hx-post=\"/teaminfo/remove/"@ + preset + "\""@),
        holds_text(preset_entry(hk, hd, home_rim, home_title, away_title, ak, ad, away_rim, preset), "href=\"/teaminfo/download-preset/"@ + preset + "\""@),
{
    reveal_strlit(" vs ");
    reveal_strlit(";");
    reveal_strlit("; border-style: solid; border-radius: 3px; border-width: 2px;\">\n                <div class=\"ti-button-container\">\n                    <button class=\"ti-select-button\" hx-post=\"/teaminfo/select/");
    reveal_strlit("; border-style: solid; border-radius: 3px; border-width: 2px\">\n                <p class=\"ti-teampreset-title\">");
    reveal_strlit(";base64,");
    reveal_strlit("</p>");
    reveal_strlit("</p>\n                <img class=\"away-logo\" src=\"data:image/");
    reveal_strlit("<div class=\"ti-match-selector\">\n                <img class=\"home-logo\" src=\"data:image/");
    reveal_strlit("<p class=\"ti-teampreset-title\">");
    reveal_strlit("\"");
    reveal_strlit("\" alt=\"away-img\" height=\"30px\" width=\"auto\" style=\"border-color: ");
    reveal_strlit("\" alt=\"home-img\" height=\"30px\" width=\"auto\" style=\"border-color: ");
    reveal_strlit("\" hx-swap=\"none\">Remove</button>\n                    <a class=\"ti-download-button\" href=\"/teaminfo/download-preset/");
    reveal_strlit("\" hx-swap=\"none\">Select</button>\n                    <button class=\"ti-remove-button\" hx-post=\"/teaminfo/remove/");
    reveal_strlit("\">Download</a>\n                </div>\n            </div>");
    reveal_strlit("href=\"/teaminfo/download-preset/");
    reveal_strlit("hx-post=\"/teaminfo/remove/");
    reveal_strlit("hx-post=\"/teaminfo/select/");
    let text = preset_entry(hk, hd, home_rim, home_title, away_title, ak, ad, away_rim, preset);
    let needle0 = "<p class=\"ti-teampreset-title\">"@ + home_title + " vs "@ + away_title + "</p>"@;
    let at0: int = 239 + hk.len() as int + hd.len() as int + home_rim.len() as int;
    assert(text.subrange(at0, at0 + needle0.len()) =~= needle0);
    let needle1 = "\" alt=\"home-img\" height=\"30px\" width=\"auto\" style=\"border-color: "@ + home_rim + ";"@;
    let at1: int = 95 + hk.len() as int + hd.len() as int;
    assert(text.subrange(at1, at1 + needle1.len()) =~= needle1);
    let needle2 = "\" alt=\"away-img\" height=\"30px\" width=\"auto\" style=\"border-color: "@ + away_rim + ";"@;
    let at2: int = 342 + hk.len() as int + hd.len() as int + home_rim.len() as int + home_title.len() as int + away_title.len() as int + ak.len() as int + ad.len() as int;
    assert(text.subrange(at2, at2 + needle2.len()) =~= needle2);
    let needle3 = "hx-post=\"/teaminfo/select/"@ + preset + "\""@;
    let at3: int = 574 + hk.len() as int + hd.len() as int + home_rim.len() as int + home_title.len() as int + away_title.len() as int + ak.len() as int + ad.len() as int + away_rim.len() as int;
    assert(text.subrange(at3, at3 + needle3.len()) =~= needle3);
    let needle4 = "hx-post=\"/teaminfo/remove/"@ + preset + "\""@;
    let at4: int = 686 + hk.len() as int + hd.len() as int + home_rim.len() as int + home_title.len() as int + away_title.len() as int + ak.len() as int + ad.len() as int + away_rim.len() as int + preset.len() as int;
    assert(text.subrange(at4, at4 + needle4.len()) =~= needle4);
    let needle5 = "href=\"/teaminfo/download-preset/"@ + preset + "\""@;
    let at5: int = 795 + hk.len() as int + hd.len() as int + home_rim.len() as int + home_title.len() as int + away_title.len() as int + ak.len() as int + ad.len() as int + away_rim.len() as int + preset.len() as int + preset.len() as int;
    assert(text.subrange(at5, at5 + needle5.len()) =~= needle5);
}

/// The update offer reads from the running version to the published one.
pub proof fn law_update_menu_direction(running: Seq<char>, published: Seq<char>)
    ensures
        holds_text(update_menu(running, published), "("@ + running + " -> "@ + published + ")"@),
{
    reveal_strlit(" -> ");
    reveal_strlit("(");
    reveal_strlit(")");
    reveal_strlit(")</h6>\n                    <h6>Do not restart the server during update!</h6>\n                </div>\n            </div>\n            <div class=\"setting\">\n                <button hx-post=\"/update\" hx-confirm=\"You are trying to update Froggi, are you sure? This completely stops Froggi until the update is complete.\">Update now</button>\n            </div>\n        </div>\n        ");
    reveal_strlit("\n        <div class=\"settings-box\">\n            <div class=\"settings-title\">\n                <h2>Update</h2>\n                <div class=\"subtext-settings\">\n                    <h6>Update availible! (");
    let text = update_menu(running, published);
    let needle0 = "("@ + running + " -> "@ + published + ")"@;
    let at0: int = 198;
    assert(text.subrange(at0, at0 + needle0.len()) =~= needle0);
}

/// The API key box shows the masked key and copies the key itself.
pub proof fn law_api_key_box_shows_masked_copies_key(shown: Seq<char>, copied: Seq<char>)
    ensures
        holds_text(api_key_box(shown, copied), "<h6 id=\"api-key\">"@ + shown + "</h6>"@),
        holds_text(api_key_box(shown, copied), "apiCopy(this, '"@ + copied + "')"@),
{
    reveal_strlit("')");
    reveal_strlit("')\">Copy</button>\n        <button class=\"button-settings\" hx-post=\"/api/key/reveal\" hx-target=\"#api-key\">Reveal Key</button>\n        <button hx-post=\"/api/key/regen\" hx-swap=\"none\" class=\"button-settings\" hx-confirm=\"This will reset the API key to a new, random API key, are you sure?\">Regenerate Api Key</button>\n        </div>");
    reveal_strlit("</h6>");
    reveal_strlit("</h6>\n        <button class=\"copy-button\" onclick=\"apiCopy(this, '");
    reveal_strlit("<div class=\"settings-box-api\">\n        <h6 id=\"api-key\">");
    reveal_strlit("<h6 id=\"api-key\">");
    reveal_strlit("apiCopy(this, '");
    let text = api_key_box(shown, copied);
    let needle0 = "<h6 id=\"api-key\">"@ + shown + "</h6>"@;
    let at0: int = 39;
    assert(text.subrange(at0, at0 + needle0.len()) =~= needle0);
    let needle1 = "apiCopy(this, '"@ + copied + "')"@;
    let at1: int = 107 + shown.len() as int;
    assert(text.subrange(at1, at1 + needle1.len()) =~= needle1);
}

/// A sponsor's entry shows its image data and removes that sponsor.
pub proof fn law_sponsor_entry_image_and_id(kind: Seq<char>, data: Seq<char>, sponsor: Seq<char>)
    ensures
        holds_text(sponsor_entry(kind, data, sponsor), "src=\"data:image/"@ + kind + ";base64,"@ + data + "\""@),
        holds_text(sponsor_entry(kind, data, sponsor), "/sponsors/remove/"@ + sponsor + "\""@),
{
    reveal_strlit("/sponsors/remove/");
    reveal_strlit(";base64,");
    reveal_strlit("<div class=\"ti-sponsor-wrapper\">\n                <img src=\"data:image/");
    reveal_strlit("\"");
    reveal_strlit("\" alt=\"away-img\" height=\"30px\" width=\"auto\">\n                <button class=\"ti-sponsor-remove-button\" hx-post=\"/sponsors/remove/");
    reveal_strlit("\" hx-swap=\"none\">Remove</button>\n            </div>");
    reveal_strlit("src=\"data:image/");
    let text = sponsor_entry(kind, data, sponsor);
    let needle0 = "src=\"data:image/"@ + kind + ";base64,"@ + data + "\""@;
    let at0: int = 54;
    assert(text.subrange(at0, at0 + needle0.len()) =~= needle0);
    let needle1 = "/sponsors/remove/"@ + sponsor + "\""@;
    let at1: int = 189 + kind.len() as int + data.len() as int;
    assert(text.subrange(at1, at1 + needle1.len()) =~= needle1);
}

/// A preset download is named `{home}-{away}.tar.gz`, home team first.
pub proof fn law_download_named_home_first(first: Seq<char>, second: Seq<char>)
    ensures
        holds_text(download_disposition_text(first, second), "filename=\""@ + first + "-"@ + second + ".tar.gz\""@),
{
    reveal_strlit("-");
    reveal_strlit(".tar.gz\"");
    reveal_strlit("attachment; filename=\"");
    reveal_strlit("filename=\"");
    let text = download_disposition_text(first, second);
    let needle0 = "filename=\""@ + first + "-"@ + second + ".tar.gz\""@;
    let at0: int = 12;
    assert(text.subrange(at0, at0 + needle0.len()) =~= needle0);
}

} // verus!
