//! Logos and sponsor images: their media subtypes, Base64 data, the choice of a
//! team's logo file, and the sponsor list.

use vstd::prelude::*;
use base64::prelude::{Engine, BASE64_STANDARD};
use crate::pages::{
    away_icon, away_icon_html, home_icon, home_icon_html, sponsor_entry, sponsor_entry_html,
    sponsor_path, sponsor_path_text,
};
use crate::text::{
    is_prefix, lemma_prefix_char, lemma_split_on_has_two, lemma_split_on_nonempty, split_on,
    split_piece, starts_with, str_equal,
};

verus! {

/// The digit of the standard Base64 alphabet for the six-bit value `v`.
pub open spec fn base64_digit(v: int) -> char {
    "ABCDEFGHIJKLMNOPQRSTUVWXYZabcdefghijklmnopqrstuvwxyz0123456789+/"@[v]
}

/// The standard Base64 encoding (RFC 4648, with padding) of `bytes`: each group of
/// three bytes gives four digits, and a last group of one or two bytes gives two
/// or three digits and `=` up to four.
pub open spec fn base64_standard(bytes: Seq<u8>) -> Seq<char>
    decreases bytes.len(),
{
    if bytes.len() == 0 {
        Seq::<char>::empty()
    } else if bytes.len() == 1 {
        let a = bytes[0] as int;
        seq![base64_digit(a / 4), base64_digit((a % 4) * 16), '=', '=']
    } else if bytes.len() == 2 {
        let a = bytes[0] as int;
        let b = bytes[1] as int;
        seq![base64_digit(a / 4), base64_digit((a % 4) * 16 + b / 16), base64_digit((b % 16) * 4), '=']
    } else {
        let a = bytes[0] as int;
        let b = bytes[1] as int;
        let c = bytes[2] as int;
        seq![
            base64_digit(a / 4),
            base64_digit((a % 4) * 16 + b / 16),
            base64_digit((b % 16) * 4 + c / 64),
            base64_digit(c % 64),
        ] + base64_standard(bytes.subrange(3, bytes.len() as int))
    }
}

/// Encodes `bytes` with the base64 crate's `BASE64_STANDARD` engine (standard
/// alphabet, padded); the contract claims the standard encoding.
#[verifier::external_body]
pub(crate) fn base64_encode(bytes: &[u8]) -> (r: String)
    ensures
        r@ == base64_standard(bytes@),
{
    BASE64_STANDARD.encode(bytes)
}

/// The image subtype for a logo's extension: `png`, `jpeg` for `jpg` and `jpeg`,
/// and empty for anything else.
pub open spec fn image_subtype(ext: Seq<char>) -> Seq<char> {
    if ext == "png"@ {
        "png"@
    } else if ext == "jpg"@ {
        "jpeg"@
    } else if ext == "jpeg"@ {
        "jpeg"@
    } else {
        ""@
    }
}

/// The image subtype for a logo's extension.
pub fn image_subtype_for(ext: &str) -> (r: &'static str)
    ensures
        r@ == image_subtype(ext@),
{
    if str_equal(ext, "png") {
        "png"
    } else if str_equal(ext, "jpg") {
        "jpeg"
    } else if str_equal(ext, "jpeg") {
        "jpeg"
    } else {
        ""
    }
}

/// The `k`-th piece of a file name split at `.`.
pub open spec fn dotted_piece(name: Seq<char>, k: int) -> Seq<char> {
    split_on(name, '.')[k]
}

/// An entry of a directory listing: its name, and whether it is a directory,
/// where its type could be read.
pub struct DirEntryInfo {
    pub name: String,
    pub is_dir: Option<bool>,
}

/// Which file holds a team's logo.
#[derive(Clone, Copy, Debug, PartialEq, Eq, Structural)]
pub enum EntryChoice {
    /// The entry at this index.
    Found(usize),
    /// No entry is the logo: the answer is empty.
    NotFound,
    /// An entry's type could not be read: 500.
    ServerError,
}

/// `name` is the logo file of team `side` (`home` or `away`).
pub open spec fn is_team_icon(side: Seq<char>, name: Seq<char>) -> bool {
    ||| side == "home"@ && is_prefix("home."@, name)
    ||| side == "away"@ && is_prefix("away."@, name)
}

/// The first entry, from `from` on, that is a file named as the team's logo; an
/// entry whose type cannot be read on the way ends the search with an error.
pub open spec fn icon_pick(entries: Seq<DirEntryInfo>, side: Seq<char>, from: int) -> EntryChoice
    decreases entries.len() - from,
{
    if from < 0 || from >= entries.len() {
        EntryChoice::NotFound
    } else {
        match entries[from].is_dir {
            None => EntryChoice::ServerError,
            Some(true) => icon_pick(entries, side, from + 1),
            Some(false) => if is_team_icon(side, entries[from].name@) {
                EntryChoice::Found(from as usize)
            } else {
                icon_pick(entries, side, from + 1)
            },
        }
    }
}

/// Finds the logo file of team `side` in a preset's directory listing.
pub fn choose_team_icon(entries: &Vec<DirEntryInfo>, side: &str) -> (r: EntryChoice)
    ensures
        r == icon_pick(entries@, side@, 0),
{
    let home = str_equal(side, "home");
    let away = str_equal(side, "away");
    let mut i: usize = 0;
    while i < entries.len()
        invariant
            i <= entries.len(),
            home == (side@ == "home"@),
            away == (side@ == "away"@),
            icon_pick(entries@, side@, 0) == icon_pick(entries@, side@, i as int),
        decreases entries.len() - i,
    {
        match entries[i].is_dir {
            None => {
                return EntryChoice::ServerError;
            },
            Some(true) => {},
            Some(false) => {
                let name = entries[i].name.as_str();
                if (home && starts_with(name, "home.")) || (away && starts_with(name, "away.")) {
                    return EntryChoice::Found(i);
                }
            },
        }
        i = i + 1;
    }
    EntryChoice::NotFound
}

/// A team's logo file name has an extension piece.
pub proof fn lemma_team_icon_has_extension(side: Seq<char>, name: Seq<char>)
    requires
        is_team_icon(side, name),
    ensures
        split_on(name, '.').len() >= 2,
{
    reveal_strlit("home.");
    reveal_strlit("away.");
    if side == "home"@ && is_prefix("home."@, name) {
        lemma_prefix_char("home."@, name, 4);
    } else {
        lemma_prefix_char("away."@, name, 4);
    }
    lemma_split_on_has_two(name, '.');
}

/// The image tag of a team's logo stored as `file_name`.
pub fn team_icon_html(home: bool, file_name: &str, image: &[u8]) -> (r: String)
    requires
        split_on(file_name@, '.').len() >= 2,
    ensures
        r@ == (if home {
            home_icon(image_subtype(dotted_piece(file_name@, 1)), base64_standard(image@))
        } else {
            away_icon(image_subtype(dotted_piece(file_name@, 1)), base64_standard(image@))
        }),
{
    let ext = split_piece(file_name, '.', 1);
    let subtype = image_subtype_for(ext.as_str());
    let data = base64_encode(image);
    if home {
        home_icon_html(subtype, data.as_str())
    } else {
        away_icon_html(subtype, data.as_str())
    }
}

/// Where an uploaded sponsor image named `file_name` is stored under `id`.
pub fn sponsor_upload_path(id: &str, file_name: &str) -> (r: String)
    requires
        split_on(file_name@, '.').len() >= 2,
    ensures
        r@ == sponsor_path_text(id@, dotted_piece(file_name@, 1)),
{
    let ext = split_piece(file_name, '.', 1);
    sponsor_path(id, ext.as_str())
}

/// The management entry of the sponsor image stored as `file_name`.
pub fn sponsor_list_entry(file_name: &str, image: &[u8]) -> (r: String)
    requires
        split_on(file_name@, '.').len() >= 2,
    ensures
        r@ == sponsor_entry(
            image_subtype(dotted_piece(file_name@, 1)),
            base64_standard(image@),
            dotted_piece(file_name@, 0),
        ),
{
    let id = split_piece(file_name, '.', 0);
    let ext = split_piece(file_name, '.', 1);
    let subtype = image_subtype_for(ext.as_str());
    let data = base64_encode(image);
    sponsor_entry_html(subtype, data.as_str(), id.as_str())
}

/// The first stored sponsor file whose name before the first `.` is `id`.
pub fn find_sponsor(names: &Vec<String>, id: &str) -> (r: Option<usize>)
    ensures
        r matches Some(j) ==> j < names@.len() && dotted_piece(names@[j as int]@, 0) == id@
            && forall|k: int| 0 <= k < j ==> dotted_piece(#[trigger] names@[k]@, 0) != id@,
        r is None ==> forall|k: int| 0 <= k < names@.len() ==> dotted_piece(#[trigger] names@[k]@, 0) != id@,
{
    let mut i: usize = 0;
    while i < names.len()
        invariant
            i <= names.len(),
            forall|k: int| 0 <= k < i ==> dotted_piece(#[trigger] names@[k]@, 0) != id@,
        decreases names.len() - i,
    {
        proof {
            lemma_split_on_nonempty(names@[i as int]@, '.');
        }
        let stem = split_piece(names[i].as_str(), '.', 0);
        if str_equal(stem.as_str(), id) {
            return Some(i);
        }
        i = i + 1;
    }
    None
}

} // verus!
