use froggi::images::{
    choose_team_icon, find_sponsor, image_subtype_for, sponsor_list_entry, sponsor_upload_path,
    team_icon_html, DirEntryInfo, EntryChoice,
};
use froggi::teams::{
    compress_preset_archive, dashboard_button_style, find_preset_dir, forget_removed_preset,
    hex_to_rgb, names_are_recordable, overlay_border_style, plan_import_of_listing, plan_preset_import, preset_field_kind,
    preset_files, preset_image_path, preset_selector_entry, rgb_to_hex, select_preset,
    set_team_text, team_name_for, text_color_for, PresetField, PresetState, StyleAnswer, Teaminfo,
    TeamsFile,
};
use std::io::Read;

fn entry(name: &str, is_dir: Option<bool>) -> DirEntryInfo {
    DirEntryInfo { name: name.into(), is_dir }
}

fn teams() -> Teaminfo {
    Teaminfo {
        home_name: "Frogs".into(),
        home_color: "#00ff00".into(),
        away_name: "Toads".into(),
        away_color: "#112233".into(),
    }
}

#[test]
fn image_subtypes() {
    assert_eq!(image_subtype_for("png"), "png");
    assert_eq!(image_subtype_for("jpg"), "jpeg");
    assert_eq!(image_subtype_for("jpeg"), "jpeg");
    assert_eq!(image_subtype_for("gif"), "");
}

#[test]
fn team_icon_is_first_matching_file() {
    let list = vec![entry("home.d", Some(true)), entry("teams.json", Some(false)), entry("away.png", Some(false)), entry("home.jpg", Some(false))];
    assert_eq!(choose_team_icon(&list, "home"), EntryChoice::Found(3));
    assert_eq!(choose_team_icon(&list, "away"), EntryChoice::Found(2));
    assert_eq!(choose_team_icon(&list, "referee"), EntryChoice::NotFound);
    let broken = vec![entry("x", None), entry("home.png", Some(false))];
    assert_eq!(choose_team_icon(&broken, "home"), EntryChoice::ServerError);
}

#[test]
fn team_icon_tag() {
    assert_eq!(
        team_icon_html(true, "home.jpg", b"abc"),
        "<img class=\"ol-team-logo\" src=\"data:image/jpeg;base64,YWJj\" height=\"30px\" width=\"auto\" alt=\"home-icon\">"
    );
    assert!(team_icon_html(false, "away.png", b"").contains("data:image/png;base64,\""));
    assert!(team_icon_html(false, "away.png", b"").ends_with("alt=\"away-icon\">"));
}

#[test]
fn sponsors() {
    assert_eq!(sponsor_upload_path("ID12", "logo.png"), "./sponsors/ID12.png");
    assert_eq!(sponsor_upload_path("ID12", "a.b.c"), "./sponsors/ID12.b");
    let html = sponsor_list_entry("ID12.jpg", b"hi");
    assert!(html.contains("data:image/jpeg;base64,aGk="));
    assert!(html.contains("hx-post=\"/sponsors/remove/ID12\""));
    let names = vec!["a.png".to_string(), "b.jpg".to_string(), "b.png".to_string()];
    assert_eq!(find_sponsor(&names, "b"), Some(1));
    assert_eq!(find_sponsor(&names, "c"), None);
}

#[test]
fn hex_colours() {
    assert_eq!(hex_to_rgb("#00ff7F"), (0, 255, 127));
    assert_eq!(hex_to_rgb("00ff7f"), (0, 0, 0));
    assert_eq!(hex_to_rgb("#00ff7g"), (0, 0, 0));
    assert_eq!(rgb_to_hex(&(0, 255, 127)), "#00ff7f");
    assert_eq!(hex_to_rgb(&rgb_to_hex(&(18, 52, 86))), (18, 52, 86));
    assert_eq!(text_color_for("#00ff00"), "#ff00ff");
    assert_eq!(text_color_for("bogus"), "#ffffff");
}

#[test]
fn styles_follow_the_selected_preset() {
    assert!(matches!(overlay_border_style("", &TeamsFile::Parsed(teams())), StyleAnswer::Empty));
    assert!(matches!(overlay_border_style("p", &TeamsFile::Unreadable), StyleAnswer::ServerError));
    assert!(matches!(overlay_border_style("p", &TeamsFile::Unparsable), StyleAnswer::Empty));
    match overlay_border_style("p", &TeamsFile::Parsed(teams())) {
        StyleAnswer::Style(s) => {
            assert!(s.contains("border-color: #00ff00;"));
            assert!(s.contains("border-color: #112233;"));
        }
        _ => panic!(),
    }
    match dashboard_button_style("p", &TeamsFile::Parsed(teams())) {
        StyleAnswer::Style(s) => {
            assert!(s.contains(".button-decrement-home {\n                    background-color: #00ff00;\n                    color: #ff00ff;"));
            assert!(s.contains(".trigger-away-popup {\n                    background-color: #112233;\n                    color: #eeddcc;"));
        }
        _ => panic!(),
    }
    assert!(matches!(dashboard_button_style("", &TeamsFile::Unreadable), StyleAnswer::Empty));
}

#[test]
fn selecting_and_removing_presets() {
    let mut st = PresetState { preset_id: String::new(), home_name: "H".into(), away_name: "A".into() };
    assert!(select_preset(&mut st, "p1".into(), Some(&teams())));
    assert_eq!(st.preset_id, "p1");
    assert_eq!(team_name_for(&st, "home"), "Frogs");
    assert_eq!(team_name_for(&st, "away"), "Toads");
    assert_eq!(team_name_for(&st, "both"), "");
    assert!(!select_preset(&mut st, "p2".into(), None));
    assert_eq!(st.preset_id, "p2");
    assert_eq!(st.home_name, "Frogs");
    forget_removed_preset(&mut st, false);
    assert_eq!(st.preset_id, "p2");
    forget_removed_preset(&mut st, true);
    assert_eq!(st.preset_id, "");
}

#[test]
fn finding_preset_directories() {
    let list = vec![entry("p1", Some(false)), entry("p2", Some(true)), entry("p1", Some(true))];
    assert_eq!(find_preset_dir(&list, "p1"), EntryChoice::Found(2));
    assert_eq!(find_preset_dir(&list, "p3"), EntryChoice::NotFound);
    assert_eq!(find_preset_dir(&vec![entry("p1", None)], "p1"), EntryChoice::ServerError);
}

#[test]
fn preset_form_fields() {
    assert_eq!(preset_field_kind(Some("home_name")), PresetField::HomeName);
    assert_eq!(preset_field_kind(Some("away_img")), PresetField::AwayImage);
    assert_eq!(preset_field_kind(Some("extra")), PresetField::Other);
    assert_eq!(preset_field_kind(None), PresetField::Unnamed);
    let mut t = Teaminfo::new();
    set_team_text(&mut t, PresetField::AwayColor, "#000000".into());
    set_team_text(&mut t, PresetField::Other, "x".into());
    assert_eq!(t.away_color, "#000000");
    assert_eq!(t.home_name, "");
    assert_eq!(preset_image_path("ID", true, "me.png"), "team-presets/ID/home.png");
    assert_eq!(preset_image_path("ID", false, "me.jpeg"), "team-presets/ID/away.jpeg");
}

#[test]
fn preset_directory_files() {
    let names: Vec<String> = ["home.png", "teams.json", "away.jpg", "home.jpeg", "other"].iter().map(|s| s.to_string()).collect();
    let f = preset_files(&names);
    assert_eq!(f.home, Some(3));
    assert_eq!(f.away, Some(2));
    assert_eq!(f.teams, Some(1));
    let none = preset_files(&vec![]);
    assert_eq!((none.home, none.away, none.teams), (None, None, None));
    let html = preset_selector_entry("P", "home.png", b"a", "away.jpg", b"b", &teams());
    assert!(html.contains("<p class=\"ti-teampreset-title\">Frogs vs Toads</p>"));
    assert!(html.contains("data:image/png;base64,YQ==\" alt=\"home-img\""));
    assert!(html.contains("hx-post=\"/teaminfo/select/P\""));
    assert!(html.contains("href=\"/teaminfo/download-preset/P\""));
}

#[test]
fn preset_archive_round_trip() {
    let mut b = tar::Builder::new(Vec::new());
    for (name, data) in [("./teams.json", &b"{}"[..]), ("./home.png", &b"png"[..])] {
        let mut h = tar::Header::new_gnu();
        h.set_size(data.len() as u64);
        h.set_mode(0o644);
        h.set_cksum();
        b.append_data(&mut h, name, data).unwrap();
    }
    let tar_bytes = b.into_inner().unwrap();
    let t = teams();
    assert!(names_are_recordable(&t));
    let gz = compress_preset_archive(&tar_bytes, &t).unwrap();
    let mut d = flate2::read::GzDecoder::new(&gz[..]);
    let mut back = Vec::new();
    d.read_to_end(&mut back).unwrap();
    assert_eq!(d.header().unwrap().filename(), Some(&b"Frogs-Toads.tar"[..]));
    assert_eq!(back, tar_bytes);

    let plan = plan_preset_import("NEW", &gz);
    assert!(plan.ok);
    assert_eq!(plan.left_empty, None);
    assert_eq!(plan.writes, vec![
        ("./team-presets/NEW/teams.json".to_string(), b"{}".to_vec()),
        ("./team-presets/NEW/home.png".to_string(), b"png".to_vec()),
    ]);
}

#[test]
fn import_of_garbage_fails() {
    let plan = plan_preset_import("X", b"not gzip");
    assert!(!plan.ok);
    assert!(plan.writes.is_empty());
}

#[test]
fn names_with_zero_cannot_be_recorded() {
    let mut t = teams();
    t.home_name = "a\0b".into();
    assert!(!names_are_recordable(&t));
}

fn imported(name: Option<&str>, data: Option<&[u8]>) -> froggi::teams::ImportedFile {
    froggi::teams::ImportedFile { path: name.map(String::from), contents: data.map(|d| d.to_vec()) }
}

#[test]
fn import_plans_from_listings() {
    let p = plan_import_of_listing("I", vec![imported(Some("teams.json"), Some(b"{}"))], true);
    assert!(p.ok);
    assert_eq!(p.writes.len(), 1);
    let p = plan_import_of_listing("I", vec![imported(Some("teams.json"), Some(b"{}"))], false);
    assert!(!p.ok);
    assert_eq!(p.writes.len(), 1);
    let p = plan_import_of_listing("I", vec![imported(Some("a"), Some(b"1")), imported(None, Some(b"2")), imported(Some("c"), Some(b"3"))], true);
    assert!(!p.ok);
    assert_eq!(p.writes, vec![("./team-presets/I/a".to_string(), b"1".to_vec())]);
    assert_eq!(p.left_empty, None);
    let p = plan_import_of_listing("I", vec![imported(Some("a"), None), imported(Some("c"), Some(b"3"))], true);
    assert!(!p.ok);
    assert!(p.writes.is_empty());
    assert_eq!(p.left_empty, Some("./team-presets/I/a".to_string()));
    // a member is stored under the last component of its path
    let p = plan_import_of_listing("I", vec![imported(Some("./dir/home.png"), Some(b"1")), imported(Some("x/.."), Some(b"2"))], true);
    assert!(!p.ok);
    assert_eq!(p.writes, vec![("./team-presets/I/home.png".to_string(), b"1".to_vec())]);
    assert_eq!(p.left_empty, None);
}

fn preset_file(name: &str, contents: &[u8]) -> froggi::teams::PresetFile {
    froggi::teams::PresetFile {
        name: name.to_string(),
        contents: contents.to_vec(),
        meta: froggi::teams::FileMeta { mode: 0o100644, uid: 1000, gid: 1000, mtime: 1_700_000_000, kind: b'0' },
    }
}

#[test]
fn preset_download_then_import_gives_the_files_back() {
    let long_name = format!("{}.png", "h".repeat(120));
    let files = vec![
        preset_file("teams.json", b"{\"home_name\":\"Frogs\"}"),
        preset_file("home.png", b"\x89PNG home"),
        preset_file(&long_name, b"long"),
        preset_file("empty", b""),
    ];
    let gz = froggi::teams::preset_download(files, &teams()).expect("download is made");
    let mut d = flate2::read::GzDecoder::new(&gz[..]);
    let mut tar_bytes = Vec::new();
    d.read_to_end(&mut tar_bytes).unwrap();
    assert_eq!(d.header().unwrap().filename(), Some(&b"Frogs-Toads.tar"[..]));
    let mut archive = tar::Archive::new(&tar_bytes[..]);
    let entries: Vec<(String, u32, u64, u64)> = archive
        .entries()
        .unwrap()
        .map(|e| {
            let e = e.unwrap();
            let h = e.header();
            (e.path().unwrap().to_string_lossy().to_string(), h.mode().unwrap(), h.uid().unwrap(), h.mtime().unwrap())
        })
        .collect();
    assert_eq!(entries[0], ("teams.json".to_string(), 0o100644, 1000, 1_700_000_000));
    assert_eq!(entries[2].0, format!("./{}", long_name));
    assert_eq!(entries.len(), 4);

    let plan = plan_preset_import("NEW", &gz);
    assert!(plan.ok);
    assert_eq!(plan.left_empty, None);
    assert_eq!(plan.writes, vec![
        ("./team-presets/NEW/teams.json".to_string(), b"{\"home_name\":\"Frogs\"}".to_vec()),
        ("./team-presets/NEW/home.png".to_string(), b"\x89PNG home".to_vec()),
        (format!("./team-presets/NEW/{}", long_name), b"long".to_vec()),
        ("./team-presets/NEW/empty".to_string(), Vec::new()),
    ]);
}

#[test]
fn preset_download_of_no_files_is_an_empty_archive() {
    let gz = froggi::teams::preset_download(Vec::new(), &teams()).expect("download is made");
    let plan = plan_preset_import("E", &gz);
    assert!(plan.ok);
    assert!(plan.writes.is_empty());
}

#[test]
fn preset_files_become_members_under_dot_slash() {
    let m = froggi::teams::preset_tar_members(vec![preset_file("a.png", b"1"), preset_file("teams.json", b"2")]);
    assert_eq!(m.len(), 2);
    assert_eq!(m[0].path, "./a.png");
    assert_eq!(m[1].path, "./teams.json");
    assert_eq!(m[1].contents, b"2".to_vec());
    assert_eq!(m[0].meta.mode, 0o100644);
}

#[test]
fn hostile_import_paths_stay_in_the_new_directory() {
    let p = plan_import_of_listing(
        "I",
        vec![
            imported(Some("../../secret.key"), Some(b"1")),
            imported(Some("/etc/x"), Some(b"2")),
            imported(Some("a/b/./"), Some(b"3")),
        ],
        true,
    );
    assert!(p.ok);
    assert_eq!(p.writes, vec![
        ("./team-presets/I/secret.key".to_string(), b"1".to_vec()),
        ("./team-presets/I/x".to_string(), b"2".to_vec()),
        ("./team-presets/I/b".to_string(), b"3".to_vec()),
    ]);
}

#[test]
fn selector_entry_needs_both_logos() {
    let names: Vec<String> = vec!["teams.json".into(), "home.png".into(), "away.jpg".into()];
    match froggi::teams::entry_logos(&preset_files(&names)) {
        froggi::teams::EntryLogos::Both { home, away } => {
            assert_eq!(home, 1);
            assert_eq!(away, 2);
        }
        froggi::teams::EntryLogos::Missing => panic!("both logos are there"),
    }
    let names: Vec<String> = vec!["teams.json".into(), "home.png".into()];
    assert!(matches!(froggi::teams::entry_logos(&preset_files(&names)), froggi::teams::EntryLogos::Missing));
}
