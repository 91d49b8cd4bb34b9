use froggi::pages::{archive_member_name, download_disposition};
use froggi::tokens::random_token;
use froggi::updates::{
    exit_code_for, farewell_line, request_update, update_menu_for, update_reply_text, StopCause,
    UpdateCheck, UpdateReply,
};

#[test]
fn update_requests() {
    let mut unsent = true;
    assert_eq!(request_update(UpdateCheck::Unreachable, &mut unsent), UpdateReply::Unreachable);
    assert_eq!(request_update(UpdateCheck::UpToDate, &mut unsent), UpdateReply::UpToDate);
    assert!(unsent);
    assert_eq!(request_update(UpdateCheck::Available, &mut unsent), UpdateReply::Starting);
    assert!(!unsent);
    assert_eq!(request_update(UpdateCheck::Available, &mut unsent), UpdateReply::AlreadySent);
}

#[test]
fn update_texts() {
    assert_eq!(update_reply_text(UpdateReply::Starting, "u"), "Starting update...");
    assert_eq!(update_reply_text(UpdateReply::AlreadySent, "u"), "Update already sent!");
    assert_eq!(update_reply_text(UpdateReply::UpToDate, "u"), "Already up to date!");
    assert_eq!(update_reply_text(UpdateReply::Unreachable, "https://x/C.toml"), "Failed to make request to https://x/C.toml");
}

#[test]
fn update_menu() {
    assert!(update_menu_for(true, "2.0.0", "2.1.0").contains("<h6>Update availible! (2.0.0 -> 2.1.0)</h6>"));
    assert_eq!(
        update_menu_for(false, "2.0.0", "2.1.0"),
        "<div class=\"settings-box\"><div class=\"settings-title\"><h2>Update</h2><div class=\"subtext-settings\"><h6>Froggi is up to date!</h6></div></div></div>"
    );
}

#[test]
fn exit_codes() {
    assert_eq!(exit_code_for(StopCause::Restart), Some(10));
    assert_eq!(exit_code_for(StopCause::Shutdown), Some(0));
    assert_eq!(exit_code_for(StopCause::Update), Some(11));
    assert_eq!(exit_code_for(StopCause::Interrupt), None);
    assert_eq!(exit_code_for(StopCause::Terminate), None);
    assert_eq!(farewell_line(Some(10)), "Shut down gracefully\n");
    assert_eq!(farewell_line(Some(0)), "Shut down gracefully");
    assert_eq!(farewell_line(None), "Shut down gracefully");
}

#[test]
fn download_names() {
    assert_eq!(download_disposition("A", "B"), "attachment; filename=\"A-B.tar.gz\"");
    assert_eq!(archive_member_name("A", "B"), "A-B.tar");
}

#[test]
fn tokens_have_length_and_alphabet() {
    for n in [0usize, 1, 12, 32] {
        let t = random_token(n);
        assert_eq!(t.chars().count(), n);
        assert!(t.chars().all(|c| c.is_ascii_alphanumeric()));
    }
    assert_ne!(random_token(32), random_token(32));
}

#[test]
fn published_version_is_read_from_the_first_version_line() {
    let manifest = "[package]\r\nname = \"froggi\"\r\n  version = \"2.1.0\"\t\r\nedition = \"2021\"\n\n[dependencies]\nserde = { version = \"1\" }\nversion = \"9.9.9\"\n";
    assert_eq!(froggi::updates::published_version(manifest), Some("2.1.0".to_string()));
    assert_eq!(froggi::updates::published_version("version = \"\"\nversion = \"1\""), Some(String::new()));
    assert_eq!(froggi::updates::published_version("version = \""), None);
    assert_eq!(froggi::updates::published_version("[package]\nname = \"froggi\""), None);
    assert_eq!(froggi::updates::published_version(""), None);
}

#[test]
fn out_of_date_when_versions_differ() {
    assert!(froggi::updates::is_out_of_date("2.0.0", "2.1.0"));
    assert!(froggi::updates::is_out_of_date("2.0.0", "1.9.0"));
    assert!(!froggi::updates::is_out_of_date("2.0.0", "2.0.0"));
}
