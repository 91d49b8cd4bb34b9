use froggi::assets::{asset_from_listing, local_asset, mime_type_for_extension, page_answer, AssetReply, PageAnswer, SetupPage};

fn archive(members: &[(&str, &[u8])]) -> Vec<u8> {
    let mut b = tar::Builder::new(Vec::new());
    for (path, data) in members {
        let mut h = tar::Header::new_gnu();
        h.set_size(data.len() as u64);
        h.set_mode(0o644);
        h.set_cksum();
        b.append_data(&mut h, path, *data).unwrap();
    }
    b.into_inner().unwrap()
}

#[test]
fn asset_path_that_is_not_utf8_is_never_served() {
    let mut b = tar::Builder::new(Vec::new());
    let mut h = tar::Header::new_gnu();
    let name: &[u8] = b"css/\xff.css";
    h.as_gnu_mut().unwrap().name[..name.len()].copy_from_slice(name);
    h.set_size(1);
    h.set_mode(0o644);
    h.set_cksum();
    b.append(&h, &b"x"[..]).unwrap();
    let a = b.into_inner().unwrap();
    assert!(matches!(local_asset(&a, "css", "\u{fffd}.css"), AssetReply::Missing));
}

#[test]
fn mime_types_of_common_extensions() {
    assert_eq!(mime_type_for_extension("css"), Some("text/css"));
    assert_eq!(mime_type_for_extension("png"), Some("image/png"));
    assert_eq!(mime_type_for_extension("jpg"), Some("image/jpeg"));
    assert_eq!(mime_type_for_extension("js"), Some("text/javascript"));
    assert_eq!(mime_type_for_extension("7z"), Some("application/x-7z-compressed"));
    assert_eq!(mime_type_for_extension("woff2"), Some("font/woff2"));
    assert_eq!(mime_type_for_extension("3gp"), None);
    assert_eq!(mime_type_for_extension("PNG"), None);
    assert_eq!(mime_type_for_extension(""), None);
}

#[test]
fn asset_found_with_type() {
    let a = archive(&[("css/site.css", b"body{}"), ("img/logo.png", b"\x89PNG")]);
    match local_asset(&a, "img", "logo.png") {
        AssetReply::Found { content_type, body } => {
            assert_eq!(content_type, "image/png");
            assert_eq!(body, b"\x89PNG".to_vec());
        }
        _ => panic!("expected the logo"),
    }
}

#[test]
fn asset_errors() {
    let a = archive(&[("fonts/a.unknownext", b"x"), ("fonts/README", b"y")]);
    assert!(matches!(local_asset(&a, "fonts", "a.unknownext"), AssetReply::NoMimeType));
    assert!(matches!(local_asset(&a, "fonts", "README"), AssetReply::NoExtension));
    assert!(matches!(local_asset(&a, "fonts", "b.css"), AssetReply::Missing));
    assert!(matches!(local_asset(&[], "x", "y.css"), AssetReply::Missing));
}

#[test]
fn setup_pages() {
    assert_eq!(page_answer(SetupPage::Overlay, true), PageAnswer::Serve);
    assert_eq!(page_answer(SetupPage::Overlay, false), PageAnswer::RedirectToCreateLogin);
    assert_eq!(page_answer(SetupPage::Login, false), PageAnswer::RedirectToCreateLogin);
    assert_eq!(page_answer(SetupPage::Login, true), PageAnswer::Serve);
    assert_eq!(page_answer(SetupPage::CreateLogin, true), PageAnswer::RedirectToLogin);
    assert_eq!(page_answer(SetupPage::CreateLogin, false), PageAnswer::Serve);
}

fn member(path: Option<&str>, data: Option<&[u8]>) -> froggi::assets::ArchiveEntry {
    let path = match path {
        None => froggi::assets::MemberPath::Unreadable,
        Some(p) => froggi::assets::MemberPath::Text(p.to_string()),
    };
    froggi::assets::ArchiveEntry { path, contents: data.map(|d| d.to_vec()) }
}

#[test]
fn listing_lookup_passes_over_paths_that_are_not_text() {
    let l = vec![
        froggi::assets::ArchiveEntry {
            path: froggi::assets::MemberPath::NotText,
            contents: Some(b"0".to_vec()),
        },
        member(Some("css/\u{fffd}.css"), Some(b"1")),
    ];
    match asset_from_listing(l, "css/\u{fffd}.css") {
        AssetReply::Found { content_type, body } => {
            assert_eq!(content_type, "text/css");
            assert_eq!(body, b"1".to_vec());
        }
        _ => panic!(),
    }
    let l = vec![froggi::assets::ArchiveEntry {
        path: froggi::assets::MemberPath::NotText,
        contents: Some(b"0".to_vec()),
    }];
    assert!(matches!(asset_from_listing(l, "css/\u{fffd}.css"), AssetReply::Missing));
}

#[test]
fn listing_lookup_takes_first_equal_path() {
    let l = vec![member(Some("js/a.js"), Some(b"1")), member(Some("js/a.js"), Some(b"2"))];
    match asset_from_listing(l, "js/a.js") {
        AssetReply::Found { content_type, body } => {
            assert_eq!(content_type, "text/javascript");
            assert_eq!(body, b"1".to_vec());
        }
        _ => panic!(),
    }
    // path comparison is by components
    let l = vec![member(Some("js//a.js"), Some(b"1"))];
    assert!(matches!(asset_from_listing(l, "js/a.js"), AssetReply::Found { .. }));
}

#[test]
fn listing_lookup_errors() {
    let l = vec![member(None, Some(b"1")), member(Some("a/b.css"), Some(b"x"))];
    assert!(matches!(asset_from_listing(l, "a/b.css"), AssetReply::ServerError));
    let l = vec![member(Some("a/b.css"), None)];
    assert!(matches!(asset_from_listing(l, "a/b.css"), AssetReply::ServerError));
    let l = vec![member(Some("a/c.css"), Some(b"x")), member(None, None)];
    assert!(matches!(asset_from_listing(l, "a/b.css"), AssetReply::ServerError));
    assert!(matches!(asset_from_listing(vec![], "a/b.css"), AssetReply::Missing));
}

#[test]
fn parent_directory_requests_find_nothing() {
    let a = archive(&[("css/site.css", b"body{}"), ("secret.key", b"k")]);
    assert!(matches!(local_asset(&a, "..", "secret.key"), AssetReply::Missing));
    assert!(matches!(local_asset(&a, "css", "../secret.key"), AssetReply::Missing));
    assert!(matches!(local_asset(&a, "css/..", "secret.key"), AssetReply::Missing));
}
