//! Bundled web assets: the media type of a file by its extension, the lookup of a
//! requested asset in the bundled archive, and which page a visitor is sent to.

use vstd::prelude::*;
use crate::ocr::opt_view;
use crate::text::str_equal;

verus! {

/// The media type served for a file extension; `None` for extensions without one
/// (`3gp` and `3g2` among them).
pub open spec fn mime_for_extension(ext: Seq<char>) -> Option<Seq<char>> {
    if ext == "aac"@ {
        Some("audio/aac"@)
    } else if ext == "abw"@ {
        Some("application/x-abiword"@)
    } else if ext == "apng"@ {
        Some("image/apng"@)
    } else if ext == "arc"@ {
        Some("application/x-freearc"@)
    } else if ext == "avif"@ {
        Some("image/avif"@)
    } else if ext == "avi"@ {
        Some("video/x-msvideo"@)
    } else if ext == "azw"@ {
        Some("application/vnd.amazon.ebook"@)
    } else if ext == "bin"@ {
        Some("application/octet-stream"@)
    } else if ext == "bmp"@ {
        Some("image/bmp"@)
    } else if ext == "bz"@ {
        Some("application/x-bzip"@)
    } else if ext == "bz2"@ {
        Some("application/x-bzip2"@)
    } else if ext == "cda"@ {
        Some("application/x-cdf"@)
    } else if ext == "csh"@ {
        Some("application/x-csh"@)
    } else if ext == "css"@ {
        Some("text/css"@)
    } else if ext == "csv"@ {
        Some("text/csv"@)
    } else if ext == "doc"@ {
        Some("application/msword"@)
    } else if ext == "docx"@ {
        Some("application/vnd.openxmlformats-officedocument.wordprocessingml.document"@)
    } else if ext == "eot"@ {
        Some("application/vnd.ms-fontobject"@)
    } else if ext == "epub"@ {
        Some("application/epub+zip"@)
    } else if ext == "gz"@ {
        Some("application/gzip"@)
    } else if ext == "gif"@ {
        Some("image/gif"@)
    } else if ext == "htm"@ {
        Some("text/html"@)
    } else if ext == "html"@ {
        Some("text/html"@)
    } else if ext == "ico"@ {
        Some("image/vnd.microsoft.icon"@)
    } else if ext == "ics"@ {
        Some("text/calendar"@)
    } else if ext == "jar"@ {
        Some("application/java-archive"@)
    } else if ext == "jpeg"@ {
        Some("image/jpeg"@)
    } else if ext == "jpg"@ {
        Some("image/jpeg"@)
    } else if ext == "js"@ {
        Some("text/javascript"@)
    } else if ext == "json"@ {
        Some("application/json"@)
    } else if ext == "jsonld"@ {
        Some("application/ld+json"@)
    } else if ext == "mid"@ {
        Some("audio/midi"@)
    } else if ext == "midi"@ {
        Some("audio/midi"@)
    } else if ext == "mjs"@ {
        Some("text/javascript"@)
    } else if ext == "mp3"@ {
        Some("audio/mpeg"@)
    } else if ext == "mp4"@ {
        Some("video/mp4"@)
    } else if ext == "mpeg"@ {
        Some("video/mpeg"@)
    } else if ext == "mpkg"@ {
        Some("application/vnd.apple.installer+xml"@)
    } else if ext == "odp"@ {
        Some("application/vnd.oasis.opendocument.presentation"@)
    } else if ext == "ods"@ {
        Some("application/vnd.oasis.opendocument.spreadsheet"@)
    } else if ext == "odt"@ {
        Some("application/vnd.oasis.opendocument.text"@)
    } else if ext == "oga"@ {
        Some("audio/ogg"@)
    } else if ext == "ogv"@ {
        Some("video/ogg"@)
    } else if ext == "ogx"@ {
        Some("application/ogg"@)
    } else if ext == "opus"@ {
        Some("audio/ogg"@)
    } else if ext == "otf"@ {
        Some("font/otf"@)
    } else if ext == "png"@ {
        Some("image/png"@)
    } else if ext == "pdf"@ {
        Some("application/pdf"@)
    } else if ext == "php"@ {
        Some("application/x-httpd-php"@)
    } else if ext == "ppt"@ {
        Some("application/vnd.ms-powerpoint"@)
    } else if ext == "pptx"@ {
        Some("application/vnd.openxmlformats-officedocument.presentationml.presentation"@)
    } else if ext == "rar"@ {
        Some("application/vnd.rar"@)
    } else if ext == "rtf"@ {
        Some("application/rtf"@)
    } else if ext == "sh"@ {
        Some("application/x-sh"@)
    } else if ext == "svg"@ {
        Some("image/svg+xml"@)
    } else if ext == "tar"@ {
        Some("application/x-tar"@)
    } else if ext == "tif"@ {
        Some("image/tiff"@)
    } else if ext == "tiff"@ {
        Some("image/tiff"@)
    } else if ext == "ts"@ {
        Some("video/mp2t"@)
    } else if ext == "ttf"@ {
        Some("font/ttf"@)
    } else if ext == "txt"@ {
        Some("text/plain"@)
    } else if ext == "vsd"@ {
        Some("application/vnd.visio"@)
    } else if ext == "wav"@ {
        Some("audio/wav"@)
    } else if ext == "weba"@ {
        Some("audio/webm"@)
    } else if ext == "webm"@ {
        Some("video/webm"@)
    } else if ext == "webp"@ {
        Some("image/webp"@)
    } else if ext == "woff"@ {
        Some("font/woff"@)
    } else if ext == "woff2"@ {
        Some("font/woff2"@)
    } else if ext == "xhtml"@ {
        Some("application/xhtml+xml"@)
    } else if ext == "xls"@ {
        Some("application/vnd.ms-excel"@)
    } else if ext == "xlsx"@ {
        Some("application/vnd.openxmlformats-officedocument.spreadsheetml.sheet"@)
    } else if ext == "xml"@ {
        Some("application/xml"@)
    } else if ext == "xul"@ {
        Some("application/vnd.mozilla.xul+xml"@)
    } else if ext == "zip"@ {
        Some("application/zip"@)
    } else if ext == "7z"@ {
        Some("application/x-7z-compressed"@)
    } else {
        None
    }
}

/// The common media types by extension (the MDN table of common types), as served.
pub open spec fn common_media_types() -> Seq<(Seq<char>, Seq<char>)> {
    seq![
        ("aac"@, "audio/aac"@),
        ("abw"@, "application/x-abiword"@),
        ("apng"@, "image/apng"@),
        ("arc"@, "application/x-freearc"@),
        ("avif"@, "image/avif"@),
        ("avi"@, "video/x-msvideo"@),
        ("azw"@, "application/vnd.amazon.ebook"@),
        ("bin"@, "application/octet-stream"@),
        ("bmp"@, "image/bmp"@),
        ("bz"@, "application/x-bzip"@),
        ("bz2"@, "application/x-bzip2"@),
        ("cda"@, "application/x-cdf"@),
        ("csh"@, "application/x-csh"@),
        ("css"@, "text/css"@),
        ("csv"@, "text/csv"@),
        ("doc"@, "application/msword"@),
        ("docx"@, "application/vnd.openxmlformats-officedocument.wordprocessingml.document"@),
        ("eot"@, "application/vnd.ms-fontobject"@),
        ("epub"@, "application/epub+zip"@),
        ("gz"@, "application/gzip"@),
        ("gif"@, "image/gif"@),
        ("htm"@, "text/html"@),
        ("html"@, "text/html"@),
        ("ico"@, "image/vnd.microsoft.icon"@),
        ("ics"@, "text/calendar"@),
        ("jar"@, "application/java-archive"@),
        ("jpeg"@, "image/jpeg"@),
        ("jpg"@, "image/jpeg"@),
        ("js"@, "text/javascript"@),
        ("json"@, "application/json"@),
        ("jsonld"@, "application/ld+json"@),
        ("mid"@, "audio/midi"@),
        ("midi"@, "audio/midi"@),
        ("mjs"@, "text/javascript"@),
        ("mp3"@, "audio/mpeg"@),
        ("mp4"@, "video/mp4"@),
        ("mpeg"@, "video/mpeg"@),
        ("mpkg"@, "application/vnd.apple.installer+xml"@),
        ("odp"@, "application/vnd.oasis.opendocument.presentation"@),
        ("ods"@, "application/vnd.oasis.opendocument.spreadsheet"@),
        ("odt"@, "application/vnd.oasis.opendocument.text"@),
        ("oga"@, "audio/ogg"@),
        ("ogv"@, "video/ogg"@),
        ("ogx"@, "application/ogg"@),
        ("opus"@, "audio/ogg"@),
        ("otf"@, "font/otf"@),
        ("png"@, "image/png"@),
        ("pdf"@, "application/pdf"@),
        ("php"@, "application/x-httpd-php"@),
        ("ppt"@, "application/vnd.ms-powerpoint"@),
        ("pptx"@, "application/vnd.openxmlformats-officedocument.presentationml.presentation"@),
        ("rar"@, "application/vnd.rar"@),
        ("rtf"@, "application/rtf"@),
        ("sh"@, "application/x-sh"@),
        ("svg"@, "image/svg+xml"@),
        ("tar"@, "application/x-tar"@),
        ("tif"@, "image/tiff"@),
        ("tiff"@, "image/tiff"@),
        ("ts"@, "video/mp2t"@),
        ("ttf"@, "font/ttf"@),
        ("txt"@, "text/plain"@),
        ("vsd"@, "application/vnd.visio"@),
        ("wav"@, "audio/wav"@),
        ("weba"@, "audio/webm"@),
        ("webm"@, "video/webm"@),
        ("webp"@, "image/webp"@),
        ("woff"@, "font/woff"@),
        ("woff2"@, "font/woff2"@),
        ("xhtml"@, "application/xhtml+xml"@),
        ("xls"@, "application/vnd.ms-excel"@),
        ("xlsx"@, "application/vnd.openxmlformats-officedocument.spreadsheetml.sheet"@),
        ("xml"@, "application/xml"@),
        ("xul"@, "application/vnd.mozilla.xul+xml"@),
        ("zip"@, "application/zip"@),
        ("7z"@, "application/x-7z-compressed"@),
    ]
}

/// Every extension of the common media types table is served with its media
/// type from the table.
#[verifier::rlimit(100)]
pub proof fn law_table_extensions_served(i: int)
    requires
        0 <= i < common_media_types().len(),
    ensures
        mime_for_extension(common_media_types()[i].0) == Some(common_media_types()[i].1),
{
    reveal_strlit("aac");
    reveal_strlit("abw");
    reveal_strlit("apng");
    reveal_strlit("arc");
    reveal_strlit("avif");
    reveal_strlit("avi");
    reveal_strlit("azw");
    reveal_strlit("bin");
    reveal_strlit("bmp");
    reveal_strlit("bz");
    reveal_strlit("bz2");
    reveal_strlit("cda");
    reveal_strlit("csh");
    reveal_strlit("css");
    reveal_strlit("csv");
    reveal_strlit("doc");
    reveal_strlit("docx");
    reveal_strlit("eot");
    reveal_strlit("epub");
    reveal_strlit("gz");
    reveal_strlit("gif");
    reveal_strlit("htm");
    reveal_strlit("html");
    reveal_strlit("ico");
    reveal_strlit("ics");
    reveal_strlit("jar");
    reveal_strlit("jpeg");
    reveal_strlit("jpg");
    reveal_strlit("js");
    reveal_strlit("json");
    reveal_strlit("jsonld");
    reveal_strlit("mid");
    reveal_strlit("midi");
    reveal_strlit("mjs");
    reveal_strlit("mp3");
    reveal_strlit("mp4");
    reveal_strlit("mpeg");
    reveal_strlit("mpkg");
    reveal_strlit("odp");
    reveal_strlit("ods");
    reveal_strlit("odt");
    reveal_strlit("oga");
    reveal_strlit("ogv");
    reveal_strlit("ogx");
    reveal_strlit("opus");
    reveal_strlit("otf");
    reveal_strlit("png");
    reveal_strlit("pdf");
    reveal_strlit("php");
    reveal_strlit("ppt");
    reveal_strlit("pptx");
    reveal_strlit("rar");
    reveal_strlit("rtf");
    reveal_strlit("sh");
    reveal_strlit("svg");
    reveal_strlit("tar");
    reveal_strlit("tif");
    reveal_strlit("tiff");
    reveal_strlit("ts");
    reveal_strlit("ttf");
    reveal_strlit("txt");
    reveal_strlit("vsd");
    reveal_strlit("wav");
    reveal_strlit("weba");
    reveal_strlit("webm");
    reveal_strlit("webp");
    reveal_strlit("woff");
    reveal_strlit("woff2");
    reveal_strlit("xhtml");
    reveal_strlit("xls");
    reveal_strlit("xlsx");
    reveal_strlit("xml");
    reveal_strlit("xul");
    reveal_strlit("zip");
    reveal_strlit("7z");
    reveal_strlit("audio/aac");
    reveal_strlit("application/x-abiword");
    reveal_strlit("image/apng");
    reveal_strlit("application/x-freearc");
    reveal_strlit("image/avif");
    reveal_strlit("video/x-msvideo");
    reveal_strlit("application/vnd.amazon.ebook");
    reveal_strlit("application/octet-stream");
    reveal_strlit("image/bmp");
    reveal_strlit("application/x-bzip");
    reveal_strlit("application/x-bzip2");
    reveal_strlit("application/x-cdf");
    reveal_strlit("application/x-csh");
    reveal_strlit("text/css");
    reveal_strlit("text/csv");
    reveal_strlit("application/msword");
    reveal_strlit("application/vnd.openxmlformats-officedocument.wordprocessingml.document");
    reveal_strlit("application/vnd.ms-fontobject");
    reveal_strlit("application/epub+zip");
    reveal_strlit("application/gzip");
    reveal_strlit("image/gif");
    reveal_strlit("text/html");
    reveal_strlit("text/html");
    reveal_strlit("image/vnd.microsoft.icon");
    reveal_strlit("text/calendar");
    reveal_strlit("application/java-archive");
    reveal_strlit("image/jpeg");
    reveal_strlit("image/jpeg");
    reveal_strlit("text/javascript");
    reveal_strlit("application/json");
    reveal_strlit("application/ld+json");
    reveal_strlit("audio/midi");
    reveal_strlit("audio/midi");
    reveal_strlit("text/javascript");
    reveal_strlit("audio/mpeg");
    reveal_strlit("video/mp4");
    reveal_strlit("video/mpeg");
    reveal_strlit("application/vnd.apple.installer+xml");
    reveal_strlit("application/vnd.oasis.opendocument.presentation");
    reveal_strlit("application/vnd.oasis.opendocument.spreadsheet");
    reveal_strlit("application/vnd.oasis.opendocument.text");
    reveal_strlit("audio/ogg");
    reveal_strlit("video/ogg");
    reveal_strlit("application/ogg");
    reveal_strlit("audio/ogg");
    reveal_strlit("font/otf");
    reveal_strlit("image/png");
    reveal_strlit("application/pdf");
    reveal_strlit("application/x-httpd-php");
    reveal_strlit("application/vnd.ms-powerpoint");
    reveal_strlit("application/vnd.openxmlformats-officedocument.presentationml.presentation");
    reveal_strlit("application/vnd.rar");
    reveal_strlit("application/rtf");
    reveal_strlit("application/x-sh");
    reveal_strlit("image/svg+xml");
    reveal_strlit("application/x-tar");
    reveal_strlit("image/tiff");
    reveal_strlit("image/tiff");
    reveal_strlit("video/mp2t");
    reveal_strlit("font/ttf");
    reveal_strlit("text/plain");
    reveal_strlit("application/vnd.visio");
    reveal_strlit("audio/wav");
    reveal_strlit("audio/webm");
    reveal_strlit("video/webm");
    reveal_strlit("image/webp");
    reveal_strlit("font/woff");
    reveal_strlit("font/woff2");
    reveal_strlit("application/xhtml+xml");
    reveal_strlit("application/vnd.ms-excel");
    reveal_strlit("application/vnd.openxmlformats-officedocument.spreadsheetml.sheet");
    reveal_strlit("application/xml");
    reveal_strlit("application/vnd.mozilla.xul+xml");
    reveal_strlit("application/zip");
    reveal_strlit("application/x-7z-compressed");
    assert("aac"@.len() == 3 && "aac"@[0] == 'a' && "aac"@[1] == 'a' && "aac"@[2] == 'c');
    assert("abw"@.len() == 3 && "abw"@[0] == 'a' && "abw"@[1] == 'b' && "abw"@[2] == 'w');
    assert("apng"@.len() == 4 && "apng"@[0] == 'a' && "apng"@[1] == 'p' && "apng"@[2] == 'n' && "apng"@[3] == 'g');
    assert("arc"@.len() == 3 && "arc"@[0] == 'a' && "arc"@[1] == 'r' && "arc"@[2] == 'c');
    assert("avif"@.len() == 4 && "avif"@[0] == 'a' && "avif"@[1] == 'v' && "avif"@[2] == 'i' && "avif"@[3] == 'f');
    assert("avi"@.len() == 3 && "avi"@[0] == 'a' && "avi"@[1] == 'v' && "avi"@[2] == 'i');
    assert("azw"@.len() == 3 && "azw"@[0] == 'a' && "azw"@[1] == 'z' && "azw"@[2] == 'w');
    assert("bin"@.len() == 3 && "bin"@[0] == 'b' && "bin"@[1] == 'i' && "bin"@[2] == 'n');
    assert("bmp"@.len() == 3 && "bmp"@[0] == 'b' && "bmp"@[1] == 'm' && "bmp"@[2] == 'p');
    assert("bz"@.len() == 2 && "bz"@[0] == 'b' && "bz"@[1] == 'z');
    assert("bz2"@.len() == 3 && "bz2"@[0] == 'b' && "bz2"@[1] == 'z' && "bz2"@[2] == '2');
    assert("cda"@.len() == 3 && "cda"@[0] == 'c' && "cda"@[1] == 'd' && "cda"@[2] == 'a');
    assert("csh"@.len() == 3 && "csh"@[0] == 'c' && "csh"@[1] == 's' && "csh"@[2] == 'h');
    assert("css"@.len() == 3 && "css"@[0] == 'c' && "css"@[1] == 's' && "css"@[2] == 's');
    assert("csv"@.len() == 3 && "csv"@[0] == 'c' && "csv"@[1] == 's' && "csv"@[2] == 'v');
    assert("doc"@.len() == 3 && "doc"@[0] == 'd' && "doc"@[1] == 'o' && "doc"@[2] == 'c');
    assert("docx"@.len() == 4 && "docx"@[0] == 'd' && "docx"@[1] == 'o' && "docx"@[2] == 'c' && "docx"@[3] == 'x');
    assert("eot"@.len() == 3 && "eot"@[0] == 'e' && "eot"@[1] == 'o' && "eot"@[2] == 't');
    assert("epub"@.len() == 4 && "epub"@[0] == 'e' && "epub"@[1] == 'p' && "epub"@[2] == 'u' && "epub"@[3] == 'b');
    assert("gz"@.len() == 2 && "gz"@[0] == 'g' && "gz"@[1] == 'z');
    assert("gif"@.len() == 3 && "gif"@[0] == 'g' && "gif"@[1] == 'i' && "gif"@[2] == 'f');
    assert("htm"@.len() == 3 && "htm"@[0] == 'h' && "htm"@[1] == 't' && "htm"@[2] == 'm');
    assert("html"@.len() == 4 && "html"@[0] == 'h' && "html"@[1] == 't' && "html"@[2] == 'm' && "html"@[3] == 'l');
    assert("ico"@.len() == 3 && "ico"@[0] == 'i' && "ico"@[1] == 'c' && "ico"@[2] == 'o');
    assert("ics"@.len() == 3 && "ics"@[0] == 'i' && "ics"@[1] == 'c' && "ics"@[2] == 's');
    assert("jar"@.len() == 3 && "jar"@[0] == 'j' && "jar"@[1] == 'a' && "jar"@[2] == 'r');
    assert("jpeg"@.len() == 4 && "jpeg"@[0] == 'j' && "jpeg"@[1] == 'p' && "jpeg"@[2] == 'e' && "jpeg"@[3] == 'g');
    assert("jpg"@.len() == 3 && "jpg"@[0] == 'j' && "jpg"@[1] == 'p' && "jpg"@[2] == 'g');
    assert("js"@.len() == 2 && "js"@[0] == 'j' && "js"@[1] == 's');
    assert("json"@.len() == 4 && "json"@[0] == 'j' && "json"@[1] == 's' && "json"@[2] == 'o' && "json"@[3] == 'n');
    assert("jsonld"@.len() == 6 && "jsonld"@[0] == 'j' && "jsonld"@[1] == 's' && "jsonld"@[2] == 'o' && "jsonld"@[3] == 'n' && "jsonld"@[4] == 'l' && "jsonld"@[5] == 'd');
    assert("mid"@.len() == 3 && "mid"@[0] == 'm' && "mid"@[1] == 'i' && "mid"@[2] == 'd');
    assert("midi"@.len() == 4 && "midi"@[0] == 'm' && "midi"@[1] == 'i' && "midi"@[2] == 'd' && "midi"@[3] == 'i');
    assert("mjs"@.len() == 3 && "mjs"@[0] == 'm' && "mjs"@[1] == 'j' && "mjs"@[2] == 's');
    assert("mp3"@.len() == 3 && "mp3"@[0] == 'm' && "mp3"@[1] == 'p' && "mp3"@[2] == '3');
    assert("mp4"@.len() == 3 && "mp4"@[0] == 'm' && "mp4"@[1] == 'p' && "mp4"@[2] == '4');
    assert("mpeg"@.len() == 4 && "mpeg"@[0] == 'm' && "mpeg"@[1] == 'p' && "mpeg"@[2] == 'e' && "mpeg"@[3] == 'g');
    assert("mpkg"@.len() == 4 && "mpkg"@[0] == 'm' && "mpkg"@[1] == 'p' && "mpkg"@[2] == 'k' && "mpkg"@[3] == 'g');
    assert("odp"@.len() == 3 && "odp"@[0] == 'o' && "odp"@[1] == 'd' && "odp"@[2] == 'p');
    assert("ods"@.len() == 3 && "ods"@[0] == 'o' && "ods"@[1] == 'd' && "ods"@[2] == 's');
    assert("odt"@.len() == 3 && "odt"@[0] == 'o' && "odt"@[1] == 'd' && "odt"@[2] == 't');
    assert("oga"@.len() == 3 && "oga"@[0] == 'o' && "oga"@[1] == 'g' && "oga"@[2] == 'a');
    assert("ogv"@.len() == 3 && "ogv"@[0] == 'o' && "ogv"@[1] == 'g' && "ogv"@[2] == 'v');
    assert("ogx"@.len() == 3 && "ogx"@[0] == 'o' && "ogx"@[1] == 'g' && "ogx"@[2] == 'x');
    assert("opus"@.len() == 4 && "opus"@[0] == 'o' && "opus"@[1] == 'p' && "opus"@[2] == 'u' && "opus"@[3] == 's');
    assert("otf"@.len() == 3 && "otf"@[0] == 'o' && "otf"@[1] == 't' && "otf"@[2] == 'f');
    assert("png"@.len() == 3 && "png"@[0] == 'p' && "png"@[1] == 'n' && "png"@[2] == 'g');
    assert("pdf"@.len() == 3 && "pdf"@[0] == 'p' && "pdf"@[1] == 'd' && "pdf"@[2] == 'f');
    assert("php"@.len() == 3 && "php"@[0] == 'p' && "php"@[1] == 'h' && "php"@[2] == 'p');
    assert("ppt"@.len() == 3 && "ppt"@[0] == 'p' && "ppt"@[1] == 'p' && "ppt"@[2] == 't');
    assert("pptx"@.len() == 4 && "pptx"@[0] == 'p' && "pptx"@[1] == 'p' && "pptx"@[2] == 't' && "pptx"@[3] == 'x');
    assert("rar"@.len() == 3 && "rar"@[0] == 'r' && "rar"@[1] == 'a' && "rar"@[2] == 'r');
    assert("rtf"@.len() == 3 && "rtf"@[0] == 'r' && "rtf"@[1] == 't' && "rtf"@[2] == 'f');
    assert("sh"@.len() == 2 && "sh"@[0] == 's' && "sh"@[1] == 'h');
    assert("svg"@.len() == 3 && "svg"@[0] == 's' && "svg"@[1] == 'v' && "svg"@[2] == 'g');
    assert("tar"@.len() == 3 && "tar"@[0] == 't' && "tar"@[1] == 'a' && "tar"@[2] == 'r');
    assert("tif"@.len() == 3 && "tif"@[0] == 't' && "tif"@[1] == 'i' && "tif"@[2] == 'f');
    assert("tiff"@.len() == 4 && "tiff"@[0] == 't' && "tiff"@[1] == 'i' && "tiff"@[2] == 'f' && "tiff"@[3] == 'f');
    assert("ts"@.len() == 2 && "ts"@[0] == 't' && "ts"@[1] == 's');
    assert("ttf"@.len() == 3 && "ttf"@[0] == 't' && "ttf"@[1] == 't' && "ttf"@[2] == 'f');
    assert("txt"@.len() == 3 && "txt"@[0] == 't' && "txt"@[1] == 'x' && "txt"@[2] == 't');
    assert("vsd"@.len() == 3 && "vsd"@[0] == 'v' && "vsd"@[1] == 's' && "vsd"@[2] == 'd');
    assert("wav"@.len() == 3 && "wav"@[0] == 'w' && "wav"@[1] == 'a' && "wav"@[2] == 'v');
    assert("weba"@.len() == 4 && "weba"@[0] == 'w' && "weba"@[1] == 'e' && "weba"@[2] == 'b' && "weba"@[3] == 'a');
    assert("webm"@.len() == 4 && "webm"@[0] == 'w' && "webm"@[1] == 'e' && "webm"@[2] == 'b' && "webm"@[3] == 'm');
    assert("webp"@.len() == 4 && "webp"@[0] == 'w' && "webp"@[1] == 'e' && "webp"@[2] == 'b' && "webp"@[3] == 'p');
    assert("woff"@.len() == 4 && "woff"@[0] == 'w' && "woff"@[1] == 'o' && "woff"@[2] == 'f' && "woff"@[3] == 'f');
    assert("woff2"@.len() == 5 && "woff2"@[0] == 'w' && "woff2"@[1] == 'o' && "woff2"@[2] == 'f' && "woff2"@[3] == 'f' && "woff2"@[4] == '2');
    assert("xhtml"@.len() == 5 && "xhtml"@[0] == 'x' && "xhtml"@[1] == 'h' && "xhtml"@[2] == 't' && "xhtml"@[3] == 'm' && "xhtml"@[4] == 'l');
    assert("xls"@.len() == 3 && "xls"@[0] == 'x' && "xls"@[1] == 'l' && "xls"@[2] == 's');
    assert("xlsx"@.len() == 4 && "xlsx"@[0] == 'x' && "xlsx"@[1] == 'l' && "xlsx"@[2] == 's' && "xlsx"@[3] == 'x');
    assert("xml"@.len() == 3 && "xml"@[0] == 'x' && "xml"@[1] == 'm' && "xml"@[2] == 'l');
    assert("xul"@.len() == 3 && "xul"@[0] == 'x' && "xul"@[1] == 'u' && "xul"@[2] == 'l');
    assert("zip"@.len() == 3 && "zip"@[0] == 'z' && "zip"@[1] == 'i' && "zip"@[2] == 'p');
    assert("7z"@.len() == 2 && "7z"@[0] == '7' && "7z"@[1] == 'z');
    let table = common_media_types();
    assert(table.len() == 75);
    if i == 0 {
        assert(table[0] == ("aac"@, "audio/aac"@));
        assert(mime_for_extension("aac"@) == Some("audio/aac"@));
    } else if i == 1 {
        assert(table[1] == ("abw"@, "application/x-abiword"@));
        assert(mime_for_extension("abw"@) == Some("application/x-abiword"@));
    } else if i == 2 {
        assert(table[2] == ("apng"@, "image/apng"@));
        assert(mime_for_extension("apng"@) == Some("image/apng"@));
    } else if i == 3 {
        assert(table[3] == ("arc"@, "application/x-freearc"@));
        assert(mime_for_extension("arc"@) == Some("application/x-freearc"@));
    } else if i == 4 {
        assert(table[4] == ("avif"@, "image/avif"@));
        assert(mime_for_extension("avif"@) == Some("image/avif"@));
    } else if i == 5 {
        assert(table[5] == ("avi"@, "video/x-msvideo"@));
        assert(mime_for_extension("avi"@) == Some("video/x-msvideo"@));
    } else if i == 6 {
        assert(table[6] == ("azw"@, "application/vnd.amazon.ebook"@));
        assert(mime_for_extension("azw"@) == Some("application/vnd.amazon.ebook"@));
    } else if i == 7 {
        assert(table[7] == ("bin"@, "application/octet-stream"@));
        assert(mime_for_extension("bin"@) == Some("application/octet-stream"@));
    } else if i == 8 {
        assert(table[8] == ("bmp"@, "image/bmp"@));
        assert(mime_for_extension("bmp"@) == Some("image/bmp"@));
    } else if i == 9 {
        assert(table[9] == ("bz"@, "application/x-bzip"@));
        assert(mime_for_extension("bz"@) == Some("application/x-bzip"@));
    } else if i == 10 {
        assert(table[10] == ("bz2"@, "application/x-bzip2"@));
        assert(mime_for_extension("bz2"@) == Some("application/x-bzip2"@));
    } else if i == 11 {
        assert(table[11] == ("cda"@, "application/x-cdf"@));
        assert(mime_for_extension("cda"@) == Some("application/x-cdf"@));
    } else if i == 12 {
        assert(table[12] == ("csh"@, "application/x-csh"@));
        assert(mime_for_extension("csh"@) == Some("application/x-csh"@));
    } else if i == 13 {
        assert(table[13] == ("css"@, "text/css"@));
        assert(mime_for_extension("css"@) == Some("text/css"@));
    } else if i == 14 {
        assert(table[14] == ("csv"@, "text/csv"@));
        assert(mime_for_extension("csv"@) == Some("text/csv"@));
    } else if i == 15 {
        assert(table[15] == ("doc"@, "application/msword"@));
        assert(mime_for_extension("doc"@) == Some("application/msword"@));
    } else if i == 16 {
        assert(table[16] == ("docx"@, "application/vnd.openxmlformats-officedocument.wordprocessingml.document"@));
        assert(mime_for_extension("docx"@) == Some("application/vnd.openxmlformats-officedocument.wordprocessingml.document"@));
    } else if i == 17 {
        assert(table[17] == ("eot"@, "application/vnd.ms-fontobject"@));
        assert(mime_for_extension("eot"@) == Some("application/vnd.ms-fontobject"@));
    } else if i == 18 {
        assert(table[18] == ("epub"@, "application/epub+zip"@));
        assert(mime_for_extension("epub"@) == Some("application/epub+zip"@));
    } else if i == 19 {
        assert(table[19] == ("gz"@, "application/gzip"@));
        assert(mime_for_extension("gz"@) == Some("application/gzip"@));
    } else if i == 20 {
        assert(table[20] == ("gif"@, "image/gif"@));
        assert(mime_for_extension("gif"@) == Some("image/gif"@));
    } else if i == 21 {
        assert(table[21] == ("htm"@, "text/html"@));
        assert(mime_for_extension("htm"@) == Some("text/html"@));
    } else if i == 22 {
        assert(table[22] == ("html"@, "text/html"@));
        assert(mime_for_extension("html"@) == Some("text/html"@));
    } else if i == 23 {
        assert(table[23] == ("ico"@, "image/vnd.microsoft.icon"@));
        assert(mime_for_extension("ico"@) == Some("image/vnd.microsoft.icon"@));
    } else if i == 24 {
        assert(table[24] == ("ics"@, "text/calendar"@));
        assert(mime_for_extension("ics"@) == Some("text/calendar"@));
    } else if i == 25 {
        assert(table[25] == ("jar"@, "application/java-archive"@));
        assert(mime_for_extension("jar"@) == Some("application/java-archive"@));
    } else if i == 26 {
        assert(table[26] == ("jpeg"@, "image/jpeg"@));
        assert(mime_for_extension("jpeg"@) == Some("image/jpeg"@));
    } else if i == 27 {
        assert(table[27] == ("jpg"@, "image/jpeg"@));
        assert(mime_for_extension("jpg"@) == Some("image/jpeg"@));
    } else if i == 28 {
        assert(table[28] == ("js"@, "text/javascript"@));
        assert(mime_for_extension("js"@) == Some("text/javascript"@));
    } else if i == 29 {
        assert(table[29] == ("json"@, "application/json"@));
        assert(mime_for_extension("json"@) == Some("application/json"@));
    } else if i == 30 {
        assert(table[30] == ("jsonld"@, "application/ld+json"@));
        assert(mime_for_extension("jsonld"@) == Some("application/ld+json"@));
    } else if i == 31 {
        assert(table[31] == ("mid"@, "audio/midi"@));
        assert(mime_for_extension("mid"@) == Some("audio/midi"@));
    } else if i == 32 {
        assert(table[32] == ("midi"@, "audio/midi"@));
        assert(mime_for_extension("midi"@) == Some("audio/midi"@));
    } else if i == 33 {
        assert(table[33] == ("mjs"@, "text/javascript"@));
        assert(mime_for_extension("mjs"@) == Some("text/javascript"@));
    } else if i == 34 {
        assert(table[34] == ("mp3"@, "audio/mpeg"@));
        assert(mime_for_extension("mp3"@) == Some("audio/mpeg"@));
    } else if i == 35 {
        assert(table[35] == ("mp4"@, "video/mp4"@));
        assert(mime_for_extension("mp4"@) == Some("video/mp4"@));
    } else if i == 36 {
        assert(table[36] == ("mpeg"@, "video/mpeg"@));
        assert(mime_for_extension("mpeg"@) == Some("video/mpeg"@));
    } else if i == 37 {
        assert(table[37] == ("mpkg"@, "application/vnd.apple.installer+xml"@));
        assert(mime_for_extension("mpkg"@) == Some("application/vnd.apple.installer+xml"@));
    } else if i == 38 {
        assert(table[38] == ("odp"@, "application/vnd.oasis.opendocument.presentation"@));
        assert(mime_for_extension("odp"@) == Some("application/vnd.oasis.opendocument.presentation"@));
    } else if i == 39 {
        assert(table[39] == ("ods"@, "application/vnd.oasis.opendocument.spreadsheet"@));
        assert(mime_for_extension("ods"@) == Some("application/vnd.oasis.opendocument.spreadsheet"@));
    } else if i == 40 {
        assert(table[40] == ("odt"@, "application/vnd.oasis.opendocument.text"@));
        assert(mime_for_extension("odt"@) == Some("application/vnd.oasis.opendocument.text"@));
    } else if i == 41 {
        assert(table[41] == ("oga"@, "audio/ogg"@));
        assert(mime_for_extension("oga"@) == Some("audio/ogg"@));
    } else if i == 42 {
        assert(table[42] == ("ogv"@, "video/ogg"@));
        assert(mime_for_extension("ogv"@) == Some("video/ogg"@));
    } else if i == 43 {
        assert(table[43] == ("ogx"@, "application/ogg"@));
        assert(mime_for_extension("ogx"@) == Some("application/ogg"@));
    } else if i == 44 {
        assert(table[44] == ("opus"@, "audio/ogg"@));
        assert(mime_for_extension("opus"@) == Some("audio/ogg"@));
    } else if i == 45 {
        assert(table[45] == ("otf"@, "font/otf"@));
        assert(mime_for_extension("otf"@) == Some("font/otf"@));
    } else if i == 46 {
        assert(table[46] == ("png"@, "image/png"@));
        assert(mime_for_extension("png"@) == Some("image/png"@));
    } else if i == 47 {
        assert(table[47] == ("pdf"@, "application/pdf"@));
        assert(mime_for_extension("pdf"@) == Some("application/pdf"@));
    } else if i == 48 {
        assert(table[48] == ("php"@, "application/x-httpd-php"@));
        assert(mime_for_extension("php"@) == Some("application/x-httpd-php"@));
    } else if i == 49 {
        assert(table[49] == ("ppt"@, "application/vnd.ms-powerpoint"@));
        assert(mime_for_extension("ppt"@) == Some("application/vnd.ms-powerpoint"@));
    } else if i == 50 {
        assert(table[50] == ("pptx"@, "application/vnd.openxmlformats-officedocument.presentationml.presentation"@));
        assert(mime_for_extension("pptx"@) == Some("application/vnd.openxmlformats-officedocument.presentationml.presentation"@));
    } else if i == 51 {
        assert(table[51] == ("rar"@, "application/vnd.rar"@));
        assert(mime_for_extension("rar"@) == Some("application/vnd.rar"@));
    } else if i == 52 {
        assert(table[52] == ("rtf"@, "application/rtf"@));
        assert(mime_for_extension("rtf"@) == Some("application/rtf"@));
    } else if i == 53 {
        assert(table[53] == ("sh"@, "application/x-sh"@));
        assert(mime_for_extension("sh"@) == Some("application/x-sh"@));
    } else if i == 54 {
        assert(table[54] == ("svg"@, "image/svg+xml"@));
        assert(mime_for_extension("svg"@) == Some("image/svg+xml"@));
    } else if i == 55 {
        assert(table[55] == ("tar"@, "application/x-tar"@));
        assert(mime_for_extension("tar"@) == Some("application/x-tar"@));
    } else if i == 56 {
        assert(table[56] == ("tif"@, "image/tiff"@));
        assert(mime_for_extension("tif"@) == Some("image/tiff"@));
    } else if i == 57 {
        assert(table[57] == ("tiff"@, "image/tiff"@));
        assert(mime_for_extension("tiff"@) == Some("image/tiff"@));
    } else if i == 58 {
        assert(table[58] == ("ts"@, "video/mp2t"@));
        assert(mime_for_extension("ts"@) == Some("video/mp2t"@));
    } else if i == 59 {
        assert(table[59] == ("ttf"@, "font/ttf"@));
        assert(mime_for_extension("ttf"@) == Some("font/ttf"@));
    } else if i == 60 {
        assert(table[60] == ("txt"@, "text/plain"@));
        assert(mime_for_extension("txt"@) == Some("text/plain"@));
    } else if i == 61 {
        assert(table[61] == ("vsd"@, "application/vnd.visio"@));
        assert(mime_for_extension("vsd"@) == Some("application/vnd.visio"@));
    } else if i == 62 {
        assert(table[62] == ("wav"@, "audio/wav"@));
        assert(mime_for_extension("wav"@) == Some("audio/wav"@));
    } else if i == 63 {
        assert(table[63] == ("weba"@, "audio/webm"@));
        assert(mime_for_extension("weba"@) == Some("audio/webm"@));
    } else if i == 64 {
        assert(table[64] == ("webm"@, "video/webm"@));
        assert(mime_for_extension("webm"@) == Some("video/webm"@));
    } else if i == 65 {
        assert(table[65] == ("webp"@, "image/webp"@));
        assert(mime_for_extension("webp"@) == Some("image/webp"@));
    } else if i == 66 {
        assert(table[66] == ("woff"@, "font/woff"@));
        assert(mime_for_extension("woff"@) == Some("font/woff"@));
    } else if i == 67 {
        assert(table[67] == ("woff2"@, "font/woff2"@));
        assert(mime_for_extension("woff2"@) == Some("font/woff2"@));
    } else if i == 68 {
        assert(table[68] == ("xhtml"@, "application/xhtml+xml"@));
        assert(mime_for_extension("xhtml"@) == Some("application/xhtml+xml"@));
    } else if i == 69 {
        assert(table[69] == ("xls"@, "application/vnd.ms-excel"@));
        assert(mime_for_extension("xls"@) == Some("application/vnd.ms-excel"@));
    } else if i == 70 {
        assert(table[70] == ("xlsx"@, "application/vnd.openxmlformats-officedocument.spreadsheetml.sheet"@));
        assert(mime_for_extension("xlsx"@) == Some("application/vnd.openxmlformats-officedocument.spreadsheetml.sheet"@));
    } else if i == 71 {
        assert(table[71] == ("xml"@, "application/xml"@));
        assert(mime_for_extension("xml"@) == Some("application/xml"@));
    } else if i == 72 {
        assert(table[72] == ("xul"@, "application/vnd.mozilla.xul+xml"@));
        assert(mime_for_extension("xul"@) == Some("application/vnd.mozilla.xul+xml"@));
    } else if i == 73 {
        assert(table[73] == ("zip"@, "application/zip"@));
        assert(mime_for_extension("zip"@) == Some("application/zip"@));
    } else if i == 74 {
        assert(table[74] == ("7z"@, "application/x-7z-compressed"@));
        assert(mime_for_extension("7z"@) == Some("application/x-7z-compressed"@));
    }
}

/// Only the extensions of the common media types table are served with a media
/// type.
#[verifier::rlimit(100)]
pub proof fn law_only_table_extensions_served(ext: Seq<char>)
    requires
        mime_for_extension(ext) is Some,
    ensures
        exists|i: int| 0 <= i < common_media_types().len() && #[trigger] common_media_types()[i].0 == ext,
{
    let table = common_media_types();
    assert(table.len() == 75);
    if ext == "aac"@ {
        assert(table[0].0 == ext);
    } else if ext == "abw"@ {
        assert(table[1].0 == ext);
    } else if ext == "apng"@ {
        assert(table[2].0 == ext);
    } else if ext == "arc"@ {
        assert(table[3].0 == ext);
    } else if ext == "avif"@ {
        assert(table[4].0 == ext);
    } else if ext == "avi"@ {
        assert(table[5].0 == ext);
    } else if ext == "azw"@ {
        assert(table[6].0 == ext);
    } else if ext == "bin"@ {
        assert(table[7].0 == ext);
    } else if ext == "bmp"@ {
        assert(table[8].0 == ext);
    } else if ext == "bz"@ {
        assert(table[9].0 == ext);
    } else if ext == "bz2"@ {
        assert(table[10].0 == ext);
    } else if ext == "cda"@ {
        assert(table[11].0 == ext);
    } else if ext == "csh"@ {
        assert(table[12].0 == ext);
    } else if ext == "css"@ {
        assert(table[13].0 == ext);
    } else if ext == "csv"@ {
        assert(table[14].0 == ext);
    } else if ext == "doc"@ {
        assert(table[15].0 == ext);
    } else if ext == "docx"@ {
        assert(table[16].0 == ext);
    } else if ext == "eot"@ {
        assert(table[17].0 == ext);
    } else if ext == "epub"@ {
        assert(table[18].0 == ext);
    } else if ext == "gz"@ {
        assert(table[19].0 == ext);
    } else if ext == "gif"@ {
        assert(table[20].0 == ext);
    } else if ext == "htm"@ {
        assert(table[21].0 == ext);
    } else if ext == "html"@ {
        assert(table[22].0 == ext);
    } else if ext == "ico"@ {
        assert(table[23].0 == ext);
    } else if ext == "ics"@ {
        assert(table[24].0 == ext);
    } else if ext == "jar"@ {
        assert(table[25].0 == ext);
    } else if ext == "jpeg"@ {
        assert(table[26].0 == ext);
    } else if ext == "jpg"@ {
        assert(table[27].0 == ext);
    } else if ext == "js"@ {
        assert(table[28].0 == ext);
    } else if ext == "json"@ {
        assert(table[29].0 == ext);
    } else if ext == "jsonld"@ {
        assert(table[30].0 == ext);
    } else if ext == "mid"@ {
        assert(table[31].0 == ext);
    } else if ext == "midi"@ {
        assert(table[32].0 == ext);
    } else if ext == "mjs"@ {
        assert(table[33].0 == ext);
    } else if ext == "mp3"@ {
        assert(table[34].0 == ext);
    } else if ext == "mp4"@ {
        assert(table[35].0 == ext);
    } else if ext == "mpeg"@ {
        assert(table[36].0 == ext);
    } else if ext == "mpkg"@ {
        assert(table[37].0 == ext);
    } else if ext == "odp"@ {
        assert(table[38].0 == ext);
    } else if ext == "ods"@ {
        assert(table[39].0 == ext);
    } else if ext == "odt"@ {
        assert(table[40].0 == ext);
    } else if ext == "oga"@ {
        assert(table[41].0 == ext);
    } else if ext == "ogv"@ {
        assert(table[42].0 == ext);
    } else if ext == "ogx"@ {
        assert(table[43].0 == ext);
    } else if ext == "opus"@ {
        assert(table[44].0 == ext);
    } else if ext == "otf"@ {
        assert(table[45].0 == ext);
    } else if ext == "png"@ {
        assert(table[46].0 == ext);
    } else if ext == "pdf"@ {
        assert(table[47].0 == ext);
    } else if ext == "php"@ {
        assert(table[48].0 == ext);
    } else if ext == "ppt"@ {
        assert(table[49].0 == ext);
    } else if ext == "pptx"@ {
        assert(table[50].0 == ext);
    } else if ext == "rar"@ {
        assert(table[51].0 == ext);
    } else if ext == "rtf"@ {
        assert(table[52].0 == ext);
    } else if ext == "sh"@ {
        assert(table[53].0 == ext);
    } else if ext == "svg"@ {
        assert(table[54].0 == ext);
    } else if ext == "tar"@ {
        assert(table[55].0 == ext);
    } else if ext == "tif"@ {
        assert(table[56].0 == ext);
    } else if ext == "tiff"@ {
        assert(table[57].0 == ext);
    } else if ext == "ts"@ {
        assert(table[58].0 == ext);
    } else if ext == "ttf"@ {
        assert(table[59].0 == ext);
    } else if ext == "txt"@ {
        assert(table[60].0 == ext);
    } else if ext == "vsd"@ {
        assert(table[61].0 == ext);
    } else if ext == "wav"@ {
        assert(table[62].0 == ext);
    } else if ext == "weba"@ {
        assert(table[63].0 == ext);
    } else if ext == "webm"@ {
        assert(table[64].0 == ext);
    } else if ext == "webp"@ {
        assert(table[65].0 == ext);
    } else if ext == "woff"@ {
        assert(table[66].0 == ext);
    } else if ext == "woff2"@ {
        assert(table[67].0 == ext);
    } else if ext == "xhtml"@ {
        assert(table[68].0 == ext);
    } else if ext == "xls"@ {
        assert(table[69].0 == ext);
    } else if ext == "xlsx"@ {
        assert(table[70].0 == ext);
    } else if ext == "xml"@ {
        assert(table[71].0 == ext);
    } else if ext == "xul"@ {
        assert(table[72].0 == ext);
    } else if ext == "zip"@ {
        assert(table[73].0 == ext);
    } else if ext == "7z"@ {
        assert(table[74].0 == ext);
    }
}

/// The media type served for a file extension.
#[verifier::rlimit(50)]
pub fn mime_type_for_extension(ext: &str) -> (r: Option<&'static str>)
    ensures
        r is Some == mime_for_extension(ext@) is Some,
        r matches Some(m) ==> m@ == mime_for_extension(ext@)->0,
{
    if str_equal(ext, "aac") {
        return Some("audio/aac");
    }
    if str_equal(ext, "abw") {
        return Some("application/x-abiword");
    }
    if str_equal(ext, "apng") {
        return Some("image/apng");
    }
    if str_equal(ext, "arc") {
        return Some("application/x-freearc");
    }
    if str_equal(ext, "avif") {
        return Some("image/avif");
    }
    if str_equal(ext, "avi") {
        return Some("video/x-msvideo");
    }
    if str_equal(ext, "azw") {
        return Some("application/vnd.amazon.ebook");
    }
    if str_equal(ext, "bin") {
        return Some("application/octet-stream");
    }
    if str_equal(ext, "bmp") {
        return Some("image/bmp");
    }
    if str_equal(ext, "bz") {
        return Some("application/x-bzip");
    }
    if str_equal(ext, "bz2") {
        return Some("application/x-bzip2");
    }
    if str_equal(ext, "cda") {
        return Some("application/x-cdf");
    }
    if str_equal(ext, "csh") {
        return Some("application/x-csh");
    }
    if str_equal(ext, "css") {
        return Some("text/css");
    }
    if str_equal(ext, "csv") {
        return Some("text/csv");
    }
    if str_equal(ext, "doc") {
        return Some("application/msword");
    }
    if str_equal(ext, "docx") {
        return Some("application/vnd.openxmlformats-officedocument.wordprocessingml.document");
    }
    if str_equal(ext, "eot") {
        return Some("application/vnd.ms-fontobject");
    }
    if str_equal(ext, "epub") {
        return Some("application/epub+zip");
    }
    if str_equal(ext, "gz") {
        return Some("application/gzip");
    }
    if str_equal(ext, "gif") {
        return Some("image/gif");
    }
    if str_equal(ext, "htm") {
        return Some("text/html");
    }
    if str_equal(ext, "html") {
        return Some("text/html");
    }
    if str_equal(ext, "ico") {
        return Some("image/vnd.microsoft.icon");
    }
    if str_equal(ext, "ics") {
        return Some("text/calendar");
    }
    if str_equal(ext, "jar") {
        return Some("application/java-archive");
    }
    if str_equal(ext, "jpeg") {
        return Some("image/jpeg");
    }
    if str_equal(ext, "jpg") {
        return Some("image/jpeg");
    }
    if str_equal(ext, "js") {
        return Some("text/javascript");
    }
    if str_equal(ext, "json") {
        return Some("application/json");
    }
    if str_equal(ext, "jsonld") {
        return Some("application/ld+json");
    }
    if str_equal(ext, "mid") {
        return Some("audio/midi");
    }
    if str_equal(ext, "midi") {
        return Some("audio/midi");
    }
    if str_equal(ext, "mjs") {
        return Some("text/javascript");
    }
    if str_equal(ext, "mp3") {
        return Some("audio/mpeg");
    }
    if str_equal(ext, "mp4") {
        return Some("video/mp4");
    }
    if str_equal(ext, "mpeg") {
        return Some("video/mpeg");
    }
    if str_equal(ext, "mpkg") {
        return Some("application/vnd.apple.installer+xml");
    }
    if str_equal(ext, "odp") {
        return Some("application/vnd.oasis.opendocument.presentation");
    }
    if str_equal(ext, "ods") {
        return Some("application/vnd.oasis.opendocument.spreadsheet");
    }
    if str_equal(ext, "odt") {
        return Some("application/vnd.oasis.opendocument.text");
    }
    if str_equal(ext, "oga") {
        return Some("audio/ogg");
    }
    if str_equal(ext, "ogv") {
        return Some("video/ogg");
    }
    if str_equal(ext, "ogx") {
        return Some("application/ogg");
    }
    if str_equal(ext, "opus") {
        return Some("audio/ogg");
    }
    if str_equal(ext, "otf") {
        return Some("font/otf");
    }
    if str_equal(ext, "png") {
        return Some("image/png");
    }
    if str_equal(ext, "pdf") {
        return Some("application/pdf");
    }
    if str_equal(ext, "php") {
        return Some("application/x-httpd-php");
    }
    if str_equal(ext, "ppt") {
        return Some("application/vnd.ms-powerpoint");
    }
    if str_equal(ext, "pptx") {
        return Some("application/vnd.openxmlformats-officedocument.presentationml.presentation");
    }
    if str_equal(ext, "rar") {
        return Some("application/vnd.rar");
    }
    if str_equal(ext, "rtf") {
        return Some("application/rtf");
    }
    if str_equal(ext, "sh") {
        return Some("application/x-sh");
    }
    if str_equal(ext, "svg") {
        return Some("image/svg+xml");
    }
    if str_equal(ext, "tar") {
        return Some("application/x-tar");
    }
    if str_equal(ext, "tif") {
        return Some("image/tiff");
    }
    if str_equal(ext, "tiff") {
        return Some("image/tiff");
    }
    if str_equal(ext, "ts") {
        return Some("video/mp2t");
    }
    if str_equal(ext, "ttf") {
        return Some("font/ttf");
    }
    if str_equal(ext, "txt") {
        return Some("text/plain");
    }
    if str_equal(ext, "vsd") {
        return Some("application/vnd.visio");
    }
    if str_equal(ext, "wav") {
        return Some("audio/wav");
    }
    if str_equal(ext, "weba") {
        return Some("audio/webm");
    }
    if str_equal(ext, "webm") {
        return Some("video/webm");
    }
    if str_equal(ext, "webp") {
        return Some("image/webp");
    }
    if str_equal(ext, "woff") {
        return Some("font/woff");
    }
    if str_equal(ext, "woff2") {
        return Some("font/woff2");
    }
    if str_equal(ext, "xhtml") {
        return Some("application/xhtml+xml");
    }
    if str_equal(ext, "xls") {
        return Some("application/vnd.ms-excel");
    }
    if str_equal(ext, "xlsx") {
        return Some("application/vnd.openxmlformats-officedocument.spreadsheetml.sheet");
    }
    if str_equal(ext, "xml") {
        return Some("application/xml");
    }
    if str_equal(ext, "xul") {
        return Some("application/vnd.mozilla.xul+xml");
    }
    if str_equal(ext, "zip") {
        return Some("application/zip");
    }
    if str_equal(ext, "7z") {
        return Some("application/x-7z-compressed");
    }
    None
}

/// The path of a tar archive's member.
pub enum MemberPath {
    /// The path could not be read.
    Unreadable,
    /// The path was read, but its bytes are not UTF-8 text.
    NotText,
    Text(String),
}

/// A member's path: `None` where it could not be read, `Some(None)` where it is
/// not text.
pub open spec fn member_path_view(p: MemberPath) -> Option<Option<Seq<char>>> {
    match p {
        MemberPath::Unreadable => None,
        MemberPath::NotText => Some(None),
        MemberPath::Text(t) => Some(Some(t@)),
    }
}

/// One member of a tar archive: its path, and its contents where they could be
/// read.
pub struct ArchiveEntry {
    pub path: MemberPath,
    pub contents: Option<Vec<u8>>,
}

pub open spec fn entry_view(e: ArchiveEntry) -> (Option<Option<Seq<char>>>, Option<Seq<u8>>) {
    (
        member_path_view(e.path),
        match e.contents {
            Some(v) => Some(v@),
            None => None,
        },
    )
}

/// What the tar crate lists of the archive `bytes`: each member's path and
/// contents, up to the first member that cannot be read.
pub uninterp spec fn archive_listing(bytes: Seq<u8>) -> Seq<(Option<Option<Seq<char>>>, Option<Seq<u8>>)>;

/// Lists the members of a tar archive with `tar::Archive::entries`, stopping at the
/// first member the iterator cannot read, and reads each member's path (as text,
/// by `Path::to_str`, where it is UTF-8) and contents. The contract claims that the listing is the
/// named one; what the tar format makes of the bytes is left unsaid.
#[verifier::external_body]
pub(crate) fn list_archive(bytes: &[u8]) -> (r: Vec<ArchiveEntry>)
    ensures
        r@.map_values(|e: ArchiveEntry| entry_view(e)) == archive_listing(bytes@),
{
    let mut archive = tar::Archive::new(bytes);
    let mut listing = Vec::new();
    if let Ok(entries) = archive.entries() {
        for mut entry in entries.map_while(Result::ok) {
            let path = match entry.path() {
                Err(_) => MemberPath::Unreadable,
                Ok(p) => p.to_str().map_or(MemberPath::NotText, |t| MemberPath::Text(t.to_owned())),
            };
            let mut data = Vec::new();
            let contents = std::io::Read::read_to_end(&mut entry, &mut data).ok().map(|_| data);
            listing.push(ArchiveEntry { path, contents });
        }
    }
    listing
}

/// A path separator: `/`, or `\\`, which Windows also takes.
pub open spec fn is_separator(c: char) -> bool {
    c == '/' || c == '\\'
}

/// `p` holds `..` as a whole piece between separators, the way a path names its
/// parent directory.
pub open spec fn has_parent_piece(p: Seq<char>) -> bool {
    exists|i: int|
        0 <= i && i + 2 <= p.len() && #[trigger] p[i] == '.' && p[i + 1] == '.' && (i == 0
            || is_separator(p[i - 1])) && (i + 2 == p.len() || is_separator(p[i + 2]))
}

/// No member path of the listing that is text holds a `..` piece.
pub open spec fn members_without_parent(l: Seq<(Option<Option<Seq<char>>>, Option<Seq<u8>>)>) -> bool {
    forall|k: int| 0 <= k < l.len() ==> ((#[trigger] l[k]).0 matches Some(Some(p)) ==> !has_parent_piece(p))
}

/// Whether `std::path::Path` counts the two paths equal (component by component),
/// under the path rules of the platform the crate is built for.
pub uninterp spec fn same_path(a: Seq<char>, b: Seq<char>) -> bool;

/// Compares two paths with `std::path::Path`'s equality; the contract claims the
/// named result, which depends on the two texts alone, and that equal paths agree
/// on holding a `..` piece. `Path` equality compares components. A piece between
/// separators is a component, or is empty or `.`, which normalisation drops; a
/// separator that the platform does not take (`\\` on Unix, `/` after a Windows
/// verbatim prefix) leaves its pieces inside one component, whose text both paths
/// then share. `..` is always the parent-directory component, so it stands in both
/// paths or in neither.
#[verifier::external_body]
pub(crate) fn paths_equal(a: &str, b: &str) -> (r: bool)
    ensures
        r == same_path(a@, b@),
        r ==> has_parent_piece(a@) == has_parent_piece(b@),
{
    std::path::Path::new(a) == std::path::Path::new(b)
}

/// What `std::path::Path::extension` gives for a path: the text after the last
/// `.` of its file name, where there is one, under the path rules of the platform
/// the crate is built for.
pub uninterp spec fn extension_of(p: Seq<char>) -> Option<Seq<char>>;

/// The extension of a path, by `std::path::Path::extension`, lossily converted to
/// text; the contract claims the named result.
#[verifier::external_body]
pub(crate) fn path_extension(p: &str) -> (r: Option<String>)
    ensures
        opt_view(r) == extension_of(p@),
{
    std::path::Path::new(p).extension().map(|e| e.to_string_lossy().into_owned())
}

/// The path under which `/{dir}/{asset}` is looked up in the archive.
pub open spec fn asset_path(dir: Seq<char>, asset: Seq<char>) -> Seq<char> {
    dir + "/"@ + asset
}

/// What a lookup finds, from member `from` on.
pub enum AssetAnswer {
    /// The member at this index, served with this media type.
    Found(int, Seq<char>),
    NoMimeType,
    NoExtension,
    Missing,
    ServerError,
}

/// The first member whose path equals `desired` decides: it must have an extension
/// with a media type, and readable contents. A member before it with an unreadable
/// path ends the lookup with an error; one whose path is not text never equals
/// `desired`, which is text.
pub open spec fn asset_answer(
    l: Seq<(Option<Option<Seq<char>>>, Option<Seq<u8>>)>,
    desired: Seq<char>,
    from: int,
) -> AssetAnswer
    decreases l.len() - from,
{
    if from < 0 || from >= l.len() {
        AssetAnswer::Missing
    } else {
        match l[from].0 {
            None => AssetAnswer::ServerError,
            Some(None) => asset_answer(l, desired, from + 1),
            Some(Some(p)) => if same_path(p, desired) {
                match extension_of(p) {
                    None => AssetAnswer::NoExtension,
                    Some(x) => match mime_for_extension(x) {
                        None => AssetAnswer::NoMimeType,
                        Some(m) => match l[from].1 {
                            None => AssetAnswer::ServerError,
                            Some(_) => AssetAnswer::Found(from, m),
                        },
                    },
                }
            } else {
                asset_answer(l, desired, from + 1)
            },
        }
    }
}

/// How a request for a bundled asset is answered.
pub enum AssetReply {
    /// 200 with this media type and body.
    Found { content_type: String, body: Vec<u8> },
    /// 400: "Requested file without corresponding mime type".
    NoMimeType,
    /// 400: "Requested directory or file without extension".
    NoExtension,
    /// 400: "Requested file doesn't exist".
    Missing,
    /// 500.
    ServerError,
}

/// Looks `/{dir}/{asset}` up in the bundled tar archive.
pub fn local_asset(archive: &[u8], dir: &str, asset: &str) -> (r: AssetReply)
    ensures
        asset_reply_matches(
            r,
            asset_answer(archive_listing(archive@), asset_path(dir@, asset@), 0),
            archive_listing(archive@),
        ),
        has_parent_piece(asset_path(dir@, asset@)) && members_without_parent(
            archive_listing(archive@),
        ) ==> r is Missing || r is ServerError,
{
    let entries = list_archive(archive);
    let mut desired = dir.to_owned();
    desired.append("/");
    desired.append(asset);
    asset_from_listing(entries, desired.as_str())
}

/// `r` is the reply that the lookup answer `a` in the listing `l` calls for.
pub open spec fn asset_reply_matches(
    r: AssetReply,
    a: AssetAnswer,
    l: Seq<(Option<Option<Seq<char>>>, Option<Seq<u8>>)>,
) -> bool {
    match a {
        AssetAnswer::Found(j, m) => r matches AssetReply::Found { content_type, body } && content_type@
            == m && body@ == l[j].1->0,
        AssetAnswer::NoMimeType => r is NoMimeType,
        AssetAnswer::NoExtension => r is NoExtension,
        AssetAnswer::Missing => r is Missing,
        AssetAnswer::ServerError => r is ServerError,
    }
}

/// Looks the path `desired` up among the members of an archive listing.
pub fn asset_from_listing(listing: Vec<ArchiveEntry>, desired: &str) -> (r: AssetReply)
    ensures
        asset_reply_matches(
            r,
            asset_answer(listing@.map_values(|e: ArchiveEntry| entry_view(e)), desired@, 0),
            listing@.map_values(|e: ArchiveEntry| entry_view(e)),
        ),
        has_parent_piece(desired@) && members_without_parent(
            listing@.map_values(|e: ArchiveEntry| entry_view(e)),
        ) ==> r is Missing || r is ServerError,
{
    let ghost l = listing@.map_values(|e: ArchiveEntry| entry_view(e));
    let mut entries = listing;
    let ghost d = desired@;
    let n = entries.len();
    let mut i: usize = 0;
    while i < n
        invariant
            n == entries.len(),
            n == l.len(),
            entries@.map_values(|e: ArchiveEntry| entry_view(e)) == l,
            l == listing@.map_values(|e: ArchiveEntry| entry_view(e)),
            desired@ == d,
            i <= n,
            asset_answer(l, d, 0) == asset_answer(l, d, i as int),
        decreases n - i,
    {
        assert(entry_view(entries@[i as int]) == l[i as int]);
        let found = match &entries[i].path {
            MemberPath::Unreadable => {
                assert(l[i as int].0 is None);
                assert(asset_answer(l, d, i as int) is ServerError);
                return AssetReply::ServerError;
            },
            MemberPath::NotText => false,
            MemberPath::Text(p) => paths_equal(p.as_str(), desired),
        };
        if found {
            assert(!(has_parent_piece(d) && members_without_parent(l))) by {
                if has_parent_piece(d) && members_without_parent(l) {
                    assert(l[i as int].0 matches Some(Some(p)) ==> !has_parent_piece(p)) by {
                        assert(0 <= i < l.len());
                    }
                }
            }
            let ghost before = entries@;
            let entry = entries.remove(i);
            assert(entry == before[i as int]);
            assert(entry_view(entry) == l[i as int]);
            assert(same_path(l[i as int].0->0->0, d));
            let p = match entry.path {
                MemberPath::Text(p) => p,
                _ => {
                    return AssetReply::ServerError;
                },
            };
            let ext = match path_extension(p.as_str()) {
                Some(x) => x,
                None => {
                    assert(asset_answer(l, d, i as int) is NoExtension);
                    return AssetReply::NoExtension;
                },
            };
            let mime = match mime_type_for_extension(ext.as_str()) {
                Some(m) => m,
                None => {
                    assert(asset_answer(l, d, i as int) is NoMimeType);
                    return AssetReply::NoMimeType;
                },
            };
            return match entry.contents {
                Some(body) => AssetReply::Found { content_type: mime.to_owned(), body },
                None => AssetReply::ServerError,
            };
        }
        i = i + 1;
    }
    AssetReply::Missing
}

/// A page whose answer depends on whether a login has been created.
#[derive(Clone, Copy, Debug, PartialEq, Eq, Structural)]
pub enum SetupPage {
    Overlay,
    Login,
    CreateLogin,
}

/// Which answer such a page gets.
#[derive(Clone, Copy, Debug, PartialEq, Eq, Structural)]
pub enum PageAnswer {
    /// The page itself.
    Serve,
    /// 303 to `/login`.
    RedirectToLogin,
    /// 303 to `/login/create`.
    RedirectToCreateLogin,
}

/// Before a login exists, the overlay and login pages send the visitor to create
/// one; once it exists, the creation page sends the visitor to log in.
pub fn page_answer(page: SetupPage, login_exists: bool) -> (r: PageAnswer)
    ensures
        r == (match page {
            SetupPage::CreateLogin => if login_exists {
                PageAnswer::RedirectToLogin
            } else {
                PageAnswer::Serve
            },
            _ => if login_exists {
                PageAnswer::Serve
            } else {
                PageAnswer::RedirectToCreateLogin
            },
        }),
{
    match page {
        SetupPage::CreateLogin => if login_exists {
            PageAnswer::RedirectToLogin
        } else {
            PageAnswer::Serve
        },
        _ => if login_exists {
            PageAnswer::Serve
        } else {
            PageAnswer::RedirectToCreateLogin
        },
    }
}

} // verus!
