use mail_relay::filename::{attachment_filename, extension_of_raw};
use std::path::Path;

fn std_extension(raw: &str) -> String {
    match Path::new(raw).extension() {
        Some(ext) => ext.to_str().unwrap().to_string(),
        None => String::new(),
    }
}

#[test]
fn extension_comes_from_the_raw_name() {
    assert_eq!(
        attachment_filename(Some("report"), Some("report.exe.txt")),
        "report.txt"
    );
}

#[test]
fn no_safe_name_gives_attachment() {
    assert_eq!(attachment_filename(None, Some("x.pdf")), "attachment");
    assert_eq!(attachment_filename(None, None), "attachment");
}

#[test]
fn no_extension_gives_the_safe_name() {
    assert_eq!(attachment_filename(Some("notes"), Some("notes")), "notes");
    assert_eq!(attachment_filename(Some("notes"), None), "notes");
    assert_eq!(attachment_filename(Some("notes"), Some("notes.")), "notes");
    assert_eq!(attachment_filename(Some("bashrc"), Some(".bashrc")), "bashrc");
}

#[test]
fn directories_of_the_raw_name_do_not_reach_the_result() {
    assert_eq!(
        attachment_filename(Some("passwd"), Some("../../etc/passwd")),
        "passwd"
    );
    assert_eq!(
        attachment_filename(Some("evil"), Some("a.b/../../evil.sh")),
        "evil.sh"
    );
    assert_eq!(attachment_filename(Some("x"), Some("dir.d/x")), "x");
    assert_eq!(attachment_filename(Some("x"), Some("x.txt/..")), "x");
    assert_eq!(attachment_filename(Some("x"), Some("x.txt/.")), "x.txt");
    assert_eq!(attachment_filename(Some("x"), Some("x.txt//")), "x.txt");
}

#[test]
fn raw_extension_of_exact_values() {
    assert_eq!(extension_of_raw("report.exe.txt"), "txt");
    assert_eq!(extension_of_raw("archive.tar.gz"), "gz");
    assert_eq!(extension_of_raw("noext"), "");
    assert_eq!(extension_of_raw(".hidden"), "");
    assert_eq!(extension_of_raw("..hidden"), "hidden");
    assert_eq!(extension_of_raw(".hidden.txt"), "txt");
    assert_eq!(extension_of_raw("a/b.c/d"), "");
    assert_eq!(extension_of_raw("a/b.c/"), "c");
    assert_eq!(extension_of_raw(""), "");
    assert_eq!(extension_of_raw("/"), "");
    assert_eq!(extension_of_raw("."), "");
    assert_eq!(extension_of_raw(".."), "");
    assert_eq!(extension_of_raw("a.b/.."), "");
    assert_eq!(extension_of_raw("ü.é"), "é");
    assert_eq!(extension_of_raw("a.b\u{0007}c"), "b\u{0007}c");
}

#[test]
fn raw_extension_agrees_with_the_standard_library() {
    let samples = [
        "",
        ".",
        "..",
        "...",
        "/",
        "//",
        "a",
        "a.",
        ".a",
        "a.b",
        "a.b.c",
        "a..b",
        "..a",
        "a/b",
        "a/b.c",
        "a.b/c",
        "a.b/",
        "a.b//",
        "a.b/.",
        "a.b/./",
        "a.b/./.",
        "a.b/..",
        "a.b/../",
        "./a.b",
        "../a.b",
        "/a.b",
        "/a.b/",
        "a.b/.c",
        "a.b/c.",
        "x/.../y.z",
        "x.y/...",
        "x.y/. ",
        "x.y/ .",
        "C:\\dir\\file.txt",
        "name with blanks.tar gz",
        "tab\there.t\tx",
        "report.exe.txt",
        "a.b/..c",
        "a.b/c..",
        "./.",
        "./..",
        ".a/.",
        "a/./b.c/./.",
    ];
    for sample in samples.iter() {
        assert_eq!(extension_of_raw(sample), std_extension(sample), "{:?}", sample);
    }
}

#[test]
fn raw_extension_never_holds_a_slash() {
    let samples = ["a.b/c", "a/b.c/d.e", "x.y/", "x./y", "x.y/z.w/"];
    for sample in samples.iter() {
        assert!(!extension_of_raw(sample).contains('/'));
    }
}

#[test]
fn sanitized_names_get_what_the_standard_library_gives() {
    let safes = ["report", "a", "my_file-2", "x y"];
    let raws = ["report.exe.txt", "a", "b.", ".c", "../d.e", "f.g/", "h.tar.gz", ""];
    for safe in safes.iter() {
        for raw in raws.iter() {
            let expected = Path::new(safe)
                .with_extension(std_extension(raw))
                .to_str()
                .unwrap()
                .to_string();
            assert_eq!(attachment_filename(Some(safe), Some(raw)), expected);
        }
    }
}

#[test]
fn the_safe_name_is_kept_whole() {
    assert_eq!(
        attachment_filename(Some("v1.2"), Some("notes.txt")),
        "v1.2.txt"
    );
}
