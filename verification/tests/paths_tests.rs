use lucida_downloader::paths::{
    can_normalize_path, components_of, folder_from_picker_output, normalize_path, picker_was_cancelled,
    share_url_from_mount_table, share_volume_name, share_volume_of,
};

#[test]
fn normalize_unescapes_spaces() {
    assert_eq!(normalize_path("/path/to/my\\ folder/"), "/path/to/my folder/");
    assert_eq!(normalize_path("/a\\ b\\ c"), "/a b c");
}

#[test]
fn normalize_strips_brackets_and_quotes() {
    assert_eq!(normalize_path("  [\"/Volumes/Belmont/Music\"]  "), "/Volumes/Belmont/Music");
    assert_eq!(normalize_path("'/tmp/x'"), "/tmp/x");
    assert_eq!(normalize_path("\" /tmp/y \""), "/tmp/y");
    assert_eq!(normalize_path("[ ' /tmp/z ' ]"), "/tmp/z");
}

#[test]
fn normalize_strips_only_in_order() {
    // Quotes inside brackets are stripped, brackets inside quotes are not.
    assert_eq!(normalize_path("\"[/a]\""), "[/a]");
    assert_eq!(normalize_path("[/a"), "[/a");
}

#[test]
fn normalize_keeps_clean_path() {
    assert_eq!(normalize_path("/Users/me/Music"), "/Users/me/Music");
    assert_eq!(normalize_path(""), "");
    assert_eq!(normalize_path("   "), "");
}

#[test]
fn normalize_trims_unicode_white_space() {
    assert_eq!(normalize_path("\u{3000}/x\u{a0}\t\n"), "/x");
}

#[test]
fn normalize_leaves_double_backslash_once() {
    assert_eq!(normalize_path("a\\\\ b"), "a\\ b");
}

#[test]
fn normalize_empty_pairs() {
    assert_eq!(normalize_path("[]"), "");
    assert_eq!(normalize_path("\"\""), "");
    assert_eq!(normalize_path("''"), "");
}

#[test]
fn lone_quote_cannot_be_normalized() {
    assert!(!can_normalize_path("\""));
    assert!(!can_normalize_path("  '  "));
    assert!(!can_normalize_path("[\"]"));
    assert!(!can_normalize_path("[ ' ]"));
    assert!(can_normalize_path("["));
    assert!(can_normalize_path("/x"));
    assert!(can_normalize_path(""));
}

#[test]
fn volume_of_components() {
    let c = |v: &[&str]| v.iter().map(|s| s.to_string()).collect::<Vec<_>>();
    assert_eq!(share_volume_of(&c(&["/", "Volumes", "Belmont", "Music"])).as_deref(), Some("Belmont"));
    assert_eq!(share_volume_of(&c(&["/", "Volumes", "Belmont"])).as_deref(), Some("Belmont"));
    assert_eq!(share_volume_of(&c(&["/", "Volumes"])), None);
    assert_eq!(share_volume_of(&c(&["/", "Users", "me"])), None);
}

#[test]
fn volume_of_path() {
    assert_eq!(share_volume_name("/Volumes/Belmont/Music").as_deref(), Some("Belmont"));
    assert_eq!(share_volume_name("//Volumes//Belmont/").as_deref(), Some("Belmont"));
    assert_eq!(share_volume_name("/Volumes"), None);
    assert_eq!(share_volume_name("/Users/me/Music"), None);
    assert_eq!(share_volume_name("x/Volumes/y").as_deref(), Some("y"));
}

const TABLE: &str = "/dev/disk1s1 on / (apfs, local, journaled)\n\
//twan@10.10.27.10/Belmont on /Volumes/Belmont (smbfs, nodev, nosuid, mounted by twan)\n\
/dev/disk2 on /Volumes/Backup (hfs, local)\n";

#[test]
fn share_url_from_mount_output() {
    assert_eq!(
        share_url_from_mount_table(TABLE, "Belmont").as_deref(),
        Some("smb://twan@10.10.27.10/Belmont")
    );
    assert_eq!(share_url_from_mount_table(TABLE, "Backup"), None);
    assert_eq!(share_url_from_mount_table(TABLE, "Other"), None);
    assert_eq!(share_url_from_mount_table("", "Belmont"), None);
}

#[test]
fn share_url_skips_local_sources_and_takes_first_share() {
    let table = "/dev/disk3 on /Volumes/Belmont (apfs)\r\n  //a/Belmont  on /Volumes/Belmont (smbfs)\n//b/Belmont on /Volumes/Belmont (smbfs)";
    assert_eq!(share_url_from_mount_table(table, "Belmont").as_deref(), Some("smb://a/Belmont"));
}

#[test]
fn share_url_matches_volume_prefix_too() {
    // The volume name is matched as text, so a longer name that begins with it matches.
    let table = "//h/BelmontTwo on /Volumes/BelmontTwo (smbfs)\n";
    assert_eq!(share_url_from_mount_table(table, "Belmont").as_deref(), Some("smb://h/BelmontTwo"));
}

#[test]
fn picker_output() {
    assert_eq!(folder_from_picker_output(true, "/Users/me/Music/\n").as_deref(), Some("/Users/me/Music/"));
    assert_eq!(folder_from_picker_output(true, "  \n"), None);
    assert_eq!(folder_from_picker_output(false, "/x"), None);
}

#[test]
fn picker_cancel_detection() {
    assert!(picker_was_cancelled("execution error: User canceled. (-128)"));
    assert!(!picker_was_cancelled("execution error: something else"));
    assert!(!picker_was_cancelled(""));
}

#[test]
fn unix_components() {
    assert_eq!(components_of("/Volumes/Belmont/Music"), vec!["/", "Volumes", "Belmont", "Music"]);
    assert_eq!(components_of("//a//b/"), vec!["/", "a", "b"]);
    assert_eq!(components_of("a/./b/."), vec!["a", "b"]);
    assert_eq!(components_of("./a/../b"), vec![".", "a", "..", "b"]);
    assert_eq!(components_of("."), vec!["."]);
    assert_eq!(components_of(".a/b"), vec![".a", "b"]);
    assert!(components_of("").is_empty());
    assert_eq!(components_of("/"), vec!["/"]);
}

#[test]
fn components_agree_with_std_path() {
    for p in ["/Volumes/Belmont/Music", "//a//b/", "a/./b/.", "./a/../b", ".", "./", ".a/b", "", "/", "/./x", "a//", "../x"] {
        let std_parts: Vec<String> = std::path::Path::new(p)
            .components()
            .map(|c| c.as_os_str().to_string_lossy().into_owned())
            .collect();
        assert_eq!(components_of(p), std_parts, "path {p:?}");
    }
}
