use paracord_gateway::filename::sanitize_filename;

#[test]
fn strips_path_traversal() {
    assert_eq!(sanitize_filename("../../etc/passwd"), "passwd");
    assert_eq!(sanitize_filename("..\\..\\windows\\system32\\config"), "config");
}

#[test]
fn removes_null_bytes() {
    assert_eq!(sanitize_filename("file\0.txt"), "file.txt");
}

#[test]
fn removes_control_chars() {
    assert_eq!(sanitize_filename("file\x01\x02.txt"), "file.txt");
}

#[test]
fn removes_dangerous_chars() {
    assert_eq!(sanitize_filename("file<>:\"|?*.txt"), "file.txt");
}

#[test]
fn strips_leading_dots() {
    assert_eq!(sanitize_filename(".hidden"), "hidden");
    assert_eq!(sanitize_filename("...dots"), "dots");
}

#[test]
fn returns_unnamed_for_empty() {
    assert_eq!(sanitize_filename(""), "unnamed");
    assert_eq!(sanitize_filename("..."), "unnamed");
    assert_eq!(sanitize_filename("../.."), "unnamed");
}

#[test]
fn preserves_normal_filenames() {
    assert_eq!(sanitize_filename("photo.jpg"), "photo.jpg");
    assert_eq!(sanitize_filename("my document (1).pdf"), "my document (1).pdf");
}

#[test]
fn truncates_to_255_bytes() {
    let long_name = "a".repeat(300) + ".txt";
    let result = sanitize_filename(&long_name);
    assert!(result.len() <= 255);
}

#[test]
fn truncation_keeps_the_longest_prefix() {
    let long_name = "a".repeat(300) + ".txt";
    assert_eq!(sanitize_filename(&long_name), "a".repeat(255));
}

#[test]
fn truncation_never_splits_a_character() {
    // 254 ASCII bytes leave room for one more byte only: a two-byte
    // character does not fit and is dropped whole.
    let name = "b".repeat(254) + "é" + "c";
    let result = sanitize_filename(&name);
    assert_eq!(result, "b".repeat(254));
}

#[test]
fn trims_unicode_whitespace_and_keeps_inner_spaces() {
    assert_eq!(sanitize_filename("\u{3000} a b.txt \u{a0}"), "a b.txt");
    assert_eq!(sanitize_filename("dir/   "), "unnamed");
}

#[test]
fn dots_after_trimming_are_kept() {
    // Leading dots are stripped before whitespace is trimmed.
    assert_eq!(sanitize_filename(" .x"), ".x");
}
