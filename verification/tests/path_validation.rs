use game_task_widget::error::CommandError;
use game_task_widget::path::{
    classify, contains_traversal, is_allowed_extension, markdown_extensions, validate_md_path,
    PathError,
};

#[test]
fn plain_markdown_file_is_accepted_unchanged() {
    let validated = validate_md_path("tasks.md").unwrap();
    assert_eq!(validated.as_str(), "tasks.md");
}

#[test]
fn long_extension_is_accepted() {
    let validated = validate_md_path("notes/today.markdown").unwrap();
    assert_eq!(validated.as_str(), "notes/today.markdown");
    assert_eq!(validated.into_string(), String::from("notes/today.markdown"));
}

#[test]
fn traversal_is_rejected_whatever_the_extension() {
    assert_eq!(validate_md_path("../tasks.md"), Err(PathError::InvalidPath));
    assert_eq!(validate_md_path("a/../b.markdown"), Err(PathError::InvalidPath));
    assert_eq!(validate_md_path("../tasks.txt"), Err(PathError::InvalidPath));
    assert_eq!(validate_md_path(".."), Err(PathError::InvalidPath));
    assert_eq!(validate_md_path("tasks.md/.."), Err(PathError::InvalidPath));
}

#[test]
fn two_dots_inside_a_name_count_as_traversal() {
    assert_eq!(validate_md_path("tasks..md"), Err(PathError::InvalidPath));
    assert_eq!(validate_md_path("a...b.md"), Err(PathError::InvalidPath));
}

#[test]
fn other_extensions_are_unsupported() {
    assert_eq!(validate_md_path("tasks.txt"), Err(PathError::UnsupportedExtension));
    assert_eq!(validate_md_path("tasks.md.bak"), Err(PathError::UnsupportedExtension));
    assert_eq!(validate_md_path("tasks.mdx"), Err(PathError::UnsupportedExtension));
    assert_eq!(validate_md_path("tasks.m"), Err(PathError::UnsupportedExtension));
    assert_eq!(validate_md_path("tasks.markdow"), Err(PathError::UnsupportedExtension));
}

#[test]
fn extension_match_is_case_sensitive() {
    assert_eq!(validate_md_path("tasks.MD"), Err(PathError::UnsupportedExtension));
    assert_eq!(validate_md_path("tasks.Md"), Err(PathError::UnsupportedExtension));
    assert_eq!(validate_md_path("tasks.Markdown"), Err(PathError::UnsupportedExtension));
}

#[test]
fn missing_extension_is_unsupported() {
    assert_eq!(validate_md_path(""), Err(PathError::UnsupportedExtension));
    assert_eq!(validate_md_path("tasks"), Err(PathError::UnsupportedExtension));
    assert_eq!(validate_md_path("tasks."), Err(PathError::UnsupportedExtension));
    assert_eq!(validate_md_path("md"), Err(PathError::UnsupportedExtension));
    assert_eq!(validate_md_path("dir.md/tasks"), Err(PathError::UnsupportedExtension));
}

#[test]
fn a_name_that_is_only_an_extension_has_none() {
    assert_eq!(validate_md_path(".md"), Err(PathError::UnsupportedExtension));
    assert_eq!(validate_md_path("notes/.markdown"), Err(PathError::UnsupportedExtension));
}

#[test]
fn absolute_paths_are_not_caught() {
    let validated = validate_md_path("/etc/tasks.md").unwrap();
    assert_eq!(validated.as_str(), "/etc/tasks.md");
}

#[test]
fn non_ascii_names_are_accepted() {
    let validated = validate_md_path("заметки/задачи.md").unwrap();
    assert_eq!(validated.as_str(), "заметки/задачи.md");
    assert_eq!(validate_md_path("задачи.мд"), Err(PathError::UnsupportedExtension));
}

#[test]
fn traversal_scan_finds_adjacent_dots_only() {
    assert!(contains_traversal(".."));
    assert!(contains_traversal("a..b"));
    assert!(contains_traversal("a/.."));
    assert!(contains_traversal("..."));
    assert!(!contains_traversal(""));
    assert!(!contains_traversal("."));
    assert!(!contains_traversal("a.b.c"));
    assert!(!contains_traversal("./a/.b"));
    assert!(!contains_traversal(".a."));
}

#[test]
fn allowed_extensions_are_exactly_two() {
    assert_eq!(markdown_extensions(), vec!["md", "markdown"]);
    assert!(is_allowed_extension("md"));
    assert!(is_allowed_extension("markdown"));
    assert!(!is_allowed_extension(""));
    assert!(!is_allowed_extension("MD"));
    assert!(!is_allowed_extension("mdd"));
    assert!(!is_allowed_extension("markdowns"));
    assert!(!is_allowed_extension("txt"));
}

#[test]
fn classification_puts_traversal_first() {
    assert_eq!(classify(true, Some("md")), Err(PathError::InvalidPath));
    assert_eq!(classify(true, Some("txt")), Err(PathError::InvalidPath));
    assert_eq!(classify(true, None), Err(PathError::InvalidPath));
    assert_eq!(classify(false, None), Err(PathError::UnsupportedExtension));
    assert_eq!(classify(false, Some("txt")), Err(PathError::UnsupportedExtension));
    assert_eq!(classify(false, Some("md")), Ok(()));
    assert_eq!(classify(false, Some("markdown")), Ok(()));
}

#[test]
fn watch_directory_is_the_parent() {
    let nested = validate_md_path("notes/work/tasks.md").unwrap();
    assert_eq!(nested.watch_directory(), "notes/work");
    let absolute = validate_md_path("/srv/tasks.md").unwrap();
    assert_eq!(absolute.watch_directory(), "/srv");
}

#[test]
fn watch_directory_of_a_bare_name_is_empty() {
    let bare = validate_md_path("tasks.md").unwrap();
    assert_eq!(bare.watch_directory(), "");
}

#[test]
fn clone_keeps_the_path() {
    let validated = validate_md_path("tasks.md").unwrap();
    let copy = validated.clone();
    assert_eq!(copy, validated);
    assert_eq!(copy.as_str(), "tasks.md");
}

#[test]
fn path_errors_have_fixed_messages() {
    assert_eq!(PathError::InvalidPath.message(), "Path traversal not allowed");
    assert_eq!(
        PathError::UnsupportedExtension.message(),
        "Only .md / .markdown files are allowed"
    );
}

#[test]
fn command_errors_speak_with_the_words_they_carry() {
    assert_eq!(
        CommandError::InvalidPath(PathError::InvalidPath).message(),
        "Path traversal not allowed"
    );
    assert_eq!(
        CommandError::InvalidPath(PathError::UnsupportedExtension).message(),
        "Only .md / .markdown files are allowed"
    );
    assert_eq!(CommandError::Io(String::from("no such file")).message(), "no such file");
    assert_eq!(CommandError::WatchStart(String::from("denied")).message(), "denied");
    assert_eq!(CommandError::Window(String::from("no button")).message(), "no button");
    assert_eq!(CommandError::LockAcquisition(String::from("poisoned")).message(), "poisoned");
}

/// The verdict by the two rules, read off the standard library directly.
fn verdict_by_the_rules(path: &str) -> Result<(), PathError> {
    if path.contains("..") {
        return Err(PathError::InvalidPath);
    }
    match std::path::Path::new(path).extension().and_then(|e| e.to_str()) {
        Some("md") | Some("markdown") => Ok(()),
        _ => Err(PathError::UnsupportedExtension),
    }
}

#[test]
fn verdicts_follow_the_two_rules() {
    let samples = [
        "",
        ".",
        "..",
        "...",
        "/",
        "a",
        "a.md",
        "a.markdown",
        "a.md/",
        "a.md/.",
        "a.md//",
        "a.markdown/",
        ".md",
        ".markdown",
        "a/.md",
        "a.b.md",
        "a.md.b",
        "a..md",
        "a.md..",
        "../a.md",
        "a/../b.md",
        "a/./b.md",
        "./a.md",
        "/a/b/c.md",
        "/a/b.md/c",
        "a.md/b.markdown",
        "a.MD",
        "a.mD",
        "a.md ",
        " a.md",
        "a. md",
        "a.md\n",
        "a.mdmarkdown",
        "a.markdown.md",
        "a\\b.md",
        "a.md\\",
        "C:\\notes\\a.md",
        "md",
        "markdown",
        "a.",
        "a.m",
        "a.mark",
        "é.md",
        "a.mé",
        "日本語.markdown",
    ];
    for sample in samples {
        let validated = validate_md_path(sample);
        match verdict_by_the_rules(sample) {
            Ok(()) => assert_eq!(validated.map(|v| v.into_string()), Ok(String::from(sample))),
            Err(reason) => assert_eq!(validated, Err(reason)),
        }
        assert_eq!(contains_traversal(sample), sample.contains(".."));
    }
}
