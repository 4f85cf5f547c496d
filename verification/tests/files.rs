use git_nav::files::{
    get_icon, get_name, is_git_repo, list_files_and_folders, name_or_empty, Entry, ItemKind,
    FILE_ICON, FOLDER_ICON, GIT_DIR,
};
use git_nav::text::{chars_of, contains, ends_with, equal};

fn item(path: &str, kind: ItemKind) -> Entry {
    Entry { path: path.to_string(), kind, name_is_text: true }
}

#[test]
fn name_is_the_final_component() {
    assert_eq!(get_name("/usr/bin/"), "bin");
    assert_eq!(get_name("tmp/foo.txt"), "foo.txt");
    assert_eq!(get_name("foo.txt/."), "foo.txt");
    assert_eq!(get_name("repo"), "repo");
    assert_eq!(get_name("repo/src/main.rs"), "main.rs");
}

#[test]
fn name_is_empty_where_there_is_no_component() {
    assert_eq!(get_name("foo.txt/.."), "");
    assert_eq!(get_name("/"), "");
    assert_eq!(get_name(""), "");
    assert_eq!(get_name(".."), "");
}

#[test]
fn name_or_empty_unwraps() {
    assert_eq!(name_or_empty(Some("a.rs".to_string())), "a.rs");
    assert_eq!(name_or_empty(None), "");
}

#[test]
fn icon_tells_directories_from_files() {
    assert_eq!(get_icon(&item("repo/src", ItemKind::Directory)), "\u{1F4C1}");
    assert_eq!(get_icon(&item("repo/a.rs", ItemKind::File)), "\u{1F4C4}");
    assert_eq!(FOLDER_ICON, "📁");
    assert_eq!(FILE_ICON, "📄");
}

#[test]
fn repository_needs_a_git_directory() {
    assert!(is_git_repo(Some(ItemKind::Directory)));
    assert!(!is_git_repo(Some(ItemKind::File)));
    assert!(!is_git_repo(None));
    assert_eq!(GIT_DIR, ".git");
}

#[test]
fn listing_drops_the_directory_itself_and_git_data() {
    let walked = vec![
        item("repo", ItemKind::Directory),
        item("repo/.git", ItemKind::Directory),
        item("repo/src", ItemKind::Directory),
        item("repo/.gitignore", ItemKind::File),
        item("repo/Cargo.toml", ItemKind::File),
        item("repo/.github", ItemKind::Directory),
        item("repo/a.git.txt", ItemKind::File),
        item("repo/.gi", ItemKind::File),
        item("repo/README.md", ItemKind::File),
    ];
    assert_eq!(
        list_files_and_folders("repo", &walked),
        vec![
            item("repo/src", ItemKind::Directory),
            item("repo/Cargo.toml", ItemKind::File),
            item("repo/.gi", ItemKind::File),
            item("repo/README.md", ItemKind::File),
        ]
    );
}

#[test]
fn listing_keeps_the_walk_order() {
    let walked = vec![
        item("r/z", ItemKind::File),
        item("r/a", ItemKind::Directory),
        item("r/m", ItemKind::File),
    ];
    assert_eq!(list_files_and_folders("r", &walked), walked);
    assert_eq!(list_files_and_folders("r", &vec![]), vec![]);
    assert_eq!(list_files_and_folders("r", &vec![item("r", ItemKind::Directory)]), vec![]);
}

#[test]
fn listing_under_a_git_path_is_empty() {
    let walked = vec![item("repo/.git/hooks", ItemKind::Directory), item("repo/.git/HEAD", ItemKind::File)];
    assert_eq!(list_files_and_folders("repo/.git", &walked), vec![]);
}

#[test]
fn contains_finds_a_pattern_anywhere() {
    assert!(contains("repo/.git/HEAD", ".git"));
    assert!(contains(".git", ".git"));
    assert!(contains("x.git", ".git"));
    assert!(contains(".gitx", ".git"));
    assert!(!contains("repo/src", ".git"));
    assert!(!contains(".gi", ".git"));
    assert!(!contains("", ".git"));
    assert!(contains("abc", ""));
    assert!(contains("", ""));
    assert!(contains("héllo wörld", "wö"));
}

#[test]
fn ends_with_looks_at_the_end_only() {
    assert!(ends_with("README.md", ".md"));
    assert!(ends_with(".md", ".md"));
    assert!(!ends_with("README.md.txt", ".md"));
    assert!(!ends_with("md", ".md"));
    assert!(ends_with("abc", ""));
    assert!(!ends_with("", "a"));
}

#[test]
fn equal_compares_whole_texts() {
    assert!(equal("repo", "repo"));
    assert!(equal("", ""));
    assert!(!equal("repo", "repo/"));
    assert!(!equal("repo", "rep"));
    assert!(!equal("repo", "rexo"));
    assert_eq!(chars_of("añb"), vec!['a', 'ñ', 'b']);
    assert_eq!(chars_of(""), Vec::<char>::new());
}
