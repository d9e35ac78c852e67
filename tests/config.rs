use dotcopter::model::{DotFile, DotFileType};
use dotcopter::mutate::{add_dotfiles_to_files, FileEntry, FileSetting};
use dotcopter::parser::{
    dot_file_from_settings, dot_file_type_from_string, is_known_type_name, parse_dot_files, type_from_lowercase,
    EntryNode,
};

fn s(text: &str) -> String {
    text.to_string()
}

fn settings(pairs: &[(&str, &str)]) -> EntryNode {
    EntryNode::Settings(pairs.iter().map(|(k, v)| (Some(s(k)), Some(s(v)))).collect())
}

fn sample_files() -> Vec<(Option<String>, EntryNode)> {
    vec![
        (Some(s("~/.tmux/plugins/tpm")), EntryNode::Source(s("tpm"))),
        (Some(s("~/.tmux.conf")), settings(&[("src", "tmux.conf"), ("type", "copy")])),
        (Some(s("~/.vimrc")), settings(&[("src", "vimrc"), ("type", "link")])),
    ]
}

fn check_parsed(parsed_dot_files: &Vec<DotFile>) {
    assert_eq!(parsed_dot_files.len(), 3);
    assert!(parsed_dot_files.contains(&DotFile {
        source: s("tpm"),
        target: s("~/.tmux/plugins/tpm"),
        dot_file_type: DotFileType::LINK,
    }));
    assert!(parsed_dot_files.contains(&DotFile {
        source: s("tmux.conf"),
        target: s("~/.tmux.conf"),
        dot_file_type: DotFileType::COPY,
    }));
    assert!(parsed_dot_files.contains(&DotFile {
        source: s("vimrc"),
        target: s("~/.vimrc"),
        dot_file_type: DotFileType::LINK,
    }));
}

#[test]
fn config_parse_config() {
    check_parsed(&parse_dot_files(&sample_files()));
}

#[test]
fn parser_parse_config() {
    let parsed_dot_files: Vec<DotFile> = parse_dot_files(&sample_files());
    check_parsed(&parsed_dot_files);
}

#[test]
fn unusable_entries_are_passed_over() {
    let files = vec![
        (None, EntryNode::Source(s("x"))),
        (Some(s("~/.a")), EntryNode::Other),
        (Some(s("~/.b")), EntryNode::Source(s("b"))),
    ];
    assert_eq!(
        parse_dot_files(&files),
        vec![DotFile { source: s("b"), target: s("~/.b"), dot_file_type: DotFileType::LINK }]
    );
}

#[test]
fn type_names_ignore_case_and_fall_back_to_link() {
    assert_eq!(dot_file_type_from_string("copy"), DotFileType::COPY);
    assert_eq!(dot_file_type_from_string("CoPy"), DotFileType::COPY);
    assert_eq!(dot_file_type_from_string("LINK"), DotFileType::LINK);
    assert_eq!(dot_file_type_from_string("hardlink"), DotFileType::LINK);
    assert_eq!(DotFileType::COPY.name(), "COPY");
    assert_eq!(DotFileType::LINK.name(), "LINK");
}

#[test]
fn settings_defaults_and_last_wins() {
    let d = dot_file_from_settings("~/.x", &vec![(Some(s("other")), Some(s("y"))), (Some(s("src")), None)]);
    assert_eq!(d, DotFile { source: s("<todo>"), target: s("~/.x"), dot_file_type: DotFileType::LINK });
    let d = dot_file_from_settings(
        "~/.x",
        &vec![
            (Some(s("src")), Some(s("a"))),
            (Some(s("type")), Some(s("COPY"))),
            (Some(s("src")), Some(s("b"))),
        ],
    );
    assert_eq!(d, DotFile { source: s("b"), target: s("~/.x"), dot_file_type: DotFileType::COPY });
}

fn kept(key: &str, text: &str) -> FileEntry<String> {
    FileEntry { key: Some(s(key)), setting: FileSetting::Kept(s(text)) }
}

fn declared(key: &str, source: &str, t: DotFileType) -> FileEntry<String> {
    FileEntry { key: Some(s(key)), setting: FileSetting::Declared { source: s(source), dot_file_type: t } }
}

#[test]
fn test_add_dotfile_to_config() {
    let files = vec![
        kept("~/.tmux/plugins/tpm", "tpm"),
        kept("~/.tmux.conf", "{src: tmux.conf, type: copy}"),
        kept("~/.vimrc", "{src: vimrc, type: link}"),
    ];
    let new_files = vec![DotFile { source: s("test"), target: s("~/test"), dot_file_type: DotFileType::LINK }];
    let merged = add_dotfiles_to_files(files, &new_files);
    assert_eq!(
        merged,
        vec![
            kept("~/.tmux/plugins/tpm", "tpm"),
            kept("~/.tmux.conf", "{src: tmux.conf, type: copy}"),
            kept("~/.vimrc", "{src: vimrc, type: link}"),
            declared("~/test", "test", DotFileType::LINK),
        ]
    );
}

#[test]
fn merge_replaces_in_place_and_later_additions_win() {
    let files = vec![kept("~/.a", "a"), kept("~/.b", "b"), FileEntry { key: None, setting: FileSetting::Kept(s("7")) }];
    let additions = vec![
        DotFile { source: s("b1"), target: s("~/.b"), dot_file_type: DotFileType::LINK },
        DotFile { source: s("c"), target: s("~/.c"), dot_file_type: DotFileType::COPY },
        DotFile { source: s("b2"), target: s("~/.b"), dot_file_type: DotFileType::COPY },
    ];
    let merged = add_dotfiles_to_files(files, &additions);
    assert_eq!(
        merged,
        vec![
            kept("~/.a", "a"),
            declared("~/.b", "b2", DotFileType::COPY),
            FileEntry { key: None, setting: FileSetting::Kept(s("7")) },
            declared("~/.c", "c", DotFileType::COPY),
        ]
    );
}

#[test]
fn merge_with_no_additions_changes_nothing() {
    let files = vec![kept("~/.a", "a")];
    assert_eq!(add_dotfiles_to_files(files, &Vec::new()), vec![kept("~/.a", "a")]);
}

#[test]
fn lowercase_names_pick_the_mode() {
    assert_eq!(type_from_lowercase("copy"), DotFileType::COPY);
    assert_eq!(type_from_lowercase("link"), DotFileType::LINK);
    assert_eq!(type_from_lowercase("COPY"), DotFileType::LINK);
    assert_eq!(type_from_lowercase(""), DotFileType::LINK);
}

#[test]
fn known_type_names() {
    assert!(is_known_type_name("Copy"));
    assert!(is_known_type_name("LINK"));
    assert!(!is_known_type_name("hardlink"));
    assert!(!is_known_type_name(""));
}
