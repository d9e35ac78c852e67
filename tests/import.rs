use dotcopter::files::resolve_with_home;
use dotcopter::import::{dot_files_found, examine_link, get_dot_files_with_home, LinkEntry, LinkVerdict};
use dotcopter::model::{DotFile, DotFileType};
use dotcopter::mutate::{add_dotfiles_to_files, FileEntry, FileSetting};

fn s(text: &str) -> String {
    text.to_string()
}

fn link(path: &str, canonical: Option<&str>) -> LinkEntry {
    LinkEntry { path: s(path), canonical: canonical.map(s) }
}

#[test]
fn owned_link_is_imported() {
    let v = examine_link(&link("/home/u/.vimrc", Some("/w/dots/vimrc")), "/w/dots", &Some(s("/home/u")));
    match v {
        LinkVerdict::Found(d) => {
            assert_eq!(d, DotFile { source: s("vimrc"), target: s("~/.vimrc"), dot_file_type: DotFileType::LINK });
        }
        other => panic!("unexpected {:?}", other),
    }
}

#[test]
fn link_without_home_keeps_its_path() {
    let v = examine_link(&link("/home/u/.vimrc", Some("/w/dots/vimrc")), "/w/dots", &None);
    match v {
        LinkVerdict::Found(d) => assert_eq!(d.target, "/home/u/.vimrc"),
        other => panic!("unexpected {:?}", other),
    }
}

#[test]
fn broken_and_foreign_links_are_skipped() {
    let home = Some(s("/home/u"));
    assert!(matches!(examine_link(&link("/w/dots/dead", None), "/w/dots", &home), LinkVerdict::Broken));
    assert!(matches!(examine_link(&link("/w/dots/etc", Some("/etc/hosts")), "/w/dots", &home), LinkVerdict::Outside));
    assert!(matches!(examine_link(&link("/w/dots/me", Some("/w/dots")), "/w/dots", &home), LinkVerdict::Outside));
}

#[test]
fn scan_keeps_order_and_only_found() {
    let links = vec![
        link("/home/u/.vimrc", Some("/w/dots/vimrc")),
        link("/home/u/.dead", None),
        link("/home/u/.tmux.conf", Some("/w/dots/tmux.conf")),
        link("/home/u/.hosts", Some("/etc/hosts")),
    ];
    let verdicts = get_dot_files_with_home(&links, "/w/dots", &Some(s("/home/u")));
    assert_eq!(verdicts.len(), 4);
    let found = dot_files_found(&verdicts);
    assert_eq!(
        found,
        vec![
            DotFile { source: s("vimrc"), target: s("~/.vimrc"), dot_file_type: DotFileType::LINK },
            DotFile { source: s("tmux.conf"), target: s("~/.tmux.conf"), dot_file_type: DotFileType::LINK },
        ]
    );
}

#[test]
fn import_then_merge_gives_back_the_declarations() {
    let declared = vec![
        DotFile { source: s("vimrc"), target: s("~/.vimrc"), dot_file_type: DotFileType::LINK },
        DotFile { source: s("tmux.conf"), target: s("~/.tmux.conf"), dot_file_type: DotFileType::LINK },
    ];
    let home = Some(s("/home/u"));
    let links: Vec<LinkEntry> = declared
        .iter()
        .map(|d| {
            let resolved = resolve_with_home(d, &home);
            LinkEntry { path: resolved.target, canonical: Some(format!("/w/dots/{}", d.source)) }
        })
        .collect();
    let found = dot_files_found(&get_dot_files_with_home(&links, "/w/dots", &home));
    assert_eq!(found, declared);
    let merged: Vec<FileEntry<()>> = add_dotfiles_to_files(Vec::new(), &found);
    assert_eq!(
        merged,
        vec![
            FileEntry {
                key: Some(s("~/.vimrc")),
                setting: FileSetting::Declared { source: s("vimrc"), dot_file_type: DotFileType::LINK },
            },
            FileEntry {
                key: Some(s("~/.tmux.conf")),
                setting: FileSetting::Declared { source: s("tmux.conf"), dot_file_type: DotFileType::LINK },
            },
        ]
    );
}

#[test]
fn target_outside_home_imports_as_its_path() {
    let v = examine_link(&link("/etc/app.conf", Some("/w/dots/app.conf")), "/w/dots", &Some(s("/home/u")));
    match v {
        LinkVerdict::Found(d) => {
            assert_eq!(d, DotFile { source: s("app.conf"), target: s("/etc/app.conf"), dot_file_type: DotFileType::LINK });
        }
        other => panic!("unexpected {:?}", other),
    }
}

#[test]
fn root_directory_owns_every_link() {
    let v = examine_link(&link("/home/u/.hosts", Some("/etc/hosts")), "/", &Some(s("/home/u")));
    match v {
        LinkVerdict::Found(d) => {
            assert_eq!(d, DotFile { source: s("etc/hosts"), target: s("~/.hosts"), dot_file_type: DotFileType::LINK });
        }
        other => panic!("unexpected {:?}", other),
    }
}
