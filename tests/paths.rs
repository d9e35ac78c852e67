use dotcopter::errors::DotcopterError;
use dotcopter::paths::{
    expand_home, has_prefix, link_points_into_dir, link_target_to_relative_path, replace_path_with_tilde,
};

#[test]
fn test_replace_path_with_tilde() {
    let replaced_string =
        replace_path_with_tilde("/home/blubb/moep/home/blubb/test.txt", "/home/blubb").expect("should succeed");
    assert_eq!(replaced_string, "~/moep/home/blubb/test.txt".to_string());
}

#[test]
fn tilde_only_replaces_a_leading_home() {
    assert_eq!(replace_path_with_tilde("/srv/home/blubb/x", "/home/blubb").unwrap(), "/srv/home/blubb/x");
    assert_eq!(replace_path_with_tilde("/home/blubb", "/home/blubb").unwrap(), "~");
}

#[test]
fn tilde_matches_home_literally() {
    // a home path holding pattern characters is matched as plain text
    assert_eq!(replace_path_with_tilde("/home/a.b/x", "/home/a.b").unwrap(), "~/x");
    assert_eq!(replace_path_with_tilde("/home/aXb/x", "/home/a.b").unwrap(), "/home/aXb/x");
}

#[test]
fn home_shorthand_is_expanded() {
    assert_eq!(expand_home("~/.vimrc", "/home/u"), "/home/u/.vimrc");
    assert_eq!(expand_home("~", "/home/u"), "/home/u");
    assert_eq!(expand_home("/etc/~x", "/home/u"), "/etc/~x");
    assert_eq!(expand_home("", "/home/u"), "");
    assert_eq!(expand_home("vimrc", "/home/u"), "vimrc");
}

#[test]
fn prefix_test() {
    assert!(has_prefix("/home/u", "/home"));
    assert!(has_prefix("abc", ""));
    assert!(!has_prefix("/ho", "/home"));
    assert!(!has_prefix("/house", "/home"));
}

#[test]
fn containment_is_by_component() {
    assert!(link_points_into_dir("/a/b/c", "/a/b"));
    assert!(link_points_into_dir("/a/b", "/a/b"));
    assert!(!link_points_into_dir("/a/bc", "/a/b"));
    assert!(!link_points_into_dir("/x/y", "/a/b"));
    assert!(link_points_into_dir("/etc", "/"));
}

#[test]
fn relative_path_inside_directory() {
    assert_eq!(link_target_to_relative_path("/w/dots/vimrc", "/w/dots").unwrap(), "vimrc");
    assert_eq!(link_target_to_relative_path("/w/dots/tmux/conf", "/w/dots").unwrap(), "tmux/conf");
    assert_eq!(link_target_to_relative_path("/w/dots", "/w/dots").unwrap(), "");
    assert_eq!(link_target_to_relative_path("/etc/hosts", "/").unwrap(), "etc/hosts");
}

#[test]
fn relative_path_outside_directory_fails() {
    match link_target_to_relative_path("/w/dotsx/vimrc", "/w/dots") {
        Err(DotcopterError::StripPrefix { path, base }) => {
            assert_eq!(path, "/w/dotsx/vimrc");
            assert_eq!(base, "/w/dots");
        }
        other => panic!("unexpected {:?}", other),
    }
}
