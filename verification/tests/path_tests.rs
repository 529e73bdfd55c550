use images_manager::error::ErrorKind;
use images_manager::path::{
    base_name, extension_of, is_hidden, parent_dir, to_absolute, to_relative,
};

#[test]
fn absolute_path_joins_with_one_slash() {
    assert_eq!(to_absolute("/ws", "a/x.png"), "/ws/a/x.png");
    assert_eq!(to_absolute("/ws/", "a/x.png"), "/ws/a/x.png");
    assert_eq!(to_absolute("C:\\ws\\", "a/x.png"), "C:\\ws\\a/x.png");
    assert_eq!(to_absolute("/ws", ""), "/ws/");
}

#[test]
fn absolute_path_of_an_empty_root_is_the_relative_path() {
    assert_eq!(to_absolute("", "a/x.png"), "a/x.png");
    assert_eq!(to_absolute("", ""), "");
}

#[test]
fn absolute_relative_part_stands_alone() {
    assert_eq!(to_absolute("/ws", "/etc/x.png"), "/etc/x.png");
    assert_eq!(to_absolute("/ws", "\\x.png"), "\\x.png");
}

#[test]
fn relative_path_strips_the_root() {
    assert_eq!(to_relative("/ws", "/ws/a/x.png").unwrap(), "a/x.png");
    assert_eq!(to_relative("/ws/", "/ws/x.png").unwrap(), "x.png");
    assert_eq!(to_relative("/ws", "/ws").unwrap(), "");
    assert_eq!(to_relative("", "a/x.png").unwrap(), "a/x.png");
    assert_eq!(to_relative("ws", "ws/a/b/c.gif").unwrap(), "a/b/c.gif");
}

#[test]
fn relative_path_is_rendered_with_slashes_only() {
    assert_eq!(to_relative("C:\\ws", "C:\\ws\\a\\x.png").unwrap(), "a/x.png");
    assert_eq!(to_relative("/ws", "/ws//a///x.png/").unwrap(), "a/x.png");
    assert_eq!(to_relative("/ws", "/ws/a\\b/x.png").unwrap(), "a/b/x.png");
}

#[test]
fn relative_path_outside_the_root_is_invalid() {
    let err = to_relative("/ws", "/other/x.png").unwrap_err();
    assert_eq!(err.kind, ErrorKind::InvalidPath);
    assert_eq!(err.message, "Failed to get relative path: prefix not found");
    assert_eq!(err.path, "/other/x.png");
    assert_eq!(err.to_text(), "Failed to get relative path: prefix not found");
}

#[test]
fn relative_path_compares_whole_segments() {
    assert_eq!(to_relative("/ws", "/wsx/a.png").unwrap_err().kind, ErrorKind::InvalidPath);
    assert_eq!(to_relative("/ws/a", "/ws").unwrap_err().kind, ErrorKind::InvalidPath);
    assert_eq!(to_relative("/ws", "ws/a.png").unwrap_err().kind, ErrorKind::InvalidPath);
    assert_eq!(to_relative("ws", "/ws/a.png").unwrap_err().kind, ErrorKind::InvalidPath);
}

#[test]
fn round_trip_returns_the_relative_path() {
    let roots = ["/ws", "/ws/", "", "ws", "C:\\ws", "/home/u/My Pictures", "/"];
    let relatives = ["x.png", "a/x.png", "a/b/c/d.jpeg", "a b/c d.gif", ".hidden/x.png", ""];
    for root in roots {
        for relative in relatives {
            let absolute = to_absolute(root, relative);
            assert_eq!(to_relative(root, &absolute).unwrap(), relative, "root {:?}", root);
        }
    }
}

#[test]
fn parent_is_the_path_without_its_last_segment() {
    assert_eq!(parent_dir("/ws/a/x.png"), Some("/ws/a".to_string()));
    assert_eq!(parent_dir("/ws/a/x.png/"), Some("/ws/a".to_string()));
    assert_eq!(parent_dir("/ws/a//x.png"), Some("/ws/a".to_string()));
    assert_eq!(parent_dir("C:\\ws\\x.png"), Some("C:\\ws".to_string()));
    assert_eq!(parent_dir("a/x.png"), Some("a".to_string()));
}

#[test]
fn parent_of_a_bare_name_is_empty() {
    assert_eq!(parent_dir("x.png"), Some(String::new()));
}

#[test]
fn parent_of_a_name_under_the_root_is_the_root() {
    assert_eq!(parent_dir("/x.png"), Some("/".to_string()));
    assert_eq!(parent_dir("//x.png"), Some("/".to_string()));
    assert_eq!(parent_dir("\\x.png"), Some("\\".to_string()));
}

#[test]
fn paths_without_segments_have_no_parent() {
    assert_eq!(parent_dir(""), None);
    assert_eq!(parent_dir("/"), None);
    assert_eq!(parent_dir("//"), None);
}

#[test]
fn base_name_is_the_last_segment() {
    assert_eq!(base_name("/ws/a/x.png"), Some("x.png".to_string()));
    assert_eq!(base_name("/home/u/pics/"), Some("pics".to_string()));
    assert_eq!(base_name("C:\\Users\\u\\pics"), Some("pics".to_string()));
    assert_eq!(base_name("pics"), Some("pics".to_string()));
}

#[test]
fn dots_and_empty_paths_name_nothing() {
    assert_eq!(base_name(""), None);
    assert_eq!(base_name("/"), None);
    assert_eq!(base_name("."), None);
    assert_eq!(base_name("/ws/.."), None);
    assert_eq!(base_name("..."), Some("...".to_string()));
    assert_eq!(base_name("./."), None);
    assert_eq!(base_name("/."), None);
    assert_eq!(base_name("Pictures/../."), None);
}

#[test]
fn a_dot_at_the_end_is_passed_over() {
    assert_eq!(base_name("Pictures/."), Some("Pictures".to_string()));
    assert_eq!(base_name("/home/u/Pictures/./."), Some("Pictures".to_string()));
    assert_eq!(base_name("/home/u/Pictures/.//"), Some("Pictures".to_string()));
    assert_eq!(base_name("./Pictures"), Some("Pictures".to_string()));
    assert_eq!(extension_of("/ws/x.png/."), Some("png".to_string()));
    assert_eq!(parent_dir("/ws/a/."), Some("/ws".to_string()));
    assert_eq!(parent_dir("/ws/a/./"), Some("/ws".to_string()));
    assert_eq!(parent_dir("/ws/./a"), Some("/ws".to_string()));
    assert_eq!(parent_dir("a/."), Some(String::new()));
    assert_eq!(parent_dir("/."), None);
    assert_eq!(parent_dir("/./x"), Some("/".to_string()));
}

#[test]
fn a_dot_in_front_is_a_directory_of_its_own() {
    assert_eq!(parent_dir("./x"), Some(".".to_string()));
    assert_eq!(parent_dir("."), Some(String::new()));
    assert_eq!(parent_dir("./."), Some(String::new()));
    assert_eq!(parent_dir(".."), Some(String::new()));
    assert_eq!(parent_dir("/ws/a/.."), Some("/ws/a".to_string()));
}

#[test]
fn extension_follows_the_last_dot() {
    assert_eq!(extension_of("/ws/a/x.png"), Some("png".to_string()));
    assert_eq!(extension_of("x.tar.GZ"), Some("GZ".to_string()));
    assert_eq!(extension_of("x."), Some(String::new()));
    assert_eq!(extension_of("/ws/a.b/x"), None);
    assert_eq!(extension_of("x"), None);
}

#[test]
fn a_leading_dot_starts_no_extension() {
    assert_eq!(extension_of(".png"), None);
    assert_eq!(extension_of("/ws/.gitignore"), None);
    assert_eq!(extension_of(".a.png"), Some("png".to_string()));
}

#[test]
fn hidden_means_some_segment_begins_with_a_dot() {
    assert!(is_hidden("/ws/.im_settings/workspace.db"));
    assert!(is_hidden("/ws/a/.b/c/x.png"));
    assert!(is_hidden("/ws/a/.x.png"));
    assert!(is_hidden(".ws/x.png"));
    assert!(is_hidden("./ws/x.png"));
    assert!(is_hidden("C:\\ws\\.cache\\x.png"));
    assert!(!is_hidden("/ws/a/x.png"));
    assert!(!is_hidden("/ws/a.b/x.y.png"));
    assert!(!is_hidden(""));
}
