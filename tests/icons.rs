use launcher_shell::icons::{has_suffix, is_icon_file, user_icon_names, ICON_DIR_NAME};

#[test]
fn svg_names_are_icons() {
    assert!(is_icon_file("terminal.svg"));
    assert!(is_icon_file(".svg"));
    assert!(!is_icon_file("terminal.png"));
    assert!(!is_icon_file("terminal.SVG"));
    assert!(!is_icon_file("svg"));
    assert!(!is_icon_file("a.svg.bak"));
    assert!(!is_icon_file(""));
}

#[test]
fn suffix_check() {
    assert!(has_suffix("abc", ""));
    assert!(has_suffix("abc", "bc"));
    assert!(has_suffix("äbc", "äbc"));
    assert!(!has_suffix("bc", "abc"));
    assert!(!has_suffix("abc", "ab"));
}

#[test]
fn icon_list_keeps_order_and_drops_others() {
    let names: Vec<String> = vec![
        "b.svg".to_string(),
        "readme.txt".to_string(),
        "a.svg".to_string(),
        "c.png".to_string(),
        "b.svg".to_string(),
    ];
    assert_eq!(
        user_icon_names(&names),
        vec!["b.svg".to_string(), "a.svg".to_string(), "b.svg".to_string()]
    );
}

#[test]
fn empty_icon_directory() {
    assert_eq!(user_icon_names(&Vec::new()), Vec::<String>::new());
    let none: Vec<String> = vec!["x.png".to_string()];
    assert_eq!(user_icon_names(&none), Vec::<String>::new());
}

#[test]
fn icon_directory_name() {
    assert_eq!(ICON_DIR_NAME, "icons");
}
