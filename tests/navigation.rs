use luru::pathmanager::{convert_path_to_nav, normalize_path, resolve_path, NavigationCommand, PathError};

fn home() -> Option<String> {
    Some("/home/u".to_string())
}

#[test]
fn classify_up_levels_count_dots() {
    assert_eq!(convert_path_to_nav(".."), NavigationCommand::Up(1));
    assert_eq!(convert_path_to_nav("..."), NavigationCommand::Up(2));
    assert_eq!(convert_path_to_nav("../a"), NavigationCommand::Up(1));
}

#[test]
fn classify_special_words() {
    assert_eq!(convert_path_to_nav("."), NavigationCommand::WorkingDirectory);
    assert_eq!(convert_path_to_nav("/"), NavigationCommand::Root);
    assert_eq!(convert_path_to_nav("~"), NavigationCommand::Home);
    assert_eq!(convert_path_to_nav("$HOME"), NavigationCommand::Home);
}

#[test]
fn classify_absolute_and_relative() {
    assert_eq!(convert_path_to_nav("/etc/x"), NavigationCommand::Absolute("/etc/x".to_string()));
    assert_eq!(convert_path_to_nav("docs"), NavigationCommand::Relative("docs".to_string()));
    assert_eq!(convert_path_to_nav("~/docs"), NavigationCommand::Relative("~/docs".to_string()));
    assert_eq!(convert_path_to_nav(""), NavigationCommand::Relative(String::new()));
}

#[test]
fn normalize_examples() {
    assert_eq!(normalize_path("/a/b/../c"), "/a/c");
    assert_eq!(normalize_path("/a//./b/"), "/a/b");
    assert_eq!(normalize_path("/../.."), "/");
    assert_eq!(normalize_path("a/../../b"), "b");
    assert_eq!(normalize_path(""), "");
    assert_eq!(normalize_path("./x"), "x");
}

#[test]
fn normalize_twice_is_normalize_once() {
    for p in ["/a/b/../c/./d//", "x/../../y/z", "/", "", "..", "/a/.."] {
        let once = normalize_path(p);
        assert_eq!(normalize_path(&once), once);
    }
}

#[test]
fn up_past_root_gives_root() {
    let r = resolve_path("/a/b", &NavigationCommand::Up(5), &None, &None);
    assert_eq!(r, Ok("/".to_string()));
    let r = resolve_path("/", &NavigationCommand::Up(0), &None, &None);
    assert_eq!(r, Ok("/".to_string()));
}

#[test]
fn up_walks_parents() {
    let r = resolve_path("/a/b/c", &NavigationCommand::Up(2), &None, &None);
    assert_eq!(r, Ok("/a".to_string()));
    let r = resolve_path("/a/b/c/", &NavigationCommand::Up(1), &None, &None);
    assert_eq!(r, Ok("/a/b".to_string()));
}

#[test]
fn resolve_home_and_missing_home() {
    assert_eq!(resolve_path("/x", &NavigationCommand::Home, &home(), &None), Ok("/home/u".to_string()));
    assert_eq!(
        resolve_path("/x", &NavigationCommand::Home, &None, &None),
        Err(PathError::HomeNotFound)
    );
    assert_eq!(
        resolve_path("/x", &NavigationCommand::Relative("~/d".to_string()), &None, &None),
        Err(PathError::HomeNotFound)
    );
}

#[test]
fn resolve_relative_with_tilde() {
    let r = resolve_path("/x", &NavigationCommand::Relative("~/d/../e".to_string()), &home(), &None);
    assert_eq!(r, Ok("/home/u/e".to_string()));
    let r = resolve_path("/x", &NavigationCommand::Relative("~".to_string()), &home(), &None);
    assert_eq!(r, Ok("/home/u".to_string()));
}

#[test]
fn resolve_relative_joins_current() {
    let r = resolve_path("/home/u", &NavigationCommand::Relative("a".to_string()), &None, &None);
    assert_eq!(r, Ok("/home/u/a".to_string()));
    let r = resolve_path("/home/u", &NavigationCommand::Relative("../v/./w".to_string()), &None, &None);
    assert_eq!(r, Ok("/home/v/w".to_string()));
}

#[test]
fn resolve_root_working_dir_absolute() {
    assert_eq!(resolve_path("/x", &NavigationCommand::Root, &None, &None), Ok("/".to_string()));
    assert_eq!(
        resolve_path("/x", &NavigationCommand::WorkingDirectory, &None, &Some("/w".to_string())),
        Ok("/w".to_string())
    );
    assert_eq!(
        resolve_path("/x", &NavigationCommand::WorkingDirectory, &None, &None),
        Ok("/".to_string())
    );
    assert_eq!(
        resolve_path("/x", &NavigationCommand::Absolute("/a/../b".to_string()), &None, &None),
        Ok("/a/../b".to_string())
    );
}

#[test]
fn resolved_absolute_path_round_trips() {
    let first = resolve_path("/home/u", &convert_path_to_nav("a/b"), &home(), &None).unwrap();
    assert_eq!(first, "/home/u/a/b");
    let again = resolve_path("/elsewhere", &convert_path_to_nav(&first), &home(), &None);
    assert_eq!(again, Ok(first));
    let root = resolve_path("/q", &convert_path_to_nav("/"), &None, &None).unwrap();
    assert_eq!(resolve_path("/z", &convert_path_to_nav(&root), &None, &None), Ok(root));
}
