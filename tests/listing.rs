use luru::filemanager::{arrange_entries, entry_for, fallback_entries, read_dir, DirChild};
use luru::pathmanager::NavigationCommand;

fn child(name: &str, is_dir: bool) -> DirChild {
    DirChild { name: name.to_string(), is_dir }
}

fn labels(v: &[luru::filemanager::ReadDirItems]) -> Vec<String> {
    v.iter().map(|e| e.label.clone()).collect()
}

#[test]
fn scan_orders_directories_first() {
    let children = vec![child("b.txt", false), child("a", true)];
    let items = read_dir("/home/u", &children, false);
    let listing = arrange_entries("/home/u", items);
    assert_eq!(labels(&listing), vec!["../", "a/", "b.txt"]);
}

#[test]
fn scan_sorts_each_kind_by_label() {
    let children = vec![
        child("zeta", true),
        child("b.rs", false),
        child("Alpha", true),
        child("a.rs", false),
        child("mid", true),
    ];
    let listing = arrange_entries("/r", read_dir("/r", &children, false));
    assert_eq!(labels(&listing), vec!["../", "Alpha/", "mid/", "zeta/", "a.rs", "b.rs"]);
}

#[test]
fn scan_at_root_has_no_parent_line() {
    let children = vec![child("etc", true), child("x", false)];
    let listing = arrange_entries("/", read_dir("/", &children, false));
    assert_eq!(labels(&listing), vec!["etc/", "x"]);
}

#[test]
fn scan_hides_dot_files_when_asked() {
    let children = vec![child(".git", true), child(".rc", false), child("src", true)];
    let hidden = read_dir("/p", &children, true);
    assert_eq!(labels(&hidden), vec!["src/"]);
    let shown = read_dir("/p", &children, false);
    assert_eq!(labels(&shown), vec![".git/", ".rc", "src/"]);
}

#[test]
fn entry_leads_to_its_own_path() {
    let e = entry_for("/home/u", &child("a", true));
    assert_eq!(e.path, "/home/u/a");
    assert_eq!(e.label, "a/");
    assert_eq!(e.file_name, "a");
    assert!(e.is_dir);
    assert_eq!(e.navigation_type, NavigationCommand::Absolute("/home/u/a".to_string()));
    let f = entry_for("/home/u", &child("b.txt", false));
    assert_eq!(f.label, "b.txt");
    assert!(!f.is_dir);
}

#[test]
fn parent_line_climbs_one_level() {
    let listing = arrange_entries("/home/u", Vec::new());
    assert_eq!(listing.len(), 1);
    assert_eq!(listing[0].label, "../");
    assert_eq!(listing[0].navigation_type, NavigationCommand::Up(1));
}

#[test]
fn fallback_points_back() {
    let f = fallback_entries("/last");
    assert_eq!(f.len(), 1);
    assert_eq!(f[0].path, "/last");
    assert_eq!(f[0].label, "/last");
    assert_eq!(f[0].file_name, "/");
    assert_eq!(f[0].navigation_type, NavigationCommand::Absolute("/last".to_string()));
}
