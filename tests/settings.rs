use luru::config::Config;

#[test]
fn new_config_paths_and_defaults() {
    let c = Config::new("/tmp/");
    assert_eq!(c.config_file_path, "/tmp/luru");
    assert_eq!(c.history_path, "/tmp/luru-cmd.log");
    assert_eq!(c.working_path, "/");
    assert!(c.hide_hidden_file);
    assert!(c.bookmark.is_empty());
}

#[test]
fn load_settings_file() {
    let mut c = Config::new("/tmp");
    c.load("WORKING_PATH=/w\nHIDE_HIDDEN_FILE=false\nBOOKMARK=/x;/y\nOTHER=1", "/cwd");
    assert_eq!(c.working_path, "/w");
    assert!(!c.hide_hidden_file);
    assert_eq!(c.bookmark, vec!["/x".to_string(), "/y".to_string()]);
    c.load("WORKING_PATH=\nHIDE_HIDDEN_FILE=yes\nBOOKMARK=", "/cwd");
    assert_eq!(c.working_path, "/cwd");
    assert!(!c.hide_hidden_file);
    assert!(c.bookmark.is_empty());
    c.load("HIDE_HIDDEN_FILE=true", "/cwd");
    assert!(c.hide_hidden_file);
    assert_eq!(c.working_path, "/cwd");
}

#[test]
fn missing_working_path_defaults_to_current_dir() {
    let mut c = Config::new("/tmp");
    c.load("", "/here");
    assert_eq!(c.working_path, "/here");
    assert!(c.hide_hidden_file);
    assert!(c.bookmark.is_empty());
}

#[test]
fn load_history_skips_empty_lines() {
    let mut c = Config::new("/tmp");
    c.load_history("ls\n\npwd\n");
    assert_eq!(c.command_history, vec!["ls".to_string(), "pwd".to_string()]);
    c.load_history("");
    assert_eq!(c.command_history.len(), 2);
}

#[test]
fn saved_text_reads_back() {
    let mut c = Config::new("/tmp");
    c.set_working_path("/home/u");
    c.hide_hidden_file = false;
    c.bookmark = vec!["/a".to_string(), "/b".to_string()];
    c.command_history = vec!["ls".to_string(), "pwd".to_string()];
    let text = c.config_content();
    assert_eq!(text, "WORKING_PATH=/home/u\nHIDE_HIDDEN_FILE=false\nBOOKMARK=/a;/b");
    assert_eq!(c.history_content(), "ls\npwd");
    let mut d = Config::new("/tmp");
    d.load(&text, "/");
    assert_eq!(d.working_path, "/home/u");
    assert!(!d.hide_hidden_file);
    assert_eq!(d.bookmark, c.bookmark);
}
