use luru::config::{add_bookmark, push_to_history, remove_bookmark, Config};
use luru::filemanager::{DirChild, MetadataInfo};
use luru::session::{
    decimal_text, parse_command, App, AppMode, Command, Effect, InputEvent, Key, KeyInput, ScanError,
};
use luru::suggest::suggest_completion;
use luru::termin::Termin;

fn s(v: &[&str]) -> Vec<String> {
    v.iter().map(|x| x.to_string()).collect()
}

fn key(code: Key) -> KeyInput {
    KeyInput { code, ctrl: false, shift: false }
}

fn ctrl(c: char) -> KeyInput {
    KeyInput { code: Key::Char(c), ctrl: true, shift: false }
}

fn app_at(path: &str) -> App {
    let config = Config::new("/tmp");
    App::new(path, config, true, Some("/home/u".to_string()), None)
}

fn typed(app: &mut App, text: &str) {
    for c in text.chars() {
        app.key_event_handler(key(Key::Char(c)));
    }
}

fn scan(app: &mut App, children: Vec<DirChild>) {
    app.refresh(Some(Ok(children)));
}

#[test]
fn cd_into_subdirectory() {
    let mut app = app_at("/home/u");
    scan(&mut app, vec![DirChild { name: "a".to_string(), is_dir: true }]);
    assert!(!app.re_read);
    typed(&mut app, "cd a");
    let e = app.key_event_handler(key(Key::Enter));
    assert_eq!(e, Effect::Nothing);
    assert_eq!(app.current_path, "/home/u/a");
    assert!(app.re_read);
    assert_eq!(app.command, "");
    assert_eq!(app.x_cursor, 0);
    assert_eq!(app.command_history[0], "cd a");
}

#[test]
fn suggestion_completes_entry_name() {
    let names = s(&["../", "bin", "etc"]);
    assert_eq!(suggest_completion("b", true, &names, &Vec::new()), "in");
    let mut app = app_at("/");
    scan(
        &mut app,
        vec![
            DirChild { name: "bin".to_string(), is_dir: true },
            DirChild { name: "etc".to_string(), is_dir: true },
        ],
    );
    typed(&mut app, "b");
    app.find_sugest();
    assert_eq!(app.sugest, "in");
    app.key_event_handler(key(Key::Tab));
    assert_eq!(app.command, "bin");
    assert_eq!(app.x_cursor, 3);
}

#[test]
fn suggestion_rules() {
    let names = s(&["../", "bin", "binary"]);
    let history = s(&["ls -la", "cd /tmp"]);
    assert_eq!(suggest_completion("cd ./bi", true, &names, &history), "n");
    assert_eq!(suggest_completion("cd /bin", true, &names, &history), "ary");
    assert_eq!(suggest_completion("ls", true, &names, &history), " -la");
    assert_eq!(suggest_completion("ls", false, &names, &history), "");
    assert_eq!(suggest_completion("", true, &names, &history), "");
    assert_eq!(suggest_completion("cd ", true, &names, &history), "");
    assert_eq!(suggest_completion("zz", true, &names, &history), "");
}

#[test]
fn bookmark_add_is_deduplicated() {
    let mut marks = s(&["/x", "/y"]);
    add_bookmark(&mut marks, "/x");
    assert_eq!(marks, s(&["/x", "/y"]));
    add_bookmark(&mut marks, "/z");
    assert_eq!(marks, s(&["/x", "/y", "/z"]));
    remove_bookmark(&mut marks, "/y");
    assert_eq!(marks, s(&["/x", "/z"]));
}

#[test]
fn bookmark_add_command_from_session() {
    let mut app = app_at("/x");
    app.config.bookmark = s(&["/x", "/y"]);
    typed(&mut app, ":ba");
    let e = app.key_event_handler(key(Key::Enter));
    assert_eq!(e, Effect::Notify("\x1b[1m\x1b[035m/x\x1b[0m has added to bookmark".to_string()));
    assert_eq!(app.config.bookmark, s(&["/x", "/y"]));
}

#[test]
fn history_keeps_one_copy_first() {
    let mut h = s(&["pwd", "ls -la", "make"]);
    push_to_history(&mut h, "ls -la");
    push_to_history(&mut h, "ls -la");
    assert_eq!(h, s(&["ls -la", "pwd", "make"]));
    push_to_history(&mut h, "");
    assert_eq!(h, s(&["ls -la", "pwd", "make"]));
}

#[test]
fn history_records_trimmed_command() {
    let mut app = app_at("/");
    app.set_command("  ls -la  ".to_string());
    app.push_cmd_to_history();
    app.set_command("ls -la".to_string());
    app.push_cmd_to_history();
    assert_eq!(app.command_history, s(&["ls -la"]));
}

#[test]
fn parse_builtin_commands() {
    assert_eq!(parse_command("exit"), Command::Exit);
    assert_eq!(parse_command(":q"), Command::Exit);
    assert_eq!(parse_command(":hf"), Command::ToggleHidden);
    assert_eq!(parse_command(":toggle_hidden_file"), Command::ToggleHidden);
    assert_eq!(parse_command(":terminal"), Command::Terminal);
    assert_eq!(parse_command(":bookmark add"), Command::BookmarkAdd);
    assert_eq!(parse_command(":b"), Command::BookmarkList);
    assert_eq!(parse_command("back"), Command::Back);
    assert_eq!(parse_command("sudo luru x"), Command::SelfCall);
    assert_eq!(parse_command(""), Command::Open);
    assert_eq!(parse_command("open"), Command::Open);
    assert_eq!(parse_command("cd x"), Command::Cd);
    assert_eq!(parse_command(":nf f.txt"), Command::NewFile);
    assert_eq!(parse_command("ls -la"), Command::Shell);
    assert_eq!(parse_command("cd"), Command::Shell);
}

#[test]
fn exit_quits_only_from_browsing() {
    let mut app = app_at("/");
    app.set_command("exit".to_string());
    app.command_handler();
    assert!(app.quit);
    let mut app = app_at("/");
    app.app_mode = AppMode::TerminalOnly;
    app.set_command(" quit ".to_string());
    app.command_handler();
    assert!(!app.quit);
    assert_eq!(app.app_mode, AppMode::Normal);
}

#[test]
fn back_and_toggle_and_new_file() {
    let mut app = app_at("/a/b");
    app.set_command("back".to_string());
    app.command_handler();
    assert_eq!(app.current_path, "/a");
    let hide = app.config.hide_hidden_file;
    app.set_command(":hf".to_string());
    app.command_handler();
    assert_eq!(app.config.hide_hidden_file, !hide);
    app.set_command(":nf new.txt extra".to_string());
    let e = app.command_handler();
    assert_eq!(e, Effect::CreateFile("/a/new.txt".to_string()));
    app.set_command("echo hi".to_string());
    let e = app.command_handler();
    assert_eq!(e, Effect::RunShell("echo hi".to_string()));
}

#[test]
fn cd_home_without_home_shows_error() {
    let config = Config::new("/tmp");
    let mut app = App::new("/w", config, true, None, None);
    app.set_command("cd ~".to_string());
    app.command_handler();
    assert_eq!(app.current_path, "/w");
    assert_eq!(app.notice, "\x1b[97m\x1b[41mHome directory not found\x1b[0m");
    app.decide_decs_label();
    assert_eq!(app.decs_label, "\x1b[97m\x1b[41mHome directory not found\x1b[0m");
    assert_eq!(app.notice, "");
}

#[test]
fn scan_error_falls_back() {
    let mut app = app_at("/nowhere");
    app.refresh(Some(Err(ScanError::PermissionDenied)));
    assert_eq!(app.content.len(), 1);
    assert_eq!(app.content[0].path, "/");
    assert_eq!(app.content_to_read, vec!["/".to_string()]);
    assert_eq!(app.notice, "\x1b[97m\x1b[41mgot an error! kind of:permission denied\x1b[0m");
    for (err, name) in [
        (ScanError::NotFound, "not found"),
        (ScanError::NotADirectory, "not a directory"),
        (ScanError::Other, "other error"),
    ] {
        let mut app = app_at("/q");
        app.do_a_scan(Err(err));
        assert_eq!(app.notice, format!("\x1b[97m\x1b[41mgot an error! kind of:{}\x1b[0m", name));
    }
}

#[test]
fn opening_entries() {
    let mut app = app_at("/home/u");
    scan(
        &mut app,
        vec![
            DirChild { name: "f.txt".to_string(), is_dir: false },
            DirChild { name: "d".to_string(), is_dir: true },
        ],
    );
    assert_eq!(app.app_ui.content_cursor, 1);
    assert_eq!(app.content_to_read, s(&["../", "d/", "f.txt"]));
    let e = app.open_dir();
    assert_eq!(e, Effect::Nothing);
    assert_eq!(app.current_path, "/home/u/d");
    app.app_ui.content_cursor = 2;
    let e = app.open_dir();
    assert_eq!(e, Effect::ShowMetadata("/home/u/f.txt".to_string()));
    app.show_metadata(&MetadataInfo {
        display_name: "f.txt".to_string(),
        size: 1024,
        modified: "17".to_string(),
    });
    assert_eq!(app.notice, "\x1b[34mfile: f.txt size: 1024 modified: 17\x1b[0m");
    app.app_ui.content_cursor = 0;
    app.open_dir();
    assert_eq!(app.current_path, "/home/u");
}

#[test]
fn picking_history_and_bookmarks() {
    let mut app = app_at("/");
    app.command_history = s(&["ls", "pwd"]);
    app.key_event_handler(ctrl('h'));
    assert_eq!(app.app_mode, AppMode::CommandHistory);
    app.refresh(None);
    assert_eq!(app.content_to_read, s(&["ls", "pwd"]));
    app.key_event_handler(key(Key::Down));
    let e = app.key_event_handler(key(Key::Enter));
    assert_eq!(e, Effect::Nothing);
    assert_eq!(app.command, "pwd");
    assert_eq!(app.x_cursor, 3);
    assert_eq!(app.app_mode, AppMode::Normal);
    app.config.bookmark = s(&["/x", "/y"]);
    app.key_event_handler(ctrl('b'));
    app.refresh(None);
    app.key_event_handler(key(Key::Tab));
    assert_eq!(app.command, "cd /x");
    app.key_event_handler(ctrl('b'));
    app.refresh(None);
    app.key_event_handler(key(Key::Delete));
    assert_eq!(app.config.bookmark, s(&["/y"]));
}

#[test]
fn editing_keys() {
    let mut app = app_at("/");
    typed(&mut app, "lz");
    app.key_event_handler(key(Key::Left));
    app.key_event_handler(key(Key::Backspace));
    typed(&mut app, "é");
    assert_eq!(app.command, "éz");
    app.key_event_handler(key(Key::Right));
    app.key_event_handler(key(Key::Right));
    assert_eq!(app.x_cursor, 2);
    app.key_event_handler(key(Key::Insert));
    assert!(app.is_ignore_exec);
    app.decide_decs_label();
    assert!(app.decs_label.starts_with("ignoring enter to exec"));
    app.key_event_handler(key(Key::Esc));
    assert_eq!(app.app_mode, AppMode::Normal);
    app.key_event_handler(ctrl('c'));
    assert!(app.quit);
}

#[test]
fn tab_appends_selected_entry() {
    let mut app = app_at("/home/u");
    scan(&mut app, vec![DirChild { name: "my dir".to_string(), is_dir: true }]);
    app.app_ui.content_cursor = 1;
    typed(&mut app, "cd ");
    app.key_event_handler(key(Key::Tab));
    assert_eq!(app.command, "cd \"./my dir\"");
    assert_eq!(app.x_cursor, 13);
}

#[test]
fn resize_asks_for_refresh() {
    let mut app = app_at("/");
    app.re_read = false;
    app.event_handler(InputEvent::Resize(90, 30));
    assert!(app.re_read);
    assert_eq!(app.app_ui.window_size, (90, 30));
}

#[test]
fn start_path_and_missing_start() {
    let mut config = Config::new("/tmp");
    config.working_path = "/saved".to_string();
    assert_eq!(App::start_path("", &config), "/saved");
    assert_eq!(App::start_path("/given", &config), "/given");
    let app = App::new("/gone", config, false, None, None);
    assert_eq!(app.current_path, "/");
    assert_eq!(app.decs_label, "\x1b[97m\x1b[41mcannot open /gone directing to /\x1b[37m");
}

#[test]
fn end_saves_place_and_history() {
    let mut app = app_at("/a");
    app.command_history = s(&["x"]);
    app.end();
    assert_eq!(app.config.working_path, "/a");
    assert_eq!(app.config.command_history, s(&["x"]));
}

#[test]
fn command_line_layout() {
    let mut app = app_at("/");
    app.app_ui.window_size = (8, 20);
    app.set_command("abcdefgh".to_string());
    let l = app.display_layout();
    assert_eq!(l.label, "defgh");
    assert_eq!(l.padding, 0);
    assert_eq!(l.cursor_x, 5);
    app.set_command("ab".to_string());
    let l = app.display_layout();
    assert_eq!(l.label, "ab");
    assert_eq!(l.padding, 3);
}

#[test]
fn shell_line_and_numbers() {
    let t = Termin::new();
    assert_eq!(t.command_line(""), None);
    assert_eq!(t.command_line("ls"), Some("ls".to_string()));
    assert_eq!(t.command_line("cd /x; ls"), Some("cd /x; ls".to_string()));
    assert_eq!(decimal_text(0), "0");
    assert_eq!(decimal_text(1234), "1234");
    assert_eq!(decimal_text(u64::MAX), u64::MAX.to_string());
}

#[test]
fn shell_mode_line_runs_verbatim_and_resets_edit() {
    let mut app = app_at("/");
    app.key_event_handler(ctrl('t'));
    assert_eq!(app.app_mode, AppMode::TerminalOnly);
    app.set_command(" ls -la".to_string());
    let e = app.command_handler();
    assert_eq!(e, Effect::RunShell(" ls -la".to_string()));
    assert_eq!(app.command, "");
    assert_eq!(app.x_cursor, 0);
    app.set_command("luru\n".to_string());
    app.command_handler();
    assert_eq!(app.app_mode, AppMode::Normal);
    app.after_shell("/tmp".to_string());
    assert_eq!(app.current_path, "/tmp");
    assert!(app.re_read);
}

#[test]
fn file_errors_are_reported_not_fatal() {
    let mut app = app_at("/home/u");
    app.report_error(ScanError::PermissionDenied);
    assert_eq!(app.notice, "\x1b[97m\x1b[41mgot an error! kind of:permission denied\x1b[0m");
    assert_eq!(app.current_path, "/home/u");
    assert!(!app.quit);
}
