use vstd::prelude::*;

use crate::config::{add_bookmark, push_to_history, remove_bookmark, with_bookmark, with_command, Config};
use crate::filemanager::{
    arrange_entries, fallback_entries, read_dir, DirChild, MetadataInfo, ReadDirItems,
};
use crate::pathmanager::{convert_path_to_nav, resolve, resolve_path, NavigationCommand, PathError};
use crate::suggest::{suggest_completion, suggestion};
use crate::termin::Termin;
use crate::text::{
    copy_all, has_prefix, has_visible_ends, lemma_split_nonempty, push_char, same_text, split_on, split_text,
    text_starts_with, trim_text, trimmed, views, without,
};
use crate::ui::UI;

verus! {

/// What the session is doing with typed input.
#[derive(PartialEq, Eq, Structural, Clone, Copy, Debug)]
pub enum AppMode {
    /// Browsing the current directory.
    Normal,
    /// Picking a line from the command history.
    CommandHistory,
    /// Running every line through the shell.
    TerminalOnly,
    /// Picking a bookmarked directory.
    Bookmark,
}

/// The built-in commands that a submitted line can name.
#[derive(PartialEq, Eq, Structural, Clone, Copy, Debug)]
pub enum Command {
    Exit,
    ToggleHidden,
    Terminal,
    BookmarkAdd,
    BookmarkList,
    Back,
    SelfCall,
    Open,
    Cd,
    NewFile,
    Shell,
}

/// Why a file-system request (a listing, a file's details, a new file)
/// failed.
#[derive(PartialEq, Eq, Structural, Clone, Copy, Debug)]
pub enum ScanError {
    NotFound,
    NotADirectory,
    PermissionDenied,
    Other,
}

/// What the session asks its surroundings to do after an input.
#[derive(Debug, PartialEq, Eq)]
pub enum Effect {
    Nothing,
    /// Show the size and modification time of this file.
    ShowMetadata(String),
    /// Run this line through the shell.
    RunShell(String),
    /// Show this message until the user acknowledges it.
    Notify(String),
    /// Create an empty file at this path.
    CreateFile(String),
}

/// How a trimmed line reads as a command. `:b` opens the bookmarks; `back`
/// alone goes to the parent directory.
pub open spec fn parse(t: Seq<char>) -> Command {
    if t == "exit"@ || t == "quit"@ || t == ":q"@ {
        Command::Exit
    } else if t == ":toggle_hidden_file"@ || t == ":hf"@ {
        Command::ToggleHidden
    } else if t == ":t"@ || t == ":terminal"@ {
        Command::Terminal
    } else if t == ":bookmark add"@ || t == ":ba"@ {
        Command::BookmarkAdd
    } else if t == ":bookmark"@ || t == ":b"@ {
        Command::BookmarkList
    } else if t == "back"@ {
        Command::Back
    } else if has_prefix(t, "luru"@) || has_prefix(t, "sudo luru"@) {
        Command::SelfCall
    } else if t.len() == 0 || t == ":o"@ || t == "open"@ {
        Command::Open
    } else if has_prefix(t, "cd "@) {
        Command::Cd
    } else if has_prefix(t, ":nf "@) {
        Command::NewFile
    } else {
        Command::Shell
    }
}

/// The path expression of a `cd` line: everything after `cd `.
pub open spec fn cd_arg(t: Seq<char>) -> Seq<char> {
    t.subrange(3, t.len() as int)
}

/// The path expression of a `:nf` line: the word after `:nf `.
pub open spec fn nf_arg(t: Seq<char>) -> Seq<char> {
    split_on(t.subrange(4, t.len() as int), ' ')[0]
}

/// Reads a trimmed line as a command.
pub fn parse_command(t: &str) -> (r: Command)
    ensures
        r == parse(t@),
{
    if same_text(t, "exit") || same_text(t, "quit") || same_text(t, ":q") {
        Command::Exit
    } else if same_text(t, ":toggle_hidden_file") || same_text(t, ":hf") {
        Command::ToggleHidden
    } else if same_text(t, ":t") || same_text(t, ":terminal") {
        Command::Terminal
    } else if same_text(t, ":bookmark add") || same_text(t, ":ba") {
        Command::BookmarkAdd
    } else if same_text(t, ":bookmark") || same_text(t, ":b") {
        Command::BookmarkList
    } else if same_text(t, "back") {
        Command::Back
    } else if text_starts_with(t, "luru") || text_starts_with(t, "sudo luru") {
        Command::SelfCall
    } else if t.unicode_len() == 0 || same_text(t, ":o") || same_text(t, "open") {
        Command::Open
    } else if text_starts_with(t, "cd ") {
        Command::Cd
    } else if text_starts_with(t, ":nf ") {
        Command::NewFile
    } else {
        Command::Shell
    }
}

pub open spec fn help_label() -> Seq<char> {
    "\x1b[1m\x1b[035m^c\x1b[0m exit \x1b[1m\x1b[035m^t\x1b[0m terminal only \x1b[1m\x1b[035m^h\x1b[0m command historys"@
}

pub open spec fn picker_label() -> Seq<char> {
    "\x1b[1m\x1b[035m^c\x1b[0m exit \x1b[1m\x1b[035mEsc\x1b[0m back"@
}

pub open spec fn exit_label() -> Seq<char> {
    "Exit from application"@
}

pub open spec fn ignore_label() -> Seq<char> {
    "ignoring enter to exec, press \x1b[1m\x1b[035minsert\x1b[0m again to disable"@
}

pub open spec fn path_error_text(e: PathError) -> Seq<char> {
    match e {
        PathError::HomeNotFound => "\x1b[97m\x1b[41mHome directory not found\x1b[0m"@,
    }
}

pub open spec fn scan_error_name(e: ScanError) -> Seq<char> {
    match e {
        ScanError::NotFound => "not found"@,
        ScanError::NotADirectory => "not a directory"@,
        ScanError::PermissionDenied => "permission denied"@,
        ScanError::Other => "other error"@,
    }
}

pub open spec fn scan_error_text(e: ScanError) -> Seq<char> {
    "\x1b[97m\x1b[41mgot an error! kind of:"@ + scan_error_name(e) + "\x1b[0m"@
}

pub open spec fn bookmark_notice(p: Seq<char>) -> Seq<char> {
    "\x1b[1m\x1b[035m"@ + p + "\x1b[0m has added to bookmark"@
}

pub open spec fn missing_start_text(p: Seq<char>) -> Seq<char> {
    "\x1b[97m\x1b[41mcannot open "@ + p + " directing to /\x1b[37m"@
}

/// The description line for a mode, the trimmed command being typed, and
/// whether Enter only opens the selection.
pub open spec fn desc_label_for(mode: AppMode, t: Seq<char>, ignore_exec: bool, current: Seq<char>) -> Seq<char> {
    if ignore_exec {
        ignore_label()
    } else if mode == AppMode::Normal {
        if has_prefix(t, "exit"@) {
            exit_label()
        } else {
            help_label()
        }
    } else if mode == AppMode::Bookmark || mode == AppMode::CommandHistory {
        picker_label()
    } else {
        current
    }
}

pub open spec fn labels_of(content: Seq<ReadDirItems>) -> Seq<Seq<char>> {
    content.map_values(|e: ReadDirItems| e.label@)
}

pub open spec fn names_of(content: Seq<ReadDirItems>) -> Seq<Seq<char>> {
    content.map_values(|e: ReadDirItems| e.file_name@)
}

fn path_error_label(e: PathError) -> (r: String)
    ensures
        r@ == path_error_text(e),
{
    match e {
        PathError::HomeNotFound => "\x1b[97m\x1b[41mHome directory not found\x1b[0m".to_owned(),
    }
}

fn scan_error_label(e: ScanError) -> (r: String)
    ensures
        r@ == scan_error_text(e),
{
    let mut s = "\x1b[97m\x1b[41mgot an error! kind of:".to_owned();
    match e {
        ScanError::NotFound => s.append("not found"),
        ScanError::NotADirectory => s.append("not a directory"),
        ScanError::PermissionDenied => s.append("permission denied"),
        ScanError::Other => s.append("other error"),
    }
    s.append("\x1b[0m");
    s
}

fn labels(content: &Vec<ReadDirItems>) -> (r: Vec<String>)
    ensures
        views(r@) == labels_of(content@),
{
    let mut out: Vec<String> = Vec::new();
    let mut k: usize = 0;
    while k < content.len()
        invariant
            k <= content.len(),
            views(out@) == labels_of(content@).take(k as int),
        decreases content.len() - k,
    {
        let ghost before = out@;
        let item = content[k].label.as_str().to_owned();
        out.push(item);
        assert(views(out@) =~= views(before).push(item@));
        assert(labels_of(content@).take(k as int + 1) =~= labels_of(content@).take(k as int).push(
            labels_of(content@)[k as int],
        ));
        k += 1;
    }
    assert(labels_of(content@).take(content.len() as int) =~= labels_of(content@));
    out
}

fn file_names(content: &Vec<ReadDirItems>) -> (r: Vec<String>)
    ensures
        views(r@) == names_of(content@),
{
    let mut out: Vec<String> = Vec::new();
    let mut k: usize = 0;
    while k < content.len()
        invariant
            k <= content.len(),
            views(out@) == names_of(content@).take(k as int),
        decreases content.len() - k,
    {
        let ghost before = out@;
        let item = content[k].file_name.as_str().to_owned();
        out.push(item);
        assert(views(out@) =~= views(before).push(item@));
        assert(names_of(content@).take(k as int + 1) =~= names_of(content@).take(k as int).push(
            names_of(content@)[k as int],
        ));
        k += 1;
    }
    assert(names_of(content@).take(content.len() as int) =~= names_of(content@));
    out
}

/// `s` with `c` put in at character position `at`.
fn insert_char(s: &String, at: usize, c: char) -> (r: String)
    requires
        at <= s@.len(),
    ensures
        r@ == s@.insert(at as int, c),
{
    let n = s.as_str().unicode_len();
    let mut out = s.as_str().substring_char(0, at).to_owned();
    push_char(&mut out, c);
    out.append(s.as_str().substring_char(at, n));
    assert(out@ =~= s@.insert(at as int, c));
    out
}

/// `s` with `t` put in at character position `at`.
fn insert_text(s: &String, at: usize, t: &str) -> (r: String)
    requires
        at <= s@.len(),
    ensures
        r@ == s@.subrange(0, at as int) + t@ + s@.subrange(at as int, s@.len() as int),
{
    let n = s.as_str().unicode_len();
    let mut out = s.as_str().substring_char(0, at).to_owned();
    out.append(t);
    out.append(s.as_str().substring_char(at, n));
    out
}

/// `s` without the character at position `at`.
fn remove_char(s: &String, at: usize) -> (r: String)
    requires
        at < s@.len(),
    ensures
        r@ == s@.remove(at as int),
{
    let n = s.as_str().unicode_len();
    let mut out = s.as_str().substring_char(0, at).to_owned();
    out.append(s.as_str().substring_char(at + 1, n));
    assert(out@ =~= s@.remove(at as int));
    out
}

/// The decimal digits of `n`.
pub open spec fn decimal(n: nat) -> Seq<char>
    decreases n,
{
    if n < 10 {
        seq![digit_char(n)]
    } else {
        decimal(n / 10).push(digit_char(n % 10))
    }
}

pub open spec fn digit_char(d: nat) -> char {
    if d == 0 { '0' } else if d == 1 { '1' } else if d == 2 { '2' } else if d == 3 { '3' }
    else if d == 4 { '4' } else if d == 5 { '5' } else if d == 6 { '6' } else if d == 7 { '7' }
    else if d == 8 { '8' } else { '9' }
}

fn digit(d: u64) -> (c: char)
    requires
        d < 10,
    ensures
        c == digit_char(d as nat),
{
    if d == 0 { '0' } else if d == 1 { '1' } else if d == 2 { '2' } else if d == 3 { '3' }
    else if d == 4 { '4' } else if d == 5 { '5' } else if d == 6 { '6' } else if d == 7 { '7' }
    else if d == 8 { '8' } else { '9' }
}

/// `n` written in decimal.
pub fn decimal_text(n: u64) -> (r: String)
    ensures
        r@ == decimal(n as nat),
    decreases n,
{
    if n < 10 {
        let mut s = String::new();
        push_char(&mut s, digit(n));
        assert(s@ =~= seq![digit_char(n as nat)]);
        s
    } else {
        let mut s = decimal_text(n / 10);
        push_char(&mut s, digit(n % 10));
        s
    }
}

pub open spec fn metadata_text(name: Seq<char>, size: u64, modified: Seq<char>) -> Seq<char> {
    "\x1b[34mfile: "@ + name + " size: "@ + decimal(size as nat) + " modified: "@ + modified
        + "\x1b[0m"@
}

/// One running session: where it is, what it lists, what is being typed,
/// and the state that outlives it.
pub struct App {
    pub current_path: String,
    /// The last directory that was listed successfully.
    pub temp_path: String,
    pub app_ui: UI,
    pub app_term: Termin,
    pub decs_label: String,
    /// A one-off message for the description line (an error, a file's
    /// details); shown at the next frame in place of the usual label.
    pub notice: String,
    pub command: String,
    pub sugest: String,
    pub content: Vec<ReadDirItems>,
    pub content_to_read: Vec<String>,
    pub command_history: Vec<String>,
    pub config: Config,
    pub app_mode: AppMode,
    /// Edit position in `command`, in characters.
    pub x_cursor: usize,
    pub re_read: bool,
    pub quit: bool,
    pub is_ignore_exec: bool,
    /// The home directory, when known.
    pub home: Option<String>,
    /// The process working directory, when known.
    pub process_dir: Option<String>,
}

/// The fields that stay as they were, past the ones a handler names.
pub open spec fn same_listing(pre: App, post: App) -> bool {
    &&& post.temp_path == pre.temp_path
    &&& post.content == pre.content
    &&& post.content_to_read == pre.content_to_read
    &&& post.sugest == pre.sugest
    &&& post.home == pre.home
    &&& post.process_dir == pre.process_dir
    &&& post.decs_label == pre.decs_label
}

pub open spec fn same_place(pre: App, post: App) -> bool {
    &&& post.current_path == pre.current_path
    &&& post.notice == pre.notice
    &&& post.re_read == pre.re_read
}

pub open spec fn same_mode(pre: App, post: App) -> bool {
    post.app_mode == pre.app_mode && post.quit == pre.quit
}

/// Going to where `nav` leads: on success the new directory is listed at the
/// next frame; on failure the reason is shown and the directory stays.
pub open spec fn nav_outcome(pre: App, post: App, nav: NavigationCommand) -> bool {
    match resolve(pre.current_path@, nav, pre.home, pre.process_dir) {
        Ok(p) => post.current_path@ == p && post.re_read && post.notice == pre.notice,
        Err(e) => post.current_path == pre.current_path && post.re_read == pre.re_read
            && post.notice@ == path_error_text(e),
    }
}

/// Opening the selected entry: a directory is entered, a file has its
/// details asked for. With no entry under the cursor nothing happens.
pub open spec fn open_outcome(pre: App, post: App, e: Effect) -> bool {
    let c = pre.app_ui.content_cursor;
    if c < pre.content@.len() {
        let item = pre.content@[c as int];
        if item.is_dir {
            nav_outcome(pre, post, item.navigation_type) && e is Nothing
        } else {
            same_place(pre, post) && (e matches Effect::ShowMetadata(p) && p@ == item.path@)
        }
    } else {
        same_place(pre, post) && e is Nothing
    }
}

/// What submitting the command line does, apart from the history and the
/// edit position.
pub open spec fn command_outcome(pre: App, post: App, e: Effect) -> bool {
    let t = trimmed(pre.command@);
    &&& post.command@.len() == 0
    &&& same_listing(pre, post)
    &&& post.app_ui == pre.app_ui
    &&& post.is_ignore_exec == pre.is_ignore_exec
    &&& post.config.working_path == pre.config.working_path
    &&& post.config.config_file_path == pre.config.config_file_path
    &&& post.config.history_path == pre.config.history_path
    &&& post.config.command_history == pre.config.command_history
    &&& (parse(t) != Command::ToggleHidden ==> post.config.hide_hidden_file
        == pre.config.hide_hidden_file)
    &&& (parse(t) != Command::BookmarkAdd ==> post.config.bookmark == pre.config.bookmark)
    &&& match parse(t) {
        Command::Exit => post.app_mode == AppMode::Normal && post.quit == (pre.quit
            || pre.app_mode == AppMode::Normal) && same_place(pre, post) && e is Nothing,
        Command::ToggleHidden => post.config.hide_hidden_file == !pre.config.hide_hidden_file
            && same_mode(pre, post) && post.re_read && post.current_path == pre.current_path
            && post.notice == pre.notice && e is Nothing,
        Command::Terminal => post.app_mode == AppMode::TerminalOnly && post.quit == pre.quit
            && same_place(pre, post) && e is Nothing,
        Command::BookmarkAdd => views(post.config.bookmark@) == with_bookmark(
            views(pre.config.bookmark@),
            pre.current_path@,
        ) && same_mode(pre, post) && same_place(pre, post) && (e matches Effect::Notify(m)
            && m@ == bookmark_notice(pre.current_path@)),
        Command::BookmarkList => post.app_mode == AppMode::Bookmark && post.quit == pre.quit
            && post.re_read && post.current_path == pre.current_path && post.notice == pre.notice
            && e is Nothing,
        Command::Back => same_mode(pre, post) && e is Nothing && if pre.current_path@ == "/"@ {
            same_place(pre, post)
        } else {
            nav_outcome(pre, post, NavigationCommand::Up(1))
        },
        Command::SelfCall => post.app_mode == AppMode::Normal && post.quit == pre.quit
            && same_place(pre, post) && e is Nothing,
        Command::Open => same_mode(pre, post) && open_outcome(pre, post, e),
        Command::Cd => same_mode(pre, post) && e is Nothing && exists|nav: NavigationCommand|
            crate::pathmanager::classified(cd_arg(t), nav) && nav_outcome(pre, post, nav),
        Command::NewFile => same_mode(pre, post) && post.current_path == pre.current_path
            && exists|nav: NavigationCommand|
            crate::pathmanager::classified(nf_arg(t), nav) && match resolve(
                pre.current_path@,
                nav,
                pre.home,
                pre.process_dir,
            ) {
                Ok(p) => (e matches Effect::CreateFile(q) && q@ == p) && post.re_read
                    && post.notice == pre.notice,
                Err(err) => e is Nothing && post.re_read == pre.re_read && post.notice@
                    == path_error_text(err),
            },
        Command::Shell => same_mode(pre, post) && (e matches Effect::RunShell(s) && s@
            == pre.command@)
            && post.re_read && post.current_path == pre.current_path && post.notice == pre.notice,
    }
}

impl App {
    /// The edit position lies within the command.
    pub open spec fn wf(&self) -> bool {
        self.x_cursor <= self.command@.len()
    }

    /// The directory a session starts in: the one asked for, or the saved
    /// working path when none was.
    pub fn start_path(start_location: &str, config: &Config) -> (r: String)
        ensures
            r@ == (if start_location@.len() == 0 {
                config.working_path@
            } else {
                start_location@
            }),
    {
        if start_location.unicode_len() == 0 {
            config.working_path.clone()
        } else {
            start_location.to_owned()
        }
    }

    /// A session that starts at `start_path(start_location, config)`, or at
    /// the root (with a message) when `start_exists` says that is missing.
    pub fn new(
        start_location: &str,
        config: Config,
        start_exists: bool,
        home: Option<String>,
        process_dir: Option<String>,
    ) -> (r: App)
        ensures
            r.wf(),
            r.current_path@ == (if !start_exists {
                "/"@
            } else if start_location@.len() == 0 {
                config.working_path@
            } else {
                start_location@
            }),
            r.decs_label@ == (if start_exists {
                help_label()
            } else {
                missing_start_text(start_location@)
            }),
            r.temp_path@ == "/"@,
            r.command@.len() == 0,
            r.sugest@.len() == 0,
            r.notice@.len() == 0,
            r.x_cursor == 0,
            r.app_mode == AppMode::Normal,
            r.re_read,
            !r.quit,
            !r.is_ignore_exec,
            r.content@.len() == 0,
            r.content_to_read@.len() == 0,
            views(r.command_history@) == views(config.command_history@),
            r.config == config,
            r.home == home,
            r.process_dir == process_dir,
            r.app_ui.content_cursor == 0,
            r.app_ui.content_render_from == 0,
    {
        let mut path = App::start_path(start_location, &config);
        let mut decs_label = "\x1b[1m\x1b[035m^c\x1b[0m exit \x1b[1m\x1b[035m^t\x1b[0m terminal only \x1b[1m\x1b[035m^h\x1b[0m command historys".to_owned();
        if !start_exists {
            decs_label = "\x1b[97m\x1b[41mcannot open ".to_owned();
            decs_label.append(start_location);
            decs_label.append(" directing to /\x1b[37m");
            path = "/".to_owned();
        }
        let command_history = copy_all(&config.command_history);
        App {
            current_path: path,
            temp_path: "/".to_owned(),
            app_ui: UI::new(),
            app_term: Termin::new(),
            decs_label,
            notice: String::new(),
            command: String::new(),
            sugest: String::new(),
            content: Vec::new(),
            content_to_read: Vec::new(),
            command_history,
            config,
            app_mode: AppMode::Normal,
            x_cursor: 0,
            re_read: true,
            quit: false,
            is_ignore_exec: false,
            home,
            process_dir,
        }
    }

    fn navigate(&mut self, nav: &NavigationCommand)
        ensures
            nav_outcome(*old(self), *final(self), *nav),
            final(self).command == old(self).command,
            same_listing(*old(self), *final(self)),
            same_mode(*old(self), *final(self)),
            final(self).app_ui == old(self).app_ui,
            final(self).config == old(self).config,
            final(self).command_history == old(self).command_history,
            final(self).x_cursor == old(self).x_cursor,
            final(self).is_ignore_exec == old(self).is_ignore_exec,
    {
        match resolve_path(self.current_path.as_str(), nav, &self.home, &self.process_dir) {
            Ok(p) => {
                self.current_path = p;
                self.re_read = true;
            },
            Err(e) => {
                self.notice = path_error_label(e);
            },
        }
    }

    /// Opens the entry under the cursor: enters a directory, or asks for a
    /// file's details.
    pub fn open_dir(&mut self) -> (e: Effect)
        ensures
            open_outcome(*old(self), *final(self), e),
            final(self).command == old(self).command,
            same_listing(*old(self), *final(self)),
            same_mode(*old(self), *final(self)),
            final(self).app_ui == old(self).app_ui,
            final(self).config == old(self).config,
            final(self).command_history == old(self).command_history,
            final(self).x_cursor == old(self).x_cursor,
            final(self).is_ignore_exec == old(self).is_ignore_exec,
    {
        let c = self.app_ui.content_cursor;
        if c < self.content.len() {
            if self.content[c].is_dir {
                let nav = copy_nav(&self.content[c].navigation_type);
                self.navigate(&nav);
                Effect::Nothing
            } else {
                Effect::ShowMetadata(self.content[c].path.clone())
            }
        } else {
            Effect::Nothing
        }
    }

    /// Shows a file's details on the description line.
    pub fn show_metadata(&mut self, info: &MetadataInfo)
        ensures
            final(self).notice@ == metadata_text(
                info.display_name@,
                info.size,
                info.modified@,
            ),
            final(self).current_path == old(self).current_path,
            final(self).re_read == old(self).re_read,
            final(self).command == old(self).command,
            same_listing(*old(self), *final(self)),
            same_mode(*old(self), *final(self)),
            final(self).app_ui == old(self).app_ui,
            final(self).config == old(self).config,
            final(self).command_history == old(self).command_history,
            final(self).x_cursor == old(self).x_cursor,
            final(self).is_ignore_exec == old(self).is_ignore_exec,
    {
        let mut s = "\x1b[34mfile: ".to_owned();
        s.append(info.display_name.as_str());
        s.append(" size: ");
        let size = decimal_text(info.size);
        s.append(size.as_str());
        s.append(" modified: ");
        s.append(info.modified.as_str());
        s.append("\x1b[0m");
        self.notice = s;
    }

    /// Shows why a file-system request failed on the description line; the
    /// session goes on.
    pub fn report_error(&mut self, e: ScanError)
        ensures
            final(self).notice@ == scan_error_text(e),
            final(self).current_path == old(self).current_path,
            final(self).re_read == old(self).re_read,
            final(self).command == old(self).command,
            same_listing(*old(self), *final(self)),
            same_mode(*old(self), *final(self)),
            final(self).app_ui == old(self).app_ui,
            final(self).config == old(self).config,
            final(self).command_history == old(self).command_history,
            final(self).x_cursor == old(self).x_cursor,
            final(self).is_ignore_exec == old(self).is_ignore_exec,
    {
        self.notice = scan_error_label(e);
    }

    /// Records the trimmed command at the front of the history, dropping
    /// any earlier copy.
    pub fn push_cmd_to_history(&mut self)
        ensures
            views(final(self).command_history@) == with_command(
                views(old(self).command_history@),
                trimmed(old(self).command@),
            ),
            final(self).command == old(self).command,
            has_visible_ends(old(self).command@) ==> trimmed(old(self).command@)
                == old(self).command@,
            final(self).x_cursor == old(self).x_cursor,
            same_listing(*old(self), *final(self)),
            same_place(*old(self), *final(self)),
            same_mode(*old(self), *final(self)),
            final(self).app_ui == old(self).app_ui,
            final(self).config == old(self).config,
            final(self).is_ignore_exec == old(self).is_ignore_exec,
    {
        let t = trim_text(self.command.as_str()).to_owned();
        push_to_history(&mut self.command_history, t.as_str());
    }

    /// Carries out the command line and clears it.
    pub fn command_handler(&mut self) -> (e: Effect)
        ensures
            command_outcome(*old(self), *final(self), e),
            final(self).command_history == old(self).command_history,
            final(self).x_cursor == 0,
            has_visible_ends(old(self).command@) ==> trimmed(old(self).command@)
                == old(self).command@,
    {
        let t = trim_text(self.command.as_str()).to_owned();
        let cmd = parse_command(t.as_str());
        proof {
            reveal_strlit("cd ");
            reveal_strlit(":nf ");
        }
        let mut effect = Effect::Nothing;
        let ghost pre = *self;
        let ghost mut witness = NavigationCommand::Root;
        match cmd {
            Command::Exit => {
                if self.app_mode == AppMode::Normal {
                    self.quit = true;
                } else {
                    self.app_mode = AppMode::Normal;
                }
            },
            Command::ToggleHidden => {
                self.config.hide_hidden_file = !self.config.hide_hidden_file;
                self.re_read = true;
            },
            Command::Terminal => {
                self.app_mode = AppMode::TerminalOnly;
            },
            Command::BookmarkAdd => {
                let path = self.current_path.clone();
                add_bookmark(&mut self.config.bookmark, path.as_str());
                let mut msg = "\x1b[1m\x1b[035m".to_owned();
                msg.append(path.as_str());
                msg.append("\x1b[0m has added to bookmark");
                effect = Effect::Notify(msg);
            },
            Command::BookmarkList => {
                self.app_mode = AppMode::Bookmark;
                self.re_read = true;
            },
            Command::Back => {
                if !same_text(self.current_path.as_str(), "/") {
                    self.navigate(&NavigationCommand::Up(1));
                }
            },
            Command::SelfCall => {
                self.app_mode = AppMode::Normal;
            },
            Command::Open => {
                effect = self.open_dir();
            },
            Command::Cd => {
                let n = t.as_str().unicode_len();
                let arg = t.as_str().substring_char(3, n);
                let nav = convert_path_to_nav(arg);
                self.navigate(&nav);
                proof {
                    witness = nav;
                }
            },
            Command::NewFile => {
                let n = t.as_str().unicode_len();
                let rest = t.as_str().substring_char(4, n);
                let words = split_text(rest, ' ');
                proof {
                    lemma_split_nonempty(rest@, ' ');
                }
                let nav = convert_path_to_nav(words[0].as_str());
                proof {
                    witness = nav;
                    assert(words@[0]@ == nf_arg(t@));
                }
                match resolve_path(self.current_path.as_str(), &nav, &self.home, &self.process_dir) {
                    Ok(p) => {
                        effect = Effect::CreateFile(p);
                        self.re_read = true;
                    },
                    Err(err) => {
                        self.notice = path_error_label(err);
                    },
                }
            },
            Command::Shell => {
                effect = Effect::RunShell(self.command.clone());
                self.re_read = true;
            },
        }
        self.command = String::new();
        self.x_cursor = 0;
        proof {
            if cmd == Command::Cd || cmd == Command::NewFile {
                assert(crate::pathmanager::classified(
                    if cmd == Command::Cd { cd_arg(t@) } else { nf_arg(t@) },
                    witness,
                ));
            }
        }
        effect
    }
}

/// A copy of a navigation.
fn copy_nav(n: &NavigationCommand) -> (r: NavigationCommand)
    ensures
        r == *n || (match (r, *n) {
            (NavigationCommand::Absolute(a), NavigationCommand::Absolute(b)) => a@ == b@,
            (NavigationCommand::Relative(a), NavigationCommand::Relative(b)) => a@ == b@,
            _ => false,
        }),
{
    match n {
        NavigationCommand::Up(k) => NavigationCommand::Up(*k),
        NavigationCommand::Root => NavigationCommand::Root,
        NavigationCommand::Home => NavigationCommand::Home,
        NavigationCommand::WorkingDirectory => NavigationCommand::WorkingDirectory,
        NavigationCommand::Absolute(p) => NavigationCommand::Absolute(p.clone()),
        NavigationCommand::Relative(p) => NavigationCommand::Relative(p.clone()),
    }
}

/// The listing of `dir` built from what the file system reported: the
/// shown children, each as its listing line, arranged for display.
pub open spec fn is_listing(content: Seq<ReadDirItems>, dir: Seq<char>, children: Seq<DirChild>, hide: bool) -> bool {
    let shown = crate::filemanager::shown(children, hide);
    let off: int = if dir == "/"@ {
        0
    } else {
        1
    };
    &&& content.len() == off + shown.len()
    &&& off == 1 ==> crate::filemanager::is_parent_entry(content[0])
    &&& crate::filemanager::arranged(content.subrange(off, content.len() as int))
    &&& exists|items: Seq<ReadDirItems>|
        #![trigger items.to_multiset()]
        items.len() == shown.len() && (forall|i: int|
            0 <= i < items.len() ==> crate::filemanager::is_entry_for(
                #[trigger] items[i],
                dir,
                shown[i],
            )) && content.subrange(off, content.len() as int).to_multiset() == items.to_multiset()
}

/// A directory other than the root that holds one subdirectory and one file
/// (hidden files shown) is listed as the parent line, then the
/// subdirectory, then the file, whatever order they were reported in.
pub proof fn lemma_listing_dir_before_file(
    content: Seq<ReadDirItems>,
    dir: Seq<char>,
    children: Seq<DirChild>,
    d: int,
)
    requires
        dir != "/"@,
        children.len() == 2,
        d == 0 || d == 1,
        children[d].is_dir,
        !children[1 - d].is_dir,
        is_listing(content, dir, children, false),
    ensures
        labels_of(content) == seq![
            "../"@,
            crate::filemanager::label_of(children[d].name@, true),
            crate::filemanager::label_of(children[1 - d].name@, false),
        ],
{
    let shown = crate::filemanager::shown(children, false);
    assert(children.drop_last().drop_last() =~= Seq::<DirChild>::empty());
    assert(crate::filemanager::shown(children.drop_last().drop_last(), false)
        =~= Seq::<DirChild>::empty());
    assert(children.drop_last().last() == children[0]);
    assert(crate::filemanager::shown(children.drop_last(), false) =~= seq![children[0]]);
    assert(shown =~= children);
    let items = choose|items: Seq<ReadDirItems>|
        #![trigger items.to_multiset()]
        items.len() == shown.len() && (forall|i: int|
            0 <= i < items.len() ==> crate::filemanager::is_entry_for(
                #[trigger] items[i],
                dir,
                shown[i],
            )) && content.subrange(1, content.len() as int).to_multiset() == items.to_multiset();
    let body = content.subrange(1, content.len() as int);
    assert(crate::filemanager::is_entry_for(items[0], dir, shown[0]));
    assert(crate::filemanager::is_entry_for(items[1], dir, shown[1]));
    let di = items[d];
    let fi = items[1 - d];
    assert(di != fi);
    vstd::seq_lib::to_multiset_contains(items, di);
    vstd::seq_lib::to_multiset_contains(items, fi);
    vstd::seq_lib::to_multiset_contains(body, di);
    vstd::seq_lib::to_multiset_contains(body, fi);
    assert(items.contains(di));
    assert(items.contains(fi));
    assert(body.contains(di));
    assert(body.contains(fi));
    assert(body.len() == 2);
    assert(body[0] == di && body[1] == fi) by {
        let i = choose|i: int| 0 <= i < body.len() && body[i] == di;
        let j = choose|j: int| 0 <= j < body.len() && body[j] == fi;
        assert(crate::filemanager::arranged(body));
        assert(body[1].is_dir ==> body[0].is_dir) by {
            let (a, b) = (0int, 1int);
            assert(0 <= a < b < body.len());
            // The order facts of `arranged` are found through this term.
            let _lt = crate::text::text_lt(body[b].label@, body[a].label@);
            assert(body[b].is_dir ==> body[a].is_dir);
        }
        assert(di.is_dir && !fi.is_dir) by {
            if d == 0 {
                assert(fi == items[1]);
            } else {
                assert(fi == items[0]);
            }
        }
        if i == 1 {
            assert(j == 0);
        }
    }
    assert(content[1] == body[0]);
    assert(content[2] == body[1]);
    assert(labels_of(content) =~= seq![content[0].label@, content[1].label@, content[2].label@]);
}

/// Picking the line under the cursor in the history or bookmark list: it
/// becomes the command line (a bookmark as a `cd` to it), unexecuted, and
/// browsing resumes.
pub open spec fn picked(pre: App, post: App) -> bool {
    let c = pre.app_ui.content_cursor;
    &&& same_listing(pre, post)
    &&& post.app_ui == pre.app_ui
    &&& post.config == pre.config
    &&& post.command_history == pre.command_history
    &&& post.is_ignore_exec == pre.is_ignore_exec
    &&& post.current_path == pre.current_path
    &&& post.notice == pre.notice
    &&& post.quit == pre.quit
    &&& if c < pre.content_to_read@.len() {
        let line = pre.content_to_read@[c as int]@;
        &&& post.command@ == (if pre.app_mode == AppMode::Bookmark {
            "cd "@ + line
        } else {
            line
        })
        &&& post.x_cursor == post.command@.len()
        &&& post.app_mode == AppMode::Normal
        &&& post.re_read
    } else {
        &&& post.command == pre.command
        &&& post.x_cursor == pre.x_cursor
        &&& post.app_mode == pre.app_mode
        &&& post.re_read == pre.re_read
    }
}

/// Submitting the command line with Enter.
pub open spec fn submitted(pre: App, post: App, e: Effect) -> bool {
    if pre.is_ignore_exec {
        &&& open_outcome(pre, post, e)
        &&& post.command == pre.command
        &&& post.x_cursor == pre.x_cursor
        &&& same_listing(pre, post)
        &&& same_mode(pre, post)
        &&& post.app_ui == pre.app_ui
        &&& post.config == pre.config
        &&& post.command_history == pre.command_history
        &&& post.is_ignore_exec == pre.is_ignore_exec
    } else {
        &&& command_outcome(pre, post, e)
        &&& views(post.command_history@) == with_command(
            views(pre.command_history@),
            trimmed(pre.command@),
        )
        &&& post.x_cursor == 0
    }
}

/// Everything but the command line and the edit position stays.
pub open spec fn only_edit(pre: App, post: App) -> bool {
    &&& same_listing(pre, post)
    &&& same_place(pre, post)
    &&& same_mode(pre, post)
    &&& post.app_ui == pre.app_ui
    &&& post.config == pre.config
    &&& post.command_history == pre.command_history
    &&& post.is_ignore_exec == pre.is_ignore_exec
}

impl App {
    /// Chooses the description line for this frame; a pending notice is
    /// shown once, in place of the usual label.
    pub fn decide_decs_label(&mut self)
        ensures
            final(self).decs_label@ == (if old(self).notice@.len() > 0 {
                old(self).notice@
            } else {
                desc_label_for(
                    old(self).app_mode,
                    trimmed(old(self).command@),
                    old(self).is_ignore_exec,
                    old(self).decs_label@,
                )
            }),
            final(self).notice@.len() == 0,
            final(self).current_path == old(self).current_path,
            final(self).re_read == old(self).re_read,
            final(self).command == old(self).command,
            final(self).x_cursor == old(self).x_cursor,
            final(self).temp_path == old(self).temp_path,
            final(self).content == old(self).content,
            final(self).content_to_read == old(self).content_to_read,
            final(self).sugest == old(self).sugest,
            final(self).home == old(self).home,
            final(self).process_dir == old(self).process_dir,
            same_mode(*old(self), *final(self)),
            final(self).app_ui == old(self).app_ui,
            final(self).config == old(self).config,
            final(self).command_history == old(self).command_history,
            final(self).is_ignore_exec == old(self).is_ignore_exec,
    {
        if self.notice.as_str().unicode_len() > 0 {
            self.decs_label = self.notice.clone();
            self.notice = String::new();
            return;
        }
        if self.is_ignore_exec {
            self.decs_label = "ignoring enter to exec, press \x1b[1m\x1b[035minsert\x1b[0m again to disable".to_owned();
        } else if self.app_mode == AppMode::Normal {
            let t = trim_text(self.command.as_str());
            if text_starts_with(t, "exit") {
                self.decs_label = "Exit from application".to_owned();
            } else {
                self.decs_label = "\x1b[1m\x1b[035m^c\x1b[0m exit \x1b[1m\x1b[035m^t\x1b[0m terminal only \x1b[1m\x1b[035m^h\x1b[0m command historys".to_owned();
            }
        } else if self.app_mode == AppMode::Bookmark || self.app_mode == AppMode::CommandHistory {
            self.decs_label = "\x1b[1m\x1b[035m^c\x1b[0m exit \x1b[1m\x1b[035mEsc\x1b[0m back".to_owned();
        }
    }

    /// Works out the suggestion shown after the command line.
    pub fn find_sugest(&mut self)
        ensures
            final(self).sugest@ == suggestion(
                old(self).command@,
                old(self).x_cursor >= old(self).command@.len(),
                names_of(old(self).content@),
                views(old(self).command_history@),
            ),
            final(self).current_path == old(self).current_path,
            final(self).notice == old(self).notice,
            final(self).re_read == old(self).re_read,
            final(self).command == old(self).command,
            final(self).x_cursor == old(self).x_cursor,
            final(self).temp_path == old(self).temp_path,
            final(self).content == old(self).content,
            final(self).content_to_read == old(self).content_to_read,
            final(self).decs_label == old(self).decs_label,
            final(self).home == old(self).home,
            final(self).process_dir == old(self).process_dir,
            same_mode(*old(self), *final(self)),
            final(self).app_ui == old(self).app_ui,
            final(self).config == old(self).config,
            final(self).command_history == old(self).command_history,
            final(self).is_ignore_exec == old(self).is_ignore_exec,
    {
        let names = file_names(&self.content);
        let at_end = self.x_cursor >= self.command.as_str().unicode_len();
        self.sugest = suggest_completion(self.command.as_str(), at_end, &names, &self.command_history);
    }

    /// Takes in what the file system reported for the current directory.
    /// On success the listing is rebuilt and the directory becomes the
    /// last one listed and the process working directory; on failure the
    /// reason is shown and the listing leads back to the last directory
    /// listed.
    pub fn do_a_scan(&mut self, listing: Result<Vec<DirChild>, ScanError>)
        ensures
            views(final(self).content_to_read@) == labels_of(final(self).content@),
            match listing {
                Ok(children) => {
                    &&& is_listing(
                        final(self).content@,
                        old(self).current_path@,
                        children@,
                        old(self).config.hide_hidden_file,
                    )
                    &&& final(self).temp_path == old(self).current_path
                    &&& final(self).process_dir == Some(old(self).current_path)
                    &&& final(self).notice == old(self).notice
                },
                Err(e) => {
                    &&& final(self).content@.len() == 1
                    &&& final(self).content@[0].path@ == "/"@
                    &&& final(self).content@[0].label@ == "/"@
                    &&& (final(self).content@[0].navigation_type matches NavigationCommand::Absolute(
                        p,
                    ) && p@ == "/"@)
                    &&& final(self).temp_path == old(self).temp_path
                    &&& final(self).process_dir == old(self).process_dir
                    &&& final(self).notice@ == scan_error_text(e)
                },
            },
            final(self).current_path == old(self).current_path,
            final(self).re_read == old(self).re_read,
            final(self).command == old(self).command,
            final(self).x_cursor == old(self).x_cursor,
            final(self).sugest == old(self).sugest,
            final(self).decs_label == old(self).decs_label,
            final(self).home == old(self).home,
            same_mode(*old(self), *final(self)),
            final(self).app_ui == old(self).app_ui,
            final(self).config == old(self).config,
            final(self).command_history == old(self).command_history,
            final(self).is_ignore_exec == old(self).is_ignore_exec,
    {
        match listing {
            Ok(children) => {
                let items = read_dir(self.current_path.as_str(), &children, self.config.hide_hidden_file);
                let ghost iv = items@;
                let content = arrange_entries(self.current_path.as_str(), items);
                self.content = content;
                self.temp_path = self.current_path.clone();
                self.process_dir = Some(self.current_path.clone());
                proof {
                    let off: int = if self.current_path@ == "/"@ { 0 } else { 1 };
                    assert(self.content@.subrange(off, self.content@.len() as int).to_multiset()
                        == iv.to_multiset());
                }
            },
            Err(e) => {
                self.content = fallback_entries("/");
                self.notice = scan_error_label(e);
            },
        }
        self.content_to_read = labels(&self.content);
    }

    /// Brings the listed lines up to date for the mode, as asked for by
    /// `re_read`. In browsing mode `listing` is what the file system
    /// reported for the current directory (none: the listing stays); on
    /// entering a new directory the cursor goes to its first child. The
    /// history and bookmark lists are shown from the top.
    pub fn refresh(&mut self, listing: Option<Result<Vec<DirChild>, ScanError>>)
        ensures
            !final(self).re_read,
            final(self).current_path == old(self).current_path,
            final(self).command == old(self).command,
            final(self).x_cursor == old(self).x_cursor,
            same_mode(*old(self), *final(self)),
            final(self).config == old(self).config,
            final(self).command_history == old(self).command_history,
            final(self).is_ignore_exec == old(self).is_ignore_exec,
            final(self).home == old(self).home,
            final(self).app_ui.content_render_items == old(self).app_ui.content_render_items,
            final(self).app_ui.window_size == old(self).app_ui.window_size,
            old(self).app_mode == AppMode::CommandHistory ==> views(final(self).content_to_read@)
                == views(old(self).command_history@) && final(self).app_ui.content_cursor == 0
                && final(self).app_ui.content_render_from == 0 && final(self).content
                == old(self).content,
            old(self).app_mode == AppMode::Bookmark ==> views(final(self).content_to_read@)
                == views(old(self).config.bookmark@) && final(self).app_ui.content_cursor == 0
                && final(self).app_ui.content_render_from == 0 && final(self).content
                == old(self).content,
            old(self).app_mode == AppMode::TerminalOnly || (old(self).app_mode == AppMode::Normal
                && listing is None) ==> final(self).content == old(self).content
                && final(self).content_to_read == old(self).content_to_read
                && final(self).app_ui == old(self).app_ui,
            old(self).app_mode == AppMode::Normal && listing is Some ==> {
                &&& views(final(self).content_to_read@) == labels_of(final(self).content@)
                &&& match listing {
                    Some(Ok(children)) => is_listing(
                        final(self).content@,
                        old(self).current_path@,
                        children@,
                        old(self).config.hide_hidden_file,
                    ) && final(self).temp_path == old(self).current_path,
                    Some(Err(e)) => final(self).content@.len() == 1 && final(self).content@[0].path@
                        == "/"@ && final(self).temp_path == old(self).temp_path
                        && final(self).notice@ == scan_error_text(e),
                    None => true,
                }
                &&& if old(self).current_path@ != old(self).temp_path@ {
                    &&& final(self).app_ui.content_cursor == (if final(self).content@.len() > 2 {
                        1usize
                    } else {
                        0usize
                    })
                    &&& final(self).app_ui.content_render_from == 0
                } else {
                    final(self).app_ui == old(self).app_ui
                }
            },
    {
        match self.app_mode {
            AppMode::Normal => {
                match listing {
                    Some(l) => {
                        let is_cd = !same_text(self.current_path.as_str(), self.temp_path.as_str());
                        self.do_a_scan(l);
                        if is_cd {
                            if self.content.len() > 2 {
                                self.app_ui.content_cursor = 1;
                            } else {
                                self.app_ui.content_cursor = 0;
                            }
                            self.app_ui.content_render_from = 0;
                        }
                    },
                    None => {},
                }
            },
            AppMode::CommandHistory => {
                self.content_to_read = copy_all(&self.command_history);
                self.app_ui.content_render_from = 0;
                self.app_ui.content_cursor = 0;
            },
            AppMode::Bookmark => {
                self.content_to_read = copy_all(&self.config.bookmark);
                self.app_ui.content_render_from = 0;
                self.app_ui.content_cursor = 0;
            },
            AppMode::TerminalOnly => {},
        }
        self.re_read = false;
    }
}

/// A key as the session sees it.
#[derive(PartialEq, Eq, Structural, Clone, Copy, Debug)]
pub enum Key {
    Char(char),
    Esc,
    Up,
    Down,
    Left,
    Right,
    Backspace,
    Tab,
    Delete,
    Insert,
    Enter,
    Other,
}

/// A key press with the modifiers that matter.
#[derive(PartialEq, Eq, Structural, Clone, Copy, Debug)]
pub struct KeyInput {
    pub code: Key,
    pub ctrl: bool,
    pub shift: bool,
}

/// An input event.
#[derive(PartialEq, Eq, Structural, Clone, Copy, Debug)]
pub enum InputEvent {
    Key(KeyInput),
    Resize(u16, u16),
    Other,
}

/// What Tab adds for a listing entry with no suggestion pending: `./`
/// before the name (not before `../`), in double quotes when it holds a
/// space.
pub open spec fn tab_text(name: Seq<char>) -> Seq<char> {
    let ns = if name == "../"@ {
        name
    } else {
        "./"@ + name
    };
    if ns.contains(' ') {
        seq!['"'] + ns + seq!['"']
    } else {
        ns
    }
}

/// Tab while browsing: takes the pending suggestion in at the edit position,
/// or else appends the entry under the cursor.
pub open spec fn tab_outcome(pre: App, post: App) -> bool {
    &&& only_edit(pre, post)
    &&& if pre.sugest@.len() > 0 {
        &&& post.command@ == pre.command@.subrange(0, pre.x_cursor as int) + pre.sugest@
            + pre.command@.subrange(pre.x_cursor as int, pre.command@.len() as int)
        &&& post.x_cursor == pre.x_cursor + pre.sugest@.len()
    } else if pre.app_ui.content_cursor < pre.content@.len() {
        let add = tab_text(pre.content@[pre.app_ui.content_cursor as int].file_name@);
        &&& post.command@ == pre.command@ + add
        &&& post.x_cursor == pre.x_cursor + add.len()
    } else {
        post.command == pre.command && post.x_cursor == pre.x_cursor
    }
}

/// A control shortcut: `c` quits, `h` opens the history, `f` returns to
/// browsing, `t` enters shell mode, `b` opens the bookmarks; any of them
/// asks for a refresh.
pub open spec fn ctrl_outcome(pre: App, post: App, c: char) -> bool {
    &&& post.re_read
    &&& post.current_path == pre.current_path
    &&& post.notice == pre.notice
    &&& post.command == pre.command
    &&& post.x_cursor == pre.x_cursor
    &&& same_listing(pre, post)
    &&& post.app_ui == pre.app_ui
    &&& post.config == pre.config
    &&& post.command_history == pre.command_history
    &&& post.is_ignore_exec == pre.is_ignore_exec
    &&& post.quit == (pre.quit || c == 'c')
    &&& post.app_mode == (if c == 'h' {
        AppMode::CommandHistory
    } else if c == 'f' {
        AppMode::Normal
    } else if c == 't' {
        AppMode::TerminalOnly
    } else if c == 'b' {
        AppMode::Bookmark
    } else {
        pre.app_mode
    })
}

/// Only the viewport cursor may move.
pub open spec fn only_cursor(pre: App, post: App) -> bool {
    &&& same_listing(pre, post)
    &&& same_place(pre, post)
    &&& same_mode(pre, post)
    &&& post.command == pre.command
    &&& post.x_cursor == pre.x_cursor
    &&& post.config == pre.config
    &&& post.command_history == pre.command_history
    &&& post.is_ignore_exec == pre.is_ignore_exec
    &&& post.app_ui.content_render_from == pre.app_ui.content_render_from
    &&& post.app_ui.content_render_items == pre.app_ui.content_render_items
    &&& post.app_ui.window_size == pre.app_ui.window_size
    &&& post.app_ui.safe_height == pre.app_ui.safe_height
    &&& post.app_ui.path_label == pre.app_ui.path_label
    &&& post.app_ui.desc_label == pre.app_ui.desc_label
}

/// Nothing at all changes.
pub open spec fn unchanged(pre: App, post: App) -> bool {
    &&& only_edit(pre, post)
    &&& post.command == pre.command
    &&& post.x_cursor == pre.x_cursor
}

/// What a key press does.
pub open spec fn key_outcome(pre: App, post: App, key: KeyInput, e: Effect) -> bool {
    let picking = pre.app_mode == AppMode::CommandHistory || pre.app_mode == AppMode::Bookmark;
    match key.code {
        Key::Char(c) => e is Nothing && if key.ctrl {
            ctrl_outcome(pre, post, c)
        } else {
            only_edit(pre, post) && post.command@ == pre.command@.insert(pre.x_cursor as int, c)
                && post.x_cursor == pre.x_cursor + 1
        },
        Key::Esc => e is Nothing && post.app_mode == AppMode::Normal && post.re_read
            && post.quit == pre.quit && post.current_path == pre.current_path && post.notice
            == pre.notice && post.command == pre.command && post.x_cursor == pre.x_cursor
            && same_listing(pre, post) && post.app_ui == pre.app_ui && post.config == pre.config
            && post.command_history == pre.command_history && post.is_ignore_exec
            == pre.is_ignore_exec,
        Key::Up => e is Nothing && only_cursor(pre, post) && post.app_ui.content_cursor == (
        if pre.app_ui.content_cursor == 0 {
            0
        } else if key.shift {
            if pre.app_ui.content_cursor >= 5 {
                pre.app_ui.content_cursor - 5
            } else {
                0
            }
        } else {
            pre.app_ui.content_cursor - 1
        }),
        Key::Down => e is Nothing && only_cursor(pre, post) && ({
            let len = pre.content_to_read@.len();
            let last = if len > 0 {
                len - 1
            } else {
                0
            };
            let c = pre.app_ui.content_cursor;
            post.app_ui.content_cursor == (if c >= last {
                c as int
            } else if key.shift {
                if last - c >= 5 {
                    c + 5
                } else {
                    last
                }
            } else {
                c + 1
            })
        }),
        Key::Left => e is Nothing && only_edit(pre, post) && post.command == pre.command
            && post.x_cursor == (if pre.x_cursor > 0 {
            pre.x_cursor - 1
        } else {
            0
        }),
        Key::Right => e is Nothing && only_edit(pre, post) && post.command == pre.command
            && post.x_cursor == (if pre.x_cursor < pre.command@.len() {
            pre.x_cursor + 1
        } else {
            pre.x_cursor as int
        }),
        Key::Backspace => e is Nothing && only_edit(pre, post) && if pre.x_cursor > 0 {
            post.command@ == pre.command@.remove(pre.x_cursor - 1) && post.x_cursor
                == pre.x_cursor - 1
        } else {
            post.command == pre.command && post.x_cursor == pre.x_cursor
        },
        Key::Tab => e is Nothing && if picking {
            picked(pre, post)
        } else {
            tab_outcome(pre, post)
        },
        Key::Delete => e is Nothing && if pre.app_mode == AppMode::Bookmark
            && pre.app_ui.content_cursor < pre.content_to_read@.len() {
            views(post.config.bookmark@) == without(
                views(pre.config.bookmark@),
                pre.content_to_read@[pre.app_ui.content_cursor as int]@,
            ) && post.re_read && post.config.hide_hidden_file == pre.config.hide_hidden_file
                && post.config.working_path == pre.config.working_path && post.command
                == pre.command && post.x_cursor == pre.x_cursor && same_listing(pre, post)
                && same_mode(pre, post) && post.current_path == pre.current_path && post.notice
                == pre.notice && post.app_ui == pre.app_ui && post.command_history
                == pre.command_history && post.is_ignore_exec == pre.is_ignore_exec
        } else {
            unchanged(pre, post)
        },
        Key::Insert => e is Nothing && post.is_ignore_exec == !pre.is_ignore_exec && same_listing(
            pre,
            post,
        ) && same_place(pre, post) && same_mode(pre, post) && post.app_ui == pre.app_ui
            && post.config == pre.config && post.command_history == pre.command_history
            && post.command == pre.command && post.x_cursor == pre.x_cursor,
        Key::Enter => if picking {
            e is Nothing && picked(pre, post)
        } else {
            submitted(pre, post, e)
        },
        Key::Other => e is Nothing && unchanged(pre, post),
    }
}

fn has_space(s: &str) -> (r: bool)
    ensures
        r == s@.contains(' '),
{
    let n = s.unicode_len();
    let mut i: usize = 0;
    while i < n
        invariant
            n == s@.len(),
            i <= n,
            forall|j: int| 0 <= j < i ==> s@[j] != ' ',
        decreases n - i,
    {
        if s.get_char(i) == ' ' {
            return true;
        }
        i += 1;
    }
    false
}

fn tab_text_of(name: &str) -> (r: String)
    ensures
        r@ == tab_text(name@),
{
    let mut ns = String::new();
    if !same_text(name, "../") {
        ns.append("./");
    }
    ns.append(name);
    if has_space(ns.as_str()) {
        let mut q = String::new();
        push_char(&mut q, '"');
        q.append(ns.as_str());
        push_char(&mut q, '"');
        assert(q@ =~= seq!['"'] + ns@ + seq!['"']);
        q
    } else {
        ns
    }
}

impl App {
    /// Sets the command line to a line typed elsewhere (in shell mode) and
    /// puts the edit position at its end.
    pub fn set_command(&mut self, line: String)
        ensures
            final(self).command == line,
            final(self).x_cursor == line@.len(),
            final(self).wf(),
            same_listing(*old(self), *final(self)),
            same_place(*old(self), *final(self)),
            same_mode(*old(self), *final(self)),
            final(self).app_ui == old(self).app_ui,
            final(self).config == old(self).config,
            final(self).command_history == old(self).command_history,
            final(self).is_ignore_exec == old(self).is_ignore_exec,
    {
        self.x_cursor = line.as_str().unicode_len();
        self.command = line;
    }

    /// Takes the directory the shell ended in as the current one.
    pub fn after_shell(&mut self, dir: String)
        ensures
            final(self).current_path == dir,
            final(self).process_dir == Some(dir),
            final(self).re_read,
            final(self).command == old(self).command,
            final(self).x_cursor == old(self).x_cursor,
            same_mode(*old(self), *final(self)),
            final(self).config == old(self).config,
            final(self).command_history == old(self).command_history,
    {
        self.current_path = dir.clone();
        self.process_dir = Some(dir);
        self.re_read = true;
    }

    /// Copies the line under the cursor of the history or bookmark list
    /// into the command line, without running it, and resumes browsing.
    pub fn pick_selection(&mut self)
        ensures
            picked(*old(self), *final(self)),
    {
        let c = self.app_ui.content_cursor;
        if c < self.content_to_read.len() {
            let line = self.content_to_read[c].clone();
            let mut cmd = String::new();
            if self.app_mode == AppMode::Bookmark {
                cmd.append("cd ");
            }
            cmd.append(line.as_str());
            self.x_cursor = cmd.as_str().unicode_len();
            self.command = cmd;
            self.app_mode = AppMode::Normal;
            self.re_read = true;
        }
    }

    /// Enter while browsing or in shell mode: opens the selection when
    /// Enter is set to do only that, else records and carries out the
    /// command line.
    pub fn submit(&mut self) -> (e: Effect)
        ensures
            submitted(*old(self), *final(self), e),
    {
        if self.is_ignore_exec {
            self.open_dir()
        } else {
            self.push_cmd_to_history();
            self.command_handler()
        }
    }

    fn tab_complete(&mut self)
        requires
            old(self).wf(),
        ensures
            tab_outcome(*old(self), *final(self)),
    {
        let n = self.sugest.as_str().unicode_len();
        if n > 0 {
            let cmd = insert_text(&self.command, self.x_cursor, self.sugest.as_str());
            // The new length is a usize, so the moved edit position fits in one.
            let len_after = cmd.as_str().unicode_len();
            assert(self.x_cursor <= len_after);
            self.command = cmd;
            self.x_cursor = self.x_cursor + n;
        } else if self.app_ui.content_cursor < self.content.len() {
            let add = tab_text_of(self.content[self.app_ui.content_cursor].file_name.as_str());
            let mut cmd = self.command.clone();
            cmd.append(add.as_str());
            // The new length is a usize, so the moved edit position fits in one.
            let len_after = cmd.as_str().unicode_len();
            assert(self.x_cursor <= len_after);
            self.command = cmd;
            self.x_cursor = self.x_cursor + add.as_str().unicode_len();
        }
    }

    /// Handles one key press.
    pub fn key_event_handler(&mut self, key: KeyInput) -> (e: Effect)
        requires
            old(self).wf(),
        ensures
            final(self).wf(),
            key_outcome(*old(self), *final(self), key, e),
    {
        let picking = self.app_mode == AppMode::CommandHistory || self.app_mode == AppMode::Bookmark;
        match key.code {
            Key::Char(ch) => {
                if key.ctrl {
                    if ch == 'c' {
                        self.quit = true;
                    } else if ch == 'h' {
                        self.app_mode = AppMode::CommandHistory;
                    } else if ch == 'f' {
                        self.app_mode = AppMode::Normal;
                    } else if ch == 't' {
                        self.app_mode = AppMode::TerminalOnly;
                    } else if ch == 'b' {
                        self.app_mode = AppMode::Bookmark;
                    }
                    self.re_read = true;
                } else {
                    self.command = insert_char(&self.command, self.x_cursor, ch);
                    // The new length is a usize, so the moved edit position fits in one.
                    let len_after = self.command.as_str().unicode_len();
                    assert(self.x_cursor < len_after);
                    self.x_cursor = self.x_cursor + 1;
                }
                Effect::Nothing
            },
            Key::Esc => {
                self.app_mode = AppMode::Normal;
                self.re_read = true;
                Effect::Nothing
            },
            Key::Up => {
                self.app_ui.move_selection_up(key.shift);
                Effect::Nothing
            },
            Key::Down => {
                let len = self.content_to_read.len();
                self.app_ui.move_selection_down(len, key.shift);
                Effect::Nothing
            },
            Key::Left => {
                if self.x_cursor > 0 {
                    self.x_cursor = self.x_cursor - 1;
                }
                Effect::Nothing
            },
            Key::Right => {
                if self.x_cursor < self.command.as_str().unicode_len() {
                    self.x_cursor = self.x_cursor + 1;
                }
                Effect::Nothing
            },
            Key::Backspace => {
                if self.x_cursor > 0 {
                    self.command = remove_char(&self.command, self.x_cursor - 1);
                    self.x_cursor = self.x_cursor - 1;
                }
                Effect::Nothing
            },
            Key::Tab => {
                if picking {
                    self.pick_selection();
                } else {
                    self.tab_complete();
                }
                Effect::Nothing
            },
            Key::Delete => {
                let c = self.app_ui.content_cursor;
                if self.app_mode == AppMode::Bookmark && c < self.content_to_read.len() {
                    let selected = self.content_to_read[c].clone();
                    remove_bookmark(&mut self.config.bookmark, selected.as_str());
                    self.re_read = true;
                }
                Effect::Nothing
            },
            Key::Insert => {
                self.is_ignore_exec = !self.is_ignore_exec;
                Effect::Nothing
            },
            Key::Enter => {
                if picking {
                    self.pick_selection();
                    Effect::Nothing
                } else {
                    self.submit()
                }
            },
            Key::Other => Effect::Nothing,
        }
    }

    /// Handles one input event: keys as above; a resize records the new
    /// size and asks for a refresh.
    pub fn event_handler(&mut self, event: InputEvent) -> (e: Effect)
        requires
            old(self).wf(),
        ensures
            final(self).wf(),
            match event {
                InputEvent::Key(k) => key_outcome(*old(self), *final(self), k, e),
                InputEvent::Resize(w, h) => e is Nothing && final(self).re_read
                    && final(self).app_ui.window_size == (w, h) && final(self).app_ui.content_cursor
                    == old(self).app_ui.content_cursor && final(self).command == old(self).command
                    && final(self).x_cursor == old(self).x_cursor && same_listing(
                    *old(self),
                    *final(self),
                ) && same_mode(*old(self), *final(self)) && final(self).current_path
                    == old(self).current_path && final(self).config == old(self).config,
                InputEvent::Other => e is Nothing && unchanged(*old(self), *final(self)),
            },
    {
        match event {
            InputEvent::Key(k) => self.key_event_handler(k),
            InputEvent::Resize(w, h) => {
                self.app_ui.set_window_size(w, h);
                self.re_read = true;
                Effect::Nothing
            },
            InputEvent::Other => Effect::Nothing,
        }
    }

    /// Hands the state that outlives the session back to the configuration:
    /// the current directory as the working path, and the history.
    pub fn end(&mut self)
        ensures
            final(self).config.working_path@ == old(self).current_path@,
            views(final(self).config.command_history@) == views(old(self).command_history@),
            final(self).config.hide_hidden_file == old(self).config.hide_hidden_file,
            final(self).config.bookmark == old(self).config.bookmark,
            final(self).config.config_file_path == old(self).config.config_file_path,
            final(self).config.history_path == old(self).config.history_path,
            final(self).current_path == old(self).current_path,
    {
        let p = self.current_path.clone();
        self.config.set_working_path(p.as_str());
        self.config.command_history = copy_all(&self.command_history);
    }
}

/// Where the command line is drawn: its visible text, how many fill
/// characters follow it, and the column of the edit position within the
/// visible text.
pub struct CommandLineLayout {
    pub label: String,
    pub padding: usize,
    pub cursor_x: usize,
}

pub open spec fn sat_sub(a: int, b: int) -> int {
    if a >= b {
        a - b
    } else {
        0
    }
}

impl App {
    /// Lays the command line out for the current width: the command is
    /// cut to its last `width - 3` characters, fill characters take the rest
    /// of the row, and the edit position moves left as far as the cut
    /// shifted the text.
    pub fn display_layout(&self) -> (r: CommandLineLayout)
        ensures
            ({
                let w = self.app_ui.window_size.0 as int;
                let len = self.command@.len() as int;
                let room = sat_sub(w, 3);
                &&& r.label@ == (if len <= room {
                    self.command@
                } else {
                    self.command@.subrange(len - room, len)
                })
                &&& r.padding == sat_sub(w, (r.label@.len() + 3) as int)
                &&& r.cursor_x == sat_sub(self.x_cursor as int, sat_sub(len, room))
            }),
    {
        let w = self.app_ui.window_size.0 as usize;
        let room = w.saturating_sub(3);
        let label = self.app_ui.trim_str_to(self.command.as_str(), room);
        let label_len = label.as_str().unicode_len();
        let padding = if w >= 3 && w - 3 >= label_len {
            w - 3 - label_len
        } else {
            0
        };
        let len = self.command.as_str().unicode_len();
        let shift = len.saturating_sub(room);
        let col = self.x_cursor.saturating_sub(shift);
        CommandLineLayout { label, padding, cursor_x: col }
    }
}

} // verus!
