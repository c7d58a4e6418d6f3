use vstd::prelude::*;

use crate::pathmanager::{join_path_text, join_paths, normalize, normalize_path};
use crate::text::{
    contains_text, join_text, join_with, lemma_without_excludes, non_empty,
    remove_all, same_text, split_on, split_text, views, without,
};

verus! {

/// What a session keeps between runs: where it was, whether hidden files are
/// hidden, the bookmarks and the command history, and where these are stored.
pub struct Config {
    pub working_path: String,
    pub hide_hidden_file: bool,
    pub config_file_path: String,
    pub history_path: String,
    pub command_history: Vec<String>,
    pub bookmark: Vec<String>,
}

/// The history after `c` is submitted: `c` first, and no other copy of it;
/// an empty command leaves the history as it was.
pub open spec fn with_command(h: Seq<Seq<char>>, c: Seq<char>) -> Seq<Seq<char>> {
    if c.len() == 0 {
        h
    } else {
        seq![c] + without(h, c)
    }
}

/// The bookmarks after `p` is added: added at the end unless it is there.
pub open spec fn with_bookmark(b: Seq<Seq<char>>, p: Seq<char>) -> Seq<Seq<char>> {
    if b.contains(p) {
        b
    } else {
        b.push(p)
    }
}

/// Records a submitted command at the front of the history, dropping any
/// earlier copy of it. Empty commands are not recorded.
pub fn push_to_history(history: &mut Vec<String>, cmd: &str)
    ensures
        views(final(history)@) == with_command(views(old(history)@), cmd@),
{
    if cmd.unicode_len() == 0 {
        return;
    }
    let mut rest = remove_all(history, cmd);
    let mut out: Vec<String> = Vec::new();
    out.push(cmd.to_owned());
    let ghost tail = rest@;
    out.append(&mut rest);
    assert(views(out@) =~= seq![cmd@] + views(tail));
    *history = out;
}

/// Submitting the same command twice in a row leaves it first in the
/// history, with no other entry equal to it.
pub proof fn lemma_history_dedup(h: Seq<Seq<char>>, c: Seq<char>)
    requires
        c.len() > 0,
    ensures
        with_command(with_command(h, c), c).len() >= 1,
        with_command(with_command(h, c), c)[0] == c,
        forall|i: int|
            1 <= i < with_command(with_command(h, c), c).len() ==> with_command(
                with_command(h, c),
                c,
            )[i] != c,
{
    let h1 = with_command(h, c);
    lemma_without_excludes(h1, c);
    let w = without(h1, c);
    assert forall|i: int| 1 <= i < (seq![c] + w).len() implies (seq![c] + w)[i] != c by {
        assert((seq![c] + w)[i] == w[i - 1]);
    }
}

/// Adds a directory to the bookmarks unless it is already there.
pub fn add_bookmark(bookmarks: &mut Vec<String>, path: &str)
    ensures
        views(final(bookmarks)@) == with_bookmark(views(old(bookmarks)@), path@),
{
    if !contains_text(bookmarks, path) {
        bookmarks.push(path.to_owned());
        assert(views(bookmarks@) =~= views(old(bookmarks)@).push(path@));
    }
}

/// Adding a directory that is already bookmarked changes nothing.
pub proof fn lemma_bookmark_add_present(b: Seq<Seq<char>>, p: Seq<char>)
    requires
        b.contains(p),
    ensures
        with_bookmark(b, p) == b,
{
}

/// Removes every bookmark equal to `path`.
pub fn remove_bookmark(bookmarks: &mut Vec<String>, path: &str)
    ensures
        views(final(bookmarks)@) == without(views(old(bookmarks)@), path@),
{
    let kept = remove_all(bookmarks, path);
    *bookmarks = kept;
}

/// What a settings line names: the text before its first `=`.
pub open spec fn setting_key(line: Seq<char>) -> Seq<char> {
    split_on(line, '=')[0]
}

/// What a settings line holds: the text between its first and second `=`,
/// empty when it has none.
pub open spec fn setting_value(line: Seq<char>) -> Seq<char> {
    if split_on(line, '=').len() > 1 {
        split_on(line, '=')[1]
    } else {
        Seq::<char>::empty()
    }
}

/// The settings that a settings file sets: working path, whether hidden
/// files are hidden, bookmarks.
pub struct Settings {
    pub working_path: Seq<char>,
    pub hide_hidden_file: bool,
    pub bookmark: Seq<Seq<char>>,
}

/// One settings line applied; an empty working path means `current_dir`,
/// hidden files are hidden only for `true`, and bookmarks are separated by
/// `;`. Lines with other keys are ignored.
pub open spec fn apply_setting(st: Settings, line: Seq<char>, current_dir: Seq<char>) -> Settings {
    let key = setting_key(line);
    let val = setting_value(line);
    if key == "WORKING_PATH"@ {
        Settings {
            working_path: if val.len() == 0 {
                current_dir
            } else {
                val
            },
            ..st
        }
    } else if key == "HIDE_HIDDEN_FILE"@ {
        Settings { hide_hidden_file: val == "true"@, ..st }
    } else if key == "BOOKMARK"@ {
        Settings {
            bookmark: if val.len() == 0 {
                Seq::<Seq<char>>::empty()
            } else {
                split_on(val, ';')
            },
            ..st
        }
    } else {
        st
    }
}

/// The lines applied in order.
pub open spec fn apply_settings(st: Settings, lines: Seq<Seq<char>>, current_dir: Seq<char>) -> Settings
    decreases lines.len(),
{
    if lines.len() == 0 {
        st
    } else {
        apply_setting(apply_settings(st, lines.drop_last(), current_dir), lines.last(), current_dir)
    }
}

pub open spec fn bool_text(b: bool) -> Seq<char> {
    if b {
        "true"@
    } else {
        "false"@
    }
}

/// The settings file as it is written.
pub open spec fn config_text(wp: Seq<char>, hide: bool, bookmark: Seq<Seq<char>>) -> Seq<char> {
    "WORKING_PATH="@ + wp + "\nHIDE_HIDDEN_FILE="@ + bool_text(hide) + "\nBOOKMARK="@ + join_with(
        bookmark,
        ';',
    )
}

impl Config {
    pub open spec fn settings(&self) -> Settings {
        Settings {
            working_path: self.working_path@,
            hide_hidden_file: self.hide_hidden_file,
            bookmark: views(self.bookmark@),
        }
    }

    /// A configuration with its defaults, stored under `temp_dir`.
    pub fn new(temp_dir: &str) -> (r: Config)
        ensures
            r.working_path@ == "/"@,
            r.hide_hidden_file,
            r.command_history@.len() == 0,
            r.bookmark@.len() == 0,
            r.config_file_path@ == normalize(join_paths(temp_dir@, "luru"@)),
            r.history_path@ == normalize(join_paths(temp_dir@, "luru-cmd.log"@)),
    {
        let config_file_path = normalize_path(join_path_text(temp_dir, "luru").as_str());
        let history_path = normalize_path(join_path_text(temp_dir, "luru-cmd.log").as_str());
        Config {
            working_path: "/".to_owned(),
            hide_hidden_file: true,
            config_file_path,
            history_path,
            command_history: Vec::new(),
            bookmark: Vec::new(),
        }
    }

    /// Applies the lines of a settings file. The working path is
    /// `current_dir` unless a line sets it to something else.
    pub fn load(&mut self, content: &str, current_dir: &str)
        ensures
            final(self).settings() == apply_settings(
                Settings { working_path: current_dir@, ..old(self).settings() },
                split_on(content@, '\n'),
                current_dir@,
            ),
            final(self).config_file_path == old(self).config_file_path,
            final(self).history_path == old(self).history_path,
            final(self).command_history == old(self).command_history,
    {
        self.working_path = current_dir.to_owned();
        let ghost start = self.settings();
        let lines = split_text(content, '\n');
        let mut k: usize = 0;
        while k < lines.len()
            invariant
                k <= lines.len(),
                views(lines@) == split_on(content@, '\n'),
                start == (Settings { working_path: current_dir@, ..old(self).settings() }),
                self.settings() == apply_settings(
                    start,
                    views(lines@).take(k as int),
                    current_dir@,
                ),
                self.config_file_path == old(self).config_file_path,
                self.history_path == old(self).history_path,
                self.command_history == old(self).command_history,
            decreases lines.len() - k,
        {
            self.apply_line(lines[k].as_str(), current_dir);
            assert(views(lines@).take(k as int + 1).drop_last() =~= views(lines@).take(k as int));
            k += 1;
        }
        assert(views(lines@).take(lines.len() as int) =~= views(lines@));
    }

    fn apply_line(&mut self, line: &str, current_dir: &str)
        ensures
            final(self).settings() == apply_setting(old(self).settings(), line@, current_dir@),
            final(self).config_file_path == old(self).config_file_path,
            final(self).history_path == old(self).history_path,
            final(self).command_history == old(self).command_history,
    {
        let parts = split_text(line, '=');
        proof {
            crate::text::lemma_split_nonempty(line@, '=');
        }
        let key = parts[0].as_str();
        let empty = String::new();
        let val = if parts.len() > 1 {
            parts[1].as_str()
        } else {
            empty.as_str()
        };
        assert(val@ == setting_value(line@));
        if same_text(key, "WORKING_PATH") {
            if val.unicode_len() == 0 {
                self.working_path = current_dir.to_owned();
            } else {
                self.working_path = val.to_owned();
            }
        } else if same_text(key, "HIDE_HIDDEN_FILE") {
            self.hide_hidden_file = same_text(val, "true");
        } else if same_text(key, "BOOKMARK") {
            if val.unicode_len() == 0 {
                self.bookmark = Vec::new();
                assert(views(self.bookmark@) =~= Seq::<Seq<char>>::empty());
            } else {
                self.bookmark = split_text(val, ';');
            }
        }
    }

    /// Appends the non-empty lines of a history file to the history.
    pub fn load_history(&mut self, content: &str)
        ensures
            views(final(self).command_history@) == views(old(self).command_history@) + non_empty(
                split_on(content@, '\n'),
            ),
            final(self).settings() == old(self).settings(),
            final(self).config_file_path == old(self).config_file_path,
            final(self).history_path == old(self).history_path,
    {
        let lines = split_text(content, '\n');
        let mut k: usize = 0;
        while k < lines.len()
            invariant
                k <= lines.len(),
                views(lines@) == split_on(content@, '\n'),
                views(self.command_history@) == views(old(self).command_history@) + non_empty(
                    views(lines@).take(k as int),
                ),
                self.settings() == old(self).settings(),
                self.config_file_path == old(self).config_file_path,
                self.history_path == old(self).history_path,
            decreases lines.len() - k,
        {
            assert(views(lines@).take(k as int + 1).drop_last() =~= views(lines@).take(k as int));
            if lines[k].as_str().unicode_len() > 0 {
                let ghost before = self.command_history@;
                self.command_history.push(lines[k].as_str().to_owned());
                assert(views(self.command_history@) =~= views(before).push(lines@[k as int]@));
            }
            k += 1;
        }
        assert(views(lines@).take(lines.len() as int) =~= views(lines@));
    }

    /// The settings file for this configuration.
    pub fn config_content(&self) -> (r: String)
        ensures
            r@ == config_text(self.working_path@, self.hide_hidden_file, views(self.bookmark@)),
    {
        let mut out = "WORKING_PATH=".to_owned();
        out.append(self.working_path.as_str());
        out.append("\nHIDE_HIDDEN_FILE=");
        if self.hide_hidden_file {
            out.append("true");
        } else {
            out.append("false");
        }
        out.append("\nBOOKMARK=");
        proof {
            reveal_strlit(";");
        }
        let marks = join_text(&self.bookmark, ";");
        out.append(marks.as_str());
        out
    }

    /// The history file for this configuration: one command per line.
    pub fn history_content(&self) -> (r: String)
        ensures
            r@ == join_with(views(self.command_history@), '\n'),
    {
        proof {
            reveal_strlit("\n");
        }
        join_text(&self.command_history, "\n")
    }

    pub fn set_working_path(&mut self, wp: &str)
        ensures
            final(self).working_path@ == wp@,
            final(self).hide_hidden_file == old(self).hide_hidden_file,
            final(self).bookmark == old(self).bookmark,
            final(self).command_history == old(self).command_history,
            final(self).config_file_path == old(self).config_file_path,
            final(self).history_path == old(self).history_path,
    {
        self.working_path = wp.to_owned();
    }
}


} // verus!
