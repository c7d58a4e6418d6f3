use vstd::prelude::*;

use crate::text::{has_prefix, lemma_split_nonempty, same_text, split_on, split_text, text_starts_with, views};

verus! {

/// A word with a leading `./` or `/` taken off.
pub open spec fn strip_lead(w: Seq<char>) -> Seq<char> {
    if has_prefix(w, "./"@) {
        w.subrange(2, w.len() as int)
    } else if has_prefix(w, "/"@) {
        w.subrange(1, w.len() as int)
    } else {
        w
    }
}

/// The word being typed when the edit cursor is at the end of `cmd`: its
/// last space-separated word, without a leading `./` or `/`.
pub open spec fn current_word(cmd: Seq<char>) -> Seq<char> {
    strip_lead(split_on(cmd, ' ').last())
}

/// `cand` continues `typed`: it starts with it and is longer.
pub open spec fn completes(cand: Seq<char>, typed: Seq<char>) -> bool {
    has_prefix(cand, typed) && cand != typed
}

/// The first element of `list`, from index `i` on, that completes `typed`.
pub open spec fn first_completion(list: Seq<Seq<char>>, typed: Seq<char>, i: int) -> Option<Seq<char>>
    decreases list.len() - i,
{
    if i < 0 || i >= list.len() {
        None
    } else if completes(list[i], typed) {
        Some(list[i])
    } else {
        first_completion(list, typed, i + 1)
    }
}

/// The text proposed after the command: the rest of the first entry name
/// that completes the current word, or else the rest of the first history
/// line that completes the whole command. Nothing is proposed while the
/// cursor is inside the command, for an empty command, or when the current
/// word is empty and an entry name would be the candidate.
pub open spec fn suggestion(
    cmd: Seq<char>,
    at_end: bool,
    names: Seq<Seq<char>>,
    history: Seq<Seq<char>>,
) -> Seq<char> {
    if !at_end || cmd.len() == 0 {
        Seq::<char>::empty()
    } else {
        let w = current_word(cmd);
        match first_completion(names, w, 0) {
            Some(c) => if w.len() > 0 {
                c.subrange(w.len() as int, c.len() as int)
            } else {
                Seq::<char>::empty()
            },
            None => match first_completion(history, cmd, 0) {
                Some(c) => c.subrange(cmd.len() as int, c.len() as int),
                None => Seq::<char>::empty(),
            },
        }
    }
}

fn strip_lead_text(w: &str) -> (r: String)
    ensures
        r@ == strip_lead(w@),
{
    let n = w.unicode_len();
    if text_starts_with(w, "./") {
        proof {
            reveal_strlit("./");
        }
        w.substring_char(2, n).to_owned()
    } else if text_starts_with(w, "/") {
        proof {
            reveal_strlit("/");
        }
        w.substring_char(1, n).to_owned()
    } else {
        w.to_owned()
    }
}

/// The first element of `list` that completes `typed`, if any.
fn find_completion(list: &Vec<String>, typed: &str) -> (r: Option<usize>)
    ensures
        match r {
            Some(i) => i < list@.len() && completes(list@[i as int]@, typed@) && first_completion(views(list@), typed@, 0) == Some(
                list@[i as int]@,
            ),
            None => first_completion(views(list@), typed@, 0) is None,
        },
{
    let mut i: usize = 0;
    while i < list.len()
        invariant
            i <= list.len(),
            first_completion(views(list@), typed@, 0) == first_completion(
                views(list@),
                typed@,
                i as int,
            ),
        decreases list.len() - i,
    {
        let c = list[i].as_str();
        if text_starts_with(c, typed) && !same_text(c, typed) {
            return Some(i);
        }
        i += 1;
    }
    None
}

/// The suggestion for a command being typed. `at_end` says whether the edit
/// cursor is at the end of the command; `names` are the file names of the
/// current listing, in order; `history` is the command history, most recent
/// first.
pub fn suggest_completion(cmd: &str, at_end: bool, names: &Vec<String>, history: &Vec<String>) -> (r: String)
    ensures
        r@ == suggestion(cmd@, at_end, views(names@), views(history@)),
{
    let n = cmd.unicode_len();
    if !at_end || n == 0 {
        return String::new();
    }
    let words = split_text(cmd, ' ');
    proof {
        lemma_split_nonempty(cmd@, ' ');
    }
    let last = words[words.len() - 1].as_str();
    let word = strip_lead_text(last);
    match find_completion(names, word.as_str()) {
        Some(i) => {
            let w = word.as_str().unicode_len();
            if w > 0 {
                let c = names[i].as_str();
                c.substring_char(w, c.unicode_len()).to_owned()
            } else {
                String::new()
            }
        },
        None => match find_completion(history, cmd) {
            Some(i) => {
                let c = history[i].as_str();
                c.substring_char(n, c.unicode_len()).to_owned()
            },
            None => String::new(),
        },
    }
}

} // verus!
