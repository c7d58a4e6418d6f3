use vstd::multiset::Multiset;
use vstd::prelude::*;

use crate::pathmanager::{classified, convert_path_to_nav, join_path_text, join_paths, NavigationCommand};
use crate::text::{
    lemma_text_lt_irreflexive, lemma_text_lt_transitive, push_char, same_text, text_less, text_lt,
};

verus! {

broadcast use vstd::seq_lib::group_to_multiset_ensures;

/// One child of a directory as the file system lists it.
#[derive(Debug)]
pub struct DirChild {
    pub name: String,
    pub is_dir: bool,
}

/// One line of a directory listing: where it leads and how it is shown.
#[derive(Debug)]
pub struct ReadDirItems {
    pub path: String,
    pub navigation_type: NavigationCommand,
    pub label: String,
    pub file_name: String,
    pub is_dir: bool,
}

/// What is shown for a file that is opened.
pub struct MetadataInfo {
    pub display_name: String,
    pub size: u64,
    pub modified: String,
}

/// Names that start with `.` are hidden.
pub open spec fn is_hidden(name: Seq<char>) -> bool {
    name.len() > 0 && name[0] == '.'
}

/// A directory is shown with a trailing `/`, a file by its name.
pub open spec fn label_of(name: Seq<char>, is_dir: bool) -> Seq<char> {
    if is_dir {
        name.push('/')
    } else {
        name
    }
}

/// The children that a listing shows, in the order given.
pub open spec fn shown(children: Seq<DirChild>, hide_hidden: bool) -> Seq<DirChild>
    decreases children.len(),
{
    if children.len() == 0 {
        children
    } else if hide_hidden && is_hidden(children.last().name@) {
        shown(children.drop_last(), hide_hidden)
    } else {
        shown(children.drop_last(), hide_hidden).push(children.last())
    }
}

/// `item` is the listing line for child `c` of directory `dir`; selecting
/// it navigates to the child's own path.
pub open spec fn is_entry_for(item: ReadDirItems, dir: Seq<char>, c: DirChild) -> bool {
    &&& item.path@ == join_paths(dir, c.name@)
    &&& item.file_name@ == c.name@
    &&& item.label@ == label_of(c.name@, c.is_dir)
    &&& item.is_dir == c.is_dir
    &&& classified(item.path@, item.navigation_type)
}

/// The synthetic line that leads to the parent directory.
pub open spec fn is_parent_entry(item: ReadDirItems) -> bool {
    &&& item.path@ == "../"@
    &&& item.file_name@ == "../"@
    &&& item.label@ == "../"@
    &&& item.navigation_type == NavigationCommand::Up(1)
    &&& item.is_dir
}

/// Directories before files, and each kind in label order.
pub open spec fn arranged(s: Seq<ReadDirItems>) -> bool {
    forall|i: int, j: int|
        0 <= i < j < s.len() ==> {
            &&& (s[j].is_dir ==> s[i].is_dir)
            &&& (s[i].is_dir == s[j].is_dir ==> !text_lt(s[j].label@, s[i].label@))
        }
}

pub open spec fn label_sorted(s: Seq<ReadDirItems>) -> bool {
    forall|i: int, j: int| 0 <= i < j < s.len() ==> !text_lt(s[j].label@, s[i].label@)
}

/// The listing line for one child of `dir`.
pub fn entry_for(dir: &str, child: &DirChild) -> (r: ReadDirItems)
    ensures
        is_entry_for(r, dir@, *child),
{
    let path = join_path_text(dir, child.name.as_str());
    let mut label = child.name.as_str().to_owned();
    if child.is_dir {
        push_char(&mut label, '/');
    }
    let navigation_type = convert_path_to_nav(path.as_str());
    ReadDirItems {
        path,
        navigation_type,
        label,
        file_name: child.name.as_str().to_owned(),
        is_dir: child.is_dir,
    }
}

/// The listing lines for the children of `dir`, leaving out hidden ones when
/// `hide_hidden_file` is set; the order of `children` is kept.
pub fn read_dir(dir: &str, children: &Vec<DirChild>, hide_hidden_file: bool) -> (r: Vec<ReadDirItems>)
    ensures
        r@.len() == shown(children@, hide_hidden_file).len(),
        forall|i: int|
            0 <= i < r@.len() ==> is_entry_for(
                #[trigger] r@[i],
                dir@,
                shown(children@, hide_hidden_file)[i],
            ),
{
    let mut res: Vec<ReadDirItems> = Vec::new();
    let mut k: usize = 0;
    while k < children.len()
        invariant
            k <= children.len(),
            res@.len() == shown(children@.take(k as int), hide_hidden_file).len(),
            forall|i: int|
                0 <= i < res@.len() ==> is_entry_for(
                    #[trigger] res@[i],
                    dir@,
                    shown(children@.take(k as int), hide_hidden_file)[i],
                ),
        decreases children.len() - k,
    {
        let ghost t = children@.take(k as int + 1);
        assert(t.drop_last() =~= children@.take(k as int));
        assert(t.last() == children@[k as int]);
        let c = &children[k];
        let hidden = c.name.as_str().unicode_len() > 0 && c.name.as_str().get_char(0) == '.';
        if !(hide_hidden_file && hidden) {
            let item = entry_for(dir, c);
            res.push(item);
        }
        k += 1;
    }
    assert(children@.take(children.len() as int) =~= children@);
    res
}

proof fn lemma_insert_sorted(out: Seq<ReadDirItems>, p: int, x: ReadDirItems)
    requires
        label_sorted(out),
        0 <= p <= out.len(),
        forall|i: int| 0 <= i < p ==> !text_lt(x.label@, #[trigger] out[i].label@),
        p < out.len() ==> text_lt(x.label@, out[p].label@),
    ensures
        label_sorted(out.insert(p, x)),
{
    let n = out.insert(p, x);
    assert forall|i: int, j: int| 0 <= i < j < n.len() implies !text_lt(
        n[j].label@,
        n[i].label@,
    ) by {
        if j < p {
        } else if j == p {
            assert(n[j] == x);
            assert(n[i] == out[i]);
        } else if i < p {
            assert(n[i] == out[i]);
            assert(n[j] == out[j - 1]);
        } else if i == p {
            assert(n[i] == x);
            assert(n[j] == out[j - 1]);
            if text_lt(out[j - 1].label@, x.label@) {
                if j - 1 == p {
                    lemma_text_lt_transitive(out[p].label@, x.label@, out[p].label@);
                    lemma_text_lt_irreflexive(out[p].label@);
                } else {
                    lemma_text_lt_transitive(out[j - 1].label@, x.label@, out[p].label@);
                }
            }
        } else {
            assert(n[i] == out[i - 1]);
            assert(n[j] == out[j - 1]);
        }
    }
}

/// The items ordered by label.
fn sort_by_label(items: Vec<ReadDirItems>) -> (r: Vec<ReadDirItems>)
    ensures
        r@.to_multiset() == items@.to_multiset(),
        label_sorted(r@),
{
    let mut rest = items;
    let mut out: Vec<ReadDirItems> = Vec::new();
    while rest.len() > 0
        invariant
            out@.to_multiset().add(rest@.to_multiset()) == items@.to_multiset(),
            label_sorted(out@),
        decreases rest.len(),
    {
        let ghost before = rest@;
        let x = rest.pop().unwrap();
        assert(before =~= rest@.push(x));
        let mut p: usize = 0;
        while p < out.len() && !text_less(x.label.as_str(), out[p].label.as_str())
            invariant
                p <= out.len(),
                forall|i: int| 0 <= i < p ==> !text_lt(x.label@, #[trigger] out@[i].label@),
            decreases out.len() - p,
        {
            p += 1;
        }
        proof {
            lemma_insert_sorted(out@, p as int, x);
        }
        let ghost out_before = out@;
        out.insert(p, x);
        assert(out@.to_multiset() =~= out_before.to_multiset().insert(x));
        assert(out@.to_multiset().add(rest@.to_multiset()) =~= items@.to_multiset());
    }
    assert(rest@.to_multiset() =~= Multiset::<ReadDirItems>::empty());
    assert(out@.to_multiset().add(rest@.to_multiset()) =~= out@.to_multiset());
    out
}

/// The line that leads to the parent directory.
pub fn parent_entry() -> (r: ReadDirItems)
    ensures
        is_parent_entry(r),
{
    ReadDirItems {
        path: "../".to_owned(),
        navigation_type: NavigationCommand::Up(1),
        label: "../".to_owned(),
        file_name: "../".to_owned(),
        is_dir: true,
    }
}

/// The single line shown when a directory cannot be listed: it leads to
/// `target`.
pub fn fallback_entries(target: &str) -> (r: Vec<ReadDirItems>)
    ensures
        r@.len() == 1,
        r@[0].path@ == target@,
        r@[0].navigation_type matches NavigationCommand::Absolute(p) && p@ == target@,
        r@[0].file_name@ == "/"@,
        r@[0].label@ == target@,
        r@[0].is_dir,
{
    let mut v: Vec<ReadDirItems> = Vec::new();
    v.push(
        ReadDirItems {
            path: target.to_owned(),
            navigation_type: NavigationCommand::Absolute(target.to_owned()),
            label: target.to_owned(),
            file_name: "/".to_owned(),
            is_dir: true,
        },
    );
    v
}

/// The listing as it is shown: a line to the parent unless `current` is the
/// root, then the directories, then the files, each in label order.
pub fn arrange_entries(current: &str, items: Vec<ReadDirItems>) -> (r: Vec<ReadDirItems>)
    ensures
        ({
            let off: int = if current@ == "/"@ {
                0
            } else {
                1
            };
            &&& r@.len() == off + items@.len()
            &&& off == 1 ==> is_parent_entry(r@[0])
            &&& r@.subrange(off, r@.len() as int).to_multiset() == items@.to_multiset()
            &&& arranged(r@.subrange(off, r@.len() as int))
        }),
{
    let mut dirs: Vec<ReadDirItems> = Vec::new();
    let mut files: Vec<ReadDirItems> = Vec::new();
    let mut rest = items;
    while rest.len() > 0
        invariant
            dirs@.to_multiset().add(files@.to_multiset()).add(rest@.to_multiset())
                == items@.to_multiset(),
            forall|i: int| 0 <= i < dirs@.len() ==> (#[trigger] dirs@[i]).is_dir,
            forall|i: int| 0 <= i < files@.len() ==> !(#[trigger] files@[i]).is_dir,
        decreases rest.len(),
    {
        let ghost before = rest@;
        let x = rest.pop().unwrap();
        assert(before =~= rest@.push(x));
        if x.is_dir {
            dirs.push(x);
        } else {
            files.push(x);
        }
        assert(dirs@.to_multiset().add(files@.to_multiset()).add(rest@.to_multiset())
            =~= items@.to_multiset());
    }
    let ghost dirs_ms = dirs@.to_multiset();
    let ghost files_ms = files@.to_multiset();
    let sorted_dirs = sort_by_label(dirs);
    let sorted_files = sort_by_label(files);
    proof {
        assert forall|i: int| 0 <= i < sorted_dirs@.len() implies (#[trigger] sorted_dirs@[i]).is_dir by {
            assert(sorted_dirs@.to_multiset().count(sorted_dirs@[i]) > 0);
            assert(dirs_ms.count(sorted_dirs@[i]) > 0);
        }
        assert forall|i: int| 0 <= i < sorted_files@.len() implies !(#[trigger] sorted_files@[i]).is_dir by {
            assert(sorted_files@.to_multiset().count(sorted_files@[i]) > 0);
            assert(files_ms.count(sorted_files@[i]) > 0);
        }
    }
    let mut res: Vec<ReadDirItems> = Vec::new();
    let at_root = same_text(current, "/");
    if !at_root {
        res.push(parent_entry());
    }
    let ghost off: int = if at_root {
        0
    } else {
        1
    };
    let ghost head = res@;
    let mut sd = sorted_dirs;
    let mut sf = sorted_files;
    let ghost sdv = sd@;
    let ghost sfv = sf@;
    res.append(&mut sd);
    res.append(&mut sf);
    proof {
        let body = res@.subrange(off, res@.len() as int);
        assert(body =~= sdv + sfv);
        vstd::seq_lib::lemma_multiset_commutative(sdv, sfv);
        assert(body.to_multiset() =~= items@.to_multiset());
        vstd::seq_lib::to_multiset_len(body);
        vstd::seq_lib::to_multiset_len(items@);
        assert(res@ =~= head + sdv + sfv);
        if !at_root {
            assert(res@[0] == head[0]);
        }
        assert forall|i: int, j: int| 0 <= i < j < body.len() implies {
            &&& (body[j].is_dir ==> body[i].is_dir)
            &&& (body[i].is_dir == body[j].is_dir ==> !text_lt(body[j].label@, body[i].label@))
        } by {
            if j < sdv.len() {
                assert(body[i] == sdv[i]);
                assert(body[j] == sdv[j]);
            } else if i >= sdv.len() {
                assert(body[i] == sfv[i - sdv.len()]);
                assert(body[j] == sfv[j - sdv.len()]);
            } else {
                assert(body[i] == sdv[i]);
                assert(body[j] == sfv[j - sdv.len()]);
            }
        }
    }
    res
}

} // verus!
