use vstd::prelude::*;

use crate::text::{
    has_prefix, join_with, lemma_split_concat, lemma_split_nonempty, lemma_split_parts_no_sep,
    lemma_split_single, same_text, split_on, text_starts_with, views,
};

verus! {

/// Where a typed path expression asks to go.
#[derive(Debug, PartialEq, Eq)]
pub enum NavigationCommand {
    /// Up this many parent steps.
    Up(usize),
    Root,
    Home,
    WorkingDirectory,
    Absolute(String),
    Relative(String),
}

pub open spec fn dot() -> Seq<char> {
    seq!['.']
}

pub open spec fn dot_dot() -> Seq<char> {
    seq!['.', '.']
}

/// One component applied to the stack of kept components: empty and `.`
/// pieces are skipped, `..` drops the last kept one (if any), anything else
/// is kept.
pub open spec fn step(stack: Seq<Seq<char>>, comp: Seq<char>) -> Seq<Seq<char>> {
    if comp.len() == 0 || comp == dot() {
        stack
    } else if comp == dot_dot() {
        if stack.len() > 0 {
            stack.drop_last()
        } else {
            stack
        }
    } else {
        stack.push(comp)
    }
}

/// The components that survive after walking `comps` left to right.
pub open spec fn kept(comps: Seq<Seq<char>>) -> Seq<Seq<char>>
    decreases comps.len(),
{
    if comps.len() == 0 {
        Seq::<Seq<char>>::empty()
    } else {
        step(kept(comps.drop_last()), comps.last())
    }
}

pub open spec fn is_absolute(p: Seq<char>) -> bool {
    p.len() > 0 && p[0] == '/'
}

pub open spec fn root_prefix(p: Seq<char>) -> Seq<char> {
    if is_absolute(p) {
        seq!['/']
    } else {
        Seq::<char>::empty()
    }
}

/// A path rendered from a root flag and its kept components.
pub open spec fn render(absolute: bool, comps: Seq<Seq<char>>) -> Seq<char> {
    if absolute {
        seq!['/'] + join_with(comps, '/')
    } else {
        join_with(comps, '/')
    }
}

/// The lexical normal form of a path.
pub open spec fn normalize(p: Seq<char>) -> Seq<char> {
    render(is_absolute(p), kept(split_on(p, '/')))
}

/// A component that survives normalisation unchanged: non-empty, neither
/// `.` nor `..`, and free of separators.
pub open spec fn is_clean(c: Seq<char>) -> bool {
    &&& c.len() > 0
    &&& c != dot()
    &&& c != dot_dot()
    &&& forall|i: int| 0 <= i < c.len() ==> c[i] != '/'
}

pub open spec fn all_clean(cs: Seq<Seq<char>>) -> bool {
    forall|i: int| 0 <= i < cs.len() ==> is_clean(#[trigger] cs[i])
}

pub open spec fn no_slash_parts(cs: Seq<Seq<char>>) -> bool {
    forall|i: int, j: int| 0 <= i < cs.len() && 0 <= j < cs[i].len() ==> cs[i][j] != '/'
}

proof fn lemma_kept_clean(comps: Seq<Seq<char>>)
    requires
        no_slash_parts(comps),
    ensures
        all_clean(kept(comps)),
    decreases comps.len(),
{
    if comps.len() > 0 {
        let d = comps.drop_last();
        assert forall|i: int, j: int| 0 <= i < d.len() && 0 <= j < d[i].len() implies d[i][j]
            != '/' by {
            assert(d[i] == comps[i]);
        }
        lemma_kept_clean(d);
        let k = kept(d);
        let c = comps.last();
        assert(c == comps[comps.len() - 1]);
        if !(c.len() == 0 || c == dot() || c == dot_dot()) {
            assert forall|i: int| 0 <= i < k.push(c).len() implies is_clean(#[trigger] k.push(c)[i]) by {
                if i < k.len() {
                    assert(k.push(c)[i] == k[i]);
                }
            }
        } else if c == dot_dot() && k.len() > 0 {
            assert forall|i: int| 0 <= i < k.drop_last().len() implies is_clean(
                #[trigger] k.drop_last()[i],
            ) by {
                assert(k.drop_last()[i] == k[i]);
            }
        }
    }
}

proof fn lemma_kept_append_clean(prefix: Seq<Seq<char>>, st: Seq<Seq<char>>)
    requires
        all_clean(st),
    ensures
        kept(prefix + st) == kept(prefix) + st,
    decreases st.len(),
{
    if st.len() == 0 {
        assert(prefix + st =~= prefix);
        assert(kept(prefix) + st =~= kept(prefix));
    } else {
        let d = st.drop_last();
        assert forall|i: int| 0 <= i < d.len() implies is_clean(#[trigger] d[i]) by {
            assert(d[i] == st[i]);
        }
        lemma_kept_append_clean(prefix, d);
        assert((prefix + st).drop_last() =~= prefix + d);
        assert((prefix + st).last() == st.last());
        assert(is_clean(st[st.len() - 1]));
        assert((kept(prefix) + d).push(st.last()) =~= kept(prefix) + st);
    }
}

proof fn lemma_split_join(st: Seq<Seq<char>>)
    requires
        st.len() >= 1,
        all_clean(st),
    ensures
        split_on(join_with(st, '/'), '/') == st,
    decreases st.len(),
{
    assert(is_clean(st[st.len() - 1]));
    if st.len() == 1 {
        assert(is_clean(st[0]));
        lemma_split_single(st[0], '/');
        assert(seq![st[0]] =~= st);
    } else {
        let d = st.drop_last();
        assert forall|i: int| 0 <= i < d.len() implies is_clean(#[trigger] d[i]) by {
            assert(d[i] == st[i]);
        }
        lemma_split_join(d);
        lemma_split_concat(join_with(d, '/'), st.last(), '/');
        lemma_split_single(st.last(), '/');
        assert(d + seq![st.last()] =~= st);
    }
}

proof fn lemma_join_first(st: Seq<Seq<char>>)
    requires
        st.len() >= 1,
        st[0].len() > 0,
    ensures
        join_with(st, '/').len() > 0,
        join_with(st, '/')[0] == st[0][0],
    decreases st.len(),
{
    if st.len() > 1 {
        let d = st.drop_last();
        assert(d[0] == st[0]);
        lemma_join_first(d);
    }
}

/// Normalising twice gives the same path as normalising once.
pub proof fn lemma_normalize_idempotent(p: Seq<char>)
    ensures
        normalize(normalize(p)) == normalize(p),
{
    let sp = split_on(p, '/');
    lemma_split_parts_no_sep(p, '/');
    lemma_kept_clean(sp);
    let st = kept(sp);
    let n = normalize(p);
    let e = Seq::<char>::empty();
    let ee: Seq<Seq<char>> = seq![e];
    assert(kept(ee) == step(kept(ee.drop_last()), ee.last()));
    assert(kept(ee) =~= Seq::<Seq<char>>::empty());
    if is_absolute(p) {
        assert(n =~= e.push('/') + join_with(st, '/'));
        lemma_split_concat(e, join_with(st, '/'), '/');
        assert(is_absolute(n));
        if st.len() == 0 {
            assert(split_on(n, '/') =~= ee + ee);
            lemma_kept_append_clean(ee, ee.drop_last());
            assert(ee + ee == (ee + ee).drop_last().push(e));
            assert((ee + ee).drop_last() =~= ee);
            assert(kept(ee + ee) == kept(ee));
            assert(normalize(n) =~= n);
        } else {
            lemma_split_join(st);
            lemma_kept_append_clean(ee, st);
            assert(Seq::<Seq<char>>::empty() + st =~= st);
        }
    } else {
        if st.len() == 0 {
            assert(n =~= e);
            assert(split_on(n, '/') == ee);
        } else {
            assert(is_clean(st[0]));
            lemma_join_first(st);
            lemma_split_join(st);
            lemma_kept_append_clean(Seq::<Seq<char>>::empty(), st);
            assert(Seq::<Seq<char>>::empty() + st =~= st);
            assert(kept(Seq::<Seq<char>>::empty()) =~= Seq::<Seq<char>>::empty());
        }
    }
}

fn starts_with_slash(s: &str) -> (r: bool)
    ensures
        r == is_absolute(s@),
{
    if s.unicode_len() == 0 {
        false
    } else {
        s.get_char(0) == '/'
    }
}

fn is_dot(s: &str) -> (r: bool)
    ensures
        r == (s@ == dot()),
{
    if s.unicode_len() == 1 {
        let r = s.get_char(0) == '.';
        assert(r ==> s@ =~= dot());
        r
    } else {
        false
    }
}

fn is_dot_dot(s: &str) -> (r: bool)
    ensures
        r == (s@ == dot_dot()),
{
    if s.unicode_len() == 2 {
        let r = s.get_char(0) == '.' && s.get_char(1) == '.';
        assert(r ==> s@ =~= dot_dot());
        r
    } else {
        false
    }
}

fn apply_component(stack: &mut Vec<String>, comp: &str)
    ensures
        views(final(stack)@) == step(views(old(stack)@), comp@),
{
    if comp.unicode_len() == 0 || is_dot(comp) {
    } else if is_dot_dot(comp) {
        if stack.len() > 0 {
            stack.pop();
            assert(views(stack@) =~= views(old(stack)@).drop_last());
        }
    } else {
        stack.push(comp.to_owned());
        assert(views(stack@) =~= views(old(stack)@).push(comp@));
    }
}

fn render_path(absolute: bool, comps: &Vec<String>) -> (r: String)
    ensures
        r@ == render(absolute, views(comps@)),
{
    let mut out = String::new();
    if absolute {
        out.append("/");
        proof {
            reveal_strlit("/");
        }
    }
    let ghost head = out@;
    let mut k: usize = 0;
    while k < comps.len()
        invariant
            k <= comps.len(),
            head == (if absolute { seq!['/'] } else { Seq::<char>::empty() }),
            out@ == head + join_with(views(comps@).take(k as int), '/'),
        decreases comps.len() - k,
    {
        let ghost before = out@;
        if k > 0 {
            out.append("/");
            proof {
                reveal_strlit("/");
            }
        }
        out.append(comps[k].as_str());
        proof {
            let t = views(comps@).take(k as int + 1);
            assert(t.drop_last() =~= views(comps@).take(k as int));
            if k == 0 {
                assert(join_with(t, '/') == t[0]);
            }
            assert(out@ =~= head + join_with(t, '/'));
        }
        k += 1;
    }
    assert(views(comps@).take(comps.len() as int) =~= views(comps@));
    out
}

/// The components of `path` that survive normalisation, in order.
fn components_of(path: &str) -> (r: Vec<String>)
    ensures
        views(r@) == kept(split_on(path@, '/')),
{
    let n = path.unicode_len();
    let mut stack: Vec<String> = Vec::new();
    let mut start: usize = 0;
    let mut i: usize = 0;
    assert(path@.subrange(0, 0) =~= Seq::<char>::empty());
    while i < n
        invariant
            n == path@.len(),
            start <= i <= n,
            split_on(path@.subrange(0, i as int), '/').len() >= 1,
            views(stack@) == kept(split_on(path@.subrange(0, i as int), '/').drop_last()),
            split_on(path@.subrange(0, i as int), '/').last() == path@.subrange(start as int, i as int),
        decreases n - i,
    {
        let ghost pre = path@.subrange(0, i as int);
        let ghost pre1 = path@.subrange(0, i as int + 1);
        assert(pre1.drop_last() =~= pre);
        assert(pre1.last() == path@[i as int]);
        if path.get_char(i) == '/' {
            let comp = path.substring_char(start, i);
            apply_component(&mut stack, comp);
            start = i + 1;
            proof {
                assert(split_on(pre1, '/').drop_last() =~= split_on(pre, '/'));
                assert(path@.subrange(start as int, i as int + 1) =~= Seq::<char>::empty());
            }
        } else {
            proof {
                let sp = split_on(pre, '/');
                assert(split_on(pre1, '/').drop_last() =~= sp.drop_last());
                assert(path@.subrange(start as int, i as int + 1) =~= path@.subrange(
                    start as int,
                    i as int,
                ).push(path@[i as int]));
            }
        }
        i += 1;
    }
    let comp = path.substring_char(start, n);
    apply_component(&mut stack, comp);
    proof {
        assert(path@.subrange(0, n as int) =~= path@);
    }
    stack
}

/// Rewrites a path lexically: repeated separators and `.` components go,
/// `..` removes the component before it (never past the start), and a
/// leading `/` is kept. The file system is not consulted.
pub fn normalize_path(path: &str) -> (r: String)
    ensures
        r@ == normalize(path@),
{
    let comps = components_of(path);
    render_path(starts_with_slash(path), &comps)
}

pub open spec fn count_char(s: Seq<char>, c: char) -> nat
    decreases s.len(),
{
    if s.len() == 0 {
        0
    } else {
        count_char(s.drop_last(), c) + if s.last() == c {
            1nat
        } else {
            0nat
        }
    }
}

pub open spec fn tilde() -> Seq<char> {
    seq!['~']
}

pub open spec fn home_var() -> Seq<char> {
    seq!['$', 'H', 'O', 'M', 'E']
}

/// How `classify` reads a path expression: a leading `..` climbs one level
/// fewer than the number of dots in it, `.` is the working directory, `/`
/// the root, `~` and `$HOME` the home directory, another leading `/` an
/// absolute path, and anything else a relative one.
pub open spec fn classified(s: Seq<char>, cmd: NavigationCommand) -> bool {
    if has_prefix(s, dot_dot()) {
        cmd == NavigationCommand::Up((count_char(s, '.') - 1) as usize)
    } else if s == dot() {
        cmd == NavigationCommand::WorkingDirectory
    } else if s == seq!['/'] {
        cmd == NavigationCommand::Root
    } else if s == tilde() || s == home_var() {
        cmd == NavigationCommand::Home
    } else if is_absolute(s) {
        cmd matches NavigationCommand::Absolute(p) && p@ == s
    } else {
        cmd matches NavigationCommand::Relative(p) && p@ == s
    }
}

fn count_dots(s: &str) -> (r: usize)
    ensures
        r == count_char(s@, '.'),
{
    let n = s.unicode_len();
    let mut count: usize = 0;
    let mut i: usize = 0;
    while i < n
        invariant
            n == s@.len(),
            i <= n,
            count == count_char(s@.subrange(0, i as int), '.'),
            count <= i,
        decreases n - i,
    {
        assert(s@.subrange(0, i + 1).drop_last() =~= s@.subrange(0, i as int));
        if s.get_char(i) == '.' {
            count += 1;
        }
        i += 1;
    }
    assert(s@.subrange(0, n as int) =~= s@);
    count
}

/// Reads a typed path expression as a navigation. Every input reads as
/// something; what is not recognised is a relative path.
pub fn convert_path_to_nav(path: &str) -> (r: NavigationCommand)
    ensures
        classified(path@, r),
{
    proof {
        reveal_strlit("..");
        reveal_strlit(".");
        reveal_strlit("/");
        reveal_strlit("~");
        reveal_strlit("$HOME");
        assert(".."@ =~= dot_dot());
        assert("."@ =~= dot());
        assert("/"@ =~= seq!['/']);
        assert("~"@ =~= tilde());
        assert("$HOME"@ =~= home_var());
    }
    if text_starts_with(path, "..") {
        let dots = count_dots(path);
        proof {
            assert(path@.subrange(0, 2) =~= dot_dot());
            lemma_count_prefix(path@, 2, '.');
        }
        NavigationCommand::Up(dots - 1)
    } else if same_text(path, ".") {
        NavigationCommand::WorkingDirectory
    } else if same_text(path, "/") {
        NavigationCommand::Root
    } else if same_text(path, "~") || same_text(path, "$HOME") {
        NavigationCommand::Home
    } else if starts_with_slash(path) {
        NavigationCommand::Absolute(path.to_owned())
    } else {
        NavigationCommand::Relative(path.to_owned())
    }
}

proof fn lemma_count_prefix(s: Seq<char>, k: int, c: char)
    requires
        0 <= k <= s.len(),
        forall|i: int| 0 <= i < k ==> s[i] == c,
    ensures
        count_char(s, c) >= k,
    decreases s.len(),
{
    if s.len() > k {
        lemma_count_prefix(s.drop_last(), k, c);
    } else if s.len() > 0 {
        lemma_count_prefix(s.drop_last(), k - 1, c);
    }
}

/// Why a navigation could not be resolved.
#[derive(PartialEq, Eq, Structural, Debug, Clone, Copy)]
pub enum PathError {
    /// The home directory was asked for and is not known.
    HomeNotFound,
}

/// `~` alone or `~/...`: a path that starts at the home directory.
pub open spec fn tilde_led(p: Seq<char>) -> bool {
    p == tilde() || (p.len() >= 2 && p[0] == '~' && p[1] == '/')
}

/// `b` read from `a`: `b` itself when it is absolute or `a` is empty,
/// else the two with a separator between them.
pub open spec fn join_paths(a: Seq<char>, b: Seq<char>) -> Seq<char> {
    if is_absolute(b) || a.len() == 0 {
        b
    } else {
        a.push('/') + b
    }
}

/// The components of `p` with the last `n` of them removed (all of them
/// when it has fewer).
pub open spec fn climb(p: Seq<char>, n: nat) -> Seq<char> {
    let comps = kept(split_on(p, '/'));
    let keep = if n >= comps.len() {
        0
    } else {
        comps.len() - n
    };
    render(is_absolute(p), comps.take(keep))
}

/// How many components a path has once normalised; for an absolute path
/// this is how many ancestors it has.
pub open spec fn depth(p: Seq<char>) -> nat {
    kept(split_on(p, '/')).len()
}

/// Where a navigation leads from `current`, given the home directory and the
/// process working directory when they are known.
pub open spec fn resolve(
    current: Seq<char>,
    cmd: NavigationCommand,
    home: Option<String>,
    working_dir: Option<String>,
) -> Result<Seq<char>, PathError> {
    match cmd {
        NavigationCommand::Up(n) => Ok(climb(current, n as nat)),
        NavigationCommand::Root => Ok(seq!['/']),
        NavigationCommand::Home => match home {
            Some(h) => Ok(h@),
            None => Err(PathError::HomeNotFound),
        },
        NavigationCommand::WorkingDirectory => match working_dir {
            Some(w) => Ok(w@),
            None => Ok(seq!['/']),
        },
        NavigationCommand::Absolute(p) => Ok(p@),
        NavigationCommand::Relative(p) => {
            if tilde_led(p@) {
                match home {
                    Some(h) => Ok(normalize(join_paths(current, h@ + p@.subrange(1, p@.len() as int)))),
                    None => Err(PathError::HomeNotFound),
                }
            } else {
                Ok(normalize(join_paths(current, p@)))
            }
        },
    }
}

pub open spec fn result_view(r: Result<String, PathError>) -> Result<Seq<char>, PathError> {
    match r {
        Ok(s) => Ok(s@),
        Err(e) => Err(e),
    }
}

fn is_tilde_led(p: &str) -> (r: bool)
    ensures
        r == tilde_led(p@),
{
    let n = p.unicode_len();
    proof {
        reveal_strlit("~");
        assert("~"@ =~= tilde());
    }
    if same_text(p, "~") {
        true
    } else {
        n >= 2 && p.get_char(0) == '~' && p.get_char(1) == '/'
    }
}

pub fn join_path_text(a: &str, b: &str) -> (r: String)
    ensures
        r@ == join_paths(a@, b@),
{
    if starts_with_slash(b) || a.unicode_len() == 0 {
        b.to_owned()
    } else {
        let mut r = a.to_owned();
        r.append("/");
        r.append(b);
        proof {
            reveal_strlit("/");
            assert(r@ =~= a@.push('/') + b@);
        }
        r
    }
}

/// Resolves a navigation against the current directory. `Up` climbs the
/// normalised path and stops at its start; a relative path is joined onto
/// `current_dir` (after `~` is replaced by the home directory) and
/// normalised; an absolute one is returned as it is. Only the home
/// directory can be missing.
pub fn resolve_path(
    current_dir: &str,
    command: &NavigationCommand,
    home: &Option<String>,
    working_dir: &Option<String>,
) -> (r: Result<String, PathError>)
    ensures
        result_view(r) == resolve(current_dir@, *command, *home, *working_dir),
{
    match command {
        NavigationCommand::Up(levels) => {
            let mut comps = components_of(current_dir);
            let keep = if *levels >= comps.len() {
                0
            } else {
                comps.len() - *levels
            };
            comps.truncate(keep);
            proof {
                assert(views(comps@) =~= kept(split_on(current_dir@, '/')).take(keep as int));
            }
            Ok(render_path(starts_with_slash(current_dir), &comps))
        },
        NavigationCommand::Root => {
            proof {
                reveal_strlit("/");
                assert("/"@ =~= seq!['/']);
            }
            Ok("/".to_owned())
        },
        NavigationCommand::Home => match home {
            Some(h) => Ok(h.clone()),
            None => Err(PathError::HomeNotFound),
        },
        NavigationCommand::WorkingDirectory => match working_dir {
            Some(w) => Ok(w.clone()),
            None => {
                proof {
                    reveal_strlit("/");
                    assert("/"@ =~= seq!['/']);
                }
                Ok("/".to_owned())
            },
        },
        NavigationCommand::Absolute(p) => Ok(p.clone()),
        NavigationCommand::Relative(p) => {
            if is_tilde_led(p.as_str()) {
                match home {
                    Some(h) => {
                        let mut expanded = h.clone();
                        let rest = p.as_str().substring_char(1, p.as_str().unicode_len());
                        expanded.append(rest);
                        let joined = join_path_text(current_dir, expanded.as_str());
                        Ok(normalize_path(joined.as_str()))
                    },
                    None => Err(PathError::HomeNotFound),
                }
            } else {
                let joined = join_path_text(current_dir, p.as_str());
                Ok(normalize_path(joined.as_str()))
            }
        },
    }
}

/// Climbing more levels than an absolute path has ancestors ends at the root
/// and does not fail.
pub proof fn lemma_up_stops_at_root(
    current: Seq<char>,
    n: usize,
    home: Option<String>,
    working_dir: Option<String>,
)
    requires
        is_absolute(current),
        depth(current) < n,
    ensures
        resolve(current, NavigationCommand::Up(n), home, working_dir) == Ok::<Seq<char>, PathError>(
            seq!['/'],
        ),
{
    let comps = kept(split_on(current, '/'));
    assert(comps.take(0) =~= Seq::<Seq<char>>::empty());
    assert(seq!['/'] + Seq::<char>::empty() =~= seq!['/']);
}

/// An absolute path produced by a resolution, read back as a path
/// expression and resolved again from any directory, comes back unchanged.
pub proof fn lemma_resolve_round_trip(
    earlier_dir: Seq<char>,
    earlier: NavigationCommand,
    current: Seq<char>,
    s: Seq<char>,
    cmd: NavigationCommand,
    home: Option<String>,
    working_dir: Option<String>,
)
    requires
        resolve(earlier_dir, earlier, home, working_dir) == Ok::<Seq<char>, PathError>(s),
        is_absolute(s),
        classified(s, cmd),
    ensures
        resolve(current, cmd, home, working_dir) == Ok::<Seq<char>, PathError>(s),
{
    if has_prefix(s, dot_dot()) {
        assert(s.subrange(0, 2)[0] == s[0]);
    }
    if s == dot() || s == tilde() || s == home_var() {
        assert(s[0] != '/');
    }
}

} // verus!
