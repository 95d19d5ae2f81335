//! Reading what the system reports: the screen size from `xrandr` or
//! `wlr-randr`, parent processes from `/proc`. Running the programs and
//! reading the files is the caller's.
use vstd::prelude::*;

use crate::text::{
    all_digits, chars_of, contains, contains_seq, find_char, index_of, is_digit, lead_len, lemma_index_of,
    lines, lines_spec, parse_u32, parse_u32_spec, trim, trim_spec, split_once, split_once_spec, starts_with, starts_with_seq,
    trim_end, trim_end_spec, trim_start, trim_start_spec, views, words, words_spec, CharClass,
};

verus! {

// ───────────────────────────── screen size ─────────────────────────────────

/// The size used when no tool reports one.
pub open spec fn fallback_resolution() -> (u32, u32) {
    (1920, 1080)
}

/// A size is believed only above 320×240.
pub open spec fn plausible(w: u32, h: u32) -> bool {
    w > 320 && h > 240
}

/// A word of `xrandr` output that looks like a mode: it holds an `x` and
/// starts with a digit.
pub open spec fn is_mode_word(w: Seq<char>) -> bool {
    index_of(w, 'x') >= 0 && w.len() > 0 && is_digit(w[0])
}

/// The first word that looks like a mode.
pub open spec fn first_mode_word(ws: Seq<Seq<char>>) -> Option<Seq<char>>
    decreases ws.len(),
{
    if ws.len() == 0 {
        None
    } else if is_mode_word(ws[0]) {
        Some(ws[0])
    } else {
        first_mode_word(ws.drop_first())
    }
}

/// The size a mode word of `xrandr` gives (`1920x1080+0+0`, `2560x1440*`):
/// the part before any `+`, split at its first `x`; the width must parse,
/// and the height once characters other than digits are cut from its end.
pub open spec fn mode_size(word: Seq<char>) -> Option<(u32, u32)> {
    let res = split_once_spec(word, '+').0;
    let (a, b) = split_once_spec(res, 'x');
    match b {
        None => None,
        Some(b) => match (parse_u32_spec(a), parse_u32_spec(trim_end_spec(b, CharClass::NonDigit))) {
            (Some(w), Some(h)) => if plausible(w, h) { Some((w, h)) } else { None },
            _ => None,
        },
    }
}

/// The size one line of `xrandr` output gives: lines that mention
/// ` connected` or start with three spaces are read, at their first mode
/// word.
pub open spec fn xrandr_line_size(line: Seq<char>) -> Option<(u32, u32)> {
    if contains_seq(line, " connected"@) || starts_with_seq(line, "   "@) {
        match first_mode_word(words_spec(line)) {
            Some(w) => mode_size(w),
            None => None,
        }
    } else {
        None
    }
}

/// The size one line of `wlr-randr` output gives: lines that start (after
/// white space) with a quote are skipped; otherwise the text from the first
/// digit on, when it holds an `x`, is split at that `x`: the width must
/// parse, and so must the first word of the rest.
pub open spec fn wlr_line_size(line: Seq<char>) -> Option<(u32, u32)> {
    if starts_with_seq(trim_start_spec(line, CharClass::Whitespace), "\""@) {
        None
    } else {
        let pos = lead_len(line, CharClass::NonDigit, true);
        if pos >= line.len() {
            None
        } else {
            let part = line.skip(pos as int);
            let (a, b) = split_once_spec(part, 'x');
            match b {
                None => None,
                Some(b) => {
                    let ws = words_spec(b);
                    match (parse_u32_spec(a), if ws.len() > 0 { parse_u32_spec(ws[0]) } else { None }) {
                        (Some(w), Some(h)) => if plausible(w, h) { Some((w, h)) } else { None },
                        _ => None,
                    }
                },
            }
        }
    }
}

/// The first size any line gives, with `f` reading one line.
pub open spec fn first_size(ls: Seq<Seq<char>>, wlr: bool) -> Option<(u32, u32)>
    decreases ls.len(),
{
    if ls.len() == 0 {
        None
    } else {
        let here = if wlr { wlr_line_size(ls[0]) } else { xrandr_line_size(ls[0]) };
        match here {
            Some(s) => Some(s),
            None => first_size(ls.drop_first(), wlr),
        }
    }
}

/// The size the framebuffer's `virtual_size` file gives (`2560,1440`): the
/// text split at its first `,`, each side a number once white space is
/// trimmed from it.
pub open spec fn fb_size(text: Seq<char>) -> Option<(u32, u32)> {
    let (a, b) = split_once_spec(text, ',');
    match b {
        None => None,
        Some(b) => match (
            parse_u32_spec(trim_spec(a, CharClass::Whitespace)),
            parse_u32_spec(trim_spec(b, CharClass::Whitespace)),
        ) {
            (Some(w), Some(h)) => if plausible(w, h) { Some((w, h)) } else { None },
            _ => None,
        },
    }
}

/// The screen size: from `xrandr`'s output when it ran and reported one,
/// else from `wlr-randr`'s, else from the framebuffer's `virtual_size` file,
/// else 1920×1080.
pub open spec fn screen_size(xrandr: Option<Seq<char>>, wlr: Option<Seq<char>>, fb: Option<Seq<char>>) -> (u32, u32) {
    let x = match xrandr {
        Some(t) => first_size(lines_spec(t), false),
        None => None,
    };
    let y = match wlr {
        Some(t) => first_size(lines_spec(t), true),
        None => None,
    };
    let z = match fb {
        Some(t) => fb_size(t),
        None => None,
    };
    match x {
        Some(s) => s,
        None => match y {
            Some(s) => s,
            None => match z {
                Some(s) => s,
                None => fallback_resolution(),
            },
        },
    }
}

fn framebuffer_size(text: &str) -> (r: Option<(u32, u32)>)
    ensures
        r == fb_size(text@),
{
    let v = chars_of(text);
    let (a, b) = split_once(v.as_slice(), ',');
    match b {
        None => None,
        Some(b) => {
            let at = trim(a.as_slice(), CharClass::Whitespace);
            let bt = trim(b.as_slice(), CharClass::Whitespace);
            size_if_plausible(parse_u32(at.as_slice()), parse_u32(bt.as_slice()))
        },
    }
}

fn mode_word(w: &Vec<char>) -> (r: bool)
    ensures
        r == is_mode_word(w@),
{
    let has_x = find_char(w.as_slice(), 0, 'x').is_some();
    proof {
        assert(w@.skip(0) =~= w@);
    }
    has_x && w.len() > 0 && '0' <= w[0] && w[0] <= '9'
}

fn find_mode_word(ws: &Vec<Vec<char>>) -> (r: Option<usize>)
    ensures
        match r {
            Some(i) => i < ws@.len() && first_mode_word(views(ws@)) == Some(ws@[i as int]@),
            None => first_mode_word(views(ws@)) is None,
        },
{
    let mut i: usize = 0;
    assert(views(ws@).skip(0) =~= views(ws@));
    while i < ws.len()
        invariant
            i <= ws@.len(),
            first_mode_word(views(ws@)) == first_mode_word(views(ws@).skip(i as int)),
        decreases ws@.len() - i,
    {
        assert(views(ws@).skip(i as int).drop_first() =~= views(ws@).skip(i + 1));
        assert(views(ws@).skip(i as int)[0] == ws@[i as int]@);
        if mode_word(&ws[i]) {
            return Some(i);
        }
        i = i + 1;
    }
    None
}

fn size_if_plausible(w: Option<u32>, h: Option<u32>) -> (r: Option<(u32, u32)>)
    ensures
        r == (match (w, h) {
            (Some(w), Some(h)) => if plausible(w, h) { Some((w, h)) } else { None },
            _ => None,
        }),
{
    match (w, h) {
        (Some(w), Some(h)) => if w > 320 && h > 240 { Some((w, h)) } else { None },
        _ => None,
    }
}

fn mode_word_size(word: &Vec<char>) -> (r: Option<(u32, u32)>)
    ensures
        r == mode_size(word@),
{
    let (res, _) = split_once(word.as_slice(), '+');
    let (a, b) = split_once(res.as_slice(), 'x');
    match b {
        None => None,
        Some(b) => {
            let bt = trim_end(b.as_slice(), CharClass::NonDigit);
            size_if_plausible(parse_u32(a.as_slice()), parse_u32(bt.as_slice()))
        },
    }
}

fn xrandr_line(line: &Vec<char>) -> (r: Option<(u32, u32)>)
    ensures
        r == xrandr_line_size(line@),
{
    let read = contains(line.as_slice(), chars_of(" connected").as_slice())
        || starts_with(line.as_slice(), chars_of("   ").as_slice());
    if !read {
        return None;
    }
    let ws = words(line.as_slice());
    match find_mode_word(&ws) {
        Some(i) => mode_word_size(&ws[i]),
        None => None,
    }
}

fn wlr_line(line: &Vec<char>) -> (r: Option<(u32, u32)>)
    ensures
        r == wlr_line_size(line@),
{
    let t = trim_start(line.as_slice(), CharClass::Whitespace);
    if starts_with(t.as_slice(), chars_of("\"").as_slice()) {
        return None;
    }
    let pos = crate::text::lead_from(line.as_slice(), 0, CharClass::NonDigit, true);
    proof {
        assert(line@.skip(0) =~= line@);
    }
    if pos >= line.len() {
        return None;
    }
    let part = crate::text::copy_range(line.as_slice(), pos, line.len());
    assert(part@ =~= line@.skip(pos as int));
    let (a, b) = split_once(part.as_slice(), 'x');
    match b {
        None => None,
        Some(b) => {
            let ws = words(b.as_slice());
            let h = if ws.len() > 0 { parse_u32(ws[0].as_slice()) } else { None };
            proof {
                if ws@.len() > 0 {
                    assert(views(ws@)[0] == ws@[0]@);
                }
            }
            size_if_plausible(parse_u32(a.as_slice()), h)
        },
    }
}

fn first_line_size(text: &str, wlr: bool) -> (r: Option<(u32, u32)>)
    ensures
        r == first_size(lines_spec(text@), wlr),
{
    let v = chars_of(text);
    let ls = lines(v.as_slice());
    let mut i: usize = 0;
    assert(views(ls@).skip(0) =~= views(ls@));
    while i < ls.len()
        invariant
            i <= ls@.len(),
            views(ls@) == lines_spec(text@),
            first_size(lines_spec(text@), wlr) == first_size(views(ls@).skip(i as int), wlr),
        decreases ls@.len() - i,
    {
        assert(views(ls@).skip(i as int).drop_first() =~= views(ls@).skip(i + 1));
        assert(views(ls@).skip(i as int)[0] == ls@[i as int]@);
        let here = if wlr { wlr_line(&ls[i]) } else { xrandr_line(&ls[i]) };
        if here.is_some() {
            return here;
        }
        i = i + 1;
    }
    None
}

/// The screen size, given the output of `xrandr` and of `wlr-randr` (none
/// for a tool that could not be run) and the contents of the framebuffer's
/// `virtual_size` file (none when it could not be read).
pub fn screen_resolution(xrandr: Option<&str>, wlr: Option<&str>, fb: Option<&str>) -> (r: (u32, u32))
    ensures
        r == screen_size(
            match xrandr { Some(t) => Some(t@), None => None },
            match wlr { Some(t) => Some(t@), None => None },
            match fb { Some(t) => Some(t@), None => None },
        ),
{
    let x = match xrandr {
        Some(t) => first_line_size(t, false),
        None => None,
    };
    if let Some(s) = x {
        return s;
    }
    let y = match wlr {
        Some(t) => first_line_size(t, true),
        None => None,
    };
    if let Some(s) = y {
        return s;
    }
    let z = match fb {
        Some(t) => framebuffer_size(t),
        None => None,
    };
    match z {
        Some(s) => s,
        None => (1920, 1080),
    }
}


// ───────────────────────────── processes ───────────────────────────────────

/// The first line that starts with `PPid:`.
pub open spec fn ppid_line(ls: Seq<Seq<char>>) -> Option<Seq<char>>
    decreases ls.len(),
{
    if ls.len() == 0 {
        None
    } else if starts_with_seq(ls[0], "PPid:"@) {
        Some(ls[0])
    } else {
        ppid_line(ls.drop_first())
    }
}

/// The parent process a `/proc/<pid>/status` file names: the second word of
/// its `PPid:` line; 0 when there is no such line or it does not parse.
pub open spec fn ppid_of(status: Seq<char>) -> u32 {
    match ppid_line(lines_spec(status)) {
        None => 0,
        Some(l) => {
            let ws = words_spec(l);
            if ws.len() > 1 {
                match parse_u32_spec(ws[1]) {
                    Some(v) => v,
                    None => 0,
                }
            } else {
                0
            }
        },
    }
}

/// The parent process a `/proc/<pid>/status` file names (0 when none).
pub fn status_ppid(status: &str) -> (r: u32)
    ensures
        r == ppid_of(status@),
{
    let v = chars_of(status);
    let ls = lines(v.as_slice());
    let key = chars_of("PPid:");
    let mut i: usize = 0;
    assert(views(ls@).skip(0) =~= views(ls@));
    while i < ls.len()
        invariant
            i <= ls@.len(),
            key@ == "PPid:"@,
            views(ls@) == lines_spec(status@),
            ppid_line(lines_spec(status@)) == ppid_line(views(ls@).skip(i as int)),
        decreases ls@.len() - i,
    {
        assert(views(ls@).skip(i as int).drop_first() =~= views(ls@).skip(i + 1));
        assert(views(ls@).skip(i as int)[0] == ls@[i as int]@);
        if starts_with(ls[i].as_slice(), key.as_slice()) {
            let ws = words(ls[i].as_slice());
            if ws.len() > 1 {
                assert(views(ws@)[1] == ws@[1]@);
                return match parse_u32(ws[1].as_slice()) {
                    Some(p) => p,
                    None => 0,
                };
            }
            return 0;
        }
        i = i + 1;
    }
    0
}

/// The process id a `/proc` entry's name gives, when it is a number.
pub fn proc_pid(name: &str) -> (r: Option<u32>)
    ensures
        r == parse_u32_spec(name@),
{
    parse_u32(chars_of(name).as_slice())
}

/// Whether some process other than `pid` itself has `pid` as its parent,
/// among `procs` (process id, parent id).
pub fn has_child_process(pid: u32, procs: &Vec<(u32, u32)>) -> (r: bool)
    ensures
        r == exists|i: int| 0 <= i < procs@.len() && (#[trigger] procs@[i]).1 == pid && procs@[i].0 != pid,
{
    let mut i: usize = 0;
    while i < procs.len()
        invariant
            i <= procs@.len(),
            forall|j: int| 0 <= j < i ==> !((#[trigger] procs@[j]).1 == pid && procs@[j].0 != pid),
        decreases procs@.len() - i,
    {
        let (p, pp) = procs[i];
        if pp == pid && p != pid {
            return true;
        }
        i = i + 1;
    }
    false
}

/// The children of `p` among `procs`, in listing order.
fn children_of(procs: &Vec<(u32, u32)>, p: u32) -> (r: Vec<u32>)
    ensures
        forall|k: int| 0 <= k < r@.len() ==> procs@.contains((#[trigger] r@[k], p)),
        forall|i: int| 0 <= i < procs@.len() && (#[trigger] procs@[i]).1 == p ==> r@.contains(procs@[i].0),
{
    let mut r: Vec<u32> = Vec::new();
    let mut i: usize = 0;
    while i < procs.len()
        invariant
            i <= procs@.len(),
            forall|k: int| 0 <= k < r@.len() ==> procs@.contains((#[trigger] r@[k], p)),
            forall|j: int| 0 <= j < i && (#[trigger] procs@[j]).1 == p ==> r@.contains(procs@[j].0),
        decreases procs@.len() - i,
    {
        let (c, pp) = procs[i];
        if pp == p {
            let ghost before = r@;
            r.push(c);
            assert(procs@[i as int] == (c, p));
            assert(r@[r@.len() - 1] == c);
            assert forall|j: int| 0 <= j < i + 1 && (#[trigger] procs@[j]).1 == p implies r@.contains(procs@[j].0) by {
                if j < i {
                    let k = choose|k: int| 0 <= k < before.len() && before[k] == procs@[j].0;
                    assert(r@[k] == before[k]);
                } else {
                    assert(r@[r@.len() - 1] == procs@[j].0);
                }
            }
        }
        i = i + 1;
    }
    r
}

fn contains_pid(v: &Vec<u32>, x: u32) -> (r: bool)
    ensures
        r == v@.contains(x),
{
    let mut i: usize = 0;
    while i < v.len()
        invariant
            i <= v@.len(),
            forall|j: int| 0 <= j < i ==> v@[j] != x,
        decreases v@.len() - i,
    {
        if v[i] == x {
            return true;
        }
        i = i + 1;
    }
    false
}

/// `order` kills the process tree under `root`: no process twice, `root`
/// last, every other process before one of its parents (so children before
/// parents), and every child of a killed process killed too.
pub open spec fn kills_tree(procs: Seq<(u32, u32)>, root: u32, order: Seq<u32>) -> bool {
    &&& order.len() > 0
    &&& order.last() == root
    &&& order.no_duplicates()
    &&& forall|k: int| 0 <= k < order.len() - 1 ==>
        exists|j: int| k < j < order.len() && procs.contains((#[trigger] order[k], order[j]))
    &&& forall|i: int, j: int| 0 <= i < procs.len() && 0 <= j < order.len() && (#[trigger] procs[i]).1 == #[trigger] order[j]
        ==> order.contains(procs[i].0)
}

/// `x` is `root` or has a parent in `visited`.
spec fn pushed_ok(procs: Seq<(u32, u32)>, root: u32, visited: Seq<u32>, x: u32) -> bool {
    x == root || exists|j: int| 0 <= j < visited.len() && procs.contains((x, #[trigger] visited[j]))
}

spec fn universe(procs: Seq<(u32, u32)>, root: u32) -> Seq<u32> {
    seq![root] + procs.map_values(|e: (u32, u32)| e.0)
}

/// What holds between the steps of the walk (`visited` in visiting order,
/// `stack` still to visit): nothing is visited twice, the walk starts at
/// `root`, and only known processes are visited or waiting.
#[verifier::opaque]
spec fn walk_known(procs: Seq<(u32, u32)>, root: u32, visited: Seq<u32>, stack: Seq<u32>) -> bool {
    let u = universe(procs, root);
    &&& visited.no_duplicates()
    &&& visited.len() > 0 ==> visited[0] == root
    &&& visited.len() == 0 ==> stack == seq![root]
    &&& forall|k: int| 0 <= k < visited.len() ==> u.contains(#[trigger] visited[k])
    &&& forall|t: int| 0 <= t < stack.len() ==> u.contains(#[trigger] stack[t])
}

/// Everything waiting is `root` or a child of a visited process.
#[verifier::opaque]
spec fn walk_waiting(procs: Seq<(u32, u32)>, root: u32, visited: Seq<u32>, stack: Seq<u32>) -> bool {
    forall|t: int| 0 <= t < stack.len() ==> pushed_ok(procs, root, visited, #[trigger] stack[t])
}

/// A parent of the `k`-th visited process was visited before it.
spec fn parent_before(procs: Seq<(u32, u32)>, visited: Seq<u32>, k: int) -> bool {
    exists|j: int| 0 <= j < k && procs.contains((visited[k], #[trigger] visited[j]))
}

/// Every visited process but the first has a parent visited before it.
#[verifier::opaque]
spec fn walk_parents(procs: Seq<(u32, u32)>, visited: Seq<u32>) -> bool {
    forall|k: int| 1 <= k < visited.len() ==> #[trigger] parent_before(procs, visited, k)
}

/// Every child of a visited process is visited or waiting.
#[verifier::opaque]
spec fn walk_closed(procs: Seq<(u32, u32)>, visited: Seq<u32>, stack: Seq<u32>) -> bool {
    forall|i: int, j: int| 0 <= i < procs.len() && 0 <= j < visited.len() && (#[trigger] procs[i]).1 == #[trigger] visited[j]
        ==> visited.contains(procs[i].0) || stack.contains(procs[i].0)
}

spec fn walk_inv(procs: Seq<(u32, u32)>, root: u32, visited: Seq<u32>, stack: Seq<u32>) -> bool {
    &&& walk_known(procs, root, visited, stack)
    &&& walk_waiting(procs, root, visited, stack)
    &&& walk_parents(procs, visited)
    &&& walk_closed(procs, visited, stack)
}

proof fn lemma_in_universe(procs: Seq<(u32, u32)>, root: u32, x: u32, p: u32)
    requires
        procs.contains((x, p)),
    ensures
        universe(procs, root).contains(x),
{
    let i = choose|i: int| 0 <= i < procs.len() && procs[i] == (x, p);
    assert(universe(procs, root)[i + 1] == x);
}

proof fn lemma_walk_start(procs: Seq<(u32, u32)>, root: u32)
    ensures
        walk_inv(procs, root, Seq::empty(), seq![root]),
{
    reveal(walk_known);
    reveal(walk_waiting);
    reveal(walk_parents);
    reveal(walk_closed);
    assert(universe(procs, root)[0] == root);
}

proof fn lemma_walk_bound(procs: Seq<(u32, u32)>, root: u32, visited: Seq<u32>, stack: Seq<u32>)
    requires
        walk_inv(procs, root, visited, stack),
    ensures
        visited.len() <= universe(procs, root).len(),
{
    reveal(walk_known);
    let u = universe(procs, root);
    visited.unique_seq_to_set();
    u.lemma_cardinality_of_set();
    assert(visited.to_set().subset_of(u.to_set())) by {
        assert forall|x: u32| visited.to_set().contains(x) implies u.to_set().contains(x) by {
            let k = choose|k: int| 0 <= k < visited.len() && visited[k] == x;
            assert(u.contains(visited[k]));
        }
    }
    vstd::set_lib::lemma_len_subset(visited.to_set(), u.to_set());
}

proof fn lemma_skip_known(procs: Seq<(u32, u32)>, root: u32, visited: Seq<u32>, stack: Seq<u32>)
    requires
        walk_known(procs, root, visited, stack),
        stack.len() > 0,
        visited.contains(stack.last()),
    ensures
        walk_known(procs, root, visited, stack.drop_last()),
{
    reveal(walk_known);
    let ns = stack.drop_last();
    assert forall|t: int| 0 <= t < ns.len() implies universe(procs, root).contains(#[trigger] ns[t]) by {
        assert(stack[t] == ns[t]);
    }
    assert(visited.len() > 0);
}

proof fn lemma_skip_waiting(procs: Seq<(u32, u32)>, root: u32, visited: Seq<u32>, stack: Seq<u32>)
    requires
        walk_waiting(procs, root, visited, stack),
        stack.len() > 0,
    ensures
        walk_waiting(procs, root, visited, stack.drop_last()),
{
    reveal(walk_waiting);
    let ns = stack.drop_last();
    assert forall|t: int| 0 <= t < ns.len() implies pushed_ok(procs, root, visited, #[trigger] ns[t]) by {
        assert(stack[t] == ns[t]);
    }
}

proof fn lemma_skip_closed(procs: Seq<(u32, u32)>, visited: Seq<u32>, stack: Seq<u32>)
    requires
        walk_closed(procs, visited, stack),
        stack.len() > 0,
        visited.contains(stack.last()),
    ensures
        walk_closed(procs, visited, stack.drop_last()),
{
    reveal(walk_closed);
    let ns = stack.drop_last();
    assert forall|i: int, j: int| 0 <= i < procs.len() && 0 <= j < visited.len() && (#[trigger] procs[i]).1 == #[trigger] visited[j]
        implies visited.contains(procs[i].0) || ns.contains(procs[i].0) by {
        if !visited.contains(procs[i].0) {
            let t = choose|t: int| 0 <= t < stack.len() && stack[t] == procs[i].0;
            if t < ns.len() {
                assert(ns[t] == stack[t]);
            }
        }
    }
}

proof fn lemma_walk_skip(procs: Seq<(u32, u32)>, root: u32, visited: Seq<u32>, stack: Seq<u32>)
    requires
        walk_inv(procs, root, visited, stack),
        stack.len() > 0,
        visited.contains(stack.last()),
    ensures
        walk_inv(procs, root, visited, stack.drop_last()),
{
    lemma_skip_known(procs, root, visited, stack);
    lemma_skip_waiting(procs, root, visited, stack);
    lemma_skip_closed(procs, visited, stack);
}

spec fn visit_step(procs: Seq<(u32, u32)>, os: Seq<u32>, kids: Seq<u32>) -> bool {
    &&& os.len() > 0
    &&& forall|k: int| 0 <= k < kids.len() ==> procs.contains((#[trigger] kids[k], os.last()))
    &&& forall|i: int| 0 <= i < procs.len() && (#[trigger] procs[i]).1 == os.last() ==> kids.contains(procs[i].0)
}

proof fn lemma_visit_known(procs: Seq<(u32, u32)>, root: u32, ov: Seq<u32>, os: Seq<u32>, kids: Seq<u32>)
    requires
        walk_known(procs, root, ov, os),
        visit_step(procs, os, kids),
        !ov.contains(os.last()),
    ensures
        walk_known(procs, root, ov.push(os.last()), os.drop_last() + kids),
{
    reveal(walk_known);
    let u = universe(procs, root);
    let pid = os.last();
    let visited = ov.push(pid);
    let mid = os.drop_last();
    let stack = mid + kids;
    let n = visited.len();
    assert(u.contains(os[os.len() - 1]));
    assert forall|a: int, b: int| 0 <= a < n && 0 <= b < n && a != b implies visited[a] != visited[b] by {
        if a < n - 1 && b < n - 1 {
            assert(visited[a] == ov[a] && visited[b] == ov[b]);
        } else if a == n - 1 {
            assert(visited[b] == ov[b]);
            assert(ov.contains(ov[b]));
        } else {
            assert(visited[a] == ov[a]);
            assert(ov.contains(ov[a]));
        }
    }
    if ov.len() == 0 {
        assert(pid == root);
    }
    assert forall|k: int| 0 <= k < n implies u.contains(#[trigger] visited[k]) by {
        if k < n - 1 {
            assert(visited[k] == ov[k]);
        }
    }
    assert forall|t: int| 0 <= t < stack.len() implies u.contains(#[trigger] stack[t]) by {
        if t < mid.len() {
            assert(stack[t] == os[t]);
        } else {
            assert(stack[t] == kids[t - mid.len()]);
            lemma_in_universe(procs, root, stack[t], pid);
        }
    }
}

proof fn lemma_visit_waiting(procs: Seq<(u32, u32)>, root: u32, ov: Seq<u32>, os: Seq<u32>, kids: Seq<u32>)
    requires
        walk_waiting(procs, root, ov, os),
        visit_step(procs, os, kids),
    ensures
        walk_waiting(procs, root, ov.push(os.last()), os.drop_last() + kids),
{
    reveal(walk_waiting);
    let pid = os.last();
    let visited = ov.push(pid);
    let mid = os.drop_last();
    let stack = mid + kids;
    let n = visited.len();
    assert forall|t: int| 0 <= t < stack.len() implies pushed_ok(procs, root, visited, #[trigger] stack[t]) by {
        if t < mid.len() {
            assert(stack[t] == os[t]);
            assert(pushed_ok(procs, root, ov, os[t]));
            if os[t] != root {
                let j = choose|j: int| 0 <= j < ov.len() && procs.contains((os[t], #[trigger] ov[j]));
                assert(visited[j] == ov[j]);
            }
        } else {
            assert(stack[t] == kids[t - mid.len()]);
            assert(procs.contains((stack[t], visited[n - 1])));
        }
    }
}

proof fn lemma_visit_parents(procs: Seq<(u32, u32)>, root: u32, ov: Seq<u32>, os: Seq<u32>)
    requires
        walk_parents(procs, ov),
        os.len() > 0,
        pushed_ok(procs, root, ov, os.last()),
        ov.len() > 0 ==> ov[0] == root,
        !ov.contains(os.last()),
    ensures
        walk_parents(procs, ov.push(os.last())),
{
    reveal(walk_parents);
    let pid = os.last();
    let visited = ov.push(pid);
    let n = visited.len();
    assert forall|k: int| 1 <= k < n implies #[trigger] parent_before(procs, visited, k) by {
        if k < n - 1 {
            assert(visited[k] == ov[k]);
            assert(parent_before(procs, ov, k));
            let j = choose|j: int| 0 <= j < k && procs.contains((ov[k], #[trigger] ov[j]));
            assert(visited[j] == ov[j]);
            assert(procs.contains((visited[k], visited[j])));
        } else {
            assert(visited[k] == pid);
            if pid == root {
                assert(ov[0] == root);
                assert(ov.contains(ov[0]));
                assert(false);
            }
            let j = choose|j: int| 0 <= j < ov.len() && procs.contains((pid, #[trigger] ov[j]));
            assert(visited[j] == ov[j]);
            assert(procs.contains((visited[k], visited[j])));
        }
    }
}

proof fn lemma_visit_closed(procs: Seq<(u32, u32)>, ov: Seq<u32>, os: Seq<u32>, kids: Seq<u32>)
    requires
        walk_closed(procs, ov, os),
        visit_step(procs, os, kids),
    ensures
        walk_closed(procs, ov.push(os.last()), os.drop_last() + kids),
{
    reveal(walk_closed);
    let pid = os.last();
    let visited = ov.push(pid);
    let mid = os.drop_last();
    let stack = mid + kids;
    let n = visited.len();
    assert forall|i: int, j: int| 0 <= i < procs.len() && 0 <= j < n && (#[trigger] procs[i]).1 == #[trigger] visited[j]
        implies visited.contains(procs[i].0) || stack.contains(procs[i].0) by {
        let c = procs[i].0;
        if j == n - 1 {
            assert(kids.contains(c));
            let q = choose|q: int| 0 <= q < kids.len() && kids[q] == c;
            assert(stack[mid.len() + q] == c);
        } else {
            assert(visited[j] == ov[j]);
            if ov.contains(c) {
                let q = choose|q: int| 0 <= q < ov.len() && ov[q] == c;
                assert(visited[q] == c);
            } else {
                let q = choose|q: int| 0 <= q < os.len() && os[q] == c;
                if q < mid.len() {
                    assert(stack[q] == c);
                } else {
                    assert(visited[n - 1] == c);
                }
            }
        }
    }
}

proof fn lemma_walk_visit(procs: Seq<(u32, u32)>, root: u32, ov: Seq<u32>, os: Seq<u32>, kids: Seq<u32>)
    requires
        walk_inv(procs, root, ov, os),
        visit_step(procs, os, kids),
        !ov.contains(os.last()),
    ensures
        walk_inv(procs, root, ov.push(os.last()), os.drop_last() + kids),
{
    lemma_visit_known(procs, root, ov, os, kids);
    lemma_visit_waiting(procs, root, ov, os, kids);
    assert(pushed_ok(procs, root, ov, os.last())) by {
        reveal(walk_waiting);
        assert(os.last() == os[os.len() - 1]);
    }
    assert(ov.len() > 0 ==> ov[0] == root) by {
        reveal(walk_known);
    }
    lemma_visit_parents(procs, root, ov, os);
    lemma_visit_closed(procs, ov, os, kids);
}

#[verifier::rlimit(30)]
proof fn lemma_walk_done(procs: Seq<(u32, u32)>, root: u32, v: Seq<u32>)
    requires
        walk_inv(procs, root, v, Seq::empty()),
    ensures
        kills_tree(procs, root, v.reverse()),
{
    reveal(walk_known);
    reveal(walk_parents);
    reveal(walk_closed);
    let n = v.len();
    let r = v.reverse();
    if n == 0 {
        assert(Seq::<u32>::empty().len() == 0);
        assert(seq![root].len() == 1);
    }
    assert(n > 0);
    assert forall|a: int| 0 <= a < n implies r[a] == v[n - 1 - a] by {}
    assert(r.last() == root);
    assert forall|a: int, b: int| 0 <= a < n && 0 <= b < n && a != b implies r[a] != r[b] by {
        assert(r[a] == v[n - 1 - a] && r[b] == v[n - 1 - b]);
    }
    assert forall|k: int| 0 <= k < n - 1 implies exists|j: int| k < j < n && procs.contains((#[trigger] r[k], r[j])) by {
        let kv = n - 1 - k;
        assert(r[k] == v[kv]);
        assert(parent_before(procs, v, kv));
        let jv = choose|jv: int| 0 <= jv < kv && procs.contains((v[kv], #[trigger] v[jv]));
        assert(r[n - 1 - jv] == v[jv]);
    }
    assert forall|i: int, j: int| 0 <= i < procs.len() && 0 <= j < n && (#[trigger] procs[i]).1 == #[trigger] r[j]
        implies r.contains(procs[i].0) by {
        assert(r[j] == v[n - 1 - j]);
        assert(!Seq::<u32>::empty().contains(procs[i].0));
        let q = choose|q: int| 0 <= q < n && v[q] == procs[i].0;
        assert(r[n - 1 - q] == v[q]);
    }
}

/// The order in which to kill the process tree under `root`, given every
/// process as (process id, parent id): a depth-first walk from `root` that
/// visits each process once, reversed, so that children die before their
/// parents.
pub fn kill_order(root: u32, procs: &Vec<(u32, u32)>) -> (r: Vec<u32>)
    ensures
        kills_tree(procs@, root, r@),
{
    let ghost u = universe(procs@, root);
    let mut visited: Vec<u32> = Vec::new();
    let mut stack: Vec<u32> = Vec::new();
    stack.push(root);
    proof {
        lemma_walk_start(procs@, root);
        assert(visited@ =~= Seq::<u32>::empty());
        assert(stack@ =~= seq![root]);
    }
    while stack.len() > 0
        invariant
            u == universe(procs@, root),
            walk_inv(procs@, root, visited@, stack@),
        decreases u.len() - visited@.len(), stack@.len(),
    {
        proof {
            lemma_walk_bound(procs@, root, visited@, stack@);
        }
        let ghost os = stack@;
        let ghost ov = visited@;
        let pid = stack.pop().unwrap();
        assert(stack@ == os.drop_last() && pid == os.last());
        if contains_pid(&visited, pid) {
            proof {
                lemma_walk_skip(procs@, root, ov, os);
            }
        } else {
            visited.push(pid);
            let kids = children_of(procs, pid);
            let mut t: usize = 0;
            while t < kids.len()
                invariant
                    t <= kids@.len(),
                    stack@ == os.drop_last() + kids@.take(t as int),
                decreases kids@.len() - t,
            {
                stack.push(kids[t]);
                assert(kids@.take(t + 1) =~= kids@.take(t as int).push(kids@[t as int]));
                t = t + 1;
            }
            assert(kids@.take(kids@.len() as int) =~= kids@);
            proof {
                lemma_walk_visit(procs@, root, ov, os, kids@);
                lemma_walk_bound(procs@, root, visited@, stack@);
            }
        }
    }
    let ghost v = visited@;
    assert(stack@ =~= Seq::<u32>::empty());
    let mut r: Vec<u32> = Vec::new();
    let mut k: usize = visited.len();
    while k > 0
        invariant
            k <= v.len(),
            v == visited@,
            r@ == v.subrange(k as int, v.len() as int).reverse(),
        decreases k,
    {
        k = k - 1;
        r.push(visited[k]);
        assert(v.subrange(k as int, v.len() as int).reverse() =~= v.subrange(k + 1, v.len() as int).reverse().push(v[k as int]));
    }
    assert(v.subrange(0, v.len() as int) =~= v);
    proof {
        lemma_walk_done(procs@, root, v);
    }
    r
}


/// The size a line of `xrandr` (or, with `wlr`, `wlr-randr`) output gives.
pub open spec fn line_size(line: Seq<char>, wlr: bool) -> Option<(u32, u32)> {
    if wlr { wlr_line_size(line) } else { xrandr_line_size(line) }
}

/// Line `k` of `ls` is the first that gives a size.
pub open spec fn first_sized_line(ls: Seq<Seq<char>>, wlr: bool, k: int) -> bool {
    &&& 0 <= k < ls.len()
    &&& line_size(ls[k], wlr) is Some
    &&& forall|j: int| 0 <= j < k ==> line_size(#[trigger] ls[j], wlr) is None
}

proof fn lemma_first_size_at(ls: Seq<Seq<char>>, wlr: bool, k: int)
    requires
        first_sized_line(ls, wlr, k),
    ensures
        first_size(ls, wlr) == line_size(ls[k], wlr),
    decreases k,
{
    if k > 0 {
        assert(line_size(ls[0], wlr) is None);
        let rest = ls.drop_first();
        assert forall|j: int| 0 <= j < k - 1 implies line_size(#[trigger] rest[j], wlr) is None by {
            assert(rest[j] == ls[j + 1]);
        }
        assert(rest[k - 1] == ls[k]);
        lemma_first_size_at(rest, wlr, k - 1);
    }
}

proof fn lemma_first_size_none(ls: Seq<Seq<char>>, wlr: bool)
    requires
        forall|j: int| 0 <= j < ls.len() ==> line_size(#[trigger] ls[j], wlr) is None,
    ensures
        first_size(ls, wlr) is None,
    decreases ls.len(),
{
    if ls.len() > 0 {
        let rest = ls.drop_first();
        assert(line_size(ls[0], wlr) is None);
        assert forall|j: int| 0 <= j < rest.len() implies line_size(#[trigger] rest[j], wlr) is None by {
            assert(rest[j] == ls[j + 1]);
        }
        lemma_first_size_none(rest, wlr);
    }
}

/// `xrandr`'s output decides the screen size by its first line that gives
/// one (the connected output's current mode comes before the other modes):
/// when line `k` is the first that gives a size, the size is line `k`'s,
/// whatever follows it and whatever `wlr-randr` and the framebuffer say.
pub proof fn law_xrandr_first_line(x: Seq<char>, wlr: Option<Seq<char>>, fb: Option<Seq<char>>, k: int)
    requires
        first_sized_line(lines_spec(x), false, k),
    ensures
        screen_size(Some(x), wlr, fb) == xrandr_line_size(lines_spec(x)[k])->0,
{
    lemma_first_size_at(lines_spec(x), false, k);
}

/// When `xrandr` gives no size (it did not run, or no line of its output
/// gives one), `wlr-randr`'s first line that gives a size decides.
pub proof fn law_wlr_first_line(x: Option<Seq<char>>, w: Seq<char>, fb: Option<Seq<char>>, k: int)
    requires
        x matches Some(t) ==> forall|j: int| 0 <= j < lines_spec(t).len() ==> xrandr_line_size(#[trigger] lines_spec(t)[j]) is None,
        first_sized_line(lines_spec(w), true, k),
    ensures
        screen_size(x, Some(w), fb) == wlr_line_size(lines_spec(w)[k])->0,
{
    if let Some(t) = x {
        assert forall|j: int| 0 <= j < lines_spec(t).len() implies line_size(#[trigger] lines_spec(t)[j], false) is None by {
            assert(xrandr_line_size(lines_spec(t)[j]) is None);
        }
        lemma_first_size_none(lines_spec(t), false);
    }
    lemma_first_size_at(lines_spec(w), true, k);
}

/// When neither `xrandr` nor `wlr-randr` gives a size, the framebuffer's
/// does, and without one the size is 1920×1080.
pub proof fn law_framebuffer_then_fallback(x: Option<Seq<char>>, w: Option<Seq<char>>, fb: Option<Seq<char>>)
    requires
        x matches Some(t) ==> forall|j: int| 0 <= j < lines_spec(t).len() ==> xrandr_line_size(#[trigger] lines_spec(t)[j]) is None,
        w matches Some(t) ==> forall|j: int| 0 <= j < lines_spec(t).len() ==> wlr_line_size(#[trigger] lines_spec(t)[j]) is None,
    ensures
        screen_size(x, w, fb) == match fb {
            Some(t) => match fb_size(t) {
                Some(s) => s,
                None => (1920u32, 1080u32),
            },
            None => (1920u32, 1080u32),
        },
{
    if let Some(t) = x {
        assert forall|j: int| 0 <= j < lines_spec(t).len() implies line_size(#[trigger] lines_spec(t)[j], false) is None by {
            assert(xrandr_line_size(lines_spec(t)[j]) is None);
        }
        lemma_first_size_none(lines_spec(t), false);
    }
    if let Some(t) = w {
        assert forall|j: int| 0 <= j < lines_spec(t).len() implies line_size(#[trigger] lines_spec(t)[j], true) is None by {
            assert(wlr_line_size(lines_spec(t)[j]) is None);
        }
        lemma_first_size_none(lines_spec(t), true);
    }
}
} // verus!
