//! Wine and Proton runners: what a runner directory holds, how a runner is
//! started and named.
use vstd::prelude::*;

use crate::paths::{file_name, file_name_of, join, joined, opt_view, or_else};
use crate::text::{chars_of, push_chars, push_str, string_of, trim, trim_spec, CharClass};

verus! {

/// The kind of a runner.
#[derive(Debug, Clone, Copy, PartialEq, Eq, Structural)]
pub enum RunnerKind {
    /// A Proton build (it holds a `proton` script).
    Proton,
    /// A Wine build (it holds `bin/wine`).
    Wine,
    /// The system's Wine, found on `PATH`.
    System,
}

/// A Wine or Proton runner.
#[derive(Debug)]
pub struct Runner {
    pub name: String,
    pub kind: RunnerKind,
    /// The runner's directory.
    pub path: String,
}

/// What a directory in NovaDream's `proton/` folder was found to be.
#[derive(Debug)]
pub struct RunnerDirEntry {
    pub path: String,
    pub is_dir: bool,
    /// It holds a `proton` file.
    pub has_proton: bool,
    /// It holds `bin/wine`.
    pub has_wine: bool,
}

/// The binary that runs games for a runner.
pub open spec fn runner_binary(r: Runner) -> Seq<char> {
    match r.kind {
        RunnerKind::Proton => joined(r.path@, "proton"@),
        RunnerKind::Wine => joined(r.path@, "bin/wine"@),
        RunnerKind::System => "wine"@,
    }
}

/// The name shown for a runner.
pub open spec fn runner_label(r: Runner) -> Seq<char> {
    match r.kind {
        RunnerKind::System => "System Wine ("@ + r.name@ + ")"@,
        _ => r.name@,
    }
}

/// The runner a folder entry is: a Proton build when it holds `proton`,
/// otherwise a Wine build when it holds `bin/wine`; nothing for files and
/// for folders that hold neither. It is named after the folder.
pub open spec fn entry_runner(e: RunnerDirEntry, r: Option<Runner>) -> bool {
    if !e.is_dir || (!e.has_proton && !e.has_wine) {
        r is None
    } else {
        r matches Some(x) && x.path@ == e.path@
            && x.name@ == or_else(file_name_of(e.path@), Seq::empty())
            && x.kind == (if e.has_proton { RunnerKind::Proton } else { RunnerKind::Wine })
    }
}

/// The name of the system's Wine: the output of `wine --version` without
/// surrounding white space, or `Wine` when there was no readable output.
pub open spec fn system_wine_name(version_output: Option<Seq<char>>) -> Seq<char> {
    match version_output {
        Some(s) => trim_spec(s, CharClass::Whitespace),
        None => "Wine"@,
    }
}

impl Runner {
    /// The path of the binary that runs games.
    pub fn binary(&self) -> (r: String)
        ensures
            r@ == runner_binary(*self),
    {
        match self.kind {
            RunnerKind::Proton => join(self.path.as_str(), "proton"),
            RunnerKind::Wine => join(self.path.as_str(), "bin/wine"),
            RunnerKind::System => String::from_str("wine"),
        }
    }

    /// The name shown for this runner.
    pub fn label(&self) -> (r: String)
        ensures
            r@ == runner_label(*self),
    {
        match self.kind {
            RunnerKind::System => {
                let mut v = chars_of("System Wine (");
                push_chars(&mut v, chars_of(self.name.as_str()).as_slice());
                push_str(&mut v, ")");
                string_of(v.as_slice())
            },
            _ => self.name.clone(),
        }
    }

    /// Clones a runner.
    pub fn duplicate(&self) -> (r: Runner)
        ensures
            r == *self,
    {
        Runner { name: self.name.clone(), kind: self.kind, path: self.path.clone() }
    }
}

/// The folder that holds NovaDream's own runners.
pub fn proton_dir(data_dir: &str) -> (r: String)
    ensures
        r@ == joined(data_dir@, "proton"@),
{
    join(data_dir, "proton")
}

/// The name of the system's Wine, from the output of `wine --version`.
pub fn system_wine_version(version_output: Option<String>) -> (r: String)
    ensures
        r@ == system_wine_name(opt_view(version_output)),
{
    match version_output {
        Some(s) => {
            let t = trim(chars_of(s.as_str()).as_slice(), CharClass::Whitespace);
            string_of(t.as_slice())
        },
        None => String::from_str("Wine"),
    }
}

/// The runner a folder entry is, if any.
pub fn runner_from_entry(e: &RunnerDirEntry) -> (r: Option<Runner>)
    ensures
        entry_runner(*e, r),
{
    if !e.is_dir || (!e.has_proton && !e.has_wine) {
        return None;
    }
    let name = match file_name(e.path.as_str()) {
        Some(n) => n,
        None => String::from_str(""),
    };
    assert(""@ =~= Seq::<char>::empty()) by {
        reveal_strlit("");
    }
    let kind = if e.has_proton { RunnerKind::Proton } else { RunnerKind::Wine };
    Some(Runner { name, kind, path: e.path.clone() })
}

/// `rs` are the runners that the folder entries `es` are, in order.
pub open spec fn runners_of_entries(es: Seq<RunnerDirEntry>, rs: Seq<Runner>) -> bool
    decreases es.len(),
{
    if es.len() == 0 {
        rs.len() == 0
    } else if entry_runner(es.last(), None) {
        runners_of_entries(es.drop_last(), rs)
    } else {
        rs.len() > 0 && entry_runner(es.last(), Some(rs.last()))
            && runners_of_entries(es.drop_last(), rs.drop_last())
    }
}

/// The runners found: the system's Wine first (named after its version, in
/// `/usr`) when `which wine` found it, then the runner of each folder entry
/// that is one, in order.
pub fn detect_runners(system_wine: Option<String>, entries: &Vec<RunnerDirEntry>) -> (r: Vec<Runner>)
    ensures
        match system_wine {
            Some(v) => r@.len() > 0 && r@[0].kind == RunnerKind::System && r@[0].name@ == v@
                && r@[0].path@ == "/usr"@ && runners_of_entries(entries@, r@.drop_first()),
            None => runners_of_entries(entries@, r@),
        },
{
    let mut r: Vec<Runner> = Vec::new();
    let off: usize = match system_wine {
        Some(v) => {
            r.push(Runner { name: v, kind: RunnerKind::System, path: String::from_str("/usr") });
            1
        },
        None => 0,
    };
    let ghost first = r@;
    let n = entries.len();
    let mut i: usize = 0;
    assert(entries@.take(0) =~= Seq::<RunnerDirEntry>::empty());
    assert(r@.skip(off as int) =~= Seq::<Runner>::empty());
    while i < n
        invariant
            i <= n,
            n == entries@.len(),
            off == first.len(),
            r@.len() >= off,
            r@.take(off as int) == first,
            runners_of_entries(entries@.take(i as int), r@.skip(off as int)),
        decreases n - i,
    {
        let ghost before = r@;
        assert(entries@.take(i + 1).drop_last() =~= entries@.take(i as int));
        assert(entries@.take(i + 1).last() == entries@[i as int]);
        match runner_from_entry(&entries[i]) {
            Some(x) => {
                r.push(x);
                assert(r@.skip(off as int).drop_last() =~= before.skip(off as int));
                assert(r@.take(off as int) =~= before.take(off as int));
            },
            None => {},
        }
        i = i + 1;
    }
    assert(entries@.take(n as int) =~= entries@);
    if off == 1 {
        assert(r@.skip(1) =~= r@.drop_first());
        assert(r@[0] == first[0]);
    } else {
        assert(r@.skip(0) =~= r@);
    }
    r
}

} // verus!
