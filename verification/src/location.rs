//! Locating the companion server on disk.
//!
//! The start routine looks for the server's entry script at a fixed place
//! relative to the application's working directory: two directories up,
//! then inside a `backend` directory, a file named `main.py`, run by a
//! platform-appropriate Python interpreter. Paths are modelled as their
//! component lists; the shell converts them from and to real filesystem
//! paths when it probes the disk and spawns the process.

use vstd::prelude::*;

verus! {

/// An absolute filesystem path, as the list of its components from the
/// root down, with no separators and no root marker.
#[derive(Debug, PartialEq, Eq, Clone)]
pub struct AppPath {
    pub parts: Vec<String>,
}

impl View for AppPath {
    type V = Seq<Seq<char>>;

    open spec fn view(&self) -> Seq<Seq<char>> {
        self.parts.deep_view()
    }
}

/// The interpreter that runs the entry script: the Windows launcher where
/// the host is Windows, otherwise the usual Unix name.
pub open spec fn interpreter_of(windows: bool) -> Seq<char> {
    if windows {
        "py"@
    } else {
        "python3"@
    }
}

/// The directory the companion server lives in: two parents up from the
/// working directory, then down into `backend`.
pub open spec fn backend_dir_of(cwd: Seq<Seq<char>>) -> Seq<Seq<char>> {
    cwd.take(cwd.len() - 2).push("backend"@)
}

/// The entry script inside the backend directory.
pub open spec fn entry_of(cwd: Seq<Seq<char>>) -> Seq<Seq<char>> {
    backend_dir_of(cwd).push("main.py"@)
}

/// Everything the start routine derives from the working directory before
/// touching the disk: the interpreter to run, the directory to run it in,
/// the entry script to look for, and the working directory itself, kept
/// for diagnostics.
#[derive(Debug, PartialEq, Eq)]
pub struct BackendLocation {
    pub interpreter: String,
    pub dir: AppPath,
    pub entry: AppPath,
    pub cwd: AppPath,
}

/// Resolve where the companion server is expected, from the application's
/// working directory and the host platform.
///
/// The working directory must be at least two components deep: the
/// supervisor has no meaning directly under the filesystem root, and the
/// shell refuses such a directory before calling in.
pub fn resolve_backend(cwd: AppPath, windows: bool) -> (loc: BackendLocation)
    requires
        cwd@.len() >= 2,
    ensures
        loc.interpreter@ == interpreter_of(windows),
        loc.dir@ == backend_dir_of(cwd@),
        loc.entry@ == entry_of(cwd@),
        loc.cwd@ == cwd@,
{
    let interpreter: String = if windows {
        "py".to_owned()
    } else {
        "python3".to_owned()
    };

    let keep: usize = cwd.parts.len() - 2;
    let mut dir_parts: Vec<String> = Vec::new();
    let mut i: usize = 0;
    while i < keep
        invariant
            i <= keep,
            keep == cwd.parts@.len() - 2,
            dir_parts@.len() == i,
            forall|j: int| 0 <= j < i ==> dir_parts@[j] == cwd.parts@[j],
        decreases keep - i,
    {
        dir_parts.push(cwd.parts[i].clone());
        i = i + 1;
    }
    dir_parts.push("backend".to_owned());

    let mut entry_parts: Vec<String> = Vec::new();
    let mut k: usize = 0;
    while k < dir_parts.len()
        invariant
            k <= dir_parts@.len(),
            entry_parts@.len() == k,
            forall|j: int| 0 <= j < k ==> entry_parts@[j] == dir_parts@[j],
        decreases dir_parts@.len() - k,
    {
        entry_parts.push(dir_parts[k].clone());
        k = k + 1;
    }
    entry_parts.push("main.py".to_owned());

    let dir = AppPath { parts: dir_parts };
    let entry = AppPath { parts: entry_parts };

    proof {
        assert(dir@ =~= backend_dir_of(cwd@));
        assert(entry@ =~= entry_of(cwd@));
    }

    BackendLocation { interpreter, dir, entry, cwd }
}

} // verus!
