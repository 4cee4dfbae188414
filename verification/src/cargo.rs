//! Finding the executables that cargo has built. The file system and
//! the environment are asked elsewhere; what is made of the answers is
//! decided here.

use crate::command::{Command, CommandView};
use crate::platform::{has_tail, path_ends_with, path_join, path_parent, pop_path, push_path};
use vstd::prelude::*;

verus! {

/// The directory of a build profile within a target directory.
pub open spec fn profile_dir_name(debug: bool) -> Seq<char> {
    if debug {
        "debug"@
    } else {
        "release"@
    }
}

/// The directory within `target_dir` that holds the builds of the
/// profile: `debug` for a build with debug assertions, else `release`.
pub fn add_profile_dir(target_dir: &str, debug: bool) -> (r: String)
    ensures
        r@ == path_join(target_dir@, profile_dir_name(debug)),
{
    if debug {
        push_path(target_dir, "debug")
    } else {
        push_path(target_dir, "release")
    }
}

/// The directory of the build that the executable at `exe` belongs to:
/// the one it lies in, or the one above where it lies among the
/// dependencies or the examples.
pub open spec fn build_dir_of(exe: Seq<char>) -> Seq<char> {
    let dir = path_parent(exe);
    if path_ends_with(dir, "deps"@) || path_ends_with(dir, "examples"@) {
        path_parent(dir)
    } else {
        dir
    }
}

/// The directory of the build, given the directory `dir` that an
/// executable lies in, whether that is the directory of the dependencies
/// or of the examples, and the directory `above` it.
pub fn select_build_dir(dir: String, among_deps: bool, among_examples: bool, above: String) -> (r:
    String)
    ensures
        r@ == (if among_deps || among_examples {
            above@
        } else {
            dir@
        }),
{
    if among_deps || among_examples {
        above
    } else {
        dir
    }
}

/// The directory of the build that the executable at `exe` belongs to.
pub fn build_dir(exe: &str) -> (r: String)
    ensures
        r@ == build_dir_of(exe@),
{
    let dir = pop_path(exe);
    let among_deps = has_tail(dir.as_str(), "deps");
    let among_examples = has_tail(dir.as_str(), "examples");
    let above = pop_path(dir.as_str());
    select_build_dir(dir, among_deps, among_examples, above)
}

/// The text of a string slice that may be absent.
pub open spec fn opt_str(o: Option<&str>) -> Option<Seq<char>> {
    match o {
        Some(s) => Some(s@),
        None => None,
    }
}

/// Where executables are looked for first: in `explicit`, the profile
/// directory of a target directory that was set by hand, where it is a
/// directory; else in the build directory of the running executable.
pub open spec fn primary_dir(
    explicit: Option<Seq<char>>,
    explicit_is_dir: bool,
    current_exe: Option<Seq<char>>,
) -> Option<Seq<char>> {
    if explicit is Some && explicit_is_dir {
        explicit
    } else {
        match current_exe {
            Some(exe) => Some(build_dir_of(exe)),
            None => None,
        }
    }
}

/// Where executables are looked for first; none where no target
/// directory was set that exists and the running executable is unknown.
pub fn primary_target_dir(
    explicit: Option<&str>,
    explicit_is_dir: bool,
    current_exe: Option<&str>,
) -> (r: Option<String>)
    ensures
        crate::command::opt_text(r) == primary_dir(
            opt_str(explicit),
            explicit_is_dir,
            opt_str(current_exe),
        ),
{
    if let Some(dir) = explicit {
        if explicit_is_dir {
            return Some(String::from_str(dir));
        }
    }
    match current_exe {
        Some(exe) => Some(build_dir(exe)),
        None => None,
    }
}

/// The invocation that asks cargo for the metadata of the workspace:
/// the program named by `cargo`, else `cargo`, with the one argument
/// `metadata`.
pub fn metadata_command(cargo: Option<&str>) -> (r: Command)
    ensures
        r@ == (CommandView {
            program: match cargo {
                Some(program) => program@,
                None => "cargo"@,
            },
            args: seq!["metadata"@],
            envs: Seq::empty(),
        }),
{
    let mut r = match cargo {
        Some(program) => Command::new(program),
        None => Command::new("cargo"),
    };
    r.arg("metadata");
    r
}

/// Where executables are looked for second: in the profile directory of
/// the target directory that cargo's metadata name.
pub fn cargo_inferred_target_dir(target_directory: &str, debug: bool) -> (r: String)
    ensures
        r@ == path_join(target_directory@, profile_dir_name(debug)),
{
    add_profile_dir(target_directory, debug)
}

/// The two places where an executable is looked for, in this order.
#[derive(Clone, Copy, Debug, PartialEq, Eq, Structural)]
pub enum Search {
    /// The primary target directory.
    Primary,
    /// The target directory inferred from cargo's metadata.
    Inferred,
}

/// What the search was told.
pub enum Event {
    /// The directory of a place.
    Dir(Search, String),
    /// Whether the candidate of a place is a file.
    Probed(Search, String, bool),
}

/// What the search asks for next, or how it ended.
pub enum Step {
    /// Find the directory of a place.
    Resolve(Search),
    /// Say whether this candidate of the place is a file.
    Probe(Search, String),
    /// The executable is here.
    Found(String),
    /// The executable is in neither place; the text says so.
    Missing(String),
}

/// The text that tells of an executable that was not found.
pub open spec fn missing_text(name: Seq<char>) -> Seq<char> {
    "Cannot determine path to executable '"@ + name + "'"@
}

/// How a search begins: with the directory of the first place.
pub fn find_exe_start() -> (r: Step)
    ensures
        r == Step::Resolve(Search::Primary),
{
    Step::Resolve(Search::Primary)
}

/// One step of the search for the executable `name`. The candidate of a
/// place is `name` within the directory of the place. A candidate that
/// is a file ends the search; after the first place the second is
/// tried, after the second the executable is missing.
pub fn find_exe(name: &str, event: Event) -> (r: Step)
    ensures
        match event {
            Event::Dir(place, dir) => r matches Step::Probe(p, candidate) && p == place
                && candidate@ == path_join(dir@, name@),
            Event::Probed(_, candidate, true) => r matches Step::Found(path) && path@
                == candidate@,
            Event::Probed(Search::Primary, _, false) => r == Step::Resolve(Search::Inferred),
            Event::Probed(Search::Inferred, _, false) => r matches Step::Missing(text) && text@
                == missing_text(name@),
        },
{
    match event {
        Event::Dir(place, dir) => Step::Probe(place, push_path(dir.as_str(), name)),
        Event::Probed(place, candidate, is_file) => {
            if is_file {
                Step::Found(candidate)
            } else {
                match place {
                    Search::Primary => Step::Resolve(Search::Inferred),
                    Search::Inferred => {
                        let mut text = String::from_str("Cannot determine path to executable '");
                        text.append(name);
                        text.append("'");
                        Step::Missing(text)
                    },
                }
            }
        },
    }
}

/// The environment variable in which cargo hands the path of the binary
/// `name` to its integration tests.
pub open spec fn bin_env_var_name(name: Seq<char>) -> Seq<char> {
    "CARGO_BIN_EXE_"@ + name
}

/// The environment variable in which cargo hands over the path of the
/// binary `name`.
pub fn bin_env_var(name: &str) -> (r: String)
    ensures
        r@ == bin_env_var_name(name@),
{
    let mut r = String::from_str("CARGO_BIN_EXE_");
    r.append(name);
    r
}

/// Where a binary is: at a path that is known, or wherever the search
/// for a file of this name finds it.
pub enum Lookup {
    /// The path of the executable.
    Path(String),
    /// The file name to search for.
    Find(String),
}

/// Where the binary `name` is: at the path that cargo handed over in
/// the environment, `from_env`; without one, wherever the search for
/// `name` with the executable suffix finds it.
pub fn get_cargo_bin(name: &str, from_env: Option<String>, exe_suffix: &str) -> (r: Lookup)
    ensures
        match from_env {
            Some(path) => r matches Lookup::Path(p) && p@ == path@,
            None => r matches Lookup::Find(file) && file@ == name@ + exe_suffix@,
        },
{
    match from_env {
        Some(path) => Lookup::Path(path),
        None => {
            let mut file = String::from_str(name);
            file.append(exe_suffix);
            Lookup::Find(file)
        },
    }
}

/// The file to search for to find the example `name`: within
/// `examples`, with the executable suffix.
pub fn get_cargo_example(name: &str, exe_suffix: &str) -> (r: String)
    ensures
        r@ == "examples/"@ + name@ + exe_suffix@,
{
    let mut r = String::from_str("examples/");
    r.append(name);
    r.append(exe_suffix);
    r
}

} // verus!
