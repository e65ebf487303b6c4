use vstd::prelude::*;

use crate::constants::{CARGO_EXTS, GOLANG_EXTS, NODE_EXTS, PY_EXTS};
use crate::text::{
    has_char, has_substring, is_suffix, pieces, pieces_count, split_on, split_words, str_contains,
    str_ends_with, str_equals, strings_view, words,
};

verus! {

/// Kinds of values a configuration entry may hold.
#[derive(Debug)]
pub enum ConfigValues {
    String,
}

/// The program family used to run the watched target.
#[derive(Clone, Copy, Debug, PartialEq, Eq, Structural)]
pub enum Executable {
    NODE,
    GOLANG,
    CARGO,
    PYTHON,
}

impl Executable {
    /// The command that starts a target of this kind.
    pub open spec fn name(self) -> Seq<char> {
        match self {
            Executable::NODE => "node"@,
            Executable::GOLANG => "go run"@,
            Executable::PYTHON => "python3"@,
            Executable::CARGO => "cargo run"@,
        }
    }

    /// The space-separated source suffixes of this kind.
    pub open spec fn extension_text(self) -> Seq<char> {
        match self {
            Executable::NODE => NODE_EXTS@,
            Executable::CARGO => CARGO_EXTS@,
            Executable::GOLANG => GOLANG_EXTS@,
            Executable::PYTHON => PY_EXTS@,
        }
    }

    /// The source suffixes that are relevant by default for this kind.
    pub open spec fn extensions(self) -> Seq<Seq<char>> {
        words(self.extension_text())
    }

    /// The command that starts a target of this kind, as a string.
    pub fn to_string(&self) -> (r: String)
        ensures
            r@ == self.name(),
    {
        match self {
            Executable::NODE => String::from_str("node"),
            Executable::GOLANG => String::from_str("go run"),
            Executable::PYTHON => String::from_str("python3"),
            Executable::CARGO => String::from_str("cargo run"),
        }
    }

    /// The space-separated source suffixes of this kind.
    pub fn extension_list(&self) -> (r: &'static str)
        ensures
            r@ == self.extension_text(),
    {
        match self {
            Executable::NODE => NODE_EXTS,
            Executable::CARGO => CARGO_EXTS,
            Executable::GOLANG => GOLANG_EXTS,
            Executable::PYTHON => PY_EXTS,
        }
    }
}

/// A watch pattern with one leading `.` removed, as it is matched against paths.
pub open spec fn stripped(p: Seq<char>) -> Seq<char> {
    if p.len() > 0 && p[0] == '.' {
        p.drop_first()
    } else {
        p
    }
}

/// Some pattern of `pats`, stripped of its leading `.`, is a suffix of `path`.
pub open spec fn pattern_listed(path: Seq<char>, pats: Seq<Seq<char>>) -> bool {
    exists|i: int| 0 <= i < pats.len() && is_suffix(stripped(#[trigger] pats[i]), path)
}

/// Some suffix of `exts` ends `path`.
pub open spec fn extension_listed(path: Seq<char>, exts: Seq<Seq<char>>) -> bool {
    exists|i: int| 0 <= i < exts.len() && is_suffix(#[trigger] exts[i], path)
}

/// The configuration-driven part of the relevance rule: the ignore-list wins over
/// the watch-list, which wins over the executable's default suffixes.
pub open spec fn restart_rule(
    path: Seq<char>,
    ignore: Seq<Seq<char>>,
    watch: Seq<Seq<char>>,
    exec: Executable,
) -> bool {
    if pattern_listed(path, ignore) {
        false
    } else if pattern_listed(path, watch) {
        true
    } else {
        extension_listed(path, exec.extensions())
    }
}

/// The index of the last of the options `args[1..k]` that contains `key`.
pub open spec fn last_option(args: Seq<Seq<char>>, k: int, key: Seq<char>) -> Option<int>
    decreases k,
{
    if k <= 1 {
        None
    } else if has_substring(args[k - 1], key) {
        Some(k - 1)
    } else {
        last_option(args, k - 1, key)
    }
}

/// The value of an option: what follows its first `=`, up to the next `=`.
pub open spec fn option_value(arg: Seq<char>) -> Seq<char> {
    pieces(arg, '=')[1]
}

/// An option that names a value (`--exec`, `--ignore`, `--watch`) carries an `=`.
pub open spec fn option_well_formed(arg: Seq<char>) -> bool {
    (has_substring(arg, "--exec"@) || has_substring(arg, "--ignore"@) || has_substring(
        arg,
        "--watch"@,
    )) ==> has_char(arg, '=')
}

/// A list option's value, split at commas.
pub open spec fn list_option(args: Seq<Seq<char>>, k: int, key: Seq<char>) -> Seq<Seq<char>> {
    match last_option(args, k, key) {
        Some(i) => pieces(option_value(args[i]), ','),
        None => seq![],
    }
}

/// The executable kind chosen by the options `args[1..k]`.
pub open spec fn exec_option(args: Seq<Seq<char>>, k: int) -> Executable {
    match last_option(args, k, "--exec"@) {
        Some(i) => executable_named(option_value(args[i])),
        None => Executable::NODE,
    }
}

/// One run's settings: what to start and which changes restart it.
#[derive(Clone, Debug)]
pub struct Config {
    pub executable: Executable,
    pub target: String,
    pub inspect: bool,
    pub ignore_list: Vec<String>,
    pub watch_list: Vec<String>,
    /// Quiet time, in milliseconds, after the last relevant change before a restart.
    pub delay: u64,
}

impl Config {
    pub open spec fn ignore_view(&self) -> Seq<Seq<char>> {
        strings_view(self.ignore_list@)
    }

    pub open spec fn watch_view(&self) -> Seq<Seq<char>> {
        strings_view(self.watch_list@)
    }

    /// Whether a change of `path` calls for a restart under this configuration.
    pub open spec fn restarts_on(&self, path: Seq<char>) -> bool {
        restart_rule(path, self.ignore_view(), self.watch_view(), self.executable)
    }

    /// The command line that starts the target.
    pub open spec fn command(&self) -> Seq<char> {
        self.executable.name() + (if self.inspect {
            " --inspect"@
        } else {
            Seq::<char>::empty()
        }) + " "@ + self.target@
    }

    /// The configuration used when no file and no option says otherwise.
    pub fn create_default_config() -> (r: Config)
        ensures
            r.executable == Executable::NODE,
            r.target@ == Seq::<char>::empty(),
            !r.inspect,
            r.ignore_list@.len() == 0,
            r.watch_list@.len() == 0,
            r.delay == 2000,
    {
        Config {
            inspect: set_default_inspect(),
            executable: set_default_executable(),
            target: set_default_target(),
            watch_list: set_default_watch_list(),
            ignore_list: set_default_ignore_list(),
            delay: set_default_delay(),
        }
    }

    /// The configuration given by the command-line arguments `args`: `args[0]`
    /// is the program's name, the last one the target, and those between are
    /// options. An option containing `--inspect` turns inspection on; one
    /// containing `--exec=K` chooses the executable kind `K`; `--ignore=a,b`
    /// and `--watch=a,b` set the ignore- and watch-lists. Where several options
    /// set one field, the last wins; fields no option sets keep their defaults.
    pub fn new(args: Vec<String>) -> (r: Config)
        requires
            args@.len() >= 2,
            forall|i: int|
                1 <= i < args@.len() - 1 ==> option_well_formed(#[trigger] args@[i]@),
        ensures
            ({
                let av = strings_view(args@);
                let k = av.len() - 1;
                &&& r.inspect == last_option(av, k, "--inspect"@) is Some
                &&& r.executable == exec_option(av, k)
                &&& r.ignore_view() == list_option(av, k, "--ignore"@)
                &&& r.watch_view() == list_option(av, k, "--watch"@)
                &&& r.target@ == av[k]
                &&& r.delay == 2000
            }),
    {
        let ghost av = strings_view(args@);
        let mut config = Config::create_default_config();
        let last = args.len() - 1;
        let mut i: usize = 1;
        assert(config.ignore_view() =~= seq![]);
        assert(config.watch_view() =~= seq![]);
        while i < last
            invariant
                av == strings_view(args@),
                last == args@.len() - 1,
                1 <= i <= last,
                forall|j: int| 1 <= j < args@.len() - 1 ==> option_well_formed(#[trigger] args@[j]@),
                config.inspect == last_option(av, i as int, "--inspect"@) is Some,
                config.executable == exec_option(av, i as int),
                config.ignore_view() == list_option(av, i as int, "--ignore"@),
                config.watch_view() == list_option(av, i as int, "--watch"@),
                config.target@ == Seq::<char>::empty(),
                config.delay == 2000,
            decreases last - i,
        {
            let arg = args[i].as_str();
            assert(arg@ == av[i as int]);
            assert(option_well_formed(args@[i as int]@));
            if str_contains(arg, "--inspect") {
                config.inspect = true;
            }
            if str_contains(arg, "--exec") {
                proof { pieces_count(seq![], arg@, '='); }
                let parts = split_on(arg, '=');
                assert(parts@[1]@ == strings_view(parts@)[1]);
                config.executable = get_executable(parts[1].as_str());
            }
            if str_contains(arg, "--ignore") {
                proof { pieces_count(seq![], arg@, '='); }
                let parts = split_on(arg, '=');
                assert(parts@[1]@ == strings_view(parts@)[1]);
                config.ignore_list = split_on(parts[1].as_str(), ',');
            }
            if str_contains(arg, "--watch") {
                proof { pieces_count(seq![], arg@, '='); }
                let parts = split_on(arg, '=');
                assert(parts@[1]@ == strings_view(parts@)[1]);
                config.watch_list = split_on(parts[1].as_str(), ',');
            }
            i += 1;
        }
        config.target = args[last].clone();
        config
    }

    /// Whether a change of `path` calls for a restart: not if it ends with an
    /// ignore pattern; else yes if it ends with a watch pattern; else yes exactly
    /// when it ends with one of the executable's source suffixes.
    pub fn should_restart(&self, path: &str) -> (r: bool)
        ensures
            r == self.restarts_on(path@),
    {
        if ends_with_pattern(path, &self.ignore_list) {
            return false;
        }
        if ends_with_pattern(path, &self.watch_list) {
            return true;
        }
        let exts = split_words(self.executable.extension_list());
        let ghost ev = self.executable.extensions();
        let mut k: usize = 0;
        while k < exts.len()
            invariant
                strings_view(exts@) == ev,
                ev == self.executable.extensions(),
                !pattern_listed(path@, self.ignore_view()),
                !pattern_listed(path@, self.watch_view()),
                k <= exts@.len(),
                forall|j: int| 0 <= j < k ==> !is_suffix(#[trigger] ev[j], path@),
            decreases exts.len() - k,
        {
            if str_ends_with(path, exts[k].as_str()) {
                assert(ev[k as int] == exts@[k as int]@);
                assert(is_suffix(ev[k as int], path@));
                return true;
            }
            k += 1;
        }
        false
    }

    /// The command line that starts the target: the executable's command, then
    /// ` --inspect` when inspection is on, then a space and the target.
    pub fn get_command(&self) -> (r: String)
        ensures
            r@ == self.command(),
    {
        let mut cmd = self.executable.to_string();
        if self.inspect {
            cmd.append(" --inspect");
        }
        cmd.append(" ");
        cmd.append(self.target.as_str());
        cmd
    }
}

/// A pattern with one leading `.` removed.
fn strip_dot(p: &str) -> (r: &str)
    ensures
        r@ == stripped(p@),
{
    let n = p.unicode_len();
    if n > 0 && p.get_char(0) == '.' {
        let r = p.substring_char(1, n);
        assert(r@ =~= p@.drop_first());
        r
    } else {
        p
    }
}

/// Whether `path` ends with one of `patterns`, each stripped of a leading `.`.
fn ends_with_pattern(path: &str, patterns: &Vec<String>) -> (r: bool)
    ensures
        r == pattern_listed(path@, strings_view(patterns@)),
{
    let ghost pv = strings_view(patterns@);
    let mut i: usize = 0;
    while i < patterns.len()
        invariant
            pv == strings_view(patterns@),
            i <= patterns@.len(),
            forall|j: int| 0 <= j < i ==> !is_suffix(stripped(#[trigger] pv[j]), path@),
        decreases patterns.len() - i,
    {
        let p = strip_dot(patterns[i].as_str());
        if str_ends_with(path, p) {
            assert(is_suffix(stripped(pv[i as int]), path@));
            return true;
        }
        i += 1;
    }
    false
}

pub fn set_default_executable() -> (r: Executable)
    ensures
        r == Executable::NODE,
{
    Executable::NODE
}

pub fn set_default_target() -> (r: String)
    ensures
        r@ == Seq::<char>::empty(),
{
    String::new()
}

pub fn set_default_inspect() -> (r: bool)
    ensures
        !r,
{
    false
}

pub fn set_default_ignore_list() -> (r: Vec<String>)
    ensures
        r@.len() == 0,
{
    Vec::new()
}

pub fn set_default_watch_list() -> (r: Vec<String>)
    ensures
        r@.len() == 0,
{
    Vec::new()
}

pub fn set_default_delay() -> (r: u64)
    ensures
        r == 2000,
{
    2000
}

/// The executable kind named by `exec`; unknown names mean `NODE`.
pub open spec fn executable_named(exec: Seq<char>) -> Executable {
    if exec == "GOLANG"@ {
        Executable::GOLANG
    } else if exec == "PYTHON"@ {
        Executable::PYTHON
    } else if exec == "CARGO"@ {
        Executable::CARGO
    } else {
        Executable::NODE
    }
}

/// The executable kind named by `exec` (`NODE`, `GOLANG`, `PYTHON`, `CARGO`);
/// any other name gives `NODE`.
pub fn get_executable(exec: &str) -> (r: Executable)
    ensures
        r == executable_named(exec@),
{
    proof {
        reveal_strlit("NODE");
        reveal_strlit("GOLANG");
        reveal_strlit("PYTHON");
        reveal_strlit("CARGO");
        assert("NODE"@.len() != "GOLANG"@.len());
        assert("NODE"@.len() != "PYTHON"@.len());
        assert("NODE"@[0] != "CARGO"@[0]);
    }
    if str_equals(exec, "NODE") {
        Executable::NODE
    } else if str_equals(exec, "GOLANG") {
        Executable::GOLANG
    } else if str_equals(exec, "PYTHON") {
        Executable::PYTHON
    } else if str_equals(exec, "CARGO") {
        Executable::CARGO
    } else {
        Executable::NODE
    }
}

} // verus!
