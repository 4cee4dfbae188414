//! The invocation descriptor: what is about to be executed, in a form
//! that is the same on every run and platform.

use crate::command::{copy_strings, envs_view, opt_text, strings_view, Command, CommandView};
use crate::environ::EnvMap;
use crate::platform::{file_name, from_utf8_lossy, path_file_name, utf8_lossy};
use crate::text::{ends_with, lemma_strip_suffix_removes, strip_suffix, without_suffix};
use vstd::prelude::*;
use vstd::utf8::{decode_utf8, valid_utf8};

verus! {

/// What an `Info` holds, as plain values.
pub struct InfoView {
    /// The program's file name, without the platform's executable suffix.
    pub program: Seq<char>,
    /// The arguments in the order supplied.
    pub args: Seq<Seq<char>>,
    /// The environment overrides by variable name.
    pub env: Map<Seq<char>, Seq<char>>,
    /// The text sent to the child's standard input, if any was.
    pub stdin: Option<Seq<char>>,
}

/// The value of an override: the empty text where none was given.
pub open spec fn env_value(value: Option<Seq<char>>) -> Seq<char> {
    match value {
        Some(v) => v,
        None => Seq::empty(),
    }
}

/// The overrides that a command's list of settings amounts to: of two
/// settings of one variable the later counts.
pub open spec fn env_of(log: Seq<(Seq<char>, Option<Seq<char>>)>) -> Map<Seq<char>, Seq<char>>
    decreases log.len(),
{
    if log.len() == 0 {
        Map::empty()
    } else {
        env_of(log.drop_last()).insert(log.last().0, env_value(log.last().1))
    }
}

/// The bytes of a payload that may be absent.
pub open spec fn opt_bytes(o: Option<&[u8]>) -> Option<Seq<u8>> {
    match o {
        Some(b) => Some(b@),
        None => None,
    }
}

/// The payload as text, read leniently.
pub open spec fn stdin_text(stdin: Option<Seq<u8>>) -> Option<Seq<char>> {
    match stdin {
        Some(bytes) => Some(utf8_lossy(bytes)),
        None => None,
    }
}

/// A payload that is well-formed UTF-8 is described as the text that
/// it encodes.
pub open spec fn reads_back(info: InfoView, stdin: Option<Seq<u8>>) -> bool {
    match stdin {
        Some(bytes) => valid_utf8(bytes) ==> info.stdin == Some(decode_utf8(bytes)),
        None => true,
    }
}

/// The name under which the program at `path` is described: the final
/// component of the path without the executable suffix. A path without
/// a final component has no such name.
pub open spec fn program_name(path: Seq<char>, exe_suffix: Seq<char>) -> Option<Seq<char>> {
    match path_file_name(path) {
        Some(name) => Some(strip_suffix(name, exe_suffix)),
        None => None,
    }
}

/// The descriptor of a command whose program has the file name
/// `file_name` and whose payload reads as `stdin`.
pub open spec fn assembled(
    file_name: Seq<char>,
    cmd: CommandView,
    stdin: Option<Seq<char>>,
    exe_suffix: Seq<char>,
) -> InfoView {
    InfoView {
        program: strip_suffix(file_name, exe_suffix),
        args: cmd.args,
        env: env_of(cmd.envs),
        stdin,
    }
}

/// The descriptor of `cmd` run with the payload `stdin`; none where the
/// program's path has no final component.
pub open spec fn describe(cmd: CommandView, stdin: Option<Seq<u8>>, exe_suffix: Seq<char>) -> Option<
    InfoView,
> {
    match path_file_name(cmd.program) {
        Some(name) => Some(assembled(name, cmd, stdin_text(stdin), exe_suffix)),
        None => None,
    }
}

/// The list of settings with the two at `i` and `i + 1` in each other's
/// place.
pub open spec fn swapped(log: Seq<(Seq<char>, Option<Seq<char>>)>, i: int) -> Seq<
    (Seq<char>, Option<Seq<char>>),
> {
    log.update(i, log[i + 1]).update(i + 1, log[i])
}

/// The order in which two variables are set does not count: settings of
/// different variables that stand next to each other may change places.
pub proof fn lemma_env_order_independent(log: Seq<(Seq<char>, Option<Seq<char>>)>, i: int)
    requires
        0 <= i,
        i + 1 < log.len(),
        log[i].0 != log[i + 1].0,
    ensures
        env_of(swapped(log, i)) == env_of(log),
    decreases log.len(),
{
    let other = swapped(log, i);
    if i + 2 == log.len() {
        let front = log.drop_last().drop_last();
        assert(other.drop_last().drop_last() =~= front);
        assert(env_of(other.drop_last()) == env_of(front).insert(
            log[i + 1].0,
            env_value(log[i + 1].1),
        ));
        assert(env_of(log.drop_last()) == env_of(front).insert(log[i].0, env_value(log[i].1)));
        assert(env_of(other) =~= env_of(log));
    } else {
        assert(other.drop_last() =~= swapped(log.drop_last(), i));
        lemma_env_order_independent(log.drop_last(), i);
    }
}

/// Two settings of different variables give the same overrides in
/// either order.
pub proof fn lemma_env_two_settings(
    first: (Seq<char>, Option<Seq<char>>),
    second: (Seq<char>, Option<Seq<char>>),
)
    requires
        first.0 != second.0,
    ensures
        env_of(seq![first, second]) == env_of(seq![second, first]),
        env_of(seq![first, second]) == Map::<Seq<char>, Seq<char>>::empty().insert(
            first.0,
            env_value(first.1),
        ).insert(second.0, env_value(second.1)),
{
    let log = seq![first, second];
    assert(swapped(log, 0) =~= seq![second, first]);
    lemma_env_order_independent(log, 0);
    assert(log.drop_last() =~= seq![first]);
    assert(seq![first].drop_last() =~= Seq::<(Seq<char>, Option<Seq<char>>)>::empty());
    assert(env_of(Seq::<(Seq<char>, Option<Seq<char>>)>::empty()) == Map::<
        Seq<char>,
        Seq<char>,
    >::empty());
    assert(env_of(seq![first]) == Map::<Seq<char>, Seq<char>>::empty().insert(
        first.0,
        env_value(first.1),
    ));
}

/// The descriptor is a matter of the invocation alone: commands whose
/// programs have the same file name, with the same arguments, with
/// settings that amount to the same overrides and with payloads that
/// read the same are described in the same way.
pub proof fn lemma_same_invocation_same_descriptor(
    a: CommandView,
    stdin_a: Option<Seq<u8>>,
    b: CommandView,
    stdin_b: Option<Seq<u8>>,
    exe_suffix: Seq<char>,
)
    requires
        path_file_name(a.program) == path_file_name(b.program),
        a.args == b.args,
        env_of(a.envs) == env_of(b.envs),
        stdin_text(stdin_a) == stdin_text(stdin_b),
    ensures
        describe(a, stdin_a, exe_suffix) == describe(b, stdin_b, exe_suffix),
{
}

/// A program whose file name is a stem followed by the executable
/// suffix is described by the stem.
pub proof fn lemma_program_name_without_suffix(
    path: Seq<char>,
    stem: Seq<char>,
    exe_suffix: Seq<char>,
)
    requires
        path_file_name(path) == Some(stem + exe_suffix),
        exe_suffix.len() > 0,
    ensures
        program_name(path, exe_suffix) == Some(stem),
{
    lemma_strip_suffix_removes(stem, exe_suffix);
}

/// A program whose file name does not end with the executable suffix
/// is described by its file name, and so is every program where the
/// platform has no such suffix.
pub proof fn lemma_program_name_unchanged(path: Seq<char>, name: Seq<char>, exe_suffix: Seq<char>)
    requires
        path_file_name(path) == Some(name),
        exe_suffix.len() == 0 || !ends_with(name, exe_suffix),
    ensures
        program_name(path, exe_suffix) == Some(name),
{
}

/// Describing a program by the name under which it is described changes
/// nothing, where that name is its own file name and does not end with
/// the executable suffix again.
pub proof fn lemma_program_name_idempotent(path: Seq<char>, exe_suffix: Seq<char>)
    requires
        program_name(path, exe_suffix) is Some,
        path_file_name(program_name(path, exe_suffix)->0) == program_name(path, exe_suffix),
        exe_suffix.len() == 0 || !ends_with(program_name(path, exe_suffix)->0, exe_suffix),
    ensures
        program_name(program_name(path, exe_suffix)->0, exe_suffix) == program_name(
            path,
            exe_suffix,
        ),
{
}

/// The name under which the program at `cmd` is described.
pub fn describe_program(cmd: &str, exe_suffix: &str) -> (r: Option<String>)
    ensures
        opt_text(r) == program_name(cmd@, exe_suffix@),
{
    match file_name(cmd) {
        Some(name) => Some(without_suffix(name.as_str(), exe_suffix)),
        None => None,
    }
}

/// The overrides that a list of settings amounts to.
pub fn collect_env(envs: &Vec<(String, Option<String>)>) -> (r: EnvMap)
    ensures
        r@ == env_of(envs_view(envs@)),
        r.wf(),
{
    let mut r = EnvMap::new();
    let n = envs.len();
    let mut i: usize = 0;
    while i < n
        invariant
            i <= n,
            n == envs@.len(),
            r@ == env_of(envs_view(envs@).take(i as int)),
            r.wf(),
        decreases n - i,
    {
        let value = match &envs[i].1 {
            Some(v) => v.clone(),
            None => String::new(),
        };
        proof {
            let log = envs_view(envs@);
            assert(log.take(i + 1).drop_last() =~= log.take(i as int));
        }
        r.insert(envs[i].0.clone(), value);
        i += 1;
    }
    assert(envs_view(envs@).take(n as int) =~= envs_view(envs@));
    r
}

/// The invocation descriptor.
pub struct Info {
    program: String,
    args: Vec<String>,
    env: EnvMap,
    stdin: Option<String>,
}

impl View for Info {
    type V = InfoView;

    closed spec fn view(&self) -> InfoView {
        InfoView {
            program: self.program@,
            args: strings_view(self.args@),
            env: self.env@,
            stdin: opt_text(self.stdin),
        }
    }
}

impl Info {
    /// A descriptor of these parts.
    pub fn new(program: String, args: Vec<String>, env: EnvMap, stdin: Option<String>) -> (r: Info)
        ensures
            r@ == (InfoView {
                program: program@,
                args: strings_view(args@),
                env: env@,
                stdin: opt_text(stdin),
            }),
    {
        Info { program, args, env, stdin }
    }

    /// The descriptor of `cmd`, whose program has the file name
    /// `file_name` and whose payload reads as `stdin`.
    pub fn assemble(file_name: &str, cmd: &Command, stdin: Option<String>, exe_suffix: &str) -> (r:
        Info)
        ensures
            r@ == assembled(file_name@, cmd@, opt_text(stdin), exe_suffix@),
    {
        Info {
            program: without_suffix(file_name, exe_suffix),
            args: copy_strings(cmd.get_args()),
            env: collect_env(cmd.get_envs()),
            stdin,
        }
    }

    /// The descriptor of `cmd` run with the payload `stdin`; none where
    /// the program's path has no final component.
    pub fn from_command(cmd: &Command, stdin: Option<&[u8]>, exe_suffix: &str) -> (r: Option<Info>)
        ensures
            match r {
                Some(info) => describe(cmd@, opt_bytes(stdin), exe_suffix@) == Some(info@)
                    && reads_back(info@, opt_bytes(stdin)),
                None => describe(cmd@, opt_bytes(stdin), exe_suffix@) is None,
            },
    {
        let text = match stdin {
            Some(bytes) => Some(from_utf8_lossy(bytes)),
            None => None,
        };
        match file_name(cmd.get_program()) {
            Some(name) => Some(Info::assemble(name.as_str(), cmd, text, exe_suffix)),
            None => None,
        }
    }

    /// The program's name.
    pub fn program(&self) -> (r: &str)
        ensures
            r@ == self@.program,
    {
        self.program.as_str()
    }

    /// The arguments in the order supplied.
    pub fn args(&self) -> (r: &Vec<String>)
        ensures
            strings_view(r@) == self@.args,
    {
        &self.args
    }

    /// The environment overrides, sorted by variable name.
    pub fn env(&self) -> (r: &EnvMap)
        ensures
            r@ == self@.env,
            r.wf(),
    {
        proof {
            use_type_invariant(&self.env);
        }
        &self.env
    }

    /// The text sent to the child's standard input, if any was.
    pub fn stdin(&self) -> (r: Option<&str>)
        ensures
            match r {
                Some(s) => self@.stdin == Some(s@),
                None => self@.stdin is None,
            },
    {
        match &self.stdin {
            Some(s) => Some(s.as_str()),
            None => None,
        }
    }
}

} // verus!
