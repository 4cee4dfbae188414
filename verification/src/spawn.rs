//! Running things: every runnable resolves to one process configuration
//! and an optional payload for the child's standard input.

use crate::command::{strings_view, Command, CommandView};
use crate::info::{describe, reads_back, Info, InfoView};
use crate::snapshot::{Output, OutputView};
use vstd::prelude::*;

verus! {

/// Why a run came to nothing. Each of these ends the run: there is no
/// partial result.
#[derive(Clone, Copy, Debug, PartialEq, Eq, Structural)]
pub enum SpawnError {
    /// The runnable names no program.
    InvalidInvocation,
    /// The process could not be created.
    SpawnFailure,
    /// The payload did not reach the child in full.
    StdinWriteFailure,
    /// What the process wrote could not be read back in full.
    OutputCaptureFailure,
}

/// The text that tells of an error.
pub open spec fn error_text(e: SpawnError) -> Seq<char> {
    match e {
        SpawnError::InvalidInvocation => "expected program name as first item"@,
        SpawnError::SpawnFailure => "Failed to spawn process"@,
        SpawnError::StdinWriteFailure => "Failed to write to stdin"@,
        SpawnError::OutputCaptureFailure => "Failed to capture output"@,
    }
}

impl SpawnError {
    /// The text that tells of the error.
    pub fn message(&self) -> (r: String)
        ensures
            r@ == error_text(*self),
    {
        match self {
            SpawnError::InvalidInvocation => String::from_str(
                "expected program name as first item",
            ),
            SpawnError::SpawnFailure => String::from_str("Failed to spawn process"),
            SpawnError::StdinWriteFailure => String::from_str("Failed to write to stdin"),
            SpawnError::OutputCaptureFailure => String::from_str("Failed to capture output"),
        }
    }
}

/// What is to be executed: the process configuration, and the payload
/// for the child's standard input. With a payload all three standard
/// streams are piped, the payload is written by a writer of its own and
/// the pipe is closed after it; without one the process is run and what
/// it writes is captured.
pub struct Launch {
    pub command: Command,
    pub stdin: Option<Vec<u8>>,
}

/// What a `Launch` holds, as plain values.
pub struct LaunchView {
    pub command: CommandView,
    pub stdin: Option<Seq<u8>>,
}

/// The bytes of a payload that may be absent.
pub open spec fn opt_payload(o: Option<Vec<u8>>) -> Option<Seq<u8>> {
    match o {
        Some(v) => Some(v@),
        None => None,
    }
}

impl View for Launch {
    type V = LaunchView;

    open spec fn view(&self) -> LaunchView {
        LaunchView { command: self.command@, stdin: opt_payload(self.stdin) }
    }
}

/// The payload that reaches the child: the one given at the call, else
/// the one that the runnable holds.
pub open spec fn effective_stdin(given: Option<Seq<u8>>, held: Option<Seq<u8>>) -> Option<Seq<u8>> {
    match given {
        Some(bytes) => Some(bytes),
        None => held,
    }
}

/// What a runnable holds after a run: its payload is handed over once,
/// and an empty one is left in its place.
pub open spec fn drained(held: Option<Seq<u8>>) -> Option<Seq<u8>> {
    match held {
        Some(_) => Some(Seq::empty()),
        None => None,
    }
}

/// Hands over the payload for one run: the one given at the call, else
/// the one held. What was held is gone afterwards either way, an empty
/// payload is left in its place.
pub fn hand_over(held: &mut Vec<u8>, given: Option<Vec<u8>>) -> (r: Vec<u8>)
    ensures
        Some(r@) == effective_stdin(opt_payload(given), Some(old(held)@)),
        Some(final(held)@) == drained(Some(old(held)@)),
{
    let mut own: Vec<u8> = Vec::new();
    std::mem::swap(held, &mut own);
    match given {
        Some(bytes) => bytes,
        None => own,
    }
}

/// The descriptor and the launch that a runnable gives: of a runnable
/// that resolves to `resolved` and holds the payload `held`, when it is
/// run with the payload `given`.
pub open spec fn spawn_outcome(
    resolved: Option<CommandView>,
    held: Option<Seq<u8>>,
    given: Option<Seq<u8>>,
    exe_suffix: Seq<char>,
) -> Result<(InfoView, LaunchView), SpawnError> {
    match resolved {
        None => Err(SpawnError::InvalidInvocation),
        Some(cmd) => match describe(cmd, effective_stdin(given, held), exe_suffix) {
            None => Err(SpawnError::InvalidInvocation),
            Some(info) => Ok(
                (info, LaunchView { command: cmd, stdin: effective_stdin(given, held) }),
            ),
        },
    }
}

/// A result of `spawn_with_info` as plain values.
pub open spec fn outcome_view(r: Result<(Info, Launch), SpawnError>) -> Result<
    (InfoView, LaunchView),
    SpawnError,
> {
    match r {
        Ok(pair) => Ok((pair.0@, pair.1@)),
        Err(e) => Err(e),
    }
}

/// Implemented by the types that can be run and snapshotted.
pub trait Spawn {
    /// The process configuration that the runnable resolves to; none
    /// where it names no program.
    spec fn resolved(&self) -> Option<CommandView>;

    /// The payload that the runnable itself holds.
    spec fn held_stdin(&self) -> Option<Seq<u8>>;

    /// Describes the invocation and says what is to be executed. A
    /// payload given here goes before one that the runnable holds. The
    /// runnable resolves as before afterwards, and has handed over the
    /// payload that it held.
    fn spawn_with_info(&mut self, stdin: Option<Vec<u8>>, exe_suffix: &str) -> (r: Result<
        (Info, Launch),
        SpawnError,
    >)
        ensures
            outcome_view(r) == spawn_outcome(
                old(self).resolved(),
                old(self).held_stdin(),
                opt_payload(stdin),
                exe_suffix@,
            ),
            r matches Ok(pair) ==> reads_back(
                pair.0@,
                effective_stdin(opt_payload(stdin), old(self).held_stdin()),
            ),
            final(self).resolved() == old(self).resolved(),
            final(self).held_stdin() == drained(old(self).held_stdin()),
    ;
}

impl Spawn for Command {
    open spec fn resolved(&self) -> Option<CommandView> {
        Some(self@)
    }

    open spec fn held_stdin(&self) -> Option<Seq<u8>> {
        None
    }

    fn spawn_with_info(&mut self, stdin: Option<Vec<u8>>, exe_suffix: &str) -> (r: Result<
        (Info, Launch),
        SpawnError,
    >)
        ensures
            *final(self) == *old(self),
    {
        let described = match &stdin {
            Some(bytes) => Info::from_command(self, Some(bytes.as_slice()), exe_suffix),
            None => Info::from_command(self, None, exe_suffix),
        };
        match described {
            Some(info) => Ok((info, Launch { command: self.duplicate(), stdin })),
            None => Err(SpawnError::InvalidInvocation),
        }
    }
}

impl<'a> Spawn for &'a mut Command {
    open spec fn resolved(&self) -> Option<CommandView> {
        Some((**self)@)
    }

    open spec fn held_stdin(&self) -> Option<Seq<u8>> {
        None
    }

    fn spawn_with_info(&mut self, stdin: Option<Vec<u8>>, exe_suffix: &str) -> (r: Result<
        (Info, Launch),
        SpawnError,
    >)
        ensures
            *final(*final(self)) == *final(*old(self)),
    {
        (**self).spawn_with_info(stdin, exe_suffix)
    }
}

/// A runnable with a payload for its standard input attached.
pub struct SpawnWithStdin<'a, T: Spawn> {
    /// The runnable that the payload is attached to.
    pub spawn: &'a mut T,
    /// The payload.
    pub stdin: Vec<u8>,
}

impl<'a, T: Spawn> Spawn for SpawnWithStdin<'a, T> {
    open spec fn resolved(&self) -> Option<CommandView> {
        self.spawn.resolved()
    }

    open spec fn held_stdin(&self) -> Option<Seq<u8>> {
        Some(self.stdin@)
    }

    fn spawn_with_info(&mut self, stdin: Option<Vec<u8>>, exe_suffix: &str) -> (r: Result<
        (Info, Launch),
        SpawnError,
    >)
        ensures
            final(self).spawn.held_stdin() == drained(old(self).spawn.held_stdin()),
            *final(final(self).spawn) == *final(old(self).spawn),
    {
        let payload = hand_over(&mut self.stdin, stdin);
        self.spawn.spawn_with_info(Some(payload), exe_suffix)
    }
}

/// Utility methods for spawning.
pub trait SpawnExt: Spawn + Sized {
    /// Attaches `stdin` as the payload for the child's standard input.
    /// What the runnable resolves to stays as it is.
    fn pass_stdin(&mut self, stdin: Vec<u8>) -> (r: SpawnWithStdin<'_, Self>)
        ensures
            *r.spawn == *old(self),
            *final(r.spawn) == *final(self),
            r.stdin@ == stdin@,
    ;
}

impl<T: Spawn> SpawnExt for T {
    fn pass_stdin(&mut self, stdin: Vec<u8>) -> (r: SpawnWithStdin<'_, Self>) {
        SpawnWithStdin { spawn: self, stdin }
    }
}

/// Like `Command`, but holds a payload for the child's standard input.
/// `SpawnExt::pass_stdin` does the same for any runnable.
pub struct StdinCommand {
    command: Command,
    stdin: Vec<u8>,
}

/// What a `StdinCommand` holds, as plain values.
pub struct StdinCommandView {
    pub command: CommandView,
    pub stdin: Seq<u8>,
}

impl View for StdinCommand {
    type V = StdinCommandView;

    closed spec fn view(&self) -> StdinCommandView {
        StdinCommandView { command: self.command@, stdin: self.stdin@ }
    }
}

impl StdinCommand {
    /// A configuration for `program` that feeds `stdin` to the child.
    pub fn new(program: &str, stdin: Vec<u8>) -> (r: StdinCommand)
        ensures
            r@.command == (CommandView {
                program: program@,
                args: Seq::empty(),
                envs: Seq::empty(),
            }),
            r@.stdin == stdin@,
    {
        StdinCommand { command: Command::new(program), stdin }
    }
}

impl std::ops::Deref for StdinCommand {
    type Target = Command;

    fn deref(&self) -> (r: &Command)
        ensures
            r@ == self@.command,
    {
        &self.command
    }
}

impl std::ops::DerefMut for StdinCommand {
    fn deref_mut(&mut self) -> (r: &mut Command)
        ensures
            r@ == old(self)@.command,
            final(self)@ == (StdinCommandView { command: final(r)@, stdin: old(self)@.stdin }),
    {
        &mut self.command
    }
}

impl Spawn for StdinCommand {
    open spec fn resolved(&self) -> Option<CommandView> {
        Some(self@.command)
    }

    open spec fn held_stdin(&self) -> Option<Seq<u8>> {
        Some(self@.stdin)
    }

    fn spawn_with_info(&mut self, stdin: Option<Vec<u8>>, exe_suffix: &str) -> (r: Result<
        (Info, Launch),
        SpawnError,
    >) {
        let payload = hand_over(&mut self.stdin, stdin);
        self.command.spawn_with_info(Some(payload), exe_suffix)
    }
}

/// The texts of a sequence of string slices.
pub open spec fn strs_view(v: Seq<&str>) -> Seq<Seq<char>> {
    Seq::new(v.len(), |i: int| v[i]@)
}

/// The process configuration that a list of tokens stands for: the
/// first is the program, the others are its arguments. An empty list
/// stands for none.
pub open spec fn list_command(tokens: Seq<Seq<char>>) -> Option<CommandView> {
    if tokens.len() == 0 {
        None
    } else {
        Some(CommandView { program: tokens[0], args: tokens.skip(1), envs: Seq::empty() })
    }
}

/// The process configuration that may be absent, as plain values.
pub open spec fn opt_command(o: Option<Command>) -> Option<CommandView> {
    match o {
        Some(c) => Some(c@),
        None => None,
    }
}

/// The process configuration that a list of string slices stands for.
pub fn command_from_strs(tokens: &[&str]) -> (r: Option<Command>)
    ensures
        opt_command(r) == list_command(strs_view(tokens@)),
{
    let n = tokens.len();
    if n == 0 {
        return None;
    }
    let mut cmd = Command::new(tokens[0]);
    let mut i: usize = 1;
    while i < n
        invariant
            1 <= i <= n,
            n == tokens@.len(),
            cmd@.program == tokens@[0]@,
            cmd@.envs == Seq::<(Seq<char>, Option<Seq<char>>)>::empty(),
            cmd@.args == strs_view(tokens@).subrange(1, i as int),
        decreases n - i,
    {
        cmd.arg(tokens[i]);
        i += 1;
    }
    Some(cmd)
}

/// The process configuration that a list of strings stands for.
pub fn command_from_strings(tokens: &[String]) -> (r: Option<Command>)
    ensures
        opt_command(r) == list_command(strings_view(tokens@)),
{
    let n = tokens.len();
    if n == 0 {
        return None;
    }
    let mut cmd = Command::new(tokens[0].as_str());
    let mut i: usize = 1;
    while i < n
        invariant
            1 <= i <= n,
            n == tokens@.len(),
            cmd@.program == tokens@[0]@,
            cmd@.envs == Seq::<(Seq<char>, Option<Seq<char>>)>::empty(),
            cmd@.args == strings_view(tokens@).subrange(1, i as int),
        decreases n - i,
    {
        cmd.arg(tokens[i].as_str());
        i += 1;
    }
    Some(cmd)
}

/// Runs the process configuration that a list of tokens stands for.
pub fn spawn_list(command: Option<Command>, stdin: Option<Vec<u8>>, exe_suffix: &str) -> (r: Result<
    (Info, Launch),
    SpawnError,
>)
    ensures
        outcome_view(r) == spawn_outcome(opt_command(command), None, opt_payload(stdin), exe_suffix@),
        r matches Ok(pair) ==> reads_back(pair.0@, opt_payload(stdin)),
{
    match command {
        Some(cmd) => {
            let mut cmd = cmd;
            cmd.spawn_with_info(stdin, exe_suffix)
        },
        None => Err(SpawnError::InvalidInvocation),
    }
}

impl<'a, 'b> Spawn for &'a [&'b str] {
    open spec fn resolved(&self) -> Option<CommandView> {
        list_command(strs_view(self@))
    }

    open spec fn held_stdin(&self) -> Option<Seq<u8>> {
        None
    }

    fn spawn_with_info(&mut self, stdin: Option<Vec<u8>>, exe_suffix: &str) -> (r: Result<
        (Info, Launch),
        SpawnError,
    >) {
        spawn_list(command_from_strs(*self), stdin, exe_suffix)
    }
}

impl<'a, const N: usize> Spawn for [&'a str; N] {
    open spec fn resolved(&self) -> Option<CommandView> {
        list_command(strs_view(self@))
    }

    open spec fn held_stdin(&self) -> Option<Seq<u8>> {
        None
    }

    fn spawn_with_info(&mut self, stdin: Option<Vec<u8>>, exe_suffix: &str) -> (r: Result<
        (Info, Launch),
        SpawnError,
    >) {
        spawn_list(command_from_strs(self.as_slice()), stdin, exe_suffix)
    }
}

impl<'a> Spawn for Vec<&'a str> {
    open spec fn resolved(&self) -> Option<CommandView> {
        list_command(strs_view(self@))
    }

    open spec fn held_stdin(&self) -> Option<Seq<u8>> {
        None
    }

    fn spawn_with_info(&mut self, stdin: Option<Vec<u8>>, exe_suffix: &str) -> (r: Result<
        (Info, Launch),
        SpawnError,
    >) {
        spawn_list(command_from_strs(self.as_slice()), stdin, exe_suffix)
    }
}

impl<'a> Spawn for &'a [String] {
    open spec fn resolved(&self) -> Option<CommandView> {
        list_command(strings_view(self@))
    }

    open spec fn held_stdin(&self) -> Option<Seq<u8>> {
        None
    }

    fn spawn_with_info(&mut self, stdin: Option<Vec<u8>>, exe_suffix: &str) -> (r: Result<
        (Info, Launch),
        SpawnError,
    >) {
        spawn_list(command_from_strings(*self), stdin, exe_suffix)
    }
}

impl<const N: usize> Spawn for [String; N] {
    open spec fn resolved(&self) -> Option<CommandView> {
        list_command(strings_view(self@))
    }

    open spec fn held_stdin(&self) -> Option<Seq<u8>> {
        None
    }

    fn spawn_with_info(&mut self, stdin: Option<Vec<u8>>, exe_suffix: &str) -> (r: Result<
        (Info, Launch),
        SpawnError,
    >) {
        spawn_list(command_from_strings(self.as_slice()), stdin, exe_suffix)
    }
}

impl Spawn for Vec<String> {
    open spec fn resolved(&self) -> Option<CommandView> {
        list_command(strings_view(self@))
    }

    open spec fn held_stdin(&self) -> Option<Seq<u8>> {
        None
    }

    fn spawn_with_info(&mut self, stdin: Option<Vec<u8>>, exe_suffix: &str) -> (r: Result<
        (Info, Launch),
        SpawnError,
    >) {
        spawn_list(command_from_strings(self.as_slice()), stdin, exe_suffix)
    }
}

/// What the driver saw of one run.
pub struct Report {
    /// The process was created.
    pub started: bool,
    /// The payload was written in full and the pipe closed after it.
    /// It says nothing of a run without a payload.
    pub stdin_written: bool,
    /// What the process produced, where all of it was read back.
    pub output: Option<Output>,
}

/// What a `Report` holds, as plain values.
pub struct ReportView {
    pub started: bool,
    pub stdin_written: bool,
    pub output: Option<OutputView>,
}

/// The output that may be absent, as plain values.
pub open spec fn opt_output(o: Option<Output>) -> Option<OutputView> {
    match o {
        Some(out) => Some(out@),
        None => None,
    }
}

impl View for Report {
    type V = ReportView;

    open spec fn view(&self) -> ReportView {
        ReportView {
            started: self.started,
            stdin_written: self.stdin_written,
            output: opt_output(self.output),
        }
    }
}

/// How a run ends: with everything that the process produced, or with
/// the first thing that went wrong. A payload that did not arrive in
/// full fails the run even where output was read back.
pub open spec fn conclusion(launch: LaunchView, report: ReportView) -> Result<
    OutputView,
    SpawnError,
> {
    if !report.started {
        Err(SpawnError::SpawnFailure)
    } else if launch.stdin is Some && !report.stdin_written {
        Err(SpawnError::StdinWriteFailure)
    } else {
        match report.output {
            Some(out) => Ok(out),
            None => Err(SpawnError::OutputCaptureFailure),
        }
    }
}

/// A result of `conclude` as plain values.
pub open spec fn conclusion_view(r: Result<Output, SpawnError>) -> Result<OutputView, SpawnError> {
    match r {
        Ok(out) => Ok(out@),
        Err(e) => Err(e),
    }
}

/// Says how the run of `launch` ended, from what the driver saw of it.
pub fn conclude(launch: &Launch, report: Report) -> (r: Result<Output, SpawnError>)
    ensures
        conclusion_view(r) == conclusion(launch@, report@),
{
    if !report.started {
        Err(SpawnError::SpawnFailure)
    } else if launch.stdin.is_some() && !report.stdin_written {
        Err(SpawnError::StdinWriteFailure)
    } else {
        match report.output {
            Some(out) => Ok(out),
            None => Err(SpawnError::OutputCaptureFailure),
        }
    }
}

/// The descriptor tells of what is executed: where a run is accepted,
/// the launch holds the configuration that the runnable resolves to and
/// the payload that reaches the child, and the descriptor is the one of
/// that configuration and that payload.
pub proof fn lemma_descriptor_reflects_launch(
    resolved: Option<CommandView>,
    held: Option<Seq<u8>>,
    given: Option<Seq<u8>>,
    exe_suffix: Seq<char>,
)
    ensures
        match spawn_outcome(resolved, held, given, exe_suffix) {
            Ok(pair) => resolved == Some(pair.1.command) && pair.1.stdin == effective_stdin(
                given,
                held,
            ) && describe(pair.1.command, pair.1.stdin, exe_suffix) == Some(pair.0),
            Err(e) => e == SpawnError::InvalidInvocation && (resolved is None || describe(
                resolved->0,
                effective_stdin(given, held),
                exe_suffix,
            ) is None),
        },
{
}

/// A runnable that is run a second time with the same payload is
/// described as it was the first time and gives the same launch. This
/// holds where a payload is given, or the runnable holds none or an
/// empty one: a payload that the runnable held is gone after the first
/// run. `second` is the runnable as the first run left it.
pub proof fn lemma_spawn_twice<S: Spawn>(
    first: S,
    second: S,
    given: Option<Seq<u8>>,
    exe_suffix: Seq<char>,
)
    requires
        second.resolved() == first.resolved(),
        second.held_stdin() == drained(first.held_stdin()),
        given is Some || first.held_stdin() is None || first.held_stdin() == Some(
            Seq::<u8>::empty(),
        ),
    ensures
        spawn_outcome(second.resolved(), second.held_stdin(), given, exe_suffix) == spawn_outcome(
            first.resolved(),
            first.held_stdin(),
            given,
            exe_suffix,
        ),
{
}

/// Runnables of any two shapes that resolve to the same configuration
/// and hold the same payload are described in the same way and give the
/// same launch.
pub proof fn lemma_shape_independent<S: Spawn, T: Spawn>(
    a: S,
    b: T,
    given: Option<Seq<u8>>,
    exe_suffix: Seq<char>,
)
    requires
        a.resolved() == b.resolved(),
        a.held_stdin() == b.held_stdin(),
    ensures
        spawn_outcome(a.resolved(), a.held_stdin(), given, exe_suffix) == spawn_outcome(
            b.resolved(),
            b.held_stdin(),
            given,
            exe_suffix,
        ),
{
}

/// Attaching a payload changes only the payload. An adapter resolves to
/// what its inner runnable resolves to and holds the attached payload;
/// so running it without a payload gives what running the inner
/// runnable with the attached payload gives, and a payload given to the
/// adapter reaches the inner runnable as it is.
pub proof fn lemma_adapter_composes<T: Spawn>(
    inner: T,
    attached: Seq<u8>,
    given: Option<Seq<u8>>,
    exe_suffix: Seq<char>,
)
    ensures
        spawn_outcome(inner.resolved(), Some(attached), None, exe_suffix) == spawn_outcome(
            inner.resolved(),
            inner.held_stdin(),
            Some(attached),
            exe_suffix,
        ),
        given is Some ==> spawn_outcome(inner.resolved(), Some(attached), given, exe_suffix)
            == spawn_outcome(inner.resolved(), inner.held_stdin(), given, exe_suffix),
{
}

/// A list of tokens is run as the command that is made of its first
/// token and given the others as arguments.
pub proof fn lemma_list_is_command(tokens: Seq<Seq<char>>, cmd: CommandView)
    requires
        tokens.len() > 0,
        cmd.program == tokens[0],
        cmd.args == tokens.skip(1),
        cmd.envs.len() == 0,
    ensures
        list_command(tokens) == Some(cmd),
{
    assert(cmd.envs =~= Seq::empty());
}

} // verus!
