//! A process configuration that has not been executed yet: the program,
//! its arguments and the environment overrides, each in the order given.

use vstd::prelude::*;

verus! {

/// What a `Command` holds, as plain values.
pub struct CommandView {
    /// The program as it was configured, a name or a path.
    pub program: Seq<char>,
    /// The arguments in the order supplied.
    pub args: Seq<Seq<char>>,
    /// The overrides in the order supplied; no value stands for a
    /// variable that the child shall not have.
    pub envs: Seq<(Seq<char>, Option<Seq<char>>)>,
}

/// The texts of a sequence of strings.
pub open spec fn strings_view(v: Seq<String>) -> Seq<Seq<char>> {
    Seq::new(v.len(), |i: int| v[i]@)
}

/// The text of a string that may be absent.
pub open spec fn opt_text(o: Option<String>) -> Option<Seq<char>> {
    match o {
        Some(s) => Some(s@),
        None => None,
    }
}

/// The names and values of a sequence of overrides.
pub open spec fn envs_view(v: Seq<(String, Option<String>)>) -> Seq<
    (Seq<char>, Option<Seq<char>>),
> {
    Seq::new(v.len(), |i: int| (v[i].0@, opt_text(v[i].1)))
}

/// A process configuration.
pub struct Command {
    program: String,
    args: Vec<String>,
    envs: Vec<(String, Option<String>)>,
}

impl View for Command {
    type V = CommandView;

    closed spec fn view(&self) -> CommandView {
        CommandView {
            program: self.program@,
            args: strings_view(self.args@),
            envs: envs_view(self.envs@),
        }
    }
}

impl Command {
    /// A configuration for `program`, without arguments or overrides.
    pub fn new(program: &str) -> (r: Command)
        ensures
            r@ == (CommandView { program: program@, args: Seq::empty(), envs: Seq::empty() }),
    {
        let r = Command { program: String::from_str(program), args: Vec::new(), envs: Vec::new() };
        assert(strings_view(r.args@) =~= Seq::empty());
        assert(envs_view(r.envs@) =~= Seq::empty());
        r
    }

    /// Adds one argument after those already there.
    pub fn arg(&mut self, arg: &str) -> (r: &mut Command)
        ensures
            r@ == (CommandView { args: old(self)@.args.push(arg@), ..old(self)@ }),
            *final(self) == *final(r),
    {
        self.args.push(String::from_str(arg));
        assert(strings_view(self.args@) =~= strings_view(old(self).args@).push(arg@));
        self
    }

    /// Sets the variable `key` to `val` for the child.
    pub fn env(&mut self, key: &str, val: &str) -> (r: &mut Command)
        ensures
            r@ == (CommandView { envs: old(self)@.envs.push((key@, Some(val@))), ..old(self)@ }),
            *final(self) == *final(r),
    {
        self.envs.push((String::from_str(key), Some(String::from_str(val))));
        assert(envs_view(self.envs@) =~= envs_view(old(self).envs@).push((key@, Some(val@))));
        self
    }

    /// Takes the variable `key` away from the child.
    pub fn env_remove(&mut self, key: &str) -> (r: &mut Command)
        ensures
            r@ == (CommandView { envs: old(self)@.envs.push((key@, None)), ..old(self)@ }),
            *final(self) == *final(r),
    {
        self.envs.push((String::from_str(key), None));
        assert(envs_view(self.envs@) =~= envs_view(old(self).envs@).push((key@, None)));
        self
    }

    /// The program as it was configured.
    pub fn get_program(&self) -> (r: &str)
        ensures
            r@ == self@.program,
    {
        self.program.as_str()
    }

    /// The arguments in the order supplied.
    pub fn get_args(&self) -> (r: &Vec<String>)
        ensures
            strings_view(r@) == self@.args,
    {
        &self.args
    }

    /// The overrides in the order supplied.
    pub fn get_envs(&self) -> (r: &Vec<(String, Option<String>)>)
        ensures
            envs_view(r@) == self@.envs,
    {
        &self.envs
    }

    /// A second configuration that holds the same.
    pub fn duplicate(&self) -> (r: Command)
        ensures
            r@ == self@,
    {
        let args = copy_strings(&self.args);
        let mut envs: Vec<(String, Option<String>)> = Vec::new();
        let n = self.envs.len();
        let mut i: usize = 0;
        while i < n
            invariant
                i <= n,
                n == self.envs@.len(),
                envs@.len() == i,
                forall|j: int|
                    0 <= j < i ==> (#[trigger] envs@[j]).0@ == self.envs@[j].0@ && opt_text(
                        envs@[j].1,
                    ) == opt_text(self.envs@[j].1),
            decreases n - i,
        {
            let value = match &self.envs[i].1 {
                Some(v) => Some(v.clone()),
                None => None,
            };
            envs.push((self.envs[i].0.clone(), value));
            i += 1;
        }
        assert(envs_view(envs@) =~= envs_view(self.envs@));
        Command { program: self.program.clone(), args, envs }
    }
}

/// A second vector that holds the same strings.
pub fn copy_strings(v: &Vec<String>) -> (r: Vec<String>)
    ensures
        strings_view(r@) == strings_view(v@),
{
    let n = v.len();
    let mut r: Vec<String> = Vec::new();
    let mut i: usize = 0;
    while i < n
        invariant
            i <= n,
            n == v@.len(),
            r@.len() == i,
            forall|j: int| 0 <= j < i ==> (#[trigger] r@[j])@ == v@[j]@,
        decreases n - i,
    {
        r.push(v[i].clone());
        i += 1;
    }
    r
}

} // verus!
