//! Descriptions of the programs NovaDream runs: program, arguments,
//! environment changes, working directory. The caller carries them out.
use vstd::prelude::*;

use crate::paths::opt_view;
use crate::text::string_views;

verus! {

/// One change to a child process's environment.
#[derive(Debug)]
pub enum EnvOp {
    /// Set the variable to the value.
    Assign(String, String),
    /// Remove the variable.
    Remove(String),
}

/// An environment change, as text.
pub enum EnvChange {
    Assign(Seq<char>, Seq<char>),
    Remove(Seq<char>),
}

/// A program to run: what `std::process::Command` is given.
#[derive(Debug)]
pub struct CommandSpec {
    pub program: String,
    pub args: Vec<String>,
    /// Environment changes, applied in order.
    pub env: Vec<EnvOp>,
    /// Working directory, when it is set.
    pub cwd: Option<String>,
    /// Start the child in a process group of its own.
    pub new_process_group: bool,
}

/// A command, as text.
#[verifier::ext_equal]
pub struct CommandText {
    pub program: Seq<char>,
    pub args: Seq<Seq<char>>,
    pub env: Seq<EnvChange>,
    pub cwd: Option<Seq<char>>,
    pub new_process_group: bool,
}

pub open spec fn env_change(e: EnvOp) -> EnvChange {
    match e {
        EnvOp::Assign(k, v) => EnvChange::Assign(k@, v@),
        EnvOp::Remove(k) => EnvChange::Remove(k@),
    }
}

pub open spec fn env_changes(v: Seq<EnvOp>) -> Seq<EnvChange> {
    v.map_values(|e: EnvOp| env_change(e))
}

pub open spec fn command_text(c: CommandSpec) -> CommandText {
    CommandText {
        program: c.program@,
        args: string_views(c.args@),
        env: env_changes(c.env@),
        cwd: opt_view(c.cwd),
        new_process_group: c.new_process_group,
    }
}

/// A command with no environment changes, working directory or process group.
pub open spec fn plain_command(program: Seq<char>, args: Seq<Seq<char>>) -> CommandText {
    CommandText { program, args, env: seq![], cwd: None, new_process_group: false }
}

impl CommandSpec {
    /// `program` with `args`, and nothing else set.
    pub fn new(program: String, args: Vec<String>) -> (r: CommandSpec)
        ensures
            command_text(r) == plain_command(program@, string_views(args@)),
    {
        let r = CommandSpec { program, args, env: Vec::new(), cwd: None, new_process_group: false };
        assert(env_changes(r.env@) =~= Seq::<EnvChange>::empty());
        r
    }

    /// Adds `KEY=VALUE` to the environment changes.
    pub fn set_env(&mut self, key: &str, value: &str)
        ensures
            command_text(*final(self)) == (CommandText {
                env: command_text(*old(self)).env.push(EnvChange::Assign(key@, value@)),
                ..command_text(*old(self))
            }),
    {
        let ghost before = self.env@;
        self.env.push(EnvOp::Assign(key.to_string(), value.to_string()));
        assert(env_changes(self.env@) =~= env_changes(before).push(EnvChange::Assign(key@, value@)));
    }

    /// Adds the removal of `key` to the environment changes.
    pub fn remove_env(&mut self, key: &str)
        ensures
            command_text(*final(self)) == (CommandText {
                env: command_text(*old(self)).env.push(EnvChange::Remove(key@)),
                ..command_text(*old(self))
            }),
    {
        let ghost before = self.env@;
        self.env.push(EnvOp::Remove(key.to_string()));
        assert(env_changes(self.env@) =~= env_changes(before).push(EnvChange::Remove(key@)));
    }
}

} // verus!
