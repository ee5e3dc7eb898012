//! The steps a tool asks the host to take: probe a path, or run a command.

use vstd::prelude::*;
use crate::error::ToolError;

verus! {

/// A host command: the program and its arguments, in order.
#[derive(Debug)]
pub struct CommandSpec {
    pub program: String,
    pub args: Vec<String>,
}

/// A `CommandSpec` as plain sequences.
pub struct CommandView {
    pub program: Seq<char>,
    pub args: Seq<Seq<char>>,
}

/// The views of a list of strings.
pub open spec fn string_views(v: Seq<String>) -> Seq<Seq<char>> {
    v.map_values(|a: String| a@)
}

impl View for CommandSpec {
    type V = CommandView;

    open spec fn view(&self) -> CommandView {
        CommandView { program: self.program@, args: string_views(self.args@) }
    }
}

/// The command `program` with the given arguments.
pub open spec fn command(program: Seq<char>, args: Seq<Seq<char>>) -> CommandView {
    CommandView { program, args }
}

impl CommandSpec {
    /// The command `program` with no arguments yet.
    pub fn new(program: &str) -> (c: CommandSpec)
        ensures
            c@ == command(program@, Seq::empty()),
    {
        let c = CommandSpec { program: program.to_owned(), args: Vec::new() };
        assert(c@.args =~= Seq::<Seq<char>>::empty());
        c
    }

    /// Appends one argument.
    pub fn arg(&mut self, a: &str)
        ensures
            final(self)@ == command(old(self)@.program, old(self)@.args.push(a@)),
    {
        self.args.push(a.to_owned());
        assert(self@.args =~= old(self)@.args.push(a@));
    }

    /// A copy of this command.
    pub fn duplicate(&self) -> (c: CommandSpec)
        ensures
            c@ == self@,
    {
        let mut args: Vec<String> = Vec::new();
        let mut i: usize = 0;
        while i < self.args.len()
            invariant
                i <= self.args@.len(),
                string_views(args@) == string_views(self.args@).take(i as int),
            decreases self.args.len() - i,
        {
            let ghost prev = args@;
            args.push(self.args[i].clone());
            assert(args@ == prev.push(self.args@[i as int]));
            assert(string_views(prev).len() == prev.len());
            assert(prev.len() == i);
            assert(args@.len() == i + 1);
            i = i + 1;
            assert(string_views(args@) =~= string_views(self.args@).take(i as int)) by {
                assert forall|k: int| 0 <= k < i implies string_views(args@)[k]
                    == string_views(self.args@)[k] by {
                    if k < i - 1 {
                        assert(string_views(prev)[k] == string_views(self.args@).take(i - 1)[k]);
                    }
                }
            }
        }
        let c = CommandSpec { program: self.program.clone(), args };
        assert(c@.args =~= self@.args);
        c
    }
}

/// A fact about the host's file system that a step depends on.
#[derive(Debug)]
pub enum Probe {
    /// The path names an existing directory.
    IsDir(String),
    /// The path names an existing regular file.
    IsFile(String),
}

pub enum ProbeView {
    IsDir(Seq<char>),
    IsFile(Seq<char>),
}

impl View for Probe {
    type V = ProbeView;

    open spec fn view(&self) -> ProbeView {
        match self {
            Probe::IsDir(p) => ProbeView::IsDir(p@),
            Probe::IsFile(p) => ProbeView::IsFile(p@),
        }
    }
}

impl Probe {
    /// A copy of this probe.
    pub fn duplicate(&self) -> (p: Probe)
        ensures
            p@ == self@,
    {
        match self {
            Probe::IsDir(p) => Probe::IsDir(p.clone()),
            Probe::IsFile(p) => Probe::IsFile(p.clone()),
        }
    }
}

/// One step of a tool.
#[derive(Debug)]
pub enum Action {
    /// Stop with `unmet` unless `probe` holds.
    Require { probe: Probe, unmet: ToolError },
    /// Run a command; stop if it does not succeed.
    Run(CommandSpec),
}

pub enum ActionView {
    Require { probe: ProbeView, unmet: crate::error::ErrorView },
    Run(CommandView),
}

impl View for Action {
    type V = ActionView;

    open spec fn view(&self) -> ActionView {
        match self {
            Action::Require { probe, unmet } => ActionView::Require { probe: probe@, unmet: unmet@ },
            Action::Run(c) => ActionView::Run(c@),
        }
    }
}

/// The views of a list of actions.
pub open spec fn actions_view(v: Seq<Action>) -> Seq<ActionView> {
    v.map_values(|a: Action| a@)
}

} // verus!
