//! The invocations of the tool that the library asks its caller to make.

use vstd::prelude::*;
use vstd::string::*;
use crate::text::texts;

verus! {

/// What an invocation holds, as plain values.
pub struct InvocationModel {
    pub program: Seq<char>,
    pub args: Seq<Seq<char>>,
    pub dir: Option<Seq<char>>,
}

/// One run of the tool: the executable, its arguments, and the directory to
/// run it in, where it matters.
#[derive(Debug)]
pub struct Invocation {
    pub program: String,
    pub args: Vec<String>,
    pub dir: Option<String>,
}

impl View for Invocation {
    type V = InvocationModel;

    open spec fn view(&self) -> InvocationModel {
        InvocationModel {
            program: self.program@,
            args: texts(self.args@),
            dir: match self.dir {
                Some(d) => Some(d@),
                None => None,
            },
        }
    }
}

/// `status`, asked in `directory`.
pub open spec fn status_query(tool: Seq<char>, directory: Seq<char>) -> InvocationModel {
    InvocationModel { program: tool, args: seq!["status"@], dir: Some(directory) }
}

/// A power transition `subcommand` of the box `name` that lives in `directory`.
pub open spec fn power_transition(
    tool: Seq<char>,
    subcommand: Seq<char>,
    name: Seq<char>,
    directory: Seq<char>,
) -> InvocationModel {
    InvocationModel { program: tool, args: seq![subcommand, name], dir: Some(directory) }
}

/// `ssh -c command`, asked in `directory`.
pub open spec fn guest_command(
    tool: Seq<char>,
    command: Seq<char>,
    directory: Seq<char>,
) -> InvocationModel {
    InvocationModel { program: tool, args: seq!["ssh"@, "-c"@, command], dir: Some(directory) }
}

/// `box outdated --global`: the report on the whole fleet.
pub open spec fn outdated_query(tool: Seq<char>) -> InvocationModel {
    InvocationModel { program: tool, args: seq!["box"@, "outdated"@, "--global"@], dir: None }
}

/// `box update --box name --provider provider`.
pub open spec fn box_update(
    tool: Seq<char>,
    name: Seq<char>,
    provider: Seq<char>,
) -> InvocationModel {
    InvocationModel {
        program: tool,
        args: seq!["box"@, "update"@, "--box"@, name, "--provider"@, provider],
        dir: None,
    }
}

/// `box prune`.
pub open spec fn box_prune(tool: Seq<char>) -> InvocationModel {
    InvocationModel { program: tool, args: seq!["box"@, "prune"@], dir: None }
}

/// The tool, by the path of its executable.
#[derive(Debug)]
pub struct Vagrant {
    pub path: String,
}

impl Vagrant {
    pub fn new(path: &str) -> (r: Vagrant)
        ensures
            r.path@ == path@,
    {
        Vagrant { path: String::from_str(path) }
    }

    pub fn status(&self, directory: &str) -> (r: Invocation)
        ensures
            r@ == status_query(self.path@, directory@),
    {
        let mut args: Vec<String> = Vec::new();
        args.push(String::from_str("status"));
        assert(texts(args@) =~= seq!["status"@]);
        Invocation { program: self.path.clone(), args, dir: Some(String::from_str(directory)) }
    }

    pub fn power(&self, subcommand: &str, name: &str, directory: &str) -> (r: Invocation)
        ensures
            r@ == power_transition(self.path@, subcommand@, name@, directory@),
    {
        let mut args: Vec<String> = Vec::new();
        args.push(String::from_str(subcommand));
        args.push(String::from_str(name));
        assert(texts(args@) =~= seq![subcommand@, name@]);
        Invocation { program: self.path.clone(), args, dir: Some(String::from_str(directory)) }
    }

    pub fn ssh(&self, command: &str, directory: &str) -> (r: Invocation)
        ensures
            r@ == guest_command(self.path@, command@, directory@),
    {
        let mut args: Vec<String> = Vec::new();
        args.push(String::from_str("ssh"));
        args.push(String::from_str("-c"));
        args.push(String::from_str(command));
        assert(texts(args@) =~= seq!["ssh"@, "-c"@, command@]);
        Invocation { program: self.path.clone(), args, dir: Some(String::from_str(directory)) }
    }

    pub fn outdated(&self) -> (r: Invocation)
        ensures
            r@ == outdated_query(self.path@),
    {
        let mut args: Vec<String> = Vec::new();
        args.push(String::from_str("box"));
        args.push(String::from_str("outdated"));
        args.push(String::from_str("--global"));
        assert(texts(args@) =~= seq!["box"@, "outdated"@, "--global"@]);
        Invocation { program: self.path.clone(), args, dir: None }
    }

    pub fn update(&self, name: &str, provider: &str) -> (r: Invocation)
        ensures
            r@ == box_update(self.path@, name@, provider@),
    {
        let mut args: Vec<String> = Vec::new();
        args.push(String::from_str("box"));
        args.push(String::from_str("update"));
        args.push(String::from_str("--box"));
        args.push(String::from_str(name));
        args.push(String::from_str("--provider"));
        args.push(String::from_str(provider));
        assert(texts(args@) =~= seq!["box"@, "update"@, "--box"@, name@, "--provider"@, provider@]);
        Invocation { program: self.path.clone(), args, dir: None }
    }

    pub fn prune(&self) -> (r: Invocation)
        ensures
            r@ == box_prune(self.path@),
    {
        let mut args: Vec<String> = Vec::new();
        args.push(String::from_str("box"));
        args.push(String::from_str("prune"));
        assert(texts(args@) =~= seq!["box"@, "prune"@]);
        Invocation { program: self.path.clone(), args, dir: None }
    }
}

} // verus!
