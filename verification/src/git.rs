//! The git commands the addon manager runs, and how their outcome is read.

use vstd::prelude::*;
use crate::error::Error;
use crate::text::to_string;

verus! {

/// A git command, run in or for an addon's checkout.
#[derive(Debug, PartialEq)]
pub enum Git {
    Clone(String),
    Pull,
    Hash,
    Reset,
    Fetch,
}

/// A git command with its repository address as characters.
pub enum GitView {
    Clone(Seq<char>),
    Pull,
    Hash,
    Reset,
    Fetch,
}

impl View for Git {
    type V = GitView;

    open spec fn view(&self) -> GitView {
        match self {
            Git::Clone(url) => GitView::Clone(url@),
            Git::Pull => GitView::Pull,
            Git::Hash => GitView::Hash,
            Git::Reset => GitView::Reset,
            Git::Fetch => GitView::Fetch,
        }
    }
}

impl Clone for Git {
    fn clone(&self) -> (r: Git)
        ensures
            r@ == self@,
    {
        match self {
            Git::Clone(url) => Git::Clone(url.clone()),
            Git::Pull => Git::Pull,
            Git::Hash => Git::Hash,
            Git::Reset => Git::Reset,
            Git::Fetch => Git::Fetch,
        }
    }
}

/// Where the destination path goes when git is run.
#[derive(Debug, Clone, Copy, PartialEq, Eq, Structural)]
pub enum Destination {
    /// The path is passed as the last argument (a clone creates it).
    Argument,
    /// Git is run with the path as its working directory.
    WorkingDirectory,
}

/// The arguments of a `git` process, before the destination path is placed.
pub struct GitCommand {
    pub args: Vec<String>,
    pub destination: Destination,
}

/// The arguments of a `git` process, as characters.
pub struct GitCommandView {
    pub args: Seq<Seq<char>>,
    pub destination: Destination,
}

impl View for GitCommand {
    type V = GitCommandView;

    open spec fn view(&self) -> GitCommandView {
        GitCommandView {
            args: self.args@.map_values(|a: String| a@),
            destination: self.destination,
        }
    }
}

impl Git {
    /// The arguments of the process that runs this command, and where its destination goes.
    pub open spec fn spec_command(self) -> GitCommandView {
        match self {
            Git::Clone(url) => GitCommandView {
                args: seq!["clone"@, url@],
                destination: Destination::Argument,
            },
            Git::Fetch => GitCommandView {
                args: seq!["fetch"@, "--prune"@],
                destination: Destination::WorkingDirectory,
            },
            Git::Pull => GitCommandView { args: seq!["pull"@], destination: Destination::WorkingDirectory },
            Git::Reset => GitCommandView {
                args: seq!["reset"@, "--hard"@],
                destination: Destination::WorkingDirectory,
            },
            Git::Hash => GitCommandView {
                args: seq!["rev-parse"@, "HEAD"@],
                destination: Destination::WorkingDirectory,
            },
        }
    }

    /// The arguments of the process that runs this command, and where its destination goes.
    pub fn command(&self) -> (r: GitCommand)
        ensures
            r@.args =~= self.spec_command().args,
            r@.destination == self.spec_command().destination,
            (r.destination == Destination::Argument) == (self is Clone),
    {
        let mut args: Vec<String> = Vec::new();
        let destination = match self {
            Git::Clone(url) => {
                args.push(to_string("clone"));
                args.push(url.clone());
                Destination::Argument
            },
            Git::Fetch => {
                args.push(to_string("fetch"));
                args.push(to_string("--prune"));
                Destination::WorkingDirectory
            },
            Git::Pull => {
                args.push(to_string("pull"));
                Destination::WorkingDirectory
            },
            Git::Reset => {
                args.push(to_string("reset"));
                args.push(to_string("--hard"));
                Destination::WorkingDirectory
            },
            Git::Hash => {
                args.push(to_string("rev-parse"));
                args.push(to_string("HEAD"));
                Destination::WorkingDirectory
            },
        };
        GitCommand { args, destination }
    }

    /// What running this command gave: its standard output when git succeeded, else a
    /// `Git` error that carries the command and git's standard error.
    pub fn outcome(&self, success: bool, stdout: String, stderr: String) -> (r: Result<String, Error>)
        ensures
            success ==> (r matches Ok(out) && out@ == stdout@),
            !success ==> (r matches Err(Error::Git(g, m)) && g@ == self@ && m@ == stderr@),
    {
        if !success {
            return Err(Error::Git(self.clone(), stderr));
        }
        Ok(stdout)
    }
}

/// The git subcommand a command runs.
pub open spec fn subcommand_of(g: GitView) -> Seq<char> {
    match g {
        GitView::Clone(_) => "clone"@,
        GitView::Pull => "pull"@,
        GitView::Hash => "rev-parse"@,
        GitView::Reset => "reset"@,
        GitView::Fetch => "fetch"@,
    }
}

/// Law: only a clone is given the checkout path as an argument (it creates the
/// checkout); pull, fetch, reset and rev-parse run with the checkout as working
/// directory, so they act on the addon's repository. Each command starts with its own
/// git subcommand, a clone is given the address to clone, a fetch prunes, a reset is
/// hard, and the commit is read as `rev-parse HEAD`.
pub proof fn law_git_commands(g: Git)
    ensures
        (g.spec_command().destination == Destination::Argument) == (g is Clone),
        g.spec_command().args.len() >= 1,
        g.spec_command().args[0] == subcommand_of(g@),
        g matches Git::Clone(url) ==> g.spec_command().args == seq!["clone"@, url@],
        g is Pull ==> g.spec_command().args == seq!["pull"@],
        g is Fetch ==> g.spec_command().args == seq!["fetch"@, "--prune"@],
        g is Reset ==> g.spec_command().args == seq!["reset"@, "--hard"@],
        g is Hash ==> g.spec_command().args == seq!["rev-parse"@, "HEAD"@],
{
}

} // verus!
