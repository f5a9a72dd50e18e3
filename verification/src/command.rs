//! The external commands that bring a mirror up to date.

use vstd::prelude::*;
use vstd::string::*;

verus! {

/// One invocation of the version-control tool. The library decides which
/// command is due and what its command line is; running it is left to the
/// caller, who reports back whether it succeeded.
#[derive(Debug, PartialEq, Eq)]
pub enum GitCommand {
    /// Fetch from the remote of the mirror at `target` and prune the refs
    /// that are gone upstream.
    RemoteUpdate { target: String },
    /// Create a bare mirror clone of `url` at `target`.
    CloneMirror { url: String, target: String },
    /// Fetch every large-file object of the mirror at `target`.
    LfsFetchAll { target: String },
}

/// What a [`GitCommand`] holds, as mathematical values.
pub enum CommandView {
    RemoteUpdate { target: Seq<char> },
    CloneMirror { url: Seq<char>, target: Seq<char> },
    LfsFetchAll { target: Seq<char> },
}

impl CommandView {
    /// The mirror directory that the command works on.
    pub open spec fn target(self) -> Seq<char> {
        match self {
            CommandView::RemoteUpdate { target } => target,
            CommandView::CloneMirror { target, .. } => target,
            CommandView::LfsFetchAll { target } => target,
        }
    }

    /// The command line, program first.
    pub open spec fn argv(self) -> Seq<Seq<char>> {
        match self {
            CommandView::RemoteUpdate { target } => seq![
                "git"@,
                "-C"@,
                target,
                "remote"@,
                "update"@,
                "--prune"@,
            ],
            CommandView::CloneMirror { url, target } => seq![
                "git"@,
                "clone"@,
                "--mirror"@,
                url,
                target,
            ],
            CommandView::LfsFetchAll { target } => seq![
                "git"@,
                "-C"@,
                target,
                "lfs"@,
                "fetch"@,
                "--all"@,
            ],
        }
    }
}

/// The words of a command line in one line, a space between each two.
pub open spec fn spaced(words: Seq<Seq<char>>) -> Seq<char>
    decreases words.len(),
{
    if words.len() == 0 {
        Seq::empty()
    } else if words.len() == 1 {
        words[0]
    } else {
        spaced(words.drop_last()) + " "@ + words.last()
    }
}

impl View for GitCommand {
    type V = CommandView;

    open spec fn view(&self) -> CommandView {
        match self {
            GitCommand::RemoteUpdate { target } => CommandView::RemoteUpdate { target: target@ },
            GitCommand::CloneMirror { url, target } => CommandView::CloneMirror {
                url: url@,
                target: target@,
            },
            GitCommand::LfsFetchAll { target } => CommandView::LfsFetchAll { target: target@ },
        }
    }
}

impl DeepView for GitCommand {
    type V = CommandView;

    open spec fn deep_view(&self) -> CommandView {
        self@
    }
}

impl Clone for GitCommand {
    fn clone(&self) -> (copy: Self)
        ensures
            copy@ == self@,
    {
        match self {
            GitCommand::RemoteUpdate { target } => GitCommand::RemoteUpdate {
                target: target.clone(),
            },
            GitCommand::CloneMirror { url, target } => GitCommand::CloneMirror {
                url: url.clone(),
                target: target.clone(),
            },
            GitCommand::LfsFetchAll { target } => GitCommand::LfsFetchAll {
                target: target.clone(),
            },
        }
    }
}

impl GitCommand {
    /// The mirror directory that the command works on.
    pub fn target(&self) -> (target: &String)
        ensures
            target@ == self@.target(),
    {
        match self {
            GitCommand::RemoteUpdate { target } => target,
            GitCommand::CloneMirror { target, .. } => target,
            GitCommand::LfsFetchAll { target } => target,
        }
    }

    /// The command line to run, program first, one element per argument.
    pub fn argv(&self) -> (argv: Vec<String>)
        ensures
            argv.deep_view() == self@.argv(),
    {
        let mut argv: Vec<String> = Vec::new();
        argv.push(String::from_str("git"));
        match self {
            GitCommand::RemoteUpdate { target } => {
                argv.push(String::from_str("-C"));
                argv.push(target.clone());
                argv.push(String::from_str("remote"));
                argv.push(String::from_str("update"));
                argv.push(String::from_str("--prune"));
            },
            GitCommand::CloneMirror { url, target } => {
                argv.push(String::from_str("clone"));
                argv.push(String::from_str("--mirror"));
                argv.push(url.clone());
                argv.push(target.clone());
            },
            GitCommand::LfsFetchAll { target } => {
                argv.push(String::from_str("-C"));
                argv.push(target.clone());
                argv.push(String::from_str("lfs"));
                argv.push(String::from_str("fetch"));
                argv.push(String::from_str("--all"));
            },
        }
        assert(argv.deep_view() =~= self@.argv());
        argv
    }

    /// The command line in one line, for a message: the arguments as they
    /// are, a space between each two.
    pub fn command_line(&self) -> (line: String)
        ensures
            line@ == spaced(self@.argv()),
    {
        let argv = self.argv();
        let mut line = String::new();
        let mut done: usize = 0;
        while done < argv.len()
            invariant
                done <= argv.len(),
                line@ == spaced(argv.deep_view().take(done as int)),
            decreases argv.len() - done,
        {
            if done > 0 {
                line.append(" ");
            }
            line.append(argv[done].as_str());
            proof {
                let words = argv.deep_view().take(done + 1);
                assert(words.drop_last() =~= argv.deep_view().take(done as int));
                assert(words.last() == argv[done as int]@);
                if done == 0 {
                    assert(Seq::<char>::empty() + argv[0]@ =~= argv[0]@);
                }
            }
            done = done + 1;
        }
        assert(argv.deep_view().take(argv.len() as int) =~= argv.deep_view());
        line
    }
}

} // verus!
