//! Launches an executable under a chosen security token (the interactive user, that
//! user's elevated token, or the Local System token of `winlogon`) on a chosen desktop.
//!
//! The token pipeline is a state machine ([`launch::Launch`]) whose every step is
//! proved to close only handles it owns, to use no handle after closing it, and to
//! finish owning nothing. [`ProcessBuilder::run`] drives it against an [`os::Os`].
mod wide;
pub mod text;
pub mod launch;
pub mod os;

use vstd::prelude::*;

pub use crate::wide::{nul_error_text, nul_only_at_end, utf16, utf16_of, wide_conversion, wide_units};

verus! {

/// Whose token the launched process runs under.
#[derive(Clone, Copy, PartialEq, Eq, Structural, Debug)]
pub enum Elevation {
    /// The interactive user's own token.
    User,
    /// The elevated token linked to the interactive user's token.
    Admin,
    /// The token of the `winlogon` process, which runs as Local System.
    LocalSystem,
}

impl Default for Elevation {
    fn default() -> (r: Self)
        ensures
            r == Elevation::User,
    {
        Elevation::User
    }
}

/// The desktop on which the launched process runs.
#[derive(Clone, Copy, PartialEq, Eq, Structural, Debug)]
pub enum Desktop {
    /// The caller's current interactive desktop.
    Default,
    /// The secure Winlogon desktop used for consent and lock-screen prompts.
    Secure,
}

impl Default for Desktop {
    fn default() -> (r: Self)
        ensures
            r == Desktop::Default,
    {
        Desktop::Default
    }
}

/// The desktop name handed to process creation.
pub open spec fn desktop_text(d: Desktop) -> Seq<char> {
    match d {
        Desktop::Default => Seq::<char>::empty(),
        Desktop::Secure => "WinSta0\\Winlogon"@,
    }
}

impl Desktop {
    /// The desktop name: empty for the default desktop, `WinSta0\Winlogon` for the
    /// secure one.
    pub fn name(&self) -> (r: String)
        ensures
            r@ == desktop_text(*self),
    {
        match self {
            Desktop::Default => String::new(),
            Desktop::Secure => String::from_str("WinSta0\\Winlogon"),
        }
    }
}

/// One launch request, built step by step and then run once.
pub struct ProcessBuilder {
    /// The path to the executable.
    pub path: String,
    /// The arguments, appended to the path after one space.
    pub args: String,
    /// The working directory of the new process.
    pub directory: String,
    /// The desktop on which the new process runs.
    pub desktop: Desktop,
    /// Whose token the new process runs under.
    pub elevation: Elevation,
}

/// The command line of a launch: the path, one space, the arguments, with no quoting.
pub open spec fn command_line_text(path: Seq<char>, args: Seq<char>) -> Seq<char> {
    path + " "@ + args
}

/// A builder for `path` with the defaults: no arguments, `directory` (the parent
/// directory of the running executable, which the caller reads), the default desktop
/// and the user's own token.
pub fn win(path: &str, directory: &str) -> (r: ProcessBuilder)
    ensures
        r.path@ == path@,
        r.args@ == Seq::<char>::empty(),
        r.directory@ == directory@,
        r.desktop == Desktop::Default,
        r.elevation == Elevation::User,
{
    ProcessBuilder::new(path, directory)
}

impl ProcessBuilder {
    /// A builder for `path` with empty arguments, the working directory `directory`,
    /// the default desktop and the user's own token.
    pub fn new(path: &str, directory: &str) -> (r: Self)
        ensures
            r.path@ == path@,
            r.args@ == Seq::<char>::empty(),
            r.directory@ == directory@,
            r.desktop == Desktop::Default,
            r.elevation == Elevation::User,
    {
        ProcessBuilder {
            path: path.to_owned(),
            args: String::new(),
            directory: directory.to_owned(),
            desktop: Desktop::default(),
            elevation: Elevation::default(),
        }
    }

    /// Sets the arguments.
    pub fn args(self, args: &str) -> (r: Self)
        ensures
            r.args@ == args@,
            r.path == self.path,
            r.directory == self.directory,
            r.desktop == self.desktop,
            r.elevation == self.elevation,
    {
        ProcessBuilder { args: args.to_owned(), ..self }
    }

    /// Sets the working directory.
    pub fn directory(self, directory: &str) -> (r: Self)
        ensures
            r.directory@ == directory@,
            r.path == self.path,
            r.args == self.args,
            r.desktop == self.desktop,
            r.elevation == self.elevation,
    {
        ProcessBuilder { directory: directory.to_owned(), ..self }
    }

    /// Sets the desktop.
    pub fn desktop(self, desktop: Desktop) -> (r: Self)
        ensures
            r.desktop == desktop,
            r.path == self.path,
            r.args == self.args,
            r.directory == self.directory,
            r.elevation == self.elevation,
    {
        ProcessBuilder { desktop, ..self }
    }

    /// Sets whose token the process runs under.
    pub fn elevation(self, elevation: Elevation) -> (r: Self)
        ensures
            r.elevation == elevation,
            r.path == self.path,
            r.args == self.args,
            r.directory == self.directory,
            r.desktop == self.desktop,
    {
        ProcessBuilder { elevation, ..self }
    }

    /// The command line `"<path> <args>"`.
    pub fn command_line(&self) -> (r: String)
        ensures
            r@ == command_line_text(self.path@, self.args@),
    {
        let mut r = self.path.clone();
        r.append(" ");
        r.append(self.args.as_str());
        r
    }
}

} // verus!
