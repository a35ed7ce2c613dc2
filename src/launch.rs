use vstd::prelude::*;
use vstd::multiset::Multiset;

use crate::text::{join_lines, joined, lemma_joined_starts_with_first, message, views};
use crate::wide::{nul_only_at_end, to_wide, wide_conversion};
use crate::{command_line_text, desktop_text, Elevation, ProcessBuilder};

verus! {

/// An OS handle, by its raw value.
#[derive(Clone, Copy, PartialEq, Eq, Structural, Debug)]
pub struct Handle {
    pub raw: isize,
}

/// The access rights asked for a token.
#[derive(Clone, Copy, PartialEq, Eq, Structural, Debug)]
pub struct TokenRights {
    pub query: bool,
    pub duplicate: bool,
    pub assign_primary: bool,
}

/// The rights a token needs to start a process under it: query, duplicate and
/// assign-primary.
pub open spec fn launch_rights() -> TokenRights {
    TokenRights { query: true, duplicate: true, assign_primary: true }
}

/// Query, duplicate and assign-primary rights.
pub fn token_rights() -> (r: TokenRights)
    ensures
        r == launch_rights(),
{
    TokenRights { query: true, duplicate: true, assign_primary: true }
}

/// The two handles that process creation hands back.
#[derive(Clone, Copy, PartialEq, Eq, Structural, Debug)]
pub struct Spawned {
    pub process: Handle,
    pub thread: Handle,
}

/// The nul-terminated UTF-16 strings that process creation takes.
pub struct NativeLaunch {
    pub application: Vec<u16>,
    pub command_line: Vec<u16>,
    pub directory: Vec<u16>,
    pub desktop: Vec<u16>,
}

/// One request to the OS, or the end of the launch.
pub enum Action {
    /// Look up the id of the first running process with this name.
    FindProcess { name: String },
    /// Ask for the id of the active console session.
    ActiveSession,
    /// Ask for the token of the user logged on to a session.
    QueryUserToken { session: u32 },
    /// Open a process, with query-information rights and no inheritance.
    OpenProcess { pid: u32 },
    /// Open the token of a process.
    OpenProcessToken { process: Handle, access: TokenRights },
    /// Duplicate a token into a primary token at impersonation level, with default
    /// security attributes.
    DuplicateToken { token: Handle, access: TokenRights },
    /// Ask for the elevated token linked to a token.
    LinkedToken { token: Handle },
    /// Create a process under a token: no security attributes for the process or the
    /// thread, no handle inheritance, no creation flags, the caller's environment.
    CreateProcess { token: Handle, native: NativeLaunch },
    /// Close a handle.
    Close { handle: Handle },
    /// The launch is over, with this outcome.
    Finish { result: Result<(), String> },
}

/// The OS's answer to an action.
pub enum Event {
    /// The id of the process found, if any.
    Found { pid: Option<u32> },
    /// The active console session.
    Session { id: u32 },
    /// A new handle, or the platform's error text.
    Opened { result: Result<Handle, String> },
    /// The handles of the created process, or the platform's error text.
    Started { result: Result<Spawned, String> },
    /// Whether the close succeeded, or the platform's error text.
    Closed { result: Result<(), String> },
}

/// The shape of an answer.
#[derive(Clone, Copy, PartialEq, Eq, Structural, Debug)]
pub enum Reply {
    Found,
    Session,
    Opened,
    Started,
    Closed,
}

pub open spec fn reply_of(e: Event) -> Reply {
    match e {
        Event::Found { .. } => Reply::Found,
        Event::Session { .. } => Reply::Session,
        Event::Opened { .. } => Reply::Opened,
        Event::Started { .. } => Reply::Started,
        Event::Closed { .. } => Reply::Closed,
    }
}

/// The shape of answer an action gets; `None` for the end.
pub open spec fn reply_to(a: Action) -> Option<Reply> {
    match a {
        Action::FindProcess { .. } => Some(Reply::Found),
        Action::ActiveSession => Some(Reply::Session),
        Action::QueryUserToken { .. } => Some(Reply::Opened),
        Action::OpenProcess { .. } => Some(Reply::Opened),
        Action::OpenProcessToken { .. } => Some(Reply::Opened),
        Action::DuplicateToken { .. } => Some(Reply::Opened),
        Action::LinkedToken { .. } => Some(Reply::Opened),
        Action::CreateProcess { .. } => Some(Reply::Started),
        Action::Close { .. } => Some(Reply::Closed),
        Action::Finish { .. } => None,
    }
}

/// The handle an action works on or closes, if any.
pub open spec fn handle_used(a: Action) -> Option<Handle> {
    match a {
        Action::OpenProcessToken { process, .. } => Some(process),
        Action::DuplicateToken { token, .. } => Some(token),
        Action::LinkedToken { token } => Some(token),
        Action::CreateProcess { token, .. } => Some(token),
        Action::Close { handle } => Some(handle),
        _ => None,
    }
}

/// The handles an answer hands over to its receiver.
pub open spec fn handed_over(e: Event) -> Multiset<Handle> {
    match e {
        Event::Opened { result: Ok(h) } => Multiset::empty().insert(h),
        Event::Started { result: Ok(s) } => Multiset::empty().insert(s.process).insert(s.thread),
        _ => Multiset::empty(),
    }
}

/// The handles of a list, as a multiset.
pub open spec fn bag(s: Seq<Handle>) -> Multiset<Handle>
    decreases s.len(),
{
    if s.len() == 0 {
        Multiset::empty()
    } else {
        bag(s.drop_last()).insert(s.last())
    }
}

/// Where a launch stands: the request it waits on and the handles it owns.
pub enum Phase {
    /// Waiting for the lookup of `winlogon`.
    Find,
    /// Waiting for `winlogon` to be opened.
    Open,
    /// Waiting for the token of the open process.
    ProcessToken { process: Handle },
    /// Waiting for the process handle to close; the token is kept.
    ReleaseProcess { process: Handle, token: Handle },
    /// Waiting for the active console session.
    Session,
    /// Waiting for that session's user token.
    UserToken,
    /// Waiting for the duplicate of `source`, asked with `access`.
    Duplicate { source: Handle, access: TokenRights },
    /// Waiting for `source` to close; `copy` was made with `rights`.
    ReleaseSource { source: Handle, copy: Handle, rights: TokenRights },
    /// Waiting for the linked token of `token`.
    Linked { token: Handle },
    /// Waiting for `token` to close; `linked` is kept.
    ReleaseUnlinked { token: Handle, linked: Handle },
    /// Waiting for process creation under `token`; `rights` are those it was
    /// duplicated with, or `None` for a linked token.
    Create { token: Handle, rights: Option<TokenRights> },
    /// Waiting for `closing` to close; `queue` is closed after it, last first.
    Cleanup { closing: Handle, queue: Vec<Handle> },
    /// Over.
    Done,
}

/// A launch in progress.
pub struct Launch {
    /// Whose token is resolved.
    pub elevation: Elevation,
    /// The strings for process creation, or the text of the failed conversion.
    pub native: Result<NativeLaunch, String>,
    /// Where the launch stands.
    pub phase: Phase,
    /// The failures met so far, in order.
    pub errors: Vec<String>,
    /// Whether process creation has succeeded.
    pub started: bool,
}

/// The name of the process whose token Local System launches use.
pub open spec fn system_process_name() -> Seq<char> {
    "winlogon"@
}

/// The four strings of a request, converted in order; the first failure stops.
pub open spec fn native_text(b: ProcessBuilder) -> Result<
    (Seq<u16>, Seq<u16>, Seq<u16>, Seq<u16>),
    Seq<char>,
> {
    let cmd = command_line_text(b.path@, b.args@);
    match wide_conversion(b.path@) {
        Err(e) => Err("Cannot convert string to U16CString: "@ + e),
        Ok(a) => match wide_conversion(cmd) {
            Err(e) => Err("Cannot convert string to U16CString: "@ + e),
            Ok(c) => match wide_conversion(b.directory@) {
                Err(e) => Err("Cannot convert string to U16CString: "@ + e),
                Ok(d) => match wide_conversion(desktop_text(b.desktop)) {
                    Err(e) => Err("Cannot convert string to U16CString: "@ + e),
                    Ok(k) => Ok((a, c, d, k)),
                },
            },
        },
    }
}

/// The view of converted strings.
pub open spec fn native_view(n: Result<NativeLaunch, String>) -> Result<
    (Seq<u16>, Seq<u16>, Seq<u16>, Seq<u16>),
    Seq<char>,
> {
    match n {
        Ok(n) => Ok((n.application@, n.command_line@, n.directory@, n.desktop@)),
        Err(e) => Err(e@),
    }
}

/// How a launch ends once its last handle is closed.
pub open spec fn outcome(errors: Seq<String>) -> Result<(), Seq<char>> {
    if errors.len() == 0 {
        Ok(())
    } else {
        Err(joined(views(errors)))
    }
}

pub open spec fn result_view(r: Result<(), String>) -> Result<(), Seq<char>> {
    match r {
        Ok(()) => Ok(()),
        Err(e) => Err(e@),
    }
}

fn convert(s: &str) -> (r: Result<Vec<u16>, String>)
    ensures
        wide_conversion(s@) is Ok <==> nul_only_at_end(s@),
        match wide_conversion(s@) {
            Ok(v) => r is Ok && r->Ok_0@ == v,
            Err(e) => r is Err && r->Err_0@ == "Cannot convert string to U16CString: "@ + e,
        },
{
    match to_wide(s) {
        Ok(v) => Ok(v),
        Err(e) => Err(message("Cannot convert string to U16CString: ", e.as_str())),
    }
}

fn native_of(b: &ProcessBuilder) -> (r: Result<NativeLaunch, String>)
    ensures
        native_view(r) == native_text(*b),
        native_text(*b) is Ok <==> nul_only_at_end(b.path@) && nul_only_at_end(
            command_line_text(b.path@, b.args@),
        ) && nul_only_at_end(b.directory@) && nul_only_at_end(desktop_text(b.desktop)),
{
    let cmd = b.command_line();
    let desktop = b.desktop.name();
    let application = match convert(b.path.as_str()) {
        Ok(v) => v,
        Err(e) => return Err(e),
    };
    let command_line = match convert(cmd.as_str()) {
        Ok(v) => v,
        Err(e) => return Err(e),
    };
    let directory = match convert(b.directory.as_str()) {
        Ok(v) => v,
        Err(e) => return Err(e),
    };
    let desktop = match convert(desktop.as_str()) {
        Ok(v) => v,
        Err(e) => return Err(e),
    };
    Ok(NativeLaunch { application, command_line, directory, desktop })
}

fn copy_native(n: &Result<NativeLaunch, String>) -> (r: Result<NativeLaunch, String>)
    ensures
        native_view(r) == native_view(*n),
{
    match n {
        Ok(n) => Ok(
            NativeLaunch {
                application: n.application.clone(),
                command_line: n.command_line.clone(),
                directory: n.directory.clone(),
                desktop: n.desktop.clone(),
            },
        ),
        Err(e) => Err(e.clone()),
    }
}

impl Launch {
    /// The handles this launch owns. A handle whose close is pending is no longer
    /// owned: the close gave it up, whatever its answer.
    pub open spec fn owned(&self) -> Multiset<Handle> {
        match self.phase {
            Phase::ProcessToken { process } => Multiset::empty().insert(process),
            Phase::ReleaseProcess { token, .. } => Multiset::empty().insert(token),
            Phase::Duplicate { source, .. } => Multiset::empty().insert(source),
            Phase::ReleaseSource { copy, .. } => Multiset::empty().insert(copy),
            Phase::Linked { token } => Multiset::empty().insert(token),
            Phase::ReleaseUnlinked { linked, .. } => Multiset::empty().insert(linked),
            Phase::Create { token, .. } => Multiset::empty().insert(token),
            Phase::Cleanup { queue, .. } => bag(queue@),
            _ => Multiset::empty(),
        }
    }

    /// The shape of answer the launch waits for; `None` once it is over.
    pub open spec fn awaits(&self) -> Option<Reply> {
        match self.phase {
            Phase::Find => Some(Reply::Found),
            Phase::Session => Some(Reply::Session),
            Phase::Open | Phase::ProcessToken { .. } | Phase::UserToken | Phase::Duplicate {
                ..
            } | Phase::Linked { .. } => Some(Reply::Opened),
            Phase::Create { .. } => Some(Reply::Started),
            Phase::ReleaseProcess { .. } | Phase::ReleaseSource { .. } | Phase::ReleaseUnlinked {
                ..
            } | Phase::Cleanup { .. } => Some(Reply::Closed),
            Phase::Done => None,
        }
    }

    /// How many steps at most are left.
    pub open spec fn rank(&self) -> nat {
        match self.phase {
            Phase::Find => 24,
            Phase::Open => 23,
            Phase::ProcessToken { .. } => 22,
            Phase::ReleaseProcess { .. } => 21,
            Phase::Session => 20,
            Phase::UserToken => 19,
            Phase::Duplicate { .. } => 18,
            Phase::ReleaseSource { .. } => 17,
            Phase::Linked { .. } => 16,
            Phase::ReleaseUnlinked { .. } => 15,
            Phase::Create { .. } => 10,
            Phase::Cleanup { queue, .. } => (queue.len() + 2) as nat,
            Phase::Done => 0,
        }
    }

    /// The invariant of a launch: each phase belongs to the strategy of the
    /// elevation, every token is asked with the launch rights, and failures are only
    /// recorded while cleaning up.
    pub open spec fn wf(&self) -> bool {
        &&& match self.phase {
            Phase::Find | Phase::Open | Phase::ProcessToken { .. } | Phase::ReleaseProcess {
                ..
            } => self.elevation == Elevation::LocalSystem,
            Phase::Session | Phase::UserToken => self.elevation != Elevation::LocalSystem,
            Phase::Duplicate { access, .. } => access == launch_rights(),
            Phase::ReleaseSource { rights, .. } => rights == launch_rights(),
            Phase::Linked { .. } | Phase::ReleaseUnlinked { .. } => self.elevation
                == Elevation::Admin,
            Phase::Create { rights, .. } => rights == if self.elevation == Elevation::Admin {
                None
            } else {
                Some(launch_rights())
            },
            Phase::Cleanup { queue, .. } => queue.len() <= 2,
            Phase::Done => true,
        }
        &&& match self.phase {
            Phase::Cleanup { .. } | Phase::Done => true,
            _ => self.errors.len() == 0,
        }
        &&& ((self.phase is Cleanup || self.phase is Done) && self.errors.len() == 0
            ==> self.started)
    }

    /// Whether `n`, reached with action `a`, waits for the answer to `a`.
    pub open spec fn waits_for(n: Launch, a: Action) -> bool {
        &&& n.awaits() == reply_to(a)
        &&& match (n.phase, a) {
            (Phase::ProcessToken { process }, Action::OpenProcessToken { process: p, access }) => p
                == process && access == launch_rights(),
            (Phase::Duplicate { source, access }, Action::DuplicateToken { token, access: x }) => token
                == source && x == access,
            (Phase::Linked { token }, Action::LinkedToken { token: t }) => t == token,
            (Phase::Create { token, .. }, Action::CreateProcess { token: t, .. }) => t == token,
            (Phase::ReleaseProcess { process, .. }, Action::Close { handle }) => handle == process,
            (Phase::ReleaseSource { source, .. }, Action::Close { handle }) => handle == source,
            (Phase::ReleaseUnlinked { token, .. }, Action::Close { handle }) => handle == token,
            (Phase::Cleanup { closing, .. }, Action::Close { handle }) => handle == closing,
            _ => true,
        }
    }
}

/// What an answer adds to the failures of a launch: nothing, or one line.
pub open spec fn added(l: Launch, e: Event) -> Seq<Seq<char>> {
    match (l.phase, e) {
        (Phase::Find, Event::Found { pid: None }) => seq![
            "No running processes by the name: "@ + system_process_name(),
        ],
        (Phase::Open, Event::Opened { result: Err(m) }) => seq!["Could not obtain process: "@ + m@],
        (Phase::ProcessToken { .. }, Event::Opened { result: Err(m) }) => seq![
            "Unable to open process token: "@ + m@,
        ],
        (Phase::UserToken, Event::Opened { result: Err(m) }) => seq![
            "Unable to obtain current user handle: "@ + m@,
        ],
        (Phase::Duplicate { .. }, Event::Opened { result: Err(m) }) => seq![
            "Unable to duplicate token: "@ + m@,
        ],
        (Phase::Linked { .. }, Event::Opened { result: Err(m) }) => seq![
            "Could not elevate process token: Unable to get token information: "@ + m@,
        ],
        (Phase::ReleaseUnlinked { .. }, Event::Closed { result: Err(m) }) => seq![
            "Could not elevate process token: Unable to close handle: "@ + m@,
        ],
        (Phase::ReleaseUnlinked { .. }, Event::Closed { result: Ok(()) }) => match l.native {
            Err(x) => seq![x@],
            Ok(_) => seq![],
        },
        (Phase::ReleaseSource { .. }, Event::Closed { result: Ok(()) }) => if l.elevation
            == Elevation::Admin {
            seq![]
        } else {
            match l.native {
                Err(x) => seq![x@],
                Ok(_) => seq![],
            }
        },
        (_, Event::Closed { result: Err(m) }) => seq!["Unable to close handle: "@ + m@],
        (Phase::Create { .. }, Event::Started { result: Err(m) }) => seq![
            "Unable to create process: "@ + m@,
        ],
        _ => seq![],
    }
}

/// Whether `a` creates the process under `token` with the strings `n` holds.
pub open spec fn creates_with(a: Action, token: Handle, n: Result<NativeLaunch, String>) -> bool {
    match a {
        Action::CreateProcess { token: t, native } => t == token && native_view(n) == native_view(
            Ok::<NativeLaunch, String>(native),
        ),
        _ => false,
    }
}

/// A conversion failure is reported with a non-empty text.
pub proof fn lemma_native_error_nonempty(b: ProcessBuilder)
    ensures
        native_text(b) is Err ==> native_text(b)->Err_0.len() > 0,
{
    reveal_strlit("Cannot convert string to U16CString: ");
}

/// Every failure line a step adds is non-empty, given the strings of a request.
pub proof fn lemma_added_nonempty(l: Launch, e: Event, b: ProcessBuilder)
    requires
        native_view(l.native) == native_text(b),
    ensures
        forall|i: int| 0 <= i < added(l, e).len() ==> added(l, e)[i].len() > 0,
{
    lemma_native_error_nonempty(b);
    reveal_strlit("No running processes by the name: ");
    reveal_strlit("Could not obtain process: ");
    reveal_strlit("Unable to open process token: ");
    reveal_strlit("Unable to obtain current user handle: ");
    reveal_strlit("Unable to duplicate token: ");
    reveal_strlit("Could not elevate process token: Unable to get token information: ");
    reveal_strlit("Could not elevate process token: Unable to close handle: ");
    reveal_strlit("Unable to close handle: ");
    reveal_strlit("Unable to create process: ");
}

fn cleanup(
    elevation: Elevation,
    native: Result<NativeLaunch, String>,
    started: bool,
    errors: Vec<String>,
    closing: Handle,
) -> (r: (Launch, Action))
    ensures
        r.0.elevation == elevation,
        native_view(r.0.native) == native_view(native),
        r.0.errors == errors,
        r.0.started == started,
        r.0.phase == (Phase::Cleanup { closing, queue: r.0.phase->queue }),
        r.0.phase->queue@ == Seq::<Handle>::empty(),
        r.1 == (Action::Close { handle: closing }),
{
    (Launch { elevation, native, phase: Phase::Cleanup { closing, queue: Vec::new() }, errors, started }, Action::Close { handle: closing })
}

impl Launch {
    /// How a launch of `b` begins, as the launch and first action `r`: nothing owned
    /// and nothing failed yet, the strings converted, and the first request the
    /// lookup of `winlogon` (Local System) or the active console session.
    pub open spec fn starts(b: ProcessBuilder, r: (Launch, Action)) -> bool {
        &&& r.0.wf()
        &&& r.0.elevation == b.elevation
        &&& native_view(r.0.native) == native_text(b)
        &&& r.0.errors@.len() == 0
        &&& !r.0.started
        &&& r.0.owned().len() == 0
        &&& Launch::waits_for(r.0, r.1)
        &&& (b.elevation == Elevation::LocalSystem ==> r.0.phase is Find && r.1 == (
        Action::FindProcess { name: r.1->name }) && r.1->name@ == system_process_name())
        &&& (b.elevation != Elevation::LocalSystem ==> r.0.phase is Session && r.1
            == Action::ActiveSession)
    }

    /// Starts the launch of `b`: converts its strings for process creation, then asks
    /// for the `winlogon` process (Local System) or the active console session (the
    /// other two).
    pub fn start(b: &ProcessBuilder) -> (r: (Launch, Action))
        ensures
            Launch::starts(*b, r),
            native_text(*b) is Ok <==> nul_only_at_end(b.path@) && nul_only_at_end(
                command_line_text(b.path@, b.args@),
            ) && nul_only_at_end(b.directory@) && nul_only_at_end(desktop_text(b.desktop)),
    {
        let native = native_of(b);
        match b.elevation {
            Elevation::LocalSystem => (
                Launch { elevation: b.elevation, native, phase: Phase::Find, errors: Vec::new(), started: false },
                Action::FindProcess { name: String::from_str("winlogon") },
            ),
            _ => (
                Launch { elevation: b.elevation, native, phase: Phase::Session, errors: Vec::new(), started: false },
                Action::ActiveSession,
            ),
        }
    }

    /// After the elevated or duplicated `token` is resolved: create the process under
    /// it, or close it if the strings could not be converted.
    fn launch_with(
        elevation: Elevation,
        native: Result<NativeLaunch, String>,
        started: bool,
        token: Handle,
        rights: Option<TokenRights>,
    ) -> (r: (Launch, Action))
        ensures
            r.0.elevation == elevation,
            r.0.started == started,
            native_view(r.0.native) == native_view(native),
            match native {
                Ok(_) => r.0.phase == (Phase::Create { token, rights }) && r.0.errors@.len() == 0
                    && creates_with(r.1, token, native),
                Err(x) => r.0.phase == (Phase::Cleanup { closing: token, queue: r.0.phase->queue })
                    && r.0.phase->queue@ == Seq::<Handle>::empty() && views(r.0.errors@) == seq![
                    x@,
                ] && r.1 == (Action::Close { handle: token }),
            },
    {
        let kept = copy_native(&native);
        match native {
            Ok(n) => (
                Launch { elevation, native: kept, phase: Phase::Create { token, rights }, errors: Vec::new(), started },
                Action::CreateProcess { token, native: n },
            ),
            Err(x) => {
                let errors = vec![x];
                proof {
                    assert(views(errors@) =~= seq![x@]);
                }
                cleanup(elevation, kept, started, errors, token)
            },
        }
    }

    /// One step of a launch, from `l` on the answer `e` to the launch and action `r`.
    ///
    /// Handles: an action works on or closes only a handle the launch owns (counting
    /// those the answer hands over); a close gives up exactly that handle and any other
    /// action gives up none; the launch finishes only once it owns nothing. So no
    /// handle is closed twice, none is used after it is closed, and none leaks.
    ///
    /// Failures: each failure answer adds one line to the failures, and a finished
    /// launch fails with those lines joined, or succeeds when there are none.
    ///
    /// Rights: a token handed to process creation was duplicated with the launch
    /// rights, unless it is the linked token of an elevated launch.
    pub open spec fn stepped(l: Launch, e: Event, r: (Launch, Action)) -> bool {
        let avail = l.owned().add(handed_over(e));
        &&& r.0.wf()
        &&& r.0.elevation == l.elevation
        &&& native_view(r.0.native) == native_view(l.native)
        &&& Launch::waits_for(r.0, r.1)
        &&& r.0.rank() < l.rank()
        &&& (handle_used(r.1) is Some ==> avail.count(handle_used(r.1)->0) > 0)
        &&& (r.1 is Close ==> r.0.owned() == avail.remove(r.1->handle))
        &&& (!(r.1 is Close) && !(r.1 is Finish) ==> r.0.owned() == avail)
        &&& (r.1 is Finish <==> r.0.phase is Done)
        &&& (r.1 is Finish ==> avail.len() == 0)
        &&& views(r.0.errors@) == views(l.errors@) + added(l, e)
        &&& (r.1 is Finish ==> result_view(r.1->result) == outcome(r.0.errors@))
        &&& (r.1 is CreateProcess ==> (r.0.phase matches Phase::Create { rights, .. } && rights
            == if l.elevation == Elevation::Admin {
            None
        } else {
            Some(launch_rights())
        }))
        &&& (added(l, e).len() > 0 ==> r.0.phase is Cleanup || r.0.phase is Done)
        &&& r.0.started == (l.started || (l.phase is Create && e matches Event::Started {
            result: Ok(_),
        }))
        &&& (r.1 matches Action::Finish { result: Ok(_) } ==> r.0.started)
        &&& match (l.phase, e) {
            (Phase::Find, Event::Found { pid: Some(pid) }) => r.1 == (Action::OpenProcess { pid })
                && r.0.phase == Phase::Open,
            (Phase::Find, Event::Found { pid: None }) => r.1 is Finish,
            (Phase::Open, Event::Opened { result: Ok(p) }) => r.1 == (Action::OpenProcessToken {
                process: p,
                access: launch_rights(),
            }) && r.0.phase == (Phase::ProcessToken { process: p }),
            (Phase::Open, Event::Opened { result: Err(_) }) => r.1 is Finish,
            (Phase::ProcessToken { process }, Event::Opened { result: Ok(t) }) => r.1 == (
            Action::Close { handle: process }) && r.0.phase == (Phase::ReleaseProcess {
                process,
                token: t,
            }),
            (Phase::ReleaseProcess { token, .. }, Event::Closed { result: Ok(()) }) => r.1 == (
            Action::DuplicateToken { token, access: launch_rights() }) && r.0.phase == (
            Phase::Duplicate { source: token, access: launch_rights() }),
            (Phase::Session, Event::Session { id }) => r.1 == (Action::QueryUserToken {
                session: id,
            }) && r.0.phase == Phase::UserToken,
            (Phase::UserToken, Event::Opened { result: Ok(t) }) => r.1 == (Action::DuplicateToken {
                token: t,
                access: launch_rights(),
            }) && r.0.phase == (Phase::Duplicate { source: t, access: launch_rights() }),
            (Phase::UserToken, Event::Opened { result: Err(_) }) => r.1 is Finish,
            (Phase::Duplicate { source, access }, Event::Opened { result: Ok(c) }) => r.1 == (
            Action::Close { handle: source }) && r.0.phase == (Phase::ReleaseSource {
                source,
                copy: c,
                rights: access,
            }),
            (Phase::Duplicate { source, .. }, Event::Opened { result: Err(_) }) => r.1 == (
            Action::Close { handle: source }) && r.0.phase is Cleanup,
            (Phase::ReleaseSource { copy, rights, .. }, Event::Closed { result: Ok(()) }) => if l.elevation
                == Elevation::Admin {
                r.1 == (Action::LinkedToken { token: copy }) && r.0.phase == (Phase::Linked {
                    token: copy,
                })
            } else if l.native is Ok {
                creates_with(r.1, copy, l.native) && r.0.phase == (Phase::Create {
                    token: copy,
                    rights: Some(rights),
                })
            } else {
                r.1 == (Action::Close { handle: copy }) && r.0.phase is Cleanup
            },
            (Phase::Linked { token }, Event::Opened { result: Ok(l2) }) => r.1 == (Action::Close {
                handle: token,
            }) && r.0.phase == (Phase::ReleaseUnlinked { token, linked: l2 }),
            (Phase::Linked { token }, Event::Opened { result: Err(_) }) => r.1 == (Action::Close {
                handle: token,
            }) && r.0.phase is Cleanup,
            (Phase::ReleaseUnlinked { linked, .. }, Event::Closed { result: Ok(()) }) => if l.native is Ok {
                creates_with(r.1, linked, l.native) && r.0.phase == (Phase::Create {
                    token: linked,
                    rights: None,
                })
            } else {
                r.1 == (Action::Close { handle: linked }) && r.0.phase is Cleanup
            },
            (Phase::Create { token, .. }, Event::Started { result: Ok(s) }) => r.1 == (Action::Close {
                handle: s.thread,
            }) && r.0.phase is Cleanup && r.0.phase->closing == s.thread && r.0.phase->queue@
                == seq![token, s.process],
            (Phase::Cleanup { queue, .. }, Event::Closed { .. }) => if queue@.len() == 0 {
                r.1 is Finish
            } else {
                r.1 == (Action::Close { handle: queue@.last() }) && r.0.phase is Cleanup
                    && r.0.phase->closing == queue@.last() && r.0.phase->queue@ == queue@.drop_last()
            },
            (_, _) => r.0.phase is Cleanup || r.0.phase is Done,
        }
    }

    /// Takes the OS's answer to the pending action and gives the next action; see
    /// [`Launch::stepped`] for what holds of every step.
    pub fn step(self, e: Event) -> (r: (Launch, Action))
        requires
            self.wf(),
            self.awaits() == Some(reply_of(e)),
        ensures
            Launch::stepped(self, e, r),
    {
        match self.phase {
            Phase::Find | Phase::Open | Phase::ProcessToken { .. } | Phase::ReleaseProcess {
                ..
            } => self.step_system(e),
            Phase::Session | Phase::UserToken | Phase::Duplicate { .. } | Phase::ReleaseSource {
                ..
            } => self.step_user(e),
            Phase::Linked { .. } | Phase::ReleaseUnlinked { .. } | Phase::Create { .. } => self.step_launch(e),
            _ => self.step_cleanup(e),
        }
    }

    /// Steps of the Local System strategy.
    fn step_system(self, e: Event) -> (r: (Launch, Action))
        requires
            self.wf(),
            self.awaits() == Some(reply_of(e)),
            self.phase is Find || self.phase is Open || self.phase is ProcessToken || self.phase is ReleaseProcess,
        ensures
            Launch::stepped(self, e, r),
    {
        let ghost old_self = self;
        let Launch { elevation, native, phase, errors: mut errors, started } = self;
        let ghost avail = old_self.owned().add(handed_over(e));
        let r = match phase {
            Phase::Find => match e {
                Event::Found { pid: Some(pid) } => (
                    Launch { elevation, native, phase: Phase::Open, errors, started },
                    Action::OpenProcess { pid },
                ),
                _ => {
                    let m = String::from_str("No running processes by the name: winlogon");
                    proof {
                        reveal_strlit("No running processes by the name: winlogon");
                        reveal_strlit("No running processes by the name: ");
                        reveal_strlit("winlogon");
                        assert(m@ =~= "No running processes by the name: "@ + system_process_name());
                    }
                    Self::finish_with(elevation, native, started, errors, m)
                },
            },
            Phase::Open => match e {
                Event::Opened { result: Ok(p) } => (
                    Launch { elevation, native, phase: Phase::ProcessToken { process: p }, errors, started },
                    Action::OpenProcessToken { process: p, access: token_rights() },
                ),
                Event::Opened { result: Err(m) } => {
                    let m = message("Could not obtain process: ", m.as_str());
                    Self::finish_with(elevation, native, started, errors, m)
                },
                // `awaits` admits no other answer here
                _ => Self::finish_with(elevation, native, started, errors, String::new()),
            },
            Phase::ProcessToken { process } => match e {
                Event::Opened { result: Ok(t) } => (
                    Launch { elevation, native, phase: Phase::ReleaseProcess { process, token: t }, errors, started },
                    Action::Close { handle: process },
                ),
                Event::Opened { result: Err(m) } => {
                    errors.push(message("Unable to open process token: ", m.as_str()));
                    cleanup(elevation, native, started, errors, process)
                },
                // `awaits` admits no other answer here
                _ => cleanup(elevation, native, started, errors, process),
            },
            Phase::ReleaseProcess { process, token } => match e {
                Event::Closed { result: Ok(()) } => {
                    let access = token_rights();
                    (
                        Launch { elevation, native, phase: Phase::Duplicate { source: token, access }, errors, started },
                        Action::DuplicateToken { token, access },
                    )
                },
                Event::Closed { result: Err(m) } => {
                    errors.push(message("Unable to close handle: ", m.as_str()));
                    cleanup(elevation, native, started, errors, token)
                },
                // `awaits` admits no other answer here
                _ => cleanup(elevation, native, started, errors, token),
            },
            // `awaits` admits no other answer here
            _ => Self::finish_with(elevation, native, started, errors, String::new()),
        };
        proof {
            reveal_with_fuel(bag, 3);
            assert(views(r.0.errors@) =~= views(old_self.errors@) + added(old_self, e));
            match r.1 {
                Action::Close { handle } => {
                    assert(r.0.owned() =~= avail.remove(handle));
                },
                Action::Finish { .. } => {
                    assert(avail =~= Multiset::empty());
                },
                _ => {
                    assert(r.0.owned() =~= avail);
                },
            }
        }
        r
    }

    /// Steps of the user strategy, which the elevated one begins with.
    fn step_user(self, e: Event) -> (r: (Launch, Action))
        requires
            self.wf(),
            self.awaits() == Some(reply_of(e)),
            self.phase is Session || self.phase is UserToken || self.phase is Duplicate || self.phase is ReleaseSource,
        ensures
            Launch::stepped(self, e, r),
    {
        let ghost old_self = self;
        let Launch { elevation, native, phase, errors: mut errors, started } = self;
        let ghost avail = old_self.owned().add(handed_over(e));
        let r = match phase {
            Phase::Session => match e {
                Event::Session { id } => (
                    Launch { elevation, native, phase: Phase::UserToken, errors, started },
                    Action::QueryUserToken { session: id },
                ),
                // `awaits` admits no other answer here
                _ => Self::finish_with(elevation, native, started, errors, String::new()),
            },
            Phase::UserToken => match e {
                Event::Opened { result: Ok(t) } => {
                    let access = token_rights();
                    (
                        Launch { elevation, native, phase: Phase::Duplicate { source: t, access }, errors, started },
                        Action::DuplicateToken { token: t, access },
                    )
                },
                Event::Opened { result: Err(m) } => {
                    let m = message("Unable to obtain current user handle: ", m.as_str());
                    Self::finish_with(elevation, native, started, errors, m)
                },
                // `awaits` admits no other answer here
                _ => Self::finish_with(elevation, native, started, errors, String::new()),
            },
            Phase::Duplicate { source, access } => match e {
                Event::Opened { result: Ok(c) } => (
                    Launch { elevation, native, phase: Phase::ReleaseSource { source, copy: c, rights: access }, errors, started },
                    Action::Close { handle: source },
                ),
                Event::Opened { result: Err(m) } => {
                    errors.push(message("Unable to duplicate token: ", m.as_str()));
                    cleanup(elevation, native, started, errors, source)
                },
                // `awaits` admits no other answer here
                _ => cleanup(elevation, native, started, errors, source),
            },
            Phase::ReleaseSource { source, copy, rights } => match e {
                Event::Closed { result: Ok(()) } => match elevation {
                    Elevation::Admin => (
                        Launch { elevation, native, phase: Phase::Linked { token: copy }, errors, started },
                        Action::LinkedToken { token: copy },
                    ),
                    _ => Self::launch_with(elevation, native, started, copy, Some(rights)),
                },
                Event::Closed { result: Err(m) } => {
                    errors.push(message("Unable to close handle: ", m.as_str()));
                    cleanup(elevation, native, started, errors, copy)
                },
                // `awaits` admits no other answer here
                _ => cleanup(elevation, native, started, errors, copy),
            },
            // `awaits` admits no other answer here
            _ => Self::finish_with(elevation, native, started, errors, String::new()),
        };
        proof {
            reveal_with_fuel(bag, 3);
            assert(views(r.0.errors@) =~= views(old_self.errors@) + added(old_self, e));
            match r.1 {
                Action::Close { handle } => {
                    assert(r.0.owned() =~= avail.remove(handle));
                },
                Action::Finish { .. } => {
                    assert(avail =~= Multiset::empty());
                },
                _ => {
                    assert(r.0.owned() =~= avail);
                },
            }
        }
        r
    }

    /// Steps of elevation and process creation.
    fn step_launch(self, e: Event) -> (r: (Launch, Action))
        requires
            self.wf(),
            self.awaits() == Some(reply_of(e)),
            self.phase is Linked || self.phase is ReleaseUnlinked || self.phase is Create,
        ensures
            Launch::stepped(self, e, r),
    {
        let ghost old_self = self;
        let Launch { elevation, native, phase, errors: mut errors, started } = self;
        let ghost avail = old_self.owned().add(handed_over(e));
        let r = match phase {
            Phase::Linked { token } => match e {
                Event::Opened { result: Ok(l) } => (
                    Launch { elevation, native, phase: Phase::ReleaseUnlinked { token, linked: l }, errors, started },
                    Action::Close { handle: token },
                ),
                Event::Opened { result: Err(m) } => {
                    errors.push(
                        message(
                            "Could not elevate process token: Unable to get token information: ",
                            m.as_str(),
                        ),
                    );
                    cleanup(elevation, native, started, errors, token)
                },
                // `awaits` admits no other answer here
                _ => cleanup(elevation, native, started, errors, token),
            },
            Phase::ReleaseUnlinked { token, linked } => match e {
                Event::Closed { result: Ok(()) } => Self::launch_with(elevation, native, started, linked, None),
                Event::Closed { result: Err(m) } => {
                    errors.push(
                        message("Could not elevate process token: Unable to close handle: ", m.as_str()),
                    );
                    cleanup(elevation, native, started, errors, linked)
                },
                // `awaits` admits no other answer here
                _ => cleanup(elevation, native, started, errors, linked),
            },
            Phase::Create { token, rights } => match e {
                Event::Started { result: Ok(s) } => {
                    let queue = vec![token, s.process];
                    (
                        Launch { elevation, native, phase: Phase::Cleanup { closing: s.thread, queue }, errors, started: true },
                        Action::Close { handle: s.thread },
                    )
                },
                Event::Started { result: Err(m) } => {
                    errors.push(message("Unable to create process: ", m.as_str()));
                    cleanup(elevation, native, started, errors, token)
                },
                // `awaits` admits no other answer here
                _ => cleanup(elevation, native, started, errors, token),
            },
            // `awaits` admits no other answer here
            _ => Self::finish_with(elevation, native, started, errors, String::new()),
        };
        proof {
            reveal_with_fuel(bag, 3);
            assert(views(r.0.errors@) =~= views(old_self.errors@) + added(old_self, e));
            match r.1 {
                Action::Close { handle } => {
                    assert(r.0.owned() =~= avail.remove(handle));
                },
                Action::Finish { .. } => {
                    assert(avail =~= Multiset::empty());
                },
                _ => {
                    assert(r.0.owned() =~= avail);
                },
            }
        }
        r
    }

    /// Steps that close what is left.
    fn step_cleanup(self, e: Event) -> (r: (Launch, Action))
        requires
            self.wf(),
            self.awaits() == Some(reply_of(e)),
            self.phase is Cleanup || self.phase is Done,
        ensures
            Launch::stepped(self, e, r),
    {
        let ghost old_self = self;
        let Launch { elevation, native, phase, errors: mut errors, started } = self;
        let ghost avail = old_self.owned().add(handed_over(e));
        let r = match phase {
            Phase::Cleanup { closing, queue } => {
                let mut queue = queue;
                match e {
                    Event::Closed { result: Err(m) } => {
                        errors.push(message("Unable to close handle: ", m.as_str()));
                    },
                    _ => {},
                }
                match queue.pop() {
                    Some(h) => (
                        Launch { elevation, native, phase: Phase::Cleanup { closing: h, queue }, errors, started },
                        Action::Close { handle: h },
                    ),
                    None => {
                        let result = if errors.len() == 0 {
                            Ok(())
                        } else {
                            Err(join_lines(&errors))
                        };
                        (Launch { elevation, native, phase: Phase::Done, errors, started }, Action::Finish { result })
                    },
                }
            },
            Phase::Done => Self::finish_with(elevation, native, started, errors, String::new()),
            // `awaits` admits no other answer here
            _ => Self::finish_with(elevation, native, started, errors, String::new()),
        };
        proof {
            reveal_with_fuel(bag, 3);
            assert(views(r.0.errors@) =~= views(old_self.errors@) + added(old_self, e));
            match r.1 {
                Action::Close { handle } => {
                    assert(r.0.owned() =~= avail.remove(handle));
                },
                Action::Finish { .. } => {
                    assert(avail =~= Multiset::empty());
                },
                _ => {
                    assert(r.0.owned() =~= avail);
                },
            }
        }
        r
    }


    /// Ends the launch on a failure met before any handle was owned.
    fn finish_with(
        elevation: Elevation,
        native: Result<NativeLaunch, String>,
        started: bool,
        errors: Vec<String>,
        m: String,
    ) -> (r: (Launch, Action))
        requires
            errors@.len() == 0,
        ensures
            r.0.elevation == elevation,
            r.0.started == started,
            native_view(r.0.native) == native_view(native),
            r.0.phase is Done,
            views(r.0.errors@) == seq![m@],
            r.1 is Finish,
            result_view(r.1->result) == outcome(r.0.errors@),
    {
        let mut errors = errors;
        errors.push(m);
        let text = join_lines(&errors);
        proof {
            assert(views(errors@) =~= seq![m@]);
        }
        (Launch { elevation, native, phase: Phase::Done, errors, started }, Action::Finish { result: Err(text) })
    }
}

/// A list of handles and its multiset have the same size.
pub proof fn lemma_bag_len(s: Seq<Handle>)
    ensures
        bag(s).len() == s.len(),
    decreases s.len(),
{
    if s.len() > 0 {
        lemma_bag_len(s.drop_last());
    }
}

/// When no process named `winlogon` runs, a Local System launch fails at once with a
/// lookup error, and is over: it makes no further request to the OS.
pub proof fn lemma_missing_system_process(l: Launch, r: (Launch, Action))
    requires
        l.wf(),
        l.phase is Find,
        Launch::stepped(l, Event::Found { pid: None }, r),
    ensures
        r.1 is Finish,
        result_view(r.1->result) == Err::<(), Seq<char>>(
            "No running processes by the name: "@ + system_process_name(),
        ),
        r.0.awaits() is None,
{
    assert(views(r.0.errors@) =~= seq!["No running processes by the name: "@ + system_process_name()]);
}

/// When duplication fails, the source token is closed, once: the launch gives it up
/// with that close and, owning nothing more, ends on the answer to it. The error it
/// ends with starts with the duplication failure and its platform text.
pub proof fn lemma_failed_duplicate(
    l: Launch,
    source: Handle,
    m: String,
    r1: (Launch, Action),
    e2: Event,
    r2: (Launch, Action),
)
    requires
        l.wf(),
        l.phase matches Phase::Duplicate { source: s, .. } && s == source,
        Launch::stepped(l, Event::Opened { result: Err(m) }, r1),
        e2 is Closed,
        Launch::stepped(r1.0, e2, r2),
    ensures
        r1.1 == (Action::Close { handle: source }),
        r1.0.owned().count(source) == 0,
        r2.1 is Finish,
        r2.1->result is Err,
        r2.1->result->Err_0@.len() >= ("Unable to duplicate token: "@ + m@).len(),
        r2.1->result->Err_0@.subrange(0, ("Unable to duplicate token: "@ + m@).len() as int)
            == "Unable to duplicate token: "@ + m@,
{
    let line = "Unable to duplicate token: "@ + m@;
    assert(l.owned().add(handed_over(Event::Opened { result: Err(m) })) =~= Multiset::empty().insert(source));
    assert(r1.0.owned() =~= Multiset::empty());
    lemma_bag_len(r1.0.phase->queue@);
    assert(views(r1.0.errors@) =~= seq![line]);
    let parts = views(r2.0.errors@);
    assert(parts[0] == line);
    lemma_joined_starts_with_first(parts);
}

/// A whole launch of `b`: the launches `ls`, the actions `acts` (each taken in the
/// launch of the same index), and the OS's answers `es` to all but the last action.
pub open spec fn is_run(b: ProcessBuilder, ls: Seq<Launch>, acts: Seq<Action>, es: Seq<Event>) -> bool {
    &&& ls.len() == acts.len()
    &&& ls.len() == es.len() + 1
    &&& Launch::starts(b, (ls[0], acts[0]))
    &&& forall|i: int|
        0 <= i < es.len() ==> #[trigger] Launch::stepped(ls[i], es[i], (ls[i + 1], acts[i + 1]))
}

/// The handles the answers hand over, all together.
pub open spec fn handed_in(es: Seq<Event>) -> Multiset<Handle>
    decreases es.len(),
{
    if es.len() == 0 {
        Multiset::empty()
    } else {
        handed_in(es.drop_last()).add(handed_over(es.last()))
    }
}

/// The handles the actions close, all together.
pub open spec fn closed_in(acts: Seq<Action>) -> Multiset<Handle>
    decreases acts.len(),
{
    if acts.len() == 0 {
        Multiset::empty()
    } else {
        closed_in(acts.drop_last()).add(
            match acts.last() {
                Action::Close { handle } => Multiset::empty().insert(handle),
                _ => Multiset::empty(),
            },
        )
    }
}

/// At every point of a launch, what it owns and what it has closed together are
/// exactly what the OS has handed over.
pub proof fn lemma_run_balance(
    b: ProcessBuilder,
    ls: Seq<Launch>,
    acts: Seq<Action>,
    es: Seq<Event>,
    k: int,
)
    requires
        is_run(b, ls, acts, es),
        0 <= k < ls.len(),
    ensures
        ls[k].owned().add(closed_in(acts.take(k + 1))) == handed_in(es.take(k)),
    decreases k,
{
    if k == 0 {
        assert(acts.take(1).drop_last() =~= Seq::<Action>::empty());
        assert(es.take(0) =~= Seq::<Event>::empty());
        assert(ls[0].owned() =~= Multiset::empty());
        assert(acts.take(1).last() == acts[0]);
        assert(Launch::starts(b, (ls[0], acts[0])));
        assert(!(acts[0] is Close));
        assert(closed_in(acts.take(1).drop_last()) =~= Multiset::empty());
        assert(closed_in(acts.take(1)) =~= Multiset::empty());
        assert(ls[0].owned().add(closed_in(acts.take(1))) =~= handed_in(es.take(0)));
    } else {
        lemma_run_balance(b, ls, acts, es, k - 1);
        assert(Launch::stepped(ls[k - 1], es[k - 1], (ls[k], acts[k])));
        assert(acts.take(k + 1).drop_last() =~= acts.take(k));
        assert(es.take(k).drop_last() =~= es.take(k - 1));
        let avail = ls[k - 1].owned().add(handed_over(es[k - 1]));
        match acts[k] {
            Action::Close { handle } => {
                assert(ls[k].owned().insert(handle) =~= avail);
            },
            Action::Finish { .. } => {
                assert(ls[k].owned() =~= Multiset::empty());
                assert(avail =~= Multiset::empty());
            },
            _ => {},
        }
        assert(ls[k].owned().add(closed_in(acts.take(k + 1))) =~= handed_in(es.take(k)));
    }
}

/// A finished launch closed every handle the OS handed it, each exactly as many times
/// as it was handed over: none leaked and none was closed twice.
pub proof fn lemma_run_closes_all(b: ProcessBuilder, ls: Seq<Launch>, acts: Seq<Action>, es: Seq<Event>)
    requires
        is_run(b, ls, acts, es),
        acts.last() is Finish,
    ensures
        closed_in(acts) == handed_in(es),
{
    let k = ls.len() - 1;
    lemma_run_balance(b, ls, acts, es, k);
    if k > 0 {
        let i = k - 1;
        assert(0 <= i < es.len());
        assert(Launch::stepped(ls[i], es[i], (ls[i + 1], acts[i + 1])));
    }
    assert(ls[k].owned() =~= Multiset::empty());
    assert(acts.take(k + 1) =~= acts);
    assert(es.take(k) =~= es);
    assert(closed_in(acts) =~= handed_in(es));
}

/// A launch that has started a process asked for its creation, and the OS answered
/// with a process, at an earlier point of the run.
pub proof fn lemma_started_after_creation(
    b: ProcessBuilder,
    ls: Seq<Launch>,
    acts: Seq<Action>,
    es: Seq<Event>,
    k: int,
)
    requires
        is_run(b, ls, acts, es),
        0 <= k < ls.len(),
        ls[k].started,
    ensures
        exists|i: int|
            0 <= i < k && acts[i] is CreateProcess && #[trigger] es[i] matches Event::Started {
                result: Ok(_),
            },
    decreases k,
{
    if k == 0 {
        assert(Launch::starts(b, (ls[0], acts[0])));
    } else {
        let i = k - 1;
        assert(Launch::stepped(ls[i], es[i], (ls[i + 1], acts[i + 1])));
        if ls[i].started {
            lemma_started_after_creation(b, ls, acts, es, i);
        } else {
            assert(Launch::waits_for(ls[i], acts[i])) by {
                if i > 0 {
                    assert(Launch::stepped(ls[i - 1], es[i - 1], (ls[i - 1 + 1], acts[i - 1 + 1])));
                } else {
                    assert(Launch::starts(b, (ls[0], acts[0])));
                }
            }
            assert(es[i] matches Event::Started { result: Ok(_) });
        }
    }
}

/// A launch succeeds only after process creation was asked for and the OS answered
/// with a process; and then it has closed every handle it was handed.
pub proof fn lemma_success_created(b: ProcessBuilder, ls: Seq<Launch>, acts: Seq<Action>, es: Seq<Event>)
    requires
        is_run(b, ls, acts, es),
        acts.last() matches Action::Finish { result: Ok(_) },
    ensures
        exists|i: int|
            0 <= i < es.len() && acts[i] is CreateProcess && #[trigger] es[i] matches Event::Started {
                result: Ok(_),
            },
        closed_in(acts) == handed_in(es),
{
    let k = ls.len() - 1;
    if k == 0 {
        assert(Launch::starts(b, (ls[0], acts[0])));
    } else {
        let i = k - 1;
        assert(Launch::stepped(ls[i], es[i], (ls[i + 1], acts[i + 1])));
        lemma_started_after_creation(b, ls, acts, es, k);
    }
    lemma_run_closes_all(b, ls, acts, es);
}

} // verus!
