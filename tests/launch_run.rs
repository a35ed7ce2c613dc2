use win_run::launch::{Action, Event, Handle, Launch, NativeLaunch, Spawned, TokenRights};
use win_run::os::Os;
use win_run::text::join_lines;
use win_run::{win, Desktop, Elevation, ProcessBuilder};

/// A test double of the OS that tracks every handle it hands out and panics on a
/// close or a use of a handle that is not open.
struct FakeOs {
    next: isize,
    open: Vec<isize>,
    calls: Vec<String>,
    winlogon: bool,
    fail_query_user: bool,
    fail_duplicate: bool,
    fail_linked: bool,
    fail_create: bool,
    fail_close: bool,
    requested: Vec<TokenRights>,
    created: Option<(isize, String, String, String, String)>,
}

fn fake() -> FakeOs {
    FakeOs {
        next: 100,
        open: Vec::new(),
        calls: Vec::new(),
        winlogon: true,
        fail_query_user: false,
        fail_duplicate: false,
        fail_linked: false,
        fail_create: false,
        fail_close: false,
        requested: Vec::new(),
        created: None,
    }
}

fn wide_text(v: &[u16]) -> String {
    assert_eq!(v.last(), Some(&0u16));
    String::from_utf16(&v[..v.len() - 1]).unwrap()
}

impl FakeOs {
    fn acquire(&mut self) -> Handle {
        self.next += 1;
        self.open.push(self.next);
        Handle { raw: self.next }
    }

    fn check_open(&self, h: Handle) {
        assert!(self.open.contains(&h.raw), "handle {} used while not open", h.raw);
    }
}

impl Os for FakeOs {
    fn find_process(&mut self, name: &str) -> Option<u32> {
        self.calls.push(format!("find {name}"));
        if self.winlogon && name == "winlogon" {
            Some(612)
        } else {
            None
        }
    }

    fn active_console_session(&mut self) -> u32 {
        self.calls.push("session".to_string());
        1
    }

    fn query_user_token(&mut self, session: u32) -> Result<Handle, String> {
        self.calls.push(format!("user token {session}"));
        if self.fail_query_user {
            Err("no user is logged on".to_string())
        } else {
            Ok(self.acquire())
        }
    }

    fn open_process_by_id(&mut self, pid: u32) -> Result<Handle, String> {
        self.calls.push(format!("open process {pid}"));
        Ok(self.acquire())
    }

    fn open_token_of_process(&mut self, process: Handle, access: TokenRights) -> Result<Handle, String> {
        self.check_open(process);
        self.calls.push("open process token".to_string());
        self.requested.push(access);
        Ok(self.acquire())
    }

    fn duplicate_token(&mut self, token: Handle, access: TokenRights) -> Result<Handle, String> {
        self.check_open(token);
        self.calls.push("duplicate".to_string());
        self.requested.push(access);
        if self.fail_duplicate {
            Err("Access is denied. (os error 5)".to_string())
        } else {
            Ok(self.acquire())
        }
    }

    fn linked_token(&mut self, token: Handle) -> Result<Handle, String> {
        self.check_open(token);
        self.calls.push("linked".to_string());
        if self.fail_linked {
            Err("A specified logon session does not exist. (os error 1312)".to_string())
        } else {
            Ok(self.acquire())
        }
    }

    fn create_process(&mut self, token: Handle, native: &NativeLaunch) -> Result<Spawned, String> {
        self.check_open(token);
        self.calls.push("create".to_string());
        self.created = Some((
            token.raw,
            wide_text(&native.application),
            wide_text(&native.command_line),
            wide_text(&native.directory),
            wide_text(&native.desktop),
        ));
        if self.fail_create {
            Err("The system cannot find the file specified. (os error 2)".to_string())
        } else {
            let process = self.acquire();
            let thread = self.acquire();
            Ok(Spawned { process, thread })
        }
    }

    fn close_handle(&mut self, handle: Handle) -> Result<(), String> {
        let at = self.open.iter().position(|h| *h == handle.raw);
        assert!(at.is_some(), "handle {} closed while not open", handle.raw);
        self.open.remove(at.unwrap());
        self.calls.push(format!("close {}", handle.raw));
        if self.fail_close {
            Err("The handle is invalid. (os error 6)".to_string())
        } else {
            Ok(())
        }
    }
}

fn all_rights() -> TokenRights {
    TokenRights { query: true, duplicate: true, assign_primary: true }
}

fn request(elevation: Elevation) -> ProcessBuilder {
    win("C:\\tools\\app.exe", "C:\\host")
        .args("-v")
        .directory("C:\\tools")
        .desktop(Desktop::Default)
        .elevation(elevation)
}

#[test]
fn user_launch_creates_process_and_leaks_nothing() {
    let mut os = fake();
    let r = request(Elevation::User).run(&mut os);
    assert_eq!(r, Ok(()));
    let (token, app, cmd, dir, desktop) = os.created.clone().unwrap();
    assert_eq!(app, "C:\\tools\\app.exe");
    assert_eq!(cmd, "C:\\tools\\app.exe -v");
    assert_eq!(dir, "C:\\tools");
    assert_eq!(desktop, "");
    assert_eq!(token, 102);
    assert!(os.requested.iter().all(|r| *r == all_rights()));
    assert!(os.open.is_empty());
    assert_eq!(
        os.calls,
        vec!["session", "user token 1", "duplicate", "close 101", "create", "close 104", "close 103", "close 102"]
    );
}

#[test]
fn admin_launch_without_linked_token_fails_with_elevate() {
    let mut os = fake();
    os.fail_linked = true;
    let r = request(Elevation::Admin).run(&mut os);
    let e = r.unwrap_err();
    assert!(e.contains("elevate"));
    assert_eq!(
        e,
        "Could not elevate process token: Unable to get token information: A specified logon session does not exist. (os error 1312)"
    );
    assert!(os.open.is_empty());
    assert!(os.created.is_none());
}

#[test]
fn admin_launch_uses_linked_token() {
    let mut os = fake();
    let r = request(Elevation::Admin).run(&mut os);
    assert_eq!(r, Ok(()));
    assert_eq!(os.created.clone().unwrap().0, 103);
    assert!(os.open.is_empty());
}

#[test]
fn local_system_without_winlogon_makes_no_further_call() {
    let mut os = fake();
    os.winlogon = false;
    let r = request(Elevation::LocalSystem).run(&mut os);
    assert_eq!(r, Err("No running processes by the name: winlogon".to_string()));
    assert_eq!(os.calls, vec!["find winlogon"]);
}

#[test]
fn local_system_launch_uses_winlogon_token() {
    let mut os = fake();
    let r = request(Elevation::LocalSystem).desktop(Desktop::Secure).run(&mut os);
    assert_eq!(r, Ok(()));
    let created = os.created.clone().unwrap();
    assert_eq!(created.0, 103);
    assert_eq!(created.4, "WinSta0\\Winlogon");
    assert_eq!(os.requested, vec![all_rights(), all_rights()]);
    assert!(os.open.is_empty());
    assert_eq!(os.calls[0], "find winlogon");
    assert_eq!(os.calls[1], "open process 612");
}

#[test]
fn failed_duplicate_closes_source_once() {
    let mut os = fake();
    os.fail_duplicate = true;
    let r = request(Elevation::User).run(&mut os);
    let e = r.unwrap_err();
    assert!(e.contains("Access is denied. (os error 5)"));
    assert_eq!(e, "Unable to duplicate token: Access is denied. (os error 5)");
    assert_eq!(os.calls.iter().filter(|c| *c == "close 101").count(), 1);
    assert!(os.open.is_empty());
}

#[test]
fn failed_user_token_query_is_reported() {
    let mut os = fake();
    os.fail_query_user = true;
    let r = request(Elevation::User).run(&mut os);
    assert_eq!(r, Err("Unable to obtain current user handle: no user is logged on".to_string()));
    assert!(os.open.is_empty());
}

#[test]
fn failed_creation_still_closes_token() {
    let mut os = fake();
    os.fail_create = true;
    let r = request(Elevation::User).run(&mut os);
    assert_eq!(
        r,
        Err("Unable to create process: The system cannot find the file specified. (os error 2)".to_string())
    );
    assert!(os.open.is_empty());
}

#[test]
fn close_failures_are_all_reported() {
    let mut os = fake();
    os.fail_close = true;
    let r = request(Elevation::User).run(&mut os);
    assert_eq!(
        r,
        Err("Unable to close handle: The handle is invalid. (os error 6)\nUnable to close handle: The handle is invalid. (os error 6)".to_string())
    );
    assert!(os.open.is_empty());
    assert!(os.created.is_none());
}

#[test]
fn interior_nul_is_a_conversion_failure() {
    let mut os = fake();
    let r = win("C:\\tools\\a\0pp.exe", "C:\\host").run(&mut os);
    assert_eq!(
        r,
        Err("Cannot convert string to U16CString: invalid nul value found at position 10".to_string())
    );
    assert!(os.open.is_empty());
    assert!(os.created.is_none());
}

#[test]
fn start_asks_for_winlogon_or_session() {
    let (_, a) = Launch::start(&win("x", "d").elevation(Elevation::LocalSystem));
    assert!(matches!(a, Action::FindProcess { ref name } if name == "winlogon"));
    let (_, a) = Launch::start(&win("x", "d").elevation(Elevation::Admin));
    assert!(matches!(a, Action::ActiveSession));
}

#[test]
fn missing_winlogon_finishes_the_machine() {
    let (m, _) = Launch::start(&win("x", "d").elevation(Elevation::LocalSystem));
    let (_, a) = m.step(Event::Found { pid: None });
    assert!(matches!(a, Action::Finish { result: Err(ref e) } if e == "No running processes by the name: winlogon"));
}

#[test]
fn join_lines_uses_newlines() {
    let parts = vec!["a".to_string(), "bc".to_string(), "d".to_string()];
    assert_eq!(join_lines(&parts), "a\nbc\nd");
    assert_eq!(join_lines(&Vec::new()), "");
}

#[test]
fn paths_outside_the_basic_plane_become_surrogate_pairs() {
    let mut os = fake();
    let r = win("C:\\\u{1F600}.exe", "C:\\host").run(&mut os);
    assert_eq!(r, Ok(()));
    let created = os.created.clone().unwrap();
    assert_eq!(created.1, "C:\\\u{1F600}.exe");
    assert_eq!(created.2, "C:\\\u{1F600}.exe ");
}

#[test]
fn conversion_failure_after_resolution_closes_token() {
    let mut os = fake();
    let r = win("app.exe", "C:\\ho\0st").run(&mut os);
    assert_eq!(
        r,
        Err("Cannot convert string to U16CString: invalid nul value found at position 5".to_string())
    );
    assert!(os.open.is_empty());
    assert!(os.created.is_none());
    assert_eq!(os.calls.last().unwrap(), "close 102");
}
