use vstd::prelude::*;

use crate::launch::{added, is_run, lemma_added_nonempty, native_text, native_view, outcome, result_view, reply_of, reply_to, Action, Event, Handle, Launch, NativeLaunch, Spawned, TokenRights};
use crate::text::{lemma_joined_starts_with_first, views};
use crate::ProcessBuilder;

verus! {

/// The OS calls a launch makes. Each returns what the OS answered; errors carry the
/// platform's error text. Implemented over the real OS, or by a test double.
pub trait Os {
    /// The id of the first running process named `name`, in the OS's own order.
    fn find_process(&mut self, name: &str) -> Option<u32>;

    /// The id of the active console session.
    fn active_console_session(&mut self) -> u32;

    /// The token of the user logged on to `session`.
    fn query_user_token(&mut self, session: u32) -> Result<Handle, String>;

    /// Opens process `pid` with query-information rights, without inheritance.
    fn open_process_by_id(&mut self, pid: u32) -> Result<Handle, String>;

    /// Opens the token of `process` with `access`.
    fn open_token_of_process(&mut self, process: Handle, access: TokenRights) -> Result<Handle, String>;

    /// Duplicates `token` into a primary token at impersonation level with `access`.
    fn duplicate_token(&mut self, token: Handle, access: TokenRights) -> Result<Handle, String>;

    /// The elevated token linked to `token`.
    fn linked_token(&mut self, token: Handle) -> Result<Handle, String>;

    /// Creates a process under `token` with the given strings.
    fn create_process(&mut self, token: Handle, native: &NativeLaunch) -> Result<Spawned, String>;

    /// Closes `handle`.
    fn close_handle(&mut self, handle: Handle) -> Result<(), String>;
}

/// Performs `a` on `os` and returns the answer.
pub fn answer<O: Os>(os: &mut O, a: &Action) -> (e: Event)
    requires
        !(a is Finish),
    ensures
        reply_to(*a) == Some(reply_of(e)),
{
    match a {
        Action::FindProcess { name } => Event::Found { pid: os.find_process(name.as_str()) },
        Action::ActiveSession => Event::Session { id: os.active_console_session() },
        Action::QueryUserToken { session } => Event::Opened {
            result: os.query_user_token(*session),
        },
        Action::OpenProcess { pid } => Event::Opened { result: os.open_process_by_id(*pid) },
        Action::OpenProcessToken { process, access } => Event::Opened {
            result: os.open_token_of_process(*process, *access),
        },
        Action::DuplicateToken { token, access } => Event::Opened {
            result: os.duplicate_token(*token, *access),
        },
        Action::LinkedToken { token } => Event::Opened { result: os.linked_token(*token) },
        Action::CreateProcess { token, native } => Event::Started {
            result: os.create_process(*token, native),
        },
        Action::Close { handle } => Event::Closed { result: os.close_handle(*handle) },
        Action::Finish { .. } => Event::Closed { result: Ok(()) },
    }
}

impl ProcessBuilder {
    /// Runs the launch on `os`: resolves the token that the elevation asks for,
    /// creates the process under it on the chosen desktop, and closes every handle it
    /// came to own. Each step is one of [`Launch::step`], so the guarantees stated
    /// there hold of the whole run whatever the OS answers.
    pub fn run<O: Os>(&self, os: &mut O) -> (r: Result<(), String>)
        ensures
            exists|ls: Seq<Launch>, acts: Seq<Action>, es: Seq<Event>|
                is_run(*self, ls, acts, es) && acts.last() == (Action::Finish { result: r }),
            r is Err ==> r->Err_0@.len() > 0,
    {
        let (mut m, mut a) = Launch::start(self);
        let ghost mut ls: Seq<Launch> = seq![m];
        let ghost mut acts: Seq<Action> = seq![a];
        let ghost mut es: Seq<Event> = Seq::empty();
        loop
            invariant
                is_run(*self, ls, acts, es),
                ls.last() == m,
                acts.last() == a,
                m.wf(),
                Launch::waits_for(m, a),
                (a is Finish) <==> (m.phase is Done),
                a is Finish ==> result_view(a->result) == outcome(m.errors@),
                native_view(m.native) == native_text(*self),
                forall|i: int| 0 <= i < m.errors@.len() ==> m.errors@[i]@.len() > 0,
            decreases m.rank(),
        {
            match a {
                Action::Finish { result } => {
                    proof {
                        assert(acts.last() == (Action::Finish { result }));
                        if m.errors@.len() > 0 {
                            lemma_joined_starts_with_first(views(m.errors@));
                        }
                    }
                    return result;
                },
                _ => {},
            }
            let e = answer(os, &a);
            proof {
                lemma_added_nonempty(m, e, *self);
            }
            let ghost before = m;
            let ghost before_a = a;
            let (m2, a2) = m.step(e);
            proof {
                let old_len = es.len();
                ls = ls.push(m2);
                acts = acts.push(a2);
                es = es.push(e);
                assert forall|i: int| 0 <= i < es.len() implies #[trigger] Launch::stepped(
                    ls[i],
                    es[i],
                    (ls[i + 1], acts[i + 1]),
                ) by {
                    if i == old_len {
                        assert(ls[i] == before);
                    }
                }
                assert forall|i: int| 0 <= i < m2.errors@.len() implies m2.errors@[i]@.len() > 0 by {
                    assert(views(m2.errors@)[i] == m2.errors@[i]@);
                    if i < before.errors@.len() {
                        assert(views(before.errors@)[i] == before.errors@[i]@);
                    } else {
                        assert((views(before.errors@) + added(before, e))[i] == added(before, e)[i - before.errors@.len()]);
                    }
                }
            }
            m = m2;
            a = a2;
        }
    }
}

} // verus!
