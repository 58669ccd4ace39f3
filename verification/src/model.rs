//! The engine as mathematics: what every session does, for every answer it may get.

use crate::account::{AccountDirectiveView, AccountIdentityView, PartialAccountIdentityView};
use crate::command::{
    create_call, delete_call, modify_call, password_call, start_call, stop_call,
    ExecutionOutcomeView, InvocationView, Tool,
};
use crate::directive::entry_of;
use crate::error::ErrorView;
use crate::session::{ActionView, EventView, NoticeView, SessionView, TransitionView};
use vstd::prelude::*;

verus! {

/// A session that is under way, with the action that it has just asked for.
pub type Move = (SessionView, TransitionView);

/// The move that asks for `action` and has nothing to tell.
pub open spec fn quiet(action: ActionView) -> TransitionView {
    TransitionView { notice: None, action }
}

/// The move that asks for `action` and has `notice` to tell.
pub open spec fn telling(notice: NoticeView, action: ActionView) -> TransitionView {
    TransitionView { notice: Some(notice), action }
}

/// The session goes to `next` and asks for `action`, with nothing to tell.
pub open spec fn ask(next: SessionView, action: ActionView) -> Move {
    (next, quiet(action))
}

/// The session goes to `next` and asks for `action`, and has `notice` to tell.
pub open spec fn tell(notice: NoticeView, next: SessionView, action: ActionView) -> Move {
    (next, telling(notice, action))
}

/// The session ends in failure.
pub open spec fn fail(error: ErrorView) -> Move {
    ask(SessionView::Finished, ActionView::Fail { error })
}

/// What an event says of the tool that was to run: nothing to complain of, or the error.
/// A tool that ran and ended with a status other than zero has failed, with what it wrote to
/// its error stream; a tool that could not be started has failed in another way; any other
/// event is no answer to the question.
pub open spec fn verdict(tool: Tool, event: EventView) -> Option<ErrorView> {
    match event {
        EventView::Ran { outcome } => if outcome.success {
            None
        } else {
            Some(ErrorView::CommandFailed { tool, stderr: outcome.stderr })
        },
        EventView::SpawnFailed { detail } => Some(ErrorView::SpawnFailed { tool, detail }),
        _ => Some(ErrorView::UnexpectedEvent),
    }
}

/// The first move of a creation. A name with a `'\0'` in it cannot be looked up, so nothing
/// is asked for it.
pub open spec fn create_begin(account: AccountDirectiveView, batch: bool) -> Move {
    if account.name.contains('\0') {
        fail(ErrorView::InvalidName { name: account.name })
    } else {
        ask(
            SessionView::CreateLookup { account, batch },
            ActionView::Lookup { name: account.name },
        )
    }
}

/// The first move of a removal.
pub open spec fn delete_begin(account: AccountIdentityView) -> Move {
    if account.name.contains('\0') {
        fail(ErrorView::InvalidName { name: account.name })
    } else {
        ask(SessionView::DeleteLookup { account }, ActionView::Lookup { name: account.name })
    }
}

/// The first move of a modification.
pub open spec fn modify_begin(
    old: AccountIdentityView,
    new: PartialAccountIdentityView,
    new_password: Option<Seq<char>>,
) -> Move {
    if old.name.contains('\0') {
        fail(ErrorView::InvalidName { name: old.name })
    } else {
        ask(
            SessionView::ModifyLookup { old, new, new_password },
            ActionView::Lookup { name: old.name },
        )
    }
}

/// The first move of a start of the daemon.
pub open spec fn start_begin() -> Move {
    ask(SessionView::StartRun, ActionView::Run { invocation: start_call() })
}

/// The first move of a stop of the daemon, which a start follows if `restart` says so.
pub open spec fn stop_begin(restart: bool) -> Move {
    ask(SessionView::StopRun { restart }, ActionView::Run { invocation: stop_call() })
}

/// The first move of a batch.
pub open spec fn entry_begin() -> Move {
    ask(SessionView::PathCheck, ActionView::CheckPath)
}

/// What a batch does with a line that it has read: a blank line is passed over, a directive
/// is announced and its account created, and a line that is neither ends the batch.
pub open spec fn on_line(text: Seq<char>) -> Move {
    match entry_of(text) {
        None => ask(SessionView::ReadLine, ActionView::ReadLine),
        Some(Ok(account)) => {
            let begun = create_begin(account, true);
            tell(NoticeView::Processing { account }, begun.0, begun.1.action)
        },
        Some(Err(error)) => fail(error),
    }
}

/// What follows a creation that has succeeded: in a batch the next line, else nothing.
pub open spec fn after_create(account: AccountIdentityView, batch: bool) -> Move {
    if batch {
        tell(NoticeView::Created { account }, SessionView::ReadLine, ActionView::ReadLine)
    } else {
        tell(NoticeView::Created { account }, SessionView::Finished, ActionView::Complete)
    }
}

/// What follows a change of identity that has succeeded: the password, if there is a new one,
/// set under the name that the account has now.
pub open spec fn after_modify(account: AccountIdentityView, new_password: Option<Seq<char>>) -> Move {
    match new_password {
        Some(password) => tell(
            NoticeView::Modified { account },
            SessionView::PasswordRun { account },
            ActionView::Run { invocation: password_call(account.name, password) },
        ),
        None => tell(
            NoticeView::Modified { account },
            SessionView::Finished,
            ActionView::Complete,
        ),
    }
}

/// What follows a stop that has succeeded: in a restart the start, else nothing.
pub open spec fn after_stop(restart: bool) -> Move {
    if restart {
        tell(
            NoticeView::Stopped,
            SessionView::StartRun,
            ActionView::Run { invocation: start_call() },
        )
    } else {
        tell(NoticeView::Stopped, SessionView::Finished, ActionView::Complete)
    }
}

/// The move that `session` makes when its caller answers with `event`.
///
/// A session goes on only with an answer to what it has asked; with any other event, and
/// with any event once it has ended, it fails. The first failure ends the session.
pub open spec fn step(session: SessionView, event: EventView) -> Move {
    match session {
        SessionView::PathCheck => match event {
            EventView::PathChecked { exists } => if exists {
                ask(SessionView::ReadLine, ActionView::ReadLine)
            } else {
                fail(ErrorView::PathNotFound)
            },
            _ => fail(ErrorView::UnexpectedEvent),
        },
        SessionView::ReadLine => match event {
            EventView::Line { text } => on_line(text),
            EventView::EndOfInput => start_begin(),
            EventView::ReadFailed { detail } => fail(ErrorView::ReadFailed { detail }),
            _ => fail(ErrorView::UnexpectedEvent),
        },
        SessionView::CreateLookup { account, batch } => match event {
            EventView::AccountChecked { exists } => if exists {
                fail(ErrorView::AlreadyExists { name: account.name })
            } else {
                ask(
                    SessionView::CreateRun { account: account.identity(), batch },
                    ActionView::Run {
                        invocation: create_call(
                            account.name,
                            account.uid,
                            account.gid,
                            account.password,
                        ),
                    },
                )
            },
            _ => fail(ErrorView::UnexpectedEvent),
        },
        SessionView::CreateRun { account, batch } => match verdict(Tool::UserAdd, event) {
            None => after_create(account, batch),
            Some(error) => fail(error),
        },
        SessionView::DeleteLookup { account } => match event {
            EventView::AccountChecked { exists } => if exists {
                ask(
                    SessionView::DeleteRun { account },
                    ActionView::Run { invocation: delete_call(account.name) },
                )
            } else {
                fail(ErrorView::AccountNotFound { name: account.name })
            },
            _ => fail(ErrorView::UnexpectedEvent),
        },
        SessionView::DeleteRun { account } => match verdict(Tool::UserDel, event) {
            None => tell(
                NoticeView::Deleted { account },
                SessionView::Finished,
                ActionView::Complete,
            ),
            Some(error) => fail(error),
        },
        SessionView::ModifyLookup { old, new, new_password } => match event {
            EventView::AccountChecked { exists } => if exists {
                ask(
                    SessionView::ModifyRun { account: new.applied_to(old), new_password },
                    ActionView::Run { invocation: modify_call(old.name, new) },
                )
            } else {
                fail(ErrorView::AccountNotFound { name: old.name })
            },
            _ => fail(ErrorView::UnexpectedEvent),
        },
        SessionView::ModifyRun { account, new_password } => match verdict(Tool::UserMod, event) {
            None => after_modify(account, new_password),
            Some(error) => fail(error),
        },
        SessionView::PasswordRun { account } => match verdict(Tool::ChPasswd, event) {
            None => tell(
                NoticeView::PasswordChanged { account },
                SessionView::Finished,
                ActionView::Complete,
            ),
            Some(error) => fail(error),
        },
        SessionView::StopRun { restart } => match verdict(Tool::KillAll, event) {
            None => after_stop(restart),
            Some(error) => fail(error),
        },
        SessionView::StartRun => match verdict(Tool::Sshd, event) {
            None => tell(NoticeView::Started, SessionView::Finished, ActionView::Complete),
            Some(error) => fail(error),
        },
        SessionView::Finished => fail(ErrorView::UnexpectedEvent),
    }
}

/// The moves that a session makes when its caller answers with `events`, one after another.
pub open spec fn run(session: SessionView, events: Seq<EventView>) -> Seq<TransitionView>
    decreases events.len(),
{
    if events.len() == 0 {
        seq![]
    } else {
        let first = step(session, events.first());
        seq![first.1] + run(first.0, events.drop_first())
    }
}

/// The session that `session` has become when its caller has answered with `events`.
pub open spec fn after(session: SessionView, events: Seq<EventView>) -> SessionView
    decreases events.len(),
{
    if events.len() == 0 {
        session
    } else {
        after(step(session, events.first()).0, events.drop_first())
    }
}

/// The events with which a caller hands over `lines`, one after another.
pub open spec fn line_events(lines: Seq<Seq<char>>) -> Seq<EventView> {
    Seq::new(lines.len(), |i: int| EventView::Line { text: lines[i] })
}

/// Every line is blank or writes a directive whose name can be looked up.
pub open spec fn well_formed(lines: Seq<Seq<char>>) -> bool {
    forall|i: int|
        0 <= i < lines.len() ==> match #[trigger] entry_of(lines[i]) {
            Some(Ok(account)) => !account.name.contains('\0'),
            Some(Err(_)) => false,
            None => true,
        }
}

/// The answers that a batch gets to `lines` on a machine where nothing stands in its way:
/// every line is handed over, every account that it asks about is absent, and every creation
/// ends as `created` says.
pub open spec fn smooth_answers(lines: Seq<Seq<char>>, created: ExecutionOutcomeView) -> Seq<
    EventView,
>
    decreases lines.len(),
{
    if lines.len() == 0 {
        seq![]
    } else {
        let line = EventView::Line { text: lines.last() };
        match entry_of(lines.last()) {
            Some(Ok(_)) => smooth_answers(lines.drop_last(), created) + seq![
                line,
                EventView::AccountChecked { exists: false },
                EventView::Ran { outcome: created },
            ],
            _ => smooth_answers(lines.drop_last(), created) + seq![line],
        }
    }
}

/// The creations that the entries of a directive file call for, in order.
pub open spec fn creations(entries: Seq<Result<AccountDirectiveView, ErrorView>>) -> Seq<
    InvocationView,
>
    decreases entries.len(),
{
    if entries.len() == 0 {
        seq![]
    } else {
        match entries.last() {
            Ok(account) => creations(entries.drop_last()).push(
                create_call(account.name, account.uid, account.gid, account.password),
            ),
            Err(_) => creations(entries.drop_last()),
        }
    }
}

/// The moves of an operation from its first on, when its caller answers with `events`.
pub open spec fn trace(begun: Move, events: Seq<EventView>) -> Seq<TransitionView> {
    seq![begun.1] + run(begun.0, events)
}

/// The tools that the moves ask to run, in order.
pub open spec fn calls(moves: Seq<TransitionView>) -> Seq<InvocationView>
    decreases moves.len(),
{
    if moves.len() == 0 {
        seq![]
    } else {
        match moves.last().action {
            ActionView::Run { invocation } => calls(moves.drop_last()).push(invocation),
            _ => calls(moves.drop_last()),
        }
    }
}

} // verus!
