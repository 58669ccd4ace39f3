//! The engine: the operations, and the moves that their sessions make.

use crate::account::{
    AccountDirective, AccountDirectiveView, AccountIdentity, AccountIdentityView,
    AccountMutationRequest, PartialAccountIdentity, PartialAccountIdentityView, text_of,
};
use crate::command::{
    create_invocation, delete_invocation, modify_invocation, password_invocation,
    start_invocation, stop_invocation, ServiceCommand, Tool,
};
use crate::directive::read_line;
use crate::error::{Error, ErrorView};
use crate::model;
use crate::model::Move;
use crate::session::{Action, Event, Notice, Session, Transition};
use crate::text::has_nul;
use vstd::prelude::*;

verus! {

/// What a session and its move hold, as mathematical values.
pub open spec fn move_view(made: (Session, Transition)) -> Move {
    (made.0@, made.1@)
}

/// What an optional error holds, as mathematical values.
pub open spec fn failure_view(failure: Option<Error>) -> Option<ErrorView> {
    match failure {
        Some(error) => Some(error@),
        None => None,
    }
}

fn ask(next: Session, action: Action) -> (made: (Session, Transition))
    ensures
        move_view(made) == model::ask(next@, action@),
{
    (next, Transition { notice: None, action })
}

fn tell(notice: Notice, next: Session, action: Action) -> (made: (Session, Transition))
    ensures
        move_view(made) == model::tell(notice@, next@, action@),
{
    (next, Transition { notice: Some(notice), action })
}

fn fail(error: Error) -> (made: (Session, Transition))
    ensures
        move_view(made) == model::fail(error@),
{
    ask(Session::Finished, Action::Fail { error })
}

/// Reads an event as the end of a run of `tool`: `None` if the tool has succeeded, else the
/// error.
pub fn verdict(tool: Tool, event: Event) -> (failure: Option<Error>)
    ensures
        failure_view(failure) == model::verdict(tool, event@),
{
    match event {
        Event::Ran { outcome } => if outcome.success {
            None
        } else {
            Some(Error::CommandFailed { tool, stderr: outcome.stderr })
        },
        Event::SpawnFailed { detail } => Some(Error::SpawnFailed { tool, detail }),
        _ => Some(Error::UnexpectedEvent),
    }
}

fn begin_create(account: AccountDirective, batch: bool) -> (begun: (Session, Transition))
    ensures
        move_view(begun) == model::create_begin(account@, batch),
{
    if has_nul(account.name.as_str()) {
        fail(Error::InvalidName { name: account.name })
    } else {
        let name = account.name.clone();
        ask(Session::CreateLookup { account, batch }, Action::Lookup { name })
    }
}

/// Begins the creation of an account. The session asks whether the account exists, creates it
/// if it does not, and fails if it does.
pub fn sftp_create_user(user_name: String, user_id: u32, user_group_id: u32, user_pass: String) -> (begun:
    (Session, Transition))
    ensures
        move_view(begun) == model::create_begin(
            AccountDirectiveView {
                name: user_name@,
                password: user_pass@,
                uid: user_id,
                gid: user_group_id,
            },
            false,
        ),
{
    begin_create(
        AccountDirective { name: user_name, password: user_pass, uid: user_id, gid: user_group_id },
        false,
    )
}

/// Begins the removal of an account. The session asks whether the account exists, removes it
/// with its home directory if it does, and fails if it does not.
pub fn sftp_delete_user(user_name: String, user_id: u32, user_group_id: u32) -> (begun: (
    Session,
    Transition,
))
    ensures
        move_view(begun) == model::delete_begin(
            AccountIdentityView { name: user_name@, uid: user_id, gid: user_group_id },
        ),
{
    if has_nul(user_name.as_str()) {
        fail(Error::InvalidName { name: user_name })
    } else {
        let name = user_name.clone();
        ask(
            Session::DeleteLookup {
                account: AccountIdentity { name: user_name, uid: user_id, gid: user_group_id },
            },
            Action::Lookup { name },
        )
    }
}

/// Begins the modification of an account. The session asks whether the account exists and
/// fails if it does not; else it changes the parts of the identity that are given, all in one
/// call, and after that, in a call of its own, the password if one is given.
pub fn sftp_modify_user(
    user_old_name: String,
    user_old_id: u32,
    user_old_group_id: u32,
    user_new_name: Option<String>,
    user_new_id: Option<u32>,
    user_new_group_id: Option<u32>,
    user_new_pass: Option<String>,
) -> (begun: (Session, Transition))
    ensures
        move_view(begun) == model::modify_begin(
            AccountIdentityView { name: user_old_name@, uid: user_old_id, gid: user_old_group_id },
            PartialAccountIdentityView {
                name: text_of(user_new_name),
                uid: user_new_id,
                gid: user_new_group_id,
            },
            text_of(user_new_pass),
        ),
{
    if has_nul(user_old_name.as_str()) {
        fail(Error::InvalidName { name: user_old_name })
    } else {
        let name = user_old_name.clone();
        ask(
            Session::ModifyLookup {
                old: AccountIdentity {
                    name: user_old_name,
                    uid: user_old_id,
                    gid: user_old_group_id,
                },
                new: PartialAccountIdentity {
                    name: user_new_name,
                    uid: user_new_id,
                    gid: user_new_group_id,
                },
                new_password: user_new_pass,
            },
            Action::Lookup { name },
        )
    }
}

/// Begins a start of the daemon.
pub fn sftp_start() -> (begun: (Session, Transition))
    ensures
        move_view(begun) == model::start_begin(),
{
    ask(Session::StartRun, Action::Run { invocation: start_invocation() })
}

/// Begins a stop of the daemon.
pub fn sftp_stop() -> (begun: (Session, Transition))
    ensures
        move_view(begun) == model::stop_begin(false),
{
    ask(Session::StopRun { restart: false }, Action::Run { invocation: stop_invocation() })
}

/// Begins a restart of the daemon: a stop, and a start once the stop has succeeded.
pub fn sftp_restart() -> (begun: (Session, Transition))
    ensures
        move_view(begun) == model::stop_begin(true),
{
    ask(Session::StopRun { restart: true }, Action::Run { invocation: stop_invocation() })
}

/// Begins a batch: every directive of the directive file is created, in the order of the
/// file, and then the daemon is started. The first failure ends the batch.
pub fn sftp_entry() -> (begun: (Session, Transition))
    ensures
        move_view(begun) == model::entry_begin(),
{
    ask(Session::PathCheck, Action::CheckPath)
}

/// The first move of the operation that `request` asks for.
pub open spec fn request_begin(request: AccountMutationRequest) -> Move {
    match request {
        AccountMutationRequest::Create { name, uid, gid, password } => model::create_begin(
            AccountDirectiveView { name: name@, password: password@, uid, gid },
            false,
        ),
        AccountMutationRequest::Delete { name, uid, gid } => model::delete_begin(
            AccountIdentityView { name: name@, uid, gid },
        ),
        AccountMutationRequest::Modify { old, new, new_password } => model::modify_begin(
            old@,
            new@,
            text_of(new_password),
        ),
    }
}

/// Begins the operation that `request` asks for.
pub fn apply(request: AccountMutationRequest) -> (begun: (Session, Transition))
    ensures
        move_view(begun) == request_begin(request),
{
    match request {
        AccountMutationRequest::Create { name, uid, gid, password } => sftp_create_user(
            name,
            uid,
            gid,
            password,
        ),
        AccountMutationRequest::Delete { name, uid, gid } => sftp_delete_user(name, uid, gid),
        AccountMutationRequest::Modify { old, new, new_password } => sftp_modify_user(
            old.name,
            old.uid,
            old.gid,
            new.name,
            new.uid,
            new.gid,
            new_password,
        ),
    }
}

/// The first move of the operation that `command` asks for.
pub open spec fn command_begin(command: ServiceCommand) -> Move {
    match command {
        ServiceCommand::Start => model::start_begin(),
        ServiceCommand::Stop => model::stop_begin(false),
        ServiceCommand::Restart => model::stop_begin(true),
    }
}

/// Begins the operation on the daemon that `command` asks for.
pub fn control(command: ServiceCommand) -> (begun: (Session, Transition))
    ensures
        move_view(begun) == command_begin(command),
{
    match command {
        ServiceCommand::Start => sftp_start(),
        ServiceCommand::Stop => sftp_stop(),
        ServiceCommand::Restart => sftp_restart(),
    }
}

fn on_line(text: String) -> (made: (Session, Transition))
    ensures
        move_view(made) == model::on_line(text@),
{
    match read_line(text.as_str()) {
        None => ask(Session::ReadLine, Action::ReadLine),
        Some(Ok(account)) => {
            let notice = Notice::Processing {
                account: AccountDirective {
                    name: account.name.clone(),
                    password: account.password.clone(),
                    uid: account.uid,
                    gid: account.gid,
                },
            };
            let begun = begin_create(account, true);
            tell(notice, begun.0, begun.1.action)
        },
        Some(Err(error)) => fail(error),
    }
}

fn after_create(account: AccountIdentity, batch: bool) -> (made: (Session, Transition))
    ensures
        move_view(made) == model::after_create(account@, batch),
{
    if batch {
        tell(Notice::Created { account }, Session::ReadLine, Action::ReadLine)
    } else {
        tell(Notice::Created { account }, Session::Finished, Action::Complete)
    }
}

fn after_modify(account: AccountIdentity, new_password: Option<String>) -> (made: (
    Session,
    Transition,
))
    ensures
        move_view(made) == model::after_modify(account@, text_of(new_password)),
{
    let changed = AccountIdentity {
        name: account.name.clone(),
        uid: account.uid,
        gid: account.gid,
    };
    match new_password {
        Some(password) => {
            let invocation = password_invocation(account.name.as_str(), password.as_str());
            tell(
                Notice::Modified { account: changed },
                Session::PasswordRun { account },
                Action::Run { invocation },
            )
        },
        None => tell(Notice::Modified { account: changed }, Session::Finished, Action::Complete),
    }
}

fn after_stop(restart: bool) -> (made: (Session, Transition))
    ensures
        move_view(made) == model::after_stop(restart),
{
    if restart {
        tell(Notice::Stopped, Session::StartRun, Action::Run { invocation: start_invocation() })
    } else {
        tell(Notice::Stopped, Session::Finished, Action::Complete)
    }
}

impl Session {
    /// Takes the caller's answer to the last action, and makes the session's next move.
    pub fn step(self, event: Event) -> (made: (Session, Transition))
        ensures
            move_view(made) == model::step(self@, event@),
    {
        match self {
            Session::PathCheck => match event {
                Event::PathChecked { exists } => if exists {
                    ask(Session::ReadLine, Action::ReadLine)
                } else {
                    fail(Error::PathNotFound)
                },
                _ => fail(Error::UnexpectedEvent),
            },
            Session::ReadLine => match event {
                Event::Line { text } => on_line(text),
                Event::EndOfInput => sftp_start(),
                Event::ReadFailed { detail } => fail(Error::ReadFailed { detail }),
                _ => fail(Error::UnexpectedEvent),
            },
            Session::CreateLookup { account, batch } => match event {
                Event::AccountChecked { exists } => if exists {
                    fail(Error::AlreadyExists { name: account.name })
                } else {
                    let invocation = create_invocation(
                        account.name.as_str(),
                        account.uid,
                        account.gid,
                        account.password.as_str(),
                    );
                    ask(
                        Session::CreateRun {
                            account: AccountIdentity {
                                name: account.name,
                                uid: account.uid,
                                gid: account.gid,
                            },
                            batch,
                        },
                        Action::Run { invocation },
                    )
                },
                _ => fail(Error::UnexpectedEvent),
            },
            Session::CreateRun { account, batch } => match verdict(Tool::UserAdd, event) {
                None => after_create(account, batch),
                Some(error) => fail(error),
            },
            Session::DeleteLookup { account } => match event {
                Event::AccountChecked { exists } => if exists {
                    let invocation = delete_invocation(account.name.as_str());
                    ask(Session::DeleteRun { account }, Action::Run { invocation })
                } else {
                    fail(Error::AccountNotFound { name: account.name })
                },
                _ => fail(Error::UnexpectedEvent),
            },
            Session::DeleteRun { account } => match verdict(Tool::UserDel, event) {
                None => tell(Notice::Deleted { account }, Session::Finished, Action::Complete),
                Some(error) => fail(error),
            },
            Session::ModifyLookup { old, new, new_password } => match event {
                Event::AccountChecked { exists } => if exists {
                    let invocation = modify_invocation(old.name.as_str(), &new);
                    ask(
                        Session::ModifyRun { account: new.applied_to(old), new_password },
                        Action::Run { invocation },
                    )
                } else {
                    fail(Error::AccountNotFound { name: old.name })
                },
                _ => fail(Error::UnexpectedEvent),
            },
            Session::ModifyRun { account, new_password } => match verdict(Tool::UserMod, event) {
                None => after_modify(account, new_password),
                Some(error) => fail(error),
            },
            Session::PasswordRun { account } => match verdict(Tool::ChPasswd, event) {
                None => tell(
                    Notice::PasswordChanged { account },
                    Session::Finished,
                    Action::Complete,
                ),
                Some(error) => fail(error),
            },
            Session::StopRun { restart } => match verdict(Tool::KillAll, event) {
                None => after_stop(restart),
                Some(error) => fail(error),
            },
            Session::StartRun => match verdict(Tool::Sshd, event) {
                None => tell(Notice::Started, Session::Finished, Action::Complete),
                Some(error) => fail(error),
            },
            Session::Finished => fail(Error::UnexpectedEvent),
        }
    }
}

} // verus!
