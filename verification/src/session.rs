//! Sessions: what an operation asks of its caller, and what it makes of the answers.

use crate::account::{
    text_of, AccountDirective, AccountDirectiveView, AccountIdentity, AccountIdentityView,
    PartialAccountIdentity, PartialAccountIdentityView,
};
use crate::command::{ExecutionOutcome, ExecutionOutcomeView, Invocation, InvocationView};
use crate::error::{Error, ErrorView};
use vstd::prelude::*;

verus! {

/// Something that the caller may want to tell its user.
#[derive(Clone, Debug, PartialEq, Eq)]
pub enum Notice {
    /// The batch has read this directive and is about to act on it.
    Processing { account: AccountDirective },
    /// The account was created.
    Created { account: AccountIdentity },
    /// The account was removed.
    Deleted { account: AccountIdentity },
    /// The identity of an account was changed; `account` is the identity that it has now.
    Modified { account: AccountIdentity },
    /// The password of the account was set.
    PasswordChanged { account: AccountIdentity },
    /// The daemon was launched.
    Started,
    /// The daemon was signalled.
    Stopped,
}

/// What a [`Notice`] holds, as mathematical values.
pub enum NoticeView {
    Processing { account: AccountDirectiveView },
    Created { account: AccountIdentityView },
    Deleted { account: AccountIdentityView },
    Modified { account: AccountIdentityView },
    PasswordChanged { account: AccountIdentityView },
    Started,
    Stopped,
}

impl View for Notice {
    type V = NoticeView;

    open spec fn view(&self) -> NoticeView {
        match *self {
            Notice::Processing { account } => NoticeView::Processing { account: account@ },
            Notice::Created { account } => NoticeView::Created { account: account@ },
            Notice::Deleted { account } => NoticeView::Deleted { account: account@ },
            Notice::Modified { account } => NoticeView::Modified { account: account@ },
            Notice::PasswordChanged { account } => NoticeView::PasswordChanged {
                account: account@,
            },
            Notice::Started => NoticeView::Started,
            Notice::Stopped => NoticeView::Stopped,
        }
    }
}

/// What a session asks its caller to do next.
#[derive(Clone, Debug, PartialEq, Eq)]
pub enum Action {
    /// Find out whether the directive file exists; answer with [`Event::PathChecked`].
    CheckPath,
    /// Read the next line of the directive file, without its line ending; answer with
    /// [`Event::Line`], [`Event::EndOfInput`] or [`Event::ReadFailed`].
    ReadLine,
    /// Ask the account database whether `name` exists; answer with [`Event::AccountChecked`].
    Lookup { name: String },
    /// Run the tool and wait for its end; answer with [`Event::Ran`] or [`Event::SpawnFailed`].
    Run { invocation: Invocation },
    /// Nothing: the operation has succeeded.
    Complete,
    /// Nothing: the operation has failed.
    Fail { error: Error },
}

/// What an [`Action`] holds, as mathematical values.
pub enum ActionView {
    CheckPath,
    ReadLine,
    Lookup { name: Seq<char> },
    Run { invocation: InvocationView },
    Complete,
    Fail { error: ErrorView },
}

impl View for Action {
    type V = ActionView;

    open spec fn view(&self) -> ActionView {
        match *self {
            Action::CheckPath => ActionView::CheckPath,
            Action::ReadLine => ActionView::ReadLine,
            Action::Lookup { name } => ActionView::Lookup { name: name@ },
            Action::Run { invocation } => ActionView::Run { invocation: invocation@ },
            Action::Complete => ActionView::Complete,
            Action::Fail { error } => ActionView::Fail { error: error@ },
        }
    }
}

/// One move of a session: at most one notice, and the next action.
#[derive(Clone, Debug, PartialEq, Eq)]
pub struct Transition {
    pub notice: Option<Notice>,
    pub action: Action,
}

/// What a [`Transition`] holds, as mathematical values.
pub struct TransitionView {
    pub notice: Option<NoticeView>,
    pub action: ActionView,
}

/// What an optional notice holds, as mathematical values.
pub open spec fn notice_view(notice: Option<Notice>) -> Option<NoticeView> {
    match notice {
        Some(notice) => Some(notice@),
        None => None,
    }
}

impl View for Transition {
    type V = TransitionView;

    open spec fn view(&self) -> TransitionView {
        TransitionView { notice: notice_view(self.notice), action: self.action@ }
    }
}

/// How the caller fared with the last action.
#[derive(Clone, Debug, PartialEq, Eq)]
pub enum Event {
    /// Whether the directive file exists.
    PathChecked { exists: bool },
    /// The next line of the directive file.
    Line { text: String },
    /// The directive file has no further line.
    EndOfInput,
    /// The directive file could not be opened or read.
    ReadFailed { detail: String },
    /// Whether the account database holds the name that was asked for.
    AccountChecked { exists: bool },
    /// The tool ran and came to its end.
    Ran { outcome: ExecutionOutcome },
    /// The tool could not be started.
    SpawnFailed { detail: String },
}

/// What an [`Event`] holds, as mathematical values.
pub enum EventView {
    PathChecked { exists: bool },
    Line { text: Seq<char> },
    EndOfInput,
    ReadFailed { detail: Seq<char> },
    AccountChecked { exists: bool },
    Ran { outcome: ExecutionOutcomeView },
    SpawnFailed { detail: Seq<char> },
}

impl View for Event {
    type V = EventView;

    open spec fn view(&self) -> EventView {
        match *self {
            Event::PathChecked { exists } => EventView::PathChecked { exists },
            Event::Line { text } => EventView::Line { text: text@ },
            Event::EndOfInput => EventView::EndOfInput,
            Event::ReadFailed { detail } => EventView::ReadFailed { detail: detail@ },
            Event::AccountChecked { exists } => EventView::AccountChecked { exists },
            Event::Ran { outcome } => EventView::Ran { outcome: outcome@ },
            Event::SpawnFailed { detail } => EventView::SpawnFailed { detail: detail@ },
        }
    }
}

/// An operation under way: what it has asked for last, and what it needs to go on.
#[derive(Clone, Debug, PartialEq, Eq)]
pub enum Session {
    /// The batch has asked whether the directive file exists.
    PathCheck,
    /// The batch has asked for the next line.
    ReadLine,
    /// A creation has asked whether the account exists. `batch` tells whether the creation is
    /// one of a batch, which goes on with the next line.
    CreateLookup { account: AccountDirective, batch: bool },
    /// A creation has asked for the account to be created.
    CreateRun { account: AccountIdentity, batch: bool },
    /// A removal has asked whether the account exists.
    DeleteLookup { account: AccountIdentity },
    /// A removal has asked for the account to be removed.
    DeleteRun { account: AccountIdentity },
    /// A modification has asked whether the account exists.
    ModifyLookup { old: AccountIdentity, new: PartialAccountIdentity, new_password: Option<String> },
    /// A modification has asked for the identity to be changed. `account` is the identity
    /// after the change.
    ModifyRun { account: AccountIdentity, new_password: Option<String> },
    /// A modification has asked for the password to be set.
    PasswordRun { account: AccountIdentity },
    /// The daemon is being stopped. `restart` tells whether it is to be started again.
    StopRun { restart: bool },
    /// The daemon is being started.
    StartRun,
    /// The operation has ended.
    Finished,
}

/// What a [`Session`] holds, as mathematical values.
pub enum SessionView {
    PathCheck,
    ReadLine,
    CreateLookup { account: AccountDirectiveView, batch: bool },
    CreateRun { account: AccountIdentityView, batch: bool },
    DeleteLookup { account: AccountIdentityView },
    DeleteRun { account: AccountIdentityView },
    ModifyLookup {
        old: AccountIdentityView,
        new: PartialAccountIdentityView,
        new_password: Option<Seq<char>>,
    },
    ModifyRun { account: AccountIdentityView, new_password: Option<Seq<char>> },
    PasswordRun { account: AccountIdentityView },
    StopRun { restart: bool },
    StartRun,
    Finished,
}

impl View for Session {
    type V = SessionView;

    open spec fn view(&self) -> SessionView {
        match *self {
            Session::PathCheck => SessionView::PathCheck,
            Session::ReadLine => SessionView::ReadLine,
            Session::CreateLookup { account, batch } => SessionView::CreateLookup {
                account: account@,
                batch,
            },
            Session::CreateRun { account, batch } => SessionView::CreateRun {
                account: account@,
                batch,
            },
            Session::DeleteLookup { account } => SessionView::DeleteLookup { account: account@ },
            Session::DeleteRun { account } => SessionView::DeleteRun { account: account@ },
            Session::ModifyLookup { old, new, new_password } => SessionView::ModifyLookup {
                old: old@,
                new: new@,
                new_password: text_of(new_password),
            },
            Session::ModifyRun { account, new_password } => SessionView::ModifyRun {
                account: account@,
                new_password: text_of(new_password),
            },
            Session::PasswordRun { account } => SessionView::PasswordRun { account: account@ },
            Session::StopRun { restart } => SessionView::StopRun { restart },
            Session::StartRun => SessionView::StartRun,
            Session::Finished => SessionView::Finished,
        }
    }
}

} // verus!
