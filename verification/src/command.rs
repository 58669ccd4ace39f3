//! The outside tools, and the words with which the engine calls them.

use crate::account::{PartialAccountIdentity, PartialAccountIdentityView};
use crate::text::{decimal, decimal_text};
use vstd::prelude::*;

verus! {

/// The daemon and the tools that the engine has its caller run.
#[derive(Clone, Copy, Debug, PartialEq, Eq, Structural)]
pub enum Tool {
    /// Creates an account.
    UserAdd,
    /// Removes an account.
    UserDel,
    /// Changes the name or the numbers of an account.
    UserMod,
    /// Sets the password of an account.
    ChPasswd,
    /// The daemon that serves the accounts.
    Sshd,
    /// Signals every process of a given name.
    KillAll,
}

impl Tool {
    /// The name under which the tool is found on the machine.
    pub open spec fn program_text(self) -> Seq<char> {
        match self {
            Tool::UserAdd => "useradd"@,
            Tool::UserDel => "userdel"@,
            Tool::UserMod => "usermod"@,
            Tool::ChPasswd => "chpasswd"@,
            Tool::Sshd => "sshd"@,
            Tool::KillAll => "killall"@,
        }
    }

    /// The name under which the tool is found on the machine.
    pub fn program(self) -> (name: &'static str)
        ensures
            name@ == self.program_text(),
    {
        match self {
            Tool::UserAdd => "useradd",
            Tool::UserDel => "userdel",
            Tool::UserMod => "usermod",
            Tool::ChPasswd => "chpasswd",
            Tool::Sshd => "sshd",
            Tool::KillAll => "killall",
        }
    }
}

/// What the daemon is asked to do.
#[derive(Clone, Copy, Debug, PartialEq, Eq, Structural)]
pub enum ServiceCommand {
    Start,
    Stop,
    Restart,
}

/// How a tool that ran came to its end.
#[derive(Clone, Debug, PartialEq, Eq)]
pub struct ExecutionOutcome {
    /// The tool ended with status zero.
    pub success: bool,
    /// What the tool wrote to its error stream.
    pub stderr: Vec<u8>,
}

/// What an [`ExecutionOutcome`] holds, as mathematical values.
pub struct ExecutionOutcomeView {
    pub success: bool,
    pub stderr: Seq<u8>,
}

impl View for ExecutionOutcome {
    type V = ExecutionOutcomeView;

    open spec fn view(&self) -> ExecutionOutcomeView {
        ExecutionOutcomeView { success: self.success, stderr: self.stderr@ }
    }
}

/// One call of a tool: the tool and its arguments, in order.
#[derive(Clone, Debug, PartialEq, Eq)]
pub struct Invocation {
    pub tool: Tool,
    pub args: Vec<String>,
}

/// What an [`Invocation`] holds, as mathematical values.
pub struct InvocationView {
    pub tool: Tool,
    pub args: Seq<Seq<char>>,
}

impl View for Invocation {
    type V = InvocationView;

    open spec fn view(&self) -> InvocationView {
        InvocationView { tool: self.tool, args: self.args.deep_view() }
    }
}

/// The call that creates an account: with a home directory under `/home`, the two numbers as
/// given, and the password taken as already encrypted.
pub open spec fn create_call(
    name: Seq<char>,
    uid: u32,
    gid: u32,
    password: Seq<char>,
) -> InvocationView {
    InvocationView {
        tool: Tool::UserAdd,
        args: seq![
            "-m"@,
            "-u"@,
            decimal_text(uid as nat),
            "-g"@,
            decimal_text(gid as nat),
            "-d"@,
            "/home/"@ + name,
            "-p"@,
            password,
            name,
        ],
    }
}

/// The call that removes an account together with its home directory.
pub open spec fn delete_call(name: Seq<char>) -> InvocationView {
    InvocationView { tool: Tool::UserDel, args: seq!["-r"@, name] }
}

/// The arguments that give an account a new name, if there is one to give.
pub open spec fn rename_args(name: Option<Seq<char>>) -> Seq<Seq<char>> {
    match name {
        Some(name) => seq!["-l"@, name],
        None => seq![],
    }
}

/// The arguments that set the number behind `flag`, if there is one to set.
pub open spec fn number_args(flag: Seq<char>, number: Option<u32>) -> Seq<Seq<char>> {
    match number {
        Some(number) => seq![flag, decimal_text(number as nat)],
        None => seq![],
    }
}

/// The call that changes the identity of the account `old_name`: one pair of arguments for
/// each part that `new` replaces, none for a part that it leaves, then the account's name.
pub open spec fn modify_call(old_name: Seq<char>, new: PartialAccountIdentityView) -> InvocationView {
    InvocationView {
        tool: Tool::UserMod,
        args: rename_args(new.name) + number_args("-u"@, new.uid) + number_args("-g"@, new.gid)
            + seq![old_name],
    }
}

/// The call that sets the password, taken as already encrypted, of the account `name`.
pub open spec fn password_call(name: Seq<char>, password: Seq<char>) -> InvocationView {
    InvocationView { tool: Tool::ChPasswd, args: seq!["-e"@, name + ":"@ + password] }
}

/// The call that runs the daemon in the foreground, with its log on the error stream.
pub open spec fn start_call() -> InvocationView {
    InvocationView { tool: Tool::Sshd, args: seq!["-D"@, "-e"@] }
}

/// The call that signals every running daemon.
pub open spec fn stop_call() -> InvocationView {
    InvocationView { tool: Tool::KillAll, args: seq!["sshd"@] }
}

fn push_text(args: &mut Vec<String>, text: &str)
    ensures
        final(args).deep_view() == old(args).deep_view().push(text@),
{
    args.push(String::from_str(text));
    assert(args.deep_view() =~= old(args).deep_view().push(text@));
}

fn no_args() -> (args: Vec<String>)
    ensures
        args.deep_view() == Seq::<Seq<char>>::empty(),
{
    let args: Vec<String> = Vec::new();
    assert(args.deep_view() =~= Seq::<Seq<char>>::empty());
    args
}

/// Builds the call that creates an account.
pub fn create_invocation(name: &str, uid: u32, gid: u32, password: &str) -> (call: Invocation)
    ensures
        call@ == create_call(name@, uid, gid, password@),
{
    let mut home = String::from_str("/home/");
    home.append(name);
    let mut args = no_args();
    push_text(&mut args, "-m");
    push_text(&mut args, "-u");
    push_text(&mut args, decimal(uid).as_str());
    push_text(&mut args, "-g");
    push_text(&mut args, decimal(gid).as_str());
    push_text(&mut args, "-d");
    push_text(&mut args, home.as_str());
    push_text(&mut args, "-p");
    push_text(&mut args, password);
    push_text(&mut args, name);
    assert(args.deep_view() =~= create_call(name@, uid, gid, password@).args);
    Invocation { tool: Tool::UserAdd, args }
}

/// Builds the call that removes an account.
pub fn delete_invocation(name: &str) -> (call: Invocation)
    ensures
        call@ == delete_call(name@),
{
    let mut args = no_args();
    push_text(&mut args, "-r");
    push_text(&mut args, name);
    assert(args.deep_view() =~= delete_call(name@).args);
    Invocation { tool: Tool::UserDel, args }
}

/// Builds the call that changes the identity of the account `old_name`.
pub fn modify_invocation(old_name: &str, new: &PartialAccountIdentity) -> (call: Invocation)
    ensures
        call@ == modify_call(old_name@, new@),
{
    let mut args = no_args();
    match &new.name {
        Some(name) => {
            push_text(&mut args, "-l");
            push_text(&mut args, name.as_str());
        },
        None => {},
    }
    assert(args.deep_view() =~= rename_args(new@.name));
    match new.uid {
        Some(uid) => {
            push_text(&mut args, "-u");
            push_text(&mut args, decimal(uid).as_str());
        },
        None => {},
    }
    assert(args.deep_view() =~= rename_args(new@.name) + number_args("-u"@, new@.uid));
    match new.gid {
        Some(gid) => {
            push_text(&mut args, "-g");
            push_text(&mut args, decimal(gid).as_str());
        },
        None => {},
    }
    assert(args.deep_view() =~= rename_args(new@.name) + number_args("-u"@, new@.uid)
        + number_args("-g"@, new@.gid));
    push_text(&mut args, old_name);
    assert(args.deep_view() =~= modify_call(old_name@, new@).args);
    Invocation { tool: Tool::UserMod, args }
}

/// Builds the call that sets the password of the account `name`.
pub fn password_invocation(name: &str, password: &str) -> (call: Invocation)
    ensures
        call@ == password_call(name@, password@),
{
    let mut entry = String::from_str(name);
    entry.append(":");
    entry.append(password);
    let mut args = no_args();
    push_text(&mut args, "-e");
    push_text(&mut args, entry.as_str());
    assert(args.deep_view() =~= password_call(name@, password@).args);
    Invocation { tool: Tool::ChPasswd, args }
}

/// Builds the call that runs the daemon.
pub fn start_invocation() -> (call: Invocation)
    ensures
        call@ == start_call(),
{
    let mut args = no_args();
    push_text(&mut args, "-D");
    push_text(&mut args, "-e");
    assert(args.deep_view() =~= start_call().args);
    Invocation { tool: Tool::Sshd, args }
}

/// Builds the call that stops the daemon.
pub fn stop_invocation() -> (call: Invocation)
    ensures
        call@ == stop_call(),
{
    let mut args = no_args();
    push_text(&mut args, "sshd");
    assert(args.deep_view() =~= stop_call().args);
    Invocation { tool: Tool::KillAll, args }
}

} // verus!
