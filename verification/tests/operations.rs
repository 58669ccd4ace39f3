use sftp_provision::{
    apply, control, sftp_create_user, sftp_delete_user, sftp_modify_user, sftp_restart,
    sftp_start, sftp_stop, AccountIdentity, AccountMutationRequest, Action, Error, ErrorKind,
    Event, ExecutionOutcome, Invocation, Notice, PartialAccountIdentity, ServiceCommand, Session,
    Tool, Transition,
};

/// A machine that exists only in memory: the accounts it holds, whether its daemon runs, and
/// what it was asked to do.
struct Machine {
    accounts: Vec<String>,
    daemon_runs: bool,
    missing_tools: Vec<Tool>,
    failing_tools: Vec<Tool>,
    lookups: Vec<String>,
    calls: Vec<Invocation>,
    notices: Vec<Notice>,
}

impl Machine {
    fn with_accounts(names: &[&str]) -> Machine {
        Machine {
            accounts: names.iter().map(|name| name.to_string()).collect(),
            daemon_runs: false,
            missing_tools: vec![],
            failing_tools: vec![],
            lookups: vec![],
            calls: vec![],
            notices: vec![],
        }
    }

    fn run(&mut self, invocation: Invocation) -> Event {
        let tool = invocation.tool;
        let args = invocation.args.clone();
        self.calls.push(invocation);
        if self.missing_tools.contains(&tool) {
            return Event::SpawnFailed { detail: "No such file or directory (os error 2)".to_string() };
        }
        if self.failing_tools.contains(&tool) {
            let stderr = format!("{}: failed\n", tool.program()).into_bytes();
            return Event::Ran { outcome: ExecutionOutcome { success: false, stderr } };
        }
        let last = args.last().unwrap().clone();
        let success = match tool {
            Tool::UserAdd => {
                self.accounts.push(last);
                true
            }
            Tool::UserDel => {
                self.accounts.retain(|name| *name != last);
                true
            }
            Tool::UserMod => {
                if args[0] == "-l" {
                    let new_name = args[1].clone();
                    for name in self.accounts.iter_mut() {
                        if *name == last {
                            *name = new_name.clone();
                        }
                    }
                }
                true
            }
            Tool::ChPasswd => true,
            Tool::Sshd => {
                self.daemon_runs = true;
                true
            }
            Tool::KillAll => {
                let ran = self.daemon_runs;
                self.daemon_runs = false;
                ran
            }
        };
        let stderr = if success { vec![] } else { b"sshd: no process found\n".to_vec() };
        Event::Ran { outcome: ExecutionOutcome { success, stderr } }
    }

    fn drive(&mut self, begun: (Session, Transition)) -> Result<(), Error> {
        let (mut session, mut transition) = begun;
        loop {
            if let Some(notice) = transition.notice {
                self.notices.push(notice);
            }
            let event = match transition.action {
                Action::Lookup { name } => {
                    let exists = self.accounts.contains(&name);
                    self.lookups.push(name);
                    Event::AccountChecked { exists }
                }
                Action::Run { invocation } => self.run(invocation),
                Action::Complete => {
                    assert_eq!(session, Session::Finished);
                    return Ok(());
                }
                Action::Fail { error } => {
                    assert_eq!(session, Session::Finished);
                    return Err(error);
                }
                Action::CheckPath | Action::ReadLine => panic!("no directive file here"),
            };
            let made = session.step(event);
            session = made.0;
            transition = made.1;
        }
    }
}

fn words(args: &[&str]) -> Vec<String> {
    args.iter().map(|arg| arg.to_string()).collect()
}

fn identity(name: &str, uid: u32, gid: u32) -> AccountIdentity {
    AccountIdentity { name: name.to_string(), uid, gid }
}

#[test]
fn create_asks_about_the_account_first() {
    let (session, transition) = sftp_create_user("alice".to_string(), 1001, 1001, "pw".to_string());
    assert_eq!(transition, Transition { notice: None, action: Action::Lookup { name: "alice".to_string() } });
    assert!(matches!(session, Session::CreateLookup { batch: false, .. }));
}

#[test]
fn create_on_absent_account_runs_useradd() {
    let mut machine = Machine::with_accounts(&["root"]);
    let result = machine.drive(sftp_create_user("alice".to_string(), 1001, 1002, "x1y2z3".to_string()));
    assert_eq!(result, Ok(()));
    assert_eq!(machine.lookups, words(&["alice"]));
    assert_eq!(
        machine.calls,
        vec![Invocation {
            tool: Tool::UserAdd,
            args: words(&["-m", "-u", "1001", "-g", "1002", "-d", "/home/alice", "-p", "x1y2z3", "alice"]),
        }]
    );
    assert_eq!(machine.notices, vec![Notice::Created { account: identity("alice", 1001, 1002) }]);
    assert_eq!(machine.accounts, words(&["root", "alice"]));
}

#[test]
fn create_on_existing_account_fails_without_a_call() {
    let mut machine = Machine::with_accounts(&["alice"]);
    let result = machine.drive(sftp_create_user("alice".to_string(), 1001, 1001, "pw".to_string()));
    assert_eq!(result, Err(Error::AlreadyExists { name: "alice".to_string() }));
    assert_eq!(result.unwrap_err().kind(), ErrorKind::AlreadyExists);
    assert_eq!(machine.lookups, words(&["alice"]));
    assert_eq!(machine.calls, vec![]);
    assert_eq!(machine.notices, vec![]);
}

#[test]
fn create_reports_what_useradd_wrote() {
    let mut machine = Machine::with_accounts(&[]);
    machine.failing_tools.push(Tool::UserAdd);
    let result = machine.drive(sftp_create_user("alice".to_string(), 1001, 1001, "pw".to_string()));
    assert_eq!(result, Err(Error::CommandFailed { tool: Tool::UserAdd, stderr: b"useradd: failed\n".to_vec() }));
    assert_eq!(machine.calls.len(), 1);
    assert_eq!(machine.notices, vec![]);
}

#[test]
fn create_reports_a_tool_that_cannot_start() {
    let mut machine = Machine::with_accounts(&[]);
    machine.missing_tools.push(Tool::UserAdd);
    let result = machine.drive(sftp_create_user("alice".to_string(), 1001, 1001, "pw".to_string()));
    let error = result.unwrap_err();
    assert_eq!(
        error,
        Error::SpawnFailed { tool: Tool::UserAdd, detail: "No such file or directory (os error 2)".to_string() }
    );
    assert_eq!(error.kind(), ErrorKind::IoError);
}

#[test]
fn create_refuses_a_name_with_a_nul() {
    let mut machine = Machine::with_accounts(&[]);
    let result = machine.drive(sftp_create_user("ali\0ce".to_string(), 1001, 1001, "pw".to_string()));
    let error = result.unwrap_err();
    assert_eq!(error, Error::InvalidName { name: "ali\0ce".to_string() });
    assert_eq!(error.kind(), ErrorKind::InvalidInput);
    assert_eq!(machine.lookups, Vec::<String>::new());
    assert_eq!(machine.calls, vec![]);
}

#[test]
fn delete_on_existing_account_runs_userdel() {
    let mut machine = Machine::with_accounts(&["alice", "bob"]);
    let result = machine.drive(sftp_delete_user("alice".to_string(), 1001, 1001));
    assert_eq!(result, Ok(()));
    assert_eq!(machine.lookups, words(&["alice"]));
    assert_eq!(machine.calls, vec![Invocation { tool: Tool::UserDel, args: words(&["-r", "alice"]) }]);
    assert_eq!(machine.notices, vec![Notice::Deleted { account: identity("alice", 1001, 1001) }]);
    assert_eq!(machine.accounts, words(&["bob"]));
}

#[test]
fn delete_on_missing_account_fails_without_a_call() {
    let mut machine = Machine::with_accounts(&["bob"]);
    let result = machine.drive(sftp_delete_user("alice".to_string(), 1001, 1001));
    let error = result.unwrap_err();
    assert_eq!(error, Error::AccountNotFound { name: "alice".to_string() });
    assert_eq!(error.kind(), ErrorKind::NotFound);
    assert_eq!(machine.calls, vec![]);
    assert_eq!(machine.accounts, words(&["bob"]));
}

#[test]
fn delete_reports_what_userdel_wrote() {
    let mut machine = Machine::with_accounts(&["alice"]);
    machine.failing_tools.push(Tool::UserDel);
    let result = machine.drive(sftp_delete_user("alice".to_string(), 1001, 1001));
    assert_eq!(result, Err(Error::CommandFailed { tool: Tool::UserDel, stderr: b"userdel: failed\n".to_vec() }));
}

#[test]
fn delete_refuses_a_name_with_a_nul() {
    let mut machine = Machine::with_accounts(&[]);
    let result = machine.drive(sftp_delete_user("\0".to_string(), 1, 1));
    assert_eq!(result, Err(Error::InvalidName { name: "\0".to_string() }));
    assert_eq!(machine.lookups, Vec::<String>::new());
}

#[test]
fn create_then_delete_restores_the_accounts() {
    let mut machine = Machine::with_accounts(&["root", "bob"]);
    let before = machine.accounts.clone();
    assert_eq!(machine.drive(sftp_create_user("alice".to_string(), 1001, 1001, "pw".to_string())), Ok(()));
    assert_ne!(machine.accounts, before);
    assert_eq!(machine.drive(sftp_delete_user("alice".to_string(), 1001, 1001)), Ok(()));
    assert_eq!(machine.accounts, before);
    assert_eq!(machine.calls.len(), 2);
    assert_eq!(machine.calls[0].tool, Tool::UserAdd);
    assert_eq!(machine.calls[0].args.last(), Some(&"alice".to_string()));
    assert_eq!(machine.calls[1], Invocation { tool: Tool::UserDel, args: words(&["-r", "alice"]) });
}

#[test]
fn modify_on_missing_account_fails_without_a_call() {
    let mut machine = Machine::with_accounts(&["bob"]);
    let result = machine.drive(sftp_modify_user(
        "alice".to_string(),
        1001,
        1001,
        Some("alicia".to_string()),
        Some(2001),
        None,
        Some("secret".to_string()),
    ));
    let error = result.unwrap_err();
    assert_eq!(error, Error::AccountNotFound { name: "alice".to_string() });
    assert_eq!(error.kind(), ErrorKind::NotFound);
    assert_eq!(machine.lookups, words(&["alice"]));
    assert_eq!(machine.calls, vec![]);
}

#[test]
fn modify_with_only_a_password_runs_two_tools() {
    let mut machine = Machine::with_accounts(&["alice"]);
    let result = machine.drive(sftp_modify_user(
        "alice".to_string(),
        1001,
        1002,
        None,
        None,
        None,
        Some("$6$new".to_string()),
    ));
    assert_eq!(result, Ok(()));
    assert_eq!(
        machine.calls,
        vec![
            Invocation { tool: Tool::UserMod, args: words(&["alice"]) },
            Invocation { tool: Tool::ChPasswd, args: words(&["-e", "alice:$6$new"]) },
        ]
    );
    assert_eq!(
        machine.notices,
        vec![
            Notice::Modified { account: identity("alice", 1001, 1002) },
            Notice::PasswordChanged { account: identity("alice", 1001, 1002) },
        ]
    );
}

#[test]
fn modify_sets_the_password_under_the_new_name() {
    let mut machine = Machine::with_accounts(&["alice"]);
    let result = machine.drive(sftp_modify_user(
        "alice".to_string(),
        1001,
        1002,
        Some("alicia".to_string()),
        Some(2001),
        Some(2002),
        Some("pw".to_string()),
    ));
    assert_eq!(result, Ok(()));
    assert_eq!(
        machine.calls,
        vec![
            Invocation {
                tool: Tool::UserMod,
                args: words(&["-l", "alicia", "-u", "2001", "-g", "2002", "alice"]),
            },
            Invocation { tool: Tool::ChPasswd, args: words(&["-e", "alicia:pw"]) },
        ]
    );
    assert_eq!(
        machine.notices,
        vec![
            Notice::Modified { account: identity("alicia", 2001, 2002) },
            Notice::PasswordChanged { account: identity("alicia", 2001, 2002) },
        ]
    );
    assert_eq!(machine.accounts, words(&["alicia"]));
}

#[test]
fn modify_without_a_password_runs_one_tool() {
    let mut machine = Machine::with_accounts(&["alice"]);
    let result =
        machine.drive(sftp_modify_user("alice".to_string(), 1001, 1002, None, Some(3000), None, None));
    assert_eq!(result, Ok(()));
    assert_eq!(machine.calls, vec![Invocation { tool: Tool::UserMod, args: words(&["-u", "3000", "alice"]) }]);
    assert_eq!(machine.notices, vec![Notice::Modified { account: identity("alice", 3000, 1002) }]);
}

#[test]
fn modify_skips_the_password_when_the_identity_step_fails() {
    let mut machine = Machine::with_accounts(&["alice"]);
    machine.failing_tools.push(Tool::UserMod);
    let result = machine.drive(sftp_modify_user(
        "alice".to_string(),
        1001,
        1002,
        Some("alicia".to_string()),
        None,
        None,
        Some("pw".to_string()),
    ));
    assert_eq!(result, Err(Error::CommandFailed { tool: Tool::UserMod, stderr: b"usermod: failed\n".to_vec() }));
    assert_eq!(machine.calls.len(), 1);
    assert_eq!(machine.notices, vec![]);
}

#[test]
fn modify_tells_which_step_failed() {
    let mut machine = Machine::with_accounts(&["alice"]);
    machine.failing_tools.push(Tool::ChPasswd);
    let result = machine.drive(sftp_modify_user(
        "alice".to_string(),
        1001,
        1002,
        Some("alicia".to_string()),
        None,
        None,
        Some("pw".to_string()),
    ));
    assert_eq!(result, Err(Error::CommandFailed { tool: Tool::ChPasswd, stderr: b"chpasswd: failed\n".to_vec() }));
    assert_eq!(machine.calls.len(), 2);
    assert_eq!(machine.notices, vec![Notice::Modified { account: identity("alicia", 1001, 1002) }]);
    assert_eq!(machine.accounts, words(&["alicia"]));
}

#[test]
fn start_runs_the_daemon() {
    let mut machine = Machine::with_accounts(&[]);
    assert_eq!(machine.drive(sftp_start()), Ok(()));
    assert_eq!(machine.calls, vec![Invocation { tool: Tool::Sshd, args: words(&["-D", "-e"]) }]);
    assert_eq!(machine.notices, vec![Notice::Started]);
}

#[test]
fn start_reports_a_daemon_that_fails() {
    let mut machine = Machine::with_accounts(&[]);
    machine.failing_tools.push(Tool::Sshd);
    assert_eq!(
        machine.drive(sftp_start()),
        Err(Error::CommandFailed { tool: Tool::Sshd, stderr: b"sshd: failed\n".to_vec() })
    );
    assert_eq!(machine.notices, vec![]);
}

#[test]
fn stop_signals_a_running_daemon() {
    let mut machine = Machine::with_accounts(&[]);
    machine.daemon_runs = true;
    assert_eq!(machine.drive(sftp_stop()), Ok(()));
    assert_eq!(machine.calls, vec![Invocation { tool: Tool::KillAll, args: words(&["sshd"]) }]);
    assert_eq!(machine.notices, vec![Notice::Stopped]);
    assert!(!machine.daemon_runs);
}

#[test]
fn stop_fails_when_no_daemon_runs() {
    let mut machine = Machine::with_accounts(&[]);
    let error = machine.drive(sftp_stop()).unwrap_err();
    assert_eq!(error, Error::CommandFailed { tool: Tool::KillAll, stderr: b"sshd: no process found\n".to_vec() });
    assert_eq!(error.kind(), ErrorKind::CommandFailed);
}

#[test]
fn restart_stops_then_starts() {
    let mut machine = Machine::with_accounts(&[]);
    machine.daemon_runs = true;
    assert_eq!(machine.drive(sftp_restart()), Ok(()));
    assert_eq!(
        machine.calls,
        vec![
            Invocation { tool: Tool::KillAll, args: words(&["sshd"]) },
            Invocation { tool: Tool::Sshd, args: words(&["-D", "-e"]) },
        ]
    );
    assert_eq!(machine.notices, vec![Notice::Stopped, Notice::Started]);
    assert!(machine.daemon_runs);
}

#[test]
fn restart_without_a_running_daemon_fails_and_does_not_start() {
    let mut machine = Machine::with_accounts(&[]);
    let error = machine.drive(sftp_restart()).unwrap_err();
    assert_eq!(error, Error::CommandFailed { tool: Tool::KillAll, stderr: b"sshd: no process found\n".to_vec() });
    assert_eq!(machine.calls, vec![Invocation { tool: Tool::KillAll, args: words(&["sshd"]) }]);
    assert_eq!(machine.notices, vec![]);
    assert!(!machine.daemon_runs);
}

#[test]
fn restart_reports_a_stop_that_cannot_be_spawned() {
    let mut machine = Machine::with_accounts(&[]);
    machine.daemon_runs = true;
    machine.missing_tools.push(Tool::KillAll);
    let error = machine.drive(sftp_restart()).unwrap_err();
    assert_eq!(error.kind(), ErrorKind::IoError);
    assert_eq!(machine.calls.len(), 1);
}

#[test]
fn apply_begins_the_operation_that_is_asked_for() {
    let create = AccountMutationRequest::Create {
        name: "alice".to_string(),
        uid: 1,
        gid: 2,
        password: "pw".to_string(),
    };
    assert_eq!(apply(create), sftp_create_user("alice".to_string(), 1, 2, "pw".to_string()));
    let delete = AccountMutationRequest::Delete { name: "alice".to_string(), uid: 1, gid: 2 };
    assert_eq!(apply(delete), sftp_delete_user("alice".to_string(), 1, 2));
    let modify = AccountMutationRequest::Modify {
        old: identity("alice", 1, 2),
        new: PartialAccountIdentity { name: Some("bob".to_string()), uid: None, gid: Some(3) },
        new_password: Some("pw".to_string()),
    };
    assert_eq!(
        apply(modify),
        sftp_modify_user("alice".to_string(), 1, 2, Some("bob".to_string()), None, Some(3), Some("pw".to_string()))
    );
}

#[test]
fn control_begins_the_operation_on_the_daemon() {
    assert_eq!(control(ServiceCommand::Start), sftp_start());
    assert_eq!(control(ServiceCommand::Stop), sftp_stop());
    assert_eq!(control(ServiceCommand::Restart), sftp_restart());
    assert_ne!(sftp_stop(), sftp_restart());
}

#[test]
fn an_answer_that_was_not_asked_for_ends_the_session() {
    let (session, _) = sftp_create_user("alice".to_string(), 1, 1, "pw".to_string());
    let made = session.step(Event::EndOfInput);
    assert_eq!(
        made,
        (Session::Finished, Transition { notice: None, action: Action::Fail { error: Error::UnexpectedEvent } })
    );
    let (session, _) = sftp_start();
    let made = session.step(Event::AccountChecked { exists: true });
    assert_eq!(made.0, Session::Finished);
    assert_eq!(made.1.action, Action::Fail { error: Error::UnexpectedEvent });
}

#[test]
fn a_finished_session_asks_for_nothing_more() {
    let mut machine = Machine::with_accounts(&[]);
    let (session, transition) = sftp_start();
    let Action::Run { invocation } = transition.action else { panic!("start asks for a tool") };
    let (session, transition) = session.step(machine.run(invocation));
    assert_eq!(transition, Transition { notice: Some(Notice::Started), action: Action::Complete });
    let outcome = ExecutionOutcome { success: true, stderr: vec![] };
    let (session, transition) = session.step(Event::Ran { outcome });
    assert_eq!(session, Session::Finished);
    assert_eq!(transition, Transition { notice: None, action: Action::Fail { error: Error::UnexpectedEvent } });
}
