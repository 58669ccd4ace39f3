use sftp_provision::{
    sftp_entry, AccountDirective, AccountIdentity, Action, Error, ErrorKind, Event,
    ExecutionOutcome, Invocation, Notice, Session, Tool, Transition,
};

/// A machine that exists only in memory, with a directive file on it.
struct Machine {
    file: Option<Vec<String>>,
    unreadable_from: Option<usize>,
    accounts: Vec<String>,
    failing_tools: Vec<Tool>,
    lines_read: usize,
    lookups: Vec<String>,
    calls: Vec<Invocation>,
    notices: Vec<Notice>,
}

impl Machine {
    fn with_file(lines: &[&str]) -> Machine {
        Machine {
            file: Some(lines.iter().map(|line| line.to_string()).collect()),
            unreadable_from: None,
            accounts: vec![],
            failing_tools: vec![],
            lines_read: 0,
            lookups: vec![],
            calls: vec![],
            notices: vec![],
        }
    }

    fn perform(&mut self, action: Action) -> Event {
        match action {
            Action::CheckPath => Event::PathChecked { exists: self.file.is_some() },
            Action::ReadLine => {
                let lines = self.file.as_ref().unwrap();
                if self.unreadable_from == Some(self.lines_read) {
                    return Event::ReadFailed { detail: "stream did not contain valid UTF-8".to_string() };
                }
                if self.lines_read == lines.len() {
                    return Event::EndOfInput;
                }
                self.lines_read += 1;
                Event::Line { text: lines[self.lines_read - 1].clone() }
            }
            Action::Lookup { name } => {
                let exists = self.accounts.contains(&name);
                self.lookups.push(name);
                Event::AccountChecked { exists }
            }
            Action::Run { invocation } => {
                let tool = invocation.tool;
                let name = invocation.args.last().unwrap().clone();
                self.calls.push(invocation);
                if self.failing_tools.contains(&tool) {
                    let stderr = format!("{}: failed\n", tool.program()).into_bytes();
                    return Event::Ran { outcome: ExecutionOutcome { success: false, stderr } };
                }
                if tool == Tool::UserAdd {
                    self.accounts.push(name);
                }
                Event::Ran { outcome: ExecutionOutcome { success: true, stderr: vec![] } }
            }
            Action::Complete | Action::Fail { .. } => unreachable!(),
        }
    }

    fn drive(&mut self, begun: (Session, Transition)) -> Result<(), Error> {
        let (mut session, mut transition) = begun;
        loop {
            if let Some(notice) = transition.notice {
                self.notices.push(notice);
            }
            let event = match transition.action {
                Action::Complete => return Ok(()),
                Action::Fail { error } => return Err(error),
                action => self.perform(action),
            };
            let made = session.step(event);
            session = made.0;
            transition = made.1;
        }
    }

    fn starts(&self) -> usize {
        self.calls.iter().filter(|call| call.tool == Tool::Sshd).count()
    }
}

fn words(args: &[&str]) -> Vec<String> {
    args.iter().map(|arg| arg.to_string()).collect()
}

fn directive(name: &str, password: &str, uid: u32, gid: u32) -> AccountDirective {
    AccountDirective { name: name.to_string(), password: password.to_string(), uid, gid }
}

fn identity(name: &str, uid: u32, gid: u32) -> AccountIdentity {
    AccountIdentity { name: name.to_string(), uid, gid }
}

fn useradd(name: &str, uid: &str, gid: &str, password: &str) -> Invocation {
    let home = format!("/home/{}", name);
    Invocation {
        tool: Tool::UserAdd,
        args: words(&["-m", "-u", uid, "-g", gid, "-d", &home, "-p", password, name]),
    }
}

fn sshd() -> Invocation {
    Invocation { tool: Tool::Sshd, args: words(&["-D", "-e"]) }
}

#[test]
fn entry_asks_for_the_path_first() {
    assert_eq!(sftp_entry(), (Session::PathCheck, Transition { notice: None, action: Action::CheckPath }));
}

#[test]
fn entry_fails_when_the_file_is_missing() {
    let mut machine = Machine::with_file(&[]);
    machine.file = None;
    let error = machine.drive(sftp_entry()).unwrap_err();
    assert_eq!(error, Error::PathNotFound);
    assert_eq!(error.kind(), ErrorKind::NotFound);
    assert_eq!(machine.calls, vec![]);
}

#[test]
fn entry_with_an_empty_file_starts_the_daemon() {
    let mut machine = Machine::with_file(&[]);
    assert_eq!(machine.drive(sftp_entry()), Ok(()));
    assert_eq!(machine.calls, vec![sshd()]);
    assert_eq!(machine.notices, vec![Notice::Started]);
}

#[test]
fn entry_with_only_blank_lines_starts_the_daemon_once() {
    let mut machine = Machine::with_file(&["", "   ", "\t", "\u{a0}\u{2003}", ""]);
    assert_eq!(machine.drive(sftp_entry()), Ok(()));
    assert_eq!(machine.lines_read, 5);
    assert_eq!(machine.lookups, Vec::<String>::new());
    assert_eq!(machine.calls, vec![sshd()]);
    assert_eq!(machine.starts(), 1);
}

#[test]
fn entry_creates_every_account_in_file_order_then_starts() {
    let mut machine = Machine::with_file(&["alice:a:1001:1001", "", "bob:b:1002:2002", "carol:c:1003:1003"]);
    assert_eq!(machine.drive(sftp_entry()), Ok(()));
    assert_eq!(machine.lookups, words(&["alice", "bob", "carol"]));
    assert_eq!(
        machine.calls,
        vec![
            useradd("alice", "1001", "1001", "a"),
            useradd("bob", "1002", "2002", "b"),
            useradd("carol", "1003", "1003", "c"),
            sshd(),
        ]
    );
    assert_eq!(
        machine.notices,
        vec![
            Notice::Processing { account: directive("alice", "a", 1001, 1001) },
            Notice::Created { account: identity("alice", 1001, 1001) },
            Notice::Processing { account: directive("bob", "b", 1002, 2002) },
            Notice::Created { account: identity("bob", 1002, 2002) },
            Notice::Processing { account: directive("carol", "c", 1003, 1003) },
            Notice::Created { account: identity("carol", 1003, 1003) },
            Notice::Started,
        ]
    );
}

#[test]
fn entry_stops_at_an_account_that_exists() {
    let mut machine = Machine::with_file(&["alice:a:1001:1001", "bob:b:1002:1002", "carol:c:1003:1003"]);
    machine.accounts.push("bob".to_string());
    let error = machine.drive(sftp_entry()).unwrap_err();
    assert_eq!(error, Error::AlreadyExists { name: "bob".to_string() });
    assert_eq!(error.kind(), ErrorKind::AlreadyExists);
    assert_eq!(machine.calls, vec![useradd("alice", "1001", "1001", "a")]);
    assert_eq!(machine.lookups, words(&["alice", "bob"]));
    assert_eq!(machine.lines_read, 2);
    assert_eq!(machine.starts(), 0);
    assert_eq!(machine.accounts, words(&["bob", "alice"]));
    assert_eq!(
        machine.notices,
        vec![
            Notice::Processing { account: directive("alice", "a", 1001, 1001) },
            Notice::Created { account: identity("alice", 1001, 1001) },
            Notice::Processing { account: directive("bob", "b", 1002, 1002) },
        ]
    );
}

#[test]
fn entry_stops_at_a_malformed_directive() {
    let mut machine = Machine::with_file(&["alice:a:1001:1001", "bob:b:1002", "carol:c:1003:1003"]);
    let error = machine.drive(sftp_entry()).unwrap_err();
    assert_eq!(error, Error::MalformedDirective { line: "bob:b:1002".to_string() });
    assert_eq!(error.kind(), ErrorKind::InvalidInput);
    assert_eq!(machine.calls, vec![useradd("alice", "1001", "1001", "a")]);
    assert_eq!(machine.lookups, words(&["alice"]));
    assert_eq!(machine.starts(), 0);
}

#[test]
fn entry_never_creates_an_account_from_a_malformed_first_line() {
    for line in ["alice:pw:abc:1001", "alice:pw:1001", "alice", ":pw:1:1", "alice:pw:1:1:1"] {
        let mut machine = Machine::with_file(&[line, "bob:b:1002:1002"]);
        let error = machine.drive(sftp_entry()).unwrap_err();
        assert_eq!(error, Error::MalformedDirective { line: line.to_string() });
        assert_eq!(machine.lookups, Vec::<String>::new());
        assert_eq!(machine.calls, vec![]);
    }
}

#[test]
fn entry_stops_when_useradd_fails() {
    let mut machine = Machine::with_file(&["alice:a:1001:1001", "bob:b:1002:1002"]);
    machine.failing_tools.push(Tool::UserAdd);
    let error = machine.drive(sftp_entry()).unwrap_err();
    assert_eq!(error, Error::CommandFailed { tool: Tool::UserAdd, stderr: b"useradd: failed\n".to_vec() });
    assert_eq!(machine.calls.len(), 1);
    assert_eq!(machine.lines_read, 1);
}

#[test]
fn entry_stops_when_the_file_cannot_be_read() {
    let mut machine = Machine::with_file(&["alice:a:1001:1001", "bob:b:1002:1002"]);
    machine.unreadable_from = Some(1);
    let error = machine.drive(sftp_entry()).unwrap_err();
    assert_eq!(error, Error::ReadFailed { detail: "stream did not contain valid UTF-8".to_string() });
    assert_eq!(error.kind(), ErrorKind::IoError);
    assert_eq!(machine.calls, vec![useradd("alice", "1001", "1001", "a")]);
    assert_eq!(machine.starts(), 0);
}

#[test]
fn entry_reports_a_daemon_that_fails() {
    let mut machine = Machine::with_file(&["alice:a:1001:1001"]);
    machine.failing_tools.push(Tool::Sshd);
    let error = machine.drive(sftp_entry()).unwrap_err();
    assert_eq!(error, Error::CommandFailed { tool: Tool::Sshd, stderr: b"sshd: failed\n".to_vec() });
    assert_eq!(machine.accounts, words(&["alice"]));
    assert_eq!(machine.starts(), 1);
}

#[test]
fn entry_refuses_a_directive_whose_name_holds_a_nul() {
    let mut machine = Machine::with_file(&["ali\0ce:a:1001:1001"]);
    let error = machine.drive(sftp_entry()).unwrap_err();
    assert_eq!(error, Error::InvalidName { name: "ali\0ce".to_string() });
    assert_eq!(machine.notices, vec![Notice::Processing { account: directive("ali\0ce", "a", 1001, 1001) }]);
    assert_eq!(machine.lookups, Vec::<String>::new());
    assert_eq!(machine.calls, vec![]);
}

#[test]
fn entry_takes_only_answers_to_what_it_asked() {
    let (session, _) = sftp_entry();
    let made = session.step(Event::Line { text: "alice:a:1:1".to_string() });
    assert_eq!(
        made,
        (Session::Finished, Transition { notice: None, action: Action::Fail { error: Error::UnexpectedEvent } })
    );
}
