//! What holds of every session, proved from the model.

use crate::account::{AccountDirectiveView, AccountIdentityView, PartialAccountIdentityView};
use crate::command::{
    create_call, delete_call, modify_call, start_call, stop_call, ExecutionOutcomeView,
    InvocationView, Tool,
};
use crate::directive::{directive_of, entry_of, loaded};
use crate::error::{ErrorKind, ErrorView};
use crate::model::{
    after, calls, create_begin, creations, delete_begin, entry_begin, line_events, modify_begin,
    quiet, run, smooth_answers, step, stop_begin, telling, trace, well_formed,
};
use crate::session::{ActionView, EventView, NoticeView, SessionView, TransitionView};
use crate::text::blank_text;
use vstd::prelude::*;

verus! {

proof fn lemma_run_first(session: SessionView, event: EventView, rest: Seq<EventView>)
    ensures
        run(session, seq![event] + rest) == seq![step(session, event).1] + run(
            step(session, event).0,
            rest,
        ),
        after(session, seq![event] + rest) == after(step(session, event).0, rest),
{
    let events = seq![event] + rest;
    assert(events.first() == event);
    assert(events.drop_first() =~= rest);
}

proof fn lemma_run_append(session: SessionView, first: Seq<EventView>, rest: Seq<EventView>)
    ensures
        run(session, first + rest) == run(session, first) + run(after(session, first), rest),
        after(session, first + rest) == after(after(session, first), rest),
    decreases first.len(),
{
    if first.len() == 0 {
        assert(first + rest =~= rest);
        assert(run(session, first) + run(session, rest) =~= run(session, rest));
    } else {
        let next = step(session, first.first()).0;
        assert((first + rest).first() == first.first());
        assert((first + rest).drop_first() =~= first.drop_first() + rest);
        lemma_run_append(next, first.drop_first(), rest);
        assert(seq![step(session, first.first()).1] + (run(next, first.drop_first()) + run(
            after(next, first.drop_first()),
            rest,
        )) =~= (seq![step(session, first.first()).1] + run(next, first.drop_first())) + run(
            after(next, first.drop_first()),
            rest,
        ));
    }
}

proof fn lemma_calls_append(first: Seq<TransitionView>, rest: Seq<TransitionView>)
    ensures
        calls(first + rest) == calls(first) + calls(rest),
    decreases rest.len(),
{
    if rest.len() == 0 {
        assert(first + rest =~= first);
        assert(calls(first) + calls(rest) =~= calls(first));
    } else {
        assert((first + rest).drop_last() =~= first + rest.drop_last());
        assert((first + rest).last() == rest.last());
        lemma_calls_append(first, rest.drop_last());
        match rest.last().action {
            ActionView::Run { invocation } => {
                assert((calls(first) + calls(rest.drop_last())).push(invocation) =~= calls(first)
                    + calls(rest.drop_last()).push(invocation));
            },
            _ => {},
        }
    }
}

proof fn lemma_calls_one(made: TransitionView)
    ensures
        calls(seq![made]) == match made.action {
            ActionView::Run { invocation } => seq![invocation],
            _ => seq![],
        },
{
    reveal_with_fuel(calls, 2);
    assert(seq![made].drop_last() =~= Seq::<TransitionView>::empty());
    assert(seq![made].last() == made);
    match made.action {
        ActionView::Run { invocation } => {
            assert(Seq::<InvocationView>::empty().push(invocation) =~= seq![invocation]);
        },
        _ => {},
    }
}

/// The first failure ends the session, and so does success: a move that says that the
/// operation has failed, or that it has succeeded, leaves the session finished.
pub proof fn law_last_move_ends_session(session: SessionView, event: EventView)
    ensures
        step(session, event).1.action is Fail ==> step(session, event).0 == SessionView::Finished,
        step(session, event).1.action is Complete ==> step(session, event).0
            == SessionView::Finished,
{
}

/// A session that has ended asks for nothing more: whatever its caller answers, every further
/// move fails, and no tool is asked to run.
pub proof fn law_finished_is_final(events: Seq<EventView>)
    ensures
        after(SessionView::Finished, events) == SessionView::Finished,
        calls(run(SessionView::Finished, events)) == Seq::<InvocationView>::empty(),
        forall|i: int|
            0 <= i < events.len() ==> #[trigger] run(SessionView::Finished, events)[i] == quiet(
                ActionView::Fail { error: ErrorView::UnexpectedEvent },
            ),
        run(SessionView::Finished, events).len() == events.len(),
    decreases events.len(),
{
    if events.len() > 0 {
        let made = quiet(ActionView::Fail { error: ErrorView::UnexpectedEvent });
        law_finished_is_final(events.drop_first());
        lemma_calls_one(made);
        lemma_calls_append(seq![made], run(SessionView::Finished, events.drop_first()));
        assert(calls(seq![made]) + calls(run(SessionView::Finished, events.drop_first()))
            =~= Seq::<InvocationView>::empty());
    }
}

/// The account database is asked only about names that it can be asked about: no session
/// asks for a name with a `'\0'` in it to be looked up, neither with its first move nor with
/// a later one. An operation on such a name fails with `InvalidInput` before anything is
/// asked.
pub proof fn law_lookups_are_well_formed(
    session: SessionView,
    event: EventView,
    account: AccountDirectiveView,
    new: PartialAccountIdentityView,
    new_password: Option<Seq<char>>,
)
    ensures
        step(session, event).1.action matches ActionView::Lookup { name } ==> !name.contains(
            '\0',
        ),
        account.name.contains('\0') ==> {
            let refused = quiet(
                ActionView::Fail { error: ErrorView::InvalidName { name: account.name } },
            );
            &&& create_begin(account, false) == (SessionView::Finished, refused)
            &&& delete_begin(account.identity()) == (SessionView::Finished, refused)
            &&& modify_begin(account.identity(), new, new_password) == (
                SessionView::Finished,
                refused,
            )
            &&& (ErrorView::InvalidName { name: account.name }).kind() == ErrorKind::InvalidInput
        },
        !account.name.contains('\0') ==> {
            let asked = quiet(ActionView::Lookup { name: account.name });
            &&& create_begin(account, false).1 == asked
            &&& delete_begin(account.identity()).1 == asked
            &&& modify_begin(account.identity(), new, new_password).1 == asked
        },
{
}

/// The account database decides before any tool runs. A move asks for an account to be
/// created only after the caller has said that the account does not exist, and for an account
/// to be removed or changed only after the caller has said that it exists; the question was
/// about that very account.
pub proof fn law_lookup_precedes_mutation(session: SessionView, event: EventView)
    ensures
        step(session, event).1.action matches ActionView::Run { invocation } ==> {
            &&& invocation.tool == Tool::UserAdd ==> {
                &&& session matches SessionView::CreateLookup { account, .. }
                &&& event == (EventView::AccountChecked { exists: false })
                &&& invocation == create_call(
                    account.name,
                    account.uid,
                    account.gid,
                    account.password,
                )
            }
            &&& invocation.tool == Tool::UserDel ==> {
                &&& session matches SessionView::DeleteLookup { account }
                &&& event == (EventView::AccountChecked { exists: true })
                &&& invocation == delete_call(account.name)
            }
            &&& invocation.tool == Tool::UserMod ==> {
                &&& session matches SessionView::ModifyLookup { old, new, .. }
                &&& event == (EventView::AccountChecked { exists: true })
                &&& invocation == modify_call(old.name, new)
            }
        },
{
}

proof fn lemma_calls_push(moves: Seq<TransitionView>, made: TransitionView)
    ensures
        calls(moves.push(made)) == match made.action {
            ActionView::Run { invocation } => calls(moves).push(invocation),
            _ => calls(moves),
        },
{
    assert(moves.push(made).drop_last() =~= moves);
    assert(moves.push(made).last() == made);
}

/// Creating an account that exists fails with `AlreadyExists`: the session asks about the
/// account, is told that it exists, and ends. No tool is asked to run.
pub proof fn law_create_existing_fails(account: AccountDirectiveView)
    requires
        !account.name.contains('\0'),
    ensures
        trace(create_begin(account, false), seq![EventView::AccountChecked { exists: true }])
            == seq![
            quiet(ActionView::Lookup { name: account.name }),
            quiet(ActionView::Fail { error: ErrorView::AlreadyExists { name: account.name } }),
        ],
        calls(
            trace(create_begin(account, false), seq![EventView::AccountChecked { exists: true }]),
        ) == Seq::<InvocationView>::empty(),
        (ErrorView::AlreadyExists { name: account.name }).kind() == ErrorKind::AlreadyExists,
{
    let begun = create_begin(account, false);
    let found = EventView::AccountChecked { exists: true };
    let moves = seq![
        quiet(ActionView::Lookup { name: account.name }),
        quiet(ActionView::Fail { error: ErrorView::AlreadyExists { name: account.name } }),
    ];
    assert(seq![found] =~= seq![found] + seq![]);
    lemma_run_first(begun.0, found, seq![]);
    assert(trace(begun, seq![found]) =~= moves);
    lemma_calls_push(seq![], moves[0]);
    lemma_calls_push(seq![moves[0]], moves[1]);
    assert(moves =~= seq![moves[0]].push(moves[1]));
    assert(seq![moves[0]] =~= Seq::<TransitionView>::empty().push(moves[0]));
}

/// Removing an account that does not exist fails with `NotFound`: the session asks about the
/// account, is told that it does not exist, and ends. No tool is asked to run.
pub proof fn law_delete_missing_fails(account: AccountIdentityView)
    requires
        !account.name.contains('\0'),
    ensures
        trace(delete_begin(account), seq![EventView::AccountChecked { exists: false }]) == seq![
            quiet(ActionView::Lookup { name: account.name }),
            quiet(ActionView::Fail { error: ErrorView::AccountNotFound { name: account.name } }),
        ],
        calls(trace(delete_begin(account), seq![EventView::AccountChecked { exists: false }]))
            == Seq::<InvocationView>::empty(),
        (ErrorView::AccountNotFound { name: account.name }).kind() == ErrorKind::NotFound,
{
    let begun = delete_begin(account);
    let missing = EventView::AccountChecked { exists: false };
    let moves = seq![
        quiet(ActionView::Lookup { name: account.name }),
        quiet(ActionView::Fail { error: ErrorView::AccountNotFound { name: account.name } }),
    ];
    assert(seq![missing] =~= seq![missing] + seq![]);
    lemma_run_first(begun.0, missing, seq![]);
    assert(trace(begun, seq![missing]) =~= moves);
    lemma_calls_push(seq![], moves[0]);
    lemma_calls_push(seq![moves[0]], moves[1]);
    assert(moves =~= seq![moves[0]].push(moves[1]));
    assert(seq![moves[0]] =~= Seq::<TransitionView>::empty().push(moves[0]));
}

/// Changing an account that does not exist fails with `NotFound`: the session asks about the
/// account under its old name, is told that it does not exist, and ends. No tool is asked to
/// run.
pub proof fn law_modify_missing_fails(
    old: AccountIdentityView,
    new: PartialAccountIdentityView,
    new_password: Option<Seq<char>>,
)
    requires
        !old.name.contains('\0'),
    ensures
        trace(
            modify_begin(old, new, new_password),
            seq![EventView::AccountChecked { exists: false }],
        ) == seq![
            quiet(ActionView::Lookup { name: old.name }),
            quiet(ActionView::Fail { error: ErrorView::AccountNotFound { name: old.name } }),
        ],
        calls(
            trace(
                modify_begin(old, new, new_password),
                seq![EventView::AccountChecked { exists: false }],
            ),
        ) == Seq::<InvocationView>::empty(),
        (ErrorView::AccountNotFound { name: old.name }).kind() == ErrorKind::NotFound,
{
    let begun = modify_begin(old, new, new_password);
    let missing = EventView::AccountChecked { exists: false };
    let moves = seq![
        quiet(ActionView::Lookup { name: old.name }),
        quiet(ActionView::Fail { error: ErrorView::AccountNotFound { name: old.name } }),
    ];
    assert(seq![missing] =~= seq![missing] + seq![]);
    lemma_run_first(begun.0, missing, seq![]);
    assert(trace(begun, seq![missing]) =~= moves);
    lemma_calls_push(seq![], moves[0]);
    lemma_calls_push(seq![moves[0]], moves[1]);
    assert(moves =~= seq![moves[0]].push(moves[1]));
    assert(seq![moves[0]] =~= Seq::<TransitionView>::empty().push(moves[0]));
}

/// A modification that gives a new password and nothing else asks for exactly two tools to
/// run: the change of identity with the account's name as its only argument, and, once that
/// has succeeded, the change of password, for the name that the account had all along.
pub proof fn law_password_only_modification(
    old: AccountIdentityView,
    password: Seq<char>,
    identity_step: ExecutionOutcomeView,
    password_step: ExecutionOutcomeView,
)
    requires
        !old.name.contains('\0'),
        identity_step.success,
        password_step.success,
    ensures
        ({
            let unchanged = PartialAccountIdentityView { name: None, uid: None, gid: None };
            let moves = trace(
                modify_begin(old, unchanged, Some(password)),
                seq![
                    EventView::AccountChecked { exists: true },
                    EventView::Ran { outcome: identity_step },
                    EventView::Ran { outcome: password_step },
                ],
            );
            let change = InvocationView { tool: Tool::UserMod, args: seq![old.name] };
            let secret = InvocationView {
                tool: Tool::ChPasswd,
                args: seq!["-e"@, old.name + ":"@ + password],
            };
            &&& moves == seq![
                quiet(ActionView::Lookup { name: old.name }),
                quiet(ActionView::Run { invocation: change }),
                telling(
                    NoticeView::Modified { account: old },
                    ActionView::Run { invocation: secret },
                ),
                telling(NoticeView::PasswordChanged { account: old }, ActionView::Complete),
            ]
            &&& calls(moves) == seq![change, secret]
        }),
{
    let unchanged = PartialAccountIdentityView { name: None, uid: None, gid: None };
    let begun = modify_begin(old, unchanged, Some(password));
    let e1 = EventView::AccountChecked { exists: true };
    let e2 = EventView::Ran { outcome: identity_step };
    let e3 = EventView::Ran { outcome: password_step };
    let change = InvocationView { tool: Tool::UserMod, args: seq![old.name] };
    let secret = InvocationView {
        tool: Tool::ChPasswd,
        args: seq!["-e"@, old.name + ":"@ + password],
    };
    let moves = seq![
        quiet(ActionView::Lookup { name: old.name }),
        quiet(ActionView::Run { invocation: change }),
        telling(
            NoticeView::Modified { account: old },
            ActionView::Run { invocation: secret },
        ),
        telling(NoticeView::PasswordChanged { account: old }, ActionView::Complete),
    ];
    assert(modify_call(old.name, unchanged).args =~= seq![old.name]);
    assert(unchanged.applied_to(old) == old);
    let s1 = step(begun.0, e1).0;
    let s2 = step(s1, e2).0;
    assert(seq![e1, e2, e3] =~= seq![e1] + seq![e2, e3]);
    lemma_run_first(begun.0, e1, seq![e2, e3]);
    assert(seq![e2, e3] =~= seq![e2] + seq![e3]);
    lemma_run_first(s1, e2, seq![e3]);
    assert(seq![e3] =~= seq![e3] + seq![]);
    lemma_run_first(s2, e3, seq![]);
    assert(trace(begun, seq![e1, e2, e3]) =~= moves);
    lemma_calls_push(seq![], moves[0]);
    lemma_calls_push(seq![moves[0]], moves[1]);
    lemma_calls_push(seq![moves[0], moves[1]], moves[2]);
    lemma_calls_push(seq![moves[0], moves[1], moves[2]], moves[3]);
    assert(seq![moves[0]] =~= Seq::<TransitionView>::empty().push(moves[0]));
    assert(seq![moves[0], moves[1]] =~= seq![moves[0]].push(moves[1]));
    assert(seq![moves[0], moves[1], moves[2]] =~= seq![moves[0], moves[1]].push(moves[2]));
    assert(moves =~= seq![moves[0], moves[1], moves[2]].push(moves[3]));
    assert(calls(moves) =~= seq![change, secret]);
}

/// A restart whose stop fails, as it does when no daemon is running, fails with what the stop
/// reported. The daemon is not started: the stop is the only tool that is asked to run.
pub proof fn law_restart_needs_stop(outcome: ExecutionOutcomeView)
    requires
        !outcome.success,
    ensures
        ({
            let moves = trace(stop_begin(true), seq![EventView::Ran { outcome }]);
            let failure = ErrorView::CommandFailed { tool: Tool::KillAll, stderr: outcome.stderr };
            &&& moves == seq![
                quiet(ActionView::Run { invocation: stop_call() }),
                quiet(ActionView::Fail { error: failure }),
            ]
            &&& calls(moves) == seq![stop_call()]
            &&& failure.kind() == ErrorKind::CommandFailed
        }),
{
    let begun = stop_begin(true);
    let ran = EventView::Ran { outcome };
    let failure = ErrorView::CommandFailed { tool: Tool::KillAll, stderr: outcome.stderr };
    let moves = seq![
        quiet(ActionView::Run { invocation: stop_call() }),
        quiet(ActionView::Fail { error: failure }),
    ];
    assert(seq![ran] =~= seq![ran] + seq![]);
    lemma_run_first(begun.0, ran, seq![]);
    assert(trace(begun, seq![ran]) =~= moves);
    lemma_calls_push(seq![], moves[0]);
    lemma_calls_push(seq![moves[0]], moves[1]);
    assert(moves =~= seq![moves[0]].push(moves[1]));
    assert(seq![moves[0]] =~= Seq::<TransitionView>::empty().push(moves[0]));
    assert(calls(moves) =~= seq![stop_call()]);
}

/// Creating an account that does not exist and then removing it, both tools reporting
/// success: both operations succeed, and between them they ask for exactly two tools to run,
/// the creation and the removal of the same name.
pub proof fn law_create_then_delete(
    account: AccountDirectiveView,
    created: ExecutionOutcomeView,
    removed: ExecutionOutcomeView,
)
    requires
        !account.name.contains('\0'),
        created.success,
        removed.success,
    ensures
        ({
            let creation = trace(
                create_begin(account, false),
                seq![
                    EventView::AccountChecked { exists: false },
                    EventView::Ran { outcome: created },
                ],
            );
            let removal = trace(
                delete_begin(account.identity()),
                seq![
                    EventView::AccountChecked { exists: true },
                    EventView::Ran { outcome: removed },
                ],
            );
            &&& creation == seq![
                quiet(ActionView::Lookup { name: account.name }),
                quiet(
                    ActionView::Run {
                        invocation: create_call(
                            account.name,
                            account.uid,
                            account.gid,
                            account.password,
                        ),
                    },
                ),
                telling(NoticeView::Created { account: account.identity() }, ActionView::Complete),
            ]
            &&& removal == seq![
                quiet(ActionView::Lookup { name: account.name }),
                quiet(ActionView::Run { invocation: delete_call(account.name) }),
                telling(NoticeView::Deleted { account: account.identity() }, ActionView::Complete),
            ]
            &&& calls(creation + removal) == seq![
                create_call(account.name, account.uid, account.gid, account.password),
                delete_call(account.name),
            ]
        }),
{
    let c0 = create_begin(account, false);
    let absent = EventView::AccountChecked { exists: false };
    let ran_create = EventView::Ran { outcome: created };
    let c1 = step(c0.0, absent).0;
    assert(seq![absent, ran_create] =~= seq![absent] + seq![ran_create]);
    lemma_run_first(c0.0, absent, seq![ran_create]);
    assert(seq![ran_create] =~= seq![ran_create] + seq![]);
    lemma_run_first(c1, ran_create, seq![]);
    let creation = trace(c0, seq![absent, ran_create]);
    let make = create_call(account.name, account.uid, account.gid, account.password);
    let creation_moves = seq![
        quiet(ActionView::Lookup { name: account.name }),
        quiet(ActionView::Run { invocation: make }),
        telling(NoticeView::Created { account: account.identity() }, ActionView::Complete),
    ];
    assert(creation =~= creation_moves);

    let d0 = delete_begin(account.identity());
    let present = EventView::AccountChecked { exists: true };
    let ran_delete = EventView::Ran { outcome: removed };
    let d1 = step(d0.0, present).0;
    assert(seq![present, ran_delete] =~= seq![present] + seq![ran_delete]);
    lemma_run_first(d0.0, present, seq![ran_delete]);
    assert(seq![ran_delete] =~= seq![ran_delete] + seq![]);
    lemma_run_first(d1, ran_delete, seq![]);
    let removal = trace(d0, seq![present, ran_delete]);
    let removal_moves = seq![
        quiet(ActionView::Lookup { name: account.name }),
        quiet(ActionView::Run { invocation: delete_call(account.name) }),
        telling(NoticeView::Deleted { account: account.identity() }, ActionView::Complete),
    ];
    assert(removal =~= removal_moves);

    lemma_calls_push(seq![], creation_moves[0]);
    lemma_calls_push(seq![creation_moves[0]], creation_moves[1]);
    lemma_calls_push(seq![creation_moves[0], creation_moves[1]], creation_moves[2]);
    assert(seq![creation_moves[0]] =~= Seq::<TransitionView>::empty().push(creation_moves[0]));
    assert(seq![creation_moves[0], creation_moves[1]] =~= seq![creation_moves[0]].push(
        creation_moves[1],
    ));
    assert(creation_moves =~= seq![creation_moves[0], creation_moves[1]].push(creation_moves[2]));
    lemma_calls_push(seq![], removal_moves[0]);
    lemma_calls_push(seq![removal_moves[0]], removal_moves[1]);
    lemma_calls_push(seq![removal_moves[0], removal_moves[1]], removal_moves[2]);
    assert(seq![removal_moves[0]] =~= Seq::<TransitionView>::empty().push(removal_moves[0]));
    assert(seq![removal_moves[0], removal_moves[1]] =~= seq![removal_moves[0]].push(
        removal_moves[1],
    ));
    assert(removal_moves =~= seq![removal_moves[0], removal_moves[1]].push(removal_moves[2]));
    lemma_calls_append(creation, removal);
    assert(calls(creation) + calls(removal) =~= seq![make, delete_call(account.name)]);
}

proof fn lemma_blank_lines_load_nothing(lines: Seq<Seq<char>>)
    requires
        forall|i: int| 0 <= i < lines.len() ==> blank_text(#[trigger] lines[i]),
    ensures
        loaded(lines) == Seq::<Result<AccountDirectiveView, ErrorView>>::empty(),
    decreases lines.len(),
{
    if lines.len() > 0 {
        lemma_blank_lines_load_nothing(lines.drop_last());
    }
}

proof fn lemma_blank_lines_are_passed_over(lines: Seq<Seq<char>>)
    requires
        forall|i: int| 0 <= i < lines.len() ==> blank_text(#[trigger] lines[i]),
    ensures
        after(SessionView::ReadLine, line_events(lines)) == SessionView::ReadLine,
        calls(run(SessionView::ReadLine, line_events(lines))) == Seq::<InvocationView>::empty(),
    decreases lines.len(),
{
    let events = line_events(lines);
    if lines.len() > 0 {
        let made = quiet(ActionView::ReadLine);
        assert(blank_text(lines[0]));
        assert(events.first() == EventView::Line { text: lines[0] });
        assert(events.drop_first() =~= line_events(lines.drop_first()));
        lemma_blank_lines_are_passed_over(lines.drop_first());
        lemma_calls_one(made);
        lemma_calls_append(seq![made], run(SessionView::ReadLine, events.drop_first()));
        assert(calls(seq![made]) + calls(run(SessionView::ReadLine, events.drop_first()))
            =~= Seq::<InvocationView>::empty());
    }
}

proof fn lemma_start_is_last(events: Seq<EventView>)
    ensures
        calls(run(SessionView::StartRun, events)) == Seq::<InvocationView>::empty(),
{
    if events.len() > 0 {
        let first = step(SessionView::StartRun, events.first());
        assert(first.0 == SessionView::Finished);
        law_finished_is_final(events.drop_first());
        lemma_calls_one(first.1);
        lemma_calls_append(seq![first.1], run(SessionView::Finished, events.drop_first()));
        assert(calls(seq![first.1]) + calls(run(SessionView::Finished, events.drop_first()))
            =~= Seq::<InvocationView>::empty());
    }
}

/// A directive file that holds nothing but blank lines gives no directive, and the batch
/// asks for exactly one tool to run: the daemon, once the end of the file is reached. That
/// stays so whatever the caller answers after that.
pub proof fn law_blank_file_starts_daemon(lines: Seq<Seq<char>>, rest: Seq<EventView>)
    requires
        forall|i: int| 0 <= i < lines.len() ==> blank_text(#[trigger] lines[i]),
    ensures
        loaded(lines) == Seq::<Result<AccountDirectiveView, ErrorView>>::empty(),
        calls(
            trace(
                entry_begin(),
                seq![EventView::PathChecked { exists: true }] + line_events(lines)
                    + seq![EventView::EndOfInput] + rest,
            ),
        ) == seq![start_call()],
{
    lemma_blank_lines_load_nothing(lines);
    lemma_blank_lines_are_passed_over(lines);
    let checked = EventView::PathChecked { exists: true };
    let events = seq![checked] + line_events(lines) + seq![EventView::EndOfInput] + rest;
    let tail = seq![EventView::EndOfInput] + rest;
    assert(events =~= seq![checked] + (line_events(lines) + tail));
    lemma_run_first(SessionView::PathCheck, checked, line_events(lines) + tail);
    lemma_run_append(SessionView::ReadLine, line_events(lines), tail);
    lemma_run_first(SessionView::ReadLine, EventView::EndOfInput, rest);
    lemma_start_is_last(rest);
    let opening = seq![quiet(ActionView::CheckPath), quiet(ActionView::ReadLine)];
    let reading = run(SessionView::ReadLine, line_events(lines));
    let starting = seq![quiet(ActionView::Run { invocation: start_call() })];
    let ending = run(SessionView::StartRun, rest);
    assert(trace(entry_begin(), events) =~= opening + reading + starting + ending);
    lemma_calls_push(seq![], opening[0]);
    lemma_calls_push(seq![opening[0]], opening[1]);
    assert(seq![opening[0]] =~= Seq::<TransitionView>::empty().push(opening[0]));
    assert(opening =~= seq![opening[0]].push(opening[1]));
    lemma_calls_one(starting[0]);
    lemma_calls_append(opening, reading);
    lemma_calls_append(opening + reading, starting);
    lemma_calls_append(opening + reading + starting, ending);
    assert(calls(opening) + calls(reading) + calls(starting) + calls(ending) =~= seq![
        start_call(),
    ]);
}

/// A batch ends at the first directive that fails. When the first directive of the file is
/// created and the account of the second exists already, the batch fails with
/// `AlreadyExists`; the creation of the first account is the only tool that it asks to run,
/// whatever the file holds after the second directive and whatever the caller answers: no
/// further directive is acted on, and the daemon is not started.
pub proof fn law_batch_ends_at_existing_account(
    first: Seq<char>,
    second: Seq<char>,
    created: ExecutionOutcomeView,
    rest: Seq<EventView>,
)
    requires
        !blank_text(first),
        !blank_text(second),
        directive_of(first) matches Some(account) && !account.name.contains('\0'),
        directive_of(second) matches Some(account) && !account.name.contains('\0'),
        created.success,
    ensures
        ({
            let one = directive_of(first)->0;
            let two = directive_of(second)->0;
            let events = seq![
                EventView::PathChecked { exists: true },
                EventView::Line { text: first },
                EventView::AccountChecked { exists: false },
                EventView::Ran { outcome: created },
                EventView::Line { text: second },
                EventView::AccountChecked { exists: true },
            ];
            let make = create_call(one.name, one.uid, one.gid, one.password);
            &&& trace(entry_begin(), events) == seq![
                quiet(ActionView::CheckPath),
                quiet(ActionView::ReadLine),
                telling(
                    NoticeView::Processing { account: one },
                    ActionView::Lookup { name: one.name },
                ),
                quiet(ActionView::Run { invocation: make }),
                telling(NoticeView::Created { account: one.identity() }, ActionView::ReadLine),
                telling(
                    NoticeView::Processing { account: two },
                    ActionView::Lookup { name: two.name },
                ),
                quiet(ActionView::Fail { error: ErrorView::AlreadyExists { name: two.name } }),
            ]
            &&& calls(trace(entry_begin(), events + rest)) == seq![make]
        }),
{
    let one = directive_of(first)->0;
    let two = directive_of(second)->0;
    let e1 = EventView::PathChecked { exists: true };
    let e2 = EventView::Line { text: first };
    let e3 = EventView::AccountChecked { exists: false };
    let e4 = EventView::Ran { outcome: created };
    let e5 = EventView::Line { text: second };
    let e6 = EventView::AccountChecked { exists: true };
    let events = seq![e1, e2, e3, e4, e5, e6];
    let make = create_call(one.name, one.uid, one.gid, one.password);
    let moves = seq![
        quiet(ActionView::CheckPath),
        quiet(ActionView::ReadLine),
        telling(NoticeView::Processing { account: one }, ActionView::Lookup { name: one.name }),
        quiet(ActionView::Run { invocation: make }),
        telling(NoticeView::Created { account: one.identity() }, ActionView::ReadLine),
        telling(NoticeView::Processing { account: two }, ActionView::Lookup { name: two.name }),
        quiet(ActionView::Fail { error: ErrorView::AlreadyExists { name: two.name } }),
    ];
    let s0 = SessionView::PathCheck;
    let s1 = step(s0, e1).0;
    let s2 = step(s1, e2).0;
    let s3 = step(s2, e3).0;
    let s4 = step(s3, e4).0;
    let s5 = step(s4, e5).0;
    let s6 = step(s5, e6).0;
    assert(events =~= seq![e1] + seq![e2, e3, e4, e5, e6]);
    lemma_run_first(s0, e1, seq![e2, e3, e4, e5, e6]);
    assert(seq![e2, e3, e4, e5, e6] =~= seq![e2] + seq![e3, e4, e5, e6]);
    lemma_run_first(s1, e2, seq![e3, e4, e5, e6]);
    assert(seq![e3, e4, e5, e6] =~= seq![e3] + seq![e4, e5, e6]);
    lemma_run_first(s2, e3, seq![e4, e5, e6]);
    assert(seq![e4, e5, e6] =~= seq![e4] + seq![e5, e6]);
    lemma_run_first(s3, e4, seq![e5, e6]);
    assert(seq![e5, e6] =~= seq![e5] + seq![e6]);
    lemma_run_first(s4, e5, seq![e6]);
    assert(seq![e6] =~= seq![e6] + seq![]);
    lemma_run_first(s5, e6, seq![]);
    assert(s6 == SessionView::Finished);
    assert(trace(entry_begin(), events) =~= moves);

    lemma_calls_push(seq![], moves[0]);
    lemma_calls_push(seq![moves[0]], moves[1]);
    lemma_calls_push(seq![moves[0], moves[1]], moves[2]);
    lemma_calls_push(seq![moves[0], moves[1], moves[2]], moves[3]);
    lemma_calls_push(seq![moves[0], moves[1], moves[2], moves[3]], moves[4]);
    lemma_calls_push(seq![moves[0], moves[1], moves[2], moves[3], moves[4]], moves[5]);
    lemma_calls_push(seq![moves[0], moves[1], moves[2], moves[3], moves[4], moves[5]], moves[6]);
    assert(seq![moves[0]] =~= Seq::<TransitionView>::empty().push(moves[0]));
    assert(seq![moves[0], moves[1]] =~= seq![moves[0]].push(moves[1]));
    assert(seq![moves[0], moves[1], moves[2]] =~= seq![moves[0], moves[1]].push(moves[2]));
    assert(seq![moves[0], moves[1], moves[2], moves[3]] =~= seq![
        moves[0],
        moves[1],
        moves[2],
    ].push(moves[3]));
    assert(seq![moves[0], moves[1], moves[2], moves[3], moves[4]] =~= seq![
        moves[0],
        moves[1],
        moves[2],
        moves[3],
    ].push(moves[4]));
    assert(seq![moves[0], moves[1], moves[2], moves[3], moves[4], moves[5]] =~= seq![
        moves[0],
        moves[1],
        moves[2],
        moves[3],
        moves[4],
    ].push(moves[5]));
    assert(moves =~= seq![moves[0], moves[1], moves[2], moves[3], moves[4], moves[5]].push(
        moves[6],
    ));
    assert(calls(moves) =~= seq![make]);

    lemma_run_append(s0, events, rest);
    assert(after(s0, events) == SessionView::Finished);
    law_finished_is_final(rest);
    assert(trace(entry_begin(), events + rest) =~= moves + run(SessionView::Finished, rest));
    lemma_calls_append(moves, run(SessionView::Finished, rest));
    assert(calls(moves) + calls(run(SessionView::Finished, rest)) =~= seq![make]);
}

proof fn lemma_smooth_batch(lines: Seq<Seq<char>>, created: ExecutionOutcomeView)
    requires
        well_formed(lines),
        created.success,
    ensures
        after(SessionView::ReadLine, smooth_answers(lines, created)) == SessionView::ReadLine,
        calls(run(SessionView::ReadLine, smooth_answers(lines, created))) == creations(
            loaded(lines),
        ),
    decreases lines.len(),
{
    if lines.len() > 0 {
        let shorter = lines.drop_last();
        let line = EventView::Line { text: lines.last() };
        assert forall|i: int| 0 <= i < shorter.len() implies match #[trigger] entry_of(
            shorter[i],
        ) {
            Some(Ok(account)) => !account.name.contains('\0'),
            Some(Err(_)) => false,
            None => true,
        } by {
            assert(shorter[i] == lines[i]);
        }
        lemma_smooth_batch(shorter, created);
        let earlier = smooth_answers(shorter, created);
        let entry = entry_of(lines[lines.len() - 1]);
        match entry {
            Some(Ok(account)) => {
                let absent = EventView::AccountChecked { exists: false };
                let ran = EventView::Ran { outcome: created };
                let s1 = step(SessionView::ReadLine, line).0;
                let s2 = step(s1, absent).0;
                lemma_run_append(SessionView::ReadLine, earlier, seq![line, absent, ran]);
                assert(seq![line, absent, ran] =~= seq![line] + seq![absent, ran]);
                lemma_run_first(SessionView::ReadLine, line, seq![absent, ran]);
                assert(seq![absent, ran] =~= seq![absent] + seq![ran]);
                lemma_run_first(s1, absent, seq![ran]);
                assert(seq![ran] =~= seq![ran] + seq![]);
                lemma_run_first(s2, ran, seq![]);
                let make = create_call(account.name, account.uid, account.gid, account.password);
                let moves = seq![
                    telling(
                        NoticeView::Processing { account },
                        ActionView::Lookup { name: account.name },
                    ),
                    quiet(ActionView::Run { invocation: make }),
                    telling(
                        NoticeView::Created { account: account.identity() },
                        ActionView::ReadLine,
                    ),
                ];
                assert(run(SessionView::ReadLine, seq![line, absent, ran]) =~= moves);
                lemma_calls_push(seq![], moves[0]);
                lemma_calls_push(seq![moves[0]], moves[1]);
                lemma_calls_push(seq![moves[0], moves[1]], moves[2]);
                assert(seq![moves[0]] =~= Seq::<TransitionView>::empty().push(moves[0]));
                assert(seq![moves[0], moves[1]] =~= seq![moves[0]].push(moves[1]));
                assert(moves =~= seq![moves[0], moves[1]].push(moves[2]));
                assert(calls(moves) =~= seq![make]);
                lemma_calls_append(run(SessionView::ReadLine, earlier), moves);
                assert(creations(loaded(shorter)) + seq![make] =~= creations(
                    loaded(shorter),
                ).push(make));
                assert(loaded(lines).drop_last() =~= loaded(shorter));
            },
            Some(Err(_)) => {},
            None => {
                lemma_run_append(SessionView::ReadLine, earlier, seq![line]);
                assert(seq![line] =~= seq![line] + seq![]);
                lemma_run_first(SessionView::ReadLine, line, seq![]);
                let made = quiet(ActionView::ReadLine);
                assert(run(SessionView::ReadLine, seq![line]) =~= seq![made]);
                lemma_calls_one(made);
                lemma_calls_append(run(SessionView::ReadLine, earlier), seq![made]);
                assert(creations(loaded(shorter)) + Seq::<InvocationView>::empty()
                    =~= creations(loaded(shorter)));
            },
        }
    }
}

/// A batch on a machine where nothing stands in its way creates every account of the
/// directive file, in the order of the file, and then starts the daemon: these are the tools
/// that it asks to run, and no others.
pub proof fn law_batch_creates_all_then_starts(
    lines: Seq<Seq<char>>,
    created: ExecutionOutcomeView,
    rest: Seq<EventView>,
)
    requires
        well_formed(lines),
        created.success,
    ensures
        calls(
            trace(
                entry_begin(),
                seq![EventView::PathChecked { exists: true }] + smooth_answers(lines, created)
                    + seq![EventView::EndOfInput] + rest,
            ),
        ) == creations(loaded(lines)) + seq![start_call()],
{
    lemma_smooth_batch(lines, created);
    let checked = EventView::PathChecked { exists: true };
    let answers = smooth_answers(lines, created);
    let events = seq![checked] + answers + seq![EventView::EndOfInput] + rest;
    let tail = seq![EventView::EndOfInput] + rest;
    assert(events =~= seq![checked] + (answers + tail));
    lemma_run_first(SessionView::PathCheck, checked, answers + tail);
    lemma_run_append(SessionView::ReadLine, answers, tail);
    lemma_run_first(SessionView::ReadLine, EventView::EndOfInput, rest);
    lemma_start_is_last(rest);
    let opening = seq![quiet(ActionView::CheckPath), quiet(ActionView::ReadLine)];
    let reading = run(SessionView::ReadLine, answers);
    let starting = seq![quiet(ActionView::Run { invocation: start_call() })];
    let ending = run(SessionView::StartRun, rest);
    assert(trace(entry_begin(), events) =~= opening + reading + starting + ending);
    lemma_calls_push(seq![], opening[0]);
    lemma_calls_push(seq![opening[0]], opening[1]);
    assert(seq![opening[0]] =~= Seq::<TransitionView>::empty().push(opening[0]));
    assert(opening =~= seq![opening[0]].push(opening[1]));
    lemma_calls_one(starting[0]);
    lemma_calls_append(opening, reading);
    lemma_calls_append(opening + reading, starting);
    lemma_calls_append(opening + reading + starting, ending);
    assert(calls(opening) + calls(reading) + calls(starting) + calls(ending) =~= creations(
        loaded(lines),
    ) + seq![start_call()]);
}

} // verus!
