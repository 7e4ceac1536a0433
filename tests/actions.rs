use hourai_actions::action::{
    invert_action, invert_status, Action, ActionError, BanMember, BanType, ChangeRole,
    DeafenMember, DeleteMessages, Details, DirectMessage, EscalateMember, MuteMember,
    SendMessage, StatusType,
};
use hourai_actions::executor::{
    due_at, schedule_reversal, ActionExecutor, ActionKind, Execution, SoftFailure, Stage, Step,
    User,
};
use hourai_actions::request::{MemberSnapshot, MemberUpdate, Reply, Request};

const DAY: u64 = 86400;

fn executor() -> ActionExecutor<(), ()> {
    ActionExecutor::new(User { id: 42, name: "hourai".to_string() }, (), ())
}

fn action(details: Option<Details>, duration: Option<u64>) -> Action {
    Action {
        guild_id: 10,
        user_id: 20,
        reason: "rule broken".to_string(),
        duration,
        details,
    }
}

struct Run {
    calls: Vec<Request>,
    reports: Vec<SoftFailure>,
    result: Result<(), ActionError>,
}

fn run(action: Action, now: i64, mut respond: impl FnMut(&Request) -> Reply) -> Run {
    let ex = executor();
    let mut exec = Execution::new(action);
    let mut reply = Reply::Done;
    let mut calls = Vec::new();
    let mut reports = Vec::new();
    for _ in 0..16 {
        match ex.advance(&mut exec, reply, now) {
            Step::Call(request) => {
                reply = respond(&request);
                calls.push(request);
            }
            Step::Report(failure) => {
                reports.push(failure);
                reply = Reply::Done;
            }
            Step::Finish(result) => return Run { calls, reports, result },
        }
    }
    panic!("the run did not finish");
}

fn ok(_: &Request) -> Reply {
    Reply::Done
}

fn member(mute: bool, deaf: bool, roles: Vec<u64>) -> impl FnMut(&Request) -> Reply {
    move |r: &Request| match r {
        Request::GetMember { .. } => Reply::Member(MemberSnapshot { mute, deaf, roles: roles.clone() }),
        _ => Reply::Done,
    }
}

fn mute(type_: StatusType) -> Option<Details> {
    Some(Details::Mute(MuteMember { type_ }))
}

fn updated_mute(r: &Request) -> Option<bool> {
    match r {
        Request::UpdateMember { update: MemberUpdate::Mute(b), .. } => Some(*b),
        _ => None,
    }
}

fn sorted_roles(r: &Request) -> Vec<u64> {
    match r {
        Request::UpdateMember { update: MemberUpdate::Roles(v), guild_id, user_id, reason } => {
            assert_eq!((*guild_id, *user_id, reason.as_str()), (10, 20, "rule broken"));
            let mut v = v.clone();
            v.sort();
            v
        }
        other => panic!("unexpected request {:?}", other),
    }
}

#[test]
fn ban_with_duration_schedules_unban() {
    let details = Some(Details::Ban(BanMember { type_: BanType::Ban, delete_message_days: 1 }));
    let run = run(action(details, Some(7 * DAY)), 1_000, ok);
    assert_eq!(run.result, Ok(()));
    assert_eq!(run.calls.len(), 2);
    match &run.calls[0] {
        Request::CreateBan { guild_id, user_id, reason, delete_message_seconds } => {
            assert_eq!((*guild_id, *user_id), (10, 20));
            assert_eq!(reason, "rule broken");
            assert_eq!(*delete_message_seconds, 86400);
        }
        other => panic!("unexpected request {:?}", other),
    }
    match &run.calls[1] {
        Request::Enqueue(pending) => {
            assert_eq!(pending.due_at, 1_000 + 7 * 86400);
            assert_eq!(pending.action.duration, None);
            assert_eq!(pending.action.reason, "rule broken");
            assert!(matches!(
                pending.action.details,
                Some(Details::Ban(BanMember { type_: BanType::Unban, delete_message_days: 1 }))
            ));
        }
        other => panic!("unexpected request {:?}", other),
    }
}

#[test]
fn failed_ban_schedules_nothing() {
    let details = Some(Details::Ban(BanMember { type_: BanType::Ban, delete_message_days: 0 }));
    let run = run(action(details, Some(DAY)), 0, |_| Reply::Failed);
    assert_eq!(run.result, Err(ActionError::CallFailed));
    assert_eq!(run.calls.len(), 1);
}

#[test]
fn softban_bans_then_unbans() {
    let details =
        Some(Details::Ban(BanMember { type_: BanType::Softban, delete_message_days: 2 }));
    let run = run(action(details, None), 0, ok);
    assert_eq!(run.result, Ok(()));
    assert_eq!(run.calls.len(), 2);
    assert!(matches!(
        run.calls[0],
        Request::CreateBan { delete_message_seconds: 172800, .. }
    ));
    assert!(matches!(run.calls[1], Request::DeleteBan { .. }));
}

#[test]
fn unban_only_deletes_ban() {
    let details = Some(Details::Ban(BanMember { type_: BanType::Unban, delete_message_days: 2 }));
    let run = run(action(details, None), 0, ok);
    assert_eq!(run.result, Ok(()));
    assert_eq!(run.calls.len(), 1);
    assert!(matches!(run.calls[0], Request::DeleteBan { guild_id: 10, user_id: 20, .. }));
}

#[test]
fn toggle_mute_reads_member_first() {
    let run = run(action(mute(StatusType::Toggle), None), 0, member(false, false, vec![]));
    assert_eq!(run.result, Ok(()));
    assert_eq!(run.calls.len(), 2);
    assert!(matches!(run.calls[0], Request::GetMember { guild_id: 10, user_id: 20 }));
    assert_eq!(updated_mute(&run.calls[1]), Some(true));

    let run = run_again_muted();
    assert_eq!(updated_mute(&run.calls[1]), Some(false));
}

fn run_again_muted() -> Run {
    run(action(mute(StatusType::Toggle), None), 0, member(true, false, vec![]))
}

#[test]
fn apply_and_unapply_mute_write_without_reading() {
    let run1 = run(action(mute(StatusType::Apply), None), 0, ok);
    assert_eq!(run1.calls.len(), 1);
    assert_eq!(updated_mute(&run1.calls[0]), Some(true));
    let run2 = run(action(mute(StatusType::Unapply), None), 0, ok);
    assert_eq!(run2.calls.len(), 1);
    assert_eq!(updated_mute(&run2.calls[0]), Some(false));
}

#[test]
fn toggle_deafen_negates_current_flag() {
    let details = Some(Details::Deafen(DeafenMember { type_: StatusType::Toggle }));
    let run = run(action(details, None), 0, member(false, true, vec![]));
    assert_eq!(run.result, Ok(()));
    assert!(matches!(
        run.calls[1],
        Request::UpdateMember { update: MemberUpdate::Deaf(false), .. }
    ));
}

#[test]
fn failed_member_lookup_is_hard() {
    let run = run(action(mute(StatusType::Toggle), Some(60)), 0, |_| Reply::Failed);
    assert_eq!(run.result, Err(ActionError::CallFailed));
    assert_eq!(run.calls.len(), 1);
    assert!(run.reports.is_empty());
}

#[test]
fn delete_messages_by_count() {
    let del = |ids: Vec<u64>| {
        Some(Details::DeleteMessages(DeleteMessages { channel_id: 5, message_ids: ids }))
    };
    let run0 = run(action(del(vec![]), None), 0, ok);
    assert_eq!(run0.result, Ok(()));
    assert!(run0.calls.is_empty());

    let run1 = run(action(del(vec![7]), None), 0, ok);
    assert_eq!(run1.calls.len(), 1);
    assert!(matches!(run1.calls[0], Request::DeleteMessage { channel_id: 5, message_id: 7 }));

    let run2 = run(action(del(vec![7, 8]), None), 0, ok);
    assert_eq!(run2.calls.len(), 1);
    match &run2.calls[0] {
        Request::DeleteMessages { channel_id, message_ids } => {
            assert_eq!(*channel_id, 5);
            assert_eq!(message_ids, &vec![7, 8]);
        }
        other => panic!("unexpected request {:?}", other),
    }
}

#[test]
fn direct_message_failure_is_soft() {
    let details = Some(Details::DirectMessage(DirectMessage { content: "hi".to_string() }));
    let run = run(action(details, None), 0, |_| Reply::Failed);
    assert_eq!(run.result, Ok(()));
    assert_eq!(run.calls.len(), 1);
    assert!(matches!(run.calls[0], Request::OpenDirectChannel { user_id: 20 }));
    assert_eq!(
        run.reports,
        vec![SoftFailure { kind: ActionKind::DirectMessage, guild_id: 10, user_id: 20 }]
    );
}

#[test]
fn direct_message_goes_to_opened_channel() {
    let details = Some(Details::DirectMessage(DirectMessage { content: "hi".to_string() }));
    let run = run(action(details, None), 0, |r| match r {
        Request::OpenDirectChannel { .. } => Reply::Channel(99),
        _ => Reply::Done,
    });
    assert_eq!(run.result, Ok(()));
    match &run.calls[1] {
        Request::CreateMessage { channel_id, content } => {
            assert_eq!(*channel_id, 99);
            assert_eq!(content, "hi");
        }
        other => panic!("unexpected request {:?}", other),
    }
}

#[test]
fn send_message_failure_is_soft() {
    let details =
        Some(Details::SendMessage(SendMessage { channel_id: 3, content: "note".to_string() }));
    let run = run(action(details, None), 0, |_| Reply::Failed);
    assert_eq!(run.result, Ok(()));
    assert!(matches!(run.calls[0], Request::CreateMessage { channel_id: 3, .. }));
    assert_eq!(run.reports.len(), 1);
    assert_eq!(run.reports[0].kind, ActionKind::SendMessage);
}

#[test]
fn change_role_without_roles_is_noop() {
    let details =
        Some(Details::ChangeRole(ChangeRole { type_: StatusType::Apply, role_ids: vec![] }));
    let run = run(action(details, None), 0, ok);
    assert_eq!(run.result, Ok(()));
    assert!(run.calls.is_empty());
}

#[test]
fn change_role_apply_unapply_toggle() {
    let change = |type_, ids: Vec<u64>| {
        Some(Details::ChangeRole(ChangeRole { type_, role_ids: ids }))
    };
    let applied = run(action(change(StatusType::Apply, vec![2, 3]), None), 0, member(false, false, vec![1, 2]));
    assert_eq!(applied.result, Ok(()));
    assert_eq!(sorted_roles(&applied.calls[1]), vec![1, 2, 3]);

    let removed = run(action(change(StatusType::Unapply, vec![2, 3]), None), 0, member(false, false, vec![1, 2]));
    assert_eq!(sorted_roles(&removed.calls[1]), vec![1]);

    let toggled = run(action(change(StatusType::Toggle, vec![2, 3, 3]), None), 0, member(false, false, vec![1, 2]));
    assert_eq!(sorted_roles(&toggled.calls[1]), vec![1, 3]);
}

#[test]
fn negative_escalation_reverts() {
    let details = Some(Details::Escalate(EscalateMember { amount: -3 }));
    let run1 = run(action(details.clone(), None), 0, ok);
    assert_eq!(run1.result, Ok(()));
    match &run1.calls[0] {
        Request::ApplyDelta { guild_id, user_id, authorizer, reason, diff, execute } => {
            assert_eq!((*guild_id, *user_id, *authorizer), (10, 20, 42));
            assert_eq!(reason, "rule broken");
            assert_eq!(*diff, -3);
            assert!(!*execute);
        }
        other => panic!("unexpected request {:?}", other),
    }
    let run2 = run(action(details, None), 0, |_| Reply::Failed);
    assert_eq!(run2.result, Err(ActionError::CallFailed));
}

#[test]
fn positive_escalation_executes() {
    let details = Some(Details::Escalate(EscalateMember { amount: 2 }));
    let run = run(action(details, None), 0, ok);
    assert!(matches!(run.calls[0], Request::ApplyDelta { diff: 2, execute: true, .. }));
}

#[test]
fn kick_failure_is_hard() {
    let run1 = run(action(Some(Details::Kick), None), 0, ok);
    assert_eq!(run1.result, Ok(()));
    assert!(matches!(run1.calls[0], Request::RemoveMember { guild_id: 10, user_id: 20, .. }));
    let run2 = run(action(Some(Details::Kick), None), 0, |_| Reply::Failed);
    assert_eq!(run2.result, Err(ActionError::CallFailed));
}

#[test]
fn missing_details_is_rejected_without_calls() {
    let run = run(action(None, None), 0, ok);
    assert_eq!(run.result, Err(ActionError::MissingDetails));
    assert!(run.calls.is_empty());
}

#[test]
fn duration_on_non_invertible_kind_is_rejected_before_calls() {
    let run1 = run(action(Some(Details::Kick), Some(60)), 0, ok);
    assert_eq!(run1.result, Err(ActionError::NotInvertible));
    assert!(run1.calls.is_empty());
    let softban =
        Some(Details::Ban(BanMember { type_: BanType::Softban, delete_message_days: 0 }));
    let run2 = run(action(softban, Some(60)), 0, ok);
    assert_eq!(run2.result, Err(ActionError::NotInvertible));
    assert!(run2.calls.is_empty());
}

#[test]
fn failed_enqueue_is_an_error() {
    let run = run(action(mute(StatusType::Apply), Some(60)), 5, |r| match r {
        Request::Enqueue(_) => Reply::Failed,
        _ => Reply::Done,
    });
    assert_eq!(run.result, Err(ActionError::CallFailed));
    assert_eq!(run.calls.len(), 2);
}

#[test]
fn soft_failure_still_schedules_nothing_extra() {
    let details =
        Some(Details::SendMessage(SendMessage { channel_id: 3, content: "x".to_string() }));
    let run = run(action(details, Some(60)), 0, ok);
    assert_eq!(run.result, Err(ActionError::NotInvertible));
}

#[test]
fn finished_run_stays_finished() {
    let ex = executor();
    let mut exec = Execution::new(action(Some(Details::Kick), None));
    assert!(matches!(ex.advance(&mut exec, Reply::Done, 0), Step::Call(_)));
    assert!(matches!(ex.advance(&mut exec, Reply::Done, 0), Step::Finish(Ok(()))));
    assert!(matches!(exec.stage, Stage::Finished(Ok(()))));
    assert!(matches!(ex.advance(&mut exec, Reply::Failed, 0), Step::Finish(Ok(()))));
}

#[test]
fn execute_action_uses_current_time() {
    let ex = executor();
    let mut exec = Execution::new(action(mute(StatusType::Apply), Some(60)));
    assert!(matches!(ex.execute_action(&mut exec, Reply::Done), Step::Call(_)));
    match ex.execute_action(&mut exec, Reply::Done) {
        Step::Call(Request::Enqueue(pending)) => {
            assert!(pending.due_at > 1_600_000_000 + 60);
            assert!(matches!(
                pending.action.details,
                Some(Details::Mute(MuteMember { type_: StatusType::Unapply }))
            ));
        }
        other => panic!("unexpected step {:?}", other),
    }
}

#[test]
fn invert_twice_gives_back_action() {
    let cases = vec![
        Some(Details::Ban(BanMember { type_: BanType::Ban, delete_message_days: 3 })),
        Some(Details::Ban(BanMember { type_: BanType::Unban, delete_message_days: 0 })),
        Some(Details::Escalate(EscalateMember { amount: 5 })),
        mute(StatusType::Apply),
        mute(StatusType::Toggle),
        Some(Details::Deafen(DeafenMember { type_: StatusType::Unapply })),
        Some(Details::ChangeRole(ChangeRole { type_: StatusType::Apply, role_ids: vec![4, 5] })),
    ];
    for details in cases {
        let a = action(details, None);
        let once = invert_action(&a).unwrap();
        let twice = invert_action(&once).unwrap();
        assert_eq!(format!("{:?}", twice), format!("{:?}", a));
    }
}

#[test]
fn invert_swaps_and_negates() {
    let a = action(Some(Details::Escalate(EscalateMember { amount: 5 })), Some(60));
    let inv = invert_action(&a).unwrap();
    assert_eq!(inv.duration, None);
    assert!(matches!(inv.details, Some(Details::Escalate(EscalateMember { amount: -5 }))));
    assert_eq!(invert_status(StatusType::Apply), StatusType::Unapply);
    assert_eq!(invert_status(StatusType::Unapply), StatusType::Apply);
    assert_eq!(invert_status(StatusType::Toggle), StatusType::Toggle);
}

#[test]
fn invert_rejects_non_invertible() {
    let softban = Some(Details::Ban(BanMember { type_: BanType::Softban, delete_message_days: 1 }));
    for details in [
        softban,
        Some(Details::Kick),
        Some(Details::DirectMessage(DirectMessage { content: "a".to_string() })),
        Some(Details::SendMessage(SendMessage { channel_id: 1, content: "a".to_string() })),
        Some(Details::DeleteMessages(DeleteMessages { channel_id: 1, message_ids: vec![1] })),
        Some(Details::Escalate(EscalateMember { amount: i64::MIN })),
    ] {
        assert_eq!(invert_action(&action(details, None)).err(), Some(ActionError::NotInvertible));
    }
    assert_eq!(invert_action(&action(None, None)).err(), Some(ActionError::MissingDetails));
}

#[test]
fn due_time_adds_and_saturates() {
    assert_eq!(due_at(100, 50), 150);
    assert_eq!(due_at(-100, 50), -50);
    assert_eq!(due_at(i64::MAX - 1, 5), i64::MAX);
    assert_eq!(due_at(0, u64::MAX), i64::MAX);
}

#[test]
fn schedule_reversal_only_with_duration() {
    assert!(schedule_reversal(&action(Some(Details::Kick), None), 0).unwrap().is_none());
    let pending = schedule_reversal(&action(mute(StatusType::Toggle), Some(30)), 70).unwrap().unwrap();
    assert_eq!(pending.due_at, 100);
    assert_eq!(
        schedule_reversal(&action(Some(Details::Kick), Some(30)), 0).err(),
        Some(ActionError::NotInvertible)
    );
}

#[test]
fn executor_getters() {
    let ex = ActionExecutor::new(User { id: 7, name: "bot".to_string() }, 1u8, "store");
    assert_eq!(ex.current_user().id, 7);
    assert_eq!(*ex.http(), 1u8);
    assert_eq!(*ex.storage(), "store");
}
