use vstd::prelude::*;
use crate::action::{
    action_inverse, invert_action, Action, ActionError, ActionModel, BanMember, BanType,
    ChangeRole, DeafenMember, DeleteMessages, Details, DetailsModel, DirectMessage,
    EscalateMember, MuteMember, SendMessage, StatusType,
};
use crate::request::{
    calls_of, request_wf, Call, MemberUpdate, PendingAction, Reply, ReplyModel, Request,
    UpdateModel,
};
use crate::roles::{role_result, updated_roles};

verus! {

/// Number of seconds in one day.
pub const SECONDS_IN_DAY: u64 = 86400;

/// The bot's own user, recorded as the authorizer of escalations.
#[derive(Clone, Debug)]
pub struct User {
    pub id: u64,
    pub name: String,
}

/// The kind of an action, as reported when it fails.
#[derive(Clone, Copy, Debug, PartialEq, Eq, Structural)]
pub enum ActionKind {
    Kick,
    Ban,
    Escalate,
    Mute,
    Deafen,
    ChangeRole,
    DirectMessage,
    SendMessage,
    DeleteMessages,
}

/// A failure of a messaging action, which is logged and otherwise ignored.
#[derive(Clone, Copy, Debug, PartialEq, Eq, Structural)]
pub struct SoftFailure {
    pub kind: ActionKind,
    pub guild_id: u64,
    pub user_id: u64,
}

/// Where an execution stands.
#[derive(Clone, Copy, Debug)]
pub enum Stage {
    /// Nothing has been asked yet.
    Start,
    /// Waiting for the read that the handler needs before it writes.
    Reading,
    /// Waiting for the reply to the handler's write with this index.
    Writing(usize),
    /// A soft failure was reported; the action still counts as done.
    Reported,
    /// Waiting for the reversal to be enqueued.
    Scheduling,
    /// The execution is over, with this outcome.
    Finished(Result<(), ActionError>),
}

/// What the caller of the executor does next.
#[derive(Debug)]
pub enum Step {
    /// Perform this request and hand back its reply.
    Call(Request),
    /// Log this failure and hand back `Reply::Done`.
    Report(SoftFailure),
    /// The execution is over.
    Finish(Result<(), ActionError>),
}

pub ghost enum StepModel {
    Call(Call),
    Report(SoftFailure),
    Finish(Result<(), ActionError>),
}

impl View for Step {
    type V = StepModel;

    open spec fn view(&self) -> StepModel {
        match self {
            Step::Call(r) => StepModel::Call(r@),
            Step::Report(f) => StepModel::Report(*f),
            Step::Finish(r) => StepModel::Finish(*r),
        }
    }
}

/// One run of one action: the action, where the run stands, and the writes
/// that its handler decided on.
#[derive(Clone, Debug)]
pub struct Execution {
    pub action: Action,
    pub stage: Stage,
    pub writes: Vec<Request>,
}

pub ghost struct ExecutionModel {
    pub action: ActionModel,
    pub stage: Stage,
    pub writes: Seq<Call>,
}

impl View for Execution {
    type V = ExecutionModel;

    open spec fn view(&self) -> ExecutionModel {
        ExecutionModel { action: self.action@, stage: self.stage, writes: calls_of(self.writes@) }
    }
}

impl Execution {
    /// A run of `action` that has not started.
    pub fn new(action: Action) -> (r: Execution)
        ensures
            r.action == action,
            r.stage == Stage::Start,
            r.writes@.len() == 0,
    {
        Execution { action, stage: Stage::Start, writes: Vec::new() }
    }
}

/// Whether failures of `d` abort the action (hard) rather than being logged.
pub open spec fn is_hard(d: DetailsModel) -> bool {
    !(d is DirectMessage || d is SendMessage || d is DeleteMessages)
}

pub open spec fn kind_of(d: DetailsModel) -> ActionKind {
    match d {
        DetailsModel::Kick => ActionKind::Kick,
        DetailsModel::Ban { .. } => ActionKind::Ban,
        DetailsModel::Escalate { .. } => ActionKind::Escalate,
        DetailsModel::Mute { .. } => ActionKind::Mute,
        DetailsModel::Deafen { .. } => ActionKind::Deafen,
        DetailsModel::ChangeRole { .. } => ActionKind::ChangeRole,
        DetailsModel::DirectMessage { .. } => ActionKind::DirectMessage,
        DetailsModel::SendMessage { .. } => ActionKind::SendMessage,
        DetailsModel::DeleteMessages { .. } => ActionKind::DeleteMessages,
    }
}

/// The read a handler makes before it decides what to write: toggles and
/// non-empty role changes look the member up, direct messages open a channel.
pub open spec fn read_call(a: ActionModel) -> Option<Call> {
    let member = Call::GetMember { guild_id: a.guild_id, user_id: a.user_id };
    match a.details {
        Some(DetailsModel::Mute { type_ }) => if type_ == StatusType::Toggle {
            Some(member)
        } else {
            None
        },
        Some(DetailsModel::Deafen { type_ }) => if type_ == StatusType::Toggle {
            Some(member)
        } else {
            None
        },
        Some(DetailsModel::ChangeRole { role_ids, .. }) => if role_ids.len() > 0 {
            Some(member)
        } else {
            None
        },
        Some(DetailsModel::DirectMessage { .. }) => Some(
            Call::OpenDirectChannel { user_id: a.user_id },
        ),
        _ => None,
    }
}

/// Whether `reply` is what the read of `a` returns on success.
pub open spec fn reply_fits(a: ActionModel, reply: ReplyModel) -> bool {
    match read_call(a) {
        Some(Call::GetMember { .. }) => reply is Member,
        Some(Call::OpenDirectChannel { .. }) => reply is Channel,
        _ => !(reply is Failed),
    }
}

/// The flag value that a status action writes, given the current one.
pub open spec fn status_target(type_: StatusType, current: bool) -> bool {
    match type_ {
        StatusType::Apply => true,
        StatusType::Unapply => false,
        StatusType::Toggle => !current,
    }
}

pub open spec fn read_mute(read: ReplyModel) -> bool {
    match read {
        ReplyModel::Member { mute, .. } => mute,
        _ => false,
    }
}

pub open spec fn read_deaf(read: ReplyModel) -> bool {
    match read {
        ReplyModel::Member { deaf, .. } => deaf,
        _ => false,
    }
}

pub open spec fn read_roles(read: ReplyModel) -> Seq<u64> {
    match read {
        ReplyModel::Member { roles, .. } => roles,
        _ => Seq::empty(),
    }
}

pub open spec fn read_channel(read: ReplyModel) -> u64 {
    match read {
        ReplyModel::Channel(c) => c,
        _ => 0,
    }
}

/// The writes a handler makes for `a`, in order, once its read (if any)
/// returned `read`; `authorizer` is the bot's own user.
pub open spec fn write_calls(a: ActionModel, authorizer: u64, read: ReplyModel) -> Seq<Call> {
    let (g, u, reason) = (a.guild_id, a.user_id, a.reason);
    match a.details {
        None => seq![],
        Some(DetailsModel::Kick) => seq![Call::RemoveMember { guild_id: g, user_id: u, reason }],
        Some(DetailsModel::Ban { type_, delete_message_days }) => {
            let ban = Call::CreateBan {
                guild_id: g,
                user_id: u,
                reason,
                delete_message_seconds: (delete_message_days * SECONDS_IN_DAY) as u64,
            };
            let unban = Call::DeleteBan { guild_id: g, user_id: u, reason };
            match type_ {
                BanType::Ban => seq![ban],
                BanType::Unban => seq![unban],
                BanType::Softban => seq![ban, unban],
            }
        },
        Some(DetailsModel::Escalate { amount }) => seq![
            Call::ApplyDelta {
                guild_id: g,
                user_id: u,
                authorizer,
                reason,
                diff: amount,
                execute: amount >= 0,
            },
        ],
        Some(DetailsModel::Mute { type_ }) => seq![
            Call::UpdateMember {
                guild_id: g,
                user_id: u,
                update: UpdateModel::Mute(status_target(type_, read_mute(read))),
                reason,
            },
        ],
        Some(DetailsModel::Deafen { type_ }) => seq![
            Call::UpdateMember {
                guild_id: g,
                user_id: u,
                update: UpdateModel::Deaf(status_target(type_, read_deaf(read))),
                reason,
            },
        ],
        Some(DetailsModel::ChangeRole { type_, role_ids }) => if role_ids.len() == 0 {
            seq![]
        } else {
            seq![
                Call::UpdateMember {
                    guild_id: g,
                    user_id: u,
                    update: UpdateModel::Roles(
                        role_result(read_roles(read).to_set(), type_, role_ids.to_set()),
                    ),
                    reason,
                },
            ]
        },
        Some(DetailsModel::DirectMessage { content }) => seq![
            Call::CreateMessage { channel_id: read_channel(read), content },
        ],
        Some(DetailsModel::SendMessage { channel_id, content }) => seq![
            Call::CreateMessage { channel_id, content },
        ],
        Some(DetailsModel::DeleteMessages { channel_id, message_ids }) => if message_ids.len()
            == 0 {
            seq![]
        } else if message_ids.len() == 1 {
            seq![Call::DeleteMessage { channel_id, message_id: message_ids[0] }]
        } else {
            seq![Call::DeleteMessages { channel_id, message_ids }]
        },
    }
}

/// The time `duration` seconds after `now`, or the largest time where that
/// is out of range.
pub open spec fn due_time(now: i64, duration: u64) -> i64 {
    if now + duration > i64::MAX {
        i64::MAX
    } else {
        (now + duration) as i64
    }
}

/// The reversal to schedule for `a` at time `now`: none without a duration,
/// otherwise the inverse of `a` due `duration` seconds later.
pub open spec fn reversal(a: ActionModel, now: i64) -> Result<Option<Call>, ActionError> {
    match a.duration {
        None => Ok(None),
        Some(d) => match action_inverse(a) {
            Some(inv) => Ok(Some(Call::Enqueue { action: inv, due_at: due_time(now, d) })),
            None => Err(
                if a.details is None {
                    ActionError::MissingDetails
                } else {
                    ActionError::NotInvertible
                },
            ),
        },
    }
}

pub open spec fn finished(r: Result<(), ActionError>, step: StepModel, stage: Stage) -> bool {
    step == StepModel::Finish(r) && stage == Stage::Finished(r)
}

/// The step once the primary action is done: schedule its reversal, or
/// finish.
pub open spec fn after_primary(a: ActionModel, now: i64, step: StepModel, stage: Stage) -> bool {
    match reversal(a, now) {
        Ok(Some(c)) => step == StepModel::Call(c) && stage == Stage::Scheduling,
        Ok(None) => finished(Ok(()), step, stage),
        Err(e) => finished(Err(e), step, stage),
    }
}

/// The step once the first `j` writes succeeded.
pub open spec fn continues(
    a: ActionModel,
    writes: Seq<Call>,
    j: int,
    now: i64,
    step: StepModel,
    stage: Stage,
) -> bool {
    if j < writes.len() {
        step == StepModel::Call(writes[j]) && stage == Stage::Writing(j as usize)
    } else {
        after_primary(a, now, step, stage)
    }
}

/// The step once a call of the handler failed: hard failures end the run
/// with an error, soft ones are reported.
pub open spec fn handler_failed(a: ActionModel, step: StepModel, stage: Stage) -> bool {
    match a.details {
        Some(d) => if is_hard(d) {
            finished(Err(ActionError::CallFailed), step, stage)
        } else {
            step == StepModel::Report(
                SoftFailure { kind: kind_of(d), guild_id: a.guild_id, user_id: a.user_id },
            ) && stage == Stage::Reported
        },
        None => finished(Err(ActionError::MissingDetails), step, stage),
    }
}

/// One transition of a run: from `e`, on `reply` to the last step, at time
/// `now`, the run moves to `e2` and asks for `step`.
pub open spec fn steps_to(
    authorizer: u64,
    e: ExecutionModel,
    reply: ReplyModel,
    now: i64,
    e2: ExecutionModel,
    step: StepModel,
) -> bool {
    let a = e.action;
    &&& e2.action == a
    &&& match e.stage {
        Stage::Start => match a.details {
            None => e2.writes == e.writes && finished(
                Err(ActionError::MissingDetails),
                step,
                e2.stage,
            ),
            Some(_) => if a.duration is Some && action_inverse(a) is None {
                e2.writes == e.writes && finished(Err(ActionError::NotInvertible), step, e2.stage)
            } else {
                match read_call(a) {
                    Some(c) => e2.writes == e.writes && step == StepModel::Call(c) && e2.stage
                        == Stage::Reading,
                    None => e2.writes == write_calls(a, authorizer, ReplyModel::Done) && continues(
                        a,
                        e2.writes,
                        0,
                        now,
                        step,
                        e2.stage,
                    ),
                }
            },
        },
        Stage::Reading => if reply_fits(a, reply) {
            e2.writes == write_calls(a, authorizer, reply) && continues(
                a,
                e2.writes,
                0,
                now,
                step,
                e2.stage,
            )
        } else {
            e2.writes == e.writes && handler_failed(a, step, e2.stage)
        },
        Stage::Writing(i) => e2.writes == e.writes && if reply is Failed {
            handler_failed(a, step, e2.stage)
        } else {
            continues(a, e.writes, i + 1, now, step, e2.stage)
        },
        Stage::Reported => e2.writes == e.writes && after_primary(a, now, step, e2.stage),
        Stage::Scheduling => e2.writes == e.writes && if reply is Failed {
            finished(Err(ActionError::CallFailed), step, e2.stage)
        } else {
            finished(Ok(()), step, e2.stage)
        },
        Stage::Finished(r) => e2 == e && step == StepModel::Finish(r),
    }
}

/// A messaging action never ends with a call failure before its reversal is
/// scheduled: failures of its own calls are only reported.
pub proof fn lemma_soft_failures_do_not_fail(
    authorizer: u64,
    e: ExecutionModel,
    reply: ReplyModel,
    now: i64,
    e2: ExecutionModel,
    step: StepModel,
)
    requires
        e.action.details matches Some(d) && !is_hard(d),
        !(e.stage is Scheduling),
        !(e.stage is Finished),
        steps_to(authorizer, e, reply, now, e2, step),
    ensures
        step != StepModel::Finish(Err(ActionError::CallFailed)),
{
}

/// A kick, ban, escalation, mute, deafen or role change whose call failed
/// ends the run with that failure, and schedules nothing.
pub proof fn lemma_hard_failures_end_the_run(
    authorizer: u64,
    e: ExecutionModel,
    now: i64,
    e2: ExecutionModel,
    step: StepModel,
)
    requires
        e.action.details matches Some(d) && is_hard(d),
        e.stage is Reading || e.stage is Writing,
        steps_to(authorizer, e, ReplyModel::Failed, now, e2, step),
    ensures
        step == StepModel::Finish(Err(ActionError::CallFailed)),
        e2.stage == Stage::Finished(Err(ActionError::CallFailed)),
{
}

/// Relies on chrono::Utc::now and DateTime::timestamp: the current time, in
/// whole seconds since the Unix epoch.
#[verifier::external_body]
fn unix_now() -> (r: i64) {
    chrono::Utc::now().timestamp()
}

/// Returns the time `duration` seconds after `now`, saturating at the largest
/// representable time.
pub fn due_at(now: i64, duration: u64) -> (r: i64)
    ensures
        r == due_time(now, duration),
{
    let sum: i128 = now as i128 + duration as i128;
    if sum > i64::MAX as i128 {
        i64::MAX
    } else {
        sum as i64
    }
}

/// Returns the reversal to schedule for `action` at time `now`, if it carries
/// a duration.
pub fn schedule_reversal(action: &Action, now: i64) -> (r: Result<Option<PendingAction>, ActionError>)
    ensures
        match (r, reversal(action@, now)) {
            (Ok(Some(p)), Ok(Some(c))) => Request::Enqueue(p)@ == c,
            (Ok(None), Ok(None)) => true,
            (Err(e1), Err(e2)) => e1 == e2,
            _ => false,
        },
{
    match action.duration {
        None => Ok(None),
        Some(d) => match invert_action(action) {
            Ok(inverse) => Ok(Some(PendingAction { action: inverse, due_at: due_at(now, d) })),
            Err(e) => Err(e),
        },
    }
}

fn single(r: Request) -> (v: Vec<Request>)
    ensures
        v@ == seq![r],
        calls_of(v@) == seq![r@],
{
    let mut v: Vec<Request> = Vec::new();
    v.push(r);
    assert(calls_of(v@) =~= seq![r@]);
    v
}

fn no_requests() -> (v: Vec<Request>)
    ensures
        v@ == Seq::<Request>::empty(),
        calls_of(v@) == Seq::<Call>::empty(),
{
    let v: Vec<Request> = Vec::new();
    assert(calls_of(v@) =~= Seq::<Call>::empty());
    v
}

/// Whether every request in `v` is well formed.
pub open spec fn all_wf(v: Seq<Request>) -> bool {
    forall|i: int| 0 <= i < v.len() ==> request_wf(#[trigger] v[i])
}

fn status_value(type_: StatusType, current: bool) -> (r: bool)
    ensures
        r == status_target(type_, current),
{
    match type_ {
        StatusType::Apply => true,
        StatusType::Unapply => false,
        StatusType::Toggle => !current,
    }
}

fn member_reply_fits(action: &Action, reply: &Reply) -> (r: bool)
    ensures
        r == reply_fits(action@, reply@),
{
    let wants_member = match &action.details {
        Some(Details::Mute(info)) => info.type_ == StatusType::Toggle,
        Some(Details::Deafen(info)) => info.type_ == StatusType::Toggle,
        Some(Details::ChangeRole(info)) => info.role_ids.len() > 0,
        _ => false,
    };
    let wants_channel = match &action.details {
        Some(Details::DirectMessage(_)) => true,
        _ => false,
    };
    if wants_member {
        matches!(reply, Reply::Member(_))
    } else if wants_channel {
        matches!(reply, Reply::Channel(_))
    } else {
        !matches!(reply, Reply::Failed)
    }
}

fn is_hard_details(d: &Details) -> (r: bool)
    ensures
        r == is_hard(d@),
{
    match d {
        Details::DirectMessage(_) | Details::SendMessage(_) | Details::DeleteMessages(_) => false,
        _ => true,
    }
}

fn kind_of_details(d: &Details) -> (r: ActionKind)
    ensures
        r == kind_of(d@),
{
    match d {
        Details::Kick => ActionKind::Kick,
        Details::Ban(_) => ActionKind::Ban,
        Details::Escalate(_) => ActionKind::Escalate,
        Details::Mute(_) => ActionKind::Mute,
        Details::Deafen(_) => ActionKind::Deafen,
        Details::ChangeRole(_) => ActionKind::ChangeRole,
        Details::DirectMessage(_) => ActionKind::DirectMessage,
        Details::SendMessage(_) => ActionKind::SendMessage,
        Details::DeleteMessages(_) => ActionKind::DeleteMessages,
    }
}

/// Interprets actions: decides, step by step, the calls into the platform,
/// the escalation store and the reversal scheduler that realise each one.
/// The executor holds no state of a run; each run lives in an `Execution`.
#[derive(Clone)]
pub struct ActionExecutor<H, S> {
    current_user: User,
    http: H,
    storage: S,
}

impl<H, S> ActionExecutor<H, S> {
    pub closed spec fn spec_current_user(&self) -> User {
        self.current_user
    }

    pub closed spec fn spec_http(&self) -> H {
        self.http
    }

    pub closed spec fn spec_storage(&self) -> S {
        self.storage
    }

    /// The id recorded as the authorizer of escalations.
    pub open spec fn authorizer(&self) -> u64 {
        self.spec_current_user().id
    }

    pub fn new(current_user: User, http: H, storage: S) -> (r: Self)
        ensures
            r.spec_current_user() == current_user,
            r.spec_http() == http,
            r.spec_storage() == storage,
    {
        ActionExecutor { current_user, http, storage }
    }

    pub fn current_user(&self) -> (r: &User)
        ensures
            *r == self.spec_current_user(),
    {
        &self.current_user
    }

    pub fn http(&self) -> (r: &H)
        ensures
            *r == self.spec_http(),
    {
        &self.http
    }

    pub fn storage(&self) -> (r: &S)
        ensures
            *r == self.spec_storage(),
    {
        &self.storage
    }

    fn execute_kick(&self, action: &Action) -> (r: Vec<Request>)
        requires
            action.details == Some(Details::Kick),
        ensures
            forall|read: ReplyModel| calls_of(r@) == write_calls(action@, self.authorizer(), read),
            all_wf(r@),
    {
        single(
            Request::RemoveMember {
                guild_id: action.guild_id,
                user_id: action.user_id,
                reason: action.reason.clone(),
            },
        )
    }

    fn execute_ban(&self, action: &Action, info: &BanMember) -> (r: Vec<Request>)
        requires
            action.details == Some(Details::Ban(*info)),
        ensures
            forall|read: ReplyModel| calls_of(r@) == write_calls(action@, self.authorizer(), read),
            all_wf(r@),
    {
        let mut r: Vec<Request> = Vec::new();
        if info.type_ != BanType::Unban {
            r.push(
                Request::CreateBan {
                    guild_id: action.guild_id,
                    user_id: action.user_id,
                    reason: action.reason.clone(),
                    delete_message_seconds: info.delete_message_days as u64 * SECONDS_IN_DAY,
                },
            );
        }
        if info.type_ != BanType::Ban {
            r.push(
                Request::DeleteBan {
                    guild_id: action.guild_id,
                    user_id: action.user_id,
                    reason: action.reason.clone(),
                },
            );
        }
        proof {
            let w = write_calls(action@, self.authorizer(), ReplyModel::Done);
            assert(calls_of(r@) =~= w);
        }
        r
    }

    fn execute_escalate(&self, action: &Action, info: &EscalateMember) -> (r: Vec<Request>)
        requires
            action.details == Some(Details::Escalate(*info)),
        ensures
            forall|read: ReplyModel| calls_of(r@) == write_calls(action@, self.authorizer(), read),
            all_wf(r@),
    {
        single(
            Request::ApplyDelta {
                guild_id: action.guild_id,
                user_id: action.user_id,
                authorizer: self.current_user.id,
                reason: action.reason.clone(),
                diff: info.amount,
                execute: info.amount >= 0,
            },
        )
    }

    fn execute_mute(&self, action: &Action, info: &MuteMember, read: &Reply) -> (r: Vec<Request>)
        requires
            action.details == Some(Details::Mute(*info)),
        ensures
            calls_of(r@) == write_calls(action@, self.authorizer(), read@),
            all_wf(r@),
    {
        let current = match read {
            Reply::Member(m) => m.mute,
            _ => false,
        };
        single(
            Request::UpdateMember {
                guild_id: action.guild_id,
                user_id: action.user_id,
                update: MemberUpdate::Mute(status_value(info.type_, current)),
                reason: action.reason.clone(),
            },
        )
    }

    fn execute_deafen(&self, action: &Action, info: &DeafenMember, read: &Reply) -> (r: Vec<
        Request,
    >)
        requires
            action.details == Some(Details::Deafen(*info)),
        ensures
            calls_of(r@) == write_calls(action@, self.authorizer(), read@),
            all_wf(r@),
    {
        let current = match read {
            Reply::Member(m) => m.deaf,
            _ => false,
        };
        single(
            Request::UpdateMember {
                guild_id: action.guild_id,
                user_id: action.user_id,
                update: MemberUpdate::Deaf(status_value(info.type_, current)),
                reason: action.reason.clone(),
            },
        )
    }

    fn execute_change_role(&self, action: &Action, info: &ChangeRole, read: &Reply) -> (r: Vec<
        Request,
    >)
        requires
            action.details matches Some(Details::ChangeRole(c)) && c.type_ == info.type_
                && c.role_ids@ == info.role_ids@,
        ensures
            calls_of(r@) == write_calls(action@, self.authorizer(), read@),
            all_wf(r@),
    {
        if info.role_ids.len() == 0 {
            return no_requests();
        }
        let empty: Vec<u64> = Vec::new();
        let current = match read {
            Reply::Member(m) => &m.roles,
            _ => &empty,
        };
        let roles = updated_roles(current, info.type_, &info.role_ids);
        let r = single(
            Request::UpdateMember {
                guild_id: action.guild_id,
                user_id: action.user_id,
                update: MemberUpdate::Roles(roles),
                reason: action.reason.clone(),
            },
        );
        proof {
            assert(read_roles(read@) == current@);
        }
        r
    }

    fn execute_direct_message(&self, action: &Action, info: &DirectMessage, read: &Reply) -> (r:
        Vec<Request>)
        requires
            action.details matches Some(Details::DirectMessage(m)) && m.content@
                == info.content@,
        ensures
            calls_of(r@) == write_calls(action@, self.authorizer(), read@),
            all_wf(r@),
    {
        let channel_id = match read {
            Reply::Channel(c) => *c,
            _ => 0,
        };
        single(Request::CreateMessage { channel_id, content: info.content.clone() })
    }

    fn execute_send_message(&self, action: &Action, info: &SendMessage) -> (r: Vec<Request>)
        requires
            action.details matches Some(Details::SendMessage(m)) && m.channel_id
                == info.channel_id && m.content@ == info.content@,
        ensures
            forall|read: ReplyModel| calls_of(r@) == write_calls(action@, self.authorizer(), read),
            all_wf(r@),
    {
        single(
            Request::CreateMessage { channel_id: info.channel_id, content: info.content.clone() },
        )
    }

    fn execute_delete_messages(&self, action: &Action, info: &DeleteMessages) -> (r: Vec<
        Request,
    >)
        requires
            action.details matches Some(Details::DeleteMessages(m)) && m.channel_id
                == info.channel_id && m.message_ids@ == info.message_ids@,
        ensures
            forall|read: ReplyModel| calls_of(r@) == write_calls(action@, self.authorizer(), read),
            all_wf(r@),
    {
        let n = info.message_ids.len();
        if n == 0 {
            no_requests()
        } else if n == 1 {
            single(
                Request::DeleteMessage {
                    channel_id: info.channel_id,
                    message_id: info.message_ids[0],
                },
            )
        } else {
            single(
                Request::DeleteMessages {
                    channel_id: info.channel_id,
                    message_ids: crate::action::copy_ids(&info.message_ids),
                },
            )
        }
    }

    /// The read that `action`'s handler makes before it writes, if any.
    pub fn read_request(&self, action: &Action) -> (r: Option<Request>)
        ensures
            r is Some <==> read_call(action@) is Some,
            r matches Some(q) ==> read_call(action@) == Some(q@),
    {
        let member = Request::GetMember { guild_id: action.guild_id, user_id: action.user_id };
        match &action.details {
            Some(Details::Mute(info)) => if info.type_ == StatusType::Toggle {
                Some(member)
            } else {
                None
            },
            Some(Details::Deafen(info)) => if info.type_ == StatusType::Toggle {
                Some(member)
            } else {
                None
            },
            Some(Details::ChangeRole(info)) => if info.role_ids.len() > 0 {
                Some(member)
            } else {
                None
            },
            Some(Details::DirectMessage(_)) => Some(
                Request::OpenDirectChannel { user_id: action.user_id },
            ),
            _ => None,
        }
    }

    /// The writes that `action`'s handler makes, in order, once its read
    /// returned `read`.
    pub fn write_requests(&self, action: &Action, read: &Reply) -> (r: Vec<Request>)
        ensures
            calls_of(r@) == write_calls(action@, self.authorizer(), read@),
            all_wf(r@),
    {
        match &action.details {
            None => no_requests(),
            Some(Details::Kick) => self.execute_kick(action),
            Some(Details::Ban(info)) => self.execute_ban(action, info),
            Some(Details::Escalate(info)) => self.execute_escalate(action, info),
            Some(Details::Mute(info)) => self.execute_mute(action, info, read),
            Some(Details::Deafen(info)) => self.execute_deafen(action, info, read),
            Some(Details::ChangeRole(info)) => self.execute_change_role(action, info, read),
            Some(Details::DirectMessage(info)) => self.execute_direct_message(action, info, read),
            Some(Details::SendMessage(info)) => self.execute_send_message(action, info),
            Some(Details::DeleteMessages(info)) => self.execute_delete_messages(action, info),
        }
    }

    fn finish(exec: &mut Execution, r: Result<(), ActionError>) -> (step: Step)
        ensures
            finished(r, step@, final(exec).stage),
            final(exec).action == old(exec).action,
            final(exec).writes == old(exec).writes,
    {
        exec.stage = Stage::Finished(r);
        Step::Finish(r)
    }

    fn finish_primary(exec: &mut Execution, now: i64) -> (step: Step)
        ensures
            after_primary(old(exec).action@, now, step@, final(exec).stage),
            final(exec).action == old(exec).action,
            final(exec).writes == old(exec).writes,
    {
        match schedule_reversal(&exec.action, now) {
            Ok(Some(pending)) => {
                exec.stage = Stage::Scheduling;
                Step::Call(Request::Enqueue(pending))
            },
            Ok(None) => Self::finish(exec, Ok(())),
            Err(e) => Self::finish(exec, Err(e)),
        }
    }

    fn continue_from(exec: &mut Execution, j: usize, now: i64) -> (step: Step)
        ensures
            continues(
                old(exec).action@,
                calls_of(old(exec).writes@),
                j as int,
                now,
                step@,
                final(exec).stage,
            ),
            final(exec).action == old(exec).action,
            final(exec).writes == old(exec).writes,
    {
        if j < exec.writes.len() {
            let r = exec.writes[j].duplicate();
            exec.stage = Stage::Writing(j);
            Step::Call(r)
        } else {
            Self::finish_primary(exec, now)
        }
    }

    fn handler_failure(exec: &mut Execution) -> (step: Step)
        ensures
            handler_failed(old(exec).action@, step@, final(exec).stage),
            final(exec).action == old(exec).action,
            final(exec).writes == old(exec).writes,
    {
        match &exec.action.details {
            Some(d) => {
                if is_hard_details(d) {
                    Self::finish(exec, Err(ActionError::CallFailed))
                } else {
                    let failure = SoftFailure {
                        kind: kind_of_details(d),
                        guild_id: exec.action.guild_id,
                        user_id: exec.action.user_id,
                    };
                    exec.stage = Stage::Reported;
                    Step::Report(failure)
                }
            },
            None => Self::finish(exec, Err(ActionError::MissingDetails)),
        }
    }

    /// Moves `exec` on by one step, given the reply to its last step and the
    /// time `now`, and returns what the caller does next.
    ///
    /// A run asks for the handler's read, if any, then its writes in order,
    /// and after the handler succeeded the reversal of a time-bounded action.
    /// Failures of kick, ban, escalate, mute, deafen and role changes end the
    /// run with an error; failures of messaging actions are reported and the
    /// run goes on. An action without details, and a time-bounded action
    /// without an inverse, are rejected before any call.
    pub fn advance(&self, exec: &mut Execution, reply: Reply, now: i64) -> (step: Step)
        ensures
            steps_to(self.authorizer(), old(exec)@, reply@, now, final(exec)@, step@),
    {
        match exec.stage {
            Stage::Start => {
                if exec.action.details.is_none() {
                    return Self::finish(exec, Err(ActionError::MissingDetails));
                }
                if exec.action.duration.is_some() && invert_action(&exec.action).is_err() {
                    return Self::finish(exec, Err(ActionError::NotInvertible));
                }
                match self.read_request(&exec.action) {
                    Some(r) => {
                        exec.stage = Stage::Reading;
                        Step::Call(r)
                    },
                    None => {
                        exec.writes = self.write_requests(&exec.action, &Reply::Done);
                        Self::continue_from(exec, 0, now)
                    },
                }
            },
            Stage::Reading => {
                if member_reply_fits(&exec.action, &reply) {
                    exec.writes = self.write_requests(&exec.action, &reply);
                    Self::continue_from(exec, 0, now)
                } else {
                    Self::handler_failure(exec)
                }
            },
            Stage::Writing(i) => {
                if matches!(reply, Reply::Failed) {
                    Self::handler_failure(exec)
                } else {
                    let j = if i < exec.writes.len() {
                        i + 1
                    } else {
                        exec.writes.len()
                    };
                    Self::continue_from(exec, j, now)
                }
            },
            Stage::Reported => Self::finish_primary(exec, now),
            Stage::Scheduling => {
                if matches!(reply, Reply::Failed) {
                    Self::finish(exec, Err(ActionError::CallFailed))
                } else {
                    Self::finish(exec, Ok(()))
                }
            },
            Stage::Finished(r) => Step::Finish(r),
        }
    }

    /// Moves `exec` on by one step at the current time; see `advance`.
    pub fn execute_action(&self, exec: &mut Execution, reply: Reply) -> (step: Step)
        ensures
            exists|now: i64|
                steps_to(self.authorizer(), old(exec)@, reply@, now, final(exec)@, step@),
    {
        let now = unix_now();
        self.advance(exec, reply, now)
    }
}

} // verus!
