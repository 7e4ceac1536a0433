use vstd::prelude::*;
use crate::action::{copy_ids, Action, ActionModel};

verus! {

/// A member as the platform reports it.
#[derive(Clone, Debug)]
pub struct MemberSnapshot {
    pub mute: bool,
    pub deaf: bool,
    pub roles: Vec<u64>,
}

/// The one member property that a member update writes.
#[derive(Clone, Debug)]
pub enum MemberUpdate {
    Mute(bool),
    Deaf(bool),
    Roles(Vec<u64>),
}

/// An inverse action together with the time at which it is due.
#[derive(Clone, Debug)]
pub struct PendingAction {
    pub action: Action,
    /// Seconds since the Unix epoch.
    pub due_at: i64,
}

/// A call into the platform, the escalation store or the reversal scheduler.
#[derive(Clone, Debug)]
pub enum Request {
    RemoveMember { guild_id: u64, user_id: u64, reason: String },
    CreateBan { guild_id: u64, user_id: u64, reason: String, delete_message_seconds: u64 },
    DeleteBan { guild_id: u64, user_id: u64, reason: String },
    GetMember { guild_id: u64, user_id: u64 },
    UpdateMember { guild_id: u64, user_id: u64, update: MemberUpdate, reason: String },
    /// Fetches the member's escalation history and applies a signed delta to it.
    ApplyDelta {
        guild_id: u64,
        user_id: u64,
        authorizer: u64,
        reason: String,
        diff: i64,
        execute: bool,
    },
    OpenDirectChannel { user_id: u64 },
    CreateMessage { channel_id: u64, content: String },
    DeleteMessage { channel_id: u64, message_id: u64 },
    DeleteMessages { channel_id: u64, message_ids: Vec<u64> },
    Enqueue(PendingAction),
}

/// What came back from the last request.
#[derive(Clone, Debug)]
pub enum Reply {
    /// The request succeeded and returned nothing the executor reads.
    Done,
    /// The request failed or timed out.
    Failed,
    /// The member, as read by a member lookup.
    Member(MemberSnapshot),
    /// The channel opened by a direct-channel request.
    Channel(u64),
}

pub ghost enum UpdateModel {
    Mute(bool),
    Deaf(bool),
    Roles(Set<u64>),
}

/// The mathematical content of a request.
pub ghost enum Call {
    RemoveMember { guild_id: u64, user_id: u64, reason: Seq<char> },
    CreateBan { guild_id: u64, user_id: u64, reason: Seq<char>, delete_message_seconds: u64 },
    DeleteBan { guild_id: u64, user_id: u64, reason: Seq<char> },
    GetMember { guild_id: u64, user_id: u64 },
    UpdateMember { guild_id: u64, user_id: u64, update: UpdateModel, reason: Seq<char> },
    ApplyDelta {
        guild_id: u64,
        user_id: u64,
        authorizer: u64,
        reason: Seq<char>,
        diff: i64,
        execute: bool,
    },
    OpenDirectChannel { user_id: u64 },
    CreateMessage { channel_id: u64, content: Seq<char> },
    DeleteMessage { channel_id: u64, message_id: u64 },
    DeleteMessages { channel_id: u64, message_ids: Seq<u64> },
    Enqueue { action: ActionModel, due_at: i64 },
}

/// The mathematical content of a reply.
pub ghost enum ReplyModel {
    Done,
    Failed,
    Member { mute: bool, deaf: bool, roles: Seq<u64> },
    Channel(u64),
}

impl View for MemberUpdate {
    type V = UpdateModel;

    open spec fn view(&self) -> UpdateModel {
        match self {
            MemberUpdate::Mute(b) => UpdateModel::Mute(*b),
            MemberUpdate::Deaf(b) => UpdateModel::Deaf(*b),
            MemberUpdate::Roles(v) => UpdateModel::Roles(v@.to_set()),
        }
    }
}

impl View for Request {
    type V = Call;

    open spec fn view(&self) -> Call {
        match self {
            Request::RemoveMember { guild_id, user_id, reason } => Call::RemoveMember {
                guild_id: *guild_id,
                user_id: *user_id,
                reason: reason@,
            },
            Request::CreateBan { guild_id, user_id, reason, delete_message_seconds } =>
                Call::CreateBan {
                guild_id: *guild_id,
                user_id: *user_id,
                reason: reason@,
                delete_message_seconds: *delete_message_seconds,
            },
            Request::DeleteBan { guild_id, user_id, reason } => Call::DeleteBan {
                guild_id: *guild_id,
                user_id: *user_id,
                reason: reason@,
            },
            Request::GetMember { guild_id, user_id } => Call::GetMember {
                guild_id: *guild_id,
                user_id: *user_id,
            },
            Request::UpdateMember { guild_id, user_id, update, reason } => Call::UpdateMember {
                guild_id: *guild_id,
                user_id: *user_id,
                update: update@,
                reason: reason@,
            },
            Request::ApplyDelta { guild_id, user_id, authorizer, reason, diff, execute } =>
                Call::ApplyDelta {
                guild_id: *guild_id,
                user_id: *user_id,
                authorizer: *authorizer,
                reason: reason@,
                diff: *diff,
                execute: *execute,
            },
            Request::OpenDirectChannel { user_id } => Call::OpenDirectChannel {
                user_id: *user_id,
            },
            Request::CreateMessage { channel_id, content } => Call::CreateMessage {
                channel_id: *channel_id,
                content: content@,
            },
            Request::DeleteMessage { channel_id, message_id } => Call::DeleteMessage {
                channel_id: *channel_id,
                message_id: *message_id,
            },
            Request::DeleteMessages { channel_id, message_ids } => Call::DeleteMessages {
                channel_id: *channel_id,
                message_ids: message_ids@,
            },
            Request::Enqueue(p) => Call::Enqueue { action: p.action@, due_at: p.due_at },
        }
    }
}

impl View for Reply {
    type V = ReplyModel;

    open spec fn view(&self) -> ReplyModel {
        match self {
            Reply::Done => ReplyModel::Done,
            Reply::Failed => ReplyModel::Failed,
            Reply::Member(m) => ReplyModel::Member { mute: m.mute, deaf: m.deaf, roles: m.roles@ },
            Reply::Channel(c) => ReplyModel::Channel(*c),
        }
    }
}

/// Whether every role list in `r` names each role once.
pub open spec fn request_wf(r: Request) -> bool {
    match r {
        Request::UpdateMember { update: MemberUpdate::Roles(v), .. } => v@.no_duplicates(),
        _ => true,
    }
}

/// The views of a list of requests.
pub open spec fn calls_of(v: Seq<Request>) -> Seq<Call> {
    v.map_values(|r: Request| r@)
}

fn copy_update(u: &MemberUpdate) -> (r: MemberUpdate)
    ensures
        r@ == u@,
        u matches MemberUpdate::Roles(v) ==> (r matches MemberUpdate::Roles(w) && w@ == v@),
{
    match u {
        MemberUpdate::Mute(b) => MemberUpdate::Mute(*b),
        MemberUpdate::Deaf(b) => MemberUpdate::Deaf(*b),
        MemberUpdate::Roles(v) => MemberUpdate::Roles(copy_ids(v)),
    }
}

fn copy_action(a: &Action) -> (r: Action)
    ensures
        r@ == a@,
{
    let details = match &a.details {
        None => None,
        Some(d) => Some(crate::action::copy_details(d)),
    };
    Action {
        guild_id: a.guild_id,
        user_id: a.user_id,
        reason: a.reason.clone(),
        duration: a.duration,
        details,
    }
}

impl Request {
    /// A copy of this request with the same content.
    pub fn duplicate(&self) -> (r: Request)
        ensures
            r@ == self@,
            request_wf(*self) ==> request_wf(r),
    {
        match self {
            Request::RemoveMember { guild_id, user_id, reason } => Request::RemoveMember {
                guild_id: *guild_id,
                user_id: *user_id,
                reason: reason.clone(),
            },
            Request::CreateBan { guild_id, user_id, reason, delete_message_seconds } =>
                Request::CreateBan {
                guild_id: *guild_id,
                user_id: *user_id,
                reason: reason.clone(),
                delete_message_seconds: *delete_message_seconds,
            },
            Request::DeleteBan { guild_id, user_id, reason } => Request::DeleteBan {
                guild_id: *guild_id,
                user_id: *user_id,
                reason: reason.clone(),
            },
            Request::GetMember { guild_id, user_id } => Request::GetMember {
                guild_id: *guild_id,
                user_id: *user_id,
            },
            Request::UpdateMember { guild_id, user_id, update, reason } => Request::UpdateMember {
                guild_id: *guild_id,
                user_id: *user_id,
                update: copy_update(update),
                reason: reason.clone(),
            },
            Request::ApplyDelta { guild_id, user_id, authorizer, reason, diff, execute } =>
                Request::ApplyDelta {
                guild_id: *guild_id,
                user_id: *user_id,
                authorizer: *authorizer,
                reason: reason.clone(),
                diff: *diff,
                execute: *execute,
            },
            Request::OpenDirectChannel { user_id } => Request::OpenDirectChannel {
                user_id: *user_id,
            },
            Request::CreateMessage { channel_id, content } => Request::CreateMessage {
                channel_id: *channel_id,
                content: content.clone(),
            },
            Request::DeleteMessage { channel_id, message_id } => Request::DeleteMessage {
                channel_id: *channel_id,
                message_id: *message_id,
            },
            Request::DeleteMessages { channel_id, message_ids } => Request::DeleteMessages {
                channel_id: *channel_id,
                message_ids: copy_ids(message_ids),
            },
            Request::Enqueue(p) => Request::Enqueue(
                PendingAction { action: copy_action(&p.action), due_at: p.due_at },
            ),
        }
    }
}

} // verus!
