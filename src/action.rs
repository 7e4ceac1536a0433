use vstd::prelude::*;

verus! {

/// How a status-like action (mute, deafen, role change) is applied.
#[derive(Clone, Copy, Debug, PartialEq, Eq, Structural)]
pub enum StatusType {
    Apply,
    Unapply,
    Toggle,
}

/// The flavour of a ban action.
#[derive(Clone, Copy, Debug, PartialEq, Eq, Structural)]
pub enum BanType {
    Ban,
    Unban,
    Softban,
}

#[derive(Clone, Copy, Debug, PartialEq, Eq, Structural)]
pub struct BanMember {
    pub type_: BanType,
    pub delete_message_days: u32,
}

#[derive(Clone, Copy, Debug, PartialEq, Eq, Structural)]
pub struct EscalateMember {
    pub amount: i64,
}

#[derive(Clone, Copy, Debug, PartialEq, Eq, Structural)]
pub struct MuteMember {
    pub type_: StatusType,
}

#[derive(Clone, Copy, Debug, PartialEq, Eq, Structural)]
pub struct DeafenMember {
    pub type_: StatusType,
}

#[derive(Clone, Debug)]
pub struct ChangeRole {
    pub type_: StatusType,
    pub role_ids: Vec<u64>,
}

#[derive(Clone, Debug)]
pub struct DirectMessage {
    pub content: String,
}

#[derive(Clone, Debug)]
pub struct SendMessage {
    pub channel_id: u64,
    pub content: String,
}

#[derive(Clone, Debug)]
pub struct DeleteMessages {
    pub channel_id: u64,
    pub message_ids: Vec<u64>,
}

/// The kind-specific payload of an action.
#[derive(Clone, Debug)]
pub enum Details {
    Kick,
    Ban(BanMember),
    Escalate(EscalateMember),
    Mute(MuteMember),
    Deafen(DeafenMember),
    ChangeRole(ChangeRole),
    DirectMessage(DirectMessage),
    SendMessage(SendMessage),
    DeleteMessages(DeleteMessages),
}

/// A requested moderation change against one member of one guild.
#[derive(Clone, Debug)]
pub struct Action {
    pub guild_id: u64,
    pub user_id: u64,
    pub reason: String,
    /// Seconds after which the action is reversed, if any.
    pub duration: Option<u64>,
    pub details: Option<Details>,
}

/// Why an action could not be executed.
#[derive(Clone, Copy, Debug, PartialEq, Eq, Structural)]
pub enum ActionError {
    /// The action carries no details, so there is nothing to execute.
    MissingDetails,
    /// The action has no inverse, so no reversal can be scheduled for it.
    NotInvertible,
    /// A call into the platform, the escalation store or the scheduler failed.
    CallFailed,
}

/// The mathematical content of an action's details.
pub ghost enum DetailsModel {
    Kick,
    Ban { type_: BanType, delete_message_days: u32 },
    Escalate { amount: i64 },
    Mute { type_: StatusType },
    Deafen { type_: StatusType },
    ChangeRole { type_: StatusType, role_ids: Seq<u64> },
    DirectMessage { content: Seq<char> },
    SendMessage { channel_id: u64, content: Seq<char> },
    DeleteMessages { channel_id: u64, message_ids: Seq<u64> },
}

/// The mathematical content of an action.
pub ghost struct ActionModel {
    pub guild_id: u64,
    pub user_id: u64,
    pub reason: Seq<char>,
    pub duration: Option<u64>,
    pub details: Option<DetailsModel>,
}

impl View for Details {
    type V = DetailsModel;

    open spec fn view(&self) -> DetailsModel {
        match self {
            Details::Kick => DetailsModel::Kick,
            Details::Ban(b) => DetailsModel::Ban {
                type_: b.type_,
                delete_message_days: b.delete_message_days,
            },
            Details::Escalate(e) => DetailsModel::Escalate { amount: e.amount },
            Details::Mute(m) => DetailsModel::Mute { type_: m.type_ },
            Details::Deafen(d) => DetailsModel::Deafen { type_: d.type_ },
            Details::ChangeRole(c) => DetailsModel::ChangeRole {
                type_: c.type_,
                role_ids: c.role_ids@,
            },
            Details::DirectMessage(m) => DetailsModel::DirectMessage { content: m.content@ },
            Details::SendMessage(m) => DetailsModel::SendMessage {
                channel_id: m.channel_id,
                content: m.content@,
            },
            Details::DeleteMessages(m) => DetailsModel::DeleteMessages {
                channel_id: m.channel_id,
                message_ids: m.message_ids@,
            },
        }
    }
}

impl View for Action {
    type V = ActionModel;

    open spec fn view(&self) -> ActionModel {
        ActionModel {
            guild_id: self.guild_id,
            user_id: self.user_id,
            reason: self.reason@,
            duration: self.duration,
            details: match self.details {
                Some(d) => Some(d@),
                None => None,
            },
        }
    }
}

/// The status that undoes `s`: apply and unapply swap, toggle undoes itself.
pub open spec fn status_inverse(s: StatusType) -> StatusType {
    match s {
        StatusType::Apply => StatusType::Unapply,
        StatusType::Unapply => StatusType::Apply,
        StatusType::Toggle => StatusType::Toggle,
    }
}

/// The details that undo `d`, where such details exist.
pub open spec fn details_inverse(d: DetailsModel) -> Option<DetailsModel> {
    match d {
        DetailsModel::Ban { type_, delete_message_days } => match type_ {
            BanType::Ban => Some(DetailsModel::Ban { type_: BanType::Unban, delete_message_days }),
            BanType::Unban => Some(DetailsModel::Ban { type_: BanType::Ban, delete_message_days }),
            BanType::Softban => None,
        },
        DetailsModel::Escalate { amount } => if amount == i64::MIN {
            None
        } else {
            Some(DetailsModel::Escalate { amount: (-amount) as i64 })
        },
        DetailsModel::Mute { type_ } => Some(DetailsModel::Mute { type_: status_inverse(type_) }),
        DetailsModel::Deafen { type_ } => Some(
            DetailsModel::Deafen { type_: status_inverse(type_) },
        ),
        DetailsModel::ChangeRole { type_, role_ids } => Some(
            DetailsModel::ChangeRole { type_: status_inverse(type_), role_ids },
        ),
        _ => None,
    }
}

/// The action that undoes `a`, with no duration of its own, where one exists.
pub open spec fn action_inverse(a: ActionModel) -> Option<ActionModel> {
    match a.details {
        Some(d) => match details_inverse(d) {
            Some(inv) => Some(ActionModel { duration: None, details: Some(inv), ..a }),
            None => None,
        },
        None => None,
    }
}

/// Whether `d` is of a kind that has inversion rules: bans other than
/// softbans, escalations, mutes, deafens and role changes.
pub open spec fn invertible_kind(d: DetailsModel) -> bool {
    match d {
        DetailsModel::Ban { type_, .. } => type_ != BanType::Softban,
        DetailsModel::Escalate { .. } => true,
        DetailsModel::Mute { .. } => true,
        DetailsModel::Deafen { .. } => true,
        DetailsModel::ChangeRole { .. } => true,
        _ => false,
    }
}

/// Returns the status that undoes `status`.
pub fn invert_status(status: StatusType) -> (r: StatusType)
    ensures
        r == status_inverse(status),
{
    match status {
        StatusType::Apply => StatusType::Unapply,
        StatusType::Unapply => StatusType::Apply,
        StatusType::Toggle => StatusType::Toggle,
    }
}

pub(crate) fn copy_ids(ids: &Vec<u64>) -> (r: Vec<u64>)
    ensures
        r@ == ids@,
{
    let mut r: Vec<u64> = Vec::new();
    let mut i: usize = 0;
    while i < ids.len()
        invariant
            i <= ids.len(),
            r@ == ids@.subrange(0, i as int),
        decreases ids.len() - i,
    {
        r.push(ids[i]);
        i += 1;
        assert(r@ =~= ids@.subrange(0, i as int));
    }
    assert(r@ =~= ids@);
    r
}

pub(crate) fn copy_details(d: &Details) -> (r: Details)
    ensures
        r@ == d@,
{
    match d {
        Details::Kick => Details::Kick,
        Details::Ban(b) => Details::Ban(*b),
        Details::Escalate(e) => Details::Escalate(*e),
        Details::Mute(m) => Details::Mute(*m),
        Details::Deafen(m) => Details::Deafen(*m),
        Details::ChangeRole(c) => Details::ChangeRole(
            ChangeRole { type_: c.type_, role_ids: copy_ids(&c.role_ids) },
        ),
        Details::DirectMessage(m) => Details::DirectMessage(
            DirectMessage { content: m.content.clone() },
        ),
        Details::SendMessage(m) => Details::SendMessage(
            SendMessage { channel_id: m.channel_id, content: m.content.clone() },
        ),
        Details::DeleteMessages(m) => Details::DeleteMessages(
            DeleteMessages { channel_id: m.channel_id, message_ids: copy_ids(&m.message_ids) },
        ),
    }
}

/// Returns the action that undoes `action`, with its duration cleared.
///
/// Softbans, kinds without inversion rules, an escalation whose amount has no
/// negation in range, and an action without details are rejected.
pub fn invert_action(action: &Action) -> (r: Result<Action, ActionError>)
    ensures
        action_inverse(action@) is Some <==> r is Ok,
        r matches Ok(inv) ==> inv@ == action_inverse(action@)->Some_0,
        action@.details is None ==> r == Err::<Action, ActionError>(ActionError::MissingDetails),
        action@.details is Some ==> (r is Err ==> r == Err::<Action, ActionError>(
            ActionError::NotInvertible,
        )),
{
    let details = match &action.details {
        None => {
            return Err(ActionError::MissingDetails);
        },
        Some(Details::Ban(info)) => {
            let type_ = match info.type_ {
                BanType::Ban => BanType::Unban,
                BanType::Unban => BanType::Ban,
                BanType::Softban => {
                    return Err(ActionError::NotInvertible);
                },
            };
            Details::Ban(BanMember { type_, delete_message_days: info.delete_message_days })
        },
        Some(Details::Escalate(info)) => {
            if info.amount == i64::MIN {
                return Err(ActionError::NotInvertible);
            }
            Details::Escalate(EscalateMember { amount: -info.amount })
        },
        Some(Details::Mute(info)) => Details::Mute(MuteMember { type_: invert_status(info.type_) }),
        Some(Details::Deafen(info)) => Details::Deafen(
            DeafenMember { type_: invert_status(info.type_) },
        ),
        Some(Details::ChangeRole(info)) => Details::ChangeRole(
            ChangeRole { type_: invert_status(info.type_), role_ids: copy_ids(&info.role_ids) },
        ),
        Some(_) => {
            return Err(ActionError::NotInvertible);
        },
    };
    Ok(
        Action {
            guild_id: action.guild_id,
            user_id: action.user_id,
            reason: action.reason.clone(),
            duration: None,
            details: Some(details),
        },
    )
}

/// Inverting an invertible action twice gives back the action, once its
/// duration is cleared.
pub proof fn lemma_invert_involution(a: ActionModel)
    requires
        a.duration is None,
        a.details is Some,
        invertible_kind(a.details->Some_0),
        a.details->Some_0 matches DetailsModel::Escalate { amount } ==> amount != i64::MIN,
    ensures
        action_inverse(a) is Some,
        action_inverse(action_inverse(a)->Some_0) == Some(a),
{
}

/// Whether two details are of the same kind.
pub open spec fn same_kind(d1: DetailsModel, d2: DetailsModel) -> bool {
    match (d1, d2) {
        (DetailsModel::Kick, DetailsModel::Kick) => true,
        (DetailsModel::Ban { .. }, DetailsModel::Ban { .. }) => true,
        (DetailsModel::Escalate { .. }, DetailsModel::Escalate { .. }) => true,
        (DetailsModel::Mute { .. }, DetailsModel::Mute { .. }) => true,
        (DetailsModel::Deafen { .. }, DetailsModel::Deafen { .. }) => true,
        (DetailsModel::ChangeRole { .. }, DetailsModel::ChangeRole { .. }) => true,
        (DetailsModel::DirectMessage { .. }, DetailsModel::DirectMessage { .. }) => true,
        (DetailsModel::SendMessage { .. }, DetailsModel::SendMessage { .. }) => true,
        (DetailsModel::DeleteMessages { .. }, DetailsModel::DeleteMessages { .. }) => true,
        _ => false,
    }
}

/// Inversion fails on actions without details, on softbans and on kinds
/// that have no inversion rules; where it succeeds, it yields an action of
/// the same kind, against the same member, for the same reason.
pub proof fn lemma_invert_rejects(a: ActionModel)
    ensures
        a.details is None ==> action_inverse(a) is None,
        a.details is Some && !invertible_kind(a.details->Some_0) ==> action_inverse(a) is None,
        a.details matches Some(DetailsModel::Ban { type_: BanType::Softban, .. }) ==> action_inverse(
            a,
        ) is None,
        action_inverse(a) matches Some(inv) ==> inv.details is Some && same_kind(
            inv.details->Some_0,
            a.details->Some_0,
        ) && inv.guild_id == a.guild_id && inv.user_id == a.user_id && inv.reason == a.reason
            && inv.duration is None,
{
}

} // verus!
