use vstd::prelude::*;
use crate::clock::{timestamp_in_range, MILLIS_PER_DAY};
use crate::error::{TeamderError, fails_with};
use crate::models::competition_team::CompTeamMember;
use crate::models::invite::Invite;
use crate::models::project::TeamMember;
use crate::models::study_group::GroupMember;
use crate::text::{concat, concat3, str_eq, string_of};

verus! {

// ── DTOs ────────────────────────────────────────────────────────────────────

/// Body of an invitation.
pub struct SendInviteBody {
    pub to_user_id: String,
    pub project_id: Option<String>,
    pub study_group_id: Option<String>,
    pub competition_team_id: Option<String>,
    pub message: Option<String>,
}

/// Body of an answer to an invitation.
pub struct RespondBody {
    pub accept: bool,
}

/// Acknowledgement of a successful action.
pub struct SuccessResponse {
    pub success: bool,
}

/// How long an invitation stays open.
pub const INVITE_VALID_DAYS: i64 = 7;

// ── Sending ─────────────────────────────────────────────────────────────────

/// A new pending, unread invitation from `from_user_id`, sent at `now`.
pub fn new_invite(id: String, from_user_id: &str, req: SendInviteBody, now: i64) -> (inv: Invite)
    requires
        timestamp_in_range(now),
    ensures
        inv.id == id,
        inv.from_user_id@ == from_user_id@,
        inv.to_user_id == req.to_user_id,
        inv.project_id == req.project_id,
        inv.study_group_id == req.study_group_id,
        inv.competition_team_id == req.competition_team_id,
        inv.message == req.message,
        inv.status@ == "pending"@,
        !inv.is_read,
        inv.created_at == now,
        inv.expires_at == now + INVITE_VALID_DAYS * MILLIS_PER_DAY,
{
    Invite {
        id,
        from_user_id: string_of(from_user_id),
        to_user_id: req.to_user_id,
        project_id: req.project_id,
        study_group_id: req.study_group_id,
        competition_team_id: req.competition_team_id,
        message: req.message,
        status: "pending".to_string(),
        is_read: false,
        created_at: now,
        expires_at: now + INVITE_VALID_DAYS * MILLIS_PER_DAY,
    }
}

/// An invitation goes to an existing account; for an unknown recipient it is
/// refused as not found.
pub fn invite_recipient_check(recipient_exists: bool) -> (r: Result<(), TeamderError>)
    ensures
        recipient_exists ==> r is Ok,
        !recipient_exists ==> fails_with(r, 404, "User not found"@),
{
    if recipient_exists {
        Ok(())
    } else {
        Err(TeamderError::NotFound("User not found".to_string()))
    }
}

/// An invitation may be sent unless an identical one is still pending.
pub fn send_invite_check(pending_exists: bool) -> (r: Result<(), TeamderError>)
    ensures
        pending_exists ==> fails_with(r, 409, "A pending invite already exists"@),
        !pending_exists ==> r is Ok,
{
    if pending_exists {
        Err(TeamderError::Conflict("A pending invite already exists".to_string()))
    } else {
        Ok(())
    }
}

/// Title of the notification telling the recipient about an invitation.
pub fn invite_sent_title(sender_name: &str) -> (t: String)
    ensures
        t@ == sender_name@ + " sent you an invite"@,
{
    concat(sender_name, " sent you an invite")
}

// ── Reading and deleting ───────────────────────────────────────────────────

/// Only the sender and the recipient may read an invitation.
pub fn get_invite_check(invite: &Invite, caller: &str) -> (r: Result<(), TeamderError>)
    ensures
        (caller@ == invite.from_user_id@ || caller@ == invite.to_user_id@) ==> r is Ok,
        !(caller@ == invite.from_user_id@ || caller@ == invite.to_user_id@) ==> fails_with(
            r,
            403,
            "Not authorized"@,
        ),
{
    if !str_eq(invite.from_user_id.as_str(), caller) && !str_eq(invite.to_user_id.as_str(), caller) {
        Err(TeamderError::Forbidden("Not authorized".to_string()))
    } else {
        Ok(())
    }
}

/// Only the sender may delete an invitation.
pub fn delete_invite_check(invite: &Invite, caller: &str) -> (r: Result<(), TeamderError>)
    ensures
        caller@ == invite.from_user_id@ ==> r is Ok,
        caller@ != invite.from_user_id@ ==> fails_with(r, 403, "Only the sender can delete"@),
{
    if !str_eq(invite.from_user_id.as_str(), caller) {
        Err(TeamderError::Forbidden("Only the sender can delete".to_string()))
    } else {
        Ok(())
    }
}

// ── Responding ──────────────────────────────────────────────────────────────

/// What answering an invitation does.
pub enum InviteDecision {
    /// The caller is not the recipient.
    NotRecipient,
    /// The invitation was already answered.
    AlreadyAnswered,
    /// The invitation is answered; `true` when accepted.
    Answer(bool),
}

/// The decision on an answer by `caller` to an invitation addressed to `to`
/// in state `status`: only the recipient may answer, and only once.
pub open spec fn invite_decision(status: Seq<char>, to: Seq<char>, caller: Seq<char>, accept: bool) -> InviteDecision {
    if caller != to {
        InviteDecision::NotRecipient
    } else if status != "pending"@ {
        InviteDecision::AlreadyAnswered
    } else {
        InviteDecision::Answer(accept)
    }
}

/// The state of an invitation after an answer.
pub open spec fn answered_status(accept: bool) -> Seq<char> {
    if accept {
        "accepted"@
    } else {
        "declined"@
    }
}

/// What the route does once an answer is allowed.
pub struct InviteResponsePlan {
    /// The invitation's new status.
    pub new_status: &'static str,
    /// Where the recipient joins (on acceptance).
    pub join_project: Option<String>,
    pub join_study_group: Option<String>,
    pub join_competition_team: Option<String>,
    /// Kind of the notification sent back to the sender.
    pub notify_kind: &'static str,
}

/// Decides an answer to an invitation: the recipient answers a pending
/// invitation once; on acceptance they join every entity it names.
pub fn respond_invite_plan(invite: &Invite, caller: &str, accept: bool) -> (r: Result<InviteResponsePlan, TeamderError>)
    ensures
        invite_decision(invite.status@, invite.to_user_id@, caller@, accept) is NotRecipient
            ==> fails_with(r, 403, "Only the recipient can respond"@),
        invite_decision(invite.status@, invite.to_user_id@, caller@, accept) is AlreadyAnswered
            ==> fails_with(r, 409, "Invite has already been responded to"@),
        invite_decision(invite.status@, invite.to_user_id@, caller@, accept) is Answer ==> (r
            matches Ok(p) && p.new_status@ == answered_status(accept) && p.notify_kind@ == (if accept {
            "invite_accepted"@
        } else {
            "invite_declined"@
        }) && p.join_project == (if accept {
            invite.project_id
        } else {
            None
        }) && p.join_study_group == (if accept {
            invite.study_group_id
        } else {
            None
        }) && p.join_competition_team == (if accept {
            invite.competition_team_id
        } else {
            None
        })),
{
    if !str_eq(invite.to_user_id.as_str(), caller) {
        return Err(TeamderError::Forbidden("Only the recipient can respond".to_string()));
    }
    if !str_eq(invite.status.as_str(), "pending") {
        return Err(TeamderError::Conflict("Invite has already been responded to".to_string()));
    }
    if accept {
        Ok(InviteResponsePlan {
            new_status: "accepted",
            join_project: invite.project_id.clone(),
            join_study_group: invite.study_group_id.clone(),
            join_competition_team: invite.competition_team_id.clone(),
            notify_kind: "invite_accepted",
        })
    } else {
        Ok(InviteResponsePlan {
            new_status: "declined",
            join_project: None,
            join_study_group: None,
            join_competition_team: None,
            notify_kind: "invite_declined",
        })
    }
}

/// Title of the notification telling the sender about the answer.
pub fn invite_answer_title(responder_name: &str, accept: bool) -> (t: String)
    ensures
        t@ == responder_name@ + " "@ + answered_status(accept) + " your invite"@,
{
    let word = if accept {
        "accepted"
    } else {
        "declined"
    };
    let mut t = concat3(responder_name, " ", word);
    t.append(" your invite");
    t
}

/// An invitation is answered at most once: once an answer was accepted, any
/// further answer, by anyone, is refused.
pub proof fn law_invite_answered_once(
    to: Seq<char>,
    first_caller: Seq<char>,
    first_accept: bool,
    caller: Seq<char>,
    accept: bool,
)
    requires
        invite_decision("pending"@, to, first_caller, first_accept) is Answer,
    ensures
        !(invite_decision(answered_status(first_accept), to, caller, accept) is Answer),
{
    reveal_strlit("pending");
    reveal_strlit("accepted");
    reveal_strlit("declined");
    assert("pending"@.len() == 7);
    assert("accepted"@.len() == 8);
    assert("declined"@.len() == 8);
}

/// Only the recipient of an invitation can answer it.
pub proof fn law_only_recipient_answers(status: Seq<char>, to: Seq<char>, caller: Seq<char>, accept: bool)
    requires
        invite_decision(status, to, caller, accept) is Answer,
    ensures
        caller == to,
        status == "pending"@,
{
}

/// The member entries an accepted invitation adds, one for each kind of
/// entity it may name: the recipient joins at `now` in no particular role,
/// under their initials and gradient (and name, on a competition team).
pub fn invitee_entries(user_id: &str, name: &str, initials: &str, gradient: &str, now: i64) -> (r: (
    TeamMember,
    GroupMember,
    CompTeamMember,
))
    ensures
        r.0.user_id@ == user_id@ && r.0.initials@ == initials@ && r.0.color@ == gradient@
            && r.0.joined_at == now && r.0.role is None,
        r.1.user_id@ == user_id@ && r.1.initials@ == initials@ && r.1.color@ == gradient@
            && r.1.joined_at == now && r.1.last_checkin is None && r.1.streak == 0,
        r.2.user_id@ == user_id@ && r.2.name@ == name@ && r.2.initials@ == initials@
            && r.2.joined_at == now && r.2.role is None,
{
    (
        TeamMember {
            user_id: string_of(user_id),
            initials: string_of(initials),
            color: string_of(gradient),
            joined_at: now,
            role: None,
        },
        GroupMember {
            user_id: string_of(user_id),
            initials: string_of(initials),
            color: string_of(gradient),
            joined_at: now,
            last_checkin: None,
            streak: 0,
        },
        CompTeamMember {
            user_id: string_of(user_id),
            name: string_of(name),
            initials: string_of(initials),
            role: None,
            joined_at: now,
        },
    )
}

} // verus!
