//! Organization members and workspace participants.
use crate::models::common::{OrgRole, ParticipantType, WspRole};
use vstd::prelude::*;

verus! {

#[derive(Debug, Clone)]
pub struct Member {
    pub member_id: i64,
    pub user_id: i64,
    pub user_name: String,
    pub email: String,
    pub first_name: String,
    pub last_name: String,
    pub avatar: Option<String>,
    pub role: String,
}

#[derive(Debug)]
pub struct MemberList {
    pub members: Vec<Member>,
    pub total_size: i64,
}

#[derive(Debug, Clone)]
pub struct Participant {
    pub participant_id: i64,
    pub member_id: i64,
    pub user_name: String,
    pub email: String,
    pub first_name: String,
    pub last_name: String,
    pub org_role: OrgRole,
    pub team_id: i64,
    pub team_name: String,
    pub wsp_role: WspRole,
    pub participant_type: ParticipantType,
    pub team_avatar_url: String,
    pub user_avatar_url: String,
}

#[derive(Debug)]
pub struct ParticipantList {
    pub participants: Vec<Participant>,
    pub total_size: i64,
}

#[derive(Debug)]
pub struct AddOrganizationMemberRequest {
    pub user: String,
}

#[derive(Debug)]
pub struct UpdateMemberRoleRequest {
    pub role: OrgRole,
}

#[derive(Debug)]
pub struct ParticipantResponse {
    pub participant: Participant,
}

} // verus!
