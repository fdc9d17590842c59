//! Teams: listings, creation requests and their validation.
use crate::models::common::{
    regex_accepted, validate_max_length, validate_pattern, Validate, ValidationError,
};
use crate::models::member::Member;
use vstd::prelude::*;
use vstd::string::StringSliceAdditionalSpecFns;

verus! {

#[derive(Debug, Clone)]
pub struct Team {
    pub team_id: i64,
    pub name: String,
    pub description: Option<String>,
    pub avatar_url: Option<String>,
    pub members_count: i64,
}

#[derive(Debug)]
pub struct TeamList {
    pub teams: Vec<Team>,
    pub total_size: i64,
}

#[derive(Debug, Default)]
pub struct CreateTeamRequestBuilder {
    pub name: Option<String>,
    pub description: Option<String>,
    pub avatar_id: Option<String>,
}

impl CreateTeamRequestBuilder {
    pub fn new() -> (r: Self)
        ensures
            r.name is None,
            r.description is None,
            r.avatar_id is None,
    {
        CreateTeamRequestBuilder { name: None, description: None, avatar_id: None }
    }

    pub fn name(self, name: &str) -> (r: Self)
        ensures
            r.name matches Some(s) && s@ == name@,
            r.description == self.description,
            r.avatar_id == self.avatar_id,
    {
        Self { name: Some(name.to_owned()), ..self }
    }

    pub fn description(self, description: &str) -> (r: Self)
        ensures
            r.description matches Some(s) && s@ == description@,
            r.name == self.name,
            r.avatar_id == self.avatar_id,
    {
        Self { description: Some(description.to_owned()), ..self }
    }

    pub fn avatar_id(self, avatar_id: &str) -> (r: Self)
        ensures
            r.avatar_id matches Some(s) && s@ == avatar_id@,
            r.name == self.name,
            r.description == self.description,
    {
        Self { avatar_id: Some(avatar_id.to_owned()), ..self }
    }

    /// Succeeds exactly when the required name was given, moving every field
    /// into the request unchanged.
    pub fn build(self) -> (r: Result<CreateTeamRequest, &'static str>)
        ensures
            self.name is Some ==> (r matches Ok(q) && q.team.name == self.name->0
                && q.team.description == self.description && q.avatar_id == self.avatar_id),
            self.name is None ==> (r matches Err(e) && e@ == "name is required"@),
    {
        let name = match self.name {
            Some(n) => n,
            None => {
                return Err("name is required");
            },
        };
        Ok(
            CreateTeamRequest {
                team: CreateTeamInner { name, description: self.description },
                avatar_id: self.avatar_id,
            },
        )
    }
}

#[derive(Debug)]
pub struct CreateTeamInner {
    pub name: String,
    pub description: Option<String>,
}

#[derive(Debug)]
pub struct CreateTeamRequest {
    pub team: CreateTeamInner,
    pub avatar_id: Option<String>,
}

/// The constraints the service puts on a new team's fields: name at most
/// forty bytes and matching the team name pattern, description at most two
/// hundred and fifty bytes when present.
pub open spec fn team_fields_ok(name: Seq<char>, description: Option<String>) -> bool {
    &&& vstd::utf8::encode_utf8(name).len() <= 40
    &&& regex_accepted("^[a-zA-Z\\d][-a-zA-Z\\d_]{0,38}[a-zA-Z\\d]$"@, name)
    &&& (description matches Some(d) ==> vstd::utf8::encode_utf8(d@).len() <= 250)
}

impl CreateTeamRequest {
    /// Accepts the request exactly when every field meets the service's
    /// constraints.
    pub fn check(&self) -> (r: Result<(), ValidationError>)
        ensures
            r is Ok <==> team_fields_ok(self.team.name@, self.team.description),
            ({
                let name_ok = vstd::utf8::encode_utf8(self.team.name@).len() <= 40;
                let pat_ok = regex_accepted(
                    "^[a-zA-Z\\d][-a-zA-Z\\d_]{0,38}[a-zA-Z\\d]$"@,
                    self.team.name@,
                );
                &&& (!name_ok ==> (r matches Err(ValidationError::MaxLength { field, max })
                    && field@ == "name"@ && max == 40))
                &&& (name_ok && !pat_ok ==> (r matches Err(ValidationError::Pattern { field })
                    && field@ == "name"@))
                &&& (name_ok && pat_ok && !(self.team.description matches Some(d)
                    ==> vstd::utf8::encode_utf8(d@).len() <= 250) ==> (r matches Err(
                    ValidationError::MaxLength { field, max },
                ) && field@ == "description"@ && max == 250))
            }),
    {
        match validate_max_length(self.team.name.as_str(), 40, "name") {
            Err(e) => {
                return Err(e);
            },
            Ok(()) => (),
        }
        match validate_pattern(
            self.team.name.as_str(),
            "^[a-zA-Z\\d][-a-zA-Z\\d_]{0,38}[a-zA-Z\\d]$",
            "name",
        ) {
            Err(e) => {
                return Err(e);
            },
            Ok(()) => (),
        }
        if let Some(desc) = &self.team.description {
            match validate_max_length(desc.as_str(), 250, "description") {
                Err(e) => {
                    return Err(e);
                },
                Ok(()) => (),
            }
        }
        Ok(())
    }
}

impl Validate for CreateTeamRequest {
    fn validate(&self) -> Result<(), ValidationError> {
        self.check()
    }
}

#[derive(Debug)]
pub struct TeamResponse {
    pub team: Team,
}

#[derive(Debug)]
pub struct CreateTeamMemberRequest {
    pub user_name_or_email: String,
}

#[derive(Debug)]
pub struct TeamMemberResponse {
    pub member: Member,
}

#[derive(Debug)]
pub struct UpdateTeamRequest {
    pub name: String,
    pub description: Option<String>,
    pub avatar_id: Option<String>,
}

impl UpdateTeamRequest {
    /// Accepts the update exactly when the name and the optional description
    /// are within the service's bounds.
    pub fn check(&self) -> (r: Result<(), ValidationError>)
        ensures
            r is Ok <==> (vstd::utf8::encode_utf8(self.name@).len() <= 40 && (
            self.description matches Some(d) ==> vstd::utf8::encode_utf8(d@).len() <= 250)),
            ({
                let name_ok = vstd::utf8::encode_utf8(self.name@).len() <= 40;
                &&& (!name_ok ==> (r matches Err(ValidationError::MaxLength { field, max })
                    && field@ == "name"@ && max == 40))
                &&& (name_ok && !(self.description matches Some(d)
                    ==> vstd::utf8::encode_utf8(d@).len() <= 250) ==> (r matches Err(
                    ValidationError::MaxLength { field, max },
                ) && field@ == "description"@ && max == 250))
            }),
    {
        match validate_max_length(self.name.as_str(), 40, "name") {
            Err(e) => {
                return Err(e);
            },
            Ok(()) => (),
        }
        if let Some(desc) = &self.description {
            match validate_max_length(desc.as_str(), 250, "description") {
                Err(e) => {
                    return Err(e);
                },
                Ok(()) => (),
            }
        }
        Ok(())
    }
}

impl Validate for UpdateTeamRequest {
    fn validate(&self) -> Result<(), ValidationError> {
        self.check()
    }
}

} // verus!
