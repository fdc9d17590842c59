//! Workspaces: listings, creation requests and their validation.
use crate::models::common::{validate_max_length, Validate, ValidationError, WorkspaceId};
use vstd::prelude::*;
use vstd::string::StringSliceAdditionalSpecFns;

verus! {

#[derive(Debug, Clone)]
pub struct Workspace {
    pub id: WorkspaceId,
    pub name: String,
    pub full_name: String,
    pub description: Option<String>,
    pub visibility: String,
}

#[derive(Debug)]
pub struct WorkspaceList {
    pub workspaces: Vec<Workspace>,
}

#[derive(Debug, Clone, Copy, PartialEq, Eq, Structural)]
pub enum WorkspaceVisibility {
    Private,
    Shared,
}

#[derive(Debug, Default)]
pub struct CreateWorkspaceRequestBuilder {
    pub name: Option<String>,
    pub full_name: Option<String>,
    pub description: Option<String>,
    pub visibility: Option<WorkspaceVisibility>,
}

impl CreateWorkspaceRequestBuilder {
    pub fn new() -> (r: Self)
        ensures
            r.name is None,
            r.full_name is None,
            r.description is None,
            r.visibility is None,
    {
        CreateWorkspaceRequestBuilder {
            name: None,
            full_name: None,
            description: None,
            visibility: None,
        }
    }

    pub fn name(self, name: &str) -> (r: Self)
        ensures
            r.name matches Some(s) && s@ == name@,
            r.full_name == self.full_name,
            r.description == self.description,
            r.visibility == self.visibility,
    {
        Self { name: Some(name.to_owned()), ..self }
    }

    pub fn full_name(self, full_name: &str) -> (r: Self)
        ensures
            r.full_name matches Some(s) && s@ == full_name@,
            r.name == self.name,
            r.description == self.description,
            r.visibility == self.visibility,
    {
        Self { full_name: Some(full_name.to_owned()), ..self }
    }

    pub fn description(self, description: &str) -> (r: Self)
        ensures
            r.description matches Some(s) && s@ == description@,
            r.name == self.name,
            r.full_name == self.full_name,
            r.visibility == self.visibility,
    {
        Self { description: Some(description.to_owned()), ..self }
    }

    pub fn visibility(self, visibility: WorkspaceVisibility) -> (r: Self)
        ensures
            r.visibility == Some(visibility),
            r.name == self.name,
            r.full_name == self.full_name,
            r.description == self.description,
    {
        Self { visibility: Some(visibility), ..self }
    }

    /// Succeeds exactly when the three required fields were given, moving
    /// every field into the request unchanged; the workspace ID starts empty.
    pub fn build(self) -> (r: Result<CreateWorkspaceRequest, &'static str>)
        ensures
            self.name is Some && self.full_name is Some && self.visibility is Some ==> (r
                matches Ok(q) && q.workspace.id is None && q.workspace.name == self.name->0
                && q.workspace.full_name == self.full_name->0 && q.workspace.description
                == self.description && q.workspace.visibility == self.visibility->0),
            self.name is None ==> (r matches Err(e) && e@ == "name is required"@),
            self.name is Some && self.full_name is None ==> (r matches Err(e) && e@
                == "full_name is required"@),
            self.name is Some && self.full_name is Some && self.visibility is None ==> (r
                matches Err(e) && e@ == "visibility is required"@),
    {
        let name = match self.name {
            Some(n) => n,
            None => {
                return Err("name is required");
            },
        };
        let full_name = match self.full_name {
            Some(n) => n,
            None => {
                return Err("full_name is required");
            },
        };
        let visibility = match self.visibility {
            Some(v) => v,
            None => {
                return Err("visibility is required");
            },
        };
        Ok(
            CreateWorkspaceRequest {
                workspace: CreateWorkspaceInner {
                    id: None,
                    name,
                    full_name,
                    description: self.description,
                    visibility,
                },
            },
        )
    }
}

#[derive(Debug)]
pub struct CreateWorkspaceInner {
    pub id: Option<WorkspaceId>,
    pub name: String,
    pub full_name: String,
    pub description: Option<String>,
    pub visibility: WorkspaceVisibility,
}

#[derive(Debug)]
pub struct CreateWorkspaceRequest {
    pub workspace: CreateWorkspaceInner,
}

/// The constraints the service puts on a workspace's fields: name at most
/// forty bytes, full name at most a hundred, description at most a thousand
/// when present.
pub open spec fn workspace_fields_ok(
    name: Seq<char>,
    full_name: Seq<char>,
    description: Option<String>,
) -> bool {
    &&& vstd::utf8::encode_utf8(name).len() <= 40
    &&& vstd::utf8::encode_utf8(full_name).len() <= 100
    &&& (description matches Some(d) ==> vstd::utf8::encode_utf8(d@).len() <= 1000)
}

fn validate_workspace_fields(
    name: &str,
    full_name: &str,
    description: &Option<String>,
) -> (r: Result<(), ValidationError>)
    ensures
        r is Ok <==> workspace_fields_ok(name@, full_name@, *description),
        ({
            let name_ok = vstd::utf8::encode_utf8(name@).len() <= 40;
            let full_ok = vstd::utf8::encode_utf8(full_name@).len() <= 100;
            &&& (!name_ok ==> (r matches Err(ValidationError::MaxLength { field, max }) && field@
                == "name"@ && max == 40))
            &&& (name_ok && !full_ok ==> (r matches Err(ValidationError::MaxLength { field, max })
                && field@ == "fullName"@ && max == 100))
            &&& (name_ok && full_ok && !(*description matches Some(d)
                ==> vstd::utf8::encode_utf8(d@).len() <= 1000) ==> (r matches Err(
                ValidationError::MaxLength { field, max },
            ) && field@ == "description"@ && max == 1000))
        }),
{
    match validate_max_length(name, 40, "name") {
        Err(e) => {
            return Err(e);
        },
        Ok(()) => (),
    }
    match validate_max_length(full_name, 100, "fullName") {
        Err(e) => {
            return Err(e);
        },
        Ok(()) => (),
    }
    if let Some(desc) = description {
        match validate_max_length(desc.as_str(), 1000, "description") {
            Err(e) => {
                return Err(e);
            },
            Ok(()) => (),
        }
    }
    Ok(())
}

impl CreateWorkspaceRequest {
    /// Accepts the request exactly when every field meets the service's
    /// constraints.
    pub fn check(&self) -> (r: Result<(), ValidationError>)
        ensures
            r is Ok <==> workspace_fields_ok(
                self.workspace.name@,
                self.workspace.full_name@,
                self.workspace.description,
            ),
    {
        validate_workspace_fields(
            self.workspace.name.as_str(),
            self.workspace.full_name.as_str(),
            &self.workspace.description,
        )
    }
}

impl Validate for CreateWorkspaceRequest {
    fn validate(&self) -> Result<(), ValidationError> {
        self.check()
    }
}

#[derive(Debug)]
pub struct WorkspaceResponse {
    pub workspace: Workspace,
}

#[derive(Debug)]
pub struct UpdateWorkspaceRequest {
    pub name: String,
    pub full_name: String,
    pub description: Option<String>,
    pub visibility: WorkspaceVisibility,
}

impl UpdateWorkspaceRequest {
    /// Accepts the update exactly when every field meets the service's
    /// constraints.
    pub fn check(&self) -> (r: Result<(), ValidationError>)
        ensures
            r is Ok <==> workspace_fields_ok(
                self.name@,
                self.full_name@,
                self.description,
            ),
    {
        validate_workspace_fields(self.name.as_str(), self.full_name.as_str(), &self.description)
    }
}

impl Validate for UpdateWorkspaceRequest {
    fn validate(&self) -> Result<(), ValidationError> {
        self.check()
    }
}

#[derive(Debug)]
pub struct AddWorkspaceParticipantRequest {
    pub member_id: Option<i64>,
    pub team_id: Option<i64>,
    pub user_name_or_email: Option<String>,
}

impl AddWorkspaceParticipantRequest {
    pub fn with_member_id(member_id: i64) -> (r: Self)
        ensures
            r.member_id == Some(member_id),
            r.team_id is None,
            r.user_name_or_email is None,
    {
        Self { member_id: Some(member_id), team_id: None, user_name_or_email: None }
    }

    pub fn with_team_id(team_id: i64) -> (r: Self)
        ensures
            r.team_id == Some(team_id),
            r.member_id is None,
            r.user_name_or_email is None,
    {
        Self { member_id: None, team_id: Some(team_id), user_name_or_email: None }
    }

    pub fn with_user_name_or_email(user_name_or_email: &str) -> (r: Self)
        ensures
            r.user_name_or_email matches Some(s) && s@ == user_name_or_email@,
            r.member_id is None,
            r.team_id is None,
    {
        Self {
            member_id: None,
            team_id: None,
            user_name_or_email: Some(user_name_or_email.to_owned()),
        }
    }
}

#[derive(Debug)]
pub struct ListWorkspacesResponse {
    pub workspaces: Vec<Workspace>,
}

} // verus!
