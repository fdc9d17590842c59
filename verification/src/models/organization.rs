//! Organizations: listings, creation requests and their validation.
use crate::models::common::{
    regex_accepted, validate_max_length, validate_pattern, OrgId, Validate, ValidationError,
};
use vstd::prelude::*;
use vstd::string::StringSliceAdditionalSpecFns;

verus! {

#[derive(Debug, Clone)]
pub struct Organization {
    pub id: OrgId,
    pub name: String,
    pub description: Option<String>,
}

#[derive(Debug)]
pub struct ListOrganizationsResponse {
    pub organizations: Vec<Organization>,
    pub total_size: i64,
}

#[derive(Debug)]
pub struct OrganizationResponse {
    pub organization: Organization,
}

#[derive(Debug, Default)]
pub struct CreateOrganizationRequestBuilder {
    pub name: Option<String>,
    pub full_name: Option<String>,
    pub description: Option<String>,
    pub location: Option<String>,
    pub website: Option<String>,
    pub logo_id: Option<String>,
}

impl CreateOrganizationRequestBuilder {
    pub fn new() -> (r: Self)
        ensures
            r.name is None,
            r.full_name is None,
            r.description is None,
            r.location is None,
            r.website is None,
            r.logo_id is None,
    {
        CreateOrganizationRequestBuilder {
            name: None,
            full_name: None,
            description: None,
            location: None,
            website: None,
            logo_id: None,
        }
    }

    pub fn name(self, name: &str) -> (r: Self)
        ensures
            r.name matches Some(s) && s@ == name@,
            r.full_name == self.full_name,
            r.description == self.description,
            r.location == self.location,
            r.website == self.website,
            r.logo_id == self.logo_id,
    {
        Self { name: Some(name.to_owned()), ..self }
    }

    pub fn full_name(self, full_name: &str) -> (r: Self)
        ensures
            r.full_name matches Some(s) && s@ == full_name@,
            r.name == self.name,
            r.description == self.description,
            r.location == self.location,
            r.website == self.website,
            r.logo_id == self.logo_id,
    {
        Self { full_name: Some(full_name.to_owned()), ..self }
    }

    pub fn description(self, description: &str) -> (r: Self)
        ensures
            r.description matches Some(s) && s@ == description@,
            r.name == self.name,
            r.full_name == self.full_name,
            r.location == self.location,
            r.website == self.website,
            r.logo_id == self.logo_id,
    {
        Self { description: Some(description.to_owned()), ..self }
    }

    pub fn location(self, location: &str) -> (r: Self)
        ensures
            r.location matches Some(s) && s@ == location@,
            r.name == self.name,
            r.full_name == self.full_name,
            r.description == self.description,
            r.website == self.website,
            r.logo_id == self.logo_id,
    {
        Self { location: Some(location.to_owned()), ..self }
    }

    pub fn website(self, website: &str) -> (r: Self)
        ensures
            r.website matches Some(s) && s@ == website@,
            r.name == self.name,
            r.full_name == self.full_name,
            r.description == self.description,
            r.location == self.location,
            r.logo_id == self.logo_id,
    {
        Self { website: Some(website.to_owned()), ..self }
    }

    pub fn logo_id(self, logo_id: &str) -> (r: Self)
        ensures
            r.logo_id matches Some(s) && s@ == logo_id@,
            r.name == self.name,
            r.full_name == self.full_name,
            r.description == self.description,
            r.location == self.location,
            r.website == self.website,
    {
        Self { logo_id: Some(logo_id.to_owned()), ..self }
    }

    /// Succeeds exactly when both required fields were given, moving every
    /// field into the request unchanged.
    pub fn build(self) -> (r: Result<CreateOrganizationRequest, &'static str>)
        ensures
            self.name is Some && self.full_name is Some ==> (r matches Ok(q) && q.organization.name
                == self.name->0 && q.organization.full_name == self.full_name->0
                && q.organization.description == self.description && q.organization.location
                == self.location && q.organization.website == self.website && q.logo_id
                == self.logo_id),
            self.name is None ==> (r matches Err(e) && e@ == "name is required"@),
            self.name is Some && self.full_name is None ==> (r matches Err(e) && e@
                == "full_name is required"@),
    {
        let name = match self.name {
            Some(n) => n,
            None => {
                return Err("name is required");
            },
        };
        let full_name = match self.full_name {
            Some(n) => n,
            None => {
                return Err("full_name is required");
            },
        };
        Ok(
            CreateOrganizationRequest {
                organization: CreateOrganizationInner {
                    name,
                    full_name,
                    description: self.description,
                    location: self.location,
                    website: self.website,
                },
                logo_id: self.logo_id,
            },
        )
    }
}

#[derive(Debug)]
pub struct CreateOrganizationInner {
    pub name: String,
    pub full_name: String,
    pub description: Option<String>,
    pub location: Option<String>,
    pub website: Option<String>,
}

#[derive(Debug)]
pub struct CreateOrganizationRequest {
    pub organization: CreateOrganizationInner,
    pub logo_id: Option<String>,
}

#[derive(Debug)]
pub struct UpdateOrganizationRequest {
    pub full_name: String,
    pub name: String,
    pub description: Option<String>,
    pub location: Option<String>,
    pub website: Option<String>,
    pub logo_id: Option<String>,
    pub paying: bool,
}

/// The constraints the service puts on an organization's fields, checked in
/// order: name at most forty bytes and matching the name pattern, full name
/// at most a hundred bytes, description and location bounded when present.
pub open spec fn org_fields_ok(
    name: Seq<char>,
    full_name: Seq<char>,
    description: Option<String>,
    location: Option<String>,
) -> bool {
    &&& vstd::utf8::encode_utf8(name).len() <= 40
    &&& regex_accepted("^[a-zA-Z\\d][-_a-zA-Z\\d]{1,38}[a-zA-Z\\d]$"@, name)
    &&& vstd::utf8::encode_utf8(full_name).len() <= 100
    &&& (description matches Some(d) ==> vstd::utf8::encode_utf8(d@).len() <= 1000)
    &&& (location matches Some(l) ==> vstd::utf8::encode_utf8(l@).len() <= 100)
}

fn validate_org_fields(
    name: &str,
    full_name: &str,
    description: &Option<String>,
    location: &Option<String>,
) -> (r: Result<(), ValidationError>)
    ensures
        r is Ok <==> org_fields_ok(name@, full_name@, *description, *location),
        ({
            let name_ok = vstd::utf8::encode_utf8(name@).len() <= 40;
            let pat_ok = regex_accepted("^[a-zA-Z\\d][-_a-zA-Z\\d]{1,38}[a-zA-Z\\d]$"@, name@);
            let full_ok = vstd::utf8::encode_utf8(full_name@).len() <= 100;
            let desc_ok = (*description matches Some(d) ==> vstd::utf8::encode_utf8(d@).len()
                <= 1000);
            &&& (!name_ok ==> (r matches Err(ValidationError::MaxLength { field, max }) && field@
                == "name"@ && max == 40))
            &&& (name_ok && !pat_ok ==> (r matches Err(ValidationError::Pattern { field })
                && field@ == "name"@))
            &&& (name_ok && pat_ok && !full_ok ==> (r matches Err(
                ValidationError::MaxLength { field, max },
            ) && field@ == "fullName"@ && max == 100))
            &&& (name_ok && pat_ok && full_ok && !desc_ok ==> (r matches Err(
                ValidationError::MaxLength { field, max },
            ) && field@ == "description"@ && max == 1000))
            &&& (name_ok && pat_ok && full_ok && desc_ok && !(*location matches Some(l)
                ==> vstd::utf8::encode_utf8(l@).len() <= 100) ==> (r matches Err(
                ValidationError::MaxLength { field, max },
            ) && field@ == "location"@ && max == 100))
        }),
{
    match validate_max_length(name, 40, "name") {
        Err(e) => {
            return Err(e);
        },
        Ok(()) => (),
    }
    match validate_pattern(name, "^[a-zA-Z\\d][-_a-zA-Z\\d]{1,38}[a-zA-Z\\d]$", "name") {
        Err(e) => {
            return Err(e);
        },
        Ok(()) => (),
    }
    match validate_max_length(full_name, 100, "fullName") {
        Err(e) => {
            return Err(e);
        },
        Ok(()) => (),
    }
    if let Some(desc) = description {
        match validate_max_length(desc.as_str(), 1000, "description") {
            Err(e) => {
                return Err(e);
            },
            Ok(()) => (),
        }
    }
    if let Some(location) = location {
        match validate_max_length(location.as_str(), 100, "location") {
            Err(e) => {
                return Err(e);
            },
            Ok(()) => (),
        }
    }
    Ok(())
}

impl CreateOrganizationRequest {
    /// Accepts the request exactly when every field meets the service's
    /// constraints.
    pub fn check(&self) -> (r: Result<(), ValidationError>)
        ensures
            r is Ok <==> org_fields_ok(
                self.organization.name@,
                self.organization.full_name@,
                self.organization.description,
                self.organization.location,
            ),
    {
        validate_org_fields(
            self.organization.name.as_str(),
            self.organization.full_name.as_str(),
            &self.organization.description,
            &self.organization.location,
        )
    }
}

impl Validate for CreateOrganizationRequest {
    fn validate(&self) -> Result<(), ValidationError> {
        self.check()
    }
}

impl UpdateOrganizationRequest {
    /// Accepts the update exactly when every field meets the service's
    /// constraints.
    pub fn check(&self) -> (r: Result<(), ValidationError>)
        ensures
            r is Ok <==> org_fields_ok(
                self.name@,
                self.full_name@,
                self.description,
                self.location,
            ),
    {
        validate_org_fields(
            self.name.as_str(),
            self.full_name.as_str(),
            &self.description,
            &self.location,
        )
    }
}

impl Validate for UpdateOrganizationRequest {
    fn validate(&self) -> Result<(), ValidationError> {
        self.check()
    }
}

#[derive(Debug)]
pub struct OrganizationQuotasResponse {
    pub quotas: OrganizationQuotas,
}

#[derive(Debug, Clone, Copy)]
pub struct OrganizationQuotas {
    pub max_workspaces: i32,
    pub max_members: i32,
    pub max_teams: i32,
    pub max_pipelines_per_workspace: i32,
    pub max_participants_per_workspace: i32,
    pub max_datasets_per_workspace: i32,
    pub max_versions_per_dataset: i32,
    pub max_runs: i32,
    pub max_labels_per_workspace: i32,
    pub max_data_studios_running: i32,
}

} // verus!
