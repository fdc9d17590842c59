use pform::models::common::{validate_max_length, validate_pattern, Validate, ValidationError};
use pform::models::organization::{CreateOrganizationInner, CreateOrganizationRequest};
use pform::models::organization::CreateOrganizationRequestBuilder;
use pform::models::team::CreateTeamRequestBuilder;
use pform::models::workspace::{CreateWorkspaceInner, CreateWorkspaceRequest};
use pform::models::workspace::{CreateWorkspaceRequestBuilder, WorkspaceVisibility};

#[test]
fn test_workspace_builder_public_api() {
    let request = CreateWorkspaceRequestBuilder::new()
        .name("test-workspace")
        .full_name("Test Workspace")
        .description("A test workspace")
        .visibility(WorkspaceVisibility::Private)
        .build();
    assert!(request.is_ok());
}

#[test]
fn test_team_builder_public_api() {
    let request = CreateTeamRequestBuilder::new()
        .name("test-team")
        .description("A test team")
        .avatar_id("avatar123")
        .build();
    assert!(request.is_ok());
}

#[test]
fn test_organization_builder_public_api() {
    let request = CreateOrganizationRequestBuilder::new()
        .name("test-org")
        .full_name("Test Organization")
        .description("A test organization")
        .location("Test Location")
        .website("https://test.org")
        .logo_id("logo123")
        .build();
    assert!(request.is_ok());
}

#[test]
fn test_max_length_validation() {
    assert!(validate_max_length("test", 5, "field").is_ok());
    assert!(validate_max_length("test", 4, "field").is_ok());
    assert!(validate_max_length("test", 3, "field").is_err());
}

#[test]
fn test_pattern_validation() {
    assert!(validate_pattern("test", "^[a-z]+$", "field").is_ok());
    assert!(validate_pattern("Test", "^[a-z]+$", "field").is_err());
    assert!(validate_pattern("test123", "^[a-z]+$", "field").is_err());
}

#[test]
fn test_validation_error_display() {
    let err = ValidationError::MaxLength {
        field: "test",
        max: 5,
    };
    assert!(err.message().contains("test"));
    assert!(err.message().contains("5"));

    let err = ValidationError::Pattern { field: "test" };
    assert!(err.message().contains("test"));
    assert!(err.message().contains("pattern"));
}

#[test]
fn test_organization_name_validation() {
    let request = CreateOrganizationRequest {
        organization: CreateOrganizationInner {
            name: "a".repeat(41),
            full_name: "Test Org".to_string(),
            description: None,
            location: None,
            website: None,
        },
        logo_id: None,
    };
    assert!(request.validate().is_err());
}

#[test]
fn test_valid_organization_request() {
    let request = CreateOrganizationRequest {
        organization: CreateOrganizationInner {
            name: "test-org".to_string(),
            full_name: "Test Organization".to_string(),
            description: Some("Description".to_string()),
            location: Some("Location".to_string()),
            website: None,
        },
        logo_id: None,
    };
    assert!(request.validate().is_ok());
}

#[test]
fn test_organization_builder() {
    let request = CreateOrganizationRequestBuilder::new()
        .name("test-org")
        .full_name("Test Organization")
        .description("A test organization")
        .location("Test Location")
        .website("https://test.org")
        .logo_id("logo123")
        .build()
        .unwrap();

    assert_eq!(request.organization.name, "test-org");
    assert_eq!(request.organization.full_name, "Test Organization");
    assert_eq!(request.organization.description.unwrap(), "A test organization");
    assert_eq!(request.organization.location.unwrap(), "Test Location");
    assert_eq!(request.organization.website.unwrap(), "https://test.org");
    assert_eq!(request.logo_id.unwrap(), "logo123");
}

#[test]
fn test_workspace_name_validation() {
    let request = CreateWorkspaceRequest {
        workspace: CreateWorkspaceInner {
            id: None,
            name: "a".repeat(41),
            full_name: "Test Workspace".to_string(),
            description: None,
            visibility: WorkspaceVisibility::Private,
        },
    };
    assert!(request.validate().is_err());
}

#[test]
fn test_valid_workspace_request() {
    let request = CreateWorkspaceRequest {
        workspace: CreateWorkspaceInner {
            id: None,
            name: "test-workspace".to_string(),
            full_name: "Test Workspace".to_string(),
            description: Some("Description".to_string()),
            visibility: WorkspaceVisibility::Private,
        },
    };
    assert!(request.validate().is_ok());
}

#[test]
fn test_description_length() {
    let request = CreateWorkspaceRequest {
        workspace: CreateWorkspaceInner {
            id: None,
            name: "test".to_string(),
            full_name: "Test".to_string(),
            description: Some("a".repeat(1001)),
            visibility: WorkspaceVisibility::Private,
        },
    };
    assert!(request.validate().is_err());
}

#[test]
fn test_builder_pattern() {
    let request = CreateWorkspaceRequestBuilder::new()
        .name("test-workspace")
        .full_name("Test Workspace")
        .description("Description")
        .visibility(WorkspaceVisibility::Private)
        .build();
    assert!(request.is_ok());

    let request = request.unwrap();
    assert!(request.validate().is_ok());
}

#[test]
fn test_workspace_builder() {
    let request = CreateWorkspaceRequestBuilder::new()
        .name("test-workspace")
        .full_name("Test Workspace")
        .description("A test workspace")
        .visibility(WorkspaceVisibility::Private)
        .build()
        .unwrap();

    assert_eq!(request.workspace.name, "test-workspace");
    assert_eq!(request.workspace.full_name, "Test Workspace");
    assert_eq!(request.workspace.description.unwrap(), "A test workspace");
    assert!(matches!(request.workspace.visibility, WorkspaceVisibility::Private));
}

#[test]
fn test_builder_missing_fields() {
    let err = CreateOrganizationRequestBuilder::new()
        .full_name("Full")
        .build()
        .unwrap_err();
    assert_eq!(err, "name is required");

    let err = CreateOrganizationRequestBuilder::new()
        .name("org")
        .build()
        .unwrap_err();
    assert_eq!(err, "full_name is required");

    let err = CreateWorkspaceRequestBuilder::new()
        .name("ws")
        .full_name("Full")
        .build()
        .unwrap_err();
    assert_eq!(err, "visibility is required");

    let err = CreateTeamRequestBuilder::new().build().unwrap_err();
    assert_eq!(err, "name is required");
}

#[test]
fn test_org_name_pattern_rejected() {
    let request = CreateOrganizationRequest {
        organization: CreateOrganizationInner {
            name: "-bad-name-".to_string(),
            full_name: "Fine".to_string(),
            description: None,
            location: None,
            website: None,
        },
        logo_id: None,
    };
    let err = request.validate().unwrap_err();
    assert!(matches!(err, ValidationError::Pattern { field: "name" }));
}

#[test]
fn test_team_name_pattern() {
    let ok = CreateTeamRequestBuilder::new().name("ab").build().unwrap();
    assert!(ok.validate().is_ok());
    let bad = CreateTeamRequestBuilder::new().name("a").build().unwrap();
    assert!(bad.validate().is_err());
    let bad = CreateTeamRequestBuilder::new().name("_ab").build().unwrap();
    assert!(matches!(
        bad.validate().unwrap_err(),
        ValidationError::Pattern { field: "name" }
    ));
}

#[test]
fn test_max_length_error_fields() {
    let err = validate_max_length("toolong", 3, "name").unwrap_err();
    match err {
        ValidationError::MaxLength { field, max } => {
            assert_eq!(field, "name");
            assert_eq!(max, 3);
        }
        _ => panic!("wrong variant"),
    }
    let msg = ValidationError::Required { field: "name" }.message();
    assert_eq!(msg, "Field 'name' is required");
}
