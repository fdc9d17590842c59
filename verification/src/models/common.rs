//! Identifiers, roles and field validation shared by the resource models.
use vstd::prelude::*;
use vstd::string::StringExecFns;
use vstd::string::StringSliceAdditionalSpecFns;

verus! {

/// Strongly typed organization ID
#[derive(Debug, Clone, Copy, PartialEq, Eq, Hash, Structural)]
pub struct OrgId(pub i64);

/// Strongly typed workspace ID
#[derive(Debug, Clone, Copy, PartialEq, Eq, Hash, Structural)]
pub struct WorkspaceId(pub i64);

impl From<i64> for OrgId {
    fn from(id: i64) -> (r: Self) {
        OrgId(id)
    }
}

impl vstd::std_specs::convert::FromSpecImpl<i64> for OrgId {
    open spec fn obeys_from_spec() -> bool {
        true
    }

    open spec fn from_spec(id: i64) -> Self {
        OrgId(id)
    }
}

impl From<i64> for WorkspaceId {
    fn from(id: i64) -> (r: Self) {
        WorkspaceId(id)
    }
}

impl vstd::std_specs::convert::FromSpecImpl<i64> for WorkspaceId {
    open spec fn obeys_from_spec() -> bool {
        true
    }

    open spec fn from_spec(id: i64) -> Self {
        WorkspaceId(id)
    }
}

/// Role within an organization
#[derive(Debug, Clone, Copy, PartialEq, Eq, Structural)]
pub enum OrgRole {
    Owner,
    Member,
    Collaborator,
}

/// Role within a workspace
#[derive(Debug, Clone, Copy, PartialEq, Eq, Structural)]
pub enum WspRole {
    Owner,
    Admin,
    Maintain,
    Launch,
    Connect,
    View,
}

/// Type of participant in a workspace
#[derive(Debug, Clone, Copy, PartialEq, Eq, Structural)]
pub enum ParticipantType {
    Member,
    Team,
    Collaborator,
}

/// Validation errors for field constraints
#[derive(Debug)]
pub enum ValidationError {
    MaxLength { field: &'static str, max: usize },
    Pattern { field: &'static str },
    Required { field: &'static str },
}

/// What a run of the decimal rendering of a number looks like.
pub uninterp spec fn decimal_of(n: usize) -> Seq<char>;

/// Relies on `ToString::to_string` for `usize`: the digits depend on the
/// number alone.
#[verifier::external_body]
fn usize_string(n: usize) -> (r: String)
    ensures
        r@ == decimal_of(n),
{
    n.to_string()
}

impl ValidationError {
    /// The human-readable description of the failed constraint.
    pub fn message(&self) -> (r: String)
        ensures
            match *self {
                ValidationError::MaxLength { field, max } => r@ == "Field '"@ + field@
                    + "' exceeds maximum length of "@ + decimal_of(max) + " characters"@,
                ValidationError::Pattern { field } => r@ == "Field '"@ + field@
                    + "' does not match required pattern"@,
                ValidationError::Required { field } => r@ == "Field '"@ + field@
                    + "' is required"@,
            },
    {
        match self {
            ValidationError::MaxLength { field, max } => {
                let mut s = <String as vstd::string::StringExecFns>::from_str("Field '");
                s.append(field);
                s.append("' exceeds maximum length of ");
                let digits = usize_string(*max);
                s.append(digits.as_str());
                s.append(" characters");
                s
            },
            ValidationError::Pattern { field } => {
                let mut s = <String as vstd::string::StringExecFns>::from_str("Field '");
                s.append(field);
                s.append("' does not match required pattern");
                s
            },
            ValidationError::Required { field } => {
                let mut s = <String as vstd::string::StringExecFns>::from_str("Field '");
                s.append(field);
                s.append("' is required");
                s
            },
        }
    }
}

/// Validation trait for request types
pub trait Validate {
    fn validate(&self) -> Result<(), ValidationError>;
}

/// The byte length of `value` is at most `max`; otherwise the out-of-range
/// field is reported.
pub fn validate_max_length(value: &str, max: usize, field: &'static str) -> (r: Result<
    (),
    ValidationError,
>)
    ensures
        r is Ok <==> value.spec_bytes().len() <= max,
        r is Err ==> (r->Err_0 matches ValidationError::MaxLength { field: f, max: m } && f == field
            && m == max),
{
    let bytes: &[u8] = value.as_bytes();
    if bytes.len() > max {
        Err(ValidationError::MaxLength { field, max })
    } else {
        Ok(())
    }
}

/// Whether the anchored regular expression `pattern` accepts the whole of
/// `value`: a function of the two strings alone.
pub uninterp spec fn regex_accepted(pattern: Seq<char>, value: Seq<char>) -> bool;

/// Relies on `regex::Regex::is_match` on a pattern compiled with
/// `regex::Regex::new`: the outcome depends on the pattern and the haystack
/// alone. A pattern that does not compile accepts nothing.
#[verifier::external_body]
fn regex_accepts(pattern: &str, value: &str) -> (r: bool)
    ensures
        r == regex_accepted(pattern@, value@),
{
    match regex::Regex::new(pattern) {
        Ok(re) => re.is_match(value),
        Err(_) => false,
    }
}

/// The accepted value does not exceed the pattern's repetition bounds; the
/// pattern check reports the field otherwise.
pub fn validate_pattern(value: &str, pattern: &str, field: &'static str) -> (r: Result<
    (),
    ValidationError,
>)
    ensures
        r is Ok <==> regex_accepted(pattern@, value@),
        r is Err ==> (r->Err_0 matches ValidationError::Pattern { field: f } && f == field),
{
    if regex_accepts(pattern, value) {
        Ok(())
    } else {
        Err(ValidationError::Pattern { field })
    }
}

} // verus!
