use vstd::prelude::*;
use crate::error::{ApiErrorResponse, STATUS_BAD_REQUEST};

verus! {

/// A request payload that passed its validation rules.
#[derive(Debug, Clone, Copy, Default)]
pub struct ValidatedJson<T>(pub T);

/// A query string that passed its validation rules.
#[derive(Debug, Clone, Copy, Default)]
pub struct ValidatedQuery<T>(pub T);

/// The refusal of a payload whose required field is empty.
pub fn validation_error(field: &str) -> (r: ApiErrorResponse)
    ensures
        r.status == STATUS_BAD_REQUEST,
{
    let mut message = "Input validation error: [".to_owned();
    message.append(field);
    message.append(" is required]");
    ApiErrorResponse::new(STATUS_BAD_REQUEST, message)
}

/// Refuses an empty required field.
pub fn require_non_empty(value: &str, field: &str) -> (r: Result<(), ApiErrorResponse>)
    ensures
        r is Ok <==> value@.len() > 0,
        r matches Err(e) ==> e.status == STATUS_BAD_REQUEST,
{
    if value.is_empty() {
        Err(validation_error(field))
    } else {
        Ok(())
    }
}

/// Login request: the role defaults to `admin` when absent.
#[derive(Debug)]
pub struct LoginDto {
    pub email: String,
    pub password: String,
    pub user_type: Option<String>,
}

impl LoginDto {
    /// Email and password are required; a given role must not be empty.
    pub fn validate(&self) -> (r: Result<(), ApiErrorResponse>)
        ensures
            r is Ok <==> self.email@.len() > 0 && self.password@.len() > 0
                && (self.user_type matches Some(t) ==> t@.len() > 0),
            r matches Err(e) ==> e.status == STATUS_BAD_REQUEST,
    {
        require_non_empty(self.email.as_str(), "email")?;
        require_non_empty(self.password.as_str(), "password")?;
        match &self.user_type {
            Some(t) => require_non_empty(t.as_str(), "user_type"),
            None => Ok(()),
        }
    }
}

/// The token pair handed out on login and on refresh.
#[derive(Debug)]
pub struct LoginSuccessDto {
    pub access_token: String,
    pub refresh_token: String,
    pub token_type: String,
}

/// Refresh request body; the token may also come from the cookie.
#[derive(Debug)]
pub struct RefreshTokenRequestDto {
    pub refresh_token: Option<String>,
}

impl RefreshTokenRequestDto {
    /// A token given in the body must not be empty.
    pub fn validate(&self) -> (r: Result<(), ApiErrorResponse>)
        ensures
            r is Ok <==> (self.refresh_token matches Some(t) ==> t@.len() > 0),
            r matches Err(e) ==> e.status == STATUS_BAD_REQUEST,
    {
        match &self.refresh_token {
            Some(t) => require_non_empty(t.as_str(), "refresh_token"),
            None => Ok(()),
        }
    }
}

#[derive(Debug)]
pub struct ChangePasswordDto {
    pub old_password: String,
    pub new_password: String,
}

impl ChangePasswordDto {
    pub fn validate(&self) -> (r: Result<(), ApiErrorResponse>)
        ensures
            r is Ok <==> self.old_password@.len() > 0 && self.new_password@.len() > 0,
            r matches Err(e) ==> e.status == STATUS_BAD_REQUEST,
    {
        require_non_empty(self.old_password.as_str(), "old_password")?;
        require_non_empty(self.new_password.as_str(), "new_password")
    }
}

#[derive(Debug)]
pub struct UpdatePasswordDto {
    pub password: String,
}

impl UpdatePasswordDto {
    pub fn validate(&self) -> (r: Result<(), ApiErrorResponse>)
        ensures
            r is Ok <==> self.password@.len() > 0,
            r matches Err(e) ==> e.status == STATUS_BAD_REQUEST,
    {
        require_non_empty(self.password.as_str(), "password")
    }
}

#[derive(Debug)]
pub struct CreateAdminUserDto {
    pub name: String,
    pub email: String,
    pub phone_number: String,
    pub password: String,
}

impl CreateAdminUserDto {
    pub fn validate(&self) -> (r: Result<(), ApiErrorResponse>)
        ensures
            r is Ok <==> self.name@.len() > 0 && self.email@.len() > 0 && self.phone_number@.len() > 0
                && self.password@.len() > 0,
            r matches Err(e) ==> e.status == STATUS_BAD_REQUEST,
    {
        require_non_empty(self.name.as_str(), "name")?;
        require_non_empty(self.email.as_str(), "email")?;
        require_non_empty(self.phone_number.as_str(), "phone_number")?;
        require_non_empty(self.password.as_str(), "password")
    }
}

#[derive(Debug)]
pub struct CreateCustomerDto {
    pub name: String,
    pub email: String,
    pub phone_number: String,
    pub spm_id: String,
}

impl CreateCustomerDto {
    pub fn validate(&self) -> (r: Result<(), ApiErrorResponse>)
        ensures
            r is Ok <==> self.name@.len() > 0 && self.email@.len() > 0 && self.phone_number@.len() > 0
                && self.spm_id@.len() > 0,
            r matches Err(e) ==> e.status == STATUS_BAD_REQUEST,
    {
        require_non_empty(self.name.as_str(), "name")?;
        require_non_empty(self.email.as_str(), "email")?;
        require_non_empty(self.phone_number.as_str(), "phone_number")?;
        require_non_empty(self.spm_id.as_str(), "spm_id")
    }
}

/// A new monitored cage, as requested by its owner.
#[derive(Debug)]
pub struct AddNewCageDto {
    pub cage_id: String,
    pub livestock_no: u32,
    pub assigned_monitor: String,
}

impl AddNewCageDto {
    pub fn validate(&self) -> (r: Result<(), ApiErrorResponse>)
        ensures
            r is Ok <==> self.cage_id@.len() > 0 && self.assigned_monitor@.len() > 0,
            r matches Err(e) ==> e.status == STATUS_BAD_REQUEST,
    {
        require_non_empty(self.cage_id.as_str(), "cage_id")?;
        require_non_empty(self.assigned_monitor.as_str(), "assigned_monitor")
    }
}

/// The format of a downloaded cage report.
#[derive(Debug, Clone, Copy, PartialEq, Eq, Structural)]
pub enum FileType {
    Csv,
    Pdf,
}

#[derive(Debug, Clone, Copy, PartialEq, Eq, Structural)]
pub struct ParseFileTypeError;

impl ParseFileTypeError {
    pub fn to_string(&self) -> (r: String)
        ensures
            r@ == "Invalid file type"@,
    {
        "Invalid file type".to_owned()
    }
}

pub open spec fn file_type_of(s: Seq<char>) -> Option<FileType> {
    if s == "csv"@ || s == "Csv"@ || s == "CSV"@ {
        Some(FileType::Csv)
    } else if s == "pdf"@ || s == "Pdf"@ || s == "PDF"@ {
        Some(FileType::Pdf)
    } else {
        None
    }
}

impl FileType {
    /// Reads a file type; lower, capitalised and upper case are accepted.
    pub fn from_str(s: &str) -> (r: Result<FileType, ParseFileTypeError>)
        ensures
            r matches Ok(t) ==> file_type_of(s@) == Some(t),
            r is Err <==> file_type_of(s@) is None,
    {
        let t = s.to_owned();
        if t == "csv".to_owned() || t == "Csv".to_owned() || t == "CSV".to_owned() {
            Ok(FileType::Csv)
        } else if t == "pdf".to_owned() || t == "Pdf".to_owned() || t == "PDF".to_owned() {
            Ok(FileType::Pdf)
        } else {
            Err(ParseFileTypeError)
        }
    }
}

} // verus!
