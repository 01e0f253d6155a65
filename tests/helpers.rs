use fiya::claims::{Claims, RefreshTokenClaims};
use fiya::dto::{FileType, LoginDto, ValidatedJson};
use fiya::error::{
    access_denied_error, bad_request_error, http_error, internal_error, internal_server_error,
    invalid_credentials_error, not_found_error, ApiErrorResponse,
};
use fiya::middleware::{bearer_token, requires_auth, requires_spm_auth};
use fiya::password::{hash_password, password_matches};
use fiya::response::{ApiSuccessResponse, AuthLogoutSuccessResponse, SpmDownloadCsvSuccessResponse};
use fiya::role::UserType;
use fiya::user_agent::{contains_text, is_browser};

#[test]
fn browsers_are_recognised() {
    assert!(is_browser("Mozilla/5.0 (Windows NT 10.0) AppleWebKit/537.36 Chrome/120.0"));
    assert!(is_browser("Mozilla/5.0 Firefox/121.0"));
    assert!(is_browser("Opera/9.80"));
    assert!(!is_browser("curl/8.4.0"));
    assert!(!is_browser(""));
    assert!(!is_browser("chrome lowercase"));
}

#[test]
fn substring_search() {
    assert!(contains_text("abcdef", "cde"));
    assert!(contains_text("abc", ""));
    assert!(!contains_text("ab", "abc"));
    assert!(!contains_text("abcabd", "abe"));
}

#[test]
fn roles_round_trip_through_wire_form() {
    assert_eq!(UserType::from_str("admin"), Ok(UserType::Admin));
    assert_eq!(UserType::from_str("customer"), Ok(UserType::Customer));
    assert!(UserType::from_str("Admin").is_err());
    assert_eq!(UserType::Admin.to_string(), "admin");
    assert_eq!(UserType::Customer.to_string(), "customer");
}

#[test]
fn file_types_parse() {
    assert_eq!(FileType::from_str("csv"), Ok(FileType::Csv));
    assert_eq!(FileType::from_str("CSV"), Ok(FileType::Csv));
    assert_eq!(FileType::from_str("Pdf"), Ok(FileType::Pdf));
    let err = FileType::from_str("xls").unwrap_err();
    assert_eq!(err.to_string(), "Invalid file type");
}

#[test]
fn bearer_header_parsing() {
    assert_eq!(bearer_token("Bearer abc.def"), Some("abc.def".to_string()));
    assert_eq!(bearer_token("Bearer "), Some(String::new()));
    assert_eq!(bearer_token("Basic abc"), None);
    assert_eq!(bearer_token("Bearer"), None);
    assert_eq!(requires_spm_auth(Some("Bearer dev")).unwrap().token, "dev");
    assert_eq!(requires_spm_auth(None).unwrap_err().status, 401);
}

fn decode_access(t: String) -> Option<Claims> {
    if t == "good" {
        Some(Claims::new(4, UserType::Customer, 100))
    } else if t == "foreign" {
        let mut c = Claims::new(4, UserType::Customer, 100);
        c.aud = "Other app".to_string();
        Some(c)
    } else {
        None
    }
}

#[test]
fn protected_routes_require_valid_access_token() {
    let user = requires_auth(Some("Bearer good"), &decode_access).unwrap();
    assert_eq!(user.id, 4);
    assert_eq!(user.user_type, UserType::Customer);
    assert_eq!(requires_auth(None, &decode_access).unwrap_err().status, 401);
    assert_eq!(requires_auth(Some("good"), &decode_access).unwrap_err().status, 401);
    let refused = requires_auth(Some("Bearer bad"), &decode_access).unwrap_err();
    assert_eq!((refused.status, refused.message.as_str()), (401, "Invalid credentials"));
    assert_eq!(requires_auth(Some("Bearer foreign"), &decode_access).unwrap_err().status, 401);
}

#[test]
fn claims_carry_one_hour_expiry() {
    let c = Claims::new(7, UserType::Admin, 1_000);
    assert_eq!((c.sub, c.iat, c.exp), (7, 1_000, 4_600));
    assert_eq!(c.iss, "Fiya webservice");
    assert_eq!(c.aud, "Fiya webApp");
    assert!(c.is_for_this_service());
    let r = RefreshTokenClaims::new(3, 7, 1_000);
    assert_eq!(r, RefreshTokenClaims { id: 3, exp: 4_600, iat: 1_000, sub: 7 });
}

#[test]
fn password_hashing_round_trip() {
    let verifier = hash_password("hunter2").unwrap();
    assert!(verifier.starts_with("$2"));
    assert!(password_matches("hunter2", &verifier));
    assert!(!password_matches("hunter3", &verifier));
    assert!(!password_matches("hunter2", "not a verifier"));
}

#[test]
fn error_helpers_set_status() {
    assert_eq!(internal_error("db down".to_string()).message, "db down");
    assert_eq!(internal_error("x".to_string()).status, 500);
    assert_eq!(internal_server_error((), "csv").status, 500);
    assert_eq!(invalid_credentials_error(()).status, 401);
    assert_eq!(invalid_credentials_error(()).message, "Invalid credentials");
    assert_eq!(access_denied_error(()).message, "access denied");
    assert_eq!(bad_request_error(()).message, "bad request");
    assert_eq!(access_denied_error(()).status, 403);
    assert_eq!(bad_request_error(()).status, 400);
    assert_eq!(not_found_error((), "gone").message, "gone");
    assert_eq!(not_found_error((), "gone").status, 404);
    assert_eq!(http_error((), 418, "teapot").status, 418);
    let e = ApiErrorResponse::new(409, "dup".to_string());
    assert_eq!((e.status, e.message.as_str()), (409, "dup"));
}

#[test]
fn response_envelopes_keep_their_parts() {
    let ok = ApiSuccessResponse::new("m".to_string(), 5u8, None);
    assert_eq!((ok.message.as_str(), ok.data), ("m", 5));
    assert_eq!(AuthLogoutSuccessResponse::new("bye".to_string()).message, "bye");
    assert_eq!(SpmDownloadCsvSuccessResponse::new(vec![1, 2]).data, vec![1, 2]);
}

#[test]
fn login_payload_validation() {
    let dto = LoginDto { email: "a@x.com".to_string(), password: "".to_string(), user_type: None };
    assert_eq!(dto.validate().unwrap_err().status, 400);
    let dto = LoginDto { email: "a@x.com".to_string(), password: "p".to_string(), user_type: Some("".to_string()) };
    assert!(dto.validate().is_err());
    let dto = LoginDto { email: "a@x.com".to_string(), password: "p".to_string(), user_type: None };
    assert!(dto.validate().is_ok());
    let ValidatedJson(inner) = ValidatedJson(dto);
    assert_eq!(inner.email, "a@x.com");
}
