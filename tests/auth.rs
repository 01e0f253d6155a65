use fiya::auth_service::{select_refresh_token, AuthService};
use fiya::claims::{Claims, RefreshTokenClaims, TokenClaims};
use fiya::dto::{ChangePasswordDto, LoginDto, RefreshTokenRequestDto, UpdatePasswordDto};
use fiya::models::User;
use fiya::role::UserType;
use fiya::user_repository::UserRepository;

const NOW: u64 = 1_700_000_000;
const BROWSER: &str = "Mozilla/5.0 (X11; Linux x86_64) Chrome/120.0 Safari/537.36";
const CLI: &str = "curl/8.4.0";

fn sign(c: TokenClaims) -> Option<String> {
    match c {
        TokenClaims::Access(a) => Some(format!(
            "A|{}|{}|{}|{}|{}|{}",
            a.sub,
            a.role.to_string(),
            a.iat,
            a.exp,
            a.iss,
            a.aud
        )),
        TokenClaims::Refresh(r) => Some(format!("R|{}|{}|{}|{}", r.id, r.sub, r.iat, r.exp)),
    }
}

fn decode_refresh(t: String) -> Option<RefreshTokenClaims> {
    let parts: Vec<&str> = t.split('|').collect();
    if parts.len() != 5 || parts[0] != "R" {
        return None;
    }
    Some(RefreshTokenClaims {
        id: parts[1].parse().ok()?,
        sub: parts[2].parse().ok()?,
        iat: parts[3].parse().ok()?,
        exp: parts[4].parse().ok()?,
    })
}

fn decode_access(t: String) -> Option<Claims> {
    let parts: Vec<&str> = t.split('|').collect();
    if parts.len() != 7 || parts[0] != "A" {
        return None;
    }
    Some(Claims {
        sub: parts[1].parse().ok()?,
        role: UserType::from_str(parts[2]).ok()?,
        iat: parts[3].parse().ok()?,
        exp: parts[4].parse().ok()?,
        iss: parts[5].to_string(),
        aud: parts[6].to_string(),
    })
}

fn account(email: &str, password: &str, user_type: UserType) -> User {
    User {
        id: 0,
        name: "Ada".to_string(),
        email: email.to_string(),
        phone_number: "555-0100".to_string(),
        password: bcrypt::hash(password, 4).unwrap(),
        user_type,
        created_customers: None,
        created_by: None,
        spm_id: None,
        created_at: 0,
        updated_at: 0,
    }
}

fn login_dto(email: &str, password: &str, role: Option<&str>) -> LoginDto {
    LoginDto {
        email: email.to_string(),
        password: password.to_string(),
        user_type: role.map(|r| r.to_string()),
    }
}

fn store_with(email: &str, password: &str, user_type: UserType) -> (UserRepository, usize) {
    let mut repo = UserRepository::new();
    let created = repo.create_user(account(email, password, user_type)).unwrap();
    (repo, created.id)
}

#[test]
fn login_returns_access_token_for_user_id_and_role() {
    let (mut repo, id) = store_with("a@x.com", "p1", UserType::Customer);
    let service = AuthService::new();
    let resp = service
        .login(&mut repo, CLI, login_dto("a@x.com", "p1", Some("customer")), NOW, &sign)
        .unwrap();
    let claims = decode_access(resp.data.access_token.clone()).unwrap();
    assert_eq!(claims.sub, id);
    assert_eq!(claims.role, UserType::Customer);
    assert_eq!(claims.iat, NOW);
    assert_eq!(claims.exp, NOW + 3600);
    assert_eq!(claims.iss, "Fiya webservice");
    assert_eq!(claims.aud, "Fiya webApp");
    assert_eq!(resp.data.token_type, "Bearer");
    assert!(resp.http_only_refresh_token.is_none());
    let session = repo.find_valid_user_refresh_token_by_user_id(id).unwrap();
    assert_eq!(session.refresh_token, resp.data.refresh_token);
    assert_eq!(session.expires_at, NOW + 3600);
}

#[test]
fn login_defaults_to_admin_role() {
    let (mut repo, _) = store_with("boss@x.com", "pw", UserType::Admin);
    let resp = AuthService::new().login(&mut repo, CLI, login_dto("boss@x.com", "pw", None), NOW, &sign);
    assert!(resp.is_ok());
}

#[test]
fn login_sets_cookie_for_browsers() {
    let (mut repo, _) = store_with("a@x.com", "p1", UserType::Admin);
    let resp = AuthService::new()
        .login(&mut repo, BROWSER, login_dto("a@x.com", "p1", Some("admin")), NOW, &sign)
        .unwrap();
    let (cookie, expires) = resp.http_only_refresh_token.unwrap();
    assert_eq!(cookie, resp.data.refresh_token);
    assert_eq!(expires, NOW + 3600);
}

#[test]
fn login_with_wrong_role_is_unauthorized() {
    let (mut repo, _) = store_with("a@x.com", "p1", UserType::Customer);
    let err = AuthService::new()
        .login(&mut repo, CLI, login_dto("a@x.com", "p1", Some("admin")), NOW, &sign)
        .unwrap_err();
    assert_eq!(err.status, 401);
    assert!(repo.find_valid_user_refresh_token_by_user_id(0).is_none());
}

#[test]
fn login_with_unknown_role_is_bad_request() {
    let (mut repo, _) = store_with("a@x.com", "p1", UserType::Admin);
    let err = AuthService::new()
        .login(&mut repo, CLI, login_dto("a@x.com", "p1", Some("root")), NOW, &sign)
        .unwrap_err();
    assert_eq!(err.status, 400);
}

#[test]
fn login_with_unknown_email_is_unauthorized() {
    let (mut repo, _) = store_with("a@x.com", "p1", UserType::Admin);
    let err = AuthService::new()
        .login(&mut repo, CLI, login_dto("b@x.com", "p1", Some("admin")), NOW, &sign)
        .unwrap_err();
    assert_eq!(err.status, 401);
}

#[test]
fn login_with_wrong_password_is_unauthorized() {
    let (mut repo, _) = store_with("a@x.com", "p1", UserType::Admin);
    let err = AuthService::new()
        .login(&mut repo, CLI, login_dto("a@x.com", "p2", Some("admin")), NOW, &sign)
        .unwrap_err();
    assert_eq!(err.status, 401);
}

#[test]
fn login_when_signer_fails_is_internal_and_stores_no_session() {
    let (mut repo, id) = store_with("a@x.com", "p1", UserType::Admin);
    let refuse = |_c: TokenClaims| -> Option<String> { None };
    let err = AuthService::new()
        .login(&mut repo, CLI, login_dto("a@x.com", "p1", Some("admin")), NOW, &refuse)
        .unwrap_err();
    assert_eq!(err.status, 500);
    assert!(repo.find_valid_user_refresh_token_by_user_id(id).is_none());
}

#[test]
fn second_login_invalidates_first_refresh_token() {
    let (mut repo, _) = store_with("a@x.com", "p1", UserType::Admin);
    let service = AuthService::new();
    let first = service
        .login(&mut repo, CLI, login_dto("a@x.com", "p1", Some("admin")), NOW, &sign)
        .unwrap();
    let second = service
        .login(&mut repo, CLI, login_dto("a@x.com", "p1", Some("admin")), NOW, &sign)
        .unwrap();
    assert_ne!(first.data.refresh_token, second.data.refresh_token);
    let stale = RefreshTokenRequestDto { refresh_token: Some(first.data.refresh_token) };
    let err = service
        .refresh_user_token(&mut repo, CLI, None, stale, NOW + 10, &sign, &decode_refresh)
        .unwrap_err();
    assert_eq!(err.status, 400);
    let current = RefreshTokenRequestDto { refresh_token: Some(second.data.refresh_token) };
    assert!(service
        .refresh_user_token(&mut repo, CLI, None, current, NOW + 10, &sign, &decode_refresh)
        .is_ok());
}

#[test]
fn refresh_token_works_once() {
    let (mut repo, id) = store_with("a@x.com", "p1", UserType::Admin);
    let service = AuthService::new();
    let login = service
        .login(&mut repo, CLI, login_dto("a@x.com", "p1", Some("admin")), NOW, &sign)
        .unwrap();
    let token = login.data.refresh_token;
    let first = service
        .refresh_user_token(
            &mut repo,
            CLI,
            None,
            RefreshTokenRequestDto { refresh_token: Some(token.clone()) },
            NOW + 5,
            &sign,
            &decode_refresh,
        )
        .unwrap();
    let access = decode_access(first.data.access_token).unwrap();
    assert_eq!(access.sub, id);
    assert_eq!(access.iat, NOW + 5);
    let again = service
        .refresh_user_token(
            &mut repo,
            CLI,
            None,
            RefreshTokenRequestDto { refresh_token: Some(token) },
            NOW + 6,
            &sign,
            &decode_refresh,
        )
        .unwrap_err();
    assert_eq!(again.status, 400);
}

#[test]
fn refresh_uses_body_token_when_cookie_also_present() {
    let (mut repo, _) = store_with("a@x.com", "p1", UserType::Admin);
    let service = AuthService::new();
    let old = service
        .login(&mut repo, CLI, login_dto("a@x.com", "p1", Some("admin")), NOW, &sign)
        .unwrap();
    let live = service
        .login(&mut repo, CLI, login_dto("a@x.com", "p1", Some("admin")), NOW, &sign)
        .unwrap();
    // Body holds the live token, the cookie a stale one: the body is used.
    let ok = service.refresh_user_token(
        &mut repo,
        CLI,
        Some(old.data.refresh_token.clone()),
        RefreshTokenRequestDto { refresh_token: Some(live.data.refresh_token.clone()) },
        NOW + 1,
        &sign,
        &decode_refresh,
    );
    assert!(ok.is_ok());
    // Body holds a stale token, the cookie the live one: still the body is used.
    let newest = ok.unwrap().data.refresh_token;
    let err = service
        .refresh_user_token(
            &mut repo,
            CLI,
            Some(newest),
            RefreshTokenRequestDto { refresh_token: Some(old.data.refresh_token) },
            NOW + 2,
            &sign,
            &decode_refresh,
        )
        .unwrap_err();
    assert_eq!(err.status, 400);
}

#[test]
fn select_refresh_token_prefers_body() {
    assert_eq!(
        select_refresh_token(Some("B".to_string()), Some("A".to_string())),
        Some("A".to_string())
    );
    assert_eq!(select_refresh_token(Some("B".to_string()), None), Some("B".to_string()));
    assert_eq!(select_refresh_token(None, Some("A".to_string())), Some("A".to_string()));
    assert_eq!(select_refresh_token(None, None), None);
}

#[test]
fn refresh_without_any_token_is_unauthorized() {
    let (mut repo, _) = store_with("a@x.com", "p1", UserType::Admin);
    let err = AuthService::new()
        .refresh_user_token(
            &mut repo,
            CLI,
            None,
            RefreshTokenRequestDto { refresh_token: None },
            NOW,
            &sign,
            &decode_refresh,
        )
        .unwrap_err();
    assert_eq!(err.status, 401);
    assert_eq!(err.message, "Invalid refresh token request");
}

#[test]
fn refresh_with_undecodable_token_is_bad_request() {
    let (mut repo, _) = store_with("a@x.com", "p1", UserType::Admin);
    let err = AuthService::new()
        .refresh_user_token(
            &mut repo,
            CLI,
            Some("garbage".to_string()),
            RefreshTokenRequestDto { refresh_token: None },
            NOW,
            &sign,
            &decode_refresh,
        )
        .unwrap_err();
    assert_eq!(err.status, 400);
}

#[test]
fn refresh_after_session_expiry_is_bad_request() {
    let (mut repo, _) = store_with("a@x.com", "p1", UserType::Admin);
    let service = AuthService::new();
    let login = service
        .login(&mut repo, CLI, login_dto("a@x.com", "p1", Some("admin")), NOW, &sign)
        .unwrap();
    let err = service
        .refresh_user_token(
            &mut repo,
            CLI,
            None,
            RefreshTokenRequestDto { refresh_token: Some(login.data.refresh_token) },
            NOW + 3600,
            &sign,
            &decode_refresh,
        )
        .unwrap_err();
    assert_eq!(err.status, 400);
}

#[test]
fn logout_ends_the_session() {
    let (mut repo, id) = store_with("a@x.com", "p1", UserType::Admin);
    let service = AuthService::new();
    let login = service
        .login(&mut repo, CLI, login_dto("a@x.com", "p1", Some("admin")), NOW, &sign)
        .unwrap();
    let out = service.logout(&mut repo, id).unwrap();
    assert_eq!(out.message, "Logout successful");
    assert!(repo.find_valid_user_refresh_token_by_user_id(id).is_none());
    let err = service
        .refresh_user_token(
            &mut repo,
            CLI,
            None,
            RefreshTokenRequestDto { refresh_token: Some(login.data.refresh_token) },
            NOW + 1,
            &sign,
            &decode_refresh,
        )
        .unwrap_err();
    assert_eq!(err.status, 400);
    assert!(service.logout(&mut repo, 99).is_ok());
}

#[test]
fn get_authenticated_user_hides_password() {
    let (repo, id) = store_with("a@x.com", "p1", UserType::Customer);
    let service = AuthService::new();
    let resp = service.get_authenticated_user(&repo, id).unwrap();
    assert_eq!(resp.data.email, "a@x.com");
    assert_eq!(resp.data.user_type, UserType::Customer);
    assert_eq!(service.get_authenticated_user(&repo, 7).unwrap_err().status, 401);
}

#[test]
fn change_password_with_wrong_current_password_keeps_verifier() {
    let (mut repo, id) = store_with("a@x.com", "p1", UserType::Admin);
    let before = repo.find_user_by_id(id).unwrap().password.clone();
    let err = AuthService::new()
        .change_user_password(
            &mut repo,
            id,
            ChangePasswordDto { old_password: "nope".to_string(), new_password: "p2".to_string() },
        )
        .unwrap_err();
    assert_eq!(err.status, 400);
    assert_eq!(repo.find_user_by_id(id).unwrap().password, before);
}

#[test]
fn change_password_switches_the_accepted_password() {
    let (mut repo, id) = store_with("a@x.com", "p1", UserType::Admin);
    let service = AuthService::new();
    service
        .change_user_password(
            &mut repo,
            id,
            ChangePasswordDto { old_password: "p1".to_string(), new_password: "p2".to_string() },
        )
        .unwrap();
    let old = service.login(&mut repo, CLI, login_dto("a@x.com", "p1", Some("admin")), NOW, &sign);
    assert_eq!(old.unwrap_err().status, 401);
    let new = service.login(&mut repo, CLI, login_dto("a@x.com", "p2", Some("admin")), NOW, &sign);
    assert!(new.is_ok());
}

#[test]
fn change_password_of_unknown_user_is_unauthorized() {
    let mut repo = UserRepository::new();
    let err = AuthService::new()
        .change_user_password(
            &mut repo,
            3,
            ChangePasswordDto { old_password: "a".to_string(), new_password: "b".to_string() },
        )
        .unwrap_err();
    assert_eq!(err.status, 401);
}

#[test]
fn update_password_skips_old_password_check() {
    let (mut repo, id) = store_with("a@x.com", "p1", UserType::Admin);
    let service = AuthService::new();
    service
        .update_user_password(&mut repo, id, UpdatePasswordDto { password: "fresh".to_string() })
        .unwrap();
    let stored = repo.find_user_by_id(id).unwrap().password.clone();
    assert!(fiya::password::password_matches("fresh", &stored));
    assert_eq!(
        service
            .update_user_password(&mut repo, 42, UpdatePasswordDto { password: "x".to_string() })
            .unwrap_err()
            .status,
        401
    );
}
