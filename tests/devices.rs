use fiya::device::{
    device_secret_matches, device_seed, device_token_from_seed, generate_password,
    generate_secure_device_token, hash_id_with_secret,
};
use fiya::dto::AddNewCageDto;
use fiya::models::User;
use fiya::role::UserType;
use fiya::spm_repository::{Cage, SpmDeviceToken, SpmRepository};
use fiya::spm_service::SpmService;
use fiya::user_repository::UserRepository;

const SECRET: &str = "device-secret-key";

fn owner_store() -> (UserRepository, usize) {
    let mut users = UserRepository::new();
    let owner = users
        .create_user(User {
            id: 0,
            name: "Ola".to_string(),
            email: "ola@x.com".to_string(),
            phone_number: "555".to_string(),
            password: "unused".to_string(),
            user_type: UserType::Customer,
            created_customers: None,
            created_by: None,
            spm_id: None,
            created_at: 0,
            updated_at: 0,
        })
        .unwrap();
    (users, owner.id)
}

fn cage_dto(cage_id: &str) -> AddNewCageDto {
    AddNewCageDto { cage_id: cage_id.to_string(), livestock_no: 12, assigned_monitor: "ola".to_string() }
}

fn cage(cage_id: &str) -> Cage {
    Cage {
        id: 0,
        cage_id: cage_id.to_string(),
        assigned_monitor: "ola".to_string(),
        livestock_no: 3,
        timestamp: 1,
        created_at: 1,
        updated_at: 1,
    }
}

fn verifier_record(id: &str, token: &str) -> SpmDeviceToken {
    SpmDeviceToken { id: id.to_string(), token: token.to_string(), created_at: 1, updated_at: 1 }
}

#[test]
fn hmac_matches_known_vector() {
    assert_eq!(
        hash_id_with_secret("key", "The quick brown fox jumps over the lazy dog"),
        "f7bc83f430538424b13298e6aa6fb143ef4d59a14946175997479dbc2d1a3cd8"
    );
}

#[test]
fn device_seed_joins_with_colons() {
    assert_eq!(device_seed("id", "2024-01-01T00:00:00+00:00", "salt"), "id:2024-01-01T00:00:00+00:00:salt");
}

#[test]
fn device_token_verifier_is_hash_of_token() {
    let (token, verifier) = device_token_from_seed(SECRET, "seed");
    assert_eq!(token, hash_id_with_secret(SECRET, "seed"));
    assert_eq!(verifier, hash_id_with_secret(SECRET, &token));
    assert_ne!(token, verifier);
    assert_eq!(token.len(), 64);
    assert!(verifier.chars().all(|c| c.is_ascii_digit() || ('a'..='f').contains(&c)));
}

#[test]
fn generated_device_tokens_differ_and_verify() {
    let (t1, v1) = generate_secure_device_token(SECRET);
    let (t2, v2) = generate_secure_device_token(SECRET);
    assert_ne!(t1, t2);
    assert!(device_secret_matches(SECRET, &t1, &v1));
    assert!(device_secret_matches(SECRET, &t2, &v2));
    assert!(!device_secret_matches(SECRET, &t1, &v2));
}

#[test]
fn generated_password_is_alphanumeric_of_given_length() {
    let p = generate_password(12);
    assert_eq!(p.chars().count(), 12);
    assert!(p.chars().all(|c| c.is_ascii_alphanumeric()));
    assert_eq!(generate_password(0), "");
}

#[test]
fn provisioning_returns_secret_and_stores_only_verifier() {
    let (users, owner) = owner_store();
    let mut spm = SpmRepository::new();
    let service = SpmService::new(SECRET.to_string());
    let resp = service.add_new_cage(&users, &mut spm, owner, cage_dto("cage-1"), 10).unwrap();
    let secret = resp.data.device_token.clone();
    let stored = spm.find_device_token_by_id("cage-1").unwrap();
    assert_ne!(stored.token, secret);
    assert_eq!(stored.token, hash_id_with_secret(SECRET, &secret));
    assert_eq!(spm.find_cage_by_cage_id("cage-1").unwrap().livestock_no, 12);
    assert!(service.verify_device_token(&spm, "cage-1", &secret).is_ok());
    let found = service.update_cage_info(&spm, "cage-1", &secret).unwrap();
    assert_eq!(found.cage_id, "cage-1");
}

#[test]
fn provisioning_for_unknown_user_is_unauthorized() {
    let (users, _) = owner_store();
    let mut spm = SpmRepository::new();
    let err = SpmService::new(SECRET.to_string())
        .add_new_cage(&users, &mut spm, 5, cage_dto("cage-1"), 10)
        .unwrap_err();
    assert_eq!(err.status, 401);
    assert!(spm.find_cage_by_cage_id("cage-1").is_none());
}

#[test]
fn duplicate_provisioning_is_refused() {
    let (users, owner) = owner_store();
    let mut spm = SpmRepository::new();
    let service = SpmService::new(SECRET.to_string());
    service.add_new_cage(&users, &mut spm, owner, cage_dto("cage-1"), 10).unwrap();
    let err = service.add_new_cage(&users, &mut spm, owner, cage_dto("cage-1"), 11).unwrap_err();
    assert_eq!(err.status, 400);
    assert_eq!(err.message, "Device token already exist");
}

#[test]
fn failed_second_write_persists_neither_record() {
    let mut spm = SpmRepository::new();
    spm.create_new_cage(cage("cage-1"), verifier_record("token-1", "v1")).unwrap();
    // The verifier write would succeed, the cage write collides.
    let err = spm.create_new_cage(cage("cage-1"), verifier_record("token-2", "v2")).unwrap_err();
    assert_eq!(err.status, 400);
    assert_eq!(err.message, "Cage already exist");
    assert!(spm.find_device_token_by_id("token-2").is_none());
    assert!(spm.find_device_token_by_id("token-1").is_some());
    assert_eq!(spm.find_all_users_cages("ola").len(), 1);
}

#[test]
fn failed_first_write_persists_nothing() {
    let mut spm = SpmRepository::new();
    spm.create_new_cage(cage("cage-1"), verifier_record("token-1", "v1")).unwrap();
    let err = spm.create_new_cage(cage("cage-2"), verifier_record("token-1", "v2")).unwrap_err();
    assert_eq!(err.status, 400);
    assert_eq!(err.message, "Device token already exist");
    assert!(spm.find_cage_by_cage_id("cage-2").is_none());
}

#[test]
fn wrong_device_secret_is_forbidden() {
    let (users, owner) = owner_store();
    let mut spm = SpmRepository::new();
    let service = SpmService::new(SECRET.to_string());
    service.add_new_cage(&users, &mut spm, owner, cage_dto("cage-1"), 10).unwrap();
    assert_eq!(service.verify_device_token(&spm, "cage-1", "guess").unwrap_err().status, 403);
    assert_eq!(service.verify_device_token(&spm, "cage-9", "guess").unwrap_err().status, 403);
    assert_eq!(service.update_cage_info(&spm, "cage-1", "guess").unwrap_err().status, 403);
}

#[test]
fn secret_of_another_device_is_forbidden() {
    let (users, owner) = owner_store();
    let mut spm = SpmRepository::new();
    let service = SpmService::new(SECRET.to_string());
    let a = service.add_new_cage(&users, &mut spm, owner, cage_dto("cage-a"), 10).unwrap();
    let b = service.add_new_cage(&users, &mut spm, owner, cage_dto("cage-b"), 10).unwrap();
    assert!(service.verify_device_token(&spm, "cage-b", &b.data.device_token).is_ok());
    let err = service.verify_device_token(&spm, "cage-a", &b.data.device_token).unwrap_err();
    assert_eq!(err.status, 403);
    assert!(service.verify_device_token(&spm, "cage-a", &a.data.device_token).is_ok());
}

#[test]
fn secret_under_another_server_key_is_forbidden() {
    let (users, owner) = owner_store();
    let mut spm = SpmRepository::new();
    let resp = SpmService::new(SECRET.to_string())
        .add_new_cage(&users, &mut spm, owner, cage_dto("cage-1"), 10)
        .unwrap();
    let other = SpmService::new("another-key".to_string());
    assert_eq!(other.verify_device_token(&spm, "cage-1", &resp.data.device_token).unwrap_err().status, 403);
}

#[test]
fn users_cages_are_listed_by_monitor() {
    let (users, owner) = owner_store();
    let mut spm = SpmRepository::new();
    let service = SpmService::new(SECRET.to_string());
    service.add_new_cage(&users, &mut spm, owner, cage_dto("cage-1"), 10).unwrap();
    let mut other = cage_dto("cage-2");
    other.assigned_monitor = "bo".to_string();
    service.add_new_cage(&users, &mut spm, owner, other, 10).unwrap();
    service.add_new_cage(&users, &mut spm, owner, cage_dto("cage-3"), 10).unwrap();
    let listed = service.fetch_all_users_cages(&spm, "ola").data;
    let ids: Vec<&str> = listed.iter().map(|c| c.cage_id.as_str()).collect();
    assert_eq!(ids, vec!["cage-1", "cage-3"]);
}
