use gdsyncer::auth::{JoinError, JoinRequest, ServerBasic, ViolationField};
use jwt_simple::prelude::{HS256Key, MACLike, NoCustomClaims};
use uuid::Uuid;

fn request(name: &str, password: &str, version: &str) -> JoinRequest {
    JoinRequest {
        name: name.to_string(),
        password: password.to_string(),
        version: version.to_string(),
    }
}

#[test]
fn valid_join_issues_token_and_color() {
    let mut sb = ServerBasic::new("secret".to_string(), "1.0".to_string());
    let reply = sb.join(request("Ada", "secret", "1.0")).unwrap();
    assert!(!reply.token.is_empty());
    assert_eq!(reply.token.split('.').count(), 3);
    assert_eq!(reply.color, "rgba(128, 128, 128, 255)");
    assert_eq!(sb.users.len(), 1);
}

#[test]
fn wrong_password_names_password_only() {
    let mut sb = ServerBasic::new("secret".to_string(), "1.0".to_string());
    let err = sb.join(request("Bob", "wrong", "1.0")).unwrap_err();
    match err {
        JoinError::InvalidArguments { violations } => {
            assert_eq!(violations.len(), 1);
            assert_eq!(violations[0].field, ViolationField::Password);
            assert_eq!(violations[0].message, "The password you entered is invalid.");
        }
        JoinError::Internal { .. } => panic!("expected a validation failure"),
    }
    assert_eq!(sb.users.len(), 0);
}

#[test]
fn wrong_version_names_version_only() {
    let mut sb = ServerBasic::new("secret".to_string(), "1.0".to_string());
    let err = sb.join(request("Bea", "secret", "0.9")).unwrap_err();
    match err {
        JoinError::InvalidArguments { violations } => {
            assert_eq!(violations.len(), 1);
            assert_eq!(violations[0].field, ViolationField::Version);
            assert_eq!(
                violations[0].message,
                "Your version does not match the server ones."
            );
        }
        JoinError::Internal { .. } => panic!("expected a validation failure"),
    }
    assert_eq!(sb.users.len(), 0);
}

#[test]
fn wrong_password_and_version_name_both_fields() {
    let mut sb = ServerBasic::new("secret".to_string(), "1.0".to_string());
    let err = sb.join(request("Cy", "wrong", "0.9")).unwrap_err();
    match err {
        JoinError::InvalidArguments { violations } => {
            assert_eq!(violations.len(), 2);
            assert_eq!(violations[0].field, ViolationField::Version);
            assert_eq!(violations[1].field, ViolationField::Password);
        }
        JoinError::Internal { .. } => panic!("expected a validation failure"),
    }
}

#[test]
fn each_valid_join_adds_one_user() {
    let mut sb = ServerBasic::new("pw".to_string(), "2".to_string());
    assert_eq!(sb.users.len(), 0);
    sb.join(request("Ada", "pw", "2")).unwrap();
    assert_eq!(sb.users.len(), 1);
    sb.join(request("Bob", "pw", "2")).unwrap();
    assert_eq!(sb.users.len(), 2);
}

#[test]
fn empty_password_and_version_accepted_when_configured_so() {
    let mut sb = ServerBasic::new(String::new(), String::new());
    let reply = sb.join(request("", "", "")).unwrap();
    assert!(!reply.token.is_empty());
    assert_eq!(sb.users.len(), 1);
}

#[test]
fn issued_token_verifies_with_the_users_own_secret() {
    let user = gdsyncer::user::User::new("Ada".to_string());
    assert_eq!(user.key.len(), 32);
    let token = user.generate_token().unwrap();
    let key = HS256Key::from_bytes(&user.key);
    let claims = key.verify_token::<NoCustomClaims>(&token, None).unwrap();
    let expected_subject = Uuid::from_u128(user.uuid).hyphenated().to_string();
    assert_eq!(claims.subject.as_deref(), Some(expected_subject.as_str()));
    let issued = claims.issued_at.unwrap().as_secs();
    let expires = claims.expires_at.unwrap().as_secs();
    assert_eq!(expires, issued + 7200);
}
