use gdsyncer::color::Color;
use gdsyncer::token::TokenClaims;

#[test]
fn claims_expire_two_hours_after_issuance() {
    let claims = TokenClaims::new(7, 1000);
    assert_eq!(claims.user_id, 7);
    assert_eq!(claims.issued_at, 1000);
    assert_eq!(claims.expires_at, 8200);
}

#[test]
fn token_valid_just_before_and_expired_just_after_the_boundary() {
    let claims = TokenClaims::new(7, 1000);
    assert!(!claims.is_expired(8199));
    assert!(!claims.is_expired(8200));
    assert!(claims.is_expired(8201));
    assert!(!claims.is_expired(1000));
}

#[test]
fn default_user_color_is_mid_gray() {
    let c = Color::default_user_color();
    assert_eq!(c, Color { r: 128, g: 128, b: 128, a: 255 });
    assert_eq!(c.canonical_text(), "rgba(128, 128, 128, 255)");
}

#[test]
fn color_text_covers_all_digit_widths() {
    let c = Color { r: 0, g: 7, b: 45, a: 255 };
    assert_eq!(c.canonical_text(), "rgba(0, 7, 45, 255)");
    let d = Color { r: 10, g: 99, b: 100, a: 201 };
    assert_eq!(d.canonical_text(), "rgba(10, 99, 100, 201)");
}

#[test]
fn two_users_get_distinct_ids_and_secrets() {
    let a = gdsyncer::user::User::new("Ada".to_string());
    let b = gdsyncer::user::User::new("Bob".to_string());
    assert_ne!(a.uuid, b.uuid);
    assert_ne!(a.key, b.key);
    assert_eq!(a.name, "Ada");
    assert_eq!(a.color, b.color);
}
