use pastecore::model::CreatePasteRequest;

fn base_request() -> CreatePasteRequest {
    CreatePasteRequest {
        iv: "iv".to_string(),
        data: "data".to_string(),
        created_at: 0,
        expires_at: None,
        burn_after_read: false,
        views: 0,
        has_password: false,
        salt: None,
        encrypted_key: None,
        key_iv: None,
        burn_token_hash: None,
    }
}

#[test]
fn test_validate_empty_data() {
    let req = CreatePasteRequest {
        iv: "iv".to_string(),
        data: "".to_string(),
        created_at: 0,
        expires_at: None,
        burn_after_read: false,
        views: 0,
        has_password: false,
        salt: None,
        encrypted_key: None,
        key_iv: None,
        burn_token_hash: None,
    };
    assert!(req.validate().is_err());
}

#[test]
fn test_validate_long_fields() {
    let long_string = "a".repeat(513);
    let req = CreatePasteRequest {
        iv: long_string.clone(),
        data: "data".to_string(),
        created_at: 0,
        expires_at: None,
        burn_after_read: false,
        views: 0,
        has_password: false,
        salt: None,
        encrypted_key: None,
        key_iv: None,
        burn_token_hash: None,
    };
    assert!(req.validate().is_err());

    let req = CreatePasteRequest {
        iv: "iv".to_string(),
        data: "data".to_string(),
        created_at: 0,
        expires_at: None,
        burn_after_read: false,
        views: 0,
        has_password: false,
        salt: Some(long_string.clone()),
        encrypted_key: None,
        key_iv: None,
        burn_token_hash: None,
    };
    assert!(req.validate().is_err());
}

#[test]
fn test_validate_valid_payload() {
    let req = CreatePasteRequest {
        iv: "iv".to_string(),
        data: "data".to_string(),
        created_at: 0,
        expires_at: None,
        burn_after_read: false,
        views: 0,
        has_password: false,
        salt: None,
        encrypted_key: None,
        key_iv: None,
        burn_token_hash: None,
    };
    assert!(req.validate().is_ok());
}

#[test]
fn test_validate_messages_in_order() {
    let long_string = "b".repeat(513);

    let mut req = base_request();
    req.data = "".to_string();
    assert_eq!(req.validate().unwrap_err(), "Data cannot be empty");

    let mut req = base_request();
    req.iv = long_string.clone();
    assert_eq!(req.validate().unwrap_err(), "IV too long");

    let mut req = base_request();
    req.salt = Some(long_string.clone());
    assert_eq!(req.validate().unwrap_err(), "Salt too long");

    let mut req = base_request();
    req.encrypted_key = Some(long_string.clone());
    assert_eq!(req.validate().unwrap_err(), "Encrypted key too long");

    let mut req = base_request();
    req.key_iv = Some(long_string.clone());
    assert_eq!(req.validate().unwrap_err(), "Key IV too long");
}

#[test]
fn test_validate_boundary_is_inclusive() {
    let at_bound = "c".repeat(512);
    let mut req = base_request();
    req.iv = at_bound.clone();
    req.salt = Some(at_bound.clone());
    req.encrypted_key = Some(at_bound.clone());
    req.key_iv = Some(at_bound);
    assert!(req.validate().is_ok());
}
