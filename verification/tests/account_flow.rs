use account_linking::accounts::register_user;
use account_linking::accounts::user_login;
use account_linking::accounts::LoginUserModel;
use account_linking::accounts::RegisterUserModel;
use account_linking::errors::LinkError;
use account_linking::hashing::hash_password;
use account_linking::nonce::generate_random_string;
use account_linking::store::get_user_by_id;
use account_linking::store::Store;

#[test]
fn register_then_login_round_trip() {
    let mut store = Store::new();
    let id = register_user(
        &mut store,
        &RegisterUserModel {
            username: "alice".to_string(),
            password: "password".to_string(),
        },
    )
    .unwrap();
    assert_eq!(id.len(), 36);

    let logged_in = user_login(
        &store,
        &LoginUserModel {
            username: "alice".to_string(),
            password: "password".to_string(),
        },
    );
    assert_eq!(logged_in, Ok(id.clone()));

    let record = get_user_by_id(&store, &id).unwrap();
    let pairs = record.fields();
    assert!(pairs.iter().any(|p| p.0 == "id" && p.1 == id));
    assert!(pairs.iter().any(|p| p.0 == "username" && p.1 == "alice"));
}

#[test]
fn duplicate_username_is_refused() {
    let mut store = Store::new();
    let user = RegisterUserModel {
        username: "alice".to_string(),
        password: "first".to_string(),
    };
    register_user(&mut store, &user).unwrap();
    let again = register_user(
        &mut store,
        &RegisterUserModel {
            username: "alice".to_string(),
            password: "second".to_string(),
        },
    );
    assert_eq!(again, Err(LinkError::AlreadyExists));
}

#[test]
fn login_with_unknown_username_is_not_found() {
    let store = Store::new();
    let r = user_login(
        &store,
        &LoginUserModel {
            username: "nobody".to_string(),
            password: "pw".to_string(),
        },
    );
    assert_eq!(r, Err(LinkError::NotFound));
}

#[test]
fn login_with_wrong_password_is_rejected() {
    let mut store = Store::new();
    register_user(
        &mut store,
        &RegisterUserModel {
            username: "alice".to_string(),
            password: "right".to_string(),
        },
    )
    .unwrap();
    let r = user_login(
        &store,
        &LoginUserModel {
            username: "alice".to_string(),
            password: "wrong".to_string(),
        },
    );
    assert_eq!(r, Err(LinkError::IncorrectPassword));
}

#[test]
fn login_with_dangling_index_entry_reports_the_missing_hash() {
    let mut store = Store::new();
    store.set_username("alice".to_string(), "gone".to_string());
    let r = user_login(
        &store,
        &LoginUserModel {
            username: "alice".to_string(),
            password: "pw".to_string(),
        },
    );
    assert_eq!(
        r,
        Err(LinkError::FieldMissing("password_hash".to_string()))
    );
}

#[test]
fn password_hash_is_lowercase_hex_sha256() {
    // SHA-256 of "password", independently computed.
    assert_eq!(
        hash_password(&"password".to_string()),
        "5e884898da28047151d0e56f8dc6292773603d0d6aabbdd62a11ef721d1542d8"
    );
    // The empty input's well-known digest.
    assert_eq!(
        hash_password(&"".to_string()),
        "e3b0c44298fc1c149afbf4c8996fb92427ae41e4649b934ca495991b7852b855"
    );
}

#[test]
fn generated_nonces_have_the_asked_length_and_differ() {
    let a = generate_random_string(64);
    let b = generate_random_string(64);
    assert_eq!(a.len(), 64);
    assert_eq!(b.len(), 64);
    assert!(a.chars().all(|c| c.is_ascii_alphanumeric()));
    assert!(b.chars().all(|c| c.is_ascii_alphanumeric()));
    assert_ne!(a, b);
    assert_eq!(generate_random_string(0), "");
}
