use flashpoint_archive::game::search::InsertOrGet;
use flashpoint_archive::game::TagVec;
use flashpoint_archive::service::{
    admin_access, check_provider, client_ip, oauth_scopes, record_key, session_cookie,
    user_save_statement, AppError, Config, ConfigVars, RecordKey, UserInfo,
};

fn user(roles: &[&str]) -> UserInfo {
    UserInfo {
        id: "7".to_string(),
        avatar_url: "https://a/7.png".to_string(),
        roles: TagVec(roles.iter().map(|s| s.to_string()).collect()),
        name: "Ann".to_string(),
    }
}

fn no_vars() -> ConfigVars {
    ConfigVars {
        oauth_client_id: None,
        oauth_client_secret: None,
        oauth_auth_url: None,
        oauth_token_url: None,
        oauth_redirect_url: None,
        oauth_profile_url: None,
        oauth_provider: None,
        metadata_database: None,
        auth_database: None,
    }
}

#[test]
fn error_answers() {
    assert_eq!(AppError::InternalServerError.status(), 500);
    assert_eq!(AppError::InternalServerError.message(), "An internal server error occured");
    assert_eq!(AppError::NotFound.status(), 404);
    assert_eq!(AppError::NotFound.message(), "Resource not found");
    let e = AppError::AuthError("bad token".to_string());
    assert_eq!(e.status(), 500);
    assert_eq!(e.message(), "Auth error: bad token");
    assert_eq!(AppError::Forbidden.status(), 403);
    assert_eq!(AppError::Forbidden.message(), "Access denied");
    assert_eq!(AppError::Unauthorized.status(), 401);
    assert_eq!(AppError::Unauthorized.message(), "Unauthorized");
}

#[test]
fn administrators_pass_others_are_forbidden() {
    let admin = user(&["Trial Curator", "Administrator"]);
    assert!(admin.is_admin());
    assert!(admin_access(&admin).is_ok());
    let curator = user(&["Trial Curator"]);
    assert!(!curator.is_admin());
    assert!(matches!(admin_access(&curator), Err(AppError::Forbidden)));
    let nobody = user(&[]);
    assert!(matches!(admin_access(&nobody), Err(AppError::Forbidden)));
    // the role name is compared exactly
    let lower = user(&["administrator"]);
    assert!(!lower.is_admin());
}

#[test]
fn profile_becomes_user() {
    let u = UserInfo::from_fpfss_profile(
        -42,
        "Bob".to_string(),
        "https://a/b.png".to_string(),
        vec!["Administrator".to_string()],
    );
    assert_eq!(u.id, "-42");
    assert_eq!(u.name, "Bob");
    assert_eq!(u.avatar_url, "https://a/b.png");
    assert_eq!(u.roles.0, vec!["Administrator".to_string()]);
    assert!(u.is_admin());
    let v = UserInfo::from_fpfss_profile(1234567, "C".to_string(), String::new(), vec![]);
    assert_eq!(v.id, "1234567");
}

#[test]
fn only_fpfss_profiles_are_read() {
    assert!(check_provider("fpfss").is_ok());
    match check_provider("github") {
        Err(AppError::AuthError(m)) => assert_eq!(m, "Invalid auth provider in config"),
        other => panic!("unexpected {:?}", other),
    }
    assert!(check_provider("").is_err());
    assert!(check_provider("FPFSS").is_err());
    assert_eq!(oauth_scopes("fpfss"), vec!["identity".to_string()]);
    assert!(oauth_scopes("github").is_empty());
}

#[test]
fn client_address_preference() {
    let peer = "10.0.0.1".to_string();
    assert_eq!(
        client_ip(Some("1.1.1.1".to_string()), Some("2.2.2.2".to_string()), peer.clone()),
        "1.1.1.1"
    );
    assert_eq!(client_ip(None, Some("2.2.2.2".to_string()), peer.clone()), "2.2.2.2");
    assert_eq!(client_ip(None, None, peer.clone()), "10.0.0.1");
}

#[test]
fn session_cookie_text() {
    assert_eq!(
        session_cookie("abc-123"),
        "session_id=abc-123; HttpOnly; Path=/api; Secure; SameSite=Strict"
    );
}

#[test]
fn user_rows_are_updated_or_inserted() {
    let u = user(&["A", "B"]);
    let (sql, params) = user_save_statement(&u, true);
    assert_eq!(sql, "UPDATE users SET name = ?2, avatar_url = ?3, roles = ?4 WHERE id = ?1");
    assert_eq!(params, vec!["7", "Ann", "https://a/7.png", "A; B"]);
    let (sql, params) = user_save_statement(&u, false);
    assert_eq!(sql, "INSERT INTO users (id, name, avatar_url, roles) VALUES (?1, ?2, ?3, ?4)");
    assert_eq!(params[3], "A; B");
    // the stored roles read back as the same list
    assert_eq!(TagVec::from_delimited_string(&params[3]).0, u.roles.0);
}

#[test]
fn path_names_record_by_id_or_name() {
    assert!(matches!(record_key("42"), RecordKey::Id(42)));
    assert!(matches!(record_key("-7"), RecordKey::Id(-7)));
    assert!(matches!(record_key("+7"), RecordKey::Id(7)));
    match record_key("Action") {
        RecordKey::Name(n) => assert_eq!(n, "Action"),
        other => panic!("unexpected {:?}", other),
    }
    // a number too large for an i64, and a padded one, are names
    assert!(matches!(record_key("9223372036854775808"), RecordKey::Name(_)));
    assert!(matches!(record_key("9223372036854775807"), RecordKey::Id(i64::MAX)));
    assert!(matches!(record_key(" 42"), RecordKey::Name(_)));
    assert!(matches!(record_key(""), RecordKey::Name(_)));
    // the same decision as `str::parse`
    for s in ["0", "-0", "12a", "-", "+", "007", "-9223372036854775808"] {
        match (record_key(s), s.parse::<i64>()) {
            (RecordKey::Id(n), Ok(m)) => assert_eq!(n, m),
            (RecordKey::Name(n), Err(_)) => assert_eq!(n, s),
            (k, p) => panic!("{:?} vs {:?}", k, p),
        }
    }
}

#[test]
fn settings_from_file_or_environment() {
    let env = Config::from_env(no_vars());
    assert_eq!(env.oauth_client_id, "");
    assert_eq!(env.oauth_provider, "");
    assert_eq!(env.metadata_database, "flashpoint.sqlite");
    assert_eq!(env.auth_database, "auth.db");
    let mut vars = no_vars();
    vars.oauth_provider = Some("fpfss".to_string());
    vars.auth_database = Some("users.db".to_string());
    let c = Config::from_env_or_file(None, vars.clone());
    assert_eq!(c.oauth_provider, "fpfss");
    assert_eq!(c.auth_database, "users.db");
    assert_eq!(c.metadata_database, "flashpoint.sqlite");
    let mut file = env.clone();
    file.metadata_database = "other.sqlite".to_string();
    let f = Config::from_env_or_file(Some(file), vars);
    // the file wins as a whole: the environment's provider is not used
    assert_eq!(f.metadata_database, "other.sqlite");
    assert_eq!(f.oauth_provider, "");
    assert_eq!(f.auth_database, "auth.db");
}

#[test]
fn insert_or_get_adds_once_and_keeps_order() {
    let mut m: Vec<(String, Vec<String>)> = Vec::new();
    m.insert_or_get("b".to_string()).push("1".to_string());
    m.insert_or_get("a".to_string()).push("2".to_string());
    m.insert_or_get("b".to_string()).push("3".to_string());
    assert_eq!(m.len(), 2);
    assert_eq!(m[0].0, "b");
    assert_eq!(m[0].1, vec!["1".to_string(), "3".to_string()]);
    assert_eq!(m[1].0, "a");
    assert_eq!(m[1].1, vec!["2".to_string()]);
    // a fresh key gets an empty list
    assert!(m.insert_or_get("c".to_string()).is_empty());
    assert_eq!(m.len(), 3);
}
