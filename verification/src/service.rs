//! Rules of the archive's web service: which users may change records, how
//! each failure is answered, where the settings come from, and how a request
//! names a tag or a platform.
use vstd::prelude::*;
use crate::game::TagVec;
use crate::game::search::query::join;
use crate::text::{append_str, eq_lit, i64_decimal, int_decimal, parse_i64, parse_i64_spec, string_of, to_chars};

verus! {

/// A failed request, as the service answers it.
#[derive(Debug)]
pub enum AppError {
    InternalServerError,
    NotFound,
    AuthError(String),
    Forbidden,
    Unauthorized,
}

/// Status code of the answer to `e`.
pub open spec fn error_status(e: AppError) -> u16 {
    match e {
        AppError::InternalServerError => 500,
        AppError::NotFound => 404,
        AppError::AuthError(_) => 500,
        AppError::Forbidden => 403,
        AppError::Unauthorized => 401,
    }
}

/// Error message of the answer to `e`.
pub open spec fn error_message(e: AppError) -> Seq<char> {
    match e {
        AppError::InternalServerError => "An internal server error occured"@,
        AppError::NotFound => "Resource not found"@,
        AppError::AuthError(m) => "Auth error: "@ + m@,
        AppError::Forbidden => "Access denied"@,
        AppError::Unauthorized => "Unauthorized"@,
    }
}

impl AppError {
    /// The status code the failure is answered with.
    pub fn status(&self) -> (r: u16)
        ensures
            r == error_status(*self),
    {
        match self {
            AppError::InternalServerError => 500,
            AppError::NotFound => 404,
            AppError::AuthError(_) => 500,
            AppError::Forbidden => 403,
            AppError::Unauthorized => 401,
        }
    }

    /// The error message the failure is answered with.
    pub fn message(&self) -> (r: String)
        ensures
            r@ == error_message(*self),
    {
        match self {
            AppError::InternalServerError => "An internal server error occured".to_owned(),
            AppError::NotFound => "Resource not found".to_owned(),
            AppError::AuthError(m) => {
                let mut c = to_chars("Auth error: ");
                append_str(&mut c, m.as_str());
                string_of(&c)
            },
            AppError::Forbidden => "Access denied".to_owned(),
            AppError::Unauthorized => "Unauthorized".to_owned(),
        }
    }
}

/// A signed-in user.
#[derive(Clone, Debug)]
pub struct UserInfo {
    pub id: String,
    pub avatar_url: String,
    pub roles: TagVec,
    pub name: String,
}

/// Whether `roles` holds the administrator role.
pub open spec fn admin_role(roles: TagVec) -> bool {
    roles.0.deep_view().contains("Administrator"@)
}

impl UserInfo {
    /// The user an FPFSS profile describes, its numeric id written in decimal.
    pub fn from_fpfss_profile(id: i64, name: String, avatar_url: String, roles: Vec<String>) -> (r: UserInfo)
        ensures
            r.id@ == int_decimal(id as int),
            r.name == name,
            r.avatar_url == avatar_url,
            r.roles.0 == roles,
    {
        UserInfo { id: string_of(&i64_decimal(id)), avatar_url, roles: TagVec(roles), name }
    }

    /// Whether the user holds the administrator role.
    pub fn is_admin(&self) -> (r: bool)
        ensures
            r == admin_role(self.roles),
    {
        self.roles.contains(&"Administrator".to_owned())
    }
}

/// The decision on a request that changes records: it goes on for an
/// administrator, and anyone else is refused as forbidden.
pub fn admin_access(user: &UserInfo) -> (r: Result<(), AppError>)
    ensures
        r is Ok <==> admin_role(user.roles),
        r is Err ==> r->Err_0 == AppError::Forbidden,
{
    if user.is_admin() {
        Ok(())
    } else {
        Err(AppError::Forbidden)
    }
}

/// Whether the service can read profiles of `provider`: only FPFSS's.
pub fn check_provider(provider: &str) -> (r: Result<(), AppError>)
    ensures
        r is Ok <==> provider@ == "fpfss"@,
        r is Err ==> (r->Err_0 matches AppError::AuthError(m) && m@ == "Invalid auth provider in config"@),
{
    if eq_lit(&to_chars(provider), "fpfss") {
        Ok(())
    } else {
        Err(AppError::AuthError("Invalid auth provider in config".to_owned()))
    }
}

/// The scopes asked of `provider` when a user signs in.
pub fn oauth_scopes(provider: &str) -> (r: Vec<String>)
    ensures
        r.deep_view() == (if provider@ == "fpfss"@ {
            seq!["identity"@]
        } else {
            Seq::<Seq<char>>::empty()
        }),
{
    let mut r: Vec<String> = Vec::new();
    if eq_lit(&to_chars(provider), "fpfss") {
        r.push("identity".to_owned());
    }
    proof {
        if provider@ == "fpfss"@ {
            assert(r.deep_view() =~= seq!["identity"@]);
        } else {
            assert(r.deep_view() =~= Seq::<Seq<char>>::empty());
        }
    }
    r
}

/// The address a session is recorded with: the `X-Forwarded-For` header
/// where it is given, else the `X-Real-IP` header, else the peer's address.
pub fn client_ip(forwarded_for: Option<String>, real_ip: Option<String>, peer: String) -> (r: String)
    ensures
        r == match forwarded_for {
            Some(f) => f,
            None => match real_ip {
                Some(x) => x,
                None => peer,
            },
        },
{
    match forwarded_for {
        Some(f) => f,
        None => match real_ip {
            Some(x) => x,
            None => peer,
        },
    }
}

/// The cookie that hands a new session to the browser.
pub fn session_cookie(session_id: &str) -> (r: String)
    ensures
        r@ == "session_id="@ + session_id@ + "; HttpOnly; Path=/api; Secure; SameSite=Strict"@,
{
    let mut c = to_chars("session_id=");
    append_str(&mut c, session_id);
    append_str(&mut c, "; HttpOnly; Path=/api; Secure; SameSite=Strict");
    string_of(&c)
}

/// The statement that stores a signed-in user, and its parameters (id, name,
/// avatar, roles joined with `"; "`): an update of the stored row where the
/// user is already known, else an insert.
pub fn user_save_statement(user: &UserInfo, exists: bool) -> (r: (String, Vec<String>))
    ensures
        r.0@ == (if exists {
            "UPDATE users SET name = ?2, avatar_url = ?3, roles = ?4 WHERE id = ?1"@
        } else {
            "INSERT INTO users (id, name, avatar_url, roles) VALUES (?1, ?2, ?3, ?4)"@
        }),
        r.1.deep_view() == seq![user.id@, user.name@, user.avatar_url@, join(user.roles.0.deep_view(), "; "@)],
{
    let mut params: Vec<String> = Vec::new();
    params.push(user.id.clone());
    params.push(user.name.clone());
    params.push(user.avatar_url.clone());
    params.push(user.roles.to_text());
    assert(params.deep_view() =~= seq![user.id@, user.name@, user.avatar_url@, join(user.roles.0.deep_view(), "; "@)]);
    let sql = if exists {
        "UPDATE users SET name = ?2, avatar_url = ?3, roles = ?4 WHERE id = ?1".to_owned()
    } else {
        "INSERT INTO users (id, name, avatar_url, roles) VALUES (?1, ?2, ?3, ?4)".to_owned()
    };
    (sql, params)
}

/// How a request path names a tag or a platform.
#[derive(Debug)]
pub enum RecordKey {
    Id(i64),
    Name(String),
}

/// The record a path names: by id where the whole path reads as an `i64`,
/// else by name.
pub fn record_key(path: &str) -> (r: RecordKey)
    ensures
        match parse_i64_spec(path@) {
            Some(n) => r == RecordKey::Id(n),
            None => (r matches RecordKey::Name(s) && s@ == path@),
        },
{
    match parse_i64(&to_chars(path)) {
        Some(n) => RecordKey::Id(n),
        None => RecordKey::Name(path.to_owned()),
    }
}

/// The service's settings.
#[derive(Clone, Debug)]
pub struct Config {
    pub oauth_client_id: String,
    pub oauth_client_secret: String,
    pub oauth_auth_url: String,
    pub oauth_token_url: String,
    pub oauth_redirect_url: String,
    pub oauth_profile_url: String,
    pub oauth_provider: String,
    pub metadata_database: String,
    pub auth_database: String,
}

/// The service's environment variables, each where it is set.
#[derive(Clone, Debug)]
pub struct ConfigVars {
    pub oauth_client_id: Option<String>,
    pub oauth_client_secret: Option<String>,
    pub oauth_auth_url: Option<String>,
    pub oauth_token_url: Option<String>,
    pub oauth_redirect_url: Option<String>,
    pub oauth_profile_url: Option<String>,
    pub oauth_provider: Option<String>,
    pub metadata_database: Option<String>,
    pub auth_database: Option<String>,
}

/// A variable's value where it is set, else `d`.
pub open spec fn var_or(v: Option<String>, d: Seq<char>) -> Seq<char> {
    match v {
        Some(s) => s@,
        None => d,
    }
}

/// Whether `c` holds the settings `vars` give: each variable where it is
/// set, else empty, or the usual file name for the two databases.
pub open spec fn config_from_vars(c: Config, vars: ConfigVars) -> bool {
    &&& c.oauth_client_id@ == var_or(vars.oauth_client_id, Seq::empty())
    &&& c.oauth_client_secret@ == var_or(vars.oauth_client_secret, Seq::empty())
    &&& c.oauth_auth_url@ == var_or(vars.oauth_auth_url, Seq::empty())
    &&& c.oauth_token_url@ == var_or(vars.oauth_token_url, Seq::empty())
    &&& c.oauth_redirect_url@ == var_or(vars.oauth_redirect_url, Seq::empty())
    &&& c.oauth_profile_url@ == var_or(vars.oauth_profile_url, Seq::empty())
    &&& c.oauth_provider@ == var_or(vars.oauth_provider, Seq::empty())
    &&& c.metadata_database@ == var_or(vars.metadata_database, "flashpoint.sqlite"@)
    &&& c.auth_database@ == var_or(vars.auth_database, "auth.db"@)
}

fn var_or_exec(v: Option<String>, d: &str) -> (r: String)
    ensures
        r@ == var_or(v, d@),
{
    match v {
        Some(s) => s,
        None => d.to_owned(),
    }
}

impl Config {
    /// The settings the environment gives.
    pub fn from_env(vars: ConfigVars) -> (r: Config)
        ensures
            config_from_vars(r, vars),
    {
        let e = "";
        proof {
            reveal_strlit("");
            assert(e@ =~= Seq::<char>::empty());
        }
        Config {
            oauth_client_id: var_or_exec(vars.oauth_client_id, e),
            oauth_client_secret: var_or_exec(vars.oauth_client_secret, e),
            oauth_auth_url: var_or_exec(vars.oauth_auth_url, e),
            oauth_token_url: var_or_exec(vars.oauth_token_url, e),
            oauth_redirect_url: var_or_exec(vars.oauth_redirect_url, e),
            oauth_profile_url: var_or_exec(vars.oauth_profile_url, e),
            oauth_provider: var_or_exec(vars.oauth_provider, e),
            metadata_database: var_or_exec(vars.metadata_database, "flashpoint.sqlite"),
            auth_database: var_or_exec(vars.auth_database, "auth.db"),
        }
    }

    /// The settings read from the configuration file where it gave any,
    /// else those of the environment.
    pub fn from_env_or_file(from_file: Option<Config>, vars: ConfigVars) -> (r: Config)
        ensures
            match from_file {
                Some(c) => r == c,
                None => config_from_vars(r, vars),
            },
    {
        match from_file {
            Some(c) => c,
            None => Config::from_env(vars),
        }
    }
}

} // verus!
