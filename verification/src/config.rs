use vstd::prelude::*;

verus! {

/// The four configuration values the database gateway needs, in the order
/// they are read: principal, secret, host, and target database name.
#[derive(Debug)]
pub struct DbConfig {
    pub user: String,
    pub password: String,
    pub host: String,
    pub db_name: String,
}

/// Assembles the configuration from the optional environment values.
/// Succeeds exactly when all four are present; otherwise the first missing
/// value, in reading order, decides the error message.
pub fn build_config(
    user: Option<String>,
    password: Option<String>,
    host: Option<String>,
    db_name: Option<String>,
) -> (r: Result<DbConfig, String>)
    ensures
        r is Ok <==> user is Some && password is Some && host is Some && db_name is Some,
        r matches Ok(c) ==> c.user@ == user->0@ && c.password@ == password->0@ && c.host@
            == host->0@ && c.db_name@ == db_name->0@,
        user is None ==> (r matches Err(m) && m@ == "MONGO_USER not set in .env"@),
        user is Some && password is None ==> (r matches Err(m) && m@
            == "MONGO_PASSWORD not set in .env"@),
        user is Some && password is Some && host is None ==> (r matches Err(m) && m@
            == "MONGO_HOST not set in .env"@),
        user is Some && password is Some && host is Some && db_name is None ==> (r matches Err(m)
            && m@ == "MONGO_DB not set in .env"@),
{
    let user = match user {
        None => {
            return Err(String::from_str("MONGO_USER not set in .env"));
        },
        Some(v) => v,
    };
    let password = match password {
        None => {
            return Err(String::from_str("MONGO_PASSWORD not set in .env"));
        },
        Some(v) => v,
    };
    let host = match host {
        None => {
            return Err(String::from_str("MONGO_HOST not set in .env"));
        },
        Some(v) => v,
    };
    let db_name = match db_name {
        None => {
            return Err(String::from_str("MONGO_DB not set in .env"));
        },
        Some(v) => v,
    };
    Ok(DbConfig { user, password, host, db_name })
}

/// The connection string for the given configuration: the fixed scheme and
/// options around the principal, secret and host.
pub fn connection_uri(cfg: &DbConfig) -> (r: String)
    ensures
        r@ == "mongodb+srv://"@ + cfg.user@ + ":"@ + cfg.password@ + "@"@ + cfg.host@
            + "/?retryWrites=true&w=majority&appName=test"@,
{
    let mut uri = String::from_str("mongodb+srv://");
    uri.append(cfg.user.as_str());
    uri.append(":");
    uri.append(cfg.password.as_str());
    uri.append("@");
    uri.append(cfg.host.as_str());
    uri.append("/?retryWrites=true&w=majority&appName=test");
    proof {
        assert(uri@ =~= "mongodb+srv://"@ + cfg.user@ + ":"@ + cfg.password@ + "@"@ + cfg.host@
            + "/?retryWrites=true&w=majority&appName=test"@);
    }
    uri
}

} // verus!
