//! Where the login credentials live: `~/.config/whisphub/auth.json` (or the
//! roaming application-data directory on Windows).

use vstd::prelude::*;
use crate::paths::{join_path, joined, joined_in, windows_joined, PathStyle};

verus! {

/// The stored credentials of the logged-in user.
#[derive(Debug)]
pub struct AuthConfig {
    pub token: String,
    pub username: String,
}

/// Errors of this module.
#[derive(Debug, PartialEq, Eq, Structural)]
pub enum ConfigError {
    /// The user's home directory could not be determined.
    NoHomeDirectory,
    /// The user's configuration directory could not be determined.
    NoConfigDirectory,
    /// The directory is not valid Unicode, so it cannot be held as text.
    NonUnicodeDirectory,
}

/// What looking up a directory of the user found.
#[derive(Debug)]
pub enum DirLookup {
    /// The directory, as text.
    Found(String),
    /// A directory that is not valid Unicode.
    NotUnicode,
    /// No directory.
    Missing,
}

/// The directory under the home directory that holds user configuration.
pub const DOT_CONFIG: &'static str = ".config";

/// The directory of this application inside the configuration directory.
pub const APP_DIR: &'static str = "whisphub";

/// The credentials file inside the application directory.
pub const AUTH_FILENAME: &'static str = "auth.json";

/// `<home>/.config/whisphub`.
pub open spec fn home_config_dir_of(home: Seq<char>) -> Seq<char> {
    joined(joined(home, DOT_CONFIG@), APP_DIR@)
}

/// Calls `dirs::home_dir` and converts the path to text with
/// `OsString::into_string`. The answer depends on the environment (`$HOME`,
/// the password database, the Windows profile folder), so nothing is stated of
/// it.
#[verifier::external_body]
fn home_dir() -> (r: DirLookup) {
    match dirs::home_dir() {
        Some(p) => match p.into_os_string().into_string() {
            Ok(s) => DirLookup::Found(s),
            Err(_) => DirLookup::NotUnicode,
        },
        None => DirLookup::Missing,
    }
}

/// Calls `dirs::config_dir` and converts the path to text with
/// `OsString::into_string`. The answer depends on the environment, so nothing
/// is stated of it.
#[verifier::external_body]
fn user_config_dir() -> (r: DirLookup) {
    match dirs::config_dir() {
        Some(p) => match p.into_os_string().into_string() {
            Ok(s) => DirLookup::Found(s),
            Err(_) => DirLookup::NotUnicode,
        },
        None => DirLookup::Missing,
    }
}

/// The application directory for a given home directory, as used outside
/// Windows: `<home>/.config/whisphub`, or an error when there is no home.
pub fn config_dir_in_home(home: DirLookup) -> (r: Result<String, ConfigError>)
    ensures
        match home {
            DirLookup::Found(h) => r matches Ok(d) && d@ == home_config_dir_of(h@),
            DirLookup::NotUnicode => r == Err::<String, ConfigError>(ConfigError::NonUnicodeDirectory),
            DirLookup::Missing => r == Err::<String, ConfigError>(ConfigError::NoHomeDirectory),
        },
{
    proof {
        reveal_strlit(".config");
        reveal_strlit("whisphub");
    }
    match home {
        DirLookup::Found(h) => {
            let dot = join_path(PathStyle::Unix, h.as_str(), DOT_CONFIG);
            Ok(join_path(PathStyle::Unix, dot.as_str(), APP_DIR))
        },
        DirLookup::NotUnicode => Err(ConfigError::NonUnicodeDirectory),
        DirLookup::Missing => Err(ConfigError::NoHomeDirectory),
    }
}

/// The application directory for a given configuration directory, as used on
/// Windows: `<config>\\whisphub`, or an error when there is none.
pub fn config_dir_in_app_data(base: DirLookup) -> (r: Result<String, ConfigError>)
    ensures
        match base {
            DirLookup::Found(b) => r matches Ok(d) && d@ == windows_joined(b@, APP_DIR@),
            DirLookup::NotUnicode => r == Err::<String, ConfigError>(ConfigError::NonUnicodeDirectory),
            DirLookup::Missing => r == Err::<String, ConfigError>(ConfigError::NoConfigDirectory),
        },
{
    proof {
        reveal_strlit("whisphub");
    }
    match base {
        DirLookup::Found(b) => Ok(join_path(PathStyle::Windows, b.as_str(), APP_DIR)),
        DirLookup::NotUnicode => Err(ConfigError::NonUnicodeDirectory),
        DirLookup::Missing => Err(ConfigError::NoConfigDirectory),
    }
}

/// The application directory under the current user's home directory. The home
/// directory comes from the environment; whatever it is, the result is that
/// home's `.config/whisphub`, and the only errors are a missing home and one
/// that is not valid Unicode.
pub fn home_config_dir() -> (r: Result<String, ConfigError>)
    ensures
        r matches Ok(d) ==> exists|h: Seq<char>| d@ == #[trigger] home_config_dir_of(h),
        r matches Err(e) ==> e == ConfigError::NoHomeDirectory || e == ConfigError::NonUnicodeDirectory,
{
    let home = home_dir();
    let ghost found = home;
    let r = config_dir_in_home(home);
    proof {
        if let DirLookup::Found(h) = found {
            assert(home_config_dir_of(h@) == r->Ok_0@);
        }
    }
    r
}

/// The application directory under the current user's configuration directory
/// (the Windows layout). The configuration directory comes from the
/// environment; the only errors are a missing one and one that is not valid
/// Unicode.
pub fn app_data_config_dir() -> (r: Result<String, ConfigError>)
    ensures
        r matches Ok(d) ==> exists|b: Seq<char>| d@ == #[trigger] windows_joined(b, APP_DIR@),
        r matches Err(e) ==> e == ConfigError::NoConfigDirectory || e == ConfigError::NonUnicodeDirectory,
{
    let base = user_config_dir();
    let ghost found = base;
    let r = config_dir_in_app_data(base);
    proof {
        if let DirLookup::Found(b) = found {
            assert(windows_joined(b@, APP_DIR@) == r->Ok_0@);
        }
    }
    r
}

/// The credentials file inside the application directory `dir`, joined in
/// the platform's path style.
pub fn auth_path(style: PathStyle, dir: &str) -> (r: String)
    ensures
        r@ == joined_in(style, dir@, AUTH_FILENAME@),
{
    proof {
        reveal_strlit("auth.json");
    }
    join_path(style, dir, AUTH_FILENAME)
}

} // verus!

verus! {

/// Why a command that needs a logged-in user cannot go on.
#[derive(Debug, PartialEq, Eq, Structural)]
pub enum SessionError {
    /// No credentials are stored.
    NotLoggedIn,
    /// The stored token is no longer accepted.
    Expired,
}

/// The stored credentials, which a command needs to go on.
pub fn require_session(stored: Option<AuthConfig>) -> (r: Result<AuthConfig, SessionError>)
    ensures
        match stored {
            Some(a) => r matches Ok(b) && b == a,
            None => r matches Err(e) && e == SessionError::NotLoggedIn,
        },
{
    match stored {
        Some(a) => Ok(a),
        None => Err(SessionError::NotLoggedIn),
    }
}

/// Whether the stored token still works, judged by whether the server
/// accepted it.
pub fn check_token_accepted(accepted: bool) -> (r: Result<(), SessionError>)
    ensures
        r is Ok <==> accepted,
        r matches Err(e) ==> e == SessionError::Expired,
{
    if accepted {
        Ok(())
    } else {
        Err(SessionError::Expired)
    }
}

} // verus!

verus! {

/// The credentials of a user whose home directory is `home` (given without a
/// trailing `/`) are kept in `<home>/.config/whisphub/auth.json`.
pub proof fn lemma_credentials_location(home: Seq<char>)
    requires
        home.len() > 0,
        home.last() != '/',
    ensures
        joined(home_config_dir_of(home), AUTH_FILENAME@) == home + "/.config/whisphub/auth.json"@,
{
    reveal_strlit(".config");
    reveal_strlit("whisphub");
    reveal_strlit("auth.json");
    reveal_strlit("/.config/whisphub/auth.json");
    let a = joined(home, DOT_CONFIG@);
    assert(a == home + seq!['/'] + DOT_CONFIG@);
    assert(a.last() == 'g');
    let b = joined(a, APP_DIR@);
    assert(b == a + seq!['/'] + APP_DIR@);
    assert(b.last() == 'b');
    assert(joined(b, AUTH_FILENAME@) =~= home + "/.config/whisphub/auth.json"@);
}

} // verus!
