//! What the command-line tool settles before its first lookup: the token
//! address from the command line, the API key and the cache's URL from the
//! environment.

use vstd::prelude::*;

verus! {

/// The line printed where the command line does not hold exactly one
/// address.
pub const USAGE: &'static str = "Usage: token_metadata <erc20_address>";

/// The environment variable that holds the API key.
pub const API_KEY_VARIABLE: &'static str = "MORALIS_API_KEY";

/// The environment variable that holds the cache's URL.
pub const CACHE_URL_VARIABLE: &'static str = "REDIS_URL";

/// The complaint about a missing API key.
pub const MISSING_API_KEY: &'static str = "MORALIS_API_KEY must be set";

/// Why the tool cannot start.
#[derive(Debug, Clone, Copy, PartialEq, Eq, Structural)]
pub enum StartupError {
    /// The command line holds anything but the program's name and one
    /// address.
    Usage,
    /// The environment holds no API key.
    MissingApiKey,
}

/// What one run of the tool works with.
#[derive(Debug, Clone, PartialEq, Eq)]
pub struct Settings {
    /// The address of the token to look up.
    pub token_address: String,
    pub api_key: String,
    /// Where the cache is, if lookups are to go through one.
    pub cache_url: Option<String>,
}

/// The mathematical value of a [`Settings`].
pub struct SettingsView {
    pub token_address: Seq<char>,
    pub api_key: Seq<char>,
    pub cache_url: Option<Seq<char>>,
}

impl View for Settings {
    type V = SettingsView;

    open spec fn view(&self) -> SettingsView {
        SettingsView {
            token_address: self.token_address@,
            api_key: self.api_key@,
            cache_url: self.cache_url.deep_view(),
        }
    }
}

/// The settings of a run with the command line `args`, the program's name
/// first, and with the two environment variables as given.
///
/// The command line is looked at first: unless it holds exactly the
/// program's name and one argument, the run ends with the usage line,
/// whatever the environment holds. Then the API key must be there. The
/// address is the last argument.
pub open spec fn settings_of(
    args: Seq<Seq<char>>,
    api_key: Option<Seq<char>>,
    cache_url: Option<Seq<char>>,
) -> Result<SettingsView, StartupError> {
    if args.len() != 2 {
        Err(StartupError::Usage)
    } else {
        match api_key {
            None => Err(StartupError::MissingApiKey),
            Some(key) => Ok(SettingsView { token_address: args.last(), api_key: key, cache_url }),
        }
    }
}

impl Settings {
    /// Settles a run from the command line `args`, the program's name
    /// first, and from the values of [`API_KEY_VARIABLE`] and
    /// [`CACHE_URL_VARIABLE`].
    pub fn from_process(args: &Vec<String>, api_key: Option<String>, cache_url: Option<String>) -> (r:
        Result<Settings, StartupError>)
        ensures
            match r {
                Ok(settings) => settings_of(args.deep_view(), api_key.deep_view(), cache_url.deep_view())
                    == Ok::<SettingsView, StartupError>(settings@),
                Err(e) => settings_of(args.deep_view(), api_key.deep_view(), cache_url.deep_view())
                    == Err::<SettingsView, StartupError>(e),
            },
    {
        if args.len() != 2 {
            return Err(StartupError::Usage);
        }
        match api_key {
            None => Err(StartupError::MissingApiKey),
            Some(key) => Ok(
                Settings { token_address: args[args.len() - 1].clone(), api_key: key, cache_url },
            ),
        }
    }
}

impl StartupError {
    /// The text of the complaint.
    pub open spec fn text(self) -> Seq<char> {
        match self {
            StartupError::Usage => USAGE@,
            StartupError::MissingApiKey => MISSING_API_KEY@,
        }
    }

    /// The complaint to print.
    pub fn message(self) -> (r: &'static str)
        ensures
            r@ == self.text(),
    {
        match self {
            StartupError::Usage => USAGE,
            StartupError::MissingApiKey => MISSING_API_KEY,
        }
    }
}

} // verus!
