//! The mode of a scan and the settings that it needs.
//!
//! A scan covers either the repositories of one user or those of one team
//! of an organization. Which values the settings must hold depends on that
//! choice, and a [`Settings`] value exists only where all of them are there.

use vstd::prelude::*;
use vstd::string::*;

verus! {

/// Whose repositories a scan covers.
#[derive(Clone, Copy, Debug, PartialEq, Eq, Structural)]
pub enum Mode {
    /// The repositories of one user account.
    User,
    /// The repositories of one team of an organization.
    Org,
}

/// Why a scan cannot start.
#[derive(Clone, Copy, Debug, PartialEq, Eq, Structural)]
pub enum ConfigError {
    /// The mode is neither `user` nor `org`.
    UnsupportedMode,
    /// The configuration has no `Github` section.
    MissingSection,
    /// `token` is missing or empty.
    MissingToken,
    /// `organization_name` is missing or empty, in mode `org`.
    MissingOrganizationName,
    /// `team_name` is missing or empty, in mode `org`.
    MissingTeamName,
    /// `user_name` is missing or empty, in mode `user`.
    MissingUserName,
}

/// Whether a command-line argument is the flag that announces the mode.
pub open spec fn is_mode_flag(argument: Seq<char>) -> bool {
    argument == "--mode"@ || argument == "-mode"@
}

/// The mode as the command line gives it: the argument that follows the
/// first mode flag. There is none where no argument is a mode flag, and
/// none where the first mode flag is the last argument.
pub open spec fn mode_argument_text(arguments: Seq<Seq<char>>) -> Option<Seq<char>>
    decreases arguments.len(),
{
    if arguments.len() == 0 {
        None
    } else if is_mode_flag(arguments[0]) {
        if arguments.len() > 1 {
            Some(arguments[1])
        } else {
            None
        }
    } else {
        mode_argument_text(arguments.drop_first())
    }
}

/// Arguments that are no mode flags, in front of the others, do not change
/// which mode the command line gives.
pub proof fn lemma_mode_argument_skips(arguments: Seq<Seq<char>>, n: int)
    requires
        0 <= n <= arguments.len(),
        forall|i: int| 0 <= i < n ==> !is_mode_flag(#[trigger] arguments[i]),
    ensures
        mode_argument_text(arguments) == mode_argument_text(arguments.skip(n)),
    decreases n,
{
    if n == 0 {
        assert(arguments.skip(0) =~= arguments);
    } else {
        let rest = arguments.drop_first();
        lemma_mode_argument_skips(rest, n - 1);
        assert(rest.skip(n - 1) =~= arguments.skip(n));
    }
}

/// Picks the mode out of the command line's arguments.
pub fn mode_argument(arguments: &Vec<String>) -> (mode: Option<String>)
    ensures
        match mode {
            Some(text) => mode_argument_text(arguments.deep_view()) == Some(text@),
            None => mode_argument_text(arguments.deep_view()) is None,
        },
{
    let long = String::from_str("--mode");
    let short = String::from_str("-mode");
    let mut i: usize = 0;
    while i < arguments.len()
        invariant
            i <= arguments@.len(),
            long@ == "--mode"@,
            short@ == "-mode"@,
            forall|k: int| 0 <= k < i ==> !is_mode_flag(#[trigger] arguments.deep_view()[k]),
        decreases arguments@.len() - i,
    {
        if arguments[i] == long || arguments[i] == short {
            proof {
                lemma_mode_argument_skips(arguments.deep_view(), i as int);
            }
            if i + 1 < arguments.len() {
                return Some(arguments[i + 1].clone());
            } else {
                return None;
            }
        }
        i = i + 1;
    }
    proof {
        lemma_mode_argument_skips(arguments.deep_view(), i as int);
    }
    None
}

/// What `str::to_lowercase` returns for a text.
pub uninterp spec fn lowercase(text: Seq<char>) -> Seq<char>;

/// Calls `str::to_lowercase`. Nothing is proved of it: its result is only
/// given the name `lowercase`.
#[verifier::external_body]
fn to_lowercase(text: &str) -> (lowered: String)
    ensures
        lowered@ == lowercase(text@),
{
    text.to_lowercase()
}

/// The mode that a keyword stands for: `user` or `org`, written exactly so.
pub open spec fn keyword_mode(keyword: Seq<char>) -> Result<Mode, ConfigError> {
    if keyword == "user"@ {
        Ok(Mode::User)
    } else if keyword == "org"@ {
        Ok(Mode::Org)
    } else {
        Err(ConfigError::UnsupportedMode)
    }
}

/// Reads a mode from its keyword in lower case.
pub fn mode_from_keyword(keyword: &str) -> (mode: Result<Mode, ConfigError>)
    ensures
        mode == keyword_mode(keyword@),
{
    let keyword = String::from_str(keyword);
    if keyword == String::from_str("user") {
        Ok(Mode::User)
    } else if keyword == String::from_str("org") {
        Ok(Mode::Org)
    } else {
        Err(ConfigError::UnsupportedMode)
    }
}

/// Reads the mode as it was given on the command line. Upper and lower case
/// are the same here; any text but `user` and `org` is refused.
pub fn parse_mode(text: &str) -> (mode: Result<Mode, ConfigError>)
    ensures
        mode == keyword_mode(lowercase(text@)),
{
    let lowered = to_lowercase(text);
    mode_from_keyword(lowered.as_str())
}

/// What a user is told when a scan cannot start, for an error and for the
/// mode as it was given.
pub open spec fn message_text(error: ConfigError, given_mode: Seq<char>) -> Seq<char> {
    match error {
        ConfigError::UnsupportedMode => "unsupported mode was given: "@ + given_mode
            + ", supported modes are user or org"@,
        ConfigError::MissingSection => "Failed to find Github section in config file"@,
        ConfigError::MissingToken => "Failed to find access_token in config file"@,
        ConfigError::MissingOrganizationName =>
            "Failed to find organization_name in config file"@,
        ConfigError::MissingTeamName => "Failed to find team_name in config file"@,
        ConfigError::MissingUserName => "Failed to find user_name in config file"@,
    }
}

impl ConfigError {
    /// The message for this error. Only the message for an unsupported mode
    /// names the mode that was given.
    pub fn message(&self, given_mode: &str) -> (message: String)
        ensures
            message@ == message_text(*self, given_mode@),
    {
        match self {
            ConfigError::UnsupportedMode => {
                let mut message = String::from_str("unsupported mode was given: ");
                message.append(given_mode);
                message.append(", supported modes are user or org");
                message
            },
            ConfigError::MissingSection => String::from_str(
                "Failed to find Github section in config file",
            ),
            ConfigError::MissingToken => String::from_str(
                "Failed to find access_token in config file",
            ),
            ConfigError::MissingOrganizationName => String::from_str(
                "Failed to find organization_name in config file",
            ),
            ConfigError::MissingTeamName => String::from_str(
                "Failed to find team_name in config file",
            ),
            ConfigError::MissingUserName => String::from_str(
                "Failed to find user_name in config file",
            ),
        }
    }
}

/// The values of the configuration's `Github` section, each as it was
/// found: `None` where the section has no such key.
pub struct RawSettings {
    pub token: Option<String>,
    pub user_name: Option<String>,
    pub organization_name: Option<String>,
    pub team_name: Option<String>,
}

/// Whose repositories are scanned, with the names that say so.
#[derive(Debug)]
pub enum Scope {
    /// The repositories of the user `user_name`.
    User { user_name: String },
    /// The repositories of the team `team_name` of `organization_name`.
    Org { organization_name: String, team_name: String },
}

/// The mathematical value of a [`Scope`].
pub enum ScopeView {
    User { user_name: Seq<char> },
    Org { organization_name: Seq<char>, team_name: Seq<char> },
}

impl View for Scope {
    type V = ScopeView;

    open spec fn view(&self) -> ScopeView {
        match self {
            Scope::User { user_name } => ScopeView::User { user_name: user_name@ },
            Scope::Org { organization_name, team_name } => ScopeView::Org {
                organization_name: organization_name@,
                team_name: team_name@,
            },
        }
    }
}

/// The mathematical value of a [`Settings`].
pub struct SettingsView {
    pub token: Seq<char>,
    pub scope: ScopeView,
}

/// Settings are complete when the token and every name of the scope hold
/// at least one character.
pub open spec fn complete(settings: SettingsView) -> bool {
    &&& settings.token.len() > 0
    &&& match settings.scope {
        ScopeView::User { user_name } => user_name.len() > 0,
        ScopeView::Org { organization_name, team_name } => organization_name.len() > 0
            && team_name.len() > 0,
    }
}

/// The settings of a scan: the token and the scope. Only [`configure`]
/// makes one, so every value of this type is complete.
pub struct Settings {
    token: String,
    scope: Scope,
}

impl View for Settings {
    type V = SettingsView;

    closed spec fn view(&self) -> SettingsView {
        SettingsView { token: self.token@, scope: self.scope@ }
    }
}

impl Settings {
    #[verifier::type_invariant]
    spec fn is_complete(self) -> bool {
        complete(self@)
    }

    pub fn token(&self) -> (token: &str)
        ensures
            token@ == self@.token,
            complete(self@),
    {
        proof {
            use_type_invariant(self);
        }
        self.token.as_str()
    }

    pub fn scope(&self) -> (scope: &Scope)
        ensures
            scope@ == self@.scope,
            complete(self@),
    {
        proof {
            use_type_invariant(self);
        }
        &self.scope
    }
}

/// Whether a value of the configuration is there: found, and not empty.
pub open spec fn present(value: Option<String>) -> bool {
    value matches Some(text) && text@.len() > 0
}

/// The settings that a section gives for a mode, or the first thing that
/// is missing: the section itself, then the token, then the names of the
/// mode in the order `organization_name`, `team_name` or else `user_name`.
/// Values that the mode does not need are not looked at.
pub open spec fn configured(mode: Mode, section: Option<RawSettings>) -> Result<
    SettingsView,
    ConfigError,
> {
    match section {
        None => Err(ConfigError::MissingSection),
        Some(raw) => if !present(raw.token) {
            Err(ConfigError::MissingToken)
        } else {
            match mode {
                Mode::Org => if !present(raw.organization_name) {
                    Err(ConfigError::MissingOrganizationName)
                } else if !present(raw.team_name) {
                    Err(ConfigError::MissingTeamName)
                } else {
                    Ok(
                        SettingsView {
                            token: raw.token->0@,
                            scope: ScopeView::Org {
                                organization_name: raw.organization_name->0@,
                                team_name: raw.team_name->0@,
                            },
                        },
                    )
                },
                Mode::User => if !present(raw.user_name) {
                    Err(ConfigError::MissingUserName)
                } else {
                    Ok(
                        SettingsView {
                            token: raw.token->0@,
                            scope: ScopeView::User { user_name: raw.user_name->0@ },
                        },
                    )
                },
            }
        },
    }
}

/// The value of a result of [`configure`].
pub open spec fn settings_view(settings: Result<Settings, ConfigError>) -> Result<
    SettingsView,
    ConfigError,
> {
    match settings {
        Ok(settings) => Ok(settings@),
        Err(e) => Err(e),
    }
}

fn required(value: Option<String>, missing: ConfigError) -> (found: Result<String, ConfigError>)
    ensures
        present(value) ==> found == Ok::<String, ConfigError>(value->0),
        !present(value) ==> found == Err::<String, ConfigError>(missing),
{
    match value {
        Some(text) => if text.as_str().is_empty() {
            Err(missing)
        } else {
            Ok(text)
        },
        None => Err(missing),
    }
}

/// Checks that the configuration holds what the mode needs, and makes the
/// settings of the scan from it.
pub fn configure(mode: Mode, section: Option<RawSettings>) -> (settings: Result<
    Settings,
    ConfigError,
>)
    ensures
        settings_view(settings) == configured(mode, section),
{
    let raw = match section {
        Some(raw) => raw,
        None => {
            return Err(ConfigError::MissingSection);
        },
    };
    let token = required(raw.token, ConfigError::MissingToken)?;
    let scope = match mode {
        Mode::Org => {
            let organization_name = required(
                raw.organization_name,
                ConfigError::MissingOrganizationName,
            )?;
            let team_name = required(raw.team_name, ConfigError::MissingTeamName)?;
            Scope::Org { organization_name, team_name }
        },
        Mode::User => {
            let user_name = required(raw.user_name, ConfigError::MissingUserName)?;
            Scope::User { user_name }
        },
    };
    Ok(Settings { token, scope })
}

} // verus!
