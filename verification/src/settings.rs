//! Where the server's address and the token come from: the configuration of the
//! forge CLI, or else the settings table.

use crate::json::{member, parse, parsed_json, text_member, text_of, value_model, JsonModel};
use crate::text::optional_text;
use vstd::prelude::*;
use vstd::string::*;

verus! {

/// The key of the server's address in the settings table.
pub open spec fn server_key() -> Seq<char> {
    "forgegraph_server"@
}

/// The key of the token in the settings table.
pub open spec fn token_key() -> Seq<char> {
    "forgegraph_token"@
}

/// A row of the settings table that is to be read.
#[derive(Debug, Clone, Copy, PartialEq, Eq, Structural)]
pub enum Setting {
    Server,
    Token,
}

/// The error when a row cannot be read.
pub open spec fn read_error_text(setting: Setting, error: Seq<char>) -> Seq<char> {
    "Failed to read "@ + setting.name() + " setting: "@ + error
}

impl Setting {
    /// The key of the row.
    pub open spec fn name(self) -> Seq<char> {
        match self {
            Setting::Server => server_key(),
            Setting::Token => token_key(),
        }
    }

    /// The key of the row.
    pub fn key(&self) -> (r: &'static str)
        ensures
            r@ == self.name(),
    {
        match self {
            Setting::Server => "forgegraph_server",
            Setting::Token => "forgegraph_token",
        }
    }

    /// The value of the row, where it is there, or the error when it cannot be read.
    pub fn read(&self, row: Result<Option<String>, String>) -> (r: Result<Option<String>, String>)
        ensures
            match row {
                Ok(value) => r == Ok::<Option<String>, String>(value),
                Err(error) => r is Err && r->Err_0@ == read_error_text(*self, error@),
            },
    {
        match row {
            Ok(value) => Ok(value),
            Err(error) => Err(
                "Failed to read ".to_owned().concat(self.key()).concat(" setting: ").concat(&error),
            ),
        }
    }
}

/// The server's address and the token that CLI credentials hold, if they hold both
/// and neither is empty.
pub open spec fn cli_settings(credentials: Option<JsonModel>) -> Option<(Seq<char>, Seq<char>)> {
    match credentials {
        Some(value) => match (
            text_of(member(value, "server"@)),
            text_of(member(value, "token"@)),
        ) {
            (Some(server), Some(token)) => if server.len() > 0 && token.len() > 0 {
                Some((server, token))
            } else {
                None
            },
            _ => None,
        },
        None => None,
    }
}

/// The characters of the server's address and the token.
pub open spec fn settings_text(settings: (String, String)) -> (Seq<char>, Seq<char>) {
    (settings.0@, settings.1@)
}

/// The server's address and the token that CLI credentials hold.
pub fn settings_in(credentials: &serde_json::Value) -> (r: Option<(String, String)>)
    ensures
        match r {
            Some(settings) => cli_settings(Some(value_model(*credentials))) == Some(
                settings_text(settings),
            ),
            None => cli_settings(Some(value_model(*credentials))) is None,
        },
{
    let server = text_member(credentials, "server");
    let token = text_member(credentials, "token");
    match (server, token) {
        (Some(server), Some(token)) => if !server.as_str().is_empty() && !token.as_str().is_empty() {
            Some((server, token))
        } else {
            None
        },
        _ => None,
    }
}

/// What the CLI's credentials say, and where to go on looking.
pub enum SettingsStep {
    /// These are the server's address and the token.
    Found(String, String),
    /// They are to be read from the settings table.
    ReadTable,
}

impl SettingsStep {
    /// The settings that were found, if they were.
    pub open spec fn found(self) -> Option<(Seq<char>, Seq<char>)> {
        match self {
            SettingsStep::Found(server, token) => Some((server@, token@)),
            SettingsStep::ReadTable => None,
        }
    }

    /// Whether the settings table is to be read.
    pub fn reads_table(&self) -> (r: bool)
        ensures
            r == (self.found() is None),
    {
        match self {
            SettingsStep::Found(_, _) => false,
            SettingsStep::ReadTable => true,
        }
    }
}

/// Reads the settings from the contents of the CLI's `credentials.json`, where that
/// file can be read; falls back to the settings table.
pub fn read_fg_settings(contents: Option<&str>) -> (r: SettingsStep)
    ensures
        r.found() == match contents {
            Some(text) => cli_settings(parsed_json(text@)),
            None => None,
        },
{
    match contents {
        Some(text) => match parse(text) {
            Ok(credentials) => match settings_in(&credentials) {
                Some((server, token)) => SettingsStep::Found(server, token),
                None => SettingsStep::ReadTable,
            },
            Err(_) => SettingsStep::ReadTable,
        },
        None => SettingsStep::ReadTable,
    }
}

/// The settings that the rows of the settings table give, if both are there and
/// neither is empty.
pub open spec fn table_settings(server: Option<Seq<char>>, token: Option<Seq<char>>) -> Option<
    (Seq<char>, Seq<char>),
> {
    match (server, token) {
        (Some(server), Some(token)) => if server.len() > 0 && token.len() > 0 {
            Some((server, token))
        } else {
            None
        },
        _ => None,
    }
}

/// Whether a row of the settings table is there and not empty.
pub open spec fn is_set(row: Option<Seq<char>>) -> bool {
    row matches Some(value) && value.len() > 0
}

/// The error where a row is missing or empty: the server's row comes first.
pub open spec fn missing_text(server: Option<Seq<char>>) -> Seq<char> {
    if is_set(server) {
        "ForgeGraph API token not configured"@
    } else {
        "ForgeGraph server URL not configured"@
    }
}

/// The value of a row, if it is there and not empty.
fn not_empty(row: Option<String>) -> (r: Option<String>)
    ensures
        r == if is_set(optional_text(row)) {
            row
        } else {
            None
        },
{
    match row {
        Some(value) => if value.as_str().is_empty() {
            None
        } else {
            Some(value)
        },
        None => None,
    }
}

/// The settings that the rows of the settings table give. An empty row counts as
/// missing.
pub fn stored_settings(server: Option<String>, token: Option<String>) -> (r: Result<
    (String, String),
    String,
>)
    ensures
        match r {
            Ok(settings) => table_settings(optional_text(server), optional_text(token)) == Some(
                settings_text(settings),
            ),
            Err(error) => {
                &&& table_settings(optional_text(server), optional_text(token)) is None
                &&& error@ == missing_text(optional_text(server))
            },
        },
{
    let server = match not_empty(server) {
        Some(server) => server,
        None => return Err("ForgeGraph server URL not configured".to_owned()),
    };
    let token = match not_empty(token) {
        Some(token) => token,
        None => return Err("ForgeGraph API token not configured".to_owned()),
    };
    Ok((server, token))
}

/// The settings in force, where `cli` is what the CLI's credentials give and the others
/// are the rows of the settings table.
pub open spec fn settings_in_force(
    cli: Option<(Seq<char>, Seq<char>)>,
    server: Option<Seq<char>>,
    token: Option<Seq<char>>,
) -> Option<(Seq<char>, Seq<char>)> {
    match cli {
        Some(settings) => Some(settings),
        None => table_settings(server, token),
    }
}

/// The value of a row that was read; none where reading it failed.
pub open spec fn row_value(row: Result<Option<String>, String>) -> Option<Seq<char>> {
    match row {
        Ok(value) => optional_text(value),
        Err(_) => None,
    }
}

/// The error for rows that do not give the settings: that of the first row that could
/// not be read, or else that of the first one that is missing.
pub open spec fn rows_error(
    server: Result<Option<String>, String>,
    token: Result<Option<String>, String>,
) -> Seq<char> {
    match (server, token) {
        (Err(error), _) => read_error_text(Setting::Server, error@),
        (Ok(_), Err(error)) => read_error_text(Setting::Token, error@),
        (Ok(_), Ok(_)) => missing_text(row_value(server)),
    }
}

/// The settings, given what the CLI's credentials say and how reading the rows of the
/// settings table went. The rows count only where the table is to be read.
pub fn settle_settings(
    step: SettingsStep,
    server: Result<Option<String>, String>,
    token: Result<Option<String>, String>,
) -> (r: Result<(String, String), String>)
    ensures
        match r {
            Ok(settings) => settings_in_force(step.found(), row_value(server), row_value(token))
                == Some(settings_text(settings)),
            Err(error) => {
                &&& settings_in_force(step.found(), row_value(server), row_value(token)) is None
                &&& error@ == rows_error(server, token)
            },
        },
{
    match step {
        SettingsStep::Found(server, token) => Ok((server, token)),
        SettingsStep::ReadTable => {
            let server = Setting::Server.read(server)?;
            let token = Setting::Token.read(token)?;
            stored_settings(server, token)
        },
    }
}

/// Whether ForgeGraph settings are available (CLI config or settings table), given
/// how reading them went.
pub fn forgegraph_is_configured(settings: &Result<(String, String), String>) -> (r: Result<
    bool,
    String,
>)
    ensures
        r == Ok::<bool, String>(settings is Ok),
{
    Ok(settings.is_ok())
}

/// Complete CLI credentials are used whatever the settings table holds.
pub proof fn law_cli_settings_come_first(
    cli: Option<JsonModel>,
    server: Option<Seq<char>>,
    token: Option<Seq<char>>,
)
    requires
        cli_settings(cli) is Some,
    ensures
        settings_in_force(cli_settings(cli), server, token) == cli_settings(cli),
{
}

/// Without complete CLI credentials the settings table decides, and both of its rows
/// are needed: one that is missing or empty leaves ForgeGraph without settings.
pub proof fn law_settings_table_is_the_fallback(
    cli: Option<JsonModel>,
    server: Option<Seq<char>>,
    token: Option<Seq<char>>,
)
    requires
        cli_settings(cli) is None,
    ensures
        settings_in_force(cli_settings(cli), server, token) is Some <==> is_set(server) && is_set(
            token,
        ),
        settings_in_force(cli_settings(cli), server, token) matches Some(settings) ==> server
            == Some(settings.0) && token == Some(settings.1),
{
}

/// The server's address and the token in force are never empty, wherever they come from.
pub proof fn law_settings_in_force_are_not_empty(
    cli: Option<JsonModel>,
    server: Option<Seq<char>>,
    token: Option<Seq<char>>,
)
    ensures
        settings_in_force(cli_settings(cli), server, token) matches Some(settings) ==>
            settings.0.len() > 0 && settings.1.len() > 0,
{
}

} // verus!
