//! Laws on where the server's address and the token come from.

use crate::json::{parsed_json, value_model, JsonModel};
use crate::laws::terms::{holds_text, is_text};
use crate::settings::{
    cli_settings, forgegraph_is_configured, read_fg_settings, settings_in, settle_settings,
    stored_settings, Setting, SettingsStep,
};
use vstd::prelude::*;

verus! {

/// CLI credentials are complete where they hold a server and a token, both texts that
/// are not empty.
pub open spec fn are_complete(
    credentials: JsonModel,
    server: Seq<char>,
    token: Seq<char>,
) -> bool {
    &&& holds_text(credentials, "server"@, server)
    &&& holds_text(credentials, "token"@, token)
    &&& server.len() > 0
    &&& token.len() > 0
}

/// The rows of the settings table have their names.
pub proof fn law_setting_keys(server: &'static str, token: &'static str)
    requires
        call_ensures(Setting::key, (&Setting::Server,), server),
        call_ensures(Setting::key, (&Setting::Token,), token),
    ensures
        server@ == "forgegraph_server"@,
        token@ == "forgegraph_token"@,
{
}

/// A row that was read is handed on as it is; an error names the row.
pub proof fn law_setting_read(
    setting: &Setting,
    row: Result<Option<String>, String>,
    r: Result<Option<String>, String>,
)
    requires
        call_ensures(Setting::read, (setting, row), r),
    ensures
        match row {
            Ok(value) => r is Ok && r->Ok_0 == value,
            Err(error) => r is Err && r->Err_0@ == match setting {
                Setting::Server => "Failed to read "@ + "forgegraph_server"@ + " setting: "@
                    + error@,
                Setting::Token => "Failed to read "@ + "forgegraph_token"@ + " setting: "@
                    + error@,
            },
        },
{
}

proof fn lemma_cli_settings(credentials: JsonModel, server: Seq<char>, token: Seq<char>)
    ensures
        cli_settings(Some(credentials)) == Some((server, token)) <==> are_complete(
            credentials,
            server,
            token,
        ),
{
}

/// The settings in CLI credentials are the server and the token of complete ones.
pub proof fn law_settings_in(
    credentials: &serde_json::Value,
    r: Option<(String, String)>,
    server: Seq<char>,
    token: Seq<char>,
)
    requires
        call_ensures(settings_in, (credentials,), r),
    ensures
        (r is Some && r->Some_0.0@ == server && r->Some_0.1@ == token) <==> are_complete(
            value_model(*credentials),
            server,
            token,
        ),
{
    lemma_cli_settings(value_model(*credentials), server, token);
}

/// The CLI's file gives the settings where it can be read, is JSON and is complete;
/// in every other case the settings table is to be read.
pub proof fn law_read_fg_settings(
    contents: Option<&str>,
    r: SettingsStep,
    server: Seq<char>,
    token: Seq<char>,
)
    requires
        call_ensures(read_fg_settings, (contents,), r),
    ensures
        (r matches SettingsStep::Found(s, t) && s@ == server && t@ == token) <==> (contents
            matches Some(text) && parsed_json(text@) matches Some(credentials) && are_complete(
            credentials,
            server,
            token,
        )),
{
    if let Some(text) = contents {
        if let Some(credentials) = parsed_json(text@) {
            lemma_cli_settings(credentials, server, token);
        }
    }
}

/// The table is read where the CLI's file did not give the settings, and only then.
pub proof fn law_reads_table(step: &SettingsStep, r: bool)
    requires
        call_ensures(SettingsStep::reads_table, (step,), r),
    ensures
        r <==> step is ReadTable,
{
}

/// A row that is there and not empty.
pub open spec fn is_filled(row: Option<String>) -> bool {
    row matches Some(value) && value@.len() > 0
}

/// Rows that are both there and not empty are the settings, each in its place; else the
/// error says which is missing, the server first.
pub proof fn law_stored_settings(
    server: Option<String>,
    token: Option<String>,
    r: Result<(String, String), String>,
)
    requires
        call_ensures(stored_settings, (server, token), r),
    ensures
        is_filled(server) && is_filled(token) ==> {
            &&& r is Ok
            &&& is_text(server, r->Ok_0.0@)
            &&& is_text(token, r->Ok_0.1@)
        },
        !is_filled(server) ==> r is Err && r->Err_0@ == "ForgeGraph server URL not configured"@,
        is_filled(server) && !is_filled(token) ==> r is Err && r->Err_0@
            == "ForgeGraph API token not configured"@,
{
}

/// Settings that were found are used, whatever the table holds.
pub proof fn law_found_settings_are_used(
    server: String,
    token: String,
    server_row: Result<Option<String>, String>,
    token_row: Result<Option<String>, String>,
    r: Result<(String, String), String>,
)
    requires
        call_ensures(
            settle_settings,
            (SettingsStep::Found(server, token), server_row, token_row),
            r,
        ),
    ensures
        r is Ok,
        r->Ok_0.0@ == server@,
        r->Ok_0.1@ == token@,
{
}

/// Where the table is read, its rows decide: the first that could not be read gives the
/// error, then the first that is missing or empty, and else they are the settings.
pub proof fn law_table_settings_are_used(
    server: Result<Option<String>, String>,
    token: Result<Option<String>, String>,
    r: Result<(String, String), String>,
)
    requires
        call_ensures(settle_settings, (SettingsStep::ReadTable, server, token), r),
    ensures
        match (server, token) {
            (Err(error), _) => r is Err && r->Err_0@ == "Failed to read "@
                + "forgegraph_server"@ + " setting: "@ + error@,
            (Ok(_), Err(error)) => r is Err && r->Err_0@ == "Failed to read "@
                + "forgegraph_token"@ + " setting: "@ + error@,
            (Ok(server), Ok(token)) => {
                &&& is_filled(server) && is_filled(token) ==> {
                    &&& r is Ok
                    &&& is_text(server, r->Ok_0.0@)
                    &&& is_text(token, r->Ok_0.1@)
                }
                &&& !is_filled(server) ==> r is Err && r->Err_0@
                    == "ForgeGraph server URL not configured"@
                &&& is_filled(server) && !is_filled(token) ==> r is Err && r->Err_0@
                    == "ForgeGraph API token not configured"@
            },
        },
{
}

/// ForgeGraph is configured where its settings could be read, and only then; asking
/// never fails.
pub proof fn law_is_configured(settings: &Result<(String, String), String>, r: Result<bool, String>)
    requires
        call_ensures(forgegraph_is_configured, (settings,), r),
    ensures
        r is Ok,
        r->Ok_0 <==> settings is Ok,
{
}

} // verus!
