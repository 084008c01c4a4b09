//! The configuration and its text form.

use vstd::prelude::*;
use vstd::string::*;
use crate::utils::{
    field_text, format_field, format_list, format_section, kept_chars, list_text, section_text,
    truncate,
};

verus! {

/// Who may use the bot, and the token it logs in with.
#[derive(Debug, Clone, PartialEq, Eq)]
pub struct Auth {
    pub token: String,
    pub owners: Vec<String>,
}

/// How commands are addressed.
#[derive(Debug, Clone, PartialEq, Eq)]
pub struct Options {
    pub prefixes: Vec<String>,
    pub mention_as_prefix: bool,
    pub message: String,
}

/// How the bot answers and where it logs.
#[derive(Debug, Clone, PartialEq, Eq)]
pub struct System {
    pub ephemeral_admin_commands: bool,
    pub vrc_client_logging_channel: String,
}

/// The ports of the avatar client.
#[derive(Debug, Clone, PartialEq, Eq)]
pub struct VrcClient {
    pub localhost: String,
    pub receiver_port: u16,
    pub transmitter_port: u16,
}

/// The whole configuration.
#[derive(Debug, Clone, PartialEq, Eq)]
pub struct Config {
    pub auth: Auth,
    pub options: Options,
    pub system: System,
    pub vrc_client: VrcClient,
}

/// How many characters of the token are shown.
pub const TOKEN_PREVIEW_CHARS: usize = 10;

/// A flag as text.
pub open spec fn bool_text(b: bool) -> Seq<char> {
    if b {
        "true"@
    } else {
        "false"@
    }
}

/// The token as it is shown: its first characters, then three dots.
pub open spec fn token_preview(token: Seq<char>) -> Seq<char> {
    token.take(kept_chars(token.len(), TOKEN_PREVIEW_CHARS)) + "..."@
}

/// The text form of a configuration: a heading and seven lines, each ended
/// by a line feed.
pub open spec fn config_text(
    token: Seq<char>,
    owners: Seq<String>,
    ephemeral_admin_commands: bool,
    prefixes: Seq<String>,
    mention_as_prefix: bool,
) -> Seq<char> {
    "Configuration:"@ + "\n"@
        + section_text("Auth"@) + "\n"@
        + field_text("Token"@, token_preview(token)) + "\n"@
        + list_text("Owners"@, owners) + "\n"@
        + section_text("Options"@) + "\n"@
        + field_text("Ephemeral Admin Commands"@, bool_text(ephemeral_admin_commands)) + "\n"@
        + list_text("Prefixes"@, prefixes) + "\n"@
        + field_text("Mention as Prefix"@, bool_text(mention_as_prefix)) + "\n"@
}

fn bool_str(b: bool) -> (r: &'static str)
    ensures
        r@ == bool_text(b),
{
    if b {
        "true"
    } else {
        "false"
    }
}

impl Config {
    /// Replaces this configuration by one that was just loaded.
    pub fn update(&mut self, fresh: Config)
        ensures
            *final(self) == fresh,
    {
        *self = fresh;
    }

    /// The configuration as text, with the token cut short.
    pub fn to_string(&self) -> (r: String)
        ensures
            r@ == config_text(
                self.auth.token@,
                self.auth.owners@,
                self.system.ephemeral_admin_commands,
                self.options.prefixes@,
                self.options.mention_as_prefix,
            ),
    {
        let mut preview = String::from_str(truncate(self.auth.token.as_str(), TOKEN_PREVIEW_CHARS));
        preview.append("...");

        let mut out = String::from_str("Configuration:");
        out.append("\n");
        out.append(format_section("Auth").as_str());
        out.append("\n");
        out.append(format_field("Token", preview.as_str()).as_str());
        out.append("\n");
        out.append(format_list("Owners", self.auth.owners.as_slice()).as_str());
        out.append("\n");
        out.append(format_section("Options").as_str());
        out.append("\n");
        out.append(
            format_field(
                "Ephemeral Admin Commands",
                bool_str(self.system.ephemeral_admin_commands),
            ).as_str(),
        );
        out.append("\n");
        out.append(format_list("Prefixes", self.options.prefixes.as_slice()).as_str());
        out.append("\n");
        out.append(
            format_field("Mention as Prefix", bool_str(self.options.mention_as_prefix)).as_str(),
        );
        out.append("\n");
        out
    }
}

} // verus!
