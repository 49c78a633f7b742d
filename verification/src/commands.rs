//! The command line, and the decisions the commands make before and after a
//! translation.

use vstd::prelude::*;
use vstd::string::*;

use crate::store::{or_default, Kind, Record, Settings, DEFAULT_TARGET_LANG};
use crate::text::{is_blank, lemma_trim_empty_iff_blank, same_text, trim, trimmed};
use crate::translate::{after_separator, before_separator, Reply};

verus! {

/// How the program is used.
pub const USAGE: &'static str = "vertere — translate a screen region, the clipboard or the selection

usage:
    vertere daemon                   run in the background
    vertere shot                     capture a screen region and translate it
    vertere clip                     translate the clipboard contents
    vertere sel                      translate the selected text, no copy needed
    vertere settings                 change the model and languages
    vertere history                  browse and search past translations

Commands are handed to a running daemon. Without one they do the work
themselves and exit.
";

/// Environment variable holding the OpenRouter API key.
///
/// Kept out of the database: a secret does not belong next to translated text,
/// and this is the one value a service manager can supply without a UI.
pub const API_KEY_ENV: &'static str = "OPENROUTER_API_KEY";

/// Shown when the clipboard holds nothing to translate.
pub const CLIPBOARD_EMPTY: &'static str = "the clipboard is empty";

/// Shown when the selection holds nothing to translate.
pub const NOTHING_SELECTED: &'static str = "nothing is selected";

/// A subcommand.
#[derive(Debug, Clone, Copy, PartialEq, Eq)]
pub enum Command {
    Daemon,
    Settings,
    History,
    Shot,
    Clip,
    Sel,
    Help,
}

/// The subcommand a word names, if any.
pub open spec fn command_named(word: Seq<char>) -> Option<Command> {
    if word == "daemon"@ {
        Some(Command::Daemon)
    } else if word == "settings"@ {
        Some(Command::Settings)
    } else if word == "history"@ {
        Some(Command::History)
    } else if word == "shot"@ {
        Some(Command::Shot)
    } else if word == "clip"@ {
        Some(Command::Clip)
    } else if word == "sel"@ {
        Some(Command::Sel)
    } else if word == "-h"@ || word == "--help"@ {
        Some(Command::Help)
    } else {
        None
    }
}

/// A command line that names no subcommand.
#[derive(Debug, Clone, PartialEq, Eq)]
pub enum CommandError {
    /// Nothing was given.
    Missing,
    /// The first word is not a subcommand, or more words followed it.
    Unknown(String),
}

impl CommandError {
    /// The message this error is shown with, usage included.
    pub fn message(&self) -> (res: String)
        ensures
            res@ == match self {
                CommandError::Missing => "missing command\n\n"@ + USAGE@,
                CommandError::Unknown(word) => "unknown or malformed command `"@ + word@
                    + "`\n\n"@ + USAGE@,
            },
    {
        match self {
            CommandError::Missing => {
                let mut text = String::from_str("missing command\n\n");
                text.push_str(USAGE);
                text
            },
            CommandError::Unknown(word) => {
                let mut text = String::from_str("unknown or malformed command `");
                text.push_str(word.as_str());
                text.push_str("`\n\n");
                text.push_str(USAGE);
                text
            },
        }
    }
}

/// Reads the subcommand from the arguments that follow the program name.
pub fn parse_command(arguments: &Vec<String>) -> (res: Result<Command, CommandError>)
    ensures
        arguments@.len() == 0 ==> res == Err::<Command, CommandError>(CommandError::Missing),
        arguments@.len() == 1 && command_named(arguments@[0]@) is Some ==> res == Ok::<
            Command,
            CommandError,
        >(command_named(arguments@[0]@)->0),
        arguments@.len() > 0 && (arguments@.len() > 1 || command_named(arguments@[0]@) is None)
            ==> (res matches Err(CommandError::Unknown(word)) && word@ == arguments@[0]@),
{
    if arguments.len() == 0 {
        return Err(CommandError::Missing);
    }
    let word = arguments[0].as_str();
    if arguments.len() == 1 {
        if same_text(word, "daemon") {
            return Ok(Command::Daemon);
        } else if same_text(word, "settings") {
            return Ok(Command::Settings);
        } else if same_text(word, "history") {
            return Ok(Command::History);
        } else if same_text(word, "shot") {
            return Ok(Command::Shot);
        } else if same_text(word, "clip") {
            return Ok(Command::Clip);
        } else if same_text(word, "sel") {
            return Ok(Command::Sel);
        } else if same_text(word, "-h") || same_text(word, "--help") {
            return Ok(Command::Help);
        }
    }
    Err(CommandError::Unknown(arguments[0].clone()))
}

/// The API key is missing or blank.
#[derive(Debug, Clone, Copy, PartialEq, Eq)]
pub struct MissingApiKey;

impl MissingApiKey {
    /// The message this error is shown with.
    pub fn message(&self) -> (res: &'static str)
        ensures
            res@ == "$OPENROUTER_API_KEY is not set"@,
    {
        "$OPENROUTER_API_KEY is not set"
    }
}

/// The API key from the value of [`API_KEY_ENV`], trimmed; `None` when the
/// variable is unset or not Unicode.
pub fn api_key(value: Option<String>) -> (res: Result<String, MissingApiKey>)
    ensures
        match value {
            Some(v) => if trim(v@).len() > 0 {
                res matches Ok(key) && key@ == trim(v@)
            } else {
                res is Err
            },
            None => res is Err,
        },
{
    match value {
        Some(v) => {
            let key = trimmed(v.as_str());
            if key.is_empty() {
                Err(MissingApiKey)
            } else {
                Ok(String::from_str(key))
            }
        },
        None => Err(MissingApiKey),
    }
}

/// The text read from the clipboard or the selection, or `None` when there is
/// nothing in it worth translating.
pub fn usable_text(text: String) -> (res: Option<String>)
    ensures
        is_blank(text@) ==> res is None,
        !is_blank(text@) ==> res == Some(text),
{
    proof {
        lemma_trim_empty_iff_blank(text@);
    }
    if trimmed(text.as_str()).is_empty() {
        None
    } else {
        Some(text)
    }
}

/// Whether two sets of settings are the same, field by field.
pub fn same_settings(a: &Settings, b: &Settings) -> (res: bool)
    ensures
        res == (a.model@ == b.model@ && a.target_lang@ == b.target_lang@ && a.fallback_lang@
            == b.fallback_lang@ && a.base_url@ == b.base_url@),
{
    same_text(a.model.as_str(), b.model.as_str()) && same_text(
        a.target_lang.as_str(),
        b.target_lang.as_str(),
    ) && same_text(a.fallback_lang.as_str(), b.fallback_lang.as_str()) && same_text(
        a.base_url.as_str(),
        b.base_url.as_str(),
    )
}

/// What goes into the history for a finished reply, or `None` when nothing
/// usable arrived and there is nothing to keep.
pub fn record_of<'a>(kind: Kind, settings: &'a Settings, reply: &'a Reply) -> (res: Option<
    Record<'a>,
>)
    requires
        reply.wf(),
    ensures
        (is_blank(before_separator(reply@)) && is_blank(after_separator(reply@))) ==> res is None,
        !(is_blank(before_separator(reply@)) && is_blank(after_separator(reply@))) ==> ({
            &&& res is Some
            &&& res->0.kind == kind
            &&& res->0.model@ == settings.model@
            &&& res->0.target@ == or_default(settings.target_lang@, DEFAULT_TARGET_LANG@)
            &&& res->0.source@ == trim(after_separator(reply@))
            &&& res->0.translated@ == trim(before_separator(reply@))
        }),
{
    if reply.is_empty() {
        return None;
    }
    Some(
        Record {
            kind,
            model: settings.model.as_str(),
            target: settings.target(),
            source: reply.source(),
            translated: reply.translation(),
        },
    )
}

} // verus!
