//! What the windows show: the bubble's content and status, the settings form
//! and the history rows.

use vstd::prelude::*;
use vstd::string::*;

use crate::store::{kind_name, Entry, Settings};
use crate::text::{is_blank, trim, trimmed};
use crate::translate::{after_separator, before_separator, Reply, SEPARATOR};
use crate::window_state::Screen;

verus! {

/// The bubble's width, in logical pixels.
pub const WIDTH: i32 = 420;

/// The bubble's height before it is laid out: only a starting guess, since a
/// position has to be picked before the real height is known.
pub const ASSUMED_HEIGHT: i32 = 200;

/// How long a finished bubble stays before dismissing itself, if untouched.
pub const LINGER_SECONDS: u64 = 8;

/// Shown when the stream ended without anything usable.
pub const NO_TRANSLATION: &'static str = "No translation returned";

/// Shown when the settings are saved without a model.
pub const MODEL_REQUIRED: &'static str = "A model is required";

/// Shown when the history has nothing to list.
pub const NOTHING_HERE: &'static str = "Nothing here yet";

/// The size the bubble is placed with.
pub fn bubble_size() -> (res: Screen)
    ensures
        res.width == WIDTH && res.height == ASSUMED_HEIGHT,
{
    Screen { width: WIDTH, height: ASSUMED_HEIGHT }
}

/// `prefix` followed by `detail`.
pub fn prefixed(prefix: &str, detail: &str) -> (res: String)
    ensures
        res@ == prefix@ + detail@,
{
    let mut text = String::from_str(prefix);
    text.push_str(detail);
    text
}

/// The status shown when the stream failed.
pub fn failure_status(error: &str) -> (res: String)
    ensures
        res@ == "Failed: "@ + error@,
{
    prefixed("Failed: ", error)
}

/// The status shown when the settings could not be saved.
pub fn save_failure_status(error: &str) -> (res: String)
    ensures
        res@ == "Could not save: "@ + error@,
{
    prefixed("Could not save: ", error)
}

/// The status shown when the history could not be read.
pub fn read_failure_status(error: &str) -> (res: String)
    ensures
        res@ == "Could not read: "@ + error@,
{
    prefixed("Could not read: ", error)
}

/// The source text the bubble shows, once the separator has arrived and
/// something follows it.
pub fn shown_source(reply: &Reply) -> (res: Option<&str>)
    requires
        reply.wf(),
    ensures
        match res {
            Some(source) => reply@.contains(SEPARATOR) && source@.len() > 0 && source@ == trim(
                after_separator(reply@),
            ),
            None => !reply@.contains(SEPARATOR) || trim(after_separator(reply@)).len() == 0,
        },
{
    if reply.has_source() {
        let source = reply.source();
        if !source.is_empty() {
            return Some(source);
        }
    }
    None
}

/// The status a finished stream leaves in the bubble: nothing when a reply
/// arrived, else a note that none did.
pub fn finished_status(reply: &Reply) -> (res: Option<&'static str>)
    requires
        reply.wf(),
    ensures
        res is Some <==> (is_blank(before_separator(reply@)) && is_blank(after_separator(reply@))),
        res is Some ==> res->0@ == NO_TRANSLATION@,
{
    if reply.is_empty() {
        Some(NO_TRANSLATION)
    } else {
        None
    }
}

/// The settings the form holds, each field trimmed, or the reason they
/// cannot be saved: the model has to be filled in.
pub fn settings_from_form(model: &str, target_lang: &str, fallback_lang: &str, base_url: &str) -> (res:
    Result<Settings, &'static str>)
    ensures
        trim(model@).len() == 0 ==> res == Err::<Settings, &'static str>(MODEL_REQUIRED),
        trim(model@).len() > 0 ==> (res matches Ok(s) && s.model@ == trim(model@)
            && s.target_lang@ == trim(target_lang@) && s.fallback_lang@ == trim(fallback_lang@)
            && s.base_url@ == trim(base_url@)),
{
    let model = trimmed(model);
    if model.is_empty() {
        return Err(MODEL_REQUIRED);
    }
    let settings = Settings {
        model: String::from_str(model),
        target_lang: String::from_str(trimmed(target_lang)),
        fallback_lang: String::from_str(trimmed(fallback_lang)),
        base_url: String::from_str(trimmed(base_url)),
    };
    Ok(settings)
}

/// The line under a history entry: how it was started and with which model.
pub fn history_meta(entry: &Entry) -> (res: String)
    ensures
        res@ == kind_name(entry.kind) + " · "@ + entry.model@,
{
    let mut text = String::from_str(entry.kind.as_str());
    text.push_str(" · ");
    text.push_str(entry.model.as_str());
    text
}

/// The status over the history list: a note when it is empty.
pub fn history_status(count: usize) -> (res: Option<&'static str>)
    ensures
        count == 0 ==> res == Some(NOTHING_HERE),
        count > 0 ==> res is None,
{
    if count == 0 {
        Some(NOTHING_HERE)
    } else {
        None
    }
}

/// A margin after dragging by `offset` from `origin`, never off the top or
/// left edge.
pub fn dragged(origin: i32, offset: i32) -> (res: i32)
    requires
        i32::MIN <= origin + offset <= i32::MAX,
    ensures
        res == if origin + offset > 0 {
            origin + offset
        } else {
            0
        },
{
    let moved = origin + offset;
    if moved > 0 {
        moved
    } else {
        0
    }
}

} // verus!
