//! Screen and clipboard capture: the arguments handed to `slurp`, `grim` and
//! `wl-paste`, and how their output is read.

use vstd::prelude::*;
use vstd::string::*;

use crate::text::{trim, trimmed};

verus! {

/// The region picker.
pub const SLURP: &'static str = "slurp";
/// The screenshot tool.
pub const GRIM: &'static str = "grim";
/// The clipboard reader.
pub const WL_PASTE: &'static str = "wl-paste";

/// Arguments for `slurp`: print the region as `x,y wxh`.
pub fn slurp_args() -> (res: Vec<&'static str>)
    ensures
        res@ == seq!["-f", "%x,%y %wx%h"],
{
    let mut args: Vec<&'static str> = Vec::new();
    args.push("-f");
    args.push("%x,%y %wx%h");
    proof {
        assert(args@ =~= seq!["-f", "%x,%y %wx%h"]);
    }
    args
}

/// The region `slurp` printed, trimmed of its trailing newline.
pub fn region(slurp_output: &str) -> (res: String)
    ensures
        res@ == trim(slurp_output@),
{
    String::from_str(trimmed(slurp_output))
}

/// Arguments for `grim`: capture `region` as PNG to standard output.
pub fn grim_args(region: &str) -> (res: Vec<String>)
    ensures
        res@.len() == 3,
        res@[0]@ == "-g"@,
        res@[1]@ == region@,
        res@[2]@ == "-"@,
{
    let mut args: Vec<String> = Vec::new();
    args.push(String::from_str("-g"));
    args.push(String::from_str(region));
    args.push(String::from_str("-"));
    args
}

/// Arguments for `wl-paste`: the text of the primary selection when
/// `primary`, else of the clipboard, without an added newline.
pub fn paste_args(primary: bool) -> (res: Vec<&'static str>)
    ensures
        primary ==> res@ == seq!["--primary", "--no-newline", "--type", "text"],
        !primary ==> res@ == seq!["--no-newline", "--type", "text"],
{
    let mut args: Vec<&'static str> = Vec::new();
    if primary {
        args.push("--primary");
    }
    args.push("--no-newline");
    args.push("--type");
    args.push("text");
    proof {
        if primary {
            assert(args@ =~= seq!["--primary", "--no-newline", "--type", "text"]);
        } else {
            assert(args@ =~= seq!["--no-newline", "--type", "text"]);
        }
    }
    args
}

/// `grim` succeeded but printed nothing.
#[derive(Debug, Clone, Copy, PartialEq, Eq)]
pub struct EmptyImage;

impl EmptyImage {
    /// The message this error is shown with.
    pub fn message(&self) -> (res: &'static str)
        ensures
            res@ == "grim produced an empty image"@,
    {
        "grim produced an empty image"
    }
}

/// The screenshot `grim` printed, unless it printed nothing.
pub fn screenshot_image(grim_output: Vec<u8>) -> (res: Result<Vec<u8>, EmptyImage>)
    ensures
        grim_output@.len() == 0 ==> res is Err,
        grim_output@.len() > 0 ==> res == Ok::<Vec<u8>, EmptyImage>(grim_output),
{
    if grim_output.len() == 0 {
        Err(EmptyImage)
    } else {
        Ok(grim_output)
    }
}

/// How a failed run of `program`, which exited with `status`, is reported:
/// with what it printed on standard error, trimmed, when that is not empty.
pub fn failure_message(program: &str, status: &str, stderr: &str) -> (res: String)
    ensures
        trim(stderr@).len() == 0 ==> res@ == "`"@ + program@ + "` failed ("@ + status@ + ")"@,
        trim(stderr@).len() > 0 ==> res@ == "`"@ + program@ + "` failed ("@ + status@ + "): "@
            + trim(stderr@),
{
    let detail = trimmed(stderr);
    let mut text = String::from_str("`");
    text.push_str(program);
    text.push_str("` failed (");
    text.push_str(status);
    if detail.is_empty() {
        text.push_str(")");
    } else {
        text.push_str("): ");
        text.push_str(detail);
    }
    text
}

} // verus!
