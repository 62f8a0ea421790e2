//! Format detection for configuration file content.
//!
//! Three probes are tried in a fixed order: is the text one JSON value,
//! is it one jsonnet expression, does it open like a script. The first
//! probe that accepts the text names its format. The JSON and script
//! probes run here; the jsonnet probe is an outside parser that can die
//! on hostile input (bad string escapes, oversized number literals, deep
//! nesting), so its verdict is computed at the caller's unverified edge —
//! where a panic can be caught — and handed in as a plain value. What is
//! fixed here, for every text and every verdict, is the precedence among
//! the probes.

use vstd::prelude::*;
use vstd::string::StrSliceExecFns;

verus! {

/// The content kinds told apart.
#[derive(Debug, PartialEq, Eq, Copy, Clone, Structural)]
pub enum FileFormat {
    Json,
    Jsonnet,
    Script,
    Unknown,
}

/// Whether the JSON reader accepts the text as one JSON value.
pub uninterp spec fn json_accepts(s: Seq<char>) -> bool;

/// A script is any content that opens with the interpreter marker `#!`.
pub open spec fn is_script_content(s: Seq<char>) -> bool {
    s.len() >= 2 && s[0] == '#' && s[1] == '!'
}

/// The format of a text, given the jsonnet probe's verdict on it: the
/// first probe that accepts it, in the order JSON, jsonnet, script.
pub open spec fn spec_format(s: Seq<char>, jsonnet: bool) -> FileFormat {
    if json_accepts(s) {
        FileFormat::Json
    } else if jsonnet {
        FileFormat::Jsonnet
    } else if is_script_content(s) {
        FileFormat::Script
    } else {
        FileFormat::Unknown
    }
}

impl FileFormat {
    /// Detects the format of the given content; `jsonnet` is the jsonnet
    /// probe's verdict on that same content, computed by the caller.
    pub fn from_string(content: &str, jsonnet: bool) -> (r: Self)
        ensures
            r == spec_format(content@, jsonnet),
    {
        if Self::is_json(content) {
            return Self::Json;
        } else if jsonnet {
            return Self::Jsonnet;
        } else if Self::is_script(content) {
            return Self::Script;
        }
        Self::Unknown
    }

    /// Relies on `serde_json::from_str::<serde_json::Value>`: it accepts
    /// exactly the texts that parse as one JSON value, its outcome
    /// depends on the text alone, and it returns an error — never
    /// panicking — on what it rejects.
    #[verifier::external_body]
    fn is_json(content: &str) -> (r: bool)
        ensures
            r == json_accepts(content@),
    {
        serde_json::from_str::<serde_json::Value>(content).is_ok()
    }

    /// A script opens with the two characters `#` and `!`.
    fn is_script(content: &str) -> (r: bool)
        ensures
            r == is_script_content(content@),
    {
        if content.unicode_len() < 2 {
            return false;
        }
        content.get_char(0) == '#' && content.get_char(1) == '!'
    }
}

} // verus!
