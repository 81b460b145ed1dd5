//! The catalog's record type and the dispatcher's operating mode.

use crate::text::{concat, lowercase, lower_of, str_eq};
use vstd::prelude::*;

verus! {

/// One skill found in the catalog.
pub struct SkillData {
    /// The identifier, used for lookup and in generated tool names.
    pub name: String,
    /// The front-matter description, or empty.
    pub description: String,
    /// The document body without its front-matter block.
    pub content: String,
    /// The marker file's path relative to the catalog root, for display only.
    pub relative_path: String,
}

/// How the catalog is presented to the client.
#[derive(Clone, Copy, Debug, PartialEq, Eq, Structural)]
pub enum Mode {
    /// One tool per skill, named `get_skill_<name>`.
    Tool,
    /// No tools; the catalog is described in the `initialize` instructions.
    SystemPrompt,
    /// One tool, `get_skill`, that takes the skill's name as an argument.
    SingleTool,
}

/// The mode named by a lowercase token, if any.
pub open spec fn mode_of_token(t: Seq<char>) -> Option<Mode> {
    if t == "tool"@ {
        Some(Mode::Tool)
    } else if t == "system_prompt"@ {
        Some(Mode::SystemPrompt)
    } else if t == "single_tool"@ {
        Some(Mode::SingleTool)
    } else {
        None
    }
}

/// The message given for a token that names no mode.
pub open spec fn invalid_mode_message(given: Seq<char>) -> Seq<char> {
    "Invalid mode: "@ + given + ". Must be 'tool', 'system_prompt', or 'single_tool'"@
}

impl Mode {
    /// Reads a mode from an already lowercased token; `given` is the text
    /// that the error message quotes.
    pub fn from_lowercase(token: &str, given: &str) -> (r: Result<Mode, String>)
        ensures
            match r {
                Ok(m) => mode_of_token(token@) == Some(m),
                Err(e) => mode_of_token(token@) is None && e@ == invalid_mode_message(given@),
            },
    {
        if str_eq(token, "tool") {
            Ok(Mode::Tool)
        } else if str_eq(token, "system_prompt") {
            Ok(Mode::SystemPrompt)
        } else if str_eq(token, "single_tool") {
            Ok(Mode::SingleTool)
        } else {
            let head = concat("Invalid mode: ", given);
            let msg = concat(head.as_str(), ". Must be 'tool', 'system_prompt', or 'single_tool'");
            Err(msg)
        }
    }

    /// Reads a mode name, ignoring case.
    pub fn from_str(s: &str) -> (r: Result<Mode, String>)
        ensures
            match r {
                Ok(m) => mode_of_token(lower_of(s@)) == Some(m),
                Err(e) => mode_of_token(lower_of(s@)) is None && e@ == invalid_mode_message(s@),
            },
    {
        let lowered = lowercase(s);
        Mode::from_lowercase(lowered.as_str(), s)
    }
}

} // verus!
