//! The rendering strategy the confirm control delegates to.
//!
//! A theme turns the prompt configuration into the text that is written to
//! the terminal; it decides formatting only.  Cursor handling and line
//! clearing stay with the interaction loop, so a theme's two operations are
//! plain functions from the prompt data to a rendered line.

use vstd::prelude::*;
use vstd::string::StringExecFns;

verus! {

/// A rendering strategy for the confirm prompt.
///
/// Implementations choose the visual presentation (plain text, colors,
/// decorations).  Both operations return the full text of one rendered
/// line; they perform no terminal control themselves.
pub trait Theme {
    /// The text of the initial prompt line.  `default_opt` is the effective
    /// default: `Some` of the default answer when it is to be indicated,
    /// `None` when it is not shown.
    fn format_prompt(&self, prompt: &str, default_opt: Option<bool>) -> String;

    /// The text of the final line that replaces the prompt once the answer
    /// `outcome` has been resolved.
    fn format_confirmed(&self, prompt: &str, outcome: bool) -> String;
}

/// The hint appended to the prompt, with the default answer uppercased
/// when one is indicated.
pub open spec fn hint_text(default_opt: Option<bool>) -> Seq<char> {
    match default_opt {
        None => "[y/n] "@,
        Some(true) => "[Y/n] "@,
        Some(false) => "[y/N] "@,
    }
}

/// The plain theme's prompt line: the prompt text (when there is any),
/// a space, and the `[y/n]` hint.
pub open spec fn simple_prompt_text(prompt: Seq<char>, default_opt: Option<bool>) -> Seq<char> {
    if prompt.len() == 0 {
        hint_text(default_opt)
    } else {
        prompt + " "@ + hint_text(default_opt)
    }
}

/// The plain theme's confirmed line: the prompt text (when there is any),
/// a space, and the resolved answer written out.
pub open spec fn simple_confirmed_text(prompt: Seq<char>, outcome: bool) -> Seq<char> {
    let word = if outcome { "yes"@ } else { "no"@ };
    if prompt.len() == 0 {
        word
    } else {
        prompt + " "@ + word
    }
}

/// An undecorated theme: prompt text, a `[y/n]` hint and the spelled-out
/// answer, with no colors.
pub struct SimpleTheme;

impl SimpleTheme {
    /// Renders the initial prompt line of the plain theme.
    pub fn prompt_text(&self, prompt: &str, default_opt: Option<bool>) -> (out: String)
        ensures
            out@ == simple_prompt_text(prompt@, default_opt),
    {
        let hint = match default_opt {
            None => "[y/n] ",
            Some(true) => "[Y/n] ",
            Some(false) => "[y/N] ",
        };
        if prompt.is_empty() {
            String::from_str(hint)
        } else {
            let mut out = String::from_str(prompt);
            out.append(" ");
            out.append(hint);
            proof {
                assert(out@ =~= prompt@ + " "@ + hint@);
            }
            out
        }
    }

    /// Renders the final confirmed line of the plain theme.
    pub fn confirmed_text(&self, prompt: &str, outcome: bool) -> (out: String)
        ensures
            out@ == simple_confirmed_text(prompt@, outcome),
    {
        let word = if outcome { "yes" } else { "no" };
        if prompt.is_empty() {
            String::from_str(word)
        } else {
            let mut out = String::from_str(prompt);
            out.append(" ");
            out.append(word);
            proof {
                assert(out@ =~= prompt@ + " "@ + word@);
            }
            out
        }
    }
}

impl Theme for SimpleTheme {
    fn format_prompt(&self, prompt: &str, default_opt: Option<bool>) -> String {
        self.prompt_text(prompt, default_opt)
    }

    fn format_confirmed(&self, prompt: &str, outcome: bool) -> String {
        self.confirmed_text(prompt, outcome)
    }
}

} // verus!
