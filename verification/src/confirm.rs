//! The confirm control: prompt configuration and input classification.
//!
//! A [`Confirm`] owns the configuration of one yes/no prompt and the logic
//! that maps raw terminal input to an accept/decline/default verdict.  The
//! two input modes differ in what they read and in how they treat invalid
//! input: keystroke mode classifies every character as it is typed and
//! silently discards invalid ones, line mode classifies whole lines and
//! re-renders the prompt on an invalid line.

use vstd::prelude::*;
use vstd::string::{StrSliceExecFns, StringExecFns};
use crate::theme::{SimpleTheme, Theme};

verus! {

/// Whether `c` is trimmed as trailing whitespace.
fn is_answer_ws(c: char) -> (b: bool)
    ensures
        b == answer_ws(c),
{
    c == ' ' || c == '\t' || c == '\n' || c == '\u{000B}' || c == '\u{000C}' || c == '\r'
        || c == '\u{0085}' || c == '\u{00A0}' || c == '\u{1680}' || c == '\u{2000}'
        || c == '\u{2001}' || c == '\u{2002}' || c == '\u{2003}' || c == '\u{2004}'
        || c == '\u{2005}' || c == '\u{2006}' || c == '\u{2007}' || c == '\u{2008}'
        || c == '\u{2009}' || c == '\u{200A}' || c == '\u{2028}' || c == '\u{2029}'
        || c == '\u{202F}' || c == '\u{205F}' || c == '\u{3000}'
}

/// Folds the case of one character of an answer.
fn fold_char(c: char) -> (r: char)
    ensures
        r == fold_answer_char(c),
{
    match c {
        'Y' => 'y',
        'E' => 'e',
        'S' => 's',
        'N' => 'n',
        'O' => 'o',
        _ => c,
    }
}

/// The verdict a single keystroke produces in keystroke mode: `y`/`Y`
/// accepts, `n`/`N` declines, a newline or carriage return selects the
/// default answer unless default selection is disabled, and every other
/// character produces no verdict.
pub open spec fn key_verdict(input: char, default: bool, disable_default: bool) -> Option<bool> {
    if input == 'y' || input == 'Y' {
        Some(true)
    } else if input == 'n' || input == 'N' {
        Some(false)
    } else if (input == '\n' || input == '\r') && !disable_default {
        Some(default)
    } else {
        None
    }
}

/// Whether `c` is trailing whitespace to be trimmed from a line of input:
/// the characters with the Unicode `White_Space` property — the ASCII
/// whitespace and line terminators, next line, the no-break and typographic
/// spaces, the line and paragraph separators, and the ideographic space.
pub open spec fn answer_ws(c: char) -> bool {
    c == ' ' || c == '\t' || c == '\n' || c == '\u{000B}' || c == '\u{000C}' || c == '\r'
        || c == '\u{0085}' || c == '\u{00A0}' || c == '\u{1680}' || c == '\u{2000}'
        || c == '\u{2001}' || c == '\u{2002}' || c == '\u{2003}' || c == '\u{2004}'
        || c == '\u{2005}' || c == '\u{2006}' || c == '\u{2007}' || c == '\u{2008}'
        || c == '\u{2009}' || c == '\u{200A}' || c == '\u{2028}' || c == '\u{2029}'
        || c == '\u{202F}' || c == '\u{205F}' || c == '\u{3000}'
}

/// `s` with its trailing whitespace removed.
pub open spec fn trim_trailing_ws(s: Seq<char>) -> Seq<char>
    decreases s.len(),
{
    if s.len() > 0 && answer_ws(s.last()) {
        trim_trailing_ws(s.drop_last())
    } else {
        s
    }
}

/// Folds the case of the letters that occur in an accepted answer, so that
/// classification is case-insensitive.  Other characters are left alone:
/// no case of them can turn a line into `y`, `yes`, `n` or `no`, so folding
/// them could not change any verdict.
pub open spec fn fold_answer_char(c: char) -> char {
    match c {
        'Y' => 'y',
        'E' => 'e',
        'S' => 's',
        'N' => 'n',
        'O' => 'o',
        _ => c,
    }
}

/// A line of input as it is classified: trailing whitespace trimmed and
/// the case of the answer letters folded.
pub open spec fn normalized_answer(s: Seq<char>) -> Seq<char> {
    trim_trailing_ws(s).map_values(|c: char| fold_answer_char(c))
}

/// The verdict a full line produces in line mode: `y`/`yes` accepts,
/// `n`/`no` declines (case-insensitively, ignoring trailing whitespace),
/// an empty line selects the default answer unless default selection is
/// disabled, and every other line produces no verdict.
pub open spec fn line_verdict(s: Seq<char>, default: bool, disable_default: bool) -> Option<bool> {
    let t = normalized_answer(s);
    if t == "y"@ || t == "yes"@ {
        Some(true)
    } else if t == "n"@ || t == "no"@ {
        Some(false)
    } else if t.len() == 0 && !disable_default {
        Some(default)
    } else {
        None
    }
}

proof fn lemma_trim_all_ws(s: Seq<char>)
    requires
        forall|i: int| 0 <= i < s.len() ==> answer_ws(s[i]),
    ensures
        trim_trailing_ws(s) =~= Seq::<char>::empty(),
    decreases s.len(),
{
    if s.len() > 0 {
        assert(answer_ws(s.last()));
        assert(forall|i: int| 0 <= i < s.drop_last().len() ==> answer_ws(s.drop_last()[i]));
        lemma_trim_all_ws(s.drop_last());
    }
}

/// Law: with default selection enabled, a newline keystroke or an empty
/// (or whitespace-only) line yields exactly the configured default answer.
pub proof fn lemma_default_selected(default: bool, line: Seq<char>)
    requires
        forall|i: int| 0 <= i < line.len() ==> answer_ws(line[i]),
    ensures
        key_verdict('\n', default, false) == Some(default),
        key_verdict('\r', default, false) == Some(default),
        line_verdict(line, default, false) == Some(default),
{
    lemma_trim_all_ws(line);
    reveal_strlit("y");
    reveal_strlit("yes");
    reveal_strlit("n");
    reveal_strlit("no");
    assert(normalized_answer(line) =~= Seq::<char>::empty());
}

/// Law: with default selection disabled, a newline keystroke or an empty
/// (or whitespace-only) line decides nothing: the loop keeps consuming
/// input, and only an explicit answer can end it.
pub proof fn lemma_default_disabled(default: bool, line: Seq<char>)
    requires
        forall|i: int| 0 <= i < line.len() ==> answer_ws(line[i]),
    ensures
        key_verdict('\n', default, true) is None,
        key_verdict('\r', default, true) is None,
        line_verdict(line, default, true) is None,
{
    lemma_trim_all_ws(line);
    reveal_strlit("y");
    reveal_strlit("yes");
    reveal_strlit("n");
    reveal_strlit("no");
    assert(normalized_answer(line) =~= Seq::<char>::empty());
}

proof fn lemma_trim_fold_commute(s: Seq<char>)
    ensures
        trim_trailing_ws(s.map_values(|c: char| fold_answer_char(c))) =~= trim_trailing_ws(
            s,
        ).map_values(|c: char| fold_answer_char(c)),
    decreases s.len(),
{
    let m = s.map_values(|c: char| fold_answer_char(c));
    if s.len() > 0 {
        assert(m.last() == fold_answer_char(s.last()));
        assert(answer_ws(m.last()) == answer_ws(s.last()));
        if answer_ws(s.last()) {
            assert(m.drop_last() =~= s.drop_last().map_values(|c: char| fold_answer_char(c)));
            lemma_trim_fold_commute(s.drop_last());
        }
    }
}

/// Law: classification is case-insensitive: folding the case of the input
/// changes no verdict, neither for a keystroke nor for a whole line.
pub proof fn lemma_case_insensitive(
    input: char,
    line: Seq<char>,
    default: bool,
    disable_default: bool,
)
    ensures
        key_verdict(fold_answer_char(input), default, disable_default) == key_verdict(
            input,
            default,
            disable_default,
        ),
        line_verdict(line.map_values(|c: char| fold_answer_char(c)), default, disable_default)
            == line_verdict(line, default, disable_default),
{
    lemma_trim_fold_commute(line);
    let t = trim_trailing_ws(line);
    assert(t.map_values(|c: char| fold_answer_char(c)).map_values(
        |c: char| fold_answer_char(c),
    ) =~= t.map_values(|c: char| fold_answer_char(c)));
    assert(normalized_answer(line.map_values(|c: char| fold_answer_char(c)))
        == normalized_answer(line));
}

/// Law: configuration is last-writer-wins: applying the same setter twice
/// leaves only the second value in effect, for every setter.
pub proof fn lemma_setter_last_wins<'a, T: Theme>(
    c: Confirm<'a, T>,
    first: bool,
    second: bool,
    text_first: String,
    text_second: String,
)
    ensures
        (Confirm { prompt: text_second, ..(Confirm { prompt: text_first, ..c }) }) == (Confirm {
            prompt: text_second,
            ..c
        }),
        (Confirm { default: second, ..(Confirm { default: first, ..c }) }) == (Confirm {
            default: second,
            ..c
        }),
        (Confirm { show_default: second, ..(Confirm { show_default: first, ..c }) }) == (Confirm {
            show_default: second,
            ..c
        }),
        (Confirm { disable_default: second, ..(Confirm { disable_default: first, ..c }) }) == (
        Confirm { disable_default: second, ..c }),
        (Confirm { wait_for_newline: second, ..(Confirm { wait_for_newline: first, ..c }) }) == (
        Confirm { wait_for_newline: second, ..c }),
{
}

/// A yes/no confirmation prompt.
///
/// Configure it with the chained setters, then drive an interaction: either
/// against recorded input through [`Confirm::interact_keys`] and
/// [`Confirm::interact_lines`], or against a live terminal through an
/// unverified shell that reads input and performs the terminal actions.
pub struct Confirm<'a, T: Theme> {
    /// The label shown to the user.  May be empty.
    pub prompt: String,
    /// The answer returned when the user accepts the default.
    pub default: bool,
    /// Whether the default answer is indicated in the rendered prompt.
    pub show_default: bool,
    /// Whether selecting the default by an empty input is forbidden.
    pub disable_default: bool,
    /// `false`: classify each keystroke immediately; `true`: read and
    /// classify whole lines.
    pub wait_for_newline: bool,
    /// The rendering strategy for the prompt and the confirmed line.
    pub theme: &'a T,
}

impl Confirm<'static, SimpleTheme> {
    /// Creates a confirm prompt with the plain theme.
    pub fn new() -> (c: Confirm<'static, SimpleTheme>)
        ensures
            c.prompt@ == Seq::<char>::empty(),
            c.default == true,
            c.show_default == true,
            c.disable_default == false,
            c.wait_for_newline == false,
    {
        Confirm::with_theme(&SimpleTheme)
    }
}

impl<'a, T: Theme> Confirm<'a, T> {
    /// Creates a confirm prompt with a specific theme.
    pub fn with_theme(theme: &'a T) -> (c: Confirm<'a, T>)
        ensures
            c.prompt@ == Seq::<char>::empty(),
            c.default == true,
            c.show_default == true,
            c.disable_default == false,
            c.wait_for_newline == false,
            c.theme == theme,
    {
        Confirm {
            prompt: String::new(),
            default: true,
            show_default: true,
            disable_default: false,
            wait_for_newline: false,
            theme,
        }
    }

    /// Sets the confirm prompt text.  No validation: an empty string is
    /// permitted.
    pub fn with_prompt(&mut self, prompt: String) -> (r: &mut Confirm<'a, T>)
        ensures
            *r == (Confirm { prompt, ..*old(self) }),
            *final(self) == *final(r),
    {
        self.prompt = prompt;
        self
    }

    /// Sets the confirm prompt text.  An alias of [`Confirm::with_prompt`],
    /// kept for callers that still hold a `&str`.
    pub fn with_text(&mut self, text: &str) -> (r: &mut Confirm<'a, T>)
        ensures
            r.prompt@ == text@,
            r.default == old(self).default,
            r.show_default == old(self).show_default,
            r.disable_default == old(self).disable_default,
            r.wait_for_newline == old(self).wait_for_newline,
            r.theme == old(self).theme,
            *final(self) == *final(r),
    {
        self.with_prompt(String::from_str(text))
    }

    /// Sets when to react to user input.
    ///
    /// When `false` (the default), every keystroke is classified immediately
    /// as it is typed.  When `true`, the user types a full line and hits the
    /// Enter key before it is classified.
    pub fn wait_for_newline(&mut self, wait: bool) -> (r: &mut Confirm<'a, T>)
        ensures
            *r == (Confirm { wait_for_newline: wait, ..*old(self) }),
            *final(self) == *final(r),
    {
        self.wait_for_newline = wait;
        self
    }

    /// Overrides the answer selected when the user accepts the default by
    /// an empty input.  The initial value is `true`.
    pub fn default(&mut self, val: bool) -> (r: &mut Confirm<'a, T>)
        ensures
            *r == (Confirm { default: val, ..*old(self) }),
            *final(self) == *final(r),
    {
        self.default = val;
        self
    }

    /// Sets whether the options and the default choice are indicated in the
    /// rendered prompt.  The initial value is `true`.
    pub fn show_default(&mut self, val: bool) -> (r: &mut Confirm<'a, T>)
        ensures
            *r == (Confirm { show_default: val, ..*old(self) }),
            *final(self) == *final(r),
    {
        self.show_default = val;
        self
    }

    /// Sets whether the user must answer explicitly.
    ///
    /// When `false` (the default), an empty input selects the default
    /// answer.  When `true`, an empty input does nothing and the prompt
    /// keeps waiting for a letter.
    pub fn disable_default(&mut self, val: bool) -> (r: &mut Confirm<'a, T>)
        ensures
            *r == (Confirm { disable_default: val, ..*old(self) }),
            *final(self) == *final(r),
    {
        self.disable_default = val;
        self
    }

    /// The effective default communicated to the theme: the default answer
    /// when it is to be shown, nothing otherwise.
    pub fn effective_default(&self) -> (r: Option<bool>)
        ensures
            r == (if self.show_default { Some(self.default) } else { None::<bool> }),
    {
        if self.show_default {
            Some(self.default)
        } else {
            None
        }
    }

    /// Classifies one keystroke in keystroke mode.  `Some` is the resolved
    /// outcome; `None` means the character is discarded and the prompt
    /// keeps reading.
    pub fn decide_key(&self, input: char) -> (v: Option<bool>)
        ensures
            v == key_verdict(input, self.default, self.disable_default),
    {
        match input {
            'y' | 'Y' => Some(true),
            'n' | 'N' => Some(false),
            '\n' | '\r' => {
                if !self.disable_default {
                    Some(self.default)
                } else {
                    None
                }
            },
            _ => None,
        }
    }

    /// Classifies one full line in line mode.  `Some` is the resolved
    /// outcome; `None` means the line is invalid, the prompt is re-rendered
    /// and another line is read.
    pub fn decide_line(&self, line: &str) -> (v: Option<bool>)
        ensures
            v == line_verdict(line@, self.default, self.disable_default),
    {
        let n = line.unicode_len();
        let mut end: usize = n;
        proof {
            assert(line@.subrange(0, n as int) =~= line@);
        }
        while end > 0 && is_answer_ws(line.get_char(end - 1))
            invariant
                end <= n,
                n == line@.len(),
                trim_trailing_ws(line@) == trim_trailing_ws(line@.subrange(0, end as int)),
            decreases end,
        {
            proof {
                let pre = line@.subrange(0, end as int);
                assert(pre.last() == line@[end - 1]);
                assert(pre.drop_last() =~= line@.subrange(0, end as int - 1));
            }
            end = end - 1;
        }
        proof {
            let pre = line@.subrange(0, end as int);
            if end == 0 {
                assert(pre =~= Seq::<char>::empty());
            }
            assert(trim_trailing_ws(pre) == pre);
            reveal_strlit("y");
            reveal_strlit("yes");
            reveal_strlit("n");
            reveal_strlit("no");
        }
        let ghost t = normalized_answer(line@);
        proof {
            assert(t.len() == end);
            assert(forall|j: int| 0 <= j < end ==> t[j] == fold_answer_char(line@[j]));
        }
        if end == 1 {
            let c0 = fold_char(line.get_char(0));
            if c0 == 'y' {
                proof {
                    assert(t =~= "y"@);
                }
                Some(true)
            } else if c0 == 'n' {
                proof {
                    assert(t =~= "n"@);
                    assert(t[0] == 'n' && "y"@[0] == 'y');
                    assert(t != "y"@);
                }
                Some(false)
            } else {
                proof {
                    assert(t[0] == c0);
                }
                None
            }
        } else if end == 2 {
            let c0 = fold_char(line.get_char(0));
            let c1 = fold_char(line.get_char(1));
            if c0 == 'n' && c1 == 'o' {
                proof {
                    assert(t =~= "no"@);
                }
                Some(false)
            } else {
                proof {
                    assert(t[0] == c0 && t[1] == c1);
                }
                None
            }
        } else if end == 3 {
            let c0 = fold_char(line.get_char(0));
            let c1 = fold_char(line.get_char(1));
            let c2 = fold_char(line.get_char(2));
            if c0 == 'y' && c1 == 'e' && c2 == 's' {
                proof {
                    assert(t =~= "yes"@);
                }
                Some(true)
            } else {
                proof {
                    assert(t[0] == c0 && t[1] == c1 && t[2] == c2);
                }
                None
            }
        } else if end == 0 {
            if !self.disable_default {
                Some(self.default)
            } else {
                None
            }
        } else {
            None
        }
    }
}

} // verus!
