//! One whole interaction, modelled over recorded input.
//!
//! The interaction loop alternates terminal work (rendering, cursor
//! control, reading) with decisions.  The decisions are verified here: a
//! run over a recorded sequence of input events yields the outcome and the
//! exact sequence of terminal actions the loop performs, so the invariants
//! of a session — one cursor hide before the first read, one cursor show
//! before a successful return — are stated and proved over that sequence.

use vstd::prelude::*;
use crate::confirm::{key_verdict, line_verdict, Confirm};
use crate::theme::Theme;

verus! {

/// One terminal action of the interaction loop, in the order performed.
/// Rendering is delegated to the theme; reading to the terminal.
#[derive(PartialEq, Eq, Structural, Clone, Copy, Debug)]
pub enum TermAction {
    /// The theme renders the initial prompt line.
    RenderPrompt,
    /// The cursor is hidden.
    HideCursor,
    /// Pending output is flushed.
    Flush,
    /// One input event is read: a keystroke or a full line.
    ReadInput,
    /// The current input line is cleared.
    ClearLine,
    /// The theme renders the final line for the resolved outcome.
    RenderConfirmed(bool),
    /// The cursor is shown again.
    ShowCursor,
}

/// The record of one interaction run over recorded input: the outcome, if
/// the input decided one, and every terminal action in order.
pub struct Transcript {
    /// `Some` once a definitive answer was reached; `None` when the
    /// recorded input ran out first (a live loop would keep reading).
    pub outcome: Option<bool>,
    /// The terminal actions of the run, in order.
    pub actions: Vec<TermAction>,
}

/// The actions before the first read: the prompt is rendered, the cursor
/// hidden, output flushed.
pub open spec fn opening_actions() -> Seq<TermAction> {
    seq![TermAction::RenderPrompt, TermAction::HideCursor, TermAction::Flush]
}

/// The actions once an outcome is reached: the input line is cleared, the
/// confirmed line rendered, the cursor shown again, output flushed.
pub open spec fn closing_actions(outcome: bool) -> Seq<TermAction> {
    seq![
        TermAction::ClearLine,
        TermAction::RenderConfirmed(outcome),
        TermAction::ShowCursor,
        TermAction::Flush,
    ]
}

/// `n` reads in a row: keystroke mode consumes invalid input silently.
pub open spec fn read_seq(n: nat) -> Seq<TermAction> {
    Seq::new(n, |i: int| TermAction::ReadInput)
}

/// `n` invalid lines in a row: line mode re-renders the prompt after each.
pub open spec fn retry_seq(n: nat) -> Seq<TermAction>
    decreases n,
{
    if n == 0 {
        Seq::empty()
    } else {
        retry_seq((n - 1) as nat) + seq![TermAction::ReadInput, TermAction::RenderPrompt]
    }
}

/// The outcome a keystroke-mode session reaches on `keys`: the verdict of
/// the first key that has one, or none if no key decides.
pub open spec fn keys_outcome(keys: Seq<char>, default: bool, disable_default: bool) -> Option<
    bool,
>
    decreases keys.len(),
{
    if keys.len() == 0 {
        None
    } else {
        match key_verdict(keys.first(), default, disable_default) {
            Some(v) => Some(v),
            None => keys_outcome(keys.drop_first(), default, disable_default),
        }
    }
}

/// How many keys a keystroke-mode session reads from `keys`: every key up
/// to and including the first one with a verdict.
pub open spec fn keys_consumed(keys: Seq<char>, default: bool, disable_default: bool) -> nat
    decreases keys.len(),
{
    if keys.len() == 0 {
        0
    } else if key_verdict(keys.first(), default, disable_default) is Some {
        1
    } else {
        1 + keys_consumed(keys.drop_first(), default, disable_default)
    }
}

/// The actions of the keystroke-mode input loop on `keys`: one read per
/// key until a verdict, then the closing actions.
pub open spec fn keys_loop_actions(
    keys: Seq<char>,
    default: bool,
    disable_default: bool,
) -> Seq<TermAction>
    decreases keys.len(),
{
    if keys.len() == 0 {
        Seq::empty()
    } else {
        match key_verdict(keys.first(), default, disable_default) {
            Some(v) => seq![TermAction::ReadInput] + closing_actions(v),
            None => seq![TermAction::ReadInput] + keys_loop_actions(
                keys.drop_first(),
                default,
                disable_default,
            ),
        }
    }
}

/// Every action of a keystroke-mode session over `keys`, in order.
pub open spec fn keys_session_actions(
    keys: Seq<char>,
    default: bool,
    disable_default: bool,
) -> Seq<TermAction> {
    opening_actions() + keys_loop_actions(keys, default, disable_default)
}

/// The outcome a line-mode session reaches on `lines`: the verdict of the
/// first line that has one, or none if no line decides.
pub open spec fn lines_outcome(
    lines: Seq<Seq<char>>,
    default: bool,
    disable_default: bool,
) -> Option<bool>
    decreases lines.len(),
{
    if lines.len() == 0 {
        None
    } else {
        match line_verdict(lines.first(), default, disable_default) {
            Some(v) => Some(v),
            None => lines_outcome(lines.drop_first(), default, disable_default),
        }
    }
}

/// How many lines a line-mode session reads from `lines`: every line up to
/// and including the first one with a verdict.
pub open spec fn lines_consumed(lines: Seq<Seq<char>>, default: bool, disable_default: bool) -> nat
    decreases lines.len(),
{
    if lines.len() == 0 {
        0
    } else if line_verdict(lines.first(), default, disable_default) is Some {
        1
    } else {
        1 + lines_consumed(lines.drop_first(), default, disable_default)
    }
}

/// The actions of the line-mode input loop on `lines`: after every invalid
/// line the prompt is rendered again, then the first valid line is followed
/// by the closing actions.
pub open spec fn lines_loop_actions(
    lines: Seq<Seq<char>>,
    default: bool,
    disable_default: bool,
) -> Seq<TermAction>
    decreases lines.len(),
{
    if lines.len() == 0 {
        Seq::empty()
    } else {
        match line_verdict(lines.first(), default, disable_default) {
            Some(v) => seq![TermAction::ReadInput] + closing_actions(v),
            None => seq![TermAction::ReadInput, TermAction::RenderPrompt] + lines_loop_actions(
                lines.drop_first(),
                default,
                disable_default,
            ),
        }
    }
}

/// Every action of a line-mode session over `lines`, in order.
pub open spec fn lines_session_actions(
    lines: Seq<Seq<char>>,
    default: bool,
    disable_default: bool,
) -> Seq<TermAction> {
    opening_actions() + lines_loop_actions(lines, default, disable_default)
}

impl<'a, T: Theme> Confirm<'a, T> {
    /// Runs one keystroke-mode interaction against the recorded keystrokes
    /// `keys`, in the order the terminal would deliver them.  Returns the
    /// outcome — none if the keys ran out before a verdict; a live session
    /// would keep reading — and the exact terminal actions of the run.
    pub fn interact_keys(&self, keys: &Vec<char>) -> (t: Transcript)
        requires
            !self.wait_for_newline,
        ensures
            t.outcome == keys_outcome(keys@, self.default, self.disable_default),
            t.actions@ == keys_session_actions(keys@, self.default, self.disable_default),
    {
        let ghost d = self.default;
        let ghost dis = self.disable_default;
        let mut actions: Vec<TermAction> = Vec::new();
        actions.push(TermAction::RenderPrompt);
        actions.push(TermAction::HideCursor);
        actions.push(TermAction::Flush);
        proof {
            assert(actions@ =~= opening_actions() + read_seq(0));
            assert(keys@.skip(0) =~= keys@);
        }
        let mut i: usize = 0;
        while i < keys.len()
            invariant
                i <= keys@.len(),
                d == self.default,
                dis == self.disable_default,
                actions@ == opening_actions() + read_seq(i as nat),
                keys_outcome(keys@, d, dis) == keys_outcome(keys@.skip(i as int), d, dis),
                keys_loop_actions(keys@, d, dis) == read_seq(i as nat) + keys_loop_actions(
                    keys@.skip(i as int),
                    d,
                    dis,
                ),
            decreases keys@.len() - i,
        {
            actions.push(TermAction::ReadInput);
            let v = self.decide_key(keys[i]);
            proof {
                assert(keys@.skip(i as int).first() == keys@[i as int]);
                assert(keys@.skip(i as int).drop_first() =~= keys@.skip(i as int + 1));
            }
            match v {
                Some(rv) => {
                    actions.push(TermAction::ClearLine);
                    actions.push(TermAction::RenderConfirmed(rv));
                    actions.push(TermAction::ShowCursor);
                    actions.push(TermAction::Flush);
                    proof {
                        assert(keys_loop_actions(keys@.skip(i as int), d, dis) == seq![
                            TermAction::ReadInput,
                        ] + closing_actions(rv));
                        assert(actions@ =~= keys_session_actions(keys@, d, dis));
                    }
                    return Transcript { outcome: Some(rv), actions };
                },
                None => {
                    proof {
                        assert(actions@ =~= opening_actions() + read_seq((i + 1) as nat));
                        assert(keys_loop_actions(keys@.skip(i as int), d, dis) == seq![
                            TermAction::ReadInput,
                        ] + keys_loop_actions(keys@.skip(i as int + 1), d, dis));
                        assert(read_seq(i as nat) + (seq![TermAction::ReadInput]
                            + keys_loop_actions(keys@.skip(i as int + 1), d, dis)) =~= read_seq(
                            (i + 1) as nat,
                        ) + keys_loop_actions(keys@.skip(i as int + 1), d, dis));
                    }
                    i = i + 1;
                },
            }
        }
        proof {
            assert(keys@.skip(i as int) =~= Seq::<char>::empty());
            assert(actions@ =~= keys_session_actions(keys@, d, dis));
        }
        Transcript { outcome: None, actions }
    }

    /// Runs one line-mode interaction against the recorded input lines
    /// `lines`, in the order the terminal would deliver them.  Returns the
    /// outcome — none if the lines ran out before a verdict; a live session
    /// would keep reading — and the exact terminal actions of the run.
    pub fn interact_lines(&self, lines: &Vec<String>) -> (t: Transcript)
        requires
            self.wait_for_newline,
        ensures
            t.outcome == lines_outcome(lines.deep_view(), self.default, self.disable_default),
            t.actions@ == lines_session_actions(
                lines.deep_view(),
                self.default,
                self.disable_default,
            ),
    {
        let ghost d = self.default;
        let ghost dis = self.disable_default;
        let ghost ls = lines.deep_view();
        let mut actions: Vec<TermAction> = Vec::new();
        actions.push(TermAction::RenderPrompt);
        actions.push(TermAction::HideCursor);
        actions.push(TermAction::Flush);
        proof {
            assert(actions@ =~= opening_actions() + retry_seq(0));
            assert(ls.skip(0) =~= ls);
        }
        let mut i: usize = 0;
        while i < lines.len()
            invariant
                i <= lines@.len(),
                d == self.default,
                dis == self.disable_default,
                ls == lines.deep_view(),
                ls.len() == lines@.len(),
                actions@ == opening_actions() + retry_seq(i as nat),
                lines_outcome(ls, d, dis) == lines_outcome(ls.skip(i as int), d, dis),
                lines_loop_actions(ls, d, dis) == retry_seq(i as nat) + lines_loop_actions(
                    ls.skip(i as int),
                    d,
                    dis,
                ),
            decreases lines@.len() - i,
        {
            actions.push(TermAction::ReadInput);
            let line: &String = &lines[i];
            let v = self.decide_line(line.as_str());
            proof {
                assert(ls[i as int] == lines@[i as int]@);
                assert(ls.skip(i as int).first() == ls[i as int]);
                assert(ls.skip(i as int).drop_first() =~= ls.skip(i as int + 1));
            }
            match v {
                Some(rv) => {
                    actions.push(TermAction::ClearLine);
                    actions.push(TermAction::RenderConfirmed(rv));
                    actions.push(TermAction::ShowCursor);
                    actions.push(TermAction::Flush);
                    proof {
                        assert(lines_loop_actions(ls.skip(i as int), d, dis) == seq![
                            TermAction::ReadInput,
                        ] + closing_actions(rv));
                        assert(actions@ =~= lines_session_actions(ls, d, dis));
                    }
                    return Transcript { outcome: Some(rv), actions };
                },
                None => {
                    actions.push(TermAction::RenderPrompt);
                    proof {
                        assert(actions@ =~= opening_actions() + retry_seq((i + 1) as nat));
                        assert(lines_loop_actions(ls.skip(i as int), d, dis) == seq![
                            TermAction::ReadInput,
                            TermAction::RenderPrompt,
                        ] + lines_loop_actions(ls.skip(i as int + 1), d, dis));
                        assert(retry_seq(i as nat) + (seq![
                            TermAction::ReadInput,
                            TermAction::RenderPrompt,
                        ] + lines_loop_actions(ls.skip(i as int + 1), d, dis)) =~= retry_seq(
                            (i + 1) as nat,
                        ) + lines_loop_actions(ls.skip(i as int + 1), d, dis));
                    }
                    i = i + 1;
                },
            }
        }
        proof {
            assert(ls.skip(i as int) =~= Seq::<Seq<char>>::empty());
            assert(actions@ =~= lines_session_actions(ls, d, dis));
        }
        Transcript { outcome: None, actions }
    }
}

/// Law: invalid keystrokes are consumed, never decide: a session over
/// invalid keys followed by more keys reads every invalid key and then
/// behaves exactly as the session over the remainder alone.
pub proof fn lemma_keys_invalid_prefix(
    prefix: Seq<char>,
    rest: Seq<char>,
    default: bool,
    disable_default: bool,
)
    requires
        forall|i: int| 0 <= i < prefix.len() ==> key_verdict(
            prefix[i],
            default,
            disable_default,
        ) is None,
    ensures
        keys_outcome(prefix + rest, default, disable_default) == keys_outcome(
            rest,
            default,
            disable_default,
        ),
        keys_consumed(prefix + rest, default, disable_default) == prefix.len() + keys_consumed(
            rest,
            default,
            disable_default,
        ),
    decreases prefix.len(),
{
    if prefix.len() == 0 {
        assert(prefix + rest =~= rest);
    } else {
        assert((prefix + rest).first() == prefix[0]);
        assert((prefix + rest).drop_first() =~= prefix.drop_first() + rest);
        assert(forall|i: int| 0 <= i < prefix.drop_first().len() ==> key_verdict(
            prefix.drop_first()[i],
            default,
            disable_default,
        ) is None);
        lemma_keys_invalid_prefix(prefix.drop_first(), rest, default, disable_default);
    }
}

/// Law: invalid lines are consumed, never decide: a session over invalid
/// lines followed by more lines re-prompts after every invalid line and
/// then behaves exactly as the session over the remainder alone.
pub proof fn lemma_lines_invalid_prefix(
    prefix: Seq<Seq<char>>,
    rest: Seq<Seq<char>>,
    default: bool,
    disable_default: bool,
)
    requires
        forall|i: int| 0 <= i < prefix.len() ==> line_verdict(
            prefix[i],
            default,
            disable_default,
        ) is None,
    ensures
        lines_outcome(prefix + rest, default, disable_default) == lines_outcome(
            rest,
            default,
            disable_default,
        ),
        lines_consumed(prefix + rest, default, disable_default) == prefix.len() + lines_consumed(
            rest,
            default,
            disable_default,
        ),
    decreases prefix.len(),
{
    if prefix.len() == 0 {
        assert(prefix + rest =~= rest);
    } else {
        assert((prefix + rest).first() == prefix[0]);
        assert((prefix + rest).drop_first() =~= prefix.drop_first() + rest);
        assert(forall|i: int| 0 <= i < prefix.drop_first().len() ==> line_verdict(
            prefix.drop_first()[i],
            default,
            disable_default,
        ) is None);
        lemma_lines_invalid_prefix(prefix.drop_first(), rest, default, disable_default);
    }
}

proof fn lemma_keys_loop_shape(keys: Seq<char>, default: bool, disable_default: bool)
    ensures
        keys_outcome(keys, default, disable_default) is Some ==> keys_loop_actions(
            keys,
            default,
            disable_default,
        ) =~= read_seq(keys_consumed(keys, default, disable_default)) + closing_actions(
            keys_outcome(keys, default, disable_default)->0,
        ),
        keys_outcome(keys, default, disable_default) is None ==> keys_loop_actions(
            keys,
            default,
            disable_default,
        ) =~= read_seq(keys.len()),
    decreases keys.len(),
{
    if keys.len() > 0 {
        let tail = keys.drop_first();
        match key_verdict(keys.first(), default, disable_default) {
            Some(v) => {
                assert(seq![TermAction::ReadInput] =~= read_seq(1));
            },
            None => {
                lemma_keys_loop_shape(tail, default, disable_default);
                if keys_outcome(keys, default, disable_default) is Some {
                    let c2 = keys_consumed(tail, default, disable_default);
                    let v = keys_outcome(tail, default, disable_default)->0;
                    assert(seq![TermAction::ReadInput] + (read_seq(c2) + closing_actions(v))
                        =~= read_seq(c2 + 1) + closing_actions(v));
                } else {
                    assert(seq![TermAction::ReadInput] + read_seq(tail.len()) =~= read_seq(
                        keys.len(),
                    ));
                }
            },
        }
    }
}

proof fn lemma_retry_seq_elems(n: nat)
    ensures
        retry_seq(n).len() == 2 * n,
        forall|j: int| 0 <= j < 2 * n ==> (retry_seq(n)[j] == TermAction::ReadInput || retry_seq(
            n,
        )[j] == TermAction::RenderPrompt),
    decreases n,
{
    if n > 0 {
        lemma_retry_seq_elems((n - 1) as nat);
    }
}

proof fn lemma_lines_loop_shape(lines: Seq<Seq<char>>, default: bool, disable_default: bool)
    ensures
        lines_outcome(lines, default, disable_default) is Some ==> lines_consumed(
            lines,
            default,
            disable_default,
        ) >= 1,
        lines_outcome(lines, default, disable_default) is Some ==> lines_loop_actions(
            lines,
            default,
            disable_default,
        ) =~= retry_seq((lines_consumed(lines, default, disable_default) - 1) as nat) + (seq![
            TermAction::ReadInput,
        ] + closing_actions(lines_outcome(lines, default, disable_default)->0)),
        lines_outcome(lines, default, disable_default) is None ==> lines_loop_actions(
            lines,
            default,
            disable_default,
        ) =~= retry_seq(lines.len()),
    decreases lines.len(),
{
    if lines.len() > 0 {
        let tail = lines.drop_first();
        match line_verdict(lines.first(), default, disable_default) {
            Some(v) => {
                assert(retry_seq(0) =~= Seq::<TermAction>::empty());
            },
            None => {
                lemma_lines_loop_shape(tail, default, disable_default);
                if lines_outcome(lines, default, disable_default) is Some {
                    let c2 = lines_consumed(tail, default, disable_default);
                    let v = lines_outcome(tail, default, disable_default)->0;
                    assert(retry_seq(c2 as nat) == retry_seq(((c2 + 1) - 1) as nat));
                    assert(seq![TermAction::ReadInput, TermAction::RenderPrompt] + (retry_seq(
                        (c2 - 1) as nat,
                    ) + (seq![TermAction::ReadInput] + closing_actions(v))) =~= (seq![
                        TermAction::ReadInput,
                        TermAction::RenderPrompt,
                    ] + retry_seq((c2 - 1) as nat)) + (seq![TermAction::ReadInput]
                        + closing_actions(v)));
                    lemma_retry_cons((c2 - 1) as nat);
                } else {
                    lemma_retry_cons(tail.len());
                    assert(seq![TermAction::ReadInput, TermAction::RenderPrompt] + retry_seq(
                        tail.len(),
                    ) =~= retry_seq(lines.len()));
                }
            },
        }
    }
}

proof fn lemma_retry_cons(n: nat)
    ensures
        seq![TermAction::ReadInput, TermAction::RenderPrompt] + retry_seq(n) =~= retry_seq(n + 1),
    decreases n,
{
    if n > 0 {
        lemma_retry_cons((n - 1) as nat);
        assert(retry_seq(n + 1) == retry_seq(n) + seq![
            TermAction::ReadInput,
            TermAction::RenderPrompt,
        ]);
        assert(seq![TermAction::ReadInput, TermAction::RenderPrompt] + retry_seq(n) =~= (seq![
            TermAction::ReadInput,
            TermAction::RenderPrompt,
        ] + retry_seq((n - 1) as nat)) + seq![TermAction::ReadInput, TermAction::RenderPrompt]);
    }
}

/// Law: across any decided keystroke-mode session the cursor is hidden
/// exactly once, before the first read, and shown exactly once, after the
/// last read and just before the session ends; a session that reaches no
/// outcome never shows the cursor again.
pub proof fn lemma_cursor_discipline_keys(keys: Seq<char>, default: bool, disable_default: bool)
    ensures
        ({
            let a = keys_session_actions(keys, default, disable_default);
            &&& forall|i: int| 0 <= i < a.len() ==> ((a[i] == TermAction::HideCursor) <==> i == 1)
            &&& (keys_outcome(keys, default, disable_default) is Some ==> forall|i: int|
                0 <= i < a.len() ==> ((a[i] == TermAction::ShowCursor) <==> i == a.len() - 2))
            &&& (keys_outcome(keys, default, disable_default) is Some ==> forall|i: int|
                0 <= i < a.len() && a[i] == TermAction::ReadInput ==> 1 < i < a.len() - 2)
            &&& (keys_outcome(keys, default, disable_default) is None ==> forall|i: int|
                0 <= i < a.len() ==> a[i] != TermAction::ShowCursor)
        }),
{
    lemma_keys_loop_shape(keys, default, disable_default);
}

/// Law: across any decided line-mode session the cursor is hidden exactly
/// once, before the first read, and shown exactly once, after the last
/// read and just before the session ends, however many re-prompts came in
/// between; a session that reaches no outcome never shows the cursor again.
pub proof fn lemma_cursor_discipline_lines(
    lines: Seq<Seq<char>>,
    default: bool,
    disable_default: bool,
)
    ensures
        ({
            let a = lines_session_actions(lines, default, disable_default);
            &&& forall|i: int| 0 <= i < a.len() ==> ((a[i] == TermAction::HideCursor) <==> i == 1)
            &&& (lines_outcome(lines, default, disable_default) is Some ==> forall|i: int|
                0 <= i < a.len() ==> ((a[i] == TermAction::ShowCursor) <==> i == a.len() - 2))
            &&& (lines_outcome(lines, default, disable_default) is Some ==> forall|i: int|
                0 <= i < a.len() && a[i] == TermAction::ReadInput ==> 1 < i < a.len() - 2)
            &&& (lines_outcome(lines, default, disable_default) is None ==> forall|i: int|
                0 <= i < a.len() ==> a[i] != TermAction::ShowCursor)
        }),
{
    lemma_lines_loop_shape(lines, default, disable_default);
    if lines_outcome(lines, default, disable_default) is Some {
        lemma_retry_seq_elems((lines_consumed(lines, default, disable_default) - 1) as nat);
    } else {
        lemma_retry_seq_elems(lines.len());
    }
}

} // verus!
