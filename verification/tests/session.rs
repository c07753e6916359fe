use dialoguer::{Confirm, TermAction, Transcript};

fn count(t: &Transcript, a: TermAction) -> usize {
    t.actions.iter().filter(|x| **x == a).count()
}

fn assert_cursor_discipline(t: &Transcript) {
    // Cursor hidden exactly once, before the first read; on a decided run
    // shown exactly once, after the last read, just before the end.
    assert_eq!(count(t, TermAction::HideCursor), 1);
    assert_eq!(t.actions[1], TermAction::HideCursor);
    let first_read = t.actions.iter().position(|x| *x == TermAction::ReadInput);
    if let Some(r) = first_read {
        assert!(r > 1);
    }
    if t.outcome.is_some() {
        assert_eq!(count(t, TermAction::ShowCursor), 1);
        let show = t.actions.iter().position(|x| *x == TermAction::ShowCursor).unwrap();
        assert_eq!(show, t.actions.len() - 2);
        let last_read = t.actions.iter().rposition(|x| *x == TermAction::ReadInput).unwrap();
        assert!(last_read < show);
    } else {
        assert_eq!(count(t, TermAction::ShowCursor), 0);
    }
}

#[test]
fn scenario_keystrokes_discard_invalid_then_accept_default() {
    // Keystroke mode, default true, show_default true: 'x' and 'q' are
    // discarded silently, the newline accepts the default.
    let c = Confirm::new();
    let t = c.interact_keys(&vec!['x', 'q', '\n']);
    assert_eq!(t.outcome, Some(true));
    assert_eq!(count(&t, TermAction::ReadInput), 3);
    assert_eq!(count(&t, TermAction::RenderConfirmed(true)), 1);
    assert_eq!(count(&t, TermAction::RenderConfirmed(false)), 0);
    assert_eq!(count(&t, TermAction::RenderPrompt), 1);
    assert_cursor_discipline(&t);
}

#[test]
fn scenario_lines_reprompt_twice_then_decline() {
    // Line mode, default false, disable_default true: the empty line and
    // "maybe" are invalid and re-render the prompt, "no" declines.
    let mut c = Confirm::new();
    c.default(false).disable_default(true).wait_for_newline(true);
    let lines = vec![String::from(""), String::from("maybe"), String::from("no")];
    let t = c.interact_lines(&lines);
    assert_eq!(t.outcome, Some(false));
    assert_eq!(count(&t, TermAction::ReadInput), 3);
    // One opening render plus one re-render per invalid line.
    assert_eq!(count(&t, TermAction::RenderPrompt), 3);
    assert_eq!(count(&t, TermAction::RenderConfirmed(false)), 1);
    assert_cursor_discipline(&t);
}

#[test]
fn scenario_keystrokes_newlines_ignored_when_default_disabled() {
    // Keystroke mode, disable_default true: the two newlines are discarded,
    // not taken as default-acceptance; 'n' declines.
    let mut c = Confirm::new();
    c.disable_default(true);
    let t = c.interact_keys(&vec!['\n', '\n', 'n']);
    assert_eq!(t.outcome, Some(false));
    assert_eq!(count(&t, TermAction::ReadInput), 3);
    assert_eq!(count(&t, TermAction::RenderConfirmed(false)), 1);
    assert_cursor_discipline(&t);
}

#[test]
fn keystroke_session_accepts_default_immediately() {
    let mut c = Confirm::new();
    let t = c.interact_keys(&vec!['\n']);
    assert_eq!(t.outcome, Some(true));
    c.default(false);
    let t = c.interact_keys(&vec!['\r']);
    assert_eq!(t.outcome, Some(false));
}

#[test]
fn line_session_accepts_default_on_empty_line() {
    let mut c = Confirm::new();
    c.wait_for_newline(true);
    let t = c.interact_lines(&vec![String::new()]);
    assert_eq!(t.outcome, Some(true));
    c.default(false);
    let t = c.interact_lines(&vec![String::new()]);
    assert_eq!(t.outcome, Some(false));
}

#[test]
fn keystroke_session_is_case_insensitive() {
    let c = Confirm::new();
    assert_eq!(c.interact_keys(&vec!['y']).outcome, Some(true));
    assert_eq!(c.interact_keys(&vec!['Y']).outcome, Some(true));
    assert_eq!(c.interact_keys(&vec!['n']).outcome, Some(false));
    assert_eq!(c.interact_keys(&vec!['N']).outcome, Some(false));
}

#[test]
fn line_session_is_case_insensitive() {
    let mut c = Confirm::new();
    c.wait_for_newline(true);
    for s in ["y", "Y", "yes", "YES"] {
        let t = c.interact_lines(&vec![String::from(s)]);
        assert_eq!(t.outcome, Some(true));
    }
    for s in ["n", "N", "no", "NO"] {
        let t = c.interact_lines(&vec![String::from(s)]);
        assert_eq!(t.outcome, Some(false));
    }
}

#[test]
fn undecided_keystroke_run_keeps_cursor_hidden() {
    let mut c = Confirm::new();
    c.disable_default(true);
    let t = c.interact_keys(&vec!['\n', '\n', '\n', 'x']);
    assert_eq!(t.outcome, None);
    assert_eq!(count(&t, TermAction::ReadInput), 4);
    assert_eq!(count(&t, TermAction::RenderConfirmed(true)), 0);
    assert_eq!(count(&t, TermAction::RenderConfirmed(false)), 0);
    assert_cursor_discipline(&t);
}

#[test]
fn undecided_line_run_reprompts_every_time() {
    let mut c = Confirm::new();
    c.wait_for_newline(true);
    let lines = vec![String::from("maybe"), String::from("later")];
    let t = c.interact_lines(&lines);
    assert_eq!(t.outcome, None);
    assert_eq!(count(&t, TermAction::ReadInput), 2);
    assert_eq!(count(&t, TermAction::RenderPrompt), 3);
    assert_cursor_discipline(&t);
}

#[test]
fn empty_input_decides_nothing() {
    let c = Confirm::new();
    let t = c.interact_keys(&Vec::new());
    assert_eq!(t.outcome, None);
    assert_eq!(
        t.actions,
        vec![TermAction::RenderPrompt, TermAction::HideCursor, TermAction::Flush]
    );
}

#[test]
fn decided_keystroke_run_has_exact_action_order() {
    let c = Confirm::new();
    let t = c.interact_keys(&vec!['q', 'y']);
    assert_eq!(t.outcome, Some(true));
    assert_eq!(
        t.actions,
        vec![
            TermAction::RenderPrompt,
            TermAction::HideCursor,
            TermAction::Flush,
            TermAction::ReadInput,
            TermAction::ReadInput,
            TermAction::ClearLine,
            TermAction::RenderConfirmed(true),
            TermAction::ShowCursor,
            TermAction::Flush,
        ]
    );
}

#[test]
fn decided_line_run_has_exact_action_order() {
    let mut c = Confirm::new();
    c.wait_for_newline(true);
    let t = c.interact_lines(&vec![String::from("what"), String::from("n")]);
    assert_eq!(t.outcome, Some(false));
    assert_eq!(
        t.actions,
        vec![
            TermAction::RenderPrompt,
            TermAction::HideCursor,
            TermAction::Flush,
            TermAction::ReadInput,
            TermAction::RenderPrompt,
            TermAction::ReadInput,
            TermAction::ClearLine,
            TermAction::RenderConfirmed(false),
            TermAction::ShowCursor,
            TermAction::Flush,
        ]
    );
}
