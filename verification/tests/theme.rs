use dialoguer::{SimpleTheme, Theme};

#[test]
fn prompt_shows_the_default_uppercased() {
    let theme = SimpleTheme;
    assert_eq!(theme.prompt_text("Continue?", Some(true)), "Continue? [Y/n] ");
    assert_eq!(theme.prompt_text("Continue?", Some(false)), "Continue? [y/N] ");
    assert_eq!(theme.prompt_text("Continue?", None), "Continue? [y/n] ");
}

#[test]
fn empty_prompt_renders_only_the_hint() {
    let theme = SimpleTheme;
    assert_eq!(theme.prompt_text("", Some(true)), "[Y/n] ");
    assert_eq!(theme.prompt_text("", None), "[y/n] ");
}

#[test]
fn confirmed_line_spells_the_answer_out() {
    let theme = SimpleTheme;
    assert_eq!(theme.confirmed_text("Continue?", true), "Continue? yes");
    assert_eq!(theme.confirmed_text("Continue?", false), "Continue? no");
    assert_eq!(theme.confirmed_text("", true), "yes");
    assert_eq!(theme.confirmed_text("", false), "no");
}

#[test]
fn trait_operations_match_the_plain_renderers() {
    let theme = SimpleTheme;
    assert_eq!(
        Theme::format_prompt(&theme, "Ok?", Some(false)),
        theme.prompt_text("Ok?", Some(false))
    );
    assert_eq!(Theme::format_confirmed(&theme, "Ok?", true), theme.confirmed_text("Ok?", true));
}
