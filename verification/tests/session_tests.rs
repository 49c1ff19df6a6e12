use portfolio_terminal::content::{Contact, ContentError, PortfolioContent};
use portfolio_terminal::line::{AppMode, ConfirmAction, RenderFragment, TerminalLine};
use portfolio_terminal::session::Session;

fn content() -> PortfolioContent {
    PortfolioContent {
        welcome: "Welcome".to_string(),
        motd: "MOTD".to_string(),
        about: "About me".to_string(),
        skills: vec!["Rust".to_string()],
        projects: vec![],
        contact: Contact {
            email: "me@example.org".to_string(),
            github: "gh".to_string(),
            linkedin: "li".to_string(),
            twitter: "tw".to_string(),
        },
        technologies: vec![],
        work_experience: vec![],
    }
}

fn loaded_session() -> (Session, PortfolioContent) {
    let mut s = Session::new();
    let c = content();
    s.content_loaded(&c);
    (s, c)
}

#[test]
fn content_loaded_shows_welcome_and_motd() {
    let (s, _) = loaded_session();
    assert_eq!(
        s.lines,
        vec![
            TerminalLine::Output(RenderFragment::Welcome("Welcome".to_string())),
            TerminalLine::Output(RenderFragment::Motd("MOTD".to_string())),
        ]
    );
    assert_eq!(s.mode, AppMode::Normal);
}

#[test]
fn fetch_failure_renders_one_error_line() {
    let mut s = Session::new();
    s.content_failed(&ContentError::Fetch("timeout".to_string()));
    assert_eq!(
        s.lines,
        vec![TerminalLine::Error(
            "Failed to fetch content: timeout".to_string()
        )]
    );
}

#[test]
fn parse_failure_renders_one_error_line() {
    let mut s = Session::new();
    s.content_failed(&ContentError::Parse("bad field".to_string()));
    assert_eq!(
        s.lines,
        vec![TerminalLine::Error(
            "Failed to parse content: bad field".to_string()
        )]
    );
}

#[test]
fn whitespace_submission_only_echoes_one_blank_line() {
    let (mut s, c) = loaded_session();
    let before = s.lines.len();
    s.submit("   \t ", &c);
    assert_eq!(s.lines.len(), before + 1);
    assert_eq!(s.lines[before], TerminalLine::Input(String::new()));
    assert_eq!(s.history.entries.len(), 0);
    assert_eq!(s.mode, AppMode::Normal);
}

#[test]
fn submission_is_trimmed_echoed_and_recorded() {
    let (mut s, c) = loaded_session();
    s.submit("  about  ", &c);
    assert_eq!(s.history.entries, vec!["about".to_string()]);
    assert_eq!(s.lines[2], TerminalLine::Input("about".to_string()));
    assert_eq!(
        s.lines[3],
        TerminalLine::Output(RenderFragment::About("About me".to_string()))
    );
    assert_eq!(s.lines.len(), 4);
}

#[test]
fn unknown_submission_appends_echo_and_error() {
    let (mut s, c) = loaded_session();
    s.submit(" FooBar ", &c);
    assert_eq!(s.lines[2], TerminalLine::Input("FooBar".to_string()));
    assert_eq!(
        s.lines[3],
        TerminalLine::Error("Command not found: FooBar".to_string())
    );
}

#[test]
fn clear_empties_the_whole_transcript() {
    let (mut s, c) = loaded_session();
    s.submit("about", &c);
    assert!(s.lines.len() > 0);
    s.submit("clear", &c);
    assert_eq!(s.lines.len(), 0);
    assert_eq!(s.history.entries.len(), 2);
    assert_eq!(s.mode, AppMode::Normal);
}

#[test]
fn restart_echoes_then_confirms_and_yes_restores_welcome() {
    let (mut s, c) = loaded_session();
    s.submit("restart", &c);
    assert_eq!(s.lines.len(), 3);
    assert_eq!(s.lines[2], TerminalLine::Input("restart".to_string()));
    assert_eq!(s.mode, AppMode::Confirm(ConfirmAction::Restart));
    s.submit("y", &c);
    assert_eq!(s.mode, AppMode::Normal);
    assert_eq!(
        s.lines,
        vec![
            TerminalLine::Output(RenderFragment::Welcome("Welcome".to_string())),
            TerminalLine::Output(RenderFragment::Motd("MOTD".to_string())),
        ]
    );
}

#[test]
fn restart_confirmation_accepts_yes_in_any_case() {
    let (mut s, c) = loaded_session();
    s.submit("restart", &c);
    s.submit("  YES ", &c);
    assert_eq!(s.mode, AppMode::Normal);
    assert_eq!(s.lines.len(), 2);
}

#[test]
fn poweroff_declined_returns_to_normal_with_transcript_unchanged() {
    let (mut s, c) = loaded_session();
    s.submit("poweroff", &c);
    assert_eq!(s.mode, AppMode::Confirm(ConfirmAction::PowerOff));
    let lines_before = s.lines.clone();
    s.set_input("n".to_string());
    s.submit("n", &c);
    assert_eq!(s.mode, AppMode::Normal);
    assert_eq!(s.lines, lines_before);
    assert_eq!(s.input, "");
}

#[test]
fn poweroff_confirmed_freezes_the_session() {
    let (mut s, c) = loaded_session();
    s.submit("poweroff", &c);
    s.submit("y", &c);
    assert_eq!(s.mode, AppMode::PowerOff);
    let lines_before = s.lines.clone();
    s.submit("help", &c);
    s.key_arrow_up();
    s.key_arrow_down();
    s.key_tab();
    s.key_escape();
    assert_eq!(s.mode, AppMode::PowerOff);
    assert_eq!(s.lines, lines_before);
    assert_eq!(s.history.entries, vec!["poweroff".to_string()]);
}

#[test]
fn powered_off_session_ignores_typing_and_late_load_outcomes() {
    let (mut s, c) = loaded_session();
    s.submit("poweroff", &c);
    s.submit("y", &c);
    assert_eq!(s.mode, AppMode::PowerOff);
    let lines_before = s.lines.clone();
    s.set_input("still typing".to_string());
    assert_eq!(s.input, "");
    s.content_loaded(&c);
    assert_eq!(s.lines, lines_before);
    s.content_failed(&ContentError::Fetch("late timeout".to_string()));
    assert_eq!(s.lines, lines_before);
    assert_eq!(s.mode, AppMode::PowerOff);
}

#[test]
fn help_twice_appends_two_identical_output_blocks() {
    let mut s = Session::new();
    let c = content();
    s.submit("help", &c);
    s.submit("help", &c);
    assert_eq!(s.lines.len(), 4);
    assert_eq!(s.lines[0], TerminalLine::Input("help".to_string()));
    assert_eq!(s.lines[2], TerminalLine::Input("help".to_string()));
    assert_eq!(s.lines[1], s.lines[3]);
    assert!(matches!(
        s.lines[1],
        TerminalLine::Output(RenderFragment::Help(_))
    ));
}

#[test]
fn arrows_recall_history_into_the_input_buffer() {
    let (mut s, c) = loaded_session();
    s.submit("about", &c);
    s.submit("skills", &c);
    s.key_arrow_up();
    assert_eq!(s.input, "skills");
    s.key_arrow_up();
    assert_eq!(s.input, "about");
    s.key_arrow_up();
    assert_eq!(s.input, "about");
    s.key_arrow_down();
    assert_eq!(s.input, "skills");
    s.key_arrow_down();
    assert_eq!(s.input, "");
    assert_eq!(s.history.cursor, None);
}

#[test]
fn arrow_down_without_navigation_leaves_input_alone() {
    let (mut s, c) = loaded_session();
    s.submit("about", &c);
    s.set_input("typed".to_string());
    s.key_arrow_down();
    assert_eq!(s.input, "typed");
}

#[test]
fn tab_completes_pro_to_projects() {
    let (mut s, _) = loaded_session();
    s.set_input("pro".to_string());
    s.key_tab();
    assert_eq!(s.input, "projects");
}

#[test]
fn tab_leaves_unmatched_input_unchanged() {
    let (mut s, _) = loaded_session();
    s.set_input("xyz".to_string());
    s.key_tab();
    assert_eq!(s.input, "xyz");
}

#[test]
fn tab_is_case_insensitive_and_first_in_table_wins() {
    let (mut s, _) = loaded_session();
    s.set_input("P".to_string());
    s.key_tab();
    assert_eq!(s.input, "projects");
    s.set_input(String::new());
    s.key_tab();
    assert_eq!(s.input, "about");
}

#[test]
fn history_and_tab_are_suppressed_while_confirming() {
    let (mut s, c) = loaded_session();
    s.submit("about", &c);
    s.submit("restart", &c);
    assert_eq!(s.mode, AppMode::Confirm(ConfirmAction::Restart));
    s.set_input("pro".to_string());
    s.key_arrow_up();
    assert_eq!(s.input, "pro");
    s.key_tab();
    assert_eq!(s.input, "pro");
    assert_eq!(s.mode, AppMode::Confirm(ConfirmAction::Restart));
}

#[test]
fn escape_cancels_a_confirmation_prompt() {
    let (mut s, c) = loaded_session();
    s.submit("poweroff", &c);
    let lines_before = s.lines.clone();
    s.set_input("maybe".to_string());
    s.key_escape();
    assert_eq!(s.mode, AppMode::Normal);
    assert_eq!(s.input, "");
    assert_eq!(s.lines, lines_before);
}

#[test]
fn escape_in_normal_mode_does_nothing() {
    let (mut s, _) = loaded_session();
    s.set_input("abc".to_string());
    s.key_escape();
    assert_eq!(s.mode, AppMode::Normal);
    assert_eq!(s.input, "abc");
}

#[test]
fn commands_work_against_the_empty_default_content() {
    let mut s = Session::new();
    let c = PortfolioContent::empty();
    s.submit("about", &c);
    assert_eq!(s.lines[0], TerminalLine::Input("about".to_string()));
    assert_eq!(
        s.lines[1],
        TerminalLine::Output(RenderFragment::About(String::new()))
    );
}
