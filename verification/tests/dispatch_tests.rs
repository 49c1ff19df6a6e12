use portfolio_terminal::content::{Contact, PortfolioContent, Project, WorkExperience};
use portfolio_terminal::dispatch::{dispatch, DispatchOutcome};
use portfolio_terminal::line::{ConfirmAction, RenderFragment, TerminalLine};
use portfolio_terminal::registry::registry;

fn sample_content() -> PortfolioContent {
    PortfolioContent {
        welcome: "Welcome".to_string(),
        motd: "MOTD".to_string(),
        about: "About me".to_string(),
        skills: vec!["Rust".to_string(), "Verification".to_string()],
        projects: vec![Project {
            title: "Terminal".to_string(),
            description: "A portfolio terminal".to_string(),
            url: "https://example.org".to_string(),
        }],
        contact: Contact {
            email: "me@example.org".to_string(),
            github: "gh".to_string(),
            linkedin: "li".to_string(),
            twitter: "tw".to_string(),
        },
        technologies: vec!["Linux".to_string()],
        work_experience: vec![WorkExperience {
            company: "Acme".to_string(),
            role: "Engineer".to_string(),
            period: "2020-2022".to_string(),
            description: "Built things".to_string(),
        }],
    }
}

#[test]
fn test_commands_list() {
    let table = registry();
    assert!(table.iter().any(|e| e.name == "help"));
    assert!(table.iter().any(|e| e.name == "about"));
    assert!(table.iter().any(|e| e.name == "clear"));
}

#[test]
fn registry_order_is_fixed() {
    let names: Vec<String> = registry().into_iter().map(|e| e.name).collect();
    assert_eq!(
        names,
        vec![
            "about",
            "skills",
            "projects",
            "contact",
            "technologies",
            "work-experience",
            "help",
            "clear",
            "restart",
            "poweroff"
        ]
    );
}

#[test]
fn every_known_command_yields_output_never_error() {
    let c = sample_content();
    for name in [
        "about",
        "skills",
        "projects",
        "contact",
        "technologies",
        "work-experience",
        "help",
    ] {
        match dispatch(name, &c) {
            DispatchOutcome::Emit(TerminalLine::Output(_)) => {}
            other => panic!("{} gave {:?}", name, other),
        }
    }
    assert_eq!(dispatch("clear", &c), DispatchOutcome::ClearScreen);
    assert_eq!(
        dispatch("restart", &c),
        DispatchOutcome::BeginConfirm(ConfirmAction::Restart)
    );
    assert_eq!(
        dispatch("poweroff", &c),
        DispatchOutcome::BeginConfirm(ConfirmAction::PowerOff)
    );
}

#[test]
fn dispatch_is_case_insensitive() {
    let c = sample_content();
    match dispatch("HELP", &c) {
        DispatchOutcome::Emit(TerminalLine::Output(RenderFragment::Help(entries))) => {
            assert_eq!(entries.len(), 10);
        }
        other => panic!("HELP gave {:?}", other),
    }
    match dispatch("About", &c) {
        DispatchOutcome::Emit(TerminalLine::Output(RenderFragment::About(text))) => {
            assert_eq!(text, "About me");
        }
        other => panic!("About gave {:?}", other),
    }
    assert_eq!(dispatch("CLEAR", &c), DispatchOutcome::ClearScreen);
}

#[test]
fn dispatch_carries_content_verbatim() {
    let c = sample_content();
    match dispatch("skills", &c) {
        DispatchOutcome::Emit(TerminalLine::Output(RenderFragment::Skills(items))) => {
            assert_eq!(items, vec!["Rust".to_string(), "Verification".to_string()]);
        }
        other => panic!("skills gave {:?}", other),
    }
    match dispatch("projects", &c) {
        DispatchOutcome::Emit(TerminalLine::Output(RenderFragment::Projects(items))) => {
            assert_eq!(items.len(), 1);
            assert_eq!(items[0].title, "Terminal");
            assert_eq!(items[0].description, "A portfolio terminal");
            assert_eq!(items[0].url, "https://example.org");
        }
        other => panic!("projects gave {:?}", other),
    }
    match dispatch("contact", &c) {
        DispatchOutcome::Emit(TerminalLine::Output(RenderFragment::ContactCard(card))) => {
            assert_eq!(card.email, "me@example.org");
            assert_eq!(card.github, "gh");
            assert_eq!(card.linkedin, "li");
            assert_eq!(card.twitter, "tw");
        }
        other => panic!("contact gave {:?}", other),
    }
    match dispatch("work-experience", &c) {
        DispatchOutcome::Emit(TerminalLine::Output(RenderFragment::WorkHistory(items))) => {
            assert_eq!(items.len(), 1);
            assert_eq!(items[0].company, "Acme");
            assert_eq!(items[0].role, "Engineer");
        }
        other => panic!("work-experience gave {:?}", other),
    }
}

#[test]
fn unknown_command_is_exactly_one_error_with_original_casing() {
    let c = sample_content();
    match dispatch("FooBar", &c) {
        DispatchOutcome::Emit(TerminalLine::Error(msg)) => {
            assert_eq!(msg, "Command not found: FooBar");
        }
        other => panic!("FooBar gave {:?}", other),
    }
}

#[test]
fn abbreviations_do_not_dispatch() {
    let c = sample_content();
    match dispatch("hel", &c) {
        DispatchOutcome::Emit(TerminalLine::Error(msg)) => {
            assert_eq!(msg, "Command not found: hel");
        }
        other => panic!("hel gave {:?}", other),
    }
}

#[test]
fn help_lists_every_entry_in_registry_order() {
    let c = sample_content();
    match dispatch("help", &c) {
        DispatchOutcome::Emit(TerminalLine::Output(RenderFragment::Help(entries))) => {
            assert_eq!(entries, registry());
        }
        other => panic!("help gave {:?}", other),
    }
}
