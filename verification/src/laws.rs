//! Laws of the engine, proved once and for all over the spec-level model
//! that the executable functions are verified against.

use vstd::prelude::*;
use crate::content::PortfolioContentV;
use crate::dispatch::{dispatch_spec, not_found_message, DispatchOutcomeV};
use crate::line::{AppMode, TerminalLineV};
use crate::registry::registry_spec;
use crate::content::ContentErrorV;
use crate::line::ConfirmAction;
use crate::session::{
    affirmative, arrow_down_spec, arrow_up_spec, content_failed_spec, content_loaded_spec,
    escape_spec, set_input_spec, submit_spec, tab_spec, SessionV,
};
use crate::text::{seq_eq_nocase, trim_spec};

verus! {

/// A command that matches some registry entry, case-insensitively.
pub open spec fn is_known_command(cmd: Seq<char>) -> bool {
    exists|i: int|
        0 <= i < registry_spec().len() && seq_eq_nocase(cmd, #[trigger] registry_spec()[i].name)
}

proof fn lemma_registry_names()
    ensures
        registry_spec().len() == 10,
        registry_spec()[0].name == "about"@,
        registry_spec()[1].name == "skills"@,
        registry_spec()[2].name == "projects"@,
        registry_spec()[3].name == "contact"@,
        registry_spec()[4].name == "technologies"@,
        registry_spec()[5].name == "work-experience"@,
        registry_spec()[6].name == "help"@,
        registry_spec()[7].name == "clear"@,
        registry_spec()[8].name == "restart"@,
        registry_spec()[9].name == "poweroff"@,
{
}

/// Dispatching a known command never produces an error line, and whenever it
/// produces a line at all, that line is a non-empty structured output block.
/// (The remaining known commands — `clear`, `restart`, `poweroff` — produce
/// instructions, not lines.)
pub proof fn lemma_known_command_never_errors(cmd: Seq<char>, c: PortfolioContentV)
    requires
        is_known_command(cmd),
    ensures
        !(dispatch_spec(cmd, c) matches DispatchOutcomeV::Emit(TerminalLineV::Error(_))),
        dispatch_spec(cmd, c) matches DispatchOutcomeV::Emit(l) ==> l is Output,
{
    lemma_registry_names();
    let i = choose|i: int|
        0 <= i < registry_spec().len() && seq_eq_nocase(cmd, #[trigger] registry_spec()[i].name);
}

/// Dispatching anything that matches no registry entry produces exactly one
/// error line, carrying the submitted text in its original casing.
pub proof fn lemma_unknown_command_is_error(cmd: Seq<char>, c: PortfolioContentV)
    requires
        !is_known_command(cmd),
    ensures
        dispatch_spec(cmd, c) == DispatchOutcomeV::Emit(
            TerminalLineV::Error(not_found_message(cmd)),
        ),
{
    lemma_registry_names();
}

/// A submission that trims to nothing never touches the history buffer and
/// never grows the transcript by more than one blank input echo; in `Normal`
/// mode the transcript gains exactly that echo.
pub proof fn lemma_whitespace_submission_is_inert(
    s: SessionV,
    text: Seq<char>,
    c: PortfolioContentV,
)
    requires
        trim_spec(text).len() == 0,
    ensures
        submit_spec(s, text, c).history.entries == s.history.entries,
        submit_spec(s, text, c).lines.len() <= s.lines.len() + 1,
        s.mode is Normal ==> submit_spec(s, text, c).lines == s.lines.push(
            TerminalLineV::Input(Seq::empty()),
        ),
{
    reveal_strlit("y");
    reveal_strlit("yes");
}

/// `PowerOff` is a terminal mode: once the session is powered off, no event
/// mutates it — not a submission, not a key, not typing, and not a late
/// outcome of the one-shot content load.
pub proof fn lemma_poweroff_is_terminal(
    s: SessionV,
    text: Seq<char>,
    c: PortfolioContentV,
    e: ContentErrorV,
)
    requires
        s.mode is PowerOff,
    ensures
        submit_spec(s, text, c) == s,
        arrow_up_spec(s) == s,
        arrow_down_spec(s) == s,
        tab_spec(s) == s,
        escape_spec(s) == s,
        set_input_spec(s, text) == s,
        content_loaded_spec(s, c) == s,
        content_failed_spec(s, e) == s,
{
}

/// `PowerOff` is reached only by answering the power-off confirmation
/// affirmatively: no other event moves a session into that mode.
pub proof fn lemma_poweroff_only_by_confirmation(
    s: SessionV,
    text: Seq<char>,
    c: PortfolioContentV,
    e: ContentErrorV,
)
    ensures
        submit_spec(s, text, c).mode is PowerOff ==> s.mode is PowerOff || (s.mode
            == AppMode::Confirm(ConfirmAction::PowerOff) && affirmative(trim_spec(text))),
        arrow_up_spec(s).mode == s.mode,
        arrow_down_spec(s).mode == s.mode,
        tab_spec(s).mode == s.mode,
        escape_spec(s).mode is PowerOff ==> s.mode is PowerOff,
        set_input_spec(s, text).mode == s.mode,
        content_loaded_spec(s, c).mode == s.mode,
        content_failed_spec(s, e).mode == s.mode,
{
}

/// Submitting `help` twice in a row appends two structurally identical
/// output blocks: the registry is fixed, so both list the same entries in
/// the same order.
pub proof fn lemma_help_twice_identical_outputs(s: SessionV, c: PortfolioContentV)
    requires
        s.mode is Normal,
    ensures
        ({
            let s1 = submit_spec(s, "help"@, c);
            let s2 = submit_spec(s1, "help"@, c);
            &&& s2.lines.len() == s.lines.len() + 4
            &&& s2.lines[s.lines.len() as int + 1] == s2.lines[s.lines.len() as int + 3]
            &&& s2.lines[s.lines.len() as int + 1] == TerminalLineV::Output(
                crate::line::RenderFragmentV::Help(registry_spec()),
            )
        }),
{
    reveal_strlit("help");
    assert(trim_spec("help"@) == "help"@);
    assert(seq_eq_nocase("help"@, "help"@));
}

} // verus!
