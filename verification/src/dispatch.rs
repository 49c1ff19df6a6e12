//! The command dispatcher: a pure mapping from a submitted command and the
//! current content snapshot to a transcript line or a session instruction.

use vstd::prelude::*;
use vstd::string::*;
use crate::content::{clone_projects, clone_strings, clone_work, PortfolioContent, PortfolioContentV};
use crate::line::{ConfirmAction, RenderFragment, RenderFragmentV, TerminalLine, TerminalLineV};
use crate::registry::{registry, registry_spec};
use crate::text::{seq_eq_nocase, str_eq_nocase};

verus! {

/// What the dispatcher asks the session to do.
#[derive(PartialEq, Debug)]
pub enum DispatchOutcome {
    /// Append this line to the transcript.
    Emit(TerminalLine),
    /// Replace the transcript with the empty sequence.
    ClearScreen,
    /// Enter confirmation mode for a destructive action.
    BeginConfirm(ConfirmAction),
}

/// Mathematical value of a [`DispatchOutcome`].
pub enum DispatchOutcomeV {
    Emit(TerminalLineV),
    ClearScreen,
    BeginConfirm(ConfirmAction),
}

impl View for DispatchOutcome {
    type V = DispatchOutcomeV;

    open spec fn view(&self) -> DispatchOutcomeV {
        match self {
            DispatchOutcome::Emit(l) => DispatchOutcomeV::Emit(l@),
            DispatchOutcome::ClearScreen => DispatchOutcomeV::ClearScreen,
            DispatchOutcome::BeginConfirm(a) => DispatchOutcomeV::BeginConfirm(*a),
        }
    }
}

/// The error line shown for a command that matches no registry entry. It
/// carries the submitted text in its original casing.
pub open spec fn not_found_message(cmd: Seq<char>) -> Seq<char> {
    "Command not found: "@ + cmd
}

/// The dispatch table: a case-insensitive, exact match of the trimmed
/// submission against the ten known names. Seven commands emit one output
/// block each; `clear`, `restart` and `poweroff` become instructions; any
/// other text becomes one error line.
pub open spec fn dispatch_spec(cmd: Seq<char>, c: PortfolioContentV) -> DispatchOutcomeV {
    if seq_eq_nocase(cmd, "help"@) {
        DispatchOutcomeV::Emit(TerminalLineV::Output(RenderFragmentV::Help(registry_spec())))
    } else if seq_eq_nocase(cmd, "about"@) {
        DispatchOutcomeV::Emit(TerminalLineV::Output(RenderFragmentV::About(c.about)))
    } else if seq_eq_nocase(cmd, "skills"@) {
        DispatchOutcomeV::Emit(TerminalLineV::Output(RenderFragmentV::Skills(c.skills)))
    } else if seq_eq_nocase(cmd, "projects"@) {
        DispatchOutcomeV::Emit(TerminalLineV::Output(RenderFragmentV::Projects(c.projects)))
    } else if seq_eq_nocase(cmd, "contact"@) {
        DispatchOutcomeV::Emit(TerminalLineV::Output(RenderFragmentV::ContactCard(c.contact)))
    } else if seq_eq_nocase(cmd, "technologies"@) {
        DispatchOutcomeV::Emit(
            TerminalLineV::Output(RenderFragmentV::Technologies(c.technologies)),
        )
    } else if seq_eq_nocase(cmd, "work-experience"@) {
        DispatchOutcomeV::Emit(
            TerminalLineV::Output(RenderFragmentV::WorkHistory(c.work_experience)),
        )
    } else if seq_eq_nocase(cmd, "clear"@) {
        DispatchOutcomeV::ClearScreen
    } else if seq_eq_nocase(cmd, "restart"@) {
        DispatchOutcomeV::BeginConfirm(ConfirmAction::Restart)
    } else if seq_eq_nocase(cmd, "poweroff"@) {
        DispatchOutcomeV::BeginConfirm(ConfirmAction::PowerOff)
    } else {
        DispatchOutcomeV::Emit(TerminalLineV::Error(not_found_message(cmd)))
    }
}

/// Dispatches a trimmed submission against the registry. Matching is
/// case-insensitive and exact: no abbreviation runs a command.
pub fn dispatch(cmd: &str, content: &PortfolioContent) -> (r: DispatchOutcome)
    ensures
        r@ == dispatch_spec(cmd@, content@),
{
    if str_eq_nocase(cmd, "help") {
        DispatchOutcome::Emit(TerminalLine::Output(RenderFragment::Help(registry())))
    } else if str_eq_nocase(cmd, "about") {
        DispatchOutcome::Emit(TerminalLine::Output(RenderFragment::About(content.about.clone())))
    } else if str_eq_nocase(cmd, "skills") {
        DispatchOutcome::Emit(
            TerminalLine::Output(RenderFragment::Skills(clone_strings(&content.skills))),
        )
    } else if str_eq_nocase(cmd, "projects") {
        DispatchOutcome::Emit(
            TerminalLine::Output(RenderFragment::Projects(clone_projects(&content.projects))),
        )
    } else if str_eq_nocase(cmd, "contact") {
        DispatchOutcome::Emit(
            TerminalLine::Output(RenderFragment::ContactCard(content.contact.clone())),
        )
    } else if str_eq_nocase(cmd, "technologies") {
        DispatchOutcome::Emit(
            TerminalLine::Output(
                RenderFragment::Technologies(clone_strings(&content.technologies)),
            ),
        )
    } else if str_eq_nocase(cmd, "work-experience") {
        DispatchOutcome::Emit(
            TerminalLine::Output(RenderFragment::WorkHistory(clone_work(&content.work_experience))),
        )
    } else if str_eq_nocase(cmd, "clear") {
        DispatchOutcome::ClearScreen
    } else if str_eq_nocase(cmd, "restart") {
        DispatchOutcome::BeginConfirm(ConfirmAction::Restart)
    } else if str_eq_nocase(cmd, "poweroff") {
        DispatchOutcome::BeginConfirm(ConfirmAction::PowerOff)
    } else {
        let msg = String::from_str("Command not found: ").concat(cmd);
        DispatchOutcome::Emit(TerminalLine::Error(msg))
    }
}

} // verus!
