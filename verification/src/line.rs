//! The terminal transcript: lines, the structured output fragments they
//! carry, and the session modes.

use vstd::prelude::*;
use crate::content::{Contact, ContactV, Project, ProjectV, WorkExperience, WorkExperienceV};
use crate::registry::{CommandInfo, CommandInfoV};

verus! {

/// The destructive actions that must be confirmed before they run.
#[derive(Clone, Copy, PartialEq, Eq, Structural, Debug)]
pub enum ConfirmAction {
    Restart,
    PowerOff,
}

/// Which keys do what. Exactly one mode is active at a time; `PowerOff` is
/// terminal: once reached, no event mutates the session further.
#[derive(Clone, Copy, PartialEq, Eq, Structural, Debug, Default)]
pub enum AppMode {
    #[default]
    Normal,
    Confirm(ConfirmAction),
    PowerOff,
}

/// A structured, already-decided output block. The core decides which block
/// to produce and the data it carries; drawing it is the renderer's concern.
#[derive(PartialEq, Debug)]
pub enum RenderFragment {
    /// The welcome banner, shown on load and after a confirmed restart.
    Welcome(String),
    /// The message of the day, shown under the banner.
    Motd(String),
    /// Every registry entry, name and description, in registry order.
    Help(Vec<CommandInfo>),
    /// The `about` text, verbatim.
    About(String),
    /// The skill list, in document order.
    Skills(Vec<String>),
    /// The featured projects, in document order.
    Projects(Vec<Project>),
    /// The four contact channels.
    ContactCard(Contact),
    /// The technology list, in document order.
    Technologies(Vec<String>),
    /// The professional journey, in document order.
    WorkHistory(Vec<WorkExperience>),
}

/// Mathematical value of a [`RenderFragment`].
pub enum RenderFragmentV {
    Welcome(Seq<char>),
    Motd(Seq<char>),
    Help(Seq<CommandInfoV>),
    About(Seq<char>),
    Skills(Seq<Seq<char>>),
    Projects(Seq<ProjectV>),
    ContactCard(ContactV),
    Technologies(Seq<Seq<char>>),
    WorkHistory(Seq<WorkExperienceV>),
}

impl View for RenderFragment {
    type V = RenderFragmentV;

    open spec fn view(&self) -> RenderFragmentV {
        match self {
            RenderFragment::Welcome(s) => RenderFragmentV::Welcome(s@),
            RenderFragment::Motd(s) => RenderFragmentV::Motd(s@),
            RenderFragment::Help(cs) => RenderFragmentV::Help(cs.deep_view()),
            RenderFragment::About(s) => RenderFragmentV::About(s@),
            RenderFragment::Skills(ss) => RenderFragmentV::Skills(ss.deep_view()),
            RenderFragment::Projects(ps) => RenderFragmentV::Projects(ps.deep_view()),
            RenderFragment::ContactCard(c) => RenderFragmentV::ContactCard(c@),
            RenderFragment::Technologies(ts) => RenderFragmentV::Technologies(ts.deep_view()),
            RenderFragment::WorkHistory(ws) => RenderFragmentV::WorkHistory(ws.deep_view()),
        }
    }
}

impl Clone for RenderFragment {
    fn clone(&self) -> (r: Self)
        ensures
            r@ == self@,
    {
        match self {
            RenderFragment::Welcome(s) => RenderFragment::Welcome(s.clone()),
            RenderFragment::Motd(s) => RenderFragment::Motd(s.clone()),
            RenderFragment::Help(cs) => RenderFragment::Help(crate::registry::clone_infos(cs)),
            RenderFragment::About(s) => RenderFragment::About(s.clone()),
            RenderFragment::Skills(ss) => RenderFragment::Skills(
                crate::content::clone_strings(ss),
            ),
            RenderFragment::Projects(ps) => RenderFragment::Projects(
                crate::content::clone_projects(ps),
            ),
            RenderFragment::ContactCard(c) => RenderFragment::ContactCard(c.clone()),
            RenderFragment::Technologies(ts) => RenderFragment::Technologies(
                crate::content::clone_strings(ts),
            ),
            RenderFragment::WorkHistory(ws) => RenderFragment::WorkHistory(
                crate::content::clone_work(ws),
            ),
        }
    }
}

/// One entry of the transcript.
#[derive(PartialEq, Debug)]
pub enum TerminalLine {
    /// An echo of a command the user submitted; empty for a bare Enter.
    Input(String),
    /// A structured result produced by the dispatcher.
    Output(RenderFragment),
    /// A failure message.
    Error(String),
}

/// Mathematical value of a [`TerminalLine`].
pub enum TerminalLineV {
    Input(Seq<char>),
    Output(RenderFragmentV),
    Error(Seq<char>),
}

impl View for TerminalLine {
    type V = TerminalLineV;

    open spec fn view(&self) -> TerminalLineV {
        match self {
            TerminalLine::Input(s) => TerminalLineV::Input(s@),
            TerminalLine::Output(f) => TerminalLineV::Output(f@),
            TerminalLine::Error(s) => TerminalLineV::Error(s@),
        }
    }
}

impl DeepView for TerminalLine {
    type V = TerminalLineV;

    open spec fn deep_view(&self) -> TerminalLineV {
        self@
    }
}

impl Clone for TerminalLine {
    fn clone(&self) -> (r: Self)
        ensures
            r@ == self@,
    {
        match self {
            TerminalLine::Input(s) => TerminalLine::Input(s.clone()),
            TerminalLine::Output(f) => TerminalLine::Output(f.clone()),
            TerminalLine::Error(s) => TerminalLine::Error(s.clone()),
        }
    }
}

} // verus!
