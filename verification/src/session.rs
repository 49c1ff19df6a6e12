//! The session state machine: the transcript, the history buffer, the live
//! input buffer and the mode, driven by discrete events — a submitted line,
//! the recall and completion keys, escape, and the one-shot content load.

use vstd::prelude::*;
use crate::content::{
    content_error_message, ContentError, PortfolioContent, PortfolioContentV,
};
use crate::dispatch::{dispatch, dispatch_spec, DispatchOutcome, DispatchOutcomeV};
use crate::history::{
    recall_next_spec, recall_previous_spec, HistoryBuffer, HistoryBufferV,
};
use crate::line::{AppMode, ConfirmAction, RenderFragment, RenderFragmentV, TerminalLine, TerminalLineV};
use crate::registry::{complete, first_completion, registry_spec};
use crate::text::{seq_eq_nocase, str_eq_nocase, trim, trim_spec};

verus! {

/// Mathematical value of a [`Session`].
pub struct SessionV {
    pub lines: Seq<TerminalLineV>,
    pub history: HistoryBufferV,
    pub input: Seq<char>,
    pub mode: AppMode,
}

impl SessionV {
    /// The session invariant: the history buffer is well formed.
    pub open spec fn wf(self) -> bool {
        self.history.wf()
    }
}

/// The two lines that open a session and that a confirmed restart restores:
/// the welcome banner and the message of the day.
pub open spec fn welcome_lines(c: PortfolioContentV) -> Seq<TerminalLineV> {
    seq![
        TerminalLineV::Output(RenderFragmentV::Welcome(c.welcome)),
        TerminalLineV::Output(RenderFragmentV::Motd(c.motd)),
    ]
}

/// A confirming answer to a yes/no prompt: exactly `y` or `yes`, up to
/// ASCII case, once trimmed.
pub open spec fn affirmative(ans: Seq<char>) -> bool {
    seq_eq_nocase(ans, "y"@) || seq_eq_nocase(ans, "yes"@)
}

/// Submission in `Normal` mode. A submission that trims to nothing only
/// echoes a blank input line; anything else is recorded, echoed, and
/// dispatched, and the dispatch outcome is applied.
pub open spec fn submit_normal_spec(s: SessionV, text: Seq<char>, c: PortfolioContentV) -> SessionV {
    let t = trim_spec(text);
    if t.len() == 0 {
        SessionV {
            lines: s.lines.push(TerminalLineV::Input(Seq::empty())),
            history: s.history,
            input: Seq::empty(),
            mode: s.mode,
        }
    } else {
        let h = HistoryBufferV { entries: s.history.entries.push(t), cursor: Option::None };
        let echoed = s.lines.push(TerminalLineV::Input(t));
        match dispatch_spec(t, c) {
            DispatchOutcomeV::Emit(l) => SessionV {
                lines: echoed.push(l),
                history: h,
                input: Seq::empty(),
                mode: AppMode::Normal,
            },
            DispatchOutcomeV::ClearScreen => SessionV {
                lines: Seq::empty(),
                history: h,
                input: Seq::empty(),
                mode: AppMode::Normal,
            },
            DispatchOutcomeV::BeginConfirm(a) => SessionV {
                lines: echoed,
                history: h,
                input: Seq::empty(),
                mode: AppMode::Confirm(a),
            },
        }
    }
}

/// Submission while a confirmation prompt is up. An affirmative answer runs
/// the gated action — a confirmed restart replaces the transcript with the
/// welcome lines and returns to `Normal`; a confirmed power-off enters the
/// terminal `PowerOff` mode and nothing else. Any other answer only returns
/// to `Normal`. The input buffer is cleared in every case.
pub open spec fn submit_confirm_spec(
    s: SessionV,
    action: ConfirmAction,
    text: Seq<char>,
    c: PortfolioContentV,
) -> SessionV {
    if affirmative(trim_spec(text)) {
        match action {
            ConfirmAction::Restart => SessionV {
                lines: welcome_lines(c),
                history: s.history,
                input: Seq::empty(),
                mode: AppMode::Normal,
            },
            ConfirmAction::PowerOff => SessionV {
                lines: s.lines,
                history: s.history,
                input: Seq::empty(),
                mode: AppMode::PowerOff,
            },
        }
    } else {
        SessionV {
            lines: s.lines,
            history: s.history,
            input: Seq::empty(),
            mode: AppMode::Normal,
        }
    }
}

/// The submit transition, over all modes. `PowerOff` is inert.
pub open spec fn submit_spec(s: SessionV, text: Seq<char>, c: PortfolioContentV) -> SessionV {
    match s.mode {
        AppMode::Normal => submit_normal_spec(s, text, c),
        AppMode::Confirm(a) => submit_confirm_spec(s, a, text, c),
        AppMode::PowerOff => s,
    }
}

/// ArrowUp: recall the previous history entry into the live input. Inert
/// outside `Normal` mode; the transcript never changes.
pub open spec fn arrow_up_spec(s: SessionV) -> SessionV {
    if s.mode is Normal {
        let step = recall_previous_spec(s.history);
        match step.1 {
            Option::Some(v) => SessionV { lines: s.lines, history: step.0, input: v, mode: s.mode },
            Option::None => SessionV { lines: s.lines, history: step.0, input: s.input, mode: s.mode },
        }
    } else {
        s
    }
}

/// ArrowDown: recall the next history entry, or a blank line past the
/// newest. Inert outside `Normal` mode.
pub open spec fn arrow_down_spec(s: SessionV) -> SessionV {
    if s.mode is Normal {
        let step = recall_next_spec(s.history);
        match step.1 {
            Option::Some(v) => SessionV { lines: s.lines, history: step.0, input: v, mode: s.mode },
            Option::None => SessionV { lines: s.lines, history: step.0, input: s.input, mode: s.mode },
        }
    } else {
        s
    }
}

/// Tab: complete the live input to the first registry name it is a
/// case-insensitive prefix of. Inert outside `Normal` mode.
pub open spec fn tab_spec(s: SessionV) -> SessionV {
    if s.mode is Normal {
        match first_completion(registry_spec(), s.input) {
            Option::Some(name) => SessionV {
                lines: s.lines,
                history: s.history,
                input: name,
                mode: s.mode,
            },
            Option::None => s,
        }
    } else {
        s
    }
}

/// Escape: cancel a confirmation prompt, clearing the input and returning
/// to `Normal`. Inert in the other modes.
pub open spec fn escape_spec(s: SessionV) -> SessionV {
    match s.mode {
        AppMode::Confirm(_) => SessionV {
            lines: s.lines,
            history: s.history,
            input: Seq::empty(),
            mode: AppMode::Normal,
        },
        _ => s,
    }
}

/// Ordinary typing replaces the live input buffer. Inert once the session
/// is powered off: no further input is accepted.
pub open spec fn set_input_spec(s: SessionV, text: Seq<char>) -> SessionV {
    if s.mode is PowerOff {
        s
    } else {
        SessionV { lines: s.lines, history: s.history, input: text, mode: s.mode }
    }
}

/// The one-shot content load succeeded: the transcript becomes the two
/// welcome lines. Inert once the session is powered off — a late load must
/// not thaw a frozen session.
pub open spec fn content_loaded_spec(s: SessionV, c: PortfolioContentV) -> SessionV {
    if s.mode is PowerOff {
        s
    } else {
        SessionV { lines: welcome_lines(c), history: s.history, input: s.input, mode: s.mode }
    }
}

/// The one-shot content load failed: the transcript becomes a single error
/// line describing the failure. The core never retries. Inert once the
/// session is powered off.
pub open spec fn content_failed_spec(s: SessionV, e: crate::content::ContentErrorV) -> SessionV {
    if s.mode is PowerOff {
        s
    } else {
        SessionV {
            lines: seq![TerminalLineV::Error(content_error_message(e))],
            history: s.history,
            input: s.input,
            mode: s.mode,
        }
    }
}

/// The session state: transcript, history, live input, and mode.
pub struct Session {
    pub lines: Vec<TerminalLine>,
    pub history: HistoryBuffer,
    pub input: String,
    pub mode: AppMode,
}

impl View for Session {
    type V = SessionV;

    open spec fn view(&self) -> SessionV {
        SessionV {
            lines: self.lines.deep_view(),
            history: self.history@,
            input: self.input@,
            mode: self.mode,
        }
    }
}

fn make_welcome_lines(content: &PortfolioContent) -> (r: Vec<TerminalLine>)
    ensures
        r.deep_view() == welcome_lines(content@),
{
    let mut r: Vec<TerminalLine> = Vec::new();
    r.push(TerminalLine::Output(RenderFragment::Welcome(content.welcome.clone())));
    r.push(TerminalLine::Output(RenderFragment::Motd(content.motd.clone())));
    proof {
        assert(r.deep_view() =~= welcome_lines(content@));
    }
    r
}

impl Session {
    /// A fresh session: empty transcript, empty history, blank input,
    /// `Normal` mode.
    pub fn new() -> (r: Session)
        ensures
            r@.wf(),
            r@.lines == Seq::<TerminalLineV>::empty(),
            r@.history.entries == Seq::<Seq<char>>::empty(),
            r@.history.cursor is None,
            r@.input == Seq::<char>::empty(),
            r@.mode == AppMode::Normal,
    {
        let r = Session {
            lines: Vec::new(),
            history: HistoryBuffer::new(),
            input: String::new(),
            mode: AppMode::Normal,
        };
        proof {
            assert(r@.lines =~= Seq::<TerminalLineV>::empty());
        }
        r
    }

    /// Ordinary typing: the rendering layer hands the core the new live
    /// input value.
    pub fn set_input(&mut self, text: String)
        requires
            old(self)@.wf(),
        ensures
            final(self)@.wf(),
            final(self)@ == set_input_spec(old(self)@, text@),
    {
        match self.mode {
            AppMode::PowerOff => {},
            _ => {
                self.input = text;
            },
        }
    }

    /// The content load delivered a document.
    pub fn content_loaded(&mut self, content: &PortfolioContent)
        requires
            old(self)@.wf(),
        ensures
            final(self)@.wf(),
            final(self)@ == content_loaded_spec(old(self)@, content@),
    {
        match self.mode {
            AppMode::PowerOff => {},
            _ => {
                self.lines = make_welcome_lines(content);
            },
        }
    }

    /// The content load failed; the session renders one error line.
    pub fn content_failed(&mut self, error: &ContentError)
        requires
            old(self)@.wf(),
        ensures
            final(self)@.wf(),
            final(self)@ == content_failed_spec(old(self)@, error@),
    {
        match self.mode {
            AppMode::PowerOff => {},
            _ => {
                let mut r: Vec<TerminalLine> = Vec::new();
                r.push(TerminalLine::Error(error.message()));
                proof {
                    assert(r.deep_view() =~= seq![
                        TerminalLineV::Error(content_error_message(error@)),
                    ]);
                }
                self.lines = r;
            },
        }
    }

    /// Enter: submit the typed line.
    pub fn submit(&mut self, text: &str, content: &PortfolioContent)
        requires
            old(self)@.wf(),
        ensures
            final(self)@.wf(),
            final(self)@ == submit_spec(old(self)@, text@, content@),
    {
        let mode = self.mode;
        match mode {
            AppMode::Normal => {
                let t = trim(text);
                self.input = String::new();
                if t.as_str().is_empty() {
                    self.lines.push(TerminalLine::Input(String::new()));
                    proof {
                        assert(self@.lines =~= old(self)@.lines.push(
                            TerminalLineV::Input(Seq::empty()),
                        ));
                    }
                } else {
                    self.history.record(t.clone());
                    self.lines.push(TerminalLine::Input(t.clone()));
                    proof {
                        assert(self@.lines =~= old(self)@.lines.push(TerminalLineV::Input(t@)));
                    }
                    let outcome = dispatch(t.as_str(), content);
                    match outcome {
                        DispatchOutcome::Emit(l) => {
                            let ghost echoed = self@.lines;
                            let ghost lv = l@;
                            self.lines.push(l);
                            proof {
                                assert(self@.lines =~= echoed.push(lv));
                            }
                        },
                        DispatchOutcome::ClearScreen => {
                            self.lines = Vec::new();
                            proof {
                                assert(self@.lines =~= Seq::<TerminalLineV>::empty());
                            }
                        },
                        DispatchOutcome::BeginConfirm(a) => {
                            self.mode = AppMode::Confirm(a);
                        },
                    }
                }
            },
            AppMode::Confirm(action) => {
                let ans = trim(text);
                self.input = String::new();
                if str_eq_nocase(ans.as_str(), "y") || str_eq_nocase(ans.as_str(), "yes") {
                    match action {
                        ConfirmAction::Restart => {
                            self.lines = make_welcome_lines(content);
                            self.mode = AppMode::Normal;
                        },
                        ConfirmAction::PowerOff => {
                            self.mode = AppMode::PowerOff;
                        },
                    }
                } else {
                    self.mode = AppMode::Normal;
                }
            },
            AppMode::PowerOff => {},
        }
    }

    /// ArrowUp.
    pub fn key_arrow_up(&mut self)
        requires
            old(self)@.wf(),
        ensures
            final(self)@.wf(),
            final(self)@ == arrow_up_spec(old(self)@),
    {
        match self.mode {
            AppMode::Normal => {
                let recalled = self.history.recall_previous();
                match recalled {
                    Option::Some(v) => {
                        self.input = v;
                    },
                    Option::None => {},
                }
            },
            _ => {},
        }
    }

    /// ArrowDown.
    pub fn key_arrow_down(&mut self)
        requires
            old(self)@.wf(),
        ensures
            final(self)@.wf(),
            final(self)@ == arrow_down_spec(old(self)@),
    {
        match self.mode {
            AppMode::Normal => {
                let recalled = self.history.recall_next();
                match recalled {
                    Option::Some(v) => {
                        self.input = v;
                    },
                    Option::None => {},
                }
            },
            _ => {},
        }
    }

    /// Tab.
    pub fn key_tab(&mut self)
        requires
            old(self)@.wf(),
        ensures
            final(self)@.wf(),
            final(self)@ == tab_spec(old(self)@),
    {
        match self.mode {
            AppMode::Normal => {
                let completed = complete(self.input.as_str());
                match completed {
                    Option::Some(name) => {
                        self.input = name;
                    },
                    Option::None => {},
                }
            },
            _ => {},
        }
    }

    /// Escape.
    pub fn key_escape(&mut self)
        requires
            old(self)@.wf(),
        ensures
            final(self)@.wf(),
            final(self)@ == escape_spec(old(self)@),
    {
        match self.mode {
            AppMode::Confirm(_) => {
                self.input = String::new();
                self.mode = AppMode::Normal;
            },
            _ => {},
        }
    }
}

} // verus!
