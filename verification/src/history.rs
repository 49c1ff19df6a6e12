//! The history buffer: an append-only sequence of submitted commands with a
//! recall cursor.
//!
//! The cursor is `None` while the user edits live input, and `Some(i)` while
//! an earlier entry is recalled. Recall is deliberately asymmetric, matching
//! shell ergonomics: stepping back clamps at the oldest entry, stepping
//! forward past the newest entry returns to a blank live input.

use vstd::prelude::*;
use crate::text::is_space;

verus! {

/// Mathematical value of a [`HistoryBuffer`].
pub struct HistoryBufferV {
    pub entries: Seq<Seq<char>>,
    pub cursor: Option<int>,
}

/// A non-empty, trimmed command string: the only shape of entry the buffer
/// ever stores.
pub open spec fn valid_entry(s: Seq<char>) -> bool {
    s.len() > 0 && !is_space(s[0]) && !is_space(s[s.len() - 1])
}

impl HistoryBufferV {
    /// The cursor is either live input or a valid index, and every stored
    /// entry is a non-empty, trimmed command.
    pub open spec fn wf(self) -> bool {
        (match self.cursor {
            Option::None => true,
            Option::Some(i) => 0 <= i < self.entries.len(),
        }) && (forall|k: int| 0 <= k < self.entries.len() ==> valid_entry(#[trigger] self.entries[k]))
    }
}

/// Stepping back: from live input jump to the newest entry; from an entry
/// step toward the oldest and clamp there. An empty buffer recalls nothing.
pub open spec fn recall_previous_spec(h: HistoryBufferV) -> (HistoryBufferV, Option<Seq<char>>) {
    if h.entries.len() == 0 {
        (h, Option::None)
    } else {
        let idx = match h.cursor {
            Option::None => h.entries.len() - 1,
            Option::Some(i) => if i > 0 { i - 1 } else { 0 },
        };
        (HistoryBufferV { entries: h.entries, cursor: Option::Some(idx) }, Option::Some(h.entries[idx]))
    }
}

/// Stepping forward: from live input do nothing; from an entry step toward
/// the newest, and past it return to blank live input.
pub open spec fn recall_next_spec(h: HistoryBufferV) -> (HistoryBufferV, Option<Seq<char>>) {
    match h.cursor {
        Option::None => (h, Option::None),
        Option::Some(i) => if i + 1 >= h.entries.len() {
            (
                HistoryBufferV { entries: h.entries, cursor: Option::None },
                Option::Some(Seq::empty()),
            )
        } else {
            (
                HistoryBufferV { entries: h.entries, cursor: Option::Some(i + 1) },
                Option::Some(h.entries[i + 1]),
            )
        },
    }
}

/// Stepping back clamps at the oldest entry: with the cursor already on
/// index 0, recalling the previous entry leaves the cursor there and hands
/// out the oldest entry again, however often it is repeated.
pub proof fn lemma_recall_previous_clamps_at_oldest(h: HistoryBufferV)
    requires
        h.wf(),
        h.entries.len() > 0,
        h.cursor == Option::Some(0int),
    ensures
        recall_previous_spec(h) == (h, Option::Some(h.entries[0])),
{
}

/// Stepping forward past the newest entry does not clamp: it returns the
/// cursor to live input and hands out a blank line.
pub proof fn lemma_recall_next_past_newest_blanks(h: HistoryBufferV)
    requires
        h.wf(),
        h.cursor == Option::Some(h.entries.len() - 1),
    ensures
        recall_next_spec(h) == (
            HistoryBufferV { entries: h.entries, cursor: Option::None },
            Option::Some(Seq::<char>::empty()),
        ),
{
}

/// Spec value of an optional recalled string.
pub open spec fn recalled_view(r: Option<String>) -> Option<Seq<char>> {
    match r {
        Option::None => Option::None,
        Option::Some(s) => Option::Some(s@),
    }
}

/// The history buffer itself.
pub struct HistoryBuffer {
    pub entries: Vec<String>,
    pub cursor: Option<usize>,
}

impl View for HistoryBuffer {
    type V = HistoryBufferV;

    open spec fn view(&self) -> HistoryBufferV {
        HistoryBufferV {
            entries: self.entries.deep_view(),
            cursor: match self.cursor {
                Option::None => Option::None,
                Option::Some(i) => Option::Some(i as int),
            },
        }
    }
}

impl HistoryBuffer {
    /// An empty buffer, with the cursor on live input.
    pub fn new() -> (r: Self)
        ensures
            r@.entries == Seq::<Seq<char>>::empty(),
            r@.cursor is None,
            r@.wf(),
    {
        let r = HistoryBuffer { entries: Vec::new(), cursor: Option::None };
        proof {
            assert(r@.entries =~= Seq::<Seq<char>>::empty());
        }
        r
    }

    /// Appends a submitted command and resets the cursor to live input.
    /// Only non-empty, trimmed submissions are ever recorded.
    pub fn record(&mut self, command: String)
        requires
            old(self)@.wf(),
            valid_entry(command@),
        ensures
            final(self)@.wf(),
            final(self)@.entries == old(self)@.entries.push(command@),
            final(self)@.cursor is None,
    {
        self.entries.push(command);
        self.cursor = Option::None;
        proof {
            assert(self@.entries =~= old(self)@.entries.push(command@));
        }
    }

    /// Steps the cursor back and hands out the entry now under it, per
    /// [`recall_previous_spec`].
    pub fn recall_previous(&mut self) -> (r: Option<String>)
        requires
            old(self)@.wf(),
        ensures
            final(self)@.wf(),
            (final(self)@, recalled_view(r)) == recall_previous_spec(old(self)@),
    {
        if self.entries.len() == 0 {
            return Option::None;
        }
        let idx: usize = match self.cursor {
            Option::None => self.entries.len() - 1,
            Option::Some(i) => if i > 0 {
                i - 1
            } else {
                0
            },
        };
        self.cursor = Option::Some(idx);
        let value = self.entries[idx].clone();
        proof {
            assert(self@.entries[idx as int] == old(self)@.entries[idx as int]);
        }
        Option::Some(value)
    }

    /// Steps the cursor forward and hands out the entry now under it, or a
    /// blank line past the newest entry, per [`recall_next_spec`].
    pub fn recall_next(&mut self) -> (r: Option<String>)
        requires
            old(self)@.wf(),
        ensures
            final(self)@.wf(),
            (final(self)@, recalled_view(r)) == recall_next_spec(old(self)@),
    {
        match self.cursor {
            Option::None => Option::None,
            Option::Some(i) => {
                let n = self.entries.len();
                if i >= n - 1 {
                    self.cursor = Option::None;
                    Option::Some(String::new())
                } else {
                    let idx = i + 1;
                    self.cursor = Option::Some(idx);
                    let value = self.entries[idx].clone();
                    Option::Some(value)
                }
            },
        }
    }
}

} // verus!
