//! The quick switcher: incremental search input and result selection.
//!
//! Key events are modelled as plain values ([`KeyPress`]); the terminal
//! layer converts its own key type into them before calling in.

use vstd::prelude::*;
use crate::jsonenc::push_char;
use crate::search::SearchResult;
use crate::strutil::{spec_trim_end, trim_end_chars};

verus! {

/// A key, reduced to what the switcher reacts to.
#[derive(Debug, Clone, Copy, PartialEq, Eq, Structural)]
pub enum Key {
    Esc,
    Enter,
    Up,
    Down,
    Backspace,
    Char(char),
    Other,
}

/// A key press with its modifiers.
#[derive(Debug, Clone, Copy, PartialEq, Eq, Structural)]
pub struct KeyPress {
    pub key: Key,
    pub ctrl: bool,
    pub alt: bool,
}

impl KeyPress {
    /// A press of `key` with no modifiers.
    pub fn plain(key: Key) -> (r: KeyPress)
        ensures
            r == (KeyPress { key, ctrl: false, alt: false }),
    {
        KeyPress { key, ctrl: false, alt: false }
    }
}

/// What one key press asks the surrounding screen to do.
#[derive(Debug)]
pub enum QuickSwitcherAction {
    /// Nothing to do.
    Idle,
    /// Close the switcher.
    Close,
    /// Open the chosen result.
    Select(SearchResult),
    /// Run the search again with this query.
    UpdateSearch(String),
}

/// Last index strictly before `j` where `c` occurs in `s`.
pub open spec fn spec_rfind(s: Seq<char>, c: char, j: int) -> Option<int>
    decreases j,
{
    if j <= 0 || j > s.len() {
        None
    } else if s[j - 1] == c {
        Some(j - 1)
    } else {
        spec_rfind(s, c, j - 1)
    }
}

/// The input after deleting the last word: cut just after the last space
/// of the input with trailing whitespace removed, or emptied when there
/// is no space.
pub open spec fn spec_word_deleted(input: Seq<char>) -> Seq<char> {
    let t = spec_trim_end(input);
    match spec_rfind(t, ' ', t.len() as int) {
        Some(idx) => input.take(idx + 1),
        None => Seq::empty(),
    }
}

/// The switcher's state: the typed query, the current results and which
/// one is selected.
#[derive(Debug)]
pub struct QuickSwitcher {
    pub input: String,
    pub results: Vec<SearchResult>,
    pub selected: Option<usize>,
}

/// The selection after moving down: one past the current, wrapping to the
/// top.
pub open spec fn spec_next_index(selected: Option<usize>, len: nat) -> usize {
    match selected {
        Some(i) => if i + 1 >= len {
            0usize
        } else {
            (i + 1) as usize
        },
        None => 0usize,
    }
}

/// The selection after moving up: one before the current, wrapping to the
/// bottom.
pub open spec fn spec_prev_index(selected: Option<usize>, len: nat) -> usize {
    match selected {
        Some(i) => if i == 0 {
            if len == 0 {
                0usize
            } else {
                (len - 1) as usize
            }
        } else {
            (i - 1) as usize
        },
        None => 0usize,
    }
}

impl QuickSwitcher {
    /// A closed, empty switcher.
    pub fn new() -> (r: QuickSwitcher)
        ensures
            r.input@ == Seq::<char>::empty(),
            r.results@ == Seq::<SearchResult>::empty(),
            r.selected is None,
    {
        QuickSwitcher { input: String::new(), results: Vec::new(), selected: None }
    }

    /// Clears the query, the results and the selection.
    pub fn reset(&mut self)
        ensures
            final(self).input@ == Seq::<char>::empty(),
            final(self).results@ == Seq::<SearchResult>::empty(),
            final(self).selected is None,
    {
        self.input = String::new();
        self.results = Vec::new();
        self.selected = None;
    }

    /// Installs fresh results; the first one is selected when there are
    /// any.
    pub fn set_results(&mut self, results: Vec<SearchResult>)
        ensures
            final(self).results == results,
            final(self).input == old(self).input,
            final(self).selected == if results@.len() == 0 {
                None::<usize>
            } else {
                Some(0usize)
            },
    {
        let empty = results.len() == 0;
        self.results = results;
        self.selected = if empty {
            None
        } else {
            Some(0)
        };
    }

    /// The selected result, when the selection points at one.
    pub fn selected_result(&self) -> (r: Option<&SearchResult>)
        ensures
            match self.selected {
                Some(i) => if i < self.results@.len() {
                    r is Some && *r.unwrap() == self.results@[i as int]
                } else {
                    r is None
                },
                None => r is None,
            },
    {
        match self.selected {
            Some(i) => {
                if i < self.results.len() {
                    Some(&self.results[i])
                } else {
                    None
                }
            },
            None => None,
        }
    }

    /// Moves the selection down, wrapping to the top; without results the
    /// state is unchanged.
    pub fn select_next(&mut self)
        ensures
            final(self).input == old(self).input,
            final(self).results == old(self).results,
            final(self).selected == if old(self).results@.len() == 0 {
                old(self).selected
            } else {
                Some(spec_next_index(old(self).selected, old(self).results@.len()))
            },
    {
        let len = self.results.len();
        let i: usize = match self.selected {
            Some(i) => {
                if len == 0 || i >= len - 1 {
                    0
                } else {
                    i + 1
                }
            },
            None => 0,
        };
        if len > 0 {
            self.selected = Some(i);
        }
    }

    /// Moves the selection up, wrapping to the bottom; without results
    /// the state is unchanged.
    pub fn select_previous(&mut self)
        ensures
            final(self).input == old(self).input,
            final(self).results == old(self).results,
            final(self).selected == if old(self).results@.len() == 0 {
                old(self).selected
            } else {
                Some(spec_prev_index(old(self).selected, old(self).results@.len()))
            },
    {
        let len = self.results.len();
        let i: usize = match self.selected {
            Some(i) => {
                if i == 0 {
                    if len == 0 {
                        0
                    } else {
                        len - 1
                    }
                } else {
                    i - 1
                }
            },
            None => 0,
        };
        if len > 0 {
            self.selected = Some(i);
        }
    }

    /// Deletes the last word of the input.
    fn delete_word(&mut self)
        ensures
            final(self).input@ == spec_word_deleted(old(self).input@),
            final(self).results == old(self).results,
            final(self).selected == old(self).selected,
    {
        let trimmed_len: usize = trim_end_chars(self.input.as_str()).unicode_len();
        let mut cut: Option<usize> = None;
        let mut j: usize = trimmed_len;
        proof {
            crate::strutil::lemma_last_non_ws_bounds(self.input@, self.input@.len() as int);
            assert(spec_trim_end(self.input@).len() == trimmed_len);
        }
        while j > 0
            invariant
                0 <= j <= trimmed_len,
                trimmed_len <= self.input@.len(),
                spec_trim_end(self.input@).len() == trimmed_len,
                match cut {
                    Some(idx) => spec_rfind(
                        spec_trim_end(self.input@),
                        ' ',
                        trimmed_len as int,
                    ) == Some(idx as int) && idx < trimmed_len,
                    None => spec_rfind(spec_trim_end(self.input@), ' ', trimmed_len as int)
                        == spec_rfind(spec_trim_end(self.input@), ' ', j as int),
                },
            decreases j,
        {
            let ghost t = spec_trim_end(self.input@);
            if cut.is_none() {
                let c = self.input.as_str().get_char(j - 1);
                proof {
                    crate::strutil::lemma_last_non_ws_bounds(
                        self.input@,
                        self.input@.len() as int,
                    );
                    assert(t[j - 1] == self.input@[j - 1]);
                }
                if c == ' ' {
                    proof {
                        assert(spec_rfind(t, ' ', j as int) == Some(j - 1));
                    }
                    cut = Some(j - 1);
                } else {
                    proof {
                        assert(spec_rfind(t, ' ', j as int) == spec_rfind(t, ' ', j - 1));
                    }
                }
            }
            j = j - 1;
        }
        match cut {
            Some(idx) => {
                let n: usize = self.input.as_str().unicode_len();
                let shortened = self.input.as_str().substring_char(0, idx + 1).to_owned();
                proof {
                    assert(shortened@ =~= self.input@.take(idx + 1));
                }
                self.input = shortened;
            },
            None => {
                self.input = String::new();
            },
        }
    }

    /// Reacts to one key press exactly as the switcher's input discipline
    /// prescribes: escape closes; enter picks the selected result; the
    /// arrows move the selection; control-h, control-w and modified
    /// backspace delete the last word; a plain character extends the
    /// query; plain backspace removes its last character.
    pub fn handle_key(&mut self, key: KeyPress) -> (r: QuickSwitcherAction)
        ensures
            ({
                let me = *old(self);
                match key.key {
                    Key::Esc => r is Close && *final(self) == me,
                    Key::Enter => *final(self) == me && (match me.selected {
                        Some(i) => if i < me.results@.len() {
                            r matches QuickSwitcherAction::Select(x) && x == me.results@[i as int]
                        } else {
                            r is Idle
                        },
                        None => r is Idle,
                    }),
                    Key::Up => r is Idle && final(self).input == me.input && final(self).results
                        == me.results && final(self).selected == (if me.results@.len() == 0 {
                        me.selected
                    } else {
                        Some(spec_prev_index(me.selected, me.results@.len()))
                    }),
                    Key::Down => r is Idle && final(self).input == me.input && final(self).results
                        == me.results && final(self).selected == (if me.results@.len() == 0 {
                        me.selected
                    } else {
                        Some(spec_next_index(me.selected, me.results@.len()))
                    }),
                    Key::Char(c) => final(self).results == me.results && final(self).selected
                        == me.selected && (if key.ctrl && (c == 'h' || c == 'w') {
                        final(self).input@ == spec_word_deleted(me.input@)
                    } else {
                        final(self).input@ == me.input@.push(c)
                    }) && (r matches QuickSwitcherAction::UpdateSearch(q) && q@ == final(self).input@),
                    Key::Backspace => final(self).results == me.results && final(self).selected
                        == me.selected && (if key.ctrl || key.alt {
                        final(self).input@ == spec_word_deleted(me.input@)
                    } else {
                        final(self).input@ == (if me.input@.len() == 0 {
                            me.input@
                        } else {
                            me.input@.take(me.input@.len() - 1)
                        })
                    }) && (r matches QuickSwitcherAction::UpdateSearch(q) && q@ == final(self).input@),
                    Key::Other => r is Idle && *final(self) == me,
                }
            }),
    {
        match key.key {
            Key::Esc => QuickSwitcherAction::Close,
            Key::Enter => {
                let picked = match self.selected_result() {
                    Some(result) => Some(result.clone()),
                    None => None,
                };
                match picked {
                    Some(result) => QuickSwitcherAction::Select(result),
                    None => QuickSwitcherAction::Idle,
                }
            },
            Key::Up => {
                self.select_previous();
                QuickSwitcherAction::Idle
            },
            Key::Down => {
                self.select_next();
                QuickSwitcherAction::Idle
            },
            Key::Char(c) => {
                if key.ctrl && (c == 'h' || c == 'w') {
                    self.delete_word();
                } else {
                    push_char(&mut self.input, c);
                }
                QuickSwitcherAction::UpdateSearch(self.input.clone())
            },
            Key::Backspace => {
                if key.ctrl || key.alt {
                    self.delete_word();
                } else {
                    let n: usize = self.input.as_str().unicode_len();
                    if n > 0 {
                        let shortened = self.input.as_str().substring_char(0, n - 1).to_owned();
                        proof {
                            assert(shortened@ =~= self.input@.take(n - 1));
                        }
                        self.input = shortened;
                    }
                }
                QuickSwitcherAction::UpdateSearch(self.input.clone())
            },
            Key::Other => QuickSwitcherAction::Idle,
        }
    }
}

} // verus!
