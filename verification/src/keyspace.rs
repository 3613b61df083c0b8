use vstd::arithmetic::div_mod::{
    lemma_add_mod_noop,
    lemma_mod_add_multiples_vanish,
    lemma_mod_bound,
    lemma_mod_self_0,
    lemma_small_mod,
};
use vstd::prelude::*;
use vstd::string::{StrSliceExecFns, StringExecFns};

use crate::keybindings::KeyInput;
use crate::text::{pop_char, push_char};
use crate::types::KeyMeta;

verus! {

/// The popup the keyspace view can open.
#[derive(Debug, Clone, Copy, PartialEq, Eq, Structural)]
pub enum KeySpacePopupMode {
    FilterPattern,
}

/// The keyspace view's own mode: the plain table, or a popup above it.
#[derive(Debug, Clone, Copy, PartialEq, Eq, Structural)]
pub enum KeySpaceMode {
    Normal,
    Popup(KeySpacePopupMode),
}

/// The keyspace view: the page of key records on display, the selection
/// in the table, the cursor and filter shown in the header, and — while
/// the filter popup is open — the text typed so far.
#[derive(Debug)]
pub struct KeySpace {
    pub keys: Vec<KeyMeta>,
    pub selected: Option<usize>,
    pub cursor: Option<usize>,
    pub pattern: Option<String>,
    pub mode: KeySpaceMode,
    pub input: Option<String>,
}

impl KeySpace {
    /// A fresh view over the given page: nothing selected, no filter, no
    /// popup.
    pub fn new(keys: Vec<KeyMeta>) -> (r: Self)
        ensures
            r.keys == keys,
            r.selected is None,
            r.cursor is None,
            r.pattern is None,
            r.mode == KeySpaceMode::Normal,
            r.input is None,
    {
        KeySpace {
            keys,
            selected: None,
            cursor: None,
            pattern: None,
            mode: KeySpaceMode::Normal,
            input: None,
        }
    }

    /// Whether a popup is open.
    pub fn is_popup(&self) -> (r: bool)
        ensures
            r == (self.mode is Popup),
    {
        match self.mode {
            KeySpaceMode::Popup(_) => true,
            KeySpaceMode::Normal => false,
        }
    }

    /// Feeds one key-press to the open input popup: characters append,
    /// backspace deletes, everything else is ignored.  Without an open
    /// input the press is dropped.
    pub fn handle_key(&mut self, key: KeyInput)
        ensures
            final(self).keys == old(self).keys,
            final(self).selected == old(self).selected,
            final(self).cursor == old(self).cursor,
            final(self).pattern == old(self).pattern,
            final(self).mode == old(self).mode,
            match old(self).input {
                Some(buf) => match key {
                    KeyInput::Char(c) => final(self).input matches Some(b) && b@ == buf@.push(c),
                    KeyInput::Backspace => final(self).input matches Some(b) && b@ == (if buf@.len()
                        > 0 {
                        buf@.drop_last()
                    } else {
                        buf@
                    }),
                    _ => final(self).input == old(self).input,
                },
                None => final(self).input == old(self).input,
            },
    {
        if let Some(buf) = &mut self.input {
            match key {
                KeyInput::Char(c) => push_char(buf, c),
                KeyInput::Backspace => {
                    let _ = pop_char(buf);
                }
                _ => {}
            }
        }
    }

    /// Opens the filter popup with an empty input line.
    pub fn enter_filter_pattern(&mut self)
        ensures
            final(self).mode == KeySpaceMode::Popup(KeySpacePopupMode::FilterPattern),
            final(self).input matches Some(b) && b@ == Seq::<char>::empty(),
            final(self).keys == old(self).keys,
            final(self).selected == old(self).selected,
            final(self).cursor == old(self).cursor,
            final(self).pattern == old(self).pattern,
    {
        self.mode = KeySpaceMode::Popup(KeySpacePopupMode::FilterPattern);
        self.input = Some(String::new());
    }

    /// Closes the popup, applying what was typed: a non-empty line
    /// becomes the filter pattern, an empty one clears it.  The typed
    /// line is handed back so the caller can restart pagination with it;
    /// with no input open, nothing changes and nothing is returned.
    pub fn confirm_filter_pattern(&mut self) -> (r: Option<String>)
        ensures
            final(self).mode == KeySpaceMode::Normal,
            final(self).input is None,
            final(self).keys == old(self).keys,
            final(self).selected == old(self).selected,
            final(self).cursor == old(self).cursor,
            match old(self).input {
                Some(buf) => {
                    &&& r == Some(buf)
                    &&& (buf@.len() == 0 ==> final(self).pattern is None)
                    &&& (buf@.len() > 0 ==> final(self).pattern == Some(buf))
                },
                None => r is None && final(self).pattern == old(self).pattern,
            },
    {
        let r = match &self.input {
            Some(buf) => {
                let line = buf.clone();
                if line.as_str().is_empty() {
                    self.pattern = None;
                } else {
                    self.pattern = Some(line.clone());
                }
                Some(line)
            }
            None => None,
        };
        self.input = None;
        self.exit_popup();
        r
    }

    /// Closes the popup without applying anything.
    pub fn exit_popup(&mut self)
        ensures
            final(self).mode == KeySpaceMode::Normal,
            final(self).keys == old(self).keys,
            final(self).selected == old(self).selected,
            final(self).cursor == old(self).cursor,
            final(self).pattern == old(self).pattern,
            final(self).input == old(self).input,
    {
        self.mode = KeySpaceMode::Normal;
    }

    /// Clears the selection, ahead of a page change.
    pub fn refresh(&mut self)
        ensures
            final(self).selected is None,
            final(self).keys == old(self).keys,
            final(self).cursor == old(self).cursor,
            final(self).pattern == old(self).pattern,
            final(self).mode == old(self).mode,
            final(self).input == old(self).input,
    {
        self.selected = None;
    }

    /// Shows the pagination position in the view's header.
    pub fn update_filters(&mut self, pattern: Option<String>, cursor: Option<usize>)
        ensures
            final(self).pattern == pattern,
            final(self).cursor == cursor,
            final(self).keys == old(self).keys,
            final(self).selected == old(self).selected,
            final(self).mode == old(self).mode,
            final(self).input == old(self).input,
    {
        self.cursor = cursor;
        self.pattern = pattern;
    }

    /// Replaces the page on display wholesale.
    pub fn set_keys(&mut self, keys: Vec<KeyMeta>)
        ensures
            final(self).keys == keys,
            final(self).selected == old(self).selected,
            final(self).cursor == old(self).cursor,
            final(self).pattern == old(self).pattern,
            final(self).mode == old(self).mode,
            final(self).input == old(self).input,
    {
        self.keys = keys;
    }

    /// How one downward scroll relates the view before to the view
    /// after: the selection moves to the next row modulo the page length
    /// — so the last row wraps to the first — starts at the first row
    /// when nothing was selected, and stays unset on an empty page.
    pub open spec fn scrolled_next(pre: KeySpace, post: KeySpace) -> bool {
        &&& post.keys == pre.keys
        &&& post.cursor == pre.cursor
        &&& post.pattern == pre.pattern
        &&& post.mode == pre.mode
        &&& post.input == pre.input
        &&& (pre.keys@.len() == 0 ==> post.selected is None)
        &&& (pre.keys@.len() > 0 ==> post.selected == Some(
            (match pre.selected {
                Some(i) => (i + 1) as int % pre.keys@.len() as int,
                None => 0int,
            }) as usize,
        ))
    }

    /// How one upward scroll relates the view before to the view after:
    /// the selection moves to the previous row modulo the page length —
    /// so the first row wraps to the last — starts at the last row when
    /// nothing was selected, and stays unset on an empty page.
    pub open spec fn scrolled_previous(pre: KeySpace, post: KeySpace) -> bool {
        &&& post.keys == pre.keys
        &&& post.cursor == pre.cursor
        &&& post.pattern == pre.pattern
        &&& post.mode == pre.mode
        &&& post.input == pre.input
        &&& (pre.keys@.len() == 0 ==> post.selected is None)
        &&& (pre.keys@.len() > 0 ==> post.selected == Some(
            (match pre.selected {
                Some(i) => (i + pre.keys@.len() - 1) as int % pre.keys@.len() as int,
                None => pre.keys@.len() - 1,
            }) as usize,
        ))
    }

    /// Moves the selection one row down, wrapping from the last row to
    /// the first; with no selection yet it starts at the first row, and
    /// on an empty page there is nothing to select.
    pub fn scroll_next(&mut self)
        ensures
            Self::scrolled_next(*old(self), *final(self)),
    {
        let n = self.keys.len();
        if n == 0 {
            self.selected = None;
            return ;
        }
        let next: usize = match self.selected {
            Some(i) => {
                let m = i % n;
                proof {
                    lemma_mod_bound(i as int, n as int);
                    lemma_add_mod_noop(i as int, 1, n as int);
                    lemma_mod_bound(i as int + 1, n as int);
                    if n > 1 {
                        lemma_small_mod(1nat, n as nat);
                        if m + 1 == n {
                            lemma_mod_self_0(n as int);
                        } else {
                            lemma_small_mod((m + 1) as nat, n as nat);
                        }
                    }
                }
                if m + 1 == n {
                    0
                } else {
                    m + 1
                }
            }
            None => 0,
        };
        self.selected = Some(next);
    }

    /// Moves the selection one row up, wrapping from the first row to
    /// the last; with no selection yet it starts at the last row, and on
    /// an empty page there is nothing to select.
    pub fn scroll_previous(&mut self)
        ensures
            Self::scrolled_previous(*old(self), *final(self)),
    {
        let n = self.keys.len();
        if n == 0 {
            self.selected = None;
            return ;
        }
        let prev: usize = match self.selected {
            Some(i) => {
                let m = i % n;
                proof {
                    lemma_mod_bound(i as int, n as int);
                    lemma_add_mod_noop(i as int, n as int - 1, n as int);
                    lemma_small_mod((n - 1) as nat, n as nat);
                    if m == 0 {
                    } else {
                        lemma_mod_add_multiples_vanish(m as int - 1, n as int);
                        lemma_small_mod((m - 1) as nat, n as nat);
                    }
                }
                if m == 0 {
                    n - 1
                } else {
                    m - 1
                }
            }
            None => n - 1,
        };
        self.selected = Some(prev);
    }
}

/// The renderer's handle for the keyspace view; drawing itself lives
/// with the presentation layer.
#[derive(Debug, Clone, Copy)]
pub struct KeySpaceWidget;

} // verus!
