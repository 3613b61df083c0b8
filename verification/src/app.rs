use vstd::prelude::*;

use crate::action::Action;
use crate::event::RedisEvent;
use crate::keybindings::{lookup_spec, KeyBindings, KeyInput};
use crate::keyspace::KeySpace;
use crate::mappings::action_of;
use crate::mode::Mode;
use crate::state::SharedState;
use crate::types::{dup_key_metas, key_meta_matches, KeyspaceState};

verus! {

/// The interface engine: the active mode with its one-level history, the
/// key-presses accumulated since the last tick, the binding tables, the
/// keyspace view, and the quit flag.  Terminal, channels and timers stay
/// with the caller; the engine turns key-presses into actions and
/// actions into state changes and fetch requests.
#[derive(Debug)]
pub struct App {
    pub mode: Mode,
    pub previous_mode: Option<Mode>,
    pub should_quit: bool,
    pub last_tick_key_events: Vec<KeyInput>,
    pub bindings: KeyBindings,
    pub keyspace: KeySpace,
}

impl App {
    /// A fresh engine over the given binding tables, starting in the
    /// keyspace view with an empty page.
    pub fn new(bindings: KeyBindings) -> (r: Self)
        ensures
            r.mode == Mode::KeySpace,
            r.previous_mode is None,
            !r.should_quit,
            r.last_tick_key_events@ == Seq::<KeyInput>::empty(),
            r.bindings == bindings,
            r.keyspace.keys@ == Seq::<crate::types::KeyMeta>::empty(),
            r.keyspace.selected is None,
            r.keyspace.pattern is None,
            r.keyspace.cursor is None,
    {
        App {
            mode: Mode::KeySpace,
            previous_mode: None,
            should_quit: false,
            last_tick_key_events: Vec::new(),
            bindings,
            keyspace: KeySpace::new(Vec::new()),
        }
    }

    /// Accumulates one key-press and tries to resolve the whole sequence
    /// gathered since the last tick: the active mode's table first, then
    /// the mode-independent one; a resolved command is handed back as
    /// its action, an unresolved sequence as nothing.
    pub fn handle_key_event(&mut self, key: KeyInput) -> (r: Option<Action>)
        ensures
            final(self).last_tick_key_events@ == old(self).last_tick_key_events@.push(key),
            final(self).mode == old(self).mode,
            final(self).previous_mode == old(self).previous_mode,
            final(self).should_quit == old(self).should_quit,
            final(self).bindings == old(self).bindings,
            final(self).keyspace == old(self).keyspace,
            r == (match (match lookup_spec(
                old(self).bindings.bindings@,
                old(self).mode,
                old(self).last_tick_key_events@.push(key),
            ) {
                Some(c) => Some(c),
                None => lookup_spec(
                    old(self).bindings.bindings@,
                    Mode::Common,
                    old(self).last_tick_key_events@.push(key),
                ),
            }) {
                Some(c) => Some(action_of(c)),
                None => None,
            }),
    {
        self.last_tick_key_events.push(key);
        let cmd = self.bindings.resolve(self.mode, &self.last_tick_key_events);
        match cmd {
            Some(c) => Some(Action::from(c)),
            None => None,
        }
    }

    /// Makes `mode` the active mode, remembering the one it replaces in
    /// the single "previous mode" slot — only one level of "back" is
    /// recoverable.
    pub fn enter_mode(&mut self, mode: Mode)
        ensures
            final(self).mode == mode,
            final(self).previous_mode == Some(old(self).mode),
            final(self).should_quit == old(self).should_quit,
            final(self).last_tick_key_events == old(self).last_tick_key_events,
            final(self).bindings == old(self).bindings,
            final(self).keyspace == old(self).keyspace,
    {
        self.previous_mode = Some(self.mode);
        self.mode = mode;
    }

    /// Returns to the remembered mode, or to the keyspace view when
    /// nothing is remembered.  The mode being left takes its place in
    /// the single slot, so one level of "back" is always recoverable.
    pub fn switch_to_previous_mode(&mut self)
        ensures
            final(self).mode == (match old(self).previous_mode {
                Some(m) => m,
                None => Mode::KeySpace,
            }),
            final(self).previous_mode == Some(old(self).mode),
            final(self).should_quit == old(self).should_quit,
            final(self).last_tick_key_events == old(self).last_tick_key_events,
            final(self).bindings == old(self).bindings,
            final(self).keyspace == old(self).keyspace,
    {
        let target = match self.previous_mode {
            Some(m) => m,
            None => Mode::KeySpace,
        };
        self.previous_mode = Some(self.mode);
        self.mode = target;
    }

    /// Applies one action to the engine and the shared snapshot, and
    /// says whether a fetch request must be published.
    ///
    /// A tick flushes the key-sequence accumulator; quitting raises the
    /// quit flag; the page actions step the pagination state and ask for
    /// a fetch; scrolling moves the keyspace selection while that view
    /// is active; newly fetched keys are copied into the view.  Render
    /// and resize belong to the presentation layer, and every remaining
    /// action leaves the engine untouched.
    pub fn handle_action(&mut self, action: Action, state: &mut SharedState) -> (emit: Option<
        RedisEvent,
    >)
        ensures
            final(self).bindings == old(self).bindings,
            match action {
                Action::Tick => {
                    &&& final(self).last_tick_key_events@ == Seq::<KeyInput>::empty()
                    &&& final(self).mode == old(self).mode
                    &&& final(self).previous_mode == old(self).previous_mode
                    &&& final(self).should_quit == old(self).should_quit
                    &&& final(self).keyspace == old(self).keyspace
                    &&& *final(state) == *old(state)
                    &&& emit is None
                },
                Action::Quit => {
                    &&& final(self).should_quit
                    &&& final(self).mode == old(self).mode
                    &&& final(self).previous_mode == old(self).previous_mode
                    &&& final(self).last_tick_key_events == old(self).last_tick_key_events
                    &&& final(self).keyspace == old(self).keyspace
                    &&& *final(state) == *old(state)
                    &&& emit is None
                },
                Action::PreviousMode => {
                    &&& final(self).mode == (match old(self).previous_mode {
                        Some(m) => m,
                        None => Mode::KeySpace,
                    })
                    &&& final(self).previous_mode == Some(old(self).mode)
                    &&& final(self).should_quit == old(self).should_quit
                    &&& final(self).last_tick_key_events == old(self).last_tick_key_events
                    &&& final(self).keyspace == old(self).keyspace
                    &&& *final(state) == *old(state)
                    &&& emit is None
                },
                Action::LoadKeySpace => {
                    &&& *final(self) == *old(self)
                    &&& *final(state) == *old(state)
                    &&& emit matches Some(RedisEvent::FetchKeys { cursor: None, pattern: None })
                },
                Action::RefreshSpace => {
                    &&& final(self).keyspace.selected is None
                    &&& final(self).keyspace.keys == old(self).keyspace.keys
                    &&& final(self).keyspace.cursor == old(self).keyspace.cursor
                    &&& final(self).keyspace.pattern == old(self).keyspace.pattern
                    &&& final(self).keyspace.mode == old(self).keyspace.mode
                    &&& final(self).keyspace.input == old(self).keyspace.input
                    &&& final(self).mode == old(self).mode
                    &&& final(self).previous_mode == old(self).previous_mode
                    &&& final(self).should_quit == old(self).should_quit
                    &&& final(self).last_tick_key_events == old(self).last_tick_key_events
                    &&& *final(state) == *old(state)
                    &&& emit matches Some(RedisEvent::FetchKeys { cursor: None, pattern: None })
                },
                Action::LoadKeysIntoKeySpace => {
                    &&& final(self).keyspace.keys@.len() == old(state).keys@.len()
                    &&& (forall|i: int|
                        0 <= i < old(state).keys@.len() ==> key_meta_matches(
                            #[trigger] final(self).keyspace.keys@[i],
                            old(state).keys@[i],
                        ))
                    &&& final(self).keyspace.selected == old(self).keyspace.selected
                    &&& final(self).keyspace.cursor == old(self).keyspace.cursor
                    &&& final(self).keyspace.pattern == old(self).keyspace.pattern
                    &&& final(self).keyspace.mode == old(self).keyspace.mode
                    &&& final(self).keyspace.input == old(self).keyspace.input
                    &&& final(self).mode == old(self).mode
                    &&& final(self).previous_mode == old(self).previous_mode
                    &&& final(self).should_quit == old(self).should_quit
                    &&& final(self).last_tick_key_events == old(self).last_tick_key_events
                    &&& *final(state) == *old(state)
                    &&& emit is None
                },
                Action::ScrollDown => {
                    &&& (if old(self).mode == Mode::KeySpace {
                        KeySpace::scrolled_next(old(self).keyspace, final(self).keyspace)
                    } else {
                        final(self).keyspace == old(self).keyspace
                    })
                    &&& final(self).mode == old(self).mode
                    &&& final(self).previous_mode == old(self).previous_mode
                    &&& final(self).should_quit == old(self).should_quit
                    &&& final(self).last_tick_key_events == old(self).last_tick_key_events
                    &&& *final(state) == *old(state)
                    &&& emit is None
                },
                Action::ScrollUp => {
                    &&& (if old(self).mode == Mode::KeySpace {
                        KeySpace::scrolled_previous(old(self).keyspace, final(self).keyspace)
                    } else {
                        final(self).keyspace == old(self).keyspace
                    })
                    &&& final(self).mode == old(self).mode
                    &&& final(self).previous_mode == old(self).previous_mode
                    &&& final(self).should_quit == old(self).should_quit
                    &&& final(self).last_tick_key_events == old(self).last_tick_key_events
                    &&& *final(state) == *old(state)
                    &&& emit is None
                },
                Action::LoadNextPage => {
                    &&& KeyspaceState::advance_rel(
                        old(state).keyspace_state,
                        final(state).keyspace_state,
                    )
                    &&& final(state).keys == old(state).keys
                    &&& final(state).info == old(state).info
                    &&& final(self).keyspace.cursor == final(state).keyspace_state.cursor
                    &&& final(self).keyspace.pattern == final(state).keyspace_state.pattern
                    &&& final(self).keyspace.selected is None
                    &&& final(self).keyspace.keys == old(self).keyspace.keys
                    &&& final(self).keyspace.mode == old(self).keyspace.mode
                    &&& final(self).keyspace.input == old(self).keyspace.input
                    &&& final(self).mode == old(self).mode
                    &&& final(self).previous_mode == old(self).previous_mode
                    &&& final(self).should_quit == old(self).should_quit
                    &&& final(self).last_tick_key_events == old(self).last_tick_key_events
                    &&& emit matches Some(RedisEvent::FetchKeys { cursor: None, pattern: None })
                },
                Action::LoadPreviousPage => {
                    &&& KeyspaceState::retreat_rel(
                        old(state).keyspace_state,
                        final(state).keyspace_state,
                    )
                    &&& final(state).keys == old(state).keys
                    &&& final(state).info == old(state).info
                    &&& final(self).keyspace.cursor == final(state).keyspace_state.cursor
                    &&& final(self).keyspace.pattern == final(state).keyspace_state.pattern
                    &&& final(self).keyspace.selected is None
                    &&& final(self).keyspace.keys == old(self).keyspace.keys
                    &&& final(self).keyspace.mode == old(self).keyspace.mode
                    &&& final(self).keyspace.input == old(self).keyspace.input
                    &&& final(self).mode == old(self).mode
                    &&& final(self).previous_mode == old(self).previous_mode
                    &&& final(self).should_quit == old(self).should_quit
                    &&& final(self).last_tick_key_events == old(self).last_tick_key_events
                    &&& emit matches Some(RedisEvent::FetchKeys { cursor: None, pattern: None })
                },
                _ => {
                    &&& *final(self) == *old(self)
                    &&& *final(state) == *old(state)
                    &&& emit is None
                },
            },
    {
        match action {
            Action::Tick => {
                self.last_tick_key_events = Vec::new();
                None
            }
            Action::Quit => {
                self.should_quit = true;
                None
            }
            Action::PreviousMode => {
                self.switch_to_previous_mode();
                None
            }
            Action::LoadKeySpace => Some(RedisEvent::FetchKeys { cursor: None, pattern: None }),
            Action::RefreshSpace => {
                self.keyspace.refresh();
                Some(RedisEvent::FetchKeys { cursor: None, pattern: None })
            }
            Action::LoadKeysIntoKeySpace => {
                self.keyspace.set_keys(dup_key_metas(&state.keys));
                None
            }
            Action::ScrollDown => {
                if self.mode == Mode::KeySpace {
                    self.keyspace.scroll_next();
                }
                None
            }
            Action::ScrollUp => {
                if self.mode == Mode::KeySpace {
                    self.keyspace.scroll_previous();
                }
                None
            }
            Action::LoadNextPage => {
                state.keyspace_state.update_cursor();
                let pat = match &state.keyspace_state.pattern {
                    Some(p) => Some(p.clone()),
                    None => None,
                };
                self.keyspace.update_filters(pat, state.keyspace_state.cursor);
                self.keyspace.refresh();
                Some(RedisEvent::FetchKeys { cursor: None, pattern: None })
            }
            Action::LoadPreviousPage => {
                state.keyspace_state.set_previous_cursor();
                let pat = match &state.keyspace_state.pattern {
                    Some(p) => Some(p.clone()),
                    None => None,
                };
                self.keyspace.update_filters(pat, state.keyspace_state.cursor);
                self.keyspace.refresh();
                Some(RedisEvent::FetchKeys { cursor: None, pattern: None })
            }
            _ => None,
        }
    }
}

/// The renderer's handle for the whole application frame; drawing
/// itself lives with the presentation layer.
#[derive(Debug, Clone, Copy)]
pub struct AppWidget;

} // verus!
