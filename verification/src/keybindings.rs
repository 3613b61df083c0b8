use vstd::prelude::*;

use crate::command::Command;
use crate::mode::Mode;

verus! {

/// One raw key-press, reduced to what binding tables distinguish.
#[derive(Debug, Clone, Copy, PartialEq, Eq, Hash, Structural)]
pub enum KeyInput {
    Char(char),
    Esc,
    Enter,
    Backspace,
    Tab,
    Up,
    Down,
    Left,
    Right,
}

/// One binding: in mode `mode`, the exact key sequence `keys` means
/// `command`.
#[derive(Debug, Clone)]
pub struct KeyBinding {
    pub mode: Mode,
    pub keys: Vec<KeyInput>,
    pub command: Command,
}

/// The first binding for `mode` whose sequence equals `keys` whole — a
/// strict prefix of a longer binding never matches.
pub open spec fn lookup_spec(bs: Seq<KeyBinding>, mode: Mode, keys: Seq<KeyInput>) -> Option<
    Command,
>
    decreases bs.len(),
{
    if bs.len() == 0 {
        None
    } else if bs[0].mode == mode && bs[0].keys@ == keys {
        Some(bs[0].command)
    } else {
        lookup_spec(bs.drop_first(), mode, keys)
    }
}

/// A mode-scoped table of multi-keystroke bindings.
#[derive(Debug, Clone)]
pub struct KeyBindings {
    pub bindings: Vec<KeyBinding>,
}

fn keys_eq(a: &Vec<KeyInput>, b: &Vec<KeyInput>) -> (r: bool)
    ensures
        r == (a@ == b@),
{
    if a.len() != b.len() {
        return false;
    }
    let n = a.len();
    let mut i: usize = 0;
    while i < n
        invariant
            n == a@.len(),
            n == b@.len(),
            i <= n,
            forall|j: int| 0 <= j < i ==> a@[j] == b@[j],
        decreases n - i,
    {
        if a[i] != b[i] {
            return false;
        }
        i += 1;
    }
    proof {
        assert(a@ =~= b@);
    }
    true
}

impl KeyBindings {
    /// An empty table: nothing resolves.
    pub fn new() -> (r: Self)
        ensures
            r.bindings@ == Seq::<KeyBinding>::empty(),
    {
        KeyBindings { bindings: Vec::new() }
    }

    /// Adds a binding; earlier bindings take precedence.
    pub fn bind(&mut self, mode: Mode, keys: Vec<KeyInput>, command: Command)
        ensures
            final(self).bindings@.len() == old(self).bindings@.len() + 1,
            final(self).bindings@.drop_last() == old(self).bindings@,
            final(self).bindings@.last().mode == mode,
            final(self).bindings@.last().keys == keys,
            final(self).bindings@.last().command == command,
    {
        self.bindings.push(KeyBinding { mode, keys, command });
        proof {
            assert(self.bindings@.drop_last() =~= old(self).bindings@);
        }
    }

    /// Looks the sequence up in the table scoped to `mode` alone.
    #[verifier::loop_isolation(false)]
    pub fn event_to_command(&self, mode: Mode, events: &Vec<KeyInput>) -> (r: Option<Command>)
        ensures
            r == lookup_spec(self.bindings@, mode, events@),
    {
        let ghost full = self.bindings@;
        let n = self.bindings.len();
        let mut i: usize = 0;
        proof {
            assert(full.skip(0) =~= full);
        }
        while i < n
            invariant
                i <= n,
                lookup_spec(full, mode, events@) == lookup_spec(
                    full.skip(i as int),
                    mode,
                    events@,
                ),
            decreases n - i,
        {
            let b = &self.bindings[i];
            proof {
                assert(full.skip(i as int)[0] == full[i as int]);
                assert(full.skip(i as int).drop_first() =~= full.skip(i as int + 1));
            }
            if b.mode == mode {
                if keys_eq(&b.keys, events) {
                    return Some(b.command);
                }
            }
            i += 1;
        }
        None
    }

    /// Resolves an accumulated key sequence: an exact, whole-sequence
    /// match in the table of the active mode wins; failing that, the
    /// mode-independent table; failing both, the sequence stays
    /// unresolved.
    pub fn resolve(&self, mode: Mode, events: &Vec<KeyInput>) -> (r: Option<Command>)
        ensures
            r == (match lookup_spec(self.bindings@, mode, events@) {
                Some(c) => Some(c),
                None => lookup_spec(self.bindings@, Mode::Common, events@),
            }),
    {
        match self.event_to_command(mode, events) {
            Some(c) => Some(c),
            None => self.event_to_command(Mode::Common, events),
        }
    }
}

} // verus!
