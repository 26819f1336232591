//! Input state: which directional keys are currently held, and the fixed
//! table mapping key identifier strings to logical directions.

use vstd::prelude::*;
use vstd::string::StrSliceExecFns;

verus! {

/// One of the four logical movement directions.
#[derive(Clone, Copy, Debug, PartialEq, Eq, Structural)]
pub enum Dir {
    Up,
    Down,
    Left,
    Right,
}

/// A record of the directional keys currently held. Each flag reflects
/// whether the corresponding key is physically down (last event wins).
#[derive(Clone, Copy, Debug, PartialEq, Eq, Structural)]
pub struct InputState {
    pub up: bool,
    pub down: bool,
    pub left: bool,
    pub right: bool,
}

/// Character-for-character string equality, proved against the views.
pub fn str_eq(a: &str, b: &str) -> (r: bool)
    ensures
        r == (a@ == b@),
{
    let na = a.unicode_len();
    let nb = b.unicode_len();
    if na != nb {
        return false;
    }
    let mut i: usize = 0;
    while i < na
        invariant
            i <= na,
            na == a@.len(),
            na == b@.len(),
            forall|j: int| 0 <= j < i ==> a@[j] == b@[j],
        decreases na - i,
    {
        if a.get_char(i) != b.get_char(i) {
            return false;
        }
        i = i + 1;
    }
    proof {
        assert(a@ =~= b@);
    }
    true
}

/// The fixed key table: {ArrowUp, w, W} map to Up, {ArrowDown, s, S} to
/// Down, {ArrowLeft, a, A} to Left, {ArrowRight, d, D} to Right; every
/// other key identifier is unrecognized.
pub open spec fn key_dir(k: Seq<char>) -> Option<Dir> {
    if k == "ArrowUp"@ || k == "w"@ || k == "W"@ {
        Some(Dir::Up)
    } else if k == "ArrowDown"@ || k == "s"@ || k == "S"@ {
        Some(Dir::Down)
    } else if k == "ArrowLeft"@ || k == "a"@ || k == "A"@ {
        Some(Dir::Left)
    } else if k == "ArrowRight"@ || k == "d"@ || k == "D"@ {
        Some(Dir::Right)
    } else {
        None
    }
}

/// Looks a key identifier up in the fixed key table.
pub fn key_to_dir(key: &str) -> (d: Option<Dir>)
    ensures
        d == key_dir(key@),
{
    if str_eq(key, "ArrowUp") || str_eq(key, "w") || str_eq(key, "W") {
        Some(Dir::Up)
    } else if str_eq(key, "ArrowDown") || str_eq(key, "s") || str_eq(key, "S") {
        Some(Dir::Down)
    } else if str_eq(key, "ArrowLeft") || str_eq(key, "a") || str_eq(key, "A") {
        Some(Dir::Left)
    } else if str_eq(key, "ArrowRight") || str_eq(key, "d") || str_eq(key, "D") {
        Some(Dir::Right)
    } else {
        None
    }
}

/// The flag of `s` that tracks direction `d`.
pub open spec fn flag(s: InputState, d: Dir) -> bool {
    match d {
        Dir::Up => s.up,
        Dir::Down => s.down,
        Dir::Left => s.left,
        Dir::Right => s.right,
    }
}

/// `s` with the flag for `d` set to `v` and the other three unchanged.
pub open spec fn with_flag(s: InputState, d: Dir, v: bool) -> InputState {
    match d {
        Dir::Up => InputState { up: v, ..s },
        Dir::Down => InputState { down: v, ..s },
        Dir::Left => InputState { left: v, ..s },
        Dir::Right => InputState { right: v, ..s },
    }
}

/// The state after a key-down event for key identifier `k`.
pub open spec fn spec_key_down(s: InputState, k: Seq<char>) -> InputState {
    match key_dir(k) {
        Some(d) => with_flag(s, d, true),
        None => s,
    }
}

/// The state after a key-up event for key identifier `k`.
pub open spec fn spec_key_up(s: InputState, k: Seq<char>) -> InputState {
    match key_dir(k) {
        Some(d) => with_flag(s, d, false),
        None => s,
    }
}

impl InputState {
    /// All flags false: the state at startup, before any key event.
    pub open spec fn initial() -> InputState {
        InputState { up: false, down: false, left: false, right: false }
    }

    pub fn new() -> (s: InputState)
        ensures
            s == InputState::initial(),
    {
        InputState { up: false, down: false, left: false, right: false }
    }

    /// Applies a key-down event: sets the mapped flag true (idempotently);
    /// unrecognized keys change nothing.
    pub fn key_down(&mut self, key: &str)
        ensures
            *final(self) == spec_key_down(*old(self), key@),
    {
        match key_to_dir(key) {
            Some(Dir::Up) => self.up = true,
            Some(Dir::Down) => self.down = true,
            Some(Dir::Left) => self.left = true,
            Some(Dir::Right) => self.right = true,
            None => {},
        }
    }

    /// Applies a key-up event: sets the mapped flag false (idempotently);
    /// unrecognized keys change nothing.
    pub fn key_up(&mut self, key: &str)
        ensures
            *final(self) == spec_key_up(*old(self), key@),
    {
        match key_to_dir(key) {
            Some(Dir::Up) => self.up = false,
            Some(Dir::Down) => self.down = false,
            Some(Dir::Left) => self.left = false,
            Some(Dir::Right) => self.right = false,
            None => {},
        }
    }
}

/// Law: a key-down for a recognized key sets exactly the one flag of its
/// direction true and leaves the other three flags as they were; a key-up
/// sets exactly that one flag false; an unrecognized key changes no flag.
pub proof fn lemma_key_event_touches_one_flag(s: InputState, k: Seq<char>)
    ensures
        key_dir(k) matches Some(d) ==> {
            &&& flag(spec_key_down(s, k), d)
            &&& !flag(spec_key_up(s, k), d)
            &&& forall|d2: Dir| d2 != d ==> flag(spec_key_down(s, k), d2) == flag(s, d2)
            &&& forall|d2: Dir| d2 != d ==> flag(spec_key_up(s, k), d2) == flag(s, d2)
        },
        key_dir(k) is None ==> spec_key_down(s, k) == s && spec_key_up(s, k) == s,
{
    if let Some(d) = key_dir(k) {
        assert forall|d2: Dir| d2 != d implies flag(spec_key_down(s, k), d2) == flag(s, d2) by {
        }
        assert forall|d2: Dir| d2 != d implies flag(spec_key_up(s, k), d2) == flag(s, d2) by {
        }
    }
}

} // verus!
