//! Decisions around the devices: which input device is the keyboard, which
//! events reach the engine, and which keys the virtual device announces.

use vstd::prelude::*;
use crate::engine::KeyEvent;
use crate::keys::{EV_KEY, MAX_VIRTUAL_KEY};

verus! {

/// `pat` occurs in `s` as a contiguous run.
pub open spec fn contains_seq(s: Seq<char>, pat: Seq<char>) -> bool {
    exists|i: int| 0 <= i && i + pat.len() <= s.len() && #[trigger] s.subrange(i, i + pat.len()) == pat
}

/// Whether `pat` occurs in `hay`.
pub fn contains_str(hay: &str, pat: &str) -> (r: bool)
    ensures
        r == contains_seq(hay@, pat@),
{
    let n = hay.unicode_len();
    let m = pat.unicode_len();
    if m > n {
        return false;
    }
    let mut i: usize = 0;
    while i <= n - m
        invariant
            n == hay@.len(),
            m == pat@.len(),
            m <= n,
            i <= n - m + 1,
            forall|k: int| 0 <= k < i ==> #[trigger] hay@.subrange(k, k + m) != pat@,
        decreases n - m + 1 - i,
    {
        let mut j: usize = 0;
        let mut same = true;
        while j < m
            invariant
                n == hay@.len(),
                m == pat@.len(),
                i + m <= n,
                j <= m,
                same == (forall|t: int| 0 <= t < j ==> hay@[i + t] == pat@[t]),
            decreases m - j,
        {
            if hay.get_char(i + j) != pat.get_char(j) {
                same = false;
            }
            j = j + 1;
        }
        if same {
            assert(hay@.subrange(i as int, i + m) =~= pat@);
            return true;
        }
        proof {
            let sub = hay@.subrange(i as int, i + m);
            let t = choose|t: int| 0 <= t < m && hay@[i + t] != pat@[t];
            assert(sub[t] != pat@[t]);
        }
        i = i + 1;
    }
    false
}

/// The device link names that identify the keyboard.
pub open spec fn is_keyboard_name_spec(name: Seq<char>) -> bool {
    contains_seq(name, "Magic"@) && contains_seq(name, "kbd"@)
}

/// Whether a device link name (under `/dev/input/by-id`) is the keyboard's:
/// it mentions both "Magic" and "kbd".
pub fn is_keyboard_name(name: &str) -> (r: bool)
    ensures
        r == is_keyboard_name_spec(name@),
{
    contains_str(name, "Magic") && contains_str(name, "kbd")
}

/// Whether an event is a key state change, the only class the engine handles.
pub fn is_key_event(event: &KeyEvent) -> (r: bool)
    ensures
        r == (event.event_class == EV_KEY),
{
    event.event_class == EV_KEY
}

/// The key codes that the virtual device announces: 1 to 247, ascending.
pub fn virtual_key_codes() -> (r: Vec<u16>)
    ensures
        r@ == Seq::new(MAX_VIRTUAL_KEY as nat, |i: int| (i + 1) as u16),
{
    let mut codes: Vec<u16> = Vec::new();
    let mut c: u16 = 1;
    while c <= MAX_VIRTUAL_KEY
        invariant
            1 <= c <= MAX_VIRTUAL_KEY + 1,
            codes@ == Seq::new((c - 1) as nat, |i: int| (i + 1) as u16),
        decreases MAX_VIRTUAL_KEY + 1 - c,
    {
        codes.push(c);
        c = c + 1;
        assert(codes@ =~= Seq::new((c - 1) as nat, |i: int| (i + 1) as u16));
    }
    codes
}

} // verus!
