//! What the library needs to know of the system that delivers the events.
//!
//! A windowing system has key codes and events of its own. The library reads
//! two things from them: the code of a key that went down or up, and how far
//! the mouse wheel turned. Whoever pumps the events of a real system builds
//! an [`Event`] from each, and hands the keyboard a table from the system's
//! key codes to [`Key`]s.

use std::collections::HashMap;
use vstd::prelude::*;

use crate::input::key::law_code_injective;
use crate::input::key::Key;

verus! {

broadcast use vstd::std_specs::hash::group_hash_axioms;

/// A key code of the system that delivers the events.
pub type ExternalKey = u32;

/// An event of the system that delivers the events.
#[derive(Debug, Clone, Copy, PartialEq, Eq, Structural)]
pub enum Event {
    /// A key went down. The code is missing where the system has none for it.
    KeyDown { keycode: Option<ExternalKey> },
    /// A key went up.
    KeyUp { keycode: Option<ExternalKey> },
    /// The mouse wheel turned by `y` notches.
    MouseWheel { y: i32 },
    /// Anything else.
    Other,
}

/// Whether `table` sends the number of every key but [`Key::NoKey`] to that
/// key, and no other code to anything.
pub open spec fn is_own_code_table(table: Map<ExternalKey, Key>) -> bool {
    &&& forall|key: Key|
        key != Key::NoKey ==> table.contains_key(#[trigger] key.code()) && table[key.code()] == key
    &&& forall|code: ExternalKey| #[trigger]
        table.contains_key(code) ==> table[code].code() == code && table[code] != Key::NoKey
}

/// The table for a system that reports keys by the library's own numbers.
pub fn key_translation() -> (table: HashMap<ExternalKey, Key>)
    ensures
        is_own_code_table(table@),
{
    let mut table: HashMap<ExternalKey, Key> = HashMap::new();
    let mut code: u32 = 0;
    while code < 256
        invariant
            code <= 256,
            forall|key: Key|
                key != Key::NoKey && key.code() < code ==> table@.contains_key(
                    #[trigger] key.code(),
                ) && table@[key.code()] == key,
            forall|c: ExternalKey| #[trigger]
                table@.contains_key(c) ==> c < code && table@[c].code() == c && table@[c]
                    != Key::NoKey,
        decreases 256 - code,
    {
        match Key::from_code(code) {
            Some(key) => {
                if key != Key::NoKey {
                    table.insert(code, key);
                }
                proof {
                    assert forall|k: Key| k.code() == code implies k == key by {
                        law_code_injective(k, key);
                    }
                }
            },
            None => {},
        }
        code = code + 1;
    }
    proof {
        assert forall|key: Key| key.code() < 256 by {
            law_code_injective(key, key);
        }
    }
    table
}

} // verus!
