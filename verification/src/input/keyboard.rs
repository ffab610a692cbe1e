//! Keyboard state: which keys are down now, and which were down one frame ago.

use std::collections::HashMap;
use vstd::prelude::*;

use crate::input::frames::KeyFrames;
use crate::input::key::law_code_injective;
pub use crate::input::key::Key;
use crate::platform::{is_own_code_table, key_translation, Event, ExternalKey};
use crate::utils::{bit_is_set, Double};

verus! {

broadcast use vstd::std_specs::hash::group_hash_axioms;

/// All of the keyboard states
///
/// The keyboard holds the table from the key codes of the system to its own
/// keys, the keys that are down now, and the keys that were down when the
/// frame began. Its view is the two sets of keys.
#[derive(Debug, Clone)]
pub struct Keyboard {
    /// External keycode to XDL keycode
    e2x: HashMap<ExternalKey, Key>,
    /// `a` is the current snapshot, `b` the one of the frame before.
    pub(crate) states: Double<KeyboardStateSnapshot>,
}

impl View for Keyboard {
    type V = KeyFrames;

    closed spec fn view(&self) -> KeyFrames {
        KeyFrames { current: self.states.a@, previous: self.states.b@ }
    }
}

impl Default for Keyboard {
    /// The keyboard of a system that reports keys by the library's own
    /// numbers, with no key down.
    fn default() -> (kbd: Keyboard)
        ensures
            kbd@ == KeyFrames::idle(),
            is_own_code_table(kbd.table()),
    {
        Keyboard::new(key_translation())
    }
}

impl Keyboard {
    /// The table from the key codes of the system to the keys.
    pub closed spec fn table(&self) -> Map<ExternalKey, Key> {
        self.e2x@
    }

    /// The key that `external_key` stands for, if the table has it.
    pub open spec fn translated(&self, external_key: ExternalKey) -> Option<Key> {
        if self.table().contains_key(external_key) {
            Some(self.table()[external_key])
        } else {
            None
        }
    }

    /// The keyboard that translates by `e2x`, with no key down.
    pub fn new(e2x: HashMap<ExternalKey, Key>) -> (kbd: Keyboard)
        ensures
            kbd@ == KeyFrames::idle(),
            kbd.table() == e2x@,
    {
        Keyboard {
            e2x,
            states: Double {
                a: KeyboardStateSnapshot::default(),
                b: KeyboardStateSnapshot::default(),
            },
        }
    }

    /// The key that `external_key` stands for, if the table has it.
    pub fn translate(&self, external_key: ExternalKey) -> (key: Option<Key>)
        ensures
            key == self.translated(external_key),
    {
        match self.e2x.get(&external_key) {
            Some(key) => Some(*key),
            None => None,
        }
    }

    /// Ends the frame: what is down now becomes what was down before.
    pub fn on_end_frame(&mut self)
        ensures
            final(self)@ == old(self)@.end_frame(),
            final(self).table() == old(self).table(),
    {
        self.states.b.bits = self.states.a.bits;
    }

    /// Used to implement platform event listening function
    ///
    /// Marks the key that `external_key` stands for as down. A code that the
    /// table lacks changes nothing.
    pub fn on_key_down(&mut self, external_key: ExternalKey)
        ensures
            final(self)@ == match old(self).translated(external_key) {
                Some(key) => old(self)@.key_down(key),
                None => old(self)@,
            },
            final(self).table() == old(self).table(),
    {
        let xdl_key = match self.translate(external_key) {
            Some(key) => key,
            None => return ,
        };
        self.states.a.on_key_down(xdl_key);
    }

    /// Used to implement platform event listening function
    ///
    /// Marks the key that `external_key` stands for as up. A code that the
    /// table lacks changes nothing.
    pub fn on_key_up(&mut self, external_key: ExternalKey)
        ensures
            final(self)@ == match old(self).translated(external_key) {
                Some(key) => old(self)@.key_up(key),
                None => old(self)@,
            },
            final(self).table() == old(self).table(),
    {
        let xdl_key = match self.translate(external_key) {
            Some(key) => key,
            None => return ,
        };
        self.states.a.on_key_up(xdl_key);
    }

    /// What `ev` does to the keys: a key event with a code moves the key
    /// that the code stands for, every other event nothing.
    pub open spec fn after_event(&self, ev: Event) -> KeyFrames {
        match ev {
            Event::KeyDown { keycode: Some(code) } => match self.translated(code) {
                Some(key) => self@.key_down(key),
                None => self@,
            },
            Event::KeyUp { keycode: Some(code) } => match self.translated(code) {
                Some(key) => self@.key_up(key),
                None => self@,
            },
            _ => self@,
        }
    }

    /// Takes in one event of the system.
    pub fn event(&mut self, ev: &Event)
        ensures
            final(self)@ == old(self).after_event(*ev),
            final(self).table() == old(self).table(),
    {
        match ev {
            Event::KeyDown { keycode: Some(code) } => {
                self.on_key_down(*code);
            },
            Event::KeyUp { keycode: Some(code) } => {
                self.on_key_up(*code);
            },
            _ => {},
        }
    }

    /// Forgets every key, now and before.
    pub fn clear(&mut self)
        ensures
            final(self)@ == KeyFrames::idle(),
            final(self).table() == old(self).table(),
    {
        self.states.a = KeyboardStateSnapshot::default();
        self.states.b = KeyboardStateSnapshot::default();
    }

    pub fn is_key_down(&self, key: Key) -> (r: bool)
        ensures
            r == self@.is_down(key),
            key == Key::NoKey ==> !r,
    {
        self.states.a.is_down(key)
    }

    pub fn is_key_up(&self, key: Key) -> (r: bool)
        ensures
            r == self@.is_up(key),
    {
        self.states.a.is_up(key)
    }

    /// Whether `key` was down when the frame began.
    pub fn was_key_down(&self, key: Key) -> (r: bool)
        ensures
            r == self@.previous.contains(key),
    {
        self.states.b.is_down(key)
    }

    /// Whether `key` is down and was up when the frame began.
    pub fn is_key_pressed(&self, key: Key) -> (r: bool)
        ensures
            r == self@.is_pressed(key),
    {
        self.states.b.is_up(key) && self.states.a.is_down(key)
    }

    /// Whether `key` is up and was down when the frame began.
    pub fn is_key_released(&self, key: Key) -> (r: bool)
        ensures
            r == self@.is_released(key),
    {
        self.states.b.is_down(key) && self.states.a.is_up(key)
    }

    /// The keys that are down, by ascending number.
    pub fn pressed_keys(&self) -> (keys: Vec<Key>)
        ensures
            ascending(keys@),
            forall|key: Key| keys@.contains(key) <==> self@.is_down(key),
    {
        self.states.a.pressed_keys()
    }

    /// Whether any of `keys` is down.
    pub fn is_any_key_down(&self, keys: &[Key]) -> (r: bool)
        ensures
            r == exists|i: int| 0 <= i < keys@.len() && self@.is_down(#[trigger] keys@[i]),
    {
        let mut i: usize = 0;
        while i < keys.len()
            invariant
                i <= keys@.len(),
                forall|j: int| 0 <= j < i ==> !self@.is_down(#[trigger] keys@[j]),
            decreases keys@.len() - i,
        {
            if self.is_key_down(keys[i]) {
                return true;
            }
            i = i + 1;
        }
        false
    }

    /// Whether any of `keys` is up.
    pub fn is_any_key_up(&self, keys: &[Key]) -> (r: bool)
        ensures
            r == exists|i: int| 0 <= i < keys@.len() && self@.is_up(#[trigger] keys@[i]),
    {
        let mut i: usize = 0;
        while i < keys.len()
            invariant
                i <= keys@.len(),
                forall|j: int| 0 <= j < i ==> !self@.is_up(#[trigger] keys@[j]),
            decreases keys@.len() - i,
        {
            if self.is_key_up(keys[i]) {
                return true;
            }
            i = i + 1;
        }
        false
    }

    /// Whether any of `keys` is pressed.
    pub fn is_any_key_pressed(&self, keys: &[Key]) -> (r: bool)
        ensures
            r == exists|i: int| 0 <= i < keys@.len() && self@.is_pressed(#[trigger] keys@[i]),
    {
        let mut i: usize = 0;
        while i < keys.len()
            invariant
                i <= keys@.len(),
                forall|j: int| 0 <= j < i ==> !self@.is_pressed(#[trigger] keys@[j]),
            decreases keys@.len() - i,
        {
            if self.is_key_pressed(keys[i]) {
                return true;
            }
            i = i + 1;
        }
        false
    }

    /// Whether any of `keys` is released.
    pub fn is_any_key_released(&self, keys: &[Key]) -> (r: bool)
        ensures
            r == exists|i: int| 0 <= i < keys@.len() && self@.is_released(#[trigger] keys@[i]),
    {
        let mut i: usize = 0;
        while i < keys.len()
            invariant
                i <= keys@.len(),
                forall|j: int| 0 <= j < i ==> !self@.is_released(#[trigger] keys@[j]),
            decreases keys@.len() - i,
        {
            if self.is_key_released(keys[i]) {
                return true;
            }
            i = i + 1;
        }
        false
    }
}

/// [`Key::NoKey`] is never down on any keyboard, and was never down.
pub proof fn law_keyboard_never_holds_no_key(kbd: Keyboard)
    ensures
        kbd@.wf(),
{
}

/// One if bit number `bit` of `word` is one, else zero.
pub open spec fn one_if_set(word: u32, bit: u32) -> nat {
    if bit_is_set(word, bit) {
        1
    } else {
        0
    }
}

/// How many of the `n` lowest bits of `word` are one.
pub open spec fn ones_below(word: u32, n: nat) -> nat
    decreases n,
{
    if n == 0 {
        0
    } else {
        ones_below(word, (n - 1) as nat) + one_if_set(word, (n - 1) as u32)
    }
}

/// How many bits of `word` are one.
pub open spec fn popcount(word: u32) -> nat {
    ones_below(word, 32)
}

/// What setting and clearing one bit does to every bit of a word, and that
/// shifting by five and masking with 31 are division by 32 and its remainder.
proof fn lemma_bit_ops()
    by (bit_vector)
    ensures
        forall|j: u32| j < 32 ==> !#[trigger] bit_is_set(0, j),
        forall|w: u32, b: u32, j: u32|
            b < 32 && j < 32 ==> #[trigger] bit_is_set(w | (1u32 << b), j) == (bit_is_set(w, j)
                || j == b),
        forall|w: u32, b: u32, j: u32|
            b < 32 && j < 32 ==> #[trigger] bit_is_set(w & !(1u32 << b), j) == (bit_is_set(w, j)
                && j != b),
        forall|c: u32| c < 256 ==> #[trigger] (c >> 5) == c / 32 && (c >> 5) < 8,
        forall|c: u32| #[trigger] (c & 0x1f) == c % 32,
{
}

/// The counts of the sixteen pairs of bits of `v`, each in its own two bits.
spec fn pair_counts(v: u32) -> u32 {
    (v - ((v >> 1) & 0x55555555)) as u32
}

/// The counts of the eight groups of four bits of `v`, each in its own four
/// bits.
spec fn nibble_counts(v: u32) -> u32 {
    ((pair_counts(v) & 0x33333333) + ((pair_counts(v) >> 2) & 0x33333333)) as u32
}

/// The counts of the four bytes of `v`, each in its own byte.
spec fn byte_counts(v: u32) -> u32 {
    ((nibble_counts(v) + (nibble_counts(v) >> 4)) as u32) & 0xF0F0F0F
}

/// The sum of the four byte counts: the top byte of their product with the
/// number that has a one in every byte.
spec fn folded_count(v: u32) -> u32 {
    (((byte_counts(v) * 0x1010101) % 0x1_0000_0000) as u32) >> 24
}

/// The parallel count never overflows on its way, and it is the number of
/// ones.
proof fn lemma_parallel_count(v: u32)
    by (bit_vector)
    ensures
        ((v >> 1) & 0x55555555) <= v,
        (pair_counts(v) & 0x33333333) + ((pair_counts(v) >> 2) & 0x33333333) <= 0x66666666,
        nibble_counts(v) + (nibble_counts(v) >> 4) <= 0xFFFFFFFF,
        folded_count(v) == one_if_set(v, 0) + one_if_set(v, 1) + one_if_set(v, 2) + one_if_set(v, 3)
            + one_if_set(v, 4) + one_if_set(v, 5) + one_if_set(v, 6) + one_if_set(v, 7)
            + one_if_set(v, 8) + one_if_set(v, 9) + one_if_set(v, 10) + one_if_set(v, 11)
            + one_if_set(v, 12) + one_if_set(v, 13) + one_if_set(v, 14) + one_if_set(v, 15)
            + one_if_set(v, 16) + one_if_set(v, 17) + one_if_set(v, 18) + one_if_set(v, 19)
            + one_if_set(v, 20) + one_if_set(v, 21) + one_if_set(v, 22) + one_if_set(v, 23)
            + one_if_set(v, 24) + one_if_set(v, 25) + one_if_set(v, 26) + one_if_set(v, 27)
            + one_if_set(v, 28) + one_if_set(v, 29) + one_if_set(v, 30) + one_if_set(v, 31),
        (folded_count(v) == 0) == (v == 0),
{
}

/// The ones below a limit are never more than the limit.
proof fn lemma_ones_below_bound(v: u32, n: nat)
    ensures
        ones_below(v, n) <= n,
    decreases n,
{
    if n > 0 {
        lemma_ones_below_bound(v, (n - 1) as nat);
    }
}

/// The ones of a word, bit by bit.
proof fn lemma_ones_below_unfolds(v: u32)
    ensures
        popcount(v) == one_if_set(v, 0) + one_if_set(v, 1) + one_if_set(v, 2) + one_if_set(v, 3)
            + one_if_set(v, 4) + one_if_set(v, 5) + one_if_set(v, 6) + one_if_set(v, 7)
            + one_if_set(v, 8) + one_if_set(v, 9) + one_if_set(v, 10) + one_if_set(v, 11)
            + one_if_set(v, 12) + one_if_set(v, 13) + one_if_set(v, 14) + one_if_set(v, 15)
            + one_if_set(v, 16) + one_if_set(v, 17) + one_if_set(v, 18) + one_if_set(v, 19)
            + one_if_set(v, 20) + one_if_set(v, 21) + one_if_set(v, 22) + one_if_set(v, 23)
            + one_if_set(v, 24) + one_if_set(v, 25) + one_if_set(v, 26) + one_if_set(v, 27)
            + one_if_set(v, 28) + one_if_set(v, 29) + one_if_set(v, 30) + one_if_set(v, 31),
{
    reveal_with_fuel(ones_below, 9);
    assert(ones_below(v, 8) == one_if_set(v, 0) + one_if_set(v, 1) + one_if_set(v, 2) + one_if_set(v, 3)
        + one_if_set(v, 4) + one_if_set(v, 5) + one_if_set(v, 6) + one_if_set(v, 7));
    assert(ones_below(v, 16) == ones_below(v, 8) + one_if_set(v, 8) + one_if_set(v, 9) + one_if_set(v, 10) + one_if_set(v, 11)
        + one_if_set(v, 12) + one_if_set(v, 13) + one_if_set(v, 14) + one_if_set(v, 15));
    assert(ones_below(v, 24) == ones_below(v, 16) + one_if_set(v, 16) + one_if_set(v, 17) + one_if_set(v, 18) + one_if_set(v, 19)
        + one_if_set(v, 20) + one_if_set(v, 21) + one_if_set(v, 22) + one_if_set(v, 23));
    assert(ones_below(v, 32) == ones_below(v, 24) + one_if_set(v, 24) + one_if_set(v, 25) + one_if_set(v, 26) + one_if_set(v, 27)
        + one_if_set(v, 28) + one_if_set(v, 29) + one_if_set(v, 30) + one_if_set(v, 31));
}

/// Whether the numbers of the keys of `keys` rise strictly from each key to
/// the next.
pub open spec fn ascending(keys: Seq<Key>) -> bool {
    forall|i: int, j: int| 0 <= i < j < keys.len() ==> keys[i].code() < keys[j].code()
}

/// A sequence with one more key holds that key and what it held before.
proof fn lemma_push_contains(keys: Seq<Key>, key: Key, k: Key)
    ensures
        keys.push(key).contains(k) <==> keys.contains(k) || k == key,
{
    if keys.contains(k) {
        let i = choose|i: int| 0 <= i < keys.len() && keys[i] == k;
        assert(keys.push(key)[i] == k);
    }
    if k == key {
        assert(keys.push(key)[keys.len() as int] == k);
    }
}

/// A key with a greater number than all before it keeps the order.
proof fn lemma_push_ascending(keys: Seq<Key>, key: Key)
    requires
        ascending(keys),
        forall|i: int| 0 <= i < keys.len() ==> (#[trigger] keys[i]).code() < key.code(),
    ensures
        ascending(keys.push(key)),
{
}

/// The parallel count is the number of ones, and zero only for zero.
proof fn lemma_folded_count_is_popcount(v: u32)
    ensures
        folded_count(v) == popcount(v),
        (folded_count(v) == 0) == (v == 0),
{
    lemma_parallel_count(v);
    lemma_ones_below_unfolds(v);
}

/// 256 bits for key states (up or down)
///
/// Bit `c % 32` of word `c / 32` says whether the key with the number `c` is
/// down. Compare two snapshots to see if a key is pressed or released.
#[derive(Debug, Clone, Copy)]
pub struct KeyboardStateSnapshot {
    pub bits: [u32; 8],
}

impl View for KeyboardStateSnapshot {
    type V = Set<Key>;

    /// The keys that are down.
    open spec fn view(&self) -> Set<Key> {
        Set::new(|key: Key| self.spec_is_down(key))
    }
}

impl Default for KeyboardStateSnapshot {
    /// The snapshot in which no key is down.
    fn default() -> (s: KeyboardStateSnapshot)
        ensures
            s@ == Set::<Key>::empty(),
    {
        let s = KeyboardStateSnapshot { bits: [0;8] };
        proof {
            lemma_bit_ops();
            assert(s@ =~= Set::<Key>::empty());
        }
        s
    }
}

impl KeyboardStateSnapshot {
    /// Whether the bit of `key` is one: bit `code % 32` of word `code / 32`.
    /// [`Key::NoKey`] is never down.
    pub open spec fn spec_is_down(&self, key: Key) -> bool {
        key != Key::NoKey && bit_is_set(
            self.bits[(key.code() / 32) as int],
            (key.code() % 32) as u32,
        )
    }

    /// The place of the word that holds the bit of `key`.
    pub open spec fn word_of(key: Key) -> int {
        key.code() as int / 32
    }

    /// The word with only the bit of `key`.
    pub open spec fn mask_of(key: Key) -> u32 {
        1u32 << ((key.code() % 32) as u32)
    }

    /// Marks `key` as down: its bit is set in its word and the other seven
    /// words stay. [`Key::NoKey`] is ignored.
    pub fn on_key_down(&mut self, key: Key)
        ensures
            final(self)@ == if key == Key::NoKey {
                old(self)@
            } else {
                old(self)@.insert(key)
            },
            final(self).bits@ == if key == Key::NoKey {
                old(self).bits@
            } else {
                old(self).bits@.update(
                    Self::word_of(key),
                    old(self).bits[Self::word_of(key)] | Self::mask_of(key),
                )
            },
    {
        if key == Key::NoKey {
            return ;
        }
        let code: u32 = key.code();
        proof {
            lemma_bit_ops();
        }
        let mask: u32 = 1u32 << (code & 0x1f);
        let ix: usize = (code >> 5) as usize;
        self.bits[ix] = self.bits[ix] | mask;
        proof {
            assert forall|k: Key| self.spec_is_down(k) == (old(self).spec_is_down(k) || k == key) by {
                law_code_injective(k, key);
            }
            assert(self@ =~= old(self)@.insert(key));
        }
    }

    /// Marks `key` as up: its bit is cleared in its word and the other seven
    /// words stay.
    pub fn on_key_up(&mut self, key: Key)
        ensures
            final(self)@ == old(self)@.remove(key),
            final(self).bits@ == old(self).bits@.update(
                Self::word_of(key),
                old(self).bits[Self::word_of(key)] & !Self::mask_of(key),
            ),
    {
        let code: u32 = key.code();
        proof {
            lemma_bit_ops();
        }
        let mask: u32 = 1u32 << (code & 0x1f);
        let ix: usize = (code >> 5) as usize;
        self.bits[ix] = self.bits[ix] & !mask;
        proof {
            assert forall|k: Key| self.spec_is_down(k) == (old(self).spec_is_down(k) && k != key) by {
                law_code_injective(k, key);
            }
            assert(self@ =~= old(self)@.remove(key));
        }
    }

    #[verifier::when_used_as_spec(spec_is_down)]
    pub fn is_down(&self, key: Key) -> (r: bool)
        ensures
            r == self.spec_is_down(key),
            r == self@.contains(key),
    {
        if key == Key::NoKey {
            return false;
        }
        let code: u32 = key.code();
        proof {
            lemma_bit_ops();
        }
        let mask: u32 = 1u32 << (code & 0x1f);
        let ix: usize = (code >> 5) as usize;
        (self.bits[ix] & mask) != 0
    }

    pub open spec fn spec_is_up(&self, key: Key) -> bool {
        !self.spec_is_down(key)
    }

    #[verifier::when_used_as_spec(spec_is_up)]
    pub fn is_up(&self, key: Key) -> (r: bool)
        ensures
            r == !self@.contains(key),
    {
        !self.is_down(key)
    }

    /// The keys that are down and whose numbers are below `limit`.
    pub open spec fn down_below(&self, limit: int) -> Set<Key> {
        Set::new(|key: Key| self.spec_is_down(key) && key.code() < limit)
    }

    /// The keys that are down, by ascending number.
    ///
    /// The words of the bitset are counted first: with no bit set nothing is
    /// scanned, and a word without bits is skipped.
    pub fn pressed_keys(&self) -> (keys: Vec<Key>)
        ensures
            ascending(keys@),
            forall|key: Key| keys@.contains(key) <==> self@.contains(key),
    {
        let mut count: usize = 0;
        let mut w: usize = 0;
        while w < 8
            invariant
                w <= 8,
                count <= 32 * w,
                count == 0 ==> forall|i: int| 0 <= i < w ==> self.bits[i] == 0,
            decreases 8 - w,
        {
            let n: u32 = Self::count_bits(self.bits[w]);
            proof {
                lemma_ones_below_bound(self.bits[w as int], 32);
            }
            count = count + n as usize;
            w = w + 1;
        }
        if count == 0 {
            proof {
                lemma_bit_ops();
            }
            return Vec::new();
        }
        let mut keys: Vec<Key> = Vec::with_capacity(count);
        let mut w: u32 = 0;
        while w < 8
            invariant
                w <= 8,
                ascending(keys@),
                forall|key: Key| keys@.contains(key) <==> self.down_below(32 * w).contains(key),
            decreases 8 - w,
        {
            let word: u32 = self.bits[w as usize];
            if word != 0 {
                proof {
                    assert forall|i: int| 0 <= i < keys@.len() implies (#[trigger] keys@[i]).code()
                        < 32 * w by {
                        assert(keys@.contains(keys@[i]));
                    }
                }
                Self::store_keys(word, w * 32, &mut keys);
            } else {
                proof {
                    lemma_bit_ops();
                }
            }
            w = w + 1;
        }
        proof {
            assert forall|key: Key| self.down_below(256).contains(key) == self@.contains(key) by {
                law_code_injective(key, key);
            }
        }
        keys
    }

    /// Appends to `pressed_keys` the keys with a number from `offset` up to
    /// `offset + 31` whose bit in `keys` is one, bit 0 standing for `offset`.
    /// They come by ascending number.
    fn store_keys(keys: u32, offset: u32, pressed_keys: &mut Vec<Key>)
        requires
            offset % 32 == 0,
            offset <= 224,
            ascending(old(pressed_keys)@),
            forall|i: int|
                0 <= i < old(pressed_keys)@.len() ==> (#[trigger] old(pressed_keys)@[i]).code()
                    < offset,
        ensures
            ascending(final(pressed_keys)@),
            forall|key: Key|
                final(pressed_keys)@.contains(key) <==> old(pressed_keys)@.contains(key) || (key
                    != Key::NoKey && offset <= key.code() < offset + 32 && bit_is_set(
                    keys,
                    (key.code() - offset) as u32,
                )),
    {
        let mut i: u32 = 0;
        while i < 32
            invariant
                i <= 32,
                offset <= 224,
                ascending(pressed_keys@),
                forall|j: int|
                    0 <= j < pressed_keys@.len() ==> (#[trigger] pressed_keys@[j]).code() < offset
                        + i,
                forall|key: Key|
                    pressed_keys@.contains(key) <==> old(pressed_keys)@.contains(key) || (key
                        != Key::NoKey && offset <= key.code() < offset + i && bit_is_set(
                        keys,
                        (key.code() - offset) as u32,
                    )),
            decreases 32 - i,
        {
            let ghost before = pressed_keys@;
            let found: Option<Key> = if (keys & (1u32 << i)) != 0 {
                Key::from_code(offset + i)
            } else {
                None
            };
            match found {
                Some(key) => {
                    if key != Key::NoKey {
                        pressed_keys.push(key);
                        proof {
                            lemma_push_ascending(before, key);
                        }
                    }
                },
                None => {},
            }
            proof {
                assert forall|k: Key|
                    pressed_keys@.contains(k) <==> old(pressed_keys)@.contains(k) || (k
                        != Key::NoKey && offset <= k.code() < offset + i + 1 && bit_is_set(
                        keys,
                        (k.code() - offset) as u32,
                    )) by {
                    match found {
                        Some(key) => {
                            law_code_injective(k, key);
                            if key != Key::NoKey {
                                lemma_push_contains(before, key, k);
                            }
                        },
                        None => {},
                    }
                }
            }
            i = i + 1;
        }
    }

    /// How many bits of `key` are one, counted in parallel: first within
    /// pairs of bits, then within groups of four, then within bytes, whose
    /// four counts one multiplication adds up.
    ///
    /// After <http://graphics.stanford.edu/~seander/bithacks.html#CountBitsSetParallel>.
    pub fn count_bits(key: u32) -> (n: u32)
        ensures
            n == popcount(key),
            (n == 0) == (key == 0),
    {
        proof {
            lemma_parallel_count(key);
            lemma_folded_count_is_popcount(key);
        }
        let mut v: u32 = key;
        v = v - ((v >> 1) & 0x55555555);
        v = (v & 0x33333333) + ((v >> 2) & 0x33333333);
        ((v + (v >> 4) & 0xF0F0F0F).wrapping_mul(0x1010101)) >> 24
    }
}

} // verus!
