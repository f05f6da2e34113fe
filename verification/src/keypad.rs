use vstd::prelude::*;

verus! {

/// Number of keys, `0` to `F`.
pub const KEY_COUNT: usize = 16;

/// No key pressed.
pub open spec fn all_released() -> Seq<bool> {
    Seq::new(KEY_COUNT as nat, |k: int| false)
}

/// Whether key `key` is held down. A number that names no key is the number
/// of a key that is not held down.
pub open spec fn key_down(keys: Seq<bool>, key: int) -> bool {
    0 <= key < KEY_COUNT && keys[key]
}

/// Whether any key is held down.
pub open spec fn any_key_down(keys: Seq<bool>) -> bool {
    exists|key: int| key_down(keys, key)
}

/// Whether `key` is held down and no key with a lower number is.
pub open spec fn is_lowest_key_down(keys: Seq<bool>, key: int) -> bool {
    key_down(keys, key) && forall|lower: int| 0 <= lower < key ==> !key_down(keys, lower)
}

/// The lowest-numbered key that is held down, where any is.
pub open spec fn lowest_key_down(keys: Seq<bool>) -> int {
    choose|key: int| is_lowest_key_down(keys, key)
}

/// The lowest key held down is the only one that `is_lowest_key_down` holds of.
pub proof fn lemma_lowest_key_down_unique(keys: Seq<bool>, key: int)
    requires
        is_lowest_key_down(keys, key),
    ensures
        lowest_key_down(keys) == key,
        any_key_down(keys),
{
    let chosen = lowest_key_down(keys);
    assert(is_lowest_key_down(keys, chosen));
    if chosen < key {
        assert(!key_down(keys, chosen));
    }
    if key < chosen {
        assert(!key_down(keys, key));
    }
}

/// The state of the sixteen keys.
pub struct Keypad {
    keys: [bool; 16],
}

impl View for Keypad {
    type V = Seq<bool>;

    closed spec fn view(&self) -> Seq<bool> {
        self.keys@
    }
}

impl Keypad {
    /// A keypad with no key pressed.
    pub fn new() -> (keypad: Keypad)
        ensures
            keypad@ == all_released(),
    {
        let keypad = Keypad { keys: [false; 16] };
        assert(keypad@ =~= all_released());
        keypad
    }

    /// Every view of a keypad has exactly `KEY_COUNT` keys.
    pub proof fn lemma_len(&self)
        ensures
            self@.len() == KEY_COUNT,
    {
    }

    /// Records that key `key` was pressed or released.
    pub fn set(&mut self, key: usize, pressed: bool)
        requires
            key < KEY_COUNT,
        ensures
            final(self)@ == old(self)@.update(key as int, pressed),
    {
        self.keys[key] = pressed;
    }

    /// Whether key `key` is held down.
    pub fn is_down(&self, key: u8) -> (down: bool)
        ensures
            down == key_down(self@, key as int),
    {
        (key as usize) < KEY_COUNT && self.keys[key as usize]
    }

    /// The lowest-numbered key that is held down, or `None` where no key is.
    pub fn first_down(&self) -> (found: Option<u8>)
        ensures
            match found {
                Some(key) => is_lowest_key_down(self@, key as int),
                None => !any_key_down(self@),
            },
    {
        let mut key: u8 = 0;
        while key < 16
            invariant
                key <= 16,
                forall|lower: int| 0 <= lower < key ==> !key_down(self@, lower),
            decreases 16 - key,
        {
            if self.keys[key as usize] {
                return Some(key);
            }
            key = key + 1;
        }
        None
    }
}

} // verus!
