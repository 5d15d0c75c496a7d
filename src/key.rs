use crate::error::ConfigError;
use vstd::prelude::*;

verus! {

/// A keyboard input as the application dispatches on it.
#[derive(Clone, Copy, Debug, PartialEq, Eq, Structural)]
pub enum Key {
    /// A plain character.
    Char(char),
    /// A character pressed with the control modifier.
    Ctrl(char),
    /// A character pressed with the alt modifier.
    Alt(char),
    Left,
    Right,
    Up,
    Down,
    Backspace,
    Delete,
    Esc,
    PageUp,
    PageDown,
}

/// The keys that the application keeps for core navigation, in the order
/// they are checked.
pub open spec fn reserved_keys() -> Seq<Key> {
    seq![
        Key::Char('h'),
        Key::Char('j'),
        Key::Char('k'),
        Key::Char('l'),
        Key::Up,
        Key::Down,
        Key::Left,
        Key::Right,
        Key::Backspace,
        Key::Char('\n'),
    ]
}

/// Whether `k` is kept for core navigation and cannot be rebound.
pub open spec fn is_reserved(k: Key) -> bool {
    reserved_keys().contains(k)
}

/// Fails with `ReservedKey` exactly when `key` is one of the reserved keys.
pub fn check_reserved_keys(key: &Key) -> (r: Result<(), ConfigError>)
    ensures
        r is Ok <==> !is_reserved(*key),
        r is Err ==> r->Err_0 == (ConfigError::ReservedKey { key: *key }),
{
    let reserved: [Key; 10] = [
        Key::Char('h'),
        Key::Char('j'),
        Key::Char('k'),
        Key::Char('l'),
        Key::Up,
        Key::Down,
        Key::Left,
        Key::Right,
        Key::Backspace,
        Key::Char('\n'),
    ];
    assert(reserved@ =~= reserved_keys());
    let mut i: usize = 0;
    while i < 10
        invariant
            i <= 10,
            reserved@ == reserved_keys(),
            forall|j: int| 0 <= j < i ==> *key != reserved@[j],
        decreases 10 - i,
    {
        if *key == reserved[i] {
            return Err(ConfigError::ReservedKey { key: *key });
        }
        i = i + 1;
    }
    Ok(())
}

} // verus!
