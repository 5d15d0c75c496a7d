use crate::error::ConfigError;
use crate::key::{check_reserved_keys, is_reserved, Key};
use crate::parse::{key_of, parse_error, parse_key};
use vstd::prelude::*;

verus! {

/// The number of actions that a key can be bound to.
pub const ACTION_COUNT: usize = 15;

/// The key bound to each action.
///
/// Actions are numbered in field order, from `back` (0) to `search` (14).
#[derive(Clone, Copy, Debug, PartialEq, Eq, Structural)]
pub struct UserConfig {
    pub back: Key,
    pub jump_to_album: Key,
    pub jump_to_artist_album: Key,
    pub manage_devices: Key,
    pub decrease_volume: Key,
    pub increase_volume: Key,
    pub toggle_playback: Key,
    pub seek_backwards: Key,
    pub seek_forwards: Key,
    pub next_track: Key,
    pub previous_track: Key,
    pub help: Key,
    pub shuffle: Key,
    pub repeat: Key,
    pub search: Key,
}

/// The key descriptions that a configuration file gives, one optional text
/// per action, in the same order as the fields of `UserConfig`. An absent
/// text keeps the action's current key.
#[derive(Clone, Debug, Default, PartialEq)]
pub struct UserConfigString {
    pub back: Option<String>,
    pub jump_to_album: Option<String>,
    pub jump_to_artist_album: Option<String>,
    pub manage_devices: Option<String>,
    pub decrease_volume: Option<String>,
    pub increase_volume: Option<String>,
    pub toggle_playback: Option<String>,
    pub seek_backwards: Option<String>,
    pub seek_forwards: Option<String>,
    pub next_track: Option<String>,
    pub previous_track: Option<String>,
    pub help: Option<String>,
    pub shuffle: Option<String>,
    pub repeat: Option<String>,
    pub search: Option<String>,
}

/// The built-in key of each action.
pub open spec fn default_bindings() -> Seq<Key> {
    seq![
        Key::Char('q'),
        Key::Char('a'),
        Key::Char('A'),
        Key::Char('d'),
        Key::Char('-'),
        Key::Char('+'),
        Key::Char(' '),
        Key::Char('<'),
        Key::Char('>'),
        Key::Char('n'),
        Key::Char('p'),
        Key::Char('?'),
        Key::Char('s'),
        Key::Char('r'),
        Key::Char('/'),
    ]
}

/// The characters of an optional text.
pub open spec fn text_of(o: Option<String>) -> Option<Seq<char>> {
    match o {
        Some(s) => Some(s@),
        None => None,
    }
}

/// Whether an override may be applied: it is absent, or it describes a key
/// that is not reserved.
pub open spec fn accepted(o: Option<Seq<char>>) -> bool {
    match o {
        Some(t) => key_of(t) matches Some(k) && !is_reserved(k),
        None => true,
    }
}

/// The key that an accepted override leaves in place of `current`.
pub open spec fn applied(current: Key, o: Option<Seq<char>>) -> Key {
    match o {
        Some(t) => key_of(t)->0,
        None => current,
    }
}

/// The error for an override text that cannot be applied.
pub open spec fn override_error(e: ConfigError, t: Seq<char>) -> bool {
    match key_of(t) {
        Some(k) => e == (ConfigError::ReservedKey { key: k }),
        None => parse_error(e, t),
    }
}

/// An override text that can be parsed at all: shorter than the largest
/// count of characters a machine word holds.
pub open spec fn fits(o: Option<Seq<char>>) -> bool {
    o matches Some(t) ==> t.len() < usize::MAX
}

/// The first `n` overrides are accepted and applied to `before`, giving
/// `after`, and the others leave their actions alone.
pub open spec fn applied_through(
    before: Seq<Key>,
    after: Seq<Key>,
    ov: Seq<Option<Seq<char>>>,
    n: int,
) -> bool {
    &&& after.len() == ACTION_COUNT
    &&& forall|i: int| 0 <= i < n ==> accepted(#[trigger] ov[i]) && after[i] == applied(before[i], ov[i])
    &&& forall|i: int| n <= i < ACTION_COUNT ==> #[trigger] after[i] == before[i]
}

impl UserConfig {
    /// The key of each action, in action order.
    pub open spec fn bindings(&self) -> Seq<Key> {
        seq![
            self.back,
            self.jump_to_album,
            self.jump_to_artist_album,
            self.manage_devices,
            self.decrease_volume,
            self.increase_volume,
            self.toggle_playback,
            self.seek_backwards,
            self.seek_forwards,
            self.next_track,
            self.previous_track,
            self.help,
            self.shuffle,
            self.repeat,
            self.search,
        ]
    }

    /// The built-in bindings.
    pub fn new() -> (r: UserConfig)
        ensures
            r.bindings() == default_bindings(),
    {
        UserConfig {
            back: Key::Char('q'),
            jump_to_album: Key::Char('a'),
            jump_to_artist_album: Key::Char('A'),
            manage_devices: Key::Char('d'),
            decrease_volume: Key::Char('-'),
            increase_volume: Key::Char('+'),
            toggle_playback: Key::Char(' '),
            seek_backwards: Key::Char('<'),
            seek_forwards: Key::Char('>'),
            next_track: Key::Char('n'),
            previous_track: Key::Char('p'),
            help: Key::Char('?'),
            shuffle: Key::Char('s'),
            repeat: Key::Char('r'),
            search: Key::Char('/'),
        }
    }

    /// The key bound to an action.
    pub fn binding(&self, action: usize) -> (r: Key)
        requires
            action < ACTION_COUNT,
        ensures
            r == self.bindings()[action as int],
    {
        match action {
            0 => self.back,
            1 => self.jump_to_album,
            2 => self.jump_to_artist_album,
            3 => self.manage_devices,
            4 => self.decrease_volume,
            5 => self.increase_volume,
            6 => self.toggle_playback,
            7 => self.seek_backwards,
            8 => self.seek_forwards,
            9 => self.next_track,
            10 => self.previous_track,
            11 => self.help,
            12 => self.shuffle,
            13 => self.repeat,
            _ => self.search,
        }
    }

    /// Binds `key` to an action, leaving the others as they are.
    pub fn set_binding(&mut self, action: usize, key: Key)
        requires
            action < ACTION_COUNT,
        ensures
            final(self).bindings() == old(self).bindings().update(action as int, key),
    {
        match action {
            0 => self.back = key,
            1 => self.jump_to_album = key,
            2 => self.jump_to_artist_album = key,
            3 => self.manage_devices = key,
            4 => self.decrease_volume = key,
            5 => self.increase_volume = key,
            6 => self.toggle_playback = key,
            7 => self.seek_backwards = key,
            8 => self.seek_forwards = key,
            9 => self.next_track = key,
            10 => self.previous_track = key,
            11 => self.help = key,
            12 => self.shuffle = key,
            13 => self.repeat = key,
            _ => self.search = key,
        }
        assert(self.bindings() =~= old(self).bindings().update(action as int, key));
    }
}

impl UserConfig {
    /// Applies the overrides action by action, in action order: each present
    /// text is parsed, checked against the reserved keys and bound. The first
    /// text that fails ends the load with its error; that action and the ones
    /// after it keep their keys, while the ones before it stay applied.
    pub fn apply_overrides(&mut self, overrides: &UserConfigString) -> (r: Result<(), ConfigError>)
        requires
            forall|i: int| 0 <= i < ACTION_COUNT ==> fits(#[trigger] overrides.overrides()[i]),
        ensures
            r is Ok <==> forall|i: int|
                0 <= i < ACTION_COUNT ==> accepted(#[trigger] overrides.overrides()[i]),
            r is Ok ==> applied_through(
                old(self).bindings(),
                final(self).bindings(),
                overrides.overrides(),
                ACTION_COUNT as int,
            ),
            r is Err ==> exists|f: int|
                0 <= f < ACTION_COUNT && !accepted(#[trigger] overrides.overrides()[f])
                    && applied_through(
                    old(self).bindings(),
                    final(self).bindings(),
                    overrides.overrides(),
                    f,
                ) && override_error(r->Err_0, overrides.overrides()[f]->0),
    {
        let ghost before = self.bindings();
        let ghost ov = overrides.overrides();
        let mut action: usize = 0;
        while action < ACTION_COUNT
            invariant
                action <= ACTION_COUNT,
                ov == overrides.overrides(),
                before == old(self).bindings(),
                forall|i: int| 0 <= i < ACTION_COUNT ==> fits(#[trigger] ov[i]),
                applied_through(before, self.bindings(), ov, action as int),
            decreases ACTION_COUNT - action,
        {
            if let Some(text) = overrides.override_text(action) {
                assert(fits(ov[action as int]));
                let parsed = parse_key(text.clone());
                match parsed {
                    Err(e) => {
                        return Err(e);
                    },
                    Ok(key) => {
                        match check_reserved_keys(&key) {
                            Err(e) => {
                                return Err(e);
                            },
                            Ok(()) => {
                                self.set_binding(action, key);
                            },
                        }
                    },
                }
            }
            action = action + 1;
        }
        Ok(())
    }
}

impl UserConfigString {
    /// The override text of each action, in action order.
    pub open spec fn overrides(&self) -> Seq<Option<Seq<char>>> {
        seq![
            text_of(self.back),
            text_of(self.jump_to_album),
            text_of(self.jump_to_artist_album),
            text_of(self.manage_devices),
            text_of(self.decrease_volume),
            text_of(self.increase_volume),
            text_of(self.toggle_playback),
            text_of(self.seek_backwards),
            text_of(self.seek_forwards),
            text_of(self.next_track),
            text_of(self.previous_track),
            text_of(self.help),
            text_of(self.shuffle),
            text_of(self.repeat),
            text_of(self.search),
        ]
    }

    /// The override text of an action.
    pub fn override_text(&self, action: usize) -> (r: &Option<String>)
        requires
            action < ACTION_COUNT,
        ensures
            text_of(*r) == self.overrides()[action as int],
    {
        match action {
            0 => &self.back,
            1 => &self.jump_to_album,
            2 => &self.jump_to_artist_album,
            3 => &self.manage_devices,
            4 => &self.decrease_volume,
            5 => &self.increase_volume,
            6 => &self.toggle_playback,
            7 => &self.seek_backwards,
            8 => &self.seek_forwards,
            9 => &self.next_track,
            10 => &self.previous_track,
            11 => &self.help,
            12 => &self.shuffle,
            13 => &self.repeat,
            _ => &self.search,
        }
    }
}

/// What `char::is_whitespace` says of a character: whether it has the
/// Unicode `White_Space` property.
pub uninterp spec fn white_space(c: char) -> bool;

/// Relies on `char::is_whitespace`, which tells the Unicode `White_Space`
/// property and, as its documentation shows, holds of ' ', '\n' and
/// U+00A0.
#[verifier::external_body]
fn is_white_space(c: char) -> (r: bool)
    ensures
        r == white_space(c),
        c == ' ' || c == '\n' || c == '\u{A0}' ==> r,
{
    c.is_whitespace()
}

/// Whether a text holds nothing but white space.
pub open spec fn blank(t: Seq<char>) -> bool {
    forall|i: int| 0 <= i < t.len() ==> white_space(#[trigger] t[i])
}

/// Whether the contents of a configuration file are empty or white space
/// only, in which case the file overrides nothing.
pub fn config_text_is_blank(text: &str) -> (r: bool)
    ensures
        r == blank(text@),
{
    let mut all: bool = true;
    for c in it: text.chars()
        invariant
            it.seq() == text@,
            all == forall|i: int| 0 <= i < it.index() ==> white_space(#[trigger] it.seq()[i]),
    {
        if !is_white_space(c) {
            all = false;
        }
    }
    all
}

/// Whether a configuration file holds overrides to read: it exists
/// (`contents` is `Some`) and its text is not blank. Otherwise loading keeps
/// the current bindings.
pub fn has_overrides(contents: &Option<String>) -> (r: bool)
    ensures
        r == (contents matches Some(t) && !blank(t@)),
{
    match contents {
        Some(t) => !config_text_is_blank(t.as_str()),
        None => false,
    }
}

/// Where the configuration file lives.
pub struct UserConfigPaths {
    pub config_file_path: std::path::PathBuf,
}

} // verus!
