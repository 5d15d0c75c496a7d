use crate::error::ConfigError;
use crate::key::Key;
use vstd::prelude::*;

verus! {

/// What `str::to_lowercase` makes of a text.
pub uninterp spec fn lower_of(s: Seq<char>) -> Seq<char>;

/// Relies on `str::to_lowercase`: the lower-case mapping of each character,
/// which depends on the text alone.
#[verifier::external_body]
fn lowercase(s: &str) -> (r: String)
    ensures
        r@ == lower_of(s@),
{
    s.to_lowercase()
}

/// Relies on `String`'s `FromIterator<char>`: the characters in order.
#[verifier::external_body]
fn string_from_chars(cs: &Vec<char>) -> (r: String)
    ensures
        r@ == cs@,
{
    cs.iter().collect()
}

/// The characters of `s`, in order.
fn chars_of(s: &str) -> (cs: Vec<char>)
    ensures
        cs@ == s@,
{
    let mut cs: Vec<char> = Vec::new();
    for c in it: s.chars()
        invariant
            cs@ == it.seq().take(it.index() as int),
    {
        cs.push(c);
    }
    cs
}

/// The sections of `s` between its '-' separators, in order, as splitting
/// on '-' yields them: one more than the number of separators.
pub open spec fn dash_sections(s: Seq<char>) -> Seq<Seq<char>>
    decreases s.len(),
{
    if s.len() == 0 {
        seq![Seq::<char>::empty()]
    } else {
        let prev = dash_sections(s.drop_last());
        if s.last() == '-' {
            prev.push(Seq::<char>::empty())
        } else {
            prev.update(prev.len() - 1, prev.last().push(s.last()))
        }
    }
}

/// The first character of a text, if it has one.
pub open spec fn first_char(s: Seq<char>) -> Option<char> {
    if s.len() > 0 {
        Some(s[0])
    } else {
        None
    }
}

/// Key names that modify the character that follows them.
pub open spec fn is_modifier(word: Seq<char>) -> bool {
    word == "ctrl"@ || word == "alt"@
}

/// The key that a lower-cased key name stands for, given the first
/// character of what follows it; `None` for an unknown name and for a
/// modifier without a character.
pub open spec fn named_key(word: Seq<char>, modified: Option<char>) -> Option<Key> {
    if word == "ctrl"@ {
        match modified {
            Some(c) => Some(Key::Ctrl(c)),
            None => None,
        }
    } else if word == "alt"@ {
        match modified {
            Some(c) => Some(Key::Alt(c)),
            None => None,
        }
    } else if word == "left"@ {
        Some(Key::Left)
    } else if word == "right"@ {
        Some(Key::Right)
    } else if word == "up"@ {
        Some(Key::Up)
    } else if word == "down"@ {
        Some(Key::Down)
    } else if word == "backspace"@ || word == "delete"@ {
        Some(Key::Backspace)
    } else if word == "del"@ {
        Some(Key::Delete)
    } else if word == "esc"@ || word == "escape"@ {
        Some(Key::Esc)
    } else if word == "pageup"@ {
        Some(Key::PageUp)
    } else if word == "pagedown"@ {
        Some(Key::PageDown)
    } else if word == "space"@ {
        Some(Key::Char(' '))
    } else {
        None
    }
}

/// The error for a key name that names no key: `name` is the name as it was
/// written, `word` the same lower-cased.
pub open spec fn name_error(e: ConfigError, word: Seq<char>, name: Seq<char>) -> bool {
    if is_modifier(word) {
        e matches ConfigError::EmptyModifierTarget { modifier } && modifier@ == name
    } else {
        e matches ConfigError::UnknownKey { name: n } && n@ == name
    }
}

/// What looking up a key name gives: the key it names, or else the error.
pub open spec fn name_outcome(
    r: Result<Key, ConfigError>,
    word: Seq<char>,
    name: Seq<char>,
    modified: Option<char>,
) -> bool {
    match named_key(word, modified) {
        Some(k) => r == Ok::<Key, ConfigError>(k),
        None => r is Err && name_error(r->Err_0, word, name),
    }
}

/// The first character after the separator, where there is one.
pub open spec fn modified_char(k: Seq<char>) -> Option<char> {
    if dash_sections(k).len() == 2 {
        first_char(dash_sections(k)[1])
    } else {
        None
    }
}

/// The key that a key description stands for, if it is valid.
pub open spec fn key_of(k: Seq<char>) -> Option<Key> {
    if k.len() == 1 {
        Some(Key::Char(k[0]))
    } else if dash_sections(k).len() > 2 {
        None
    } else {
        named_key(lower_of(dash_sections(k)[0]), modified_char(k))
    }
}

/// The error for a key description that stands for no key.
pub open spec fn parse_error(e: ConfigError, k: Seq<char>) -> bool {
    if dash_sections(k).len() > 2 {
        e matches ConfigError::TooManySections { input, count }
            && input@ == k && count == dash_sections(k).len()
    } else {
        name_error(e, lower_of(dash_sections(k)[0]), dash_sections(k)[0])
    }
}

/// What parsing a key description gives: its key, or else its error.
pub open spec fn parse_outcome(r: Result<Key, ConfigError>, k: Seq<char>) -> bool {
    match key_of(k) {
        Some(key) => r == Ok::<Key, ConfigError>(key),
        None => r is Err && parse_error(r->Err_0, k),
    }
}

/// Whether two texts hold the same characters.
fn same_text(a: &str, b: &str) -> (r: bool)
    ensures
        r == (a@ == b@),
{
    a.to_owned() == b.to_owned()
}

/// Looks up a key name. `lowered` is the name lower-cased, `name` the name as
/// written, which an error reports, and `modified` the first character of
/// what follows the name, if anything does.
pub fn key_for_name(lowered: &str, name: &str, modified: Option<char>) -> (r: Result<
    Key,
    ConfigError,
>)
    ensures
        name_outcome(r, lowered@, name@, modified),
{
    if same_text(lowered, "ctrl") || same_text(lowered, "alt") {
        match modified {
            Some(c) => {
                if same_text(lowered, "ctrl") {
                    Ok(Key::Ctrl(c))
                } else {
                    Ok(Key::Alt(c))
                }
            },
            None => Err(ConfigError::EmptyModifierTarget { modifier: name.to_owned() }),
        }
    } else if same_text(lowered, "left") {
        Ok(Key::Left)
    } else if same_text(lowered, "right") {
        Ok(Key::Right)
    } else if same_text(lowered, "up") {
        Ok(Key::Up)
    } else if same_text(lowered, "down") {
        Ok(Key::Down)
    } else if same_text(lowered, "backspace") || same_text(lowered, "delete") {
        Ok(Key::Backspace)
    } else if same_text(lowered, "del") {
        Ok(Key::Delete)
    } else if same_text(lowered, "esc") || same_text(lowered, "escape") {
        Ok(Key::Esc)
    } else if same_text(lowered, "pageup") {
        Ok(Key::PageUp)
    } else if same_text(lowered, "pagedown") {
        Ok(Key::PageDown)
    } else if same_text(lowered, "space") {
        Ok(Key::Char(' '))
    } else {
        Err(ConfigError::UnknownKey { name: name.to_owned() })
    }
}

/// Reads a key description: a single character stands for itself; anything
/// else is a key name, optionally followed by '-' and the character that a
/// `ctrl` or `alt` modifier applies to. Names are matched without regard to
/// case; the modified character keeps its case.
pub fn parse_key(key: String) -> (r: Result<Key, ConfigError>)
    requires
        key@.len() < usize::MAX,
    ensures
        parse_outcome(r, key@),
        key@.len() == 1 ==> r == Ok::<Key, ConfigError>(Key::Char(key@[0])),
{
    let cs = chars_of(key.as_str());
    if cs.len() == 1 {
        return Ok(Key::Char(cs[0]));
    }
    let ghost k = cs@;
    let mut count: usize = 1;
    let mut first: Vec<char> = Vec::new();
    let mut second: Vec<char> = Vec::new();
    let mut i: usize = 0;
    while i < cs.len()
        invariant
            k == cs@,
            cs@.len() < usize::MAX,
            i <= cs.len(),
            1 <= count <= i + 1,
            count == dash_sections(k.take(i as int)).len(),
            first@ == dash_sections(k.take(i as int))[0],
            count >= 2 ==> second@ == dash_sections(k.take(i as int))[1],
            count < 2 ==> second@.len() == 0,
        decreases cs.len() - i,
    {
        let c = cs[i];
        assert(k.take(i + 1).drop_last() =~= k.take(i as int));
        if c == '-' {
            count = count + 1;
        } else if count == 1 {
            first.push(c);
        } else if count == 2 {
            second.push(c);
        }
        i = i + 1;
    }
    assert(k.take(cs.len() as int) =~= k);
    if count > 2 {
        return Err(ConfigError::TooManySections { input: key, count });
    }
    let name = string_from_chars(&first);
    let lowered = lowercase(name.as_str());
    let modified = if count == 2 && second.len() > 0 {
        Some(second[0])
    } else {
        None
    };
    key_for_name(lowered.as_str(), name.as_str(), modified)
}

} // verus!
