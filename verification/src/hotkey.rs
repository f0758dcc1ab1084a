//! The keys that a shortcut can use, and their names.
use crate::text::{digit_char, natural_text, natural_texts_read_back, push_natural, writes};
use vstd::prelude::*;
use vstd::string::*;

verus! {

/// Keys that are written as the character they are: digits and capital letters.
pub open spec fn character_key(key: int) -> bool {
    0x30 <= key <= 0x39 || 0x41 <= key <= 0x5a
}

/// Function keys F1 to F11. F12 is reserved by debuggers.
pub open spec fn function_key(key: int) -> bool {
    0x70 <= key <= 0x7a
}

/// Whether a shortcut can use a key.
pub open spec fn supported_key(key: int) -> bool {
    character_key(key) || function_key(key)
}

/// The name of a key.
pub open spec fn key_text(key: int) -> Option<Seq<char>> {
    if character_key(key) {
        Some(seq![key as char])
    } else if function_key(key) {
        Some(seq!['F'] + natural_text((key - 0x70 + 1) as nat))
    } else {
        None
    }
}

/// The names of the function keys end in their number.
proof fn lemma_function_key_text(key: int)
    requires
        function_key(key),
    ensures
        key_text(key) is Some,
        key - 0x70 + 1 < 10 ==> key_text(key)->0 =~= seq!['F', digit_char(key - 0x70 + 1)],
        key - 0x70 + 1 >= 10 ==> key_text(key)->0 =~= seq!['F', '1', digit_char(key - 0x7a + 1)],
{
    reveal_with_fuel(natural_text, 2);
    let number = key - 0x70 + 1;
    if number >= 10 {
        assert(number / 10 == 1 && number % 10 == key - 0x7a + 1);
    }
}

/// Different keys have different names.
pub proof fn key_names_are_distinct(a: int, b: int)
    requires
        supported_key(a),
        supported_key(b),
        key_text(a) == key_text(b),
    ensures
        a == b,
{
    if function_key(a) {
        lemma_function_key_text(a);
    }
    if function_key(b) {
        lemma_function_key_text(b);
    }
    let name = key_text(a)->0;
    assert(name == key_text(b)->0);
    assert(name.len() >= 1);
    if character_key(a) {
        assert(name[0] == a as char);
    } else {
        assert(name.len() >= 2);
        assert(name[1] == name[1]);
        if name.len() == 3 {
            assert(name[2] == name[2]);
        }
    }
}

/// The name of a key, where a shortcut can use it.
pub fn key_name(key: u32) -> (r: Option<String>)
    ensures
        match r {
            Some(name) => key_text(key as int) == Some(name@),
            None => key_text(key as int) is None,
        },
{
    if (key >= 0x30 && key <= 0x39) || (key >= 0x41 && key <= 0x5a) {
        let characters = "0123456789ABCDEFGHIJKLMNOPQRSTUVWXYZ";
        let at: usize = if key <= 0x39 {
            key as usize - 0x30
        } else {
            key as usize - 0x41 + 10
        };
        proof {
            reveal_strlit("0123456789ABCDEFGHIJKLMNOPQRSTUVWXYZ");
        }
        assert(characters@[at as int] == key as char);
        let name = characters.substring_char(at, at + 1).to_owned();
        assert(name@ =~= seq![key as char]);
        Some(name)
    } else if key >= 0x70 && key <= 0x7a {
        proof {
            reveal_strlit("F");
        }
        let mut name = String::from_str("F");
        assert(name@ =~= seq!['F']);
        push_natural(&mut name, key - 0x70 + 1);
        Some(name)
    } else {
        None
    }
}

/// The key of a name.
pub open spec fn key_of(name: Seq<char>, key: int) -> bool {
    supported_key(key) && key_text(key) == Some(name)
}

/// Whether a shortcut can use the key of a name.
pub open spec fn names_a_key(name: Seq<char>) -> bool {
    exists|key: int| key_of(name, key)
}

fn find_between(name: &String, from: u32, to: u32) -> (r: Option<u32>)
    requires
        from <= to < 0x1000,
    ensures
        match r {
            Some(key) => from <= key <= to && key_of(name@, key as int),
            None => forall|key: int| from <= key <= to ==> !#[trigger] key_of(name@, key),
        },
{
    let mut key: u32 = from;
    while key <= to
        invariant
            from <= key <= to + 1,
            to < 0x1000,
            forall|earlier: int| from <= earlier < key ==> !#[trigger] key_of(name@, earlier),
        decreases to + 1 - key,
    {
        match key_name(key) {
            Some(candidate) => {
                if candidate == *name {
                    return Some(key);
                }
            },
            None => {},
        }
        key = key + 1;
    }
    None
}

/// The key that has a name, if a shortcut can use one of that name.
pub fn find_key(name: &str) -> (r: Option<u32>)
    ensures
        match r {
            Some(key) => key_of(name@, key as int),
            None => forall|key: int| !#[trigger] key_of(name@, key),
        },
{
    let name = name.to_owned();
    match find_between(&name, 0x30, 0x5a) {
        Some(key) => Some(key),
        None => find_between(&name, 0x70, 0x7a),
    }
}

/// A name is found under the key that it came from.
pub proof fn named_keys_are_found(key: int, found: int)
    requires
        supported_key(key),
        key_of(key_text(key)->0, found),
    ensures
        found == key,
{
    key_names_are_distinct(key, found);
}

/// Shortcuts can use the letters A to Z, the digits and the function keys F1 to F11,
/// and nothing else. A letter or digit is named by itself, and a function key by `F`
/// and its number.
pub proof fn key_names_say_the_key(key: int)
    ensures
        supported_key(key) <==> '0' as int <= key <= '9' as int || 'A' as int <= key <= 'Z' as int
            || 1 <= key - 0x6f <= 11,
        key_text(key) is Some <==> supported_key(key),
        '0' as int <= key <= '9' as int || 'A' as int <= key <= 'Z' as int ==> key_text(key)->0.len()
            == 1 && key_text(key)->0[0] as int == key,
        1 <= key - 0x6f <= 11 ==> key_text(key)->0.len() > 1 && key_text(key)->0[0] == 'F'
            && writes(key_text(key)->0.skip(1), key - 0x6f),
{
    if 1 <= key - 0x6f <= 11 {
        natural_texts_read_back((key - 0x6f) as nat);
        assert(key_text(key)->0.skip(1) =~= natural_text((key - 0x6f) as nat));
    }
}

} // verus!
