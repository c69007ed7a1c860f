//! Random passwords over four character classes. Look-alike characters
//! (`I`, `O`, `l`, `o`, `0`) are left out of every class.

use rand::seq::SliceRandom;
use vstd::prelude::*;
use vstd::utf8::{decode_utf8, encode_utf8, is_ascii_chars, valid_utf8};

verus! {

/// The thread-local random generator of the `rand` crate. Opaque: it is only
/// handed on to the functions that draw from it.
#[verifier::external_type_specification]
#[verifier::external_body]
pub struct ExThreadRng(rand::rngs::ThreadRng);

/// `rand::thread_rng` hands out the generator of the current thread. Nothing
/// is promised of it.
pub assume_specification[ rand::thread_rng ]() -> rand::rngs::ThreadRng
;

/// Calls `rand::seq::SliceRandom::choose` on a byte slice. Trusted: an empty
/// slice gives `None`, any other slice gives one of its elements. Which one is
/// left open.
#[verifier::external_body]
fn choose_byte(pool: &[u8], rng: &mut rand::rngs::ThreadRng) -> (picked: Option<u8>)
    ensures
        pool@.len() == 0 ==> picked is None,
        pool@.len() > 0 ==> picked is Some && pool@.contains(picked->Some_0),
{
    pool.choose(rng).copied()
}

/// Calls `rand::seq::SliceRandom::shuffle` on the bytes of a vector. Trusted:
/// the bytes are rearranged by swaps, so the same bytes are there afterwards,
/// each as often as before. Their order is left open.
#[verifier::external_body]
fn shuffle_bytes(bytes: &mut Vec<u8>, rng: &mut rand::rngs::ThreadRng)
    ensures
        final(bytes)@.to_multiset() == old(bytes)@.to_multiset(),
{
    bytes.shuffle(rng);
}

/// Calls `String::from_utf8`. Trusted: the conversion succeeds exactly on
/// valid UTF-8, and the string then holds the characters that the bytes
/// encode.
#[verifier::external_body]
fn string_from_utf8(bytes: Vec<u8>) -> (text: Option<String>)
    ensures
        text is Some <==> valid_utf8(bytes@),
        text matches Some(s) ==> s@ == decode_utf8(bytes@),
{
    String::from_utf8(bytes).ok()
}

/// Why no password could be produced.
#[derive(Debug, Clone, Copy, PartialEq, Eq, Structural)]
pub enum GenPassError {
    /// The generated bytes were not text.
    InvalidUtf8,
}

/// A class of characters that a password can draw from.
#[derive(Debug, Clone, Copy, PartialEq, Eq, Structural)]
pub enum CharClass {
    /// `A` to `Z` without `I` and `O`.
    Upper,
    /// `a` to `z` without `l` and `o`.
    Lower,
    /// `1` to `9`.
    Number,
    /// One of `! @ # $ % ^ & * _`.
    Symbol,
}

impl CharClass {
    /// Whether the class holds the character.
    pub open spec fn holds(self, c: char) -> bool {
        match self {
            CharClass::Upper => 'A' <= c <= 'Z' && c != 'I' && c != 'O',
            CharClass::Lower => 'a' <= c <= 'z' && c != 'l' && c != 'o',
            CharClass::Number => '1' <= c <= '9',
            CharClass::Symbol => c == '!' || c == '@' || c == '#' || c == '$' || c == '%' || c
                == '^' || c == '&' || c == '*' || c == '_',
        }
    }

    /// Whether a password with the given switches may draw from the class.
    pub open spec fn enabled(self, upper: bool, lower: bool, number: bool, symbol: bool) -> bool {
        match self {
            CharClass::Upper => upper,
            CharClass::Lower => lower,
            CharClass::Number => number,
            CharClass::Symbol => symbol,
        }
    }

    /// The characters of the class, as text.
    pub fn alphabet(self) -> (text: &'static str)
        ensures
            text@.len() > 0,
            forall|i: int| 0 <= i < text@.len() ==> self.holds(#[trigger] text@[i]),
    {
        proof {
            reveal_strlit("ABCDEFGHJKLMNPQRSTUVWXYZ");
            reveal_strlit("abcdefghijkmnpqrstuvwxyz");
            reveal_strlit("123456789");
            reveal_strlit("!@#$%^&*_");
        }
        match self {
            CharClass::Upper => "ABCDEFGHJKLMNPQRSTUVWXYZ",
            CharClass::Lower => "abcdefghijkmnpqrstuvwxyz",
            CharClass::Number => "123456789",
            CharClass::Symbol => "!@#$%^&*_",
        }
    }
}

/// How many of the four classes are switched on.
pub open spec fn class_count(upper: bool, lower: bool, number: bool, symbol: bool) -> nat {
    (if upper { 1nat } else { 0nat }) + (if lower { 1nat } else { 0nat })
        + (if number { 1nat } else { 0nat }) + (if symbol { 1nat } else { 0nat })
}

/// Whether a character belongs to one of the classes that are switched on.
pub open spec fn allowed(c: char, upper: bool, lower: bool, number: bool, symbol: bool) -> bool {
    ||| upper && CharClass::Upper.holds(c)
    ||| lower && CharClass::Lower.holds(c)
    ||| number && CharClass::Number.holds(c)
    ||| symbol && CharClass::Symbol.holds(c)
}

/// Whether some character of the text belongs to the class.
pub open spec fn has_class(text: Seq<char>, class: CharClass) -> bool {
    exists|i: int| 0 <= i < text.len() && class.holds(#[trigger] text[i])
}

/// What every generated password satisfies: it has the requested length,
/// draws only from the classes that are switched on, and holds at least one
/// character of each of them.
pub open spec fn is_password(
    text: Seq<char>,
    length: nat,
    upper: bool,
    lower: bool,
    number: bool,
    symbol: bool,
) -> bool {
    &&& text.len() == length
    &&& forall|i: int|
        0 <= i < text.len() ==> allowed(#[trigger] text[i], upper, lower, number, symbol)
    &&& upper ==> has_class(text, CharClass::Upper)
    &&& lower ==> has_class(text, CharClass::Lower)
    &&& number ==> has_class(text, CharClass::Number)
    &&& symbol ==> has_class(text, CharClass::Symbol)
}

/// An ASCII byte whose character belongs to the class.
spec fn byte_holds(class: CharClass, b: u8) -> bool {
    b < 128 && class.holds(b as char)
}

/// Every byte is an ASCII byte of a class that is switched on.
spec fn drawn_from(bytes: Seq<u8>, upper: bool, lower: bool, number: bool, symbol: bool) -> bool {
    forall|i: int|
        0 <= i < bytes.len() ==> (#[trigger] bytes[i]) < 128 && allowed(
            bytes[i] as char,
            upper,
            lower,
            number,
            symbol,
        )
}

/// Some byte belongs to the class.
spec fn bytes_have(bytes: Seq<u8>, class: CharClass) -> bool {
    exists|b: u8| bytes.contains(b) && #[trigger] byte_holds(class, b)
}

/// The characters that ASCII bytes stand for.
pub open spec fn as_text(bytes: Seq<u8>) -> Seq<char> {
    Seq::new(bytes.len(), |i: int| bytes[i] as char)
}

/// The bytes of a class's alphabet.
fn pool(class: CharClass) -> (pool: &'static [u8])
    ensures
        pool@.len() > 0,
        forall|i: int| 0 <= i < pool@.len() ==> byte_holds(class, #[trigger] pool@[i]),
{
    let text = class.alphabet();
    proof {
        assert(is_ascii_chars(text@));
        vstd::utf8::is_ascii_chars_encode_utf8(text@);
        assert forall|i: int| 0 <= i < encode_utf8(text@).len() implies byte_holds(
            class,
            #[trigger] encode_utf8(text@)[i],
        ) by {
            assert(class.holds(text@[i]));
            assert(encode_utf8(text@)[i] == text@[i] as u8);
        }
    }
    text.as_bytes()
}

/// Switches a class on: its alphabet joins the pool, and one character drawn
/// from it joins the password.
fn add_class(
    class: CharClass,
    password: &mut Vec<u8>,
    chars: &mut Vec<u8>,
    rng: &mut rand::rngs::ThreadRng,
    Ghost(switches): Ghost<(bool, bool, bool, bool)>,
)
    requires
        class.enabled(switches.0, switches.1, switches.2, switches.3),
        drawn_from(old(password)@, switches.0, switches.1, switches.2, switches.3),
        drawn_from(old(chars)@, switches.0, switches.1, switches.2, switches.3),
    ensures
        final(password)@.len() == old(password)@.len() + 1,
        final(chars)@.len() > 0,
        drawn_from(final(password)@, switches.0, switches.1, switches.2, switches.3),
        drawn_from(final(chars)@, switches.0, switches.1, switches.2, switches.3),
        bytes_have(final(password)@, class),
        forall|other: CharClass|
            bytes_have(old(password)@, other) ==> bytes_have(final(password)@, other),
{
    let alphabet = pool(class);
    chars.extend_from_slice(alphabet);
    let ghost shorter = password@;
    match choose_byte(alphabet, rng) {
        Some(picked) => {
            password.push(picked);
            proof {
                assert(byte_holds(class, picked));
                assert(password@.last() == picked);
                assert(password@.contains(picked));
            }
        },
        None => {},
    }
    proof {
        assert(password@.subrange(0, shorter.len() as int) =~= shorter);
        lemma_kept(shorter, password@);
    }
}

/// Generates a password of `length` characters from the classes that are
/// switched on: one character of each class, the rest from all of them
/// together, in random order.
///
/// `length` must leave room for one character of each class, and a password
/// that is not empty needs a class to draw from.
pub fn process_genpass(length: u8, upper: bool, lower: bool, number: bool, symbol: bool) -> (generated:
    Result<String, GenPassError>)
    requires
        class_count(upper, lower, number, symbol) <= length,
        length > 0 ==> class_count(upper, lower, number, symbol) > 0,
    ensures
        generated matches Ok(password) && is_password(
            password@,
            length as nat,
            upper,
            lower,
            number,
            symbol,
        ),
{
    let mut rng = rand::thread_rng();
    let mut password: Vec<u8> = Vec::new();
    let mut chars: Vec<u8> = Vec::new();
    let ghost switches = (upper, lower, number, symbol);

    if upper {
        add_class(CharClass::Upper, &mut password, &mut chars, &mut rng, Ghost(switches));
    }
    if lower {
        add_class(CharClass::Lower, &mut password, &mut chars, &mut rng, Ghost(switches));
    }
    if number {
        add_class(CharClass::Number, &mut password, &mut chars, &mut rng, Ghost(switches));
    }
    if symbol {
        add_class(CharClass::Symbol, &mut password, &mut chars, &mut rng, Ghost(switches));
    }

    let rest: u8 = length - password.len() as u8;
    for k in 0..rest
        invariant
            password@.len() == class_count(upper, lower, number, symbol) + k,
            rest == length - class_count(upper, lower, number, symbol),
            rest > 0 ==> chars@.len() > 0,
            drawn_from(chars@, upper, lower, number, symbol),
            drawn_from(password@, upper, lower, number, symbol),
            upper ==> bytes_have(password@, CharClass::Upper),
            lower ==> bytes_have(password@, CharClass::Lower),
            number ==> bytes_have(password@, CharClass::Number),
            symbol ==> bytes_have(password@, CharClass::Symbol),
    {
        let ghost shorter = password@;
        match choose_byte(chars.as_slice(), &mut rng) {
            Some(picked) => {
                password.push(picked);
            },
            None => {},
        }
        proof {
            assert(password@.subrange(0, shorter.len() as int) =~= shorter);
            lemma_kept(shorter, password@);
        }
    }

    let ghost ordered = password@;
    shuffle_bytes(&mut password, &mut rng);
    proof {
        lemma_shuffled(ordered, password@, upper, lower, number, symbol);
        lemma_text_of(password@, upper, lower, number, symbol);
    }
    match string_from_utf8(password) {
        Some(text) => Ok(text),
        None => Err(GenPassError::InvalidUtf8),
    }
}

/// Growing a password at its end keeps what it held.
proof fn lemma_kept(shorter: Seq<u8>, longer: Seq<u8>)
    requires
        shorter.len() <= longer.len(),
        longer.subrange(0, shorter.len() as int) == shorter,
    ensures
        forall|class: CharClass| bytes_have(shorter, class) ==> bytes_have(longer, class),
        forall|b: u8| shorter.contains(b) ==> longer.contains(b),
{
    assert forall|b: u8| shorter.contains(b) implies longer.contains(b) by {
        let i = choose|i: int| 0 <= i < shorter.len() && shorter[i] == b;
        assert(longer.subrange(0, shorter.len() as int)[i] == longer[i]);
    }
    assert forall|class: CharClass| bytes_have(shorter, class) implies bytes_have(
        longer,
        class,
    ) by {
        let b = choose|b: u8| shorter.contains(b) && #[trigger] byte_holds(class, b);
        assert(longer.contains(b));
    }
}

/// Rearranging a password keeps its length, its alphabet and the classes it
/// draws from.
proof fn lemma_shuffled(
    before: Seq<u8>,
    after: Seq<u8>,
    upper: bool,
    lower: bool,
    number: bool,
    symbol: bool,
)
    requires
        before.to_multiset() == after.to_multiset(),
        drawn_from(before, upper, lower, number, symbol),
    ensures
        after.len() == before.len(),
        drawn_from(after, upper, lower, number, symbol),
        forall|class: CharClass| bytes_have(before, class) ==> bytes_have(after, class),
{
    vstd::seq_lib::to_multiset_len(before);
    vstd::seq_lib::to_multiset_len(after);
    assert forall|i: int| 0 <= i < after.len() implies (#[trigger] after[i]) < 128 && allowed(
        after[i] as char,
        upper,
        lower,
        number,
        symbol,
    ) by {
        assert(after.contains(after[i]));
        vstd::seq_lib::to_multiset_contains(after, after[i]);
        vstd::seq_lib::to_multiset_contains(before, after[i]);
        let j = choose|j: int| 0 <= j < before.len() && before[j] == after[i];
        assert(before[j] < 128);
    }
    assert forall|class: CharClass| bytes_have(before, class) implies bytes_have(
        after,
        class,
    ) by {
        let b = choose|b: u8| before.contains(b) && #[trigger] byte_holds(class, b);
        vstd::seq_lib::to_multiset_contains(before, b);
        vstd::seq_lib::to_multiset_contains(after, b);
    }
}

/// ASCII bytes drawn from the classes are text, and the text is a password
/// of the same length over the same classes.
proof fn lemma_text_of(bytes: Seq<u8>, upper: bool, lower: bool, number: bool, symbol: bool)
    requires
        drawn_from(bytes, upper, lower, number, symbol),
    ensures
        valid_utf8(bytes),
        decode_utf8(bytes) == as_text(bytes),
        as_text(bytes).len() == bytes.len(),
        forall|i: int|
            0 <= i < bytes.len() ==> allowed(
                #[trigger] as_text(bytes)[i],
                upper,
                lower,
                number,
                symbol,
            ),
        forall|class: CharClass| bytes_have(bytes, class) ==> has_class(as_text(bytes), class),
{
    let text = as_text(bytes);
    assert(is_ascii_chars(text)) by {
        assert forall|i: int| 0 <= i < text.len() implies '\0' <= #[trigger] text[i]
            <= '\u{7f}' by {
            assert(bytes[i] < 128);
        }
    }
    vstd::utf8::is_ascii_chars_encode_utf8(text);
    assert(encode_utf8(text) =~= bytes) by {
        assert forall|i: int| 0 <= i < bytes.len() implies encode_utf8(text)[i] == bytes[i] by {
            assert(bytes[i] < 128);
            assert(text[i] as u8 == bytes[i]);
        }
    }
    vstd::utf8::encode_utf8_valid_utf8(text);
    vstd::utf8::encode_utf8_decode_utf8(text);
    assert forall|class: CharClass| bytes_have(bytes, class) implies has_class(text, class) by {
        let b = choose|b: u8| bytes.contains(b) && #[trigger] byte_holds(class, b);
        let i = choose|i: int| 0 <= i < bytes.len() && bytes[i] == b;
        assert(class.holds(text[i]));
    }
}

/// The bytes of a password are ASCII: read back one by one they are the
/// password.
pub proof fn lemma_bytes_of(
    text: Seq<char>,
    length: nat,
    upper: bool,
    lower: bool,
    number: bool,
    symbol: bool,
)
    requires
        is_password(text, length, upper, lower, number, symbol),
    ensures
        encode_utf8(text).len() == length,
        as_text(encode_utf8(text)) == text,
{
    assert(is_ascii_chars(text)) by {
        assert forall|i: int| 0 <= i < text.len() implies '\0' <= #[trigger] text[i]
            <= '\u{7f}' by {
            assert(allowed(text[i], upper, lower, number, symbol));
        }
    }
    vstd::utf8::is_ascii_chars_encode_utf8(text);
    assert(as_text(encode_utf8(text)) =~= text) by {
        assert forall|i: int| 0 <= i < text.len() implies as_text(encode_utf8(text))[i]
            == text[i] by {
            assert(allowed(text[i], upper, lower, number, symbol));
            assert(encode_utf8(text)[i] == text[i] as u8);
        }
    }
}

} // verus!
