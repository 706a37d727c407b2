use vstd::prelude::*;

use rand::seq::{IndexedRandom, SliceRandom};

use crate::errors::ProcessError;
use crate::utils::{lemma_ascii_bytes_utf8, string_from_utf8};

verus! {

/// The uppercase class: `A` to `Z` without the look-alikes `I` and `O`.
pub open spec fn spec_is_upper(b: u8) -> bool {
    65 <= b <= 90 && b != 73 && b != 79
}

/// The lowercase class: `a` to `z` without the look-alike `l`.
pub open spec fn spec_is_lower(b: u8) -> bool {
    97 <= b <= 122 && b != 108
}

/// The digit class: `1` to `9`, leaving out the look-alike `0`.
pub open spec fn spec_is_number(b: u8) -> bool {
    49 <= b <= 57
}

/// The symbol class: the nine bytes of `!@#$%^&*_`.
pub open spec fn spec_is_symbol(b: u8) -> bool {
    b == 33 || b == 64 || b == 35 || b == 36 || b == 37 || b == 94 || b == 38 || b == 42 || b == 95
}

/// Whether a byte belongs to one of the enabled classes.
pub open spec fn spec_allowed(
    upper: bool,
    lower: bool,
    number: bool,
    symbol: bool,
    b: u8,
) -> bool {
    ||| (upper && spec_is_upper(b))
    ||| (lower && spec_is_lower(b))
    ||| (number && spec_is_number(b))
    ||| (symbol && spec_is_symbol(b))
}

/// How many classes are enabled.
pub open spec fn spec_enabled_count(upper: bool, lower: bool, number: bool, symbol: bool) -> int {
    (if upper {
        1int
    } else {
        0int
    }) + (if lower {
        1int
    } else {
        0int
    }) + (if number {
        1int
    } else {
        0int
    }) + (if symbol {
        1int
    } else {
        0int
    })
}

/// Whether a character is an ASCII character of one of the enabled
/// classes.
pub open spec fn spec_allowed_char(
    upper: bool,
    lower: bool,
    number: bool,
    symbol: bool,
    c: char,
) -> bool {
    c <= '\u{7f}' && spec_allowed(upper, lower, number, symbol, c as u8)
}

/// Whether a character is an ASCII character of the uppercase class.
pub open spec fn spec_is_upper_char(c: char) -> bool {
    c <= '\u{7f}' && spec_is_upper(c as u8)
}

/// Whether a character is an ASCII character of the lowercase class.
pub open spec fn spec_is_lower_char(c: char) -> bool {
    c <= '\u{7f}' && spec_is_lower(c as u8)
}

/// Whether a character is an ASCII character of the digit class.
pub open spec fn spec_is_number_char(c: char) -> bool {
    c <= '\u{7f}' && spec_is_number(c as u8)
}

/// Whether a character is an ASCII character of the symbol class.
pub open spec fn spec_is_symbol_char(c: char) -> bool {
    c <= '\u{7f}' && spec_is_symbol(c as u8)
}

/// The bytes of the uppercase alphabet.
fn upper_alphabet() -> (r: Vec<u8>)
    ensures
        r@.len() > 0,
        forall|i: int| 0 <= i < r@.len() ==> spec_is_upper(#[trigger] r@[i]),
{
    let mut r: Vec<u8> = Vec::new();
    let mut b: u8 = 65;
    while b <= 90
        invariant
            65 <= b <= 91,
            b > 65 ==> r@.len() > 0,
            forall|i: int| 0 <= i < r@.len() ==> spec_is_upper(#[trigger] r@[i]),
        decreases 91 - b,
    {
        if b != 73 && b != 79 {
            r.push(b);
        }
        b = b + 1;
    }
    r
}

/// The bytes of the lowercase alphabet.
fn lower_alphabet() -> (r: Vec<u8>)
    ensures
        r@.len() > 0,
        forall|i: int| 0 <= i < r@.len() ==> spec_is_lower(#[trigger] r@[i]),
{
    let mut r: Vec<u8> = Vec::new();
    let mut b: u8 = 97;
    while b <= 122
        invariant
            97 <= b <= 123,
            b > 97 ==> r@.len() > 0,
            forall|i: int| 0 <= i < r@.len() ==> spec_is_lower(#[trigger] r@[i]),
        decreases 123 - b,
    {
        if b != 108 {
            r.push(b);
        }
        b = b + 1;
    }
    r
}

/// The bytes of the digit alphabet.
fn number_alphabet() -> (r: Vec<u8>)
    ensures
        r@.len() > 0,
        forall|i: int| 0 <= i < r@.len() ==> spec_is_number(#[trigger] r@[i]),
{
    let mut r: Vec<u8> = Vec::new();
    let mut b: u8 = 49;
    while b <= 57
        invariant
            49 <= b <= 58,
            b > 49 ==> r@.len() > 0,
            forall|i: int| 0 <= i < r@.len() ==> spec_is_number(#[trigger] r@[i]),
        decreases 58 - b,
    {
        r.push(b);
        b = b + 1;
    }
    r
}

/// The bytes of the symbol alphabet.
fn symbol_alphabet() -> (r: Vec<u8>)
    ensures
        r@.len() > 0,
        forall|i: int| 0 <= i < r@.len() ==> spec_is_symbol(#[trigger] r@[i]),
{
    let mut r: Vec<u8> = Vec::new();
    r.push(33);
    r.push(64);
    r.push(35);
    r.push(36);
    r.push(37);
    r.push(94);
    r.push(38);
    r.push(42);
    r.push(95);
    r
}

/// Relies on rand's IndexedRandom::choose with the thread generator: on a
/// non-empty slice it returns one of the elements; which one depends on
/// the generator, so no more is promised.
#[verifier::external_body]
fn choose_byte(choices: &[u8]) -> (r: u8)
    requires
        choices@.len() > 0,
    ensures
        choices@.contains(r),
{
    *choices.choose(&mut rand::rng()).expect("choices is empty")
}

/// Relies on rand's SliceRandom::shuffle with the thread generator: it
/// permutes the elements in place; the order depends on the generator, so
/// only the multiset of elements is promised.
#[verifier::external_body]
fn shuffle_bytes(v: &mut Vec<u8>)
    ensures
        final (v)@.to_multiset() == old(v)@.to_multiset(),
{
    v.shuffle(&mut rand::rng());
}

/// A permutation has the same members: whatever byte occurs before a
/// shuffle occurs after it, and the length is unchanged.
proof fn lemma_multiset_same_members(a: Seq<u8>, b: Seq<u8>)
    requires
        a.to_multiset() == b.to_multiset(),
    ensures
        forall|x: u8| a.contains(x) <==> b.contains(x),
        a.len() == b.len(),
{
    vstd::seq_lib::to_multiset_len(a);
    vstd::seq_lib::to_multiset_len(b);
    assert forall|x: u8| a.contains(x) <==> b.contains(x) by {
        vstd::seq_lib::to_multiset_contains(a, x);
        vstd::seq_lib::to_multiset_contains(b, x);
    }
}

/// Generates `length` bytes drawn from the enabled classes, with at least
/// one byte of each enabled class, in an order the thread generator picks.
pub fn gen_pass_bytes(length: u8, upper: bool, lower: bool, number: bool, symbol: bool) -> (r: Vec<
    u8,
>)
    requires
        upper || lower || number || symbol,
        spec_enabled_count(upper, lower, number, symbol) <= length as int,
    ensures
        r@.len() == length as int,
        forall|i: int|
            0 <= i < r@.len() ==> spec_allowed(upper, lower, number, symbol, #[trigger] r@[i]),
        upper ==> exists|i: int| 0 <= i < r@.len() && spec_is_upper(#[trigger] r@[i]),
        lower ==> exists|i: int| 0 <= i < r@.len() && spec_is_lower(#[trigger] r@[i]),
        number ==> exists|i: int| 0 <= i < r@.len() && spec_is_number(#[trigger] r@[i]),
        symbol ==> exists|i: int| 0 <= i < r@.len() && spec_is_symbol(#[trigger] r@[i]),
{
    let mut password: Vec<u8> = Vec::new();
    let mut chars: Vec<u8> = Vec::new();
    let ghost mut upper_at: int = 0;
    let ghost mut lower_at: int = 0;
    let ghost mut number_at: int = 0;
    let ghost mut symbol_at: int = 0;

    if upper {
        let set = upper_alphabet();
        chars.extend_from_slice(set.as_slice());
        let c = choose_byte(set.as_slice());
        proof {
            let j = choose|j: int| 0 <= j < set@.len() && set@[j] == c;
            assert(spec_is_upper(set@[j]));
            upper_at = password@.len() as int;
        }
        password.push(c);
    }
    if lower {
        let set = lower_alphabet();
        chars.extend_from_slice(set.as_slice());
        let c = choose_byte(set.as_slice());
        proof {
            let j = choose|j: int| 0 <= j < set@.len() && set@[j] == c;
            assert(spec_is_lower(set@[j]));
            lower_at = password@.len() as int;
        }
        password.push(c);
    }
    if number {
        let set = number_alphabet();
        chars.extend_from_slice(set.as_slice());
        let c = choose_byte(set.as_slice());
        proof {
            let j = choose|j: int| 0 <= j < set@.len() && set@[j] == c;
            assert(spec_is_number(set@[j]));
            number_at = password@.len() as int;
        }
        password.push(c);
    }
    if symbol {
        let set = symbol_alphabet();
        chars.extend_from_slice(set.as_slice());
        let c = choose_byte(set.as_slice());
        proof {
            let j = choose|j: int| 0 <= j < set@.len() && set@[j] == c;
            assert(spec_is_symbol(set@[j]));
            symbol_at = password@.len() as int;
        }
        password.push(c);
    }

    while password.len() < (length as usize)
        invariant
            upper || lower || number || symbol,
            spec_enabled_count(upper, lower, number, symbol) <= length as int,
            chars@.len() > 0,
            password@.len() <= length as int,
            forall|i: int|
                0 <= i < chars@.len() ==> spec_allowed(
                    upper,
                    lower,
                    number,
                    symbol,
                    #[trigger] chars@[i],
                ),
            forall|i: int|
                0 <= i < password@.len() ==> spec_allowed(
                    upper,
                    lower,
                    number,
                    symbol,
                    #[trigger] password@[i],
                ),
            upper ==> 0 <= upper_at < password@.len() && spec_is_upper(password@[upper_at]),
            lower ==> 0 <= lower_at < password@.len() && spec_is_lower(password@[lower_at]),
            number ==> 0 <= number_at < password@.len() && spec_is_number(password@[number_at]),
            symbol ==> 0 <= symbol_at < password@.len() && spec_is_symbol(password@[symbol_at]),
        decreases length as int - password@.len(),
    {
        let c = choose_byte(chars.as_slice());
        proof {
            let j = choose|j: int| 0 <= j < chars@.len() && chars@[j] == c;
            assert(spec_allowed(upper, lower, number, symbol, chars@[j]));
        }
        password.push(c);
    }

    let ghost before = password@;
    shuffle_bytes(&mut password);
    proof {
        lemma_multiset_same_members(before, password@);
        assert forall|i: int| 0 <= i < password@.len() implies spec_allowed(
            upper,
            lower,
            number,
            symbol,
            #[trigger] password@[i],
        ) by {
            assert(password@.contains(password@[i]));
            assert(before.contains(password@[i]));
        }
        if upper {
            assert(before.contains(before[upper_at]));
            assert(password@.contains(before[upper_at]));
            let j = choose|j: int| 0 <= j < password@.len() && password@[j] == before[upper_at];
            assert(spec_is_upper(#[trigger] password@[j]));
        }
        if lower {
            assert(before.contains(before[lower_at]));
            assert(password@.contains(before[lower_at]));
            let j = choose|j: int| 0 <= j < password@.len() && password@[j] == before[lower_at];
            assert(spec_is_lower(#[trigger] password@[j]));
        }
        if number {
            assert(before.contains(before[number_at]));
            assert(password@.contains(before[number_at]));
            let j = choose|j: int| 0 <= j < password@.len() && password@[j] == before[number_at];
            assert(spec_is_number(#[trigger] password@[j]));
        }
        if symbol {
            assert(before.contains(before[symbol_at]));
            assert(password@.contains(before[symbol_at]));
            let j = choose|j: int| 0 <= j < password@.len() && password@[j] == before[symbol_at];
            assert(spec_is_symbol(#[trigger] password@[j]));
        }
    }
    password
}

/// Bytes below 128 that were drawn from the enabled classes decode into
/// characters of the same classes.
proof fn lemma_password_chars(
    upper: bool,
    lower: bool,
    number: bool,
    symbol: bool,
    bytes: Seq<u8>,
    chars: Seq<char>,
)
    requires
        chars.len() == bytes.len(),
        forall|i: int| 0 <= i < bytes.len() ==> #[trigger] chars[i] == bytes[i] as char,
        forall|i: int| 0 <= i < bytes.len() ==> #[trigger] bytes[i] < 128,
        forall|i: int|
            0 <= i < bytes.len() ==> spec_allowed(upper, lower, number, symbol, #[trigger] bytes[i]),
        upper ==> exists|i: int| 0 <= i < bytes.len() && spec_is_upper(#[trigger] bytes[i]),
        lower ==> exists|i: int| 0 <= i < bytes.len() && spec_is_lower(#[trigger] bytes[i]),
        number ==> exists|i: int| 0 <= i < bytes.len() && spec_is_number(#[trigger] bytes[i]),
        symbol ==> exists|i: int| 0 <= i < bytes.len() && spec_is_symbol(#[trigger] bytes[i]),
    ensures
        forall|i: int|
            0 <= i < chars.len() ==> spec_allowed_char(
                upper,
                lower,
                number,
                symbol,
                #[trigger] chars[i],
            ),
        upper ==> exists|i: int| 0 <= i < chars.len() && spec_is_upper_char(#[trigger] chars[i]),
        lower ==> exists|i: int| 0 <= i < chars.len() && spec_is_lower_char(#[trigger] chars[i]),
        number ==> exists|i: int| 0 <= i < chars.len() && spec_is_number_char(#[trigger] chars[i]),
        symbol ==> exists|i: int| 0 <= i < chars.len() && spec_is_symbol_char(#[trigger] chars[i]),
{
    assert forall|i: int| 0 <= i < chars.len() implies spec_allowed_char(
        upper,
        lower,
        number,
        symbol,
        #[trigger] chars[i],
    ) by {
        assert(chars[i] == bytes[i] as char);
        assert(bytes[i] < 128);
    }
    if upper {
        let i = choose|i: int| 0 <= i < bytes.len() && spec_is_upper(#[trigger] bytes[i]);
        assert(chars[i] == bytes[i] as char);
        assert(spec_is_upper_char(chars[i]));
    }
    if lower {
        let i = choose|i: int| 0 <= i < bytes.len() && spec_is_lower(#[trigger] bytes[i]);
        assert(chars[i] == bytes[i] as char);
        assert(spec_is_lower_char(chars[i]));
    }
    if number {
        let i = choose|i: int| 0 <= i < bytes.len() && spec_is_number(#[trigger] bytes[i]);
        assert(chars[i] == bytes[i] as char);
        assert(spec_is_number_char(chars[i]));
    }
    if symbol {
        let i = choose|i: int| 0 <= i < bytes.len() && spec_is_symbol(#[trigger] bytes[i]);
        assert(chars[i] == bytes[i] as char);
        assert(spec_is_symbol_char(chars[i]));
    }
}

/// Generates a password of the requested length from the enabled
/// character classes, with at least one character of each enabled class.
/// Every character is an ASCII character of an enabled class.
#[verifier::rlimit(60)]
#[verifier::spinoff_prover]
pub fn process_gen_pass(length: u8, upper: bool, lower: bool, number: bool, symbol: bool) -> (r:
    Result<String, ProcessError>)
    requires
        upper || lower || number || symbol,
        spec_enabled_count(upper, lower, number, symbol) <= length as int,
    ensures
        r is Ok,
        r matches Ok(p) ==> p@.len() == length as int,
        r matches Ok(p) ==> forall|i: int|
            0 <= i < p@.len() ==> spec_allowed_char(upper, lower, number, symbol, #[trigger] p@[i]),
        r matches Ok(p) ==> (upper ==> exists|i: int|
            0 <= i < p@.len() && spec_is_upper_char(#[trigger] p@[i])),
        r matches Ok(p) ==> (lower ==> exists|i: int|
            0 <= i < p@.len() && spec_is_lower_char(#[trigger] p@[i])),
        r matches Ok(p) ==> (number ==> exists|i: int|
            0 <= i < p@.len() && spec_is_number_char(#[trigger] p@[i])),
        r matches Ok(p) ==> (symbol ==> exists|i: int|
            0 <= i < p@.len() && spec_is_symbol_char(#[trigger] p@[i])),
{
    let bytes = gen_pass_bytes(length, upper, lower, number, symbol);
    proof {
        assert(forall|i: int| 0 <= i < bytes@.len() ==> #[trigger] bytes@[i] < 128);
        lemma_ascii_bytes_utf8(bytes@);
    }
    match string_from_utf8(bytes) {
        Some(p) => {
            proof {
                assert forall|i: int| 0 <= i < bytes@.len() implies #[trigger] p@[i] == bytes@[i]
                    as char by {
                    assert(vstd::utf8::decode_utf8(bytes@)[i] == bytes@[i] as char);
                }
                lemma_password_chars(upper, lower, number, symbol, bytes@, p@);
            }
            Ok(p)
        },
        None => {
            // the generated bytes are ASCII, so the conversion cannot fail
            proof {
                assert(false);
            }
            Err(ProcessError::IoError)
        },
    }
}

} // verus!
