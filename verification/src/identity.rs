//! Identifiers derived from the strings that say what a row means.

use std::collections::hash_map::DefaultHasher;
use std::hash::Hasher;
use vstd::prelude::*;
use vstd::std_specs::hash::DefaultHasherAdditionalSpecFns;
use vstd::string::StringExecFns;

verus! {

/// What a standard hasher has taken in once a string was hashed into one
/// that had taken in `before`.
pub uninterp spec fn absorbed(before: Seq<Seq<u8>>, part: Seq<char>) -> Seq<Seq<u8>>;

/// Hashes a string into the hasher with `Hash::hash` of `str`. The standard
/// library does not say which bytes that writes, only that equal strings
/// are hashed alike: the contract gives the new state a name that depends
/// on the old state and the string alone.
#[verifier::external_body]
fn absorb_str(state: &mut DefaultHasher, part: &str)
    ensures
        final(state)@ == absorbed(old(state)@, part@),
{
    std::hash::Hash::hash(part, state)
}

/// What a fresh hasher has taken in after the parts were hashed in order.
pub open spec fn absorbed_all(parts: Seq<Seq<char>>) -> Seq<Seq<u8>>
    decreases parts.len(),
{
    if parts.len() == 0 {
        Seq::empty()
    } else {
        absorbed(absorbed_all(parts.drop_last()), parts.last())
    }
}

/// The 64-bit digest of an ordered tuple of strings.
pub open spec fn digest(parts: Seq<Seq<char>>) -> u64 {
    DefaultHasher::spec_finish(absorbed_all(parts))
}

/// The sixteen lower-case hexadecimal digits.
pub open spec fn hex_digits() -> Seq<char> {
    seq!['0', '1', '2', '3', '4', '5', '6', '7', '8', '9', 'a', 'b', 'c', 'd', 'e', 'f']
}

/// The hexadecimal digit for a value below sixteen.
pub open spec fn hex_digit(d: nat) -> char
    recommends
        d < 16,
{
    hex_digits()[d as int]
}

/// The last `width` hexadecimal digits of `value`, most significant first,
/// with leading zeros.
pub open spec fn hex_fixed(value: nat, width: nat) -> Seq<char>
    decreases width,
{
    if width == 0 {
        Seq::empty()
    } else {
        hex_fixed(value / 16, (width - 1) as nat).push(hex_digit(value % 16))
    }
}

/// The identifier of an ordered tuple of strings: its digest in sixteen
/// hexadecimal digits.
pub open spec fn id_of(parts: Seq<Seq<char>>) -> Seq<char> {
    hex_fixed(digest(parts) as nat, 16)
}

/// Whether `value` can be written in `width` hexadecimal digits.
pub open spec fn fits_hex(value: nat, width: nat) -> bool
    decreases width,
{
    if width == 0 {
        value == 0
    } else {
        fits_hex(value / 16, (width - 1) as nat)
    }
}

fn digit_str(d: u64) -> (s: &'static str)
    requires
        d < 16,
    ensures
        s@ == seq![hex_digit(d as nat)],
{
    proof {
        reveal_strlit("0");
        reveal_strlit("1");
        reveal_strlit("2");
        reveal_strlit("3");
        reveal_strlit("4");
        reveal_strlit("5");
        reveal_strlit("6");
        reveal_strlit("7");
        reveal_strlit("8");
        reveal_strlit("9");
        reveal_strlit("a");
        reveal_strlit("b");
        reveal_strlit("c");
        reveal_strlit("d");
        reveal_strlit("e");
        reveal_strlit("f");
    }
    let s = if d == 0 {
        "0"
    } else if d == 1 {
        "1"
    } else if d == 2 {
        "2"
    } else if d == 3 {
        "3"
    } else if d == 4 {
        "4"
    } else if d == 5 {
        "5"
    } else if d == 6 {
        "6"
    } else if d == 7 {
        "7"
    } else if d == 8 {
        "8"
    } else if d == 9 {
        "9"
    } else if d == 10 {
        "a"
    } else if d == 11 {
        "b"
    } else if d == 12 {
        "c"
    } else if d == 13 {
        "d"
    } else if d == 14 {
        "e"
    } else {
        "f"
    };
    assert(s@ =~= seq![hex_digit(d as nat)]);
    s
}

/// Writes a 64-bit value as sixteen lower-case hexadecimal digits.
pub fn to_hex(value: u64) -> (text: String)
    ensures
        text@ == hex_fixed(value as nat, 16),
        text@.len() == 16,
{
    proof {
        lemma_hex_width(value as nat, 16);
    }
    let mut text = String::new();
    let mut rest: u64 = value;
    let mut done: u64 = 0;
    while done < 16
        invariant
            done <= 16,
            hex_fixed(value as nat, 16) == hex_fixed(rest as nat, (16 - done) as nat) + text@,
        decreases 16 - done,
    {
        let digit = digit_str(rest % 16);
        let ghost before = text@;
        text = String::from_str(digit).concat(text.as_str());
        proof {
            let width = (16 - done) as nat;
            assert(hex_fixed(rest as nat, width) == hex_fixed(
                rest as nat / 16,
                (width - 1) as nat,
            ).push(hex_digit(rest as nat % 16)));
            assert(hex_fixed(rest as nat, width) + before =~= hex_fixed(
                rest as nat / 16,
                (width - 1) as nat,
            ) + text@);
        }
        rest = rest / 16;
        done = done + 1;
    }
    assert(hex_fixed(rest as nat, 0) + text@ =~= text@);
    text
}

/// Derives the identifier of an ordered tuple of strings.
///
/// The result depends on the strings and their order alone, so deriving
/// twice from equal tuples gives equal identifiers.
pub fn derive(parts: &Vec<String>) -> (id: String)
    ensures
        id@ == id_of(parts.deep_view()),
        id@.len() == 16,
{
    let mut state = DefaultHasher::new();
    let mut i: usize = 0;
    while i < parts.len()
        invariant
            i <= parts.len(),
            state@ == absorbed_all(parts.deep_view().take(i as int)),
        decreases parts.len() - i,
    {
        absorb_str(&mut state, parts[i].as_str());
        proof {
            let all = parts.deep_view();
            assert(all.take(i as int + 1).drop_last() =~= all.take(i as int));
            assert(all.take(i as int + 1).last() == parts[i as int]@);
        }
        i = i + 1;
    }
    assert(parts.deep_view().take(i as int) =~= parts.deep_view());
    to_hex(state.finish())
}

/// A number written in `width` hexadecimal digits has `width` characters.
pub proof fn lemma_hex_width(value: nat, width: nat)
    ensures
        hex_fixed(value, width).len() == width,
    decreases width,
{
    if width > 0 {
        lemma_hex_width(value / 16, (width - 1) as nat);
    }
}

/// Derives the identifier of a pair of strings.
pub fn derive_pair(first: &str, second: &str) -> (id: String)
    ensures
        id@ == id_of(seq![first@, second@]),
{
    let mut parts: Vec<String> = Vec::new();
    parts.push(String::from_str(first));
    parts.push(String::from_str(second));
    assert(parts.deep_view() =~= seq![first@, second@]);
    derive(&parts)
}

/// Derives the identifier of three strings.
pub fn derive_triple(first: &str, second: &str, third: &str) -> (id: String)
    ensures
        id@ == id_of(seq![first@, second@, third@]),
{
    let mut parts: Vec<String> = Vec::new();
    parts.push(String::from_str(first));
    parts.push(String::from_str(second));
    parts.push(String::from_str(third));
    assert(parts.deep_view() =~= seq![first@, second@, third@]);
    derive(&parts)
}

/// Derives the identifier of four strings.
pub fn derive_quad(first: &str, second: &str, third: &str, fourth: &str) -> (id: String)
    ensures
        id@ == id_of(seq![first@, second@, third@, fourth@]),
{
    let mut parts: Vec<String> = Vec::new();
    parts.push(String::from_str(first));
    parts.push(String::from_str(second));
    parts.push(String::from_str(third));
    parts.push(String::from_str(fourth));
    assert(parts.deep_view() =~= seq![first@, second@, third@, fourth@]);
    derive(&parts)
}

} // verus!
