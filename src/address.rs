use std::str::FromStr;
use vstd::prelude::*;

verus! {

/// `c` is one of the characters `0-9`, `a-f`, `A-F`.
pub open spec fn is_hex_digit(c: char) -> bool {
    ('0' <= c && c <= '9') || ('a' <= c && c <= 'f') || ('A' <= c && c <= 'F')
}

/// Characters that the hex decoder skips between digits.
pub open spec fn is_hex_blank(c: char) -> bool {
    c == ' ' || c == '\r' || c == '\n' || c == '\t'
}

/// Number of characters of `s` that are not blanks.
pub open spec fn solid_len(s: Seq<char>) -> nat
    decreases s.len(),
{
    if s.len() == 0 {
        0
    } else {
        solid_len(s.drop_last()) + if is_hex_blank(s.last()) { 0nat } else { 1nat }
    }
}

/// `s` decodes to a 20-byte identifier: blanks aside, it is exactly 40 hex digits.
pub open spec fn decodes_h160(s: Seq<char>) -> bool {
    &&& forall|i: int| 0 <= i < s.len() && !is_hex_blank(#[trigger] s[i]) ==> is_hex_digit(s[i])
    &&& solid_len(s) == 40
}

/// `s` begins with the two characters `0x`.
pub open spec fn has_0x_prefix(s: Seq<char>) -> bool {
    s.len() >= 2 && s[0] == '0' && s[1] == 'x'
}

/// `s` is made of hex digits only.
pub open spec fn all_hex(s: Seq<char>) -> bool {
    forall|i: int| 0 <= i < s.len() ==> is_hex_digit(#[trigger] s[i])
}

/// What the hex decoder accepts as a foreign-chain address, after one leading
/// `0x` is removed.
pub open spec fn decoder_accepts(s: Seq<char>) -> bool {
    if has_0x_prefix(s) {
        decodes_h160(s.subrange(2, s.len() as int))
    } else {
        decodes_h160(s)
    }
}

/// A foreign-chain address: exactly 40 hex digits, or `0x` followed by exactly
/// 40 hex digits.
pub open spec fn is_foreign_address(s: Seq<char>) -> bool {
    (s.len() == 40 && all_hex(s)) || (has_0x_prefix(s) && s.len() == 42 && all_hex(
        s.subrange(2, s.len() as int),
    ))
}

/// `s` holds no blank.
pub open spec fn no_blanks(s: Seq<char>) -> bool {
    forall|i: int| 0 <= i < s.len() ==> !is_hex_blank(#[trigger] s[i])
}

/// Relies on `<ethereum_types::Address as FromStr>::from_str` (fixed-hash with
/// rustc-hex): it succeeds exactly when the input, its blanks skipped, is 40 hex digits.
#[verifier::external_body]
fn parse_h160(s: &str) -> (r: bool)
    ensures
        r == decodes_h160(s@),
{
    ethereum_types::Address::from_str(s).is_ok()
}

/// Checks the format of a foreign-chain address.
pub fn validate_address(address: &str) -> (r: bool)
    ensures
        r == is_foreign_address(address@),
{
    let n = address.unicode_len();
    let mut i: usize = 0;
    while i < n
        invariant
            n == address@.len(),
            i <= n,
            forall|j: int| 0 <= j < i ==> !is_hex_blank(#[trigger] address@[j]),
        decreases n - i,
    {
        let c = address.get_char(i);
        if c == ' ' || c == '\r' || c == '\n' || c == '\t' {
            proof {
                if is_foreign_address(address@) {
                    if has_0x_prefix(address@) && address@.len() == 42 {
                        if i >= 2 {
                            assert(address@.subrange(2, 42)[i - 2] == address@[i as int]);
                        }
                    }
                }
            }
            return false;
        }
        i = i + 1;
    }
    proof { lemma_foreign_address_format(address@); }
    if n >= 2 && address.get_char(0) == '0' && address.get_char(1) == 'x' {
        let rest = address.substring_char(2, n);
        parse_h160(rest)
    } else {
        parse_h160(address)
    }
}

proof fn lemma_solid_len_no_blanks(s: Seq<char>)
    requires
        forall|i: int| 0 <= i < s.len() ==> !is_hex_blank(#[trigger] s[i]),
    ensures
        solid_len(s) == s.len(),
    decreases s.len(),
{
    if s.len() > 0 {
        let t = s.drop_last();
        assert forall|i: int| 0 <= i < t.len() implies !is_hex_blank(#[trigger] t[i]) by {
            assert(t[i] == s[i]);
        }
        lemma_solid_len_no_blanks(t);
    }
}

/// On input free of blanks, the hex decoder accepts exactly the two address formats.
proof fn lemma_foreign_address_format(s: Seq<char>)
    requires
        no_blanks(s),
    ensures
        decoder_accepts(s) <==> is_foreign_address(s),
{
    lemma_solid_len_no_blanks(s);
    if has_0x_prefix(s) {
        let t = s.subrange(2, s.len() as int);
        assert forall|i: int| 0 <= i < t.len() implies !is_hex_blank(#[trigger] t[i]) by {
            assert(t[i] == s[i + 2]);
        }
        lemma_solid_len_no_blanks(t);
        // 'x' is no hex digit, so the bare form cannot hold
        assert(!is_hex_digit(s[1]));
    }
}

} // verus!
