//! Decimal text for 64-bit identifiers.
//!
//! Chat-platform identifiers travel as decimal strings: role ids arrive as
//! strings in directory responses, and the notification payload spells the
//! invoking user's id out in text. Both directions are defined here against
//! one spec-level decimal reading.

use vstd::prelude::*;

verus! {

/// `c` is one of the ten decimal digit characters.
pub open spec fn is_dec_digit(c: char) -> bool {
    '0' <= c && c <= '9'
}

/// The numeric value of a digit character.
pub open spec fn digit_val(c: char) -> nat {
    (c as int - '0' as int) as nat
}

/// The digit character for a value below ten.
pub open spec fn digit_char(d: nat) -> char {
    if d == 0 {
        '0'
    } else if d == 1 {
        '1'
    } else if d == 2 {
        '2'
    } else if d == 3 {
        '3'
    } else if d == 4 {
        '4'
    } else if d == 5 {
        '5'
    } else if d == 6 {
        '6'
    } else if d == 7 {
        '7'
    } else if d == 8 {
        '8'
    } else {
        '9'
    }
}

/// Every character of `s` is a decimal digit.
pub open spec fn all_dec_digits(s: Seq<char>) -> bool {
    forall|i: int| 0 <= i < s.len() ==> is_dec_digit(s[i])
}

/// The number a digit string denotes, most significant digit first.
pub open spec fn dec_val(s: Seq<char>) -> nat
    decreases s.len(),
{
    if s.len() == 0 {
        0
    } else {
        dec_val(s.drop_last()) * 10 + digit_val(s.last())
    }
}

/// The canonical decimal text of a number: no leading zero except for the
/// number zero itself.
pub open spec fn dec_string(n: nat) -> Seq<char>
    decreases n,
{
    if n < 10 {
        seq![digit_char(n)]
    } else {
        dec_string(n / 10).push(digit_char(n % 10))
    }
}

/// What parsing a string as a `u64` yields: the denoted number when the
/// string is nonempty, all digits, and the number fits; nothing otherwise.
pub open spec fn spec_parse_u64(s: Seq<char>) -> Option<u64> {
    if s.len() > 0 && all_dec_digits(s) && dec_val(s) <= u64::MAX {
        Some(dec_val(s) as u64)
    } else {
        None
    }
}

/// Extending a digit string on the right never shrinks its value.
proof fn lemma_dec_val_prefix_le(s: Seq<char>, i: int)
    requires
        0 <= i <= s.len(),
    ensures
        dec_val(s.subrange(0, i)) <= dec_val(s),
    decreases s.len() - i,
{
    if i == s.len() {
        assert(s.subrange(0, i) =~= s);
    } else {
        let shorter = s.subrange(0, i);
        let longer = s.subrange(0, i + 1);
        assert(longer.drop_last() =~= shorter);
        assert(dec_val(longer) == dec_val(shorter) * 10 + digit_val(longer.last()));
        lemma_dec_val_prefix_le(s, i + 1);
    }
}

/// The one-character string for a digit value.
fn digit_str(d: u64) -> (s: &'static str)
    requires
        d < 10,
    ensures
        s@ =~= seq![digit_char(d as nat)],
{
    proof {
        reveal_strlit("0");
        reveal_strlit("1");
        reveal_strlit("2");
        reveal_strlit("3");
        reveal_strlit("4");
        reveal_strlit("5");
        reveal_strlit("6");
        reveal_strlit("7");
        reveal_strlit("8");
        reveal_strlit("9");
    }
    match d {
        0 => "0",
        1 => "1",
        2 => "2",
        3 => "3",
        4 => "4",
        5 => "5",
        6 => "6",
        7 => "7",
        8 => "8",
        _ => "9",
    }
}

/// The canonical decimal text of `n`.
pub fn u64_to_dec(n: u64) -> (s: String)
    ensures
        s@ == dec_string(n as nat),
    decreases n,
{
    if n < 10 {
        String::from_str(digit_str(n))
    } else {
        let q = n / 10;
        let d = n % 10;
        let pre = u64_to_dec(q);
        let s = pre.concat(digit_str(d));
        assert(s@ =~= dec_string(n as nat));
        s
    }
}

/// Parse a decimal `u64`, refusing empty input, any non-digit character,
/// and any value past `u64::MAX`.
pub fn parse_u64(s: &str) -> (r: Option<u64>)
    ensures
        r == spec_parse_u64(s@),
{
    let len = s.unicode_len();
    if len == 0 {
        return None;
    }
    let mut i: usize = 0;
    let mut val: u64 = 0;
    while i < len
        invariant
            0 <= i <= len,
            len == s@.len(),
            all_dec_digits(s@.subrange(0, i as int)),
            val == dec_val(s@.subrange(0, i as int)),
        decreases len - i,
    {
        let c = s.get_char(i);
        if c < '0' || c > '9' {
            assert(!is_dec_digit(s@[i as int]));
            return None;
        }
        let d: u64 = (c as u32 - '0' as u32) as u64;
        let ghost next = s@.subrange(0, i as int + 1);
        proof {
            assert(next.drop_last() =~= s@.subrange(0, i as int));
            assert(dec_val(next) == val * 10 + d);
        }
        if val > (u64::MAX - d) / 10 {
            proof {
                assert(val * 10 + d > u64::MAX) by {
                    let cap = (u64::MAX - d) as nat;
                    assert(val >= cap / 10 + 1);
                    assert((cap / 10 + 1) * 10 == (cap / 10) * 10 + 10);
                    assert((cap / 10) * 10 + cap % 10 == cap);
                    assert(cap % 10 <= 9);
                    assert(val * 10 >= (cap / 10 + 1) * 10) by (nonlinear_arith)
                        requires
                            val >= cap / 10 + 1,
                    ;
                }
                lemma_dec_val_prefix_le(s@, i as int + 1);
                assert(dec_val(s@) > u64::MAX);
            }
            return None;
        }
        val = val * 10 + d;
        i += 1;
    }
    assert(s@.subrange(0, len as int) =~= s@);
    Some(val)
}

/// Every part of `parts` parses as a decimal `u64`.
pub open spec fn all_roles_parse(parts: Seq<Seq<char>>) -> bool {
    forall|i: int| 0 <= i < parts.len() ==> spec_parse_u64(parts[i]) is Some
}

/// Parse a list of role-id strings. All parse, or the whole list is
/// refused: a malformed directory payload never yields a partial role set.
pub fn parse_roles(parts: &Vec<String>) -> (r: Option<Vec<u64>>)
    ensures
        r is Some <==> all_roles_parse(parts@.map_values(|p: String| p@)),
        r matches Some(v) ==> v@.len() == parts@.len() && (forall|i: int|
            0 <= i < parts@.len() ==> Some(v@[i]) == spec_parse_u64(parts@[i]@)),
{
    let ghost views = parts@.map_values(|p: String| p@);
    let n = parts.len();
    let mut out: Vec<u64> = Vec::new();
    let mut i: usize = 0;
    while i < n
        invariant
            0 <= i <= n,
            n == parts@.len(),
            views == parts@.map_values(|p: String| p@),
            out@.len() == i,
            forall|j: int| 0 <= j < i ==> Some(out@[j]) == spec_parse_u64(parts@[j]@),
        decreases n - i,
    {
        match parse_u64(parts[i].as_str()) {
            Some(v) => {
                out.push(v);
            },
            None => {
                assert(views[i as int] == parts@[i as int]@);
                return None;
            },
        }
        i += 1;
    }
    assert(all_roles_parse(views)) by {
        assert(forall|j: int| 0 <= j < n ==> views[j] == parts@[j]@);
        assert(forall|j: int| 0 <= j < n ==> #[trigger] spec_parse_u64(views[j]) is Some) by {
            assert(forall|j: int|
                0 <= j < n ==> Some(out@[j]) == #[trigger] spec_parse_u64(parts@[j]@));
        }
    }
    Some(out)
}

} // verus!
