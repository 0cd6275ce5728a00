//! Identity tokens and their text codec.
//!
//! A token identifies either a participant or an admin. Its canonical
//! text form is a role tag (`P` or `A`) followed by the decimal digits
//! of the 128-bit identifier; decoding accepts the tag in either case
//! and the digits with an optional leading `+`, exactly as the decimal
//! integer parser of the standard library would.

use vstd::prelude::*;

verus! {

/// Identifier of a participant record: an opaque 128-bit value.
#[derive(Copy, Clone, PartialEq, Eq, Hash, Debug, Structural)]
pub struct ParticipantId(pub u128);

/// Identifier of an admin record: an opaque 128-bit value.
#[derive(Copy, Clone, PartialEq, Eq, Hash, Debug, Structural)]
pub struct AdminId(pub u128);

/// An identity token: a role-tagged identifier.
#[derive(Copy, Clone, PartialEq, Eq, Hash, Debug, Structural)]
pub enum Id {
    Participant(ParticipantId),
    Admin(AdminId),
}

/// Failure of [`Id::decode`]: an empty string, an unknown role tag, or
/// a remainder that is not the decimal form of a 128-bit value.
#[derive(Copy, Clone, PartialEq, Eq, Hash, Debug, Structural)]
pub struct DecodeError;

/// The character for one decimal digit value.
pub open spec fn digit_char(d: nat) -> char {
    if d == 0 {
        '0'
    } else if d == 1 {
        '1'
    } else if d == 2 {
        '2'
    } else if d == 3 {
        '3'
    } else if d == 4 {
        '4'
    } else if d == 5 {
        '5'
    } else if d == 6 {
        '6'
    } else if d == 7 {
        '7'
    } else if d == 8 {
        '8'
    } else {
        '9'
    }
}

/// The decimal digits of `n`, most significant first, no leading zeros
/// (a single `'0'` for zero itself).
pub open spec fn dec_digits(n: nat) -> Seq<char>
    decreases n,
{
    if n < 10 {
        seq![digit_char(n)]
    } else {
        dec_digits(n / 10).push(digit_char(n % 10))
    }
}

/// The canonical text form of a token: the role tag, then the decimal
/// digits of the identifier.
pub open spec fn spec_encode(id: Id) -> Seq<char> {
    match id {
        Id::Participant(p) => seq!['P'] + dec_digits(p.0 as nat),
        Id::Admin(a) => seq!['A'] + dec_digits(a.0 as nat),
    }
}

/// Whether `c` is a decimal digit.
pub open spec fn is_digit(c: char) -> bool {
    '0' <= c && c <= '9'
}

/// The value of one digit character.
pub open spec fn digit_val(c: char) -> nat {
    ((c as int) - ('0' as int)) as nat
}

/// Whether every character of `s` is a decimal digit.
pub open spec fn all_digits(s: Seq<char>) -> bool {
    forall|i: int| 0 <= i < s.len() ==> is_digit(#[trigger] s[i])
}

/// The value of a digit string, most significant digit first.
pub open spec fn digits_val(s: Seq<char>) -> nat
    decreases s.len(),
{
    if s.len() == 0 {
        0
    } else {
        digits_val(s.drop_last()) * 10 + digit_val(s.last())
    }
}

/// The digit part of a decimal number text: everything after one
/// optional leading `+` sign.
pub open spec fn strip_plus(s: Seq<char>) -> Seq<char> {
    if s.len() > 0 && s[0] == '+' {
        s.skip(1)
    } else {
        s
    }
}

/// Whether `s` is a decimal number text that a 128-bit value can hold:
/// an optional `+`, then one or more digits, with a value in range.
pub open spec fn u128_text_ok(s: Seq<char>) -> bool {
    &&& strip_plus(s).len() > 0
    &&& all_digits(strip_plus(s))
    &&& digits_val(strip_plus(s)) <= u128::MAX
}

/// The value of a decimal number text accepted by [`u128_text_ok`].
pub open spec fn u128_text_val(s: Seq<char>) -> nat {
    digits_val(strip_plus(s))
}

/// What decoding a token text yields: the role from the first
/// character, the identifier from the decimal remainder, or an error.
pub open spec fn spec_decode(s: Seq<char>) -> Result<Id, DecodeError> {
    if s.len() == 0 {
        Err(DecodeError)
    } else if (s[0] == 'p' || s[0] == 'P') && u128_text_ok(s.skip(1)) {
        Ok(Id::Participant(ParticipantId(u128_text_val(s.skip(1)) as u128)))
    } else if (s[0] == 'a' || s[0] == 'A') && u128_text_ok(s.skip(1)) {
        Ok(Id::Admin(AdminId(u128_text_val(s.skip(1)) as u128)))
    } else {
        Err(DecodeError)
    }
}

/// One digit as a one-character string.
fn digit_str(d: u128) -> (r: &'static str)
    requires
        d < 10,
    ensures
        r@ =~= seq![digit_char(d as nat)],
{
    if d == 0 {
        proof { reveal_strlit("0"); }
        "0"
    } else if d == 1 {
        proof { reveal_strlit("1"); }
        "1"
    } else if d == 2 {
        proof { reveal_strlit("2"); }
        "2"
    } else if d == 3 {
        proof { reveal_strlit("3"); }
        "3"
    } else if d == 4 {
        proof { reveal_strlit("4"); }
        "4"
    } else if d == 5 {
        proof { reveal_strlit("5"); }
        "5"
    } else if d == 6 {
        proof { reveal_strlit("6"); }
        "6"
    } else if d == 7 {
        proof { reveal_strlit("7"); }
        "7"
    } else if d == 8 {
        proof { reveal_strlit("8"); }
        "8"
    } else {
        proof { reveal_strlit("9"); }
        "9"
    }
}

/// The decimal text of a 128-bit value.
pub fn u128_to_dec(n: u128) -> (r: String)
    ensures
        r@ == dec_digits(n as nat),
    decreases n,
{
    if n < 10 {
        String::from_str(digit_str(n))
    } else {
        let prefix = u128_to_dec(n / 10);
        let r = prefix.concat(digit_str(n % 10));
        proof {
            assert(r@ =~= dec_digits(n as nat));
        }
        r
    }
}

impl Id {
    /// The canonical text form of this token.
    pub fn encode(&self) -> (r: String)
        ensures
            r@ == spec_encode(*self),
    {
        match self {
            Id::Participant(p) => {
                proof { reveal_strlit("P"); }
                let r = String::from_str("P").concat(u128_to_dec(p.0).as_str());
                proof {
                    assert(r@ =~= spec_encode(*self));
                }
                r
            },
            Id::Admin(a) => {
                proof { reveal_strlit("A"); }
                let r = String::from_str("A").concat(u128_to_dec(a.0).as_str());
                proof {
                    assert(r@ =~= spec_encode(*self));
                }
                r
            },
        }
    }

    /// Decode a token text: either a well-typed token or an error, with
    /// no partial success.
    pub fn decode(s: &str) -> (r: Result<Id, DecodeError>)
        ensures
            r == spec_decode(s@),
    {
        let n = s.unicode_len();
        if n == 0 {
            return Err(DecodeError);
        }
        let first = s.get_char(0);
        if first == 'p' || first == 'P' {
            match parse_u128_from(s, 1) {
                Some(v) => Ok(Id::Participant(ParticipantId(v))),
                None => Err(DecodeError),
            }
        } else if first == 'a' || first == 'A' {
            match parse_u128_from(s, 1) {
                Some(v) => Ok(Id::Admin(AdminId(v))),
                None => Err(DecodeError),
            }
        } else {
            Err(DecodeError)
        }
    }
}

/// Each digit character reads back as its own value.
proof fn lemma_digit_char_val(d: nat)
    requires
        d < 10,
    ensures
        is_digit(digit_char(d)),
        digit_val(digit_char(d)) == d,
{
}

/// Appending one digit multiplies the value by ten and adds the digit.
proof fn lemma_digits_val_push(s: Seq<char>, c: char)
    ensures
        digits_val(s.push(c)) == digits_val(s) * 10 + digit_val(c),
{
    assert(s.push(c).drop_last() =~= s);
    assert(s.push(c).last() == c);
}

/// A digit string is worth at least any of its prefixes.
proof fn lemma_digits_val_prefix_le(s: Seq<char>, i: int)
    requires
        0 <= i <= s.len(),
    ensures
        digits_val(s.take(i)) <= digits_val(s),
    decreases s.len() - i,
{
    if i == s.len() {
        assert(s.take(i) =~= s);
    } else {
        lemma_digits_val_prefix_le(s, i + 1);
        assert(s.take(i + 1).drop_last() =~= s.take(i));
        assert(digits_val(s.take(i + 1)) == digits_val(s.take(i)) * 10 + digit_val(s.take(i + 1).last()));
    }
}

/// Parse the decimal remainder of `s` from position `from` on: an
/// optional `+`, then digits whose value must fit in 128 bits.
fn parse_u128_from(s: &str, from: usize) -> (r: Option<u128>)
    requires
        from <= s@.len(),
    ensures
        (match r {
            Some(v) => u128_text_ok(s@.skip(from as int)) && v == u128_text_val(s@.skip(from as int)),
            None => !u128_text_ok(s@.skip(from as int)),
        }),
{
    let n = s.unicode_len();
    let ghost text = s@.skip(from as int);
    let mut i = from;
    if i < n && s.get_char(i) == '+' {
        i = i + 1;
    }
    let ghost start = i as int;
    proof {
        assert(strip_plus(text) =~= s@.subrange(start, n as int));
    }
    if i == n {
        // no digits at all
        return None;
    }
    let mut value: u128 = 0;
    while i < n
        invariant
            start <= i as int <= n as int,
            from as int <= start,
            n as int == s@.len(),
            text == s@.skip(from as int),
            strip_plus(text) =~= s@.subrange(start, n as int),
            all_digits(s@.subrange(start, i as int)),
            value == digits_val(s@.subrange(start, i as int)),
            start < n as int,
        decreases n as int - i as int,
    {
        let c = s.get_char(i);
        if c < '0' || c > '9' {
            proof {
                assert(!is_digit(strip_plus(text)[i as int - start]));
            }
            return None;
        }
        let d: u128 = (c as u32 - '0' as u32) as u128;
        proof {
            assert(d == digit_val(c));
        }
        if value > u128::MAX / 10 || (value == u128::MAX / 10 && d > u128::MAX % 10) {
            // the digits seen so far already overflow a 128-bit value,
            // and further digits can only increase the total
            proof {
                assert(s@.subrange(start, i as int + 1).drop_last() =~= s@.subrange(start, i as int));
                assert(digits_val(s@.subrange(start, i as int + 1)) > u128::MAX);
                assert(strip_plus(text).take(i as int + 1 - start) =~= s@.subrange(start, i as int + 1));
                lemma_digits_val_prefix_le(strip_plus(text), i as int + 1 - start);
            }
            return None;
        }
        proof {
            assert(s@.subrange(start, i as int + 1).drop_last() =~= s@.subrange(start, i as int));
            assert(s@.subrange(start, i as int + 1).last() == c);
        }
        value = value * 10 + d;
        i = i + 1;
    }
    proof {
        assert(s@.subrange(start, i as int) =~= strip_plus(text));
    }
    Some(value)
}

/// The digits of a value read back as that value: the codec's core.
proof fn lemma_dec_digits_val(n: nat)
    ensures
        dec_digits(n).len() >= 1,
        all_digits(dec_digits(n)),
        digits_val(dec_digits(n)) == n,
    decreases n,
{
    if n < 10 {
        lemma_digit_char_val(n);
        assert(seq![digit_char(n)].drop_last() =~= Seq::<char>::empty());
        assert(digits_val(seq![digit_char(n)]) == digits_val(Seq::<char>::empty()) * 10 + digit_val(digit_char(n)));
    } else {
        lemma_dec_digits_val(n / 10);
        lemma_digit_char_val(n % 10);
        lemma_digits_val_push(dec_digits(n / 10), digit_char(n % 10));
        assert(dec_digits(n) == dec_digits(n / 10).push(digit_char(n % 10)));
        assert(digits_val(dec_digits(n)) == (n / 10) * 10 + n % 10);
    }
}

/// Round-trip law: decoding the canonical text of any token yields
/// exactly that token, for both roles.
pub proof fn lemma_round_trip(id: Id)
    ensures
        spec_decode(spec_encode(id)) == Ok::<Id, DecodeError>(id),
{
    match id {
        Id::Participant(p) => {
            let s = spec_encode(id);
            lemma_dec_digits_val(p.0 as nat);
            assert(s.skip(1) =~= dec_digits(p.0 as nat));
            assert(is_digit(s.skip(1)[0]));
            assert(strip_plus(s.skip(1)) =~= dec_digits(p.0 as nat));
        },
        Id::Admin(a) => {
            let s = spec_encode(id);
            lemma_dec_digits_val(a.0 as nat);
            assert(s.skip(1) =~= dec_digits(a.0 as nat));
            assert(is_digit(s.skip(1)[0]));
            assert(strip_plus(s.skip(1)) =~= dec_digits(a.0 as nat));
        },
    }
}

} // verus!

