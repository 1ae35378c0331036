//! The alphabet of the codes and the checks that every code kind shares.
use vstd::prelude::*;
use vstd::string::StrSliceExecFns;

verus! {

/// An uppercase letter of the Russian alphabet: `А` to `Я`, and `Ё`.
pub open spec fn is_code_letter(c: char) -> bool {
    ('А' <= c && c <= 'Я') || c == 'Ё'
}

/// An ASCII decimal digit.
pub open spec fn is_code_digit(c: char) -> bool {
    '0' <= c && c <= '9'
}

/// A character that may stand in a code.
pub open spec fn is_code_char(c: char) -> bool {
    is_code_letter(c) || is_code_digit(c)
}

/// Every character of `s` may stand in a code.
pub open spec fn all_code_chars(s: Seq<char>) -> bool {
    forall|i: int| 0 <= i < s.len() ==> is_code_char(#[trigger] s[i])
}

/// The first character of `s` that may not stand in a code, if any.
pub open spec fn first_invalid(s: Seq<char>) -> Option<char>
    decreases s.len(),
{
    if s.len() == 0 {
        None
    } else if is_code_char(s[0]) {
        first_invalid(s.drop_first())
    } else {
        Some(s[0])
    }
}

/// How many ASCII digits `s` holds.
pub open spec fn digit_count(s: Seq<char>) -> nat
    decreases s.len(),
{
    if s.len() == 0 {
        0
    } else {
        digit_count(s.drop_last()) + if is_code_digit(s.last()) {
            1nat
        } else {
            0nat
        }
    }
}

/// Why a text is not a code of a given kind.
#[derive(Debug, PartialEq, Eq, Clone, Copy)]
pub enum Rejection {
    /// The text has this many characters, not the kind's length.
    InvalidLength(usize),
    /// This is the first character that may not stand in a code.
    InvalidLetter(char),
    /// The text holds this many digits, and the kind allows one at most.
    TooManyDigits(u32),
}

/// Why `s` is not a code of `len` characters, or `None` where it is one. The
/// checks come in this order: the length, each character from the first, and,
/// where `one_digit_at_most` holds, the number of digits.
pub open spec fn code_rejection(s: Seq<char>, len: nat, one_digit_at_most: bool) -> Option<Rejection> {
    if s.len() != len {
        Some(Rejection::InvalidLength(s.len() as usize))
    } else if first_invalid(s) is Some {
        Some(Rejection::InvalidLetter(first_invalid(s)->Some_0))
    } else if one_digit_at_most && digit_count(s) > 1 {
        Some(Rejection::TooManyDigits(digit_count(s) as u32))
    } else {
        None
    }
}

/// `first_invalid` finds nothing exactly when every character is allowed,
/// and what it finds is a character of `s` that is not allowed.
pub proof fn lemma_first_invalid(s: Seq<char>)
    ensures
        first_invalid(s) is None <==> all_code_chars(s),
        first_invalid(s) matches Some(c) ==> !is_code_char(c) && s.contains(c),
    decreases s.len(),
{
    if s.len() > 0 {
        lemma_first_invalid(s.drop_first());
        if is_code_char(s[0]) {
            if all_code_chars(s.drop_first()) {
                assert forall|i: int| 0 <= i < s.len() implies is_code_char(#[trigger] s[i]) by {
                    if i > 0 {
                        assert(s[i] == s.drop_first()[i - 1]);
                    }
                }
            } else {
                let k = choose|k: int|
                    0 <= k < s.drop_first().len() && !is_code_char(#[trigger] s.drop_first()[k]);
                assert(s[k + 1] == s.drop_first()[k]);
            }
            if let Some(c) = first_invalid(s) {
                let k = choose|k: int| 0 <= k < s.drop_first().len() && s.drop_first()[k] == c;
                assert(s[k + 1] == c);
            }
        } else {
            assert(s.contains(s[0]));
        }
    }
}

/// `digit_count` never exceeds the length.
pub proof fn lemma_digit_count_bound(s: Seq<char>)
    ensures
        digit_count(s) <= s.len(),
    decreases s.len(),
{
    if s.len() > 0 {
        lemma_digit_count_bound(s.drop_last());
    }
}

/// A text whose length is not the kind's is rejected for its length, and
/// the error carries the number of characters it has.
pub proof fn lemma_wrong_length_rejected(s: Seq<char>, len: nat, one_digit_at_most: bool)
    requires
        s.len() != len,
        s.len() <= usize::MAX,
    ensures
        code_rejection(s, len, one_digit_at_most) matches Some(Rejection::InvalidLength(n))
            && n == s.len(),
{
}

/// A text of the kind's length that holds a character which is neither a
/// letter of the alphabet nor a digit is rejected, and the error names such
/// a character of the text.
pub proof fn lemma_bad_character_rejected(s: Seq<char>, len: nat, one_digit_at_most: bool)
    requires
        s.len() == len,
        exists|i: int| 0 <= i < s.len() && !is_code_char(#[trigger] s[i]),
    ensures
        code_rejection(s, len, one_digit_at_most) matches Some(Rejection::InvalidLetter(c))
            && !is_code_char(c) && s.contains(c),
{
    lemma_first_invalid(s);
}

/// Under the one-digit rule, a text of the kind's length made of allowed
/// characters is rejected when it holds two digits, with that count, and
/// accepted when it holds one digit or none.
pub proof fn lemma_digit_rule(s: Seq<char>, len: nat)
    requires
        s.len() == len,
        all_code_chars(s),
    ensures
        digit_count(s) == 2 ==> code_rejection(s, len, true) == Some(Rejection::TooManyDigits(2)),
        digit_count(s) <= 1 ==> code_rejection(s, len, true) is None,
{
    lemma_first_invalid(s);
}

/// Whether `c` may stand in a code.
pub fn code_char(c: char) -> (r: bool)
    ensures
        r == is_code_char(c),
{
    ('А' <= c && c <= 'Я') || c == 'Ё' || ('0' <= c && c <= '9')
}

/// The first character of `s` that may not stand in a code, if any.
pub fn find_invalid(s: &str) -> (r: Option<char>)
    ensures
        r == first_invalid(s@),
{
    let n = s.unicode_len();
    let mut i: usize = 0;
    assert(s@.subrange(0, n as int) =~= s@);
    while i < n
        invariant
            n == s@.len(),
            i <= n,
            first_invalid(s@) == first_invalid(s@.subrange(i as int, n as int)),
        decreases n - i,
    {
        let c = s.get_char(i);
        let ghost rest = s@.subrange(i as int, n as int);
        assert(rest[0] == c);
        if !code_char(c) {
            return Some(c);
        }
        assert(rest.drop_first() =~= s@.subrange(i + 1, n as int));
        i = i + 1;
    }
    assert(s@.subrange(n as int, n as int).len() == 0);
    None
}

/// How many ASCII digits `s` holds.
pub fn count_digits(s: &str) -> (r: u32)
    requires
        s@.len() <= u32::MAX,
    ensures
        r == digit_count(s@),
{
    let n = s.unicode_len();
    let mut i: usize = 0;
    let mut count: u32 = 0;
    while i < n
        invariant
            n == s@.len(),
            n <= u32::MAX,
            i <= n,
            count == digit_count(s@.subrange(0, i as int)),
        decreases n - i,
    {
        let c = s.get_char(i);
        let ghost pre = s@.subrange(0, i as int + 1);
        assert(pre.drop_last() =~= s@.subrange(0, i as int));
        assert(pre.last() == c);
        proof {
            lemma_digit_count_bound(s@.subrange(0, i as int));
        }
        if '0' <= c && c <= '9' {
            count = count + 1;
        }
        i = i + 1;
    }
    assert(s@.subrange(0, n as int) =~= s@);
    count
}

} // verus!
