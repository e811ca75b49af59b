//! Input validation: pure functions classifying raw user text against the
//! field grammars (course answers, signed integers, case-insensitive tokens).

use vstd::prelude::*;
use vstd::string::StrSliceExecFns;

verus! {

/// How an accepted course answer is classified.
#[derive(Clone, Copy, Debug, PartialEq, Eq, Structural)]
pub enum CourseValue {
    /// Course in [1, 4]; the motivation question follows.
    Junior(u8),
    /// "Year 6 or above": the literal "6+", or any accepted integer above 4.
    Senior,
}

/// `c` is an ASCII decimal digit.
pub open spec fn is_digit(c: char) -> bool {
    48 <= c as u32 <= 57
}

/// Every character of `s` is an ASCII decimal digit.
pub open spec fn all_digits(s: Seq<char>) -> bool {
    forall|i: int| 0 <= i < s.len() ==> is_digit(#[trigger] s[i])
}

/// The number the digit string `s` denotes, most significant digit first.
pub open spec fn digits_val(s: Seq<char>) -> int
    decreases s.len(),
{
    if s.len() == 0 {
        0
    } else {
        digits_val(s.drop_last()) * 10 + (s.last() as u32 - 48)
    }
}

pub proof fn lemma_digits_val_nonneg(s: Seq<char>)
    requires
        all_digits(s),
    ensures
        digits_val(s) >= 0,
    decreases s.len(),
{
    if s.len() > 0 {
        assert forall|i: int| 0 <= i < s.drop_last().len() implies is_digit(
            #[trigger] s.drop_last()[i],
        ) by {
            assert(s.drop_last()[i] == s[i]);
        }
        lemma_digits_val_nonneg(s.drop_last());
        assert(is_digit(s.last()));
    }
}

/// Dropping trailing digits never increases the denoted number.
pub proof fn lemma_digits_val_take_le(s: Seq<char>, k: int)
    requires
        all_digits(s),
        0 <= k <= s.len(),
    ensures
        digits_val(s.take(k)) <= digits_val(s),
    decreases s.len(),
{
    if k < s.len() {
        assert forall|i: int| 0 <= i < s.drop_last().len() implies is_digit(
            #[trigger] s.drop_last()[i],
        ) by {
            assert(s.drop_last()[i] == s[i]);
        }
        lemma_digits_val_nonneg(s.drop_last());
        lemma_digits_val_take_le(s.drop_last(), k);
        assert(s.take(k) =~= s.drop_last().take(k));
        assert(is_digit(s.last()));
    } else {
        assert(s.take(k) =~= s);
    }
}

/// Reads `s[from..]` as an unsigned decimal number of at most `cap`: one or
/// more ASCII digits and nothing else. Returns the value exactly when that
/// grammar holds and the value does not exceed `cap`.
pub fn parse_digits(s: &str, from: usize, cap: u128) -> (r: Option<u128>)
    requires
        from <= s@.len(),
        cap <= 0x8000_0000_0000_0000,
    ensures
        ({
            let b = s@.skip(from as int);
            match r {
                Some(v) => b.len() > 0 && all_digits(b) && digits_val(b) <= cap && v == digits_val(
                    b,
                ),
                None => !(b.len() > 0 && all_digits(b) && digits_val(b) <= cap),
            }
        }),
{
    let n = s.unicode_len();
    if from == n {
        proof {
            assert(s@.skip(from as int).len() == 0);
        }
        return None;
    }
    let mut acc: u128 = 0;
    let mut i: usize = from;
    while i < n
        invariant
            from <= i <= n,
            n == s@.len(),
            cap <= 0x8000_0000_0000_0000,
            all_digits(s@.subrange(from as int, i as int)),
            acc == digits_val(s@.subrange(from as int, i as int)),
            acc <= cap,
        decreases n - i,
    {
        let c = s.get_char(i);
        let cu = c as u32;
        if cu < 48 || cu > 57 {
            proof {
                assert(s@.skip(from as int)[i - from] == s@[i as int]);
            }
            return None;
        }
        let d = (cu - 48) as u128;
        proof {
            assert(s@.subrange(from as int, i as int + 1).drop_last() =~= s@.subrange(
                from as int,
                i as int,
            ));
            assert(s@.subrange(from as int, i as int + 1).last() == s@[i as int]);
            assert forall|j: int|
                0 <= j < s@.subrange(from as int, i as int + 1).len() implies is_digit(
                #[trigger] s@.subrange(from as int, i as int + 1)[j],
            ) by {
                assert(s@.subrange(from as int, i as int + 1)[j] == s@[from + j]);
                if j < i - from {
                    assert(s@.subrange(from as int, i as int)[j] == s@[from + j]);
                }
            }
        }
        let acc2 = acc * 10 + d;
        if acc2 > cap {
            proof {
                let b = s@.skip(from as int);
                assert(b.take(i as int + 1 - from) =~= s@.subrange(from as int, i as int + 1));
                if all_digits(b) {
                    lemma_digits_val_take_le(b, i as int + 1 - from);
                }
            }
            return None;
        }
        acc = acc2;
        i = i + 1;
    }
    proof {
        assert(s@.subrange(from as int, n as int) =~= s@.skip(from as int));
    }
    Some(acc)
}

/// The course grammar. The literal "6+" and every accepted integer above 4
/// mean senior; integers 1 to 4 mean junior; everything else — no digits,
/// zero, a number too large for one byte — is rejected. An accepted integer
/// is an optional leading '+' followed by ASCII digits denoting at most 255.
pub open spec fn course_of(s: Seq<char>) -> Option<CourseValue> {
    if s == seq!['6', '+'] {
        Some(CourseValue::Senior)
    } else {
        let b = if s.len() > 0 && s[0] == '+' {
            s.skip(1)
        } else {
            s
        };
        if b.len() > 0 && all_digits(b) && digits_val(b) <= 255 {
            if digits_val(b) > 4 {
                Some(CourseValue::Senior)
            } else if digits_val(b) >= 1 {
                Some(CourseValue::Junior(digits_val(b) as u8))
            } else {
                None
            }
        } else {
            None
        }
    }
}

/// Classifies a course answer; returns `None` exactly when the answer is
/// rejected and the course prompt must be repeated.
pub fn parse_course(s: &str) -> (r: Option<CourseValue>)
    ensures
        r == course_of(s@),
{
    let n = s.unicode_len();
    if n == 2 {
        let c0 = s.get_char(0);
        let c1 = s.get_char(1);
        if c0 == '6' && c1 == '+' {
            proof {
                assert(s@ =~= seq!['6', '+']);
            }
            return Some(CourseValue::Senior);
        }
    }
    proof {
        if s@ == seq!['6', '+'] {
            assert(s@[0] == '6' && s@[1] == '+');
        }
    }
    let start: usize = if n > 0 && s.get_char(0) == '+' {
        1
    } else {
        0
    };
    proof {
        if start == 0 {
            assert(s@.skip(0) =~= s@);
        }
    }
    match parse_digits(s, start, 255) {
        None => None,
        Some(v) => {
            if v > 4 {
                Some(CourseValue::Senior)
            } else if v >= 1 {
                Some(CourseValue::Junior(v as u8))
            } else {
                None
            }
        },
    }
}

/// The form accepts any text payload as an answer; the rejection signal is
/// specifically "the message carried no text", never "the text was empty".
pub fn parse_nonempty(text: Option<String>) -> (r: Option<String>)
    ensures
        r == text,
{
    text
}

/// The signed decimal grammar of a conversation id: an optional sign followed
/// by ASCII digits, denoting a value a 64-bit signed integer can hold.
pub open spec fn int_body(s: Seq<char>) -> Seq<char> {
    if s.len() > 0 && (s[0] == '+' || s[0] == '-') {
        s.skip(1)
    } else {
        s
    }
}

pub open spec fn int_negative(s: Seq<char>) -> bool {
    s.len() > 0 && s[0] == '-'
}

pub open spec fn signed_val(s: Seq<char>) -> int {
    if int_negative(s) {
        -digits_val(int_body(s))
    } else {
        digits_val(int_body(s))
    }
}

pub open spec fn i64_of(s: Seq<char>) -> Option<i64> {
    let b = int_body(s);
    if b.len() > 0 && all_digits(b) && i64::MIN <= signed_val(s) <= i64::MAX {
        Some(signed_val(s) as i64)
    } else {
        None
    }
}

/// Reads a conversation id; returns `None` exactly when the text is not the
/// decimal form of a 64-bit signed integer.
pub fn parse_i64(s: &str) -> (r: Option<i64>)
    ensures
        r == i64_of(s@),
{
    let n = s.unicode_len();
    let mut neg = false;
    let mut start: usize = 0;
    if n > 0 {
        let c0 = s.get_char(0);
        if c0 == '-' {
            neg = true;
            start = 1;
        } else if c0 == '+' {
            start = 1;
        }
    }
    proof {
        if start == 0 {
            assert(s@.skip(0) =~= s@);
        }
    }
    let cap: u128 = if neg {
        9223372036854775808
    } else {
        9223372036854775807
    };
    match parse_digits(s, start, cap) {
        None => None,
        Some(v) => {
            if neg {
                if v == 9223372036854775808 {
                    Some(i64::MIN)
                } else {
                    Some(-(v as i64))
                }
            } else {
                Some(v as i64)
            }
        },
    }
}

/// ASCII lowercase image of a character; all other characters are unchanged.
pub open spec fn lower_char(c: char) -> char {
    if 65 <= c as u32 <= 90 {
        ((c as u32 + 32) as u8) as char
    } else {
        c
    }
}

/// `a` and `b` are the same text up to ASCII case.
pub open spec fn eq_ignore_case(a: Seq<char>, b: Seq<char>) -> bool {
    a.len() == b.len() && forall|i: int|
        0 <= i < a.len() ==> lower_char(#[trigger] a[i]) == lower_char(#[trigger] b[i])
}

fn lower_ascii(c: char) -> (r: char)
    ensures
        r == lower_char(c),
{
    let cu = c as u32;
    if 65 <= cu && cu <= 90 {
        ((cu + 32) as u8) as char
    } else {
        c
    }
}

/// Compares two texts up to ASCII case; how the confirmation tokens of the
/// broadcast flow are recognised.
pub fn eq_ignore_ascii_case(a: &str, b: &str) -> (r: bool)
    ensures
        r == eq_ignore_case(a@, b@),
{
    let na = a.unicode_len();
    let nb = b.unicode_len();
    if na != nb {
        return false;
    }
    let mut i: usize = 0;
    while i < na
        invariant
            na == a@.len(),
            nb == b@.len(),
            na == nb,
            i <= na,
            forall|j: int|
                0 <= j < i ==> lower_char(#[trigger] a@[j]) == lower_char(#[trigger] b@[j]),
        decreases na - i,
    {
        let ca = lower_ascii(a.get_char(i));
        let cb = lower_ascii(b.get_char(i));
        if ca != cb {
            return false;
        }
        i = i + 1;
    }
    true
}

} // verus!
