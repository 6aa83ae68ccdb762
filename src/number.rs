use vstd::prelude::*;

verus! {

/// `c` is one of the ASCII digits `0` to `9`.
pub open spec fn is_digit(c: char) -> bool {
    '0' <= c && c <= '9'
}

/// The value of the digit `c`.
pub open spec fn digit_value(c: char) -> nat {
    ((c as u32) - 48) as nat
}

/// The value of a string of decimal digits, read from the left.
pub open spec fn digits_value(s: Seq<char>) -> nat
    decreases s.len(),
{
    if s.len() == 0 {
        0
    } else {
        digits_value(s.drop_last()) * 10 + digit_value(s.last())
    }
}

pub open spec fn all_digits(s: Seq<char>) -> bool {
    forall|k: int| 0 <= k < s.len() ==> is_digit(#[trigger] s[k])
}

/// The integer written in `s`: an optional `+` (or `-`, where `signed`),
/// then at least one decimal digit and nothing else.
pub open spec fn number_of(s: Seq<char>, signed: bool) -> Option<int> {
    let neg = signed && s.len() > 0 && s[0] == '-';
    let has_sign = s.len() > 0 && (s[0] == '+' || neg);
    let digits = if has_sign {
        s.drop_first()
    } else {
        s
    };
    if digits.len() > 0 && all_digits(digits) {
        Some(
            if neg {
                -digits_value(digits)
            } else {
                digits_value(digits) as int
            },
        )
    } else {
        None
    }
}

/// A magnitude beyond every range that an option accepts.
pub const NUMBER_CAP: i64 = 1_099_511_627_776;

/// `n`, held within plus or minus `NUMBER_CAP`.
pub open spec fn capped(n: int) -> int {
    if n >= NUMBER_CAP {
        NUMBER_CAP as int
    } else if n <= -NUMBER_CAP {
        -NUMBER_CAP
    } else {
        n
    }
}

/// The number written in `s`, held within plus or minus `NUMBER_CAP`.
pub open spec fn capped_number(s: Seq<char>, signed: bool) -> Option<i64> {
    match number_of(s, signed) {
        Some(n) => Some(capped(n) as i64),
        None => None,
    }
}

/// Reads the number that `t` writes from character `from` on; a value of
/// magnitude `NUMBER_CAP` or more comes back as plus or minus `NUMBER_CAP`.
pub fn read_number(t: &str, from: usize, signed: bool) -> (r: Option<i64>)
    requires
        from <= t@.len(),
    ensures
        r == capped_number(t@.subrange(from as int, t@.len() as int), signed),
{
    let ghost s = t@.subrange(from as int, t@.len() as int);
    let len = t.unicode_len();
    let mut start: usize = from;
    let mut neg = false;
    if from < len {
        let c = t.get_char(from);
        if c == '+' {
            start = from + 1;
        } else if signed && c == '-' {
            neg = true;
            start = from + 1;
        }
    }
    let ghost digits = t@.subrange(start as int, t@.len() as int);
    assert(start > from ==> digits =~= s.drop_first());
    if start >= len {
        return None;
    }
    let mut acc: u64 = 0;
    let mut k: usize = start;
    while k < len
        invariant
            from <= start <= k <= len,
            len == t@.len(),
            digits == t@.subrange(start as int, t@.len() as int),
            s == t@.subrange(from as int, t@.len() as int),
            start > from ==> digits =~= s.drop_first(),
            start == from ==> !neg && digits == s && !(s.len() > 0 && (s[0] == '+' || (signed
                && s[0] == '-'))),
            start > from ==> start == from + 1 && (s[0] == '+' || (signed && s[0] == '-')),
            neg == (start > from && signed && s[0] == '-'),
            forall|j: int| start <= j < k ==> is_digit(#[trigger] t@[j]),
            acc == if digits_value(t@.subrange(start as int, k as int)) < NUMBER_CAP {
                digits_value(t@.subrange(start as int, k as int))
            } else {
                NUMBER_CAP as nat
            },
        decreases len - k,
    {
        let c = t.get_char(k);
        if !('0' <= c && c <= '9') {
            assert(digits[k - start] == t@[k as int]);
            return None;
        }
        let ghost prev = t@.subrange(start as int, k as int);
        let ghost next = t@.subrange(start as int, k + 1);
        assert(next.drop_last() =~= prev);
        let d = (c as u32 - 48) as u64;
        if acc < NUMBER_CAP as u64 {
            acc = acc * 10 + d;
            if acc > NUMBER_CAP as u64 {
                acc = NUMBER_CAP as u64;
            }
        }
        k = k + 1;
    }
    assert(t@.subrange(start as int, k as int) =~= digits);
    assert(all_digits(digits));
    if neg {
        Some(0 - (acc as i64))
    } else {
        Some(acc as i64)
    }
}

} // verus!
