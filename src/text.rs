use vstd::prelude::*;

verus! {

/// The character of decimal digit `d`.
pub open spec fn digit_char(d: int) -> char {
    if d == 0 {
        '0'
    } else if d == 1 {
        '1'
    } else if d == 2 {
        '2'
    } else if d == 3 {
        '3'
    } else if d == 4 {
        '4'
    } else if d == 5 {
        '5'
    } else if d == 6 {
        '6'
    } else if d == 7 {
        '7'
    } else if d == 8 {
        '8'
    } else {
        '9'
    }
}

/// The value of a digit character, if it is one.
pub open spec fn digit_value(c: char) -> Option<int> {
    if '0' <= c && c <= '9' {
        Some(c as int - '0' as int)
    } else {
        None
    }
}

/// `n` written in decimal, without leading zeros.
pub open spec fn decimal(n: nat) -> Seq<char>
    decreases n,
{
    if n < 10 {
        seq![digit_char(n as int)]
    } else {
        decimal(n / 10).push(digit_char((n % 10) as int))
    }
}

/// `v` written in decimal, with a minus sign when negative.
pub open spec fn signed_decimal(v: int) -> Seq<char> {
    if v < 0 {
        seq!['-'] + decimal((-v) as nat)
    } else {
        decimal(v as nat)
    }
}

/// Every character of `s` is a decimal digit.
pub open spec fn all_digits(s: Seq<char>) -> bool {
    forall|i: int| 0 <= i < s.len() ==> #[trigger] digit_value(s[i]) is Some
}

/// The number that the digits `s` spell.
pub open spec fn digits_number(s: Seq<char>) -> nat
    decreases s.len(),
{
    if s.len() == 0 {
        0
    } else {
        (digits_number(s.drop_last()) * 10 + digit_value(s.last())->0) as nat
    }
}

/// The unsigned number that `s` spells in the form Rust's integer parsing
/// accepts: an optional `+`, then one or more decimal digits.
pub open spec fn unsigned_number(s: Seq<char>) -> Option<nat> {
    let body = if s.len() > 0 && s[0] == '+' {
        s.drop_first()
    } else {
        s
    };
    if body.len() > 0 && all_digits(body) {
        Some(digits_number(body))
    } else {
        None
    }
}

fn digit_str(d: u64) -> (r: &'static str)
    requires
        d < 10,
    ensures
        r@ == seq![digit_char(d as int)],
{
    if d == 0 {
        proof {
            reveal_strlit("0");
        }
        "0"
    } else if d == 1 {
        proof {
            reveal_strlit("1");
        }
        "1"
    } else if d == 2 {
        proof {
            reveal_strlit("2");
        }
        "2"
    } else if d == 3 {
        proof {
            reveal_strlit("3");
        }
        "3"
    } else if d == 4 {
        proof {
            reveal_strlit("4");
        }
        "4"
    } else if d == 5 {
        proof {
            reveal_strlit("5");
        }
        "5"
    } else if d == 6 {
        proof {
            reveal_strlit("6");
        }
        "6"
    } else if d == 7 {
        proof {
            reveal_strlit("7");
        }
        "7"
    } else if d == 8 {
        proof {
            reveal_strlit("8");
        }
        "8"
    } else {
        proof {
            reveal_strlit("9");
        }
        "9"
    }
}

/// `n` in decimal.
pub fn decimal_string(n: u64) -> (r: String)
    ensures
        r@ == decimal(n as nat),
    decreases n,
{
    if n < 10 {
        String::from_str(digit_str(n))
    } else {
        let mut s = decimal_string(n / 10);
        s.append(digit_str(n % 10));
        s
    }
}

/// `v` in decimal, with a minus sign when negative.
pub fn signed_decimal_string(v: i64) -> (r: String)
    ensures
        r@ == signed_decimal(v as int),
{
    if v < 0 {
        let magnitude: u64 = (0i128 - v as i128) as u64;
        proof {
            reveal_strlit("-");
        }
        let minus = String::from_str("-");
        minus.concat(decimal_string(magnitude).as_str())
    } else {
        decimal_string(v as u64)
    }
}

proof fn lemma_digits_number_grows(s: Seq<char>, c: char)
    requires
        digit_value(c) is Some,
    ensures
        digits_number(s.push(c)) >= digits_number(s) * 10,
        digits_number(s.push(c)) == digits_number(s) * 10 + digit_value(c)->0,
{
    assert(s.push(c).drop_last() =~= s);
}

/// The number that `s` spells as an unsigned decimal (optional `+`, then
/// digits), or `None` when it spells none or the number passes `u64::MAX`.
pub fn parse_unsigned(s: &str) -> (r: Option<u64>)
    ensures
        r == match unsigned_number(s@) {
            Some(n) => if n <= u64::MAX {
                Some(n as u64)
            } else {
                None
            },
            None => None,
        },
{
    let len = s.unicode_len();
    let mut start: usize = 0;
    if len > 0 && s.get_char(0) == '+' {
        start = 1;
    }
    let ghost body = if s@.len() > 0 && s@[0] == '+' {
        s@.drop_first()
    } else {
        s@
    };
    assert(body =~= s@.subrange(start as int, s@.len() as int));
    if start >= len {
        return None;
    }
    let mut acc: u64 = 0;
    let mut i: usize = start;
    while i < len
        invariant
            start <= i <= len,
            len == s@.len(),
            body =~= s@.subrange(start as int, len as int),
            body == (if s@.len() > 0 && s@[0] == '+' {
                s@.drop_first()
            } else {
                s@
            }),
            all_digits(s@.subrange(start as int, i as int)),
            acc == digits_number(s@.subrange(start as int, i as int)),
        decreases len - i,
    {
        let c = s.get_char(i);
        let ghost prefix = s@.subrange(start as int, i as int);
        assert(s@.subrange(start as int, i + 1) =~= prefix.push(c));
        if c < '0' || c > '9' {
            assert(body[i - start] == c);
            assert(digit_value(body[i - start]) is None);
            assert(!all_digits(body));
            assert(unsigned_number(s@) is None);
            return None;
        }
        proof {
            lemma_digits_number_grows(prefix, c);
        }
        let d: u64 = (c as u32 - '0' as u32) as u64;
        assert(digit_value(c)->0 == d);
        match acc.checked_mul(10) {
            None => {
                proof {
                    if all_digits(body) {
                        assert(body.subrange(0, i + 1 - start) =~= prefix.push(c));
                        lemma_all_digits_bound(body, (i + 1 - start) as int);
                        assert(digits_number(body) > u64::MAX);
                    }
                }
                return None;
            },
            Some(m) => match m.checked_add(d) {
                None => {
                    proof {
                        if all_digits(body) {
                            assert(body.subrange(0, i + 1 - start) =~= prefix.push(c));
                            lemma_all_digits_bound(body, (i + 1 - start) as int);
                        }
                    }
                    return None;
                },
                Some(v) => {
                    acc = v;
                },
            },
        }
        i += 1;
    }
    assert(s@.subrange(start as int, len as int) =~= body);
    Some(acc)
}

/// The digits of a prefix spell at most what the whole spells.
proof fn lemma_all_digits_bound(s: Seq<char>, k: int)
    requires
        0 <= k <= s.len(),
        all_digits(s),
    ensures
        digits_number(s.subrange(0, k)) <= digits_number(s),
    decreases s.len() - k,
{
    if k < s.len() {
        lemma_all_digits_bound(s, k + 1);
        let p = s.subrange(0, k);
        assert(s.subrange(0, k + 1) =~= p.push(s[k]));
        assert(digit_value(s[k]) is Some);
        lemma_digits_number_grows(p, s[k]);
    } else {
        assert(s.subrange(0, k) =~= s);
    }
}

} // verus!
