use vstd::prelude::*;
use vstd::utf8::encode_utf8;

use crate::messages::SysInfo;
use crate::text::{parse_unsigned, unsigned_number};

verus! {

/// `c` has the Unicode `White_Space` property (what `char::is_whitespace` tests).
pub open spec fn is_white(c: char) -> bool {
    ||| ('\t' <= c && c <= '\r')
    ||| c == ' '
    ||| c == '\u{85}'
    ||| c == '\u{a0}'
    ||| c == '\u{1680}'
    ||| ('\u{2000}' <= c && c <= '\u{200a}')
    ||| c == '\u{2028}'
    ||| c == '\u{2029}'
    ||| c == '\u{202f}'
    ||| c == '\u{205f}'
    ||| c == '\u{3000}'
}

/// `s` without its leading white space.
pub open spec fn skip_white(s: Seq<char>) -> Seq<char>
    decreases s.len(),
{
    if s.len() > 0 && is_white(s[0]) {
        skip_white(s.drop_first())
    } else {
        s
    }
}

/// `s` without its trailing white space.
pub open spec fn drop_white_end(s: Seq<char>) -> Seq<char>
    decreases s.len(),
{
    if s.len() > 0 && is_white(s.last()) {
        drop_white_end(s.drop_last())
    } else {
        s
    }
}

/// `s` without white space at either end, as `str::trim` gives it.
pub open spec fn trimmed(s: Seq<char>) -> Seq<char> {
    drop_white_end(skip_white(s))
}

/// The address shown for the contents of the address file (`None` when it
/// could not be read): the trimmed contents when they are longer than one
/// byte, else `N/A`.
pub open spec fn ip_text(contents: Option<Seq<char>>) -> Seq<char> {
    match contents {
        Some(c) => if encode_utf8(c).len() as usize > 1 {
            trimmed(c)
        } else {
            "N/A"@
        },
        None => trimmed("N/A"@),
    }
}

/// The seconds of uptime that the contents of `/proc/uptime` give: the
/// number before the first `.`, or 0 when there is none or it is no `usize`.
pub open spec fn uptime_secs(contents: Seq<char>) -> usize {
    if exists|k: int| 0 <= k < contents.len() && contents[k] == '.' {
        let k = choose|k: int|
            0 <= k < contents.len() && contents[k] == '.' && forall|j: int|
                0 <= j < k ==> contents[j] != '.';
        match unsigned_number(contents.subrange(0, k)) {
            Some(n) => if n <= usize::MAX {
                n as usize
            } else {
                0
            },
            None => 0,
        }
    } else {
        0
    }
}

fn white(c: char) -> (r: bool)
    ensures
        r == is_white(c),
{
    ('\t' <= c && c <= '\r') || c == ' ' || c == '\u{85}' || c == '\u{a0}' || c == '\u{1680}' || (
    '\u{2000}' <= c && c <= '\u{200a}') || c == '\u{2028}' || c == '\u{2029}' || c == '\u{202f}'
        || c == '\u{205f}' || c == '\u{3000}'
}

/// `s` without white space at either end.
pub fn trim(s: &str) -> (r: String)
    ensures
        r@ == trimmed(s@),
{
    let len = s.unicode_len();
    let mut a: usize = 0;
    assert(s@.subrange(0, len as int) =~= s@);
    while a < len && white(s.get_char(a))
        invariant
            a <= len,
            len == s@.len(),
            skip_white(s@) == skip_white(s@.subrange(a as int, len as int)),
        decreases len - a,
    {
        assert(s@.subrange(a as int, len as int).drop_first() =~= s@.subrange(a + 1, len as int));
        a += 1;
    }
    assert(skip_white(s@.subrange(a as int, len as int)) == s@.subrange(a as int, len as int));
    let mut b: usize = len;
    while b > a && white(s.get_char(b - 1))
        invariant
            a <= b <= len,
            len == s@.len(),
            skip_white(s@) == s@.subrange(a as int, len as int),
            trimmed(s@) == drop_white_end(s@.subrange(a as int, b as int)),
        decreases b - a,
    {
        assert(s@.subrange(a as int, b as int).drop_last() =~= s@.subrange(a as int, b - 1));
        b -= 1;
    }
    assert(drop_white_end(s@.subrange(a as int, b as int)) == s@.subrange(a as int, b as int));
    String::from_str(s.substring_char(a, b))
}

impl SysInfo {
    /// The address to report, from the contents of the address file.
    pub fn ip_from(contents: Option<String>) -> (r: String)
        ensures
            r@ == ip_text(
                match contents {
                    Some(c) => Some(c@),
                    None => None,
                },
            ),
    {
        proof {
            reveal_strlit("N/A");
        }
        match contents {
            Some(c) => if c.as_str().len() > 1 {
                trim(c.as_str())
            } else {
                String::from_str("N/A")
            },
            None => trim("N/A"),
        }
    }

    /// Whole seconds of uptime, from the contents of `/proc/uptime`.
    pub fn uptime_from(contents: &str) -> (r: usize)
        ensures
            r == uptime_secs(contents@),
    {
        let len = contents.unicode_len();
        let mut k: usize = 0;
        while k < len && contents.get_char(k) != '.'
            invariant
                k <= len,
                len == contents@.len(),
                forall|j: int| 0 <= j < k ==> contents@[j] != '.',
            decreases len - k,
        {
            k += 1;
        }
        if k == len {
            return 0;
        }
        let ghost first = choose|j: int|
            0 <= j < contents@.len() && contents@[j] == '.' && forall|i: int|
                0 <= i < j ==> contents@[i] != '.';
        assert(first == k) by {
            if first < k {
                assert(contents@[first] != '.');
            } else if first > k {
                assert(contents@[k as int] != '.');
            }
        }
        match parse_unsigned(contents.substring_char(0, k)) {
            Some(n) => if n <= usize::MAX as u64 {
                n as usize
            } else {
                0
            },
            None => 0,
        }
    }
}

} // verus!
