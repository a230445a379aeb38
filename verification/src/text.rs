//! Text handling for interactive answers: whitespace trimming and ASCII
//! case folding, over sequences of characters.

use vstd::prelude::*;
use vstd::string::*;

verus! {

/// Whether `c` carries the Unicode property `White_Space`.
pub open spec fn is_space(c: char) -> bool {
    let n = c as u32;
    ||| 0x09 <= n <= 0x0D
    ||| n == 0x20
    ||| n == 0x85
    ||| n == 0xA0
    ||| n == 0x1680
    ||| 0x2000 <= n <= 0x200A
    ||| n == 0x2028
    ||| n == 0x2029
    ||| n == 0x202F
    ||| n == 0x205F
    ||| n == 0x3000
}

/// `s` without the whitespace it starts with.
pub open spec fn trim_front(s: Seq<char>) -> Seq<char>
    decreases s.len(),
{
    if s.len() > 0 && is_space(s.first()) {
        trim_front(s.drop_first())
    } else {
        s
    }
}

/// `s` without the whitespace it ends with.
pub open spec fn trim_back(s: Seq<char>) -> Seq<char>
    decreases s.len(),
{
    if s.len() > 0 && is_space(s.last()) {
        trim_back(s.drop_last())
    } else {
        s
    }
}

/// `s` without leading and trailing whitespace; a line end counts as
/// whitespace.
pub open spec fn trimmed(s: Seq<char>) -> Seq<char> {
    trim_back(trim_front(s))
}

/// Whether `s[a..b]` is what is left of `s` once the whitespace at both ends
/// is gone: everything outside the range is whitespace, and the range, unless
/// empty, begins and ends with something else.
pub open spec fn is_core(s: Seq<char>, a: int, b: int) -> bool {
    &&& 0 <= a <= b <= s.len()
    &&& forall|i: int| 0 <= i < a ==> is_space(#[trigger] s[i])
    &&& forall|i: int| b <= i < s.len() ==> is_space(#[trigger] s[i])
    &&& a < b ==> !is_space(s[a]) && !is_space(s[b - 1])
}

/// The ASCII lower-case form of `c`: `A` to `Z` become `a` to `z`, every
/// other character stays.
pub open spec fn ascii_lower(c: char) -> char {
    if 0x41 <= c as u32 <= 0x5A {
        ((c as u32 + 0x20) as u8) as char
    } else {
        c
    }
}

/// `s` with each character in its ASCII lower-case form.
pub open spec fn ascii_lowered(s: Seq<char>) -> Seq<char> {
    Seq::new(s.len(), |i: int| ascii_lower(s[i]))
}

/// The digit `d` as a text; anything but 0 to 9 counts as 0.
pub open spec fn digit_text(d: int) -> Seq<char> {
    if d == 1 {
        "1"@
    } else if d == 2 {
        "2"@
    } else if d == 3 {
        "3"@
    } else if d == 4 {
        "4"@
    } else if d == 5 {
        "5"@
    } else if d == 6 {
        "6"@
    } else if d == 7 {
        "7"@
    } else if d == 8 {
        "8"@
    } else if d == 9 {
        "9"@
    } else {
        "0"@
    }
}

/// The number `n` in decimal digits, without leading zeros.
pub open spec fn decimal(n: nat) -> Seq<char>
    decreases n,
{
    if n < 10 {
        digit_text(n as int)
    } else {
        decimal(n / 10) + digit_text((n % 10) as int)
    }
}

proof fn lemma_trim_front_at(s: Seq<char>, a: int)
    requires
        0 <= a <= s.len(),
        forall|i: int| 0 <= i < a ==> is_space(#[trigger] s[i]),
        a < s.len() ==> !is_space(s[a]),
    ensures
        trim_front(s) == s.subrange(a, s.len() as int),
    decreases a,
{
    if a == 0 {
        assert(s.subrange(0, s.len() as int) =~= s);
    } else {
        let rest = s.drop_first();
        assert forall|i: int| 0 <= i < a - 1 implies is_space(#[trigger] rest[i]) by {
            assert(rest[i] == s[i + 1]);
        }
        lemma_trim_front_at(rest, a - 1);
        assert(rest.subrange(a - 1, rest.len() as int) =~= s.subrange(a, s.len() as int));
    }
}

proof fn lemma_trim_back_at(s: Seq<char>, b: int)
    requires
        0 <= b <= s.len(),
        forall|i: int| b <= i < s.len() ==> is_space(#[trigger] s[i]),
        0 < b ==> !is_space(s[b - 1]),
    ensures
        trim_back(s) == s.subrange(0, b),
    decreases s.len() - b,
{
    if b == s.len() {
        assert(s.subrange(0, b) =~= s);
    } else {
        let rest = s.drop_last();
        assert forall|i: int| b <= i < rest.len() implies is_space(#[trigger] rest[i]) by {
            assert(rest[i] == s[i]);
        }
        lemma_trim_back_at(rest, b);
        assert(rest.subrange(0, b) =~= s.subrange(0, b));
    }
}

/// Trimming keeps exactly the core of a text: whichever range `a..b` marks
/// the core of `s`, `trimmed(s)` is `s[a..b]`, character for character.
pub proof fn lemma_trimmed_is_core(s: Seq<char>, a: int, b: int)
    requires
        is_core(s, a, b),
    ensures
        trimmed(s) == s.subrange(a, b),
{
    if a < s.len() && is_space(s[a]) {
        // The core is empty and `s` is whitespace throughout.
        assert(a == b);
        lemma_trim_front_at(s, s.len() as int);
        let front = s.subrange(s.len() as int, s.len() as int);
        assert(front.len() == 0);
        assert(trim_back(front) == front);
        assert(front =~= s.subrange(a, b));
    } else {
        lemma_trim_front_at(s, a);
        let front = s.subrange(a, s.len() as int);
        assert forall|i: int| b - a <= i < front.len() implies is_space(#[trigger] front[i]) by {
            assert(front[i] == s[i + a]);
        }
        if a < b {
            assert(front[b - a - 1] == s[b - 1]);
        }
        lemma_trim_back_at(front, b - a);
        assert(front.subrange(0, b - a) =~= s.subrange(a, b));
    }
}

/// Every text has a core, so `trimmed` always names a range of its argument.
pub proof fn lemma_core_exists(s: Seq<char>) -> (r: (int, int))
    ensures
        is_core(s, r.0, r.1),
        trimmed(s) == s.subrange(r.0, r.1),
    decreases s.len(),
{
    let r = if s.len() == 0 {
        (0int, 0int)
    } else if is_space(s.first()) {
        let rest = s.drop_first();
        let (a, b) = lemma_core_exists(rest);
        assert forall|i: int| 0 <= i < a + 1 implies is_space(#[trigger] s[i]) by {
            if i > 0 {
                assert(s[i] == rest[i - 1]);
            }
        }
        assert forall|i: int| b + 1 <= i < s.len() implies is_space(#[trigger] s[i]) by {
            assert(s[i] == rest[i - 1]);
        }
        if a < b {
            assert(s[a + 1] == rest[a]);
            assert(s[b] == rest[b - 1]);
        }
        (a + 1, b + 1)
    } else if is_space(s.last()) {
        let rest = s.drop_last();
        let (a, b) = lemma_core_exists(rest);
        assert forall|i: int| 0 <= i < a implies is_space(#[trigger] s[i]) by {
            assert(s[i] == rest[i]);
        }
        assert forall|i: int| b <= i < s.len() implies is_space(#[trigger] s[i]) by {
            if i < rest.len() {
                assert(s[i] == rest[i]);
            }
        }
        if a < b {
            assert(s[a] == rest[a]);
            assert(s[b - 1] == rest[b - 1]);
        } else {
            // `rest` is whitespace throughout, yet `s` starts with none.
            assert(rest.len() > 0 ==> is_space(rest[0]));
            assert(rest.len() > 0 ==> rest[0] == s[0]);
        }
        (a, b)
    } else {
        (0int, s.len() as int)
    };
    lemma_trimmed_is_core(s, r.0, r.1);
    r
}

/// Tests a character for the Unicode property `White_Space`.
pub fn is_whitespace(c: char) -> (r: bool)
    ensures
        r == is_space(c),
{
    let n: u32 = c as u32;
    (0x09 <= n && n <= 0x0D) || n == 0x20 || n == 0x85 || n == 0xA0 || n == 0x1680 || (0x2000 <= n
        && n <= 0x200A) || n == 0x2028 || n == 0x2029 || n == 0x202F || n == 0x205F || n == 0x3000
}

/// Returns `s` without leading and trailing whitespace, the rest unchanged.
pub fn trim(s: &str) -> (r: String)
    ensures
        r@ == trimmed(s@),
{
    let n: usize = s.unicode_len();
    let mut a: usize = 0;
    while a < n && is_whitespace(s.get_char(a))
        invariant
            a <= n,
            n == s@.len(),
            forall|i: int| 0 <= i < a ==> is_space(#[trigger] s@[i]),
        decreases n - a,
    {
        a += 1;
    }
    let mut b: usize = n;
    while a < b && is_whitespace(s.get_char(b - 1))
        invariant
            a <= b <= n,
            n == s@.len(),
            forall|i: int| b <= i < n ==> is_space(#[trigger] s@[i]),
        decreases b,
    {
        b -= 1;
    }
    proof {
        lemma_trimmed_is_core(s@, a as int, b as int);
    }
    String::from_str(s.substring_char(a, b))
}

fn digit(d: u16) -> (r: &'static str)
    ensures
        r@ == digit_text(d as int),
{
    if d == 1 {
        "1"
    } else if d == 2 {
        "2"
    } else if d == 3 {
        "3"
    } else if d == 4 {
        "4"
    } else if d == 5 {
        "5"
    } else if d == 6 {
        "6"
    } else if d == 7 {
        "7"
    } else if d == 8 {
        "8"
    } else if d == 9 {
        "9"
    } else {
        "0"
    }
}

/// Writes `n` in decimal digits.
pub fn decimal_text(n: u16) -> (r: String)
    ensures
        r@ == decimal(n as nat),
    decreases n,
{
    if n < 10 {
        String::from_str(digit(n))
    } else {
        let mut text = decimal_text(n / 10);
        text.append(digit(n % 10));
        text
    }
}

/// `a` followed by `b`.
pub fn join2(a: &str, b: &str) -> (r: String)
    ensures
        r@ == a@ + b@,
{
    let mut text = String::from_str(a);
    text.append(b);
    text
}

/// `a`, `b`, `c` and `d`, one after the other.
pub fn join4(a: &str, b: &str, c: &str, d: &str) -> (r: String)
    ensures
        r@ == a@ + b@ + c@ + d@,
{
    let mut text = String::from_str(a);
    text.append(b);
    text.append(c);
    text.append(d);
    text
}

} // verus!
