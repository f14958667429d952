//! The two pieces of text handling that failure messages need: trimming the
//! whitespace the OS leaves around its rendered error descriptions, and
//! rendering an error code in decimal.

use vstd::prelude::*;
use vstd::string::*;

verus! {

/// The characters trimming removes: Unicode `White_Space`, the same set that
/// `str::trim` strips.
pub open spec fn is_space(c: char) -> bool {
    let u = c as u32;
    ||| u == 0x20
    ||| (0x09 <= u && u <= 0x0D)
    ||| u == 0x85
    ||| u == 0xA0
    ||| u == 0x1680
    ||| (0x2000 <= u && u <= 0x200A)
    ||| u == 0x2028
    ||| u == 0x2029
    ||| u == 0x202F
    ||| u == 0x205F
    ||| u == 0x3000
}

pub fn is_space_char(c: char) -> (r: bool)
    ensures
        r == is_space(c),
{
    let u = c as u32;
    u == 0x20 || (0x09 <= u && u <= 0x0D) || u == 0x85 || u == 0xA0 || u == 0x1680 || (0x2000
        <= u && u <= 0x200A) || u == 0x2028 || u == 0x2029 || u == 0x202F || u == 0x205F || u
        == 0x3000
}

/// What is left of `s` once every leading whitespace character is gone.
pub open spec fn trim_start_of(s: Seq<char>) -> Seq<char>
    decreases s.len(),
{
    if s.len() == 0 {
        s
    } else if is_space(s[0]) {
        trim_start_of(s.drop_first())
    } else {
        s
    }
}

/// What is left of `s` once every trailing whitespace character is gone.
pub open spec fn trim_end_of(s: Seq<char>) -> Seq<char>
    decreases s.len(),
{
    if s.len() == 0 {
        s
    } else if is_space(s.last()) {
        trim_end_of(s.drop_last())
    } else {
        s
    }
}

/// `s` without leading or trailing whitespace.
pub open spec fn trim_of(s: Seq<char>) -> Seq<char> {
    trim_end_of(trim_start_of(s))
}

proof fn lemma_trim_start_at(s: Seq<char>, i: int)
    requires
        0 <= i <= s.len(),
        forall|k: int| 0 <= k < i ==> is_space(s[k]),
        i == s.len() || !is_space(s[i]),
    ensures
        trim_start_of(s) == s.subrange(i, s.len() as int),
    decreases i,
{
    if i == 0 {
        assert(s.subrange(0, s.len() as int) =~= s);
    } else {
        assert(is_space(s[0]));
        let t = s.drop_first();
        lemma_trim_start_at(t, i - 1);
        assert(t.subrange(i - 1, t.len() as int) =~= s.subrange(i, s.len() as int));
    }
}

proof fn lemma_trim_end_at(s: Seq<char>, j: int)
    requires
        0 <= j <= s.len(),
        forall|k: int| j <= k < s.len() ==> is_space(s[k]),
        j == 0 || !is_space(s[j - 1]),
    ensures
        trim_end_of(s) == s.subrange(0, j),
    decreases s.len(),
{
    if j == s.len() {
        assert(s.subrange(0, j) =~= s);
    } else {
        assert(is_space(s.last()));
        let t = s.drop_last();
        lemma_trim_end_at(t, j);
        assert(t.subrange(0, j) =~= s.subrange(0, j));
    }
}

/// Trim `s` exactly as `trim_of` describes.
pub fn trim(s: &str) -> (r: &str)
    ensures
        r@ == trim_of(s@),
{
    let len = s.unicode_len();
    let mut i: usize = 0;
    while i < len && is_space_char(s.get_char(i))
        invariant
            i <= len,
            len == s@.len(),
            forall|k: int| 0 <= k < i ==> is_space(s@[k]),
        decreases len - i,
    {
        i += 1;
    }
    let mut j: usize = len;
    while j > i && is_space_char(s.get_char(j - 1))
        invariant
            i <= j <= len,
            len == s@.len(),
            forall|k: int| j <= k < len ==> is_space(s@[k]),
        decreases j,
    {
        j -= 1;
    }
    let r = s.substring_char(i, j);
    proof {
        lemma_trim_start_at(s@, i as int);
        let middle = s@.subrange(i as int, len as int);
        lemma_trim_end_at(middle, j - i);
        assert(middle.subrange(0, j - i) =~= s@.subrange(i as int, j as int));
    }
    r
}

proof fn lemma_trim_start_keeps_nonspace(s: Seq<char>)
    requires
        exists|k: int| 0 <= k < s.len() && !is_space(s[k]),
    ensures
        exists|k: int| 0 <= k < trim_start_of(s).len() && !is_space(trim_start_of(s)[k]),
    decreases s.len(),
{
    let w = choose|k: int| 0 <= k < s.len() && !is_space(s[k]);
    if s.len() == 0 {
    } else if is_space(s[0]) {
        let t = s.drop_first();
        assert(0 <= w - 1 < t.len() && !is_space(t[w - 1]));
        lemma_trim_start_keeps_nonspace(t);
        let w2 = choose|k: int|
            0 <= k < trim_start_of(t).len() && !is_space(trim_start_of(t)[k]);
        assert(trim_start_of(s) == trim_start_of(t));
        assert(0 <= w2 < trim_start_of(s).len() && !is_space(trim_start_of(s)[w2]));
    } else {
        assert(0 <= w < trim_start_of(s).len() && !is_space(trim_start_of(s)[w]));
    }
}

proof fn lemma_trim_end_keeps_nonspace(s: Seq<char>)
    requires
        exists|k: int| 0 <= k < s.len() && !is_space(s[k]),
    ensures
        trim_end_of(s).len() > 0,
    decreases s.len(),
{
    let w = choose|k: int| 0 <= k < s.len() && !is_space(s[k]);
    if s.len() == 0 {
    } else if is_space(s.last()) {
        let t = s.drop_last();
        assert(0 <= w < t.len() && !is_space(t[w]));
        lemma_trim_end_keeps_nonspace(t);
    }
}

/// A text with at least one printable (non-whitespace) character does not
/// trim away to nothing.
pub proof fn lemma_trim_keeps_printable(s: Seq<char>)
    requires
        exists|k: int| 0 <= k < s.len() && !is_space(s[k]),
    ensures
        trim_of(s).len() > 0,
{
    lemma_trim_start_keeps_nonspace(s);
    lemma_trim_end_keeps_nonspace(trim_start_of(s));
}

/// The decimal digit for a value below ten.
pub open spec fn dec_digit(d: nat) -> char
    recommends
        d < 10,
{
    if d == 0 {
        '0'
    } else if d == 1 {
        '1'
    } else if d == 2 {
        '2'
    } else if d == 3 {
        '3'
    } else if d == 4 {
        '4'
    } else if d == 5 {
        '5'
    } else if d == 6 {
        '6'
    } else if d == 7 {
        '7'
    } else if d == 8 {
        '8'
    } else {
        '9'
    }
}

/// The ordinary decimal rendering of `n`: no sign, no leading zero (except
/// for zero itself, rendered "0").
pub open spec fn decimal_of(n: nat) -> Seq<char>
    decreases n,
{
    if n < 10 {
        seq![dec_digit(n)]
    } else {
        decimal_of(n / 10).push(dec_digit(n % 10))
    }
}

/// A decimal rendering is never empty, and a nonzero value never starts
/// with the digit zero.
pub proof fn lemma_decimal_shape(n: nat)
    ensures
        decimal_of(n).len() >= 1,
        n > 0 ==> decimal_of(n)[0] != '0',
    decreases n,
{
    if n >= 10 {
        lemma_decimal_shape(n / 10);
    }
}

fn digit_str(d: u32) -> (r: &'static str)
    requires
        d < 10,
    ensures
        r@ == seq![dec_digit(d as nat)],
{
    proof {
        reveal_strlit("0");
        reveal_strlit("1");
        reveal_strlit("2");
        reveal_strlit("3");
        reveal_strlit("4");
        reveal_strlit("5");
        reveal_strlit("6");
        reveal_strlit("7");
        reveal_strlit("8");
        reveal_strlit("9");
        assert("0"@ =~= seq!['0']);
        assert("1"@ =~= seq!['1']);
        assert("2"@ =~= seq!['2']);
        assert("3"@ =~= seq!['3']);
        assert("4"@ =~= seq!['4']);
        assert("5"@ =~= seq!['5']);
        assert("6"@ =~= seq!['6']);
        assert("7"@ =~= seq!['7']);
        assert("8"@ =~= seq!['8']);
        assert("9"@ =~= seq!['9']);
    }
    if d == 0 {
        "0"
    } else if d == 1 {
        "1"
    } else if d == 2 {
        "2"
    } else if d == 3 {
        "3"
    } else if d == 4 {
        "4"
    } else if d == 5 {
        "5"
    } else if d == 6 {
        "6"
    } else if d == 7 {
        "7"
    } else if d == 8 {
        "8"
    } else {
        "9"
    }
}

/// Append the decimal rendering of `n` to `out`.
pub fn push_decimal(out: &mut String, n: u32)
    ensures
        final(out)@ == old(out)@ + decimal_of(n as nat),
    decreases n,
{
    if n >= 10 {
        push_decimal(out, n / 10);
        out.append(digit_str(n % 10));
        proof {
            assert(old(out)@ + decimal_of(n as nat) =~= (old(out)@ + decimal_of(
                n as nat / 10,
            )) + seq![dec_digit(n as nat % 10)]);
        }
    } else {
        out.append(digit_str(n));
    }
}

/// The decimal rendering of `n`, as a string.
pub fn u32_to_decimal(n: u32) -> (r: String)
    ensures
        r@ == decimal_of(n as nat),
{
    let mut r = String::new();
    push_decimal(&mut r, n);
    proof {
        assert(Seq::<char>::empty() + decimal_of(n as nat) =~= decimal_of(n as nat));
    }
    r
}

} // verus!
