//! Verified text helpers: decimal rendering of integers, whitespace
//! trimming, percent-escaping of control characters, and the lexicographic
//! path comparison used to order annotations.

use vstd::prelude::*;
use vstd::string::*;

verus! {

/// The decimal digit character for one digit value.
pub open spec fn digit_char(d: int) -> char {
    if d == 0 {
        '0'
    } else if d == 1 {
        '1'
    } else if d == 2 {
        '2'
    } else if d == 3 {
        '3'
    } else if d == 4 {
        '4'
    } else if d == 5 {
        '5'
    } else if d == 6 {
        '6'
    } else if d == 7 {
        '7'
    } else if d == 8 {
        '8'
    } else {
        '9'
    }
}

/// The decimal representation of a natural number, most significant digit
/// first, with no leading zeroes (a single `'0'` for zero).
pub open spec fn dec_rep(n: nat) -> Seq<char>
    decreases n,
{
    if n < 10 {
        seq![digit_char(n as int)]
    } else {
        dec_rep(n / 10) + seq![digit_char((n % 10) as int)]
    }
}

fn digit_str(d: usize) -> (r: &'static str)
    requires
        d < 10,
    ensures
        r@ == seq![digit_char(d as int)],
{
    proof {
        reveal_strlit("0");
        reveal_strlit("1");
        reveal_strlit("2");
        reveal_strlit("3");
        reveal_strlit("4");
        reveal_strlit("5");
        reveal_strlit("6");
        reveal_strlit("7");
        reveal_strlit("8");
        reveal_strlit("9");
    }
    let r: &'static str = if d == 0 {
        "0"
    } else if d == 1 {
        "1"
    } else if d == 2 {
        "2"
    } else if d == 3 {
        "3"
    } else if d == 4 {
        "4"
    } else if d == 5 {
        "5"
    } else if d == 6 {
        "6"
    } else if d == 7 {
        "7"
    } else if d == 8 {
        "8"
    } else {
        "9"
    };
    proof {
        assert(r@ =~= seq![digit_char(d as int)]);
    }
    r
}

/// Renders a number in decimal, exactly as [`dec_rep`] states.
pub fn usize_to_string(n: usize) -> (r: String)
    ensures
        r@ == dec_rep(n as nat),
    decreases n,
{
    if n < 10 {
        digit_str(n).to_owned()
    } else {
        let mut s = usize_to_string(n / 10);
        s.append(digit_str(n % 10));
        s
    }
}

/// Whether a character has the Unicode `White_Space` property, the set that
/// the standard library's `trim` removes.
pub open spec fn is_ws_char(c: char) -> bool {
    let n = c as int;
    n == 0x9 || n == 0xA || n == 0xB || n == 0xC || n == 0xD || n == 0x20 || n == 0x85
        || n == 0xA0 || n == 0x1680 || (0x2000 <= n && n <= 0x200A) || n == 0x2028 || n == 0x2029
        || n == 0x202F || n == 0x205F || n == 0x3000
}

fn is_ws(c: char) -> (r: bool)
    ensures
        r == is_ws_char(c),
{
    let n = c as u32;
    n == 0x9 || n == 0xA || n == 0xB || n == 0xC || n == 0xD || n == 0x20 || n == 0x85
        || n == 0xA0 || n == 0x1680 || (0x2000 <= n && n <= 0x200A) || n == 0x2028 || n == 0x2029
        || n == 0x202F || n == 0x205F || n == 0x3000
}

/// The sequence with its leading whitespace removed.
pub open spec fn trim_start_rec(s: Seq<char>) -> Seq<char>
    decreases s.len(),
{
    if s.len() > 0 && is_ws_char(s[0]) {
        trim_start_rec(s.drop_first())
    } else {
        s
    }
}

/// The sequence with its trailing whitespace removed.
pub open spec fn trim_end_rec(s: Seq<char>) -> Seq<char>
    decreases s.len(),
{
    if s.len() > 0 && is_ws_char(s.last()) {
        trim_end_rec(s.drop_last())
    } else {
        s
    }
}

/// The sequence with leading and trailing whitespace removed.
pub open spec fn trim_spec(s: Seq<char>) -> Seq<char> {
    trim_end_rec(trim_start_rec(s))
}

proof fn lemma_trim_start(s: Seq<char>, lo: int)
    requires
        0 <= lo <= s.len(),
        forall|j: int| 0 <= j < lo ==> is_ws_char(s[j]),
        lo == s.len() || !is_ws_char(s[lo]),
    ensures
        trim_start_rec(s) == s.subrange(lo, s.len() as int),
    decreases lo,
{
    if lo == 0 {
        if s.len() > 0 && is_ws_char(s[0]) {
            assert(!is_ws_char(s[lo]));
            assert(false);
        }
        assert(s =~= s.subrange(0, s.len() as int));
    } else {
        assert(is_ws_char(s[0]));
        let t = s.drop_first();
        assert(forall|j: int| 0 <= j < lo - 1 ==> is_ws_char(t[j]));
        lemma_trim_start(t, lo - 1);
        assert(t.subrange(lo - 1, t.len() as int) =~= s.subrange(lo, s.len() as int));
    }
}

proof fn lemma_trim_end(s: Seq<char>, hi: int)
    requires
        0 <= hi <= s.len(),
        forall|j: int| hi <= j < s.len() ==> is_ws_char(s[j]),
        hi == 0 || !is_ws_char(s[hi - 1]),
    ensures
        trim_end_rec(s) == s.subrange(0, hi),
    decreases s.len() - hi,
{
    if hi == s.len() {
        if s.len() > 0 && is_ws_char(s.last()) {
            assert(!is_ws_char(s[hi - 1]));
            assert(false);
        }
        assert(s =~= s.subrange(0, hi));
    } else {
        assert(is_ws_char(s.last()));
        let t = s.drop_last();
        assert(forall|j: int| hi <= j < t.len() ==> is_ws_char(t[j]));
        lemma_trim_end(t, hi);
        assert(t.subrange(0, hi) =~= s.subrange(0, hi));
    }
}

/// Removes leading and trailing whitespace, exactly as [`trim_spec`] states.
pub fn trimmed(s: &str) -> (r: String)
    ensures
        r@ == trim_spec(s@),
{
    let len = s.unicode_len();
    let mut lo: usize = 0;
    while lo < len && is_ws(s.get_char(lo))
        invariant
            0 <= lo <= len,
            len == s@.len(),
            forall|j: int| 0 <= j < lo ==> is_ws_char(s@[j]),
        decreases len - lo,
    {
        lo = lo + 1;
    }
    let mut hi: usize = len;
    while hi > lo && is_ws(s.get_char(hi - 1))
        invariant
            lo <= hi <= len,
            len == s@.len(),
            forall|j: int| hi <= j < len ==> is_ws_char(s@[j]),
        decreases hi,
    {
        hi = hi - 1;
    }
    let r = s.substring_char(lo, hi).to_owned();
    proof {
        lemma_trim_start(s@, lo as int);
        let t = s@.subrange(lo as int, len as int);
        assert(forall|j: int| hi - lo <= j < t.len() ==> is_ws_char(t[j]));
        if hi > lo {
            assert(t[hi - lo - 1] == s@[hi - 1]);
        }
        lemma_trim_end(t, hi - lo);
        assert(t.subrange(0, hi - lo) =~= s@.subrange(lo as int, hi as int));
    }
    r
}

/// The percent-escaping of one message character: `%` becomes `%25`, a
/// newline `%0A`, a carriage return `%0D`; every other character stands as it
/// is. Escaping each character once is exactly the effect of replacing `%`
/// first and the two control characters afterwards: no inserted `%` is ever
/// re-encoded.
pub open spec fn escape_char(c: char) -> Seq<char> {
    if c == '%' {
        seq!['%', '2', '5']
    } else if c == '\n' {
        seq!['%', '0', 'A']
    } else if c == '\r' {
        seq!['%', '0', 'D']
    } else {
        seq![c]
    }
}

/// The percent-escaping of a whole message.
pub open spec fn escape_rec(s: Seq<char>) -> Seq<char>
    decreases s.len(),
{
    if s.len() == 0 {
        Seq::empty()
    } else {
        escape_rec(s.drop_last()) + escape_char(s.last())
    }
}

/// Percent-escapes a message, exactly as [`escape_rec`] states.
pub fn escaped(s: &str) -> (r: String)
    ensures
        r@ == escape_rec(s@),
{
    let len = s.unicode_len();
    let mut out = String::new();
    let mut i: usize = 0;
    while i < len
        invariant
            0 <= i <= len,
            len == s@.len(),
            out@ == escape_rec(s@.subrange(0, i as int)),
        decreases len - i,
    {
        let c = s.get_char(i);
        if c == '%' {
            out.append("%25");
            proof {
                reveal_strlit("%25");
                assert("%25"@ =~= escape_char(c));
            }
        } else if c == '\n' {
            out.append("%0A");
            proof {
                reveal_strlit("%0A");
                assert("%0A"@ =~= escape_char(c));
            }
        } else if c == '\r' {
            out.append("%0D");
            proof {
                reveal_strlit("%0D");
                assert("%0D"@ =~= escape_char(c));
            }
        } else {
            let piece = s.substring_char(i, i + 1);
            out.append(piece);
            proof {
                assert(piece@ =~= seq![s@[i as int]]);
            }
        }
        proof {
            let pre = s@.subrange(0, i as int);
            let post = s@.subrange(0, i + 1 as int);
            assert(post.drop_last() =~= pre);
            assert(post.last() == s@[i as int]);
        }
        i = i + 1;
    }
    proof {
        assert(s@.subrange(0, len as int) =~= s@);
    }
    out
}

/// The rank under which characters are compared when two file paths are
/// ordered: the path separator sorts before every other character, so a
/// shorter path component always precedes a longer one that extends it.
pub open spec fn char_rank(c: char) -> int {
    if c == '/' {
        -1
    } else {
        c as int
    }
}

/// Lexicographic path comparison of two file names, character by character
/// under [`char_rank`], shorter prefix first.
pub open spec fn path_cmp(a: Seq<char>, b: Seq<char>) -> core::cmp::Ordering
    decreases a.len(),
{
    if a.len() == 0 && b.len() == 0 {
        core::cmp::Ordering::Equal
    } else if a.len() == 0 {
        core::cmp::Ordering::Less
    } else if b.len() == 0 {
        core::cmp::Ordering::Greater
    } else if char_rank(a[0]) < char_rank(b[0]) {
        core::cmp::Ordering::Less
    } else if char_rank(a[0]) > char_rank(b[0]) {
        core::cmp::Ordering::Greater
    } else {
        path_cmp(a.drop_first(), b.drop_first())
    }
}

proof fn lemma_char_rank_injective(c: char, d: char)
    requires
        char_rank(c) == char_rank(d),
    ensures
        c == d,
{
}

/// Skipping a common prefix does not change the comparison.
proof fn lemma_path_cmp_skip(a: Seq<char>, b: Seq<char>, i: int)
    requires
        0 <= i <= a.len(),
        i <= b.len(),
        forall|j: int| 0 <= j < i ==> a[j] == b[j],
    ensures
        path_cmp(a, b) == path_cmp(a.skip(i), b.skip(i)),
    decreases i,
{
    if i > 0 {
        assert(a.len() > 0 && b.len() > 0);
        assert(char_rank(a[0]) == char_rank(b[0]));
        lemma_path_cmp_skip(a.drop_first(), b.drop_first(), i - 1);
        assert(a.drop_first().skip(i - 1) =~= a.skip(i));
        assert(b.drop_first().skip(i - 1) =~= b.skip(i));
    } else {
        assert(a.skip(0) =~= a);
        assert(b.skip(0) =~= b);
    }
}

/// The path comparison is antisymmetric, and two paths compare equal only
/// when they are the same sequence of characters.
pub proof fn lemma_path_cmp_antisym(a: Seq<char>, b: Seq<char>)
    ensures
        path_cmp(a, b) == core::cmp::Ordering::Less <==> path_cmp(b, a)
            == core::cmp::Ordering::Greater,
        path_cmp(a, b) == core::cmp::Ordering::Equal <==> a == b,
    decreases a.len(),
{
    if a.len() == 0 || b.len() == 0 {
        if a.len() == 0 && b.len() == 0 {
            assert(a =~= b);
        } else if a.len() == 0 {
            assert(a != b);
        } else {
            assert(a != b);
        }
    } else {
        lemma_path_cmp_antisym(a.drop_first(), b.drop_first());
        if char_rank(a[0]) == char_rank(b[0]) {
            lemma_char_rank_injective(a[0], b[0]);
            if a.drop_first() == b.drop_first() {
                assert(a.len() == b.len());
                assert forall|j: int| 0 <= j < a.len() implies a[j] == b[j] by {
                    if j > 0 {
                        assert(a[j] == a.drop_first()[j - 1]);
                        assert(b[j] == b.drop_first()[j - 1]);
                    }
                }
                assert(a =~= b);
            } else {
                assert(a != b);
            }
        } else {
            if a == b {
                assert(a[0] == b[0]);
                assert(false);
            }
        }
    }
}

/// The path comparison is transitive.
pub proof fn lemma_path_cmp_trans(a: Seq<char>, b: Seq<char>, c: Seq<char>)
    requires
        path_cmp(a, b) == core::cmp::Ordering::Less,
        path_cmp(b, c) == core::cmp::Ordering::Less,
    ensures
        path_cmp(a, c) == core::cmp::Ordering::Less,
    decreases a.len(),
{
    if a.len() == 0 {
        assert(b.len() > 0);
        assert(c.len() > 0);
    } else {
        assert(b.len() > 0);
        assert(c.len() > 0);
        if char_rank(a[0]) == char_rank(b[0]) && char_rank(b[0]) == char_rank(c[0]) {
            lemma_path_cmp_trans(a.drop_first(), b.drop_first(), c.drop_first());
        }
    }
}

fn char_rank_exec(c: char) -> (r: i64)
    ensures
        r as int == char_rank(c),
{
    if c == '/' {
        -1
    } else {
        (c as u32) as i64
    }
}

/// Compares two file names under the lexicographic path order, exactly as
/// [`path_cmp`] states.
pub fn compare_paths(a: &str, b: &str) -> (r: core::cmp::Ordering)
    ensures
        r == path_cmp(a@, b@),
{
    let alen = a.unicode_len();
    let blen = b.unicode_len();
    let mut i: usize = 0;
    loop
        invariant
            0 <= i <= alen,
            i <= blen,
            alen == a@.len(),
            blen == b@.len(),
            forall|j: int| 0 <= j < i ==> a@[j] == b@[j],
        decreases alen - i,
    {
        proof {
            lemma_path_cmp_skip(a@, b@, i as int);
        }
        if i == alen && i == blen {
            return core::cmp::Ordering::Equal;
        } else if i == alen {
            return core::cmp::Ordering::Less;
        } else if i == blen {
            return core::cmp::Ordering::Greater;
        }
        let ca = a.get_char(i);
        let cb = b.get_char(i);
        let ra = char_rank_exec(ca);
        let rb = char_rank_exec(cb);
        if ra < rb {
            return core::cmp::Ordering::Less;
        } else if ra > rb {
            return core::cmp::Ordering::Greater;
        }
        proof {
            lemma_char_rank_injective(ca, cb);
        }
        i = i + 1;
    }
}

} // verus!
