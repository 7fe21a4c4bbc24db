//! Character-level text helpers: whitespace trimming, string equality and
//! decimal formatting, each specified over `Seq<char>`.

use vstd::prelude::*;

verus! {

/// The Unicode white-space characters, the set that `str::trim` removes.
pub open spec fn is_ws_char(c: char) -> bool {
    let u = c as u32;
    ||| u == 0x20
    ||| (0x9 <= u && u <= 0xD)
    ||| u == 0x85
    ||| u == 0xA0
    ||| u == 0x1680
    ||| (0x2000 <= u && u <= 0x200A)
    ||| u == 0x2028
    ||| u == 0x2029
    ||| u == 0x202F
    ||| u == 0x205F
    ||| u == 0x3000
}

pub fn is_whitespace_char(c: char) -> (r: bool)
    ensures
        r == is_ws_char(c),
{
    let u = c as u32;
    u == 0x20 || (0x9 <= u && u <= 0xD) || u == 0x85 || u == 0xA0 || u == 0x1680 || (0x2000 <= u
        && u <= 0x200A) || u == 0x2028 || u == 0x2029 || u == 0x202F || u == 0x205F || u == 0x3000
}

pub open spec fn trim_start_spec(s: Seq<char>) -> Seq<char>
    decreases s.len(),
{
    if s.len() == 0 {
        s
    } else if is_ws_char(s[0]) {
        trim_start_spec(s.drop_first())
    } else {
        s
    }
}

pub open spec fn trim_end_spec(s: Seq<char>) -> Seq<char>
    decreases s.len(),
{
    if s.len() == 0 {
        s
    } else if is_ws_char(s.last()) {
        trim_end_spec(s.drop_last())
    } else {
        s
    }
}

/// What a string looks like with leading and trailing white space removed.
pub open spec fn trim_spec(s: Seq<char>) -> Seq<char> {
    trim_end_spec(trim_start_spec(s))
}

proof fn lemma_trim_start_at(s: Seq<char>, i: int)
    requires
        0 <= i <= s.len(),
        forall|k: int| 0 <= k < i ==> is_ws_char(s[k]),
        i < s.len() ==> !is_ws_char(s[i]),
    ensures
        trim_start_spec(s) == s.subrange(i, s.len() as int),
    decreases i,
{
    if i == 0 {
        assert(s.subrange(0, s.len() as int) =~= s);
    } else {
        let t = s.drop_first();
        lemma_trim_start_at(t, i - 1);
        assert(t.subrange(i - 1, t.len() as int) =~= s.subrange(i, s.len() as int));
    }
}

proof fn lemma_trim_end_at(s: Seq<char>, j: int)
    requires
        0 <= j <= s.len(),
        forall|k: int| j <= k < s.len() ==> is_ws_char(s[k]),
        j > 0 ==> !is_ws_char(s[j - 1]),
    ensures
        trim_end_spec(s) == s.subrange(0, j),
    decreases s.len() - j,
{
    if j == s.len() {
        assert(s.subrange(0, j) =~= s);
    } else {
        let t = s.drop_last();
        lemma_trim_end_at(t, j);
        assert(t.subrange(0, j) =~= s.subrange(0, j));
    }
}

/// Remove leading and trailing white space, as `str::trim` does.
pub fn trim(s: &str) -> (r: String)
    ensures
        r@ == trim_spec(s@),
{
    let len = s.unicode_len();
    let mut start: usize = 0;
    while start < len && is_whitespace_char(s.get_char(start))
        invariant
            start <= len,
            len == s@.len(),
            forall|k: int| 0 <= k < start ==> is_ws_char(s@[k]),
        decreases len - start,
    {
        start = start + 1;
    }
    let mut end: usize = len;
    while end > start && is_whitespace_char(s.get_char(end - 1))
        invariant
            start <= end <= len,
            len == s@.len(),
            forall|k: int| 0 <= k < start ==> is_ws_char(s@[k]),
            start < len ==> !is_ws_char(s@[start as int]),
            forall|k: int| end <= k < len ==> is_ws_char(s@[k]),
        decreases end,
    {
        end = end - 1;
    }
    proof {
        lemma_trim_start_at(s@, start as int);
        let t = s@.subrange(start as int, len as int);
        lemma_trim_end_at(t, end - start);
        assert(t.subrange(0, end - start) =~= s@.subrange(start as int, end as int));
    }
    s.substring_char(start, end).to_owned()
}

/// A string with every trailing `/` removed.
pub open spec fn strip_trailing_slashes_spec(s: Seq<char>) -> Seq<char>
    decreases s.len(),
{
    if s.len() == 0 {
        s
    } else if s.last() == '/' {
        strip_trailing_slashes_spec(s.drop_last())
    } else {
        s
    }
}

proof fn lemma_strip_slashes_at(s: Seq<char>, j: int)
    requires
        0 <= j <= s.len(),
        forall|k: int| j <= k < s.len() ==> s[k] == '/',
        j > 0 ==> s[j - 1] != '/',
    ensures
        strip_trailing_slashes_spec(s) == s.subrange(0, j),
    decreases s.len() - j,
{
    if j == s.len() {
        assert(s.subrange(0, j) =~= s);
    } else {
        let t = s.drop_last();
        lemma_strip_slashes_at(t, j);
        assert(t.subrange(0, j) =~= s.subrange(0, j));
    }
}

/// Remove every trailing `/`, as `trim_end_matches('/')` does.
pub fn strip_trailing_slashes(s: &str) -> (r: String)
    ensures
        r@ == strip_trailing_slashes_spec(s@),
{
    let len = s.unicode_len();
    let mut end: usize = len;
    while end > 0 && s.get_char(end - 1) == '/'
        invariant
            end <= len,
            len == s@.len(),
            forall|k: int| end <= k < len ==> s@[k] == '/',
        decreases end,
    {
        end = end - 1;
    }
    proof {
        lemma_strip_slashes_at(s@, end as int);
    }
    s.substring_char(0, end).to_owned()
}

/// Character-sequence equality of two string slices.
pub fn str_eq(a: &str, b: &str) -> (r: bool)
    ensures
        r == (a@ == b@),
{
    let sa = a.to_owned();
    let sb = b.to_owned();
    sa == sb
}

pub open spec fn digit_char(d: int) -> char {
    if d == 0 {
        '0'
    } else if d == 1 {
        '1'
    } else if d == 2 {
        '2'
    } else if d == 3 {
        '3'
    } else if d == 4 {
        '4'
    } else if d == 5 {
        '5'
    } else if d == 6 {
        '6'
    } else if d == 7 {
        '7'
    } else if d == 8 {
        '8'
    } else {
        '9'
    }
}

/// The decimal digits of `n`, most significant first, with no leading zero
/// except for `n == 0` itself.
pub open spec fn dec_rep(n: nat) -> Seq<char>
    decreases n,
{
    if n < 10 {
        seq![digit_char(n as int)]
    } else {
        dec_rep(n / 10) + seq![digit_char((n % 10) as int)]
    }
}

fn digit_str(d: u64) -> (r: &'static str)
    requires
        d < 10,
    ensures
        r@ == seq![digit_char(d as int)],
{
    proof {
        reveal_strlit("0");
        reveal_strlit("1");
        reveal_strlit("2");
        reveal_strlit("3");
        reveal_strlit("4");
        reveal_strlit("5");
        reveal_strlit("6");
        reveal_strlit("7");
        reveal_strlit("8");
        reveal_strlit("9");
    }
    if d == 0 {
        proof { assert("0"@ =~= seq![digit_char(0)]); }
        "0"
    } else if d == 1 {
        proof { assert("1"@ =~= seq![digit_char(1)]); }
        "1"
    } else if d == 2 {
        proof { assert("2"@ =~= seq![digit_char(2)]); }
        "2"
    } else if d == 3 {
        proof { assert("3"@ =~= seq![digit_char(3)]); }
        "3"
    } else if d == 4 {
        proof { assert("4"@ =~= seq![digit_char(4)]); }
        "4"
    } else if d == 5 {
        proof { assert("5"@ =~= seq![digit_char(5)]); }
        "5"
    } else if d == 6 {
        proof { assert("6"@ =~= seq![digit_char(6)]); }
        "6"
    } else if d == 7 {
        proof { assert("7"@ =~= seq![digit_char(7)]); }
        "7"
    } else if d == 8 {
        proof { assert("8"@ =~= seq![digit_char(8)]); }
        "8"
    } else {
        proof { assert("9"@ =~= seq![digit_char(9)]); }
        "9"
    }
}

/// Render `n` in decimal.
pub fn decimal_string(n: u64) -> (r: String)
    ensures
        r@ == dec_rep(n as nat),
    decreases n,
{
    if n < 10 {
        digit_str(n).to_owned()
    } else {
        let mut s = decimal_string(n / 10);
        s.append(digit_str(n % 10));
        s
    }
}

} // verus!
