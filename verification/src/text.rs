//! Small verified text utilities shared by the other modules: decimal
//! rendering of instance numbers, string concatenation, ASCII case folding,
//! and collecting the characters of a string slice.

use vstd::prelude::*;

verus! {

/// The character for one decimal digit.
pub open spec fn digit_char_spec(d: int) -> char {
    if d == 0 {
        '0'
    } else if d == 1 {
        '1'
    } else if d == 2 {
        '2'
    } else if d == 3 {
        '3'
    } else if d == 4 {
        '4'
    } else if d == 5 {
        '5'
    } else if d == 6 {
        '6'
    } else if d == 7 {
        '7'
    } else if d == 8 {
        '8'
    } else {
        '9'
    }
}

/// Decimal rendering of a non-negative integer, most significant digit first.
pub open spec fn dec_spec(n: int) -> Seq<char>
    recommends
        n >= 0,
    decreases n,
{
    if n < 10 {
        seq![digit_char_spec(n)]
    } else {
        dec_spec(n / 10).push(digit_char_spec(n % 10))
    }
}

pub fn digit_char(d: u8) -> (c: char)
    requires
        d < 10,
    ensures
        c == digit_char_spec(d as int),
{
    if d == 0 {
        '0'
    } else if d == 1 {
        '1'
    } else if d == 2 {
        '2'
    } else if d == 3 {
        '3'
    } else if d == 4 {
        '4'
    } else if d == 5 {
        '5'
    } else if d == 6 {
        '6'
    } else if d == 7 {
        '7'
    } else if d == 8 {
        '8'
    } else {
        '9'
    }
}

/// Relies on `String::push_str`: appends the characters of the slice to the
/// end of the string.
#[verifier::external_body]
pub(crate) fn append_str(s: &mut String, t: &str)
    ensures
        final(s)@ == old(s)@ + t@,
{
    s.push_str(t);
}

/// Relies on `String::push`: appends one character to the end of the string.
#[verifier::external_body]
pub(crate) fn append_char(s: &mut String, c: char)
    ensures
        final(s)@ == old(s)@.push(c),
{
    s.push(c);
}

/// Concatenation of two string slices into an owned string.
pub fn concat_str(a: &str, b: &str) -> (r: String)
    ensures
        r@ == a@ + b@,
{
    let mut s = a.to_owned();
    append_str(&mut s, b);
    s
}

/// Decimal rendering of a `u8`, e.g. `7` becomes `"7"` and `205` becomes
/// `"205"`.
pub fn dec_u8(n: u8) -> (s: String)
    ensures
        s@ == dec_spec(n as int),
    decreases n,
{
    if n < 10 {
        let mut s = String::new();
        append_char(&mut s, digit_char(n));
        assert(s@ =~= seq![digit_char_spec(n as int)]);
        s
    } else {
        let mut s = dec_u8(n / 10);
        append_char(&mut s, digit_char(n % 10));
        s
    }
}

/// A rendered decimal never is the empty string.
pub proof fn lemma_dec_spec_len(n: int)
    requires
        n >= 0,
    ensures
        dec_spec(n).len() >= 1,
{
}

/// The ten digit characters are pairwise distinct.
proof fn lemma_digit_char_injective(x: int, y: int)
    requires
        0 <= x < 10,
        0 <= y < 10,
        digit_char_spec(x) == digit_char_spec(y),
    ensures
        x == y,
{
}

/// Distinct numbers render to distinct decimal strings.
pub proof fn lemma_dec_spec_injective(a: int, b: int)
    requires
        a >= 0,
        b >= 0,
        dec_spec(a) == dec_spec(b),
    ensures
        a == b,
    decreases a,
{
    if a < 10 && b < 10 {
        assert(dec_spec(a) == seq![digit_char_spec(a)]);
        assert(dec_spec(b) == seq![digit_char_spec(b)]);
        assert(digit_char_spec(a) == dec_spec(a)[0]);
        assert(digit_char_spec(b) == dec_spec(b)[0]);
        lemma_digit_char_injective(a, b);
    } else if a < 10 && b >= 10 {
        lemma_dec_spec_len(b / 10);
        assert(dec_spec(b).len() >= 2);
    } else if a >= 10 && b < 10 {
        lemma_dec_spec_len(a / 10);
        assert(dec_spec(a).len() >= 2);
    } else {
        assert(dec_spec(a) == dec_spec(a / 10).push(digit_char_spec(a % 10)));
        assert(dec_spec(b) == dec_spec(b / 10).push(digit_char_spec(b % 10)));
        assert(dec_spec(a).last() == digit_char_spec(a % 10));
        assert(dec_spec(b).last() == digit_char_spec(b % 10));
        lemma_digit_char_injective(a % 10, b % 10);
        assert(a % 10 == b % 10);
        assert(dec_spec(a).drop_last() =~= dec_spec(a / 10));
        assert(dec_spec(b).drop_last() =~= dec_spec(b / 10));
        lemma_dec_spec_injective(a / 10, b / 10);
    }
}

/// Appending the decimal renderings of distinct numbers to one prefix gives
/// distinct strings.
pub proof fn lemma_prefixed_dec_injective(p: Seq<char>, a: int, b: int)
    requires
        a >= 0,
        b >= 0,
        a != b,
    ensures
        p + dec_spec(a) != p + dec_spec(b),
{
    if p + dec_spec(a) == p + dec_spec(b) {
        assert((p + dec_spec(a)).len() == (p + dec_spec(b)).len());
        assert(dec_spec(a).len() == dec_spec(b).len());
        assert forall|k: int| 0 <= k < dec_spec(a).len() implies dec_spec(a)[k] == dec_spec(
            b,
        )[k] by {
            assert((p + dec_spec(a))[p.len() + k] == dec_spec(a)[k]);
            assert((p + dec_spec(b))[p.len() + k] == dec_spec(b)[k]);
        }
        assert(dec_spec(a) =~= dec_spec(b));
        lemma_dec_spec_injective(a, b);
    }
}

/// ASCII case folding of one character: the letters `'A'` through `'Z'` map
/// to their lower-case forms, every other character is unchanged.
pub open spec fn lower_char_spec(c: char) -> char {
    if 'A' <= c && c <= 'Z' {
        ((c as u32) + 32) as char
    } else {
        c
    }
}

/// ASCII case folding of a character sequence.
pub open spec fn lower_seq_spec(s: Seq<char>) -> Seq<char> {
    s.map_values(|c: char| lower_char_spec(c))
}

pub fn lower_char(c: char) -> (r: char)
    ensures
        r == lower_char_spec(c),
{
    match c {
        'A' => 'a',
        'B' => 'b',
        'C' => 'c',
        'D' => 'd',
        'E' => 'e',
        'F' => 'f',
        'G' => 'g',
        'H' => 'h',
        'I' => 'i',
        'J' => 'j',
        'K' => 'k',
        'L' => 'l',
        'M' => 'm',
        'N' => 'n',
        'O' => 'o',
        'P' => 'p',
        'Q' => 'q',
        'R' => 'r',
        'S' => 's',
        'T' => 't',
        'U' => 'u',
        'V' => 'v',
        'W' => 'w',
        'X' => 'x',
        'Y' => 'y',
        'Z' => 'z',
        _ => c,
    }
}

/// The characters of a string slice, in order.
pub fn str_chars(s: &str) -> (v: Vec<char>)
    ensures
        v@ == s@,
{
    let mut v: Vec<char> = Vec::new();
    for c in it: s.chars()
        invariant
            it.seq() == s@,
            v@ == it.seq().take(it.index() as int),
    {
        v.push(c);
    }
    assert(v@ =~= s@);
    v
}

/// The views of a sequence of strings.
pub open spec fn string_views(ss: Seq<String>) -> Seq<Seq<char>> {
    ss.map_values(|s: String| s@)
}

/// Equality test on character vectors.
#[verifier::loop_isolation(false)]
pub fn chars_eq(a: &Vec<char>, b: &Vec<char>) -> (r: bool)
    ensures
        r == (a@ == b@),
{
    let n = a.len();
    if n != b.len() {
        return false;
    }
    for i in 0..n
        invariant
            n == a@.len() == b@.len(),
            forall|k: int| 0 <= k < i ==> a@[k] == b@[k],
        decreases n - i,
    {
        if a[i] != b[i] {
            return false;
        }
    }
    proof {
        assert(a@ =~= b@);
    }
    true
}

/// An owned string holding the characters `v[lo..hi]`.
#[verifier::loop_isolation(false)]
pub fn chars_to_string(v: &Vec<char>, lo: usize, hi: usize) -> (s: String)
    requires
        lo <= hi <= v@.len(),
    ensures
        s@ == v@.subrange(lo as int, hi as int),
{
    let mut s = String::new();
    let mut i = lo;
    while i < hi
        invariant
            lo <= i <= hi,
            s@ == v@.subrange(lo as int, i as int),
        decreases hi - i,
    {
        append_char(&mut s, v[i]);
        proof {
            assert(v@.subrange(lo as int, i + 1 as int) =~= v@.subrange(lo as int, i as int).push(
                v@[i as int],
            ));
        }
        i = i + 1;
    }
    s
}

/// ASCII whitespace stripped from the ends of one line of tool output.
pub open spec fn is_space(c: char) -> bool {
    c == ' ' || c == '\t' || c == '\r'
}

/// The sequence with its leading ASCII whitespace removed.
pub open spec fn trim_front_spec(s: Seq<char>) -> Seq<char>
    decreases s.len(),
{
    if s.len() > 0 && is_space(s[0]) {
        trim_front_spec(s.drop_first())
    } else {
        s
    }
}

/// The sequence with its trailing ASCII whitespace removed.
pub open spec fn trim_back_spec(s: Seq<char>) -> Seq<char>
    decreases s.len(),
{
    if s.len() > 0 && is_space(s.last()) {
        trim_back_spec(s.drop_last())
    } else {
        s
    }
}

/// The sequence with ASCII whitespace removed from both ends.
pub open spec fn trim_spec(s: Seq<char>) -> Seq<char> {
    trim_back_spec(trim_front_spec(s))
}

/// Position of the first line break, or the length when there is none.
pub open spec fn first_nl(s: Seq<char>) -> nat
    decreases s.len(),
{
    if s.len() == 0 {
        0
    } else if s[0] == '\n' {
        0
    } else {
        1 + first_nl(s.drop_first())
    }
}

/// The lines of a piece of text, split at line breaks, each trimmed of ASCII
/// whitespace at both ends, with the blank ones dropped.
pub open spec fn clean_lines_spec(s: Seq<char>) -> Seq<Seq<char>>
    decreases s.len(),
{
    if s.len() == 0 {
        Seq::empty()
    } else {
        let i = first_nl(s);
        let piece = trim_spec(s.take(i as int));
        let head: Seq<Seq<char>> = if piece.len() == 0 {
            Seq::empty()
        } else {
            seq![piece]
        };
        if i >= s.len() {
            head
        } else {
            head + clean_lines_spec(s.skip(i + 1 as int))
        }
    }
}

pub proof fn lemma_first_nl(s: Seq<char>)
    ensures
        first_nl(s) <= s.len(),
        first_nl(s) < s.len() ==> s[first_nl(s) as int] == '\n',
        forall|k: int| 0 <= k < first_nl(s) ==> s[k] != '\n',
    decreases s.len(),
{
    if s.len() > 0 && s[0] != '\n' {
        lemma_first_nl(s.drop_first());
        assert forall|k: int| 0 <= k < first_nl(s) implies s[k] != '\n' by {
            if k > 0 {
                assert(s.drop_first()[k - 1] != '\n');
            }
        }
    }
}

/// `first_nl` is pinned by its characteristic properties.
pub proof fn lemma_first_nl_at(s: Seq<char>, j: int)
    requires
        0 <= j <= s.len(),
        forall|k: int| 0 <= k < j ==> s[k] != '\n',
        j < s.len() ==> s[j] == '\n',
    ensures
        first_nl(s) == j,
{
    lemma_first_nl(s);
    if first_nl(s) < j {
        assert(s[first_nl(s) as int] != '\n');
    }
    if first_nl(s) > j {
        assert(s[j] != '\n');
    }
}

pub proof fn lemma_trim_front_at(s: Seq<char>, j: int)
    requires
        0 <= j <= s.len(),
        forall|k: int| 0 <= k < j ==> is_space(s[k]),
        j < s.len() ==> !is_space(s[j]),
    ensures
        trim_front_spec(s) == s.skip(j),
    decreases j,
{
    if j == 0 {
        assert(trim_front_spec(s) =~= s.skip(0));
    } else {
        assert(is_space(s[0]));
        assert(s.drop_first() =~= s.skip(1));
        assert forall|k: int| 0 <= k < j - 1 implies is_space(s.skip(1)[k]) by {
            assert(s.skip(1)[k] == s[k + 1]);
        }
        lemma_trim_front_at(s.skip(1), j - 1);
        assert(s.skip(1).skip(j - 1) =~= s.skip(j));
    }
}

pub proof fn lemma_trim_back_at(s: Seq<char>, h: int)
    requires
        0 <= h <= s.len(),
        forall|k: int| h <= k < s.len() ==> is_space(s[k]),
        h > 0 ==> !is_space(s[h - 1]),
    ensures
        trim_back_spec(s) == s.take(h),
    decreases s.len(),
{
    if h == s.len() {
        assert(trim_back_spec(s) =~= s.take(h));
    } else {
        assert(is_space(s.last()));
        assert(s.drop_last() =~= s.take(s.len() - 1));
        assert forall|k: int| h <= k < s.drop_last().len() implies is_space(s.drop_last()[k]) by {
            assert(s.drop_last()[k] == s[k]);
        }
        lemma_trim_back_at(s.drop_last(), h);
        assert(s.drop_last().take(h) =~= s.take(h));
    }
}

pub fn is_space_char(c: char) -> (b: bool)
    ensures
        b == is_space(c),
{
    c == ' ' || c == '\t' || c == '\r'
}

/// Splits raw tool output into its lines, trims ASCII whitespace from both
/// ends of each, and drops the blank ones.
#[verifier::loop_isolation(false)]
#[verifier::rlimit(30)]
pub fn clean_lines(raw: &str) -> (r: Vec<String>)
    ensures
        string_views(r@) == clean_lines_spec(raw@),
{
    let v = str_chars(raw);
    let n = v.len();
    let mut r: Vec<String> = Vec::new();
    let mut start: usize = 0;
    proof {
        assert(v@.skip(0) =~= v@);
    }
    while start < n
        invariant
            start <= n,
            n == v@.len(),
            v@ == raw@,
            string_views(r@) + clean_lines_spec(v@.skip(start as int)) == clean_lines_spec(v@),
        decreases n - start,
    {
        let ghost rest = v@.skip(start as int);
        let mut j = start;
        while j < n && v[j] != '\n'
            invariant
                start <= j <= n,
                forall|k: int| start <= k < j ==> v@[k] != '\n',
            decreases n - j,
        {
            j = j + 1;
        }
        let mut lo = start;
        while lo < j && is_space_char(v[lo])
            invariant
                start <= lo <= j <= n,
                forall|k: int| start <= k < lo ==> is_space(v@[k]),
            decreases j - lo,
        {
            lo = lo + 1;
        }
        let mut hi = j;
        while hi > lo && is_space_char(v[hi - 1])
            invariant
                lo <= hi <= j,
                forall|k: int| hi <= k < j ==> is_space(v@[k]),
            decreases hi,
        {
            hi = hi - 1;
        }
        proof {
            assert forall|k: int| 0 <= k < j - start implies rest[k] != '\n' by {
                assert(rest[k] == v@[start + k]);
            }
            lemma_first_nl_at(rest, j - start);
            assert(rest.take(j - start) =~= v@.subrange(start as int, j as int));
            let piece0 = v@.subrange(start as int, j as int);
            assert forall|k: int| 0 <= k < lo - start implies is_space(piece0[k]) by {
                assert(piece0[k] == v@[start + k]);
            }
            lemma_trim_front_at(piece0, lo - start);
            assert(piece0.skip(lo - start) =~= v@.subrange(lo as int, j as int));
            let piece1 = v@.subrange(lo as int, j as int);
            assert forall|k: int| hi - lo <= k < piece1.len() implies is_space(piece1[k]) by {
                assert(piece1[k] == v@[lo + k]);
            }
            lemma_trim_back_at(piece1, hi - lo);
            assert(piece1.take(hi - lo) =~= v@.subrange(lo as int, hi as int));
            assert(trim_spec(rest.take(first_nl(rest) as int)) == v@.subrange(
                lo as int,
                hi as int,
            ));
        }
        let ghost prev_views = string_views(r@);
        let ghost piece = v@.subrange(lo as int, hi as int);
        let ghost head: Seq<Seq<char>> = if piece.len() == 0 {
            Seq::empty()
        } else {
            seq![piece]
        };
        if hi > lo {
            let line = chars_to_string(&v, lo, hi);
            r.push(line);
            proof {
                assert(string_views(r@) =~= prev_views.push(piece));
                assert(string_views(r@) =~= prev_views + head);
            }
        } else {
            proof {
                assert(string_views(r@) =~= prev_views + head);
            }
        }
        if j < n {
            proof {
                assert(clean_lines_spec(rest) == head + clean_lines_spec(rest.skip(j - start + 1)));
                assert(rest.skip(j - start + 1) =~= v@.skip(j + 1));
                assert((prev_views + head) + clean_lines_spec(v@.skip(j + 1)) =~= prev_views + (head
                    + clean_lines_spec(v@.skip(j + 1))));
            }
            start = j + 1;
        } else {
            proof {
                assert(clean_lines_spec(rest) == head);
                assert(v@.skip(n as int) =~= Seq::<char>::empty());
                assert(string_views(r@) + clean_lines_spec(v@.skip(n as int)) =~= prev_views
                    + head);
            }
            start = n;
        }
    }
    proof {
        assert(v@.skip(n as int) =~= Seq::<char>::empty());
        assert(string_views(r@) + clean_lines_spec(v@.skip(n as int)) =~= string_views(r@));
    }
    r
}

/// ASCII case folding of every character of a vector.
pub fn lower_chars(v: &Vec<char>) -> (r: Vec<char>)
    ensures
        r@ == lower_seq_spec(v@),
{
    let mut r: Vec<char> = Vec::new();
    let n = v.len();
    for i in 0..n
        invariant
            r@ =~= lower_seq_spec(v@.take(i as int)),
            n == v@.len(),
        decreases n - i,
    {
        r.push(lower_char(v[i]));
        assert(r@ =~= lower_seq_spec(v@.take(i + 1 as int)));
    }
    assert(r@ =~= lower_seq_spec(v@));
    r
}

} // verus!
