//! Character-level text helpers: the trimming, searching, splitting and
//! number formatting that the rest of the library builds on.  Everything is
//! stated over `Seq<char>`, the view of a `String` or a `&str`.
use vstd::prelude::*;

verus! {

/// The characters of a string slice, in order.
#[verifier::external_body]
pub(crate) fn chars_of(s: &str) -> (v: Vec<char>)
    ensures
        v@ == s@,
{
    s.chars().collect()
}

/// A string holding exactly the given characters.
#[verifier::external_body]
pub(crate) fn string_of(v: &[char]) -> (s: String)
    ensures
        s@ == v@,
{
    v.iter().collect()
}

/// Lexicographic order on character sequences, by code point: the order of
/// `str`'s `<`, which compares the UTF-8 bytes, and UTF-8 keeps code-point order.
pub open spec fn seq_lt(a: Seq<char>, b: Seq<char>) -> bool
    decreases a.len(),
{
    if a.len() == 0 {
        b.len() > 0
    } else if b.len() == 0 {
        false
    } else if a[0] != b[0] {
        a[0] < b[0]
    } else {
        seq_lt(a.drop_first(), b.drop_first())
    }
}

/// `seq_lt` is irreflexive.
pub proof fn lemma_lt_irreflexive(a: Seq<char>)
    ensures
        !seq_lt(a, a),
    decreases a.len(),
{
    if a.len() > 0 {
        lemma_lt_irreflexive(a.drop_first());
    }
}

/// `seq_lt` is transitive.
pub proof fn lemma_lt_transitive(a: Seq<char>, b: Seq<char>, c: Seq<char>)
    requires
        seq_lt(a, b),
        seq_lt(b, c),
    ensures
        seq_lt(a, c),
    decreases a.len(),
{
    if a.len() > 0 && b.len() > 0 && c.len() > 0 && a[0] == b[0] && b[0] == c[0] {
        lemma_lt_transitive(a.drop_first(), b.drop_first(), c.drop_first());
    }
}

/// Two sequences are equal or one is below the other.
pub proof fn lemma_lt_total(a: Seq<char>, b: Seq<char>)
    ensures
        a == b || seq_lt(a, b) || seq_lt(b, a),
    decreases a.len(),
{
    if a.len() > 0 && b.len() > 0 {
        if a[0] == b[0] {
            lemma_lt_total(a.drop_first(), b.drop_first());
            if a.drop_first() == b.drop_first() {
                assert(a =~= seq![a[0]] + a.drop_first());
                assert(b =~= seq![b[0]] + b.drop_first());
            }
        }
    } else if a.len() == 0 && b.len() == 0 {
        assert(a =~= b);
    }
}

/// Whether `a` comes before `b` in lexicographic order.
pub fn str_less(a: &str, b: &str) -> (r: bool)
    ensures
        r == seq_lt(a@, b@),
{
    let x = chars_of(a);
    let y = chars_of(b);
    let mut i: usize = 0;
    proof {
        assert(a@.skip(0) =~= a@);
        assert(b@.skip(0) =~= b@);
    }
    while i < x.len() && i < y.len()
        invariant
            x@ == a@,
            y@ == b@,
            i <= x.len(),
            i <= y.len(),
            seq_lt(a@, b@) == seq_lt(a@.skip(i as int), b@.skip(i as int)),
        decreases x.len() - i,
    {
        if x[i] != y[i] {
            proof {
                assert(a@.skip(i as int)[0] == x[i as int]);
                assert(b@.skip(i as int)[0] == y[i as int]);
            }
            return x[i] < y[i];
        }
        proof {
            assert(a@.skip(i as int).drop_first() =~= a@.skip(i + 1));
            assert(b@.skip(i as int).drop_first() =~= b@.skip(i + 1));
        }
        i = i + 1;
    }
    i < y.len()
}

/// The Unicode `White_Space` property, the set that `char::is_whitespace` tests.
pub open spec fn is_ws(c: char) -> bool {
    let n = c as u32;
    ||| 0x09 <= n <= 0x0D
    ||| n == 0x20
    ||| n == 0x85
    ||| n == 0xA0
    ||| n == 0x1680
    ||| 0x2000 <= n <= 0x200A
    ||| n == 0x2028
    ||| n == 0x2029
    ||| n == 0x202F
    ||| n == 0x205F
    ||| n == 0x3000
}

/// Whether `c` is a whitespace character.
pub fn is_whitespace(c: char) -> (b: bool)
    ensures
        b == is_ws(c),
{
    let n = c as u32;
    (0x09 <= n && n <= 0x0D) || n == 0x20 || n == 0x85 || n == 0xA0 || n == 0x1680 || (0x2000
        <= n && n <= 0x200A) || n == 0x2028 || n == 0x2029 || n == 0x202F || n == 0x205F || n
        == 0x3000
}

/// `s` without its leading whitespace.
pub open spec fn trim_start(s: Seq<char>) -> Seq<char>
    decreases s.len(),
{
    if s.len() > 0 && is_ws(s[0]) {
        trim_start(s.drop_first())
    } else {
        s
    }
}

/// `s` without its trailing whitespace.
pub open spec fn trim_end(s: Seq<char>) -> Seq<char>
    decreases s.len(),
{
    if s.len() > 0 && is_ws(s.last()) {
        trim_end(s.drop_last())
    } else {
        s
    }
}

/// `s` without leading and trailing whitespace, as `str::trim` gives it.
pub open spec fn trim(s: Seq<char>) -> Seq<char> {
    trim_end(trim_start(s))
}

/// `s` without the leading and trailing copies of `c`, as `str::trim_matches` gives it.
pub open spec fn trim_char(s: Seq<char>, c: char) -> Seq<char> {
    trim_end_char(trim_start_char(s, c), c)
}

/// `s` without the leading copies of `c`.
pub open spec fn trim_start_char(s: Seq<char>, c: char) -> Seq<char>
    decreases s.len(),
{
    if s.len() > 0 && s[0] == c {
        trim_start_char(s.drop_first(), c)
    } else {
        s
    }
}

/// `s` without the trailing copies of `c`, as `str::trim_end_matches` gives it.
pub open spec fn trim_end_char(s: Seq<char>, c: char) -> Seq<char>
    decreases s.len(),
{
    if s.len() > 0 && s.last() == c {
        trim_end_char(s.drop_last(), c)
    } else {
        s
    }
}

/// Whether `p` occurs in `s` starting at index `i`.
pub open spec fn matches_at(s: Seq<char>, p: Seq<char>, i: int) -> bool {
    0 <= i && i + p.len() <= s.len() && s.subrange(i, i + p.len()) == p
}

/// The first index at or after `i` where `p` occurs in `s`.
pub open spec fn find_from(s: Seq<char>, p: Seq<char>, i: int) -> Option<int>
    decreases s.len() + 1 - i,
{
    if i < 0 || i + p.len() > s.len() {
        None
    } else if matches_at(s, p, i) {
        Some(i)
    } else {
        find_from(s, p, i + 1)
    }
}

/// The first index where `p` occurs in `s`, as `str::find` gives it.
pub open spec fn find(s: Seq<char>, p: Seq<char>) -> Option<int> {
    find_from(s, p, 0)
}

/// Whether `p` occurs anywhere in `s`.
pub open spec fn contains(s: Seq<char>, p: Seq<char>) -> bool {
    find(s, p) is Some
}

/// Whether `s` begins with `p`.
pub open spec fn starts_with(s: Seq<char>, p: Seq<char>) -> bool {
    p.len() <= s.len() && s.take(p.len() as int) == p
}

/// Whether `s` ends with `p`.
pub open spec fn ends_with(s: Seq<char>, p: Seq<char>) -> bool {
    p.len() <= s.len() && s.skip(s.len() - p.len()) == p
}

/// The last index of `c` in `s`, as `str::rfind` gives it.
pub open spec fn rfind_char(s: Seq<char>, c: char) -> Option<int>
    decreases s.len(),
{
    if s.len() == 0 {
        None
    } else if s.last() == c {
        Some(s.len() - 1)
    } else {
        rfind_char(s.drop_last(), c)
    }
}

/// What is left of `s` after the repeated removal of a leading `p`,
/// as `str::trim_start_matches` gives it for a non-empty pattern.
pub open spec fn trim_start_str(s: Seq<char>, p: Seq<char>) -> Seq<char>
    decreases s.len(),
{
    if p.len() > 0 && starts_with(s, p) {
        trim_start_str(s.skip(p.len() as int), p)
    } else {
        s
    }
}

/// The decimal digits of `n`, as `{}` formats an unsigned integer.
pub open spec fn decimal(n: nat) -> Seq<char>
    decreases n,
{
    if n < 10 {
        seq![digit_char((n % 10) as nat)]
    } else {
        decimal(n / 10).push(digit_char((n % 10) as nat))
    }
}

/// The ASCII digit for `d` (below ten).
pub open spec fn digit_char(d: nat) -> char {
    (d + 48) as char
}

proof fn lemma_drop_first_skip(s: Seq<char>, i: int)
    requires
        0 <= i < s.len(),
    ensures
        s.skip(i).drop_first() == s.skip(i + 1),
        s.skip(i)[0] == s[i],
{
    assert(s.skip(i).drop_first() =~= s.skip(i + 1));
}

proof fn lemma_drop_last_take(s: Seq<char>, j: int)
    requires
        0 < j <= s.len(),
    ensures
        s.take(j).drop_last() == s.take(j - 1),
        s.take(j).last() == s[j - 1],
{
    assert(s.take(j).drop_last() =~= s.take(j - 1));
}

/// The characters `s[a..b]`.
pub fn slice_range(s: &[char], a: usize, b: usize) -> (r: Vec<char>)
    requires
        a <= b <= s@.len(),
    ensures
        r@ == s@.subrange(a as int, b as int),
{
    let mut r: Vec<char> = Vec::new();
    let mut i = a;
    while i < b
        invariant
            a <= i <= b <= s@.len(),
            r@ == s@.subrange(a as int, i as int),
        decreases b - i,
    {
        r.push(s[i]);
        i = i + 1;
        assert(r@ =~= s@.subrange(a as int, i as int));
    }
    r
}

/// The index of the first character of `s` that is not whitespace.
fn lead_ws(s: &[char]) -> (i: usize)
    ensures
        i <= s@.len(),
        trim_start(s@) == s@.skip(i as int),
{
    let mut i: usize = 0;
    assert(s@.skip(0) =~= s@);
    while i < s.len() && is_whitespace(s[i])
        invariant
            i <= s@.len(),
            trim_start(s@) == trim_start(s@.skip(i as int)),
        decreases s@.len() - i,
    {
        proof {
            lemma_drop_first_skip(s@, i as int);
        }
        i = i + 1;
    }
    i
}

/// One past the index of the last character of `s[..j]` that is not whitespace.
fn trail_ws(s: &[char], j: usize) -> (k: usize)
    requires
        j <= s@.len(),
    ensures
        k <= j,
        trim_end(s@.take(j as int)) == s@.take(k as int),
{
    let mut k: usize = j;
    while k > 0 && is_whitespace(s[k - 1])
        invariant
            k <= j <= s@.len(),
            trim_end(s@.take(j as int)) == trim_end(s@.take(k as int)),
        decreases k,
    {
        proof {
            lemma_drop_last_take(s@, k as int);
        }
        k = k - 1;
    }
    k
}

/// `s` with leading and trailing whitespace removed.
pub fn trim_chars(s: &[char]) -> (r: Vec<char>)
    ensures
        r@ == trim(s@),
{
    let i = lead_ws(s);
    let t = slice_range(s, i, s.len());
    assert(t@ == s@.skip(i as int));
    let k = trail_ws(t.as_slice(), t.len());
    assert(t@.take(t@.len() as int) =~= t@);
    slice_range(t.as_slice(), 0, k)
}

/// `s` with leading whitespace removed.
pub fn trim_start_chars(s: &[char]) -> (r: Vec<char>)
    ensures
        r@ == trim_start(s@),
{
    let i = lead_ws(s);
    slice_range(s, i, s.len())
}

/// `s` with trailing whitespace removed.
pub fn trim_end_chars(s: &[char]) -> (r: Vec<char>)
    ensures
        r@ == trim_end(s@),
{
    let k = trail_ws(s, s.len());
    assert(s@.take(s@.len() as int) =~= s@);
    slice_range(s, 0, k)
}

/// `s` without the trailing copies of `c`.
pub fn trim_end_char_chars(s: &[char], c: char) -> (r: Vec<char>)
    ensures
        r@ == trim_end_char(s@, c),
{
    let mut k: usize = s.len();
    assert(s@.take(s@.len() as int) =~= s@);
    while k > 0 && s[k - 1] == c
        invariant
            k <= s@.len(),
            trim_end_char(s@, c) == trim_end_char(s@.take(k as int), c),
        decreases k,
    {
        proof {
            lemma_drop_last_take(s@, k as int);
        }
        k = k - 1;
    }
    slice_range(s, 0, k)
}

/// `s` without the leading copies of `c`.
pub fn trim_start_char_chars(s: &[char], c: char) -> (r: Vec<char>)
    ensures
        r@ == trim_start_char(s@, c),
{
    let mut i: usize = 0;
    assert(s@.skip(0) =~= s@);
    while i < s.len() && s[i] == c
        invariant
            i <= s@.len(),
            trim_start_char(s@, c) == trim_start_char(s@.skip(i as int), c),
        decreases s@.len() - i,
    {
        proof {
            lemma_drop_first_skip(s@, i as int);
        }
        i = i + 1;
    }
    slice_range(s, i, s.len())
}

/// `s` without the leading and trailing copies of `c`.
pub fn trim_char_chars(s: &[char], c: char) -> (r: Vec<char>)
    ensures
        r@ == trim_char(s@, c),
{
    let t = trim_start_char_chars(s, c);
    trim_end_char_chars(t.as_slice(), c)
}

/// Whether `p` occurs in `s` at index `i`.
pub fn matches_at_exec(s: &[char], p: &[char], i: usize) -> (b: bool)
    ensures
        b == matches_at(s@, p@, i as int),
{
    if i > s.len() || p.len() > s.len() - i {
        return false;
    }
    let mut k: usize = 0;
    while k < p.len()
        invariant
            i + p@.len() <= s.len(),
            k <= p@.len(),
            forall|m: int| 0 <= m < k ==> s@[i + m] == p@[m],
        decreases p@.len() - k,
    {
        if s[i + k] != p[k] {
            assert(s@.subrange(i as int, i + p@.len())[k as int] != p@[k as int]);
            return false;
        }
        k = k + 1;
    }
    assert(s@.subrange(i as int, i + p@.len()) =~= p@);
    true
}

/// The first index where `p` occurs in `s`.
pub fn find_chars(s: &[char], p: &[char]) -> (r: Option<usize>)
    ensures
        r matches Some(i) ==> find(s@, p@) == Some(i as int),
        r is None ==> find(s@, p@) is None,
{
    let mut i: usize = 0;
    while i <= s.len() && p.len() <= s.len() - i
        invariant
            i <= s@.len() + 1,
            find(s@, p@) == find_from(s@, p@, i as int),
        decreases s@.len() + 1 - i,
    {
        if matches_at_exec(s, p, i) {
            return Some(i);
        }
        if i == s.len() {
            assert(find_from(s@, p@, i + 1) is None);
            return None;
        }
        i = i + 1;
    }
    None
}

/// Whether `p` occurs anywhere in `s`.
pub fn contains_chars(s: &[char], p: &[char]) -> (b: bool)
    ensures
        b == contains(s@, p@),
{
    find_chars(s, p).is_some()
}

/// Whether `s` begins with `p`.
pub fn starts_with_chars(s: &[char], p: &[char]) -> (b: bool)
    ensures
        b == starts_with(s@, p@),
{
    let b = matches_at_exec(s, p, 0);
    proof {
        if b {
            assert(s@.take(p@.len() as int) =~= s@.subrange(0, p@.len() as int));
        }
        if starts_with(s@, p@) {
            assert(s@.take(p@.len() as int) =~= s@.subrange(0, p@.len() as int));
        }
    }
    b
}

/// Whether `s` ends with `p`.
pub fn ends_with_chars(s: &[char], p: &[char]) -> (b: bool)
    ensures
        b == ends_with(s@, p@),
{
    if p.len() > s.len() {
        return false;
    }
    let b = matches_at_exec(s, p, s.len() - p.len());
    proof {
        assert(s@.skip(s@.len() - p@.len()) =~= s@.subrange(
            s@.len() - p@.len(),
            s@.len() - p@.len() + p@.len(),
        ));
    }
    b
}

/// The last index of `c` in `s`.
pub fn rfind_char_chars(s: &[char], c: char) -> (r: Option<usize>)
    ensures
        r matches Some(i) ==> rfind_char(s@, c) == Some(i as int),
        r is None ==> rfind_char(s@, c) is None,
{
    let mut k: usize = s.len();
    assert(s@.take(s@.len() as int) =~= s@);
    while k > 0
        invariant
            k <= s@.len(),
            rfind_char(s@, c) == rfind_char(s@.take(k as int), c),
        decreases k,
    {
        proof {
            lemma_drop_last_take(s@, k as int);
        }
        if s[k - 1] == c {
            return Some(k - 1);
        }
        k = k - 1;
    }
    None
}

/// `s` after the repeated removal of a leading `p`.
pub fn trim_start_str_chars(s: &[char], p: &[char]) -> (r: Vec<char>)
    ensures
        r@ == trim_start_str(s@, p@),
{
    if p.len() == 0 {
        return slice_range(s, 0, s.len());
    }
    let mut i: usize = 0;
    assert(s@.skip(0) =~= s@);
    loop
        invariant
            p@.len() > 0,
            i <= s@.len(),
            trim_start_str(s@, p@) == trim_start_str(s@.skip(i as int), p@),
        decreases s@.len() - i,
    {
        if p.len() <= s.len() - i && matches_at_exec(s, p, i) {
            proof {
                let t = s@.skip(i as int);
                assert(t.take(p@.len() as int) =~= s@.subrange(i as int, i + p@.len()));
                assert(t.skip(p@.len() as int) =~= s@.skip(i + p@.len()));
            }
            i = i + p.len();
        } else {
            proof {
                let t = s@.skip(i as int);
                if starts_with(t, p@) {
                    assert(t.take(p@.len() as int) =~= s@.subrange(i as int, i + p@.len()));
                }
            }
            return slice_range(s, i, s.len());
        }
    }
}

/// The decimal digits of `n`.
pub fn decimal_chars(n: usize) -> (r: Vec<char>)
    ensures
        r@ == decimal(n as nat),
    decreases n,
{
    let d = n % 10;
    let c = char_of_digit(d);
    if n < 10 {
        let mut r: Vec<char> = Vec::new();
        r.push(c);
        assert(r@ =~= seq![digit_char((n % 10) as nat)]);
        r
    } else {
        let mut r = decimal_chars(n / 10);
        r.push(c);
        r
    }
}

/// The decimal digits of a 64-bit `n`.
pub fn decimal_chars_u64(n: u64) -> (r: Vec<char>)
    ensures
        r@ == decimal(n as nat),
    decreases n,
{
    let d: usize = (n % 10) as usize;
    let c = char_of_digit(d);
    if n < 10 {
        let mut r: Vec<char> = Vec::new();
        r.push(c);
        assert(r@ =~= seq![digit_char((n % 10) as nat)]);
        r
    } else {
        let mut r = decimal_chars_u64(n / 10);
        r.push(c);
        r
    }
}

/// The decimal digits of a 128-bit `n`.
pub fn decimal_chars_u128(n: u128) -> (r: Vec<char>)
    ensures
        r@ == decimal(n as nat),
    decreases n,
{
    let d: usize = (n % 10) as usize;
    let c = char_of_digit(d);
    if n < 10 {
        let mut r: Vec<char> = Vec::new();
        r.push(c);
        assert(r@ =~= seq![digit_char((n % 10) as nat)]);
        r
    } else {
        let mut r = decimal_chars_u128(n / 10);
        r.push(c);
        r
    }
}

/// The decimal digits of `n + 1`, for every `n`, the largest included.
pub fn decimal_chars_succ(n: usize) -> (r: Vec<char>)
    ensures
        r@ == decimal((n + 1) as nat),
{
    decimal_chars_u128(n as u128 + 1)
}

fn char_of_digit(d: usize) -> (c: char)
    requires
        d < 10,
    ensures
        c == digit_char(d as nat),
{
    let c = if d == 0 {
        '0'
    } else if d == 1 {
        '1'
    } else if d == 2 {
        '2'
    } else if d == 3 {
        '3'
    } else if d == 4 {
        '4'
    } else if d == 5 {
        '5'
    } else if d == 6 {
        '6'
    } else if d == 7 {
        '7'
    } else if d == 8 {
        '8'
    } else {
        '9'
    };
    c
}

/// `a` followed by `b`.
pub fn concat(a: &[char], b: &[char]) -> (r: Vec<char>)
    ensures
        r@ == a@ + b@,
{
    let mut r = slice_range(a, 0, a.len());
    assert(a@.subrange(0, a@.len() as int) =~= a@);
    let mut i: usize = 0;
    while i < b.len()
        invariant
            i <= b@.len(),
            r@ == a@ + b@.take(i as int),
        decreases b@.len() - i,
    {
        r.push(b[i]);
        i = i + 1;
        assert(r@ =~= a@ + b@.take(i as int));
    }
    assert(b@.take(b@.len() as int) =~= b@);
    r
}

/// Appends `b` to the end of `r`.
pub fn push_all(r: &mut Vec<char>, b: &[char])
    ensures
        final(r)@ == old(r)@ + b@,
{
    let mut i: usize = 0;
    let ghost r0 = r@;
    while i < b.len()
        invariant
            i <= b@.len(),
            r@ == r0 + b@.take(i as int),
        decreases b@.len() - i,
    {
        r.push(b[i]);
        i = i + 1;
        assert(r@ =~= r0 + b@.take(i as int));
    }
    assert(b@.take(b@.len() as int) =~= b@);
}

/// Appends the characters of `s` to the end of `r`.
pub fn push_str(r: &mut Vec<char>, s: &str)
    ensures
        final(r)@ == old(r)@ + s@,
{
    let v = chars_of(s);
    push_all(r, v.as_slice());
}

/// A line without the carriage return that ends it, if any.
pub open spec fn strip_cr(l: Seq<char>) -> Seq<char> {
    if l.len() > 0 && l.last() == '\r' {
        l.drop_last()
    } else {
        l
    }
}

/// The lines of `s`, as `str::lines` gives them: split at each `\n`, each line
/// without a `\r` that ends it, and no empty line after a final `\n`.
pub open spec fn lines(s: Seq<char>) -> Seq<Seq<char>>
    decreases s.len(),
{
    if s.len() == 0 {
        seq![]
    } else {
        match find(s, seq!['\n']) {
            Some(i) => if 0 <= i < s.len() {
                seq![strip_cr(s.take(i))] + lines(s.skip(i + 1))
            } else {
                seq![]
            },
            None => seq![s],
        }
    }
}

/// The words of `s[i..]` when `cur` holds the word being read: runs of
/// characters that are not whitespace, as `str::split_whitespace` gives them.
pub open spec fn words_from(s: Seq<char>, i: int, cur: Seq<char>) -> Seq<Seq<char>>
    decreases s.len() - i,
{
    if i >= s.len() {
        if cur.len() > 0 {
            seq![cur]
        } else {
            seq![]
        }
    } else if is_ws(s[i]) {
        (if cur.len() > 0 {
            seq![cur]
        } else {
            seq![]
        }) + words_from(s, i + 1, seq![])
    } else {
        words_from(s, i + 1, cur.push(s[i]))
    }
}

/// The whitespace-separated words of `s`, as `str::split_whitespace` gives them.
pub open spec fn words(s: Seq<char>) -> Seq<Seq<char>> {
    words_from(s, 0, seq![])
}

/// The pieces of `parts` with `sep` between each two of them, as `join` gives it.
pub open spec fn join(parts: Seq<Seq<char>>, sep: Seq<char>) -> Seq<char>
    decreases parts.len(),
{
    if parts.len() == 0 {
        seq![]
    } else if parts.len() == 1 {
        parts[0]
    } else {
        join(parts.drop_last(), sep) + sep + parts.last()
    }
}

/// Facts about the search result that `find_from` gives.
pub proof fn lemma_find_from(s: Seq<char>, p: Seq<char>, i: int)
    requires
        i >= 0,
    ensures
        find_from(s, p, i) matches Some(k) ==> i <= k && matches_at(s, p, k) && k + p.len()
            <= s.len() && forall|j: int| i <= j < k ==> !matches_at(s, p, j),
        find_from(s, p, i) is None ==> forall|j: int| i <= j ==> !matches_at(s, p, j),
    decreases s.len() + 1 - i,
{
    if i + p.len() > s.len() {
    } else if matches_at(s, p, i) {
    } else {
        lemma_find_from(s, p, i + 1);
    }
}

/// `s` with its final carriage return, if any, removed.
pub fn strip_cr_chars(l: Vec<char>) -> (r: Vec<char>)
    ensures
        r@ == strip_cr(l@),
{
    let mut l = l;
    if l.len() > 0 && l[l.len() - 1] == '\r' {
        l.pop();
    }
    l
}

/// The lines of `s`.
pub fn lines_chars(s: &[char]) -> (r: Vec<Vec<char>>)
    ensures
        r@.len() == lines(s@).len(),
        forall|k: int| 0 <= k < r@.len() ==> #[trigger] r@[k]@ == lines(s@)[k],
{
    let mut r: Vec<Vec<char>> = Vec::new();
    let mut start: usize = 0;
    assert(s@.skip(0) =~= s@);
    loop
        invariant
            start <= s@.len(),
            forall|k: int| 0 <= k < r@.len() ==> #[trigger] r@[k]@ == (r@.map_values(
                |v: Vec<char>| v@,
            ))[k],
            r@.map_values(|v: Vec<char>| v@) + lines(s@.skip(start as int)) == lines(s@),
        decreases s@.len() - start,
    {
        let ghost rest = s@.skip(start as int);
        if start == s.len() {
            assert(rest.len() == 0);
            assert(r@.map_values(|v: Vec<char>| v@) + lines(rest) =~= r@.map_values(
                |v: Vec<char>| v@,
            ));
            return r;
        }
        let tail = slice_range(s, start, s.len());
        let nl: Vec<char> = vec!['\n'];
        let f = find_chars(tail.as_slice(), nl.as_slice());
        proof {
            assert(nl@ =~= seq!['\n']);
            lemma_find_from(rest, seq!['\n'], 0);
        }
        match f {
            Some(i) => {
                let line = slice_range(tail.as_slice(), 0, i);
                let line = strip_cr_chars(line);
                proof {
                    assert(tail@.take(i as int) =~= tail@.subrange(0, i as int));
                    assert(rest.skip(i + 1) =~= s@.skip(start + i + 1));
                }
                let ghost before = r@.map_values(|v: Vec<char>| v@);
                r.push(line);
                proof {
                    assert(r@.map_values(|v: Vec<char>| v@) =~= before.push(line@));
                    assert(before.push(line@) + lines(s@.skip(start + i + 1)) =~= before + (seq![
                        line@,
                    ] + lines(s@.skip(start + i + 1))));
                }
                start = start + i + 1;
            },
            None => {
                let ghost before = r@.map_values(|v: Vec<char>| v@);
                r.push(tail);
                proof {
                    assert(r@.map_values(|v: Vec<char>| v@) =~= before.push(rest));
                    assert(before + lines(rest) =~= before.push(rest));
                }
                return r;
            },
        }
    }
}

/// The whitespace-separated words of `s`.
pub fn words_chars(s: &[char]) -> (r: Vec<Vec<char>>)
    ensures
        r@.map_values(|v: Vec<char>| v@) == words(s@),
{
    let mut r: Vec<Vec<char>> = Vec::new();
    let mut cur: Vec<char> = Vec::new();
    let mut i: usize = 0;
    assert(r@.map_values(|v: Vec<char>| v@) + words_from(s@, 0, cur@) =~= words(s@));
    while i < s.len()
        invariant
            i <= s@.len(),
            r@.map_values(|v: Vec<char>| v@) + words_from(s@, i as int, cur@) == words(s@),
        decreases s@.len() - i,
    {
        let ghost before = r@.map_values(|v: Vec<char>| v@);
        let ghost w = cur@;
        if is_whitespace(s[i]) {
            if cur.len() > 0 {
                r.push(cur);
                cur = Vec::new();
                proof {
                    assert(r@.map_values(|v: Vec<char>| v@) =~= before.push(w));
                    assert(before + (seq![w] + words_from(s@, i + 1, seq![])) =~= before.push(w)
                        + words_from(s@, i + 1, seq![]));
                    assert(cur@ =~= seq![]);
                }
            } else {
                proof {
                    assert(seq![] + words_from(s@, i + 1, seq![]) =~= words_from(s@, i + 1, seq![]));
                    assert(cur@ =~= seq![]);
                }
            }
        } else {
            cur.push(s[i]);
        }
        i = i + 1;
    }
    let ghost before = r@.map_values(|v: Vec<char>| v@);
    if cur.len() > 0 {
        let ghost w = cur@;
        r.push(cur);
        proof {
            assert(r@.map_values(|v: Vec<char>| v@) =~= before.push(w));
            assert(before + seq![w] =~= before.push(w));
        }
    } else {
        assert(before + seq![] =~= before);
    }
    r
}

/// The pieces of `parts` with `sep` between each two of them.
pub fn join_chars(parts: &Vec<Vec<char>>, sep: &[char]) -> (r: Vec<char>)
    ensures
        r@ == join(parts@.map_values(|v: Vec<char>| v@), sep@),
{
    let ghost ps = parts@.map_values(|v: Vec<char>| v@);
    let mut r: Vec<char> = Vec::new();
    let mut i: usize = 0;
    while i < parts.len()
        invariant
            i <= parts@.len(),
            ps == parts@.map_values(|v: Vec<char>| v@),
            r@ == join(ps.take(i as int), sep@),
        decreases parts@.len() - i,
    {
        if i > 0 {
            push_all(&mut r, sep);
        }
        push_all(&mut r, parts[i].as_slice());
        proof {
            assert(ps.take(i + 1).drop_last() =~= ps.take(i as int));
            if i == 0 {
                assert(ps.take(1) =~= seq![ps[0]]);
                assert(r@ =~= ps[0]);
            }
        }
        i = i + 1;
    }
    assert(ps.take(parts@.len() as int) =~= ps);
    r
}

/// What `char::to_lowercase` yields for a character.
pub uninterp spec fn char_lowercase(c: char) -> Seq<char>;

/// The ASCII cases of lower-casing a character.
pub open spec fn ascii_lower_fact(c: char, r: Seq<char>) -> bool {
    &&& ('A' <= c <= 'Z' ==> r == seq![((c as u32) + 32) as char])
    &&& ((c as u32) < 128 && !('A' <= c <= 'Z') ==> r == seq![c])
}

/// `char::to_lowercase`: the lowercase mapping of `c`, as its characters.  Beyond the
/// ASCII cases and that at least one character comes out, the Unicode mapping is left
/// to the name `char_lowercase`.
#[verifier::external_body]
pub(crate) fn lower_char(c: char) -> (r: Vec<char>)
    ensures
        r@ == char_lowercase(c),
        r@.len() >= 1,
        ascii_lower_fact(c, r@),
{
    c.to_lowercase().collect()
}

/// What `str::to_lowercase` gives for a string.
pub uninterp spec fn str_lowercase(s: Seq<char>) -> Seq<char>;

/// `s` with each ASCII upper-case letter made lower-case.
pub open spec fn ascii_lower_all(s: Seq<char>) -> Seq<char> {
    s.map_values(|c: char| if 'A' <= c <= 'Z' { ((c as u32) + 32) as char } else { c })
}

/// Whether every character of `s` is ASCII.
pub open spec fn all_ascii(s: Seq<char>) -> bool {
    forall|i: int| 0 <= i < s.len() ==> (s[i] as u32) < 128
}

/// `str::to_lowercase`: the lowercase form of `s`.  For an ASCII string it is the
/// ASCII lower-casing; the Unicode rules beyond that are left to the name `str_lowercase`.
#[verifier::external_body]
pub(crate) fn lower_str(s: &str) -> (r: String)
    ensures
        r@ == str_lowercase(s@),
        all_ascii(s@) ==> r@ == ascii_lower_all(s@),
{
    s.to_lowercase()
}

/// Appends `t` to `s`.
pub fn append_str(s: &mut String, t: &str)
    ensures
        final(s)@ == old(s)@ + t@,
{
    s.append(t);
}

/// `s` without the trailing copies of `p`, as `str::trim_end_matches` gives it
/// for a string pattern.
pub open spec fn trim_end_str(s: Seq<char>, p: Seq<char>) -> Seq<char>
    decreases s.len(),
{
    if p.len() > 0 && ends_with(s, p) {
        trim_end_str(s.take(s.len() - p.len()), p)
    } else {
        s
    }
}

/// `s` without the trailing copies of `p`.
pub fn trim_end_str_chars(s: &[char], p: &[char]) -> (r: Vec<char>)
    ensures
        r@ == trim_end_str(s@, p@),
{
    if p.len() == 0 {
        return slice_range(s, 0, s.len());
    }
    let mut t = slice_range(s, 0, s.len());
    assert(t@ =~= s@);
    loop
        invariant
            p@.len() > 0,
            trim_end_str(s@, p@) == trim_end_str(t@, p@),
        decreases t@.len(),
    {
        if ends_with_chars(t.as_slice(), p) {
            let k = t.len() - p.len();
            t = slice_range(t.as_slice(), 0, k);
        } else {
            return t;
        }
    }
}

/// Whether two strings hold the same characters.
pub fn str_eq(a: &str, b: &str) -> (r: bool)
    ensures
        r == (a@ == b@),
{
    a.to_owned() == b.to_owned()
}

/// Whether two character sequences are equal.
pub fn chars_eq(a: &[char], b: &[char]) -> (r: bool)
    ensures
        r == (a@ == b@),
{
    if a.len() != b.len() {
        return false;
    }
    let mut i: usize = 0;
    while i < a.len()
        invariant
            a@.len() == b@.len(),
            i <= a@.len(),
            forall|j: int| 0 <= j < i ==> a@[j] == b@[j],
        decreases a@.len() - i,
    {
        if a[i] != b[i] {
            return false;
        }
        i = i + 1;
    }
    assert(a@ =~= b@);
    true
}

/// Whether every character of `s` is an ASCII digit.
pub open spec fn all_digits(s: Seq<char>) -> bool {
    forall|i: int| 0 <= i < s.len() ==> '0' <= #[trigger] s[i] <= '9'
}

/// The number that the decimal digits of `s` write.
pub open spec fn digits_value(s: Seq<char>) -> int
    decreases s.len(),
{
    if s.len() == 0 {
        0
    } else {
        digits_value(s.drop_last()) * 10 + ((s.last() as u32) - ('0' as u32))
    }
}

/// `s` without one leading `+`.
pub open spec fn unsigned_digits(s: Seq<char>) -> Seq<char> {
    if s.len() > 0 && s[0] == '+' {
        s.drop_first()
    } else {
        s
    }
}

/// What `usize::from_str` gives: an optional `+`, then one or more decimal
/// digits whose value fits in a `usize`.
pub open spec fn parse_usize_spec(s: Seq<char>) -> Option<usize> {
    let d = unsigned_digits(s);
    if d.len() > 0 && all_digits(d) && digits_value(d) <= usize::MAX {
        Some(digits_value(d) as usize)
    } else {
        None
    }
}

proof fn lemma_digits_grow(d: Seq<char>, i: int)
    requires
        all_digits(d),
        0 <= i <= d.len(),
    ensures
        0 <= digits_value(d.take(i)) <= digits_value(d),
    decreases d.len() - i,
{
    if i < d.len() {
        lemma_digits_grow(d, i + 1);
        assert(d.take(i + 1).drop_last() =~= d.take(i));
        assert(d.take(i + 1).last() == d[i]);
    } else {
        assert(d.take(i) =~= d);
        lemma_digits_nonneg(d);
    }
}

proof fn lemma_digits_nonneg(d: Seq<char>)
    requires
        all_digits(d),
    ensures
        digits_value(d) >= 0,
    decreases d.len(),
{
    if d.len() > 0 {
        assert(all_digits(d.drop_last()));
        lemma_digits_nonneg(d.drop_last());
    }
}

/// Reads a `usize` as `usize::from_str` does.
pub fn parse_usize(s: &str) -> (r: Option<usize>)
    ensures
        r == parse_usize_spec(s@),
{
    let v = chars_of(s);
    let n = v.len();
    let start: usize = if n > 0 && v[0] == '+' {
        1
    } else {
        0
    };
    let d = slice_range(v.as_slice(), start, n);
    assert(d@ =~= unsigned_digits(s@));
    if d.len() == 0 {
        return None;
    }
    let mut i: usize = 0;
    while i < d.len()
        invariant
            d@ == unsigned_digits(s@),
            i <= d@.len(),
            forall|j: int| 0 <= j < i ==> '0' <= #[trigger] d@[j] <= '9',
        decreases d@.len() - i,
    {
        if d[i] < '0' || d[i] > '9' {
            assert(!('0' <= d@[i as int] <= '9'));
            return None;
        }
        i = i + 1;
    }
    assert(all_digits(d@));
    let mut acc: usize = 0;
    let mut k: usize = 0;
    assert(d@.take(0) =~= seq![]);
    while k < d.len()
        invariant
            d@ == unsigned_digits(s@),
            all_digits(d@),
            k <= d@.len(),
            acc == digits_value(d@.take(k as int)),
        decreases d@.len() - k,
    {
        proof {
            assert(d@.take(k + 1).drop_last() =~= d@.take(k as int));
            assert(d@.take(k + 1).last() == d@[k as int]);
            lemma_digits_grow(d@, k + 1);
            assert('0' <= d@[k as int] <= '9');
            assert(digits_value(d@.take(k + 1)) == acc * 10 + ((d@[k as int] as u32) - ('0' as u32)));
        }
        let dig = (d[k] as u32 - '0' as u32) as usize;
        match acc.checked_mul(10) {
            Some(m) => match m.checked_add(dig) {
                Some(t) => {
                    acc = t;
                },
                None => {
                    assert(digits_value(d@.take(k + 1)) > usize::MAX);
                    return None;
                },
            },
            None => {
                proof {
                    assert(digits_value(d@.take(k + 1)) >= acc * 10);
                }
                return None;
            },
        }
        k = k + 1;
    }
    assert(d@.take(d@.len() as int) =~= d@);
    Some(acc)
}

/// The decimal form of a number has at least one digit.
pub proof fn lemma_decimal_len(n: nat)
    ensures
        decimal(n).len() >= 1,
        n >= 10 ==> decimal(n).len() >= 2,
    decreases n,
{
    if n >= 10 {
        lemma_decimal_len(n / 10);
    }
}

/// Different numbers have different decimal forms.
pub proof fn lemma_decimal_injective(a: nat, b: nat)
    requires
        decimal(a) == decimal(b),
    ensures
        a == b,
    decreases a,
{
    lemma_decimal_len(a);
    lemma_decimal_len(b);
    let da = (a % 10) as nat;
    let db = (b % 10) as nat;
    assert(decimal(a).last() == digit_char(da));
    assert(decimal(b).last() == digit_char(db));
    assert((digit_char(da) as int) == da + 48);
    assert((digit_char(db) as int) == db + 48);
    if a >= 10 && b >= 10 {
        assert(decimal(a).drop_last() == decimal(a / 10));
        assert(decimal(b).drop_last() == decimal(b / 10));
        lemma_decimal_injective(a / 10, b / 10);
    }
}

/// The index that `rfind_char` gives lies inside the sequence.
pub proof fn lemma_rfind_char(s: Seq<char>, c: char)
    ensures
        rfind_char(s, c) matches Some(i) ==> 0 <= i < s.len() && s[i] == c,
    decreases s.len(),
{
    if s.len() > 0 && s.last() != c {
        lemma_rfind_char(s.drop_last(), c);
    }
}

/// Whether `t` occurs in `s` at some position.
pub open spec fn occurs_in(t: Seq<char>, s: Seq<char>) -> bool {
    exists|o: int| 0 <= o && o + t.len() <= s.len() && #[trigger] s.subrange(o, o + t.len()) == t
}

pub proof fn lemma_occurs_trans(a: Seq<char>, b: Seq<char>, c: Seq<char>)
    requires
        occurs_in(a, b),
        occurs_in(b, c),
    ensures
        occurs_in(a, c),
{
    let o1 = choose|o: int| 0 <= o && o + a.len() <= b.len() && #[trigger] b.subrange(o, o + a.len()) == a;
    let o2 = choose|o: int| 0 <= o && o + b.len() <= c.len() && #[trigger] c.subrange(o, o + b.len()) == b;
    assert(c.subrange(o2 + o1, o2 + o1 + a.len()) =~= a);
}

proof fn lemma_trim_start_is_suffix(s: Seq<char>)
    ensures
        exists|k: int| 0 <= k <= s.len() && #[trigger] s.skip(k) == trim_start(s),
    decreases s.len(),
{
    if s.len() > 0 && is_ws(s[0]) {
        lemma_trim_start_is_suffix(s.drop_first());
        let k = choose|k: int| 0 <= k <= s.drop_first().len() && #[trigger] s.drop_first().skip(k) == trim_start(s.drop_first());
        assert(s.skip(k + 1) =~= s.drop_first().skip(k));
    } else {
        assert(s.skip(0) =~= s);
    }
}

proof fn lemma_trim_end_is_prefix(s: Seq<char>)
    ensures
        exists|m: int| 0 <= m <= s.len() && #[trigger] s.take(m) == trim_end(s),
    decreases s.len(),
{
    if s.len() > 0 && is_ws(s.last()) {
        lemma_trim_end_is_prefix(s.drop_last());
        let m = choose|m: int| 0 <= m <= s.drop_last().len() && #[trigger] s.drop_last().take(m) == trim_end(s.drop_last());
        assert(s.take(m) =~= s.drop_last().take(m));
    } else {
        assert(s.take(s.len() as int) =~= s);
    }
}

/// A trimmed text occurs in the text.
pub proof fn lemma_trim_occurs(s: Seq<char>)
    ensures
        occurs_in(trim(s), s),
{
    lemma_trim_start_is_suffix(s);
    let k = choose|k: int| 0 <= k <= s.len() && #[trigger] s.skip(k) == trim_start(s);
    let u = trim_start(s);
    lemma_trim_end_is_prefix(u);
    let m = choose|m: int| 0 <= m <= u.len() && #[trigger] u.take(m) == trim_end(u);
    assert(s.subrange(k, k + m) =~= u.take(m));
}

/// Every line of a text occurs in the text.
pub proof fn lemma_lines_occur(s: Seq<char>)
    ensures
        forall|j: int| 0 <= j < lines(s).len() ==> occurs_in(#[trigger] lines(s)[j], s),
    decreases s.len(),
{
    if s.len() > 0 {
        match find(s, seq!['\n']) {
            Some(i) => {
                if 0 <= i < s.len() {
                    let rest = s.skip(i + 1);
                    lemma_lines_occur(rest);
                    let first = strip_cr(s.take(i));
                    assert(lines(s) == seq![first] + lines(rest));
                    assert forall|j: int| 0 <= j < lines(s).len() implies occurs_in(#[trigger] lines(s)[j], s) by {
                        if j == 0 {
                            assert(lines(s)[0] == first);
                            assert(first.len() <= s.len());
                            assert(s.subrange(0, 0 + first.len() as int) =~= first);
                        } else {
                            assert(lines(s)[j] == lines(rest)[j - 1]);
                            let t = lines(rest)[j - 1];
                            assert(occurs_in(t, rest));
                            let o = choose|o: int| 0 <= o && o + t.len() <= rest.len() && #[trigger] rest.subrange(o, o + t.len()) == t;
                            let o2 = i + 1 + o;
                            assert(s.subrange(o2, o2 + t.len()) =~= t);
                        }
                    }
                }
            },
            None => {
                assert(lines(s) == seq![s]);
                assert(lines(s)[0] == s);
                assert(s.subrange(0, 0 + s.len() as int) =~= s);
            },
        }
    }
}

/// A text that starts with `p` and occurs in `s` makes `s` contain `p`.
pub proof fn lemma_starts_occurs_contains(t: Seq<char>, p: Seq<char>, s: Seq<char>)
    requires
        starts_with(t, p),
        occurs_in(t, s),
    ensures
        contains(s, p),
{
    let o = choose|o: int| 0 <= o && o + t.len() <= s.len() && #[trigger] s.subrange(o, o + t.len()) == t;
    assert(s.subrange(o, o + p.len()) =~= t.take(p.len() as int));
    assert(matches_at(s, p, o));
    lemma_find_from(s, p, 0);
}

} // verus!
