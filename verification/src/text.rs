//! String helpers shared by the domain logic: the few standard-library text
//! operations the logic relies on, and verified character-level routines.
use vstd::prelude::*;

verus! {

// ── Standard-library text operations ────────────────────────────────────────

/// What `str::to_lowercase` returns for a string (Unicode lower-casing).
pub uninterp spec fn lowercase(s: Seq<char>) -> Seq<char>;

/// What `str::trim` returns for a string (leading and trailing Unicode
/// whitespace removed).
pub uninterp spec fn trimmed(s: Seq<char>) -> Seq<char>;

/// The lower-case form of an ASCII character: `A`..`Z` become `a`..`z`,
/// every other character stays.
pub open spec fn ascii_lower(c: char) -> char {
    if 'A' <= c && c <= 'Z' {
        ((c as u32) + 32) as char
    } else {
        c
    }
}

/// Every character of `s` is ASCII.
pub open spec fn all_ascii(s: Seq<char>) -> bool {
    forall|i: int| 0 <= i < s.len() ==> (s[i] as u32) < 128
}

/// Calls `str::to_lowercase`; the result is named by `lowercase`, which
/// depends on the input characters alone. On ASCII text Unicode lower-casing
/// is ASCII lower-casing, character for character; beyond ASCII nothing is
/// stated.
#[verifier::external_body]
pub fn to_lowercase(s: &str) -> (r: String)
    ensures
        r@ == lowercase(s@),
        all_ascii(s@) ==> r@ == s@.map_values(|c: char| ascii_lower(c)),
{
    s.to_lowercase()
}

/// Calls `str::trim`; the result is named by `trimmed`, which depends on the
/// input characters alone. The result neither starts nor ends with
/// whitespace, so trimming it again leaves it as it is.
#[verifier::external_body]
pub fn trim(s: &str) -> (r: &str)
    ensures
        r@ == trimmed(s@),
        trimmed(r@) == r@,
{
    s.trim()
}

/// What `str::parse::<i64>` returns for a string: the number, or the text
/// of the error.
pub uninterp spec fn parsed_i64(s: Seq<char>) -> Result<i64, Seq<char>>;

/// Calls `str::parse::<i64>`; the result (the error by its `Display` text) is
/// named by `parsed_i64`, which depends on the input characters alone.
#[verifier::external_body]
pub fn parse_i64(s: &str) -> (r: Result<i64, String>)
    ensures
        match r {
            Ok(n) => parsed_i64(s@) == Ok::<i64, Seq<char>>(n),
            Err(m) => parsed_i64(s@) == Err::<i64, Seq<char>>(m@),
        },
{
    s.parse::<i64>().map_err(|e| e.to_string())
}

/// What `str::parse::<u64>` returns for a string, when it parses.
pub uninterp spec fn parsed_u64(s: Seq<char>) -> Option<u64>;

/// Calls `str::parse::<u64>`; the result is named by `parsed_u64`, which
/// depends on the input characters alone.
#[verifier::external_body]
pub fn parse_u64(s: &str) -> (r: Option<u64>)
    ensures
        r == parsed_u64(s@),
{
    s.parse::<u64>().ok()
}

/// What `str::parse::<u16>` returns for a string, when it parses.
pub uninterp spec fn parsed_u16(s: Seq<char>) -> Option<u16>;

/// Calls `str::parse::<u16>`; the result is named by `parsed_u16`, which
/// depends on the input characters alone.
#[verifier::external_body]
pub fn parse_u16(s: &str) -> (r: Option<u16>)
    ensures
        r == parsed_u16(s@),
{
    s.parse::<u16>().ok()
}

/// Calls `String::push`: the character is appended at the end.
#[verifier::external_body]
pub fn push_char(s: &mut String, c: char)
    ensures
        final(s)@ == old(s)@.push(c),
{
    s.push(c);
}

/// The two texts are equal once ASCII letters are lower-cased.
pub open spec fn eq_ascii_ci(a: Seq<char>, b: Seq<char>) -> bool {
    a.len() == b.len() && forall|i: int| 0 <= i < a.len() ==> ascii_lower(#[trigger] a[i]) == ascii_lower(b[i])
}

/// The code of the lower-case form of a character.
fn lower_ascii_code(c: char) -> (r: u32)
    ensures
        r == ascii_lower(c) as u32,
{
    if 'A' <= c && c <= 'Z' {
        (c as u32) + 32
    } else {
        c as u32
    }
}

/// Whether two strings are equal ignoring the case of ASCII letters.
pub fn eq_ignore_ascii_case(a: &str, b: &str) -> (r: bool)
    ensures
        r == eq_ascii_ci(a@, b@),
{
    let va = chars_of(a);
    let vb = chars_of(b);
    if va.len() != vb.len() {
        return false;
    }
    let n = va.len();
    let mut i: usize = 0;
    while i < n
        invariant
            n == va@.len(),
            n == vb@.len(),
            va@ == a@,
            vb@ == b@,
            i <= n,
            forall|k: int| 0 <= k < i ==> ascii_lower(#[trigger] va@[k]) == ascii_lower(vb@[k]),
        decreases n - i,
    {
        if lower_ascii_code(va[i]) != lower_ascii_code(vb[i]) {
            proof {
                assert(ascii_lower(va@[i as int]) != ascii_lower(vb@[i as int]));
            }
            return false;
        }
        i = i + 1;
    }
    true
}

/// Filtering twice by the same predicate is filtering once.
pub proof fn lemma_filter_idempotent<A>(s: Seq<A>, p: spec_fn(A) -> bool)
    ensures
        s.filter(p).filter(p) == s.filter(p),
    decreases s.len(),
{
    reveal(Seq::filter);
    if s.len() > 0 {
        lemma_filter_idempotent(s.drop_last(), p);
        let f = s.drop_last().filter(p);
        if p(s.last()) {
            assert(f.push(s.last()).drop_last() =~= f);
        }
    }
}

// ── Conversions between strings and character vectors ──────────────────────

/// An owned copy of a string slice.
pub fn string_of(s: &str) -> (r: String)
    ensures
        r@ == s@,
{
    s.to_string()
}

/// The characters of a string, in order.
pub fn chars_of(s: &str) -> (v: Vec<char>)
    ensures
        v@ == s@,
{
    let mut v: Vec<char> = Vec::new();
    for c in it: s.chars()
        invariant
            it.seq() == s@,
            v@ == s@.take(it.index() as int),
    {
        let ghost i = it.index();
        proof {
            assert(s@.take(i + 1) == s@.take(i as int).push(c));
        }
        v.push(c);
    }
    proof {
        assert(s@.take(s@.len() as int) == s@);
    }
    v
}

/// The string made of a slice of characters.
pub fn string_from_chars(v: &[char]) -> (s: String)
    ensures
        s@ == v@,
{
    let mut s = String::new();
    let n = v.len();
    let mut i: usize = 0;
    while i < n
        invariant
            n == v@.len(),
            i <= n,
            s@ == v@.take(i as int),
        decreases n - i,
    {
        proof {
            assert(v@.take(i + 1) == v@.take(i as int).push(v@[i as int]));
        }
        push_char(&mut s, v[i]);
        i = i + 1;
    }
    proof {
        assert(v@.take(n as int) == v@);
    }
    s
}

/// Concatenation of two strings.
pub fn concat(a: &str, b: &str) -> (r: String)
    ensures
        r@ == a@ + b@,
{
    let mut r = string_of(a);
    r.append(b);
    r
}

/// Concatenation of three strings.
pub fn concat3(a: &str, b: &str, c: &str) -> (r: String)
    ensures
        r@ == a@ + b@ + c@,
{
    let mut r = string_of(a);
    r.append(b);
    r.append(c);
    r
}

/// Character-wise equality of two strings.
pub fn str_eq(a: &str, b: &str) -> (r: bool)
    ensures
        r == (a@ == b@),
{
    let sa = string_of(a);
    let sb = string_of(b);
    sa == sb
}

// ── Searching ───────────────────────────────────────────────────────────────

/// `p` is a prefix of `s`.
pub open spec fn is_prefix(p: Seq<char>, s: Seq<char>) -> bool {
    p.len() <= s.len() && s.subrange(0, p.len() as int) == p
}

/// `t` occurs in `s` starting at position `i`.
pub open spec fn occurs_at(s: Seq<char>, t: Seq<char>, i: int) -> bool {
    0 <= i && i + t.len() <= s.len() && s.subrange(i, i + t.len()) == t
}

/// `t` occurs somewhere in `s`.
pub open spec fn contains_seq(s: Seq<char>, t: Seq<char>) -> bool {
    exists|i: int| occurs_at(s, t, i)
}

/// Index of the last occurrence of `c` in `s`, if any.
pub open spec fn last_index_of(s: Seq<char>, c: char) -> Option<int>
    decreases s.len(),
{
    if s.len() == 0 {
        None
    } else if s.last() == c {
        Some(s.len() - 1)
    } else {
        last_index_of(s.drop_last(), c)
    }
}

/// Index of the first occurrence of `c` in `s`, if any.
pub open spec fn first_index_of(s: Seq<char>, c: char) -> Option<int>
    decreases s.len(),
{
    if s.len() == 0 {
        None
    } else if s[0] == c {
        Some(0)
    } else {
        match first_index_of(s.drop_first(), c) {
            Some(i) => Some(i + 1),
            None => None,
        }
    }
}

/// Facts about `last_index_of`: it is in range, holds `c`, and nothing after it does.
pub proof fn lemma_last_index_of(s: Seq<char>, c: char)
    ensures
        last_index_of(s, c) matches Some(i) ==> 0 <= i < s.len() && s[i] == c && forall|j: int|
            i < j < s.len() ==> s[j] != c,
        last_index_of(s, c) is None ==> forall|j: int| 0 <= j < s.len() ==> s[j] != c,
    decreases s.len(),
{
    if s.len() > 0 && s.last() != c {
        lemma_last_index_of(s.drop_last(), c);
        assert forall|j: int| 0 <= j < s.len() - 1 implies s.drop_last()[j] == s[j] by {}
    }
}

/// Facts about `first_index_of`: it is in range, holds `c`, and nothing before it does.
pub proof fn lemma_first_index_of(s: Seq<char>, c: char)
    ensures
        first_index_of(s, c) matches Some(i) ==> 0 <= i < s.len() && s[i] == c && forall|j: int|
            0 <= j < i ==> s[j] != c,
        first_index_of(s, c) is None ==> forall|j: int| 0 <= j < s.len() ==> s[j] != c,
    decreases s.len(),
{
    if s.len() > 0 && s[0] != c {
        lemma_first_index_of(s.drop_first(), c);
        assert forall|j: int| 1 <= j < s.len() implies s.drop_first()[j - 1] == s[j] by {}
    }
}

/// Characterizes `last_index_of` by its defining properties.
pub proof fn lemma_last_index_of_unique(s: Seq<char>, c: char, i: int)
    requires
        0 <= i < s.len(),
        s[i] == c,
        forall|j: int| i < j < s.len() ==> s[j] != c,
    ensures
        last_index_of(s, c) == Some(i),
    decreases s.len(),
{
    if s.last() != c {
        lemma_last_index_of_unique(s.drop_last(), c, i);
    }
}

/// Characterizes `first_index_of` by its defining properties.
pub proof fn lemma_first_index_of_unique(s: Seq<char>, c: char, i: int)
    requires
        0 <= i < s.len(),
        s[i] == c,
        forall|j: int| 0 <= j < i ==> s[j] != c,
    ensures
        first_index_of(s, c) == Some(i),
    decreases s.len(),
{
    if s[0] != c {
        lemma_first_index_of_unique(s.drop_first(), c, i - 1);
    }
}

/// Characterizes `last_index_of` when `c` does not occur.
pub proof fn lemma_last_index_of_none(s: Seq<char>, c: char)
    requires
        forall|j: int| 0 <= j < s.len() ==> s[j] != c,
    ensures
        last_index_of(s, c) is None,
    decreases s.len(),
{
    if s.len() > 0 {
        lemma_last_index_of_none(s.drop_last(), c);
    }
}

/// Characterizes `first_index_of` when `c` does not occur.
pub proof fn lemma_first_index_of_none(s: Seq<char>, c: char)
    requires
        forall|j: int| 0 <= j < s.len() ==> s[j] != c,
    ensures
        first_index_of(s, c) is None,
    decreases s.len(),
{
    if s.len() > 0 {
        lemma_first_index_of_none(s.drop_first(), c);
    }
}

/// Position of the last occurrence of `c`.
pub fn find_last(v: &[char], c: char) -> (r: Option<usize>)
    ensures
        match r {
            Some(i) => last_index_of(v@, c) == Some(i as int),
            None => last_index_of(v@, c) is None,
        },
{
    let n = v.len();
    let mut i: usize = n;
    while i > 0
        invariant
            n == v@.len(),
            i <= n,
            forall|j: int| i <= j < n ==> v@[j] != c,
        decreases i,
    {
        if v[i - 1] == c {
            proof {
                lemma_last_index_of_unique(v@, c, i - 1);
            }
            return Some(i - 1);
        }
        i = i - 1;
    }
    proof {
        lemma_last_index_of_none(v@, c);
    }
    None
}

/// Position of the first occurrence of `c`.
pub fn find_first(v: &[char], c: char) -> (r: Option<usize>)
    ensures
        match r {
            Some(i) => first_index_of(v@, c) == Some(i as int),
            None => first_index_of(v@, c) is None,
        },
{
    let n = v.len();
    let mut i: usize = 0;
    while i < n
        invariant
            n == v@.len(),
            i <= n,
            forall|j: int| 0 <= j < i ==> v@[j] != c,
        decreases n - i,
    {
        if v[i] == c {
            proof {
                lemma_first_index_of_unique(v@, c, i as int);
            }
            return Some(i);
        }
        i = i + 1;
    }
    proof {
        lemma_first_index_of_none(v@, c);
    }
    None
}

/// Whether `t` occurs in `s` at position `i`.
pub fn matches_at(s: &[char], t: &[char], i: usize) -> (r: bool)
    requires
        i + t@.len() <= s@.len(),
    ensures
        r == occurs_at(s@, t@, i as int),
{
    let m = t.len();
    let n = s.len();
    let mut k: usize = 0;
    while k < m
        invariant
            m == t@.len(),
            n == s@.len(),
            i + m <= s@.len(),
            k <= m,
            forall|j: int| 0 <= j < k ==> s@[i + j] == t@[j],
        decreases m - k,
    {
        assert(i + k < s@.len());
        if s[i + k] != t[k] {
            proof {
                assert(s@.subrange(i as int, i + m)[k as int] != t@[k as int]);
            }
            return false;
        }
        k = k + 1;
    }
    proof {
        assert(s@.subrange(i as int, i + m) =~= t@);
    }
    true
}

/// Whether `t` occurs anywhere in `s`.
pub fn contains_chars(s: &[char], t: &[char]) -> (r: bool)
    ensures
        r == contains_seq(s@, t@),
{
    let n = s.len();
    let m = t.len();
    if m > n {
        return false;
    }
    if m == 0 {
        proof {
            assert(s@.subrange(0, 0) =~= t@);
            assert(occurs_at(s@, t@, 0));
        }
        return true;
    }
    let mut i: usize = 0;
    while i <= n - m
        invariant
            n == s@.len(),
            m == t@.len(),
            0 < m <= n,
            i <= n - m + 1,
            forall|j: int| 0 <= j < i ==> !occurs_at(s@, t@, j),
        decreases n - m + 1 - i,
    {
        if matches_at(s, t, i) {
            return true;
        }
        i = i + 1;
    }
    proof {
        assert forall|j: int| !occurs_at(s@, t@, j) by {
            if 0 <= j && j + m <= n {
                assert(j < i);
            }
        }
    }
    false
}

/// The start of the last occurrence of `t` in `s`, if any.
pub open spec fn last_occurrence_of(s: Seq<char>, t: Seq<char>) -> Option<int> {
    if exists|i: int| occurs_at(s, t, i) {
        Some(choose|i: int| occurs_at(s, t, i) && forall|j: int| j > i ==> !occurs_at(s, t, j))
    } else {
        None
    }
}

/// Facts about `last_occurrence_of`: it is an occurrence and none comes
/// later; without it there is none.
pub proof fn lemma_last_occurrence(s: Seq<char>, t: Seq<char>)
    ensures
        last_occurrence_of(s, t) matches Some(i) ==> occurs_at(s, t, i) && forall|j: int|
            j > i ==> !occurs_at(s, t, j),
        last_occurrence_of(s, t) is None ==> forall|j: int| !occurs_at(s, t, j),
{
    if exists|i: int| occurs_at(s, t, i) {
        let i = choose|i: int| occurs_at(s, t, i);
        let k = s.len() - t.len();
        assert(occurs_at(s, t, i));
        assert(exists|c: int| occurs_at(s, t, c) && forall|j: int| j > c ==> !occurs_at(s, t, j)) by {
            lemma_max_occurrence(s, t, k, i);
        }
    }
}

/// Some occurrence at or below `bound` has no occurrence after it.
proof fn lemma_max_occurrence(s: Seq<char>, t: Seq<char>, bound: int, i: int)
    requires
        occurs_at(s, t, i),
        i <= bound,
        forall|j: int| j > bound ==> !occurs_at(s, t, j),
    ensures
        exists|c: int| occurs_at(s, t, c) && forall|j: int| j > c ==> !occurs_at(s, t, j),
    decreases bound - i,
{
    if occurs_at(s, t, bound) {
        assert(occurs_at(s, t, bound) && forall|j: int| j > bound ==> !occurs_at(s, t, j));
    } else {
        lemma_max_occurrence(s, t, bound - 1, i);
    }
}

/// Where the last occurrence of `t` in `s` starts.
pub fn find_last_occurrence(s: &[char], t: &[char]) -> (r: Option<usize>)
    ensures
        match r {
            Some(i) => last_occurrence_of(s@, t@) == Some(i as int),
            None => last_occurrence_of(s@, t@) is None,
        },
{
    let n = s.len();
    let m = t.len();
    if m > n {
        proof {
            assert forall|j: int| !occurs_at(s@, t@, j) by {}
        }
        return None;
    }
    if m == 0 {
        proof {
            assert(s@.subrange(n as int, n as int) =~= t@);
            assert(occurs_at(s@, t@, n as int));
            let c = choose|c: int| occurs_at(s@, t@, c) && forall|j: int| j > c ==> !occurs_at(s@, t@, j);
            assert(c == n as int) by {
                if c < n {
                    assert(occurs_at(s@, t@, n as int));
                }
            }
        }
        return Some(n);
    }
    let mut i: usize = n - m + 1;
    while i > 0
        invariant
            n == s@.len(),
            m == t@.len(),
            0 < m <= n,
            i <= n - m + 1,
            forall|j: int| j >= i ==> !occurs_at(s@, t@, j),
        decreases i,
    {
        if matches_at(s, t, i - 1) {
            proof {
                let k = (i - 1) as int;
                assert(occurs_at(s@, t@, k));
                let c = choose|c: int| occurs_at(s@, t@, c) && forall|j: int| j > c ==> !occurs_at(s@, t@, j);
                assert(c == k) by {
                    if c < k {
                    } else if c > k {
                    }
                }
            }
            return Some(i - 1);
        }
        i = i - 1;
    }
    proof {
        assert forall|j: int| !occurs_at(s@, t@, j) by {
            if j < 0 {
            }
        }
    }
    None
}

/// Whether `p` is a prefix of `s`.
pub fn starts_with_chars(s: &[char], p: &[char]) -> (r: bool)
    ensures
        r == is_prefix(p@, s@),
{
    if p.len() > s.len() {
        return false;
    }
    let r = matches_at(s, p, 0);
    proof {
        assert(occurs_at(s@, p@, 0) == is_prefix(p@, s@));
    }
    r
}

// ── Decimal and hexadecimal rendering ───────────────────────────────────────

/// The character of a decimal or hexadecimal digit (upper case).
pub open spec fn digit_char(d: nat) -> char {
    if d == 0 { '0' }
    else if d == 1 { '1' }
    else if d == 2 { '2' }
    else if d == 3 { '3' }
    else if d == 4 { '4' }
    else if d == 5 { '5' }
    else if d == 6 { '6' }
    else if d == 7 { '7' }
    else if d == 8 { '8' }
    else if d == 9 { '9' }
    else if d == 10 { 'A' }
    else if d == 11 { 'B' }
    else if d == 12 { 'C' }
    else if d == 13 { 'D' }
    else if d == 14 { 'E' }
    else { 'F' }
}

/// The digits of `n` in base `b` (10 or 16), most significant first, no padding.
pub open spec fn digits(n: nat, b: nat) -> Seq<char>
    recommends
        b == 10 || b == 16,
    decreases n,
{
    if b < 2 || n < b {
        seq![digit_char(n)]
    } else {
        proof {
            assert(n / b < n) by (nonlinear_arith)
                requires
                    b >= 2,
                    n >= b,
            ;
        }
        digits(n / b, b).push(digit_char(n % b))
    }
}

/// `s` preceded by as many `'0'` as needed to reach `width` characters.
pub open spec fn zero_pad(s: Seq<char>, width: nat) -> Seq<char> {
    if s.len() >= width {
        s
    } else {
        Seq::new((width - s.len()) as nat, |i: int| '0') + s
    }
}

fn digit_of(d: u64) -> (c: char)
    requires
        d < 16,
    ensures
        c == digit_char(d as nat),
{
    if d == 0 { '0' }
    else if d == 1 { '1' }
    else if d == 2 { '2' }
    else if d == 3 { '3' }
    else if d == 4 { '4' }
    else if d == 5 { '5' }
    else if d == 6 { '6' }
    else if d == 7 { '7' }
    else if d == 8 { '8' }
    else if d == 9 { '9' }
    else if d == 10 { 'A' }
    else if d == 11 { 'B' }
    else if d == 12 { 'C' }
    else if d == 13 { 'D' }
    else if d == 14 { 'E' }
    else { 'F' }
}

/// The digits of `n` in base `base` (10 or 16), upper-case letters for hex.
pub fn render_digits(n: u64, base: u64) -> (s: String)
    requires
        base == 10 || base == 16,
    ensures
        s@ == digits(n as nat, base as nat),
    decreases n,
{
    if n < base {
        let mut s = String::new();
        assert(digits(n as nat, base as nat) == seq![digit_char(n as nat)]);
        push_char(&mut s, digit_of(n));
        s
    } else {
        assert(n / base < n) by (nonlinear_arith)
            requires
                base >= 2,
                n >= base,
        ;
        let mut s = render_digits(n / base, base);
        push_char(&mut s, digit_of(n % base));
        s
    }
}

/// Decimal rendering of `n` (what `u64`'s `Display` writes).
pub fn decimal_string(n: u64) -> (s: String)
    ensures
        s@ == digits(n as nat, 10),
{
    render_digits(n, 10)
}

/// `s` left-padded with `'0'` up to `width` characters.
pub fn pad_zeros(s: &str, width: usize) -> (r: String)
    ensures
        r@ == zero_pad(s@, width as nat),
{
    let len = s.unicode_len();
    if len >= width {
        return string_of(s);
    }
    let mut r = String::new();
    let mut k: usize = 0;
    while k < width - len
        invariant
            len == s@.len(),
            len < width,
            k <= width - len,
            r@ == Seq::new(k as nat, |i: int| '0'),
        decreases width - len - k,
    {
        push_char(&mut r, '0');
        k = k + 1;
        proof {
            assert(r@ =~= Seq::new(k as nat, |i: int| '0'));
        }
    }
    r.append(s);
    r
}

} // verus!
