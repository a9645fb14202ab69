use vstd::prelude::*;

verus! {

/// What `str::to_lowercase` makes of a sequence of characters.
pub uninterp spec fn lower_of(s: Seq<char>) -> Seq<char>;

/// The characters with the Unicode White_Space property, which `str::trim`
/// removes.
pub open spec fn is_white_space(c: char) -> bool {
    ('\u{9}' <= c && c <= '\u{d}') || c == ' ' || c == '\u{85}' || c == '\u{a0}' || c == '\u{1680}'
        || ('\u{2000}' <= c && c <= '\u{200a}') || c == '\u{2028}' || c == '\u{2029}' || c
        == '\u{202f}' || c == '\u{205f}' || c == '\u{3000}'
}

/// First index at or after `i` that holds no white space.
pub open spec fn first_solid_from(s: Seq<char>, i: int) -> Option<int>
    decreases s.len() - i,
{
    if i < 0 || i >= s.len() {
        None
    } else if !is_white_space(s[i]) {
        Some(i)
    } else {
        first_solid_from(s, i + 1)
    }
}

/// Last index below `i` that holds no white space.
pub open spec fn last_solid_before(s: Seq<char>, i: int) -> Option<int>
    decreases i,
{
    if i <= 0 || i > s.len() {
        None
    } else if !is_white_space(s[i - 1]) {
        Some(i - 1)
    } else {
        last_solid_before(s, i - 1)
    }
}

/// `s` without its leading and trailing white space.
pub open spec fn trimmed_of(s: Seq<char>) -> Seq<char> {
    match (first_solid_from(s, 0), last_solid_before(s, s.len() as int)) {
        (Some(a), Some(b)) => s.subrange(a, b + 1),
        _ => Seq::empty(),
    }
}

/// The lower-cased, trimmed form in which every extracted name is stored.
pub open spec fn clean(s: Seq<char>) -> Seq<char> {
    lower_of(trimmed_of(s))
}

/// First index at or after `i` that holds `c`.
pub open spec fn find_from(s: Seq<char>, c: char, i: int) -> Option<int>
    decreases s.len() - i,
{
    if i < 0 || i >= s.len() {
        None
    } else if s[i] == c {
        Some(i)
    } else {
        find_from(s, c, i + 1)
    }
}

/// Last index below `i` that holds `c`.
pub open spec fn rfind_before(s: Seq<char>, c: char, i: int) -> Option<int>
    decreases i,
{
    if i <= 0 || i > s.len() {
        None
    } else if s[i - 1] == c {
        Some(i - 1)
    } else {
        rfind_before(s, c, i - 1)
    }
}

/// `pat` occurs somewhere in `s` as a contiguous run.
pub open spec fn contains_seq(s: Seq<char>, pat: Seq<char>) -> bool {
    exists|i: int| 0 <= i && i + pat.len() <= s.len() && #[trigger] s.subrange(i, i + pat.len()) == pat
}

/// `s` begins with `p`.
pub open spec fn starts_with_seq(s: Seq<char>, p: Seq<char>) -> bool {
    p.len() <= s.len() && s.subrange(0, p.len() as int) == p
}

/// Relies on `str::to_lowercase`: the result depends on the characters alone.
#[verifier::external_body]
pub(crate) fn to_lower(s: &str) -> (r: String)
    ensures
        r@ == lower_of(s@),
{
    s.to_lowercase()
}

/// `s` without its leading and trailing white space, as `str::trim` gives it.
pub fn trim(s: &str) -> (r: String)
    ensures
        r@ == trimmed_of(s@),
{
    let x = chars_of(s);
    let n: usize = x.len();
    let mut a: usize = 0;
    while a < n && is_space(x[a])
        invariant
            x@ == s@,
            n == x@.len(),
            a <= n,
            first_solid_from(s@, 0) == first_solid_from(s@, a as int),
        decreases n - a,
    {
        a = a + 1;
    }
    if a == n {
        return String::new();
    }
    let mut b: usize = n;
    while b > 0 && is_space(x[b - 1])
        invariant
            x@ == s@,
            n == x@.len(),
            b <= n,
            last_solid_before(s@, n as int) == last_solid_before(s@, b as int),
        decreases b,
    {
        b = b - 1;
    }
    assert(first_solid_from(s@, a as int) == Some(a as int));
    proof {
        lemma_last_solid_at_least(s@, n as int, a as int);
        assert(last_solid_before(s@, b as int) == Some(b - 1));
    }
    substring(s, a, b)
}

/// Past a solid character, the last solid one is at least that far.
proof fn lemma_last_solid_at_least(s: Seq<char>, i: int, a: int)
    requires
        0 <= a < i <= s.len(),
        !is_white_space(s[a]),
    ensures
        last_solid_before(s, i) matches Some(b) && a <= b < i,
    decreases i,
{
    if is_white_space(s[i - 1]) {
        lemma_last_solid_at_least(s, i - 1, a);
    }
}

pub open spec fn all_white_space(w: Seq<char>) -> bool {
    forall|k: int| 0 <= k < w.len() ==> is_white_space(#[trigger] w[k])
}

proof fn lemma_first_solid_none(u: Seq<char>, i: int)
    requires
        0 <= i,
        forall|k: int| i <= k < u.len() ==> is_white_space(#[trigger] u[k]),
    ensures
        first_solid_from(u, i) is None,
    decreases u.len() - i,
{
    if i < u.len() {
        lemma_first_solid_none(u, i + 1);
    }
}

proof fn lemma_first_solid_extend(t: Seq<char>, w: Seq<char>, i: int)
    requires
        0 <= i <= t.len(),
        all_white_space(w),
    ensures
        first_solid_from(t + w, i) == first_solid_from(t, i),
    decreases t.len() - i,
{
    let u = t + w;
    if i < t.len() {
        assert(u[i] == t[i]);
        if is_white_space(t[i]) {
            lemma_first_solid_extend(t, w, i + 1);
        }
    } else {
        assert forall|k: int| i <= k < u.len() implies is_white_space(#[trigger] u[k]) by {
            assert(u[k] == w[k - t.len()]);
        }
        lemma_first_solid_none(u, i);
    }
}

proof fn lemma_last_solid_skip(t: Seq<char>, w: Seq<char>, i: int)
    requires
        t.len() <= i <= t.len() + w.len(),
        all_white_space(w),
    ensures
        last_solid_before(t + w, i) == last_solid_before(t + w, t.len() as int),
    decreases i,
{
    if i > t.len() {
        assert((t + w)[i - 1] == w[i - 1 - t.len()]);
        lemma_last_solid_skip(t, w, i - 1);
    }
}

proof fn lemma_last_solid_prefix(t: Seq<char>, w: Seq<char>, i: int)
    requires
        0 <= i <= t.len(),
    ensures
        last_solid_before(t + w, i) == last_solid_before(t, i),
    decreases i,
{
    if i > 0 {
        assert((t + w)[i - 1] == t[i - 1]);
        lemma_last_solid_prefix(t, w, i - 1);
    }
}

/// Trailing white space makes no difference to trimming: `t` followed by
/// blanks trims to what `t` trims to.
pub proof fn lemma_trim_trailing_space(t: Seq<char>, w: Seq<char>)
    requires
        all_white_space(w),
    ensures
        trimmed_of(t + w) == trimmed_of(t),
{
    let u = t + w;
    lemma_first_solid_extend(t, w, 0);
    lemma_last_solid_skip(t, w, u.len() as int);
    lemma_last_solid_prefix(t, w, t.len() as int);
    lemma_first_solid_range(t, 0);
    if let (Some(a), Some(b)) = (first_solid_from(t, 0), last_solid_before(t, t.len() as int)) {
        lemma_last_solid_below(t, t.len() as int);
        lemma_first_solid_is_solid(t, 0);
        lemma_last_solid_at_least(t, t.len() as int, a);
        assert(u.subrange(a, b + 1) =~= t.subrange(a, b + 1));
    }
}

proof fn lemma_last_solid_below(s: Seq<char>, i: int)
    requires
        0 <= i <= s.len(),
    ensures
        last_solid_before(s, i) matches Some(b) ==> 0 <= b < i,
    decreases i,
{
    if i > 0 {
        lemma_last_solid_below(s, i - 1);
    }
}

proof fn lemma_first_solid_is_solid(s: Seq<char>, i: int)
    requires
        0 <= i,
    ensures
        first_solid_from(s, i) matches Some(a) ==> 0 <= a < s.len() && !is_white_space(s[a]),
    decreases s.len() - i,
{
    if i < s.len() {
        lemma_first_solid_is_solid(s, i + 1);
    }
}

proof fn lemma_first_solid_range(s: Seq<char>, i: int)
    requires
        0 <= i,
    ensures
        first_solid_from(s, i) matches Some(a) ==> i <= a < s.len(),
    decreases s.len() - i,
{
    if i < s.len() {
        lemma_first_solid_range(s, i + 1);
    }
}

/// Whether `c` is white space, as `char::is_whitespace` tells.
pub fn is_space(c: char) -> (r: bool)
    ensures
        r == is_white_space(c),
{
    ('\u{9}' <= c && c <= '\u{d}') || c == ' ' || c == '\u{85}' || c == '\u{a0}' || c == '\u{1680}'
        || ('\u{2000}' <= c && c <= '\u{200a}') || c == '\u{2028}' || c == '\u{2029}' || c
        == '\u{202f}' || c == '\u{205f}' || c == '\u{3000}'
}

/// The lower-cased, trimmed copy of `s`.
pub fn clean_copy(s: &str) -> (r: String)
    ensures
        r@ == clean(s@),
{
    to_lower(trim(s).as_str())
}

/// The characters of `s`, one per element.
pub fn chars_of(s: &str) -> (r: Vec<char>)
    ensures
        r@ == s@,
{
    let n = s.unicode_len();
    let mut out: Vec<char> = Vec::new();
    let mut i: usize = 0;
    while i < n
        invariant
            n == s@.len(),
            i <= n,
            out@ == s@.subrange(0, i as int),
        decreases n - i,
    {
        out.push(s.get_char(i));
        i = i + 1;
    }
    assert(out@ =~= s@);
    out
}

/// Owned copy of the characters `from..to` of `s`.
pub fn substring(s: &str, from: usize, to: usize) -> (r: String)
    requires
        from <= to <= s@.len(),
    ensures
        r@ == s@.subrange(from as int, to as int),
{
    String::from_str(s.substring_char(from, to))
}

/// Character-wise equality of two strings.
pub fn str_eq(a: &str, b: &str) -> (r: bool)
    ensures
        r == (a@ == b@),
{
    let x = chars_of(a);
    let y = chars_of(b);
    if x.len() != y.len() {
        return false;
    }
    let mut i: usize = 0;
    while i < x.len()
        invariant
            x@ == a@,
            y@ == b@,
            x.len() == y.len(),
            i <= x.len(),
            forall|j: int| 0 <= j < i ==> x@[j] == y@[j],
        decreases x.len() - i,
    {
        if x[i] != y[i] {
            return false;
        }
        i = i + 1;
    }
    assert(x@ =~= y@);
    true
}

/// First index at or after `start` that holds `c`.
pub fn find_char(s: &Vec<char>, c: char, start: usize) -> (r: Option<usize>)
    requires
        start <= s@.len(),
    ensures
        match r {
            Some(i) => find_from(s@, c, start as int) == Some(i as int) && start <= i < s@.len(),
            None => find_from(s@, c, start as int) is None,
        },
{
    let mut i: usize = start;
    while i < s.len()
        invariant
            start <= i <= s@.len(),
            find_from(s@, c, start as int) == find_from(s@, c, i as int),
        decreases s.len() - i,
    {
        if s[i] == c {
            return Some(i);
        }
        i = i + 1;
    }
    None
}

/// Last index below `end` that holds `c`.
pub fn rfind_char(s: &Vec<char>, c: char, end: usize) -> (r: Option<usize>)
    requires
        end <= s@.len(),
    ensures
        match r {
            Some(i) => rfind_before(s@, c, end as int) == Some(i as int) && i < end,
            None => rfind_before(s@, c, end as int) is None,
        },
{
    let mut i: usize = end;
    while i > 0
        invariant
            i <= end <= s@.len(),
            rfind_before(s@, c, end as int) == rfind_before(s@, c, i as int),
        decreases i,
    {
        if s[i - 1] == c {
            return Some(i - 1);
        }
        i = i - 1;
    }
    None
}

/// Whether `s` begins with `p`.
pub fn starts_with(s: &str, p: &str) -> (r: bool)
    ensures
        r == starts_with_seq(s@, p@),
{
    let x = chars_of(s);
    let y = chars_of(p);
    if y.len() > x.len() {
        return false;
    }
    let mut i: usize = 0;
    while i < y.len()
        invariant
            x@ == s@,
            y@ == p@,
            y@.len() <= x@.len(),
            i <= y@.len(),
            forall|j: int| 0 <= j < i ==> x@[j] == y@[j],
        decreases y.len() - i,
    {
        if x[i] != y[i] {
            assert(x@.subrange(0, y@.len() as int)[i as int] != y@[i as int]);
            return false;
        }
        i = i + 1;
    }
    assert(x@.subrange(0, y@.len() as int) =~= y@);
    true
}

/// Whether `pat` occurs in `s`.
pub fn contains(s: &str, pat: &str) -> (r: bool)
    ensures
        r == contains_seq(s@, pat@),
{
    let x = chars_of(s);
    let p = chars_of(pat);
    if p.len() > x.len() {
        assert forall|i: int| 0 <= i && i + p@.len() <= x@.len() implies #[trigger] x@.subrange(i, i + p@.len()) != p@ by {}
        return false;
    }
    let n: usize = x.len();
    let last: usize = n - p.len();
    let mut i: usize = 0;
    while i <= last
        invariant
            x@ == s@,
            p@ == pat@,
            n == x@.len(),
            last == x@.len() - p@.len(),
            p@.len() <= x@.len(),
            forall|k: int| 0 <= k < i ==> #[trigger] x@.subrange(k, k + p@.len()) != p@,
        decreases last + 1 - i,
    {
        let mut j: usize = 0;
        let mut same = true;
        while j < p.len()
            invariant
                x@ == s@,
                p@ == pat@,
                i <= last,
                n == x@.len(),
                last == x@.len() - p@.len(),
                p@.len() <= x@.len(),
                j <= p@.len(),
                same == (forall|t: int| 0 <= t < j ==> x@[i + t] == p@[t]),
            decreases p.len() - j,
        {
            let k: usize = i + j;
            if x[k] != p[j] {
                same = false;
            }
            j = j + 1;
        }
        if same {
            assert(x@.subrange(i as int, i + p@.len()) =~= p@);
            return true;
        }
        assert(x@.subrange(i as int, i + p@.len())[0] == x@[i as int]);
        assert(!(x@.subrange(i as int, i + p@.len()) =~= p@));
        i = i + 1;
    }
    assert forall|k: int| 0 <= k && k + p@.len() <= x@.len() implies #[trigger] x@.subrange(k, k + p@.len()) != p@ by {
        assert(k < i);
    }
    false
}

} // verus!
