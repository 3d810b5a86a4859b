//! Verified helpers on strings, stated over their character sequences.

use vstd::prelude::*;
use vstd::string::*;

verus! {

/// The character sequences of a sequence of strings.
pub open spec fn views(v: Seq<String>) -> Seq<Seq<char>> {
    Seq::new(v.len(), |i: int| v[i]@)
}

/// The character sequence of an optional string.
pub open spec fn opt_view(s: Option<String>) -> Option<Seq<char>> {
    match s {
        Some(t) => Some(t@),
        None => None,
    }
}

/// The character sequence of an optional string slice.
pub open spec fn opt_str_view(s: Option<&str>) -> Option<Seq<char>> {
    match s {
        Some(t) => Some(t@),
        None => None,
    }
}

/// `pat` occurs in `s` starting at index `i`.
pub open spec fn occurs_at(s: Seq<char>, pat: Seq<char>, i: int) -> bool {
    0 <= i && i + pat.len() <= s.len() && s.subrange(i, i + pat.len()) == pat
}

/// `pat` occurs somewhere in `s`.
pub open spec fn occurs_in(s: Seq<char>, pat: Seq<char>) -> bool {
    exists|i: int| occurs_at(s, pat, i)
}

/// The number of characters equal to `c` at the end of `s`.
pub open spec fn trailing_run(s: Seq<char>, c: char) -> nat
    decreases s.len(),
{
    if s.len() > 0 && s.last() == c {
        1 + trailing_run(s.drop_last(), c)
    } else {
        0
    }
}

/// `s` without the characters equal to `c` at its end.
pub open spec fn without_trailing(s: Seq<char>, c: char) -> Seq<char> {
    s.subrange(0, s.len() - trailing_run(s, c))
}

/// A run of `k` trailing characters equal to `c`, preceded by another
/// character or by the start of `s`, is the whole trailing run.
pub proof fn lemma_trailing_run_is(s: Seq<char>, c: char, k: nat)
    requires
        k <= s.len(),
        forall|j: int| s.len() - k <= j < s.len() ==> s[j] == c,
        k < s.len() ==> s[s.len() - k - 1] != c,
    ensures
        trailing_run(s, c) == k,
    decreases s.len(),
{
    if k > 0 {
        lemma_trailing_run_is(s.drop_last(), c, (k - 1) as nat);
    }
}

/// The characters of a string, in order.
pub fn chars_of(s: &str) -> (v: Vec<char>)
    ensures
        v@ == s@,
{
    let mut v: Vec<char> = Vec::new();
    for c in it: s.chars()
        invariant
            v@ == it.seq().take(it.index() as int),
    {
        v.push(c);
    }
    v
}

/// Whether two strings hold the same characters.
pub fn str_eq(a: &str, b: &str) -> (r: bool)
    ensures
        r == (a@ == b@),
{
    let x = chars_of(a);
    let y = chars_of(b);
    chars_eq(&x, &y)
}

/// Whether two character vectors are equal.
pub fn chars_eq(x: &Vec<char>, y: &Vec<char>) -> (r: bool)
    ensures
        r == (x@ == y@),
{
    if x.len() != y.len() {
        return false;
    }
    let mut i: usize = 0;
    while i < x.len()
        invariant
            i <= x.len(),
            x.len() == y.len(),
            x@.take(i as int) == y@.take(i as int),
        decreases x.len() - i,
    {
        if x[i] != y[i] {
            return false;
        }
        i += 1;
        assert(x@.take(i as int) =~= x@.take(i - 1).push(x@[i - 1]));
        assert(y@.take(i as int) =~= y@.take(i - 1).push(y@[i - 1]));
    }
    assert(x@ =~= x@.take(i as int));
    assert(y@ =~= y@.take(i as int));
    true
}

/// Whether `pat` occurs in `s` at index `at`.
pub fn chars_occur_at(s: &Vec<char>, pat: &Vec<char>, at: usize) -> (r: bool)
    ensures
        r == occurs_at(s@, pat@, at as int),
{
    if pat.len() > s.len() || at > s.len() - pat.len() {
        return false;
    }
    let mut j: usize = 0;
    while j < pat.len()
        invariant
            j <= pat.len(),
            at + pat.len() <= s.len(),
            s@.subrange(at as int, at + j) == pat@.take(j as int),
        decreases pat.len() - j,
    {
        if s[at + j] != pat[j] {
            assert(s@.subrange(at as int, at + pat.len())[j as int] != pat@[j as int]);
            return false;
        }
        j += 1;
        assert(s@.subrange(at as int, at + j) =~= s@.subrange(at as int, at + j - 1).push(
            s@[at + j - 1],
        ));
        assert(pat@.take(j as int) =~= pat@.take(j - 1).push(pat@[j - 1]));
    }
    assert(pat@ =~= pat@.take(j as int));
    true
}

/// Whether `s` begins with `prefix`.
pub fn starts_with(s: &str, prefix: &str) -> (r: bool)
    ensures
        r == occurs_at(s@, prefix@, 0),
{
    let x = chars_of(s);
    let p = chars_of(prefix);
    chars_occur_at(&x, &p, 0)
}

/// Whether `pat` occurs in the character vector `s`.
pub fn chars_contain(s: &Vec<char>, pat: &Vec<char>) -> (r: bool)
    ensures
        r == occurs_in(s@, pat@),
{
    if pat.len() > s.len() {
        return false;
    }
    let last: usize = s.len() - pat.len();
    let mut i: usize = 0;
    loop
        invariant
            i <= last,
            last == s.len() - pat.len(),
            forall|k: int| 0 <= k < i ==> !occurs_at(s@, pat@, k),
        decreases last - i,
    {
        if chars_occur_at(s, pat, i) {
            return true;
        }
        if i == last {
            return false;
        }
        i += 1;
    }
}

/// Whether `pat` occurs somewhere in `s`.
pub fn contains(s: &str, pat: &str) -> (r: bool)
    ensures
        r == occurs_in(s@, pat@),
{
    let x = chars_of(s);
    let p = chars_of(pat);
    chars_contain(&x, &p)
}

/// The string `s` without the characters equal to `c` at its end.
pub fn trim_end_matches(s: &str, c: char) -> (r: String)
    ensures
        r@ == without_trailing(s@, c),
{
    let v = chars_of(s);
    let mut n: usize = v.len();
    while n > 0 && v[n - 1] == c
        invariant
            n <= v.len(),
            forall|j: int| n <= j < v.len() ==> v@[j] == c,
        decreases n,
    {
        n -= 1;
    }
    proof {
        lemma_trailing_run_is(v@, c, (v.len() - n) as nat);
    }
    s.substring_char(0, n).to_string()
}

/// The concatenation of two strings.
pub fn concat(a: &str, b: &str) -> (r: String)
    ensures
        r@ == a@ + b@,
{
    a.to_string().concat(b)
}

/// The concatenation of three strings.
pub fn concat3(a: &str, b: &str, c: &str) -> (r: String)
    ensures
        r@ == a@ + b@ + c@,
{
    a.to_string().concat(b).concat(c)
}

/// A copy of a vector of strings.
pub fn clone_strings(v: &Vec<String>) -> (r: Vec<String>)
    ensures
        views(r@) == views(v@),
{
    let mut r: Vec<String> = Vec::new();
    let mut i: usize = 0;
    while i < v.len()
        invariant
            i <= v.len(),
            r.len() == i,
            forall|j: int| 0 <= j < i ==> r@[j]@ == v@[j]@,
        decreases v.len() - i,
    {
        r.push(v[i].clone());
        i += 1;
    }
    assert(views(r@) =~= views(v@));
    r
}

/// An owned copy of an optional string slice.
pub fn opt_to_string(s: Option<&str>) -> (r: Option<String>)
    ensures
        opt_view(r) == opt_str_view(s),
{
    match s {
        Some(t) => Some(t.to_string()),
        None => None,
    }
}

/// A borrowed view of an optional string.
pub fn opt_as_str(s: &Option<String>) -> (r: Option<&str>)
    ensures
        opt_str_view(r) == opt_view(*s),
{
    match s {
        Some(t) => Some(t.as_str()),
        None => None,
    }
}

/// The decimal digit `d` as text.
pub open spec fn digit(d: nat) -> Seq<char> {
    if d == 0 {
        "0"@
    } else if d == 1 {
        "1"@
    } else if d == 2 {
        "2"@
    } else if d == 3 {
        "3"@
    } else if d == 4 {
        "4"@
    } else if d == 5 {
        "5"@
    } else if d == 6 {
        "6"@
    } else if d == 7 {
        "7"@
    } else if d == 8 {
        "8"@
    } else {
        "9"@
    }
}

/// The number `n` in decimal digits, without leading zeros.
pub open spec fn decimal(n: nat) -> Seq<char>
    decreases n,
{
    if n < 10 {
        digit(n)
    } else {
        decimal(n / 10) + digit(n % 10)
    }
}

/// The number `n` in at least two decimal digits.
pub open spec fn two_digits(n: nat) -> Seq<char> {
    if n < 10 {
        "0"@ + decimal(n)
    } else {
        decimal(n)
    }
}

/// The number `n` in at least three decimal digits.
pub open spec fn three_digits(n: nat) -> Seq<char> {
    if n < 100 {
        "0"@ + two_digits(n)
    } else {
        decimal(n)
    }
}

fn digit_str(d: usize) -> (r: &'static str)
    requires
        d < 10,
    ensures
        r@ == digit(d as nat),
{
    if d == 0 {
        "0"
    } else if d == 1 {
        "1"
    } else if d == 2 {
        "2"
    } else if d == 3 {
        "3"
    } else if d == 4 {
        "4"
    } else if d == 5 {
        "5"
    } else if d == 6 {
        "6"
    } else if d == 7 {
        "7"
    } else if d == 8 {
        "8"
    } else {
        "9"
    }
}

/// Writes a number in decimal digits.
pub fn to_decimal(n: usize) -> (r: String)
    ensures
        r@ == decimal(n as nat),
    decreases n,
{
    if n < 10 {
        digit_str(n).to_string()
    } else {
        to_decimal(n / 10).concat(digit_str(n % 10))
    }
}

/// Writes a number in at least two decimal digits.
pub fn to_two_digits(n: usize) -> (r: String)
    ensures
        r@ == two_digits(n as nat),
{
    let digits = to_decimal(n);
    if n < 10 {
        concat("0", digits.as_str())
    } else {
        digits
    }
}

/// Writes a number in at least three decimal digits.
pub fn to_three_digits(n: usize) -> (r: String)
    ensures
        r@ == three_digits(n as nat),
{
    if n < 100 {
        let digits = to_two_digits(n);
        concat("0", digits.as_str())
    } else {
        to_decimal(n)
    }
}

/// `s` without every copy of `pat` that it begins with.
pub open spec fn without_leading(s: Seq<char>, pat: Seq<char>) -> Seq<char>
    decreases s.len(),
{
    if pat.len() > 0 && occurs_at(s, pat, 0) {
        without_leading(s.subrange(pat.len() as int, s.len() as int), pat)
    } else {
        s
    }
}

/// The string `s` without every copy of `pat` that it begins with.
pub fn trim_start_matches(s: &str, pat: &str) -> (r: String)
    ensures
        r@ == without_leading(s@, pat@),
{
    let v = chars_of(s);
    let p = chars_of(pat);
    if p.len() == 0 {
        return s.to_string();
    }
    let mut from: usize = 0;
    assert(v@.subrange(0, v.len() as int) =~= s@);
    while chars_occur_at(&v, &p, from)
        invariant
            from <= v.len(),
            p.len() > 0,
            v@ == s@,
            p@ == pat@,
            without_leading(s@, pat@) == without_leading(
                v@.subrange(from as int, v.len() as int),
                p@,
            ),
        decreases v.len() - from,
    {
        let ghost rest = v@.subrange(from as int, v.len() as int);
        assert(rest.subrange(0, p.len() as int) =~= v@.subrange(from as int, from + p.len()));
        assert(rest.subrange(p.len() as int, rest.len() as int) =~= v@.subrange(
            from + p.len(),
            v.len() as int,
        ));
        from += p.len();
    }
    proof {
        let rest = v@.subrange(from as int, v.len() as int);
        if occurs_at(rest, p@, 0) {
            assert(rest.subrange(0, p.len() as int) =~= v@.subrange(from as int, from + p.len()));
        }
    }
    s.substring_char(from, v.len()).to_string()
}

/// The index of the first copy of `pat` in `s` at or after `from`, or -1
/// where there is none.
pub open spec fn first_occurrence(s: Seq<char>, pat: Seq<char>, from: int) -> int
    decreases s.len() - from,
{
    if from < 0 || from + pat.len() > s.len() {
        -1
    } else if occurs_at(s, pat, from) {
        from
    } else if from + pat.len() == s.len() {
        -1
    } else {
        first_occurrence(s, pat, from + 1)
    }
}

/// `s` without the first copy of `pat` in it.
pub open spec fn without_first(s: Seq<char>, pat: Seq<char>) -> Seq<char> {
    let at = first_occurrence(s, pat, 0);
    if at < 0 {
        s
    } else {
        s.subrange(0, at) + s.subrange(at + pat.len(), s.len() as int)
    }
}

/// The string `s` without the first copy of `pat` in it.
pub fn remove_first(s: &str, pat: &str) -> (r: String)
    ensures
        r@ == without_first(s@, pat@),
{
    let v = chars_of(s);
    let p = chars_of(pat);
    if p.len() > v.len() {
        return s.to_string();
    }
    let last: usize = v.len() - p.len();
    let mut i: usize = 0;
    loop
        invariant
            i <= last,
            last == v.len() - p.len(),
            v@ == s@,
            p@ == pat@,
            first_occurrence(s@, pat@, 0) == first_occurrence(s@, pat@, i as int),
        decreases last - i,
    {
        if chars_occur_at(&v, &p, i) {
            return concat(s.substring_char(0, i), s.substring_char(i + p.len(), v.len()));
        }
        if i == last {
            return s.to_string();
        }
        i += 1;
    }
}

/// The pieces of `s` between the copies of `sep`, in order; a text with
/// `n` copies of `sep` has `n + 1` pieces, empty ones among them.
pub open spec fn split(s: Seq<char>, sep: char) -> Seq<Seq<char>>
    decreases s.len(),
{
    if s.len() == 0 {
        seq![Seq::empty()]
    } else {
        let before = split(s.drop_last(), sep);
        if s.last() == sep {
            before.push(Seq::empty())
        } else {
            before.drop_last().push(before.last().push(s.last()))
        }
    }
}

/// The pieces of `s` have at least one member.
pub proof fn lemma_split_nonempty(s: Seq<char>, sep: char)
    ensures
        split(s, sep).len() > 0,
    decreases s.len(),
{
    if s.len() > 0 {
        lemma_split_nonempty(s.drop_last(), sep);
    }
}

/// Splits a string at every copy of `sep`.
pub fn split_at_char(s: &str, sep: char) -> (r: Vec<String>)
    ensures
        views(r@) == split(s@, sep),
{
    let v = chars_of(s);
    let mut done: Vec<String> = Vec::new();
    let mut start: usize = 0;
    let mut i: usize = 0;
    assert(v@.take(0) =~= Seq::empty());
    assert(views(done@).push(v@.subrange(0, 0)) =~= seq![Seq::<char>::empty()]);
    while i < v.len()
        invariant
            start <= i <= v.len(),
            v@ == s@,
            views(done@).push(v@.subrange(start as int, i as int)) == split(v@.take(i as int), sep),
        decreases v.len() - i,
    {
        let ghost before = split(v@.take(i as int), sep);
        let ghost old_done = views(done@);
        assert(v@.take(i + 1).drop_last() =~= v@.take(i as int));
        if v[i] == sep {
            let ghost piece = v@.subrange(start as int, i as int);
            done.push(s.substring_char(start, i).to_string());
            start = i + 1;
            assert(views(done@) =~= old_done.push(piece));
            assert(views(done@) =~= before);
            assert(v@.subrange(start as int, i + 1) =~= Seq::<char>::empty());
        } else {
            assert(before.drop_last() =~= old_done);
            assert(before.last().push(v@[i as int]) =~= v@.subrange(start as int, i + 1));
        }
        i += 1;
    }
    assert(v@.take(i as int) =~= v@);
    done.push(s.substring_char(start, i).to_string());
    assert(views(done@) =~= split(s@, sep));
    done
}

/// `s` without the white space at its start and at its end, as
/// `str::trim` removes it.
pub uninterp spec fn trimmed(s: Seq<char>) -> Seq<char>;

/// Calls `str::trim` and copies the slice that it returns.
///
/// Trusted: the contract only names what the standard library computes
/// from the text.
#[verifier::external_body]
pub(crate) fn trim(s: &str) -> (r: String)
    ensures
        r@ == trimmed(s@),
{
    s.trim().to_string()
}

} // verus!
