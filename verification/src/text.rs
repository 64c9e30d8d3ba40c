use vstd::prelude::*;

verus! {

/// The characters with the Unicode `White_Space` property, as
/// `char::is_whitespace` defines them.
pub open spec fn is_whitespace_spec(c: char) -> bool {
    let v = c as u32;
    ||| v == 0x20
    ||| 0x09 <= v <= 0x0d
    ||| v == 0x85
    ||| v == 0xa0
    ||| v == 0x1680
    ||| 0x2000 <= v <= 0x200a
    ||| v == 0x2028
    ||| v == 0x2029
    ||| v == 0x202f
    ||| v == 0x205f
    ||| v == 0x3000
}

/// Whether `c` is a whitespace character.
pub fn is_whitespace(c: char) -> (r: bool)
    ensures
        r == is_whitespace_spec(c),
{
    let v = c as u32;
    v == 0x20 || (0x09 <= v && v <= 0x0d) || v == 0x85 || v == 0xa0 || v == 0x1680 || (0x2000
        <= v && v <= 0x200a) || v == 0x2028 || v == 0x2029 || v == 0x202f || v == 0x205f || v
        == 0x3000
}

/// Number of whitespace characters that open `s`.
pub open spec fn leading_ws(s: Seq<char>) -> nat
    decreases s.len(),
{
    if s.len() > 0 && is_whitespace_spec(s[0]) {
        1 + leading_ws(s.drop_first())
    } else {
        0
    }
}

/// Number of whitespace characters that close `s`.
pub open spec fn trailing_ws(s: Seq<char>) -> nat
    decreases s.len(),
{
    if s.len() > 0 && is_whitespace_spec(s.last()) {
        1 + trailing_ws(s.drop_last())
    } else {
        0
    }
}

/// `s` without its leading and trailing whitespace.
pub open spec fn trim_spec(s: Seq<char>) -> Seq<char> {
    let lead = leading_ws(s);
    let rest = s.subrange(lead as int, s.len() as int);
    rest.subrange(0, rest.len() - trailing_ws(rest))
}

proof fn lemma_leading_ws_bound(s: Seq<char>)
    ensures
        leading_ws(s) <= s.len(),
    decreases s.len(),
{
    if s.len() > 0 && is_whitespace_spec(s[0]) {
        lemma_leading_ws_bound(s.drop_first());
    }
}

proof fn lemma_trailing_ws_bound(s: Seq<char>)
    ensures
        trailing_ws(s) <= s.len(),
    decreases s.len(),
{
    if s.len() > 0 && is_whitespace_spec(s.last()) {
        lemma_trailing_ws_bound(s.drop_last());
    }
}

/// The trimmed text is empty exactly when every character is whitespace.
pub proof fn lemma_trim_empty(s: Seq<char>)
    ensures
        trim_spec(s).len() == 0 <==> (forall|i: int| 0 <= i < s.len() ==> is_whitespace_spec(s[i])),
{
    lemma_leading_all(s);
    lemma_leading_ws_bound(s);
    let rest = s.subrange(leading_ws(s) as int, s.len() as int);
    lemma_trailing_ws_bound(rest);
    if leading_ws(s) < s.len() {
        lemma_leading_stop(s);
        assert(rest[0] == s[leading_ws(s) as int]);
        lemma_trailing_keeps_first(rest);
    }
}

proof fn lemma_leading_all(s: Seq<char>)
    ensures
        forall|i: int| 0 <= i < leading_ws(s) ==> is_whitespace_spec(s[i]),
        leading_ws(s) == s.len() ==> (forall|i: int| 0 <= i < s.len() ==> is_whitespace_spec(s[i])),
    decreases s.len(),
{
    lemma_leading_ws_bound(s);
    if s.len() > 0 && is_whitespace_spec(s[0]) {
        let t = s.drop_first();
        lemma_leading_all(t);
        assert forall|i: int| 0 <= i < leading_ws(s) implies is_whitespace_spec(s[i]) by {
            if i > 0 {
                assert(s[i] == t[i - 1]);
            }
        }
    }
}

proof fn lemma_leading_stop(s: Seq<char>)
    requires
        leading_ws(s) < s.len(),
    ensures
        !is_whitespace_spec(s[leading_ws(s) as int]),
    decreases s.len(),
{
    if s.len() > 0 && is_whitespace_spec(s[0]) {
        let t = s.drop_first();
        lemma_leading_stop(t);
        assert(s[leading_ws(s) as int] == t[leading_ws(t) as int]);
    }
}

proof fn lemma_trailing_keeps_first(s: Seq<char>)
    requires
        s.len() > 0,
        !is_whitespace_spec(s[0]),
    ensures
        trailing_ws(s) < s.len(),
    decreases s.len(),
{
    if is_whitespace_spec(s.last()) {
        if s.len() == 1 {
            assert(s.last() == s[0]);
        } else {
            let t = s.drop_last();
            assert(t[0] == s[0]);
            lemma_trailing_keeps_first(t);
        }
    }
}

/// `s` without its leading and trailing whitespace, as `str::trim` gives it.
pub fn trim(s: &str) -> (r: &str)
    ensures
        r@ == trim_spec(s@),
{
    let n = s.unicode_len();
    let ghost full = s@;
    let mut i: usize = 0;
    proof {
        assert(full.subrange(0, n as int) =~= full);
    }
    while i < n && is_whitespace(s.get_char(i))
        invariant
            n == full.len(),
            s@ == full,
            i <= n,
            leading_ws(full) == i + leading_ws(full.subrange(i as int, n as int)),
        decreases n - i,
    {
        proof {
            let t = full.subrange(i as int, n as int);
            assert(t.drop_first() =~= full.subrange(i + 1, n as int));
        }
        i = i + 1;
    }
    let ghost rest = full.subrange(i as int, n as int);
    proof {
        if i < n {
            assert(rest[0] == full[i as int]);
        }
        assert(leading_ws(rest) == 0);
    }
    let mut j: usize = n;
    proof {
        assert(rest.subrange(0, (j - i) as int) =~= rest);
    }
    while j > i && is_whitespace(s.get_char(j - 1))
        invariant
            n == full.len(),
            s@ == full,
            i <= j <= n,
            rest == full.subrange(i as int, n as int),
            trailing_ws(rest) == (n - j) + trailing_ws(rest.subrange(0, (j - i) as int)),
        decreases j,
    {
        proof {
            let t = rest.subrange(0, (j - i) as int);
            assert(t.last() == full[j - 1]);
            assert(t.drop_last() =~= rest.subrange(0, (j - 1 - i) as int));
        }
        j = j - 1;
    }
    proof {
        let t = rest.subrange(0, (j - i) as int);
        if j > i {
            assert(t.last() == full[j - 1]);
        }
        assert(trailing_ws(t) == 0);
        assert(rest.subrange(0, rest.len() - trailing_ws(rest)) =~= full.subrange(i as int, j as int));
    }
    s.substring_char(i, j)
}

/// Whether the text of `a` equals that of `b`.
pub fn str_eq(a: &str, b: &str) -> (r: bool)
    ensures
        r == (a@ == b@),
{
    let x = a.to_owned();
    let y = b.to_owned();
    x == y
}

/// Whether `s` opens with `prefix`.
pub open spec fn starts_with_spec(s: Seq<char>, prefix: Seq<char>) -> bool {
    prefix.len() <= s.len() && s.subrange(0, prefix.len() as int) == prefix
}

/// Whether `s` opens with `prefix`, as `str::starts_with` gives it.
pub fn starts_with(s: &str, prefix: &str) -> (r: bool)
    ensures
        r == starts_with_spec(s@, prefix@),
{
    let n = s.unicode_len();
    let m = prefix.unicode_len();
    if m > n {
        return false;
    }
    let mut k: usize = 0;
    while k < m
        invariant
            n == s@.len(),
            m == prefix@.len(),
            m <= n,
            k <= m,
            forall|t: int| 0 <= t < k ==> s@[t] == prefix@[t],
        decreases m - k,
    {
        if s.get_char(k) != prefix.get_char(k) {
            proof {
                assert(s@.subrange(0, m as int)[k as int] != prefix@[k as int]);
            }
            return false;
        }
        k = k + 1;
    }
    proof {
        assert(s@.subrange(0, m as int) =~= prefix@);
    }
    true
}

/// `s` with every leading repetition of `prefix` removed, as
/// `str::trim_start_matches` gives it (an empty prefix removes nothing).
pub open spec fn strip_repeated_spec(s: Seq<char>, prefix: Seq<char>) -> Seq<char>
    decreases s.len(),
{
    if prefix.len() > 0 && starts_with_spec(s, prefix) {
        strip_repeated_spec(s.subrange(prefix.len() as int, s.len() as int), prefix)
    } else {
        s
    }
}

/// `s` with every leading repetition of `prefix` removed.
pub fn strip_repeated<'a>(s: &'a str, prefix: &str) -> (r: &'a str)
    ensures
        r@ == strip_repeated_spec(s@, prefix@),
{
    if prefix.is_empty() {
        return s;
    }
    let mut cur = s;
    while starts_with(cur, prefix)
        invariant
            prefix@.len() > 0,
            strip_repeated_spec(s@, prefix@) == strip_repeated_spec(cur@, prefix@),
        decreases cur@.len(),
    {
        let n = cur.unicode_len();
        let m = prefix.unicode_len();
        cur = cur.substring_char(m, n);
    }
    cur
}

/// Appends one character to `s`.
///
/// Calls `String::push`, which puts `c` at the end of the text.
#[verifier::external_body]
pub fn push_char(s: &mut String, c: char)
    ensures
        final(s)@ == old(s)@.push(c),
{
    s.push(c);
}

/// The decimal digit character of `d`.
pub open spec fn digit_char(d: nat) -> char {
    if d == 0 { '0' }
    else if d == 1 { '1' }
    else if d == 2 { '2' }
    else if d == 3 { '3' }
    else if d == 4 { '4' }
    else if d == 5 { '5' }
    else if d == 6 { '6' }
    else if d == 7 { '7' }
    else if d == 8 { '8' }
    else { '9' }
}

/// The decimal notation of `n`, without sign or leading zeros.
pub open spec fn decimal_spec(n: nat) -> Seq<char>
    decreases n,
{
    if n < 10 {
        seq![digit_char(n)]
    } else {
        decimal_spec(n / 10).push(digit_char(n % 10))
    }
}

fn digit(d: u64) -> (c: char)
    requires
        d < 10,
    ensures
        c == digit_char(d as nat),
{
    if d == 0 { '0' }
    else if d == 1 { '1' }
    else if d == 2 { '2' }
    else if d == 3 { '3' }
    else if d == 4 { '4' }
    else if d == 5 { '5' }
    else if d == 6 { '6' }
    else if d == 7 { '7' }
    else if d == 8 { '8' }
    else { '9' }
}

/// Appends the decimal notation of `n` to `s`, as `format!("{n}")` writes it.
pub fn push_decimal(s: &mut String, n: u64)
    ensures
        final(s)@ == old(s)@ + decimal_spec(n as nat),
    decreases n,
{
    if n >= 10 {
        push_decimal(s, n / 10);
    }
    push_char(s, digit(n % 10));
    proof {
        if n >= 10 {
            assert(old(s)@ + decimal_spec(n as nat) =~= old(s)@ + decimal_spec((n / 10) as nat)
                + seq![digit_char((n % 10) as nat)]);
        } else {
            assert(n % 10 == n);
        }
    }
}

} // verus!
