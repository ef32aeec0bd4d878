//! Character-level text utilities shared by the topic, flow and
//! provisioning code: splitting on a separator, literal comparison,
//! pattern replacement and decimal rendering.
use vstd::prelude::*;

verus! {

/// The segments of `s` separated by `sep`, as `str::split` yields them:
/// always at least one segment, empty segments kept.
pub open spec fn split(s: Seq<char>, sep: char) -> Seq<Seq<char>>
    decreases s.len(),
{
    if s.len() == 0 {
        seq![Seq::<char>::empty()]
    } else {
        let init = split(s.drop_last(), sep);
        if s.last() == sep {
            init.push(Seq::<char>::empty())
        } else {
            init.update(init.len() - 1, init.last().push(s.last()))
        }
    }
}

/// `split` never yields an empty list of segments.
pub proof fn lemma_split_nonempty(s: Seq<char>, sep: char)
    ensures
        split(s, sep).len() >= 1,
    decreases s.len(),
{
    if s.len() > 0 {
        lemma_split_nonempty(s.drop_last(), sep);
    }
}

/// Appending a character to a text leaves every segment but the last
/// one unchanged, and either extends the last one or opens a new one.
pub proof fn lemma_split_step(s: Seq<char>, sep: char, i: int)
    requires
        0 <= i < s.len(),
    ensures
        split(s.take(i + 1), sep) == (if s[i] == sep {
            split(s.take(i), sep).push(Seq::<char>::empty())
        } else {
            split(s.take(i), sep).update(
                split(s.take(i), sep).len() - 1,
                split(s.take(i), sep).last().push(s[i]),
            )
        }),
{
    assert(s.take(i + 1).drop_last() =~= s.take(i));
    lemma_split_nonempty(s.take(i), sep);
}

/// Appends one character to a string (`String::push`).
#[verifier::external_body]
pub fn push_char(s: &mut String, c: char)
    ensures
        final(s)@ == old(s)@.push(c),
{
    s.push(c);
}

/// The characters of `s`, in order.
pub fn chars_of(s: &str) -> (res: Vec<char>)
    ensures
        res@ == s@,
{
    let mut res: Vec<char> = Vec::new();
    for c in it: s.chars()
        invariant
            res@ == it.seq().take(it.index() as int),
    {
        res.push(c);
    }
    res
}

/// A string holding exactly the given characters.
pub fn string_from_chars(chars: &[char]) -> (res: String)
    ensures
        res@ == chars@,
{
    let mut res = String::new();
    let n = chars.len();
    for i in 0..n
        invariant
            n == chars@.len(),
            res@ == chars@.take(i as int),
    {
        push_char(&mut res, chars[i]);
        assert(chars@.take(i + 1) =~= chars@.take(i as int).push(chars@[i as int]));
    }
    assert(chars@.take(n as int) =~= chars@);
    res
}

/// Whether two character sequences are equal.
pub fn chars_eq(a: &[char], b: &[char]) -> (res: bool)
    ensures
        res == (a@ == b@),
{
    if a.len() != b.len() {
        return false;
    }
    let n = a.len();
    for i in 0..n
        invariant
            n == a@.len(),
            n == b@.len(),
            forall|j: int| 0 <= j < i ==> a@[j] == b@[j],
    {
        if a[i] != b[i] {
            return false;
        }
    }
    assert(a@ =~= b@);
    true
}

/// Whether the characters `a` spell the text `b`.
pub fn text_eq(a: &[char], b: &str) -> (res: bool)
    ensures
        res == (a@ == b@),
{
    let bc = chars_of(b);
    chars_eq(a, bc.as_slice())
}

/// The segments of `s` separated by `sep` (`s.split(sep)`).
pub fn split_chars(s: &str, sep: char) -> (res: Vec<Vec<char>>)
    ensures
        res@.len() == split(s@, sep).len(),
        forall|k: int| 0 <= k < res@.len() ==> #[trigger] res@[k]@ == split(s@, sep)[k],
{
    let chars = chars_of(s);
    let n = chars.len();
    let mut done: Vec<Vec<char>> = Vec::new();
    let mut cur: Vec<char> = Vec::new();
    for i in 0..n
        invariant
            n == s@.len(),
            chars@ == s@,
            done@.len() + 1 == split(s@.take(i as int), sep).len(),
            forall|k: int|
                0 <= k < done@.len() ==> #[trigger] done@[k]@ == split(s@.take(i as int), sep)[k],
            cur@ == split(s@.take(i as int), sep).last(),
    {
        proof {
            lemma_split_step(s@, sep, i as int);
        }
        let c = chars[i];
        if c == sep {
            let finished = cur;
            done.push(finished);
            cur = Vec::new();
        } else {
            cur.push(c);
        }
    }
    assert(s@.take(n as int) =~= s@);
    done.push(cur);
    done
}

/// The `k`-th segment of `s` separated by `sep`, if there is one
/// (`s.split(sep).nth(k)`).
pub fn nth_segment(s: &str, sep: char, k: usize) -> (res: Option<&str>)
    ensures
        res is Some <==> k < split(s@, sep).len(),
        res matches Some(seg) ==> seg@ == split(s@, sep)[k as int],
{
    let chars = chars_of(s);
    let n = chars.len();
    let mut count: usize = 0;
    let mut start: usize = 0;
    let mut found: Option<(usize, usize)> = None;
    for i in 0..n
        invariant
            n == s@.len(),
            chars@ == s@,
            count + 1 == split(s@.take(i as int), sep).len(),
            count <= i,
            start <= i,
            split(s@.take(i as int), sep)[count as int] == s@.subrange(start as int, i as int),
            found is Some <==> k < count,
            found matches Some(ab) ==> ab.0 <= ab.1 <= i && split(s@.take(i as int), sep)[k as int]
                == s@.subrange(ab.0 as int, ab.1 as int),
    {
        proof {
            lemma_split_step(s@, sep, i as int);
            assert(s@.subrange(start as int, i + 1) =~= s@.subrange(start as int, i as int).push(
                s@[i as int],
            ));
            assert(s@.subrange(i + 1, i + 1) =~= Seq::<char>::empty());
        }
        if chars[i] == sep {
            if count == k {
                found = Some((start, i));
            }
            count = count + 1;
            start = i + 1;
        }
    }
    assert(s@.take(n as int) =~= s@);
    if count == k {
        Some(s.substring_char(start, n))
    } else {
        match found {
            Some((a, b)) => Some(s.substring_char(a, b)),
            None => None,
        }
    }
}

/// The decimal digit for `d < 10`.
pub open spec fn digit_char(d: nat) -> char {
    (('0' as u8) + d) as char
}

/// The decimal rendering of `n`, as `Display` for integers writes it.
pub open spec fn decimal(n: nat) -> Seq<char>
    decreases n,
{
    if n < 10 {
        seq![digit_char(n)]
    } else {
        decimal(n / 10).push(digit_char(n % 10))
    }
}

fn digit(d: usize) -> (c: char)
    requires
        d < 10,
    ensures
        c == digit_char(d as nat),
{
    let b: u8 = (d as u8) + 48u8;
    b as char
}

/// The decimal rendering of `n`.
pub fn usize_to_decimal(n: usize) -> (res: String)
    ensures
        res@ == decimal(n as nat),
    decreases n,
{
    if n < 10 {
        let mut res = String::new();
        push_char(&mut res, digit(n));
        assert(res@ =~= seq![digit_char(n as nat)]);
        res
    } else {
        let mut res = usize_to_decimal(n / 10);
        push_char(&mut res, digit(n % 10));
        res
    }
}

/// `s` with every match of the non-empty `pat`, taken from left to right
/// without overlap, replaced by `rep` (`str::replace`).
pub open spec fn replace_all(s: Seq<char>, pat: Seq<char>, rep: Seq<char>) -> Seq<char>
    decreases s.len(),
{
    if pat.len() == 0 || s.len() == 0 {
        s
    } else if pat.len() <= s.len() && s.take(pat.len() as int) == pat {
        rep + replace_all(s.skip(pat.len() as int), pat, rep)
    } else {
        seq![s[0]] + replace_all(s.skip(1), pat, rep)
    }
}

/// Whether `pat` occurs in `s` at position `i`.
fn matches_at(s: &[char], i: usize, pat: &[char]) -> (res: bool)
    requires
        i <= s@.len(),
    ensures
        res == (pat@.len() <= s@.len() - i && s@.skip(i as int).take(pat@.len() as int) == pat@),
{
    let p = pat.len();
    let len = s.len();
    if p > len - i {
        return false;
    }
    for j in 0..p
        invariant
            p == pat@.len(),
            len == s@.len(),
            i <= s@.len(),
            p <= s@.len() - i,
            forall|m: int| 0 <= m < j ==> s@[i + m] == pat@[m],
    {
        if s[i + j] != pat[j] {
            assert(s@.skip(i as int).take(p as int)[j as int] == s@[i + j]);
            return false;
        }
    }
    assert(s@.skip(i as int).take(p as int) =~= pat@);
    true
}

/// `s` with every match of the non-empty `pat` replaced by `rep`.
pub fn replace_chars(s: &[char], pat: &[char], rep: &[char]) -> (res: Vec<char>)
    requires
        pat@.len() > 0,
    ensures
        res@ == replace_all(s@, pat@, rep@),
{
    let n = s.len();
    let mut out: Vec<char> = Vec::new();
    let mut i: usize = 0;
    assert(s@.skip(0) =~= s@);
    assert(out@ + replace_all(s@, pat@, rep@) =~= replace_all(s@, pat@, rep@));
    while i < n
        invariant
            n == s@.len(),
            i <= n,
            pat@.len() > 0,
            out@ + replace_all(s@.skip(i as int), pat@, rep@) == replace_all(s@, pat@, rep@),
        decreases n - i,
    {
        let rest = Ghost(s@.skip(i as int));
        if matches_at(s, i, pat) {
            assert(rest@.skip(pat@.len() as int) =~= s@.skip(i + pat@.len()));
            assert(out@ + replace_all(rest@, pat@, rep@) == out@ + rep@ + replace_all(
                s@.skip(i + pat@.len()),
                pat@,
                rep@,
            ));
            let m = rep.len();
            for j in 0..m
                invariant
                    m == rep@.len(),
                    out@ + rep@.skip(j as int) + replace_all(
                        s@.skip(i + pat@.len()),
                        pat@,
                        rep@,
                    ) == replace_all(s@, pat@, rep@),
            {
                let ghost prev = out@;
                out.push(rep[j]);
                assert(rep@.skip(j as int) =~= seq![rep@[j as int]] + rep@.skip(j + 1));
                assert(out@ + rep@.skip(j + 1) =~= prev + rep@.skip(j as int));
            }
            assert(rep@.skip(m as int) =~= Seq::<char>::empty());
            i = i + pat.len();
        } else {
            assert(rest@.skip(1) =~= s@.skip(i + 1));
            assert(rest@[0] == s@[i as int]);
            out.push(s[i]);
            i = i + 1;
        }
    }
    assert(s@.skip(n as int) =~= Seq::<char>::empty());
    out
}

} // verus!
