//! Character-level string helpers shared by the compiler, the threshold
//! evaluator and the change-feed decoder.

use vstd::prelude::*;
use vstd::string::StrSliceExecFns;
use vstd::string::StringExecFns;

verus! {

/// The pieces of `s` between occurrences of `sep`, in the way `str::split`
/// yields them: always at least one piece, empty pieces kept.
pub open spec fn split_on(s: Seq<char>, sep: char) -> Seq<Seq<char>>
    decreases s.len(),
{
    if s.len() == 0 {
        seq![Seq::<char>::empty()]
    } else {
        let head = split_on(s.drop_last(), sep);
        if s.last() == sep {
            head.push(Seq::<char>::empty())
        } else {
            head.update(head.len() - 1, head.last().push(s.last()))
        }
    }
}

pub proof fn lemma_split_nonempty(s: Seq<char>, sep: char)
    ensures
        split_on(s, sep).len() >= 1,
    decreases s.len(),
{
    if s.len() > 0 {
        lemma_split_nonempty(s.drop_last(), sep);
    }
}

/// `needle` occurs in `hay` starting at index `i`.
pub open spec fn occurs_at(hay: Seq<char>, needle: Seq<char>, i: int) -> bool {
    0 <= i && i + needle.len() <= hay.len() && hay.subrange(i, i + needle.len()) == needle
}

/// `needle` is a substring of `hay`.
pub open spec fn contains(hay: Seq<char>, needle: Seq<char>) -> bool {
    exists|i: int| occurs_at(hay, needle, i)
}

/// `s` with every occurrence of `pat`, found left to right without overlap,
/// replaced by `with`.
pub open spec fn replace_all(s: Seq<char>, pat: Seq<char>, with: Seq<char>) -> Seq<char>
    decreases s.len(),
{
    if pat.len() == 0 || s.len() < pat.len() {
        s
    } else if s.subrange(0, pat.len() as int) == pat {
        with + replace_all(s.subrange(pat.len() as int, s.len() as int), pat, with)
    } else {
        seq![s[0]] + replace_all(s.subrange(1, s.len() as int), pat, with)
    }
}

/// The characters of `s`.
pub fn chars_of(s: &str) -> (v: Vec<char>)
    ensures
        v@ == s@,
{
    let n = s.unicode_len();
    let mut v: Vec<char> = Vec::new();
    let mut i: usize = 0;
    while i < n
        invariant
            n == s@.len(),
            i <= n,
            v@ == s@.subrange(0, i as int),
        decreases n - i,
    {
        v.push(s.get_char(i));
        i = i + 1;
        assert(v@ =~= s@.subrange(0, i as int));
    }
    assert(v@ =~= s@);
    v
}

/// Whether `needle` occurs in `hay` at index `i`.
pub fn occurs_at_exec(hay: &Vec<char>, needle: &Vec<char>, i: usize) -> (r: bool)
    ensures
        r == occurs_at(hay@, needle@, i as int),
{
    if i > hay.len() || needle.len() > hay.len() - i {
        return false;
    }
    let hl = hay.len();
    let mut j: usize = 0;
    while j < needle.len()
        invariant
            hl == hay@.len(),
            i + needle@.len() <= hay@.len(),
            j <= needle@.len(),
            forall|k: int| 0 <= k < j ==> hay@[i + k] == needle@[k],
        decreases needle@.len() - j,
    {
        if hay[i + j] != needle[j] {
            assert(hay@.subrange(i as int, i + needle@.len())[j as int] != needle@[j as int]);
            return false;
        }
        j = j + 1;
    }
    assert(hay@.subrange(i as int, i + needle@.len()) =~= needle@);
    true
}

/// Whether `needle` is a substring of `hay`.
pub fn contains_exec(hay: &Vec<char>, needle: &Vec<char>) -> (r: bool)
    ensures
        r == contains(hay@, needle@),
{
    if needle.len() > hay.len() {
        assert forall|i: int| !occurs_at(hay@, needle@, i) by {}
        return false;
    }
    let last = hay.len() - needle.len();
    let mut i: usize = 0;
    loop
        invariant
            last == hay@.len() - needle@.len(),
            i <= last,
            forall|k: int| 0 <= k < i ==> !occurs_at(hay@, needle@, k),
        ensures
            forall|k: int| 0 <= k <= last ==> !occurs_at(hay@, needle@, k),
        decreases last - i,
    {
        if occurs_at_exec(hay, needle, i) {
            return true;
        }
        if i == last {
            break;
        }
        i = i + 1;
    }
    false
}

/// Whether the characters `chars[start..end]` spell `word`.
pub fn span_is(chars: &Vec<char>, start: usize, end: usize, word: &str) -> (r: bool)
    requires
        start <= end <= chars@.len(),
    ensures
        r == (chars@.subrange(start as int, end as int) == word@),
{
    let w = chars_of(word);
    if w.len() != end - start {
        return false;
    }
    let mut j: usize = 0;
    while j < w.len()
        invariant
            start <= end <= chars@.len(),
            w@ == word@,
            w@.len() == end - start,
            j <= w@.len(),
            forall|k: int| 0 <= k < j ==> chars@[start + k] == w@[k],
        decreases w@.len() - j,
    {
        if chars[start + j] != w[j] {
            assert(chars@.subrange(start as int, end as int)[j as int] != w@[j as int]);
            return false;
        }
        j = j + 1;
    }
    assert(chars@.subrange(start as int, end as int) =~= w@);
    true
}

/// Whether `a` and `b` hold the same characters.
pub fn str_eq(a: &str, b: &str) -> (r: bool)
    ensures
        r == (a@ == b@),
{
    let chars = chars_of(a);
    let n = chars.len();
    assert(chars@.subrange(0, n as int) =~= chars@);
    span_is(&chars, 0, n, b)
}

/// Bounds `(start, end)` of the pieces of `chars[from..to]` between
/// occurrences of `sep`.
pub fn split_spans(chars: &Vec<char>, from: usize, to: usize, sep: char) -> (spans: Vec<
    (usize, usize),
>)
    requires
        from <= to <= chars@.len(),
    ensures
        spans@.len() == split_on(chars@.subrange(from as int, to as int), sep).len(),
        forall|k: int|
            #![trigger spans@[k]]
            0 <= k < spans@.len() ==> from <= spans@[k].0 <= spans@[k].1 <= to
                && chars@.subrange(spans@[k].0 as int, spans@[k].1 as int) == split_on(
                chars@.subrange(from as int, to as int),
                sep,
            )[k],
{
    let mut spans: Vec<(usize, usize)> = Vec::new();
    let mut cur: usize = from;
    let mut i: usize = from;
    assert(chars@.subrange(from as int, from as int) =~= Seq::<char>::empty());
    while i < to
        invariant
            from <= cur <= i <= to <= chars@.len(),
            split_on(chars@.subrange(from as int, i as int), sep).len() == spans@.len() + 1,
            split_on(chars@.subrange(from as int, i as int), sep).last() == chars@.subrange(
                cur as int,
                i as int,
            ),
            forall|k: int|
                #![trigger spans@[k]]
                0 <= k < spans@.len() ==> from <= spans@[k].0 <= spans@[k].1 <= i
                    && chars@.subrange(spans@[k].0 as int, spans@[k].1 as int) == split_on(
                    chars@.subrange(from as int, i as int),
                    sep,
                )[k],
        decreases to - i,
    {
        let ghost before = chars@.subrange(from as int, i as int);
        let ghost after = chars@.subrange(from as int, i + 1);
        assert(after.drop_last() =~= before);
        assert(after.last() == chars@[i as int]);
        proof {
            lemma_split_nonempty(before, sep);
        }
        if chars[i] == sep {
            spans.push((cur, i));
            cur = i + 1;
            assert(chars@.subrange(cur as int, i + 1) =~= Seq::<char>::empty());
        } else {
            assert(chars@.subrange(cur as int, i + 1) =~= chars@.subrange(cur as int, i as int).push(
                chars@[i as int],
            ));
        }
        i = i + 1;
    }
    spans.push((cur, to));
    spans
}

/// `s` with every occurrence of `pat` replaced by `with`, as `str::replace`
/// does it.
pub fn replace_all_exec(s: &str, pat: &str, with: &str) -> (r: String)
    requires
        pat@.len() > 0,
    ensures
        r@ == replace_all(s@, pat@, with@),
{
    let chars = chars_of(s);
    let p = chars_of(pat);
    let n = chars.len();
    let mut out = String::new();
    let mut run: usize = 0;
    let mut i: usize = 0;
    assert(s@.subrange(0, n as int) =~= s@);
    assert(out@ + s@.subrange(0, 0) =~= Seq::<char>::empty());
    assert(Seq::<char>::empty() + replace_all(s@, pat@, with@) =~= replace_all(s@, pat@, with@));
    while i < n
        invariant
            chars@ == s@,
            p@ == pat@,
            p@.len() > 0,
            n == s@.len(),
            run <= i <= n,
            out@ + s@.subrange(run as int, i as int) + replace_all(
                s@.subrange(i as int, n as int),
                pat@,
                with@,
            ) == replace_all(s@, pat@, with@),
        decreases n - i,
    {
        let ghost rest = s@.subrange(i as int, n as int);
        if occurs_at_exec(&chars, &p, i) {
            assert(rest.subrange(0, p@.len() as int) =~= s@.subrange(i as int, i + p@.len()));
            assert(rest.subrange(p@.len() as int, rest.len() as int) =~= s@.subrange(
                i + p@.len(),
                n as int,
            ));
            let piece = s.substring_char(run, i);
            out.append(piece);
            out.append(with);
            i = i + p.len();
            run = i;
            assert(s@.subrange(run as int, i as int) =~= Seq::<char>::empty());
            assert(out@ + s@.subrange(run as int, i as int) + replace_all(
                s@.subrange(i as int, n as int),
                pat@,
                with@,
            ) =~= out@ + replace_all(s@.subrange(i as int, n as int), pat@, with@));
        } else {
            proof {
                if rest.len() >= p@.len() {
                    assert(rest.subrange(0, p@.len() as int) =~= s@.subrange(
                        i as int,
                        i + p@.len(),
                    ));
                }
                assert(rest.subrange(1, rest.len() as int) =~= s@.subrange(i + 1, n as int));
            }
            assert(s@.subrange(run as int, i + 1) =~= s@.subrange(run as int, i as int) + seq![
                s@[i as int],
            ]);
            i = i + 1;
        }
    }
    let tail = s.substring_char(run, n);
    out.append(tail);
    assert(s@.subrange(n as int, n as int) =~= Seq::<char>::empty());
    out
}

} // verus!
