//! Character sequences: searching for and replacing literal patterns.

use vstd::prelude::*;

verus! {

/// `pat` stands in `s` at index `i`.
pub open spec fn occurs_at(s: Seq<char>, pat: Seq<char>, i: int) -> bool {
    &&& 0 <= i
    &&& i + pat.len() <= s.len()
    &&& s.subrange(i, i + pat.len()) == pat
}

/// `pat` stands somewhere in `s`.
pub open spec fn contains(s: Seq<char>, pat: Seq<char>) -> bool {
    exists|i: int| occurs_at(s, pat, i)
}

/// `s` with every occurrence of `pat` replaced by `to`, scanning from the
/// left and never looking again at what was already matched or written.
/// An empty `pat` matches before every character and at the end.
pub open spec fn replace_all(s: Seq<char>, pat: Seq<char>, to: Seq<char>) -> Seq<char>
    decreases s.len(),
{
    if pat.len() == 0 {
        if s.len() == 0 {
            to
        } else {
            to + seq![s[0]] + replace_all(s.skip(1), pat, to)
        }
    } else if occurs_at(s, pat, 0) {
        to + replace_all(s.skip(pat.len() as int), pat, to)
    } else if s.len() == 0 {
        s
    } else {
        seq![s[0]] + replace_all(s.skip(1), pat, to)
    }
}

/// The character `c` does not stand in `s`.
pub open spec fn free_of(s: Seq<char>, c: char) -> bool {
    forall|i: int| 0 <= i < s.len() ==> s[i] != c
}

/// `t` opens with `mark` and holds no other.
pub open spec fn is_token(t: Seq<char>, mark: char) -> bool {
    &&& t.len() > 0
    &&& t[0] == mark
    &&& free_of(t.skip(1), mark)
}

/// Every `mark` in `s` opens one of `tokens` there.
pub open spec fn guarded(s: Seq<char>, mark: char, tokens: Set<Seq<char>>) -> bool {
    forall|i: int|
        0 <= i < s.len() && #[trigger] s[i] == mark ==> exists|t: Seq<char>|
            tokens.contains(t) && #[trigger] occurs_at(s, t, i)
}

/// std's `String::push` appends the one character to the end of the string
/// and leaves the rest as it was.
pub assume_specification[ String::push ](s: &mut String, ch: char)
    ensures
        final(s)@ == old(s)@.push(ch),
;

/// The characters of `s`, in order.
pub fn to_chars(s: &str) -> (v: Vec<char>)
    ensures
        v@ == s@,
{
    let mut v: Vec<char> = Vec::new();
    for c in it: s.chars()
        invariant
            it.seq() == s@,
            v@ == s@.take(it.index()),
    {
        v.push(c);
    }
    v
}

/// The string made of the characters of `v`, in order.
pub fn from_chars(v: &Vec<char>) -> (s: String)
    ensures
        s@ == v@,
{
    let mut s = String::new();
    let mut i: usize = 0;
    while i < v.len()
        invariant
            i <= v.len(),
            s@ == v@.take(i as int),
        decreases v.len() - i,
    {
        s.push(v[i]);
        i += 1;
    }
    s
}

/// Whether `pat` stands in `s` at index `i`.
pub fn matches_at(s: &Vec<char>, pat: &Vec<char>, i: usize) -> (b: bool)
    ensures
        b == occurs_at(s@, pat@, i as int),
{
    if i > s.len() || pat.len() > s.len() - i {
        return false;
    }
    let mut j: usize = 0;
    while j < pat.len()
        invariant
            i + pat.len() <= s.len(),
            j <= pat.len(),
            s@.subrange(i as int, i + j) == pat@.take(j as int),
        decreases pat.len() - j,
    {
        if s[i + j] != pat[j] {
            assert(s@.subrange(i as int, i + pat.len())[j as int] != pat@[j as int]);
            return false;
        }
        assert(s@.subrange(i as int, i + j + 1) =~= s@.subrange(i as int, i + j).push(
            s@[i + j],
        ));
        assert(pat@.take(j + 1) =~= pat@.take(j as int).push(pat@[j as int]));
        j += 1;
    }
    assert(pat@.take(pat.len() as int) =~= pat@);
    true
}

/// Whether `a` and `b` hold the same characters.
pub fn same_text(a: &str, b: &str) -> (same: bool)
    ensures
        same == (a@ == b@),
{
    let left = to_chars(a);
    let right = to_chars(b);
    if left.len() != right.len() {
        return false;
    }
    let same = matches_at(&left, &right, 0);
    assert(left@.subrange(0, left.len() as int) =~= left@);
    same
}

/// Appends the characters of `extra` to `out`.
pub fn push_all(out: &mut Vec<char>, extra: &Vec<char>)
    ensures
        final(out)@ == old(out)@ + extra@,
{
    let mut k: usize = 0;
    while k < extra.len()
        invariant
            k <= extra.len(),
            out@ == old(out)@ + extra@.take(k as int),
        decreases extra.len() - k,
    {
        out.push(extra[k]);
        k += 1;
    }
    assert(extra@.take(extra.len() as int) =~= extra@);
}

/// Replaces every occurrence of `pat` in `s` by `to`.
pub fn replace_chars(s: &Vec<char>, pat: &Vec<char>, to: &Vec<char>) -> (out: Vec<char>)
    ensures
        out@ == replace_all(s@, pat@, to@),
{
    let mut out: Vec<char> = Vec::new();
    let mut i: usize = 0;
    assert(s@.skip(0) =~= s@);
    while i < s.len()
        invariant
            i <= s.len(),
            out@ + replace_all(s@.skip(i as int), pat@, to@) == replace_all(s@, pat@, to@),
        decreases s.len() - i,
    {
        let ghost rest = s@.skip(i as int);
        let ghost before = out@;
        proof {
            lemma_occurs_at_skip(s@, pat@, i as int, 0);
        }
        if pat.len() > 0 && matches_at(s, pat, i) {
            push_all(&mut out, to);
            i += pat.len();
            assert(rest.skip(pat.len() as int) =~= s@.skip(i as int));
            assert(out@ + replace_all(s@.skip(i as int), pat@, to@) =~= before + replace_all(
                rest,
                pat@,
                to@,
            ));
        } else {
            if pat.len() == 0 {
                push_all(&mut out, to);
            }
            out.push(s[i]);
            i += 1;
            assert(rest.skip(1) =~= s@.skip(i as int));
            assert(out@ + replace_all(s@.skip(i as int), pat@, to@) =~= before + replace_all(
                rest,
                pat@,
                to@,
            ));
        }
    }
    if pat.len() == 0 {
        push_all(&mut out, to);
    }
    out
}

/// Replaces every occurrence of `pat` in `s` by `to`.
pub fn replace(s: &str, pat: &str, to: &str) -> (out: String)
    ensures
        out@ == replace_all(s@, pat@, to@),
{
    let replaced = replace_chars(&to_chars(s), &to_chars(pat), &to_chars(to));
    from_chars(&replaced)
}

/// Whether `pat` stands somewhere in `s`.
pub fn contains_chars(s: &Vec<char>, pat: &Vec<char>) -> (b: bool)
    ensures
        b == contains(s@, pat@),
{
    if pat.len() > s.len() {
        return false;
    }
    let last: usize = s.len() - pat.len();
    let mut i: usize = 0;
    loop
        invariant
            last == s.len() - pat.len(),
            i <= last,
            forall|k: int| 0 <= k < i ==> !occurs_at(s@, pat@, k),
        decreases last - i,
    {
        if matches_at(s, pat, i) {
            return true;
        }
        if i == last {
            return false;
        }
        i += 1;
    }
}

/// Whether `pat` stands somewhere in `s`.
pub fn has_substring(s: &str, pat: &str) -> (b: bool)
    ensures
        b == contains(s@, pat@),
{
    contains_chars(&to_chars(s), &to_chars(pat))
}

/// An occurrence in a suffix is an occurrence in the whole, shifted.
pub proof fn lemma_occurs_at_skip(s: Seq<char>, pat: Seq<char>, k: int, i: int)
    requires
        0 <= k <= s.len(),
    ensures
        occurs_at(s.skip(k), pat, i) <==> (0 <= i && occurs_at(s, pat, k + i)),
{
    if 0 <= i && k + i + pat.len() <= s.len() {
        assert(s.skip(k).subrange(i, i + pat.len()) =~= s.subrange(k + i, k + i + pat.len()));
    }
}

/// An occurrence in `tail` is an occurrence in `head + tail`, shifted by the
/// length of `head`.
pub proof fn lemma_occurs_at_after(head: Seq<char>, tail: Seq<char>, pat: Seq<char>, i: int)
    requires
        occurs_at(tail, pat, i),
    ensures
        occurs_at(head + tail, pat, head.len() + i),
{
    assert((head + tail).subrange(head.len() + i, head.len() + i + pat.len()) =~= tail.subrange(
        i,
        i + pat.len(),
    ));
}

/// Replacing leaves the start of a text as it is, as far as it holds
/// nothing that the pattern begins with.
pub proof fn lemma_replace_keeps_start(
    s: Seq<char>,
    start: Seq<char>,
    pat: Seq<char>,
    to: Seq<char>,
)
    requires
        occurs_at(s, start, 0),
        pat.len() > 0,
        free_of(start, pat[0]),
    ensures
        occurs_at(replace_all(s, pat, to), start, 0),
    decreases start.len(),
{
    let out = replace_all(s, pat, to);
    if start.len() == 0 {
        assert(out.subrange(0, 0) =~= start);
    } else {
        assert(s.subrange(0, start.len() as int)[0] == start[0]);
        assert(!occurs_at(s, pat, 0)) by {
            if occurs_at(s, pat, 0) {
                assert(s.subrange(0, pat.len() as int)[0] == pat[0]);
            }
        }
        let rest = s.skip(1);
        let rest_start = start.skip(1);
        assert(rest.subrange(0, rest_start.len() as int) =~= s.subrange(0, start.len() as int).skip(
            1,
        ));
        assert(free_of(rest_start, pat[0])) by {
            assert forall|i: int| 0 <= i < rest_start.len() implies rest_start[i] != pat[0] by {
                assert(rest_start[i] == start[i + 1]);
            }
        }
        lemma_replace_keeps_start(rest, rest_start, pat, to);
        let rest_out = replace_all(rest, pat, to);
        assert(out == seq![s[0]] + rest_out);
        assert(out.subrange(0, start.len() as int) =~= seq![start[0]] + rest_out.subrange(
            0,
            rest_start.len() as int,
        ));
        assert(seq![start[0]] + rest_start =~= start);
    }
}

/// What holds of a text's marks holds of those of each of its ends.
pub proof fn lemma_guarded_skip(s: Seq<char>, mark: char, tokens: Set<Seq<char>>, k: int)
    requires
        guarded(s, mark, tokens),
        0 <= k <= s.len(),
    ensures
        guarded(s.skip(k), mark, tokens),
{
    let tail = s.skip(k);
    assert forall|i: int| 0 <= i < tail.len() && #[trigger] tail[i] == mark implies exists|
        t: Seq<char>,
    |
        tokens.contains(t) && #[trigger] occurs_at(tail, t, i) by {
        assert(s[k + i] == mark);
        let t = choose|t: Seq<char>| tokens.contains(t) && #[trigger] occurs_at(s, t, k + i);
        lemma_occurs_at_skip(s, t, k, i);
    }
}

/// Replacing one token by a text without marks leaves every mark opening
/// one of the other tokens.
pub proof fn lemma_replace_guarded(
    s: Seq<char>,
    pat: Seq<char>,
    to: Seq<char>,
    mark: char,
    tokens: Set<Seq<char>>,
)
    requires
        is_token(pat, mark),
        free_of(to, mark),
        forall|t: Seq<char>| tokens.contains(t) ==> is_token(t, mark),
        guarded(s, mark, tokens.insert(pat)),
    ensures
        guarded(replace_all(s, pat, to), mark, tokens),
    decreases s.len(),
{
    let out = replace_all(s, pat, to);
    if occurs_at(s, pat, 0) {
        let rest = s.skip(pat.len() as int);
        let rest_out = replace_all(rest, pat, to);
        lemma_guarded_skip(s, mark, tokens.insert(pat), pat.len() as int);
        lemma_replace_guarded(rest, pat, to, mark, tokens);
        assert(out == to + rest_out);
        assert forall|i: int| 0 <= i < out.len() && #[trigger] out[i] == mark implies exists|
            t: Seq<char>,
        |
            tokens.contains(t) && #[trigger] occurs_at(out, t, i) by {
            assert(i >= to.len());
            assert(rest_out[i - to.len()] == mark);
            let t = choose|t: Seq<char>|
                tokens.contains(t) && #[trigger] occurs_at(rest_out, t, i - to.len());
            lemma_occurs_at_after(to, rest_out, t, i - to.len());
        }
    } else if s.len() > 0 {
        let rest = s.skip(1);
        let rest_out = replace_all(rest, pat, to);
        lemma_guarded_skip(s, mark, tokens.insert(pat), 1);
        lemma_replace_guarded(rest, pat, to, mark, tokens);
        assert(out == seq![s[0]] + rest_out);
        assert forall|i: int| 0 <= i < out.len() && #[trigger] out[i] == mark implies exists|
            t: Seq<char>,
        |
            tokens.contains(t) && #[trigger] occurs_at(out, t, i) by {
            if i == 0 {
                assert(s[0] == mark);
                let t = choose|t: Seq<char>|
                    tokens.insert(pat).contains(t) && #[trigger] occurs_at(s, t, 0);
                assert(tokens.contains(t));
                lemma_occurs_at_skip(s, t.skip(1), 1, 0);
                assert(s.subrange(1, t.len() as int) =~= s.subrange(0, t.len() as int).skip(1));
                lemma_replace_keeps_start(rest, t.skip(1), pat, to);
                assert(out.subrange(0, t.len() as int) =~= seq![s[0]] + rest_out.subrange(
                    0,
                    t.len() - 1,
                ));
                assert(seq![t[0]] + t.skip(1) =~= t);
                assert(occurs_at(out, t, 0));
            } else {
                assert(rest_out[i - 1] == mark);
                let t = choose|t: Seq<char>|
                    tokens.contains(t) && #[trigger] occurs_at(rest_out, t, i - 1);
                lemma_occurs_at_after(seq![s[0]], rest_out, t, i - 1);
            }
        }
    }
}

/// Replacing writes the replacement wherever the pattern stood: if it
/// stood somewhere, the replacement stands in the result.
pub proof fn lemma_replace_writes(s: Seq<char>, pat: Seq<char>, to: Seq<char>, i: int)
    requires
        occurs_at(s, pat, i),
        pat.len() > 0,
    ensures
        contains(replace_all(s, pat, to), to),
    decreases s.len(),
{
    let out = replace_all(s, pat, to);
    if occurs_at(s, pat, 0) {
        assert(out.subrange(0, to.len() as int) =~= to);
        assert(occurs_at(out, to, 0));
    } else {
        let rest = s.skip(1);
        lemma_occurs_at_skip(s, pat, 1, i - 1);
        lemma_replace_writes(rest, pat, to, i - 1);
        let rest_out = replace_all(rest, pat, to);
        let j = choose|j: int| occurs_at(rest_out, to, j);
        lemma_occurs_at_after(seq![s[0]], rest_out, to, j);
        assert(occurs_at(out, to, 1 + j));
    }
}

/// Replacing leaves standing a text that no occurrence of the pattern can
/// touch: none can begin inside it, none can run into it, and neither of
/// the two begins with the other.
pub proof fn lemma_replace_keeps_occurrence(
    s: Seq<char>,
    kept: Seq<char>,
    i: int,
    pat: Seq<char>,
    to: Seq<char>,
)
    requires
        occurs_at(s, kept, i),
        kept.len() > 0,
        pat.len() > 0,
        free_of(kept.skip(1), pat[0]),
        free_of(pat.skip(1), kept[0]),
        !occurs_at(kept, pat, 0),
        !occurs_at(pat, kept, 0),
    ensures
        contains(replace_all(s, pat, to), kept),
    decreases s.len(),
{
    let out = replace_all(s, pat, to);
    assert(s.subrange(i, i + kept.len())[0] == kept[0]);
    if occurs_at(s, pat, 0) {
        if i == 0 {
            if pat.len() <= kept.len() {
                assert(kept.subrange(0, pat.len() as int) =~= s.subrange(0, pat.len() as int));
            } else {
                assert(pat.subrange(0, kept.len() as int) =~= s.subrange(0, kept.len() as int));
            }
        } else if i < pat.len() {
            assert(s.subrange(0, pat.len() as int)[i] == pat[i]);
            assert(pat.skip(1)[i - 1] == kept[0]);
        } else {
            let rest = s.skip(pat.len() as int);
            lemma_occurs_at_skip(s, kept, pat.len() as int, i - pat.len());
            lemma_replace_keeps_occurrence(rest, kept, i - pat.len(), pat, to);
            let rest_out = replace_all(rest, pat, to);
            let j = choose|j: int| occurs_at(rest_out, kept, j);
            lemma_occurs_at_after(to, rest_out, kept, j);
            assert(occurs_at(out, kept, to.len() + j));
        }
    } else {
        let rest = s.skip(1);
        let rest_out = replace_all(rest, pat, to);
        assert(out == seq![s[0]] + rest_out);
        if i == 0 {
            lemma_occurs_at_skip(s, kept.skip(1), 1, 0);
            assert(s.subrange(1, kept.len() as int) =~= s.subrange(0, kept.len() as int).skip(1));
            lemma_replace_keeps_start(rest, kept.skip(1), pat, to);
            assert(out.subrange(0, kept.len() as int) =~= seq![s[0]] + rest_out.subrange(
                0,
                kept.len() - 1,
            ));
            assert(seq![kept[0]] + kept.skip(1) =~= kept);
            assert(occurs_at(out, kept, 0));
        } else {
            lemma_occurs_at_skip(s, kept, 1, i - 1);
            lemma_replace_keeps_occurrence(rest, kept, i - 1, pat, to);
            let j = choose|j: int| occurs_at(rest_out, kept, j);
            lemma_occurs_at_after(seq![s[0]], rest_out, kept, j);
            assert(occurs_at(out, kept, 1 + j));
        }
    }
}

} // verus!
