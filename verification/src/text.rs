//! Character-level helpers: string equality, whitespace classification,
//! and the JSX text-collapsing rule used for element children.

use vstd::prelude::*;

verus! {

/// Relies on `String::push` from std: appends exactly one character at
/// the end of the string. vstd gives `String::push` no specification.
#[verifier::external_body]
pub fn push_char(s: &mut String, c: char)
    ensures
        final(s)@ == old(s)@.push(c),
{
    s.push(c);
}

/// Turns a string slice into the vector of its characters.
pub fn chars_of(s: &str) -> (v: Vec<char>)
    ensures
        v@ == s@,
{
    let n = s.unicode_len();
    let mut v: Vec<char> = Vec::new();
    let mut i: usize = 0;
    while i < n
        invariant
            n == s@.len(),
            i <= n,
            v@ == s@.subrange(0, i as int),
        decreases n - i,
    {
        let c = s.get_char(i);
        v.push(c);
        proof {
            assert(v@ =~= s@.subrange(0, i + 1 as int));
        }
        i += 1;
    }
    proof {
        assert(s@.subrange(0, n as int) =~= s@);
    }
    v
}

/// Character-for-character equality of two string slices.
pub fn str_eq(a: &str, b: &str) -> (r: bool)
    ensures
        r == (a@ == b@),
{
    let alen = a.unicode_len();
    let blen = b.unicode_len();
    if alen != blen {
        return false;
    }
    let mut i: usize = 0;
    while i < alen
        invariant
            alen == a@.len(),
            blen == b@.len(),
            alen == blen,
            i <= alen,
            forall|j: int| 0 <= j < i ==> a@[j] == b@[j],
        decreases alen - i,
    {
        if a.get_char(i) != b.get_char(i) {
            return false;
        }
        i += 1;
    }
    proof {
        assert(a@ =~= b@);
    }
    true
}

/// Builds an owned `String` holding exactly the given characters.
pub fn string_from_chars(v: &Vec<char>) -> (s: String)
    ensures
        s@ == v@,
{
    let mut s = String::new();
    let mut i: usize = 0;
    while i < v.len()
        invariant
            i <= v@.len(),
            s@ == v@.subrange(0, i as int),
        decreases v@.len() - i,
    {
        push_char(&mut s, v[i]);
        proof {
            assert(s@ =~= v@.subrange(0, i + 1 as int));
        }
        i += 1;
    }
    proof {
        assert(v@.subrange(0, v@.len() as int) =~= v@);
    }
    s
}

/// Does `s` hold the character `c`?
pub fn str_contains_char(s: &str, c: char) -> (r: bool)
    ensures
        r == s@.contains(c),
{
    let n = s.unicode_len();
    let mut i: usize = 0;
    while i < n
        invariant
            n == s@.len(),
            i <= n,
            forall|j: int| 0 <= j < i ==> s@[j] != c,
        decreases n - i,
    {
        if s.get_char(i) == c {
            return true;
        }
        i += 1;
    }
    proof {
        assert(!s@.contains(c)) by {
            if s@.contains(c) {
                let j = choose|j: int| 0 <= j < s@.len() && s@[j] == c;
                assert(s@[j] != c);
            }
        }
    }
    false
}

/// The whitespace characters recognised by the text-collapsing rule.
pub open spec fn is_space(c: char) -> bool {
    c == ' ' || c == '\t' || c == '\n' || c == '\r' || c == '\x0c'
}

/// Executable mirror of [`is_space`].
pub fn is_space_char(c: char) -> (r: bool)
    ensures
        r == is_space(c),
{
    c == ' ' || c == '\t' || c == '\n' || c == '\r' || c == '\x0c'
}

/// Length of the maximal run of whitespace at the front of `s`.
pub open spec fn ws_prefix_len(s: Seq<char>) -> int
    decreases s.len(),
{
    if s.len() == 0 || !is_space(s[0]) {
        0
    } else {
        1 + ws_prefix_len(s.drop_first())
    }
}

/// Length of the maximal run of whitespace at the back of `s`.
pub open spec fn ws_suffix_len(s: Seq<char>) -> int
    decreases s.len(),
{
    if s.len() == 0 || !is_space(s.last()) {
        0
    } else {
        1 + ws_suffix_len(s.drop_last())
    }
}

/// Length of the maximal run of non-whitespace at the front of `s`.
pub open spec fn word_prefix_len(s: Seq<char>) -> int
    decreases s.len(),
{
    if s.len() == 0 || is_space(s[0]) {
        0
    } else {
        1 + word_prefix_len(s.drop_first())
    }
}

/// Drops a leading whitespace run, but only when it contains a newline:
/// pure indentation around a line break collapses to nothing.
pub open spec fn strip_indent_start(s: Seq<char>) -> Seq<char> {
    if s.subrange(0, ws_prefix_len(s)).contains('\n') {
        s.skip(ws_prefix_len(s))
    } else {
        s
    }
}

/// Drops a trailing whitespace run, but only when it contains a newline.
pub open spec fn strip_indent_end(s: Seq<char>) -> Seq<char> {
    if s.skip(s.len() - ws_suffix_len(s)).contains('\n') {
        s.take(s.len() - ws_suffix_len(s))
    } else {
        s
    }
}

/// Bounds of [`word_prefix_len`].
pub proof fn lemma_word_prefix_len_bounds(s: Seq<char>)
    ensures
        0 <= word_prefix_len(s) <= s.len(),
    decreases s.len(),
{
    if s.len() > 0 && !is_space(s[0]) {
        lemma_word_prefix_len_bounds(s.drop_first());
    }
}

/// The maximal non-whitespace runs of `s`, in order.
pub open spec fn split_words(s: Seq<char>) -> Seq<Seq<char>>
    decreases s.len(),
    via split_words_decreases
{
    if s.len() == 0 {
        Seq::empty()
    } else if is_space(s[0]) {
        split_words(s.drop_first())
    } else {
        seq![s.subrange(0, word_prefix_len(s))] + split_words(s.skip(word_prefix_len(s)))
    }
}

#[via_fn]
proof fn split_words_decreases(s: Seq<char>) {
    lemma_word_prefix_len_bounds(s);
    if s.len() > 0 && !is_space(s[0]) {
        lemma_word_prefix_len_bounds(s.drop_first());
        assert(word_prefix_len(s) == 1 + word_prefix_len(s.drop_first()));
    }
}

/// Words joined by single spaces.
pub open spec fn join_words(ws: Seq<Seq<char>>) -> Seq<char>
    decreases ws.len(),
{
    if ws.len() == 0 {
        Seq::empty()
    } else if ws.len() == 1 {
        ws[0]
    } else {
        ws[0] + seq![' '] + join_words(ws.drop_first())
    }
}

/// What a JSX text child lowers to: a single-space text node is kept
/// verbatim; a text without spaces and newlines is kept verbatim;
/// otherwise indentation around line breaks at either edge is removed,
/// the internal whitespace runs collapse to single spaces, and a plain
/// leading or trailing space survives as one space.
pub open spec fn jsx_text_value(t: Seq<char>) -> Seq<char> {
    if t == seq![' '] {
        t
    } else if !t.contains(' ') && !t.contains('\n') {
        t
    } else {
        let s = strip_indent_end(strip_indent_start(t));
        let lead = s.len() > 0 && s[0] == ' ';
        let trail = s.len() > 0 && s.last() == ' ';
        let body = join_words(split_words(s));
        let with_lead = if lead {
            seq![' '] + body
        } else {
            body
        };
        if trail && !(with_lead.len() > 0 && with_lead.last() == ' ') {
            with_lead + seq![' ']
        } else {
            with_lead
        }
    }
}

proof fn lemma_contains_step(s: Seq<char>, i: int, c: char)
    requires
        0 <= i < s.len(),
    ensures
        s.subrange(0, i + 1).contains(c) <==> (s.subrange(0, i).contains(c) || s[i] == c),
{
    let a = s.subrange(0, i);
    let b = s.subrange(0, i + 1);
    if b.contains(c) {
        let j = choose|j: int| 0 <= j < b.len() && b[j] == c;
        if j < i {
            assert(a[j] == c);
        }
    }
    if a.contains(c) {
        let j = choose|j: int| 0 <= j < a.len() && a[j] == c;
        assert(b[j] == c);
    }
    if s[i] == c {
        assert(b[i] == c);
    }
}

proof fn lemma_ws_prefix_from_scan(s: Seq<char>, p: int)
    requires
        0 <= p <= s.len(),
        forall|j: int| 0 <= j < p ==> is_space(#[trigger] s[j]),
        p < s.len() ==> !is_space(s[p]),
    ensures
        ws_prefix_len(s) == p,
    decreases s.len(),
{
    if p > 0 {
        lemma_ws_prefix_from_scan(s.drop_first(), p - 1);
    }
}

proof fn lemma_ws_suffix_from_scan(s: Seq<char>, q: int)
    requires
        0 <= q <= s.len(),
        forall|j: int| q <= j < s.len() ==> is_space(#[trigger] s[j]),
        q > 0 ==> !is_space(s[q - 1]),
    ensures
        ws_suffix_len(s) == s.len() - q,
    decreases s.len(),
{
    if q < s.len() {
        assert(s.drop_last() =~= s.subrange(0, s.len() - 1));
        lemma_ws_suffix_from_scan(s.drop_last(), q);
    }
}

/// Lowers the raw text of a JSX text child, collapsing whitespace as
/// [`jsx_text_value`] states.
#[verifier::rlimit(100)]
pub fn jsx_text_to_string(t: &str) -> (r: String)
    ensures
        r@ == jsx_text_value(t@),
{
    let v = chars_of(t);
    let n = v.len();
    if n == 1 && v[0] == ' ' {
        proof {
            assert(t@ =~= seq![' ']);
        }
        return string_from_chars(&v);
    }
    // does the text hold a space or a newline at all?
    let mut has_sp = false;
    let mut has_nl = false;
    let mut i: usize = 0;
    while i < n
        invariant
            n == v@.len(),
            v@ == t@,
            i <= n,
            has_sp == v@.subrange(0, i as int).contains(' '),
            has_nl == v@.subrange(0, i as int).contains('\n'),
        decreases n - i,
    {
        proof {
            lemma_contains_step(v@, i as int, ' ');
            lemma_contains_step(v@, i as int, '\n');
        }
        if v[i] == ' ' {
            has_sp = true;
        }
        if v[i] == '\n' {
            has_nl = true;
        }
        i += 1;
    }
    proof {
        assert(v@.subrange(0, n as int) =~= v@);
    }
    if !has_sp && !has_nl {
        proof {
            assert(t@ != seq![' ']) by {
                if t@ == seq![' '] {
                    assert(t@[0] == ' ');
                    assert(t@.contains(' '));
                }
            }
        }
        return t.to_owned();
    }
    // leading whitespace run, and whether it holds a newline
    let mut p: usize = 0;
    let mut nl_pre = false;
    while p < n && is_space_char(v[p])
        invariant
            n == v@.len(),
            p <= n,
            forall|j: int| 0 <= j < p ==> is_space(#[trigger] v@[j]),
            nl_pre == v@.subrange(0, p as int).contains('\n'),
        decreases n - p,
    {
        proof {
            lemma_contains_step(v@, p as int, '\n');
        }
        if v[p] == '\n' {
            nl_pre = true;
        }
        p += 1;
    }
    proof {
        lemma_ws_prefix_from_scan(v@, p as int);
    }
    let a: usize = if nl_pre {
        p
    } else {
        0
    };
    let ghost s1: Seq<char> = strip_indent_start(t@);
    proof {
        assert(s1 =~= v@.subrange(a as int, n as int));
    }
    // trailing whitespace run of the remainder, and its newline
    let mut q: usize = n;
    let mut nl_suf = false;
    while q > a && is_space_char(v[q - 1])
        invariant
            n == v@.len(),
            a <= q <= n,
            forall|j: int| q <= j < n ==> is_space(#[trigger] v@[j]),
            nl_suf == v@.subrange(q as int, n as int).contains('\n'),
        decreases q,
    {
        proof {
            let old_tail = v@.subrange(q as int, n as int);
            let new_tail = v@.subrange(q - 1 as int, n as int);
            assert(new_tail.drop_first() =~= old_tail);
            if v@[q - 1] == '\n' {
                assert(new_tail[0] == '\n');
                assert(new_tail.contains('\n'));
            } else {
                if new_tail.contains('\n') {
                    let j = choose|j: int| 0 <= j < new_tail.len() && new_tail[j] == '\n';
                    assert(j > 0);
                    assert(old_tail[j - 1] == '\n');
                    assert(old_tail.contains('\n'));
                }
                if old_tail.contains('\n') {
                    let j = choose|j: int| 0 <= j < old_tail.len() && old_tail[j] == '\n';
                    assert(new_tail[j + 1] == '\n');
                    assert(new_tail.contains('\n'));
                }
            }
        }
        if v[q - 1] == '\n' {
            nl_suf = true;
        }
        q -= 1;
    }
    proof {
        lemma_ws_suffix_from_scan(s1, q - a as int);
        assert(s1.skip(s1.len() - ws_suffix_len(s1)) =~= v@.subrange(q as int, n as int));
    }
    let b: usize = if nl_suf {
        q
    } else {
        n
    };
    let ghost s2: Seq<char> = strip_indent_end(s1);
    proof {
        assert(s1.take(s1.len() - ws_suffix_len(s1)) =~= v@.subrange(a as int, q as int));
        assert(s2 =~= v@.subrange(a as int, b as int));
    }
    let lead = b > a && v[a] == ' ';
    let trail = b > a && v[b - 1] == ' ';
    // join the words of v[a..b] with single spaces
    let mut buf = String::new();
    let mut started = false;
    let mut i: usize = a;
    proof {
        let r0 = split_words(v@.subrange(a as int, b as int));
        if r0.len() == 0 {
            assert(buf@ + joined_rest(buf@, r0) =~= Seq::<char>::empty());
        } else {
            assert(buf@ + joined_rest(buf@, r0) =~= join_words(r0));
        }
    }
    while i < b
        invariant
            n == v@.len(),
            a <= i <= b <= n,
            s2 =~= v@.subrange(a as int, b as int),
            started == (buf@.len() > 0),
            join_words(split_words(s2)) == buf@ + joined_rest(
                buf@,
                split_words(v@.subrange(i as int, b as int)),
            ),
        decreases b - i,
    {
        if is_space_char(v[i]) {
            proof {
                let cur = v@.subrange(i as int, b as int);
                assert(cur.drop_first() =~= v@.subrange(i + 1 as int, b as int));
            }
            i += 1;
        } else {
            let ghost bufp = buf@;
            if started {
                push_char(&mut buf, ' ');
            }
            let ghost buf0 = buf@;
            let ghost i0 = i as int;
            proof {
                if started {
                    assert(buf0 =~= bufp + seq![' ']);
                }
            }
            while i < b && !is_space_char(v[i])
                invariant
                    n == v@.len(),
                    a <= i0 <= i as int <= b <= n,
                    i0 < b,
                    !is_space(v@[i0]),
                    started == (buf@.len() > 0),
                    i as int > i0 ==> started,
                    buf@ == buf0 + v@.subrange(i0, i as int),
                    word_prefix_len(v@.subrange(i0, b as int)) == (i as int - i0)
                        + word_prefix_len(v@.subrange(i as int, b as int)),
                decreases b - i,
            {
                proof {
                    let cur = v@.subrange(i as int, b as int);
                    assert(cur.drop_first() =~= v@.subrange(i + 1 as int, b as int));
                    assert(buf@.push(v@[i as int]) =~= buf0 + v@.subrange(i0, i + 1 as int));
                }
                push_char(&mut buf, v[i]);
                started = true;
                i += 1;
            }
            proof {
                let word_seq = v@.subrange(i0, b as int);
                let w = v@.subrange(i0, i as int);
                assert(word_prefix_len(word_seq) == i as int - i0);
                assert(word_seq.subrange(0, word_prefix_len(word_seq)) =~= w);
                assert(word_seq.skip(word_prefix_len(word_seq)) =~= v@.subrange(
                    i as int,
                    b as int,
                ));
                let rest0 = split_words(word_seq);
                let rest1 = split_words(v@.subrange(i as int, b as int));
                assert(rest0 == seq![w] + rest1);
                assert((seq![w] + rest1).drop_first() =~= rest1);
                assert(w.len() > 0);
                lemma_join_cons(w, rest1);
                if bufp.len() == 0 {
                    assert(buf0 =~= Seq::<char>::empty());
                    assert(buf@ =~= w);
                    if rest1.len() == 0 {
                        assert(bufp + joined_rest(bufp, rest0) =~= w);
                        assert(buf@ + joined_rest(buf@, rest1) =~= w);
                    } else {
                        assert(bufp + joined_rest(bufp, rest0) =~= w + seq![' ']
                            + join_words(rest1));
                        assert(buf@ + joined_rest(buf@, rest1) =~= w + seq![' ']
                            + join_words(rest1));
                    }
                } else {
                    assert(buf@ =~= bufp + seq![' '] + w);
                    if rest1.len() == 0 {
                        assert(bufp + joined_rest(bufp, rest0) =~= bufp + seq![' '] + w);
                        assert(buf@ + joined_rest(buf@, rest1) =~= bufp + seq![' '] + w);
                    } else {
                        assert(bufp + joined_rest(bufp, rest0) =~= bufp + seq![' '] + w
                            + seq![' '] + join_words(rest1));
                        assert(buf@ + joined_rest(buf@, rest1) =~= bufp + seq![' '] + w
                            + seq![' '] + join_words(rest1));
                    }
                }
            }
        }
    }
    proof {
        assert(v@.subrange(b as int, b as int) =~= Seq::<char>::empty());
        assert(buf@ + Seq::<char>::empty() =~= buf@);
        assert(join_words(split_words(s2)) == buf@);
    }
    // re-attach a single leading or trailing space where one is owed
    let ghost body = join_words(split_words(s2));
    let mut out = String::new();
    if lead {
        push_char(&mut out, ' ');
    }
    out.append(buf.as_str());
    let ghost wl: Seq<char> = out@;
    proof {
        assert((s2.len() > 0 && s2[0] == ' ') == lead);
        if lead {
            assert(wl =~= seq![' '] + body);
        } else {
            assert(wl =~= body);
        }
    }
    let olen = out.as_str().unicode_len();
    let needs_trail = if !trail {
        false
    } else if olen == 0 {
        true
    } else {
        out.as_str().get_char(olen - 1) != ' '
    };
    if needs_trail {
        push_char(&mut out, ' ');
    }
    proof {
        assert(t@ != seq![' ']) by {
            if t@ == seq![' '] {
                assert(v@.len() == 1 && v@[0] == ' ');
            }
        }
        assert(strip_indent_end(strip_indent_start(t@)) == s2);
        assert((s2.len() > 0 && s2.last() == ' ') == trail);
        assert(needs_trail == (trail && !(wl.len() > 0 && wl.last() == ' ')));
        if needs_trail {
            assert(out@ =~= wl + seq![' ']);
        } else {
            assert(out@ == wl);
        }
    }
    out
}

/// What still has to follow `done` so that the finished words read as
/// `join_words`: nothing, the remaining words, or a separating space and
/// the remaining words.
pub open spec fn joined_rest(done: Seq<char>, rest: Seq<Seq<char>>) -> Seq<char> {
    if rest.len() == 0 {
        Seq::empty()
    } else if done.len() == 0 {
        join_words(rest)
    } else {
        seq![' '] + join_words(rest)
    }
}

proof fn lemma_join_cons(w: Seq<char>, rest: Seq<Seq<char>>)
    ensures
        join_words(seq![w] + rest) == if rest.len() == 0 {
            w
        } else {
            w + seq![' '] + join_words(rest)
        },
{
    let ws = seq![w] + rest;
    assert(ws[0] == w);
    if rest.len() == 0 {
        assert(ws.len() == 1);
    } else {
        assert(ws.drop_first() =~= rest);
    }
}

} // verus!
