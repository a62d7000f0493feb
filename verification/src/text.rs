//! Searching and replacing in sequences of characters.

use vstd::prelude::*;

verus! {

/// `pattern` stands in `text` at position `at`.
pub open spec fn occurs_at(text: Seq<char>, pattern: Seq<char>, at: int) -> bool {
    &&& 0 <= at
    &&& at + pattern.len() <= text.len()
    &&& text.subrange(at, at + pattern.len()) == pattern
}

/// `pattern` stands somewhere in `text`.
pub open spec fn contains(text: Seq<char>, pattern: Seq<char>) -> bool {
    exists|at: int| occurs_at(text, pattern, at)
}

/// `text` with every occurrence of `from` replaced by `to`, scanning from the
/// left and resuming behind each occurrence found. An empty `from` occurs
/// before every character and at the end.
pub open spec fn replace_all(text: Seq<char>, from: Seq<char>, to: Seq<char>) -> Seq<char>
    decreases text.len(),
{
    if occurs_at(text, from, 0) {
        if from.len() > 0 {
            to + replace_all(text.skip(from.len() as int), from, to)
        } else if text.len() > 0 {
            to + text.take(1) + replace_all(text.skip(1), from, to)
        } else {
            to
        }
    } else if text.len() > 0 {
        text.take(1) + replace_all(text.skip(1), from, to)
    } else {
        text
    }
}

/// How many occurrences of `pattern` a scan from the left finds in `text`
/// when it resumes behind each occurrence found.
pub open spec fn count_matches(text: Seq<char>, pattern: Seq<char>) -> nat
    decreases text.len(),
{
    if pattern.len() == 0 {
        text.len() + 1
    } else if occurs_at(text, pattern, 0) {
        1 + count_matches(text.skip(pattern.len() as int), pattern)
    } else if text.len() > 0 {
        count_matches(text.skip(1), pattern)
    } else {
        0
    }
}

/// The characters of `text`, one by one.
fn chars_of(text: &str) -> (chars: Vec<char>)
    ensures
        chars@ == text@,
{
    let mut chars: Vec<char> = Vec::new();
    for c in it: text.chars()
        invariant
            it.seq() == text@,
            chars@ == it.seq().take(it.index() as int),
    {
        chars.push(c);
    }
    chars
}

/// Whether `pattern` stands in `text` at position `at`.
fn matches_at(text: &Vec<char>, pattern: &Vec<char>, at: usize) -> (found: bool)
    requires
        at + pattern@.len() <= text@.len(),
    ensures
        found == occurs_at(text@, pattern@, at as int),
{
    let size: usize = text.len();
    let mut k: usize = 0;
    while k < pattern.len()
        invariant
            k <= pattern@.len(),
            size == text@.len(),
            at + pattern@.len() <= text@.len(),
            forall|j: int| 0 <= j < k ==> text@[at + j] == pattern@[j],
        decreases pattern@.len() - k,
    {
        if text[at + k] != pattern[k] {
            assert(text@.subrange(at as int, at + pattern@.len())[k as int] != pattern@[k as int]);
            return false;
        }
        k = k + 1;
    }
    assert(text@.subrange(at as int, at + pattern@.len()) =~= pattern@);
    true
}

/// A text shorter than the pattern holds no occurrence and stays as it is.
pub proof fn lemma_replace_short(text: Seq<char>, from: Seq<char>, to: Seq<char>)
    requires
        text.len() < from.len(),
    ensures
        replace_all(text, from, to) == text,
        count_matches(text, from) == 0,
    decreases text.len(),
{
    if text.len() > 0 {
        lemma_replace_short(text.skip(1), from, to);
        assert(text.take(1) + text.skip(1) =~= text);
    }
}

/// One step of the scan at position `at` of `text`.
pub proof fn lemma_scan_step(text: Seq<char>, from: Seq<char>, to: Seq<char>, at: int)
    requires
        0 <= at < text.len(),
        from.len() > 0,
    ensures
        occurs_at(text, from, at) ==> {
            &&& replace_all(text.skip(at), from, to) == to + replace_all(
                text.skip(at + from.len()),
                from,
                to,
            )
            &&& count_matches(text.skip(at), from) == 1 + count_matches(
                text.skip(at + from.len()),
                from,
            )
        },
        !occurs_at(text, from, at) ==> {
            &&& replace_all(text.skip(at), from, to) == text.subrange(at, at + 1) + replace_all(
                text.skip(at + 1),
                from,
                to,
            )
            &&& count_matches(text.skip(at), from) == count_matches(text.skip(at + 1), from)
        },
{
    let rest = text.skip(at);
    if at + from.len() <= text.len() {
        assert(rest.subrange(0, from.len() as int) =~= text.subrange(at, at + from.len()));
        assert(rest.skip(from.len() as int) =~= text.skip(at + from.len()));
    }
    assert(occurs_at(rest, from, 0) == occurs_at(text, from, at));
    assert(rest.skip(1) =~= text.skip(at + 1));
    assert(rest.take(1) =~= text.subrange(at, at + 1));
}

/// As long as the scan finds nothing, it copies.
pub proof fn lemma_scan_prefix(text: Seq<char>, from: Seq<char>, to: Seq<char>, upto: int)
    requires
        from.len() > 0,
        0 <= upto <= text.len(),
        forall|i: int| 0 <= i < upto ==> !occurs_at(text, from, i),
    ensures
        replace_all(text, from, to) == text.take(upto) + replace_all(text.skip(upto), from, to),
        count_matches(text, from) == count_matches(text.skip(upto), from),
    decreases upto,
{
    if upto == 0 {
        assert(text.skip(0) =~= text);
        assert(text.take(0) + replace_all(text, from, to) =~= replace_all(text, from, to));
    } else {
        lemma_scan_prefix(text, from, to, upto - 1);
        lemma_scan_step(text, from, to, upto - 1);
        assert(text.take(upto - 1) + (text.subrange(upto - 1, upto) + replace_all(
            text.skip(upto),
            from,
            to,
        )) =~= text.take(upto) + replace_all(text.skip(upto), from, to));
    }
}

/// A text without an occurrence stays as it is.
pub proof fn lemma_nothing_to_replace(text: Seq<char>, from: Seq<char>, to: Seq<char>)
    requires
        from.len() > 0,
        !contains(text, from),
    ensures
        replace_all(text, from, to) == text,
        count_matches(text, from) == 0,
{
    lemma_scan_prefix(text, from, to, text.len() as int);
    assert(text.skip(text.len() as int) =~= Seq::<char>::empty());
    assert(text.take(text.len() as int) + Seq::<char>::empty() =~= text);
}

/// `text` with every occurrence of `from` replaced by `to`, as
/// [`replace_all`] defines it.
pub fn replace(text: &str, from: &str, to: &str) -> (out: String)
    ensures
        out@ == replace_all(text@, from@, to@),
{
    let chars = chars_of(text);
    let pattern = chars_of(from);
    let n: usize = chars.len();
    let m: usize = pattern.len();
    let mut out = String::new();
    if m == 0 {
        let mut i: usize = 0;
        assert(text@.skip(0) =~= text@);
        while i < n
            invariant
                i <= n,
                n == text@.len(),
                from@.len() == 0,
                replace_all(text@, from@, to@) == out@ + replace_all(
                    text@.skip(i as int),
                    from@,
                    to@,
                ),
            decreases n - i,
        {
            proof {
                let rest = text@.skip(i as int);
                assert(rest.subrange(0, 0) =~= from@);
                assert(rest.take(1) =~= text@.subrange(i as int, i + 1));
                assert(rest.skip(1) =~= text@.skip(i + 1));
            }
            let ghost before = out@;
            out.append(to);
            out.append(text.substring_char(i, i + 1));
            i = i + 1;
            assert(before + (to@ + text@.subrange(i - 1, i as int) + replace_all(
                text@.skip(i as int),
                from@,
                to@,
            )) =~= out@ + replace_all(text@.skip(i as int), from@, to@));
        }
        proof {
            let rest = text@.skip(n as int);
            assert(rest.subrange(0, 0) =~= from@);
        }
        out.append(to);
        return out;
    }
    let mut start: usize = 0;
    let mut i: usize = 0;
    assert(text@.skip(0) =~= text@);
    assert(out@ + text@.subrange(0, 0) + text@ =~= text@);
    while m <= n && i <= n - m
        invariant
            start <= i <= n,
            n == text@.len(),
            m == from@.len(),
            m > 0,
            chars@ == text@,
            pattern@ == from@,
            replace_all(text@, from@, to@) == out@ + text@.subrange(start as int, i as int)
                + replace_all(text@.skip(i as int), from@, to@),
        decreases n - i,
    {
        proof {
            lemma_scan_step(text@, from@, to@, i as int);
        }
        let ghost before = out@;
        let ghost s0 = start as int;
        let ghost i0 = i as int;
        if matches_at(&chars, &pattern, i) {
            out.append(text.substring_char(start, i));
            out.append(to);
            i = i + m;
            start = i;
            proof {
                let rest = replace_all(text@.skip(i as int), from@, to@);
                assert(text@.subrange(start as int, i as int) =~= Seq::<char>::empty());
                assert(before + text@.subrange(s0, i0) + (to@ + rest) =~= out@ + text@.subrange(
                    start as int,
                    i as int,
                ) + rest);
            }
        } else {
            i = i + 1;
            proof {
                let rest = replace_all(text@.skip(i as int), from@, to@);
                assert(before + text@.subrange(s0, i0) + (text@.subrange(i0, i0 + 1) + rest)
                    =~= out@ + text@.subrange(start as int, i as int) + rest);
            }
        }
    }
    proof {
        lemma_replace_short(text@.skip(i as int), from@, to@);
        assert(text@.subrange(start as int, i as int) + text@.skip(i as int) =~= text@.subrange(
            start as int,
            n as int,
        ));
        assert(out@ + text@.subrange(start as int, i as int) + text@.skip(i as int) =~= out@
            + text@.subrange(start as int, n as int));
    }
    out.append(text.substring_char(start, n));
    out
}

/// The last `size` characters of `left` are the first `size` of `right`.
pub open spec fn overlap(left: Seq<char>, right: Seq<char>, size: int) -> bool {
    &&& 0 < size <= left.len()
    &&& size <= right.len()
    &&& left.subrange(left.len() - size, left.len() as int) == right.subrange(0, size)
}

/// No end of `left` is a beginning of `right`.
pub open spec fn never_overlap(left: Seq<char>, right: Seq<char>) -> bool {
    forall|size: int| !overlap(left, right, size)
}

/// No end of `word`, short of the whole, is a beginning of it.
pub open spec fn borderless(word: Seq<char>) -> bool {
    forall|size: int| 0 < size < word.len() ==> !overlap(word, word, size)
}

/// A text of the form `head + word + tail`, read at the places of `word`.
proof fn lemma_middle(head: Seq<char>, word: Seq<char>, tail: Seq<char>)
    ensures
        (head + word + tail).len() == head.len() + word.len() + tail.len(),
        forall|i: int| 0 <= i < head.len() ==> (head + word + tail)[i] == head[i],
        forall|i: int|
            0 <= i < word.len() ==> #[trigger] (head + word + tail)[head.len() + i] == word[i],
        (head + word + tail).skip((head.len() + word.len()) as int) == tail,
{
    assert((head + word + tail).skip((head.len() + word.len()) as int) =~= tail);
}

/// The scan of [`lemma_replace_removes_every_occurrence`], `upto` places
/// into `text` without a find.
proof fn lemma_removes_from(text: Seq<char>, from: Seq<char>, to: Seq<char>, upto: int)
    requires
        from.len() > 0,
        !contains(to, from),
        !contains(from, to),
        never_overlap(from, to),
        never_overlap(to, from),
        0 <= upto <= text.len(),
        forall|i: int| 0 <= i < upto ==> !occurs_at(text, from, i),
    ensures
        !contains(replace_all(text, from, to), from),
    decreases text.len(), text.len() - upto,
{
    let out = replace_all(text, from, to);
    if upto + from.len() > text.len() {
        assert(!contains(text, from));
        lemma_nothing_to_replace(text, from, to);
    } else if occurs_at(text, from, upto) {
        let rest = text.skip(upto + from.len());
        let tail = replace_all(rest, from, to);
        let head = text.take(upto);
        lemma_scan_prefix(text, from, to, upto);
        lemma_scan_step(text, from, to, upto);
        lemma_removes_from(rest, from, to, 0);
        assert(out =~= head + to + tail);
        lemma_middle(head, to, tail);
        assert forall|at: int| !occurs_at(out, from, at) by {
            if occurs_at(out, from, at) {
                let found = out.subrange(at, at + from.len());
                assert(forall|m: int| 0 <= m < from.len() ==> from[m] == found[m]);
                if at + from.len() <= upto {
                    assert(text.subrange(at, at + from.len()) =~= found);
                    assert(occurs_at(text, from, at));
                } else if at >= upto + to.len() {
                    let inner = at - upto - to.len();
                    assert(tail.subrange(inner, inner + from.len()) =~= found);
                    assert(occurs_at(tail, from, inner));
                } else if at < upto {
                    let size = at + from.len() - upto;
                    if size <= to.len() {
                        assert forall|i: int| 0 <= i < size implies from[from.len() - size + i]
                            == to[i] by {
                            assert(found[from.len() - size + i] == out[upto + i]);
                        }
                        assert(from.subrange(from.len() - size, from.len() as int)
                            =~= to.subrange(0, size));
                        assert(overlap(from, to, size));
                    } else {
                        let inner = upto - at;
                        assert forall|i: int| 0 <= i < to.len() implies from[inner + i]
                            == to[i] by {
                            assert(found[inner + i] == out[upto + i]);
                        }
                        assert(from.subrange(inner, inner + to.len()) =~= to);
                        assert(occurs_at(from, to, inner));
                    }
                } else {
                    let inner = at - upto;
                    if at + from.len() <= upto + to.len() {
                        assert forall|i: int| 0 <= i < from.len() implies to[inner + i]
                            == from[i] by {
                            assert(found[i] == out[upto + (inner + i)]);
                        }
                        assert(to.subrange(inner, inner + from.len()) =~= from);
                        assert(occurs_at(to, from, inner));
                    } else {
                        let size = to.len() - inner;
                        assert forall|i: int| 0 <= i < size implies to[to.len() - size + i]
                            == from[i] by {
                            assert(found[i] == out[upto + (inner + i)]);
                        }
                        assert(to.subrange(to.len() - size, to.len() as int) =~= from.subrange(
                            0,
                            size,
                        ));
                        assert(overlap(to, from, size));
                    }
                }
            }
        }
    } else {
        lemma_removes_from(text, from, to, upto + 1);
    }
}

/// Where neither of two words stands in the other and no end of one is a
/// beginning of the other, replacing the first by the second leaves no
/// occurrence of the first behind.
pub proof fn lemma_replace_removes_every_occurrence(
    text: Seq<char>,
    from: Seq<char>,
    to: Seq<char>,
)
    requires
        !contains(to, from),
        !contains(from, to),
        never_overlap(from, to),
        never_overlap(to, from),
    ensures
        !contains(replace_all(text, from, to), from),
        count_matches(replace_all(text, from, to), from) == 0,
{
    if from.len() == 0 {
        assert(to.subrange(0, 0) =~= from);
        assert(occurs_at(to, from, 0));
    }
    lemma_removes_from(text, from, to, 0);
    lemma_nothing_to_replace(replace_all(text, from, to), from, to);
}

/// The scan of [`lemma_replace_puts_one_for_one`], `upto` places into `text`
/// without a find.
proof fn lemma_counts_from(text: Seq<char>, from: Seq<char>, to: Seq<char>, upto: int)
    requires
        from.len() > 0,
        to.len() > 0,
        borderless(to),
        !contains(text, to),
        0 <= upto <= text.len(),
        forall|i: int| 0 <= i < upto ==> !occurs_at(text, from, i),
    ensures
        count_matches(replace_all(text, from, to), to) == count_matches(text, from),
    decreases text.len(), text.len() - upto,
{
    let out = replace_all(text, from, to);
    if upto + from.len() > text.len() {
        assert(!contains(text, from));
        lemma_nothing_to_replace(text, from, to);
        lemma_nothing_to_replace(text, to, from);
    } else if occurs_at(text, from, upto) {
        let rest = text.skip(upto + from.len());
        let tail = replace_all(rest, from, to);
        let head = text.take(upto);
        lemma_scan_prefix(text, from, to, upto);
        lemma_scan_step(text, from, to, upto);
        assert forall|at: int| !occurs_at(rest, to, at) by {
            if occurs_at(rest, to, at) {
                assert(text.subrange(upto + from.len() + at, upto + from.len() + at + to.len())
                    =~= rest.subrange(at, at + to.len()));
                assert(occurs_at(text, to, upto + from.len() + at));
            }
        }
        lemma_counts_from(rest, from, to, 0);
        assert(out =~= head + to + tail);
        lemma_middle(head, to, tail);
        assert forall|at: int| 0 <= at < upto implies !occurs_at(out, to, at) by {
            if occurs_at(out, to, at) {
                let found = out.subrange(at, at + to.len());
                assert(forall|m: int| 0 <= m < to.len() ==> to[m] == found[m]);
                if at + to.len() <= upto {
                    assert(text.subrange(at, at + to.len()) =~= found);
                    assert(occurs_at(text, to, at));
                } else {
                    let size = at + to.len() - upto;
                    assert forall|i: int| 0 <= i < size implies to[to.len() - size + i]
                        == #[trigger] to[i] by {
                        assert(found[to.len() - size + i] == out[upto + i]);
                    }
                    assert(to.subrange(to.len() - size, to.len() as int) =~= to.subrange(0, size));
                    assert(overlap(to, to, size));
                }
            }
        }
        assert(out.subrange(upto, upto + to.len()) =~= to);
        assert(occurs_at(out, to, upto));
        lemma_scan_prefix(out, to, from, upto);
        lemma_scan_step(out, to, from, upto);
    } else {
        lemma_counts_from(text, from, to, upto + 1);
    }
}

/// Where the replacement has no end, short of the whole, that is also its
/// beginning, and the text holds none to begin with, the result holds
/// exactly one replacement for each occurrence that the text held.
pub proof fn lemma_replace_puts_one_for_one(text: Seq<char>, from: Seq<char>, to: Seq<char>)
    requires
        from.len() > 0,
        to.len() > 0,
        borderless(to),
        !contains(text, to),
    ensures
        count_matches(replace_all(text, from, to), to) == count_matches(text, from),
{
    lemma_counts_from(text, from, to, 0);
}

/// `c` occurs in neither word.
pub open spec fn foreign(c: char, from: Seq<char>, to: Seq<char>) -> bool {
    !from.contains(c) && !to.contains(c)
}

/// Every occurrence of `from` in `text` stands between delimiters: on each
/// side it has the end of the text or a character that occurs neither in
/// `from` nor in `to`.
pub open spec fn delimited(text: Seq<char>, from: Seq<char>, to: Seq<char>) -> bool {
    forall|at: int| #[trigger]
        occurs_at(text, from, at) ==> {
            &&& at == 0 || foreign(text[at - 1], from, to)
            &&& at + from.len() == text.len() || foreign(text[at + from.len()], from, to)
        }
}

/// What follows a delimited occurrence is delimited text again.
proof fn lemma_delimited_rest(text: Seq<char>, from: Seq<char>, to: Seq<char>, cut: int)
    requires
        delimited(text, from, to),
        0 <= cut <= text.len(),
    ensures
        delimited(text.skip(cut), from, to),
{
    let rest = text.skip(cut);
    assert forall|at: int| #[trigger] occurs_at(rest, from, at) implies {
        &&& at == 0 || foreign(rest[at - 1], from, to)
        &&& at + from.len() == rest.len() || foreign(rest[at + from.len()], from, to)
    } by {
        assert(text.subrange(cut + at, cut + at + from.len()) =~= rest.subrange(
            at,
            at + from.len(),
        ));
        assert(occurs_at(text, from, cut + at));
    }
}

/// Text that begins with a character foreign to `from` is copied there.
proof fn lemma_foreign_start(text: Seq<char>, from: Seq<char>, to: Seq<char>)
    requires
        from.len() > 0,
        text.len() > 0,
        !from.contains(text[0]),
    ensures
        replace_all(text, from, to).len() > 0,
        replace_all(text, from, to)[0] == text[0],
{
    if occurs_at(text, from, 0) {
        assert(text.subrange(0, from.len() as int)[0] == from[0]);
        assert(from.contains(from[0]));
    }
}

/// The scan of [`lemma_replace_removes_delimited`], `upto` places into
/// `text` without a find.
proof fn lemma_removes_delimited_from(text: Seq<char>, from: Seq<char>, to: Seq<char>, upto: int)
    requires
        from.len() > 0,
        !contains(to, from),
        delimited(text, from, to),
        0 <= upto <= text.len(),
        forall|i: int| 0 <= i < upto ==> !occurs_at(text, from, i),
    ensures
        !contains(replace_all(text, from, to), from),
    decreases text.len(), text.len() - upto,
{
    let out = replace_all(text, from, to);
    if upto + from.len() > text.len() {
        assert(!contains(text, from));
        lemma_nothing_to_replace(text, from, to);
    } else if occurs_at(text, from, upto) {
        let rest = text.skip(upto + from.len());
        let tail = replace_all(rest, from, to);
        let head = text.take(upto);
        lemma_scan_prefix(text, from, to, upto);
        lemma_scan_step(text, from, to, upto);
        lemma_delimited_rest(text, from, to, upto + from.len());
        lemma_removes_delimited_from(rest, from, to, 0);
        assert(out =~= head + to + tail);
        lemma_middle(head, to, tail);
        if rest.len() > 0 {
            assert(rest[0] == text[upto + from.len()]);
            lemma_foreign_start(rest, from, to);
        } else {
            assert(tail.len() == 0);
        }
        assert forall|at: int| !occurs_at(out, from, at) by {
            if occurs_at(out, from, at) {
                let found = out.subrange(at, at + from.len());
                assert(forall|m: int| 0 <= m < from.len() ==> from[m] == found[m]);
                if at + from.len() <= upto {
                    assert(text.subrange(at, at + from.len()) =~= found);
                    assert(occurs_at(text, from, at));
                } else if at >= upto + to.len() {
                    let inner = at - upto - to.len();
                    assert(tail.subrange(inner, inner + from.len()) =~= found);
                    assert(occurs_at(tail, from, inner));
                } else if at < upto {
                    let before = upto - 1 - at;
                    assert(found[before] == out[upto - 1]);
                    assert(out[upto - 1] == text[upto - 1]);
                    assert(from.contains(from[before]));
                } else if at + from.len() <= upto + to.len() {
                    let inner = at - upto;
                    assert forall|i: int| 0 <= i < from.len() implies to[inner + i]
                        == from[i] by {
                        assert(found[i] == out[upto + (inner + i)]);
                    }
                    assert(to.subrange(inner, inner + from.len()) =~= from);
                    assert(occurs_at(to, from, inner));
                } else {
                    let after = upto + to.len() - at;
                    assert(found[after] == out[upto + to.len()]);
                    assert(out[upto + to.len()] == tail[0]);
                    assert(from.contains(from[after]));
                }
            }
        }
    } else {
        lemma_removes_delimited_from(text, from, to, upto + 1);
    }
}

/// Where every occurrence of the first word stands between delimiters and
/// the first word does not stand in the second, replacing the first by the
/// second leaves no occurrence of the first behind.
pub proof fn lemma_replace_removes_delimited(text: Seq<char>, from: Seq<char>, to: Seq<char>)
    requires
        !contains(to, from),
        delimited(text, from, to),
    ensures
        !contains(replace_all(text, from, to), from),
        count_matches(replace_all(text, from, to), from) == 0,
{
    if from.len() == 0 {
        assert(to.subrange(0, 0) =~= from);
        assert(occurs_at(to, from, 0));
    }
    lemma_removes_delimited_from(text, from, to, 0);
    lemma_nothing_to_replace(replace_all(text, from, to), from, to);
}

/// The scan of [`lemma_replace_counts_delimited`], `upto` places into `text`
/// without a find.
proof fn lemma_counts_delimited_from(text: Seq<char>, from: Seq<char>, to: Seq<char>, upto: int)
    requires
        from.len() > 0,
        to.len() > 0,
        delimited(text, from, to),
        !contains(text, to),
        0 <= upto <= text.len(),
        forall|i: int| 0 <= i < upto ==> !occurs_at(text, from, i),
    ensures
        count_matches(replace_all(text, from, to), to) == count_matches(text, from),
    decreases text.len(), text.len() - upto,
{
    let out = replace_all(text, from, to);
    if upto + from.len() > text.len() {
        assert(!contains(text, from));
        lemma_nothing_to_replace(text, from, to);
        lemma_nothing_to_replace(text, to, from);
    } else if occurs_at(text, from, upto) {
        let rest = text.skip(upto + from.len());
        let tail = replace_all(rest, from, to);
        let head = text.take(upto);
        lemma_scan_prefix(text, from, to, upto);
        lemma_scan_step(text, from, to, upto);
        lemma_delimited_rest(text, from, to, upto + from.len());
        assert forall|at: int| !occurs_at(rest, to, at) by {
            if occurs_at(rest, to, at) {
                assert(text.subrange(upto + from.len() + at, upto + from.len() + at + to.len())
                    =~= rest.subrange(at, at + to.len()));
                assert(occurs_at(text, to, upto + from.len() + at));
            }
        }
        lemma_counts_delimited_from(rest, from, to, 0);
        assert(out =~= head + to + tail);
        lemma_middle(head, to, tail);
        assert forall|at: int| 0 <= at < upto implies !occurs_at(out, to, at) by {
            if occurs_at(out, to, at) {
                let found = out.subrange(at, at + to.len());
                assert(forall|m: int| 0 <= m < to.len() ==> to[m] == found[m]);
                if at + to.len() <= upto {
                    assert(text.subrange(at, at + to.len()) =~= found);
                    assert(occurs_at(text, to, at));
                } else {
                    let before = upto - 1 - at;
                    assert(found[before] == out[upto - 1]);
                    assert(out[upto - 1] == text[upto - 1]);
                    assert(to.contains(to[before]));
                }
            }
        }
        assert(out.subrange(upto, upto + to.len()) =~= to);
        assert(occurs_at(out, to, upto));
        lemma_scan_prefix(out, to, from, upto);
        lemma_scan_step(out, to, from, upto);
    } else {
        lemma_counts_delimited_from(text, from, to, upto + 1);
    }
}

/// Where every occurrence of the first word stands between delimiters and
/// the text holds no occurrence of the second, the result holds exactly one
/// replacement for each occurrence that the text held.
pub proof fn lemma_replace_counts_delimited(text: Seq<char>, from: Seq<char>, to: Seq<char>)
    requires
        from.len() > 0,
        delimited(text, from, to),
        !contains(text, to),
    ensures
        count_matches(replace_all(text, from, to), to) == count_matches(text, from),
{
    if to.len() == 0 {
        assert(text.subrange(0, 0) =~= to);
        assert(occurs_at(text, to, 0));
    }
    lemma_counts_delimited_from(text, from, to, 0);
}

} // verus!
