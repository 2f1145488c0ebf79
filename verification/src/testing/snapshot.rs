//! Golden-file comparison: a line diff of two texts, marked the way
//! `diff -u` marks one.
//!
//! A snapshot of draw calls is short enough that trimming the common prefix
//! and suffix reads as well as a real edit script would.
use vstd::prelude::*;
use vstd::string::*;

use crate::text::push_text;
use crate::widgets::readout::{decimal_digits, push_char, push_digits};

verus! {

/// `line` without one trailing carriage return, so `\r\n` ends a line as
/// `\n` does.
pub open spec fn strip_cr(line: Seq<char>) -> Seq<char> {
    if line.len() > 0 && line.last() == '\r' {
        line.drop_last()
    } else {
        line
    }
}

/// The lines of `rest`, given that `current` has been read since the last
/// line ending. A final line ending is optional: text that ends with one has
/// the same lines as text without it.
pub open spec fn lines_after(current: Seq<char>, rest: Seq<char>) -> Seq<Seq<char>>
    decreases rest.len(),
{
    if rest.len() == 0 {
        if current.len() == 0 {
            Seq::empty()
        } else {
            seq![current]
        }
    } else if rest[0] == '\n' {
        seq![strip_cr(current)] + lines_after(Seq::empty(), rest.drop_first())
    } else {
        lines_after(current.push(rest[0]), rest.drop_first())
    }
}

/// The lines of `text`, as `str::lines` splits them.
pub open spec fn lines(text: Seq<char>) -> Seq<Seq<char>> {
    lines_after(Seq::empty(), text)
}

/// The number of leading lines `a` and `b` share.
pub open spec fn is_common_prefix(a: Seq<Seq<char>>, b: Seq<Seq<char>>, k: int) -> bool {
    &&& 0 <= k <= a.len()
    &&& k <= b.len()
    &&& a.take(k) == b.take(k)
    &&& (k == a.len() || k == b.len() || a[k] != b[k])
}

/// The number of trailing lines `a` and `b` share, counting no further back
/// than `limit` lines.
pub open spec fn is_common_suffix(a: Seq<Seq<char>>, b: Seq<Seq<char>>, limit: int, k: int) -> bool {
    &&& 0 <= k <= limit
    &&& k <= a.len()
    &&& k <= b.len()
    &&& a.subrange(a.len() - k, a.len() as int) == b.subrange(b.len() - k, b.len() as int)
    &&& (k == limit || a[a.len() - k - 1] != b[b.len() - k - 1])
}

/// Each of `lines`, behind `mark` and followed by a line ending.
pub open spec fn marked(mark: Seq<char>, lines: Seq<Seq<char>>) -> Seq<char>
    decreases lines.len(),
{
    if lines.len() == 0 {
        Seq::empty()
    } else {
        marked(mark, lines.drop_last()) + mark + lines.last() + seq!['\n']
    }
}

/// The note standing for `count` unchanged lines, or nothing for none.
pub open spec fn identical_note(count: nat) -> Seq<char> {
    if count == 0 {
        Seq::empty()
    } else {
        "  ... "@ + decimal_digits(count) + " identical line(s)\n"@
    }
}

/// The diff of `expected` against `actual` once `prefix` leading and `suffix`
/// trailing lines are known to agree: the shared head, the lines only
/// `expected` has, the lines only `actual` has, the shared tail.
pub open spec fn diff_text(
    expected: Seq<Seq<char>>,
    actual: Seq<Seq<char>>,
    prefix: nat,
    suffix: nat,
) -> Seq<char> {
    identical_note(prefix) + marked("- "@, expected.subrange(prefix as int, expected.len() - suffix))
        + marked("+ "@, actual.subrange(prefix as int, actual.len() - suffix)) + identical_note(
        suffix,
    )
}


/// The lines of `text`, each without its line ending.
pub fn split_lines(text: &str) -> (r: Vec<String>)
    ensures
        r@.len() == lines(text@).len(),
        forall|i: int| 0 <= i < r@.len() ==> #[trigger] r@[i]@ == lines(text@)[i],
{
    let n = text.unicode_len();
    let mut done: Vec<String> = Vec::new();
    let mut current = String::new();
    let mut i: usize = 0;
    proof {
        assert(text@.skip(0) =~= text@);
        assert(done@.map_values(|s: String| s@) + lines_after(current@, text@) =~= lines(text@));
    }
    while i < n
        invariant
            n == text@.len(),
            i <= n,
            done@.map_values(|s: String| s@) + lines_after(current@, text@.skip(i as int))
                == lines(text@),
        decreases n - i,
    {
        let c = text.get_char(i);
        proof {
            assert(text@.skip(i as int)[0] == c);
            assert(text@.skip(i as int).drop_first() =~= text@.skip(i + 1));
        }
        if c == '\n' {
            let k = current.unicode_len();
            let line = if k > 0 && current.as_str().get_char(k - 1) == '\r' {
                let s = current.as_str().substring_char(0, k - 1);
                s.to_owned()
            } else {
                current
            };
            proof {
                assert(line@ == strip_cr(current@)) by {
                    if k > 0 && current@.last() == '\r' {
                        assert(current@.subrange(0, k - 1) =~= current@.drop_last());
                    }
                }
                assert((done@.push(line)).map_values(|s: String| s@) =~= done@.map_values(
                    |s: String| s@,
                ).push(line@));
                assert(done@.map_values(|s: String| s@).push(line@) + lines_after(
                    Seq::empty(),
                    text@.skip(i + 1),
                ) =~= done@.map_values(|s: String| s@) + (seq![strip_cr(current@)] + lines_after(
                    Seq::empty(),
                    text@.skip(i + 1),
                )));
            }
            done.push(line);
            current = String::new();
        } else {
            push_char(&mut current, c);
        }
        i = i + 1;
    }
    proof {
        assert(text@.skip(n as int).len() == 0);
    }
    if current.unicode_len() > 0 {
        proof {
            assert((done@.push(current)).map_values(|s: String| s@) =~= done@.map_values(
                |s: String| s@,
            ).push(current@));
        }
        done.push(current);
    } else {
        proof {
            assert(done@.map_values(|s: String| s@) + Seq::<Seq<char>>::empty() =~= done@.map_values(
                |s: String| s@,
            ));
        }
    }
    proof {
        assert forall|k: int| 0 <= k < done@.len() implies #[trigger] done@[k]@ == lines(text@)[k] by {
            assert(done@.map_values(|s: String| s@)[k] == done@[k]@);
        }
    }
    done
}

/// **Identical texts differ nowhere.** Diffing a text against itself marks
/// no line removed and none added: every line is counted as shared, once.
pub proof fn lemma_identical_texts_differ_nowhere(text: Seq<Seq<char>>, prefix: nat, suffix: nat)
    requires
        is_common_prefix(text, text, prefix as int),
        is_common_suffix(text, text, text.len() - prefix, suffix as int),
    ensures
        prefix == text.len(),
        suffix == 0,
        diff_text(text, text, prefix, suffix) == identical_note(text.len()),
{
    assert(text.subrange(prefix as int, text.len() - suffix) =~= Seq::<Seq<char>>::empty());
    assert(marked("- "@, Seq::<Seq<char>>::empty()) == Seq::<char>::empty());
    assert(marked("+ "@, Seq::<Seq<char>>::empty()) == Seq::<char>::empty());
    assert(identical_note(0) == Seq::<char>::empty());
    assert(diff_text(text, text, prefix, suffix) =~= identical_note(text.len()));
}

/// **A diff marks only what changed.** Lines before the first difference
/// and after the last are never marked, however long the texts.
pub proof fn lemma_shared_lines_are_not_marked(
    expected: Seq<Seq<char>>,
    actual: Seq<Seq<char>>,
    prefix: nat,
    suffix: nat,
)
    requires
        is_common_prefix(expected, actual, prefix as int),
        is_common_suffix(
            expected,
            actual,
            vstd::math::min(expected.len() as int, actual.len() as int) - prefix,
            suffix as int,
        ),
    ensures
        prefix + suffix <= expected.len(),
        prefix + suffix <= actual.len(),
        expected.take(prefix as int) == actual.take(prefix as int),
        expected.subrange(expected.len() - suffix, expected.len() as int) == actual.subrange(
            actual.len() - suffix,
            actual.len() as int,
        ),
{
}

/// Appends each of `lines[from..to]` behind `mark`, a line at a time.
fn push_marked(
    out: &mut String,
    mark: &str,
    lines: &Vec<String>,
    from: usize,
    to: usize,
    Ghost(text): Ghost<Seq<Seq<char>>>,
)
    requires
        from <= to <= lines@.len(),
        lines@.len() == text.len(),
        forall|i: int| 0 <= i < lines@.len() ==> #[trigger] lines@[i]@ == text[i],
    ensures
        final(out)@ == old(out)@ + marked(mark@, text.subrange(from as int, to as int)),
{
    let mut k: usize = from;
    proof {
        assert(text.subrange(from as int, from as int) =~= Seq::<Seq<char>>::empty());
        assert(out@ =~= old(out)@ + marked(mark@, text.subrange(from as int, from as int)));
    }
    while k < to
        invariant
            from <= k <= to <= lines@.len(),
            lines@.len() == text.len(),
            forall|i: int| 0 <= i < lines@.len() ==> #[trigger] lines@[i]@ == text[i],
            out@ == old(out)@ + marked(mark@, text.subrange(from as int, k as int)),
        decreases to - k,
    {
        let ghost before = out@;
        push_text(out, mark);
        push_text(out, lines[k].as_str());
        push_char(out, '\n');
        proof {
            let next = text.subrange(from as int, k + 1);
            assert(next.drop_last() =~= text.subrange(from as int, k as int));
            assert(next.last() == text[k as int]);
            assert(lines@[k as int]@ == text[k as int]);
            assert(out@ =~= before + mark@ + text[k as int] + seq!['\n']);
            assert(marked(mark@, next) == marked(mark@, next.drop_last()) + mark@ + next.last()
                + seq!['\n']);
        }
        k = k + 1;
    }
}

/// Appends the note for `count` unchanged lines, or nothing for none.
fn push_identical_note(out: &mut String, count: usize)
    ensures
        final(out)@ == old(out)@ + identical_note(count as nat),
{
    if count > 0 {
        push_text(out, "  ... ");
        push_digits(out, count as u64);
        push_text(out, " identical line(s)\n");
        proof {
            assert(out@ =~= old(out)@ + identical_note(count as nat));
        }
    } else {
        proof {
            assert(out@ =~= old(out)@ + identical_note(count as nat));
        }
    }
}

/// A line-by-line diff of `expected` against `actual`.
///
/// Lines the two share at the start and at the end are summarised by
/// count; between them, the lines only `expected` has are marked `- ` and
/// the lines only `actual` has are marked `+ `. The shared tail is counted
/// no further back than the shared head, so identical texts are counted
/// once.
pub fn diff(expected: &str, actual: &str) -> (r: String)
    ensures
        exists|prefix: nat, suffix: nat|
            {
                &&& is_common_prefix(lines(expected@), lines(actual@), prefix as int)
                &&& is_common_suffix(
                    lines(expected@),
                    lines(actual@),
                    vstd::math::min(lines(expected@).len() as int, lines(actual@).len() as int) - prefix,
                    suffix as int,
                )
                &&& r@ == diff_text(lines(expected@), lines(actual@), prefix, suffix)
            },
{
    let e = split_lines(expected);
    let a = split_lines(actual);
    let ghost le = lines(expected@);
    let ghost la = lines(actual@);
    let shorter = if e.len() < a.len() { e.len() } else { a.len() };
    let mut prefix: usize = 0;
    while prefix < shorter
        invariant
            shorter == vstd::math::min(le.len() as int, la.len() as int),
            e@.len() == le.len(),
            a@.len() == la.len(),
            forall|i: int| 0 <= i < e@.len() ==> #[trigger] e@[i]@ == le[i],
            forall|i: int| 0 <= i < a@.len() ==> #[trigger] a@[i]@ == la[i],
            prefix <= shorter,
            le.take(prefix as int) == la.take(prefix as int),
        ensures
            prefix <= shorter,
            le.take(prefix as int) == la.take(prefix as int),
            prefix == shorter || le[prefix as int] != la[prefix as int],
        decreases shorter - prefix,
    {
        if !(e[prefix] == a[prefix]) {
            proof {
                assert(e@[prefix as int]@ == le[prefix as int]);
                assert(a@[prefix as int]@ == la[prefix as int]);
            }
            break;
        }
        proof {
            assert(e@[prefix as int]@ == le[prefix as int]);
            assert(a@[prefix as int]@ == la[prefix as int]);
            assert(le.take(prefix + 1) =~= le.take(prefix as int).push(le[prefix as int]));
            assert(la.take(prefix + 1) =~= la.take(prefix as int).push(la[prefix as int]));
        }
        prefix = prefix + 1;
    }
    proof {
        if prefix < shorter {
            assert(e@[prefix as int]@ == le[prefix as int]);
            assert(a@[prefix as int]@ == la[prefix as int]);
        }
    }
    let remaining = shorter - prefix;
    let mut suffix: usize = 0;
    while suffix < remaining
        invariant
            e@.len() == le.len(),
            a@.len() == la.len(),
            forall|i: int| 0 <= i < e@.len() ==> #[trigger] e@[i]@ == le[i],
            forall|i: int| 0 <= i < a@.len() ==> #[trigger] a@[i]@ == la[i],
            remaining <= le.len(),
            remaining <= la.len(),
            suffix <= remaining,
            le.subrange(le.len() - suffix, le.len() as int) == la.subrange(
                la.len() - suffix,
                la.len() as int,
            ),
        ensures
            suffix <= remaining,
            le.subrange(le.len() - suffix, le.len() as int) == la.subrange(
                la.len() - suffix,
                la.len() as int,
            ),
            suffix == remaining || le[le.len() - suffix - 1] != la[la.len() - suffix - 1],
        decreases remaining - suffix,
    {
        if !(e[e.len() - 1 - suffix] == a[a.len() - 1 - suffix]) {
            proof {
                assert(e@[le.len() - 1 - suffix]@ == le[le.len() - 1 - suffix]);
                assert(a@[la.len() - 1 - suffix]@ == la[la.len() - 1 - suffix]);
            }
            break;
        }
        proof {
            let ie = le.len() - 1 - suffix;
            let ia = la.len() - 1 - suffix;
            assert(e@[ie]@ == le[ie]);
            assert(a@[ia]@ == la[ia]);
            assert(le.subrange(ie, le.len() as int) =~= seq![le[ie]] + le.subrange(
                le.len() - suffix,
                le.len() as int,
            ));
            assert(la.subrange(ia, la.len() as int) =~= seq![la[ia]] + la.subrange(
                la.len() - suffix,
                la.len() as int,
            ));
        }
        suffix = suffix + 1;
    }
    proof {
        if suffix < remaining {
            let ie = le.len() - 1 - suffix;
            let ia = la.len() - 1 - suffix;
            assert(e@[ie]@ == le[ie]);
            assert(a@[ia]@ == la[ia]);
        }
        assert(is_common_prefix(le, la, prefix as int));
        assert(is_common_suffix(le, la, remaining as int, suffix as int));
    }
    let mut out = String::new();
    push_identical_note(&mut out, prefix);
    push_marked(&mut out, "- ", &e, prefix, e.len() - suffix, Ghost(le));
    push_marked(&mut out, "+ ", &a, prefix, a.len() - suffix, Ghost(la));
    push_identical_note(&mut out, suffix);
    proof {
        assert(out@ =~= diff_text(le, la, prefix as nat, suffix as nat));
    }
    out
}

} // verus!
