//! The one rule this repository exists to keep: the framework may not name a
//! product, a device or a backend.
//!
//! If you want to reach for a backend from inside the framework, add a trait
//! method instead: that is what the seam is for.
use vstd::prelude::*;
use vstd::string::*;

use crate::testing::snapshot::{lines, split_lines};
use crate::text::push_text;
use crate::widgets::readout::{decimal_digits, push_char, push_digits};

verus! {

/// How many words are forbidden.
pub const WORD_COUNT: usize = 11;

/// The forbidden word numbered `i`, lowercased.
///
/// The space in "x4 pro" is optional, and this is the *closed* spelling, the
/// one a Rust identifier would use.
pub open spec fn spec_word(i: int) -> Seq<char> {
    if i == 0 {
        "crosspoint"@
    } else if i == 1 {
        "xteink"@
    } else if i == 2 {
        "freeink"@
    } else if i == 3 {
        "embedded_graphics"@
    } else if i == 4 {
        "badger"@
    } else if i == 5 {
        "tufty"@
    } else if i == 6 {
        "pimoroni"@
    } else if i == 7 {
        "seeed"@
    } else if i == 8 {
        "sticky"@
    } else if i == 9 {
        "x4pro"@
    } else {
        "gfxrenderer"@
    }
}

/// The forbidden word numbered `i`, lowercased.
pub fn forbidden_word(i: usize) -> (r: &'static str)
    requires
        i < WORD_COUNT,
    ensures
        r@ == spec_word(i as int),
{
    match i {
        0 => "crosspoint",
        1 => "xteink",
        2 => "freeink",
        3 => "embedded_graphics",
        4 => "badger",
        5 => "tufty",
        6 => "pimoroni",
        7 => "seeed",
        8 => "sticky",
        9 => "x4pro",
        _ => "gfxrenderer",
    }
}

/// Whether `c` has the Unicode `White_Space` property, as
/// `char::is_whitespace` answers.
pub open spec fn spec_is_whitespace(c: char) -> bool {
    let u = c as u32;
    (0x09 <= u <= 0x0d) || u == 0x20 || u == 0x85 || u == 0xa0 || u == 0x1680 || (0x2000 <= u
        <= 0x200a) || u == 0x2028 || u == 0x2029 || u == 0x202f || u == 0x205f || u == 0x3000
}

/// Whether `c` has the Unicode `White_Space` property.
pub fn is_whitespace(c: char) -> (r: bool)
    ensures
        r == spec_is_whitespace(c),
{
    let u = c as u32;
    (0x09 <= u && u <= 0x0d) || u == 0x20 || u == 0x85 || u == 0xa0 || u == 0x1680 || (0x2000 <= u
        && u <= 0x200a) || u == 0x2028 || u == 0x2029 || u == 0x202f || u == 0x205f || u == 0x3000
}

/// `s` with every whitespace character taken out.
pub open spec fn closed_up(s: Seq<char>) -> Seq<char>
    decreases s.len(),
{
    if s.len() == 0 {
        s
    } else if spec_is_whitespace(s.last()) {
        closed_up(s.drop_last())
    } else {
        closed_up(s.drop_last()).push(s.last())
    }
}

/// Whether `needle` occurs in `haystack` as a run of consecutive characters.
pub open spec fn occurs_in(haystack: Seq<char>, needle: Seq<char>) -> bool {
    exists|i: int|
        0 <= i && i + needle.len() <= haystack.len() && #[trigger] haystack.subrange(
            i,
            i + needle.len(),
        ) == needle
}

/// `s` lowercased, as `str::to_lowercase` maps it: by the Unicode case tables,
/// which take pages to write down.
pub uninterp spec fn lowercased(s: Seq<char>) -> Seq<char>;

/// `str::to_lowercase`: the lowercase mapping of every character, by the
/// Unicode tables. The claim is only that the result is a function of the
/// text alone, which the standard library documents.
#[verifier::external_body]
fn to_lowercase(s: &str) -> (r: String)
    ensures
        r@ == lowercased(s@),
{
    s.to_lowercase()
}

/// Whether the forbidden word numbered `i` is in text already lowercased: as
/// it stands, or with the whitespace closed up, so `x4 pro` and `x4pro` are
/// one rule.
pub open spec fn lowered_names_word(lowered: Seq<char>, i: int) -> bool {
    occurs_in(lowered, spec_word(i)) || occurs_in(closed_up(lowered), spec_word(i))
}

/// Whether the forbidden word numbered `i` is in `line`, compared lowercased.
pub open spec fn names_word(line: Seq<char>, i: int) -> bool {
    lowered_names_word(lowercased(line), i)
}

/// Whether `needle` occurs in `haystack`.
fn contains_text(haystack: &str, needle: &str) -> (r: bool)
    ensures
        r == occurs_in(haystack@, needle@),
{
    let h = haystack.unicode_len();
    let n = needle.unicode_len();
    if n > h {
        return false;
    }
    let last = h - n;
    let mut i: usize = 0;
    loop
        invariant
            h == haystack@.len(),
            n == needle@.len(),
            n <= h,
            last == h - n,
            i <= last,
            forall|k: int| 0 <= k < i ==> #[trigger] haystack@.subrange(k, k + n) != needle@,
        ensures
            forall|k: int| 0 <= k <= last ==> #[trigger] haystack@.subrange(k, k + n) != needle@,
        decreases last - i,
    {
        let mut j: usize = 0;
        let mut same = true;
        while j < n
            invariant
                h == haystack@.len(),
                n == needle@.len(),
                i + n <= h,
                j <= n,
                same ==> forall|k: int| 0 <= k < j ==> haystack@[i + k] == needle@[k],
                !same ==> haystack@.subrange(i as int, i + n) != needle@,
            decreases n - j,
        {
            if same && haystack.get_char(i + j) != needle.get_char(j) {
                proof {
                    assert(haystack@.subrange(i as int, i + n)[j as int] == haystack@[i + j]);
                }
                same = false;
            }
            j = j + 1;
        }
        if same {
            proof {
                assert(haystack@.subrange(i as int, i + n) =~= needle@);
            }
            return true;
        }
        if i == last {
            break;
        }
        i = i + 1;
    }
    proof {
        assert forall|k: int|
            0 <= k && k + needle@.len() <= haystack@.len() implies #[trigger] haystack@.subrange(
            k,
            k + needle@.len(),
        ) != needle@ by {}
    }
    false
}

/// `text` with its whitespace closed up.
fn close_up(text: &str) -> (r: String)
    ensures
        r@ == closed_up(text@),
{
    let n = text.unicode_len();
    let mut out = String::new();
    let mut i: usize = 0;
    while i < n
        invariant
            n == text@.len(),
            i <= n,
            out@ == closed_up(text@.take(i as int)),
        decreases n - i,
    {
        let c = text.get_char(i);
        proof {
            assert(text@.take(i + 1).drop_last() =~= text@.take(i as int));
            assert(text@.take(i + 1).last() == c);
        }
        if !is_whitespace(c) {
            push_char(&mut out, c);
        }
        i = i + 1;
    }
    proof {
        assert(text@.take(n as int) =~= text@);
    }
    out
}

/// The number of the first forbidden word, from number `i` on, in text
/// already lowercased.
pub open spec fn first_lowered_from(lowered: Seq<char>, i: int) -> Option<int>
    decreases WORD_COUNT - i,
{
    if i < 0 || i >= WORD_COUNT {
        None
    } else if lowered_names_word(lowered, i) {
        Some(i)
    } else {
        first_lowered_from(lowered, i + 1)
    }
}

/// The number of the first forbidden word `line` names.
pub open spec fn first_named(line: Seq<char>) -> Option<int> {
    first_lowered_from(lowercased(line), 0)
}

/// The first forbidden word in `lowered`, text already lowercased.
pub fn forbidden_in_lowered(lowered: &str) -> (r: Option<&'static str>)
    ensures
        r is None <==> forall|i: int| 0 <= i < WORD_COUNT ==> !lowered_names_word(lowered@, i),
        match first_lowered_from(lowered@, 0) {
            Some(i) => r matches Some(word) && word@ == spec_word(i),
            None => r is None,
        },
{
    let closed = close_up(lowered);
    let mut i: usize = 0;
    while i < WORD_COUNT
        invariant
            closed@ == closed_up(lowered@),
            i <= WORD_COUNT,
            forall|j: int| 0 <= j < i ==> !lowered_names_word(lowered@, j),
            first_lowered_from(lowered@, 0) == first_lowered_from(lowered@, i as int),
        decreases WORD_COUNT - i,
    {
        let word = forbidden_word(i);
        if contains_text(lowered, word) || contains_text(closed.as_str(), word) {
            proof {
                assert(lowered_names_word(lowered@, i as int));
            }
            return Some(word);
        }
        i = i + 1;
    }
    None
}

/// Whether a line names a forbidden word, and the first one it names.
///
/// The line is compared lowercased, and lowercased with its whitespace
/// removed as well, so `X4 Pro` is caught as `x4pro` is.
pub fn forbidden_in(line: &str) -> (r: Option<&'static str>)
    ensures
        r is None <==> forall|i: int| 0 <= i < WORD_COUNT ==> !names_word(line@, i),
        match first_named(line@) {
            Some(i) => r matches Some(word) && word@ == spec_word(i),
            None => r is None,
        },
{
    let lowered = to_lowercase(line);
    let r = forbidden_in_lowered(lowered.as_str());
    proof {
        assert forall|i: int|
            #![trigger names_word(line@, i)]
            #![trigger lowered_names_word(lowered@, i)]
            0 <= i < WORD_COUNT implies names_word(line@, i) == lowered_names_word(lowered@, i) by {}
    }
    r
}

/// The report line for a forbidden `word` at line `number` of `path`.
pub fn finding(path: &str, number: usize, word: &str) -> (r: String)
    ensures
        r@ == "  "@ + path@ + ":"@ + decimal_digits(number as nat) + "  "@ + word@,
{
    let mut out = String::new();
    push_text(&mut out, "  ");
    push_text(&mut out, path);
    push_text(&mut out, ":");
    push_digits(&mut out, number as u64);
    push_text(&mut out, "  ");
    push_text(&mut out, word);
    proof {
        assert(out@ =~= "  "@ + path@ + ":"@ + decimal_digits(number as nat) + "  "@ + word@);
    }
    out
}


/// The report line for forbidden `word` at line `number` of `path`.
pub open spec fn finding_text(path: Seq<char>, number: nat, word: Seq<char>) -> Seq<char> {
    "  "@ + path + ":"@ + decimal_digits(number) + "  "@ + word
}

/// A report line for every line of `lines` that names a forbidden word,
/// numbered from one, in order.
pub open spec fn findings(path: Seq<char>, lines: Seq<Seq<char>>) -> Seq<Seq<char>>
    decreases lines.len(),
{
    if lines.len() == 0 {
        Seq::empty()
    } else {
        let rest = findings(path, lines.drop_last());
        match first_named(lines.last()) {
            Some(i) => rest.push(finding_text(path, lines.len(), spec_word(i))),
            None => rest,
        }
    }
}

/// Every forbidden word in the source file `path` holding `text`, one
/// report line per line that names one.
///
/// Comments included, deliberately: a doc comment that explains the
/// framework by naming one backend teaches the next reader that the seam is
/// negotiable.
pub fn scan(path: &str, text: &str) -> (r: Vec<String>)
    ensures
        r@.map_values(|s: String| s@) == findings(path@, lines(text@)),
{
    let all = split_lines(text);
    let ghost ls = lines(text@);
    let mut found: Vec<String> = Vec::new();
    let mut i: usize = 0;
    proof {
        assert(ls.take(0) =~= Seq::<Seq<char>>::empty());
        assert(found@.map_values(|s: String| s@) =~= Seq::<Seq<char>>::empty());
    }
    while i < all.len()
        invariant
            i <= all@.len(),
            all@.len() == ls.len(),
            forall|k: int| 0 <= k < all@.len() ==> #[trigger] all@[k]@ == ls[k],
            found@.map_values(|s: String| s@) == findings(path@, ls.take(i as int)),
        decreases all@.len() - i,
    {
        let line = all[i].as_str();
        proof {
            let next = ls.take(i + 1);
            assert(next.drop_last() =~= ls.take(i as int));
            assert(next.last() == ls[i as int]);
            assert(all@[i as int]@ == ls[i as int]);
        }
        match forbidden_in(line) {
            Some(word) => {
                let report = finding(path, i + 1, word);
                let ghost before = found@;
                found.push(report);
                proof {
                    assert(found@.map_values(|s: String| s@) =~= before.map_values(|s: String| s@).push(
                        report@,
                    ));
                }
            },
            None => {},
        }
        i = i + 1;
    }
    proof {
        assert(ls.take(all@.len() as int) =~= ls);
    }
    found
}

/// The explanation that follows a list of findings.
pub open spec fn spec_advice() -> Seq<char> {
    "\n\nThe framework depends on traits; backends implement them. Add a\ntrait method rather than a special case."@
}

/// `lines` joined with line endings between them.
pub open spec fn joined(lines: Seq<Seq<char>>) -> Seq<char>
    decreases lines.len(),
{
    if lines.len() == 0 {
        Seq::empty()
    } else if lines.len() == 1 {
        lines[0]
    } else {
        joined(lines.drop_last()) + seq!['\n'] + lines.last()
    }
}

/// The check's verdict over `scanned` source files and the `found` report
/// lines: an error when nothing was scanned, since the filter is then
/// matching nothing; an error listing every finding when there are any; and
/// otherwise how many files were clean.
pub fn verdict(scanned: usize, found: &Vec<String>) -> (r: Result<String, String>)
    ensures
        scanned == 0 ==> (r matches Err(e) && e@
            == "no sources under src/ — the filter is matching nothing"@),
        scanned > 0 && found@.len() > 0 ==> (r matches Err(e) && e@ == joined(
            found@.map_values(|s: String| s@),
        ) + spec_advice()),
        scanned > 0 && found@.len() == 0 ==> (r matches Ok(m) && m@ == decimal_digits(
            scanned as nat,
        ) + " file(s), none naming a product or a backend"@),
{
    if scanned == 0 {
        return Err("no sources under src/ — the filter is matching nothing".to_owned());
    }
    if found.len() == 0 {
        let mut out = String::new();
        push_digits(&mut out, scanned as u64);
        push_text(&mut out, " file(s), none naming a product or a backend");
        return Ok(out);
    }
    let ghost lines = found@.map_values(|s: String| s@);
    let mut out = String::new();
    let mut i: usize = 0;
    while i < found.len()
        invariant
            i <= found@.len(),
            lines == found@.map_values(|s: String| s@),
            found@.len() > 0,
            i == 0 ==> out@ == Seq::<char>::empty(),
            i > 0 ==> out@ == joined(lines.take(i as int)),
        decreases found@.len() - i,
    {
        if i > 0 {
            push_char(&mut out, '\n');
        }
        push_text(&mut out, found[i].as_str());
        proof {
            let next = lines.take(i + 1);
            assert(next.drop_last() =~= lines.take(i as int));
            assert(next.last() == found@[i as int]@);
            if i == 0 {
                assert(next.len() == 1);
                assert(out@ =~= next[0]);
            } else {
                assert(out@ =~= joined(lines.take(i as int)) + seq!['\n'] + next.last());
            }
        }
        i = i + 1;
    }
    push_text(&mut out, "\n\nThe framework depends on traits; backends implement them. Add a\ntrait method rather than a special case.");
    proof {
        assert(lines.take(found@.len() as int) =~= lines);
    }
    Err(out)
}

/// Whether `path` lies under `src/`.
pub open spec fn under_src(path: Seq<char>) -> bool {
    path.len() >= 4 && path.take(4) == "src/"@
}

/// How many of `files`, as (path, text) pairs, lie under `src/`.
pub open spec fn sources_scanned(files: Seq<(Seq<char>, Seq<char>)>) -> nat
    decreases files.len(),
{
    if files.len() == 0 {
        0
    } else {
        sources_scanned(files.drop_last()) + if under_src(files.last().0) { 1nat } else { 0nat }
    }
}

/// The report lines for every file of `files` under `src/`, file by file.
pub open spec fn all_findings(files: Seq<(Seq<char>, Seq<char>)>) -> Seq<Seq<char>>
    decreases files.len(),
{
    if files.len() == 0 {
        Seq::empty()
    } else {
        let rest = all_findings(files.drop_last());
        let (path, text) = files.last();
        if under_src(path) {
            rest + findings(path, lines(text))
        } else {
            rest
        }
    }
}

/// Whether `path` lies under `src/`.
pub fn is_under_src(path: &str) -> (r: bool)
    ensures
        r == under_src(path@),
{
    let n = path.unicode_len();
    if n < 4 {
        return false;
    }
    let r = path.get_char(0) == 's' && path.get_char(1) == 'r' && path.get_char(2) == 'c' && path.get_char(3)
        == '/';
    proof {
        reveal_strlit("src/");
        if r {
            assert(path@.take(4) =~= "src/"@);
        } else {
            assert(path@.take(4)[0] == path@[0]);
            assert(path@.take(4)[1] == path@[1]);
            assert(path@.take(4)[2] == path@[2]);
            assert(path@.take(4)[3] == path@[3]);
        }
    }
    r
}

/// The check over a repository's `files`, each a path and its text: every
/// file under `src/` is scanned, in the order given, and the verdict is
/// given over how many were and what they named.
pub fn check(files: &Vec<(String, String)>) -> (r: Result<String, String>)
    ensures
        ({
            let seen = files@.map_values(|f: (String, String)| (f.0@, f.1@));
            let scanned = sources_scanned(seen);
            let found = all_findings(seen);
            &&& scanned == 0 ==> (r matches Err(e) && e@
                == "no sources under src/ — the filter is matching nothing"@)
            &&& scanned > 0 && found.len() > 0 ==> (r matches Err(e) && e@ == joined(found) + spec_advice())
            &&& scanned > 0 && found.len() == 0 ==> (r matches Ok(m) && m@ == decimal_digits(scanned)
                + " file(s), none naming a product or a backend"@)
        }),
{
    let ghost seen = files@.map_values(|f: (String, String)| (f.0@, f.1@));
    let mut found: Vec<String> = Vec::new();
    let mut scanned: usize = 0;
    let mut i: usize = 0;
    proof {
        assert(seen.take(0) =~= Seq::<(Seq<char>, Seq<char>)>::empty());
        assert(found@.map_values(|s: String| s@) =~= Seq::<Seq<char>>::empty());
    }
    while i < files.len()
        invariant
            i <= files@.len(),
            seen == files@.map_values(|f: (String, String)| (f.0@, f.1@)),
            scanned as nat == sources_scanned(seen.take(i as int)),
            scanned <= i,
            found@.map_values(|s: String| s@) == all_findings(seen.take(i as int)),
        decreases files@.len() - i,
    {
        let path = files[i].0.as_str();
        let text = files[i].1.as_str();
        proof {
            let next = seen.take(i + 1);
            assert(next.drop_last() =~= seen.take(i as int));
            assert(next.last() == seen[i as int]);
        }
        if is_under_src(path) {
            let more = scan(path, text);
            let ghost before = found@.map_values(|s: String| s@);
            let mut k: usize = 0;
            while k < more.len()
                invariant
                    k <= more@.len(),
                    found@.map_values(|s: String| s@) == before + more@.map_values(|s: String| s@).take(k as int),
                decreases more@.len() - k,
            {
                let ghost was = found@;
                found.push(more[k].clone());
                proof {
                    assert(found@.map_values(|s: String| s@) =~= was.map_values(|s: String| s@).push(more@[k as int]@));
                    assert(more@.map_values(|s: String| s@).take(k + 1) =~= more@.map_values(|s: String| s@).take(
                        k as int,
                    ).push(more@[k as int]@));
                }
                k = k + 1;
            }
            proof {
                assert(more@.map_values(|s: String| s@).take(more@.len() as int) =~= more@.map_values(|s: String| s@));
            }
            scanned = scanned + 1;
        }
        i = i + 1;
    }
    proof {
        assert(seen.take(files@.len() as int) =~= seen);
    }
    verdict(scanned, &found)
}

} // verus!
