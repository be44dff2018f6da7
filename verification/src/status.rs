//! Reading what `git status --short` and `git stash list` print.

use crate::scan::{
    copy_range,
    find_char,
    find_last,
    last_occurrence,
    lemma_last_occurrence_result,
    lines_of,
    matches_at,
    position,
    split_lines,
};
use crate::text::{chars_of, is_blank, lemma_blank_trims_to_empty, string_of_range, trim_bounds, trimmed};
use vstd::prelude::*;
use vstd::string::StringExecFns;

verus! {

/// The label of the stash entries that the synchroniser makes.
pub open spec fn autostash_label() -> Seq<char> {
    "obsyncgit-autostash"@
}

/// The stash that is taken to be the synchroniser's own where no entry
/// carries its label: the newest one.
pub open spec fn newest_stash() -> Seq<char> {
    "stash@{0}"@
}

/// How many bytes `c` takes in UTF-8.
pub open spec fn utf8_width(c: char) -> nat {
    let n = c as u32;
    if n < 0x80 {
        1
    } else if n < 0x800 {
        2
    } else if n < 0x10000 {
        3
    } else {
        4
    }
}

/// How many bytes `s` takes in UTF-8.
pub open spec fn utf8_len(s: Seq<char>) -> nat
    decreases s.len(),
{
    if s.len() == 0 {
        0
    } else {
        utf8_len(s.drop_last()) + utf8_width(s.last())
    }
}

/// A status line without its first three bytes, the two status letters and
/// the blank after them. A line of three bytes or fewer is kept whole, and so
/// is one whose third byte ends inside a character.
pub open spec fn status_payload(line: Seq<char>) -> Seq<char> {
    if utf8_len(line) <= 3 {
        line
    } else if line.len() >= 1 && utf8_len(line.take(1)) == 3 {
        line.skip(1)
    } else if line.len() >= 2 && utf8_len(line.take(2)) == 3 {
        line.skip(2)
    } else if line.len() >= 3 && utf8_len(line.take(3)) == 3 {
        line.skip(3)
    } else {
        line
    }
}

/// The path that a status line names: for a rename, written `old -> new`,
/// the new path.
pub open spec fn changed_path(line: Seq<char>) -> Seq<char> {
    let payload = status_payload(line);
    let arrow = last_occurrence(payload, " -> "@);
    if arrow >= 0 {
        trimmed(payload.skip(arrow + 4))
    } else {
        trimmed(payload)
    }
}

/// The paths that the lines name, blank lines left out.
pub open spec fn paths_of_lines(lines: Seq<Seq<char>>) -> Seq<Seq<char>>
    decreases lines.len(),
{
    if lines.len() == 0 {
        Seq::empty()
    } else if is_blank(lines.last()) {
        paths_of_lines(lines.drop_last())
    } else {
        paths_of_lines(lines.drop_last()).push(changed_path(lines.last()))
    }
}

/// Whether a line of short-form status names a change that is staged. The
/// first character of a line tells the state of the index: a blank says that
/// nothing of the path is staged, `?` that the path is untracked and `!`
/// that it is ignored. A blank line names nothing.
pub open spec fn is_staged_line(line: Seq<char>) -> bool {
    !is_blank(line) && line[0] != ' ' && line[0] != '?' && line[0] != '!'
}

/// Whether one of the lines names a change that is staged.
pub open spec fn any_staged(lines: Seq<Seq<char>>) -> bool {
    exists|i: int| 0 <= i < lines.len() && is_staged_line(#[trigger] lines[i])
}

/// Whether short-form status output names a change that is staged.
pub open spec fn names_staged_change(stdout: Seq<char>) -> bool {
    any_staged(lines_of(stdout))
}

/// The changed paths that short-form status output names, in its order.
pub open spec fn changed_paths(stdout: Seq<char>) -> Seq<Seq<char>> {
    paths_of_lines(lines_of(stdout))
}

/// No sequence takes fewer bytes than it has characters.
pub proof fn lemma_utf8_len_at_least_len(s: Seq<char>)
    ensures
        utf8_len(s) >= s.len(),
    decreases s.len(),
{
    if s.len() > 0 {
        lemma_utf8_len_at_least_len(s.drop_last());
    }
}

fn char_width(c: char) -> (w: usize)
    ensures
        w == utf8_width(c),
{
    let n: u32 = c as u32;
    if n < 0x80 {
        1
    } else if n < 0x800 {
        2
    } else if n < 0x10000 {
        3
    } else {
        4
    }
}

/// The index at which the payload of a status line starts.
fn payload_start(line: &Vec<char>) -> (k: usize)
    ensures
        k <= line.len(),
        status_payload(line@) == line@.skip(k as int),
{
    let n = line.len();
    let ghost s = line@;
    assert(s.skip(0) == s);
    assert(s.take(0).len() == 0);
    if n == 0 {
        return 0;
    }
    let w0 = char_width(line[0]);
    assert(utf8_len(s.take(0)) == 0);
    assert(s.take(1).drop_last() == s.take(0));
    assert(s.take(1).last() == s[0]);
    assert(utf8_len(s.take(1)) == w0);
    if n == 1 {
        assert(s.take(1) == s);
        return 0;
    }
    let w1 = char_width(line[1]);
    assert(s.take(2).drop_last() == s.take(1));
    assert(s.take(2).last() == s[1]);
    assert(utf8_len(s.take(2)) == w0 + w1);
    if n == 2 {
        assert(s.take(2) == s);
        return if w0 + w1 > 3 && w0 == 3 {
            1
        } else {
            0
        };
    }
    let w2 = char_width(line[2]);
    assert(s.take(3).drop_last() == s.take(2));
    assert(s.take(3).last() == s[2]);
    assert(utf8_len(s.take(3)) == w0 + w1 + w2);
    if n == 3 {
        assert(s.take(3) == s);
    } else {
        proof {
            lemma_utf8_len_at_least_len(s);
        }
    }
    if n == 3 && w0 + w1 + w2 <= 3 {
        0
    } else if w0 == 3 {
        1
    } else if w0 + w1 == 3 {
        2
    } else if w0 + w1 + w2 == 3 {
        3
    } else {
        0
    }
}

/// The path that a status line names.
fn parse_changed_path(line: &Vec<char>) -> (path: String)
    ensures
        path@ == changed_path(line@),
{
    let start = payload_start(line);
    let payload = copy_range(line, start, line.len());
    assert(line@.subrange(start as int, line.len() as int) == line@.skip(start as int));
    let arrow = chars_of(" -> ");
    proof {
        reveal_strlit(" -> ");
    }
    let found = find_last(&payload, &arrow);
    proof {
        lemma_last_occurrence_result(payload@, arrow@, payload@.len() - arrow@.len());
    }
    let from = match found {
        Some(at) => at + 4,
        None => 0,
    };
    let tail = copy_range(&payload, from, payload.len());
    proof {
        assert(payload@.subrange(from as int, payload.len() as int) == payload@.skip(from as int));
        assert(payload@.skip(0) == payload@);
    }
    let (a, b) = trim_bounds(&tail);
    string_of_range(&tail, a, b)
}

/// The changed paths that short-form status output names, in its order.
pub fn parse_changed_files(stdout: &str) -> (files: Vec<String>)
    ensures
        files.deep_view() == changed_paths(stdout@),
{
    let text = chars_of(stdout);
    let lines = split_lines(&text);
    let mut files: Vec<String> = Vec::new();
    let mut i: usize = 0;
    let ghost all = lines.deep_view();
    while i < lines.len()
        invariant
            i <= lines.len(),
            all == lines.deep_view(),
            files.deep_view() == paths_of_lines(all.take(i as int)),
        decreases lines.len() - i,
    {
        let line = &lines[i];
        proof {
            assert(line.deep_view() =~= line@);
            assert(all[i as int] == line@);
            assert(all.take(i + 1).drop_last() == all.take(i as int));
            assert(all.take(i + 1).last() == line@);
            lemma_blank_trims_to_empty(line@);
        }
        let (a, b) = trim_bounds(line);
        if a < b {
            let ghost before = files.deep_view();
            let path = parse_changed_path(line);
            files.push(path);
            assert(files.deep_view() =~= before.push(changed_path(line@)));
        }
        i += 1;
    }
    assert(all.take(lines.len() as int) == all);
    files
}

/// Whether `text` ends with `suffix`.
pub open spec fn ends_with(text: Seq<char>, suffix: Seq<char>) -> bool {
    suffix.len() <= text.len() && text.skip(text.len() - suffix.len()) == suffix
}

/// Whether the subject of a stash entry carries the synchroniser's label:
/// trimmed, it is the label, or it ends with a colon, a blank and the label,
/// which is how git writes `On <branch>: <label>`.
pub open spec fn carries_label(subject: Seq<char>) -> bool {
    trimmed(subject) == autostash_label() || ends_with(
        trimmed(subject),
        ": obsyncgit-autostash"@,
    )
}

/// Whether short-form status output names a change that is staged.
pub fn has_staged_changes(stdout: &str) -> (r: bool)
    ensures
        r == names_staged_change(stdout@),
{
    let text = chars_of(stdout);
    let lines = split_lines(&text);
    let ghost all = lines.deep_view();
    let mut i: usize = 0;
    while i < lines.len()
        invariant
            i <= lines.len(),
            all == lines.deep_view(),
            all == lines_of(stdout@),
            forall|j: int| 0 <= j < i ==> !is_staged_line(#[trigger] all[j]),
        decreases lines.len() - i,
    {
        let line = &lines[i];
        proof {
            assert(line.deep_view() =~= line@);
            assert(all[i as int] == line@);
            lemma_blank_trims_to_empty(line@);
        }
        let (a, b) = trim_bounds(line);
        if a < b {
            let first = line[0];
            if first != ' ' && first != '?' && first != '!' {
                assert(is_staged_line(all[i as int]));
                return true;
            }
        }
        i += 1;
    }
    false
}

/// The stash that a line of `git stash list --format=%gd:%gs` names, where
/// the line carries the synchroniser's label: what stands before the first
/// colon, trimmed, where the subject that stands after it carries the label.
pub open spec fn labelled_stash(line: Seq<char>) -> Option<Seq<char>> {
    let colon = position(line, ':') as int;
    if colon < line.len() && carries_label(line.skip(colon + 1)) {
        Some(trimmed(line.take(colon)))
    } else {
        None
    }
}

/// The first stash in the lines that carries the synchroniser's label, and
/// the newest stash where none does.
pub open spec fn stash_in_lines(lines: Seq<Seq<char>>) -> Seq<char>
    decreases lines.len(),
{
    if lines.len() == 0 {
        newest_stash()
    } else {
        match labelled_stash(lines.first()) {
            Some(name) => name,
            None => stash_in_lines(lines.drop_first()),
        }
    }
}

/// The stash that holds the synchroniser's changes, given the stash listing.
pub open spec fn autostash_ref(listing: Seq<char>) -> Seq<char> {
    stash_in_lines(lines_of(listing))
}

/// Whether the subject of a stash entry carries the synchroniser's label.
fn subject_carries_label(subject: &Vec<char>) -> (r: bool)
    ensures
        r == carries_label(subject@),
{
    let (a, b) = trim_bounds(subject);
    let kept = copy_range(subject, a, b);
    let label = chars_of("obsyncgit-autostash");
    let tail = chars_of(": obsyncgit-autostash");
    if kept.len() == label.len() && matches_at(&kept, &label, 0) {
        assert(kept@.subrange(0, kept.len() as int) == kept@);
        return true;
    }
    proof {
        if kept@ == label@ {
            assert(kept@.subrange(0, kept.len() as int) == kept@);
        }
    }
    if kept.len() < tail.len() {
        return false;
    }
    let at = kept.len() - tail.len();
    assert(kept@.subrange(at as int, kept.len() as int) == kept@.skip(at as int));
    matches_at(&kept, &tail, at)
}

fn parse_labelled_stash(line: &Vec<char>) -> (r: Option<String>)
    ensures
        r.deep_view() == labelled_stash(line@),
{
    let colon = find_char(line, 0, line.len(), ':');
    assert(line@.subrange(0, line.len() as int) == line@);
    if colon >= line.len() {
        return None;
    }
    let subject = copy_range(line, colon + 1, line.len());
    assert(line@.subrange(colon + 1, line.len() as int) == line@.skip(colon + 1));
    if subject_carries_label(&subject) {
        let before = copy_range(line, 0, colon);
        assert(line@.subrange(0, colon as int) == line@.take(colon as int));
        let (c, d) = trim_bounds(&before);
        Some(string_of_range(&before, c, d))
    } else {
        None
    }
}

/// The stash that holds the synchroniser's changes, given the stash listing.
pub fn find_autostash(listing: &str) -> (name: String)
    ensures
        name@ == autostash_ref(listing@),
{
    let text = chars_of(listing);
    let lines = split_lines(&text);
    let mut i: usize = 0;
    let ghost all = lines.deep_view();
    assert(all.skip(0) == all);
    while i < lines.len()
        invariant
            i <= lines.len(),
            all == lines.deep_view(),
            all == lines_of(listing@),
            stash_in_lines(all) == stash_in_lines(all.skip(i as int)),
        decreases lines.len() - i,
    {
        let line = &lines[i];
        proof {
            assert(line.deep_view() =~= line@);
            assert(all.skip(i as int).first() == line@);
            assert(all.skip(i as int).drop_first() == all.skip(i + 1));
        }
        let entry = parse_labelled_stash(line);
        assert(all.skip(i as int).len() > 0);
        match entry {
            Some(name) => {
                assert(labelled_stash(line@) == Some(name@));
                return name;
            },
            None => {
                assert(labelled_stash(line@) is None);
            },
        }
        i += 1;
    }
    String::from_str("stash@{0}")
}

} // verus!
