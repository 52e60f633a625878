//! The playlist file format: a `#EXTM3U` marker line, then one path per line. On reading,
//! blank lines and lines starting with `#` are skipped and paths are trimmed.

use vstd::prelude::*;
use vstd::string::*;
use crate::text::{
    chars_of, push_char, string_of_chars, to_owned_string, trim_chars, trim_str,
    unicode_white_space,
};

verus! {

/// The marker line that opens a playlist file.
pub open spec fn m3u_header() -> Seq<char> {
    seq!['#', 'E', 'X', 'T', 'M', '3', 'U']
}

/// The paths of a sequence of strings.
pub open spec fn paths_of(s: Seq<String>) -> Seq<Seq<char>> {
    s.map_values(|x: String| x@)
}

/// One line per path, each ended by a line feed.
pub open spec fn m3u_lines(paths: Seq<Seq<char>>) -> Seq<char>
    decreases paths.len(),
{
    if paths.len() == 0 {
        Seq::empty()
    } else {
        paths[0] + seq!['\n'] + m3u_lines(paths.drop_first())
    }
}

/// The text of a playlist file listing `paths`.
pub open spec fn m3u_text(paths: Seq<Seq<char>>) -> Seq<char> {
    m3u_header() + seq!['\n'] + m3u_lines(paths)
}

/// `line` without a trailing carriage return.
pub open spec fn strip_cr(line: Seq<char>) -> Seq<char> {
    if line.len() > 0 && line.last() == '\r' {
        line.drop_last()
    } else {
        line
    }
}

/// What one line of a playlist file contributes: its trimmed text, unless that is empty
/// or a `#` comment.
pub open spec fn entry_of(line: Seq<char>) -> Seq<Seq<char>> {
    let t = trim_chars(strip_cr(line));
    if t.len() == 0 || t[0] == '#' {
        Seq::empty()
    } else {
        seq![t]
    }
}

/// Entries of `text` when the current line so far holds `cur`.
pub open spec fn entries_from(text: Seq<char>, cur: Seq<char>) -> Seq<Seq<char>>
    decreases text.len(),
{
    if text.len() == 0 {
        entry_of(cur)
    } else if text[0] == '\n' {
        entry_of(cur) + entries_from(text.drop_first(), Seq::empty())
    } else {
        entries_from(text.drop_first(), cur.push(text[0]))
    }
}

/// The paths that a playlist file's text lists.
pub open spec fn m3u_entries(text: Seq<char>) -> Seq<Seq<char>> {
    entries_from(text, Seq::empty())
}

/// A path that a playlist file keeps as it is: not empty, on one line, not starting with
/// `#`, without white space at either end.
pub open spec fn is_storable_path(p: Seq<char>) -> bool {
    &&& p.len() > 0
    &&& p[0] != '#'
    &&& p.last() != '\r'
    &&& !unicode_white_space(p[0])
    &&& !unicode_white_space(p.last())
    &&& forall|i: int| 0 <= i < p.len() ==> #[trigger] p[i] != '\n'
}

proof fn lemma_m3u_lines_push(paths: Seq<Seq<char>>, p: Seq<char>)
    ensures
        m3u_lines(paths.push(p)) == m3u_lines(paths) + p + seq!['\n'],
    decreases paths.len(),
{
    if paths.len() == 0 {
        assert(paths.push(p).drop_first() =~= Seq::<Seq<char>>::empty());
        assert(paths.push(p)[0] == p);
        assert(m3u_lines(Seq::<Seq<char>>::empty()) =~= Seq::<char>::empty());
        assert(m3u_lines(paths) =~= Seq::<char>::empty());
        assert(m3u_lines(paths.push(p)) =~= m3u_lines(paths) + p + seq!['\n']);
    } else {
        lemma_m3u_lines_push(paths.drop_first(), p);
        assert(paths.push(p).drop_first() =~= paths.drop_first().push(p));
        assert(paths.push(p)[0] == paths[0]);
        assert(m3u_lines(paths.push(p)) =~= m3u_lines(paths) + p + seq!['\n']);
    }
}

proof fn lemma_entries_line(line: Seq<char>, rest: Seq<char>, cur: Seq<char>)
    requires
        forall|i: int| 0 <= i < line.len() ==> #[trigger] line[i] != '\n',
    ensures
        entries_from(line + seq!['\n'] + rest, cur) == entry_of(cur + line) + entries_from(
            rest,
            Seq::empty(),
        ),
    decreases line.len(),
{
    let text = line + seq!['\n'] + rest;
    if line.len() == 0 {
        assert(text =~= seq!['\n'] + rest);
        assert(text.drop_first() =~= rest);
        assert(cur + line =~= cur);
    } else {
        assert(text[0] == line[0]);
        assert(text.drop_first() =~= line.drop_first() + seq!['\n'] + rest);
        lemma_entries_line(line.drop_first(), rest, cur.push(line[0]));
        assert(cur.push(line[0]) + line.drop_first() =~= cur + line);
    }
}

proof fn lemma_trim_keeps(p: Seq<char>)
    requires
        p.len() > 0,
        !unicode_white_space(p[0]),
        !unicode_white_space(p.last()),
    ensures
        trim_chars(p) == p,
{
}

/// Saving paths and reading them back gives the same paths in the same order, for paths
/// that a playlist file keeps as they are.
pub proof fn lemma_m3u_round_trip(paths: Seq<Seq<char>>)
    requires
        forall|i: int| 0 <= i < paths.len() ==> is_storable_path(#[trigger] paths[i]),
    ensures
        m3u_entries(m3u_text(paths)) == paths,
{
    let h = m3u_header();
    assert(forall|i: int| 0 <= i < h.len() ==> #[trigger] h[i] != '\n');
    assert(m3u_text(paths) =~= h + seq!['\n'] + m3u_lines(paths));
    lemma_entries_line(h, m3u_lines(paths), Seq::empty());
    assert(Seq::<char>::empty() + h =~= h);
    lemma_trim_keeps(h);
    assert(entry_of(h) =~= Seq::<Seq<char>>::empty());
    lemma_lines_entries(paths);
    assert(Seq::<Seq<char>>::empty() + paths =~= paths);
}

proof fn lemma_lines_entries(paths: Seq<Seq<char>>)
    requires
        forall|i: int| 0 <= i < paths.len() ==> is_storable_path(#[trigger] paths[i]),
    ensures
        entries_from(m3u_lines(paths), Seq::empty()) == paths,
    decreases paths.len(),
{
    if paths.len() == 0 {
        assert(trim_chars(Seq::<char>::empty()) =~= Seq::<char>::empty());
        assert(entry_of(Seq::<char>::empty()) =~= Seq::<Seq<char>>::empty());
    } else {
        let p = paths[0];
        assert(is_storable_path(p));
        lemma_lines_entries(paths.drop_first());
        assert(forall|i: int| 0 <= i < p.len() ==> #[trigger] p[i] != '\n');
        assert(m3u_lines(paths) =~= p + seq!['\n'] + m3u_lines(paths.drop_first()));
        lemma_entries_line(p, m3u_lines(paths.drop_first()), Seq::empty());
        assert(Seq::<char>::empty() + p =~= p);
        lemma_trim_keeps(p);
        assert(strip_cr(p) == p);
        assert(entry_of(p) =~= seq![p]);
        assert(seq![p] + paths.drop_first() =~= paths);
    }
}

/// The text of a playlist file listing `tracks`.
pub fn format_m3u(tracks: &[String]) -> (r: String)
    ensures
        r@ == m3u_text(paths_of(tracks@)),
{
    proof {
        reveal_strlit("#EXTM3U");
    }
    let mut s = String::from_str("#EXTM3U");
    push_char(&mut s, '\n');
    let mut i: usize = 0;
    proof {
        assert(paths_of(tracks@.take(0)) =~= Seq::<Seq<char>>::empty());
        assert(s@ =~= m3u_header() + seq!['\n'] + m3u_lines(paths_of(tracks@.take(0))));
    }
    while i < tracks.len()
        invariant
            i <= tracks@.len(),
            s@ == m3u_header() + seq!['\n'] + m3u_lines(paths_of(tracks@.take(i as int))),
        decreases tracks@.len() - i,
    {
        let ghost before = s@;
        s.append(tracks[i].as_str());
        push_char(&mut s, '\n');
        proof {
            assert(paths_of(tracks@.take(i + 1)) =~= paths_of(tracks@.take(i as int)).push(
                tracks@[i as int]@,
            ));
            lemma_m3u_lines_push(paths_of(tracks@.take(i as int)), tracks@[i as int]@);
            assert(s@ =~= m3u_header() + seq!['\n'] + m3u_lines(
                paths_of(tracks@.take(i + 1)),
            ));
        }
        i += 1;
    }
    proof {
        assert(tracks@.take(i as int) =~= tracks@);
    }
    s
}

/// The entry that the line `chars[from..to]` contributes, if any.
fn line_entry(chars: &Vec<char>, from: usize, to: usize) -> (r: Option<String>)
    requires
        from <= to <= chars@.len(),
    ensures
        match r {
            Some(t) => entry_of(chars@.subrange(from as int, to as int)) == seq![t@],
            None => entry_of(chars@.subrange(from as int, to as int)).len() == 0,
        },
{
    let ghost line = chars@.subrange(from as int, to as int);
    let end = if to > from && chars[to - 1] == '\r' {
        to - 1
    } else {
        to
    };
    proof {
        assert(strip_cr(line) =~= chars@.subrange(from as int, end as int));
    }
    let s = string_of_chars(chars, from, end);
    let t = trim_str(s.as_str());
    if t.unicode_len() == 0 || t.get_char(0) == '#' {
        None
    } else {
        Some(to_owned_string(t))
    }
}

/// The paths that a playlist file's text lists, in order.
pub fn parse_m3u(text: &str) -> (r: Vec<String>)
    ensures
        paths_of(r@) == m3u_entries(text@),
{
    let chars = chars_of(text);
    let mut out: Vec<String> = Vec::new();
    let mut start: usize = 0;
    let mut i: usize = 0;
    proof {
        assert(chars@.skip(0) =~= chars@);
        assert(chars@.subrange(0, 0) =~= Seq::<char>::empty());
        assert(paths_of(out@) =~= Seq::<Seq<char>>::empty());
    }
    while i < chars.len()
        invariant
            start <= i <= chars@.len(),
            chars@ == text@,
            paths_of(out@) + entries_from(
                chars@.skip(i as int),
                chars@.subrange(start as int, i as int),
            ) == m3u_entries(text@),
        decreases chars@.len() - i,
    {
        let ghost rest = chars@.skip(i as int);
        let ghost cur = chars@.subrange(start as int, i as int);
        proof {
            assert(rest[0] == chars@[i as int]);
            assert(rest.drop_first() =~= chars@.skip(i + 1));
        }
        if chars[i] == '\n' {
            let entry = line_entry(&chars, start, i);
            let ghost before = out@;
            match entry {
                Some(t) => {
                    out.push(t);
                },
                None => {},
            }
            proof {
                assert(paths_of(out@) =~= paths_of(before) + entry_of(cur));
                assert(chars@.subrange(i + 1, i + 1) =~= Seq::<char>::empty());
                assert(paths_of(out@) + entries_from(chars@.skip(i + 1), Seq::empty())
                    =~= paths_of(before) + entries_from(rest, cur));
            }
            start = i + 1;
        } else {
            proof {
                assert(chars@.subrange(start as int, i + 1) =~= cur.push(chars@[i as int]));
            }
        }
        i += 1;
    }
    let entry = line_entry(&chars, start, i);
    let ghost before = out@;
    match entry {
        Some(t) => {
            out.push(t);
        },
        None => {},
    }
    proof {
        assert(chars@.skip(i as int) =~= Seq::<char>::empty());
        assert(paths_of(out@) =~= paths_of(before) + entry_of(
            chars@.subrange(start as int, i as int),
        ));
    }
    out
}

} // verus!
