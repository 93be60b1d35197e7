//! Line splitting and CSV field splitting.
use vstd::prelude::*;

use crate::text::{all_white_space, chars_of, string_of, trim, trim_chars};

verus! {

broadcast use vstd::string::group_string_axioms;

/// A line without the carriage return of a `\r\n` line ending.
pub open spec fn strip_cr(l: Seq<char>) -> Seq<char> {
    if l.len() > 0 && l.last() == '\r' {
        l.drop_last()
    } else {
        l
    }
}

/// The lines of `s` after the partial line `cur`, as `str::lines` yields them:
/// lines end at `\n` or `\r\n`, a final line ending is optional, and a `\r`
/// at the very end of the text stays in the last line.
pub open spec fn lines_from(s: Seq<char>, cur: Seq<char>) -> Seq<Seq<char>>
    decreases s.len(),
{
    if s.len() == 0 {
        if cur.len() == 0 {
            seq![]
        } else {
            seq![cur]
        }
    } else if s[0] == '\n' {
        seq![strip_cr(cur)] + lines_from(s.drop_first(), seq![])
    } else {
        lines_from(s.drop_first(), cur.push(s[0]))
    }
}

/// The lines of `s`, as `str::lines` yields them.
pub open spec fn lines(s: Seq<char>) -> Seq<Seq<char>> {
    lines_from(s, seq![])
}

/// The lines of `ls` that hold something other than white space.
pub open spec fn non_blank(ls: Seq<Seq<char>>) -> Seq<Seq<char>>
    decreases ls.len(),
{
    if ls.len() == 0 {
        seq![]
    } else if all_white_space(ls[0]) {
        non_blank(ls.drop_first())
    } else {
        seq![ls[0]] + non_blank(ls.drop_first())
    }
}

/// The fields of the rest `s` of a CSV line, when the field read so far is `field`
/// and `in_quotes` tells whether a quoted section is open. A quote starts or ends a
/// quoted section and is dropped, two quotes inside a quoted section stand for one,
/// a comma outside quotes ends a field, and each field is trimmed of white space.
pub open spec fn fields_from(s: Seq<char>, in_quotes: bool, field: Seq<char>) -> Seq<Seq<char>>
    decreases s.len(),
{
    if s.len() == 0 {
        seq![trim(field)]
    } else if s[0] == '"' && in_quotes && s.len() >= 2 && s[1] == '"' {
        fields_from(s.skip(2), in_quotes, field.push('"'))
    } else if s[0] == '"' {
        fields_from(s.drop_first(), !in_quotes, field)
    } else if s[0] == ',' && !in_quotes {
        seq![trim(field)] + fields_from(s.drop_first(), in_quotes, seq![])
    } else {
        fields_from(s.drop_first(), in_quotes, field.push(s[0]))
    }
}

/// The fields of the CSV line `line`.
pub open spec fn csv_fields(line: Seq<char>) -> Seq<Seq<char>> {
    fields_from(line, false, seq![])
}

pub open spec fn views(v: Seq<Vec<char>>) -> Seq<Seq<char>> {
    v.map_values(|x: Vec<char>| x@)
}

/// The number of lines of `ls` that hold something other than white space.
pub open spec fn count_non_blank(ls: Seq<Seq<char>>) -> nat {
    non_blank(ls).len()
}

proof fn lemma_non_blank_append(a: Seq<Seq<char>>, b: Seq<Seq<char>>)
    ensures
        non_blank(a + b) == non_blank(a) + non_blank(b),
    decreases a.len(),
{
    if a.len() == 0 {
        assert(a + b =~= b);
    } else {
        lemma_non_blank_append(a.drop_first(), b);
        assert((a + b).drop_first() =~= a.drop_first() + b);
        assert((a + b)[0] == a[0]);
    }
}

/// There are no more non-blank lines than characters.
pub proof fn lemma_non_blank_count(s: Seq<char>, cur: Seq<char>)
    ensures
        non_blank(lines_from(s, cur)).len() <= s.len() + (if cur.len() > 0 {
            1int
        } else {
            0int
        }),
    decreases s.len(),
{
    if s.len() == 0 {
        if cur.len() > 0 {
            let ls = seq![cur];
            assert(ls.drop_first() =~= Seq::<Seq<char>>::empty());
            assert(non_blank(ls.drop_first()).len() == 0);
        }
    } else if s[0] == '\n' {
        lemma_non_blank_count(s.drop_first(), seq![]);
        let head: Seq<Seq<char>> = seq![strip_cr(cur)];
        lemma_non_blank_append(head, lines_from(s.drop_first(), seq![]));
        assert(head.drop_first() =~= Seq::<Seq<char>>::empty());
        assert(non_blank(head.drop_first()).len() == 0);
        assert(non_blank(head).len() <= 1);
        if cur.len() == 0 {
            assert(all_white_space(strip_cr(cur)));
            assert(non_blank(head).len() == 0);
        }
        assert(lines_from(s, cur) == head + lines_from(s.drop_first(), seq![]));
    } else {
        lemma_non_blank_count(s.drop_first(), cur.push(s[0]));
    }
}

/// The lines of `s`, as `str::lines` yields them.
pub fn split_lines(s: &[char]) -> (r: Vec<Vec<char>>)
    ensures
        views(r@) == lines(s@),
{
    let mut out: Vec<Vec<char>> = Vec::new();
    let mut cur: Vec<char> = Vec::new();
    let mut i: usize = 0;
    assert(s@.skip(0) =~= s@);
    assert(views(out@) =~= Seq::<Seq<char>>::empty());
    assert(cur@ =~= Seq::<char>::empty());
    assert(lines(s@) =~= views(out@) + lines_from(s@.skip(0), cur@));
    while i < s.len()
        invariant
            i <= s@.len(),
            lines(s@) == views(out@) + lines_from(s@.skip(i as int), cur@),
        decreases s@.len() - i,
    {
        let ghost rest = s@.skip(i as int);
        assert(rest.drop_first() =~= s@.skip(i + 1));
        if s[i] == '\n' {
            let mut line = cur;
            if line.len() > 0 && line[line.len() - 1] == '\r' {
                line.pop();
            }
            assert(line@ =~= strip_cr(cur@));
            let ghost before = views(out@);
            out.push(line);
            assert(views(out@) =~= before + seq![line@]);
            cur = Vec::new();
            assert(cur@ =~= Seq::<char>::empty());
        } else {
            cur.push(s[i]);
        }
        i = i + 1;
    }
    assert(s@.skip(i as int) =~= Seq::<char>::empty());
    if cur.len() > 0 {
        let ghost before = views(out@);
        out.push(cur);
        assert(views(out@) =~= before + seq![cur@]);
    } else {
        assert(views(out@) =~= views(out@) + Seq::<Seq<char>>::empty());
    }
    out
}

/// Whether every character of `s` is white space.
pub fn is_blank(s: &[char]) -> (b: bool)
    ensures
        b == all_white_space(s@),
{
    let mut i: usize = 0;
    while i < s.len()
        invariant
            i <= s@.len(),
            forall|k: int| 0 <= k < i ==> crate::text::is_white_space(#[trigger] s@[k]),
        decreases s@.len() - i,
    {
        if !crate::text::is_whitespace(s[i]) {
            return false;
        }
        i = i + 1;
    }
    true
}

/// The lines of `ls` that hold something other than white space.
pub fn non_blank_lines(ls: Vec<Vec<char>>) -> (r: Vec<Vec<char>>)
    ensures
        views(r@) == non_blank(views(ls@)),
{
    let ghost all = views(ls@);
    let mut kept: Vec<Vec<char>> = Vec::new();
    let mut rest = ls;
    let n = rest.len();
    let mut i: usize = 0;
    assert(all.skip(0) =~= all);
    assert(views(kept@) =~= Seq::<Seq<char>>::empty());
    assert(non_blank(all) =~= views(kept@) + non_blank(all.skip(0)));
    // Walk the lines in order, keeping the non-blank ones.
    while i < n
        invariant
            n == all.len(),
            rest@.len() == n,
            views(rest@) == all,
            i <= n,
            non_blank(all) == views(kept@) + non_blank(all.skip(i as int)),
        decreases n - i,
    {
        let ghost tail = all.skip(i as int);
        assert(tail.drop_first() =~= all.skip(i + 1));
        assert(tail[0] == all[i as int]);
        assert(all[i as int] == rest@[i as int]@);
        let blank = is_blank(rest[i].as_slice());
        if !blank {
            let line = crate::text::copy_range(rest[i].as_slice(), 0, rest[i].len());
            assert(line@ =~= rest@[i as int]@);
            let ghost before = views(kept@);
            kept.push(line);
            assert(views(kept@) =~= before + seq![line@]);
        }
        i = i + 1;
    }
    assert(all.skip(n as int) =~= Seq::<Seq<char>>::empty());
    assert(views(kept@) + Seq::<Seq<char>>::empty() =~= views(kept@));
    kept
}

/// The fields of the CSV line `s`.
pub fn split_csv_chars(s: &[char]) -> (r: Vec<Vec<char>>)
    ensures
        views(r@) == csv_fields(s@),
{
    let mut fields: Vec<Vec<char>> = Vec::new();
    let mut field: Vec<char> = Vec::new();
    let mut in_quotes = false;
    let n = s.len();
    let mut i: usize = 0;
    assert(s@.skip(0) =~= s@);
    assert(views(fields@) =~= Seq::<Seq<char>>::empty());
    assert(field@ =~= Seq::<char>::empty());
    assert(csv_fields(s@) =~= views(fields@) + fields_from(s@.skip(0), in_quotes, field@));
    while i < n
        invariant
            n == s@.len(),
            i <= n,
            csv_fields(s@) == views(fields@) + fields_from(s@.skip(i as int), in_quotes, field@),
        decreases n - i,
    {
        let ghost rest = s@.skip(i as int);
        assert(rest[0] == s@[i as int]);
        assert(rest.drop_first() =~= s@.skip(i + 1));
        let ch = s[i];
        if ch == '"' && in_quotes && i + 1 < n && s[i + 1] == '"' {
            assert(rest.skip(2) =~= s@.skip(i + 2));
            assert(rest[1] == s@[i + 1]);
            field.push('"');
            i = i + 2;
        } else if ch == '"' {
            in_quotes = !in_quotes;
            i = i + 1;
        } else if ch == ',' && !in_quotes {
            let t = trim_chars(field.as_slice());
            let ghost before = views(fields@);
            fields.push(t);
            assert(views(fields@) =~= before + seq![trim(field@)]);
            field = Vec::new();
            assert(field@ =~= Seq::<char>::empty());
            i = i + 1;
        } else {
            field.push(ch);
            i = i + 1;
        }
    }
    assert(s@.skip(i as int) =~= Seq::<char>::empty());
    let t = trim_chars(field.as_slice());
    let ghost before = views(fields@);
    fields.push(t);
    assert(views(fields@) =~= before + seq![trim(field@)]);
    fields
}

/// The fields of the CSV line `line`, each trimmed of white space.
pub fn split_csv_line(line: &str) -> (r: Vec<String>)
    ensures
        r@.map_values(|x: String| x@) == csv_fields(line@),
{
    let chars = chars_of(line);
    let fields = split_csv_chars(chars.as_slice());
    let mut out: Vec<String> = Vec::new();
    let mut i: usize = 0;
    while i < fields.len()
        invariant
            i <= fields@.len(),
            out@.len() == i,
            forall|k: int| 0 <= k < i ==> (#[trigger] out@[k])@ == fields@[k]@,
        decreases fields@.len() - i,
    {
        out.push(string_of(fields[i].as_slice()));
        i = i + 1;
    }
    assert(out@.map_values(|x: String| x@) =~= views(fields@));
    out
}

} // verus!
