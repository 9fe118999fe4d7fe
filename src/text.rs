//! Text operations on strings, each stated over the characters it reads.

use vstd::prelude::*;
use vstd::string::*;

verus! {

/// The characters with the Unicode `White_Space` property, which `str::trim`
/// removes at both ends.
pub open spec fn is_space(c: char) -> bool {
    let u = c as u32;
    (0x09 <= u && u <= 0x0D) || u == 0x20 || u == 0x85 || u == 0xA0 || u == 0x1680 || (0x2000
        <= u && u <= 0x200A) || u == 0x2028 || u == 0x2029 || u == 0x202F || u == 0x205F || u
        == 0x3000
}

/// `s` without its leading white space.
pub open spec fn trim_start(s: Seq<char>) -> Seq<char>
    decreases s.len(),
{
    if s.len() > 0 && is_space(s[0]) {
        trim_start(s.drop_first())
    } else {
        s
    }
}

/// `s` without its trailing white space.
pub open spec fn trim_end(s: Seq<char>) -> Seq<char>
    decreases s.len(),
{
    if s.len() > 0 && is_space(s.last()) {
        trim_end(s.drop_last())
    } else {
        s
    }
}

/// `s` without white space at either end.
pub open spec fn trimmed(s: Seq<char>) -> Seq<char> {
    trim_end(trim_start(s))
}

pub fn is_space_char(c: char) -> (r: bool)
    ensures
        r == is_space(c),
{
    let u = c as u32;
    (0x09 <= u && u <= 0x0D) || u == 0x20 || u == 0x85 || u == 0xA0 || u == 0x1680 || (0x2000
        <= u && u <= 0x200A) || u == 0x2028 || u == 0x2029 || u == 0x202F || u == 0x205F || u
        == 0x3000
}

/// A copy of `s` without white space at either end.
pub fn trim(s: &str) -> (r: String)
    ensures
        r@ == trimmed(s@),
{
    let n = s.unicode_len();
    let mut i: usize = 0;
    assert(s@.subrange(0, n as int) =~= s@);
    while i < n && is_space_char(s.get_char(i))
        invariant
            i <= n,
            n == s@.len(),
            trim_start(s@.subrange(i as int, n as int)) == trim_start(s@),
        decreases n - i,
    {
        assert(s@.subrange(i as int, n as int).drop_first() =~= s@.subrange(i + 1, n as int));
        i = i + 1;
    }
    assert(trim_start(s@.subrange(i as int, n as int)) == s@.subrange(i as int, n as int));
    let mut j: usize = n;
    while j > i && is_space_char(s.get_char(j - 1))
        invariant
            i <= j <= n,
            n == s@.len(),
            trim_end(s@.subrange(i as int, j as int)) == trimmed(s@),
        decreases j,
    {
        assert(s@.subrange(i as int, j as int).drop_last() =~= s@.subrange(i as int, j - 1));
        j = j - 1;
    }
    String::from_str(s.substring_char(i, j))
}


/// `s` with every occurrence of `from` replaced by `to`, scanning from the
/// left and never re-reading what was put in, as `str::replace` does.
pub open spec fn replaced(s: Seq<char>, from: Seq<char>, to: Seq<char>) -> Seq<char>
    decreases s.len(),
{
    if from.len() == 0 || s.len() < from.len() {
        s
    } else if s.subrange(0, from.len() as int) == from {
        to + replaced(s.subrange(from.len() as int, s.len() as int), from, to)
    } else {
        seq![s[0]] + replaced(s.drop_first(), from, to)
    }
}

/// Whether `pat` occurs in `s` at character position `i`.
fn occurs_at(s: &str, i: usize, pat: &str) -> (r: bool)
    requires
        i + pat@.len() <= s@.len(),
    ensures
        r == (s@.subrange(i as int, i + pat@.len()) == pat@),
{
    let m = pat.unicode_len();
    let n = s.unicode_len();
    let mut k: usize = 0;
    while k < m
        invariant
            k <= m,
            n == s@.len(),
            m == pat@.len(),
            i + m <= s@.len(),
            forall|t: int| 0 <= t < k ==> s@[i + t] == pat@[t],
        decreases m - k,
    {
        if s.get_char(i + k) != pat.get_char(k) {
            assert(s@.subrange(i as int, i + m)[k as int] != pat@[k as int]);
            return false;
        }
        k = k + 1;
    }
    assert(s@.subrange(i as int, i + m) =~= pat@);
    true
}

/// A copy of `s` in which each occurrence of `from` is replaced by `to`.
pub fn replace_all(s: &str, from: &str, to: &str) -> (r: String)
    requires
        from@.len() > 0,
    ensures
        r@ == replaced(s@, from@, to@),
{
    let n = s.unicode_len();
    let m = from.unicode_len();
    let mut out = String::new();
    let mut i: usize = 0;
    assert(s@.subrange(0, n as int) =~= s@);
    while i < n
        invariant
            i <= n,
            n == s@.len(),
            m == from@.len(),
            m > 0,
            out@ + replaced(s@.subrange(i as int, n as int), from@, to@) == replaced(
                s@,
                from@,
                to@,
            ),
        decreases n - i,
    {
        let ghost rest = s@.subrange(i as int, n as int);
        let ghost before = out@;
        if n - i >= m && occurs_at(s, i, from) {
            assert(rest.subrange(0, m as int) =~= s@.subrange(i as int, i + m));
            assert(rest.subrange(m as int, rest.len() as int) =~= s@.subrange(
                i + m,
                n as int,
            ));
            out.append(to);
            i = i + m;
            assert(before + (to@ + replaced(s@.subrange(i as int, n as int), from@, to@))
                =~= out@ + replaced(s@.subrange(i as int, n as int), from@, to@));
        } else {
            if n - i >= m {
                assert(rest.subrange(0, m as int) =~= s@.subrange(i as int, i + m));
            }
            assert(rest.drop_first() =~= s@.subrange(i + 1, n as int));
            let c = s.substring_char(i, i + 1);
            assert(c@ =~= seq![rest[0]]);
            if n - i < m {
                assert(replaced(rest.drop_first(), from@, to@) == rest.drop_first());
                assert(seq![rest[0]] + rest.drop_first() =~= rest);
            }
            out.append(c);
            i = i + 1;
            assert(before + (seq![rest[0]] + replaced(s@.subrange(i as int, n as int), from@, to@))
                =~= out@ + replaced(s@.subrange(i as int, n as int), from@, to@));
        }
    }
    assert(s@.subrange(n as int, n as int) =~= Seq::<char>::empty());
    assert(out@ + Seq::<char>::empty() =~= out@);
    out
}


/// The characters of each string of a sequence.
pub open spec fn views(v: Seq<String>) -> Seq<Seq<char>> {
    v.map_values(|x: String| x@)
}

/// A line without the carriage return that ended it.
pub open spec fn strip_cr(s: Seq<char>) -> Seq<char> {
    if s.len() > 0 && s.last() == '\r' {
        s.drop_last()
    } else {
        s
    }
}

/// The lines of `s`, where `cur` is the part of the line already read: a
/// line ends at `\n`, or at `\r\n`, and the last line may lack its ending.
pub open spec fn lines_from(s: Seq<char>, cur: Seq<char>) -> Seq<Seq<char>>
    decreases s.len(),
{
    if s.len() == 0 {
        if cur.len() == 0 {
            seq![]
        } else {
            seq![cur]
        }
    } else if s[0] == '\n' {
        seq![strip_cr(cur)] + lines_from(s.drop_first(), seq![])
    } else {
        lines_from(s.drop_first(), cur.push(s[0]))
    }
}

/// The lines of `s`, as `str::lines` gives them.
pub open spec fn lines_of(s: Seq<char>) -> Seq<Seq<char>> {
    lines_from(s, seq![])
}

/// The lines of `s`, in order.
pub fn split_lines(s: &str) -> (r: Vec<String>)
    ensures
        views(r@) == lines_of(s@),
{
    let n = s.unicode_len();
    let mut out: Vec<String> = Vec::new();
    let mut st: usize = 0;
    let mut i: usize = 0;
    assert(s@.subrange(0, n as int) =~= s@);
    assert(s@.subrange(0, 0) =~= Seq::<char>::empty());
    assert(views(out@) =~= Seq::<Seq<char>>::empty());
    while i < n
        invariant
            st <= i <= n,
            n == s@.len(),
            views(out@) + lines_from(s@.subrange(i as int, n as int), s@.subrange(st as int, i as int))
                == lines_of(s@),
        decreases n - i,
    {
        let ghost rest = s@.subrange(i as int, n as int);
        let ghost cur = s@.subrange(st as int, i as int);
        let ghost before = views(out@);
        assert(rest.drop_first() =~= s@.subrange(i + 1, n as int));
        if s.get_char(i) == '\n' {
            let mut end: usize = i;
            if i > st && s.get_char(i - 1) == '\r' {
                end = i - 1;
            }
            assert(s@.subrange(st as int, end as int) =~= strip_cr(cur));
            let line = String::from_str(s.substring_char(st, end));
            out.push(line);
            assert(views(out@) =~= before.push(strip_cr(cur)));
            i = i + 1;
            st = i;
            assert(s@.subrange(st as int, i as int) =~= Seq::<char>::empty());
            assert(before + (seq![strip_cr(cur)] + lines_from(rest.drop_first(), seq![]))
                =~= views(out@) + lines_from(rest.drop_first(), seq![]));
        } else {
            assert(cur.push(rest[0]) =~= s@.subrange(st as int, i + 1));
            i = i + 1;
        }
    }
    let ghost cur = s@.subrange(st as int, n as int);
    let ghost before = views(out@);
    assert(s@.subrange(n as int, n as int) =~= Seq::<char>::empty());
    if st < n {
        let line = String::from_str(s.substring_char(st, n));
        out.push(line);
        assert(views(out@) =~= before + seq![cur]);
    } else {
        assert(before + Seq::<Seq<char>>::empty() =~= before);
    }
    out
}

/// One entry of a bulleted list.
pub open spec fn bullet(item: Seq<char>) -> Seq<char> {
    seq!['-', ' '] + item
}

/// The items as a bulleted list, one `- item` line each, joined by `\n`.
pub open spec fn bullet_list(items: Seq<Seq<char>>) -> Seq<char>
    decreases items.len(),
{
    if items.len() == 0 {
        seq![]
    } else if items.len() == 1 {
        bullet(items[0])
    } else {
        bullet_list(items.drop_last()) + seq!['\n'] + bullet(items.last())
    }
}

/// The items as a bulleted list, one `- item` line each, joined by `\n`.
pub fn bulleted(items: &Vec<String>) -> (r: String)
    ensures
        r@ == bullet_list(views(items@)),
{
    let mut out = String::new();
    let mut i: usize = 0;
    while i < items.len()
        invariant
            i <= items.len(),
            out@ == bullet_list(views(items@.subrange(0, i as int))),
        decreases items.len() - i,
    {
        let ghost prefix = views(items@.subrange(0, i as int));
        let ghost next = views(items@.subrange(0, i + 1));
        assert(next.drop_last() =~= prefix);
        assert(next.last() == items@[i as int]@);
        assert(next.len() == i + 1);
        let ghost old_out = out@;
        proof {
            reveal_strlit("- ");
            reveal_strlit("\n");
        }
        assert("- "@ =~= seq!['-', ' ']);
        assert("\n"@ =~= seq!['\n']);
        if i > 0 {
            out.append("\n");
        }
        out.append("- ");
        out.append(items[i].as_str());
        if i > 0 {
            assert(out@ =~= old_out + seq!['\n'] + bullet(next.last()));
        } else {
            assert(out@ =~= bullet(next.last()));
            assert(next[0] == next.last());
        }
        i = i + 1;
    }
    assert(items@.subrange(0, items.len() as int) =~= items@);
    out
}

/// The position of the last `c` in `s`, or -1 where there is none.
pub open spec fn last_index_of(s: Seq<char>, c: char) -> int
    decreases s.len(),
{
    if s.len() == 0 {
        -1
    } else if s.last() == c {
        s.len() - 1
    } else {
        last_index_of(s.drop_last(), c)
    }
}

/// The last position of `c` lies within `s` and holds `c`.
pub proof fn last_index_in_bounds(s: Seq<char>, c: char)
    ensures
        -1 <= last_index_of(s, c) < s.len(),
        last_index_of(s, c) >= 0 ==> s[last_index_of(s, c)] == c,
    decreases s.len(),
{
    if s.len() > 0 && s.last() != c {
        last_index_in_bounds(s.drop_last(), c);
    }
}

/// The position of the last `c` among the first `end` characters of `s`.
pub fn last_index(s: &str, c: char, end: usize) -> (r: Option<usize>)
    requires
        end <= s@.len(),
    ensures
        match r {
            Some(k) => k < end && k == last_index_of(s@.subrange(0, end as int), c),
            None => last_index_of(s@.subrange(0, end as int), c) == -1,
        },
{
    let mut j: usize = end;
    while j > 0 && s.get_char(j - 1) != c
        invariant
            j <= end <= s@.len(),
            last_index_of(s@.subrange(0, j as int), c) == last_index_of(
                s@.subrange(0, end as int),
                c,
            ),
        decreases j,
    {
        assert(s@.subrange(0, j as int).drop_last() =~= s@.subrange(0, j - 1));
        j = j - 1;
    }
    proof {
        last_index_in_bounds(s@.subrange(0, end as int), c);
    }
    if j == 0 {
        None
    } else {
        Some(j - 1)
    }
}

} // verus!
