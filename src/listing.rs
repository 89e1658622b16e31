//! Reading the package tool's search output: one `name-version - description`
//! entry per line.

use vstd::prelude::*;
use vstd::string::*;

use crate::package_manager::Package;
use crate::text::chars_of;

verus! {

/// The index of the line break that ends the line starting at `start`, or the
/// length of `s` if that line is the last one.
pub open spec fn line_end(s: Seq<char>, start: int) -> int
    decreases s.len() - start,
{
    if start < 0 || start >= s.len() {
        s.len() as int
    } else if s[start] == '\n' {
        start
    } else {
        line_end(s, start + 1)
    }
}

/// The line between `start` and the break at `end`: a carriage return before
/// the break belongs to the break, as `str::lines` has it.
pub open spec fn line_at(s: Seq<char>, start: int, end: int) -> Seq<char> {
    if end < s.len() && end > start && s[end - 1] == '\r' {
        s.subrange(start, end - 1)
    } else {
        s.subrange(start, end)
    }
}

/// Whether the separator `" - "` stands at `i`.
pub open spec fn sep_at(s: Seq<char>, i: int) -> bool {
    0 <= i && i + 3 <= s.len() && s[i] == ' ' && s[i + 1] == '-' && s[i + 2] == ' '
}

/// The first separator at or after `from`, or -1.
pub open spec fn find_sep(s: Seq<char>, from: int) -> int
    decreases s.len() - from,
{
    if from < 0 || from + 3 > s.len() {
        -1
    } else if sep_at(s, from) {
        from
    } else {
        find_sep(s, from + 1)
    }
}

/// The last `-` before `end`, or -1.
pub open spec fn rfind_dash(s: Seq<char>, end: int) -> int
    decreases end,
{
    if end <= 0 || end > s.len() {
        -1
    } else if s[end - 1] == '-' {
        end - 1
    } else {
        rfind_dash(s, end - 1)
    }
}

/// The name, version and description on one line. The line needs a separator;
/// what stands before the first one is the name, up to its last `-`, and the
/// version after it (empty where there is no `-`); the description runs from the
/// first separator to the next one, or to the end of the line.
pub open spec fn listing_of(line: Seq<char>) -> Option<(Seq<char>, Seq<char>, Seq<char>)> {
    let p = find_sep(line, 0);
    if p < 0 {
        None
    } else {
        let nv = line.subrange(0, p);
        let q = rfind_dash(nv, nv.len() as int);
        let p2 = find_sep(line, p + 3);
        let description = if p2 < 0 {
            line.subrange(p + 3, line.len() as int)
        } else {
            line.subrange(p + 3, p2)
        };
        if q < 0 {
            Some((nv, Seq::empty(), description))
        } else {
            Some((nv.subrange(0, q), nv.subrange(q + 1, nv.len() as int), description))
        }
    }
}

/// The entries on the lines of `s` from the line that starts at `start` on.
pub open spec fn listings_from(s: Seq<char>, start: int) -> Seq<(Seq<char>, Seq<char>, Seq<char>)>
    decreases s.len() - start via listings_from_decreases
{
    if start < 0 || start >= s.len() {
        Seq::empty()
    } else {
        let e = line_end(s, start);
        let rest = if e < s.len() {
            listings_from(s, e + 1)
        } else {
            Seq::empty()
        };
        match listing_of(line_at(s, start, e)) {
            Some(x) => seq![x] + rest,
            None => rest,
        }
    }
}

/// A line ends at or after its start, and inside the text.
pub proof fn line_end_bounds(s: Seq<char>, start: int)
    requires
        0 <= start <= s.len(),
    ensures
        start <= line_end(s, start) <= s.len(),
    decreases s.len() - start,
{
    if start < s.len() && s[start] != '\n' {
        line_end_bounds(s, start + 1);
    }
}

#[via_fn]
proof fn listings_from_decreases(s: Seq<char>, start: int) {
    if 0 <= start < s.len() {
        line_end_bounds(s, start);
    }
}

pub open spec fn package_fields(p: Package) -> (Seq<char>, Seq<char>, Seq<char>) {
    (p.name@, p.version@, p.description@)
}

fn find_sep_in(line: &Vec<char>, from: usize) -> (r: Option<usize>)
    ensures
        match r {
            Some(i) => find_sep(line@, from as int) == i as int && from <= i && i + 3 <= line@.len(),
            None => find_sep(line@, from as int) == -1,
        },
{
    let n = line.len();
    let mut i = from;
    while i <= n && n - i >= 3
        invariant
            n == line@.len(),
            from <= i,
            find_sep(line@, from as int) == find_sep(line@, i as int),
        decreases n - i,
    {
        if line[i] == ' ' && line[i + 1] == '-' && line[i + 2] == ' ' {
            return Some(i);
        }
        i += 1;
    }
    None
}

fn rfind_dash_in(line: &Vec<char>, end: usize) -> (r: Option<usize>)
    requires
        end <= line@.len(),
    ensures
        match r {
            Some(i) => rfind_dash(line@.subrange(0, end as int), end as int) == i as int && i < end,
            None => rfind_dash(line@.subrange(0, end as int), end as int) == -1,
        },
{
    let ghost nv = line@.subrange(0, end as int);
    let mut k = end;
    while k > 0
        invariant
            k <= end <= line@.len(),
            nv == line@.subrange(0, end as int),
            rfind_dash(nv, end as int) == rfind_dash(nv, k as int),
        decreases k,
    {
        if line[k - 1] == '-' {
            return Some(k - 1);
        }
        k -= 1;
    }
    None
}

fn piece(s: &str, from: usize, to: usize) -> (r: String)
    requires
        from <= to <= s@.len(),
    ensures
        r@ == s@.subrange(from as int, to as int),
{
    String::from_str(s.substring_char(from, to))
}

/// The entry on the line `line`, which stands in `s` at `start`.
fn parse_line(s: &str, line: &Vec<char>, start: usize) -> (r: Option<Package>)
    requires
        start + line@.len() <= s@.len() <= usize::MAX,
        line@ == s@.subrange(start as int, start + line@.len()),
    ensures
        match r {
            Some(p) => listing_of(line@) == Some(package_fields(p)) && !p.installed,
            None => listing_of(line@) is None,
        },
{
    let ghost l = line@;
    let p = match find_sep_in(line, 0) {
        Some(p) => p,
        None => return None,
    };
    let n = line.len();
    let ghost nv = l.subrange(0, p as int);
    let description = match find_sep_in(line, p + 3) {
        Some(p2) => {
            assert(s@.subrange(start + p + 3, start + p2) =~= l.subrange(p + 3, p2 as int));
            piece(s, start + p + 3, start + p2)
        },
        None => {
            assert(s@.subrange(start + p + 3, start + n) =~= l.subrange(p + 3, l.len() as int));
            piece(s, start + p + 3, start + n)
        },
    };
    assert(line@.subrange(0, p as int) == nv);
    let (name, version) = match rfind_dash_in(line, p) {
        Some(q) => {
            assert(s@.subrange(start as int, start + q) =~= nv.subrange(0, q as int));
            assert(s@.subrange(start + q + 1, start + p) =~= nv.subrange(q + 1, nv.len() as int));
            (piece(s, start, start + q), piece(s, start + q + 1, start + p))
        },
        None => {
            assert(s@.subrange(start as int, start + p) =~= nv);
            (piece(s, start, start + p), String::new())
        },
    };
    Some(Package { name, version, description, installed: false })
}

/// The packages listed in the search output `s`, in order, one for each line
/// that holds an entry; lines without a `" - "` are passed over. The installed
/// flag is left false: whether a package is installed is for the caller to ask.
pub fn parse_search_output(s: &str) -> (r: Vec<Package>)
    ensures
        r@.map_values(|p: Package| package_fields(p)) == listings_from(s@, 0),
        forall|i: int| 0 <= i < r@.len() ==> !(#[trigger] r@[i]).installed,
{
    let chars = chars_of(s);
    let n = chars.len();
    let mut out: Vec<Package> = Vec::new();
    let mut start: usize = 0;
    while start < n
        invariant
            n == s@.len(),
            chars@ == s@,
            start <= n,
            out@.map_values(|p: Package| package_fields(p)) + listings_from(s@, start as int)
                == listings_from(s@, 0),
            forall|i: int| 0 <= i < out@.len() ==> !(#[trigger] out@[i]).installed,
        decreases n - start,
    {
        let mut e = start;
        while e < n && chars[e] != '\n'
            invariant
                n == s@.len(),
                chars@ == s@,
                start <= e <= n,
                line_end(s@, start as int) == line_end(s@, e as int),
            decreases n - e,
        {
            e += 1;
        }
        let stop = if e < n && e > start && chars[e - 1] == '\r' {
            e - 1
        } else {
            e
        };
        let mut line: Vec<char> = Vec::new();
        let mut k = start;
        while k < stop
            invariant
                start <= k <= stop <= n,
                n == s@.len(),
                chars@ == s@,
                line@ == s@.subrange(start as int, k as int),
            decreases stop - k,
        {
            line.push(chars[k]);
            k += 1;
            assert(line@ =~= s@.subrange(start as int, k as int));
        }
        assert(line@ == line_at(s@, start as int, e as int));
        let ghost before = out@;
        let ghost rest = listings_from(s@, e + 1);
        match parse_line(s, &line, start) {
            Some(p) => {
                out.push(p);
                assert(out@.map_values(|p: Package| package_fields(p)) =~= before.map_values(
                    |p: Package| package_fields(p),
                ).push(package_fields(p)));
                assert(out@.map_values(|p: Package| package_fields(p)) + rest =~= before.map_values(
                    |p: Package| package_fields(p),
                ) + listings_from(s@, start as int));
            },
            None => {},
        }
        start = if e < n {
            e + 1
        } else {
            n
        };
    }
    out
}

} // verus!
