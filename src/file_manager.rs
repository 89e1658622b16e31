//! The order in which the file manager lists a directory.
//!
//! Reading the directory is left to the caller; this module decides what is
//! shown and in what order: hidden entries (names starting with `.`) are left
//! out, directories come before files, and within each group names are ordered
//! by their lower-case form.

use vstd::prelude::*;

use crate::text::{chars_of, has_prefix, starts_with};

verus! {

/// One directory entry.
#[derive(Debug, Clone)]
pub struct FileItem {
    pub name: String,
    pub path: String,
    pub is_dir: bool,
    pub size: u64,
}

/// What `str::to_lowercase` makes of a name.
pub uninterp spec fn lower_of(s: Seq<char>) -> Seq<char>;

/// Relies on `str::to_lowercase`: the result depends on the characters alone.
#[verifier::external_body]
fn lowercase(s: &str) -> (r: String)
    ensures
        r@ == lower_of(s@),
{
    s.to_lowercase()
}

pub open spec fn is_hidden_name(name: Seq<char>) -> bool {
    has_prefix(name, seq!['.'])
}

/// Strict lexicographic order on character sequences, by code point, as `str`'s `Ord` has it.
pub open spec fn lex_lt(a: Seq<char>, b: Seq<char>) -> bool
    decreases a.len(),
{
    if a.len() == 0 {
        b.len() > 0
    } else if b.len() == 0 {
        false
    } else if a[0] != b[0] {
        a[0] < b[0]
    } else {
        lex_lt(a.drop_first(), b.drop_first())
    }
}

/// An entry with kind `a_dir` and sort key `ka` is listed strictly before one
/// with kind `b_dir` and key `kb`: a directory before a file, else by key.
pub open spec fn key_before(a_dir: bool, ka: Seq<char>, b_dir: bool, kb: Seq<char>) -> bool {
    (a_dir && !b_dir) || (a_dir == b_dir && lex_lt(ka, kb))
}

/// `a` is listed strictly before `b`; the sort key is the lower-case name.
pub open spec fn sorts_before(a: FileItem, b: FileItem) -> bool {
    key_before(a.is_dir, lower_of(a.name@), b.is_dir, lower_of(b.name@))
}

pub open spec fn is_sorted(s: Seq<FileItem>) -> bool {
    forall|i: int, j: int| 0 <= i < j < s.len() ==> !sorts_before(#[trigger] s[j], #[trigger] s[i])
}

/// The entries of `s` that are not hidden, in order.
pub open spec fn visible(s: Seq<FileItem>) -> Seq<FileItem>
    decreases s.len(),
{
    if s.len() == 0 {
        Seq::empty()
    } else {
        let rest = visible(s.drop_first());
        if is_hidden_name(s[0].name@) {
            rest
        } else {
            seq![s[0]] + rest
        }
    }
}

proof fn lex_lt_asymmetric(a: Seq<char>, b: Seq<char>)
    ensures
        lex_lt(a, b) ==> !lex_lt(b, a),
    decreases a.len(),
{
    if a.len() > 0 && b.len() > 0 && a[0] == b[0] {
        lex_lt_asymmetric(a.drop_first(), b.drop_first());
    }
}

proof fn lex_lt_transitive(a: Seq<char>, b: Seq<char>, c: Seq<char>)
    ensures
        lex_lt(a, b) && lex_lt(b, c) ==> lex_lt(a, c),
    decreases a.len(),
{
    if a.len() > 0 && b.len() > 0 && c.len() > 0 {
        lex_lt_transitive(a.drop_first(), b.drop_first(), c.drop_first());
    }
}

proof fn lex_lt_total(a: Seq<char>, b: Seq<char>)
    ensures
        a != b ==> lex_lt(a, b) || lex_lt(b, a),
    decreases a.len(),
{
    if a.len() > 0 && b.len() > 0 && a[0] == b[0] {
        lex_lt_total(a.drop_first(), b.drop_first());
        if a.drop_first() == b.drop_first() {
            assert(a =~= seq![a[0]] + a.drop_first());
            assert(b =~= seq![b[0]] + b.drop_first());
        }
    } else if a.len() > 0 && b.len() > 0 {
    } else if a.len() == 0 && b.len() == 0 {
        assert(a =~= b);
    }
}

/// Being listed no earlier is transitive.
proof fn not_before_transitive(a: FileItem, b: FileItem, c: FileItem)
    ensures
        !sorts_before(b, a) && !sorts_before(c, b) ==> !sorts_before(c, a),
{
    let (la, lb, lc) = (lower_of(a.name@), lower_of(b.name@), lower_of(c.name@));
    lex_lt_total(la, lb);
    lex_lt_transitive(lc, la, lb);
    lex_lt_asymmetric(la, lb);
}

proof fn before_asymmetric(a: FileItem, b: FileItem)
    ensures
        sorts_before(a, b) ==> !sorts_before(b, a),
{
    lex_lt_asymmetric(lower_of(a.name@), lower_of(b.name@));
}

fn lex_less(a: &Vec<char>, b: &Vec<char>) -> (r: bool)
    ensures
        r == lex_lt(a@, b@),
{
    let mut i: usize = 0;
    assert(a@.subrange(0, a@.len() as int) =~= a@);
    assert(b@.subrange(0, b@.len() as int) =~= b@);
    while i < a.len() && i < b.len() && a[i] == b[i]
        invariant
            i <= a@.len(),
            i <= b@.len(),
            lex_lt(a@, b@) == lex_lt(a@.subrange(i as int, a@.len() as int), b@.subrange(i as int, b@.len() as int)),
        decreases a@.len() - i,
    {
        assert(a@.subrange(i as int, a@.len() as int).drop_first() =~= a@.subrange(i + 1, a@.len() as int));
        assert(b@.subrange(i as int, b@.len() as int).drop_first() =~= b@.subrange(i + 1, b@.len() as int));
        i += 1;
    }
    if i < a.len() && i < b.len() {
        a[i] < b[i]
    } else {
        i == a.len() && i < b.len()
    }
}

/// Whether an entry with kind `a_is_dir` and sort key `a_key` is listed
/// strictly before one with kind `b_is_dir` and key `b_key`.
pub fn lists_before(a_is_dir: bool, a_key: &str, b_is_dir: bool, b_key: &str) -> (r: bool)
    ensures
        r == key_before(a_is_dir, a_key@, b_is_dir, b_key@),
{
    if a_is_dir != b_is_dir {
        a_is_dir
    } else {
        lex_less(&chars_of(a_key), &chars_of(b_key))
    }
}

/// The entries to show, in the order to show them: hidden entries are left
/// out; directories come first; within each group, names are in the order of
/// their lower-case forms.
pub fn arrange_entries(entries: Vec<FileItem>) -> (r: Vec<FileItem>)
    ensures
        r@.to_multiset() == visible(entries@).to_multiset(),
        is_sorted(r@),
{
    let ghost orig = entries@;
    let mut entries = entries;
    let mut out: Vec<FileItem> = Vec::new();
    let mut keys: Vec<String> = Vec::new();
    let dot = ".";
    proof {
        reveal_strlit(".");
        assert(orig.subrange(orig.len() as int, orig.len() as int) =~= Seq::<FileItem>::empty());
    }
    while entries.len() > 0
        invariant
            dot@ == seq!['.'],
            entries@ == orig.subrange(0, entries@.len() as int),
            entries@.len() <= orig.len(),
            out@.len() == keys@.len(),
            forall|i: int| 0 <= i < keys@.len() ==> (#[trigger] keys@[i])@ == lower_of(out@[i].name@),
            is_sorted(out@),
            out@.to_multiset() == visible(orig.subrange(entries@.len() as int, orig.len() as int)).to_multiset(),
        decreases entries@.len(),
    {
        let ghost n = entries@.len();
        let x = entries.pop().unwrap();
        let ghost tail = orig.subrange(n - 1, orig.len() as int);
        assert(tail.drop_first() =~= orig.subrange(n as int, orig.len() as int));
        assert(tail[0] == x);
        if !starts_with(x.name.as_str(), dot) {
            let kx = lowercase(x.name.as_str());
            let mut j: usize = 0;
            while j < out.len() && lists_before(out[j].is_dir, keys[j].as_str(), x.is_dir, kx.as_str())
                invariant
                    j <= out@.len(),
                    out@.len() == keys@.len(),
                    kx@ == lower_of(x.name@),
                    forall|i: int| 0 <= i < keys@.len() ==> (#[trigger] keys@[i])@ == lower_of(out@[i].name@),
                    forall|k: int| 0 <= k < j ==> sorts_before(#[trigger] out@[k], x),
                decreases out@.len() - j,
            {
                j += 1;
            }
            let ghost old_out = out@;
            out.insert(j, x);
            keys.insert(j, kx);
            proof {
                assert forall|i: int, k: int| 0 <= i < k < out@.len() implies !sorts_before(
                    #[trigger] out@[k],
                    #[trigger] out@[i],
                ) by {
                    if k < j {
                    } else if k == j {
                        before_asymmetric(out@[i], x);
                    } else if i < j {
                        before_asymmetric(old_out[i], x);
                        assert(!sorts_before(old_out[k - 1], x)) by {
                            if k - 1 > j {
                                not_before_transitive(x, old_out[j as int], old_out[k - 1]);
                            }
                        }
                        not_before_transitive(old_out[i], x, old_out[k - 1]);
                    } else if i == j {
                        if k - 1 > j {
                            not_before_transitive(x, old_out[j as int], old_out[k - 1]);
                        }
                    } else {
                        assert(out@[i] == old_out[i - 1]);
                        assert(out@[k] == old_out[k - 1]);
                    }
                }
                vstd::seq_lib::to_multiset_insert(old_out, j as int, x);
                assert(seq![x] + visible(tail.drop_first()) =~= visible(tail.drop_first()).insert(0, x));
                vstd::seq_lib::to_multiset_insert(visible(tail.drop_first()), 0, x);
            }
        }
    }
    assert(orig.subrange(0, orig.len() as int) =~= orig);
    out
}

} // verus!
