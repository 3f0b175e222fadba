//! Ordering of directory listings: directories first, then names compared
//! case-insensitively. The directory walk that produces the rows is I/O; the
//! order they are served in is verified here.

use vstd::multiset::Multiset;
use vstd::prelude::*;

use crate::api::FileEntry;

verus! {

broadcast use vstd::seq_lib::group_to_multiset_ensures;

/// Sort key of a file name: the UTF-8 bytes of its lowercase form.
pub uninterp spec fn lower_key(s: Seq<char>) -> Seq<u8>;

/// Relies on str::to_lowercase, whose result depends on the characters alone,
/// for the case-insensitive sort key of a file name; String::into_bytes only
/// converts the result.
#[verifier::external_body]
pub(crate) fn lowercase_bytes(s: &String) -> (r: Vec<u8>)
    ensures
        r@ == lower_key(s@),
{
    s.to_lowercase().into_bytes()
}

/// Lexicographic order on byte sequences, shorter prefixes first.
pub open spec fn lex_le(a: Seq<u8>, b: Seq<u8>) -> bool
    decreases a.len(),
{
    if a.len() == 0 {
        true
    } else if b.len() == 0 {
        false
    } else if a[0] < b[0] {
        true
    } else if a[0] > b[0] {
        false
    } else {
        lex_le(a.drop_first(), b.drop_first())
    }
}

proof fn lemma_lex_le_reflexive(a: Seq<u8>)
    ensures
        lex_le(a, a),
    decreases a.len(),
{
    if a.len() > 0 {
        lemma_lex_le_reflexive(a.drop_first());
    }
}

proof fn lemma_lex_le_total(a: Seq<u8>, b: Seq<u8>)
    ensures
        lex_le(a, b) || lex_le(b, a),
    decreases a.len(),
{
    if a.len() > 0 && b.len() > 0 && a[0] == b[0] {
        lemma_lex_le_total(a.drop_first(), b.drop_first());
    }
}

proof fn lemma_lex_le_transitive(a: Seq<u8>, b: Seq<u8>, c: Seq<u8>)
    requires
        lex_le(a, b),
        lex_le(b, c),
    ensures
        lex_le(a, c),
    decreases a.len(),
{
    if a.len() > 0 && b.len() > 0 && c.len() > 0 && a[0] == b[0] && b[0] == c[0] {
        lemma_lex_le_transitive(a.drop_first(), b.drop_first(), c.drop_first());
    }
}

/// Listing order: directories before files; within either group, lowercase
/// names in lexicographic byte order.
pub open spec fn entry_le(a: FileEntry, b: FileEntry) -> bool {
    if a.is_dir != b.is_dir {
        a.is_dir
    } else {
        lex_le(lower_key(a.name@), lower_key(b.name@))
    }
}

proof fn lemma_entry_le_reflexive(a: FileEntry)
    ensures
        entry_le(a, a),
{
    lemma_lex_le_reflexive(lower_key(a.name@));
}

proof fn lemma_entry_le_total(a: FileEntry, b: FileEntry)
    ensures
        entry_le(a, b) || entry_le(b, a),
{
    lemma_lex_le_total(lower_key(a.name@), lower_key(b.name@));
}

proof fn lemma_entry_le_transitive(a: FileEntry, b: FileEntry, c: FileEntry)
    requires
        entry_le(a, b),
        entry_le(b, c),
    ensures
        entry_le(a, c),
{
    if a.is_dir == b.is_dir && b.is_dir == c.is_dir {
        lemma_lex_le_transitive(
            lower_key(a.name@),
            lower_key(b.name@),
            lower_key(c.name@),
        );
    }
}

/// Whether a listing is in the order it is served in.
pub open spec fn sorted(s: Seq<FileEntry>) -> bool {
    forall|i: int, j: int| 0 <= i < j < s.len() ==> entry_le(s[i], s[j])
}

/// Decides the listing order between two rows.
fn entry_le_exec(a: &FileEntry, b: &FileEntry) -> (r: bool)
    ensures
        r == entry_le(*a, *b),
{
    if a.is_dir != b.is_dir {
        a.is_dir
    } else {
        let ka = lowercase_bytes(&a.name);
        let kb = lowercase_bytes(&b.name);
        bytes_le(&ka, &kb)
    }
}

/// Decides lexicographic byte order.
fn bytes_le(a: &Vec<u8>, b: &Vec<u8>) -> (r: bool)
    ensures
        r == lex_le(a@, b@),
{
    let mut i: usize = 0;
    proof {
        assert(a@.skip(0) =~= a@);
        assert(b@.skip(0) =~= b@);
    }
    while i < a.len() && i < b.len()
        invariant
            i <= a@.len(),
            i <= b@.len(),
            lex_le(a@, b@) == lex_le(a@.skip(i as int), b@.skip(i as int)),
        decreases a@.len() - i,
    {
        if a[i] < b[i] {
            return true;
        }
        if a[i] > b[i] {
            return false;
        }
        proof {
            assert(a@.skip(i as int).drop_first() =~= a@.skip(i + 1));
            assert(b@.skip(i as int).drop_first() =~= b@.skip(i + 1));
        }
        i = i + 1;
    }
    proof {
        if i == a@.len() {
            assert(a@.skip(i as int) =~= Seq::<u8>::empty());
        } else {
            assert(b@.skip(i as int) =~= Seq::<u8>::empty());
            assert(a@.skip(i as int).len() > 0);
        }
    }
    a.len() <= b.len()
}

/// Sorts a directory listing into the order it is served in: directories
/// first, then case-insensitive name order. The result holds exactly the rows
/// that were handed in.
pub fn sort_entries(entries: Vec<FileEntry>) -> (r: Vec<FileEntry>)
    ensures
        sorted(r@),
        r@.to_multiset() == entries@.to_multiset(),
{
    let ghost all = entries@.to_multiset();
    let mut rest = entries;
    let mut out: Vec<FileEntry> = Vec::new();
    while rest.len() > 0
        invariant
            out@.to_multiset().add(rest@.to_multiset()) == all,
            sorted(out@),
            forall|p: int, q: int|
                0 <= p < out@.len() && 0 <= q < rest@.len() ==> entry_le(out@[p], rest@[q]),
        decreases rest@.len(),
    {
        let mut m: usize = 0;
        let mut j: usize = 1;
        proof {
            lemma_entry_le_reflexive(rest@[0]);
        }
        while j < rest.len()
            invariant
                m < j <= rest@.len(),
                rest@.len() > 0,
                forall|k: int| 0 <= k < j ==> entry_le(rest@[m as int], #[trigger] rest@[k]),
            decreases rest@.len() - j,
        {
            if entry_le_exec(&rest[j], &rest[m]) {
                proof {
                    assert forall|k: int| 0 <= k < j + 1 implies entry_le(
                        rest@[j as int],
                        #[trigger] rest@[k],
                    ) by {
                        if k == j as int {
                            lemma_entry_le_reflexive(rest@[k]);
                        } else {
                            lemma_entry_le_transitive(
                                rest@[j as int],
                                rest@[m as int],
                                rest@[k],
                            );
                        }
                    }
                }
                m = j;
            } else {
                proof {
                    lemma_entry_le_total(rest@[j as int], rest@[m as int]);
                }
            }
            j = j + 1;
        }
        let ghost old_out = out@;
        let ghost old_rest = rest@;
        let x = rest.remove(m);
        out.push(x);
        proof {
            assert(out@.to_multiset().add(rest@.to_multiset()) =~= old_out.to_multiset().add(
                old_rest.to_multiset(),
            ));
            assert forall|p: int, q: int|
                0 <= p < out@.len() && 0 <= q < rest@.len() implies entry_le(
                out@[p],
                rest@[q],
            ) by {
                if q < m as int {
                    assert(rest@[q] == old_rest[q]);
                } else {
                    assert(rest@[q] == old_rest[q + 1]);
                }
            }
        }
    }
    proof {
        assert(rest@.to_multiset() =~= Multiset::<FileEntry>::empty());
        assert(out@.to_multiset() =~= all);
    }
    out
}

} // verus!
