//! The closed set of output formats and their static metadata: file
//! extension and whether the format carries an alpha channel.

use vstd::prelude::*;
use vstd::string::StringExecFns;

verus! {

/// One raster output format.
#[derive(Clone, Copy, Debug, PartialEq, Eq, Hash, Structural)]
pub enum Format {
    Avif,
    Jpeg,
    Png,
    Tiff,
    Webp,
}

/// The file extension of a format, as a sequence of characters.
pub open spec fn extension_spec(f: Format) -> Seq<char> {
    match f {
        Format::Avif => seq!['a', 'v', 'i', 'f'],
        Format::Jpeg => seq!['j', 'p', 'e', 'g'],
        Format::Png => seq!['p', 'n', 'g'],
        Format::Tiff => seq!['t', 'i', 'f', 'f'],
        Format::Webp => seq!['w', 'e', 'b', 'p'],
    }
}

/// Whether a format's encoded pixels carry an alpha channel.
pub open spec fn has_alpha_spec(f: Format) -> bool {
    match f {
        Format::Avif | Format::Png | Format::Tiff | Format::Webp => true,
        Format::Jpeg => false,
    }
}

impl Format {
    /// The file extension used for this format's output file.
    pub fn extension(&self) -> (r: String)
        ensures
            r@ == extension_spec(*self),
    {
        match self {
            Format::Avif => {
                proof {
                    reveal_strlit("avif");
                }
                String::from_str("avif")
            },
            Format::Jpeg => {
                proof {
                    reveal_strlit("jpeg");
                }
                String::from_str("jpeg")
            },
            Format::Png => {
                proof {
                    reveal_strlit("png");
                }
                String::from_str("png")
            },
            Format::Tiff => {
                proof {
                    reveal_strlit("tiff");
                }
                String::from_str("tiff")
            },
            Format::Webp => {
                proof {
                    reveal_strlit("webp");
                }
                String::from_str("webp")
            },
        }
    }

    /// Whether this format's encoded pixels carry an alpha channel.
    pub fn has_alpha_channel(&self) -> (r: bool)
        ensures
            r == has_alpha_spec(*self),
    {
        match self {
            Format::Avif | Format::Png | Format::Tiff | Format::Webp => true,
            Format::Jpeg => false,
        }
    }
}

/// Every supported format, in the order used when no explicit list is given.
pub fn all_formats() -> (r: Vec<Format>)
    ensures
        r@ == seq![Format::Avif, Format::Jpeg, Format::Png, Format::Tiff, Format::Webp],
{
    let mut v: Vec<Format> = Vec::new();
    v.push(Format::Avif);
    v.push(Format::Jpeg);
    v.push(Format::Png);
    v.push(Format::Tiff);
    v.push(Format::Webp);
    proof {
        assert(v@ =~= seq![Format::Avif, Format::Jpeg, Format::Png, Format::Tiff, Format::Webp]);
    }
    v
}

/// The requested formats with duplicates collapsed: each format keeps the
/// position of its first occurrence, later occurrences are dropped.
pub open spec fn dedup_spec(s: Seq<Format>) -> Seq<Format>
    decreases s.len(),
{
    if s.len() == 0 {
        Seq::empty()
    } else {
        let d = dedup_spec(s.drop_last());
        if d.contains(s.last()) {
            d
        } else {
            d.push(s.last())
        }
    }
}

/// Law: collapsing duplicates neither loses nor invents formats.
pub proof fn lemma_dedup_same_members(s: Seq<Format>)
    ensures
        forall|f: Format| dedup_spec(s).contains(f) <==> s.contains(f),
    decreases s.len(),
{
    if s.len() > 0 {
        lemma_dedup_same_members(s.drop_last());
        let d = dedup_spec(s.drop_last());
        assert forall|f: Format| s.contains(f) implies dedup_spec(s).contains(f) by {
            let k = choose|i: int| 0 <= i < s.len() && s[i] == f;
            if k < s.len() - 1 {
                assert(s.drop_last()[k] == f);
                assert(s.drop_last().contains(f));
                let m = choose|i: int| 0 <= i < d.len() && d[i] == f;
                assert(dedup_spec(s)[m] == f);
            } else {
                assert(f == s.last());
                if d.contains(f) {
                    let m = choose|i: int| 0 <= i < d.len() && d[i] == f;
                    assert(dedup_spec(s)[m] == f);
                } else {
                    assert(dedup_spec(s)[d.len() as int] == f);
                }
            }
            assert(dedup_spec(s).contains(f));
        }
        assert forall|f: Format| dedup_spec(s).contains(f) implies s.contains(f) by {
            let k = choose|i: int| 0 <= i < dedup_spec(s).len() && dedup_spec(s)[i] == f;
            if k < d.len() {
                assert(d[k] == f);
                assert(d.contains(f));
                assert(s.drop_last().contains(f));
                let m = choose|i: int| 0 <= i < s.drop_last().len() && s.drop_last()[i] == f;
                assert(s.drop_last()[m] == f);
                assert(s[m] == f);
            } else {
                assert(f == s.last());
                assert(s[s.len() - 1] == f);
            }
            assert(s.contains(f));
        }
    }
}

/// Law: the collapsed list names each format at most once.
pub proof fn lemma_dedup_distinct(s: Seq<Format>)
    ensures
        forall|i: int, j: int|
            0 <= i < j < dedup_spec(s).len() ==> dedup_spec(s)[i] != dedup_spec(s)[j],
    decreases s.len(),
{
    if s.len() > 0 {
        lemma_dedup_distinct(s.drop_last());
        let d = dedup_spec(s.drop_last());
        if !d.contains(s.last()) {
            assert forall|i: int, j: int|
                0 <= i < j < dedup_spec(s).len() implies dedup_spec(s)[i] != dedup_spec(
                s,
            )[j] by {
                if j < d.len() {
                } else {
                    assert(dedup_spec(s)[j] == s.last());
                    assert(dedup_spec(s)[i] == d[i]);
                }
            }
        }
    }
}

/// Law: a list that already names each format once passes through unchanged,
/// so collapsing keeps the requested order.
pub proof fn lemma_dedup_identity_on_distinct(s: Seq<Format>)
    requires
        forall|i: int, j: int| 0 <= i < j < s.len() ==> s[i] != s[j],
    ensures
        dedup_spec(s) == s,
    decreases s.len(),
{
    if s.len() > 0 {
        lemma_dedup_identity_on_distinct(s.drop_last());
        if dedup_spec(s.drop_last()).contains(s.last()) {
            let k = choose|k: int|
                0 <= k < s.drop_last().len() && s.drop_last()[k] == s.last();
            assert(s[k] == s[s.len() - 1]);
            assert(false);
        }
        assert(dedup_spec(s) =~= s);
    }
}

/// The position of the first occurrence of `f` in `s`: the number of
/// leading elements of `s` that differ from `f`.
pub open spec fn first_index_of(s: Seq<Format>, f: Format) -> int
    decreases s.len(),
{
    if s.len() == 0 {
        0
    } else if s[0] == f {
        0
    } else {
        1 + first_index_of(s.skip(1), f)
    }
}

/// For a format that occurs in the list, `first_index_of` names a real
/// position, it holds that format, and no earlier position does.
pub proof fn lemma_first_index_of(s: Seq<Format>, f: Format)
    requires
        s.contains(f),
    ensures
        0 <= first_index_of(s, f) < s.len(),
        s[first_index_of(s, f)] == f,
        forall|k: int| 0 <= k < first_index_of(s, f) ==> s[k] != f,
    decreases s.len(),
{
    if s[0] != f {
        let k = choose|i: int| 0 <= i < s.len() && s[i] == f;
        assert(s.skip(1)[k - 1] == f);
        assert(s.skip(1).contains(f));
        lemma_first_index_of(s.skip(1), f);
        assert forall|k: int| 0 <= k < first_index_of(s, f) implies s[k] != f by {
            if k > 0 {
                assert(s.skip(1)[k - 1] != f);
            }
        }
    }
}

/// A first occurrence inside the list's front part keeps its position when
/// the last element is dropped.
proof fn lemma_first_index_drop_last(s: Seq<Format>, f: Format)
    requires
        s.len() > 0,
        s.drop_last().contains(f),
    ensures
        first_index_of(s, f) == first_index_of(s.drop_last(), f),
    decreases s.len(),
{
    if s[0] != f {
        let k = choose|i: int| 0 <= i < s.drop_last().len() && s.drop_last()[i] == f;
        assert(s.drop_last()[k] == f);
        assert(k != 0);
        assert(s.skip(1).drop_last() =~= s.drop_last().skip(1));
        assert(s.skip(1).drop_last()[k - 1] == f);
        assert(s.skip(1).drop_last().contains(f));
        lemma_first_index_drop_last(s.skip(1), f);
    } else {
        assert(s.drop_last()[0] == f);
    }
}

/// A format seen nowhere but in the last position has its first occurrence
/// there.
proof fn lemma_first_index_only_last(s: Seq<Format>, f: Format)
    requires
        s.len() > 0,
        s.last() == f,
        !s.drop_last().contains(f),
    ensures
        first_index_of(s, f) == s.len() - 1,
    decreases s.len(),
{
    if s.len() > 1 {
        assert(s.drop_last()[0] == s[0]);
        assert(s[0] != f);
        assert(s.skip(1).drop_last() =~= s.drop_last().skip(1));
        assert forall|i: int| 0 <= i < s.skip(1).drop_last().len() implies s.skip(
            1,
        ).drop_last()[i] != f by {
            assert(s.drop_last()[i + 1] != f);
        }
        assert(s.skip(1).last() == f);
        lemma_first_index_only_last(s.skip(1), f);
    }
}

/// Law: the collapsed list keeps the requested order: formats stand in the
/// order of their first occurrences.
pub proof fn lemma_dedup_keeps_first_occurrence_order(s: Seq<Format>)
    ensures
        forall|i: int, j: int|
            0 <= i < j < dedup_spec(s).len() ==> first_index_of(s, dedup_spec(s)[i])
                < first_index_of(s, dedup_spec(s)[j]),
    decreases s.len(),
{
    if s.len() > 0 {
        lemma_dedup_keeps_first_occurrence_order(s.drop_last());
        lemma_dedup_same_members(s.drop_last());
        lemma_dedup_same_members(s);
        let d = dedup_spec(s.drop_last());
        assert forall|i: int, j: int|
            0 <= i < j < dedup_spec(s).len() implies first_index_of(s, dedup_spec(s)[i])
            < first_index_of(s, dedup_spec(s)[j]) by {
            if j < d.len() {
                assert(d.contains(d[i]));
                assert(d.contains(d[j]));
                lemma_first_index_drop_last(s, d[i]);
                lemma_first_index_drop_last(s, d[j]);
            } else {
                assert(!d.contains(s.last()));
                assert(dedup_spec(s) == d.push(s.last()));
                assert(dedup_spec(s)[j] == s.last());
                assert(d.contains(d[i]));
                assert(dedup_spec(s)[i] == d[i]);
                lemma_first_index_only_last(s, s.last());
                lemma_first_index_drop_last(s, d[i]);
                lemma_first_index_of(s.drop_last(), d[i]);
            }
        }
    }
}

/// Drops every format that occurred earlier in the list, keeping the first
/// occurrence of each where it stood.
pub fn dedup_formats(v: &Vec<Format>) -> (r: Vec<Format>)
    ensures
        r@ == dedup_spec(v@),
{
    let mut out: Vec<Format> = Vec::new();
    let mut i: usize = 0;
    while i < v.len()
        invariant
            i <= v.len(),
            out@ == dedup_spec(v@.take(i as int)),
        decreases v.len() - i,
    {
        let f = v[i];
        let mut seen = false;
        let mut j: usize = 0;
        while j < out.len()
            invariant
                j <= out.len(),
                seen <==> exists|k: int| 0 <= k < j && out@[k] == f,
            decreases out.len() - j,
        {
            if out[j] == f {
                seen = true;
            }
            j += 1;
        }
        proof {
            assert(seen <==> out@.contains(f));
            assert(v@.take(i + 1).drop_last() =~= v@.take(i as int));
            assert(v@.take(i + 1).last() == v@[i as int]);
        }
        if !seen {
            out.push(f);
        }
        i += 1;
    }
    proof {
        assert(v@.take(v.len() as int) =~= v@);
    }
    out
}

} // verus!
