//! The fixed ranking of discovered sources: the well-known streaming client
//! first, all others by their short names, bytewise; sources that tie keep
//! the order in which the bus listed them.

use crate::mpris::sources::{source_models, PlayerSource, SourceModel};
use crate::text::str_eq;
use vstd::prelude::*;
use vstd::string::*;
use vstd::utf8::encode_utf8;

verus! {

/// Bytewise lexicographic order: `a` comes no later than `b`.
pub open spec fn bytes_le(a: Seq<u8>, b: Seq<u8>) -> bool
    decreases a.len(),
{
    if a.len() == 0 {
        true
    } else if b.len() == 0 {
        false
    } else if a[0] != b[0] {
        a[0] < b[0]
    } else {
        bytes_le(a.drop_first(), b.drop_first())
    }
}

/// Of two byte strings, one comes no later than the other.
pub proof fn lemma_bytes_le_total(a: Seq<u8>, b: Seq<u8>)
    ensures
        bytes_le(a, b) || bytes_le(b, a),
    decreases a.len(),
{
    if a.len() > 0 && b.len() > 0 && a[0] == b[0] {
        lemma_bytes_le_total(a.drop_first(), b.drop_first());
    }
}

/// The bytewise order is transitive.
pub proof fn lemma_bytes_le_transitive(a: Seq<u8>, b: Seq<u8>, c: Seq<u8>)
    requires
        bytes_le(a, b),
        bytes_le(b, c),
    ensures
        bytes_le(a, c),
    decreases a.len(),
{
    if a.len() > 0 && b.len() > 0 && c.len() > 0 && a[0] == b[0] && b[0] == c[0] {
        lemma_bytes_le_transitive(a.drop_first(), b.drop_first(), c.drop_first());
    }
}

/// Whether a short name is that of the player that is ranked first.
pub open spec fn is_preferred(short_name: Seq<char>) -> bool {
    short_name == "spotify"@
}

/// The ranking order: `a` comes no later than `b`. The preferred player comes
/// before every other; otherwise the short names decide, by their bytes.
pub open spec fn ranks_no_later(a: SourceModel, b: SourceModel) -> bool {
    if is_preferred(a.short_name) != is_preferred(b.short_name) {
        is_preferred(a.short_name)
    } else {
        bytes_le(encode_utf8(a.short_name), encode_utf8(b.short_name))
    }
}

/// Of two sources, one comes no later than the other.
pub proof fn lemma_ranks_total(a: SourceModel, b: SourceModel)
    ensures
        ranks_no_later(a, b) || ranks_no_later(b, a),
{
    lemma_bytes_le_total(encode_utf8(a.short_name), encode_utf8(b.short_name));
}

/// The ranking order is transitive.
pub proof fn lemma_ranks_transitive(a: SourceModel, b: SourceModel, c: SourceModel)
    requires
        ranks_no_later(a, b),
        ranks_no_later(b, c),
    ensures
        ranks_no_later(a, c),
{
    if is_preferred(a.short_name) == is_preferred(b.short_name) && is_preferred(b.short_name)
        == is_preferred(c.short_name) {
        lemma_bytes_le_transitive(
            encode_utf8(a.short_name),
            encode_utf8(b.short_name),
            encode_utf8(c.short_name),
        );
    }
}

/// Whether `output` is the ranking of `input`, where `origin[i]` is the place
/// in `input` that `output[i]` came from: every source of the input stands in
/// the output once, the output is in ranking order, and sources that tie
/// stand in the order of the input.
pub open spec fn is_ranking(
    input: Seq<SourceModel>,
    output: Seq<SourceModel>,
    origin: Seq<int>,
) -> bool {
    &&& output.len() == input.len()
    &&& origin.len() == input.len()
    &&& forall|i: int|
        0 <= i < output.len() ==> 0 <= #[trigger] origin[i] < input.len() && output[i]
            == input[origin[i]]
    &&& forall|i: int, j: int|
        0 <= i < j < output.len() ==> #[trigger] origin[i] != #[trigger] origin[j]
    &&& forall|j: int| 0 <= j < input.len() ==> #[trigger] origin.contains(j)
    &&& forall|i: int, j: int|
        0 <= i < j < output.len() ==> #[trigger] ranks_no_later(output[i], output[j]) && (
        ranks_no_later(output[j], output[i]) ==> origin[i] < origin[j])
}

/// Where the preferred player is among the sources, it is the first of the
/// ranking.
pub proof fn lemma_preferred_comes_first(
    input: Seq<SourceModel>,
    output: Seq<SourceModel>,
    origin: Seq<int>,
    j: int,
)
    requires
        is_ranking(input, output, origin),
        0 <= j < input.len(),
        is_preferred(input[j].short_name),
    ensures
        is_preferred(output[0].short_name),
{
    assert(origin.contains(j));
    let i = choose|i: int| 0 <= i < origin.len() && origin[i] == j;
    assert(output[i] == input[origin[i]]);
    if i > 0 {
        assert(ranks_no_later(output[0], output[i]));
    }
}

/// In a ranking, sources other than the preferred player stand in the
/// bytewise order of their short names.
pub proof fn lemma_others_by_name(
    input: Seq<SourceModel>,
    output: Seq<SourceModel>,
    origin: Seq<int>,
    i: int,
    j: int,
)
    requires
        is_ranking(input, output, origin),
        0 <= i < j < output.len(),
        !is_preferred(output[i].short_name),
    ensures
        !is_preferred(output[j].short_name),
        bytes_le(encode_utf8(output[i].short_name), encode_utf8(output[j].short_name)),
{
    assert(ranks_no_later(output[i], output[j]));
}

/// Whether the bytes of `a` come no later than those of `b`.
fn bytes_no_later(a: &[u8], b: &[u8]) -> (r: bool)
    ensures
        r == bytes_le(a@, b@),
{
    let mut i: usize = 0;
    assert(a@.skip(0) == a@ && b@.skip(0) == b@);
    while i < a.len() && i < b.len()
        invariant
            i <= a.len(),
            i <= b.len(),
            bytes_le(a@, b@) == bytes_le(a@.skip(i as int), b@.skip(i as int)),
        decreases a.len() - i,
    {
        if a[i] != b[i] {
            return a[i] < b[i];
        }
        assert(a@.skip(i as int).drop_first() == a@.skip(i + 1));
        assert(b@.skip(i as int).drop_first() == b@.skip(i + 1));
        i += 1;
    }
    i == a.len()
}

/// Whether `a` is ranked no later than `b`.
pub fn source_no_later(a: &PlayerSource, b: &PlayerSource) -> (r: bool)
    ensures
        r == ranks_no_later(a@, b@),
{
    let first_a = str_eq(a.short_name.as_str(), "spotify");
    let first_b = str_eq(b.short_name.as_str(), "spotify");
    if first_a != first_b {
        first_a
    } else {
        bytes_no_later(a.short_name.as_str().as_bytes(), b.short_name.as_str().as_bytes())
    }
}

/// Ranks discovered sources: the preferred player first, the others by short
/// name; sources of one short name keep the order they came in.
pub fn rank_sources(sources: Vec<PlayerSource>) -> (ranked: Vec<PlayerSource>)
    ensures
        exists|origin: Seq<int>|
            is_ranking(source_models(sources@), source_models(ranked@), origin),
{
    let ghost all = sources@;
    let mut rest = sources;
    let mut out: Vec<PlayerSource> = Vec::new();
    let ghost mut origin: Seq<int> = Seq::empty();
    while rest.len() > 0
        invariant
            rest@ == all.take(rest.len() as int),
            out.len() + rest.len() == all.len(),
            origin.len() == out.len(),
            forall|i: int|
                0 <= i < out.len() ==> rest.len() <= #[trigger] origin[i] < all.len() && out@[i]
                    == all[origin[i]],
            forall|i: int, j: int|
                0 <= i < j < out.len() ==> #[trigger] origin[i] != #[trigger] origin[j],
            forall|j: int| rest.len() <= j < all.len() ==> #[trigger] origin.contains(j),
            forall|i: int, j: int|
                0 <= i < j < out.len() ==> #[trigger] ranks_no_later(out@[i]@, out@[j]@) && (
                ranks_no_later(out@[j]@, out@[i]@) ==> origin[i] < origin[j]),
        decreases rest.len(),
    {
        let ghost before = out@;
        let ghost before_origin = origin;
        let x = rest.pop().unwrap();
        let ghost k = rest.len() as int;
        assert(x == all[k]);
        let mut pos: usize = 0;
        while pos < out.len() && !source_no_later(&x, &out[pos])
            invariant
                pos <= out.len(),
                forall|j: int| 0 <= j < pos ==> !ranks_no_later(x@, #[trigger] out@[j]@),
            decreases out.len() - pos,
        {
            pos += 1;
        }
        out.insert(pos, x);
        proof {
            origin = origin.insert(pos as int, k);
            assert forall|i: int, j: int| 0 <= i < j < out.len() implies #[trigger] ranks_no_later(
                out@[i]@,
                out@[j]@,
            ) && (ranks_no_later(out@[j]@, out@[i]@) ==> origin[i] < origin[j]) by {
                if j < pos {
                    assert(out@[i] == before[i] && out@[j] == before[j]);
                    assert(ranks_no_later(before[i]@, before[j]@));
                } else if j == pos {
                    assert(out@[i] == before[i]);
                    assert(!ranks_no_later(x@, before[i]@));
                    lemma_ranks_total(x@, before[i]@);
                } else if i < pos {
                    assert(out@[i] == before[i] && out@[j] == before[j - 1]);
                    assert(ranks_no_later(before[i]@, before[j - 1]@));
                } else if i == pos {
                    assert(out@[j] == before[j - 1]);
                    assert(before_origin[j - 1] >= k + 1);
                    if pos as int == j - 1 {
                        assert(ranks_no_later(x@, before[pos as int]@));
                    } else {
                        assert(ranks_no_later(x@, before[pos as int]@));
                        assert(ranks_no_later(before[pos as int]@, before[j - 1]@));
                        lemma_ranks_transitive(x@, before[pos as int]@, before[j - 1]@);
                    }
                } else {
                    assert(out@[i] == before[i - 1] && out@[j] == before[j - 1]);
                    assert(ranks_no_later(before[i - 1]@, before[j - 1]@));
                }
            }
            assert forall|i: int, j: int| 0 <= i < j < out.len() implies #[trigger] origin[i]
                != #[trigger] origin[j] by {
                let oi = if i < pos {
                    i
                } else {
                    i - 1
                };
                let oj = if j < pos {
                    j
                } else {
                    j - 1
                };
                if i != pos && j != pos {
                    assert(before_origin[oi] != before_origin[oj]);
                } else if i == pos {
                    assert(before_origin[oj] >= k + 1);
                } else {
                    assert(before_origin[oi] >= k + 1);
                }
            }
            assert forall|j: int| rest.len() <= j < all.len() implies #[trigger] origin.contains(
                j,
            ) by {
                if j == k {
                    assert(origin[pos as int] == k);
                } else {
                    assert(before_origin.contains(j));
                    let i = choose|i: int| 0 <= i < before_origin.len() && before_origin[i] == j;
                    if i < pos {
                        assert(origin[i] == j);
                    } else {
                        assert(origin[i + 1] == j);
                    }
                }
            }
            assert forall|i: int| 0 <= i < out.len() implies rest.len() <= #[trigger] origin[i]
                < all.len() && out@[i] == all[origin[i]] by {
                if i < pos {
                    assert(before_origin[i] >= k + 1);
                } else if i > pos {
                    assert(before_origin[i - 1] >= k + 1);
                }
            }
        }
    }
    proof {
        let input = source_models(all);
        let output = source_models(out@);
        assert forall|i: int| 0 <= i < output.len() implies 0 <= #[trigger] origin[i]
            < input.len() && output[i] == input[origin[i]] by {
            assert(out@[i] == all[origin[i]]);
        }
        assert forall|i: int, j: int| 0 <= i < j < output.len() implies #[trigger] ranks_no_later(
            output[i],
            output[j],
        ) && (ranks_no_later(output[j], output[i]) ==> origin[i] < origin[j]) by {
            assert(ranks_no_later(out@[i]@, out@[j]@));
        }
        assert(is_ranking(input, output, origin));
    }
    out
}

} // verus!
