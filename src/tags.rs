//! Flattening of the two-level tag tree into an ordered, depth-annotated list.

use vstd::prelude::*;
use crate::models::ProjectTag;

verus! {

/// One row of a flattened tag list: the tag's identity and display text, and
/// its depth (0 for a top-level tag, 1 for a child).
#[derive(Debug, Clone)]
pub struct FlatTag {
    pub name: String,
    pub slug: String,
    pub icon: String,
    pub depth: usize,
}

/// The row that shows `t` at `depth`.
pub open spec fn flat_entry(t: ProjectTag, depth: usize) -> FlatTag {
    FlatTag { name: t.name, slug: t.slug, icon: t.icon, depth }
}

/// The rows of a top-level tag: itself at depth 0, then its children at
/// depth 1 in their order.
pub open spec fn tag_block(t: ProjectTag) -> Seq<FlatTag> {
    seq![flat_entry(t, 0)] + t.sub_tags@.map_values(|c: ProjectTag| flat_entry(c, 1))
}

/// The flattened list of `tags`: each top-level tag's block, in order.
pub open spec fn flatten(tags: Seq<ProjectTag>) -> Seq<FlatTag>
    decreases tags.len(),
{
    if tags.len() == 0 {
        Seq::empty()
    } else {
        flatten(tags.drop_last()) + tag_block(tags.last())
    }
}

/// Where the block of the `i`-th top-level tag starts: the number of rows of
/// the tags before it, `sum over j < i of (1 + children of j)`.
pub open spec fn block_start(tags: Seq<ProjectTag>, i: int) -> int
    decreases i,
{
    if i <= 0 {
        0
    } else {
        block_start(tags, i - 1) + 1 + tags[i - 1].sub_tags@.len()
    }
}

/// Builds the flattened list of `tags`.
pub fn flatten_tags(tags: &Vec<ProjectTag>) -> (r: Vec<FlatTag>)
    ensures
        r@ == flatten(tags@),
{
    let mut r: Vec<FlatTag> = Vec::new();
    let mut i: usize = 0;
    while i < tags.len()
        invariant
            i <= tags@.len(),
            r@ == flatten(tags@.subrange(0, i as int)),
        decreases tags@.len() - i,
    {
        let t = &tags[i];
        proof {
            assert(tags@.subrange(0, i as int + 1).drop_last() =~= tags@.subrange(0, i as int));
        }
        let ghost before = r@;
        r.push(FlatTag { name: t.name.clone(), slug: t.slug.clone(), icon: t.icon.clone(), depth: 0 });
        let mut k: usize = 0;
        while k < t.sub_tags.len()
            invariant
                i < tags@.len(),
                t == tags@[i as int],
                k <= t.sub_tags@.len(),
                r@ == before + seq![flat_entry(*t, 0)]
                    + t.sub_tags@.subrange(0, k as int).map_values(|c: ProjectTag| flat_entry(c, 1)),
            decreases t.sub_tags@.len() - k,
        {
            let c = &t.sub_tags[k];
            r.push(FlatTag { name: c.name.clone(), slug: c.slug.clone(), icon: c.icon.clone(), depth: 1 });
            proof {
                assert(t.sub_tags@.subrange(0, k as int + 1).map_values(|c: ProjectTag| flat_entry(c, 1))
                    =~= t.sub_tags@.subrange(0, k as int).map_values(|c: ProjectTag| flat_entry(c, 1))
                        .push(flat_entry(*c, 1)));
            }
            k = k + 1;
        }
        proof {
            assert(t.sub_tags@.subrange(0, k as int) =~= t.sub_tags@);
            assert(r@ =~= before + tag_block(*t));
        }
        i = i + 1;
    }
    proof {
        assert(tags@.subrange(0, i as int) =~= tags@);
    }
    r
}

proof fn lemma_flatten_prefix(tags: Seq<ProjectTag>, n: int)
    requires
        0 <= n <= tags.len(),
    ensures
        flatten(tags.subrange(0, n)).len() == block_start(tags, n),
        forall|j: int| 0 <= j < n ==> #[trigger] block_start(tags, j) + 1 + tags[j].sub_tags@.len() <= block_start(tags, n),
        forall|j: int| 0 <= j <= n ==> 0 <= #[trigger] block_start(tags, j) <= block_start(tags, n),
        forall|j: int, k: int| 0 <= j < n && 0 <= k < block_start(tags, n) - block_start(tags, j)
            && k < 1 + tags[j].sub_tags@.len()
            ==> flatten(tags.subrange(0, n))[#[trigger] (block_start(tags, j) + k)]
                == tag_block(tags[j])[k],
    decreases n,
{
    if n > 0 {
        let prev = tags.subrange(0, n - 1);
        assert(tags.subrange(0, n).drop_last() =~= prev);
        lemma_flatten_prefix(tags, n - 1);
        assert(tags.subrange(0, n).last() == tags[n - 1]);
        let f = flatten(tags.subrange(0, n));
        assert(f == flatten(prev) + tag_block(tags[n - 1]));
        assert forall|j: int, k: int| 0 <= j < n && 0 <= k < block_start(tags, n) - block_start(tags, j)
            && k < 1 + tags[j].sub_tags@.len()
            implies f[#[trigger] (block_start(tags, j) + k)] == tag_block(tags[j])[k] by {
            let idx = block_start(tags, j) + k;
            if j < n - 1 {
                assert(block_start(tags, j) + 1 + tags[j].sub_tags@.len() <= block_start(tags, n - 1));
                assert(k < block_start(tags, n - 1) - block_start(tags, j));
                assert(flatten(prev)[block_start(tags, j) + k] == tag_block(tags[j])[k]);
                assert(idx < flatten(prev).len());
                assert(f[idx] == flatten(prev)[idx]);
            } else {
                assert(j == n - 1);
                assert(idx - flatten(prev).len() == k);
                assert(f[idx] == tag_block(tags[n - 1])[k]);
            }
        }
    }
}

/// Flattening `P` top-level tags with `C_i` children each yields
/// `sum(1 + C_i)` rows; the block of the `i`-th tag starts at
/// `block_start(tags, i)`, holds the tag itself at depth 0, and is followed
/// immediately by exactly its own children at depth 1, in their order.
pub proof fn lemma_flatten_structure(tags: Seq<ProjectTag>)
    ensures
        flatten(tags).len() == block_start(tags, tags.len() as int),
        forall|i: int| 0 <= i < tags.len() ==> #[trigger] flatten(tags)[block_start(tags, i)]
            == flat_entry(tags[i], 0),
        forall|i: int, k: int| 0 <= i < tags.len() && 0 <= k < tags[i].sub_tags@.len()
            ==> #[trigger] flatten(tags)[block_start(tags, i) + 1 + k]
                == flat_entry(tags[i].sub_tags@[k], 1),
        forall|i: int| 0 <= i < tags.len() ==> #[trigger] block_start(tags, i + 1)
            == block_start(tags, i) + 1 + tags[i].sub_tags@.len(),
{
    let n = tags.len() as int;
    lemma_flatten_prefix(tags, n);
    assert(tags.subrange(0, n) =~= tags);
    assert forall|i: int| 0 <= i < tags.len() implies #[trigger] flatten(tags)[block_start(tags, i)]
        == flat_entry(tags[i], 0) by {
        assert(block_start(tags, i) + 1 + tags[i].sub_tags@.len() <= block_start(tags, n));
        assert(flatten(tags)[block_start(tags, i) + 0] == tag_block(tags[i])[0]);
    }
    assert forall|i: int, k: int| 0 <= i < tags.len() && 0 <= k < tags[i].sub_tags@.len()
        implies #[trigger] flatten(tags)[block_start(tags, i) + 1 + k]
            == flat_entry(tags[i].sub_tags@[k], 1) by {
        assert(block_start(tags, i) + 1 + tags[i].sub_tags@.len() <= block_start(tags, n));
        assert(flatten(tags)[block_start(tags, i) + (1 + k)] == tag_block(tags[i])[1 + k]);
        assert(block_start(tags, i) + (1 + k) == block_start(tags, i) + 1 + k);
    }
}

} // verus!
