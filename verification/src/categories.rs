//! The category forest builder.
//!
//! Categories are stored as a flat adjacency list of `(id, parent, name)`
//! rows; [`category_trees`] reconstructs the multi-root tree the catalog
//! pages display. Roots and every node's subcategories come out sorted by
//! name. A row whose parent id does not appear among the rows before it is
//! corrupted input: construction aborts with [`TreeError::DanglingParent`]
//! rather than silently dropping the subtree.

use crate::ids::{Category, Id};
use crate::order::{
    lemma_filter_one_more, lemma_insert_to_multiset, lemma_map_insert, lemma_name_total,
    lemma_name_trans, name_leq, str_leq,
};
use vstd::prelude::*;

verus! {

/// A flat category row, as the storage layer hands it over.
#[derive(Clone, Debug, PartialEq, Eq)]
pub struct CategoryRow {
    /// The ID of the category.
    pub id: i32,
    /// The ID of the parent category, absent for a root.
    pub parent: Option<i32>,
    /// The name of the category.
    pub name: String,
}

/// A category with its subcategories, for display in a tree.
///
/// Created by [`category_trees`].
#[derive(Debug, PartialEq, Eq)]
pub struct CategoryTree {
    /// The ID of the category.
    pub id: Id<Category>,
    /// The name of the category.
    pub name: String,
    /// All direct subcategories, sorted by name.
    pub subcategories: Vec<CategoryTree>,
}

/// A consistency error in flat rows handed to a tree builder: the input is
/// corrupted upstream, so construction aborts instead of returning a
/// partial tree.
#[derive(Clone, Copy, Debug, PartialEq, Eq, Structural)]
pub enum TreeError {
    /// A row names a parent that no row before it defines.
    DanglingParent {
        /// The row whose parent is missing.
        id: i32,
        /// The parent id that never appeared.
        parent: i32,
    },
}

impl TreeError {
    /// A short diagnostic, for surfacing the aborted read.
    pub fn message(&self) -> (r: &'static str)
        ensures
            r@.len() > 0,
    {
        proof {
            reveal_strlit("row references a parent that no earlier row defines");
        }
        match self {
            TreeError::DanglingParent { .. } => "row references a parent that no earlier row defines",
        }
    }
}

/// A category with its supercategories, for display on product pages,
/// starting from the root.
#[derive(Debug, PartialEq, Eq)]
pub struct CategoryPath {
    /// The segments of the path, each an `(id, name)` pair.
    pub segments: Vec<(Id<Category>, String)>,
}

/// The `(id, name)` pair a row contributes to the forest.
pub open spec fn row_key(r: CategoryRow) -> (int, Seq<char>) {
    (r.id as int, r.name@)
}

/// The `(id, name)` pair at a tree node.
pub open spec fn node_key(t: CategoryTree) -> (int, Seq<char>) {
    (t.id@, t.name@)
}

/// Whether a row hangs under the given parent (`None`: the row is a root).
pub open spec fn row_under(r: CategoryRow, target: Option<int>) -> bool {
    match (r.parent, target) {
        (Some(p), Some(q)) => p == q,
        (None, None) => true,
        _ => false,
    }
}

/// The keys of the rows hanging under the given parent, in row order.
pub open spec fn keys_under(rows: Seq<CategoryRow>, target: Option<int>) -> Seq<(int, Seq<char>)> {
    rows.filter(|r: CategoryRow| row_under(r, target)).map_values(|r: CategoryRow| row_key(r))
}

/// Whether the nodes of a sibling list are sorted by name.
pub open spec fn trees_sorted(ts: Seq<CategoryTree>) -> bool {
    forall|a: int, b: int|
        0 <= a < b < ts.len() ==> name_leq(#[trigger] ts[a].name@, #[trigger] ts[b].name@)
}

/// Whether a subtree faithfully presents the rows: the node's children are
/// exactly the rows naming it as parent, sorted by name, and so on down.
pub open spec fn tree_matches(rows: Seq<CategoryRow>, t: CategoryTree) -> bool
    decreases t,
{
    &&& t.subcategories@.map_values(|c: CategoryTree| node_key(c)).to_multiset() == keys_under(
        rows,
        Some(t.id@),
    ).to_multiset()
    &&& trees_sorted(t.subcategories@)
    &&& forall|k: int|
        0 <= k < t.subcategories@.len() ==> tree_matches(rows, #[trigger] t.subcategories@[k])
}

/// Whether a forest faithfully presents the rows: its roots are exactly
/// the parentless rows, sorted by name, and every subtree matches.
pub open spec fn forest_matches(rows: Seq<CategoryRow>, forest: Seq<CategoryTree>) -> bool {
    &&& forest.map_values(|c: CategoryTree| node_key(c)).to_multiset() == keys_under(
        rows,
        None,
    ).to_multiset()
    &&& trees_sorted(forest)
    &&& forall|k: int| 0 <= k < forest.len() ==> tree_matches(rows, #[trigger] forest[k])
}

/// Whether the row at `i` is consistent: a root, or hanging off an id some
/// earlier row defined.
pub open spec fn resolved_at(rows: Seq<CategoryRow>, i: int) -> bool {
    match rows[i].parent {
        Some(p) => exists|j: int| 0 <= j < i && (#[trigger] rows[j]).id == p,
        None => true,
    }
}

/// Whether every row's parent appears among the ids before it; the input
/// then encodes a forest reachable from its roots.
pub open spec fn parents_resolved(rows: Seq<CategoryRow>) -> bool {
    forall|i: int| 0 <= i < rows.len() ==> #[trigger] resolved_at(rows, i)
}

/// Whether no two rows share an id.
pub open spec fn distinct_ids(rows: Seq<CategoryRow>) -> bool {
    forall|i: int, j: int|
        0 <= i < j < rows.len() ==> (#[trigger] rows[i]).id != (#[trigger] rows[j]).id
}

/// In consistent rows with distinct ids, a child row always stands after
/// its parent row.
proof fn lemma_child_after(rows: Seq<CategoryRow>, i: int, j: int)
    requires
        distinct_ids(rows),
        parents_resolved(rows),
        0 <= i < rows.len(),
        0 <= j < rows.len(),
        rows[j].parent == Some(rows[i].id),
    ensures
        i < j,
{
    assert(resolved_at(rows, j));
    let k = choose|k: int| 0 <= k < j && (#[trigger] rows[k]).id == rows[i].id;
    if k != i {
        if k < i {
            assert(rows[k].id != rows[i].id);
        } else {
            assert(rows[i].id != rows[k].id);
        }
    }
}

/// Whether the row's parent column equals the given target.
fn row_under_exec(r: &CategoryRow, target: &Option<i32>) -> (b: bool)
    ensures
        b == row_under(*r, (match *target {
            Some(q) => Some(q as int),
            None => None,
        })),
{
    match (&r.parent, target) {
        (Some(p), Some(q)) => *p == *q,
        (None, None) => true,
        _ => false,
    }
}

/// Collect the indices of the rows hanging under `target`, sorted by row
/// name; together they carry exactly the keys of those rows.
#[verifier::loop_isolation(false)]
fn sorted_indices_under(rows: &Vec<CategoryRow>, target: Option<i32>) -> (idx: Vec<usize>)
    ensures
        ({
            let t = (match target {
                Some(q) => Some(q as int),
                None => None,
            });
            &&& forall|k: int|
                0 <= k < idx@.len() ==> (#[trigger] idx@[k]) < rows@.len() && row_under(
                    rows@[idx@[k] as int],
                    t,
                )
            &&& idx@.map_values(|j: usize| row_key(rows@[j as int])).to_multiset() == keys_under(
                rows@,
                t,
            ).to_multiset()
            &&& forall|a: int, b: int|
                0 <= a < b < idx@.len() ==> name_leq(
                    #[trigger] rows@[idx@[a] as int].name@,
                    #[trigger] rows@[idx@[b] as int].name@,
                )
        }),
{
    let ghost t = (match target {
        Some(q) => Some(q as int),
        None => None,
    });
    let ghost pred = |r: CategoryRow| row_under(r, t);
    let ghost keyf = |j: usize| row_key(rows@[j as int]);
    let mut idx: Vec<usize> = Vec::new();
    let n = rows.len();
    proof {
        assert(rows@.subrange(0, 0) =~= Seq::<CategoryRow>::empty());
        reveal(Seq::filter);
        assert(idx@.map_values(keyf) =~= rows@.subrange(0, 0).filter(pred).map_values(
            |r: CategoryRow| row_key(r),
        ));
    }
    let mut j: usize = 0;
    while j < n
        invariant
            j <= n,
            n == rows@.len(),
            t == (match target {
                Some(q) => Some(q as int),
                None => None,
            }),
            pred == |r: CategoryRow| row_under(r, t),
            keyf == |j: usize| row_key(rows@[j as int]),
            forall|k: int|
                0 <= k < idx@.len() ==> (#[trigger] idx@[k]) < rows@.len() && row_under(
                    rows@[idx@[k] as int],
                    t,
                ),
            idx@.map_values(keyf).to_multiset() == rows@.subrange(0, j as int).filter(
                pred,
            ).map_values(|r: CategoryRow| row_key(r)).to_multiset(),
            forall|a: int, b: int|
                0 <= a < b < idx@.len() ==> name_leq(
                    #[trigger] rows@[idx@[a] as int].name@,
                    #[trigger] rows@[idx@[b] as int].name@,
                ),
        decreases n - j,
    {
        let ghost old_idx = idx@;
        let ghost prefix = rows@.subrange(0, j as int);
        let row = &rows[j];
        if row_under_exec(row, &target) {
            let mut pos: usize = 0;
            while pos < idx.len() && str_leq(rows[idx[pos]].name.as_str(), rows[j].name.as_str())
                invariant
                    pos <= idx@.len(),
                    forall|k: int|
                        0 <= k < pos ==> name_leq(
                            #[trigger] rows@[idx@[k] as int].name@,
                            rows@[j as int].name@,
                        ),
                decreases idx@.len() - pos,
            {
                pos = pos + 1;
            }
            idx.insert(pos, j);
            proof {
                // The inserted list is still sorted by name.
                lemma_map_insert(old_idx, pos as int, j as usize, keyf);
                lemma_insert_to_multiset(old_idx.map_values(keyf), pos as int, keyf(j as usize));
                old_idx.insert_ensures(pos as int, j as usize);
                assert forall|a: int, b: int|
                    0 <= a < b < idx@.len() implies name_leq(
                    #[trigger] rows@[idx@[a] as int].name@,
                    #[trigger] rows@[idx@[b] as int].name@,
                ) by {
                    let jn = rows@[j as int].name@;
                    if a < pos && b < pos {
                    } else if b == pos {
                        assert(name_leq(rows@[idx@[a] as int].name@, jn));
                    } else if a == pos {
                        // The scan stopped at `pos`, so the name there does
                        // not sort before the new row's name.
                        let after = rows@[old_idx[pos as int] as int].name@;
                        assert(!name_leq(after, jn));
                        lemma_name_total(after, jn);
                        if b - 1 > pos {
                            lemma_name_trans(jn, after, rows@[old_idx[b - 1] as int].name@);
                        }
                    } else if a < pos {
                        // b > pos: old elements at a and b-1.
                        assert(name_leq(
                            rows@[old_idx[a] as int].name@,
                            rows@[old_idx[b - 1] as int].name@,
                        ));
                    } else {
                        // pos < a < b
                        assert(name_leq(
                            rows@[old_idx[a - 1] as int].name@,
                            rows@[old_idx[b - 1] as int].name@,
                        ));
                    }
                }
                // The carried keys gain exactly the new row's key.
                assert(rows@.subrange(0, j as int + 1) =~= prefix + seq![rows@[j as int]]);
                lemma_filter_one_more(prefix, rows@[j as int], pred);
                assert(rows@.subrange(0, j as int + 1).filter(pred).map_values(
                    |r: CategoryRow| row_key(r),
                ) =~= prefix.filter(pred).map_values(|r: CategoryRow| row_key(r)).push(
                    row_key(rows@[j as int]),
                ));
                prefix.filter(pred).map_values(|r: CategoryRow| row_key(r)).to_multiset_ensures();
                assert(idx@.map_values(keyf).to_multiset() == rows@.subrange(0, j as int + 1)
                    .filter(pred).map_values(|r: CategoryRow| row_key(r)).to_multiset());
            }
        } else {
            proof {
                assert(rows@.subrange(0, j as int + 1) =~= prefix + seq![rows@[j as int]]);
                lemma_filter_one_more(prefix, rows@[j as int], pred);
            }
        }
        j = j + 1;
    }
    proof {
        assert(rows@.subrange(0, n as int) =~= rows@);
    }
    idx
}

/// Build the subtree rooted at row `i`: its children are the rows naming
/// row `i`'s id as parent, each built recursively, sorted by name.
fn build_node(rows: &Vec<CategoryRow>, i: usize) -> (t: CategoryTree)
    requires
        distinct_ids(rows@),
        parents_resolved(rows@),
        i < rows@.len(),
    ensures
        tree_matches(rows@, t),
        node_key(t) == row_key(rows@[i as int]),
    decreases rows@.len() - i,
{
    let row_id = rows[i].id;
    let idx = sorted_indices_under(rows, Some(row_id));
    let mut subs: Vec<CategoryTree> = Vec::new();
    let mut k: usize = 0;
    while k < idx.len()
        invariant
            distinct_ids(rows@),
            parents_resolved(rows@),
            i < rows@.len(),
            row_id == rows@[i as int].id,
            k <= idx@.len(),
            subs@.len() == k,
            forall|m: int|
                0 <= m < idx@.len() ==> (#[trigger] idx@[m]) < rows@.len() && row_under(
                    rows@[idx@[m] as int],
                    Some(row_id as int),
                ),
            forall|a: int, b: int|
                0 <= a < b < idx@.len() ==> name_leq(
                    #[trigger] rows@[idx@[a] as int].name@,
                    #[trigger] rows@[idx@[b] as int].name@,
                ),
            forall|m: int|
                0 <= m < k ==> tree_matches(rows@, #[trigger] subs@[m]) && node_key(subs@[m])
                    == row_key(rows@[idx@[m] as int]),
        decreases idx@.len() - k,
    {
        let j = idx[k];
        proof {
            assert(rows@[j as int].parent == Some(rows@[i as int].id));
            lemma_child_after(rows@, i as int, j as int);
        }
        let child = build_node(rows, j);
        subs.push(child);
        k = k + 1;
    }
    let t = CategoryTree { id: Id::new(row_id), name: rows[i].name.clone(), subcategories: subs };
    proof {
        assert(t.subcategories@.map_values(|c: CategoryTree| node_key(c)) =~= idx@.map_values(
            |j: usize| row_key(rows@[j as int]),
        ));
        assert forall|a: int, b: int|
            0 <= a < b < t.subcategories@.len() implies name_leq(
            #[trigger] t.subcategories@[a].name@,
            #[trigger] t.subcategories@[b].name@,
        ) by {
            assert(node_key(t.subcategories@[a]) == row_key(rows@[idx@[a] as int]));
            assert(node_key(t.subcategories@[b]) == row_key(rows@[idx@[b] as int]));
            assert(t.subcategories@[a].name@ == rows@[idx@[a] as int].name@);
            assert(t.subcategories@[b].name@ == rows@[idx@[b] as int].name@);
        }
    }
    t
}

/// Reconstruct the hierarchy of categories as a forest, with roots and
/// each sibling list sorted by name.
///
/// The rows must carry distinct ids (they are primary keys upstream).
/// Construction succeeds exactly when every row's parent id appears among
/// the rows before it — the pre-sorted form the storage layer supplies.
/// The forest then presents exactly the input rows ([`forest_matches`]).
///
/// # Errors
///
/// Fails with [`TreeError::DanglingParent`] on the first row whose parent
/// id no earlier row defines: such input is corrupted and no partial
/// forest is returned.
pub fn category_trees(rows: &Vec<CategoryRow>) -> (r: Result<Vec<CategoryTree>, TreeError>)
    requires
        distinct_ids(rows@),
    ensures
        r is Ok <==> parents_resolved(rows@),
        r matches Ok(forest) ==> forest_matches(rows@, forest@),
{
    let n = rows.len();
    let mut i: usize = 0;
    while i < n
        invariant
            i <= n,
            n == rows@.len(),
            forall|m: int| 0 <= m < i ==> #[trigger] resolved_at(rows@, m),
        decreases n - i,
    {
        if let Some(p) = rows[i].parent {
            let mut j: usize = 0;
            let mut found = false;
            while j < i
                invariant
                    j <= i,
                    i < rows@.len(),
                    found ==> exists|m: int| 0 <= m < i && (#[trigger] rows@[m]).id == p,
                    !found ==> forall|m: int| 0 <= m < j ==> (#[trigger] rows@[m]).id != p,
                decreases i - j,
            {
                if rows[j].id == p {
                    found = true;
                }
                j = j + 1;
            }
            if !found {
                proof {
                    assert(!resolved_at(rows@, i as int));
                }
                return Err(TreeError::DanglingParent { id: rows[i].id, parent: p });
            }
        }
        i = i + 1;
    }
    let idx = sorted_indices_under(rows, None);
    let mut forest: Vec<CategoryTree> = Vec::new();
    let mut k: usize = 0;
    while k < idx.len()
        invariant
            distinct_ids(rows@),
            parents_resolved(rows@),
            k <= idx@.len(),
            forest@.len() == k,
            forall|m: int|
                0 <= m < idx@.len() ==> (#[trigger] idx@[m]) < rows@.len() && row_under(
                    rows@[idx@[m] as int],
                    None,
                ),
            forall|a: int, b: int|
                0 <= a < b < idx@.len() ==> name_leq(
                    #[trigger] rows@[idx@[a] as int].name@,
                    #[trigger] rows@[idx@[b] as int].name@,
                ),
            forall|m: int|
                0 <= m < k ==> tree_matches(rows@, #[trigger] forest@[m]) && node_key(forest@[m])
                    == row_key(rows@[idx@[m] as int]),
        decreases idx@.len() - k,
    {
        let j = idx[k];
        let root = build_node(rows, j);
        forest.push(root);
        k = k + 1;
    }
    proof {
        assert(forest@.map_values(|c: CategoryTree| node_key(c)) =~= idx@.map_values(
            |j: usize| row_key(rows@[j as int]),
        ));
        assert forall|a: int, b: int|
            0 <= a < b < forest@.len() implies name_leq(
            #[trigger] forest@[a].name@,
            #[trigger] forest@[b].name@,
        ) by {
            assert(node_key(forest@[a]) == row_key(rows@[idx@[a] as int]));
            assert(node_key(forest@[b]) == row_key(rows@[idx@[b] as int]));
            assert(forest@[a].name@ == rows@[idx@[a] as int].name@);
            assert(forest@[b].name@ == rows@[idx@[b] as int].name@);
        }
    }
    Ok(forest)
}

} // verus!
