//! Reviews, comments, and the comment thread builder.
//!
//! Comments on a review are stored flat, each row naming its parent
//! comment (or none, for a direct comment on the review) and the review it
//! belongs to. [`comment_trees`] rebuilds one review's nested reply trees,
//! sorting every sibling list by descending vote tally and then ascending
//! creation time — the key is independent of the viewer, so authenticated
//! and anonymous reads order identically. [`attach_comment_trees`] runs
//! one batch of rows against many reviews at once.

use crate::categories::TreeError;
use crate::ids::{Comment, Customer, Id, Product, Review, Vendor};
use crate::order::{lemma_filter_one_more, lemma_insert_to_multiset, lemma_map_insert};
use crate::types::{ProfilePicture, Rating, Role, Username, Vote};
use vstd::prelude::*;

verus! {

/// The role of the user placing a comment, to determine whether a special
/// badge should be displayed.
#[derive(Clone, Copy, Debug, PartialEq, Eq)]
pub enum CommentRole {
    /// The author is a user. The author of the review should get a badge.
    User {
        /// Whether the user is the original poster of the review.
        author: bool,
    },
    /// The author is a vendor (ID provided). The owner of the product
    /// should get a badge.
    Vendor(Id<Vendor>),
    /// The author is a site administrator, who always gets a badge.
    Administrator,
}

/// A flat comment row, as the storage layer hands it over.
#[derive(Debug)]
pub struct CommentRow {
    /// The ID of the comment.
    pub id: i32,
    /// The parent comment, absent for a direct comment on the review.
    pub parent: Option<i32>,
    /// The review the comment belongs to.
    pub review: i32,
    /// The username of the author.
    pub username: Username,
    /// The role of the author.
    pub role: CommentRole,
    /// The content of the comment.
    pub content: String,
    /// When the comment was created, as a timestamp.
    pub created_at: i64,
    /// When the comment was last updated, as a timestamp.
    pub updated_at: i64,
    /// The sum of all votes on the comment: +1 per like, -1 per dislike.
    pub sum_votes: i64,
    /// The reading customer's own vote, if any.
    pub own_vote: Option<Vote>,
}

/// A comment with its replies in a tree.
#[derive(Debug, PartialEq, Eq)]
pub struct CommentTree {
    /// The ID of the comment.
    pub id: Id<Comment>,
    /// The username of the author.
    pub username: Username,
    /// The role of the author, see [`CommentRole`] for details.
    pub role: CommentRole,
    /// The content of the comment.
    pub content: String,
    /// When the comment was created, as a timestamp.
    pub created_at: i64,
    /// When the comment was last updated, as a timestamp.
    pub updated_at: i64,
    /// The sum of all votes on the comment: +1 per like, -1 per dislike.
    pub sum_votes: i64,
    /// The reading customer's own vote, if any.
    pub own_vote: Option<Vote>,
    /// All direct replies, by descending vote sum, then creation time.
    pub replies: Vec<CommentTree>,
}

/// Everything a comment node carries, as mathematical values.
pub struct CommentData {
    /// The comment id.
    pub id: int,
    /// The author's name.
    pub username: Seq<char>,
    /// The author's role.
    pub role: CommentRole,
    /// The text.
    pub content: Seq<char>,
    /// Creation timestamp.
    pub created_at: int,
    /// Last-update timestamp.
    pub updated_at: int,
    /// The vote tally.
    pub sum_votes: int,
    /// The reading customer's own vote.
    pub own_vote: Option<Vote>,
}

/// The values a row carries into the tree.
pub open spec fn row_data(r: CommentRow) -> CommentData {
    CommentData {
        id: r.id as int,
        username: r.username@,
        role: r.role,
        content: r.content@,
        created_at: r.created_at as int,
        updated_at: r.updated_at as int,
        sum_votes: r.sum_votes as int,
        own_vote: r.own_vote,
    }
}

/// The values a tree node carries.
pub open spec fn node_data(t: CommentTree) -> CommentData {
    CommentData {
        id: t.id@,
        username: t.username@,
        role: t.role,
        content: t.content@,
        created_at: t.created_at as int,
        updated_at: t.updated_at as int,
        sum_votes: t.sum_votes as int,
        own_vote: t.own_vote,
    }
}

/// The sibling sort key: a higher vote sum sorts first; equal sums fall
/// back to earlier creation — never arrival order.
pub open spec fn score_leq(votes_a: int, time_a: int, votes_b: int, time_b: int) -> bool {
    votes_a > votes_b || (votes_a == votes_b && time_a <= time_b)
}

/// Whether a row belongs to the given review under the given parent
/// (`None`: a direct comment on the review).
pub open spec fn row_in_thread(r: CommentRow, review: int, target: Option<int>) -> bool {
    r.review == review && (match (r.parent, target) {
        (Some(p), Some(q)) => p == q,
        (None, None) => true,
        _ => false,
    })
}

/// The data of the rows of a review hanging under the given parent, in
/// row order.
pub open spec fn thread_data_under(rows: Seq<CommentRow>, review: int, target: Option<int>) -> Seq<
    CommentData,
> {
    rows.filter(|r: CommentRow| row_in_thread(r, review, target)).map_values(
        |r: CommentRow| row_data(r),
    )
}

/// Whether a sibling list is sorted by descending vote sum, then
/// ascending creation time.
pub open spec fn replies_sorted(ts: Seq<CommentTree>) -> bool {
    forall|a: int, b: int|
        0 <= a < b < ts.len() ==> score_leq(
            (#[trigger] ts[a]).sum_votes as int,
            ts[a].created_at as int,
            (#[trigger] ts[b]).sum_votes as int,
            ts[b].created_at as int,
        )
}

/// Whether a comment subtree faithfully presents the rows of a review:
/// its replies are exactly the rows naming it as parent, sorted by the
/// score key, and so on down.
pub open spec fn comment_matches(rows: Seq<CommentRow>, review: int, t: CommentTree) -> bool
    decreases t,
{
    &&& t.replies@.map_values(|c: CommentTree| node_data(c)).to_multiset() == thread_data_under(
        rows,
        review,
        Some(t.id@),
    ).to_multiset()
    &&& replies_sorted(t.replies@)
    &&& forall|k: int|
        0 <= k < t.replies@.len() ==> comment_matches(rows, review, #[trigger] t.replies@[k])
}

/// Whether a forest is exactly the review's comment thread: its roots are
/// the review's direct comments, sorted by the score key, and every
/// subtree matches.
pub open spec fn thread_matches(
    rows: Seq<CommentRow>,
    review: int,
    forest: Seq<CommentTree>,
) -> bool {
    &&& forest.map_values(|c: CommentTree| node_data(c)).to_multiset() == thread_data_under(
        rows,
        review,
        None,
    ).to_multiset()
    &&& replies_sorted(forest)
    &&& forall|k: int| 0 <= k < forest.len() ==> comment_matches(rows, review, #[trigger] forest[k])
}

/// Whether the row at `i`, if it belongs to the given review, is a direct
/// comment or a reply to an earlier row of the same review.
pub open spec fn thread_resolved_at(rows: Seq<CommentRow>, review: int, i: int) -> bool {
    rows[i].review == review ==> (rows[i].parent matches Some(p) ==> exists|j: int|
        0 <= j < i && (#[trigger] rows[j]).review == review && rows[j].id == p)
}

/// Whether every one of the review's rows resolves to an earlier row of
/// the review; the rows then encode that review's reply forest.
pub open spec fn threads_resolved(rows: Seq<CommentRow>, review: int) -> bool {
    forall|i: int| 0 <= i < rows.len() ==> #[trigger] thread_resolved_at(rows, review, i)
}

/// Whether no two rows share a comment id.
pub open spec fn distinct_comment_ids(rows: Seq<CommentRow>) -> bool {
    forall|i: int, j: int|
        0 <= i < j < rows.len() ==> (#[trigger] rows[i]).id != (#[trigger] rows[j]).id
}

/// In consistent rows with distinct ids, a reply always stands after its
/// parent row.
proof fn lemma_reply_after(rows: Seq<CommentRow>, review: int, i: int, j: int)
    requires
        distinct_comment_ids(rows),
        threads_resolved(rows, review),
        0 <= i < rows.len(),
        0 <= j < rows.len(),
        rows[j].review == review,
        rows[j].parent == Some(rows[i].id),
    ensures
        i < j,
{
    assert(thread_resolved_at(rows, review, j));
    let k = choose|k: int|
        0 <= k < j && (#[trigger] rows[k]).review == review && rows[k].id == rows[i].id;
    if k != i {
        if k < i {
            assert(rows[k].id != rows[i].id);
        } else {
            assert(rows[i].id != rows[k].id);
        }
    }
}

/// Whether the row belongs to the review under the given parent column.
fn row_in_thread_exec(r: &CommentRow, review: i32, target: &Option<i32>) -> (b: bool)
    ensures
        b == row_in_thread(*r, review as int, (match *target {
            Some(q) => Some(q as int),
            None => None,
        })),
{
    r.review == review && (match (&r.parent, target) {
        (Some(p), Some(q)) => *p == *q,
        (None, None) => true,
        _ => false,
    })
}

/// Whether the row's score key sorts at or before the given key.
fn score_at_most(r: &CommentRow, votes: i64, time: i64) -> (b: bool)
    ensures
        b == score_leq(r.sum_votes as int, r.created_at as int, votes as int, time as int),
{
    r.sum_votes > votes || (r.sum_votes == votes && r.created_at <= time)
}

/// Collect the indices of the review's rows hanging under `target`,
/// sorted by descending vote sum then ascending creation time; together
/// they carry exactly the data of those rows.
#[verifier::loop_isolation(false)]
fn sorted_thread_indices(rows: &Vec<CommentRow>, review: i32, target: Option<i32>) -> (idx: Vec<
    usize,
>)
    ensures
        ({
            let t = (match target {
                Some(q) => Some(q as int),
                None => None,
            });
            &&& forall|k: int|
                0 <= k < idx@.len() ==> (#[trigger] idx@[k]) < rows@.len() && row_in_thread(
                    rows@[idx@[k] as int],
                    review as int,
                    t,
                )
            &&& idx@.map_values(|j: usize| row_data(rows@[j as int])).to_multiset()
                == thread_data_under(rows@, review as int, t).to_multiset()
            &&& forall|a: int, b: int|
                0 <= a < b < idx@.len() ==> score_leq(
                    (#[trigger] rows@[idx@[a] as int]).sum_votes as int,
                    rows@[idx@[a] as int].created_at as int,
                    (#[trigger] rows@[idx@[b] as int]).sum_votes as int,
                    rows@[idx@[b] as int].created_at as int,
                )
        }),
{
    let ghost t = (match target {
        Some(q) => Some(q as int),
        None => None,
    });
    let ghost pred = |r: CommentRow| row_in_thread(r, review as int, t);
    let ghost keyf = |j: usize| row_data(rows@[j as int]);
    let mut idx: Vec<usize> = Vec::new();
    let n = rows.len();
    proof {
        assert(rows@.subrange(0, 0) =~= Seq::<CommentRow>::empty());
        reveal(Seq::filter);
        assert(idx@.map_values(keyf) =~= rows@.subrange(0, 0).filter(pred).map_values(
            |r: CommentRow| row_data(r),
        ));
    }
    let mut j: usize = 0;
    while j < n
        invariant
            j <= n,
            forall|k: int|
                0 <= k < idx@.len() ==> (#[trigger] idx@[k]) < rows@.len() && row_in_thread(
                    rows@[idx@[k] as int],
                    review as int,
                    t,
                ),
            idx@.map_values(keyf).to_multiset() == rows@.subrange(0, j as int).filter(
                pred,
            ).map_values(|r: CommentRow| row_data(r)).to_multiset(),
            forall|a: int, b: int|
                0 <= a < b < idx@.len() ==> score_leq(
                    (#[trigger] rows@[idx@[a] as int]).sum_votes as int,
                    rows@[idx@[a] as int].created_at as int,
                    (#[trigger] rows@[idx@[b] as int]).sum_votes as int,
                    rows@[idx@[b] as int].created_at as int,
                ),
        decreases n - j,
    {
        let ghost old_idx = idx@;
        let ghost prefix = rows@.subrange(0, j as int);
        if row_in_thread_exec(&rows[j], review, &target) {
            let votes = rows[j].sum_votes;
            let time = rows[j].created_at;
            let mut pos: usize = 0;
            while pos < idx.len() && score_at_most(&rows[idx[pos]], votes, time)
                invariant
                    pos <= idx@.len(),
                    forall|k: int|
                        0 <= k < pos ==> score_leq(
                            (#[trigger] rows@[idx@[k] as int]).sum_votes as int,
                            rows@[idx@[k] as int].created_at as int,
                            votes as int,
                            time as int,
                        ),
                decreases idx@.len() - pos,
            {
                pos = pos + 1;
            }
            idx.insert(pos, j);
            proof {
                lemma_map_insert(old_idx, pos as int, j as usize, keyf);
                lemma_insert_to_multiset(old_idx.map_values(keyf), pos as int, keyf(j as usize));
                old_idx.insert_ensures(pos as int, j as usize);
                assert forall|a: int, b: int|
                    0 <= a < b < idx@.len() implies score_leq(
                    (#[trigger] rows@[idx@[a] as int]).sum_votes as int,
                    rows@[idx@[a] as int].created_at as int,
                    (#[trigger] rows@[idx@[b] as int]).sum_votes as int,
                    rows@[idx@[b] as int].created_at as int,
                ) by {
                    if a < pos && b < pos {
                    } else if b == pos {
                        assert(score_leq(
                            rows@[idx@[a] as int].sum_votes as int,
                            rows@[idx@[a] as int].created_at as int,
                            votes as int,
                            time as int,
                        ));
                    } else if a == pos {
                        if b - 1 > pos {
                            assert(score_leq(
                                rows@[old_idx[pos as int] as int].sum_votes as int,
                                rows@[old_idx[pos as int] as int].created_at as int,
                                rows@[old_idx[b - 1] as int].sum_votes as int,
                                rows@[old_idx[b - 1] as int].created_at as int,
                            ));
                        }
                    } else if a < pos {
                        assert(score_leq(
                            rows@[old_idx[a] as int].sum_votes as int,
                            rows@[old_idx[a] as int].created_at as int,
                            rows@[old_idx[b - 1] as int].sum_votes as int,
                            rows@[old_idx[b - 1] as int].created_at as int,
                        ));
                    } else {
                        assert(score_leq(
                            rows@[old_idx[a - 1] as int].sum_votes as int,
                            rows@[old_idx[a - 1] as int].created_at as int,
                            rows@[old_idx[b - 1] as int].sum_votes as int,
                            rows@[old_idx[b - 1] as int].created_at as int,
                        ));
                    }
                }
                assert(rows@.subrange(0, j as int + 1) =~= prefix + seq![rows@[j as int]]);
                lemma_filter_one_more(prefix, rows@[j as int], pred);
                assert(rows@.subrange(0, j as int + 1).filter(pred).map_values(
                    |r: CommentRow| row_data(r),
                ) =~= prefix.filter(pred).map_values(|r: CommentRow| row_data(r)).push(
                    row_data(rows@[j as int]),
                ));
                prefix.filter(pred).map_values(|r: CommentRow| row_data(r)).to_multiset_ensures();
            }
        } else {
            proof {
                assert(rows@.subrange(0, j as int + 1) =~= prefix + seq![rows@[j as int]]);
                lemma_filter_one_more(prefix, rows@[j as int], pred);
            }
        }
        j = j + 1;
    }
    proof {
        assert(rows@.subrange(0, n as int) =~= rows@);
    }
    idx
}

/// Build the reply subtree rooted at row `i` of the given review.
fn build_comment_node(rows: &Vec<CommentRow>, review: i32, i: usize) -> (t: CommentTree)
    requires
        distinct_comment_ids(rows@),
        threads_resolved(rows@, review as int),
        i < rows@.len(),
        rows@[i as int].review == review,
    ensures
        comment_matches(rows@, review as int, t),
        node_data(t) == row_data(rows@[i as int]),
    decreases rows@.len() - i,
{
    let row_id = rows[i].id;
    let idx = sorted_thread_indices(rows, review, Some(row_id));
    let mut subs: Vec<CommentTree> = Vec::new();
    let mut k: usize = 0;
    while k < idx.len()
        invariant
            distinct_comment_ids(rows@),
            threads_resolved(rows@, review as int),
            i < rows@.len(),
            row_id == rows@[i as int].id,
            k <= idx@.len(),
            subs@.len() == k,
            forall|m: int|
                0 <= m < idx@.len() ==> (#[trigger] idx@[m]) < rows@.len() && row_in_thread(
                    rows@[idx@[m] as int],
                    review as int,
                    Some(row_id as int),
                ),
            forall|a: int, b: int|
                0 <= a < b < idx@.len() ==> score_leq(
                    (#[trigger] rows@[idx@[a] as int]).sum_votes as int,
                    rows@[idx@[a] as int].created_at as int,
                    (#[trigger] rows@[idx@[b] as int]).sum_votes as int,
                    rows@[idx@[b] as int].created_at as int,
                ),
            forall|m: int|
                0 <= m < k ==> comment_matches(rows@, review as int, #[trigger] subs@[m])
                    && node_data(subs@[m]) == row_data(rows@[idx@[m] as int]),
        decreases idx@.len() - k,
    {
        let j = idx[k];
        proof {
            assert(rows@[j as int].parent == Some(rows@[i as int].id));
            lemma_reply_after(rows@, review as int, i as int, j as int);
        }
        let child = build_comment_node(rows, review, j);
        subs.push(child);
        k = k + 1;
    }
    let row = &rows[i];
    let t = CommentTree {
        id: Id::new(row_id),
        username: row.username.clone(),
        role: row.role,
        content: row.content.clone(),
        created_at: row.created_at,
        updated_at: row.updated_at,
        sum_votes: row.sum_votes,
        own_vote: row.own_vote,
        replies: subs,
    };
    proof {
        assert(t.replies@.map_values(|c: CommentTree| node_data(c)) =~= idx@.map_values(
            |j: usize| row_data(rows@[j as int]),
        ));
        assert forall|a: int, b: int|
            0 <= a < b < t.replies@.len() implies score_leq(
            (#[trigger] t.replies@[a]).sum_votes as int,
            t.replies@[a].created_at as int,
            (#[trigger] t.replies@[b]).sum_votes as int,
            t.replies@[b].created_at as int,
        ) by {
            assert(node_data(t.replies@[a]) == row_data(rows@[idx@[a] as int]));
            assert(node_data(t.replies@[b]) == row_data(rows@[idx@[b] as int]));
            assert(t.replies@[a].sum_votes == rows@[idx@[a] as int].sum_votes);
            assert(t.replies@[a].created_at == rows@[idx@[a] as int].created_at);
            assert(t.replies@[b].sum_votes == rows@[idx@[b] as int].sum_votes);
            assert(t.replies@[b].created_at == rows@[idx@[b] as int].created_at);
        }
    }
    t
}

/// Reconstruct one review's comment thread from flat rows: its direct
/// comments with their nested replies, every sibling list sorted by
/// descending vote sum, then ascending creation time.
///
/// The rows may span many reviews (comment ids are distinct across all of
/// them); rows of other reviews are ignored. Construction succeeds
/// exactly when every row of this review replies to an earlier row of the
/// review; the forest then presents exactly those rows
/// ([`thread_matches`]).
///
/// # Errors
///
/// Fails with [`TreeError::DanglingParent`] on the first row of the
/// review whose parent no earlier row of the review defines: such input
/// is corrupted and no partial thread is returned.
pub fn comment_trees(rows: &Vec<CommentRow>, review: i32) -> (r: Result<Vec<CommentTree>, TreeError>)
    requires
        distinct_comment_ids(rows@),
    ensures
        r is Ok <==> threads_resolved(rows@, review as int),
        r matches Ok(forest) ==> thread_matches(rows@, review as int, forest@),
{
    let n = rows.len();
    let mut i: usize = 0;
    while i < n
        invariant
            i <= n,
            n == rows@.len(),
            forall|m: int| 0 <= m < i ==> #[trigger] thread_resolved_at(rows@, review as int, m),
        decreases n - i,
    {
        if rows[i].review == review {
            if let Some(p) = rows[i].parent {
                let mut j: usize = 0;
                let mut found = false;
                while j < i
                    invariant
                        j <= i,
                        i < rows@.len(),
                        found ==> exists|m: int|
                            0 <= m < i && (#[trigger] rows@[m]).review == review && rows@[m].id
                                == p,
                        !found ==> forall|m: int|
                            0 <= m < j ==> !((#[trigger] rows@[m]).review == review && rows@[m].id
                                == p),
                    decreases i - j,
                {
                    if rows[j].review == review && rows[j].id == p {
                        found = true;
                    }
                    j = j + 1;
                }
                if !found {
                    proof {
                        assert(!thread_resolved_at(rows@, review as int, i as int));
                    }
                    return Err(TreeError::DanglingParent { id: rows[i].id, parent: p });
                }
            }
        }
        i = i + 1;
    }
    let idx = sorted_thread_indices(rows, review, None);
    let mut forest: Vec<CommentTree> = Vec::new();
    let mut k: usize = 0;
    while k < idx.len()
        invariant
            distinct_comment_ids(rows@),
            threads_resolved(rows@, review as int),
            k <= idx@.len(),
            forest@.len() == k,
            forall|m: int|
                0 <= m < idx@.len() ==> (#[trigger] idx@[m]) < rows@.len() && row_in_thread(
                    rows@[idx@[m] as int],
                    review as int,
                    None,
                ),
            forall|a: int, b: int|
                0 <= a < b < idx@.len() ==> score_leq(
                    (#[trigger] rows@[idx@[a] as int]).sum_votes as int,
                    rows@[idx@[a] as int].created_at as int,
                    (#[trigger] rows@[idx@[b] as int]).sum_votes as int,
                    rows@[idx@[b] as int].created_at as int,
                ),
            forall|m: int|
                0 <= m < k ==> comment_matches(rows@, review as int, #[trigger] forest@[m])
                    && node_data(forest@[m]) == row_data(rows@[idx@[m] as int]),
        decreases idx@.len() - k,
    {
        let j = idx[k];
        let root = build_comment_node(rows, review, j);
        forest.push(root);
        k = k + 1;
    }
    proof {
        assert(forest@.map_values(|c: CommentTree| node_data(c)) =~= idx@.map_values(
            |j: usize| row_data(rows@[j as int]),
        ));
        assert forall|a: int, b: int|
            0 <= a < b < forest@.len() implies score_leq(
            (#[trigger] forest@[a]).sum_votes as int,
            forest@[a].created_at as int,
            (#[trigger] forest@[b]).sum_votes as int,
            forest@[b].created_at as int,
        ) by {
            assert(node_data(forest@[a]) == row_data(rows@[idx@[a] as int]));
            assert(node_data(forest@[b]) == row_data(rows@[idx@[b] as int]));
            assert(forest@[a].sum_votes == rows@[idx@[a] as int].sum_votes);
            assert(forest@[a].created_at == rows@[idx@[a] as int].created_at);
            assert(forest@[b].sum_votes == rows@[idx@[b] as int].sum_votes);
            assert(forest@[b].created_at == rows@[idx@[b] as int].created_at);
        }
    }
    Ok(forest)
}

/// A flat review row, as the storage layer hands it over (the vote tally
/// and the reader's own vote already aggregated by the query).
#[derive(Debug)]
pub struct ReviewRow {
    /// The ID of the review.
    pub id: i32,
    /// The ID of the authoring customer.
    pub customer: i32,
    /// The username of the authoring customer.
    pub username: Username,
    /// The profile picture of the authoring customer.
    pub profile_picture: ProfilePicture,
    /// The given rating of the product.
    pub rating: Rating,
    /// When the review was created, as a timestamp.
    pub created_at: i64,
    /// When the review was last updated, as a timestamp.
    pub updated_at: i64,
    /// The title of the review.
    pub title: String,
    /// The content of the review.
    pub content: String,
    /// The sum of all votes on the review: +1 per like, -1 per dislike.
    pub sum_votes: i64,
    /// The reading customer's own vote, if any.
    pub own_vote: Option<Vote>,
}

/// A review of a product, for display on product pages.
#[derive(Debug, PartialEq, Eq)]
pub struct ProductReview {
    /// The ID of the review.
    pub id: Id<Review>,
    /// The ID of the authoring customer.
    pub customer: Id<Customer>,
    /// The username of the authoring customer.
    pub username: Username,
    /// The profile picture of the authoring customer.
    pub profile_picture: ProfilePicture,
    /// The given rating of the product.
    pub rating: Rating,
    /// When the review was created, as a timestamp.
    pub created_at: i64,
    /// When the review was last updated, as a timestamp.
    pub updated_at: i64,
    /// The title of the review.
    pub title: String,
    /// The content of the review.
    pub content: String,
    /// Comment trees on the review.
    pub comments: Vec<CommentTree>,
    /// The sum of all votes on the review: +1 per like, -1 per dislike.
    pub sum_votes: i64,
    /// The reading customer's own vote, if any. Meaningless when no
    /// customer was given to the query.
    pub own_vote: Option<Vote>,
}

impl ProductReview {
    /// Assemble the read model from a flat row; comments start empty and
    /// are attached by [`attach_comment_trees`].
    pub fn from_row(row: ReviewRow) -> (r: Self)
        ensures
            r.id@ == row.id,
            r.customer@ == row.customer,
            r.username == row.username,
            r.profile_picture == row.profile_picture,
            r.rating == row.rating,
            r.created_at == row.created_at,
            r.updated_at == row.updated_at,
            r.title == row.title,
            r.content == row.content,
            r.comments@.len() == 0,
            r.sum_votes == row.sum_votes,
            r.own_vote == row.own_vote,
    {
        ProductReview {
            id: Id::new(row.id),
            customer: Id::new(row.customer),
            username: row.username,
            profile_picture: row.profile_picture,
            rating: row.rating,
            created_at: row.created_at,
            updated_at: row.updated_at,
            title: row.title,
            content: row.content,
            comments: Vec::new(),
            sum_votes: row.sum_votes,
            own_vote: row.own_vote,
        }
    }
}

/// A review of a product placed by a known customer, for display on
/// product pages. The rating travels with the product info, as the
/// customer might have rated without writing a review.
#[derive(Debug, PartialEq, Eq)]
pub struct OwnReview {
    /// The ID of the review.
    pub id: Id<Review>,
    /// The given rating of the product.
    pub rating: Rating,
    /// When the review was created, as a timestamp.
    pub created_at: i64,
    /// When the review was last updated, as a timestamp.
    pub updated_at: i64,
    /// The title of the review.
    pub title: String,
    /// The content of the review.
    pub content: String,
    /// Comment trees on the review.
    pub comments: Vec<CommentTree>,
    /// The sum of all votes on the review: +1 per like, -1 per dislike.
    pub sum_votes: i64,
}

/// A flat row of the reading customer's own review.
#[derive(Debug)]
pub struct OwnReviewRow {
    /// The ID of the review.
    pub id: i32,
    /// The given rating of the product.
    pub rating: Rating,
    /// When the review was created, as a timestamp.
    pub created_at: i64,
    /// When the review was last updated, as a timestamp.
    pub updated_at: i64,
    /// The title of the review.
    pub title: String,
    /// The content of the review.
    pub content: String,
    /// The sum of all votes on the review: +1 per like, -1 per dislike.
    pub sum_votes: i64,
}

impl OwnReview {
    /// Assemble the read model from a flat row; comments start empty.
    pub fn from_row(row: OwnReviewRow) -> (r: Self)
        ensures
            r.id@ == row.id,
            r.rating == row.rating,
            r.created_at == row.created_at,
            r.updated_at == row.updated_at,
            r.title == row.title,
            r.content == row.content,
            r.comments@.len() == 0,
            r.sum_votes == row.sum_votes,
    {
        OwnReview {
            id: Id::new(row.id),
            rating: row.rating,
            created_at: row.created_at,
            updated_at: row.updated_at,
            title: row.title,
            content: row.content,
            comments: Vec::new(),
            sum_votes: row.sum_votes,
        }
    }
}

/// A review by a known customer, for display on profile pages.
#[derive(Debug, PartialEq, Eq)]
pub struct CustomerReview {
    /// The product the review belongs to.
    pub product: Id<Product>,
    /// The name of the product.
    pub product_name: String,
    /// The thumbnail of the product.
    pub thumbnail: String,
    /// The rating associated with the review.
    pub rating: Rating,
    /// The title of the review.
    pub title: String,
    /// The content of the review.
    pub content: String,
}

/// A flat row behind [`CustomerReview`].
#[derive(Debug)]
pub struct CustomerReviewRow {
    /// The product the review belongs to.
    pub product: i32,
    /// The name of the product.
    pub product_name: String,
    /// The thumbnail of the product.
    pub thumbnail: String,
    /// The rating associated with the review.
    pub rating: Rating,
    /// The title of the review.
    pub title: String,
    /// The content of the review.
    pub content: String,
}

impl CustomerReview {
    /// Assemble the read model from a flat row.
    pub fn from_row(row: CustomerReviewRow) -> (r: Self)
        ensures
            r.product@ == row.product,
            r.product_name == row.product_name,
            r.thumbnail == row.thumbnail,
            r.rating == row.rating,
            r.title == row.title,
            r.content == row.content,
    {
        CustomerReview {
            product: Id::new(row.product),
            product_name: row.product_name,
            thumbnail: row.thumbnail,
            rating: row.rating,
            title: row.title,
            content: row.content,
        }
    }
}

/// A record of a customer's review, for display on profile pages; an
/// invisible review has no title and content and only contributes its
/// rating.
#[derive(Debug, PartialEq, Eq)]
pub struct ReviewLog {
    /// The ID of the product.
    pub product: Id<Product>,
    /// URL to an image of the product.
    pub thumbnail: String,
    /// The name of the product.
    pub product_name: String,
    /// The given rating of the product.
    pub rating: Rating,
    /// The title and content of the review, if any.
    pub title_and_content: Option<(String, String)>,
    /// The sum of all votes on the review: +1 per like, -1 per dislike.
    pub sum_votes: i64,
}

/// Whether the role-dependent profile picture columns are consistent: a
/// customer has only the customer picture, a vendor only the vendor
/// picture, an administrator neither.
pub open spec fn pfp_repr_consistent(
    role: Role,
    customer_pfp: Option<String>,
    vendor_pfp: Option<String>,
) -> bool {
    match (role, customer_pfp, vendor_pfp) {
        (Role::Customer, Some(_), None) => true,
        (Role::Vendor, None, Some(_)) => true,
        (Role::Administrator, None, None) => true,
        _ => false,
    }
}

/// Construct a [`ProfilePicture`] from its role-dependent representation
/// in storage; the columns must uphold the storage invariant
/// ([`pfp_repr_consistent`]).
pub fn build_pfp(role: Role, customer_pfp: Option<String>, vendor_pfp: Option<String>) -> (r:
    ProfilePicture)
    requires
        pfp_repr_consistent(role, customer_pfp, vendor_pfp),
    ensures
        (match role {
            Role::Customer => r.spec_url() == (match customer_pfp {
                Some(u) => Some(u@),
                None => None,
            }),
            Role::Vendor => r.spec_url() == (match vendor_pfp {
                Some(u) => Some(u@),
                None => None,
            }),
            Role::Administrator => r.spec_url() is None,
        }),
{
    match (role, customer_pfp, vendor_pfp) {
        (Role::Customer, Some(url), None) => ProfilePicture::new(url),
        (Role::Vendor, None, Some(url)) => ProfilePicture::new(url),
        _ => ProfilePicture::admin(),
    }
}

/// Attach the reading customer's own review's comment thread from the
/// same batch of rows the other reviews use.
///
/// # Errors
///
/// Fails with [`TreeError::DanglingParent`] when the review's rows are
/// inconsistent, exactly as [`comment_trees`] does.
pub fn attach_own_comment_trees(own: OwnReview, rows: &Vec<CommentRow>) -> (r: Result<
    OwnReview,
    TreeError,
>)
    requires
        distinct_comment_ids(rows@),
    ensures
        r is Ok <==> threads_resolved(rows@, own.id@),
        r matches Ok(out) ==> {
            &&& out.id == own.id
            &&& out.rating == own.rating
            &&& out.created_at == own.created_at
            &&& out.updated_at == own.updated_at
            &&& out.title == own.title
            &&& out.content == own.content
            &&& out.sum_votes == own.sum_votes
            &&& thread_matches(rows@, own.id@, out.comments@)
        },
{
    let review_id = own.id.get();
    let forest = match comment_trees(rows, review_id) {
        Ok(f) => f,
        Err(e) => {
            return Err(e);
        },
    };
    let OwnReview {
        id,
        rating,
        created_at,
        updated_at,
        title,
        content,
        comments: _,
        sum_votes,
    } = own;
    Ok(
        OwnReview {
            id,
            rating,
            created_at,
            updated_at,
            title,
            content,
            comments: forest,
            sum_votes,
        },
    )
}

/// Whether two reviews agree on everything but their comment trees.
pub open spec fn same_except_comments(a: ProductReview, b: ProductReview) -> bool {
    &&& b.id == a.id
    &&& b.customer == a.customer
    &&& b.username == a.username
    &&& b.profile_picture == a.profile_picture
    &&& b.rating == a.rating
    &&& b.created_at == a.created_at
    &&& b.updated_at == a.updated_at
    &&& b.title == a.title
    &&& b.content == a.content
    &&& b.sum_votes == a.sum_votes
    &&& b.own_vote == a.own_vote
}

/// Attach each review's comment thread, built from one batch of rows
/// spanning all the reviews.
///
/// Succeeds exactly when every review's rows are consistent
/// ([`threads_resolved`]); each review then comes back unchanged except
/// that its comments are exactly its thread ([`thread_matches`]),
/// computed identically whether or not a reading customer was known to
/// the query — the sort key never looks at the viewer's own votes.
///
/// # Errors
///
/// Fails with [`TreeError::DanglingParent`] on the first inconsistent
/// review, as [`comment_trees`] does; no partial result is returned.
pub fn attach_comment_trees(reviews: Vec<ProductReview>, rows: &Vec<CommentRow>) -> (r: Result<
    Vec<ProductReview>,
    TreeError,
>)
    requires
        distinct_comment_ids(rows@),
    ensures
        r is Ok <==> (forall|k: int|
            0 <= k < reviews@.len() ==> threads_resolved(rows@, (#[trigger] reviews@[k]).id@)),
        r matches Ok(out) ==> {
            &&& out@.len() == reviews@.len()
            &&& forall|k: int|
                0 <= k < out@.len() ==> same_except_comments(
                    reviews@[k],
                    #[trigger] out@[k],
                ) && thread_matches(rows@, reviews@[k].id@, out@[k].comments@)
        },
{
    let ghost all = reviews@;
    let mut rest = reviews;
    let mut out: Vec<ProductReview> = Vec::new();
    proof {
        assert(all.skip(0) =~= all);
    }
    while rest.len() > 0
        invariant
            distinct_comment_ids(rows@),
            all == reviews@,
            out@.len() <= all.len(),
            rest@ == all.skip(out@.len() as int),
            forall|m: int|
                0 <= m < out@.len() ==> same_except_comments(all[m], #[trigger] out@[m])
                    && thread_matches(rows@, all[m].id@, out@[m].comments@),
            forall|m: int| 0 <= m < out@.len() ==> threads_resolved(rows@, (#[trigger] all[m]).id@),
        decreases rest@.len(),
    {
        let ghost k = out@.len() as int;
        let review = rest.remove(0);
        proof {
            assert(review == all[k]);
            assert(all.skip(k).remove(0) =~= all.skip(k + 1));
        }
        let review_id = review.id.get();
        let forest = match comment_trees(rows, review_id) {
            Ok(f) => f,
            Err(e) => {
                proof {
                    assert(0 <= k < reviews@.len() && !threads_resolved(
                        rows@,
                        (#[trigger] reviews@[k]).id@,
                    ));
                }
                return Err(e);
            },
        };
        let ProductReview {
            id,
            customer,
            username,
            profile_picture,
            rating,
            created_at,
            updated_at,
            title,
            content,
            comments: _,
            sum_votes,
            own_vote,
        } = review;
        out.push(
            ProductReview {
                id,
                customer,
                username,
                profile_picture,
                rating,
                created_at,
                updated_at,
                title,
                content,
                comments: forest,
                sum_votes,
                own_vote,
            },
        );
    }
    proof {
        assert(out@.len() == all.len());
    }
    Ok(out)
}

} // verus!
