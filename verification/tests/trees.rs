use catalog_core::{
    attach_comment_trees, attach_own_comment_trees, category_trees, comment_trees, CategoryRow,
    CategoryTree, CommentRole, CommentRow, CommentTree, Id, OwnReview, OwnReviewRow,
    ProductReview, ReviewRow, TreeError, Username, Vote,
};
use catalog_core::{ProfilePicture, Rating};

fn cat(id: i32, parent: Option<i32>, name: &str) -> CategoryRow {
    CategoryRow {
        id,
        parent,
        name: name.to_string(),
    }
}

fn leaf(id: i32, name: &str) -> CategoryTree {
    CategoryTree {
        id: Id::new(id),
        name: name.to_string(),
        subcategories: Vec::new(),
    }
}

#[test]
fn category_forest_sorted_by_name() {
    // Roots come out alphabetical by name, not in input order.
    let rows = vec![cat(1, None, "B"), cat(2, None, "A"), cat(3, Some(2), "C")];
    let forest = category_trees(&rows).unwrap();
    assert_eq!(
        forest,
        vec![
            CategoryTree {
                id: Id::new(2),
                name: "A".to_string(),
                subcategories: vec![leaf(3, "C")],
            },
            leaf(1, "B"),
        ]
    );
}

#[test]
fn category_children_sorted_by_name() {
    let rows = vec![
        cat(1, None, "Food"),
        cat(2, Some(1), "Pasta"),
        cat(3, Some(1), "Bread"),
        cat(4, Some(3), "Rye"),
    ];
    let forest = category_trees(&rows).unwrap();
    assert_eq!(
        forest,
        vec![CategoryTree {
            id: Id::new(1),
            name: "Food".to_string(),
            subcategories: vec![
                CategoryTree {
                    id: Id::new(3),
                    name: "Bread".to_string(),
                    subcategories: vec![leaf(4, "Rye")],
                },
                leaf(2, "Pasta"),
            ],
        }]
    );
}

#[test]
fn category_empty_input() {
    let rows: Vec<CategoryRow> = Vec::new();
    let forest = category_trees(&rows).unwrap();
    assert!(forest.is_empty());
}

#[test]
fn category_dangling_parent_aborts() {
    // A parent id that never appears is corrupted input, not a root.
    let rows = vec![cat(1, None, "A"), cat(3, Some(2), "X")];
    let r = category_trees(&rows);
    assert_eq!(r, Err(TreeError::DanglingParent { id: 3, parent: 2 }));
}

#[test]
fn category_parent_after_child_aborts() {
    let rows = vec![cat(3, Some(2), "C"), cat(2, None, "A")];
    let r = category_trees(&rows);
    assert_eq!(r, Err(TreeError::DanglingParent { id: 3, parent: 2 }));
}

fn user(name: &str) -> Username {
    Username::new(name.to_string()).unwrap()
}

fn comment(id: i32, parent: Option<i32>, review: i32, votes: i64, created: i64) -> CommentRow {
    CommentRow {
        id,
        parent,
        review,
        username: user("alice"),
        role: CommentRole::User { author: false },
        content: format!("comment {id}"),
        created_at: created,
        updated_at: created,
        sum_votes: votes,
        own_vote: None,
    }
}

fn ids_of(forest: &[CommentTree]) -> Vec<i32> {
    forest.iter().map(|t| t.id.get()).collect()
}

#[test]
fn comment_sort_breaks_ties_by_creation_time() {
    // Equal vote sums order by creation time, never arrival order.
    let rows = vec![
        comment(1, None, 7, 3, 200),
        comment(2, None, 7, 3, 100),
    ];
    let forest = comment_trees(&rows, 7).unwrap();
    assert_eq!(ids_of(&forest), vec![2, 1]);
}

#[test]
fn comment_sort_votes_beat_recency() {
    // A higher vote sum sorts first even when created later.
    let rows = vec![
        comment(1, None, 7, 3, 100),
        comment(2, None, 7, 5, 900),
    ];
    let forest = comment_trees(&rows, 7).unwrap();
    assert_eq!(ids_of(&forest), vec![2, 1]);
}

#[test]
fn comment_replies_nest_and_sort() {
    let rows = vec![
        comment(1, None, 7, 0, 100),
        comment(2, Some(1), 7, 1, 300),
        comment(3, Some(1), 7, 4, 400),
        comment(4, Some(2), 7, 0, 500),
    ];
    let forest = comment_trees(&rows, 7).unwrap();
    assert_eq!(forest.len(), 1);
    assert_eq!(forest[0].id.get(), 1);
    assert_eq!(ids_of(&forest[0].replies), vec![3, 2]);
    assert_eq!(ids_of(&forest[0].replies[1].replies), vec![4]);
}

#[test]
fn comment_rows_of_other_reviews_are_ignored() {
    let rows = vec![
        comment(1, None, 7, 0, 100),
        comment(2, None, 8, 9, 50),
    ];
    let forest = comment_trees(&rows, 7).unwrap();
    assert_eq!(ids_of(&forest), vec![1]);
}

#[test]
fn comment_dangling_parent_aborts() {
    let rows = vec![comment(1, None, 7, 0, 100), comment(2, Some(9), 7, 0, 200)];
    let r = comment_trees(&rows, 7);
    assert_eq!(r, Err(TreeError::DanglingParent { id: 2, parent: 9 }));
}

fn review(id: i32) -> ProductReview {
    ProductReview::from_row(ReviewRow {
        id,
        customer: 1,
        username: user("bob"),
        profile_picture: ProfilePicture::new("http://example.com/p.png".to_string()),
        rating: Rating::new(4).unwrap(),
        created_at: 10,
        updated_at: 10,
        title: "title".to_string(),
        content: "content".to_string(),
        sum_votes: 0,
        own_vote: Some(Vote::Like),
    })
}

#[test]
fn attach_comments_partitions_by_review() {
    let reviews = vec![review(7), review(8)];
    let rows = vec![
        comment(1, None, 7, 0, 100),
        comment(2, None, 8, 0, 100),
        comment(3, Some(2), 8, 0, 200),
    ];
    let out = attach_comment_trees(reviews, &rows).unwrap();
    assert_eq!(out.len(), 2);
    assert_eq!(ids_of(&out[0].comments), vec![1]);
    assert_eq!(ids_of(&out[1].comments), vec![2]);
    assert_eq!(ids_of(&out[1].comments[0].replies), vec![3]);
    // The rest of each review is untouched.
    assert_eq!(out[0].id.get(), 7);
    assert_eq!(out[0].rating, Rating::new(4).unwrap());
}

#[test]
fn attach_own_review_comments() {
    let own = OwnReview::from_row(OwnReviewRow {
        id: 7,
        rating: Rating::new(5).unwrap(),
        created_at: 10,
        updated_at: 10,
        title: "mine".to_string(),
        content: "text".to_string(),
        sum_votes: 3,
    });
    let rows = vec![comment(1, None, 7, 0, 100), comment(2, Some(1), 7, 0, 200)];
    let own = attach_own_comment_trees(own, &rows).unwrap();
    assert_eq!(own.id.get(), 7);
    assert_eq!(own.title, "mine");
    assert_eq!(ids_of(&own.comments), vec![1]);
    assert_eq!(ids_of(&own.comments[0].replies), vec![2]);
}

#[test]
fn tree_error_has_a_diagnostic() {
    let rows = vec![cat(3, Some(2), "C")];
    let err = category_trees(&rows).unwrap_err();
    assert!(!err.message().is_empty());
}

#[test]
fn attach_comments_propagates_corruption() {
    let reviews = vec![review(7)];
    let rows = vec![comment(2, Some(9), 7, 0, 200)];
    let r = attach_comment_trees(reviews, &rows);
    assert_eq!(r, Err(TreeError::DanglingParent { id: 2, parent: 9 }));
}
