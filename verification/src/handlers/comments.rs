//! Comments on targets: paging of listings, the rules of new comments, and
//! who may delete one.
use vstd::prelude::*;

use crate::auth::middleware::AuthUser;
use crate::error::{ApiError, ApiResult};
use crate::models::Comment;
use crate::validation::{
    check_length, flag, length_params, length_within, outcome, report_lines, violations_view, Violation,
};

verus! {

/// The query of a comment listing.
#[derive(Debug)]
pub struct ListQuery {
    pub target: String,
    pub limit: i64,
    pub offset: i64,
}

/// The body of a new comment.
#[derive(Debug)]
pub struct CreateInput {
    pub target: String,
    pub body: String,
}

/// Default page size of a comment listing.
pub fn default_limit() -> (r: i64)
    ensures
        r == 50,
{
    50
}

/// `v` clamped into `[lo, hi]`.
pub open spec fn clamp(v: i64, lo: i64, hi: i64) -> i64 {
    if v < lo {
        lo
    } else if v > hi {
        hi
    } else {
        v
    }
}

/// The page size of a listing that asked for `limit` comments.
pub open spec fn page_limit(limit: i64) -> i64 {
    clamp(limit, 1, 200)
}

/// The offset of a listing that asked to skip `offset` comments.
pub open spec fn page_offset(offset: i64) -> i64 {
    if offset < 0 {
        0
    } else {
        offset
    }
}

/// The rule violations of a new comment: a target of 1 to 200 characters
/// and a body of 1 to 5000.
pub open spec fn create_violations(i: CreateInput) -> Seq<(Seq<char>, Seq<char>, Seq<char>)> {
    flag(
        !length_within(i.target@, 1, 200),
        "target"@,
        "length"@,
        length_params(1, Some(200), i.target@),
    ) + flag(!length_within(i.body@, 1, 5000), "body"@, "length"@, length_params(1, Some(5000), i.body@))
}

impl ListQuery {
    /// A listing of `target` with the default paging.
    pub fn for_target(target: String) -> (r: ListQuery)
        ensures
            r.target == target,
            r.limit == 50,
            r.offset == 0,
    {
        ListQuery { target, limit: default_limit(), offset: 0 }
    }

    /// The page size used: the requested limit clamped into `[1, 200]`.
    pub fn effective_limit(&self) -> (r: i64)
        ensures
            r == page_limit(self.limit),
    {
        if self.limit < 1 {
            1
        } else if self.limit > 200 {
            200
        } else {
            self.limit
        }
    }

    /// The offset used: the requested offset, or 0 if it is negative.
    pub fn effective_offset(&self) -> (r: i64)
        ensures
            r == page_offset(self.offset),
    {
        if self.offset < 0 {
            0
        } else {
            self.offset
        }
    }
}

impl CreateInput {
    /// Checks the rules of a new comment, reporting every field that breaks
    /// one.
    pub fn validate(&self) -> (r: ApiResult<()>)
        ensures
            create_violations(*self).len() == 0 ==> r is Ok,
            create_violations(*self).len() > 0 ==> (r matches Err(ApiError::Validation(m)) && m@
                == report_lines(create_violations(*self))),
    {
        let mut v: Vec<Violation> = Vec::new();
        check_length(&mut v, "target", self.target.as_str(), 1, 200);
        check_length(&mut v, "body", self.body.as_str(), 1, 5000);
        assert(violations_view(v@) =~= create_violations(*self));
        outcome(v)
    }
}

/// Whether `user` may delete the comment found under the requested id: a
/// missing comment is not found, and only its author may delete it.
pub fn authorize_delete(found: Option<Comment>, user: &AuthUser) -> (r: ApiResult<()>)
    ensures
        found is None ==> r matches Err(ApiError::NotFound),
        found matches Some(c) ==> (if c.user_id == user.id {
            r is Ok
        } else {
            r matches Err(ApiError::Forbidden)
        }),
        r is Ok ==> (found matches Some(c) && c.user_id == user.id),
{
    match found {
        None => Err(ApiError::NotFound),
        Some(c) => {
            if c.user_id != user.id {
                Err(ApiError::Forbidden)
            } else {
                Ok(())
            }
        },
    }
}

/// Every page size used lies in `[1, 200]`, and a limit already in that
/// range is used as requested.
pub proof fn lemma_limit_bounds(q: ListQuery)
    ensures
        1 <= clamp(q.limit, 1, 200) <= 200,
        1 <= q.limit <= 200 ==> clamp(q.limit, 1, 200) == q.limit,
        clamp(clamp(q.limit, 1, 200), 1, 200) == clamp(q.limit, 1, 200),
{
}

/// A new comment breaks no rule exactly when its target has 1 to 200
/// characters and its body 1 to 5000.
pub proof fn lemma_comment_rules(i: CreateInput)
    ensures
        create_violations(i).len() == 0 <==> (1 <= i.target@.len() <= 200 && 1 <= i.body@.len()
            <= 5000),
{
}

/// A listing returns between 1 and 200 comments per page: a limit within
/// those bounds is kept, a smaller one raised to 1 and a larger one cut to
/// 200; an offset is kept unless negative, which starts at the beginning.
pub proof fn lemma_paging(limit: i64, offset: i64)
    ensures
        1 <= page_limit(limit) <= 200,
        1 <= limit <= 200 ==> page_limit(limit) == limit,
        limit < 1 ==> page_limit(limit) == 1,
        limit > 200 ==> page_limit(limit) == 200,
        offset >= 0 ==> page_offset(offset) == offset,
        offset < 0 ==> page_offset(offset) == 0,
{
}

} // verus!
