//! Comments on listings, each carrying a rating, and the mean rating of a
//! collection of them.

use vstd::prelude::*;
use crate::clock::{
    format_utc_seconds, now_millis, time_label_pattern, utc_text, CLOCK_LIMIT_MS, LABEL_LIMIT_SECS,
};
use crate::rating::{MAX_RATING, RatingAverage};

verus! {

/// A user's comment on a listing. The timestamp is in milliseconds since the
/// Unix epoch; the rating is a fixed-point number where `MAX_RATING` is 1.0.
#[derive(Clone, Debug)]
pub struct Comment {
    pub author: String,
    pub content: String,
    pub timestamp: i64,
    pub rating: u32,
    pub listing_id: i64,
}

/// Why a comment was not added.
#[derive(Clone, Copy, Debug, PartialEq, Eq, Structural)]
pub enum CommentError {
    /// The rating lies above `MAX_RATING` (1.0).
    RatingOutOfRange,
}

/// Milliseconds to whole seconds, rounding toward zero.
pub open spec fn seconds_of_millis(ms: int) -> int {
    if ms >= 0 {
        ms / 1000
    } else {
        -((-ms) / 1000)
    }
}

/// The comments of `rows` that belong to listing `listing_id`, in order.
pub open spec fn comments_for(rows: Seq<Comment>, listing_id: i64) -> Seq<Comment>
    decreases rows.len(),
{
    if rows.len() == 0 {
        seq![]
    } else {
        let rest = comments_for(rows.drop_last(), listing_id);
        if rows.last().listing_id == listing_id {
            rest.push(rows.last())
        } else {
            rest
        }
    }
}

/// The sum of the ratings of `rows`.
pub open spec fn rating_total(rows: Seq<Comment>) -> nat
    decreases rows.len(),
{
    if rows.len() == 0 {
        0
    } else {
        rating_total(rows.drop_last()) + rows.last().rating as nat
    }
}

/// Every rating of `rows` lies in [0, 1].
pub open spec fn ratings_in_range(rows: Seq<Comment>) -> bool {
    forall|i: int| 0 <= i < rows.len() ==> #[trigger] rows[i].rating <= MAX_RATING
}

impl Comment {
    pub fn new(author: String, content: String, timestamp: i64, rating: u32, listing_id: i64) -> (r:
        Comment)
        ensures
            r == (Comment { author, content, timestamp, rating, listing_id }),
    {
        Comment { author, content, timestamp, rating, listing_id }
    }

    pub fn get_author(&self) -> (r: &String)
        ensures
            r == self.author,
    {
        &self.author
    }

    pub fn get_content(&self) -> (r: &String)
        ensures
            r == self.content,
    {
        &self.content
    }

    pub fn get_timestamp(&self) -> (r: i64)
        ensures
            r == self.timestamp,
    {
        self.timestamp
    }

    pub fn get_rating(&self) -> (r: u32)
        ensures
            r == self.rating,
    {
        self.rating
    }

    pub fn get_listing_id(&self) -> (r: i64)
        ensures
            r == self.listing_id,
    {
        self.listing_id
    }

    /// A field-by-field copy.
    pub fn duplicate(&self) -> (r: Comment)
        ensures
            r == *self,
    {
        Comment {
            author: self.author.clone(),
            content: self.content.clone(),
            timestamp: self.timestamp,
            rating: self.rating,
            listing_id: self.listing_id,
        }
    }

    /// The comment's time as shown under it ("Mar 05 2024 02:07 PM"), or
    /// `None` where chrono cannot represent it; every time within
    /// `LABEL_LIMIT_SECS` seconds of the epoch has a label.
    pub fn timestamp_label(&self) -> (r: Option<String>)
        ensures
            r is Some ==> r->0@ == utc_text(
                seconds_of_millis(self.timestamp as int),
                time_label_pattern(),
            ),
            -LABEL_LIMIT_SECS * 1000 <= self.timestamp <= LABEL_LIMIT_SECS * 1000 ==> r is Some,
    {
        let ms = self.timestamp as i128;
        let secs = if ms >= 0 {
            ms / 1000
        } else {
            -((-ms) / 1000)
        };
        format_utc_seconds(secs as i64, "%h %d %Y %I:%M %p")
    }
}

/// The comments of `rows` that belong to listing `listing_id`, in the order
/// in which they were added.
pub fn get_comments(rows: &Vec<Comment>, listing_id: i64) -> (r: Vec<Comment>)
    ensures
        r@ == comments_for(rows@, listing_id),
{
    let mut r: Vec<Comment> = Vec::new();
    let mut i: usize = 0;
    while i < rows.len()
        invariant
            i <= rows@.len(),
            r@ == comments_for(rows@.subrange(0, i as int), listing_id),
        decreases rows@.len() - i,
    {
        assert(rows@.subrange(0, i + 1).drop_last() =~= rows@.subrange(0, i as int));
        if rows[i].listing_id == listing_id {
            r.push(rows[i].duplicate());
        }
        i += 1;
    }
    assert(rows@.subrange(0, i as int) =~= rows@);
    r
}

/// Adds a comment on listing `listing_id`, stamped with the time `now`.
/// A rating above 1.0 is refused and nothing is added.
pub fn add_comment_at(
    rows: &mut Vec<Comment>,
    author: String,
    content: String,
    rating: u32,
    listing_id: i64,
    now: i64,
) -> (r: Result<(), CommentError>)
    ensures
        rating > MAX_RATING ==> r == Err::<(), CommentError>(CommentError::RatingOutOfRange)
            && final(rows)@ == old(rows)@,
        rating <= MAX_RATING ==> r is Ok && final(rows)@ == old(rows)@.push(
            Comment { author, content, timestamp: now, rating, listing_id },
        ),
{
    if rating > MAX_RATING {
        return Err(CommentError::RatingOutOfRange);
    }
    rows.push(Comment { author, content, timestamp: now, rating, listing_id });
    Ok(())
}

/// Adds a comment on listing `listing_id`, stamped with the current time.
/// A rating above 1.0 is refused and nothing is added.
pub fn add_comment(
    rows: &mut Vec<Comment>,
    author: String,
    content: String,
    rating: u32,
    listing_id: i64,
) -> (r: Result<(), CommentError>)
    ensures
        rating > MAX_RATING ==> r == Err::<(), CommentError>(CommentError::RatingOutOfRange)
            && final(rows)@ == old(rows)@,
        rating <= MAX_RATING ==> r is Ok && 0 <= final(rows)@.last().timestamp
            < CLOCK_LIMIT_MS && final(rows)@
            == old(rows)@.push(
            Comment { author, content, timestamp: final(rows)@.last().timestamp, rating, listing_id },
        ),
{
    let now = now_millis();
    add_comment_at(rows, author, content, rating, listing_id, now)
}

/// The mean rating of `comments`, or `None` when there are none (the mean of
/// nothing is not shown).
pub fn average_rating(comments: &Vec<Comment>) -> (r: Option<RatingAverage>)
    ensures
        r is None <==> comments@.len() == 0,
        r matches Some(a) ==> a.wf() && a.total == rating_total(comments@) && a.count
            == comments@.len(),
        r matches Some(a) ==> (ratings_in_range(comments@) ==> a.total <= a.count * MAX_RATING),
{
    let n = comments.len();
    if n == 0 {
        return None;
    }
    let mut total: u128 = 0;
    let mut i: usize = 0;
    while i < n
        invariant
            n == comments@.len(),
            i <= n,
            total == rating_total(comments@.subrange(0, i as int)),
            total <= i * (u32::MAX as int),
            ratings_in_range(comments@) ==> total <= i * MAX_RATING,
        decreases n - i,
    {
        assert(comments@.subrange(0, i + 1).drop_last() =~= comments@.subrange(0, i as int));
        assert((i + 1) * (u32::MAX as int) == i * (u32::MAX as int) + u32::MAX) by (nonlinear_arith);
        assert((i + 1) * (MAX_RATING as int) == i * (MAX_RATING as int) + MAX_RATING) by (nonlinear_arith);
        assert(i * (u32::MAX as int) <= (usize::MAX as int) * (u32::MAX as int)) by (nonlinear_arith)
            requires
                i <= usize::MAX,
        ;
        total = total + comments[i].rating as u128;
        i += 1;
    }
    assert(comments@.subrange(0, i as int) =~= comments@);
    Some(RatingAverage { total, count: n as u64 })
}

/// Adding a comment keeps the listing's earlier comments in order and puts
/// the new one last, so fetching the listing's comments afterwards includes
/// it, stamped with the time at which it was added.
pub proof fn lemma_added_comment_is_listed(rows: Seq<Comment>, c: Comment)
    ensures
        comments_for(rows.push(c), c.listing_id) == comments_for(rows, c.listing_id).push(c),
        comments_for(rows.push(c), c.listing_id).contains(c),
{
    assert(rows.push(c).drop_last() =~= rows);
    let s = comments_for(rows.push(c), c.listing_id);
    assert(s[s.len() - 1] == c);
}

} // verus!
