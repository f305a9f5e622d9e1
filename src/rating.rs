//! Star ratings: fixed-point ratings, their exact mean, the numeric label
//! shown beside the stars and which of the five stars are filled.

use vstd::prelude::*;
use vstd::string::*;
use crate::text::{append_decimal, decimal_digits, digit_char, digit_str};

verus! {

/// A rating is a fixed-point number with four decimal places: `MAX_RATING`
/// stands for 1.0, that is five stars.
pub const MAX_RATING: u32 = 10000;

/// The rating that one star is worth (0.2).
pub const RATING_PER_STAR: u32 = 2000;

/// The number of stars drawn for a rating.
pub const STAR_COUNT: usize = 5;

/// The mean of a non-empty collection of ratings, kept exact as the total of
/// the ratings and their number.
pub struct RatingAverage {
    pub total: u128,
    pub count: u64,
}

/// `num / den` rounded to the nearest integer, halves away from zero
/// (for `num >= 0`, `den > 0`).
pub open spec fn round_div(num: int, den: int) -> int {
    (2 * num + den) / (2 * den)
}

/// The star-count label in hundredths: `round(mean * 500)`, where the mean is
/// `total / (count * MAX_RATING)`.
pub open spec fn label_hundredths(total: int, count: int) -> int {
    round_div(total * 500, count * MAX_RATING)
}

/// Star `i` (counted from 1) is filled when `i <= mean * 5`.
pub open spec fn star_filled(total: int, count: int, i: int) -> bool {
    i * (count * MAX_RATING) <= total * 5
}

/// How a number of hundredths is written as the shortest decimal: "3.25",
/// "3.2", "3".
pub open spec fn hundredths_text(h: nat) -> Seq<char> {
    let whole = decimal_digits(h / 100);
    let frac = h % 100;
    if frac == 0 {
        whole
    } else if frac % 10 == 0 {
        whole + seq!['.', digit_char(frac / 10)]
    } else {
        whole + seq!['.', digit_char(frac / 10), digit_char(frac % 10)]
    }
}

impl RatingAverage {
    /// A valid mean: of at least one rating, each of which fits a `u32`.
    pub open spec fn wf(&self) -> bool {
        &&& self.count > 0
        &&& self.total <= self.count * (u32::MAX as int)
    }

    /// The "mean" of a single rating.
    pub fn of_rating(rating: u32) -> (r: RatingAverage)
        ensures
            r.wf(),
            r.total == rating as u128,
            r.count == 1,
    {
        RatingAverage { total: rating as u128, count: 1 }
    }

    /// The mean scaled to five stars, rounded to hundredths.
    pub fn star_count_hundredths(&self) -> (r: u128)
        requires
            self.wf(),
        ensures
            r as int == label_hundredths(self.total as int, self.count as int),
    {
        let den = self.count as u128 * MAX_RATING as u128;
        assert(self.total * 500 <= self.count * (u32::MAX as int) * 500) by (nonlinear_arith)
            requires
                self.total <= self.count * (u32::MAX as int),
        ;
        assert(den == self.count * MAX_RATING) by (nonlinear_arith)
            requires
                den == self.count as u128 * MAX_RATING as u128,
        ;
        (2 * (self.total * 500) + den) / (2 * den)
    }

    /// The label shown beside the stars: the mean scaled to five stars,
    /// rounded to hundredths and written as the shortest decimal ("3.25").
    pub fn star_count_label(&self) -> (r: String)
        requires
            self.wf(),
        ensures
            r@ == hundredths_text(label_hundredths(self.total as int, self.count as int) as nat),
    {
        let h = self.star_count_hundredths();
        let mut out = String::new();
        append_decimal(&mut out, h / 100);
        let frac = h % 100;
        if frac != 0 {
            proof {
                reveal_strlit(".");
            }
            out.append(".");
            out.append(digit_str(frac / 10));
            if frac % 10 != 0 {
                out.append(digit_str(frac % 10));
            }
        }
        assert(out@ =~= hundredths_text(h as nat));
        out
    }

    /// Which of the five stars are filled: entry `k` is star `k + 1`.
    pub fn filled_stars(&self) -> (r: Vec<bool>)
        requires
            self.wf(),
        ensures
            r@.len() == STAR_COUNT,
            forall|k: int|
                0 <= k < STAR_COUNT ==> r@[k] == star_filled(
                    self.total as int,
                    self.count as int,
                    k + 1,
                ),
    {
        let den = self.count as u128 * MAX_RATING as u128;
        assert(den == self.count * MAX_RATING) by (nonlinear_arith)
            requires
                den == self.count as u128 * MAX_RATING as u128,
        ;
        let scaled = self.total * 5;
        let mut r: Vec<bool> = Vec::new();
        let mut i: u128 = 1;
        while i <= 5
            invariant
                1 <= i <= 6,
                den == self.count * MAX_RATING,
                self.wf(),
                scaled == self.total * 5,
                r@.len() == i - 1,
                forall|k: int|
                    0 <= k < i - 1 ==> r@[k] == star_filled(
                        self.total as int,
                        self.count as int,
                        k + 1,
                    ),
            decreases 6 - i,
        {
            assert(i * den <= 5 * (u64::MAX as int) * 10000) by (nonlinear_arith)
                requires
                    i <= 5,
                    den == self.count * 10000,
                    self.count <= u64::MAX,
            ;
            r.push(i * den <= scaled);
            i += 1;
        }
        r
    }
}

/// Clicking star `clicked` of the rating input selects that many stars, or
/// clears the selection when exactly that many were selected.
pub fn toggle_star_input(selected: u8, clicked: u8) -> (r: u8)
    requires
        1 <= clicked <= STAR_COUNT,
    ensures
        r == (if selected == clicked {
            0
        } else {
            clicked
        }),
{
    if selected == clicked {
        0
    } else {
        clicked
    }
}

/// The rating that a number of selected stars stands for.
pub fn rating_of_stars(stars: u8) -> (r: u32)
    requires
        stars <= STAR_COUNT,
    ensures
        r == stars * RATING_PER_STAR,
        r <= MAX_RATING,
{
    stars as u32 * RATING_PER_STAR
}

/// Which stars of the rating input are drawn filled when `selected` stars are
/// selected: entry `k` is star `k + 1`.
pub fn selected_stars(selected: u8) -> (r: Vec<bool>)
    ensures
        r@.len() == STAR_COUNT,
        forall|k: int| 0 <= k < STAR_COUNT ==> r@[k] == (k + 1 <= selected),
{
    let mut r: Vec<bool> = Vec::new();
    let mut i: u8 = 1;
    while i <= 5
        invariant
            1 <= i <= 6,
            r@.len() == i - 1,
            forall|k: int| 0 <= k < i - 1 ==> r@[k] == (k + 1 <= selected),
        decreases 6 - i,
    {
        r.push(i <= selected);
        i += 1;
    }
    r
}

} // verus!
