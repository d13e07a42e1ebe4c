//! Value types of the typed layer

use vstd::prelude::*;

use crate::sys::LONG;

verus! {

/// An identifier of an object that stays the same across sessions of the host.
pub type PersistentId = u64;

/// The number of values that a 32-bit half can hold.
pub open spec fn half_span() -> int {
    0x1_0000_0000
}

/// The 32 bits of a half, read as a number from 0 to `half_span() - 1`.
pub open spec fn half_bits(half: int) -> int {
    if half < 0 {
        half + half_span()
    } else {
        half
    }
}

/// The half whose 32 bits are `bits`, a number from 0 to `half_span() - 1`.
pub open spec fn half_of_bits(bits: int) -> int {
    if bits >= half_span() / 2 {
        bits - half_span()
    } else {
        bits
    }
}

/// The high half of a persistent identifier: its 32 most significant bits, as the host
/// takes them in `highID`.
pub open spec fn high_id(id: PersistentId) -> int {
    half_of_bits(id as int / half_span())
}

/// The low half of a persistent identifier: its 32 least significant bits, as the host
/// takes them in `lowID`.
pub open spec fn low_id(id: PersistentId) -> int {
    half_of_bits(id as int % half_span())
}

/// The 64-bit number whose 32 most significant bits are those of `high` and whose 32
/// least significant bits are those of `low`.
pub open spec fn joined_halves(high: int, low: int) -> int {
    half_span() * half_bits(high) + half_bits(low)
}

fn bits_of_half(half: LONG) -> (bits: u64)
    ensures
        bits == half_bits(half as int),
        bits < half_span(),
{
    if half < 0 {
        let lifted: i64 = half as i64 + 0x1_0000_0000i64;
        lifted as u64
    } else {
        half as u64
    }
}

fn half_from_bits(bits: u64) -> (half: LONG)
    requires
        bits < half_span(),
    ensures
        half == half_of_bits(bits as int),
{
    if bits >= 0x8000_0000u64 {
        let lowered: i64 = bits as i64 - 0x1_0000_0000i64;
        lowered as LONG
    } else {
        bits as LONG
    }
}

/// Splits a persistent identifier into the two halves that the host takes: the high
/// half first, then the low half.
pub fn split_persistent_id(id: PersistentId) -> (halves: (LONG, LONG))
    ensures
        halves.0 == high_id(id),
        halves.1 == low_id(id),
        joined_halves(halves.0 as int, halves.1 as int) == id,
{
    let high: LONG = half_from_bits(id / 0x1_0000_0000u64);
    let low: LONG = half_from_bits(id % 0x1_0000_0000u64);
    (high, low)
}

/// Joins the high half and the low half that the host gave into a persistent identifier.
pub fn join_persistent_id(high: LONG, low: LONG) -> (id: PersistentId)
    ensures
        id == joined_halves(high as int, low as int),
        high_id(id) == high,
        low_id(id) == low,
{
    let upper: u64 = bits_of_half(high);
    let lower: u64 = bits_of_half(low);
    0x1_0000_0000u64 * upper + lower
}

/// The signed 64-bit number whose 32 most significant bits are those of `high` and
/// whose 32 least significant bits are those of `low`.
pub open spec fn joined_size(high: int, low: int) -> int {
    half_span() * high + half_bits(low)
}

/// Joins the high half and the low half of a 64-bit size into a signed number: the high
/// half carries the sign, and the low half is read as 32 bits without one.
pub fn join_size(high: LONG, low: LONG) -> (size: i64)
    ensures
        size == joined_size(high as int, low as int),
{
    let lower: i64 = bits_of_half(low) as i64;
    0x1_0000_0000i64 * (high as i64) + lower
}

/// Splitting a persistent identifier and joining the halves gives the identifier back,
/// for every 64-bit value.
pub proof fn lemma_persistent_id_split_then_join(id: PersistentId)
    ensures
        i32::MIN <= high_id(id) <= i32::MAX,
        i32::MIN <= low_id(id) <= i32::MAX,
        joined_halves(high_id(id), low_id(id)) == id,
{
}

/// Joining two halves and splitting the identifier gives the two halves back.
pub proof fn lemma_persistent_id_join_then_split(high: LONG, low: LONG)
    ensures
        0 <= joined_halves(high as int, low as int) <= u64::MAX,
        high_id(joined_halves(high as int, low as int) as PersistentId) == high,
        low_id(joined_halves(high as int, low as int) as PersistentId) == low,
{
}

/// The rating of a track (one to five stars)
#[derive(Debug, Clone, Copy, PartialEq, Eq, Structural)]
pub enum Rating {
    /// No rating
    Unrated,
    /// One-star rating
    One,
    /// Two-star rating
    Two,
    /// Three-star rating
    Three,
    /// Four-star rating
    Four,
    /// Five-star rating
    Five,
}

impl Rating {
    /// The number of stars of this rating, from 0 to 5.
    pub open spec fn star_count(self) -> int {
        match self {
            Rating::Unrated => 0,
            Rating::One => 1,
            Rating::Two => 2,
            Rating::Three => 3,
            Rating::Four => 4,
            Rating::Five => 5,
        }
    }

    /// The rating with `count` stars; `Rating::Unrated` where there is no such rating.
    pub open spec fn with_star_count(count: int) -> Rating {
        if count == 1 {
            Rating::One
        } else if count == 2 {
            Rating::Two
        } else if count == 3 {
            Rating::Three
        } else if count == 4 {
            Rating::Four
        } else if count == 5 {
            Rating::Five
        } else {
            Rating::Unrated
        }
    }

    /// The rating that the host means by a number: one star for each full 20 points,
    /// five stars at most, and none below 20.
    pub open spec fn of_long(long: int) -> Rating {
        if long < 20 {
            Rating::Unrated
        } else if long >= 100 {
            Rating::Five
        } else {
            Rating::with_star_count(long / 20)
        }
    }

    /// The number that is sent to the host for this rating: 20 points for each star.
    pub open spec fn as_long(self) -> int {
        20 * self.star_count()
    }

    /// Create a `Rating` instance.
    ///
    /// All invalid values are mapped to `Rating::Unrated`
    pub fn from_stars(stars: Option<u8>) -> (rating: Self)
        ensures
            stars.is_some() ==> rating == Rating::with_star_count(stars.unwrap() as int),
            stars.is_none() ==> rating == Rating::Unrated,
    {
        match stars {
            Some(1) => Self::One,
            Some(2) => Self::Two,
            Some(3) => Self::Three,
            Some(4) => Self::Four,
            Some(5) => Self::Five,
            _ => Self::Unrated,
        }
    }

    /// Get the count of stars of this rating
    pub fn stars(&self) -> (stars: Option<u8>)
        ensures
            *self == Rating::Unrated ==> stars.is_none(),
            *self != Rating::Unrated ==> stars == Some(self.star_count() as u8),
    {
        match self {
            Rating::Unrated => None,
            Rating::One => Some(1),
            Rating::Two => Some(2),
            Rating::Three => Some(3),
            Rating::Four => Some(4),
            Rating::Five => Some(5),
        }
    }
}

// Conversion with LONG because that's what iTunes uses.
impl vstd::std_specs::convert::FromSpecImpl<LONG> for Rating {
    open spec fn obeys_from_spec() -> bool {
        true
    }

    open spec fn from_spec(long: LONG) -> Rating {
        Rating::of_long(long as int)
    }
}

impl std::convert::From<LONG> for Rating {
    fn from(long: LONG) -> (rating: Rating) {
        if long < 20 {
            Rating::Unrated
        } else if long < 40 {
            Rating::One
        } else if long < 60 {
            Rating::Two
        } else if long < 80 {
            Rating::Three
        } else if long < 100 {
            Rating::Four
        } else {
            Rating::Five
        }
    }
}

impl vstd::std_specs::convert::FromSpecImpl<Rating> for LONG {
    open spec fn obeys_from_spec() -> bool {
        true
    }

    open spec fn from_spec(rating: Rating) -> LONG {
        rating.as_long() as LONG
    }
}

impl std::convert::From<Rating> for LONG {
    fn from(rating: Rating) -> (long: LONG) {
        match rating {
            Rating::Unrated => 0,
            Rating::One => 20,
            Rating::Two => 40,
            Rating::Three => 60,
            Rating::Four => 80,
            Rating::Five => 100,
        }
    }
}


/// A star count from one to five names one rating, and that rating has that many stars.
pub proof fn lemma_rating_keeps_its_stars(rating: Rating)
    ensures
        0 <= rating.star_count() <= 5,
        Rating::with_star_count(rating.star_count()) == rating,
{
}

/// The number sent for a rating is read back as that rating.
pub proof fn lemma_rating_survives_the_host(rating: Rating)
    ensures
        Rating::of_long(rating.as_long()) == rating,
{
}

/// Reading a number as a rating and sending the rating rounds the number down to a
/// multiple of 20, within 0 to 100.
pub proof fn lemma_rating_rounds_down(long: LONG)
    ensures
        long < 0 ==> Rating::of_long(long as int).as_long() == 0,
        0 <= long <= 100 ==> Rating::of_long(long as int).as_long() == long - long % 20,
        long > 100 ==> Rating::of_long(long as int).as_long() == 100,
{
}

} // verus!
