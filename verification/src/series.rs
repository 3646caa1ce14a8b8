//! Aggregation of one column of a time series over the samples of one day.
//!
//! A series is read as parallel columns: the date of each sample, and one
//! measured quantity of each sample.

use vstd::prelude::*;
use crate::days::texts;
use crate::units::Decimal;

verus! {

/// Where `day` first occurs in `dates`: at `index`, and nowhere before it.
pub open spec fn opens_day(dates: Seq<Seq<char>>, day: Seq<char>, index: int) -> bool {
    &&& 0 <= index < dates.len()
    &&& dates[index] == day
    &&& forall|j: int| 0 <= j < index ==> dates[j] != day
}

/// `value` is the greatest of the values measured on `day`.
pub open spec fn is_highest_on(
    dates: Seq<Seq<char>>,
    values: Seq<Decimal>,
    day: Seq<char>,
    value: int,
) -> bool {
    &&& exists|i: int| 0 <= i < dates.len() && dates[i] == day && values[i] == value
    &&& forall|i: int| 0 <= i < dates.len() && dates[i] == day ==> values[i] <= value
}

/// `value` is the least of the values measured on `day`.
pub open spec fn is_lowest_on(
    dates: Seq<Seq<char>>,
    values: Seq<Decimal>,
    day: Seq<char>,
    value: int,
) -> bool {
    &&& exists|i: int| 0 <= i < dates.len() && dates[i] == day && values[i] == value
    &&& forall|i: int| 0 <= i < dates.len() && dates[i] == day ==> values[i] >= value
}

/// The sum of the values measured on `day`.
pub open spec fn total_on(dates: Seq<Seq<char>>, values: Seq<Decimal>, day: Seq<char>) -> int
    decreases dates.len(),
{
    if dates.len() == 0 {
        0
    } else {
        total_on(dates.drop_last(), values.drop_last(), day) + if dates.last() == day {
            values[dates.len() - 1] as int
        } else {
            0
        }
    }
}

/// The number of samples taken on `day`.
pub open spec fn count_on(dates: Seq<Seq<char>>, day: Seq<char>) -> nat
    decreases dates.len(),
{
    if dates.len() == 0 {
        0
    } else {
        count_on(dates.drop_last(), day) + if dates.last() == day {
            1nat
        } else {
            0nat
        }
    }
}

/// Finds the first sample of `day`.
pub(crate) fn first_on(dates: &Vec<String>, day: &String) -> (index: usize)
    requires
        texts(dates@).contains(day@),
    ensures
        opens_day(texts(dates@), day@, index as int),
{
    let mut i: usize = 0;
    while i < dates.len()
        invariant
            i <= dates.len(),
            forall|j: int| 0 <= j < i ==> texts(dates@)[j] != day@,
        decreases dates.len() - i,
    {
        if dates[i] == *day {
            return i;
        }
        i += 1;
    }
    proof {
        // The day occurs among the dates, so the search cannot run out.
        let j = choose|j: int| 0 <= j < texts(dates@).len() && texts(dates@)[j] == day@;
        assert(texts(dates@)[j] != day@);
    }
    0
}

/// Finds the greatest and the least value of `day`, in that order.
pub(crate) fn range_on(dates: &Vec<String>, values: &Vec<Decimal>, day: &String) -> (range: (
    Decimal,
    Decimal,
))
    requires
        dates.len() == values.len(),
        texts(dates@).contains(day@),
    ensures
        is_highest_on(texts(dates@), values@, day@, range.0 as int),
        is_lowest_on(texts(dates@), values@, day@, range.1 as int),
{
    let ghost days = texts(dates@);
    let first = first_on(dates, day);
    let mut high: Decimal = values[first];
    let mut low: Decimal = values[first];
    let ghost mut high_at: int = first as int;
    let ghost mut low_at: int = first as int;
    let mut i: usize = 0;
    while i < dates.len()
        invariant
            i <= dates.len(),
            dates.len() == values.len(),
            days == texts(dates@),
            0 <= high_at < dates.len() && days[high_at] == day@ && values@[high_at] == high,
            0 <= low_at < dates.len() && days[low_at] == day@ && values@[low_at] == low,
            forall|j: int| 0 <= j < i && days[j] == day@ ==> low <= values@[j] <= high,
        decreases dates.len() - i,
    {
        if dates[i] == *day {
            if values[i] > high {
                high = values[i];
                proof {
                    high_at = i as int;
                }
            }
            if values[i] < low {
                low = values[i];
                proof {
                    low_at = i as int;
                }
            }
        }
        i += 1;
    }
    (high, low)
}

/// Adds up the values of `day`.
pub(crate) fn total_of(dates: &Vec<String>, values: &Vec<Decimal>, day: &String) -> (total: i128)
    requires
        dates.len() == values.len(),
    ensures
        total == total_on(texts(dates@), values@, day@),
{
    let ghost days = texts(dates@);
    let mut total: i128 = 0;
    let mut i: usize = 0;
    while i < dates.len()
        invariant
            i <= dates.len(),
            dates.len() == values.len(),
            days == texts(dates@),
            total == total_on(days.take(i as int), values@.take(i as int), day@),
            -(i as int) * 0x8000_0000_0000_0000 <= total <= i * 0x7fff_ffff_ffff_ffff,
        decreases dates.len() - i,
    {
        proof {
            assert(days.take(i + 1).drop_last() =~= days.take(i as int));
            assert(values@.take(i + 1).drop_last() =~= values@.take(i as int));
        }
        if dates[i] == *day {
            total = total + values[i] as i128;
        }
        i += 1;
    }
    proof {
        assert(days.take(i as int) =~= days);
        assert(values@.take(i as int) =~= values@);
    }
    total
}

/// Counts the samples of `day`.
pub(crate) fn count_of(dates: &Vec<String>, day: &String) -> (count: usize)
    ensures
        count == count_on(texts(dates@), day@),
{
    let ghost days = texts(dates@);
    let mut count: usize = 0;
    let mut i: usize = 0;
    while i < dates.len()
        invariant
            i <= dates.len(),
            days == texts(dates@),
            count == count_on(days.take(i as int), day@),
            count <= i,
        decreases dates.len() - i,
    {
        proof {
            assert(days.take(i + 1).drop_last() =~= days.take(i as int));
        }
        if dates[i] == *day {
            count += 1;
        }
        i += 1;
    }
    proof {
        assert(days.take(i as int) =~= days);
    }
    count
}

} // verus!
