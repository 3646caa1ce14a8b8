//! Calendar days of a time series: the date portion of a timestamp, and the
//! choice of the days that make up the outlook.

use vstd::prelude::*;
use vstd::string::StrSliceExecFns;

verus! {

/// The date portion of a timestamp: its text before the first space, or all
/// of it where it holds no space.
pub open spec fn date_of(timestamp: Seq<char>) -> Seq<char> {
    match timestamp.index_of_first(' ') {
        Some(end) => timestamp.take(end),
        None => timestamp,
    }
}

/// The texts of a sequence of strings.
pub open spec fn texts(strings: Seq<String>) -> Seq<Seq<char>> {
    Seq::new(strings.len(), |i: int| strings[i]@)
}

/// The distinct values of `dates`, each at the place of its first occurrence.
pub open spec fn distinct_dates(dates: Seq<Seq<char>>) -> Seq<Seq<char>>
    decreases dates.len(),
{
    if dates.len() == 0 {
        Seq::empty()
    } else {
        let earlier = distinct_dates(dates.drop_last());
        if earlier.contains(dates.last()) {
            earlier
        } else {
            earlier.push(dates.last())
        }
    }
}

/// The most days an outlook covers.
pub const OUTLOOK_DAYS: usize = 3;

/// The days of the outlook for a series with these dates: the distinct dates
/// in order of first appearance, without the first one (the current day),
/// and no more than three of them.
pub open spec fn forecast_days(dates: Seq<Seq<char>>) -> Seq<Seq<char>> {
    let distinct = distinct_dates(dates);
    if distinct.len() <= 1 {
        Seq::empty()
    } else if distinct.len() <= OUTLOOK_DAYS + 1 {
        distinct.skip(1)
    } else {
        distinct.subrange(1, OUTLOOK_DAYS + 1)
    }
}

/// The distinct dates of a series are dates of the series, none twice, and the
/// first of them is the date of the first sample.
pub proof fn lemma_distinct_dates(dates: Seq<Seq<char>>)
    ensures
        distinct_dates(dates).no_duplicates(),
        distinct_dates(dates).len() <= dates.len(),
        forall|day: Seq<char>| distinct_dates(dates).contains(day) <==> dates.contains(day),
        dates.len() > 0 ==> distinct_dates(dates).len() > 0 && distinct_dates(dates)[0] == dates[0],
    decreases dates.len(),
{
    if dates.len() > 0 {
        let front = dates.drop_last();
        let earlier = distinct_dates(front);
        lemma_distinct_dates(front);
        let distinct = distinct_dates(dates);
        assert forall|day: Seq<char>| dates.contains(day) implies distinct.contains(day) by {
            let i = choose|i: int| 0 <= i < dates.len() && dates[i] == day;
            if i < front.len() {
                assert(front[i] == day);
                assert(front.contains(day));
                assert(earlier.contains(day));
                let k = choose|k: int| 0 <= k < earlier.len() && earlier[k] == day;
                assert(distinct[k] == day);
            } else if earlier.contains(day) {
                let k = choose|k: int| 0 <= k < earlier.len() && earlier[k] == day;
                assert(distinct[k] == day);
            } else {
                assert(distinct[earlier.len() as int] == day);
            }
        }
        assert forall|day: Seq<char>| distinct.contains(day) implies dates.contains(day) by {
            let k = choose|k: int| 0 <= k < distinct.len() && distinct[k] == day;
            if k < earlier.len() {
                assert(earlier[k] == day);
                assert(earlier.contains(day));
                assert(front.contains(day));
                let i = choose|i: int| 0 <= i < front.len() && front[i] == day;
                assert(dates[i] == day);
            } else {
                assert(dates[dates.len() - 1] == day);
            }
        }
        if front.len() > 0 {
            assert(front[0] == dates[0]);
        }
    }
}

/// The distinct dates of the first `n` samples open the distinct dates of the
/// whole series.
pub proof fn lemma_distinct_dates_grow(dates: Seq<Seq<char>>, n: int)
    requires
        0 <= n <= dates.len(),
    ensures
        distinct_dates(dates.take(n)).is_prefix_of(distinct_dates(dates)),
    decreases dates.len(),
{
    if n == dates.len() {
        assert(dates.take(n) =~= dates);
    } else {
        let front = dates.drop_last();
        lemma_distinct_dates_grow(front, n);
        assert(front.take(n) =~= dates.take(n));
    }
}

/// The outlook never covers more than three days and never the first day of
/// the series.
pub proof fn lemma_forecast_days(dates: Seq<Seq<char>>)
    ensures
        forecast_days(dates).len() <= OUTLOOK_DAYS,
        forecast_days(dates).no_duplicates(),
        dates.len() > 0 ==> !forecast_days(dates).contains(dates[0]),
        forall|day: Seq<char>| forecast_days(dates).contains(day) ==> dates.contains(day),
{
    let distinct = distinct_dates(dates);
    let days = forecast_days(dates);
    lemma_distinct_dates(dates);
    assert forall|k: int| 0 <= k < days.len() implies days[k] == distinct[k + 1] by {}
    assert forall|day: Seq<char>| days.contains(day) implies dates.contains(day) by {
        let k = choose|k: int| 0 <= k < days.len() && days[k] == day;
        assert(distinct[k + 1] == day);
        assert(distinct.contains(day));
    }
    if dates.len() > 0 && days.contains(dates[0]) {
        let k = choose|k: int| 0 <= k < days.len() && days[k] == dates[0];
        assert(distinct[k + 1] == distinct[0]);
    }
}

/// Extracts the date portion of a timestamp.
pub fn date_portion(timestamp: &str) -> (date: String)
    ensures
        date@ == date_of(timestamp@),
{
    let length = timestamp.unicode_len();
    let mut end: usize = 0;
    while end < length && timestamp.get_char(end) != ' '
        invariant
            length == timestamp@.len(),
            end <= length,
            forall|j: int| 0 <= j < end ==> timestamp@[j] != ' ',
        decreases length - end,
    {
        end += 1;
    }
    proof {
        timestamp@.index_of_first_ensures(' ');
    }
    timestamp.substring_char(0, end).to_owned()
}

/// Whether `wanted` is among `dates`.
pub fn contains_date(dates: &Vec<String>, wanted: &String) -> (found: bool)
    ensures
        found == texts(dates@).contains(wanted@),
{
    let mut i: usize = 0;
    while i < dates.len()
        invariant
            i <= dates.len(),
            forall|j: int| 0 <= j < i ==> texts(dates@)[j] != wanted@,
        decreases dates.len() - i,
    {
        if dates[i] == *wanted {
            assert(texts(dates@)[i as int] == wanted@);
            return true;
        }
        i += 1;
    }
    false
}

/// Chooses the days of the outlook from the dates of a series, in series order.
pub fn select_days(dates: &Vec<String>) -> (days: Vec<String>)
    ensures
        texts(days@) == forecast_days(texts(dates@)),
{
    let ghost all = texts(dates@);
    let mut seen: Vec<String> = Vec::new();
    let mut i: usize = 0;
    while i < dates.len() && seen.len() <= OUTLOOK_DAYS
        invariant
            i <= dates.len(),
            all == texts(dates@),
            texts(seen@) == distinct_dates(all.take(i as int)),
            seen.len() <= OUTLOOK_DAYS + 1,
        decreases dates.len() - i,
    {
        proof {
            assert(all.take(i + 1).drop_last() =~= all.take(i as int));
            assert(all.take(i + 1).last() == dates@[i as int]@);
        }
        if !contains_date(&seen, &dates[i]) {
            let ghost before = texts(seen@);
            seen.push(dates[i].clone());
            assert(texts(seen@) =~= before.push(dates@[i as int]@));
        }
        i += 1;
    }
    proof {
        lemma_distinct_dates_grow(all, i as int);
        if i == dates.len() {
            assert(all.take(i as int) =~= all);
        }
    }
    let mut days: Vec<String> = Vec::new();
    let mut k: usize = 1;
    while k < seen.len()
        invariant
            1 <= k,
            seen.len() <= OUTLOOK_DAYS + 1,
            k <= seen.len() || k == 1,
            days.len() == k - 1,
            forall|j: int| 0 <= j < days.len() ==> days@[j]@ == seen@[j + 1]@,
        decreases seen.len() - k,
    {
        days.push(seen[k].clone());
        k += 1;
    }
    proof {
        let distinct = distinct_dates(all);
        let found = texts(seen@);
        assert(forall|j: int| 0 <= j < found.len() ==> found[j] == distinct[j]);
        assert forall|j: int| 0 <= j < days.len() implies texts(days@)[j] == forecast_days(
            all,
        )[j] by {
            assert(texts(days@)[j] == found[j + 1]);
        }
    }
    days
}

/// The label of the outlook's day at `position`, counted from 0.
pub open spec fn day_label(position: int) -> Seq<char> {
    if position == 0 {
        "Tomorrow"@
    } else if position == 1 {
        "Day After"@
    } else if position == 2 {
        "3 Days"@
    } else {
        "Unknown"@
    }
}

/// The label of the outlook's day at `position` as an owned string.
pub fn label_for(position: usize) -> (label: String)
    ensures
        label@ == day_label(position as int),
{
    if position == 0 {
        "Tomorrow".to_string()
    } else if position == 1 {
        "Day After".to_string()
    } else if position == 2 {
        "3 Days".to_string()
    } else {
        "Unknown".to_string()
    }
}

} // verus!
