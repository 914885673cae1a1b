//! Decoding of index names. An index is named
//! `<anything>_<place type>_<coverage>_<YYYYMMDD>_<HHMMSS>[_...]`, where a
//! coverage that starts with `priv.` marks a private source.

use vstd::prelude::*;

use crate::model::{
    ElasticsearchIndexInfo, ElasticsearchIndexInfoDetails, IndexModel, PrivateStatus,
};
use crate::text::{
    has_prefix, is_digit, numeral_digits, parse_u32, parse_u32_spec, split_on, split_spec, starts_with,
};
use crate::time::{parse_date, parse_time, parsed_date, parsed_time, UtcDateTime};

verus! {

/// The date at which a name with an unreadable date token was built.
pub open spec fn fallback_date() -> (i32, u32, u32) {
    (1970, 1, 1)
}

/// The time of day at which a name with an unreadable time token was built.
pub open spec fn fallback_time() -> (u32, u32, u32) {
    (0, 1, 1)
}

/// The build timestamp of a date token (`YYYYMMDD`) and a time token
/// (`HHMMSS`), each replaced by its fallback where chrono cannot read it.
pub open spec fn build_time_spec(date: Seq<char>, time: Seq<char>) -> UtcDateTime {
    let d = match parsed_date(date, "%Y%m%d"@) {
        Some(x) => x,
        None => fallback_date(),
    };
    let t = match parsed_time(time, "%H%M%S"@) {
        Some(x) => x,
        None => fallback_time(),
    };
    UtcDateTime { year: d.0, month: d.1, day: d.2, hour: t.0, minute: t.1, second: t.2 }
}

/// Visibility and coverage of a coverage token: a `priv.` prefix marks a
/// private source and is not part of the coverage.
pub open spec fn visibility_spec(token: Seq<char>) -> (PrivateStatus, Seq<char>) {
    if has_prefix(token, seq!['p', 'r', 'i', 'v', '.']) {
        (PrivateStatus::Private, token.subrange(5, token.len() as int))
    } else {
        (PrivateStatus::Public, token)
    }
}

/// The document count that the catalog's text gives: its value where it is an
/// unsigned numeral that fits in 32 bits, else zero.
pub open spec fn count_spec(count: Seq<char>) -> u32 {
    match parse_u32_spec(count) {
        Some(c) => c,
        None => 0,
    }
}

/// The report on an index named `name` with document count `count`, stamped at
/// `now`; none where the name has fewer than five tokens.
pub open spec fn decoded_index(name: Seq<char>, count: Seq<char>, now: UtcDateTime) -> Option<
    IndexModel,
> {
    let tokens = split_spec(name, '_');
    if tokens.len() < 5 {
        None
    } else {
        let (private, coverage) = visibility_spec(tokens[2]);
        Some(
            IndexModel {
                label: name,
                place_type: tokens[1],
                coverage,
                private,
                date: build_time_spec(tokens[3], tokens[4]),
                count: count_spec(count),
                updated_at: now,
            },
        )
    }
}

/// The reports on the catalog entries `entries`, in order, leaving out the
/// entries whose names do not decode.
pub open spec fn decoded_indices(entries: Seq<ElasticsearchIndexInfoDetails>, now: UtcDateTime) -> Seq<
    IndexModel,
>
    decreases entries.len(),
{
    if entries.len() == 0 {
        Seq::empty()
    } else {
        let rest = decoded_indices(entries.drop_last(), now);
        match decoded_index(entries.last().index@, entries.last().count@, now) {
            Some(m) => rest.push(m),
            None => rest,
        }
    }
}

/// Reads a document count, zero where the text is no numeral.
pub fn parse_count(count: &str) -> (r: u32)
    ensures
        r == count_spec(count@),
{
    match parse_u32(count) {
        Some(c) => c,
        None => 0,
    }
}

/// Reads the build timestamp from a date token and a time token.
pub fn build_time(date: &str, time: &str) -> (r: UtcDateTime)
    ensures
        r == build_time_spec(date@, time@),
        r.wf(),
{
    let d = match parse_date(date, "%Y%m%d") {
        Some(x) => x,
        None => (1970, 1, 1),
    };
    let t = match parse_time(time, "%H%M%S") {
        Some(x) => x,
        None => (0, 1, 1),
    };
    UtcDateTime::new(d, t)
}

/// Splits a coverage token into visibility and coverage.
pub fn visibility(token: &str) -> (r: (PrivateStatus, String))
    ensures
        r.0 == visibility_spec(token@).0,
        r.1@ == visibility_spec(token@).1,
{
    proof {
        reveal_strlit("priv.");
        assert("priv."@ =~= seq!['p', 'r', 'i', 'v', '.']);
    }
    if starts_with(token, "priv.") {
        let n = token.unicode_len();
        (PrivateStatus::Private, String::from_str(token.substring_char(5, n)))
    } else {
        (PrivateStatus::Public, String::from_str(token))
    }
}

/// Decodes the catalog entry `entry` into an index report stamped at `now`.
/// A name with fewer than five tokens gives none.
pub fn decode_index(entry: &ElasticsearchIndexInfoDetails, now: UtcDateTime) -> (r: Option<
    ElasticsearchIndexInfo,
>)
    ensures
        match r {
            Some(x) => decoded_index(entry.index@, entry.count@, now) == Some(x@),
            None => decoded_index(entry.index@, entry.count@, now) is None,
        },
        r matches Some(x) ==> x.date.wf(),
{
    let tokens = split_on(entry.index.as_str(), '_');
    proof {
        assert(tokens@.len() == split_spec(entry.index@, '_').len());
    }
    if tokens.len() < 5 {
        return None;
    }
    let ghost ts = split_spec(entry.index@, '_');
    proof {
        assert(tokens@[1]@ == ts[1]);
        assert(tokens@[2]@ == ts[2]);
        assert(tokens@[3]@ == ts[3]);
        assert(tokens@[4]@ == ts[4]);
    }
    let (private, coverage) = visibility(tokens[2].as_str());
    let date = build_time(tokens[3].as_str(), tokens[4].as_str());
    let count = parse_count(entry.count.as_str());
    Some(
        ElasticsearchIndexInfo {
            label: entry.index.clone(),
            place_type: tokens[1].clone(),
            coverage,
            private,
            date,
            count,
            updated_at: now,
        },
    )
}

/// Decodes every catalog entry, in order, leaving out those whose names have
/// fewer than five tokens.
pub fn decode_indices(entries: &Vec<ElasticsearchIndexInfoDetails>, now: UtcDateTime) -> (r: Vec<
    ElasticsearchIndexInfo,
>)
    ensures
        r@.map_values(|i: ElasticsearchIndexInfo| i@) == decoded_indices(entries@, now),
{
    let mut out: Vec<ElasticsearchIndexInfo> = Vec::new();
    let mut i: usize = 0;
    proof {
        assert(entries@.take(0) =~= Seq::<ElasticsearchIndexInfoDetails>::empty());
        assert(out@.map_values(|x: ElasticsearchIndexInfo| x@) =~= Seq::<IndexModel>::empty());
    }
    while i < entries.len()
        invariant
            i <= entries@.len(),
            out@.map_values(|x: ElasticsearchIndexInfo| x@) == decoded_indices(
                entries@.take(i as int),
                now,
            ),
        decreases entries@.len() - i,
    {
        proof {
            assert(entries@.take(i as int + 1).drop_last() =~= entries@.take(i as int));
            assert(entries@.take(i as int + 1).last() == entries@[i as int]);
        }
        let ghost before = out@;
        match decode_index(&entries[i], now) {
            Some(x) => {
                out.push(x);
                proof {
                    assert(out@.map_values(|x: ElasticsearchIndexInfo| x@) =~= before.map_values(
                        |x: ElasticsearchIndexInfo| x@,
                    ).push(x@));
                }
            },
            None => {},
        }
        i = i + 1;
    }
    proof {
        assert(entries@.take(entries@.len() as int) =~= entries@);
    }
    out
}

/// Decoding is total on names of at least five tokens, and the report it gives
/// depends on the name and the count alone, but for the time it is stamped
/// with.
pub proof fn lemma_decode_total(name: Seq<char>, count: Seq<char>, t1: UtcDateTime, t2: UtcDateTime)
    requires
        split_spec(name, '_').len() >= 5,
    ensures
        decoded_index(name, count, t1) is Some,
        decoded_index(name, count, t2) == Some(
            IndexModel { updated_at: t2, ..decoded_index(name, count, t1)->0 },
        ),
{
}

/// A coverage token `priv.` + `c` marks a private source covering `c`; a token
/// without that prefix marks a public source covering the token itself.
pub proof fn lemma_visibility(name: Seq<char>, count: Seq<char>, now: UtcDateTime)
    requires
        split_spec(name, '_').len() >= 5,
    ensures
        ({
            let token = split_spec(name, '_')[2];
            let m = decoded_index(name, count, now)->0;
            &&& has_prefix(token, seq!['p', 'r', 'i', 'v', '.']) ==> m.private == PrivateStatus::Private
                && seq!['p', 'r', 'i', 'v', '.'] + m.coverage == token
            &&& !has_prefix(token, seq!['p', 'r', 'i', 'v', '.']) ==> m.private
                == PrivateStatus::Public && m.coverage == token
        }),
{
    let token = split_spec(name, '_')[2];
    if has_prefix(token, seq!['p', 'r', 'i', 'v', '.']) {
        assert(seq!['p', 'r', 'i', 'v', '.'] + token.subrange(5, token.len() as int) =~= token);
    }
}

/// The coverage of a private token is what follows `priv.`.
pub proof fn lemma_private_coverage(c: Seq<char>)
    ensures
        visibility_spec(seq!['p', 'r', 'i', 'v', '.'] + c) == (PrivateStatus::Private, c),
{
    let t = seq!['p', 'r', 'i', 'v', '.'] + c;
    assert(t.take(5) =~= seq!['p', 'r', 'i', 'v', '.']);
    assert(t.subrange(5, t.len() as int) =~= c);
}

/// A date token that chrono cannot read gives 1970-01-01; where the time
/// token cannot be read either, the build time is 1970-01-01T00:01:01.
pub proof fn lemma_unreadable_build_time(date: Seq<char>, time: Seq<char>)
    requires
        parsed_date(date, "%Y%m%d"@) is None,
    ensures
        build_time_spec(date, time).year == 1970,
        build_time_spec(date, time).month == 1,
        build_time_spec(date, time).day == 1,
        parsed_time(time, "%H%M%S"@) is None ==> build_time_spec(date, time) == (UtcDateTime {
            year: 1970,
            month: 1,
            day: 1,
            hour: 0,
            minute: 1,
            second: 1,
        }),
{
}

/// A count that is not an unsigned numeral, such as one holding a character
/// other than a digit after its optional `+`, or an empty one, counts zero.
pub proof fn lemma_count_not_numeral(count: Seq<char>, i: int)
    requires
        numeral_digits(count).len() == 0 || (0 <= i < numeral_digits(count).len() && !is_digit(
            numeral_digits(count)[i],
        )),
    ensures
        count_spec(count) == 0,
{
}

} // verus!
