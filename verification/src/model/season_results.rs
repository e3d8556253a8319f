//! Results of a season: the query that asks for them and the records that
//! come back.

use crate::text::{decimal, pairs_text, u32_to_string};
use vstd::prelude::*;

verus! {

/// The kind of event a session belongs to. On the wire it is a bare integer.
#[derive(Clone, Copy, Debug, PartialEq, Eq, Structural)]
pub enum EventType {
    Practice,
    Qualify,
    TimeTrial,
    Race,
}

/// The event type that a wire code stands for, if it stands for one.
pub open spec fn event_type_of_code(code: u8) -> Option<EventType> {
    if code == 2 {
        Some(EventType::Practice)
    } else if code == 3 {
        Some(EventType::Qualify)
    } else if code == 4 {
        Some(EventType::TimeTrial)
    } else if code == 5 {
        Some(EventType::Race)
    } else {
        None
    }
}

impl EventType {
    /// The integer that stands for this event type on the wire.
    pub open spec fn code_value(self) -> u8 {
        match self {
            EventType::Practice => 2,
            EventType::Qualify => 3,
            EventType::TimeTrial => 4,
            EventType::Race => 5,
        }
    }

    /// The integer that stands for this event type on the wire.
    pub fn code(self) -> (r: u8)
        ensures
            r == self.code_value(),
    {
        match self {
            EventType::Practice => 2,
            EventType::Qualify => 3,
            EventType::TimeTrial => 4,
            EventType::Race => 5,
        }
    }

    /// Reads an event type from its wire code. Codes other than 2, 3, 4 and 5
    /// stand for none.
    pub fn from_code(code: u8) -> (r: Option<EventType>)
        ensures
            r == event_type_of_code(code),
    {
        if code == 2 {
            Some(EventType::Practice)
        } else if code == 3 {
            Some(EventType::Qualify)
        } else if code == 4 {
            Some(EventType::TimeTrial)
        } else if code == 5 {
            Some(EventType::Race)
        } else {
            None
        }
    }

    /// The wire code as a decimal numeral.
    pub fn to_string(&self) -> (r: String)
        ensures
            r@ == decimal(self.code_value() as nat),
    {
        let code: u8 = self.code();
        u32_to_string(code as u32)
    }
}

/// Reading back the code of an event type gives that event type, and a code
/// is read as an event type only if it is that event type's code.
pub proof fn lemma_event_type_code_round_trip(event_type: EventType, code: u8)
    ensures
        event_type_of_code(event_type.code_value()) == Some(event_type),
        event_type_of_code(code) == Some(event_type) <==> code == event_type.code_value(),
{
}

/// The results of a season, or of one week of it.
#[derive(Clone, Debug)]
pub struct SeasonResults {
    pub results_list: Vec<Session>,
    pub event_type: EventType,
    pub success: bool,
    pub season_id: u32,
    pub race_week_num: Option<u32>,
}

/// One session of a season.
#[derive(Clone, Debug)]
pub struct Session {
    pub race_week_num: u32,
    pub event_type: EventType,
    pub event_type_name: String,
    /// When the session started, as the service writes it.
    pub start_time: String,
    pub session_id: u32,
    pub subsession_id: u32,
    pub official_session: bool,
    pub event_strength_of_field: i32,
    pub event_best_lap_time: i32,
    pub num_cautions: i32,
    pub num_caution_laps: i32,
    pub num_drivers: u32,
    pub track: Track,
}

/// The track on which a session ran.
#[derive(Clone, Debug)]
pub struct Track {
    pub track_id: u32,
    pub track_name: String,
    pub config_name: Option<String>,
}

/// An optional restriction of a season results query.
#[derive(Clone, Copy, Debug, PartialEq, Eq, Structural)]
pub enum QueryFilter {
    /// Only sessions of this event type.
    EventType(EventType),
    /// Only sessions of this race week.
    RaceWeekNum(u32),
}

impl QueryFilter {
    /// Whether two filters restrict the same thing, and so go under the same
    /// key on the wire.
    pub open spec fn same_key(self, other: QueryFilter) -> bool {
        (self is EventType) == (other is EventType)
    }

    /// The key of the filter on the wire.
    pub open spec fn key_text(self) -> Seq<char> {
        match self {
            QueryFilter::EventType(_) => "event_type"@,
            QueryFilter::RaceWeekNum(_) => "race_week_num"@,
        }
    }

    /// The value of the filter on the wire.
    pub open spec fn value_text(self) -> Seq<char> {
        match self {
            QueryFilter::EventType(event_type) => decimal(event_type.code_value() as nat),
            QueryFilter::RaceWeekNum(week) => decimal(week as nat),
        }
    }

    /// The filter as a key and a value.
    pub open spec fn pair(self) -> (Seq<char>, Seq<char>) {
        (self.key_text(), self.value_text())
    }

    fn has_same_key(&self, other: &QueryFilter) -> (r: bool)
        ensures
            r == self.same_key(*other),
    {
        match (self, other) {
            (QueryFilter::EventType(_), QueryFilter::EventType(_)) => true,
            (QueryFilter::RaceWeekNum(_), QueryFilter::RaceWeekNum(_)) => true,
            _ => false,
        }
    }

    fn key(&self) -> (r: &'static str)
        ensures
            r@ == self.key_text(),
    {
        match self {
            QueryFilter::EventType(_) => "event_type",
            QueryFilter::RaceWeekNum(_) => "race_week_num",
        }
    }

    fn value(&self) -> (r: String)
        ensures
            r@ == self.value_text(),
    {
        match self {
            QueryFilter::EventType(event_type) => event_type.to_string(),
            QueryFilter::RaceWeekNum(week) => u32_to_string(*week),
        }
    }
}

/// The filters after `filter` was set: it takes the place of the first filter
/// with its key, and goes to the end where there is none.
pub open spec fn with_filter(filters: Seq<QueryFilter>, filter: QueryFilter) -> Seq<QueryFilter>
    decreases filters.len(),
{
    if filters.len() == 0 {
        seq![filter]
    } else if filters[0].same_key(filter) {
        seq![filter] + filters.drop_first()
    } else {
        seq![filters[0]] + with_filter(filters.drop_first(), filter)
    }
}

/// No two filters go under the same key.
pub open spec fn keys_are_unique(filters: Seq<QueryFilter>) -> bool {
    forall|i: int, j: int|
        0 <= i < j < filters.len() ==> !(#[trigger] filters[i]).same_key(#[trigger] filters[j])
}

/// The key and value pairs of a query: the season first, then the filters in
/// their order.
pub open spec fn query_pairs(season_id: u32, filters: Seq<QueryFilter>) -> Seq<
    (Seq<char>, Seq<char>),
> {
    seq![("season_id"@, decimal(season_id as nat))] + filters.map_values(
        |f: QueryFilter| f.pair(),
    )
}

/// The pairs of a query follow its filters: the season comes first, then one
/// pair for each filter, in the order of the filters, and nothing else. A
/// filter that was not set leaves no pair.
pub proof fn lemma_query_pairs_follow_the_filters(season_id: u32, filters: Seq<QueryFilter>)
    ensures
        query_pairs(season_id, filters).len() == 1 + filters.len(),
        query_pairs(season_id, filters)[0] == ("season_id"@, decimal(season_id as nat)),
        forall|i: int|
            0 <= i < filters.len() ==> #[trigger] query_pairs(season_id, filters)[i + 1]
                == filters[i].pair(),
{
}

/// A query whose filters have unique keys sends no key twice.
pub proof fn lemma_query_sends_no_key_twice(season_id: u32, filters: Seq<QueryFilter>)
    requires
        keys_are_unique(filters),
    ensures
        forall|i: int, j: int|
            0 <= i < j < query_pairs(season_id, filters).len() ==> (#[trigger] query_pairs(
                season_id,
                filters,
            )[i]).0 != (#[trigger] query_pairs(season_id, filters)[j]).0,
{
    reveal_strlit("season_id");
    reveal_strlit("event_type");
    reveal_strlit("race_week_num");
    let pairs = query_pairs(season_id, filters);
    assert forall|i: int, j: int| 0 <= i < j < pairs.len() implies (#[trigger] pairs[i]).0 != (
    #[trigger] pairs[j]).0 by {
        assert(pairs[j] == filters[j - 1].pair());
        assert("season_id"@.len() == 9);
        assert("event_type"@.len() == 10);
        assert("race_week_num"@.len() == 13);
        if i > 0 {
            assert(pairs[i] == filters[i - 1].pair());
            assert(!filters[i - 1].same_key(filters[j - 1]));
        }
    }
}

/// Where `filters[i]` is the first filter with the key of `filter`, setting
/// `filter` replaces it and leaves the rest.
pub proof fn lemma_with_filter_replaces(filters: Seq<QueryFilter>, filter: QueryFilter, i: int)
    requires
        0 <= i < filters.len(),
        filters[i].same_key(filter),
        forall|j: int| 0 <= j < i ==> !(#[trigger] filters[j]).same_key(filter),
    ensures
        with_filter(filters, filter) == filters.update(i, filter),
    decreases filters.len(),
{
    if i == 0 {
        assert(seq![filter] + filters.drop_first() =~= filters.update(0, filter));
    } else {
        let rest = filters.drop_first();
        assert(!filters[0].same_key(filter));
        assert forall|j: int| 0 <= j < i - 1 implies !(#[trigger] rest[j]).same_key(filter) by {
            assert(rest[j] == filters[j + 1]);
        }
        lemma_with_filter_replaces(rest, filter, i - 1);
        assert(seq![filters[0]] + rest.update(i - 1, filter) =~= filters.update(i, filter));
    }
}

/// Where no filter has the key of `filter`, setting `filter` appends it.
pub proof fn lemma_with_filter_appends(filters: Seq<QueryFilter>, filter: QueryFilter)
    requires
        forall|j: int| 0 <= j < filters.len() ==> !(#[trigger] filters[j]).same_key(filter),
    ensures
        with_filter(filters, filter) == filters.push(filter),
    decreases filters.len(),
{
    if filters.len() == 0 {
        assert(seq![filter] =~= filters.push(filter));
    } else {
        let rest = filters.drop_first();
        assert(!filters[0].same_key(filter));
        assert forall|j: int| 0 <= j < rest.len() implies !(#[trigger] rest[j]).same_key(
            filter,
        ) by {
            assert(rest[j] == filters[j + 1]);
        }
        lemma_with_filter_appends(rest, filter);
        assert(seq![filters[0]] + rest.push(filter) =~= filters.push(filter));
    }
}

/// Setting a filter keeps the keys unique: a query never sends a key twice.
pub proof fn lemma_with_filter_keeps_keys_unique(filters: Seq<QueryFilter>, filter: QueryFilter)
    requires
        keys_are_unique(filters),
    ensures
        keys_are_unique(with_filter(filters, filter)),
    decreases filters.len(),
{
    if filters.len() == 0 {
    } else if filters[0].same_key(filter) {
        let rest = filters.drop_first();
        let after = seq![filter] + rest;
        assert forall|i: int, j: int| 0 <= i < j < after.len() implies !(#[trigger] after[i]).same_key(
            #[trigger] after[j],
        ) by {
            assert(after[j] == filters[j]);
            if i > 0 {
                assert(after[i] == filters[i]);
            } else {
                assert(!filters[0].same_key(filters[j]));
            }
        }
    } else {
        let rest = filters.drop_first();
        assert forall|i: int, j: int| 0 <= i < j < rest.len() implies !(#[trigger] rest[i]).same_key(
            #[trigger] rest[j],
        ) by {
            assert(rest[i] == filters[i + 1]);
            assert(rest[j] == filters[j + 1]);
        }
        lemma_with_filter_keeps_keys_unique(rest, filter);
        lemma_with_filter_keeps_first_key(rest, filter);
        let tail = with_filter(rest, filter);
        let after = seq![filters[0]] + tail;
        assert forall|i: int, j: int| 0 <= i < j < after.len() implies !(#[trigger] after[i]).same_key(
            #[trigger] after[j],
        ) by {
            assert(after[j] == tail[j - 1]);
            if i > 0 {
                assert(after[i] == tail[i - 1]);
            } else {
                if tail[j - 1] == filter {
                } else {
                    let k = choose|k: int| 0 <= k < rest.len() && rest[k] == tail[j - 1];
                    assert(rest[k] == filters[k + 1]);
                }
            }
        }
    }
}

/// Every filter after `filter` was set is `filter` itself or one that was
/// there before.
proof fn lemma_with_filter_keeps_first_key(filters: Seq<QueryFilter>, filter: QueryFilter)
    ensures
        forall|j: int|
            0 <= j < with_filter(filters, filter).len() ==> {
                ||| (#[trigger] with_filter(filters, filter)[j]) == filter
                ||| exists|k: int|
                    0 <= k < filters.len() && filters[k] == with_filter(filters, filter)[j]
            },
    decreases filters.len(),
{
    let after = with_filter(filters, filter);
    if filters.len() == 0 {
    } else if filters[0].same_key(filter) {
        assert forall|j: int| 0 <= j < after.len() implies {
            ||| (#[trigger] after[j]) == filter
            ||| exists|k: int| 0 <= k < filters.len() && filters[k] == after[j]
        } by {
            if j > 0 {
                assert(filters[j] == after[j]);
            }
        }
    } else {
        let rest = filters.drop_first();
        lemma_with_filter_keeps_first_key(rest, filter);
        let tail = with_filter(rest, filter);
        assert forall|j: int| 0 <= j < after.len() implies {
            ||| (#[trigger] after[j]) == filter
            ||| exists|k: int| 0 <= k < filters.len() && filters[k] == after[j]
        } by {
            if j == 0 {
                assert(filters[0] == after[0]);
            } else {
                assert(after[j] == tail[j - 1]);
                if tail[j - 1] != filter {
                    let k = choose|k: int| 0 <= k < rest.len() && rest[k] == tail[j - 1];
                    assert(filters[k + 1] == after[j]);
                }
            }
        }
    }
}

/// A query for the results of one season, with the filters that narrow it.
///
/// The filters are kept in the order in which they were first set, and no
/// key is held twice: setting a filter again changes its value where it
/// stands.
pub struct SeasonResultsQuery {
    season_id: u32,
    filters: Vec<QueryFilter>,
}

impl SeasonResultsQuery {
    #[verifier::type_invariant]
    spec fn keys_unique(self) -> bool {
        keys_are_unique(self.filters@)
    }

    /// The season that is asked for.
    pub closed spec fn season(self) -> u32 {
        self.season_id
    }

    /// The filters that were set, in the order in which they go on the wire.
    pub closed spec fn filters(self) -> Seq<QueryFilter> {
        self.filters@
    }

    /// A query for all results of a season.
    pub fn new(season_id: u32) -> (r: Self)
        ensures
            r.season() == season_id,
            r.filters() == Seq::<QueryFilter>::empty(),
    {
        Self { season_id, filters: Vec::new() }
    }

    /// Sets a filter: in place of the one with the same key, or at the end.
    pub fn filter(self, filter: QueryFilter) -> (r: Self)
        ensures
            r.season() == self.season(),
            r.filters() == with_filter(self.filters(), filter),
            keys_are_unique(r.filters()),
    {
        proof {
            use_type_invariant(&self);
            lemma_with_filter_keeps_keys_unique(self.filters@, filter);
        }
        let season_id = self.season_id;
        let mut filters = self.filters;
        let ghost before = filters@;
        let mut i: usize = 0;
        while i < filters.len()
            invariant
                i <= filters.len(),
                filters@ == before,
                before == self.filters(),
                season_id == self.season(),
                keys_are_unique(with_filter(before, filter)),
                forall|j: int| 0 <= j < i ==> !(#[trigger] before[j]).same_key(filter),
            decreases filters.len() - i,
        {
            if filters[i].has_same_key(&filter) {
                filters.set(i, filter);
                proof {
                    lemma_with_filter_replaces(before, filter, i as int);
                }
                return Self { season_id, filters };
            }
            i += 1;
        }
        filters.push(filter);
        proof {
            lemma_with_filter_appends(before, filter);
        }
        Self { season_id, filters }
    }

    /// Restricts the query to sessions of one event type.
    pub fn event_type(self, event_type: EventType) -> (r: Self)
        ensures
            r.season() == self.season(),
            r.filters() == with_filter(self.filters(), QueryFilter::EventType(event_type)),
            keys_are_unique(r.filters()),
    {
        self.filter(QueryFilter::EventType(event_type))
    }

    /// Restricts the query to sessions of one race week.
    pub fn race_week_num(self, race_week_num: u32) -> (r: Self)
        ensures
            r.season() == self.season(),
            r.filters() == with_filter(self.filters(), QueryFilter::RaceWeekNum(race_week_num)),
            keys_are_unique(r.filters()),
    {
        self.filter(QueryFilter::RaceWeekNum(race_week_num))
    }

    /// The query as wire parameters: `season_id` first, then one pair for each
    /// filter that was set, in their order.
    pub fn as_query_params(&self) -> (r: Vec<(&'static str, String)>)
        ensures
            pairs_text(r@) == query_pairs(self.season(), self.filters()),
    {
        let mut query: Vec<(&'static str, String)> = Vec::new();
        query.push(("season_id", u32_to_string(self.season_id)));
        let mut i: usize = 0;
        while i < self.filters.len()
            invariant
                i <= self.filters.len(),
                pairs_text(query@) == query_pairs(self.season_id, self.filters@.take(i as int)),
            decreases self.filters.len() - i,
        {
            let filter = &self.filters[i];
            let ghost before = query@;
            query.push((filter.key(), filter.value()));
            proof {
                assert(self.filters@.take(i + 1) =~= self.filters@.take(i as int).push(*filter));
                assert(pairs_text(query@) =~= pairs_text(before).push(filter.pair()));
                assert(query_pairs(self.season_id, self.filters@.take(i + 1))
                    =~= query_pairs(self.season_id, self.filters@.take(i as int)).push(
                    filter.pair(),
                ));
            }
            i += 1;
        }
        proof {
            assert(self.filters@.take(i as int) =~= self.filters@);
        }
        query
    }
}

} // verus!
