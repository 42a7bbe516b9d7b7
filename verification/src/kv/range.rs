//! The range query, its builder, and the decoding of its reply.

use vstd::prelude::*;
use vstd::std_specs::convert::{FromSpecImpl, IntoSpec};
use crate::error::DecodeError;
use crate::kv::key_range::{KeyRange, KeyRangeView};
use crate::kv::key_value::{KeyValue, KeyValueView};
use crate::kv::sort::{SortOrder, SortPolicy, SortTarget, WireSort};
use crate::response_header::ResponseHeader;
use crate::wire::{
    limit_to_wire, to_unsigned, unsigned_of, wire_limit, RawKeyValue, RawKeyValueView, RawRangeRequest,
    RawRangeRequestView, RawRangeResponse, RawRangeResponseView,
};

verus! {

/// What a range query asks for.
///
/// `limit` 0 means that the number of pairs is not bounded. A `revision` of 0
/// or less means the latest revision at the time of execution. Each of the
/// four revision bounds is inclusive, and 0 leaves its side open.
pub struct RangeQuery {
    pub key: Seq<u8>,
    pub range_end: Seq<u8>,
    pub limit: nat,
    pub revision: int,
    pub sort: Option<SortPolicy>,
    pub serializable: bool,
    pub keys_only: bool,
    pub count_only: bool,
    pub min_mod_revision: int,
    pub max_mod_revision: int,
    pub min_create_revision: int,
    pub max_create_revision: int,
}

impl RangeQuery {
    /// The query over `interval` with nothing else configured.
    pub open spec fn initial(interval: KeyRangeView) -> RangeQuery {
        RangeQuery {
            key: interval.key,
            range_end: interval.range_end,
            limit: 0,
            revision: 0,
            sort: None,
            serializable: false,
            keys_only: false,
            count_only: false,
            min_mod_revision: 0,
            max_mod_revision: 0,
            min_create_revision: 0,
            max_create_revision: 0,
        }
    }

    /// The query with its limit replaced; 0 takes the limit away.
    pub open spec fn with_limit(self, limit: nat) -> RangeQuery {
        RangeQuery { limit, ..self }
    }

    /// The query pinned to `revision`; 0 or less takes the pin away.
    pub open spec fn with_revision(self, revision: int) -> RangeQuery {
        RangeQuery { revision, ..self }
    }

    /// The query asking for keys without values.
    pub open spec fn with_keys_only(self) -> RangeQuery {
        RangeQuery { keys_only: true, ..self }
    }

    /// The query asking for the count alone.
    pub open spec fn with_count_only(self) -> RangeQuery {
        RangeQuery { count_only: true, ..self }
    }

    /// The query with its least mod revision replaced; 0 leaves that side open.
    pub open spec fn with_min_mod_revision(self, revision: int) -> RangeQuery {
        RangeQuery { min_mod_revision: revision, ..self }
    }

    /// The query with its greatest mod revision replaced; 0 leaves that side open.
    pub open spec fn with_max_mod_revision(self, revision: int) -> RangeQuery {
        RangeQuery { max_mod_revision: revision, ..self }
    }

    /// The query with its least create revision replaced; 0 leaves that side open.
    pub open spec fn with_min_create_revision(self, revision: int) -> RangeQuery {
        RangeQuery { min_create_revision: revision, ..self }
    }

    /// The query with its greatest create revision replaced; 0 leaves that side open.
    pub open spec fn with_max_create_revision(self, revision: int) -> RangeQuery {
        RangeQuery { max_create_revision: revision, ..self }
    }

    /// The query with its sort policy replaced by `target` in direction
    /// `order`, whatever policy it had.
    pub open spec fn with_sort(self, target: SortTarget, order: SortOrder) -> RangeQuery {
        RangeQuery { sort: Some(SortPolicy { target, order }), ..self }
    }

    /// Whether the number of returned pairs is not bounded.
    pub open spec fn unlimited(self) -> bool {
        self.limit == 0
    }

    /// Whether the query is answered at the latest revision rather than at a
    /// pinned one.
    pub open spec fn at_latest(self) -> bool {
        self.revision <= 0
    }

    /// Whether every number of the query fits the field that carries it.
    pub open spec fn representable(self) -> bool {
        &&& self.limit <= u64::MAX
        &&& i64::MIN <= self.revision <= i64::MAX
        &&& i64::MIN <= self.min_mod_revision <= i64::MAX
        &&& i64::MIN <= self.max_mod_revision <= i64::MAX
        &&& i64::MIN <= self.min_create_revision <= i64::MAX
        &&& i64::MIN <= self.max_create_revision <= i64::MAX
    }

    /// The request message of the query. The limit travels bounded by the
    /// greatest value of its signed field, so it is never negative; every
    /// other value travels as it is.
    pub open spec fn encode(self) -> RawRangeRequestView {
        RawRangeRequestView {
            key: self.key,
            range_end: self.range_end,
            limit: wire_limit(self.limit),
            revision: self.revision,
            sort_order: WireSort::of(self.sort).order as int,
            sort_target: WireSort::of(self.sort).target as int,
            serializable: self.serializable,
            keys_only: self.keys_only,
            count_only: self.count_only,
            min_mod_revision: self.min_mod_revision,
            max_mod_revision: self.max_mod_revision,
            min_create_revision: self.min_create_revision,
            max_create_revision: self.max_create_revision,
        }
    }
}

/// A range query under construction. Each configuring call takes the request
/// and gives it back changed in one setting; none can fail.
#[derive(Debug)]
pub struct RangeRequest {
    key: Vec<u8>,
    range_end: Vec<u8>,
    limit: u64,
    revision: i64,
    sort: Option<SortPolicy>,
    serializable: bool,
    keys_only: bool,
    count_only: bool,
    min_mod_revision: i64,
    max_mod_revision: i64,
    min_create_revision: i64,
    max_create_revision: i64,
}

impl View for RangeRequest {
    type V = RangeQuery;

    closed spec fn view(&self) -> RangeQuery {
        RangeQuery {
            key: self.key@,
            range_end: self.range_end@,
            limit: self.limit as nat,
            revision: self.revision as int,
            sort: self.sort,
            serializable: self.serializable,
            keys_only: self.keys_only,
            count_only: self.count_only,
            min_mod_revision: self.min_mod_revision as int,
            max_mod_revision: self.max_mod_revision as int,
            min_create_revision: self.min_create_revision as int,
            max_create_revision: self.max_create_revision as int,
        }
    }
}

impl RangeRequest {
    /// Creates a request for the given key interval, with no limit, at the
    /// latest revision, unsorted, with values, and with no revision bound.
    pub fn new(key_range: KeyRange) -> (r: RangeRequest)
        ensures
            r@ == RangeQuery::initial(key_range@),
            r == Self::fresh(key_range),
    {
        RangeRequest {
            key: key_range.key,
            range_end: key_range.range_end,
            limit: 0,
            revision: 0,
            sort: None,
            serializable: false,
            keys_only: false,
            count_only: false,
            min_mod_revision: 0,
            max_mod_revision: 0,
            min_create_revision: 0,
            max_create_revision: 0,
        }
    }

    /// The numbers of a request's query fit the fields that carry them.
    pub proof fn lemma_representable(&self)
        ensures
            self@.representable(),
    {
    }

    /// Sets the maximum number of pairs returned. 0 means no limit.
    pub fn limit(self, limit: u64) -> (r: RangeRequest)
        ensures
            r@ == self@.with_limit(limit as nat),
    {
        let mut r = self;
        r.limit = limit;
        r
    }

    /// Pins the request to a revision of the store. With 0 or less the latest
    /// revision applies.
    pub fn revision(self, revision: i64) -> (r: RangeRequest)
        ensures
            r@ == self@.with_revision(revision as int),
    {
        let mut r = self;
        r.revision = revision;
        r
    }

    /// Asks for keys without their values.
    pub fn keys_only(self) -> (r: RangeRequest)
        ensures
            r@ == self@.with_keys_only(),
    {
        let mut r = self;
        r.keys_only = true;
        r
    }

    /// Asks for the number of matching keys only, without pairs.
    pub fn count_only(self) -> (r: RangeRequest)
        ensures
            r@ == self@.with_count_only(),
    {
        let mut r = self;
        r.count_only = true;
        r
    }

    /// Sets the least mod revision of the pairs returned. 0 leaves it open.
    pub fn min_mod_revision(self, mod_revision: i64) -> (r: RangeRequest)
        ensures
            r@ == self@.with_min_mod_revision(mod_revision as int),
    {
        let mut r = self;
        r.min_mod_revision = mod_revision;
        r
    }

    /// Sets the greatest mod revision of the pairs returned. 0 leaves it open.
    pub fn max_mod_revision(self, mod_revision: i64) -> (r: RangeRequest)
        ensures
            r@ == self@.with_max_mod_revision(mod_revision as int),
    {
        let mut r = self;
        r.max_mod_revision = mod_revision;
        r
    }

    /// Sets the least create revision of the pairs returned. 0 leaves it open.
    pub fn min_create_revision(self, create_revision: i64) -> (r: RangeRequest)
        ensures
            r@ == self@.with_min_create_revision(create_revision as int),
    {
        let mut r = self;
        r.min_create_revision = create_revision;
        r
    }

    /// Sets the greatest create revision of the pairs returned. 0 leaves it
    /// open.
    pub fn max_create_revision(self, create_revision: i64) -> (r: RangeRequest)
        ensures
            r@ == self@.with_max_create_revision(create_revision as int),
    {
        let mut r = self;
        r.max_create_revision = create_revision;
        r
    }

    /// Replaces the sort policy by `target` in direction `order`.
    fn sort_by(self, target: SortTarget, order: SortOrder) -> (r: RangeRequest)
        ensures
            r@ == self@.with_sort(target, order),
    {
        let mut r = self;
        r.sort = Some(SortPolicy { target, order });
        r
    }

    /// Sorts the pairs by key in the given direction.
    pub fn sort_by_key(self, order: SortOrder) -> (r: RangeRequest)
        ensures
            r@ == self@.with_sort(SortTarget::Key, order),
    {
        self.sort_by(SortTarget::Key, order)
    }

    /// Sorts the pairs by version in the given direction.
    pub fn sort_by_version(self, order: SortOrder) -> (r: RangeRequest)
        ensures
            r@ == self@.with_sort(SortTarget::Version, order),
    {
        self.sort_by(SortTarget::Version, order)
    }

    /// Sorts the pairs by create revision in the given direction.
    pub fn sort_by_create_revision(self, order: SortOrder) -> (r: RangeRequest)
        ensures
            r@ == self@.with_sort(SortTarget::CreateRevision, order),
    {
        self.sort_by(SortTarget::CreateRevision, order)
    }

    /// Sorts the pairs by mod revision in the given direction.
    pub fn sort_by_mod_revision(self, order: SortOrder) -> (r: RangeRequest)
        ensures
            r@ == self@.with_sort(SortTarget::ModRevision, order),
    {
        self.sort_by(SortTarget::ModRevision, order)
    }

    /// Sorts the pairs by value in the given direction.
    pub fn sort_by_value(self, order: SortOrder) -> (r: RangeRequest)
        ensures
            r@ == self@.with_sort(SortTarget::Value, order),
    {
        self.sort_by(SortTarget::Value, order)
    }

    /// Finishes the request: gives the message that goes to the store.
    pub fn finalize(self) -> (w: RawRangeRequest)
        ensures
            w@ == self@.encode(),
            w == self.message(),
    {
        let sort = WireSort::encode(self.sort);
        RawRangeRequest {
            key: self.key,
            range_end: self.range_end,
            limit: limit_to_wire(self.limit),
            revision: self.revision,
            sort_order: sort.order,
            sort_target: sort.target,
            serializable: self.serializable,
            keys_only: self.keys_only,
            count_only: self.count_only,
            min_mod_revision: self.min_mod_revision,
            max_mod_revision: self.max_mod_revision,
            min_create_revision: self.min_create_revision,
            max_create_revision: self.max_create_revision,
        }
    }
}

impl RangeRequest {
    /// The request that [`RangeRequest::new`] makes of an interval.
    pub closed spec fn fresh(key_range: KeyRange) -> RangeRequest {
        RangeRequest {
            key: key_range.key,
            range_end: key_range.range_end,
            limit: 0,
            revision: 0,
            sort: None,
            serializable: false,
            keys_only: false,
            count_only: false,
            min_mod_revision: 0,
            max_mod_revision: 0,
            min_create_revision: 0,
            max_create_revision: 0,
        }
    }

    /// The message that [`RangeRequest::finalize`] makes of a request.
    pub closed spec fn message(self) -> RawRangeRequest {
        RawRangeRequest {
            key: self.key,
            range_end: self.range_end,
            limit: wire_limit(self.limit as nat) as i64,
            revision: self.revision,
            sort_order: WireSort::of(self.sort).order,
            sort_target: WireSort::of(self.sort).target,
            serializable: self.serializable,
            keys_only: self.keys_only,
            count_only: self.count_only,
            min_mod_revision: self.min_mod_revision,
            max_mod_revision: self.max_mod_revision,
            min_create_revision: self.min_create_revision,
            max_create_revision: self.max_create_revision,
        }
    }

    /// What the two conversions give, in terms of the query: a fresh request
    /// is the initial query of its interval, and the message of a request is
    /// the encoding of its query.
    pub proof fn lemma_conversions(key_range: KeyRange, request: RangeRequest)
        ensures
            Self::fresh(key_range)@ == RangeQuery::initial(key_range@),
            request.message()@ == request@.encode(),
    {
    }
}

impl<T: Into<KeyRange>> From<T> for RangeRequest {
    /// Creates a request for the key interval that `source` converts into,
    /// as [`RangeRequest::new`] does.
    fn from(source: T) -> (r: RangeRequest)
        ensures
            T::obeys_into_spec() ==> r@ == RangeQuery::initial(source.into_spec()@),
    {
        RangeRequest::new(source.into())
    }
}

impl<T: Into<KeyRange>> FromSpecImpl<T> for RangeRequest {
    open spec fn obeys_from_spec() -> bool {
        T::obeys_into_spec()
    }

    open spec fn from_spec(source: T) -> RangeRequest {
        RangeRequest::fresh(source.into_spec())
    }
}

impl From<RangeRequest> for RawRangeRequest {
    /// Finishes the request, as [`RangeRequest::finalize`] does.
    fn from(request: RangeRequest) -> (w: RawRangeRequest)
        ensures
            w@ == request@.encode(),
    {
        request.finalize()
    }
}

impl FromSpecImpl<RangeRequest> for RawRangeRequest {
    open spec fn obeys_from_spec() -> bool {
        true
    }

    open spec fn from_spec(request: RangeRequest) -> RawRangeRequest {
        request.message()
    }
}

/// The reply to a range query.
///
/// `has_more` says that more keys match than were returned; it carries
/// meaning only for a query with a limit. `count` is the number of keys that
/// match the query, whatever number of pairs was returned.
#[derive(Debug, Clone)]
pub struct RangeResponse {
    pub header: ResponseHeader,
    pub kvs: Vec<KeyValue>,
    pub has_more: bool,
    pub count: u64,
}

/// What a [`RangeResponse`] holds.
pub struct RangeResult {
    pub header: ResponseHeader,
    pub pairs: Seq<KeyValueView>,
    pub has_more: bool,
    pub count: nat,
}

impl RangeResult {
    /// What a raw reply decodes to: the failure `MissingMetadata` where the
    /// header is absent; otherwise the decoded header, every pair decoded in
    /// its place, the more-flag, and the count read as the unsigned number
    /// with the same 64 bits.
    pub open spec fn decode(raw: RawRangeResponseView) -> Result<RangeResult, DecodeError> {
        match raw.header {
            None => Err(DecodeError::MissingMetadata),
            Some(header) => Ok(
                RangeResult {
                    header: ResponseHeader::of_raw(header),
                    pairs: raw.kvs.map_values(|kv: RawKeyValueView| KeyValueView::of_raw(kv)),
                    has_more: raw.more,
                    count: unsigned_of(raw.count) as nat,
                },
            ),
        }
    }
}

impl View for RangeResponse {
    type V = RangeResult;

    open spec fn view(&self) -> RangeResult {
        RangeResult {
            header: self.header,
            pairs: self.kvs@.map_values(|kv: KeyValue| kv@),
            has_more: self.has_more,
            count: self.count as nat,
        }
    }
}

/// What the outcome of a decoding holds: the result's view, or the failure.
pub open spec fn outcome(r: Result<RangeResponse, DecodeError>) -> Result<RangeResult, DecodeError> {
    match r {
        Ok(response) => Ok(response@),
        Err(e) => Err(e),
    }
}

/// Decodes the pairs of a reply, each in its place.
fn decode_pairs(raws: Vec<RawKeyValue>) -> (kvs: Vec<KeyValue>)
    ensures
        kvs@.map_values(|kv: KeyValue| kv@) == raws@.map_values(
            |raw: RawKeyValue| KeyValueView::of_raw(raw@),
        ),
{
    let ghost all = raws@;
    let mut kvs: Vec<KeyValue> = Vec::new();
    for raw in it: raws
        invariant
            it.seq() == all,
            kvs.len() == it.index(),
            forall|i: int| 0 <= i < kvs.len() ==> (#[trigger] kvs[i])@ == KeyValueView::of_raw(all[i]@),
    {
        kvs.push(KeyValue::decode(raw));
    }
    assert(kvs@.map_values(|kv: KeyValue| kv@) =~= all.map_values(
        |raw: RawKeyValue| KeyValueView::of_raw(raw@),
    ));
    kvs
}

impl RangeResponse {
    /// Decodes a raw reply. A reply without a header is rejected; every other
    /// reply decodes.
    pub fn decode(raw: RawRangeResponse) -> (r: Result<RangeResponse, DecodeError>)
        ensures
            outcome(r) == RangeResult::decode(raw@),
            raw@.header is None <==> r is Err,
            r is Err ==> r->Err_0 == DecodeError::MissingMetadata,
    {
        match raw.header {
            None => Err(DecodeError::MissingMetadata),
            Some(header) => {
                let kvs = decode_pairs(raw.kvs);
                proof {
                    assert(raw@.kvs.map_values(|kv: RawKeyValueView| KeyValueView::of_raw(kv))
                        =~= raw.kvs@.map_values(|raw: RawKeyValue| KeyValueView::of_raw(raw@)));
                }
                Ok(
                    RangeResponse {
                        header: ResponseHeader::decode(header),
                        kvs,
                        has_more: raw.more,
                        count: to_unsigned(raw.count),
                    },
                )
            },
        }
    }
}

/// One configuring step of a query.
pub enum Setting {
    Limit(nat),
    Revision(int),
    KeysOnly,
    CountOnly,
    MinModRevision(int),
    MaxModRevision(int),
    MinCreateRevision(int),
    MaxCreateRevision(int),
    Sort(SortTarget, SortOrder),
}

impl Setting {
    /// Whether two steps configure the same part of a query.
    pub open spec fn same_part(self, other: Setting) -> bool {
        match (self, other) {
            (Setting::Limit(_), Setting::Limit(_)) => true,
            (Setting::Revision(_), Setting::Revision(_)) => true,
            (Setting::KeysOnly, Setting::KeysOnly) => true,
            (Setting::CountOnly, Setting::CountOnly) => true,
            (Setting::MinModRevision(_), Setting::MinModRevision(_)) => true,
            (Setting::MaxModRevision(_), Setting::MaxModRevision(_)) => true,
            (Setting::MinCreateRevision(_), Setting::MinCreateRevision(_)) => true,
            (Setting::MaxCreateRevision(_), Setting::MaxCreateRevision(_)) => true,
            (Setting::Sort(_, _), Setting::Sort(_, _)) => true,
            _ => false,
        }
    }
}

impl RangeQuery {
    /// The query after one configuring step.
    pub open spec fn apply(self, step: Setting) -> RangeQuery {
        match step {
            Setting::Limit(limit) => self.with_limit(limit),
            Setting::Revision(revision) => self.with_revision(revision),
            Setting::KeysOnly => self.with_keys_only(),
            Setting::CountOnly => self.with_count_only(),
            Setting::MinModRevision(revision) => self.with_min_mod_revision(revision),
            Setting::MaxModRevision(revision) => self.with_max_mod_revision(revision),
            Setting::MinCreateRevision(revision) => self.with_min_create_revision(revision),
            Setting::MaxCreateRevision(revision) => self.with_max_create_revision(revision),
            Setting::Sort(target, order) => self.with_sort(target, order),
        }
    }
}

/// Steps on different parts of a query may be taken in either order, and of
/// two steps on the same part the later one alone decides.
pub proof fn lemma_steps_commute_or_overwrite(q: RangeQuery, first: Setting, second: Setting)
    ensures
        !first.same_part(second) ==> q.apply(first).apply(second) == q.apply(second).apply(first),
        first.same_part(second) ==> q.apply(first).apply(second) == q.apply(second),
{
}

/// A limit of 0 is no limit: the query is unlimited exactly when its limit is
/// 0, the message says 0 exactly then, and setting 0 on a query that had no
/// limit changes nothing. The message's limit is never negative, and it is
/// the limit itself wherever the signed field can hold it.
pub proof fn lemma_zero_limit_is_no_limit(q: RangeQuery, limit: u64)
    ensures
        q.with_limit(limit as nat).unlimited() <==> limit == 0,
        q.with_limit(limit as nat).encode().limit == 0 <==> limit == 0,
        0 <= q.with_limit(limit as nat).encode().limit <= i64::MAX,
        limit <= i64::MAX ==> q.with_limit(limit as nat).encode().limit == limit,
        limit > i64::MAX ==> q.with_limit(limit as nat).encode().limit == i64::MAX,
        q.unlimited() ==> q.with_limit(0) == q,
        RangeQuery::initial(KeyRangeView { key: q.key, range_end: q.range_end }).unlimited(),
{
}

/// The message carries the revision that was set, unchanged. It stands for
/// the latest revision exactly when it is 0 or less, and no other step
/// touches it.
pub proof fn lemma_revision_is_preserved(q: RangeQuery, revision: i64, later: Setting)
    ensures
        q.with_revision(revision as int).encode().revision == revision,
        q.with_revision(revision as int).at_latest() <==> revision <= 0,
        q.encode().revision <= 0 <==> q.at_latest(),
        !(later is Revision) ==> q.with_revision(revision as int).apply(later).encode().revision
            == revision,
{
}

/// Of two sort settings the later one wins whole: the message carries its
/// target and its direction, and nothing of the earlier one.
pub proof fn lemma_sort_last_write_wins(
    q: RangeQuery,
    first_target: SortTarget,
    first_order: SortOrder,
    target: SortTarget,
    order: SortOrder,
)
    ensures
        q.with_sort(first_target, first_order).with_sort(target, order) == q.with_sort(
            target,
            order,
        ),
        q.with_sort(first_target, first_order).with_sort(target, order).encode().sort_target
            == target.code(),
        q.with_sort(first_target, first_order).with_sort(target, order).encode().sort_order
            == order.code(),
{
}

/// The two shaping flags do not touch each other: each can be set alone, they
/// can be set in either order, and both can be set.
pub proof fn lemma_flags_are_independent(q: RangeQuery)
    ensures
        q.with_keys_only().keys_only && q.with_keys_only().count_only == q.count_only,
        q.with_count_only().count_only && q.with_count_only().keys_only == q.keys_only,
        q.with_keys_only().with_count_only() == q.with_count_only().with_keys_only(),
        q.with_keys_only().with_count_only().keys_only,
        q.with_keys_only().with_count_only().count_only,
        q.with_keys_only().with_count_only().encode().keys_only,
        q.with_keys_only().with_count_only().encode().count_only,
{
}

/// A reply with a header decodes to exactly the pairs it came with, in their
/// places, and to its more-flag. The count has no part in either.
pub proof fn lemma_pairs_and_more_flag_ignore_count(raw: RawRangeResponseView, count: int)
    requires
        raw.header is Some,
    ensures
        RangeResult::decode(raw) is Ok,
        RangeResult::decode(raw)->Ok_0.has_more == raw.more,
        RangeResult::decode(raw)->Ok_0.pairs.len() == raw.kvs.len(),
        forall|i: int|
            0 <= i < raw.kvs.len() ==> #[trigger] RangeResult::decode(raw)->Ok_0.pairs[i]
                == KeyValueView::of_raw(raw.kvs[i]),
        RangeResult::decode(RawRangeResponseView { count, ..raw })->Ok_0.pairs
            == RangeResult::decode(raw)->Ok_0.pairs,
        RangeResult::decode(RawRangeResponseView { count, ..raw })->Ok_0.has_more
            == RangeResult::decode(raw)->Ok_0.has_more,
{
}

/// A reply without a header is rejected as `MissingMetadata`, whatever else
/// it holds; a result always carries the header of its reply.
pub proof fn lemma_header_is_required(raw: RawRangeResponseView)
    ensures
        raw.header is None <==> RangeResult::decode(raw) == Err::<RangeResult, DecodeError>(
            DecodeError::MissingMetadata,
        ),
        raw.header is None <==> RangeResult::decode(raw) is Err,
        RangeResult::decode(raw) is Ok ==> RangeResult::decode(raw)->Ok_0.header
            == ResponseHeader::of_raw(raw.header->Some_0),
{
}

} // verus!
