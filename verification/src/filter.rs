//! Filters: what a participant asks the network for, and which records
//! answer it.
//!
//! A filter is a plain value. It may fix the kind of the records, a time
//! before which they do not count, the identity they are addressed to, and,
//! for any number of tag names, the values accepted under that name. A record
//! answers a filter when it meets every criterion the filter has.
use crate::direction::{direction_string, direction_text, lemma_direction_texts, OfferDirection};
use crate::offer::{
    application_id, application_tag_name, count_named, direction_tag_name, issued_draft,
    lemma_none_named, lemma_tag_names_differ, offer_draft,
};
use crate::record::{tag_views, text_views, Record, RecordView, Tag, TagView, OFFER_KIND};
use crate::text::same_text;
use vstd::prelude::*;

verus! {

/// The values accepted under one tag name. On the wire the criterion stands
/// under `#` followed by the name.
#[derive(Clone, Debug, PartialEq, Eq)]
pub struct TagCriterion {
    pub name: String,
    pub values: Vec<String>,
}

/// What a participant asks for.
#[derive(Clone, Debug, PartialEq, Eq)]
pub struct Filter {
    /// The kind the records must have.
    pub kind: Option<u64>,
    /// The time, in seconds, before which records do not count.
    pub since: Option<u64>,
    /// The identity, a public key in hexadecimal, that the records must be
    /// addressed to by a tag `p`.
    pub recipient: Option<String>,
    /// The tags the records must carry.
    pub tags: Vec<TagCriterion>,
}

/// A criterion, with its texts as sequences of characters.
pub struct CriterionView {
    pub name: Seq<char>,
    pub values: Seq<Seq<char>>,
}

/// A filter, with its texts as sequences of characters.
pub struct FilterView {
    pub kind: Option<u64>,
    pub since: Option<u64>,
    pub recipient: Option<Seq<char>>,
    pub tags: Seq<CriterionView>,
}

/// The text of an identity that may be absent.
pub open spec fn optional_text(text: Option<String>) -> Option<Seq<char>> {
    match text {
        Some(t) => Some(t@),
        None => None,
    }
}

/// The views of a list of criteria.
pub open spec fn criterion_views(criteria: Seq<TagCriterion>) -> Seq<CriterionView> {
    Seq::new(criteria.len(), |i: int| criteria[i]@)
}

/// The views of a list of filters.
pub open spec fn filter_views(filters: Seq<Filter>) -> Seq<FilterView> {
    Seq::new(filters.len(), |i: int| filters[i]@)
}

impl View for TagCriterion {
    type V = CriterionView;

    open spec fn view(&self) -> CriterionView {
        CriterionView { name: self.name@, values: text_views(self.values@) }
    }
}

impl View for Filter {
    type V = FilterView;

    open spec fn view(&self) -> FilterView {
        FilterView {
            kind: self.kind,
            since: self.since,
            recipient: optional_text(self.recipient),
            tags: criterion_views(self.tags@),
        }
    }
}

/// The name of the tag that addresses a record to an identity.
pub open spec fn recipient_tag_name() -> Seq<char> {
    "p"@
}

/// A tag meets a criterion when it has the criterion's name and its first
/// value is one of the accepted values.
pub open spec fn tag_accepted(tag: TagView, name: Seq<char>, accepted: Seq<Seq<char>>) -> bool {
    &&& tag.name == name
    &&& tag.values.len() > 0
    &&& accepted.contains(tag.values[0])
}

/// A record's tags meet a criterion when one of them does.
pub open spec fn carries(tags: Seq<TagView>, name: Seq<char>, accepted: Seq<Seq<char>>) -> bool {
    exists|i: int| 0 <= i < tags.len() && tag_accepted(#[trigger] tags[i], name, accepted)
}

/// A record answers a filter when it has the filter's kind, is not older
/// than the filter allows, is addressed to the filter's recipient and meets
/// each of its tag criteria; a criterion that the filter lacks is met by
/// every record.
pub open spec fn answers(filter: FilterView, record: RecordView) -> bool {
    &&& filter.kind matches Some(kind) ==> record.kind == kind
    &&& filter.since matches Some(since) ==> record.created_at >= since
    &&& filter.recipient matches Some(recipient) ==> carries(
        record.tags,
        recipient_tag_name(),
        seq![recipient],
    )
    &&& forall|i: int|
        0 <= i < filter.tags.len() ==> carries(
            record.tags,
            (#[trigger] filter.tags[i]).name,
            filter.tags[i].values,
        )
}

/// A criterion with one accepted value.
pub open spec fn single_criterion(name: Seq<char>, value: Seq<char>) -> CriterionView {
    CriterionView { name, values: seq![value] }
}

/// The filter that finds offers: records of the offer kind that carry this
/// application's tag, issued at `since` or later where that is given, and of
/// the given direction where one is given.
pub open spec fn offer_filter_view(
    direction: Option<OfferDirection>,
    since: Option<u64>,
) -> FilterView {
    FilterView {
        kind: Some(OFFER_KIND),
        since,
        recipient: None,
        tags: match direction {
            None => seq![single_criterion(application_tag_name(), application_id())],
            Some(d) => seq![
                single_criterion(application_tag_name(), application_id()),
                single_criterion(direction_tag_name(), direction_text(d)),
            ],
        },
    }
}

/// The filter that finds what is addressed to `identity`: records of any
/// kind with a tag `p` of that value, issued at `since` or later.
pub open spec fn inbox_filter_view(identity: Seq<char>, since: u64) -> FilterView {
    FilterView {
        kind: None,
        since: Some(since),
        recipient: Some(identity),
        tags: Seq::empty(),
    }
}

/// Gives the key under which a criterion stands on the wire: `#`, then the
/// name of the tag.
pub fn criterion_key(criterion: &TagCriterion) -> (key: String)
    ensures
        key@ == "#"@ + criterion@.name,
{
    String::from_str("#").concat(criterion.name.as_str())
}

fn criterion_of(name: &str, value: String) -> (criterion: TagCriterion)
    ensures
        criterion@ == single_criterion(name@, value@),
{
    let mut values: Vec<String> = Vec::new();
    values.push(value);
    let criterion = TagCriterion { name: String::from_str(name), values };
    assert(criterion@.values =~= seq![value@]);
    criterion
}

/// Builds the filter that finds offers.
pub fn offer_filter(direction: Option<OfferDirection>, since: Option<u64>) -> (filter: Filter)
    ensures
        filter@ == offer_filter_view(direction, since),
{
    let mut tags: Vec<TagCriterion> = Vec::new();
    tags.push(criterion_of("d", String::from_str("n3x")));
    match direction {
        Some(d) => {
            tags.push(criterion_of("x", direction_string(d)));
        },
        None => {},
    }
    let filter = Filter { kind: Some(OFFER_KIND), since, recipient: None, tags };
    assert(filter@.tags =~= offer_filter_view(direction, since).tags);
    filter
}

/// Builds the filter that finds what is addressed to `identity`.
pub fn inbox_filter(identity: &str, since: u64) -> (filter: Filter)
    ensures
        filter@ == inbox_filter_view(identity@, since),
{
    let filter = Filter {
        kind: None,
        since: Some(since),
        recipient: Some(String::from_str(identity)),
        tags: Vec::new(),
    };
    assert(filter@.tags =~= Seq::<CriterionView>::empty());
    filter
}

/// Builds the filters of the standing subscription of `identity` that starts
/// at `now`: offers of either direction, and what is addressed to the
/// identity, both from `now` on.
pub fn subscription_filters(identity: &str, now: u64) -> (filters: Vec<Filter>)
    ensures
        filter_views(filters@) == seq![
            offer_filter_view(None, Some(now)),
            inbox_filter_view(identity@, now),
        ],
{
    let mut filters: Vec<Filter> = Vec::new();
    filters.push(offer_filter(None, Some(now)));
    filters.push(inbox_filter(identity, now));
    assert(filter_views(filters@) =~= seq![
        offer_filter_view(None, Some(now)),
        inbox_filter_view(identity@, now),
    ]);
    filters
}

fn holds_text(texts: &Vec<String>, wanted: &str) -> (found: bool)
    ensures
        found == text_views(texts@).contains(wanted@),
{
    let mut i: usize = 0;
    while i < texts.len()
        invariant
            i <= texts.len(),
            forall|j: int| 0 <= j < i ==> text_views(texts@)[j] != wanted@,
        decreases texts.len() - i,
    {
        if same_text(texts[i].as_str(), wanted) {
            assert(text_views(texts@)[i as int] == wanted@);
            return true;
        }
        i += 1;
    }
    false
}

fn tag_meets(tag: &Tag, name: &str, accepted: &Vec<String>) -> (met: bool)
    ensures
        met == tag_accepted(tag@, name@, text_views(accepted@)),
{
    if !same_text(tag.name.as_str(), name) {
        return false;
    }
    if tag.values.len() == 0 {
        return false;
    }
    holds_text(accepted, tag.values[0].as_str())
}

fn record_carries(tags: &Vec<Tag>, name: &str, accepted: &Vec<String>) -> (carried: bool)
    ensures
        carried == carries(tag_views(tags@), name@, text_views(accepted@)),
{
    let mut i: usize = 0;
    while i < tags.len()
        invariant
            i <= tags.len(),
            forall|j: int|
                0 <= j < i ==> !tag_accepted(
                    #[trigger] tag_views(tags@)[j],
                    name@,
                    text_views(accepted@),
                ),
        decreases tags.len() - i,
    {
        if tag_meets(&tags[i], name, accepted) {
            assert(tag_accepted(tag_views(tags@)[i as int], name@, text_views(accepted@)));
            return true;
        }
        i += 1;
    }
    false
}

/// Tells whether a record answers a filter.
pub fn filter_matches(filter: &Filter, record: &Record) -> (answer: bool)
    ensures
        answer == answers(filter@, record@),
{
    match filter.kind {
        Some(kind) => {
            if record.kind != kind {
                return false;
            }
        },
        None => {},
    }
    match filter.since {
        Some(since) => {
            if record.created_at < since {
                return false;
            }
        },
        None => {},
    }
    match &filter.recipient {
        Some(recipient) => {
            let mut accepted: Vec<String> = Vec::new();
            accepted.push(recipient.clone());
            assert(text_views(accepted@) =~= seq![recipient@]);
            if !record_carries(&record.tags, "p", &accepted) {
                return false;
            }
        },
        None => {},
    }
    let mut i: usize = 0;
    while i < filter.tags.len()
        invariant
            i <= filter.tags.len(),
            forall|j: int|
                0 <= j < i ==> carries(
                    record@.tags,
                    (#[trigger] filter@.tags[j]).name,
                    filter@.tags[j].values,
                ),
        decreases filter.tags.len() - i,
    {
        let criterion = &filter.tags[i];
        assert(filter@.tags[i as int] == criterion@);
        if !record_carries(&record.tags, criterion.name.as_str(), &criterion.values) {
            return false;
        }
        i += 1;
    }
    true
}

/// What is addressed to an identity, by a tag `p` whose first value is the
/// identity, is found by the identity's inbox filter, whatever its kind,
/// provided it is not older than the filter allows.
pub proof fn lemma_inbox_finds_addressed(
    identity: Seq<char>,
    since: u64,
    record: RecordView,
    place: int,
)
    requires
        0 <= place < record.tags.len(),
        record.tags[place].name == recipient_tag_name(),
        record.tags[place].values.len() > 0,
        record.tags[place].values[0] == identity,
        record.created_at >= since,
    ensures
        answers(inbox_filter_view(identity, since), record),
{
    assert(seq![identity][0] == identity);
}

/// Two filters built for offers from the same direction and the same time are
/// the same filter: they hold the same criteria, and a record answers both
/// or neither.
pub proof fn lemma_offer_filter_determined(
    first: Filter,
    second: Filter,
    direction: Option<OfferDirection>,
    since: Option<u64>,
)
    requires
        first@ == offer_filter_view(direction, since),
        second@ == offer_filter_view(direction, since),
    ensures
        first@ == second@,
        forall|record: RecordView| answers(first@, record) == answers(second@, record),
{
}

/// An offer is found by the filter of its own direction, and by the filter
/// of no direction, whoever issued it, provided it is not older than the
/// filter allows.
pub proof fn lemma_offer_found(
    direction: OfferDirection,
    quantity: u64,
    price: i64,
    author: Seq<char>,
    created_at: u64,
    since: Option<u64>,
)
    requires
        since matches Some(floor) ==> created_at >= floor,
    ensures
        answers(
            offer_filter_view(Some(direction), since),
            issued_draft(offer_draft(direction, quantity, price), author, created_at),
        ),
        answers(
            offer_filter_view(None, since),
            issued_draft(offer_draft(direction, quantity, price), author, created_at),
        ),
{
    let record = issued_draft(offer_draft(direction, quantity, price), author, created_at);
    assert(tag_accepted(record.tags[0], application_tag_name(), seq![application_id()]));
    assert(tag_accepted(record.tags[1], direction_tag_name(), seq![direction_text(direction)]));
}

/// A record without the application's tag is found by no filter for offers,
/// and one without a direction tag by no filter for offers of a direction.
pub proof fn lemma_untagged_not_found(
    record: RecordView,
    direction: Option<OfferDirection>,
    since: Option<u64>,
)
    ensures
        count_named(record.tags, application_tag_name()) == 0 ==> !answers(
            offer_filter_view(direction, since),
            record,
        ),
        direction is Some && count_named(record.tags, direction_tag_name()) == 0 ==> !answers(
            offer_filter_view(direction, since),
            record,
        ),
{
    let filter = offer_filter_view(direction, since);
    if count_named(record.tags, application_tag_name()) == 0 {
        lemma_none_named(record.tags, application_tag_name());
        assert(!carries(record.tags, filter.tags[0].name, filter.tags[0].values));
    }
    if direction is Some && count_named(record.tags, direction_tag_name()) == 0 {
        lemma_none_named(record.tags, direction_tag_name());
        assert(!carries(record.tags, filter.tags[1].name, filter.tags[1].values));
    }
}

/// An offer is never found by the filter of the other direction.
pub proof fn lemma_offer_not_found_by_other_direction(
    direction: OfferDirection,
    other: OfferDirection,
    quantity: u64,
    price: i64,
    author: Seq<char>,
    created_at: u64,
    since: Option<u64>,
)
    requires
        other != direction,
    ensures
        !answers(
            offer_filter_view(Some(other), since),
            issued_draft(offer_draft(direction, quantity, price), author, created_at),
        ),
{
    let filter = offer_filter_view(Some(other), since);
    let record = issued_draft(offer_draft(direction, quantity, price), author, created_at);
    lemma_tag_names_differ();
    lemma_direction_texts();
    assert forall|i: int| 0 <= i < record.tags.len() implies !tag_accepted(
        #[trigger] record.tags[i],
        direction_tag_name(),
        seq![direction_text(other)],
    ) by {
        if i == 1 {
            assert(record.tags[1].values[0] == direction_text(direction));
        }
    }
    assert(!carries(record.tags, filter.tags[1].name, filter.tags[1].values));
}

} // verus!
