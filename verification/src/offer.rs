//! Announcing an offer: the record that a participant hands to the network.
//!
//! An offer is a replaceable record of kind [`OFFER_KIND`]. Its content is
//! the JSON of quantity and price. It has two tags: `d`, which names this
//! application, and `x`, which names the direction. Queries find offers by
//! both, so an offer that lacked one would never be found.
use crate::direction::{direction_string, direction_text, OfferDirection};
use crate::json::{json_rendered, render_json};
use crate::message::{offer_to_value, offer_tree, OfferContent};
use crate::record::{single_tag, tag_of, tag_views, Record, RecordView, Tag, TagView, OFFER_KIND};
use vstd::prelude::*;

verus! {

/// A record that has not been signed yet.
#[derive(Clone, Debug, PartialEq, Eq)]
pub struct OfferDraft {
    pub kind: u64,
    pub content: String,
    pub tags: Vec<Tag>,
}

/// A draft, with its texts as sequences of characters.
pub struct DraftView {
    pub kind: u64,
    pub content: Seq<char>,
    pub tags: Seq<TagView>,
}

impl View for OfferDraft {
    type V = DraftView;

    open spec fn view(&self) -> DraftView {
        DraftView { kind: self.kind, content: self.content@, tags: tag_views(self.tags@) }
    }
}

/// The name of the tag that names the application.
pub open spec fn application_tag_name() -> Seq<char> {
    "d"@
}

/// The name of the tag that names the direction.
pub open spec fn direction_tag_name() -> Seq<char> {
    "x"@
}

/// The value under which this application's records are found.
pub open spec fn application_id() -> Seq<char> {
    "n3x"@
}

/// The two tags of an offer: the application's, then the direction's.
pub open spec fn offer_tag_views(direction: OfferDirection) -> Seq<TagView> {
    seq![
        single_tag(application_tag_name(), application_id()),
        single_tag(direction_tag_name(), direction_text(direction)),
    ]
}

/// The record that announces an offer.
pub open spec fn offer_draft(direction: OfferDirection, quantity: u64, price: i64) -> DraftView {
    DraftView {
        kind: OFFER_KIND,
        content: json_rendered(offer_tree(quantity, price)),
        tags: offer_tag_views(direction),
    }
}

/// A draft as the record it becomes once `author` has issued it at
/// `created_at`.
pub open spec fn issued_draft(draft: DraftView, author: Seq<char>, created_at: u64) -> RecordView {
    RecordView { author, kind: draft.kind, created_at, tags: draft.tags, content: draft.content }
}

/// The number of tags named `name`.
pub open spec fn count_named(tags: Seq<TagView>, name: Seq<char>) -> nat
    decreases tags.len(),
{
    if tags.len() == 0 {
        0
    } else {
        count_named(tags.drop_last(), name) + if tags.last().name == name {
            1nat
        } else {
            0nat
        }
    }
}

/// Where no tag is counted under a name, no tag has that name.
pub proof fn lemma_none_named(tags: Seq<TagView>, name: Seq<char>)
    requires
        count_named(tags, name) == 0,
    ensures
        forall|i: int| 0 <= i < tags.len() ==> (#[trigger] tags[i]).name != name,
    decreases tags.len(),
{
    if tags.len() > 0 {
        lemma_none_named(tags.drop_last(), name);
        assert forall|i: int| 0 <= i < tags.len() implies (#[trigger] tags[i]).name != name by {
            if i < tags.len() - 1 {
                assert(tags.drop_last()[i] == tags[i]);
            }
        }
    }
}

/// The two tags of an offer have different names.
pub proof fn lemma_tag_names_differ()
    ensures
        application_tag_name() != direction_tag_name(),
{
    reveal_strlit("d");
    reveal_strlit("x");
    assert("d"@[0] != "x"@[0]);
}

/// Makes the two tags of an offer.
pub fn offer_tags(direction: OfferDirection) -> (tags: Vec<Tag>)
    ensures
        tag_views(tags@) == offer_tag_views(direction),
{
    let mut tags: Vec<Tag> = Vec::new();
    tags.push(tag_of("d", String::from_str("n3x")));
    tags.push(tag_of("x", direction_string(direction)));
    tags
}

/// Writes the content of an offer: the JSON object of quantity and price.
pub fn offer_content_json(quantity: u64, price: i64) -> (content: String)
    ensures
        content@ == json_rendered(offer_tree(quantity, price)),
{
    let value = offer_to_value(&OfferContent { quantity, price });
    render_json(&value)
}

/// Makes the record that announces an offer, ready to be signed and sent.
pub fn compose_offer(direction: OfferDirection, quantity: u64, price: i64) -> (draft: OfferDraft)
    ensures
        draft@ == offer_draft(direction, quantity, price),
{
    OfferDraft {
        kind: OFFER_KIND,
        content: offer_content_json(quantity, price),
        tags: offer_tags(direction),
    }
}

/// Gives the record that a draft becomes once `author` has issued it at
/// `created_at`.
pub fn issue(draft: OfferDraft, author: String, created_at: u64) -> (record: Record)
    ensures
        record@ == issued_draft(draft@, author@, created_at),
{
    Record { author, kind: draft.kind, created_at, tags: draft.tags, content: draft.content }
}

/// Every offer has exactly one tag that names the application and exactly
/// one that names the direction.
pub proof fn lemma_offer_tagged_once(direction: OfferDirection, quantity: u64, price: i64)
    ensures
        count_named(offer_draft(direction, quantity, price).tags, application_tag_name()) == 1,
        count_named(offer_draft(direction, quantity, price).tags, direction_tag_name()) == 1,
{
    lemma_tag_names_differ();
    reveal_with_fuel(count_named, 3);
}

} // verus!
