//! Records as the network carries them: a kind, a time of issue, tags and a
//! content, signed by an author.
use vstd::prelude::*;

verus! {

/// The kind of record that announces an offer.
pub const OFFER_KIND: u64 = 30078;

/// The kind of record that carries an encrypted direct message.
pub const DIRECT_MESSAGE_KIND: u64 = 4;

/// A tag of a record: a name and the values under it.
#[derive(Clone, Debug, PartialEq, Eq)]
pub struct Tag {
    pub name: String,
    pub values: Vec<String>,
}

/// A record that was issued: by whom, when, and what it holds. The author is
/// a public key in hexadecimal, the time is in seconds.
#[derive(Clone, Debug, PartialEq, Eq)]
pub struct Record {
    pub author: String,
    pub kind: u64,
    pub created_at: u64,
    pub tags: Vec<Tag>,
    pub content: String,
}

/// A tag, with its texts as sequences of characters.
pub struct TagView {
    pub name: Seq<char>,
    pub values: Seq<Seq<char>>,
}

/// A record, with its texts as sequences of characters.
pub struct RecordView {
    pub author: Seq<char>,
    pub kind: u64,
    pub created_at: u64,
    pub tags: Seq<TagView>,
    pub content: Seq<char>,
}

/// The texts of a list of strings.
pub open spec fn text_views(texts: Seq<String>) -> Seq<Seq<char>> {
    Seq::new(texts.len(), |i: int| texts[i]@)
}

/// The views of a list of tags.
pub open spec fn tag_views(tags: Seq<Tag>) -> Seq<TagView> {
    Seq::new(tags.len(), |i: int| tags[i]@)
}

impl View for Tag {
    type V = TagView;

    open spec fn view(&self) -> TagView {
        TagView { name: self.name@, values: text_views(self.values@) }
    }
}

impl View for Record {
    type V = RecordView;

    open spec fn view(&self) -> RecordView {
        RecordView {
            author: self.author@,
            kind: self.kind,
            created_at: self.created_at,
            tags: tag_views(self.tags@),
            content: self.content@,
        }
    }
}

/// A tag with one value.
pub open spec fn single_tag(name: Seq<char>, value: Seq<char>) -> TagView {
    TagView { name, values: seq![value] }
}

/// Makes a tag with one value.
pub fn tag_of(name: &str, value: String) -> (tag: Tag)
    ensures
        tag@ == single_tag(name@, value@),
{
    let mut values: Vec<String> = Vec::new();
    values.push(value);
    let tag = Tag { name: String::from_str(name), values };
    assert(tag@.values =~= seq![value@]);
    tag
}

} // verus!
