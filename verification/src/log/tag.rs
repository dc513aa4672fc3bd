//! The tags of log entries and statuses.

use vstd::prelude::*;

verus! {

/// What a tag of a log line is made from.
pub trait TagParam<'a> {
    /// The tag's key.
    open spec fn key_view(&self) -> Seq<char> {
        arbitrary()
    }

    /// The tag's value, where it has one.
    open spec fn val_view(&self) -> Option<Seq<char>> {
        arbitrary()
    }

    fn key(&self) -> (key: String)
        ensures
            key@ == self.key_view(),
    ;

    fn val(&self) -> (val: Option<String>)
        ensures
            crate::text::optional_text(val) == self.val_view(),
    ;
}

/// A plain string is a tag without a value.
impl<'a> TagParam<'a> for &'a str {
    open spec fn key_view(&self) -> Seq<char> {
        (*self)@
    }

    open spec fn val_view(&self) -> Option<Seq<char>> {
        None
    }

    fn key(&self) -> (key: String) {
        (*self).to_owned()
    }

    fn val(&self) -> (val: Option<String>) {
        None
    }
}

pub struct Tag {
    pub key: String,
    pub val: Option<String>,
}

/// The text that a `Tag` holds.
pub struct TagView {
    pub key: Seq<char>,
    pub val: Option<Seq<char>>,
}

impl View for Tag {
    type V = TagView;

    open spec fn view(&self) -> TagView {
        TagView { key: self.key@, val: crate::text::optional_text(self.val) }
    }
}

/// The tags that the parameters describe, in their order.
pub open spec fn tags_of(params: Seq<&dyn TagParam>) -> Seq<TagView> {
    Seq::new(
        params.len(),
        |i: int| TagView { key: params[i].key_view(), val: params[i].val_view() },
    )
}

/// The text that the tags hold.
pub open spec fn tags_view(tags: Seq<Tag>) -> Seq<TagView> {
    Seq::new(tags.len(), |i: int| tags[i]@)
}

/// Makes a tag of each parameter.
pub(crate) fn make_tags(params: &[&dyn TagParam]) -> (tags: Vec<Tag>)
    ensures
        tags_view(tags@) == tags_of(params@),
{
    let mut tags: Vec<Tag> = Vec::new();
    let mut i: usize = 0;
    while i < params.len()
        invariant
            i <= params@.len(),
            tags@.len() == i,
            forall|j: int| 0 <= j < i ==> (#[trigger] tags@[j])@ == tags_of(params@)[j],
        decreases params@.len() - i,
    {
        let param = params[i];
        tags.push(Tag { key: param.key(), val: param.val() });
        i = i + 1;
    }
    assert(tags_view(tags@) =~= tags_of(params@));
    tags
}

/// A copy of the tags.
pub(crate) fn copy_tags(tags: &[Tag]) -> (copy: Vec<Tag>)
    ensures
        tags_view(copy@) == tags_view(tags@),
{
    let mut copy: Vec<Tag> = Vec::new();
    let mut i: usize = 0;
    while i < tags.len()
        invariant
            i <= tags@.len(),
            copy@.len() == i,
            forall|j: int| 0 <= j < i ==> (#[trigger] copy@[j])@ == tags@[j]@,
        decreases tags@.len() - i,
    {
        let val = match &tags[i].val {
            Some(val) => Some(val.clone()),
            None => None,
        };
        copy.push(Tag { key: tags[i].key.clone(), val });
        i = i + 1;
    }
    assert(tags_view(copy@) =~= tags_view(tags@));
    copy
}

/// The tags of a line are those that the parameters describe, each with its
/// key and its value, none left out and none moved. A plain string is a tag
/// whose key is the whole string.
pub proof fn tags_are_as_described(params: Seq<&dyn TagParam>, tags: Seq<Tag>, plain: &str)
    requires
        tags_view(tags) == tags_of(params),
    ensures
        tags.len() == params.len(),
        forall|i: int|
            0 <= i < params.len() ==> {
                &&& (#[trigger] tags[i]).key@ == params[i].key_view()
                &&& tags[i].val is None <==> params[i].val_view() is None
                &&& tags[i].val matches Some(val) ==> params[i].val_view() == Some(val@)
            },
        plain.key_view() == plain@,
        plain.val_view() is None,
{
    assert(tags_view(tags).len() == tags.len());
    assert(tags_of(params).len() == params.len());
    assert forall|i: int| 0 <= i < params.len() implies {
        &&& (#[trigger] tags[i]).key@ == params[i].key_view()
        &&& tags[i].val is None <==> params[i].val_view() is None
        &&& tags[i].val matches Some(val) ==> params[i].val_view() == Some(val@)
    } by {
        assert(tags_view(tags)[i] == tags[i]@);
        assert(tags_of(params)[i].key == params[i].key_view());
    }
}

} // verus!
