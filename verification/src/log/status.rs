//! The status of an operation and its previous versions.

use crate::log::tag::{copy_tags, make_tags, Tag, TagParam, TagView};
use vstd::prelude::*;

verus! {

/// The status entry kept in the dashboard.
pub struct Status {
    pub tags: Vec<Tag>,
    pub line: String,
    // Might contain the previous versions of the status.
    pub trail: Vec<Status>,
}

/// The text that a `Status` holds.
pub struct StatusView {
    pub tags: Seq<TagView>,
    pub line: Seq<char>,
    pub trail: Seq<StatusView>,
}

impl Status {
    pub open spec fn contents(self) -> StatusView
        decreases self,
    {
        StatusView {
            tags: crate::log::tag::tags_view(self.tags@),
            line: self.line@,
            trail: Seq::new(
                self.trail@.len(),
                |i: int|
                    if 0 <= i < self.trail@.len() {
                        self.trail@[i].contents()
                    } else {
                        arbitrary()
                    },
            ),
        }
    }
}

impl View for Status {
    type V = StatusView;

    open spec fn view(&self) -> StatusView {
        self.contents()
    }
}

impl StatusView {
    /// A status that was never rewritten.
    pub open spec fn fresh(tags: Seq<TagView>, line: Seq<char>) -> StatusView {
        StatusView { tags, line, trail: Seq::empty() }
    }

    /// This version of the status without the versions before it.
    pub open spec fn alone(self) -> StatusView {
        StatusView::fresh(self.tags, self.line)
    }

    /// The status once it was rewritten: the version that it replaces becomes
    /// the last of the trail.
    pub open spec fn rewritten(self, tags: Seq<TagView>, line: Seq<char>) -> StatusView {
        StatusView { tags, line, trail: self.trail.push(self.alone()) }
    }

    /// Whether each previous version of the status stands alone, without a
    /// trail of its own.
    pub open spec fn is_flat(self) -> bool {
        forall|i: int| 0 <= i < self.trail.len() ==> (#[trigger] self.trail[i]).trail.len() == 0
    }

    /// The status with more text at the end of its line.
    pub open spec fn appended(self, suffix: Seq<char>) -> StatusView {
        StatusView { line: self.line + suffix, ..self }
    }
}

/// The texts of a trail.
pub open spec fn trail_view(trail: Seq<Status>) -> Seq<StatusView> {
    Seq::new(trail.len(), |i: int| trail[i]@)
}

impl Status {
    /// A status that was never rewritten.
    pub(crate) fn fresh(tags: &[&dyn TagParam], line: &str) -> (status: Status)
        ensures
            status@ == StatusView::fresh(crate::log::tag::tags_of(tags@), line@),
    {
        let status = Status { tags: make_tags(tags), line: line.to_owned(), trail: Vec::new() };
        assert(status@.trail =~= Seq::empty());
        status
    }

    /// A copy of this version of the status, without the versions before it.
    pub(crate) fn version(&self) -> (status: Status)
        ensures
            status@ == self@.alone(),
    {
        let status = Status {
            tags: copy_tags(self.tags.as_slice()),
            line: self.line.clone(),
            trail: Vec::new(),
        };
        assert(status@.trail =~= Seq::empty());
        status
    }

    /// Replaces this version of the status by `fresh` and moves it to the end
    /// of the trail.
    pub(crate) fn rewrite(&mut self, fresh: Status)
        requires
            fresh@.trail.len() == 0,
        ensures
            final(self)@ == old(self)@.rewritten(fresh@.tags, fresh@.line),
    {
        let mut stack_status = fresh;
        core::mem::swap(&mut stack_status, self);
        core::mem::swap(&mut stack_status.trail, &mut self.trail);
        assert(stack_status@ == old(self)@.alone()) by {
            assert(stack_status@.trail =~= Seq::empty());
        }
        self.trail.push(stack_status);
        assert(self@.trail =~= old(self)@.trail.push(stack_status@));
    }
}

/// A view shows all that a status has.
pub proof fn status_views_hide_nothing(status: Status)
    ensures
        status@.line == status.line@,
        status@.tags.len() == status.tags@.len(),
        forall|i: int|
            0 <= i < status.tags@.len() ==> {
                &&& (#[trigger] status@.tags[i]).key == status.tags@[i].key@
                &&& status@.tags[i].val is None <==> status.tags@[i].val is None
                &&& status.tags@[i].val matches Some(val) ==> status@.tags[i].val == Some(val@)
            },
        status@.trail.len() == status.trail@.len(),
        forall|i: int|
            0 <= i < status.trail@.len() ==> #[trigger] status@.trail[i] == status.trail@[i]@,
{
}

/// A fresh status has what it was given and no trail. Rewriting a status puts
/// the new tags and the new line in place of the old ones, which become the
/// last of the trail, and keeps the trail before them. Adding text changes the
/// end of the line and nothing else.
pub proof fn statuses_change_as_told(
    status: StatusView,
    tags: Seq<TagView>,
    line: Seq<char>,
)
    ensures
        StatusView::fresh(tags, line).tags == tags,
        StatusView::fresh(tags, line).line == line,
        StatusView::fresh(tags, line).trail.len() == 0,
        status.rewritten(tags, line).tags == tags,
        status.rewritten(tags, line).line == line,
        status.rewritten(tags, line).trail.len() == status.trail.len() + 1,
        forall|i: int|
            0 <= i < status.trail.len() ==> #[trigger] status.rewritten(tags, line).trail[i]
                == status.trail[i],
        status.rewritten(tags, line).trail.last().tags == status.tags,
        status.rewritten(tags, line).trail.last().line == status.line,
        status.rewritten(tags, line).trail.last().trail.len() == 0,
        status.appended(line).tags == status.tags,
        status.appended(line).line == status.line + line,
        status.appended(line).trail == status.trail,
{
}

} // verus!
