//! The entries of the log and their text.

use crate::log::status::{Status, StatusView};
use crate::log::tag::{Tag, TagView};
use crate::log::time::{format_time, local_offset, to_signed_millis};
use vstd::prelude::*;

verus! {

/// One line of the log.
pub struct LogEntry {
    /// Milliseconds since the UNIX epoch.
    pub time: u64,
    pub emotion: String,
    pub tags: Vec<Tag>,
    pub line: String,
    /// If the log entry represents a finished `Status` then `trail` might contain the previous versions of that `Status`.
    pub trail: Vec<Status>,
}

/// What a `LogEntry` holds.
pub struct LogEntryView {
    pub time: u64,
    pub emotion: Seq<char>,
    pub tags: Seq<TagView>,
    pub line: Seq<char>,
    pub trail: Seq<StatusView>,
}

impl View for LogEntry {
    type V = LogEntryView;

    open spec fn view(&self) -> LogEntryView {
        LogEntryView {
            time: self.time,
            emotion: self.emotion@,
            tags: crate::log::tag::tags_view(self.tags@),
            line: self.line@,
            trail: crate::log::status::trail_view(self.trail@),
        }
    }
}

impl LogEntryView {
    /// The entry that a finished status leaves in the log. It bears no time
    /// of its own: its time is the UNIX epoch.
    pub open spec fn of_finished(status: StatusView) -> LogEntryView {
        LogEntryView {
            time: 0,
            emotion: Seq::empty(),
            tags: status.tags,
            line: status.line,
            trail: status.trail,
        }
    }
}

impl Default for LogEntry {
    fn default() -> (entry: LogEntry)
        ensures
            entry@ == LogEntryView::of_finished(StatusView::fresh(Seq::empty(), Seq::empty())),
    {
        let entry = LogEntry {
            time: 0,
            emotion: String::new(),
            tags: Vec::new(),
            line: String::new(),
            trail: Vec::new(),
        };
        assert(entry@.tags =~= Seq::empty());
        assert(entry@.trail =~= Seq::empty());
        entry
    }
}

/// The keys of the tags with a blank between neighbours.
pub open spec fn joined_keys(tags: Seq<TagView>) -> Seq<char>
    decreases tags.len(),
{
    if tags.len() == 0 {
        Seq::empty()
    } else if tags.len() == 1 {
        tags[0].key
    } else {
        joined_keys(tags.drop_last()) + " "@ + tags.last().key
    }
}

/// The previous versions of a status, the latest first, each on an indented
/// line of its own.
pub open spec fn trail_text(trail: Seq<StatusView>) -> Seq<char>
    decreases trail.len(),
{
    if trail.len() == 0 {
        Seq::empty()
    } else {
        "\n    "@ + trail.last().line + trail_text(trail.drop_last())
    }
}

/// The text of a log entry whose time reads `stamp`.
pub open spec fn entry_text(entry: LogEntryView, stamp: Seq<char>) -> Seq<char> {
    let emotion = if entry.emotion.len() == 0 {
        "·"@
    } else {
        entry.emotion
    };
    emotion + " "@ + stamp + " ["@ + joined_keys(entry.tags) + "] "@ + entry.line + trail_text(
        entry.trail,
    ) + "\n"@
}

/// The text of a log entry on a clock that is `offset` seconds ahead of UTC.
pub open spec fn entry_text_at(entry: LogEntryView, offset: int) -> Seq<char> {
    entry_text(entry, crate::log::time::formatted_time(crate::log::time::signed_millis(entry.time), offset, crate::log::time::time_layout()))
}

/// Whether `text` is the text of the entry on some clock.
pub open spec fn prints_as(entry: LogEntryView, text: Seq<char>) -> bool {
    exists|offset: int| crate::log::time::within_a_day(offset) && text == #[trigger] entry_text_at(entry, offset)
}

impl LogEntry {
    /// Appends the keys of the tags.
    fn push_keys(&self, buf: &mut String)
        ensures
            final(buf)@ == old(buf)@ + joined_keys(self@.tags),
    {
        let ghost tags = self@.tags;
        let mut i: usize = 0;
        proof {
            assert(tags.take(0) =~= Seq::empty());
            assert(buf@ =~= old(buf)@ + joined_keys(tags.take(0)));
        }
        while i < self.tags.len()
            invariant
                tags == self@.tags,
                i <= tags.len(),
                buf@ == old(buf)@ + joined_keys(tags.take(i as int)),
            decreases tags.len() - i,
        {
            proof {
                let next = tags.take(i + 1);
                assert(next.drop_last() =~= tags.take(i as int));
                assert(next.last() == tags[i as int]);
                assert(tags[i as int].key == self.tags@[i as int].key@);
            }
            if i > 0 {
                buf.append(" ");
            }
            buf.append(self.tags[i].key.as_str());
            proof {
                assert(buf@ =~= old(buf)@ + joined_keys(tags.take(i + 1)));
            }
            i = i + 1;
        }
        proof {
            assert(tags.take(i as int) =~= tags);
        }
    }

    /// Appends the lines of the trail.
    fn push_trail(&self, buf: &mut String)
        ensures
            final(buf)@ == old(buf)@ + trail_text(self@.trail),
    {
        let ghost trail = self@.trail;
        let mut i: usize = self.trail.len();
        proof {
            assert(trail.take(i as int) =~= trail);
        }
        while i > 0
            invariant
                trail == self@.trail,
                i <= trail.len(),
                old(buf)@ + trail_text(trail) == buf@ + trail_text(trail.take(i as int)),
            decreases i,
        {
            proof {
                let rest = trail.take(i as int);
                assert(rest.drop_last() =~= trail.take(i - 1));
                assert(rest.last() == trail[i - 1]);
                assert(trail[i - 1].line == self.trail@[i - 1].line@);
            }
            i = i - 1;
            let ghost before = buf@;
            buf.append("\n    ");
            buf.append(self.trail[i].line.as_str());
            proof {
                assert(buf@ + trail_text(trail.take(i as int)) =~= before + trail_text(
                    trail.take(i + 1),
                ));
            }
        }
        proof {
            assert(trail.take(0) =~= Seq::empty());
            assert(buf@ =~= buf@ + trail_text(trail.take(0)));
        }
    }

    /// Appends the text of the entry, whose time reads `stamp`.
    pub fn format_stamped(&self, stamp: &str, buf: &mut String)
        ensures
            final(buf)@ == old(buf)@ + entry_text(self@, stamp@),
    {
        if self.emotion.as_str().is_empty() {
            buf.append("·");
        } else {
            buf.append(self.emotion.as_str());
        }
        buf.append(" ");
        buf.append(stamp);
        buf.append(" [");
        self.push_keys(buf);
        buf.append("] ");
        buf.append(self.line.as_str());
        self.push_trail(buf);
        buf.append("\n");
        proof {
            assert(buf@ =~= old(buf)@ + entry_text(self@, stamp@));
        }
    }

    /// Appends the text of the entry on a clock that is `offset` seconds
    /// ahead of UTC.
    pub fn format_at(&self, offset: i32, buf: &mut String)
        requires
            crate::log::time::in_calendar(crate::log::time::signed_millis(self.time)),
            crate::log::time::within_a_day(offset as int),
        ensures
            final(buf)@ == old(buf)@ + entry_text_at(self@, offset as int),
    {
        let stamp = format_time(to_signed_millis(self.time), offset, "%Y-%m-%d %H:%M:%S");
        self.format_stamped(stamp.as_str(), buf);
    }

    /// Appends the text of the entry on the machine's clock.
    pub fn format(&self, buf: &mut String)
        requires
            crate::log::time::in_calendar(crate::log::time::signed_millis(self.time)),
        ensures
            exists|offset: int|
                crate::log::time::within_a_day(offset) && final(buf)@ == old(buf)@ + #[trigger] entry_text_at(
                    self@,
                    offset,
                ),
    {
        let offset: i32 = local_offset(to_signed_millis(self.time));
        self.format_at(offset, buf);
    }
}

/// A view shows all that an entry has.
pub proof fn entry_views_hide_nothing(entry: LogEntry)
    ensures
        entry@.time == entry.time,
        entry@.emotion == entry.emotion@,
        entry@.line == entry.line@,
        entry@.tags.len() == entry.tags@.len(),
        forall|i: int|
            0 <= i < entry.tags@.len() ==> {
                &&& (#[trigger] entry@.tags[i]).key == entry.tags@[i].key@
                &&& entry@.tags[i].val is None <==> entry.tags@[i].val is None
                &&& entry.tags@[i].val matches Some(val) ==> entry@.tags[i].val == Some(val@)
            },
        entry@.trail.len() == entry.trail@.len(),
        forall|i: int|
            0 <= i < entry.trail@.len() ==> #[trigger] entry@.trail[i] == entry.trail@[i]@,
{
}

/// The keys of two lists of tags, one behind the other, are those of the first,
/// a blank, and those of the second. The key of a single tag is written as it
/// is.
pub proof fn keys_are_joined_by_blanks(left: Seq<TagView>, right: Seq<TagView>)
    ensures
        left.len() == 0 ==> joined_keys(left).len() == 0,
        left.len() == 1 ==> joined_keys(left) == left[0].key,
        left.len() > 0 && right.len() > 0 ==> joined_keys(left + right) == joined_keys(left) + " "@
            + joined_keys(right),
    decreases right.len(),
{
    if left.len() > 0 && right.len() > 0 {
        let init = right.drop_last();
        assert((left + right).drop_last() =~= left + init);
        assert((left + right).last() == right.last());
        if right.len() == 1 {
            assert(left + init =~= left);
        } else {
            keys_are_joined_by_blanks(left, init);
        }
        assert(joined_keys(left + right) =~= joined_keys(left) + " "@ + joined_keys(right));
    }
}

/// Of two parts of a trail the later one is written first. A single version is
/// written as its whole line, on an indented line of its own.
pub proof fn later_versions_are_written_first(left: Seq<StatusView>, right: Seq<StatusView>)
    ensures
        left.len() == 0 ==> trail_text(left).len() == 0,
        left.len() == 1 ==> trail_text(left) == "\n    "@ + left[0].line,
        trail_text(left + right) == trail_text(right) + trail_text(left),
    decreases right.len(),
{
    if left.len() == 1 {
        assert(left.drop_last() =~= Seq::empty());
        assert(trail_text(left.drop_last()) =~= Seq::empty());
        assert(trail_text(left) =~= "\n    "@ + left[0].line);
    }
    if right.len() == 0 {
        assert(left + right =~= left);
        assert(trail_text(left + right) =~= trail_text(right) + trail_text(left));
    } else {
        let init = right.drop_last();
        assert((left + right).drop_last() =~= left + init);
        assert((left + right).last() == right.last());
        later_versions_are_written_first(left, init);
        assert(trail_text(left + right) =~= trail_text(right) + trail_text(left));
    }
}

/// The text of an entry has all of it in this order: the emotion, or a dot
/// where there is none; the time; the keys in brackets; the line; the trail;
/// and the end of the line. The time is that of the entry, to the second.
pub proof fn entry_text_has_all_of_the_entry(
    entry: LogEntryView,
    stamp: Seq<char>,
    offset: int,
)
    ensures
        entry.emotion.len() > 0 ==> entry_text(entry, stamp) == entry.emotion + " "@ + stamp + " ["@
            + joined_keys(entry.tags) + "] "@ + entry.line + trail_text(entry.trail) + "\n"@,
        entry.emotion.len() == 0 ==> entry_text(entry, stamp) == "·"@ + " "@ + stamp + " ["@
            + joined_keys(entry.tags) + "] "@ + entry.line + trail_text(entry.trail) + "\n"@,
        entry.time <= 0x7fff_ffff_ffff_ffff ==> entry_text_at(entry, offset) == entry_text(
            entry,
            crate::log::time::formatted_time(
                entry.time as int,
                offset,
                "%Y-%m-%d %H:%M:%S"@,
            ),
        ),
        entry.time > 0x7fff_ffff_ffff_ffff ==> entry_text_at(entry, offset) == entry_text(
            entry,
            crate::log::time::formatted_time(
                entry.time - 0x1_0000_0000_0000_0000,
                offset,
                "%Y-%m-%d %H:%M:%S"@,
            ),
        ),
{
}

/// A text that an entry prints as is its text on a clock that is less than a
/// day away from UTC.
pub proof fn entries_print_as_on_some_clock(entry: LogEntryView, text: Seq<char>)
    ensures
        prints_as(entry, text) <==> exists|offset: int|
            -86_400 < offset < 86_400 && text == #[trigger] entry_text_at(entry, offset),
{
}

/// The entry of a finished status has the tags, the line and the whole trail of
/// the status, no emotion, and the time zero.
pub proof fn finished_entry_has_all_of_the_status(status: StatusView)
    ensures
        LogEntryView::of_finished(status).time == 0,
        LogEntryView::of_finished(status).emotion.len() == 0,
        LogEntryView::of_finished(status).tags == status.tags,
        LogEntryView::of_finished(status).line == status.line,
        LogEntryView::of_finished(status).trail == status.trail,
{
}

} // verus!
