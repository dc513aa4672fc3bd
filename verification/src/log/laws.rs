//! What holds of the log as a whole.

use crate::log::entry::{LogEntry, LogEntryView};
use crate::log::status::StatusView;
use crate::log::tag::TagView;
use crate::log::{LiveStatus, LogState, LogStateView, StatusHandle};
use vstd::prelude::*;

verus! {

/// A version of a status as a caller gives it: its tags and its line.
pub struct Update {
    pub tags: Seq<TagView>,
    pub line: Seq<char>,
}

/// The status of an operation that was given these versions, one after the
/// other, for at least one version.
pub open spec fn status_after(updates: Seq<Update>) -> StatusView
    decreases updates.len(),
{
    if updates.len() <= 1 {
        StatusView::fresh(updates[0].tags, updates[0].line)
    } else {
        status_after(updates.drop_last()).rewritten(updates.last().tags, updates.last().line)
    }
}

/// The recent entries of a log to which these entries were added, one after
/// the other.
pub open spec fn tail_after(entries: Seq<LogEntryView>) -> Seq<LogEntryView>
    decreases entries.len(),
{
    if entries.len() == 0 {
        Seq::empty()
    } else {
        crate::log::tail_with(tail_after(entries.drop_last()), entries.last())
    }
}

proof fn slot_is_unique(log: LogStateView, id: usize, k: int)
    requires
        log.wf(),
        0 <= k < log.dashboard.len(),
        log.dashboard[k].id == id,
    ensures
        log.tracks(id),
        log.slot(id) == k,
{
}

/// A status that was rewritten shows its last version, and its trail holds
/// every version before it, in the order in which they were given.
pub proof fn rewriting_keeps_every_version(updates: Seq<Update>)
    requires
        updates.len() > 0,
    ensures
        status_after(updates).tags == updates.last().tags,
        status_after(updates).line == updates.last().line,
        status_after(updates).trail.len() == updates.len() - 1,
        forall|i: int|
            0 <= i < updates.len() - 1 ==> #[trigger] status_after(updates).trail[i]
                == StatusView::fresh(updates[i].tags, updates[i].line),
    decreases updates.len(),
{
    if updates.len() > 1 {
        let before = updates.drop_last();
        rewriting_keeps_every_version(before);
        assert forall|i: int| 0 <= i < updates.len() - 1 implies #[trigger] status_after(
            updates,
        ).trail[i] == StatusView::fresh(updates[i].tags, updates[i].line) by {
            if i < before.len() - 1 {
                assert(status_after(before).trail[i] == StatusView::fresh(
                    before[i].tags,
                    before[i].line,
                ));
            } else {
                assert(status_after(before).alone() == StatusView::fresh(
                    before.last().tags,
                    before.last().line,
                ));
            }
        }
    }
}

/// Text that is added to a status is seen at the end of its line, changes
/// nothing else of it, and stays with that version once it is rewritten.
pub proof fn added_text_stays_with_its_version(
    status: StatusView,
    suffix: Seq<char>,
    more: Seq<char>,
    update: Update,
)
    ensures
        status.appended(suffix).line == status.line + suffix,
        status.appended(suffix).tags == status.tags,
        status.appended(suffix).trail == status.trail,
        status.appended(suffix).appended(more) == status.appended(suffix + more),
        status.appended(suffix).rewritten(update.tags, update.line).trail.last()
            == StatusView::fresh(status.tags, status.line + suffix),
{
    assert(status.line + suffix + more =~= status.line + (suffix + more));
}

/// The log entry of a finished operation shows the last version of its status
/// and carries every version before it.
pub proof fn finished_entry_tells_the_whole_story(updates: Seq<Update>)
    requires
        updates.len() > 0,
    ensures
        ({
            let entry = LogEntryView::of_finished(status_after(updates));
            &&& entry.tags == updates.last().tags
            &&& entry.line == updates.last().line
            &&& entry.trail.len() == updates.len() - 1
            &&& forall|i: int|
                0 <= i < updates.len() - 1 ==> #[trigger] entry.trail[i] == StatusView::fresh(
                    updates[i].tags,
                    updates[i].line,
                )
        }),
{
    rewriting_keeps_every_version(updates);
}

/// The first status of an operation appears in the dashboard, and no other
/// operation notices.
pub proof fn starting_adds_one_status(log: LogStateView, id: usize, status: StatusView)
    requires
        log.wf(),
        !log.tracks(id),
        status.is_flat(),
    ensures
        log.with_started(id, status).wf(),
        log.with_started(id, status).tracks(id),
        log.with_started(id, status).status_of(id) == status,
        log.with_started(id, status).dashboard.len() == log.dashboard.len() + 1,
        log.with_started(id, status).tail == log.tail,
        forall|other: usize| #[trigger]
            log.tracks(other) ==> {
                &&& log.with_started(id, status).tracks(other)
                &&& log.with_started(id, status).status_of(other) == log.status_of(other)
            },
{
    let after = log.with_started(id, status);
    crate::log::started_is_wf(log, id, status);
    slot_is_unique(after, id, log.dashboard.len() as int);
    assert forall|other: usize| #[trigger] log.tracks(other) implies {
        &&& after.tracks(other)
        &&& after.status_of(other) == log.status_of(other)
    } by {
        let k = log.slot(other);
        assert(after.dashboard[k] == log.dashboard[k]);
        slot_is_unique(after, other, k);
    }
}

/// A change of the status of one operation is seen in the dashboard, keeps its
/// size, and no other operation notices.
pub proof fn changing_touches_one_status(log: LogStateView, id: usize, status: StatusView)
    requires
        log.wf(),
        log.tracks(id),
        status.is_flat(),
    ensures
        log.with_status(id, status).wf(),
        log.with_status(id, status).tracks(id),
        log.with_status(id, status).status_of(id) == status,
        log.with_status(id, status).dashboard.len() == log.dashboard.len(),
        log.with_status(id, status).tail == log.tail,
        forall|other: usize|
            other != id ==> (log.with_status(id, status).tracks(other) <==> #[trigger] log.tracks(
                other,
            )),
        forall|other: usize| #[trigger]
            log.tracks(other) && other != id ==> log.with_status(id, status).status_of(other)
                == log.status_of(other),
{
    let after = log.with_status(id, status);
    crate::log::changed_is_wf(log, id, status);
    slot_is_unique(after, id, log.slot(id));
    assert forall|other: usize| other != id implies (after.tracks(other) <==> #[trigger] log.tracks(
        other,
    )) && (log.tracks(other) ==> after.status_of(other) == log.status_of(other)) by {
        if log.tracks(other) {
            let k = log.slot(other);
            assert(after.dashboard[k] == log.dashboard[k]);
            slot_is_unique(after, other, k);
        }
        if after.tracks(other) {
            let k = after.slot(other);
            assert(log.dashboard[k].id == other);
        }
    }
}

/// Finishing an operation takes its status out of the dashboard and makes it
/// the latest log entry, and no other operation notices.
pub proof fn finishing_moves_one_status_to_the_log(
    log: LogStateView,
    id: usize,
    status: StatusView,
)
    requires
        log.wf(),
        log.tracks(id),
        log.status_of(id) == status,
    ensures
        log.with_finished(id, status).wf(),
        !log.with_finished(id, status).tracks(id),
        log.with_finished(id, status).dashboard.len() == log.dashboard.len() - 1,
        log.with_finished(id, status).tail.last() == LogEntryView::of_finished(status),
        forall|other: usize|
            other != id ==> (log.with_finished(id, status).tracks(other) <==> #[trigger] log.tracks(
                other,
            )),
        forall|other: usize| #[trigger]
            log.tracks(other) && other != id ==> log.with_finished(id, status).status_of(other)
                == log.status_of(other),
{
    let after = log.with_finished(id, status);
    let k = log.slot(id);
    let last = log.dashboard.len() - 1;
    crate::log::without_is_wf(log, id);
    assert forall|i: int| 0 <= i < after.dashboard.len() implies #[trigger] after.dashboard[i]
        == log.dashboard[if i == k {
        last
    } else {
        i
    }] by {}
    assert(after.wf());
    assert(!after.tracks(id)) by {
        if after.tracks(id) {
            let i = after.slot(id);
            slot_is_unique(log, id, if i == k {
                last
            } else {
                i
            });
        }
    }
    assert forall|other: usize| other != id implies (after.tracks(other) <==> #[trigger] log.tracks(
        other,
    )) && (log.tracks(other) ==> after.status_of(other) == log.status_of(other)) by {
        if log.tracks(other) {
            let from = log.slot(other);
            let to = if from == last {
                k
            } else {
                from
            };
            assert(after.dashboard[to] == log.dashboard[from]);
            slot_is_unique(after, other, to);
        }
        if after.tracks(other) {
            let to = after.slot(other);
            let from = if to == k {
                last
            } else {
                to
            };
            assert(log.dashboard[from].id == other);
        }
    }
}

/// A finished status that is missing from the dashboard becomes the latest log
/// entry all the same, and leaves the dashboard alone.
pub proof fn a_missing_status_is_logged_all_the_same(
    log: LogStateView,
    id: usize,
    status: StatusView,
)
    requires
        log.wf(),
        !log.tracks(id),
    ensures
        log.with_finished(id, status).wf(),
        log.with_finished(id, status).dashboard == log.dashboard,
        log.with_finished(id, status).tail.last() == LogEntryView::of_finished(status),
{
}

/// An operation that is started and at once finished leaves the dashboard as
/// it was.
pub proof fn finishing_undoes_starting(log: LogStateView, id: usize, status: StatusView)
    requires
        log.wf(),
        !log.tracks(id),
        status.is_flat(),
    ensures
        log.with_started(id, status).with_finished(id, status).dashboard == log.dashboard,
{
    starting_adds_one_status(log, id, status);
    let during = log.with_started(id, status);
    slot_is_unique(during, id, log.dashboard.len() as int);
    assert(during.with_finished(id, status).dashboard =~= log.dashboard);
}

/// The log after the operation `id` was given these versions of its status,
/// one after the other, for at least one version.
pub open spec fn log_after(log: LogStateView, id: usize, updates: Seq<Update>) -> LogStateView
    decreases updates.len(),
{
    if updates.len() <= 1 {
        log.with_started(id, StatusView::fresh(updates[0].tags, updates[0].line))
    } else {
        let before = log_after(log, id, updates.drop_last());
        before.with_rewritten(id, updates.last().tags, updates.last().line)
    }
}

/// An operation that starts, is given versions of its status and finishes is
/// seen in the dashboard all the while, with its last version, and leaves the
/// dashboard as it found it and one more entry in the log.
pub proof fn operation_runs_its_course(log: LogStateView, id: usize, updates: Seq<Update>)
    requires
        log.wf(),
        !log.tracks(id),
        updates.len() > 0,
    ensures
        ({
            let during = log_after(log, id, updates);
            let after = during.with_finished(id, status_after(updates));
            &&& during.wf()
            &&& during.tracks(id)
            &&& during.status_of(id) == status_after(updates)
            &&& during.dashboard.len() == log.dashboard.len() + 1
            &&& after.wf()
            &&& after.dashboard == log.dashboard
            &&& after.tail == crate::log::tail_with(
                log.tail,
                LogEntryView::of_finished(status_after(updates)),
            )
        }),
{
    log_after_is_one_status_more(log, id, updates);
    starting_adds_one_status(log, id, status_after(updates));
    finishing_undoes_starting(log, id, status_after(updates));
    finishing_moves_one_status_to_the_log(
        log_after(log, id, updates),
        id,
        status_after(updates),
    );
}

proof fn log_after_is_one_status_more(log: LogStateView, id: usize, updates: Seq<Update>)
    requires
        log.wf(),
        !log.tracks(id),
        updates.len() > 0,
    ensures
        status_after(updates).is_flat(),
        log_after(log, id, updates) == log.with_started(id, status_after(updates)),
    decreases updates.len(),
{
    rewriting_keeps_every_version(updates);
    if updates.len() > 1 {
        let before = updates.drop_last();
        log_after_is_one_status_more(log, id, before);
        starting_adds_one_status(log, id, status_after(before));
        let during = log.with_started(id, status_after(before));
        slot_is_unique(during, id, log.dashboard.len() as int);
        assert(log_after(log, id, updates).dashboard =~= log.with_started(
            id,
            status_after(updates),
        ).dashboard);
    }
}

/// The entries kept in memory are the latest of all that were added, in their
/// order: all of them while there is room.
pub proof fn tail_keeps_the_latest(entries: Seq<LogEntryView>)
    ensures
        crate::log::TAIL_LENGTH == 64,
        tail_after(entries).len() <= crate::log::TAIL_LENGTH,
        entries.len() <= crate::log::TAIL_LENGTH ==> tail_after(entries) == entries,
        entries.len() > crate::log::TAIL_LENGTH ==> tail_after(entries) == entries.skip(
            entries.len() - crate::log::TAIL_LENGTH,
        ),
    decreases entries.len(),
{
    if entries.len() == 0 {
        assert(tail_after(entries) =~= entries);
    } else {
        let before = entries.drop_last();
        tail_keeps_the_latest(before);
        if entries.len() <= crate::log::TAIL_LENGTH {
            assert(tail_after(entries) =~= entries);
        } else {
            assert(tail_after(entries) =~= entries.skip(
                entries.len() - crate::log::TAIL_LENGTH,
            ));
        }
    }
}

/// The dashboard has an operation exactly where one of its places has it, and
/// the status of the operation is the one at that place.
pub proof fn operations_are_where_they_stand(log: LogStateView, id: usize, k: int)
    requires
        log.wf(),
    ensures
        log.tracks(id) <==> exists|i: int|
            0 <= i < log.dashboard.len() && #[trigger] log.dashboard[i].id == id,
        0 <= k < log.dashboard.len() && log.dashboard[k].id == id ==> log.status_of(id)
            == log.dashboard[k].status,
{
    if 0 <= k < log.dashboard.len() && log.dashboard[k].id == id {
        slot_is_unique(log, id, k);
    }
}

/// A new log is empty and has the log file that it was given.
pub proof fn new_log_is_empty(log_file: Option<Seq<char>>)
    ensures
        LogStateView::empty(log_file).dashboard.len() == 0,
        LogStateView::empty(log_file).tail.len() == 0,
        LogStateView::empty(log_file).log_file == log_file,
{
}

/// The first status of an operation is put at the end of the dashboard. All
/// else stays in its place.
pub proof fn started_status_comes_last(log: LogStateView, id: usize, status: StatusView)
    ensures
        ({
            let after = log.with_started(id, status);
            &&& after.dashboard.len() == log.dashboard.len() + 1
            &&& after.dashboard.last().id == id
            &&& after.dashboard.last().status == status
            &&& forall|i: int|
                0 <= i < log.dashboard.len() ==> #[trigger] after.dashboard[i] == log.dashboard[i]
            &&& after.tail == log.tail
            &&& after.log_file == log.log_file
        }),
{
}

/// A status that is rewritten, or that text is added to, stays in its place in
/// the dashboard and changes as it was told. All else stays as it is, and so
/// does the whole log where the dashboard does not have the operation.
pub proof fn changed_status_stays_in_its_place(
    log: LogStateView,
    id: usize,
    k: int,
    tags: Seq<TagView>,
    line: Seq<char>,
)
    requires
        log.wf(),
        log.tracks(id) ==> 0 <= k < log.dashboard.len() && log.dashboard[k].id == id,
    ensures
        ({
            let rewritten = log.with_rewritten(id, tags, line);
            let appended = log.with_appended(id, line);
            &&& !log.tracks(id) ==> rewritten == log && appended == log
            &&& log.tracks(id) ==> {
                let before = log.dashboard[k].status;
                &&& rewritten.dashboard.len() == log.dashboard.len()
                &&& rewritten.dashboard[k].id == id
                &&& rewritten.dashboard[k].status.tags == tags
                &&& rewritten.dashboard[k].status.line == line
                &&& rewritten.dashboard[k].status.trail.len() == before.trail.len() + 1
                &&& rewritten.dashboard[k].status.trail.last().line == before.line
                &&& rewritten.dashboard[k].status.trail.last().tags == before.tags
                &&& rewritten.dashboard[k].status.trail.drop_last() == before.trail
                &&& appended.dashboard.len() == log.dashboard.len()
                &&& appended.dashboard[k].id == id
                &&& appended.dashboard[k].status.tags == before.tags
                &&& appended.dashboard[k].status.line == before.line + line
                &&& appended.dashboard[k].status.trail == before.trail
                &&& forall|i: int|
                    #![trigger log.dashboard[i]]
                    0 <= i < log.dashboard.len() && i != k ==> rewritten.dashboard[i]
                        == log.dashboard[i] && appended.dashboard[i] == log.dashboard[i]
            }
            &&& rewritten.tail == log.tail && appended.tail == log.tail
            &&& rewritten.log_file == log.log_file && appended.log_file == log.log_file
        }),
{
    if log.tracks(id) {
        slot_is_unique(log, id, k);
        let before = log.dashboard[k].status;
        let rewritten = log.with_rewritten(id, tags, line);
        assert(rewritten.dashboard[k].status.trail.drop_last() =~= before.trail);
    }
}

/// A finished status becomes the last of the recent entries, with its tags, its
/// line and its trail. Its place in the dashboard is taken by the last status,
/// and every other status stays in its place; the dashboard stays as it is
/// where it does not have the operation.
pub proof fn finished_status_becomes_the_last_entry(
    log: LogStateView,
    id: usize,
    status: StatusView,
    k: int,
)
    requires
        log.wf(),
        log.tracks(id) ==> 0 <= k < log.dashboard.len() && log.dashboard[k].id == id,
    ensures
        ({
            let after = log.with_finished(id, status);
            &&& after.tail.last().time == 0
            &&& after.tail.last().emotion.len() == 0
            &&& after.tail.last().tags == status.tags
            &&& after.tail.last().line == status.line
            &&& after.tail.last().trail == status.trail
            &&& log.tail.len() < 64 ==> after.tail.drop_last() == log.tail
            &&& log.tail.len() == 64 ==> after.tail.drop_last() == log.tail.drop_first()
            &&& after.log_file == log.log_file
            &&& !log.tracks(id) ==> after.dashboard == log.dashboard
            &&& log.tracks(id) ==> {
                &&& after.dashboard.len() == log.dashboard.len() - 1
                &&& k < after.dashboard.len() ==> after.dashboard[k] == log.dashboard.last()
                &&& forall|i: int|
                    0 <= i < after.dashboard.len() && i != k ==> #[trigger] after.dashboard[i]
                        == log.dashboard[i]
            }
        }),
{
    let after = log.with_finished(id, status);
    if log.tracks(id) {
        slot_is_unique(log, id, k);
    }
    if log.tail.len() < 64 {
        assert(after.tail.drop_last() =~= log.tail);
    } else {
        assert(after.tail.drop_last() =~= log.tail.drop_first());
    }
}

/// An entry that is logged has the time of the clock, and the emotion, the tags
/// and the line that it was given. It becomes the last of the recent entries,
/// and nothing else of the log changes but that the oldest entry leaves where
/// there is no room. Where the calendar does not have the time, nothing
/// changes at all.
pub proof fn logged_entry_is_as_told(
    before: LogStateView,
    after: LogStateView,
    time: u64,
    emotion: Seq<char>,
    tags: Seq<TagView>,
    line: Seq<char>,
    chunk: Option<Seq<char>>,
)
    requires
        before.wf(),
        crate::log::logged_at(
            before,
            after,
            time,
            crate::log::new_entry(time, emotion, tags, line),
            chunk,
        ),
    ensures
        ({
            let dated = (time <= 0x7fff_ffff_ffff_ffff && time <= 8_210_266_876_799_999) || (time
                > 0x7fff_ffff_ffff_ffff && time - 0x1_0000_0000_0000_0000
                >= -8_334_601_228_800_000);
            &&& chunk is Some <==> dated
            &&& !dated ==> after == before
            &&& dated ==> {
                &&& after.dashboard == before.dashboard
                &&& after.log_file == before.log_file
                &&& after.tail.last().time == time
                &&& after.tail.last().emotion == emotion
                &&& after.tail.last().tags == tags
                &&& after.tail.last().line == line
                &&& after.tail.last().trail.len() == 0
                &&& before.tail.len() < 64 ==> after.tail.drop_last() == before.tail
                &&& before.tail.len() == 64 ==> after.tail.drop_last() == before.tail.drop_first()
                &&& exists|offset: int|
                    -86_400 < offset < 86_400 && chunk
                        == Some(#[trigger] crate::log::entry::entry_text_at(
                        after.tail.last(),
                        offset,
                    ))
            }
        }),
{
    if crate::log::time::in_calendar(crate::log::time::signed_millis(time)) {
        let entry = crate::log::new_entry(time, emotion, tags, line);
        assert(after.tail.last() == entry);
        if before.tail.len() < 64 {
            assert(after.tail.drop_last() =~= before.tail);
        } else {
            assert(after.tail.drop_last() =~= before.tail.drop_first());
        }
        let offset = choose|offset: int|
            crate::log::time::within_a_day(offset) && chunk->0
                == #[trigger] crate::log::entry::entry_text_at(entry, offset);
        assert(chunk == Some(crate::log::entry::entry_text_at(after.tail.last(), offset)));
    }
}

/// Whoever looks at the dashboard sees every status in its place, and whoever
/// looks at the recent entries sees every one of them, the oldest first.
pub proof fn looking_shows_everything(
    statuses: Seq<LiveStatus>,
    entries: Seq<LogEntry>,
    log: LogStateView,
)
    requires
        crate::log::shows_dashboard(statuses, log),
        crate::log::shows_tail(entries, log),
    ensures
        statuses.len() == log.dashboard.len(),
        forall|i: int|
            0 <= i < statuses.len() ==> {
                &&& (#[trigger] statuses[i]).id == log.dashboard[i].id
                &&& statuses[i].status@ == log.dashboard[i].status
            },
        entries.len() == log.tail.len(),
        forall|i: int| 0 <= i < entries.len() ==> (#[trigger] entries[i])@ == log.tail[i],
{
    assert forall|i: int| 0 <= i < statuses.len() implies {
        &&& (#[trigger] statuses[i]).id == log.dashboard[i].id
        &&& statuses[i].status@ == log.dashboard[i].status
    } by {
        assert(statuses[i]@ == log.dashboard[i]);
    }
}

/// A handle whose status is shown is in the dashboard with the very status that
/// the handle has.
pub proof fn shown_status_is_that_of_the_handle(log: LogState, handle: StatusHandle)
    ensures
        handle@ matches Some(live) ==> (log.shows(handle) <==> log@.tracks(live.id)
            && log@.status_of(live.id) == live.status),
{
}

/// The configuration is usable where it names the log file by a string, or not
/// at all. The log file is the whole string.
pub proof fn log_file_is_the_one_of_the_configuration(conf: serde_json::Value, path: Seq<char>)
    ensures
        !crate::json::json_members(conf).contains_key("log"@) ==> crate::log::usable_conf(conf)
            && crate::log::conf_log_file(conf) is None,
        (crate::json::json_members(conf).contains_key("log"@) && crate::json::json_members(
            conf,
        )["log"@] == Some(path)) ==> crate::log::usable_conf(conf) && crate::log::conf_log_file(
            conf,
        ) == Some(path),
        (crate::json::json_members(conf).contains_key("log"@) && crate::json::json_members(
            conf,
        )["log"@] is None) ==> !crate::log::usable_conf(conf),
{
}

/// The user is warned exactly where a finished status was missing from the
/// dashboard.
pub proof fn only_a_missing_status_is_warned_of()
    ensures
        crate::log::finish_warning(true) is None,
        crate::log::finish_warning(false) == Some(
            "log] Warning, a finished StatusHandle was missing from the dashboard."@,
        ),
{
}

/// An entry that is made has what it was given, each in its own place, and no
/// trail. It is added behind the entries that are kept.
pub proof fn made_entry_has_what_it_was_given(
    log: LogStateView,
    time: u64,
    emotion: Seq<char>,
    tags: Seq<TagView>,
    line: Seq<char>,
)
    requires
        log.wf(),
    ensures
        ({
            let entry = crate::log::new_entry(time, emotion, tags, line);
            let after = log.with_entry(entry);
            &&& entry.time == time
            &&& entry.emotion == emotion
            &&& entry.tags == tags
            &&& entry.line == line
            &&& entry.trail.len() == 0
            &&& after.tail.last() == entry
            &&& log.tail.len() < 64 ==> after.tail.drop_last() == log.tail
            &&& log.tail.len() == 64 ==> after.tail.drop_last() == log.tail.drop_first()
            &&& after.dashboard == log.dashboard
            &&& after.log_file == log.log_file
        }),
{
    let after = log.with_entry(crate::log::new_entry(time, emotion, tags, line));
    if log.tail.len() < 64 {
        assert(after.tail.drop_last() =~= log.tail);
    } else {
        assert(after.tail.drop_last() =~= log.tail.drop_first());
    }
}

} // verus!
