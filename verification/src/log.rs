//! Human-readable logging and statuses.

use crate::json::{member, Member};
use crate::log::entry::{LogEntry, LogEntryView};
use crate::log::status::{Status, StatusView};
use crate::log::tag::{make_tags, TagParam, TagView};
use crate::log::time::{is_dated, local_offset, now_ms, to_signed_millis};
use std::collections::VecDeque;
use vstd::prelude::*;

pub mod entry;
pub mod laws;
pub mod status;
pub mod tag;
pub mod time;

verus! {

/// How many recent log entries are kept in memory.
pub const TAIL_LENGTH: usize = 64;

/// The status of an operation in progress, as the dashboard keeps it.
pub struct LiveStatus {
    /// Tells the operations in progress apart.
    pub id: usize,
    pub status: Status,
}

/// What a `LiveStatus` holds.
pub struct LiveStatusView {
    pub id: usize,
    pub status: StatusView,
}

impl View for LiveStatus {
    type V = LiveStatusView;

    open spec fn view(&self) -> LiveStatusView {
        LiveStatusView { id: self.id, status: self.status@ }
    }
}

/// The shared log state of a MarketMaker instance.
/// Carried around by the MarketMaker state, `MmCtx`.
/// Keeps track of the log file and the status dashboard.
pub struct LogState {
    dashboard: Vec<LiveStatus>,
    /// Keeps recent log entries in memory in case we need them for debugging.
    /// Should allow us to examine the log from withing the unit tests, core dumps and live debugging sessions.
    tail: VecDeque<LogEntry>,
    /// Log to stdout if `None`.
    log_file: Option<String>,
}

/// What a `LogState` holds.
pub struct LogStateView {
    pub dashboard: Seq<LiveStatusView>,
    pub tail: Seq<LogEntryView>,
    pub log_file: Option<Seq<char>>,
}

impl View for LogState {
    type V = LogStateView;

    closed spec fn view(&self) -> LogStateView {
        LogStateView {
            dashboard: Seq::new(self.dashboard@.len(), |i: int| self.dashboard@[i]@),
            tail: Seq::new(self.tail@.len(), |i: int| self.tail@[i]@),
            log_file: crate::text::optional_text(self.log_file),
        }
    }
}

/// The entries that are kept once `entry` was added: the oldest leaves when
/// there is no more room.
pub open spec fn tail_with(tail: Seq<LogEntryView>, entry: LogEntryView) -> Seq<LogEntryView> {
    if tail.len() == TAIL_LENGTH {
        tail.drop_first().push(entry)
    } else {
        tail.push(entry)
    }
}

impl LogStateView {
    /// A log with nothing in it.
    pub open spec fn empty(log_file: Option<Seq<char>>) -> LogStateView {
        LogStateView { dashboard: Seq::empty(), tail: Seq::empty(), log_file }
    }

    /// No two operations in progress are taken for each other, each version
    /// in a trail stands alone, and there are not too many recent entries.
    pub open spec fn wf(self) -> bool {
        &&& forall|i: int, j: int|
            0 <= i < j < self.dashboard.len() ==> self.dashboard[i].id != self.dashboard[j].id
        &&& forall|i: int|
            0 <= i < self.dashboard.len() ==> (#[trigger] self.dashboard[i]).status.is_flat()
        &&& self.tail.len() <= TAIL_LENGTH
    }

    /// Whether the dashboard has the status of the operation `id`.
    pub open spec fn tracks(self, id: usize) -> bool {
        exists|i: int| 0 <= i < self.dashboard.len() && #[trigger] self.dashboard[i].id == id
    }

    /// Where the dashboard has the status of the operation `id`.
    pub open spec fn slot(self, id: usize) -> int {
        choose|i: int| 0 <= i < self.dashboard.len() && #[trigger] self.dashboard[i].id == id
    }

    /// The status of the operation `id`.
    pub open spec fn status_of(self, id: usize) -> StatusView {
        self.dashboard[self.slot(id)].status
    }

    /// The log once the operation `id` got its first status.
    pub open spec fn with_started(self, id: usize, status: StatusView) -> LogStateView {
        LogStateView { dashboard: self.dashboard.push(LiveStatusView { id, status }), ..self }
    }

    /// The log once the status of the operation `id` was changed to `status`.
    pub open spec fn with_status(self, id: usize, status: StatusView) -> LogStateView {
        LogStateView {
            dashboard: self.dashboard.update(self.slot(id), LiveStatusView { id, status }),
            ..self
        }
    }

    /// The log once `entry` was added.
    pub open spec fn with_entry(self, entry: LogEntryView) -> LogStateView {
        LogStateView { tail: tail_with(self.tail, entry), ..self }
    }

    /// The log once the status of the operation `id` was rewritten, where the
    /// dashboard has it.
    pub open spec fn with_rewritten(
        self,
        id: usize,
        tags: Seq<TagView>,
        line: Seq<char>,
    ) -> LogStateView {
        if self.tracks(id) {
            self.with_status(id, self.status_of(id).rewritten(tags, line))
        } else {
            self
        }
    }

    /// The log once text was added to the status of the operation `id`, where
    /// the dashboard has it.
    pub open spec fn with_appended(self, id: usize, suffix: Seq<char>) -> LogStateView {
        if self.tracks(id) {
            self.with_status(id, self.status_of(id).appended(suffix))
        } else {
            self
        }
    }

    /// The log without the status of the operation `id`, where the dashboard
    /// has it; the last status of the dashboard takes its place.
    pub open spec fn without(self, id: usize) -> LogStateView {
        if self.tracks(id) {
            LogStateView {
                dashboard: self.dashboard.update(
                    self.slot(id),
                    self.dashboard.last(),
                ).drop_last(),
                ..self
            }
        } else {
            self
        }
    }

    /// The log once the operation `id` was finished with the status `status`.
    /// The status becomes a log entry even where it is missing from the
    /// dashboard.
    pub open spec fn with_finished(self, id: usize, status: StatusView) -> LogStateView {
        self.without(id).with_entry(LogEntryView::of_finished(status))
    }
}

/// Tracks the status of an ongoing operation, allowing us to inform the user of the status updates.
///
/// Finishing the handle tells us that the operation is over and that we can dump the final status into the log.
pub struct StatusHandle {
    /// The status, which the dashboard has too. None before the first status.
    live: Option<LiveStatus>,
}

impl View for StatusHandle {
    type V = Option<LiveStatusView>;

    closed spec fn view(&self) -> Option<LiveStatusView> {
        match self.live {
            Some(live) => Some(live@),
            None => None,
        }
    }
}

/// What is left of a finished operation.
#[derive(Debug, PartialEq, Eq)]
pub struct Finished {
    /// The text of the log entry, which is to be written to the log.
    pub chunk: String,
    /// What the user is warned of.
    pub warning: Option<String>,
}

/// What the user is warned of where a finished status was missing from the
/// dashboard.
pub open spec fn finish_warning(was_shown: bool) -> Option<Seq<char>> {
    if was_shown {
        None
    } else {
        Some("log] Warning, a finished StatusHandle was missing from the dashboard."@)
    }
}

impl LogState {
    pub open spec fn wf(self) -> bool {
        self@.wf()
    }

    /// Whether the dashboard has the handle's operation, with the handle's
    /// status. There is nothing to show before the first status.
    pub open spec fn shows(self, handle: StatusHandle) -> bool {
        match handle@ {
            Some(live) => self@.tracks(live.id) && self@.status_of(live.id) == live.status,
            None => true,
        }
    }

    /// Log into memory, for unit testing.
    pub fn in_memory() -> (log: LogState)
        ensures
            log.wf(),
            log@ == LogStateView::empty(None),
    {
        LogState::for_member(Member::Null)
    }

    /// Where the dashboard has the status of the operation `id`.
    fn position(&self, id: usize) -> (position: Option<usize>)
        requires
            self.wf(),
        ensures
            match position {
                Some(k) => self@.tracks(id) && k < self.dashboard@.len() && k == self@.slot(id),
                None => !self@.tracks(id),
            },
    {
        let mut k: usize = 0;
        while k < self.dashboard.len()
            invariant
                self.wf(),
                k <= self.dashboard@.len(),
                forall|i: int| 0 <= i < k ==> self@.dashboard[i].id != id,
            decreases self.dashboard@.len() - k,
        {
            assert(self@.dashboard[k as int].id == self.dashboard@[k as int].id);
            if self.dashboard[k].id == id {
                return Some(k);
            }
            k = k + 1;
        }
        None
    }

    /// A number that no operation in progress has.
    fn unused_id(&self) -> (id: usize)
        requires
            self.wf(),
        ensures
            !self@.tracks(id),
    {
        let mut id: usize = 0;
        while self.position(id).is_some()
            invariant
                self.wf(),
                id <= self.dashboard@.len(),
                forall|i: usize| i < id ==> self@.tracks(i),
            decreases self.dashboard@.len() - id,
        {
            proof {
                assert(self@.tracks(id));
                few_ids(self@, (id + 1) as nat);
                assert(self@.dashboard.len() == self.dashboard.len());
            }
            id = id + 1;
        }
        id
    }
}

/// A dashboard that has the first `n` numbers has at least `n` statuses.
proof fn few_ids(log: LogStateView, n: nat)
    requires
        log.wf(),
        forall|i: usize| i < n ==> log.tracks(i),
        n <= usize::MAX + 1,
    ensures
        n <= log.dashboard.len(),
{
    let ids = Seq::new(log.dashboard.len(), |i: int| log.dashboard[i].id as int);
    assert forall|i: int| 0 <= i < n implies ids.contains(i) by {
        assert(log.tracks(i as usize));
        let k = log.slot(i as usize);
        assert(ids[k] == i);
    }
    let first = vstd::set_lib::set_int_range(0, n as int);
    vstd::set_lib::lemma_int_range(0, n as int);
    ids.lemma_cardinality_of_set();
    vstd::seq_lib::seq_to_set_is_finite(ids);
    assert(first.subset_of(ids.to_set()));
    vstd::set_lib::lemma_len_subset(first, ids.to_set());
}

impl LogState {
    /// A log for the member `log` of the configuration: the path of the log
    /// file, or null.
    pub fn for_member(log: Member) -> (state: LogState)
        requires
            !(log is Other),
        ensures
            state.wf(),
            state@ == LogStateView::empty(
                match log {
                    Member::Text(path) => Some(path@),
                    _ => None,
                },
            ),
    {
        let log_file = match log {
            Member::Text(path) => Some(path),
            _ => None,
        };
        let state = LogState {
            dashboard: Vec::new(),
            tail: VecDeque::with_capacity(TAIL_LENGTH),
            log_file,
        };
        assert(state@.dashboard =~= Seq::empty());
        assert(state@.tail =~= Seq::empty());
        state
    }

    /// Initialize according to the MM command-line configuration. The member
    /// `log` of the configuration is the path of the log file.
    pub fn mm(conf: &serde_json::Value) -> (log: LogState)
        requires
            usable_conf(*conf),
        ensures
            log.wf(),
            log@ == LogStateView::empty(conf_log_file(*conf)),
    {
        LogState::for_member(member(conf, "log"))
    }

    /// `mm` for a configuration that might be unusable: `None` where the
    /// member `log` is something else than a string.
    pub fn try_mm(conf: &serde_json::Value) -> (log: Option<LogState>)
        ensures
            match log {
                Some(log) => {
                    &&& usable_conf(*conf)
                    &&& log.wf()
                    &&& log@ == LogStateView::empty(conf_log_file(*conf))
                },
                None => !usable_conf(*conf),
            },
    {
        match member(conf, "log") {
            Member::Other => None,
            _ => Some(LogState::mm(conf)),
        }
    }

    /// The operation is considered "in progress" while the `StatusHandle` exists.
    ///
    /// When the `StatusHandle` is finished the operation is over (possibly with a failure)
    /// and the status summary is dumped into the log.
    pub fn status_handle(&self) -> (handle: StatusHandle)
        ensures
            handle@ is None,
    {
        StatusHandle { live: None }
    }

    /// Invoked when the `StatusHandle` gets the first status.
    fn started(&mut self, status: Status) -> (id: usize)
        requires
            old(self).wf(),
            status@.trail.len() == 0,
        ensures
            final(self).wf(),
            !old(self)@.tracks(id),
            final(self)@ == old(self)@.with_started(id, status@),
    {
        let id: usize = self.unused_id();
        let live = LiveStatus { id, status };
        self.dashboard.push(live);
        proof {
            assert(self@.dashboard =~= old(self)@.dashboard.push(live@));
            assert(self@.tail =~= old(self)@.tail);
            started_is_wf(old(self)@, id, status@);
        }
        id
    }

    /// Adds an entry to the recent ones.
    fn remember(&mut self, entry: LogEntry)
        requires
            old(self).wf(),
        ensures
            final(self).wf(),
            final(self)@ == old(self)@.with_entry(entry@),
    {
        if self.tail.len() == TAIL_LENGTH {
            let _ = self.tail.pop_front();
        }
        self.tail.push_back(entry);
        proof {
            assert(self@.tail =~= tail_with(old(self)@.tail, entry@));
            assert(self@.dashboard =~= old(self)@.dashboard);
        }
    }

    /// Invoked when the `StatusHandle` is finished: takes the status out of
    /// the dashboard, where it is there, moves it to the log and gives the
    /// text of the entry, on a clock that is `offset` seconds ahead of UTC.
    fn finished(&mut self, live: LiveStatus, offset: i32) -> (finished: Finished)
        requires
            old(self).wf(),
            crate::log::time::within_a_day(offset as int),
        ensures
            final(self).wf(),
            final(self)@ == old(self)@.with_finished(live.id, live.status@),
            finished.chunk@ == crate::log::entry::entry_text_at(
                LogEntryView::of_finished(live.status@),
                offset as int,
            ),
            crate::text::optional_text(finished.warning) == finish_warning(
                old(self)@.tracks(live.id),
            ),
    {
        let mut live = live;
        let ghost status = live.status@;
        let warning = match self.position(live.id) {
            Some(k) => {
                let _ = self.dashboard.swap_remove(k);
                assert(self@.dashboard =~= old(self)@.without(live.id).dashboard);
                assert(self@.tail =~= old(self)@.tail);
                proof {
                    without_is_wf(old(self)@, live.id);
                }
                None
            },
            None => Some(
                "log] Warning, a finished StatusHandle was missing from the dashboard.".to_owned(),
            ),
        };
        let mut entry = LogEntry::default();
        core::mem::swap(&mut entry.tags, &mut live.status.tags);
        core::mem::swap(&mut entry.line, &mut live.status.line);
        core::mem::swap(&mut entry.trail, &mut live.status.trail);
        assert(entry@ == LogEntryView::of_finished(status)) by {
            assert(entry@.trail =~= status.trail);
        }
        let mut chunk = String::new();
        entry.format_at(offset, &mut chunk);
        assert(chunk@ =~= crate::log::entry::entry_text_at(entry@, offset as int));
        self.remember(entry);
        Finished { chunk, warning }
    }
}

/// Whether the configuration names a log file, or none at all.
pub open spec fn usable_conf(conf: serde_json::Value) -> bool {
    crate::json::json_members(conf).contains_key("log"@) ==> crate::json::is_text(conf, "log"@)
}

/// The path of the log file in the configuration.
pub open spec fn conf_log_file(conf: serde_json::Value) -> Option<Seq<char>> {
    if crate::json::json_members(conf).contains_key("log"@) {
        crate::json::json_members(conf)["log"@]
    } else {
        None
    }
}

pub(crate) proof fn started_is_wf(log: LogStateView, id: usize, status: StatusView)
    requires
        log.wf(),
        !log.tracks(id),
        status.is_flat(),
    ensures
        log.with_started(id, status).wf(),
{
    let after = log.with_started(id, status);
    assert forall|i: int, j: int| 0 <= i < j < after.dashboard.len() implies after.dashboard[i].id
        != after.dashboard[j].id by {
        assert(after.dashboard[i].id == log.dashboard[i].id);
    }
}

pub(crate) proof fn without_is_wf(log: LogStateView, id: usize)
    requires
        log.wf(),
        log.tracks(id),
    ensures
        log.without(id).wf(),
{
}

/// Whether the statuses are those of the dashboard.
pub open spec fn shows_dashboard(statuses: Seq<LiveStatus>, log: LogStateView) -> bool {
    &&& statuses.len() == log.dashboard.len()
    &&& forall|i: int| 0 <= i < statuses.len() ==> (#[trigger] statuses[i])@ == log.dashboard[i]
}

/// Whether the entries are the recent ones of the log.
pub open spec fn shows_tail(entries: Seq<LogEntry>, log: LogStateView) -> bool {
    &&& entries.len() == log.tail.len()
    &&& forall|i: int| 0 <= i < entries.len() ==> (#[trigger] entries[i])@ == log.tail[i]
}

/// The entry that `log` makes at the time `time`.
pub open spec fn new_entry(
    time: u64,
    emotion: Seq<char>,
    tags: Seq<TagView>,
    line: Seq<char>,
) -> LogEntryView {
    LogEntryView { time, emotion, tags, line, trail: Seq::empty() }
}

/// What `log` does when the clock reads `time`.
pub open spec fn logged_at(
    before: LogStateView,
    after: LogStateView,
    time: u64,
    entry: LogEntryView,
    chunk: Option<Seq<char>>,
) -> bool {
    if crate::log::time::in_calendar(crate::log::time::signed_millis(time)) {
        &&& after == before.with_entry(entry)
        &&& chunk is Some
        &&& crate::log::entry::prints_as(entry, chunk->0)
    } else {
        after == before && chunk is None
    }
}

/// What is to be done with the text of a log entry.
pub enum ChunkAction {
    /// Write it to the file at this path.
    Write(String),
    /// Print it.
    Print,
    /// Print it, and this complaint to the standard error.
    PrintAndComplain(String),
    /// Nothing more.
    Done,
}

/// How an attempt to write to the log file ended.
pub enum WriteOutcome {
    Written,
    WriteFailed(String),
    LockFailed(String),
}

impl LogState {
    /// Read-only access to the status dashboard.
    pub fn with_dashboard<R, F: FnOnce(&[LiveStatus]) -> R>(&self, cb: F) -> (result: R)
        requires
            forall|statuses: &[LiveStatus]|
                shows_dashboard(statuses@, self@) ==> #[trigger] cb.requires((statuses,)),
        ensures
            exists|statuses: &[LiveStatus]|
                shows_dashboard(statuses@, self@) && #[trigger] cb.ensures((statuses,), result),
    {
        let statuses = self.dashboard.as_slice();
        assert(shows_dashboard(statuses@, self@));
        cb(statuses)
    }

    /// Read-only access to the recent log entries, the oldest first.
    pub fn with_tail<R, F: FnOnce(&VecDeque<LogEntry>) -> R>(&self, cb: F) -> (result: R)
        requires
            forall|tail: &VecDeque<LogEntry>|
                shows_tail(tail@, self@) ==> #[trigger] cb.requires((tail,)),
        ensures
            exists|tail: &VecDeque<LogEntry>|
                shows_tail(tail@, self@) && #[trigger] cb.ensures((tail,), result),
    {
        assert(shows_tail(self.tail@, self@));
        cb(&self.tail)
    }

    /// Creates the status.
    pub fn status(&mut self, tags: &[&dyn TagParam], line: &str) -> (handle: StatusHandle)
        requires
            old(self).wf(),
        ensures
            final(self).wf(),
            final(self).shows(handle),
            handle@ is Some,
            handle@->0.status == StatusView::fresh(crate::log::tag::tags_of(tags@), line@),
            !old(self)@.tracks(handle@->0.id),
            final(self)@ == old(self)@.with_started(handle@->0.id, handle@->0.status),
    {
        let mut status = self.status_handle();
        status.status(self, tags, line);
        status
    }

    /// `log` at the time `time`, on a clock that is `offset` seconds ahead of
    /// UTC.
    pub fn log_at(
        &mut self,
        time: u64,
        offset: i32,
        emotion: &str,
        tags: &[&dyn TagParam],
        line: &str,
    ) -> (chunk: String)
        requires
            old(self).wf(),
            crate::log::time::in_calendar(crate::log::time::signed_millis(time)),
            crate::log::time::within_a_day(offset as int),
        ensures
            final(self).wf(),
            final(self)@ == old(self)@.with_entry(
                new_entry(time, emotion@, crate::log::tag::tags_of(tags@), line@),
            ),
            chunk@ == crate::log::entry::entry_text_at(
                new_entry(time, emotion@, crate::log::tag::tags_of(tags@), line@),
                offset as int,
            ),
    {
        let entry = LogEntry {
            time,
            emotion: emotion.to_owned(),
            tags: make_tags(tags),
            line: line.to_owned(),
            trail: Vec::new(),
        };
        assert(entry@.trail =~= Seq::empty());
        let mut chunk = String::new();
        entry.format_at(offset, &mut chunk);
        assert(chunk@ =~= crate::log::entry::entry_text_at(entry@, offset as int));
        self.remember(entry);
        chunk
    }

    /// `log` where the clock reads `time` and is `offset` seconds ahead of
    /// UTC. `None` where the calendar does not have that time.
    pub fn log_reading(
        &mut self,
        time: u64,
        offset: i32,
        emotion: &str,
        tags: &[&dyn TagParam],
        line: &str,
    ) -> (chunk: Option<String>)
        requires
            old(self).wf(),
            crate::log::time::within_a_day(offset as int),
        ensures
            final(self).wf(),
            logged_at(
                old(self)@,
                final(self)@,
                time,
                new_entry(time, emotion@, crate::log::tag::tags_of(tags@), line@),
                crate::text::optional_text(chunk),
            ),
            chunk is Some ==> (chunk->0)@ == crate::log::entry::entry_text_at(
                new_entry(time, emotion@, crate::log::tag::tags_of(tags@), line@),
                offset as int,
            ),
    {
        if is_dated(time) {
            Some(self.log_at(time, offset, emotion, tags, line))
        } else {
            None
        }
    }

    /// Creates a new human-readable log entry and gives its text, which is to
    /// be written to the log. `None` where the clock reads a time that the
    /// calendar does not have.
    ///
    /// This is a bit different from the `println!` logging
    /// (https://www.reddit.com/r/rust/comments/9hpk65/which_tools_are_you_using_to_debug_rust_projects/e6dkciz/)
    /// as the information here is intended for the end users
    /// (and to be shared through the GUI),
    /// explaining what's going on with MM.
    ///
    /// * `emotion` - We might use a unicode smiley here
    ///   (https://unicode.org/emoji/charts/full-emoji-list.html)
    ///   to emotionally color the event (the good, the bad and the ugly)
    ///   or enrich it with infographics.
    /// * `tags` - Parsable part of the log,
    ///   representing subsystems and sharing concrete values.
    ///   GUI might use it to get some useful information from the log.
    /// * `line` - The human-readable description of the event,
    ///   we have no intention to make it parsable.
    pub fn log(&mut self, emotion: &str, tags: &[&dyn TagParam], line: &str) -> (chunk: Option<
        String,
    >)
        requires
            old(self).wf(),
        ensures
            final(self).wf(),
            exists|time: u64|
                #[trigger] logged_at(
                    old(self)@,
                    final(self)@,
                    time,
                    new_entry(time, emotion@, crate::log::tag::tags_of(tags@), line@),
                    crate::text::optional_text(chunk),
                ),
    {
        let time: u64 = now_ms();
        let offset: i32 = if is_dated(time) {
            local_offset(to_signed_millis(time))
        } else {
            0
        };
        self.log_reading(time, offset, emotion, tags, line)
    }

    /// Where the text of a log entry goes first.
    pub fn chunk2log(&self) -> (action: ChunkAction)
        ensures
            match self@.log_file {
                Some(path) => action matches ChunkAction::Write(to) && to@ == path,
                None => action is Print,
            },
    {
        match &self.log_file {
            Some(path) => ChunkAction::Write(path.clone()),
            None => ChunkAction::Print,
        }
    }

    /// What is left to do with the text of a log entry after an attempt to
    /// write it to the log file.
    pub fn chunk_written(outcome: WriteOutcome) -> (action: ChunkAction)
        ensures
            match outcome {
                WriteOutcome::Written => action is Done,
                WriteOutcome::WriteFailed(err) => {
                    &&& action matches ChunkAction::PrintAndComplain(complaint)
                    &&& complaint@ == "log] Can't write to the log: "@ + err@
                },
                WriteOutcome::LockFailed(err) => {
                    &&& action matches ChunkAction::PrintAndComplain(complaint)
                    &&& complaint@ == "log] Can't lock the log: "@ + err@
                },
            },
    {
        match outcome {
            WriteOutcome::Written => ChunkAction::Done,
            WriteOutcome::WriteFailed(err) => {
                let complaint = "log] Can't write to the log: ".to_owned();
                ChunkAction::PrintAndComplain(complaint.concat(err.as_str()))
            },
            WriteOutcome::LockFailed(err) => {
                let complaint = "log] Can't lock the log: ".to_owned();
                ChunkAction::PrintAndComplain(complaint.concat(err.as_str()))
            },
        }
    }
}

impl StatusHandle {
    /// Creates the status or rewrites it.
    pub fn status(&mut self, log: &mut LogState, tags: &[&dyn TagParam], line: &str)
        requires
            old(log).wf(),
        ensures
            final(log).wf(),
            match old(self)@ {
                Some(live) => {
                    &&& final(self)@ == Some(
                        LiveStatusView {
                            id: live.id,
                            status: live.status.rewritten(crate::log::tag::tags_of(tags@), line@),
                        },
                    )
                    &&& final(log)@ == old(log)@.with_rewritten(
                        live.id,
                        crate::log::tag::tags_of(tags@),
                        line@,
                    )
                },
                None => {
                    &&& final(self)@ matches Some(live)
                    &&& live.status == StatusView::fresh(crate::log::tag::tags_of(tags@), line@)
                    &&& !old(log)@.tracks(live.id)
                    &&& final(log)@ == old(log)@.with_started(live.id, live.status)
                },
            },
            old(log).shows(*old(self)) ==> final(log).shows(*final(self)),
    {
        let fresh = Status::fresh(tags, line);
        let shown = fresh.version();
        let ghost text = fresh@;
        assert(shown@ == text);
        if let Some(live) = &mut self.live {
            let id: usize = live.id;
            live.status.rewrite(fresh);
            if let Some(k) = log.position(id) {
                log.dashboard[k].status.rewrite(shown);
                proof {
                    let status = old(log)@.status_of(id).rewritten(text.tags, text.line);
                    assert(old(log)@.dashboard[k as int] == old(log).dashboard@[k as int]@);
                    assert(log@.dashboard =~= old(log)@.with_status(id, status).dashboard);
                    assert(log@.tail =~= old(log)@.tail);
                    changed_is_wf(old(log)@, id, status);
                }
            }
        } else {
            let id: usize = log.started(shown);
            self.live = Some(LiveStatus { id, status: fresh });
            proof {
                started_is_seen(old(log)@, id, text);
            }
        }
    }

    /// Adds new text into the status line.
    pub fn append(&mut self, log: &mut LogState, suffix: &str)
        requires
            old(log).wf(),
        ensures
            final(log).wf(),
            match old(self)@ {
                Some(live) => {
                    &&& final(self)@ == Some(
                        LiveStatusView { id: live.id, status: live.status.appended(suffix@) },
                    )
                    &&& final(log)@ == old(log)@.with_appended(live.id, suffix@)
                },
                None => final(self)@ is None && final(log)@ == old(log)@,
            },
            old(log).shows(*old(self)) ==> final(log).shows(*final(self)),
    {
        if let Some(live) = &mut self.live {
            let id: usize = live.id;
            let ghost before = live.status@;
            live.status.line.append(suffix);
            assert(live.status@.trail =~= before.trail);
            if let Some(k) = log.position(id) {
                log.dashboard[k].status.line.append(suffix);
                proof {
                    let status = old(log)@.status_of(id).appended(suffix@);
                    assert(old(log)@.dashboard[k as int] == old(log).dashboard@[k as int]@);
                    assert(log.dashboard@[k as int].status@.trail =~= status.trail);
                    assert(log@.dashboard =~= old(log)@.with_status(id, status).dashboard);
                    assert(log@.tail =~= old(log)@.tail);
                    changed_is_wf(old(log)@, id, status);
                }
            }
        }
    }

    /// `finish` on a clock that is `offset` seconds ahead of UTC.
    pub fn finish_at(self, log: &mut LogState, offset: i32) -> (finished: Option<Finished>)
        requires
            old(log).wf(),
            crate::log::time::within_a_day(offset as int),
        ensures
            final(log).wf(),
            match self@ {
                Some(live) => {
                    &&& final(log)@ == old(log)@.with_finished(live.id, live.status)
                    &&& finished matches Some(finished)
                    &&& finished.chunk@ == crate::log::entry::entry_text_at(
                        LogEntryView::of_finished(live.status),
                        offset as int,
                    )
                    &&& crate::text::optional_text(finished.warning) == finish_warning(
                        old(log)@.tracks(live.id),
                    )
                },
                None => final(log)@ == old(log)@ && finished is None,
            },
    {
        match self.live {
            Some(live) => Some(log.finished(live, offset)),
            None => None,
        }
    }

    /// Ends the operation. Where it had a status, takes that out of the
    /// dashboard, moves it to the log and gives the text of the log entry. A
    /// status that is missing from the dashboard is logged all the same, with
    /// a warning.
    pub fn finish(self, log: &mut LogState) -> (finished: Option<Finished>)
        requires
            old(log).wf(),
        ensures
            final(log).wf(),
            match self@ {
                Some(live) => {
                    &&& final(log)@ == old(log)@.with_finished(live.id, live.status)
                    &&& finished matches Some(finished)
                    &&& crate::log::entry::prints_as(
                        LogEntryView::of_finished(live.status),
                        finished.chunk@,
                    )
                    &&& crate::text::optional_text(finished.warning) == finish_warning(
                        old(log)@.tracks(live.id),
                    )
                },
                None => final(log)@ == old(log)@ && finished is None,
            },
    {
        let offset: i32 = local_offset(0);
        self.finish_at(log, offset)
    }
}

/// The dashboard has the first status of an operation that was just started.
proof fn started_is_seen(log: LogStateView, id: usize, status: StatusView)
    requires
        log.wf(),
        !log.tracks(id),
        status.is_flat(),
    ensures
        log.with_started(id, status).tracks(id),
        log.with_started(id, status).status_of(id) == status,
{
    let after = log.with_started(id, status);
    started_is_wf(log, id, status);
    assert(after.dashboard[log.dashboard.len() as int].id == id);
}

pub(crate) proof fn changed_is_wf(log: LogStateView, id: usize, status: StatusView)
    requires
        log.wf(),
        log.tracks(id),
        status.is_flat(),
    ensures
        log.with_status(id, status).wf(),
        log.with_status(id, status).tracks(id),
        log.with_status(id, status).status_of(id) == status,
{
    let after = log.with_status(id, status);
    assert(after.dashboard[log.slot(id)].id == id);
    assert forall|i: int, j: int| 0 <= i < j < after.dashboard.len() implies after.dashboard[i].id
        != after.dashboard[j].id by {
        assert(log.dashboard[i].id != log.dashboard[j].id);
    }
}

} // verus!
