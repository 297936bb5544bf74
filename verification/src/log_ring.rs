//! The log ring: most recent entry first, never more than a fixed number of
//! entries on display.

use crate::chat_log::{Log, LogView};
use crate::style::{lines_of_spans, Span, SpanView};
use std::collections::VecDeque;
use vstd::prelude::*;

verus! {

/// The largest number of entries that are on display at one time.
pub const CAPACITY: usize = 100;

/// The views of a sequence of entries.
pub open spec fn logs_view(logs: Seq<Log>) -> Seq<LogView> {
    Seq::new(logs.len(), |i: int| logs[i]@)
}

/// The entries that are on display under the given debug setting, in order.
pub open spec fn visible(entries: Seq<LogView>, show_debug: bool) -> Seq<LogView>
    decreases entries.len(),
{
    if entries.len() == 0 {
        Seq::empty()
    } else {
        let rest = visible(entries.drop_last(), show_debug);
        if entries.last().shown(show_debug) {
            rest.push(entries.last())
        } else {
            rest
        }
    }
}

/// The entries with as many taken from the old end as it takes for no more
/// than `CAPACITY` to be on display.
pub open spec fn trimmed(entries: Seq<LogView>, show_debug: bool) -> Seq<LogView>
    decreases entries.len(),
{
    if visible(entries, show_debug).len() <= CAPACITY || entries.len() == 0 {
        entries
    } else {
        trimmed(entries.drop_last(), show_debug)
    }
}

/// The ring as a mathematical value: its entries, newest first, and whether
/// debug entries are on display.
pub struct RingModel {
    pub entries: Seq<LogView>,
    pub show_debug: bool,
}

impl RingModel {
    /// No more than `CAPACITY` entries are on display.
    pub open spec fn wf(self) -> bool {
        visible(self.entries, self.show_debug).len() <= CAPACITY
    }

    /// The empty ring, debug output off.
    pub open spec fn empty() -> RingModel {
        RingModel { entries: Seq::empty(), show_debug: false }
    }

    /// `log` put in front, then the oldest entries evicted until no more
    /// than `CAPACITY` are on display.
    pub open spec fn push(self, log: LogView) -> RingModel {
        RingModel {
            entries: trimmed(seq![log] + self.entries, self.show_debug),
            show_debug: self.show_debug,
        }
    }

    /// The entries of `batch` pushed one after the other, the first one
    /// first.
    pub open spec fn push_all(self, batch: Seq<LogView>) -> RingModel
        decreases batch.len(),
    {
        if batch.len() == 0 {
            self
        } else {
            self.push(batch.first()).push_all(batch.drop_first())
        }
    }

    /// The ring emptied and filled again from `batch`.
    pub open spec fn replace(self, batch: Seq<LogView>) -> RingModel {
        (RingModel { entries: Seq::empty(), show_debug: self.show_debug }).push_all(batch)
    }

    /// The debug setting flipped; entries that come on display count, so the
    /// oldest are evicted until no more than `CAPACITY` are on display.
    pub open spec fn toggle_debug(self) -> RingModel {
        RingModel {
            entries: trimmed(self.entries, !self.show_debug),
            show_debug: !self.show_debug,
        }
    }

    /// The newest `max` entries on display, the oldest of them first.
    pub open spec fn shown_tail(self, max: int) -> Seq<LogView> {
        let all = visible(self.entries, self.show_debug);
        if max <= 0 {
            Seq::empty()
        } else if max >= all.len() {
            all.reverse()
        } else {
            all.take(max).reverse()
        }
    }
}

/// No more entries are on display than there are entries.
pub proof fn lemma_visible_len(entries: Seq<LogView>, show_debug: bool)
    ensures
        visible(entries, show_debug).len() <= entries.len(),
    decreases entries.len(),
{
    if entries.len() > 0 {
        lemma_visible_len(entries.drop_last(), show_debug);
    }
}

/// What `trimmed` leaves has no more than `CAPACITY` entries on display and
/// is the newest part of what it was given.
pub proof fn lemma_trimmed(entries: Seq<LogView>, show_debug: bool)
    ensures
        visible(trimmed(entries, show_debug), show_debug).len() <= CAPACITY,
        trimmed(entries, show_debug).len() <= entries.len(),
        trimmed(entries, show_debug) == entries.take(trimmed(entries, show_debug).len() as int),
        visible(entries, show_debug).len() <= CAPACITY ==> trimmed(entries, show_debug) == entries,
    decreases entries.len(),
{
    if visible(entries, show_debug).len() <= CAPACITY || entries.len() == 0 {
    } else {
        let rest = entries.drop_last();
        lemma_trimmed(rest, show_debug);
        let k = trimmed(rest, show_debug).len() as int;
    }
}

/// Pushing onto a ring leaves no more than `CAPACITY` entries on display,
/// whatever the ring held before.
pub proof fn law_push_keeps_capacity(ring: RingModel, log: LogView)
    ensures
        ring.push(log).wf(),
{
    lemma_trimmed(seq![log] + ring.entries, ring.show_debug);
}

/// Flipping the debug setting leaves no more than `CAPACITY` entries on
/// display.
pub proof fn law_toggle_keeps_capacity(ring: RingModel)
    ensures
        ring.toggle_debug().wf(),
{
    lemma_trimmed(ring.entries, !ring.show_debug);
}

/// Filling a ring from a batch leaves no more than `CAPACITY` entries on
/// display.
pub proof fn law_push_all_keeps_capacity(ring: RingModel, batch: Seq<LogView>)
    requires
        ring.wf(),
    ensures
        ring.push_all(batch).wf(),
        ring.push_all(batch).show_debug == ring.show_debug,
    decreases batch.len(),
{
    if batch.len() > 0 {
        law_push_keeps_capacity(ring, batch.first());
        law_push_all_keeps_capacity(ring.push(batch.first()), batch.drop_first());
    }
}

/// A ring in which `CAPACITY` entries are on display: pushing an entry that
/// is on display evicts the oldest entry on display, and of those on display
/// no other. Where that entry is the oldest of all, it is all that goes.
pub proof fn law_push_when_full_evicts_oldest(ring: RingModel, log: LogView)
    requires
        visible(ring.entries, ring.show_debug).len() == CAPACITY,
        log.shown(ring.show_debug),
    ensures
        visible(ring.push(log).entries, ring.show_debug) == seq![log] + visible(
            ring.entries,
            ring.show_debug,
        ).drop_last(),
        ring.entries.last().shown(ring.show_debug) ==> ring.push(log).entries == seq![log]
            + ring.entries.drop_last(),
{
    let show = ring.show_debug;
    let all = seq![log] + ring.entries;
    lemma_visible_len(ring.entries, show);
    lemma_visible_prepend(log, ring.entries, show);
    lemma_trimmed_one_over(all, show);
    assert((seq![log] + visible(ring.entries, show)).drop_last() =~= seq![log] + visible(
        ring.entries,
        show,
    ).drop_last());
    if ring.entries.last().shown(show) {
        assert(all.drop_last() =~= seq![log] + ring.entries.drop_last());
        lemma_visible_prepend(log, ring.entries.drop_last(), show);
        lemma_trimmed(all.drop_last(), show);
    }
}

/// Where one entry more than `CAPACITY` is on display, trimming takes the
/// oldest entry on display away and leaves the others on display.
pub proof fn lemma_trimmed_one_over(entries: Seq<LogView>, show_debug: bool)
    requires
        visible(entries, show_debug).len() == CAPACITY + 1,
    ensures
        visible(trimmed(entries, show_debug), show_debug) == visible(
            entries,
            show_debug,
        ).drop_last(),
    decreases entries.len(),
{
    let rest = entries.drop_last();
    if entries.last().shown(show_debug) {
        assert(visible(rest, show_debug) =~= visible(entries, show_debug).drop_last());
        lemma_trimmed(rest, show_debug);
    } else {
        lemma_trimmed_one_over(rest, show_debug);
    }
}

/// Putting an entry in front adds it to what is on display, in front, if it
/// is on display itself.
pub proof fn lemma_visible_prepend(log: LogView, entries: Seq<LogView>, show_debug: bool)
    ensures
        visible(seq![log] + entries, show_debug) == if log.shown(show_debug) {
            seq![log] + visible(entries, show_debug)
        } else {
            visible(entries, show_debug)
        },
    decreases entries.len(),
{
    let all = seq![log] + entries;
    if entries.len() == 0 {
        assert(visible(all.drop_last(), show_debug) =~= Seq::<LogView>::empty());
    } else {
        lemma_visible_prepend(log, entries.drop_last(), show_debug);
        assert(all.drop_last() =~= seq![log] + entries.drop_last());
        let rest = visible(entries.drop_last(), show_debug);
        if entries.last().shown(show_debug) {
        }
    }
}

/// What is on display among the newest entries is the newest part of what
/// is on display in all.
pub proof fn lemma_visible_prefix(entries: Seq<LogView>, show_debug: bool, n: int)
    requires
        0 <= n <= entries.len(),
    ensures
        visible(entries.take(n), show_debug).len() <= visible(entries, show_debug).len(),
        visible(entries.take(n), show_debug) == visible(entries, show_debug).take(
            visible(entries.take(n), show_debug).len() as int,
        ),
    decreases entries.len(),
{
    let all = visible(entries, show_debug);
    if n == entries.len() {
        assert(entries.take(n) =~= entries);
    } else {
        let rest = entries.drop_last();
        assert(rest.take(n) =~= entries.take(n));
        lemma_visible_prefix(rest, show_debug, n);
        let k = visible(entries.take(n), show_debug).len() as int;
    }
}

/// Each entry as the pieces it is drawn with.
pub open spec fn rendered_all(entries: Seq<LogView>, time_fmt: Seq<char>) -> Seq<Seq<SpanView>> {
    Seq::new(entries.len(), |i: int| entries[i].rendered(time_fmt))
}

/// The log ring.
#[derive(Debug)]
pub struct LogRing {
    entries: VecDeque<Log>,
    show_debug: bool,
}

impl View for LogRing {
    type V = RingModel;

    closed spec fn view(&self) -> RingModel {
        RingModel { entries: logs_view(self.entries@), show_debug: self.show_debug }
    }
}

/// Counts the entries that are on display.
fn count_visible(entries: &VecDeque<Log>, show_debug: bool) -> (out: usize)
    ensures
        out == visible(logs_view(entries@), show_debug).len(),
{
    let ghost all = logs_view(entries@);
    let mut count: usize = 0;
    let mut i: usize = 0;
    while i < entries.len()
        invariant
            i <= entries@.len(),
            all == logs_view(entries@),
            count <= i,
            count == visible(all.take(i as int), show_debug).len(),
        decreases entries@.len() - i,
    {
        assert(all.take(i + 1).drop_last() =~= all.take(i as int));
        if entries[i].should_render(show_debug) {
            count = count + 1;
        }
        i = i + 1;
    }
    assert(all.take(i as int) =~= all);
    count
}

/// Evicts the oldest entries until no more than `CAPACITY` are on display.
fn trim(entries: &mut VecDeque<Log>, show_debug: bool)
    ensures
        logs_view(final(entries)@) == trimmed(logs_view(old(entries)@), show_debug),
        visible(logs_view(final(entries)@), show_debug).len() <= CAPACITY,
{
    let mut n = count_visible(entries, show_debug);
    while n > CAPACITY
        invariant
            n == visible(logs_view(entries@), show_debug).len(),
            trimmed(logs_view(entries@), show_debug) == trimmed(
                logs_view(old(entries)@),
                show_debug,
            ),
        decreases entries@.len(),
    {
        let ghost before = logs_view(entries@);
        proof {
            lemma_visible_len(before, show_debug);
        }
        match entries.pop_back() {
            Some(log) => {
                assert(logs_view(entries@) =~= before.drop_last());
                if log.should_render(show_debug) {
                    n = n - 1;
                }
            },
            None => {},
        }
    }
}

impl LogRing {
    /// The invariant of the type: no more than `CAPACITY` entries are on
    /// display.
    #[verifier::type_invariant]
    pub closed spec fn inv(self) -> bool {
        self@.wf()
    }

    /// What the invariant of the type says of the model.
    pub proof fn lemma_inv(self)
        requires
            self.inv(),
        ensures
            self@.wf(),
    {
    }

    /// An empty ring with debug output off.
    pub fn new() -> (out: LogRing)
        ensures
            out@ == RingModel::empty(),
    {
        let out = LogRing { entries: VecDeque::new(), show_debug: false };
        assert(out@.entries =~= Seq::<LogView>::empty());
        out
    }

    /// Takes the ring apart and leaves an empty one in its place.
    fn take(&mut self) -> (out: (VecDeque<Log>, bool))
        ensures
            out.0 == old(self).entries,
            out.1 == old(self).show_debug,
    {
        let mut parted = LogRing::new();
        std::mem::swap(self, &mut parted);
        (parted.entries, parted.show_debug)
    }

    /// Whether debug entries are on display.
    pub fn show_debug(&self) -> (out: bool)
        ensures
            out == self@.show_debug,
    {
        self.show_debug
    }

    /// The entries of the ring, newest first, those not on display too.
    pub fn entries(&self) -> (out: &VecDeque<Log>)
        ensures
            logs_view(out@) == self@.entries,
    {
        &self.entries
    }

    /// The number of entries on display; never more than `CAPACITY`.
    pub fn log_count(&self) -> (out: usize)
        ensures
            out == visible(self@.entries, self@.show_debug).len(),
            out <= CAPACITY,
    {
        proof {
            use_type_invariant(self);
        }
        count_visible(&self.entries, self.show_debug)
    }

    /// Puts `log` in front and evicts the oldest entries until no more than
    /// `CAPACITY` are on display.
    pub fn push_log(&mut self, log: Log)
        ensures
            final(self)@ == old(self)@.push(log@),
            final(self)@.wf(),
    {
        let (mut entries, show_debug) = self.take();
        let ghost before = logs_view(entries@);
        entries.push_front(log);
        assert(logs_view(entries@) =~= seq![log@] + before);
        trim(&mut entries, show_debug);
        *self = LogRing { entries, show_debug };
    }

    /// Pushes the entries of `batch`, the first one first, so that the last
    /// one ends up in front.
    pub fn push_logs(&mut self, batch: Vec<Log>)
        ensures
            final(self)@ == old(self)@.push_all(logs_view(batch@)),
            final(self)@.wf(),
    {
        let ghost all = logs_view(batch@);
        let ghost start = self@;
        let mut i: usize = 0;
        assert(all.skip(0) =~= all);
        while i < batch.len()
            invariant
                i <= batch@.len(),
                all == logs_view(batch@),
                self@.push_all(all.skip(i as int)) == start.push_all(all),
            decreases batch@.len() - i,
        {
            assert(all.skip(i as int).drop_first() =~= all.skip(i + 1));
            self.push_log(batch[i].clone());
            i = i + 1;
        }
        proof {
            use_type_invariant(&*self);
        }
    }

    /// Empties the ring and pushes the entries of `batch`, the first one
    /// first, so that the last one ends up in front.
    pub fn replace_logs(&mut self, batch: Vec<Log>)
        ensures
            final(self)@ == old(self)@.replace(logs_view(batch@)),
            final(self)@.wf(),
    {
        let (_, show_debug) = self.take();
        *self = LogRing { entries: VecDeque::new(), show_debug };
        assert(self@.entries =~= Seq::<LogView>::empty());
        self.push_logs(batch);
    }

    /// Flips whether debug entries are on display. Entries that come on
    /// display count: the oldest are evicted until no more than `CAPACITY`
    /// are on display.
    pub fn toggle_debug(&mut self)
        ensures
            final(self)@ == old(self)@.toggle_debug(),
            final(self)@.wf(),
    {
        let (mut entries, show_debug) = self.take();
        trim(&mut entries, !show_debug);
        *self = LogRing { entries, show_debug: !show_debug };
    }

    /// The newest `max_messages` entries on display, the oldest of them
    /// first, each cut into the pieces that are drawn.
    pub fn render_logs(&self, max_messages: usize, time_fmt: &str) -> (out: Vec<Vec<Span>>)
        ensures
            lines_of_spans(out@) == rendered_all(
                self@.shown_tail(max_messages as int),
                time_fmt@,
            ),
    {
        let ghost all = logs_view(self.entries@);
        let ghost show = self.show_debug;
        let mut out: Vec<Vec<Span>> = Vec::new();
        let mut i: usize = 0;
        while i < self.entries.len() && out.len() < max_messages
            invariant
                i <= self.entries@.len(),
                all == logs_view(self.entries@),
                show == self.show_debug,
                out@.len() <= max_messages,
                out@.len() <= i,
                lines_of_spans(out@) == rendered_all(
                    visible(all.take(i as int), show).reverse(),
                    time_fmt@,
                ),
            decreases self.entries@.len() - i,
        {
            assert(all.take(i + 1).drop_last() =~= all.take(i as int));
            let ghost lines = lines_of_spans(out@);
            if self.entries[i].should_render(self.show_debug) {
                let line = self.entries[i].render(time_fmt);
                out.insert(0, line);
                assert(lines_of_spans(out@) =~= seq![all[i as int].rendered(time_fmt@)] + lines);
            }
            i = i + 1;
        }
        proof {
            lemma_visible_prefix(all, show, i as int);
            if i == self.entries@.len() {
                assert(all.take(i as int) =~= all);
            }
        }
        out
    }
}

} // verus!
