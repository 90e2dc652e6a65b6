//! The writer: the single consumer of the reading queue.
//!
//! The writer owns the store. It receives queue entries one at a time and,
//! while it runs, appends every reading it receives as one record. The
//! shutdown marker, a failed append or a closed queue stop it for good.
use vstd::prelude::*;

verus! {

/// One entry of the queue between the sampler and the writer.
///
/// The shutdown marker is a variant of its own, so no reading can ever be
/// mistaken for it.
#[derive(Debug, Clone, Copy, PartialEq, Eq)]
pub enum QueueItem<R> {
    /// A reading to append to the store.
    Reading(R),
    /// No further readings will arrive: the writer may exit.
    Shutdown,
}

/// Why a writer stopped.
#[derive(Debug, Clone, Copy, PartialEq, Eq, Structural)]
pub enum WriterStop {
    /// It received the shutdown marker.
    Drained,
    /// An append failed; the reading and all later ones are lost.
    StoreFailed,
    /// The queue was closed without a shutdown marker.
    QueueClosed,
}

/// The states of a writer. There is no way back from `Stopped`.
#[derive(Debug, Clone, Copy, PartialEq, Eq, Structural)]
pub enum WriterPhase {
    /// Waiting for the next queue entry.
    Running,
    /// Terminal: no further appends.
    Stopped(WriterStop),
}

/// What one received queue entry does to a writer in `phase`: its next
/// phase, and the reading it must append, if any.
pub open spec fn step<R>(phase: WriterPhase, item: QueueItem<R>) -> (WriterPhase, Option<R>) {
    match phase {
        WriterPhase::Running => match item {
            QueueItem::Reading(r) => (WriterPhase::Running, Some(r)),
            QueueItem::Shutdown => (WriterPhase::Stopped(WriterStop::Drained), None),
        },
        WriterPhase::Stopped(why) => (WriterPhase::Stopped(why), None),
    }
}

/// The readings that a writer in `phase` appends, in order, when it receives
/// `items` in order and every append succeeds.
pub open spec fn appends<R>(phase: WriterPhase, items: Seq<QueueItem<R>>) -> Seq<R>
    decreases items.len(),
{
    if items.len() == 0 {
        Seq::empty()
    } else {
        let (next, out) = step(phase, items[0]);
        let rest = appends(next, items.drop_first());
        match out {
            Some(r) => seq![r] + rest,
            None => rest,
        }
    }
}

/// The consumer side of the reading queue.
pub struct Writer {
    phase: WriterPhase,
}

impl Writer {
    /// The writer's current phase.
    pub closed spec fn phase(&self) -> WriterPhase {
        self.phase
    }

    /// A writer whose store is open and ready: it runs.
    pub fn new() -> (w: Writer)
        ensures
            w.phase() == WriterPhase::Running,
    {
        Writer { phase: WriterPhase::Running }
    }

    /// Whether the writer still waits for queue entries.
    pub fn is_running(&self) -> (r: bool)
        ensures
            r == (self.phase() == WriterPhase::Running),
    {
        match self.phase {
            WriterPhase::Running => true,
            WriterPhase::Stopped(_) => false,
        }
    }

    /// Why the writer stopped, or `None` while it runs.
    pub fn stop_reason(&self) -> (r: Option<WriterStop>)
        ensures
            r == (match self.phase() {
                WriterPhase::Running => None,
                WriterPhase::Stopped(why) => Some(why),
            }),
    {
        match self.phase {
            WriterPhase::Running => None,
            WriterPhase::Stopped(why) => Some(why),
        }
    }

    /// Takes one received queue entry. Returns the reading to append now, if
    /// any. A reading is appended only while the writer runs; the shutdown
    /// marker stops it.
    pub fn accept<R>(&mut self, item: QueueItem<R>) -> (r: Option<R>)
        ensures
            (final(self).phase(), r) == step(old(self).phase(), item),
    {
        match self.phase {
            WriterPhase::Running => match item {
                QueueItem::Reading(r) => Some(r),
                QueueItem::Shutdown => {
                    self.phase = WriterPhase::Stopped(WriterStop::Drained);
                    None
                },
            },
            WriterPhase::Stopped(_) => None,
        }
    }

    /// Reports that the last append failed: a running writer stops, with no
    /// retry.
    pub fn append_failed(&mut self)
        ensures
            final(self).phase() == (match old(self).phase() {
                WriterPhase::Running => WriterPhase::Stopped(WriterStop::StoreFailed),
                WriterPhase::Stopped(why) => WriterPhase::Stopped(why),
            }),
    {
        if let WriterPhase::Running = self.phase {
            self.phase = WriterPhase::Stopped(WriterStop::StoreFailed);
        }
    }

    /// Reports that the queue was closed: a running writer stops.
    pub fn queue_closed(&mut self)
        ensures
            final(self).phase() == (match old(self).phase() {
                WriterPhase::Running => WriterPhase::Stopped(WriterStop::QueueClosed),
                WriterPhase::Stopped(why) => WriterPhase::Stopped(why),
            }),
    {
        if let WriterPhase::Running = self.phase {
            self.phase = WriterPhase::Stopped(WriterStop::QueueClosed);
        }
    }
}

/// A stopped writer appends nothing more, whatever still arrives on the
/// queue.
pub proof fn lemma_stopped_writer_appends_nothing<R>(why: WriterStop, items: Seq<QueueItem<R>>)
    ensures
        appends(WriterPhase::Stopped(why), items) == Seq::<R>::empty(),
    decreases items.len(),
{
    if items.len() > 0 {
        lemma_stopped_writer_appends_nothing(why, items.drop_first());
    }
}

/// Readings enqueued in order and followed by the shutdown marker are
/// appended exactly once each, in the same order, and nothing enqueued after
/// the marker is appended.
pub proof fn lemma_appends_in_order<R>(readings: Seq<R>, later: Seq<QueueItem<R>>)
    ensures
        appends(
            WriterPhase::Running,
            readings.map_values(|r: R| QueueItem::Reading(r)) + seq![QueueItem::Shutdown] + later,
        ) == readings,
    decreases readings.len(),
{
    let items = readings.map_values(|r: R| QueueItem::Reading(r)) + seq![QueueItem::Shutdown]
        + later;
    if readings.len() == 0 {
        assert(items == seq![QueueItem::<R>::Shutdown] + later);
        assert(items.drop_first() == later);
        lemma_stopped_writer_appends_nothing(WriterStop::Drained, later);
    } else {
        let tail = readings.drop_first();
        lemma_appends_in_order(tail, later);
        assert(items.drop_first() == tail.map_values(|r: R| QueueItem::Reading(r)) + seq![
            QueueItem::Shutdown,
        ] + later);
        assert(seq![readings[0]] + tail == readings);
    }
}

} // verus!
