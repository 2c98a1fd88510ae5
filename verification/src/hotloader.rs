//! The queue of file changes between the watcher and the frame loop.
//!
//! Whoever holds the operating system's watch delivers each change it reports,
//! in the order reported. The frame loop polls: a poll never waits, takes at
//! most one change off the queue, and lets only writes through.

use std::collections::VecDeque;
use vstd::prelude::*;

verus! {

/// The bit that marks a write in the operation set of a change.
pub const WRITE: u32 = 0x10;

/// Whether an operation set holds a write.
pub open spec fn is_write(op: u32) -> bool {
    op & WRITE == WRITE
}

/// A change as the watcher reported it.
#[derive(Clone, Debug, PartialEq, Eq)]
pub struct WatchEvent {
    /// The path that changed, where the watcher knew it.
    pub path: Option<String>,
    /// The set of operations seen on the path, as bits; `None` where the
    /// watcher could not tell.
    pub op: Option<u32>,
}

/// What a [`WatchEvent`] means.
pub struct WatchEventView {
    pub path: Option<Seq<char>>,
    pub op: Option<u32>,
}

impl View for WatchEvent {
    type V = WatchEventView;

    open spec fn view(&self) -> WatchEventView {
        WatchEventView {
            path: match self.path {
                Some(path) => Some(path@),
                None => None,
            },
            op: self.op,
        }
    }
}

impl WatchEventView {
    /// The path, if the change is a write to a known path; otherwise the
    /// change is of no interest.
    pub open spec fn written_path(self) -> Option<Seq<char>> {
        match (self.path, self.op) {
            (Some(path), Some(op)) => if is_write(op) {
                Some(path)
            } else {
                None
            },
            _ => None,
        }
    }
}

/// The paths that polling brings up from a queue of changes: those of the
/// writes, in the order of the queue.
pub open spec fn surfacing(pending: Seq<WatchEventView>) -> Seq<Seq<char>>
    decreases pending.len(),
{
    if pending.len() == 0 {
        Seq::empty()
    } else {
        match pending.first().written_path() {
            Some(path) => seq![path] + surfacing(pending.drop_first()),
            None => surfacing(pending.drop_first()),
        }
    }
}

/// The watch on a directory as a mathematical value.
pub struct HotloaderView {
    /// The directory that is watched, with everything below it.
    pub path: Seq<char>,
    /// The changes that were delivered and not polled yet, oldest first.
    pub pending: Seq<WatchEventView>,
}

impl HotloaderView {
    /// What one poll returns, and what is left after it.
    pub open spec fn poll(self) -> (HotloaderView, Option<Seq<char>>) {
        if self.pending.len() == 0 {
            (self, None)
        } else {
            (
                HotloaderView { pending: self.pending.drop_first(), ..self },
                self.pending.first().written_path(),
            )
        }
    }

    /// The paths that `polls` polls in a row return, in order.
    pub open spec fn polled(self, polls: nat) -> Seq<Seq<char>>
        decreases polls,
    {
        if polls == 0 {
            Seq::empty()
        } else {
            match self.poll().1 {
                Some(path) => seq![path] + self.poll().0.polled((polls - 1) as nat),
                None => self.poll().0.polled((polls - 1) as nat),
            }
        }
    }
}

/// The consumer's end of the watch on a directory.
#[derive(Debug)]
pub struct Hotloader {
    path: String,
    messages: VecDeque<WatchEvent>,
}

impl View for Hotloader {
    type V = HotloaderView;

    closed spec fn view(&self) -> HotloaderView {
        HotloaderView {
            path: self.path@,
            pending: self.messages@.map_values(|event: WatchEvent| event@),
        }
    }
}

/// Calls `Op::contains` of notify, with `op::WRITE`, on the operation set made
/// of `op` by `Op::from_bits_truncate`. The set holds `WRITE` exactly if the
/// write bit is set in `op`: the other bits play no part.
#[verifier::external_body]
fn contains_write(op: u32) -> (found: bool)
    ensures
        found == is_write(op),
{
    notify::op::Op::from_bits_truncate(op).contains(notify::op::WRITE)
}

impl WatchEvent {
    /// The path of a write; `None` for every other change.
    pub fn written_path(self) -> (path: Option<String>)
        ensures
            match path {
                Some(p) => self@.written_path() == Some(p@),
                None => self@.written_path().is_none(),
            },
    {
        match (self.path, self.op) {
            (Some(path), Some(op)) => if contains_write(op) {
                Some(path)
            } else {
                None
            },
            _ => None,
        }
    }
}

impl Hotloader {
    /// The queue for the watch on `path`, with nothing delivered yet.
    pub fn watch(path: &str) -> (hotloader: Hotloader)
        ensures
            hotloader@ == (HotloaderView { path: path@, pending: Seq::empty() }),
    {
        let hotloader = Hotloader { path: path.to_owned(), messages: VecDeque::new() };
        assert(hotloader@.pending =~= Seq::empty());
        hotloader
    }

    /// The directory that is watched.
    pub fn path(&self) -> (path: &str)
        ensures
            path@ == self@.path,
    {
        self.path.as_str()
    }

    /// Takes in a change that the watcher reported.
    pub fn deliver(&mut self, event: WatchEvent)
        ensures
            final(self)@ == (HotloaderView {
                pending: old(self)@.pending.push(event@),
                ..old(self)@
            }),
    {
        self.messages.push_back(event);
        assert(self@.pending =~= old(self)@.pending.push(event@));
    }

    /// Polls for a change, without waiting.
    ///
    /// Returns nothing if nothing is pending. Otherwise the oldest pending
    /// change leaves the queue, and its path is returned if it is a write.
    pub fn has_event(&mut self) -> (path: Option<String>)
        ensures
            final(self)@ == old(self)@.poll().0,
            match path {
                Some(p) => old(self)@.poll().1 == Some(p@),
                None => old(self)@.poll().1.is_none(),
            },
    {
        match self.messages.pop_front() {
            Some(event) => {
                assert(self@.pending =~= old(self)@.pending.drop_first());
                event.written_path()
            },
            None => None,
        }
    }
}

/// Polling a queue dry brings up the path of every write in it, once each and
/// in the order of delivery, and nothing else: a change that is no write, or
/// whose path is unknown, never comes up.
pub proof fn lemma_polls_surface_writes(hotloader: HotloaderView)
    ensures
        hotloader.polled(hotloader.pending.len()) == surfacing(hotloader.pending),
    decreases hotloader.pending.len(),
{
    if hotloader.pending.len() > 0 {
        lemma_polls_surface_writes(hotloader.poll().0);
    }
}

/// Polling an empty queue returns nothing, however often it is done, and
/// leaves the queue empty.
pub proof fn lemma_idle_poll(hotloader: HotloaderView, polls: nat)
    requires
        hotloader.pending.len() == 0,
    ensures
        hotloader.poll() == (hotloader, None::<Seq<char>>),
        hotloader.polled(polls) == Seq::<Seq<char>>::empty(),
    decreases polls,
{
    if polls > 0 {
        lemma_idle_poll(hotloader, (polls - 1) as nat);
    }
}

} // verus!
