//! Copying from one stream to another by way of a pipe, without the bytes passing through
//! user memory.
//!
//! [`ZeroCopy`] decides what is moved next; whoever owns the descriptors moves it and hands
//! back how that went.

use vstd::prelude::*;

use crate::error::ErrorKind;

verus! {

/// How many bytes at most are moved into the pipe at a time, unless the caller says.
pub const DEFAULT_LEN: usize = 4096;

/// What the owner of the descriptors is to do next.
#[derive(Debug, Copy, Clone, PartialEq, Eq, Structural)]
pub enum Action {
    /// Wait until the source is readable and the pipe is writable, then move up to `len`
    /// bytes from the source into the pipe.
    Fill { len: usize },
    /// Wait until the pipe is readable and the sink is writable, then move up to `len`
    /// bytes from the pipe to the sink.
    Drain { len: usize },
    /// Stop: all of the source, `total` bytes, has gone to the sink.
    Finish { total: usize },
    /// Stop, and report the failure that was handed in last.
    Abort,
}

/// How an action went.
#[derive(Debug, Copy, Clone, PartialEq, Eq, Structural)]
pub enum Event {
    /// That many bytes were moved.
    Moved { n: usize },
    /// Moving failed.
    Failed { kind: ErrorKind },
    /// Waiting failed.
    WaitFailed,
}

/// A copy under way.
#[derive(Debug, Copy, Clone)]
pub struct ZeroCopy {
    len: usize,
    total: usize,
    pending: usize,
}

/// A copy under way: how much is moved into the pipe at a time, how much has come out of
/// the source, and how much of that is still in the pipe.
pub struct Progress {
    pub len: usize,
    pub total: usize,
    pub pending: usize,
}

/// The progress of a copy that has yet to start.
pub open spec fn started(len: Option<usize>) -> Progress {
    Progress {
        len: match len {
            Some(len) => len,
            None => DEFAULT_LEN,
        },
        total: 0,
        pending: 0,
    }
}

/// What to do next: the pipe is drained before it is filled again.
pub open spec fn next_action(p: Progress) -> Action {
    if p.pending > 0 {
        Action::Drain { len: p.pending }
    } else {
        Action::Fill { len: p.len }
    }
}

/// Whether an event can come about. No more leaves the pipe than is in it, and what has
/// come out of the source can be counted.
pub open spec fn possible(p: Progress, event: Event) -> bool {
    match event {
        Event::Moved { n } => if p.pending > 0 {
            n <= p.pending
        } else {
            p.total + n <= usize::MAX
        },
        _ => true,
    }
}

/// The progress after an event.
pub open spec fn progress_after(p: Progress, event: Event) -> Progress {
    match event {
        Event::Moved { n } => if p.pending > 0 {
            Progress { pending: (p.pending - n) as usize, ..p }
        } else {
            Progress { total: (p.total + n) as usize, pending: n, ..p }
        },
        _ => p,
    }
}

/// The action after an event. The source is at its end when nothing comes out of it. A
/// move that would have had to wait is tried again; any other failure ends the copy.
pub open spec fn action_after(p: Progress, event: Event) -> Action {
    match event {
        Event::Moved { n } => if p.pending == 0 && n == 0 {
            Action::Finish { total: p.total }
        } else {
            next_action(progress_after(p, event))
        },
        Event::Failed { kind: ErrorKind::WouldBlock } => next_action(p),
        _ => Action::Abort,
    }
}

impl View for ZeroCopy {
    type V = Progress;

    closed spec fn view(&self) -> Progress {
        Progress { len: self.len, total: self.total, pending: self.pending }
    }
}

impl ZeroCopy {
    /// A copy that moves up to `len` bytes at a time, or [`DEFAULT_LEN`] if none is given.
    pub fn new(len: Option<usize>) -> (copy: Self)
        ensures
            copy@ == started(len),
    {
        let len: usize = match len {
            Some(len) => len,
            None => DEFAULT_LEN,
        };
        ZeroCopy { len, total: 0, pending: 0 }
    }

    /// What to do first, or next if nothing has happened since the last action.
    pub fn action(&self) -> (action: Action)
        ensures
            action == next_action(self@),
    {
        if self.pending > 0 {
            Action::Drain { len: self.pending }
        } else {
            Action::Fill { len: self.len }
        }
    }

    /// Whether [`ZeroCopy::step`] takes the event.
    pub fn accepts(&self, event: Event) -> (b: bool)
        ensures
            b == possible(self@, event),
    {
        match event {
            Event::Moved { n } => if self.pending > 0 {
                n <= self.pending
            } else {
                n <= usize::MAX - self.total
            },
            _ => true,
        }
    }

    /// Takes note of how the last action went and says what to do next.
    pub fn step(&mut self, event: Event) -> (action: Action)
        requires
            possible(old(self)@, event),
        ensures
            final(self)@ == progress_after(old(self)@, event),
            action == action_after(old(self)@, event),
    {
        match event {
            Event::Moved { n } => {
                if self.pending > 0 {
                    self.pending = self.pending - n;
                } else if n == 0 {
                    return Action::Finish { total: self.total };
                } else {
                    self.total = self.total + n;
                    self.pending = n;
                }
                self.action()
            },
            Event::Failed { kind } => if kind == ErrorKind::WouldBlock {
                self.action()
            } else {
                Action::Abort
            },
            Event::WaitFailed => Action::Abort,
        }
    }
}

/// Where the bytes of the source have got to.
pub struct Channel {
    pub progress: Progress,
    /// What is in the pipe, in the order in which it went in.
    pub pipe: Seq<u8>,
    /// What has gone to the sink, in that order.
    pub sink: Seq<u8>,
}

/// A channel with nothing in it.
pub open spec fn opened(len: Option<usize>) -> Channel {
    Channel { progress: started(len), pipe: Seq::empty(), sink: Seq::empty() }
}

/// Where the bytes are after an event. A pipe gives its bytes out in the order in which
/// it took them in.
pub open spec fn moved(source: Seq<u8>, c: Channel, event: Event) -> Channel {
    let p = c.progress;
    let next = progress_after(p, event);
    match event {
        Event::Moved { n } => if p.pending > 0 {
            Channel {
                progress: next,
                pipe: c.pipe.skip(n as int),
                sink: c.sink + c.pipe.take(n as int),
            }
        } else {
            Channel {
                progress: next,
                pipe: c.pipe + source.subrange(p.total as int, p.total + n),
                sink: c.sink,
            }
        },
        _ => c,
    }
}

/// Where the bytes are after the events one by one.
pub open spec fn after_all(source: Seq<u8>, len: Option<usize>, events: Seq<Event>) -> Channel
    decreases events.len(),
{
    if events.len() == 0 {
        opened(len)
    } else {
        moved(source, after_all(source, len, events.drop_last()), events.last())
    }
}

/// Whether the events can come about one by one with that source: each is possible, the
/// source gives no more than it has and no more than it was asked for, and if it was asked for
/// anything, nothing comes out of it only at its end.
pub open spec fn possible_all(source: Seq<u8>, len: Option<usize>, events: Seq<Event>) -> bool
    decreases events.len(),
{
    events.len() == 0 || {
        let p = after_all(source, len, events.drop_last()).progress;
        &&& possible_all(source, len, events.drop_last())
        &&& possible(p, events.last())
        &&& next_action(p) matches Action::Fill { len: asked } ==> (events.last() matches Event::Moved {
            n,
        } ==> {
            &&& n <= asked
            &&& p.total + n <= source.len()
            &&& n == 0 && asked > 0 ==> p.total == source.len()
        })
    }
}

/// At every moment of a copy what has gone to the sink, followed by what is in the pipe, is
/// what has come out of the source: nothing is lost, added or put out of order. The
/// counters tell how much each of them is, and what is in the pipe is never more than is
/// moved into it at a time.
pub proof fn nothing_is_lost(source: Seq<u8>, len: Option<usize>, events: Seq<Event>)
    requires
        possible_all(source, len, events),
    ensures
        ({
            let c = after_all(source, len, events);
            &&& c.progress.total <= source.len()
            &&& c.sink + c.pipe == source.take(c.progress.total as int)
            &&& c.pipe.len() == c.progress.pending
            &&& c.progress.pending <= c.progress.len
            &&& c.progress.len == started(len).len
        }),
    decreases events.len(),
{
    let c = after_all(source, len, events);
    if events.len() == 0 {
        assert(c.sink + c.pipe =~= source.take(0));
    } else {
        let before = after_all(source, len, events.drop_last());
        let p = before.progress;
        nothing_is_lost(source, len, events.drop_last());
        match events.last() {
            Event::Moved { n } => {
                if p.pending > 0 {
                    assert(c.sink + c.pipe =~= before.sink + before.pipe);
                } else {
                    assert(source.take(p.total as int) + source.subrange(
                        p.total as int,
                        p.total + n,
                    ) =~= source.take(p.total + n));
                    assert(c.sink + c.pipe =~= (before.sink + before.pipe) + source.subrange(
                        p.total as int,
                        p.total + n,
                    ));
                }
            },
            _ => {},
        }
    }
}

/// At every moment of a copy what has gone to the sink is a prefix of what has come out of
/// the source, and at most as much as is moved at a time is still under way; and more is
/// asked of the source only when all that has come out of it has gone to the sink.
pub proof fn chunk_is_delivered_before_the_next(
    source: Seq<u8>,
    len: Option<usize>,
    events: Seq<Event>,
)
    requires
        possible_all(source, len, events),
    ensures
        ({
            let c = after_all(source, len, events);
            let taken = source.take(c.progress.total as int);
            &&& c.sink.is_prefix_of(taken)
            &&& taken.len() - c.sink.len() <= started(len).len
            &&& next_action(c.progress) is Fill ==> c.sink == taken
            &&& events.len() > 0 && action_after(
                after_all(source, len, events.drop_last()).progress,
                events.last(),
            ) is Fill ==> c.sink == taken
        }),
{
    nothing_is_lost(source, len, events);
    let c = after_all(source, len, events);
    let taken = source.take(c.progress.total as int);
    assert(c.sink =~= taken.take(c.sink.len() as int));
    if c.progress.pending == 0 {
        assert(c.sink + c.pipe =~= c.sink);
    }
}

/// A copy that was started to move nothing at a time moves nothing.
proof fn nothing_moves_by_zero(source: Seq<u8>, events: Seq<Event>)
    requires
        possible_all(source, Some(0), events),
    ensures
        after_all(source, Some(0), events).progress.total == 0,
        after_all(source, Some(0), events).sink == Seq::<u8>::empty(),
    decreases events.len(),
{
    nothing_is_lost(source, Some(0), events);
    let c = after_all(source, Some(0), events);
    if events.len() > 0 {
        nothing_moves_by_zero(source, events.drop_last());
        nothing_is_lost(source, Some(0), events.drop_last());
    }
    assert(c.sink =~= Seq::<u8>::empty());
}

/// Whether the events can come about with that source, and the copy finishes with the last.
pub open spec fn finishes(source: Seq<u8>, len: Option<usize>, events: Seq<Event>) -> bool {
    &&& possible_all(source, len, events)
    &&& events.len() > 0
    &&& action_after(
        after_all(source, len, events.drop_last()).progress,
        events.last(),
    ) is Finish
}

/// A copy that finishes has brought all of the source to the sink, and reports how much
/// that was. One that was started to move nothing at a time finishes with nothing moved.
pub proof fn finish_means_all(source: Seq<u8>, len: Option<usize>, events: Seq<Event>)
    requires
        finishes(source, len, events),
    ensures
        len != Some(0usize) ==> {
            &&& after_all(source, len, events).sink == source
            &&& action_after(after_all(source, len, events.drop_last()).progress, events.last())
                == (Action::Finish { total: source.len() as usize })
            &&& source.len() <= usize::MAX
        },
        len == Some(0usize) ==> {
            &&& after_all(source, len, events).sink == Seq::<u8>::empty()
            &&& action_after(after_all(source, len, events.drop_last()).progress, events.last())
                == (Action::Finish { total: 0 })
        },
{
    if len == Some(0usize) {
        nothing_moves_by_zero(source, events);
        nothing_moves_by_zero(source, events.drop_last());
    }
    nothing_is_lost(source, len, events);
    nothing_is_lost(source, len, events.drop_last());
    let c = after_all(source, len, events);
    assert(c.sink + c.pipe =~= c.sink);
    if len != Some(0usize) {
        assert(source.take(c.progress.total as int) =~= source);
    }
}

/// A move that would have had to wait changes nothing: the same move is tried again.
pub proof fn would_block_is_retried(p: Progress)
    ensures
        progress_after(p, Event::Failed { kind: ErrorKind::WouldBlock }) == p,
        action_after(p, Event::Failed { kind: ErrorKind::WouldBlock }) == next_action(p),
{
}

/// The action asked for after an event is the one that its progress calls for, unless the
/// copy stops. So the pipe is never filled while bytes are in it, never drained of more
/// than it holds, and every failure is reported but that of a move that would have had to
/// wait.
pub proof fn actions_follow_progress(p: Progress, event: Event)
    requires
        possible(p, event),
    ensures
        action_after(p, event) is Fill ==> progress_after(p, event).pending == 0,
        action_after(p, event) matches Action::Drain { len } ==> len == progress_after(
            p,
            event,
        ).pending && len > 0,
        action_after(p, event) is Finish <==> p.pending == 0 && event == (Event::Moved { n: 0 }),
        action_after(p, event) is Abort <==> event is WaitFailed || (event matches Event::Failed {
            kind,
        } && kind != ErrorKind::WouldBlock),
{
}

/// Whatever has happened so far, what the source is asked for is the length that the copy was
/// started with: the one that the caller gave, or 4096 if none was given. What the sink is
/// asked to take is never nothing.
pub proof fn fill_asks_for_the_given_length(source: Seq<u8>, len: Option<usize>, events: Seq<Event>)
    ensures
        next_action(after_all(source, len, events).progress) matches Action::Fill { len: asked }
            ==> asked == (match len {
            Some(given) => given,
            None => 4096,
        }),
        next_action(after_all(source, len, events).progress) matches Action::Drain { len: asked }
            ==> asked > 0,
        forall|event: Event|
            #[trigger] action_after(
                after_all(source, len, events).progress,
                event,
            ) matches Action::Fill { len: asked } ==> asked == (match len {
                Some(given) => given,
                None => 4096,
            }),
{
    length_is_kept(source, len, events);
}

/// How much is moved at a time is settled when the copy starts.
proof fn length_is_kept(source: Seq<u8>, len: Option<usize>, events: Seq<Event>)
    ensures
        after_all(source, len, events).progress.len == (match len {
            Some(given) => given,
            None => 4096,
        }),
    decreases events.len(),
{
    if events.len() > 0 {
        length_is_kept(source, len, events.drop_last());
    }
}

/// A copy starts with the source, and then each action is settled by the one before it and how
/// that went. What came out of the source is to go to the sink; of that, what has not gone yet
/// is to go next; and once all of it has gone it is the turn of the source again. The copy is
/// finished exactly if the source gave nothing, and the total is what it gave before.
pub proof fn each_action_follows_the_last(p: Progress, n: usize, len: Option<usize>)
    requires
        possible(p, Event::Moved { n }),
    ensures
        next_action(started(len)) is Fill,
        started(len).total == 0,
        next_action(p) is Fill || next_action(p) is Drain,
        next_action(p) is Fill && n == 0 ==> action_after(p, Event::Moved { n }) == (
        Action::Finish { total: p.total }),
        next_action(p) is Fill && n > 0 ==> {
            &&& action_after(p, Event::Moved { n }) == (Action::Drain { len: n })
            &&& progress_after(p, Event::Moved { n }).total == p.total + n
        },
        next_action(p) matches Action::Drain { len: left } ==> {
            &&& n < left ==> action_after(p, Event::Moved { n }) == (Action::Drain {
                len: (left - n) as usize,
            })
            &&& n == left ==> action_after(p, Event::Moved { n }) is Fill
            &&& progress_after(p, Event::Moved { n }).total == p.total
        },
{
}

/// Every event is taken but two: that more went to the sink than was asked for, and that more
/// came out of the source than can be counted.
pub proof fn only_the_impossible_is_turned_away(p: Progress, event: Event)
    ensures
        !(event is Moved) ==> possible(p, event),
        next_action(p) matches Action::Drain { len } ==> (event matches Event::Moved { n } ==> (
        possible(p, event) <==> n <= len)),
        next_action(p) is Fill ==> (event matches Event::Moved { n } ==> (possible(p, event)
            <==> p.total + n <= usize::MAX)),
{
}

} // verus!
