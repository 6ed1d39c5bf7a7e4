//! The publish loop: what to do with each thing a frame source reports.
//!
//! The loop awaits nothing itself. Its caller starts the source, awaits
//! frames and pushes them to the transport; after each of these it tells
//! the loop what happened and is told what to do next.

use crate::video::{VideoError, VideoErrorView, VideoFrame, VideoFrameView};
use vstd::prelude::*;

verus! {

/// How far a publish loop has come.
#[derive(Clone, Copy, Debug, PartialEq, Eq, Structural)]
pub enum PublishPhase {
    /// Nothing has happened yet.
    New,
    /// The source is being started.
    Starting,
    /// Frames are being drained.
    Running,
    /// The loop has ended.
    Finished,
}

/// What the caller reports to the loop.
#[derive(Debug)]
pub enum PublishEvent {
    /// The loop is to begin.
    Begin,
    /// The source's `start` returned.
    Started(Result<(), VideoError>),
    /// The source's `next_frame` returned; `stop_requested` tells whether
    /// the stop signal was set or the channel closed when the caller
    /// looked, which it does once for every frame.
    Frame { outcome: Result<VideoFrame, VideoError>, stop_requested: bool },
}

/// The mathematical content of a [`PublishEvent`].
pub enum PublishEventView {
    Begin,
    Started(Result<(), VideoErrorView>),
    Frame { outcome: Result<VideoFrameView, VideoErrorView>, stop_requested: bool },
}

impl View for PublishEvent {
    type V = PublishEventView;

    open spec fn view(&self) -> PublishEventView {
        match self {
            PublishEvent::Begin => PublishEventView::Begin,
            PublishEvent::Started(r) => PublishEventView::Started(
                match r {
                    Ok(_) => Ok(()),
                    Err(e) => Err(e@),
                },
            ),
            PublishEvent::Frame { outcome, stop_requested } => PublishEventView::Frame {
                outcome: match outcome {
                    Ok(f) => Ok(f@),
                    Err(e) => Err(e@),
                },
                stop_requested: *stop_requested,
            },
        }
    }
}

/// What the caller has to do next.
#[derive(Debug)]
pub enum PublishAction {
    /// Start the source and report how it went.
    Start,
    /// Await the next frame and report it.
    NextFrame,
    /// Push this frame to the transport, then await the next one.
    Push(VideoFrame),
    /// Log this error and drop the frame, then await the next one.
    Skip(VideoError),
    /// Stop the source; the loop has ended cleanly.
    Stop,
    /// The source could not be started: tell whoever asked for the stream;
    /// the loop has ended.
    Fail(VideoError),
    /// The event did not answer what the loop waits for and was dropped.
    Busy,
    /// The loop has ended before; there is nothing to do.
    Done,
}

/// The mathematical content of a [`PublishAction`].
pub enum PublishActionView {
    Start,
    NextFrame,
    Push(VideoFrameView),
    Skip(VideoErrorView),
    Stop,
    Fail(VideoErrorView),
    Busy,
    Done,
}

impl View for PublishAction {
    type V = PublishActionView;

    open spec fn view(&self) -> PublishActionView {
        match self {
            PublishAction::Start => PublishActionView::Start,
            PublishAction::NextFrame => PublishActionView::NextFrame,
            PublishAction::Push(f) => PublishActionView::Push(f@),
            PublishAction::Skip(e) => PublishActionView::Skip(e@),
            PublishAction::Stop => PublishActionView::Stop,
            PublishAction::Fail(e) => PublishActionView::Fail(e@),
            PublishAction::Busy => PublishActionView::Busy,
            PublishAction::Done => PublishActionView::Done,
        }
    }
}

/// The state of one publish loop: its phase and the stamp of the last
/// frame it passed on, if it passed one on.
#[derive(Clone, Copy, Debug, PartialEq, Eq, Structural)]
pub struct PublishLoop {
    pub phase: PublishPhase,
    pub last_timestamp_us: Option<i64>,
}

/// The later of a frame's own stamp and the stamp of the frame before it.
pub open spec fn later(last: Option<i64>, own: i64) -> i64 {
    match last {
        Some(t) => if t > own {
            t
        } else {
            own
        },
        None => own,
    }
}

impl PublishLoop {
    /// The loop in another phase.
    pub open spec fn in_phase(self, phase: PublishPhase) -> PublishLoop {
        PublishLoop { phase, ..self }
    }

    /// One step of the loop: the state after an event and the action that
    /// follows it.
    ///
    /// A new loop begins by starting its source. A source that started is
    /// drained, one that did not ends the loop with its error. While the
    /// loop runs, a stop request ends it; a frame is passed on under a
    /// stamp that is never earlier than that of the frame before; the end
    /// of the stream ends the loop; any other error costs the one frame
    /// and changes nothing else. An event that does not answer what the
    /// loop waits for changes nothing.
    pub open spec fn step(self, event: PublishEventView) -> (PublishLoop, PublishActionView) {
        match (self.phase, event) {
            (PublishPhase::New, PublishEventView::Begin) => (
                self.in_phase(PublishPhase::Starting),
                PublishActionView::Start,
            ),
            (PublishPhase::Starting, PublishEventView::Started(result)) => match result {
                Ok(_) => (self.in_phase(PublishPhase::Running), PublishActionView::NextFrame),
                Err(e) => (self.in_phase(PublishPhase::Finished), PublishActionView::Fail(e)),
            },
            (PublishPhase::Running, PublishEventView::Frame { outcome, stop_requested }) => if stop_requested {
                (self.in_phase(PublishPhase::Finished), PublishActionView::Stop)
            } else {
                match outcome {
                    Ok(frame) => {
                        let stamp = later(self.last_timestamp_us, frame.timestamp_us);
                        (
                            PublishLoop { phase: PublishPhase::Running, last_timestamp_us: Some(stamp) },
                            PublishActionView::Push(VideoFrameView { timestamp_us: stamp, ..frame }),
                        )
                    },
                    Err(e) => if e == VideoErrorView::EmptySource {
                        (self.in_phase(PublishPhase::Finished), PublishActionView::Stop)
                    } else {
                        (self, PublishActionView::Skip(e))
                    },
                }
            },
            (PublishPhase::Finished, _) => (self, PublishActionView::Done),
            _ => (self, PublishActionView::Busy),
        }
    }

    /// The state after a list of events, taken in order.
    pub open spec fn run(self, events: Seq<PublishEventView>) -> PublishLoop
        decreases events.len(),
    {
        if events.len() == 0 {
            self
        } else {
            self.run(events.drop_last()).step(events.last()).0
        }
    }

    /// The actions that a list of events brings, in order.
    pub open spec fn actions(self, events: Seq<PublishEventView>) -> Seq<PublishActionView>
        decreases events.len(),
    {
        if events.len() == 0 {
            Seq::empty()
        } else {
            self.actions(events.drop_last()).push(self.run(events.drop_last()).step(events.last()).1)
        }
    }

    /// A loop that has not begun.
    pub fn new() -> (r: PublishLoop)
        ensures
            r == (PublishLoop { phase: PublishPhase::New, last_timestamp_us: None }),
    {
        PublishLoop { phase: PublishPhase::New, last_timestamp_us: None }
    }

    /// Whether the loop has ended.
    pub fn is_finished(&self) -> (b: bool)
        ensures
            b == (self.phase == PublishPhase::Finished),
    {
        self.phase == PublishPhase::Finished
    }

    /// Takes one event and decides what follows: see [`PublishLoop::step`].
    pub fn handle(&mut self, event: PublishEvent) -> (action: PublishAction)
        ensures
            (*final(self), action@) == old(self).step(event@),
    {
        match self.phase {
            PublishPhase::Finished => PublishAction::Done,
            PublishPhase::New => match event {
                PublishEvent::Begin => {
                    self.phase = PublishPhase::Starting;
                    PublishAction::Start
                },
                _ => PublishAction::Busy,
            },
            PublishPhase::Starting => match event {
                PublishEvent::Started(Ok(_)) => {
                    self.phase = PublishPhase::Running;
                    PublishAction::NextFrame
                },
                PublishEvent::Started(Err(e)) => {
                    self.phase = PublishPhase::Finished;
                    PublishAction::Fail(e)
                },
                _ => PublishAction::Busy,
            },
            PublishPhase::Running => match event {
                PublishEvent::Frame { outcome, stop_requested } => {
                    if stop_requested {
                        self.phase = PublishPhase::Finished;
                        PublishAction::Stop
                    } else {
                        match outcome {
                            Ok(frame) => {
                                let stamp = match self.last_timestamp_us {
                                    Some(t) => if t > frame.timestamp_us {
                                        t
                                    } else {
                                        frame.timestamp_us
                                    },
                                    None => frame.timestamp_us,
                                };
                                self.last_timestamp_us = Some(stamp);
                                PublishAction::Push(
                                    VideoFrame { rotation: frame.rotation, buffer: frame.buffer, timestamp_us: stamp },
                                )
                            },
                            Err(VideoError::EmptySource) => {
                                self.phase = PublishPhase::Finished;
                                PublishAction::Stop
                            },
                            Err(e) => PublishAction::Skip(e),
                        }
                    }
                },
                _ => PublishAction::Busy,
            },
        }
    }
}

/// The frames passed on by a list of actions, in order.
pub open spec fn pushed(actions: Seq<PublishActionView>) -> Seq<VideoFrameView>
    decreases actions.len(),
{
    if actions.len() == 0 {
        Seq::empty()
    } else {
        match actions.last() {
            PublishActionView::Push(f) => pushed(actions.drop_last()).push(f),
            _ => pushed(actions.drop_last()),
        }
    }
}

/// An event that brings a frame that failed, for another reason than the
/// end of the stream, while no stop is requested.
pub open spec fn failed_frame(e: VideoErrorView) -> PublishEventView {
    PublishEventView::Frame { outcome: Err(e), stop_requested: false }
}

/// One frame that fails costs that frame and nothing else: the running
/// loop answers it by skipping and stays exactly as it was, so whatever
/// events follow are answered as if the failed frame had never come.
pub proof fn lemma_failed_frame_is_skipped(s: PublishLoop, e: VideoErrorView, rest: Seq<PublishEventView>)
    requires
        s.phase == PublishPhase::Running,
        e != VideoErrorView::EmptySource,
    ensures
        s.step(failed_frame(e)) == (s, PublishActionView::Skip(e)),
        s.run(seq![failed_frame(e)] + rest) == s.run(rest),
        s.actions(seq![failed_frame(e)] + rest) == seq![PublishActionView::Skip(e)] + s.actions(rest),
        pushed(s.actions(seq![failed_frame(e)] + rest)) == pushed(s.actions(rest)),
    decreases rest.len(),
{
    let bad = failed_frame(e);
    let all = seq![bad] + rest;
    let head = seq![PublishActionView::Skip(e)];
    let none = Seq::<PublishEventView>::empty();
    assert(s.run(none) == s);
    assert(s.actions(none) =~= Seq::<PublishActionView>::empty());
    if rest.len() == 0 {
        assert(rest =~= none);
        assert(all.drop_last() =~= none);
        assert(all.last() == bad);
        assert(s.run(all) == s);
        assert(s.actions(all) =~= head + s.actions(rest));
    } else {
        lemma_failed_frame_is_skipped(s, e, rest.drop_last());
        assert(all.drop_last() =~= seq![bad] + rest.drop_last());
        assert(all.last() == rest.last());
        assert(s.actions(all) =~= head + s.actions(rest));
    }
    lemma_pushed_concat(head, s.actions(rest));
    assert(head.drop_last() =~= Seq::<PublishActionView>::empty());
    assert(head.last() == PublishActionView::Skip(e));
    assert(pushed(head.drop_last()) =~= Seq::<VideoFrameView>::empty());
    assert(pushed(head) =~= Seq::<VideoFrameView>::empty());
    assert(pushed(head) + pushed(s.actions(rest)) =~= pushed(s.actions(rest)));
}

/// The frames passed on by two lists of actions, one after the other.
pub proof fn lemma_pushed_concat(a: Seq<PublishActionView>, b: Seq<PublishActionView>)
    ensures
        pushed(a + b) == pushed(a) + pushed(b),
    decreases b.len(),
{
    if b.len() == 0 {
        assert(a + b =~= a);
        assert(pushed(a) + pushed(b) =~= pushed(a));
    } else {
        lemma_pushed_concat(a, b.drop_last());
        assert((a + b).drop_last() =~= a + b.drop_last());
        assert((a + b).last() == b.last());
        match b.last() {
            PublishActionView::Push(f) => {
                assert(pushed(a) + pushed(b.drop_last()).push(f) =~= (pushed(a) + pushed(b.drop_last())).push(f));
            },
            _ => {},
        }
    }
}

/// A frame is never passed on under an earlier stamp than the frame passed
/// on before it.
pub proof fn lemma_stamps_never_go_back(s: PublishLoop, events: Seq<PublishEventView>)
    ensures
        ({
            let frames = pushed(s.actions(events));
            &&& forall|i: int, j: int| 0 <= i <= j < frames.len() ==> frames[i].timestamp_us <= frames[j].timestamp_us
            &&& forall|i: int|
                0 <= i < frames.len() ==> later(s.last_timestamp_us, frames[i].timestamp_us) == frames[i].timestamp_us
            &&& frames.len() > 0 ==> s.run(events).last_timestamp_us == Some(frames.last().timestamp_us)
            &&& frames.len() == 0 ==> s.run(events).last_timestamp_us == s.last_timestamp_us
        }),
    decreases events.len(),
{
    if events.len() > 0 {
        lemma_stamps_never_go_back(s, events.drop_last());
        let before = s.run(events.drop_last());
        let step = before.step(events.last());
        assert(s.actions(events).drop_last() =~= s.actions(events.drop_last()));
        assert(s.actions(events).last() == step.1);
    }
}

} // verus!
