//! Runs of a session: what holds of a session after any number of reports.
//!
//! A driver reports to its session again and again. The functions here fold
//! [`SessionView::step`] over such a sequence of reports, and the proofs state
//! what holds at its end: that cancellation wins, that a finished session
//! stays finished, that blocks reach the sink in the order in which the
//! decoder filled them, that a clean stream completes, and that a stream that
//! never opened never reaches the decoder.

use crate::error::{DecodeError, Error, StreamError};
use crate::session::{
    Action, ActionView, Event, EventView, InputView, Phase, Session, SessionState, SessionView,
};
use crate::sink::PcmBlockView;
use vstd::prelude::*;

verus! {

/// One report to a session: what the look at the token showed, and what came
/// of the step in flight.
pub struct Report {
    pub cancelled: bool,
    pub event: EventView,
}

impl Phase {
    /// Whether `event` is an outcome of the step that is in flight in this
    /// phase. A session that is over has no step in flight.
    pub open spec fn awaits(self, event: EventView) -> bool {
        match self {
            Phase::Idle => event is Play,
            Phase::Connecting => event is Opened || event is SourceFailed,
            Phase::Reading => event is Chunk || event is EndOfStream || event is SourceFailed,
            Phase::Decoding { .. } => event is Block || event is NeedMore || event is DecodeFailed,
            Phase::Rendering { .. } => event is Rendered || event is SinkFailed,
            Phase::Done(_) => false,
        }
    }
}

impl SessionView {
    /// The session after all of `reports`, in order.
    pub open spec fn run(self, reports: Seq<Report>) -> SessionView
        decreases reports.len(),
    {
        if reports.len() == 0 {
            self
        } else {
            let last = reports.last();
            self.run(reports.drop_last()).step(last.cancelled, last.event).0
        }
    }

    /// The actions that the session answers `reports` with, one for each.
    pub open spec fn answers(self, reports: Seq<Report>) -> Seq<ActionView>
        decreases reports.len(),
    {
        if reports.len() == 0 {
            Seq::empty()
        } else {
            let last = reports.last();
            self.answers(reports.drop_last()).push(
                self.run(reports.drop_last()).step(last.cancelled, last.event).1,
            )
        }
    }

    /// Whether the driver kept to the protocol: every report carries an
    /// outcome of the step that was in flight, and none came after the end.
    pub open spec fn driven(self, reports: Seq<Report>) -> bool
        decreases reports.len(),
    {
        reports.len() > 0 ==> {
            &&& self.driven(reports.drop_last())
            &&& self.run(reports.drop_last()).phase.awaits(reports.last().event)
        }
    }
}

/// The contents of a list of reports, each given as what the look at the
/// token showed and the event.
pub open spec fn reports_of(list: Seq<(bool, Event)>) -> Seq<Report> {
    Seq::new(list.len(), |i: int| Report { cancelled: list[i].0, event: list[i].1@ })
}

/// The contents of a list of actions.
pub open spec fn action_views(actions: Seq<Action>) -> Seq<ActionView> {
    Seq::new(actions.len(), |i: int| actions[i]@)
}

impl Session {
    /// Takes a run of reports, one after the other, and collects the
    /// session's answers.
    pub fn replay(&mut self, reports: Vec<(bool, Event)>) -> (actions: Vec<Action>)
        ensures
            final(self)@ == old(self)@.run(reports_of(reports@)),
            action_views(actions@) == old(self)@.answers(reports_of(reports@)),
            final(self).token() == old(self).token(),
    {
        let ghost all = reports_of(reports@);
        let ghost start = self@;
        let mut actions: Vec<Action> = Vec::new();
        assert(all.take(0) =~= Seq::<Report>::empty());
        assert(action_views(actions@) =~= Seq::<ActionView>::empty());
        for report in iter: reports.into_iter()
            invariant
                all == reports_of(iter.seq()),
                self@ == start.run(all.take(iter.index() as int)),
                action_views(actions@) == start.answers(all.take(iter.index() as int)),
                self.token() == old(self).token(),
        {
            let ghost done = all.take(iter.index() as int);
            let ghost next = all.take(iter.index() + 1);
            let ghost before = action_views(actions@);
            let (cancelled, event) = report;
            let action = self.step(cancelled, event);
            actions.push(action);
            proof {
                assert(next.drop_last() =~= done);
                assert(next.last() == all[iter.index() as int]);
                assert(action_views(actions@) =~= before.push(action@));
            }
        }
        assert(all.take(all.len() as int) =~= all);
        actions
    }
}

/// Whether the token was found fired at any of `reports`.
pub open spec fn cancelled_in(reports: Seq<Report>) -> bool
    decreases reports.len(),
{
    reports.len() > 0 && (reports.last().cancelled || cancelled_in(reports.drop_last()))
}

/// Whether any of `reports` tells of a failure of source, decoder or sink.
pub open spec fn failure_in(reports: Seq<Report>) -> bool
    decreases reports.len(),
{
    reports.len() > 0 && (reports.last().event.is_failure() || failure_in(reports.drop_last()))
}

/// Whether any of `reports` tells that the source ended cleanly.
pub open spec fn source_ended_in(reports: Seq<Report>) -> bool
    decreases reports.len(),
{
    reports.len() > 0 && (reports.last().event is EndOfStream || source_ended_in(
        reports.drop_last(),
    ))
}

/// The blocks that the decoder filled, in order.
pub open spec fn decoded(reports: Seq<Report>) -> Seq<PcmBlockView>
    decreases reports.len(),
{
    if reports.len() == 0 {
        Seq::empty()
    } else {
        match reports.last().event {
            EventView::Block(block) => decoded(reports.drop_last()).push(block),
            _ => decoded(reports.drop_last()),
        }
    }
}

/// The chunks of bytes that the source delivered, in order.
pub open spec fn received(reports: Seq<Report>) -> Seq<Seq<u8>>
    decreases reports.len(),
{
    if reports.len() == 0 {
        Seq::empty()
    } else {
        match reports.last().event {
            EventView::Chunk(bytes) => received(reports.drop_last()).push(bytes),
            _ => received(reports.drop_last()),
        }
    }
}

/// The blocks that were handed to the sink, in order.
pub open spec fn rendered(actions: Seq<ActionView>) -> Seq<PcmBlockView>
    decreases actions.len(),
{
    if actions.len() == 0 {
        Seq::empty()
    } else {
        match actions.last() {
            ActionView::Render(block) => rendered(actions.drop_last()).push(block),
            _ => rendered(actions.drop_last()),
        }
    }
}

/// The chunks of bytes that were handed to the decoder, in order.
pub open spec fn fed(actions: Seq<ActionView>) -> Seq<Seq<u8>>
    decreases actions.len(),
{
    if actions.len() == 0 {
        Seq::empty()
    } else {
        match actions.last() {
            ActionView::Decode(InputView::Chunk(bytes)) => fed(actions.drop_last()).push(bytes),
            _ => fed(actions.drop_last()),
        }
    }
}

/// Whether the decoder or the sink was given anything to do.
pub open spec fn reached_decoder(actions: Seq<ActionView>) -> bool
    decreases actions.len(),
{
    actions.len() > 0 && (actions.last() is Decode || actions.last() is Render || reached_decoder(
        actions.drop_last(),
    ))
}

/// How often the release of the session's resources was asked for.
pub open spec fn releases(actions: Seq<ActionView>) -> nat
    decreases actions.len(),
{
    if actions.len() == 0 {
        0
    } else if actions.last() is Finish {
        releases(actions.drop_last()) + 1
    } else {
        releases(actions.drop_last())
    }
}

/// A session enters its final state in the very step in which it asks for
/// the release of its resources, and in no other: the answer is `Finish` with
/// a result exactly when the step takes a running session to its end with
/// that result.
pub proof fn finish_marks_the_end(
    session: SessionView,
    cancelled: bool,
    event: EventView,
    result: Result<(), Error>,
)
    ensures
        session.step(cancelled, event).1 == ActionView::Finish(result) <==> !(session.phase is Done)
            && session.step(cancelled, event).0.phase == Phase::Done(result),
        session.step(cancelled, event).0.url == session.url,
{
}

/// Once the token is found fired, a session that is still running is
/// cancelled in that one step, whatever the event: it does not fail and does
/// not complete, and it asks for the release of its resources.
pub proof fn cancellation_wins(session: SessionView, event: EventView)
    requires
        !(session.phase is Done),
    ensures
        session.step(true, event).0.phase == Phase::Done(Err(Error::Cancelled)),
        session.step(true, event).0.phase.spec_state() == SessionState::Cancelled,
        session.step(true, event).1 == ActionView::Finish(Err(Error::Cancelled)),
{
}

/// A session that is over takes no notice of anything, a fired token
/// included: it stays as it is and asks for nothing.
pub proof fn the_end_is_final(session: SessionView, reports: Seq<Report>)
    requires
        session.phase is Done,
    ensures
        session.run(reports) == session,
        forall|i: int| 0 <= i < reports.len() ==> session.answers(reports)[i] == ActionView::Nothing,
        session.answers(reports).len() == reports.len(),
    decreases reports.len(),
{
    if reports.len() > 0 {
        the_end_is_final(session, reports.drop_last());
    }
}

/// Whatever is reported to a session, it asks for the release of its socket
/// and its device exactly once if the run has taken it to its end, and not at
/// all while it is still running.
pub proof fn resources_are_released_once(session: SessionView, reports: Seq<Report>)
    requires
        !(session.phase is Done),
    ensures
        releases(session.answers(reports)) == if session.run(reports).phase is Done {
            1nat
        } else {
            0nat
        },
    decreases reports.len(),
{
    if reports.len() > 0 {
        resources_are_released_once(session, reports.drop_last());
        assert(session.answers(reports).drop_last() == session.answers(reports.drop_last()));
    }
}

/// After a run in which the token was found fired, the session is over, and
/// it was cancelled unless it had ended before the token fired: a run that
/// ends with the token fired leaves a session that was running cancelled.
pub proof fn cancelled_run_ends_cancelled(session: SessionView, reports: Seq<Report>)
    requires
        reports.len() > 0,
        reports.last().cancelled,
    ensures
        session.run(reports).phase is Done,
        !(session.run(reports.drop_last()).phase is Done) ==> session.run(reports).phase
            == Phase::Done(Err(Error::Cancelled)),
{
}

/// While the driver keeps to the protocol and the token does not fire, the
/// decoder is fed every chunk that the source delivered and the sink is
/// handed every block that the decoder filled, each in its order: nothing is
/// dropped, repeated or reordered.
pub proof fn blocks_keep_their_order(session: SessionView, reports: Seq<Report>)
    requires
        session.driven(reports),
        !cancelled_in(reports),
    ensures
        rendered(session.answers(reports)) == decoded(reports),
        fed(session.answers(reports)) == received(reports),
    decreases reports.len(),
{
    if reports.len() > 0 {
        let before = reports.drop_last();
        blocks_keep_their_order(session, before);
        let last = reports.last();
        let answer = session.run(before).step(last.cancelled, last.event).1;
        assert(session.answers(reports).drop_last() == session.answers(before));
        assert(session.answers(reports).last() == answer);
    }
}

/// What holds during a clean run of a fresh session: it has not failed and
/// was not cancelled, and it knows that the source has ended exactly when
/// that was reported.
pub open spec fn on_course(phase: Phase, reports: Seq<Report>) -> bool {
    &&& !(phase matches Phase::Done(Err(_)))
    &&& source_ended_in(reports) <==> (phase == Phase::Decoding { source_ended: true } || phase
        == Phase::Rendering { source_ended: true } || phase == Phase::Done(Ok(())))
}

/// A fresh session whose driver keeps to the protocol, whose token does not
/// fire and whose source, decoder and sink do not fail, neither fails nor is
/// cancelled.
pub proof fn clean_run_stays_on_course(url: Seq<char>, reports: Seq<Report>)
    requires
        (SessionView { url, phase: Phase::Idle }).driven(reports),
        !cancelled_in(reports),
        !failure_in(reports),
    ensures
        on_course((SessionView { url, phase: Phase::Idle }).run(reports).phase, reports),
    decreases reports.len(),
{
    if reports.len() > 0 {
        clean_run_stays_on_course(url, reports.drop_last());
    }
}

/// A finite stream plays to its end: when the source has ended cleanly and
/// the decoder then reports that it has nothing left, a clean run completes.
/// The session reports success, and the sink has been handed every block that
/// the decoder filled, in order.
pub proof fn clean_stream_completes(url: Seq<char>, reports: Seq<Report>)
    requires
        (SessionView { url, phase: Phase::Idle }).driven(reports),
        !cancelled_in(reports),
        !failure_in(reports),
        source_ended_in(reports),
        reports.last().event is NeedMore,
    ensures
        (SessionView { url, phase: Phase::Idle }).run(reports).phase == Phase::Done(Ok(())),
        (SessionView { url, phase: Phase::Idle }).run(reports).phase.spec_state()
            == SessionState::Completed,
        (SessionView { url, phase: Phase::Idle }).answers(reports).last() == ActionView::Finish(
            Ok(()),
        ),
        rendered((SessionView { url, phase: Phase::Idle }).answers(reports)) == decoded(reports),
{
    let fresh = SessionView { url, phase: Phase::Idle };
    clean_run_stays_on_course(url, reports.drop_last());
    blocks_keep_their_order(fresh, reports);
}

/// Bytes that cannot be decoded end a connecting or streaming session with
/// the decoder's error, in that one step.
pub proof fn undecodable_stream_fails(session: SessionView, cause: DecodeError)
    requires
        session.phase is Connecting || session.phase.is_streaming(),
    ensures
        session.step(false, EventView::DecodeFailed(cause)).0.phase == Phase::Done(
            Err(Error::DecodeError(cause)),
        ),
        session.step(false, EventView::DecodeFailed(cause)).1 == ActionView::Finish(
            Err(Error::DecodeError(cause)),
        ),
{
}

/// A stream that cannot be opened ends the session with a connect error, and
/// a stream that drops later with an interruption.
pub proof fn source_failure_tells_when(session: SessionView, cause: StreamError)
    requires
        session.phase is Connecting || session.phase.is_streaming(),
    ensures
        session.step(false, EventView::SourceFailed(cause)).0.phase == Phase::Done(
            Err(
                if session.phase is Connecting {
                    Error::ConnectError(cause)
                } else {
                    Error::StreamInterrupted(cause)
                },
            ),
        ),
{
}

/// A session that ended with a connect error never gave the decoder or the
/// sink anything to do, whatever was reported to it.
pub proof fn connect_error_never_reaches_decoder(url: Seq<char>, reports: Seq<Report>)
    ensures
        ({
            let fresh = SessionView { url, phase: Phase::Idle };
            let phase = fresh.run(reports).phase;
            (phase is Idle || phase is Connecting || (phase matches Phase::Done(
                Err(Error::ConnectError(_)),
            ))) ==> !reached_decoder(fresh.answers(reports))
        }),
    decreases reports.len(),
{
    if reports.len() > 0 {
        let fresh = SessionView { url, phase: Phase::Idle };
        connect_error_never_reaches_decoder(url, reports.drop_last());
        assert(fresh.answers(reports).drop_last() == fresh.answers(reports.drop_last()));
    }
}

} // verus!
