//! The player as a whole: the controller, every token it has minted and
//! every session it has started.
//!
//! A token is shared between the controller and one session, so neither of
//! them alone says what cancellation does. Here the tokens are laid out in
//! the order in which they were minted, the controller's steps are those of
//! [`RadioView::update`] and a session's steps those of
//! [`SessionView::step`]. A session holds a share of the token that the
//! controller held when the session was started, and only the controller
//! requests cancellation, so what a session finds when it looks at its token
//! is what the controller has requested through the token on the same flag.

use crate::error::Error;
use crate::radio::{CommandView, MessageView, RadioView};
use crate::session::{ActionView, EventView, Phase, SessionView};
use crate::sink::PcmBlockView;
use crate::token::TokenView;
use tokio_util::sync::CancellationToken;
use vstd::prelude::*;

verus! {

/// A session together with its handle on a token and the place of that token
/// among all tokens.
pub struct Bound {
    pub place: int,
    pub token: TokenView,
    pub session: SessionView,
}

pub struct World {
    pub radio: RadioView,
    /// The sessions started so far, oldest first.
    pub sessions: Seq<Bound>,
}

impl World {
    /// The player at start: the controller with its first token, and no
    /// session.
    pub open spec fn start(radio: RadioView) -> World {
        World { radio, sessions: Seq::empty() }
    }

    /// Every token minted so far as the controller holds or held it, oldest
    /// first. The controller's own token is the newest.
    pub open spec fn tokens(self) -> Seq<TokenView> {
        self.radio.retired.push(self.radio.token)
    }

    /// The place of the controller's token.
    pub open spec fn current(self) -> int {
        self.radio.retired.len() as int
    }

    /// Whether the token of session `i` has been cancelled: whether the
    /// controller has requested cancellation through the token at the
    /// session's place.
    pub open spec fn fired(self, i: int) -> bool {
        self.tokens()[self.sessions[i].place].requested
    }

    /// Whether the token of session `i` has not been cancelled.
    pub open spec fn live(self, i: int) -> bool {
        !self.fired(i)
    }

    /// What every reachable state of the player satisfies: every token that
    /// was superseded has been cancelled, each token is on another flag than
    /// the one it superseded, and every session holds a handle on the flag of
    /// a token of its own, none of them the first, which was minted before
    /// any session.
    pub open spec fn wf(self) -> bool {
        &&& forall|t: int| 0 <= t < self.current() ==> (#[trigger] self.radio.retired[t]).requested
        &&& forall|t: int|
            0 <= t < self.current() ==> (#[trigger] self.tokens()[t]).flag != self.tokens()[t
                + 1].flag
        &&& forall|i: int|
            0 <= i < self.sessions.len() ==> {
                &&& 0 < (#[trigger] self.sessions[i]).place <= self.current()
                &&& self.sessions[i].token.flag == self.tokens()[self.sessions[i].place].flag
                &&& !self.sessions[i].token.requested
            }
        &&& forall|i: int, j: int|
            0 <= i < j < self.sessions.len() ==> (#[trigger] self.sessions[i]).place < (
            #[trigger] self.sessions[j]).place
    }

    /// The player after the controller has taken `message`, with `minted`
    /// the flag made for a new session. On a play request the shell starts a
    /// session with the token that the command carries.
    pub open spec fn deliver(self, message: MessageView, minted: CancellationToken) -> World {
        let (radio, command) = self.radio.update(message, minted);
        match command {
            CommandView::Play(url, token) => World {
                radio,
                sessions: self.sessions.push(
                    Bound {
                        place: radio.retired.len() as int,
                        token,
                        session: SessionView { url, phase: Phase::Idle },
                    },
                ),
            },
            _ => World { radio, sessions: self.sessions },
        }
    }

    /// The player after the driver of session `i` has reported `event`: the
    /// session takes its step with what its token shows.
    pub open spec fn report(self, i: int, event: EventView) -> World {
        let bound = self.sessions[i];
        let next = bound.session.step(self.fired(i), event).0;
        World {
            sessions: self.sessions.update(
                i,
                Bound { place: bound.place, token: bound.token, session: next },
            ),
            ..self
        }
    }

    /// The action that session `i` answers the report of `event` with.
    pub open spec fn answer(self, i: int, event: EventView) -> ActionView {
        self.sessions[i].session.step(self.fired(i), event).1
    }

    /// What the sink hands to the device for `block`: the block scaled by the
    /// volume that is current at that moment.
    pub open spec fn render(self, block: PcmBlockView) -> PcmBlockView {
        block.rendered(self.radio.volume)
    }
}

/// The player starts well-formed: a controller that has superseded no token
/// yet, and no session.
pub proof fn start_is_well_formed(radio: RadioView)
    requires
        radio.retired.len() == 0,
    ensures
        World::start(radio).wf(),
{
}

/// No message to the controller takes the player out of a well-formed state,
/// as long as the flag made for a new session is another than the one the
/// controller is on.
pub proof fn deliver_keeps_well_formed(
    world: World,
    message: MessageView,
    minted: CancellationToken,
)
    requires
        world.wf(),
        message is Play ==> minted != world.radio.token.flag,
    ensures
        world.deliver(message, minted).wf(),
{
    let after = world.deliver(message, minted);
    assert forall|t: int| 0 <= t < after.current() implies (#[trigger] after.tokens()[t]).flag
        != after.tokens()[t + 1].flag by {
        if t < world.current() {
            assert(world.tokens()[t].flag != world.tokens()[t + 1].flag);
        }
    }
    assert forall|i: int| 0 <= i < after.sessions.len() implies {
        &&& 0 < (#[trigger] after.sessions[i]).place <= after.current()
        &&& after.sessions[i].token.flag == after.tokens()[after.sessions[i].place].flag
        &&& !after.sessions[i].token.requested
    } by {
        if i < world.sessions.len() {
            assert(after.sessions[i] == world.sessions[i]);
        }
    }
}

/// No report to a session takes the player out of a well-formed state.
pub proof fn report_keeps_well_formed(world: World, i: int, event: EventView)
    requires
        world.wf(),
        0 <= i < world.sessions.len(),
    ensures
        world.report(i, event).wf(),
{
}

/// At most one session is active at any instant: two different sessions
/// never both have a token that is not cancelled, and a session that has one
/// is the newest and holds a share of the controller's token.
pub proof fn one_session_at_a_time(world: World, i: int, j: int)
    requires
        world.wf(),
        0 <= i < world.sessions.len(),
        0 <= j < world.sessions.len(),
        i != j,
    ensures
        !(world.live(i) && world.live(j)),
        world.sessions[i].place != world.sessions[j].place,
        world.live(i) ==> i == world.sessions.len() - 1 && world.sessions[i].token
            == world.radio.token,
{
    if i < j {
        assert(world.sessions[i].place < world.sessions[j].place);
    } else {
        assert(world.sessions[j].place < world.sessions[i].place);
    }
    if world.live(i) {
        if i < world.sessions.len() - 1 {
            let newest = world.sessions.len() - 1;
            assert(world.sessions[i].place < world.sessions[newest].place);
        }
        if world.sessions[i].place < world.current() {
            assert(world.radio.retired[world.sessions[i].place].requested);
        }
    }
}

/// Starting playback while a session is active cancels exactly the previous
/// session: cancellation is requested through the token that the controller
/// held, which stays on its flag, and every older token stays as it was. The
/// new session holds a share of the controller's new token, which is on the
/// new flag, not cancelled, and on another flag than the token of the session
/// before it.
pub proof fn play_supersedes(world: World, url: Seq<char>, minted: CancellationToken)
    requires
        world.wf(),
        minted != world.radio.token.flag,
    ensures
        ({
            let after = world.deliver(MessageView::Play(url), minted);
            let newest = after.sessions.len() - 1;
            &&& after.tokens().len() == world.tokens().len() + 1
            &&& after.tokens()[world.current()] == (TokenView {
                flag: world.radio.token.flag,
                requested: true,
            })
            &&& forall|t: int| 0 <= t < world.current() ==> after.tokens()[t] == world.tokens()[t]
            &&& after.radio.token == (TokenView { flag: minted, requested: false })
            &&& after.sessions.len() == world.sessions.len() + 1
            &&& after.sessions[newest].session == (SessionView { url, phase: Phase::Idle })
            &&& after.sessions[newest].token == after.radio.token
            &&& after.sessions[newest].place == after.current()
            &&& after.live(newest)
            &&& forall|i: int|
                0 <= i < world.sessions.len() ==> after.sessions[i] == world.sessions[i]
                    && !after.live(i) && (#[trigger] after.sessions[i]).place
                    != after.sessions[newest].place
            &&& forall|i: int|
                0 <= i < world.sessions.len() && world.live(i) ==> (
                #[trigger] after.sessions[i]).token.flag != after.sessions[newest].token.flag
        }),
{
    let after = world.deliver(MessageView::Play(url), minted);
    assert forall|i: int| 0 <= i < world.sessions.len() && world.live(i) implies (
    #[trigger] after.sessions[i]).token.flag != minted by {
        if world.sessions[i].place < world.current() {
            assert(world.radio.retired[world.sessions[i].place].requested);
        }
    }
}

/// After a stop, the session that holds a share of the controller's token
/// ends at its next report, whatever the event: the request went through the
/// flag that the session is on. If the session was still running it ends
/// cancelled, not failed and not completed, and asks for the release of its
/// resources.
pub proof fn stop_ends_the_session(
    world: World,
    i: int,
    event: EventView,
    minted: CancellationToken,
)
    requires
        world.wf(),
        0 <= i < world.sessions.len(),
        world.sessions[i].place == world.current(),
    ensures
        ({
            let stopped = world.deliver(MessageView::Stop, minted);
            let after = stopped.report(i, event);
            &&& stopped.radio.token == (TokenView {
                flag: world.sessions[i].token.flag,
                requested: true,
            })
            &&& after.sessions[i].session.phase is Done
            &&& !(world.sessions[i].session.phase is Done) ==> {
                &&& after.sessions[i].session.phase == Phase::Done(Err(Error::Cancelled))
                &&& stopped.answer(i, event) == ActionView::Finish(Err(Error::Cancelled))
            }
            &&& world.sessions[i].session.phase is Done ==> {
                &&& after.sessions[i] == world.sessions[i]
                &&& stopped.answer(i, event) == ActionView::Nothing
            }
        }),
{
}

/// A stop touches nothing but the request on the controller's token: the
/// controller stays on its flag, mints no token, and every session, every
/// older token and the rest of the controller stay as they were. With no
/// session on that flag, nothing is there to observe the request.
pub proof fn stop_touches_only_the_request(world: World, minted: CancellationToken)
    requires
        world.wf(),
    ensures
        ({
            let stopped = world.deliver(MessageView::Stop, minted);
            &&& stopped.sessions == world.sessions
            &&& stopped.radio == world.radio.stopped()
            &&& stopped.radio.token.flag == world.radio.token.flag
            &&& stopped.radio.retired == world.radio.retired
        }),
{
}

/// Stopping twice is stopping once.
pub proof fn stop_is_idempotent(world: World, first: CancellationToken, second: CancellationToken)
    requires
        world.wf(),
    ensures
        world.deliver(MessageView::Stop, first).deliver(MessageView::Stop, second) == world.deliver(
            MessageView::Stop,
            first,
        ),
{
}

/// A change of volume reaches the very next block that is rendered, and
/// disturbs nothing: the controller stays on its token, no session takes a
/// step, none is cancelled and none fails.
pub proof fn volume_change_takes_effect(
    world: World,
    gain: nat,
    block: PcmBlockView,
    minted: CancellationToken,
)
    requires
        world.wf(),
    ensures
        ({
            let after = world.deliver(MessageView::VolumeChanged(gain), minted);
            &&& after.render(block) == block.rendered(gain)
            &&& after.sessions == world.sessions
            &&& after.tokens() == world.tokens()
        }),
{
}

} // verus!
