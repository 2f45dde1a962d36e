//! The course of a connection, and the watch that runs beside it.

use vstd::prelude::*;

use crate::json::{Json, JsonView};
use crate::reply;
use crate::text;

verus! {

/// Where a connection stands.
pub enum Phase {
    /// The challenge has been sent; the next frame is the client's ack.
    Greeting { challenge: String },
    /// The client has answered the challenge; every frame is a request.
    Serving,
}

/// The mathematical value of a `Phase`.
pub enum PhaseView {
    Greeting { challenge: Seq<char> },
    Serving,
}

impl View for Phase {
    type V = PhaseView;

    open spec fn view(&self) -> PhaseView {
        match *self {
            Phase::Greeting { challenge } => PhaseView::Greeting { challenge: challenge@ },
            Phase::Serving => PhaseView::Serving,
        }
    }
}

/// What to do after a frame. `X` is how reading one fails.
pub enum Step<X> {
    /// Read the next frame.
    Listen(Phase),
    /// Answer this request, and read the next frame.
    Serve(Phase, Json),
    /// End the connection quietly.
    Close,
    /// End the connection with an error.
    Fail(X),
}

/// The mathematical value of a `Step`.
#[verifier::reject_recursive_types(X)]
pub enum StepView<X> {
    Listen(PhaseView),
    Serve(PhaseView, JsonView),
    Close,
    Fail(X),
}

impl<X> View for Step<X> {
    type V = StepView<X>;

    open spec fn view(&self) -> StepView<X> {
        match *self {
            Step::Listen(phase) => StepView::Listen(phase@),
            Step::Serve(phase, request) => StepView::Serve(phase@, request@),
            Step::Close => StepView::Close,
            Step::Fail(e) => StepView::Fail(e),
        }
    }
}

/// The view of what reading a frame came to.
pub open spec fn frame_view<X>(frame: Result<Json, X>) -> Result<JsonView, X> {
    match frame {
        Ok(value) => Ok(value@),
        Err(e) => Err(e),
    }
}

impl PhaseView {
    /// What follows a frame. During the greeting, a client that does not give
    /// the challenge back is refused, and a frame that cannot be read is an
    /// error. After it, every frame is a request, and one that cannot be read
    /// means that the client has gone.
    pub open spec fn after<X>(self, frame: Result<JsonView, X>) -> StepView<X> {
        match (self, frame) {
            (PhaseView::Greeting { challenge }, Ok(ack)) => if ack.text_field(
                "challenge_response"@,
            ) == Some(challenge) {
                StepView::Listen(PhaseView::Serving)
            } else {
                StepView::Close
            },
            (PhaseView::Greeting { .. }, Err(e)) => StepView::Fail(e),
            (PhaseView::Serving, Ok(request)) => StepView::Serve(PhaseView::Serving, request),
            (PhaseView::Serving, Err(_)) => StepView::Close,
        }
    }
}

/// Starts a connection: the phase it is in, and the challenge to send.
pub fn greet(challenge: String) -> (r: (Phase, Json))
    ensures
        r.0@ == (PhaseView::Greeting { challenge: challenge@ }),
        r.1@ == reply::singleton("challenge"@, JsonView::Text(challenge@)),
{
    let frame: Json = reply::single("challenge", Json::text(challenge.as_str()));
    (Phase::Greeting { challenge }, frame)
}

/// Takes a connection on with the next frame. No peer authentication is needed
/// beyond the challenge: the socket has no name for anyone else to reach.
pub fn advance<X>(phase: Phase, frame: Result<Json, X>) -> (r: Step<X>)
    ensures
        r@ == phase@.after(frame_view(frame)),
{
    match phase {
        Phase::Greeting { challenge } => match frame {
            Ok(ack) => match ack.text_at("challenge_response") {
                Some(response) => if text::same(response, challenge.as_str()) {
                    Step::Listen(Phase::Serving)
                } else {
                    Step::Close
                },
                None => Step::Close,
            },
            Err(e) => Step::Fail(e),
        },
        Phase::Serving => match frame {
            Ok(request) => Step::Serve(Phase::Serving, request),
            Err(_) => Step::Close,
        },
    }
}

/// Where a connection stands after a run of frames, none before the first. A
/// connection that has ended stays ended.
pub open spec fn phase_after<X>(start: PhaseView, frames: Seq<Result<JsonView, X>>) -> Option<
    PhaseView,
>
    decreases frames.len(),
{
    if frames.len() == 0 {
        Some(start)
    } else {
        match phase_after(start, frames.drop_last()) {
            Some(phase) => match phase.after(frames.last()) {
                StepView::Listen(next) => Some(next),
                StepView::Serve(next, _) => Some(next),
                _ => None,
            },
            None => None,
        }
    }
}

/// No request is served before the challenge has been answered: where one is
/// served, the first frame gave the challenge back.
pub proof fn nothing_is_served_before_the_ack<X>(
    challenge: Seq<char>,
    frames: Seq<Result<JsonView, X>>,
    frame: Result<JsonView, X>,
)
    requires
        phase_after(PhaseView::Greeting { challenge }, frames) matches Some(phase)
            && phase.after(frame) is Serve,
    ensures
        frames.len() > 0,
        frames[0] matches Ok(ack) && ack.text_field("challenge_response"@) == Some(challenge),
    decreases frames.len(),
{
    let start = PhaseView::Greeting { challenge };
    if frames.len() > 0 {
        let init = frames.drop_last();
        let before = phase_after(start, init)->0;
        assert(phase_after(start, init) is Some);
        if before is Serving {
            nothing_is_served_before_the_ack(challenge, init, frames.last());
            assert(init[0] == frames[0]);
        } else {
            lemma_greeting_only_at_the_start(start, init);
            assert(init.len() == 0);
        }
    }
}

/// Only a connection that has read no frame is still greeting.
proof fn lemma_greeting_only_at_the_start<X>(
    start: PhaseView,
    frames: Seq<Result<JsonView, X>>,
)
    ensures
        frames.len() > 0 && phase_after(start, frames) is Some ==> phase_after(start, frames)->0
            == PhaseView::Serving,
        frames.len() == 0 ==> phase_after(start, frames) == Some(start),
{
}

/// What the watch does on a tick.
#[derive(Clone, Copy, Debug, PartialEq, Eq, Structural)]
pub enum Tick {
    /// The parent is gone: exit the process.
    Exit,
    /// Hand the engine the seconds since the last request.
    Enforce(u64),
}

/// What a tick comes to.
pub open spec fn ticked(parent: i32, now_secs: u64, last_activity_secs: u64) -> Tick {
    if parent <= 1 {
        Tick::Exit
    } else if now_secs < last_activity_secs {
        Tick::Enforce(0)
    } else {
        Tick::Enforce((now_secs - last_activity_secs) as u64)
    }
}

/// Decides a tick of the watch. A process whose parent goes away, by quitting or
/// by crashing, is reparented to process 1. A clock that went backwards counts
/// as no idle time.
pub fn tick(parent: i32, now_secs: u64, last_activity_secs: u64) -> (r: Tick)
    ensures
        r == ticked(parent, now_secs, last_activity_secs),
{
    if parent <= 1 {
        Tick::Exit
    } else {
        Tick::Enforce(now_secs.saturating_sub(last_activity_secs))
    }
}

/// As long as the parent lives, the engine is told the whole time since the last
/// request, and none where the clock went backwards; once it is gone, the process
/// exits.
pub proof fn the_watch_counts_the_idle_time(parent: i32, last: u64, idle: u64, earlier: u64)
    requires
        last + idle <= u64::MAX,
        earlier < last,
    ensures
        parent > 1 ==> ticked(parent, (last + idle) as u64, last) == Tick::Enforce(idle),
        parent > 1 ==> ticked(parent, earlier, last) == Tick::Enforce(0),
        parent <= 1 ==> ticked(parent, (last + idle) as u64, last) == Tick::Exit,
{
}

/// A client that gives its challenge back is listened to, whatever the challenge
/// and whatever else the ack holds; every frame it sends then is served as it is,
/// and the first that cannot be read ends the connection.
pub proof fn acknowledged_clients_are_served<X>(
    challenge: Seq<char>,
    fields: Map<Seq<char>, JsonView>,
    request: JsonView,
    e: X,
)
    ensures
        (PhaseView::Greeting { challenge }).after::<X>(
            Ok(
                JsonView::Object(
                    fields.insert("challenge_response"@, JsonView::Text(challenge)),
                ),
            ),
        ) == StepView::<X>::Listen(PhaseView::Serving),
        PhaseView::Serving.after::<X>(Ok(request)) == StepView::<X>::Serve(
            PhaseView::Serving,
            request,
        ),
        PhaseView::Serving.after::<X>(Err(e)) == StepView::<X>::Close,
        (PhaseView::Greeting { challenge }).after::<X>(Err(e)) == StepView::<X>::Fail(e),
{
}

/// A client that gives back the challenge it was greeted with is served; one that
/// gives back another is not.
pub proof fn only_the_challenge_that_was_sent_is_accepted<X>(
    challenge: String,
    greeting: (Phase, Json),
    ack: Json,
    step: Step<X>,
)
    requires
        call_ensures(greet, (challenge,), greeting),
        call_ensures(advance::<X>, (greeting.0, Ok::<Json, X>(ack)), step),
    ensures
        greeting.1@.text_field("challenge"@) == Some(challenge@),
        ack@.text_field("challenge_response"@) == Some(challenge@) ==> step@
            == StepView::<X>::Listen(PhaseView::Serving),
        ack@.text_field("challenge_response"@) != Some(challenge@) ==> step@ is Close,
{
}

/// The watch goes by the parent and the time since the last request.
pub proof fn ticks_go_by_parent_and_time(parent: i32, last: u64, idle: u64, now: u64, r: Tick)
    requires
        now == last + idle,
        call_ensures(tick, (parent, now, last), r),
    ensures
        r == if parent > 1 {
            Tick::Enforce(idle)
        } else {
            Tick::Exit
        },
{
}

} // verus!
