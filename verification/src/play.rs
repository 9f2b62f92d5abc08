//! `irl play`: subscribe and render a remote broadcast.

use vstd::prelude::*;

use crate::ids::EndpointId;
use crate::overlay::DebugOverlay;
use crate::stats::StatCategory;
use crate::text;

verus! {

/// Where a broadcast is subscribed to.
#[derive(Debug)]
pub enum SubscribeSource {
    /// At its publisher, by its ticket.
    Direct {
        /// The ticket as it was typed.
        ticket: String,
        broadcast_name: String,
    },
    /// At a relay.
    Relay { endpoint: EndpointId, broadcast_name: String },
}

impl SubscribeSource {
    /// The name of the broadcast.
    pub open spec fn name(self) -> Seq<char> {
        match self {
            SubscribeSource::Direct { broadcast_name, .. } => broadcast_name@,
            SubscribeSource::Relay { broadcast_name, .. } => broadcast_name@,
        }
    }

    /// Returns the name of the broadcast, which is the title of the window.
    pub fn broadcast_name(&self) -> (res: &str)
        ensures
            res@ == self.name(),
    {
        match self {
            SubscribeSource::Direct { broadcast_name, .. } => broadcast_name.as_str(),
            SubscribeSource::Relay { broadcast_name, .. } => broadcast_name.as_str(),
        }
    }

    /// Returns the line printed before the subscription.
    pub fn connecting_line(&self) -> (res: String)
        ensures
            res@ == match *self {
                SubscribeSource::Direct { ticket, .. } => "connecting to "@ + ticket@ + " ..."@,
                SubscribeSource::Relay { endpoint, broadcast_name } => "connecting via relay "@
                    + endpoint.long() + " ("@ + broadcast_name@ + ") ..."@,
            },
    {
        match self {
            SubscribeSource::Direct { ticket, .. } => "connecting to ".to_owned().concat(
                ticket.as_str(),
            ).concat(" ..."),
            SubscribeSource::Relay { endpoint, broadcast_name } => "connecting via relay ".to_owned().concat(
                endpoint.to_hex().as_str(),
            ).concat(" (").concat(broadcast_name.as_str()).concat(") ..."),
        }
    }
}

/// How a broadcast is played.
#[derive(Debug, Clone, Copy, PartialEq, Eq, Structural)]
pub enum PlayMode {
    /// Audio only, until the user interrupts.
    Audio,
    /// In a window.
    Window,
}

/// Returns how a broadcast is played under `--no-video`.
pub fn play_mode(no_video: bool) -> (res: PlayMode)
    ensures
        res == if no_video {
            PlayMode::Audio
        } else {
            PlayMode::Window
        },
{
    if no_video {
        PlayMode::Audio
    } else {
        PlayMode::Window
    }
}

/// Creates the stats overlay of the window.
pub fn overlay() -> (res: DebugOverlay)
    ensures
        res.wf(),
        res@.visible,
        res@.categories == seq![
            (StatCategory::Net, false),
            (StatCategory::Render, false),
            (StatCategory::Time, false),
        ],
{
    let overlay = DebugOverlay::new(
        &[StatCategory::Net, StatCategory::Render, StatCategory::Time],
    );
    assert(overlay@.categories =~= seq![
        (StatCategory::Net, false),
        (StatCategory::Render, false),
        (StatCategory::Time, false),
    ]);
    overlay
}

/// One step of playing a broadcast.
#[derive(Debug, Clone, Copy, PartialEq, Eq, Structural)]
pub enum PlayStep {
    /// Bind the endpoint.
    SetUp,
    /// Print the line, and subscribe.
    Subscribe,
    /// Wait for the session.
    AwaitSession,
    /// Open the tracks that the broadcast offers.
    OpenMedia,
    /// Play them until the user interrupts or closes the window.
    Play(PlayMode),
    /// Close the session and the endpoint.
    Close,
}

/// What follows a step: the next one, nothing after the last, or why the command
/// fails.
pub open spec fn after_step(
    step: PlayStep,
    outcome: Result<(), Seq<char>>,
    no_video: bool,
) -> Result<Option<PlayStep>, Seq<char>> {
    match (step, outcome) {
        (PlayStep::Play(PlayMode::Window), Err(cause)) => Err("eframe failed: "@ + cause),
        (_, Err(cause)) => Err(cause),
        (PlayStep::SetUp, Ok(_)) => Ok(Some(PlayStep::Subscribe)),
        (PlayStep::Subscribe, Ok(_)) => Ok(Some(PlayStep::AwaitSession)),
        (PlayStep::AwaitSession, Ok(_)) => Ok(Some(PlayStep::OpenMedia)),
        (PlayStep::OpenMedia, Ok(_)) => Ok(
            Some(
                PlayStep::Play(
                    if no_video {
                        PlayMode::Audio
                    } else {
                        PlayMode::Window
                    },
                ),
            ),
        ),
        (PlayStep::Play(_), Ok(_)) => Ok(Some(PlayStep::Close)),
        (PlayStep::Close, Ok(_)) => Ok(None),
    }
}

/// Takes what came of a step, and returns the next one, nothing after the last,
/// or why the command fails.
pub fn run_step(step: PlayStep, outcome: Result<(), String>, no_video: bool) -> (res: Result<
    Option<PlayStep>,
    String,
>)
    ensures
        match (
            res,
            after_step(
                step,
                match outcome {
                    Ok(_) => Ok(()),
                    Err(cause) => Err(cause@),
                },
                no_video,
            ),
        ) {
            (Ok(got), Ok(next)) => got == next,
            (Err(got), Err(cause)) => got@ == cause,
            _ => false,
        },
{
    if let Err(cause) = outcome {
        return match step {
            PlayStep::Play(PlayMode::Window) => Err(
                "eframe failed: ".to_owned().concat(cause.as_str()),
            ),
            _ => Err(cause),
        };
    }
    Ok(
        match step {
            PlayStep::SetUp => Some(PlayStep::Subscribe),
            PlayStep::Subscribe => Some(PlayStep::AwaitSession),
            PlayStep::AwaitSession => Some(PlayStep::OpenMedia),
            PlayStep::OpenMedia => Some(PlayStep::Play(play_mode(no_video))),
            PlayStep::Play(_) => Some(PlayStep::Close),
            PlayStep::Close => None,
        },
    )
}

/// A broadcast has one name, however it is reached.
pub proof fn law_a_broadcast_is_known_by_its_name(ticket: String, endpoint: EndpointId, broadcast_name: String)
    ensures
        (SubscribeSource::Direct { ticket, broadcast_name }).name() == broadcast_name@,
        (SubscribeSource::Relay { endpoint, broadcast_name }).name() == broadcast_name@,
{
}

/// Playing goes one step at a time, from setting up to closing, and no step is
/// taken twice. Only sound is played where no video is wanted.
pub proof fn law_playing_goes_step_by_step(no_video: bool)
    ensures
        after_step(PlayStep::SetUp, Ok(()), no_video) == Ok::<Option<PlayStep>, Seq<char>>(
            Some(PlayStep::Subscribe),
        ),
        after_step(PlayStep::Subscribe, Ok(()), no_video) == Ok::<Option<PlayStep>, Seq<char>>(
            Some(PlayStep::AwaitSession),
        ),
        after_step(PlayStep::AwaitSession, Ok(()), no_video) == Ok::<Option<PlayStep>, Seq<char>>(
            Some(PlayStep::OpenMedia),
        ),
        no_video ==> after_step(PlayStep::OpenMedia, Ok(()), no_video) == Ok::<
            Option<PlayStep>,
            Seq<char>,
        >(Some(PlayStep::Play(PlayMode::Audio))),
        !no_video ==> after_step(PlayStep::OpenMedia, Ok(()), no_video) == Ok::<
            Option<PlayStep>,
            Seq<char>,
        >(Some(PlayStep::Play(PlayMode::Window))),
        forall|mode: PlayMode| #[trigger]
            after_step(PlayStep::Play(mode), Ok(()), no_video) == Ok::<Option<PlayStep>, Seq<char>>(
                Some(PlayStep::Close),
            ),
        after_step(PlayStep::Close, Ok(()), no_video) == Ok::<Option<PlayStep>, Seq<char>>(None),
{
}

/// A step that fails ends it with its cause, whatever step it is. Of the window it
/// is told that it was the window.
pub proof fn law_a_failed_step_ends_the_run(step: PlayStep, cause: Seq<char>, no_video: bool)
    ensures
        after_step(step, Err(cause), no_video) == Err::<Option<PlayStep>, Seq<char>>(
            if step == PlayStep::Play(PlayMode::Window) {
                "eframe failed: "@ + cause
            } else {
                cause
            },
        ),
        after_step(step, Ok(()), no_video) is Ok,
{
}

} // verus!
