//! Raspberry Pi Zero 2 demo.
//!
//! Publishes a camera stream and shows the ticket as a QR code on a Waveshare
//! 2.13" e-paper HAT. It can also watch a remote stream.

use vstd::prelude::*;

use crate::args::RemoteArgs;
use crate::ids::{BroadcastTicket, EndpointId, TicketView};
use crate::playback::CatalogWait;
use crate::text;

verus! {

/// How many seconds pass before the QR code is drawn again.
///
/// The datasheet asks for a refresh at least every 24 h and at most every 180 s.
pub const EPAPER_REFRESH_INTERVAL: u64 = 43_200;

/// Options of the publish command.
#[derive(Debug)]
pub struct PublishOpts {
    /// Show the connection ticket as a QR code on the e-paper HAT.
    pub epaper: bool,
    /// Relay endpoint to also push to, so browsers can watch there.
    pub relay: Option<EndpointId>,
    /// Broadcast name.
    pub name: String,
    /// Capture width in pixels.
    pub width: u32,
    /// Capture height in pixels.
    pub height: u32,
    /// Target bitrate in bits per second.
    pub bitrate: u32,
    /// Capture framerate.
    pub fps: u32,
}

impl Default for PublishOpts {
    fn default() -> (res: Self)
        ensures
            !res.epaper,
            res.relay is None,
            res.name@ == "pi-zero"@,
            res.width == 640,
            res.height == 360,
            res.bitrate == 500_000,
            res.fps == 30,
    {
        PublishOpts {
            epaper: false,
            relay: None,
            name: "pi-zero".to_owned(),
            width: 640,
            height: 360,
            bitrate: 500_000,
            fps: 30,
        }
    }
}

/// What is published and where it is pushed.
#[derive(Debug)]
pub struct Publishing {
    pub name: String,
    pub width: u32,
    pub height: u32,
    pub fps: u32,
    /// Bits per second.
    pub bitrate: u64,
    /// The relay that the stream is pushed to. The link only pushes: the relay's
    /// routes stay out of the Pi's route table.
    pub relay: Option<EndpointId>,
}

/// Returns what the options publish and where it is pushed.
pub fn publishing(opts: &PublishOpts) -> (res: Publishing)
    ensures
        res.name@ == opts.name@,
        res.width == opts.width,
        res.height == opts.height,
        res.fps == opts.fps,
        res.bitrate == opts.bitrate,
        res.relay == opts.relay,
{
    Publishing {
        name: opts.name.clone(),
        width: opts.width,
        height: opts.height,
        fps: opts.fps,
        bitrate: opts.bitrate as u64,
        relay: opts.relay,
    }
}

/// What happens while the stream is published.
#[derive(Debug)]
pub enum PublishEvent {
    /// The QR code was drawn, or could not be.
    Drawn(Result<(), String>),
    /// The refresh interval is over.
    RefreshDue,
    /// The user interrupted.
    Interrupted,
    /// The display was cleared, or could not be.
    Cleared(Result<(), String>),
}

/// What to do next.
#[derive(Debug, Clone, Copy, PartialEq, Eq, Structural)]
pub enum PublishStep {
    /// Draw the ticket as a QR code on the e-paper.
    Draw,
    /// Wait for an interrupt, and for the refresh interval where `refresh` is
    /// set.
    Wait { refresh: bool },
    /// Clear the display, which the datasheet asks for before storage.
    Clear,
    /// Close the broadcast and shut down.
    Close,
}

/// What is written to the log.
#[derive(Debug, Clone, Copy, PartialEq, Eq, Structural)]
pub enum PublishNote {
    Nothing,
    /// The QR code is displayed.
    Displayed,
    /// The QR code could not be displayed. The stream is publishing normally.
    NotDisplayed,
    /// The QR code was drawn again.
    Refreshed,
    /// The QR code could not be drawn again.
    NotRefreshed,
    /// The display is cleared for storage.
    Cleared,
    /// The display could not be cleared.
    NotCleared,
}

/// Where a publish is: waiting for the first QR code, publishing with or
/// without one, or clearing the display.
#[derive(Debug, Clone, Copy, PartialEq, Eq, Structural)]
pub enum PiPublish {
    /// The first QR code is being drawn.
    Drawing,
    /// The stream is up. `epaper` tells whether the display shows the ticket.
    Streaming { epaper: bool },
    /// The display is being cleared.
    Clearing,
    /// The broadcast is being closed.
    Closing,
}

impl PiPublish {
    /// Starts once the stream is published, and returns what to do first.
    ///
    /// The e-paper is optional: a failure only logs a warning.
    pub fn new(epaper: bool) -> (res: (Self, PublishStep))
        ensures
            res == if epaper {
                (PiPublish::Drawing, PublishStep::Draw)
            } else {
                (PiPublish::Streaming { epaper: false }, PublishStep::Wait { refresh: false })
            },
    {
        if epaper {
            (PiPublish::Drawing, PublishStep::Draw)
        } else {
            (PiPublish::Streaming { epaper: false }, PublishStep::Wait { refresh: false })
        }
    }

    /// The state, the next step and the log after an event.
    pub open spec fn after(self, event: PublishEvent) -> (PiPublish, PublishStep, PublishNote) {
        match (self, event) {
            (PiPublish::Drawing, PublishEvent::Drawn(Ok(_))) => (
                PiPublish::Streaming { epaper: true },
                PublishStep::Wait { refresh: true },
                PublishNote::Displayed,
            ),
            (PiPublish::Drawing, PublishEvent::Drawn(Err(_))) => (
                PiPublish::Streaming { epaper: false },
                PublishStep::Wait { refresh: false },
                PublishNote::NotDisplayed,
            ),
            (PiPublish::Streaming { epaper: true }, PublishEvent::RefreshDue) => (
                self,
                PublishStep::Draw,
                PublishNote::Nothing,
            ),
            (PiPublish::Streaming { epaper: true }, PublishEvent::Drawn(outcome)) => (
                self,
                PublishStep::Wait { refresh: true },
                if outcome is Ok {
                    PublishNote::Refreshed
                } else {
                    PublishNote::NotRefreshed
                },
            ),
            (PiPublish::Streaming { epaper: true }, PublishEvent::Interrupted) => (
                PiPublish::Clearing,
                PublishStep::Clear,
                PublishNote::Nothing,
            ),
            (PiPublish::Streaming { epaper: false }, PublishEvent::Interrupted) => (
                PiPublish::Closing,
                PublishStep::Close,
                PublishNote::Nothing,
            ),
            (PiPublish::Clearing, PublishEvent::Cleared(outcome)) => (
                PiPublish::Closing,
                PublishStep::Close,
                if outcome is Ok {
                    PublishNote::Cleared
                } else {
                    PublishNote::NotCleared
                },
            ),
            (PiPublish::Drawing, _) => (self, PublishStep::Draw, PublishNote::Nothing),
            (PiPublish::Streaming { epaper }, _) => (
                self,
                PublishStep::Wait { refresh: epaper },
                PublishNote::Nothing,
            ),
            (PiPublish::Clearing, _) => (self, PublishStep::Clear, PublishNote::Nothing),
            (PiPublish::Closing, _) => (self, PublishStep::Close, PublishNote::Nothing),
        }
    }

    /// Takes an event, and returns what to do next and what goes to the log.
    ///
    /// Where the display shows the ticket it is redrawn every
    /// [`EPAPER_REFRESH_INTERVAL`], and cleared on exit. An event that does not
    /// belong to the state changes nothing.
    pub fn step(&mut self, event: PublishEvent) -> (res: (PublishStep, PublishNote))
        ensures
            (*final(self), res.0, res.1) == old(self).after(event),
    {
        match (*self, event) {
            (PiPublish::Drawing, PublishEvent::Drawn(Ok(_))) => {
                *self = PiPublish::Streaming { epaper: true };
                (PublishStep::Wait { refresh: true }, PublishNote::Displayed)
            },
            (PiPublish::Drawing, PublishEvent::Drawn(Err(_))) => {
                *self = PiPublish::Streaming { epaper: false };
                (PublishStep::Wait { refresh: false }, PublishNote::NotDisplayed)
            },
            (PiPublish::Streaming { epaper: true }, PublishEvent::RefreshDue) => (
                PublishStep::Draw,
                PublishNote::Nothing,
            ),
            (PiPublish::Streaming { epaper: true }, PublishEvent::Drawn(Ok(_))) => (
                PublishStep::Wait { refresh: true },
                PublishNote::Refreshed,
            ),
            (PiPublish::Streaming { epaper: true }, PublishEvent::Drawn(Err(_))) => (
                PublishStep::Wait { refresh: true },
                PublishNote::NotRefreshed,
            ),
            (PiPublish::Streaming { epaper: true }, PublishEvent::Interrupted) => {
                *self = PiPublish::Clearing;
                (PublishStep::Clear, PublishNote::Nothing)
            },
            (PiPublish::Streaming { epaper: false }, PublishEvent::Interrupted) => {
                *self = PiPublish::Closing;
                (PublishStep::Close, PublishNote::Nothing)
            },
            (PiPublish::Clearing, PublishEvent::Cleared(Ok(_))) => {
                *self = PiPublish::Closing;
                (PublishStep::Close, PublishNote::Cleared)
            },
            (PiPublish::Clearing, PublishEvent::Cleared(Err(_))) => {
                *self = PiPublish::Closing;
                (PublishStep::Close, PublishNote::NotCleared)
            },
            (PiPublish::Drawing, _) => (PublishStep::Draw, PublishNote::Nothing),
            (PiPublish::Streaming { epaper }, _) => (
                PublishStep::Wait { refresh: epaper },
                PublishNote::Nothing,
            ),
            (PiPublish::Clearing, _) => (PublishStep::Clear, PublishNote::Nothing),
            (PiPublish::Closing, _) => (PublishStep::Close, PublishNote::Nothing),
        }
    }
}

/// Returns the line that names the ticket of the stream.
pub fn publishing_line(ticket: &str) -> (res: String)
    ensures
        res@ == "publishing at "@ + ticket@,
{
    "publishing at ".to_owned().concat(ticket)
}

/// Returns the ticket to watch, or how to name one.
pub fn watch_ticket(remote: &RemoteArgs) -> (res: Result<BroadcastTicket, String>)
    ensures
        text::outcome(res) == match remote.named() {
            Ok(ticket) => Ok::<TicketView, Seq<char>>(ticket),
            Err(_) => Err(
                "Usage: watch --ticket <TICKET> or --endpoint-id <ID> --name <NAME>"@,
            ),
        },
{
    match remote.ticket() {
        Ok(ticket) => Ok(ticket),
        Err(_) => Err(
            "Usage: watch --ticket <TICKET> or --endpoint-id <ID> --name <NAME>".to_owned(),
        ),
    }
}

/// How a stream is rendered.
#[derive(Debug, Clone, Copy, PartialEq, Eq, Structural)]
pub enum Rendering {
    /// Directly on HDMI, with no window system.
    Hdmi,
    /// In a window.
    Window { fullscreen: bool },
}

/// What happens on the way to a stream on screen.
#[derive(Debug)]
pub enum WatchEvent {
    /// The subscription was answered. `direct` tells whether a direct session
    /// serves it.
    Subscribed { direct: bool },
    /// The wait for a readable catalog is over.
    Catalog(CatalogWait),
    /// The player runs.
    Playing,
}

/// What to do next.
#[derive(Debug, Clone, Copy, PartialEq, Eq, Structural)]
pub enum WatchNext {
    /// Wait for a readable catalog, so a bad publisher gives an error and not a
    /// black screen.
    AwaitCatalog,
    /// Start the player.
    Play,
    /// Render what it plays.
    Render(Rendering),
}

/// What follows an event.
pub open spec fn watch_step(event: WatchEvent, fb: bool, fullscreen: bool, windowed: bool) -> Result<
    WatchNext,
    Seq<char>,
> {
    match event {
        WatchEvent::Subscribed { direct } => if direct {
            Ok(WatchNext::AwaitCatalog)
        } else {
            Err("the broadcast is not served by a direct session"@)
        },
        WatchEvent::Catalog(CatalogWait::Arrived) => Ok(WatchNext::Play),
        WatchEvent::Catalog(CatalogWait::Closed) => Err("the broadcast closed"@),
        WatchEvent::Catalog(CatalogWait::TimedOut) => Err(
            "the broadcast sent no catalog this build could read within 15s"@,
        ),
        WatchEvent::Playing => if fb {
            Ok(WatchNext::Render(Rendering::Hdmi))
        } else if windowed {
            Ok(WatchNext::Render(Rendering::Window { fullscreen }))
        } else {
            Err(
                "windowed mode not compiled in - use --fb or build with --features windowed"@,
            )
        },
    }
}

/// Decides what follows an event. `fb` and `fullscreen` are the options, and
/// `windowed` tells whether the build has windows.
pub fn watch(event: WatchEvent, fb: bool, fullscreen: bool, windowed: bool) -> (res: Result<
    WatchNext,
    String,
>)
    ensures
        match (res, watch_step(event, fb, fullscreen, windowed)) {
            (Ok(next), Ok(want)) => next == want,
            (Err(problem), Err(want)) => problem@ == want,
            _ => false,
        },
{
    match event {
        WatchEvent::Subscribed { direct } => if direct {
            Ok(WatchNext::AwaitCatalog)
        } else {
            Err("the broadcast is not served by a direct session".to_owned())
        },
        WatchEvent::Catalog(CatalogWait::Arrived) => Ok(WatchNext::Play),
        WatchEvent::Catalog(CatalogWait::Closed) => Err("the broadcast closed".to_owned()),
        WatchEvent::Catalog(CatalogWait::TimedOut) => Err(
            "the broadcast sent no catalog this build could read within 15s".to_owned(),
        ),
        WatchEvent::Playing => if fb {
            Ok(WatchNext::Render(Rendering::Hdmi))
        } else if windowed {
            Ok(WatchNext::Render(Rendering::Window { fullscreen }))
        } else {
            Err(
                "windowed mode not compiled in - use --fb or build with --features windowed".to_owned(),
            )
        },
    }
}

/// The display shows the ticket at most as often as it may be refreshed and at
/// least as often as it has to be.
pub proof fn law_the_refresh_interval_suits_the_display()
    ensures
        180 <= EPAPER_REFRESH_INTERVAL <= 24 * 60 * 60,
{
}

/// The display is cleared on exit where it shows the ticket, and left alone
/// where it does not. Either way the broadcast closes in the end.
pub proof fn law_a_shown_ticket_is_cleared(epaper: bool, cleared: Result<(), String>)
    ensures
        ({
            let (state, step, _) = (PiPublish::Streaming { epaper }).after(
                PublishEvent::Interrupted,
            );
            &&& epaper == (step == PublishStep::Clear)
            &&& !epaper ==> step == PublishStep::Close
            &&& epaper ==> state.after(PublishEvent::Cleared(cleared)).1 == PublishStep::Close
        }),
{
}

/// A ticket that could not be drawn at first is not drawn again: without the
/// display nothing waits for a refresh.
pub proof fn law_a_missing_display_is_left_alone(problem: String)
    ensures
        ({
            let (state, step, _) = PiPublish::Drawing.after(PublishEvent::Drawn(Err(problem)));
            &&& step == (PublishStep::Wait { refresh: false })
            &&& state.after(PublishEvent::RefreshDue).1 == (PublishStep::Wait { refresh: false })
        }),
{
}

/// The ticket is drawn first, and from then on again whenever it is due. Once the
/// display fails at the start it is not drawn to again.
pub proof fn law_the_ticket_is_kept_on_the_display(event: PublishEvent)
    ensures
        ({
            let (state, step, note) = PiPublish::Drawing.after(event);
            &&& event matches PublishEvent::Drawn(outcome) ==> state == (PiPublish::Streaming {
                epaper: outcome is Ok,
            }) && step == (PublishStep::Wait { refresh: outcome is Ok }) && (note
                == PublishNote::Displayed <==> outcome is Ok) && (note == PublishNote::NotDisplayed
                <==> outcome is Err)
            &&& !(event is Drawn) ==> state is Drawing && step is Draw && note is Nothing
        }),
        ({
            let (state, step, note) = (PiPublish::Streaming { epaper: true }).after(event);
            &&& event is RefreshDue <==> step is Draw
            &&& event is Interrupted <==> step is Clear
            &&& !(event is Interrupted) ==> state == (PiPublish::Streaming { epaper: true })
            &&& event matches PublishEvent::Drawn(outcome) ==> (note == PublishNote::Refreshed <==>
                outcome is Ok) && (note == PublishNote::NotRefreshed <==> outcome is Err)
            &&& !(event is Drawn) ==> note is Nothing
        }),
        ({
            let (state, step, note) = (PiPublish::Streaming { epaper: false }).after(event);
            &&& event is Interrupted <==> step is Close
            &&& event is Interrupted <==> state is Closing
            &&& !(event is Interrupted) ==> state == (PiPublish::Streaming { epaper: false })
                && step == (PublishStep::Wait { refresh: false })
            &&& note is Nothing
        }),
{
}

/// Once it is closing nothing is drawn or waited for any more, and a display that
/// was cleared, or could not be, is the end.
pub proof fn law_closing_goes_one_way(event: PublishEvent)
    ensures
        ({
            let (state, step, note) = PiPublish::Clearing.after(event);
            &&& event is Cleared <==> state is Closing
            &&& event is Cleared <==> step is Close
            &&& !(event is Cleared) ==> state is Clearing && step is Clear && note is Nothing
            &&& event matches PublishEvent::Cleared(outcome) ==> (note == PublishNote::Cleared <==>
                outcome is Ok) && (note == PublishNote::NotCleared <==> outcome is Err)
        }),
        PiPublish::Closing.after(event) == (
            PiPublish::Closing,
            PublishStep::Close,
            PublishNote::Nothing,
        ),
{
}

/// Only a direct session is watched, and played once its catalog is there.
pub proof fn law_a_watch_goes_step_by_step(
    direct: bool,
    wait: CatalogWait,
    fb: bool,
    fullscreen: bool,
    windowed: bool,
)
    ensures
        watch_step(WatchEvent::Subscribed { direct }, fb, fullscreen, windowed) is Ok <==> direct,
        direct ==> watch_step(WatchEvent::Subscribed { direct }, fb, fullscreen, windowed) == Ok::<
            WatchNext,
            Seq<char>,
        >(WatchNext::AwaitCatalog),
        watch_step(WatchEvent::Catalog(wait), fb, fullscreen, windowed) is Ok <==> wait is Arrived,
        wait is Arrived ==> watch_step(WatchEvent::Catalog(wait), fb, fullscreen, windowed) == Ok::<
            WatchNext,
            Seq<char>,
        >(WatchNext::Play),
        watch_step(WatchEvent::Playing, fb, fullscreen, windowed) is Ok <==> fb || windowed,
{
}

/// The picture goes to the framebuffer where that is asked for, whatever else is,
/// and otherwise to a window that fills the screen where asked.
pub proof fn law_the_picture_goes_where_it_was_asked(fb: bool, fullscreen: bool, windowed: bool)
    ensures
        fb ==> watch_step(WatchEvent::Playing, fb, fullscreen, windowed) == Ok::<
            WatchNext,
            Seq<char>,
        >(WatchNext::Render(Rendering::Hdmi)),
        !fb && windowed ==> watch_step(WatchEvent::Playing, fb, fullscreen, windowed) == Ok::<
            WatchNext,
            Seq<char>,
        >(WatchNext::Render(Rendering::Window { fullscreen })),
{
}

} // verus!
