//! Serving and advertising: what is bound, printed and pushed.

use vstd::prelude::*;

use crate::args::TransportArgs;
use crate::ids::{BroadcastTicket, EndpointId};
use crate::text;

verus! {

/// How many seconds a subscription waits before saying nothing arrived yet.
pub const QUIET_SUBSCRIBE: u64 = 10;

/// How an endpoint uses mDNS.
#[derive(Debug, Clone, Copy, PartialEq, Eq, Structural)]
pub enum Mdns {
    /// Looks others up and announces itself.
    Announce,
    /// Looks others up only.
    Lookup,
}

/// Returns how an endpoint uses mDNS.
///
/// A ticket carries no addresses. A node that does not serve does not announce
/// itself.
pub fn mdns(serve: bool) -> (res: Mdns)
    ensures
        res == if serve {
            Mdns::Announce
        } else {
            Mdns::Lookup
        },
{
    if serve {
        Mdns::Announce
    } else {
        Mdns::Lookup
    }
}

/// How subscribers reach a broadcast.
#[derive(Debug)]
pub struct Advert {
    /// What to print, if anything.
    pub line: Option<String>,
    /// What to warn of, if anything.
    pub warning: Option<String>,
    /// Whether to print the ticket as a QR code.
    pub qr: bool,
    /// The relay to attach to.
    pub relay: Option<EndpointId>,
}

/// Decides what is printed of a broadcast, and where it is pushed.
///
/// The ticket is printed unless `--no-serve` is set, and the relay attached if
/// one was named.
pub fn advertise(args: &TransportArgs, ticket: &str) -> (res: Advert)
    ensures
        res.relay == args.relay,
        res.qr == (!args.no_serve && !args.no_qr),
        text::opt_text(res.line) == if !args.no_serve {
            Some("publishing at "@ + ticket@)
        } else if args.relay is Some {
            Some("not serving: subscribers reach this broadcast by relay"@)
        } else {
            None
        },
        text::opt_text(res.warning) == if args.no_serve && args.relay is None {
            Some(
                "--no-serve without --relay: nothing can reach this broadcast, since this node neither accepts subscribers nor pushes to a relay"@,
            )
        } else {
            None
        },
{
    let (line, warning): (Option<String>, Option<String>) = if !args.no_serve {
        (Some("publishing at ".to_owned().concat(ticket)), None)
    } else if args.relay.is_some() {
        (Some("not serving: subscribers reach this broadcast by relay".to_owned()), None)
    } else {
        (
            None,
            Some(
                "--no-serve without --relay: nothing can reach this broadcast, since this node neither accepts subscribers nor pushes to a relay".to_owned(),
            ),
        )
    };
    Advert { line, warning, qr: !args.no_serve && !args.no_qr, relay: args.relay }
}

/// Returns the address of a relay.
pub fn relay_url(relay: &EndpointId) -> (res: String)
    ensures
        res@ == "iroh://"@ + relay.long() + "/"@,
{
    "iroh://".to_owned().concat(relay.to_hex().as_str()).concat("/")
}

/// Returns the line that says where viewers find the broadcast on a relay.
pub fn relay_line(relay: &EndpointId, path: &str) -> (res: String)
    ensures
        res@ == "pushing to relay "@ + relay.long() + ": viewers find the broadcast there at "@
            + path@,
{
    "pushing to relay ".to_owned().concat(relay.to_hex().as_str()).concat(
        ": viewers find the broadcast there at ",
    ).concat(path)
}

/// Returns the line that says a subscription begins.
pub fn connecting_line(ticket: &str) -> (res: String)
    ensures
        res@ == "connecting to "@ + ticket@ + " ..."@,
{
    "connecting to ".to_owned().concat(ticket).concat(" ...")
}

/// Returns the line that says nothing arrived yet.
///
/// The subscription keeps waiting, since starting a subscriber before its
/// publisher is normal.
pub fn still_waiting_line(ticket: &BroadcastTicket) -> (res: String)
    ensures
        res@ == "still waiting for '"@ + ticket.name@ + "' on "@ + ticket.endpoint.short()
            + ": is the publisher running? press Ctrl+C to give up"@,
{
    "still waiting for '".to_owned().concat(ticket.name.as_str()).concat("' on ").concat(
        ticket.endpoint.fmt_short().as_str(),
    ).concat(": is the publisher running? press Ctrl+C to give up")
}

} // verus!
