//! Playback: waiting for a catalog, and opening an audio output.

use vstd::prelude::*;

use crate::text;

verus! {

/// How many seconds a broadcast's catalog may take to arrive once subscribed.
pub const CATALOG_TIMEOUT: u64 = 15;

/// What came of waiting for a broadcast's first catalog.
#[derive(Debug)]
pub enum CatalogWait {
    /// It arrived.
    Arrived,
    /// The broadcast closed first.
    Closed,
    /// None came in time.
    TimedOut,
}

/// Turns a wait for the first catalog into its outcome.
pub fn catalog(wait: CatalogWait) -> (res: Result<(), String>)
    ensures
        match wait {
            CatalogWait::Arrived => res is Ok,
            CatalogWait::Closed => res matches Err(text) && text@
                == "the broadcast closed before it described itself"@,
            CatalogWait::TimedOut => res matches Err(text) && text@
                == "the broadcast sent no catalog within 15s, or sent one this build could not read (the log says which)"@,
        },
{
    match wait {
        CatalogWait::Arrived => Ok(()),
        CatalogWait::Closed => Err("the broadcast closed before it described itself".to_owned()),
        CatalogWait::TimedOut => Err(
            "the broadcast sent no catalog within 15s, or sent one this build could not read (the log says which)".to_owned(),
        ),
    }
}

/// Where audio plays.
#[derive(Debug, PartialEq, Eq)]
pub enum OutputPlan {
    /// On the output that opened.
    Opened,
    /// Nowhere: it is decoded and discarded.
    Discard,
}

/// Decides where audio plays.
///
/// `opened` is what came of opening `device`, or the default output when there
/// is none, in a build with playback. Fails if `device` is set and did not
/// open. A machine with no speaker gets an output that discards audio, so video
/// still plays.
pub fn output(device: Option<&str>, opened: Result<(), String>, playback: bool) -> (res: Result<
    OutputPlan,
    String,
>)
    ensures
        !playback ==> res == Ok::<OutputPlan, String>(OutputPlan::Discard),
        playback && opened is Ok ==> res == Ok::<OutputPlan, String>(OutputPlan::Opened),
        playback && opened is Err && device is None ==> res == Ok::<OutputPlan, String>(
            OutputPlan::Discard,
        ),
        playback && opened is Err && device is Some ==> (res matches Err(text) && text@
            == "cannot open audio output '"@ + device->0@ + "': "@ + opened->Err_0@
            + ". Run `irl devices` for the ids this machine accepts"@),
{
    if !playback {
        return Ok(OutputPlan::Discard);
    }
    match opened {
        Ok(_) => Ok(OutputPlan::Opened),
        Err(err) => match device {
            Some(device) => Err(
                "cannot open audio output '".to_owned().concat(device).concat("': ").concat(
                    err.as_str(),
                ).concat(". Run `irl devices` for the ids this machine accepts"),
            ),
            None => Ok(OutputPlan::Discard),
        },
    }
}

} // verus!
