//! `irl relay`: starts a local relay server for browser WebTransport bridging.
//!
//! The relay is a binary of its own, `iroh-live-relay`.

use vstd::prelude::*;

use crate::text;

verus! {

/// The name of the relay binary.
pub const RELAY_BINARY: &'static str = "iroh-live-relay";

/// The bind address when none is given.
pub const DEFAULT_BIND: &'static str = "[::]:4443";

/// Arguments for `irl relay`.
#[derive(Debug)]
pub struct RelayArgs {
    /// Dev mode: self-signed TLS certificates, prints fingerprint URL.
    pub dev: bool,
    /// QUIC bind address (WebTransport and iroh).
    pub bind: String,
    /// HTTP bind address (static files and fingerprint endpoint). Defaults to
    /// the same as `bind`.
    pub http_bind: Option<String>,
}

impl Default for RelayArgs {
    fn default() -> (res: Self)
        ensures
            res.dev,
            res.bind@ == DEFAULT_BIND@,
            res.http_bind is None,
    {
        RelayArgs { dev: true, bind: DEFAULT_BIND.to_owned(), http_bind: None }
    }
}

impl RelayArgs {
    /// The arguments the relay binary is started with.
    pub open spec fn passed_on(self) -> Seq<Seq<char>> {
        let dev = if self.dev {
            seq!["--dev"@]
        } else {
            seq![]
        };
        let bind = seq!["--bind"@, self.bind@];
        let http = match self.http_bind {
            Some(http_bind) => seq!["--http-bind"@, http_bind@],
            None => seq![],
        };
        dev + bind + http
    }

    /// Returns the arguments the relay binary is started with.
    pub fn command_args(&self) -> (res: Vec<String>)
        ensures
            text::string_list(res@) == self.passed_on(),
    {
        let mut args: Vec<String> = Vec::new();
        if self.dev {
            args.push("--dev".to_owned());
        }
        args.push("--bind".to_owned());
        args.push(self.bind.clone());
        if let Some(http_bind) = &self.http_bind {
            args.push("--http-bind".to_owned());
            args.push(http_bind.clone());
        }
        assert(text::string_list(args@) =~= self.passed_on());
        args
    }
}

/// Picks the relay binary: the one next to this executable, if it is there, and
/// otherwise the one on `PATH`.
///
/// `sibling` is the path next to this executable and whether a file is there.
pub fn find_relay_binary(sibling: Option<(String, bool)>) -> (res: String)
    ensures
        res@ == match sibling {
            Some((path, exists)) => if exists {
                path@
            } else {
                RELAY_BINARY@
            },
            None => RELAY_BINARY@,
        },
{
    match sibling {
        Some((path, exists)) => if exists {
            path
        } else {
            RELAY_BINARY.to_owned()
        },
        None => RELAY_BINARY.to_owned(),
    }
}

/// What came of running the relay binary.
#[derive(Debug)]
pub enum RelayExit {
    /// It would not start, with the reason.
    NotStarted(String),
    /// It ended, with its status as text and whether that is success.
    Ended { status: String, success: bool },
}

/// Decides whether running the relay was a success.
pub fn relay_outcome(exit: RelayExit) -> (res: Result<(), String>)
    ensures
        match exit {
            RelayExit::NotStarted(err) => res matches Err(text) && text@
                == "failed to start iroh-live-relay: "@ + err@ + ". Is it installed?"@,
            RelayExit::Ended { status, success } => if success {
                res is Ok
            } else {
                res matches Err(text) && text@ == "iroh-live-relay exited with "@ + status@
            },
        },
{
    match exit {
        RelayExit::NotStarted(err) => Err(
            "failed to start iroh-live-relay: ".to_owned().concat(err.as_str()).concat(
                ". Is it installed?",
            ),
        ),
        RelayExit::Ended { status, success } => if success {
            Ok(())
        } else {
            Err("iroh-live-relay exited with ".to_owned().concat(status.as_str()))
        },
    }
}

/// The relay is given the address to bind, the one for HTTP where there is one,
/// and `--dev` where it is set.
pub proof fn law_the_relay_gets_its_arguments(args: RelayArgs)
    ensures
        ({
            let line = args.passed_on();
            let at = if args.dev {
                1int
            } else {
                0int
            };
            &&& args.dev ==> line[0] == "--dev"@
            &&& line[at] == "--bind"@ && line[at + 1] == args.bind@
            &&& args.http_bind is None ==> line.len() == at + 2
            &&& args.http_bind matches Some(http) ==> line.len() == at + 4 && line[at + 2]
                == "--http-bind"@ && line[at + 3] == http@
        }),
{
}

} // verus!
