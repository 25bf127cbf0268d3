//! Keeping the device reachable: when to join the configured network, when
//! to fall back to an access point of its own, and when to try again.
//!
//! The task that owns the radio does the connecting and reports how it went;
//! what to do next is decided here. It hears of new credentials through a
//! channel that holds one message, so the control loop never waits for it.

use crate::config::WifiDetails;
use vstd::prelude::*;
use vstd::string::StringExecFns;

verus! {

/// Seconds between two health checks.
pub const HEALTH_CHECK_SECS: u64 = 120;

/// Milliseconds to let pass between the arrival of new credentials and the
/// reconfiguration of the radio, so that the request that brought them can
/// still be answered.
pub const RECONFIGURE_DELAY_MILLIS: u64 = 10;

/// The least and the greatest number that an access point's name can end in.
pub const MIN_SSID_SUFFIX: u32 = 1000;

pub const MAX_SSID_SUFFIX: u32 = 9999;

/// What the radio is doing.
#[derive(PartialEq, Eq, Structural, Clone, Copy, Debug)]
pub enum WifiMode {
    /// Nothing yet.
    Idle,
    /// Joining the configured network.
    Connecting,
    /// Joined to the configured network.
    Station,
    /// Offering an access point of its own since `since`, in milliseconds
    /// since the Unix epoch.
    AccessPoint { since: i64 },
}

/// What the radio task reports.
#[derive(PartialEq, Debug)]
pub enum WifiEvent {
    /// The configuration holds other credentials now, or none.
    CredentialsChanged(Option<WifiDetails>),
    /// The attempt to join the network succeeded.
    ConnectSucceeded,
    /// The attempt to join the network failed.
    ConnectFailed,
    /// The time of a health check has come; `link_up` says whether the
    /// radio is still joined to a network.
    HealthCheck { link_up: bool },
}

/// What the radio task is to do.
#[derive(PartialEq, Debug)]
pub enum WifiAction {
    /// Join the network with these credentials, and report how it went.
    Connect(WifiDetails),
    /// Offer an access point.
    StartAccessPoint,
    Nothing,
}

/// The state of connectivity recovery.
#[derive(PartialEq, Debug)]
pub struct Connectivity {
    /// The credentials of the network to be joined, if any are configured.
    pub credentials: Option<WifiDetails>,
    pub mode: WifiMode,
    /// Milliseconds for which the access point is offered before the
    /// configured network is tried again.
    pub retry_after_ms: u64,
}

impl Connectivity {
    /// Whether a health check at `now` finds that the network should be
    /// tried again: there are credentials, and either the device is joined
    /// but the link is down, or it has offered its access point for the time
    /// after which to try again.
    pub open spec fn due_for_retry(self, link_up: bool, now: i64) -> bool {
        &&& self.credentials is Some
        &&& match self.mode {
            WifiMode::Station => !link_up,
            WifiMode::AccessPoint { since } => now - since >= self.retry_after_ms,
            _ => false,
        }
    }

    /// The mode after `event` at `now`.
    pub open spec fn mode_after(self, event: WifiEvent, now: i64) -> WifiMode {
        match event {
            WifiEvent::CredentialsChanged(Some(_)) => WifiMode::Connecting,
            WifiEvent::CredentialsChanged(None) => WifiMode::AccessPoint { since: now },
            WifiEvent::ConnectSucceeded => if self.mode == WifiMode::Connecting {
                WifiMode::Station
            } else {
                self.mode
            },
            WifiEvent::ConnectFailed => if self.mode == WifiMode::Connecting {
                WifiMode::AccessPoint { since: now }
            } else {
                self.mode
            },
            WifiEvent::HealthCheck { link_up } => if self.due_for_retry(link_up, now) {
                WifiMode::Connecting
            } else {
                self.mode
            },
        }
    }

    /// The credentials after `event`.
    pub open spec fn credentials_after(self, event: WifiEvent) -> Option<WifiDetails> {
        match event {
            WifiEvent::CredentialsChanged(credentials) => credentials,
            _ => self.credentials,
        }
    }

    /// What is to be done after `event` at `now`: new credentials are tried
    /// at once; without credentials, and when an attempt has failed, the
    /// access point is offered; a health check that finds a retry due tries
    /// the stored credentials again.
    pub open spec fn action_after(self, event: WifiEvent, now: i64) -> WifiAction {
        match event {
            WifiEvent::CredentialsChanged(Some(credentials)) => WifiAction::Connect(credentials),
            WifiEvent::CredentialsChanged(None) => WifiAction::StartAccessPoint,
            WifiEvent::ConnectSucceeded => WifiAction::Nothing,
            WifiEvent::ConnectFailed => if self.mode == WifiMode::Connecting {
                WifiAction::StartAccessPoint
            } else {
                WifiAction::Nothing
            },
            WifiEvent::HealthCheck { link_up } => if self.due_for_retry(link_up, now) {
                WifiAction::Connect(self.credentials->0)
            } else {
                WifiAction::Nothing
            },
        }
    }

    /// Recovery that has nothing configured yet and has done nothing yet.
    pub fn new(retry_after_ms: u64) -> (r: Connectivity)
        ensures
            r.credentials is None,
            r.mode == WifiMode::Idle,
            r.retry_after_ms == retry_after_ms,
    {
        Connectivity { credentials: None, mode: WifiMode::Idle, retry_after_ms }
    }

    /// Takes note of `event`, which happened at `now`, in milliseconds since
    /// the Unix epoch, and says what the radio task is to do.
    pub fn on_event(&mut self, event: WifiEvent, now: i64) -> (r: WifiAction)
        ensures
            r == old(self).action_after(event, now),
            final(self).mode == old(self).mode_after(event, now),
            final(self).credentials == old(self).credentials_after(event),
            final(self).retry_after_ms == old(self).retry_after_ms,
            r is Connect ==> final(self).credentials == Some(r->Connect_0) && final(self).mode
                == WifiMode::Connecting,
            r is StartAccessPoint ==> final(self).mode == (WifiMode::AccessPoint { since: now }),
    {
        match event {
            WifiEvent::CredentialsChanged(Some(credentials)) => {
                let wanted = credentials.clone();
                self.credentials = Some(credentials);
                self.mode = WifiMode::Connecting;
                WifiAction::Connect(wanted)
            },
            WifiEvent::CredentialsChanged(None) => {
                self.credentials = None;
                self.mode = WifiMode::AccessPoint { since: now };
                WifiAction::StartAccessPoint
            },
            WifiEvent::ConnectSucceeded => {
                if let WifiMode::Connecting = self.mode {
                    self.mode = WifiMode::Station;
                }
                WifiAction::Nothing
            },
            WifiEvent::ConnectFailed => {
                if let WifiMode::Connecting = self.mode {
                    self.mode = WifiMode::AccessPoint { since: now };
                    WifiAction::StartAccessPoint
                } else {
                    WifiAction::Nothing
                }
            },
            WifiEvent::HealthCheck { link_up } => {
                let due: bool = match self.mode {
                    WifiMode::Station => !link_up,
                    WifiMode::AccessPoint { since } => (now as i128) - (since as i128) >= (
                    self.retry_after_ms as i128),
                    _ => false,
                };
                match &self.credentials {
                    Some(credentials) => if due {
                        let wanted = credentials.clone();
                        self.mode = WifiMode::Connecting;
                        WifiAction::Connect(wanted)
                    } else {
                        WifiAction::Nothing
                    },
                    None => WifiAction::Nothing,
                }
            },
        }
    }
}

/// The character that stands for the digit `d`.
pub open spec fn digit_char(d: int) -> char {
    if d == 0 {
        '0'
    } else if d == 1 {
        '1'
    } else if d == 2 {
        '2'
    } else if d == 3 {
        '3'
    } else if d == 4 {
        '4'
    } else if d == 5 {
        '5'
    } else if d == 6 {
        '6'
    } else if d == 7 {
        '7'
    } else if d == 8 {
        '8'
    } else {
        '9'
    }
}

/// The name of the access point that ends in the number `suffix`: `oasis-`
/// and the four digits of the number.
pub open spec fn ssid_text(suffix: int) -> Seq<char> {
    "oasis-"@ + seq![
        digit_char(suffix / 1000),
        digit_char((suffix / 100) % 10),
        digit_char((suffix / 10) % 10),
        digit_char(suffix % 10),
    ]
}

fn digit_str(d: u32) -> (r: &'static str)
    requires
        d < 10,
    ensures
        r@ == seq![digit_char(d as int)],
{
    proof {
        reveal_strlit("0");
        reveal_strlit("1");
        reveal_strlit("2");
        reveal_strlit("3");
        reveal_strlit("4");
        reveal_strlit("5");
        reveal_strlit("6");
        reveal_strlit("7");
        reveal_strlit("8");
        reveal_strlit("9");
    }
    let text: &'static str = if d == 0 {
        "0"
    } else if d == 1 {
        "1"
    } else if d == 2 {
        "2"
    } else if d == 3 {
        "3"
    } else if d == 4 {
        "4"
    } else if d == 5 {
        "5"
    } else if d == 6 {
        "6"
    } else if d == 7 {
        "7"
    } else if d == 8 {
        "8"
    } else {
        "9"
    };
    assert(text@ =~= seq![digit_char(d as int)]);
    text
}

/// The name of the access point that ends in the number `suffix`, which is
/// to have four digits; there is no name for another number.
pub fn access_point_ssid(suffix: u32) -> (r: Option<String>)
    ensures
        r is Some <==> MIN_SSID_SUFFIX <= suffix <= MAX_SSID_SUFFIX,
        r is Some ==> r->0@ == ssid_text(suffix as int) && r->0@.len() == 10,
{
    if suffix < MIN_SSID_SUFFIX || suffix > MAX_SSID_SUFFIX {
        return None;
    }
    proof {
        reveal_strlit("oasis-");
    }
    let name = String::from_str("oasis-").concat(digit_str(suffix / 1000)).concat(
        digit_str((suffix / 100) % 10),
    ).concat(digit_str((suffix / 10) % 10)).concat(digit_str(suffix % 10));
    assert(name@ =~= ssid_text(suffix as int));
    Some(name)
}

/// Draws a number from `low` up to and including `high` with
/// `rand::Rng::random_range` on the generator of the thread, `rand::rng`.
/// The contract claims what the documentation of `random_range` says, that
/// the number lies in the range; an empty range, on which it panics, is
/// ruled out.
#[verifier::external_body]
fn random_between(low: u32, high: u32) -> (r: u32)
    requires
        low <= high,
    ensures
        low <= r <= high,
{
    rand::Rng::random_range(&mut rand::rng(), low..=high)
}

/// A name for an access point, with four digits drawn at random.
pub fn random_access_point_ssid() -> (r: String)
    ensures
        exists|suffix: int|
            MIN_SSID_SUFFIX <= suffix <= MAX_SSID_SUFFIX && r@ == #[trigger] ssid_text(suffix),
        r@.len() == 10,
{
    let suffix: u32 = random_between(MIN_SSID_SUFFIX, MAX_SSID_SUFFIX);
    match access_point_ssid(suffix) {
        Some(name) => {
            assert(name@ == ssid_text(suffix as int));
            name
        },
        None => {
            proof {
                assert(false);
            }
            String::new()
        },
    }
}

} // verus!
