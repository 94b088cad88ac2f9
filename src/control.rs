//! The administrative surface: the local-mode gate, the decision on a
//! proposed configuration, and the lifecycle signals.
use crate::settings::{Config, ConfigModel, Settings};
use vstd::prelude::*;

verus! {

/// How long an accepted draft waits before it is handed to the reload
/// consumer, so that the reply to the proposal goes out first.
pub const RELOAD_DELAY_MS: u64 = 100;

/// A failure of an administrative request.
#[derive(Clone, Debug)]
pub enum ApiError {
    /// The configuration is managed locally, not through this interface.
    AuthorityDenied,
    /// The draft is not a valid configuration; the parser's message.
    InvalidDraft { message: String },
    /// The draft equals the live configuration.
    NoChange,
}

/// An accepted draft, to be handed to the reload consumer after a delay.
#[derive(Clone, Debug)]
pub struct Delivery {
    pub draft: String,
    pub delay_ms: u64,
}

/// The answer to a proposal, and the delivery it schedules, if any.
pub struct SetConfigOutcome {
    pub reply: Result<bool, ApiError>,
    pub delivery: Option<Delivery>,
}

/// One of the three lifecycle signals.
#[derive(Clone, Copy, Debug, PartialEq, Eq, Structural)]
pub enum Signal {
    Terminate,
    Reboot,
    PowerOff,
}

/// The lifecycle signals fired and not yet consumed by the supervisor. Each
/// is a single slot: firing it again before it is consumed changes nothing.
#[derive(Clone, Copy, Debug, PartialEq, Eq, Structural)]
pub struct PendingSignals {
    pub terminate: bool,
    pub reboot: bool,
    pub power_off: bool,
}

pub open spec fn is_pending(p: PendingSignals, s: Signal) -> bool {
    match s {
        Signal::Terminate => p.terminate,
        Signal::Reboot => p.reboot,
        Signal::PowerOff => p.power_off,
    }
}

pub open spec fn with_signal(p: PendingSignals, s: Signal, v: bool) -> PendingSignals {
    match s {
        Signal::Terminate => PendingSignals { terminate: v, ..p },
        Signal::Reboot => PendingSignals { reboot: v, ..p },
        Signal::PowerOff => PendingSignals { power_off: v, ..p },
    }
}

impl PendingSignals {
    /// No signal pending.
    pub fn new() -> (r: PendingSignals)
        ensures
            !r.terminate && !r.reboot && !r.power_off,
    {
        PendingSignals { terminate: false, reboot: false, power_off: false }
    }

    /// Fires a signal. It never fails.
    pub fn fire(&mut self, s: Signal) -> (r: bool)
        ensures
            r,
            *final(self) == with_signal(*old(self), s, true),
    {
        match s {
            Signal::Terminate => self.terminate = true,
            Signal::Reboot => self.reboot = true,
            Signal::PowerOff => self.power_off = true,
        }
        true
    }

    /// Consumes a signal: whether it was pending; it is not pending after.
    pub fn take(&mut self, s: Signal) -> (r: bool)
        ensures
            r == is_pending(*old(self), s),
            *final(self) == with_signal(*old(self), s, false),
    {
        match s {
            Signal::Terminate => {
                let r = self.terminate;
                self.terminate = false;
                r
            },
            Signal::Reboot => {
                let r = self.reboot;
                self.reboot = false;
                r
            },
            Signal::PowerOff => {
                let r = self.power_off;
                self.power_off = false;
                r
            },
        }
    }
}

/// Firing a signal twice before it is consumed leaves the same state as
/// firing it once.
pub proof fn lemma_fire_coalesces(p: PendingSignals, s: Signal)
    ensures
        with_signal(with_signal(p, s, true), s, true) == with_signal(p, s, true),
        is_pending(with_signal(p, s, true), s),
{
}

/// The outcome owed to a draft against the live configuration `live`.
pub open spec fn decided(
    r: SetConfigOutcome,
    live: ConfigModel,
    draft: Seq<char>,
    parsed: Result<Config, String>,
) -> bool {
    match parsed {
        Err(m) => r.delivery is None && match r.reply {
            Err(ApiError::InvalidDraft { message }) => message@ == m@,
            _ => false,
        },
        Ok(c) => if c@ == live {
            r.delivery is None && (r.reply matches Err(ApiError::NoChange))
        } else {
            (r.reply matches Ok(true)) && match r.delivery {
                Some(d) => d.draft@ == draft && d.delay_ms == RELOAD_DELAY_MS,
                None => false,
            }
        },
    }
}

/// Decides on a draft configuration against the live one: a draft that does
/// not parse is refused with the parser's message, one equal to the live
/// configuration is refused as no change, any other is accepted and
/// scheduled for delivery.
pub fn propose_config(live: &Config, draft: String, parsed: Result<Config, String>) -> (r:
    SetConfigOutcome)
    ensures
        decided(r, live@, draft@, parsed),
{
    match parsed {
        Err(m) => SetConfigOutcome { reply: Err(ApiError::InvalidDraft { message: m }), delivery: None },
        Ok(c) => {
            if c.same_as(live) {
                SetConfigOutcome { reply: Err(ApiError::NoChange), delivery: None }
            } else {
                SetConfigOutcome {
                    reply: Ok(true),
                    delivery: Some(Delivery { draft, delay_ms: RELOAD_DELAY_MS }),
                }
            }
        },
    }
}

/// The administrative interface of one process: its mode and its live
/// settings.
pub struct AdminApi {
    /// Whether the process was started from a local configuration file.
    pub is_local: bool,
    pub settings: Settings,
}

impl AdminApi {
    pub fn new(is_local: bool, settings: Settings) -> (r: AdminApi)
        ensures
            r.is_local == is_local,
            r.settings == settings,
    {
        AdminApi { is_local, settings }
    }

    /// The live configuration; refused in local mode.
    pub fn config(&self) -> (r: Result<&Config, ApiError>)
        ensures
            self.is_local ==> r matches Err(ApiError::AuthorityDenied),
            !self.is_local ==> (r matches Ok(c) && *c == self.settings.config),
    {
        if self.is_local {
            Err(ApiError::AuthorityDenied)
        } else {
            Ok(&self.settings.config)
        }
    }

    /// Proposes a draft configuration, given as its text and what it parses
    /// to. In local mode the proposal is declined with `false` and nothing is
    /// scheduled; otherwise it is decided by `propose_config`. The live
    /// settings are never changed here.
    pub fn set_config(&self, draft: String, parsed: Result<Config, String>) -> (r: SetConfigOutcome)
        ensures
            self.is_local ==> (r.reply matches Ok(false)) && r.delivery is None,
            !self.is_local ==> decided(r, self.settings.config@, draft@, parsed),
    {
        if self.is_local {
            SetConfigOutcome { reply: Ok(false), delivery: None }
        } else {
            propose_config(&self.settings.config, draft, parsed)
        }
    }

    /// The liveness probe.
    pub fn ping(&self) -> (r: bool)
        ensures
            r,
    {
        true
    }

    /// Asks the supervisor to stop the process; available in either mode.
    pub fn stop(&self, pending: &mut PendingSignals) -> (r: bool)
        ensures
            r,
            *final(pending) == with_signal(*old(pending), Signal::Terminate, true),
    {
        pending.fire(Signal::Terminate)
    }

    /// Asks the supervisor to reboot the machine; available in either mode.
    pub fn reboot(&self, pending: &mut PendingSignals) -> (r: bool)
        ensures
            r,
            *final(pending) == with_signal(*old(pending), Signal::Reboot, true),
    {
        pending.fire(Signal::Reboot)
    }

    /// Asks the supervisor to power the machine off; available in either mode.
    pub fn shutdown(&self, pending: &mut PendingSignals) -> (r: bool)
        ensures
            r,
            *final(pending) == with_signal(*old(pending), Signal::PowerOff, true),
    {
        pending.fire(Signal::PowerOff)
    }
}

/// Resubmitting a draft that parses to the live configuration is refused as
/// no change and schedules nothing.
pub proof fn lemma_resubmission_is_no_change(
    r: SetConfigOutcome,
    live: ConfigModel,
    draft: Seq<char>,
    c: Config,
)
    requires
        decided(r, live, draft, Ok(c)),
        c@ == live,
    ensures
        r.reply matches Err(ApiError::NoChange),
        r.delivery is None,
{
}

/// A draft that does not parse is refused with the parser's message and
/// schedules nothing.
pub proof fn lemma_unparsable_draft_is_refused(
    r: SetConfigOutcome,
    live: ConfigModel,
    draft: Seq<char>,
    m: String,
)
    requires
        decided(r, live, draft, Err(m)),
    ensures
        r.reply matches Err(ApiError::InvalidDraft { message }),
        r.delivery is None,
{
}

/// A draft that differs from the live configuration is accepted, and exactly
/// one delivery of its text is scheduled after the delay.
pub proof fn lemma_different_draft_is_delivered(
    r: SetConfigOutcome,
    live: ConfigModel,
    draft: Seq<char>,
    c: Config,
)
    requires
        decided(r, live, draft, Ok(c)),
        c@ != live,
    ensures
        r.reply matches Ok(true),
        r.delivery matches Some(d),
        r.delivery->Some_0.draft@ == draft,
        r.delivery->Some_0.delay_ms == RELOAD_DELAY_MS,
{
}

} // verus!
