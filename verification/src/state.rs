//! The monitor's operational state: activity flag, last-update timestamp,
//! event counter, and error log. The surrounding application persists the
//! record after every mutation; when a persist fails, the state is marked
//! inactive and the failure is logged, and the monitor keeps running while
//! flagging itself as unreliable.
//!
//! Timestamps come in as plain values from the caller, so every function
//! here is a pure transition on the record.

use vstd::prelude::*;

verus! {

/// What kind of failure an error-log entry records.
#[derive(Clone, Copy, Debug, PartialEq, Eq, Structural)]
pub enum ErrorKind {
    /// The settings could not be loaded or were malformed.
    InvalidFile,
    /// The state record could not be persisted.
    GeneralError,
    /// The notification could not be prepared or sent.
    Notification,
}

/// One entry of the error log.
#[derive(Clone, Debug)]
pub struct ErrorEntry {
    pub kind: ErrorKind,
    pub message: String,
}

/// The part of the loaded configuration that the state embeds.
#[derive(Clone, Copy, Debug, PartialEq, Eq, Structural)]
pub struct StateConfig {
    pub debug_mode: bool,
}

/// The mathematical model of the operational state.
pub ghost struct StateModel {
    pub data: Seq<char>,
    pub last_updated: u64,
    pub event_counter: u64,
    pub is_active: bool,
    pub error_log: Seq<ErrorEntry>,
    pub config: StateConfig,
}

/// The durable record of the monitor's run-time status. It survives process
/// restarts: the application loads it at startup and persists it after every
/// mutation.
#[derive(Clone, Debug)]
pub struct AppState {
    pub data: String,
    pub last_updated: u64,
    pub event_counter: u64,
    pub is_active: bool,
    pub error_log: Vec<ErrorEntry>,
    pub config: StateConfig,
}

impl View for AppState {
    type V = StateModel;

    open spec fn view(&self) -> StateModel {
        StateModel {
            data: self.data@,
            last_updated: self.last_updated,
            event_counter: self.event_counter,
            is_active: self.is_active,
            error_log: self.error_log@,
            config: self.config,
        }
    }
}

/// A fresh state for a first run, before any cycle: inactive, counter at
/// zero, empty error log, stamped with the current time.
pub fn get_initial_state(config: StateConfig, now: u64) -> (s: AppState)
    ensures
        s@ == (StateModel {
            data: Seq::<char>::empty(),
            last_updated: now,
            event_counter: 0,
            is_active: false,
            error_log: Seq::<ErrorEntry>::empty(),
            config,
        }),
{
    AppState {
        data: String::new(),
        last_updated: now,
        event_counter: 0,
        is_active: false,
        error_log: Vec::new(),
        config,
    }
}

impl AppState {
    /// Refresh the last-update timestamp, ahead of a persist.
    pub fn touch(&mut self, now: u64)
        ensures
            final(self)@ == (StateModel { last_updated: now, ..old(self)@ }),
    {
        self.last_updated = now;
    }

    /// Record that persisting the state failed: the failure joins the error
    /// log and the state flags itself as unreliable. Exactly one entry is
    /// appended, and nothing else changes.
    pub fn record_save_failure(&mut self, message: String)
        ensures
            final(self)@ == (StateModel {
                is_active: false,
                error_log: old(self)@.error_log.push(
                    ErrorEntry { kind: ErrorKind::GeneralError, message },
                ),
                ..old(self)@
            }),
    {
        self.is_active = false;
        self.error_log.push(ErrorEntry { kind: ErrorKind::GeneralError, message });
    }

    /// Append one entry to the error log; nothing else changes.
    pub fn record_error(&mut self, kind: ErrorKind, message: String)
        ensures
            final(self)@ == (StateModel {
                error_log: old(self)@.error_log.push(ErrorEntry { kind, message }),
                ..old(self)@
            }),
    {
        self.error_log.push(ErrorEntry { kind, message });
    }

    /// Take over the debug flag from the loaded configuration.
    pub fn set_debug_mode(&mut self, debug_mode: bool)
        ensures
            final(self)@ == (StateModel { config: StateConfig { debug_mode }, ..old(self)@ }),
    {
        self.config = StateConfig { debug_mode };
    }

    /// Mark the monitor active, with a description of what it is doing.
    pub fn mark_active(&mut self, data: String)
        ensures
            final(self)@ == (StateModel { is_active: true, data: data@, ..old(self)@ }),
    {
        self.is_active = true;
        self.data = data;
    }
}

/// How one cycle's notification ended, as the application reports it.
pub enum NotifyOutcome {
    /// The notification could not be encrypted or prepared. This is fatal:
    /// the failure is recorded and the monitor stops.
    EncryptFailed { error: String },
    /// The notification was prepared but could not be sent. The failure is
    /// recorded and the monitor keeps running.
    SendFailed { error: String },
    /// The notification went out.
    Sent,
}

/// The state after one cycle completes with the given notification outcome
/// at the given time: the counter advances exactly once per completed cycle
/// (a cycle whose notification could not be prepared does not complete), and
/// each notification failure joins the error log.
pub open spec fn spec_complete_cycle(m: StateModel, outcome: NotifyOutcome, now: u64) -> StateModel
    recommends
        m.event_counter < u64::MAX,
{
    match outcome {
        NotifyOutcome::EncryptFailed { error } => StateModel {
            last_updated: now,
            error_log: m.error_log.push(ErrorEntry { kind: ErrorKind::Notification, message: error }),
            ..m
        },
        NotifyOutcome::SendFailed { error } => StateModel {
            last_updated: now,
            event_counter: (m.event_counter + 1) as u64,
            error_log: m.error_log.push(ErrorEntry { kind: ErrorKind::Notification, message: error }),
            ..m
        },
        NotifyOutcome::Sent => StateModel {
            last_updated: now,
            event_counter: (m.event_counter + 1) as u64,
            ..m
        },
    }
}

impl AppState {
    /// Close one cycle: log a notification failure if there was one, advance
    /// the event counter unless the notification could not even be prepared,
    /// and refresh the timestamp. Returns whether the failure was fatal.
    pub fn complete_cycle(&mut self, outcome: NotifyOutcome, now: u64) -> (fatal: bool)
        requires
            old(self).event_counter < u64::MAX,
        ensures
            final(self)@ == spec_complete_cycle(old(self)@, outcome, now),
            fatal == (outcome is EncryptFailed),
    {
        match outcome {
            NotifyOutcome::EncryptFailed { error } => {
                self.error_log.push(ErrorEntry { kind: ErrorKind::Notification, message: error });
                self.last_updated = now;
                true
            },
            NotifyOutcome::SendFailed { error } => {
                self.error_log.push(ErrorEntry { kind: ErrorKind::Notification, message: error });
                self.event_counter = self.event_counter + 1;
                self.last_updated = now;
                false
            },
            NotifyOutcome::Sent => {
                self.event_counter = self.event_counter + 1;
                self.last_updated = now;
                false
            },
        }
    }
}

/// The state after a run of cycles, each with its notification outcome and
/// its closing time.
pub open spec fn spec_run_cycles(m: StateModel, events: Seq<(NotifyOutcome, u64)>) -> StateModel
    decreases events.len(),
{
    if events.len() == 0 {
        m
    } else {
        spec_complete_cycle(spec_run_cycles(m, events.drop_last()), events.last().0, events.last().1)
    }
}

/// After a run of completed cycles the event counter has advanced by exactly
/// the number of cycles, whatever mix of sent and failed-to-send
/// notifications the cycles had (and however many probes failed within them,
/// since probe results never touch the counter).
pub proof fn lemma_event_counter_after_cycles(m: StateModel, events: Seq<(NotifyOutcome, u64)>)
    requires
        m.event_counter + events.len() <= u64::MAX,
        forall|i: int| 0 <= i < events.len() ==> !((#[trigger] events[i]).0 is EncryptFailed),
    ensures
        spec_run_cycles(m, events).event_counter == m.event_counter + events.len(),
    decreases events.len(),
{
    if events.len() > 0 {
        assert(forall|i: int|
            0 <= i < events.drop_last().len() ==> events.drop_last()[i] == events[i]);
        lemma_event_counter_after_cycles(m, events.drop_last());
    }
}

} // verus!
