//! The security gate: the audit trail of login attempts, and the policy
//! that may still turn a user away after the provider has vouched for them.
//!
//! The security gate writes one audit entry for every attempt and only then asks the
//! policy, so that an attempt which is denied is on record like one which is
//! allowed. An attempt that cannot be recorded is not let through.

use crate::claims::optional_view;
use crate::directory::{StoreError, User, UserView};
use crate::provider::{ExternalProfile, ProfileView};
use vstd::prelude::*;

verus! {

/// The event kind of a login attempt.
pub const LOGIN_ATTEMPT: i32 = 1;

/// Why the policy turns a user away.
#[derive(Debug, Clone, Copy, PartialEq, Eq, Structural)]
pub enum DenyReason {
    /// The user is banned.
    Banned,
    /// The attempt breaks a rule of the site.
    PolicyViolation,
}

/// Why a session could not be granted though nothing spoke against the user.
#[derive(Debug, Clone, Copy, PartialEq, Eq, Structural)]
pub enum SessionError {
    /// The attempt could not be recorded.
    AuditFailure,
}

/// Why the security gate did not let an attempt through.
#[derive(Debug, Clone, Copy, PartialEq, Eq, Structural)]
pub enum GateRefusal {
    /// The attempt is on record, and the policy denied it.
    Denied(DenyReason),
    /// The attempt could not be recorded.
    Audit(SessionError),
}

/// What is known of an event before it is recorded.
#[derive(Debug, Clone, PartialEq, Eq)]
pub struct NewAuditEntry {
    pub user_id: i32,
    pub event_kind: i32,
    /// The provider's profile document, as it came.
    pub data: String,
    pub client_ip: Option<String>,
}

/// What a `NewAuditEntry` holds.
pub struct NewEntryView {
    pub user_id: i32,
    pub event_kind: i32,
    pub data: Seq<char>,
    pub client_ip: Option<Seq<char>>,
}

impl View for NewAuditEntry {
    type V = NewEntryView;

    open spec fn view(&self) -> NewEntryView {
        NewEntryView {
            user_id: self.user_id,
            event_kind: self.event_kind,
            data: self.data@,
            client_ip: optional_view(self.client_ip),
        }
    }
}

/// A recorded event. It is never changed after it was written.
#[derive(Debug, Clone, PartialEq, Eq)]
pub struct AuditLogEntry {
    /// The id that the log gave the entry.
    pub id: i32,
    pub user_id: i32,
    pub event_kind: i32,
    /// The second, counted from the Unix epoch, at which the entry was
    /// written.
    pub timestamp: u64,
    pub data: String,
    pub client_ip: Option<String>,
}

/// What an `AuditLogEntry` holds.
pub struct EntryView {
    pub id: i32,
    pub user_id: i32,
    pub event_kind: i32,
    pub timestamp: u64,
    pub data: Seq<char>,
    pub client_ip: Option<Seq<char>>,
}

impl View for AuditLogEntry {
    type V = EntryView;

    open spec fn view(&self) -> EntryView {
        EntryView {
            id: self.id,
            user_id: self.user_id,
            event_kind: self.event_kind,
            timestamp: self.timestamp,
            data: self.data@,
            client_ip: optional_view(self.client_ip),
        }
    }
}

/// What a log holds: its entries in the order in which they were written,
/// and the number of entries that it has room for.
pub struct LogView {
    pub entries: Seq<EntryView>,
    pub capacity: nat,
}

/// What a log has to keep: no more entries than it has room for, and ids
/// that count the entries from one.
pub open spec fn log_well_formed(log: LogView) -> bool {
    &&& log.entries.len() <= log.capacity <= i32::MAX
    &&& forall|i: int| 0 <= i < log.entries.len() ==> (#[trigger] log.entries[i]).id == i + 1
}

/// The entry that records an event under an id at a time.
pub open spec fn recorded(entry: NewEntryView, id: i32, now: u64) -> EntryView {
    EntryView {
        id,
        user_id: entry.user_id,
        event_kind: entry.event_kind,
        timestamp: now,
        data: entry.data,
        client_ip: entry.client_ip,
    }
}

/// The log after an event was handed to it, and the id it answers: a log
/// with room adds the entry under the next id, a full log changes nothing
/// and is unavailable.
pub open spec fn appended(log: LogView, entry: NewEntryView, now: u64) -> (
    LogView,
    Result<i32, StoreError>,
) {
    if log.entries.len() >= log.capacity {
        (log, Err(StoreError::Unavailable))
    } else {
        (
            LogView {
                entries: log.entries.push(recorded(entry, (log.entries.len() + 1) as i32, now)),
                capacity: log.capacity,
            },
            Ok((log.entries.len() + 1) as i32),
        )
    }
}

/// What is recorded of a login attempt: the user, the provider's profile
/// document and the address that the attempt came from.
pub open spec fn login_attempt(user: UserView, data: Seq<char>, client_ip: Option<Seq<char>>)
    -> NewEntryView {
    NewEntryView { user_id: user.id, event_kind: LOGIN_ATTEMPT, data, client_ip }
}

/// The answer that stands for what a policy holds against a user.
pub open spec fn verdict_of(held: Option<DenyReason>) -> Result<(), DenyReason> {
    match held {
        None => Ok(()),
        Some(reason) => Err(reason),
    }
}

/// A rule that decides, once the attempt is on record, whether the user may
/// log in.
pub trait LoginPolicy {
    /// What the policy holds against the user, if anything.
    spec fn holds_against(
        &self,
        user: UserView,
        profile: ProfileView,
        client_ip: Option<Seq<char>>,
    ) -> Option<DenyReason>;

    /// Whether the user may log in.
    fn evaluate(&self, user: &User, profile: &ExternalProfile, client_ip: &Option<String>) -> (r:
        Result<(), DenyReason>)
        ensures
            r == verdict_of(self.holds_against(user@, profile@, optional_view(*client_ip))),
    ;
}

/// The policy that lets everyone in.
#[derive(Debug, Clone, Copy, PartialEq, Eq)]
pub struct Baseline;

impl LoginPolicy for Baseline {
    open spec fn holds_against(
        &self,
        user: UserView,
        profile: ProfileView,
        client_ip: Option<Seq<char>>,
    ) -> Option<DenyReason> {
        None
    }

    fn evaluate(&self, user: &User, profile: &ExternalProfile, client_ip: &Option<String>) -> (r:
        Result<(), DenyReason>) {
        Ok(())
    }
}

/// The reason that the first entry for a user id gives, if there is one.
pub open spec fn first_reason(entries: Seq<(i32, DenyReason)>, user_id: i32) -> Option<
    DenyReason,
>
    decreases entries.len(),
{
    if entries.len() == 0 {
        None
    } else if entries[0].0 == user_id {
        Some(entries[0].1)
    } else {
        first_reason(entries.drop_first(), user_id)
    }
}

/// A policy that turns away the users on a list, each for the reason that
/// the list gives; where a user is listed twice, the first entry counts.
#[derive(Debug, Clone, PartialEq, Eq)]
pub struct DenyList {
    pub entries: Vec<(i32, DenyReason)>,
}

impl LoginPolicy for DenyList {
    open spec fn holds_against(
        &self,
        user: UserView,
        profile: ProfileView,
        client_ip: Option<Seq<char>>,
    ) -> Option<DenyReason> {
        first_reason(self.entries@, user.id)
    }

    fn evaluate(&self, user: &User, profile: &ExternalProfile, client_ip: &Option<String>) -> (r:
        Result<(), DenyReason>) {
        let n = self.entries.len();
        let mut i: usize = 0;
        assert(self.entries@.skip(0) =~= self.entries@);
        while i < n
            invariant
                n == self.entries@.len(),
                i <= n,
                first_reason(self.entries@, user.id) == first_reason(
                    self.entries@.skip(i as int),
                    user.id,
                ),
            decreases n - i,
        {
            let entry = self.entries[i];
            if entry.0 == user.id {
                return Err(entry.1);
            }
            assert(self.entries@.skip(i as int).drop_first() =~= self.entries@.skip(i + 1));
            i = i + 1;
        }
        Ok(())
    }
}

/// The log after the security gate saw an attempt, and the security gate's answer. The
/// attempt is recorded first. Where that fails nothing changes and the
/// answer is an audit failure, whatever the policy holds; where it succeeds
/// the answer is the policy's.
pub open spec fn gate<P: LoginPolicy>(
    policy: P,
    user: UserView,
    profile: ProfileView,
    data: Seq<char>,
    client_ip: Option<Seq<char>>,
    log: LogView,
    now: u64,
) -> (LogView, Result<(), GateRefusal>) {
    let written = appended(log, login_attempt(user, data, client_ip), now);
    match written.1 {
        Err(_) => (log, Err(GateRefusal::Audit(SessionError::AuditFailure))),
        Ok(_) => (
            written.0,
            match policy.holds_against(user, profile, client_ip) {
                None => Ok(()),
                Some(reason) => Err(GateRefusal::Denied(reason)),
            },
        ),
    }
}

/// Every attempt that the security gate answers for the policy left exactly one new
/// entry, whether it was allowed or denied: the one that records the
/// attempt, under the next id. The security gate lets nothing through and adds
/// nothing exactly when the log is full.
pub proof fn law_gate_writes_one_entry<P: LoginPolicy>(
    policy: P,
    user: UserView,
    profile: ProfileView,
    data: Seq<char>,
    client_ip: Option<Seq<char>>,
    log: LogView,
    now: u64,
)
    requires
        log_well_formed(log),
    ensures
        log_well_formed(gate(policy, user, profile, data, client_ip, log, now).0),
        log.entries.len() < log.capacity ==> {
            let after = gate(policy, user, profile, data, client_ip, log, now);
            &&& after.0.entries == log.entries.push(
                recorded(
                    login_attempt(user, data, client_ip),
                    (log.entries.len() + 1) as i32,
                    now,
                ),
            )
            &&& after.0.entries.len() == log.entries.len() + 1
            &&& after.1 == match policy.holds_against(user, profile, client_ip) {
                None => Ok::<(), GateRefusal>(()),
                Some(reason) => Err(GateRefusal::Denied(reason)),
            }
        },
        log.entries.len() >= log.capacity ==> gate(
            policy,
            user,
            profile,
            data,
            client_ip,
            log,
            now,
        ) == (log, Err::<(), GateRefusal>(GateRefusal::Audit(SessionError::AuditFailure))),
{
}

/// A copy of a text that may be absent.
pub fn copy_optional(text: &Option<String>) -> (r: Option<String>)
    ensures
        optional_view(r) == optional_view(*text),
{
    match text {
        Some(t) => Some(t.clone()),
        None => None,
    }
}

/// An append-only log of events in memory. A log made by `new` is well
/// formed, and every operation keeps it so.
pub struct AuditLog {
    entries: Vec<AuditLogEntry>,
    capacity: usize,
}

impl View for AuditLog {
    type V = LogView;

    closed spec fn view(&self) -> LogView {
        LogView {
            entries: self.entries@.map_values(|e: AuditLogEntry| e@),
            capacity: self.capacity as nat,
        }
    }
}

impl AuditLog {
    /// An empty log with room for `capacity` entries, and for no more than
    /// there are ids.
    pub fn new(capacity: usize) -> (log: Self)
        ensures
            log@.entries.len() == 0,
            log@.capacity == if capacity <= i32::MAX {
                capacity as nat
            } else {
                i32::MAX as nat
            },
            log_well_formed(log@),
    {
        let capacity = if capacity <= 2147483647 {
            capacity
        } else {
            2147483647
        };
        AuditLog { entries: Vec::new(), capacity }
    }

    /// The number of entries.
    pub fn len(&self) -> (n: usize)
        ensures
            n == self@.entries.len(),
    {
        self.entries.len()
    }

    /// A copy of the entry at place `i`, counted from zero.
    pub fn get(&self, i: usize) -> (r: Option<AuditLogEntry>)
        ensures
            r is Some <==> i < self@.entries.len(),
            r matches Some(e) ==> e@ == self@.entries[i as int],
    {
        if i < self.entries.len() {
            let e = &self.entries[i];
            Some(
                AuditLogEntry {
                    id: e.id,
                    user_id: e.user_id,
                    event_kind: e.event_kind,
                    timestamp: e.timestamp,
                    data: e.data.clone(),
                    client_ip: copy_optional(&e.client_ip),
                },
            )
        } else {
            None
        }
    }

    /// Records an event at the time `now`, and answers the id of the entry.
    ///
    /// Fails, and changes nothing, exactly when the log is full.
    pub fn append(&mut self, entry: NewAuditEntry, now: u64) -> (r: Result<i32, StoreError>)
        requires
            log_well_formed(old(self)@),
        ensures
            (final(self)@, r) == appended(old(self)@, entry@, now),
            log_well_formed(final(self)@),
    {
        let n = self.entries.len();
        if n >= self.capacity {
            Err(StoreError::Unavailable)
        } else {
            let ghost before = self@;
            let id = (n + 1) as i32;
            self.entries.push(
                AuditLogEntry {
                    id,
                    user_id: entry.user_id,
                    event_kind: entry.event_kind,
                    timestamp: now,
                    data: entry.data,
                    client_ip: entry.client_ip,
                },
            );
            assert(self@.entries =~= appended(before, entry@, now).0.entries);
            Ok(id)
        }
    }
}

/// What is recorded of a login attempt.
pub fn attempt_entry(user: &User, data: &str, client_ip: &Option<String>) -> (entry: NewAuditEntry)
    ensures
        entry@ == login_attempt(user@, data@, optional_view(*client_ip)),
{
    NewAuditEntry {
        user_id: user.id,
        event_kind: LOGIN_ATTEMPT,
        data: data.to_owned(),
        client_ip: copy_optional(client_ip),
    }
}

/// Records a login attempt, and then asks the policy whether the user may
/// log in.
///
/// `data` is the provider's profile document and `client_ip` the address
/// that the attempt came from, if it is known. The entry is written whatever
/// the policy says; only a full log keeps the attempt off the record, and
/// then the answer is an audit failure.
pub fn check<P: LoginPolicy>(
    policy: &P,
    user: &User,
    profile: &ExternalProfile,
    data: &str,
    client_ip: &Option<String>,
    log: &mut AuditLog,
    now: u64,
) -> (r: Result<(), GateRefusal>)
    requires
        log_well_formed(old(log)@),
    ensures
        (final(log)@, r) == gate(
            *policy,
            user@,
            profile@,
            data@,
            optional_view(*client_ip),
            old(log)@,
            now,
        ),
        log_well_formed(final(log)@),
{
    match log.append(attempt_entry(user, data, client_ip), now) {
        Err(_) => Err(GateRefusal::Audit(SessionError::AuditFailure)),
        Ok(_) => match policy.evaluate(user, profile, client_ip) {
            Ok(()) => Ok(()),
            Err(reason) => Err(GateRefusal::Denied(reason)),
        },
    }
}

} // verus!
