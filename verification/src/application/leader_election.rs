use vstd::prelude::*;
use vstd::string::*;
use crate::text::{decimal, lemma_decimal_digits, parse_u64, parse_u64_spec, push_decimal, second_line, second_line_of};

verus! {

/// Whether this node leads.
#[derive(Debug, Clone, Copy, PartialEq, Eq, Structural)]
pub enum LeaderState {
    Leader,
    Standby,
}

/// Seconds after which a lock that was not refreshed is taken over.
pub const LOCK_STALE_AFTER_SECS: u64 = 30;

/// The text of the lock file written by `identity` at `now` (seconds since
/// the Unix epoch): the identity, then the time, each on a line.
pub open spec fn lock_text(identity: Seq<char>, now: u64) -> Seq<char> {
    identity + "\n"@ + decimal(now as nat) + "\n"@
}

/// The time stamped in a lock file: its second line, read as a number.
pub open spec fn lock_stamp(content: Seq<char>) -> Option<u64> {
    match second_line(content) {
        Some(l) => parse_u64_spec(l),
        None => None,
    }
}

/// Whether a lock whose text is `content` is stale at `now`: stamped more
/// than `LOCK_STALE_AFTER_SECS` seconds earlier.
pub open spec fn lock_stale(content: Seq<char>, now: u64) -> bool {
    lock_stamp(content) matches Some(ts) && now - ts > LOCK_STALE_AFTER_SECS
}

/// Whether the stamp of `content`, if it has one, is not after `now`.
pub open spec fn stamp_not_after(content: Seq<char>, now: u64) -> bool {
    lock_stamp(content) matches Some(ts) ==> ts <= now
}

/// The lock text of `identity` at `now`.
pub fn lock_content(identity: &str, now: u64) -> (r: String)
    ensures
        r@ == lock_text(identity@, now),
{
    let mut s = String::from_str(identity);
    s.append("\n");
    push_decimal(&mut s, now);
    s.append("\n");
    s
}

/// Whether the lock text `content` is stale at `now`.
pub fn is_stale_lock(content: &str, now: u64) -> (b: bool)
    requires
        stamp_not_after(content@, now),
    ensures
        b == lock_stale(content@, now),
{
    match second_line_of(content) {
        Some(l) => match parse_u64(l) {
            Some(ts) => now - ts > LOCK_STALE_AFTER_SECS,
            None => false,
        },
        None => false,
    }
}

/// What to do after the lock file was found in place.
#[derive(Debug, Clone, Copy, PartialEq, Eq)]
pub enum LockStep {
    /// The lock is stale: remove it and try again.
    Retry,
    /// Another node holds the lock: stay in standby.
    Standby,
}

/// Leadership by a lock file: the node whose lock is in place leads.
#[derive(Debug)]
pub struct LeaderElection {
    state: LeaderState,
    identity: String,
}

impl LeaderElection {
    /// This node's state.
    pub closed spec fn state_of(&self) -> LeaderState {
        self.state
    }

    /// The identity written into the lock.
    pub closed spec fn identity_of(&self) -> Seq<char> {
        self.identity@
    }

    /// A node named `identity`, in standby.
    pub fn new(identity: &str) -> (r: Self)
        ensures
            r.state_of() == LeaderState::Standby,
            r.identity_of() == identity@,
    {
        LeaderElection { state: LeaderState::Standby, identity: identity.to_string() }
    }

    /// The lock text this node writes at `now`.
    pub fn lock_content(&self, now: u64) -> (r: String)
        ensures
            r@ == lock_text(self.identity_of(), now),
    {
        lock_content(self.identity.as_str(), now)
    }

    /// The lock file was created by this node: it leads.
    pub fn on_lock_created(&mut self) -> (b: bool)
        ensures
            b,
            final(self).state_of() == LeaderState::Leader,
            final(self).identity_of() == old(self).identity_of(),
    {
        self.state = LeaderState::Leader;
        true
    }

    /// The lock file was in place, with text `content` when it could be
    /// read: a stale lock is to be removed and tried again; otherwise this
    /// node stays in standby.
    pub fn on_lock_held(&mut self, content: Option<&str>, now: u64) -> (r: LockStep)
        requires
            content matches Some(c) ==> stamp_not_after(c@, now),
        ensures
            final(self).identity_of() == old(self).identity_of(),
            (content matches Some(c) && lock_stale(c@, now)) ==> r == LockStep::Retry
                && final(self).state_of() == old(self).state_of(),
            !(content matches Some(c) && lock_stale(c@, now)) ==> r == LockStep::Standby
                && final(self).state_of() == LeaderState::Standby,
    {
        match content {
            Some(c) => {
                if is_stale_lock(c, now) {
                    return LockStep::Retry;
                }
            },
            None => {},
        }
        self.state = LeaderState::Standby;
        LockStep::Standby
    }

    /// This node gave up the lock.
    pub fn release(&mut self)
        ensures
            final(self).state_of() == LeaderState::Standby,
            final(self).identity_of() == old(self).identity_of(),
    {
        self.state = LeaderState::Standby;
    }

    /// Whether this node leads.
    pub fn is_leader(&self) -> (b: bool)
        ensures
            b == (self.state_of() == LeaderState::Leader),
    {
        self.state == LeaderState::Leader
    }

    /// This node's state.
    pub fn state(&self) -> (s: LeaderState)
        ensures
            s == self.state_of(),
    {
        self.state
    }

    /// The text with which a leader refreshes its lock at `now`; a node in
    /// standby writes nothing.
    pub fn heartbeat_content(&self, now: u64) -> (r: Option<String>)
        ensures
            self.state_of() == LeaderState::Leader ==> (r matches Some(t) && t@ == lock_text(
                self.identity_of(),
                now,
            )),
            self.state_of() == LeaderState::Standby ==> r is None,
    {
        if self.state == LeaderState::Leader {
            Some(self.lock_content(now))
        } else {
            None
        }
    }
}

/// The time a node writes into its lock is the time read back from it,
/// whatever its identity, so long as that is one line.
pub proof fn law_lock_stamp_reads_back(identity: Seq<char>, now: u64)
    requires
        forall|i: int| 0 <= i < identity.len() ==> #[trigger] identity[i] != '\n',
    ensures
        lock_stamp(lock_text(identity, now)) == Some(now),
        stamp_not_after(lock_text(identity, now), now),
        !lock_stale(lock_text(identity, now), now),
{
    reveal_strlit("\n");
    let d = decimal(now as nat);
    lemma_decimal_digits(now as nat);
    crate::text::lemma_parse_decimal(now);
    let s = lock_text(identity, now);
    let k = identity.len() as int;
    assert(s[k] == '\n');
    assert forall|j: int| 0 <= j < k implies #[trigger] s[j] != '\n' by {
        assert(s[j] == identity[j]);
    }
    crate::text::lemma_field_end_at(s, 0, k, '\n');
    let e = k + 1 + d.len();
    assert(s[e] == '\n');
    assert forall|j: int| k + 1 <= j < e implies #[trigger] s[j] != '\n' by {
        assert(s[j] == d[j - k - 1]);
    }
    crate::text::lemma_field_end_at(s, k + 1, e, '\n');
    assert(s.subrange(k + 1, e) =~= d);
}

/// A lock written at `stamp` is stale at `now` exactly when more than
/// `LOCK_STALE_AFTER_SECS` seconds have passed.
pub proof fn law_lock_stale_after_timeout(identity: Seq<char>, stamp: u64, now: u64)
    requires
        forall|i: int| 0 <= i < identity.len() ==> #[trigger] identity[i] != '\n',
        stamp <= now,
    ensures
        stamp_not_after(lock_text(identity, stamp), now),
        lock_stale(lock_text(identity, stamp), now) == (now - stamp > LOCK_STALE_AFTER_SECS),
{
    law_lock_stamp_reads_back(identity, stamp);
}

} // verus!
