use crate::msg::Metadata;
use vstd::prelude::*;

verus! {

/// The configuration singleton.
pub struct State {
    pub retry_delay: u64,
    pub job_eth_id: String,
    pub job_arb_id: String,
    pub owner: String,
    pub metadata: Metadata,
}

/// A ledger key: the subject (an address, an epoch number in decimal) and the
/// action that was attempted for it.
pub type LedgerKey = (Seq<char>, Seq<char>);

/// One recorded attempt.
pub struct LedgerEntry {
    pub subject: String,
    pub action: String,
    pub last_attempt_at: u64,
}

impl LedgerEntry {
    pub open spec fn ledger_key(&self) -> LedgerKey {
        (self.subject@, self.action@)
    }
}

/// The attempts as a map; a later entry for a key overrides an earlier one.
pub open spec fn entries_map(s: Seq<LedgerEntry>) -> Map<LedgerKey, u64>
    decreases s.len(),
{
    if s.len() == 0 {
        Map::empty()
    } else {
        entries_map(s.drop_last()).insert(s.last().ledger_key(), s.last().last_attempt_at)
    }
}

/// The time of the last attempt recorded for `key`, if any.
pub open spec fn last_attempt(m: Map<LedgerKey, u64>, key: LedgerKey) -> Option<u64> {
    if m.contains_key(key) {
        Some(m[key])
    } else {
        None
    }
}

/// Times are in nanoseconds; the retry delay is in seconds.
pub const NANOS_PER_SECOND: u64 = 1_000_000_000;

/// Whether a subject last attempted at `last` may be attempted again at `now`:
/// never attempted, or the retry window of `retry_delay` seconds has passed.
pub open spec fn eligible(last: Option<u64>, retry_delay: u64, now: u64) -> bool {
    match last {
        None => true,
        Some(t) => t + retry_delay * NANOS_PER_SECOND < now,
    }
}

/// The map after stamping each subject of `subjects`, for `action`, with `now`.
pub open spec fn stamp(
    m: Map<LedgerKey, u64>,
    subjects: Seq<Seq<char>>,
    action: Seq<char>,
    now: u64,
) -> Map<LedgerKey, u64>
    decreases subjects.len(),
{
    if subjects.len() == 0 {
        m
    } else {
        stamp(m, subjects.drop_last(), action, now).insert((subjects.last(), action), now)
    }
}

/// Entries past index `i` that do not mention `key` leave its lookup as it
/// was after the first `i` entries.
proof fn lemma_entries_suffix(s: Seq<LedgerEntry>, i: int, key: LedgerKey)
    requires
        0 <= i <= s.len(),
        forall|j: int| i <= j < s.len() ==> s[j].ledger_key() != key,
    ensures
        entries_map(s).contains_key(key) == entries_map(s.take(i)).contains_key(key),
        entries_map(s).contains_key(key) ==> entries_map(s)[key] == entries_map(s.take(i))[key],
    decreases s.len(),
{
    if s.len() == i {
        assert(s.take(i) =~= s);
    } else {
        assert(s.drop_last().take(i) =~= s.take(i));
        lemma_entries_suffix(s.drop_last(), i, key);
    }
}

/// The retry ledger: when each (subject, action) pair was last attempted, in
/// nanoseconds.
pub struct Ledger {
    entries: Vec<LedgerEntry>,
}

impl View for Ledger {
    type V = Map<LedgerKey, u64>;

    closed spec fn view(&self) -> Map<LedgerKey, u64> {
        entries_map(self.entries@)
    }
}

impl Ledger {
    pub fn new() -> (r: Ledger)
        ensures
            r@ == Map::<LedgerKey, u64>::empty(),
    {
        Ledger { entries: Vec::new() }
    }

    /// The recorded entries, oldest first; replaying them with `record`
    /// rebuilds the ledger.
    pub fn entries(&self) -> (r: &Vec<LedgerEntry>)
        ensures
            entries_map(r@) == self@,
    {
        &self.entries
    }

    /// When `subject` was last attempted for `action`.
    pub fn last_attempt(&self, subject: &String, action: &String) -> (r: Option<u64>)
        ensures
            r == last_attempt(self@, (subject@, action@)),
    {
        let ghost key = (subject@, action@);
        let mut i: usize = self.entries.len();
        while i > 0
            invariant
                i <= self.entries@.len(),
                key == (subject@, action@),
                forall|j: int| i <= j < self.entries@.len() ==> self.entries@[j].ledger_key() != key,
            decreases i,
        {
            let e = &self.entries[i - 1];
            let same_subject = e.subject == *subject;
            let same_action = e.action == *action;
            if same_subject && same_action {
                proof {
                    let s = self.entries@;
                    lemma_entries_suffix(s, i as int, key);
                    assert(s.take(i as int).drop_last() =~= s.take(i - 1));
                    assert(s.take(i as int).last() == s[i - 1]);
                }
                return Some(e.last_attempt_at);
            }
            i = i - 1;
        }
        proof {
            lemma_entries_suffix(self.entries@, 0, key);
            assert(self.entries@.take(0) =~= Seq::<LedgerEntry>::empty());
        }
        None
    }

    /// Records an attempt of `action` for `subject` at time `at`.
    pub fn record(&mut self, subject: String, action: String, at: u64)
        ensures
            final(self)@ == old(self)@.insert((subject@, action@), at),
    {
        let entry = LedgerEntry { subject, action, last_attempt_at: at };
        self.entries.push(entry);
        proof {
            assert(final(self).entries@.drop_last() =~= old(self).entries@);
        }
    }
}

/// Whether an attempt at `now` is admitted, given the last recorded attempt.
pub fn is_eligible(last: Option<u64>, retry_delay: u64, now: u64) -> (r: bool)
    ensures
        r == eligible(last, retry_delay, now),
{
    match last {
        None => true,
        Some(t) => {
            let window: u128 = (retry_delay as u128) * 1_000_000_000u128;
            now > t && ((now - t) as u128) > window
        },
    }
}

} // verus!
