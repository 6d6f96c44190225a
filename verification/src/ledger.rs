//! The revocation ledger as the flows see it: a store of keys that forgets
//! each key a fixed time after it was last written.

use vstd::prelude::*;

verus! {

/// What the ledger keeps under one key: the value written and the second
/// from which the key counts as forgotten.
pub struct LedgerEntry {
    pub value: Seq<char>,
    pub expires_at: int,
}

/// The ledger's content. It holds nothing for good: every entry ends.
pub struct Ledger {
    pub entries: Map<Seq<char>, LedgerEntry>,
}

impl Ledger {
    /// The ledger that was never written.
    pub open spec fn empty() -> Ledger {
        Ledger { entries: Map::empty() }
    }

    /// Whether a lookup of `key` at second `now` finds it. That a key is not
    /// found says only that no write of it is still in force.
    pub open spec fn holds(self, key: Seq<char>, now: int) -> bool {
        self.entries.contains_key(key) && now < self.entries[key].expires_at
    }

    /// Whether the ledger takes a write with this lifetime.
    pub open spec fn takes(ttl: int) -> bool {
        ttl > 0
    }

    /// The ledger after `key` was written at second `now` for `ttl` seconds.
    /// The write is unconditional: the last writer's value and lifetime stay.
    pub open spec fn record(self, key: Seq<char>, value: Seq<char>, ttl: int, now: int) -> Ledger {
        Ledger { entries: self.entries.insert(key, LedgerEntry { value, expires_at: now + ttl }) }
    }
}

/// A key is found from its write until its lifetime has passed, and no longer.
pub proof fn law_recorded_key_is_held_for_its_lifetime(
    ledger: Ledger,
    key: Seq<char>,
    value: Seq<char>,
    ttl: int,
    now: int,
    later: int,
)
    ensures
        ledger.record(key, value, ttl, now).holds(key, later) <==> later < now + ttl,
{
}

/// A write leaves every other key as it was.
pub proof fn law_record_keeps_other_keys(
    ledger: Ledger,
    key: Seq<char>,
    value: Seq<char>,
    ttl: int,
    now: int,
    other: Seq<char>,
    later: int,
)
    requires
        other != key,
    ensures
        ledger.record(key, value, ttl, now).holds(other, later) == ledger.holds(other, later),
{
}

/// Of two writes of one key the later one stays: the ledger holds one entry
/// for the key, with the value and the lifetime of the last writer.
pub proof fn law_last_write_wins(
    ledger: Ledger,
    key: Seq<char>,
    first: (Seq<char>, int, int),
    last: (Seq<char>, int, int),
)
    ensures
        ledger.record(key, first.0, first.1, first.2).record(key, last.0, last.1, last.2)
            == ledger.record(key, last.0, last.1, last.2),
{
    let twice = ledger.record(key, first.0, first.1, first.2).record(key, last.0, last.1, last.2);
    let once = ledger.record(key, last.0, last.1, last.2);
    assert(twice.entries =~= once.entries);
}

} // verus!
