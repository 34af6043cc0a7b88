//! The ledger store: durable, ordered accumulation of payment records.
//!
//! The store itself validates nothing; it appends whatever record it is
//! handed and returns the full sequence on demand. Validation belongs to the
//! recorder in [`crate::recorder`].

use vstd::prelude::*;

verus! {

/// A party to a transfer, as the ledger knows it: an opaque identifier.
/// Two values denote the same party exactly when their `id` fields are equal.
#[derive(Clone, Copy, Debug, PartialEq, Eq, Structural)]
pub struct Identity {
    pub id: u64,
}

/// One committed transfer. A record is immutable: once appended to the
/// ledger its fields never change.
#[derive(Clone, Copy, Debug, PartialEq, Eq, Structural)]
pub struct Payment {
    /// The paying party.
    pub from: Identity,
    /// The receiving party.
    pub to: Identity,
    /// Strictly positive quantity moved; the wide signed domain accommodates
    /// large denominations.
    pub amount: i128,
    /// Timestamp assigned by the execution environment at record-creation
    /// time, never supplied by the caller.
    pub timestamp: u64,
}

impl Payment {
    /// The validation rule every committed payment satisfies: no
    /// self-transfer and a strictly positive amount.
    pub open spec fn valid(self) -> bool {
        self.from != self.to && self.amount > 0
    }

    /// Whether this payment names `user` as sender or recipient.
    pub open spec fn involves(self, user: Identity) -> bool {
        self.from == user || self.to == user
    }
}

/// The ordered, append-only sequence of committed payments for one ledger
/// instance. Records are never removed or edited once committed; insertion
/// order is the only ordering guarantee.
pub struct Ledger {
    records: Vec<Payment>,
}

impl View for Ledger {
    type V = Seq<Payment>;

    closed spec fn view(&self) -> Seq<Payment> {
        self.records@
    }
}

impl Ledger {
    /// An empty ledger: the state of a store that has never been written.
    pub fn new() -> (l: Ledger)
        ensures
            l@ == Seq::<Payment>::empty(),
    {
        Ledger { records: Vec::new() }
    }

    /// A ledger holding exactly the given records, in the given order: the
    /// state of a store whose backing slot already held a sequence.
    pub fn from_records(records: Vec<Payment>) -> (l: Ledger)
        ensures
            l@ == records@,
    {
        Ledger { records }
    }

    /// Appends `p` at the tail. The store does not validate: every record
    /// handed to it is committed.
    pub fn append(&mut self, p: Payment)
        ensures
            final(self)@ == old(self)@.push(p),
    {
        self.records.push(p);
    }

    /// The full ordered sequence of committed records.
    pub fn read_all(&self) -> (v: Vec<Payment>)
        ensures
            v@ == self@,
    {
        let mut v: Vec<Payment> = Vec::new();
        let mut i: usize = 0;
        while i < self.records.len()
            invariant
                i <= self.records.len(),
                v@ == self@.take(i as int),
            decreases self.records.len() - i,
        {
            v.push(self.records[i]);
            proof {
                assert(self@.take(i as int + 1) =~= self@.take(i as int).push(self@[i as int]));
            }
            i = i + 1;
        }
        proof {
            assert(self@.take(self@.len() as int) =~= self@);
        }
        v
    }

    /// How many records the ledger holds.
    pub fn len(&self) -> (n: usize)
        ensures
            n == self@.len(),
    {
        self.records.len()
    }
}

} // verus!
