//! The transfer recorder: validates a transfer request, consults the
//! external transfer service's outcome, commits a record to the ledger
//! store, and answers history queries.
//!
//! The actual movement of value, the durable storage substrate and the
//! environment clock are external collaborators. The recorder receives
//! their verdicts and readings as plain values: the caller first asks
//! [`PaymentContract::validate_payment`] whether the request may proceed,
//! then (only on approval) invokes the transfer service, and finally hands
//! the service's outcome and the environment's timestamp to
//! [`PaymentContract::send_payment`], which re-checks validity and commits.

use vstd::prelude::*;

use crate::ledger::{Identity, Ledger, Payment};

verus! {

/// Rejection of a transfer request before any side effect occurs.
#[derive(Clone, Copy, Debug, PartialEq, Eq, Structural)]
pub enum ValidationError {
    /// The paying and receiving party are the same identity.
    SelfTransfer,
    /// The requested amount is zero or negative.
    NonPositiveAmount,
}

/// Failure reported by the external transfer service: the value movement
/// did not happen.
#[derive(Clone, Copy, Debug, PartialEq, Eq, Structural)]
pub struct TransferError;

/// Why a `send_payment` command failed.
#[derive(Clone, Copy, Debug, PartialEq, Eq, Structural)]
pub enum PaymentError {
    /// The request was rejected before the transfer service was consulted.
    Validation(ValidationError),
    /// The transfer service failed; no record was committed.
    Transfer(TransferError),
}

/// The transfer recorder for one ledger instance.
pub struct PaymentContract {
    ledger: Ledger,
}

impl View for PaymentContract {
    type V = Seq<Payment>;

    closed spec fn view(&self) -> Seq<Payment> {
        self.ledger@
    }
}

impl PaymentContract {
    /// Every committed record satisfies the validation rule: no
    /// self-transfer and a strictly positive amount.
    pub open spec fn wf(self) -> bool {
        forall|i: int| 0 <= i < self@.len() ==> (#[trigger] self@[i]).valid()
    }

    /// A recorder over a ledger that has never been written.
    pub fn new() -> (c: PaymentContract)
        ensures
            c@ == Seq::<Payment>::empty(),
            c.wf(),
    {
        PaymentContract { ledger: Ledger::new() }
    }

    /// A recorder over an existing ledger, as read back from the store.
    pub fn from_ledger(ledger: Ledger) -> (c: PaymentContract)
        ensures
            c@ == ledger@,
    {
        PaymentContract { ledger }
    }

    /// Decides whether a transfer request may proceed, before any side
    /// effect: a self-transfer is rejected first, then a non-positive
    /// amount; every other request is approved.
    pub fn validate_payment(from: Identity, to: Identity, amount: i128) -> (r: Result<
        (),
        ValidationError,
    >)
        ensures
            from == to ==> r == Err::<(), ValidationError>(ValidationError::SelfTransfer),
            from != to && amount <= 0 ==> r == Err::<(), ValidationError>(
                ValidationError::NonPositiveAmount,
            ),
            from != to && amount > 0 ==> r == Ok::<(), ValidationError>(()),
    {
        if from == to {
            Err(ValidationError::SelfTransfer)
        } else if amount <= 0 {
            Err(ValidationError::NonPositiveAmount)
        } else {
            Ok(())
        }
    }

    /// Validates the request, then commits it or reports why it failed.
    ///
    /// `transfer_result` is the external transfer service's verdict for this
    /// request; `timestamp` is the environment clock's reading. The intended
    /// discipline for the hosting glue is: call `validate_payment` first,
    /// invoke the transfer service only on approval, then call this method.
    /// An invalid request is rejected here again whatever outcome is handed
    /// in, so no record of an invalid request can ever be committed.
    ///
    /// The ledger changes only on success, and then only by appending the
    /// one new record at the tail.
    pub fn send_payment(
        &mut self,
        from: Identity,
        to: Identity,
        amount: i128,
        transfer_result: Result<(), TransferError>,
        timestamp: u64,
    ) -> (r: Result<(), PaymentError>)
        ensures
            // The ledger is append-only: what was committed stays, unchanged.
            old(self)@.is_prefix_of(final(self)@),
            // A failed command leaves the ledger exactly as it was.
            r is Err ==> final(self)@ == old(self)@,
            // A self-transfer is rejected, whatever the other arguments.
            from == to ==> r == Err::<(), PaymentError>(
                PaymentError::Validation(ValidationError::SelfTransfer),
            ),
            // A non-positive amount is rejected.
            from != to && amount <= 0 ==> r == Err::<(), PaymentError>(
                PaymentError::Validation(ValidationError::NonPositiveAmount),
            ),
            // A failure of the transfer service is propagated; no record is
            // committed for a transfer that did not execute.
            from != to && amount > 0 && transfer_result is Err ==> r == Err::<(), PaymentError>(
                PaymentError::Transfer(TransferError),
            ),
            // On a valid request whose transfer executed, exactly the one
            // new record is appended at the tail.
            from != to && amount > 0 && transfer_result is Ok ==> r == Ok::<(), PaymentError>(())
                && final(self)@ == old(self)@.push(
                Payment { from, to, amount, timestamp },
            ),
            // Success grows the ledger by exactly one, and the new record is
            // the last element.
            r is Ok ==> final(self)@.len() == old(self)@.len() + 1 && final(self)@.last() == (
            Payment { from, to, amount, timestamp }),
            // Validity of every committed record is preserved.
            old(self).wf() ==> final(self).wf(),
    {
        if let Err(e) = Self::validate_payment(from, to, amount) {
            return Err(PaymentError::Validation(e));
        }
        if let Err(e) = transfer_result {
            return Err(PaymentError::Transfer(e));
        }
        let payment = Payment { from, to, amount, timestamp };
        self.ledger.append(payment);
        Ok(())
    }

    /// The ordered subsequence of the full ledger whose records name `user`
    /// as sender or recipient.
    pub fn get_history(&self, user: Identity) -> (v: Vec<Payment>)
        ensures
            v@ == history_of(self@, user),
    {
        let all = self.ledger.read_all();
        let mut v: Vec<Payment> = Vec::new();
        let mut i: usize = 0;
        while i < all.len()
            invariant
                i <= all.len(),
                all@ == self@,
                v@ == history_of(self@.take(i as int), user),
            decreases all.len() - i,
        {
            let p = all[i];
            if p.from == user || p.to == user {
                v.push(p);
            }
            proof {
                assert(self@.take(i as int + 1) =~= self@.take(i as int).push(self@[i as int]));
                lemma_history_push(self@.take(i as int), self@[i as int], user);
            }
            i = i + 1;
        }
        proof {
            assert(self@.take(self@.len() as int) =~= self@);
        }
        v
    }

    /// The full ledger, unfiltered and in insertion order.
    pub fn get_all_payments(&self) -> (v: Vec<Payment>)
        ensures
            v@ == self@,
    {
        self.ledger.read_all()
    }
}

/// The history of `user` over a sequence of records: exactly those records
/// that involve `user`, in their original order.
pub open spec fn history_of(records: Seq<Payment>, user: Identity) -> Seq<Payment> {
    records.filter(|p: Payment| p.involves(user))
}

/// Appending one record extends a participant's history by that record when
/// it involves the participant, and leaves the history unchanged when it
/// does not. Together with `history_of(empty) == empty` this pins down the
/// history of every ledger state: it is the subsequence of the full ledger
/// involving the participant, in original insertion order.
pub proof fn lemma_history_push(records: Seq<Payment>, p: Payment, user: Identity)
    ensures
        p.involves(user) ==> history_of(records.push(p), user) == history_of(
            records,
            user,
        ).push(p),
        !p.involves(user) ==> history_of(records.push(p), user) == history_of(records, user),
{
    reveal(Seq::filter);
    assert(records.push(p).drop_last() =~= records);
    assert(records.push(p).last() == p);
}

/// Every entry of a participant's history involves that participant; every
/// ledger record involving the participant appears in the history; and the
/// history is never longer than the ledger.
pub proof fn lemma_history_members(records: Seq<Payment>, user: Identity)
    ensures
        forall|i: int|
            0 <= i < history_of(records, user).len() ==> (#[trigger] history_of(records, user)[i]).involves(user),
        forall|i: int|
            0 <= i < records.len() && records[i].involves(user) ==> history_of(
                records,
                user,
            ).contains(records[i]),
        history_of(records, user).len() <= records.len(),
{
    broadcast use vstd::seq_lib::group_filter_ensures;

}

} // verus!
