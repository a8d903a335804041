//! The record store, keyed by `(correlation id, sender)`, and the transfer check that
//! keeps a custody account's minimum reserve in place.
//!
//! A resolved record stays in the store as an inert terminal record, so that a repeated
//! creation request still finds it and funds nothing; `remove_escrow` deletes one
//! explicitly.

use vstd::prelude::*;
use crate::escrow::{
    refund_error, release_error, same_bytes, Escrow, EscrowConfig, EscrowError, EscrowStatus, Payout,
    MAX_CORRELATION_ID_LEN,
};
use crate::policy::fee_of;

verus! {

/// Whether `e` is stored under the key `(correlation_id, sender)`.
pub open spec fn has_key(e: Escrow, correlation_id: Seq<u8>, sender: Seq<u8>) -> bool {
    e.correlation_id@ == correlation_id && e.sender@ == sender
}

/// Every record is well formed and no two share a key.
pub open spec fn records_wf(s: Seq<Escrow>) -> bool {
    &&& forall|i: int| 0 <= i < s.len() ==> (#[trigger] s[i]).wf()
    &&& forall|i: int, j: int|
        #![trigger s[i], s[j]]
        0 <= i < s.len() && 0 <= j < s.len() && i != j ==> !has_key(
            s[i],
            s[j].correlation_id@,
            s[j].sender@,
        )
}

/// The position of the record stored under a key, if there is one.
pub open spec fn find_key(s: Seq<Escrow>, correlation_id: Seq<u8>, sender: Seq<u8>) -> Option<int> {
    if exists|i: int| 0 <= i < s.len() && has_key(#[trigger] s[i], correlation_id, sender) {
        Some(choose|i: int| 0 <= i < s.len() && has_key(#[trigger] s[i], correlation_id, sender))
    } else {
        None
    }
}

/// Creation is idempotent: once a request has stored its record under a fresh key,
/// that key resolves to it, holding the requested amount, so a repeat of the request
/// takes the branch of `create_escrow` that stores nothing and funds nothing.
pub proof fn law_idempotent_creation(s: Seq<Escrow>, e: Escrow)
    requires
        records_wf(s),
        e.wf(),
        find_key(s, e.correlation_id@, e.sender@) is None,
    ensures
        records_wf(s.push(e)),
        find_key(s.push(e), e.correlation_id@, e.sender@) == Some(s.len() as int),
        s.push(e)[s.len() as int].amount == e.amount,
{
    let t = s.push(e);
    assert(has_key(t[s.len() as int], e.correlation_id@, e.sender@));
    assert forall|i: int, j: int|
        #![trigger t[i], t[j]]
        0 <= i < t.len() && 0 <= j < t.len() && i != j
        implies !has_key(t[i], t[j].correlation_id@, t[j].sender@) by {
        if i == s.len() as int && has_key(t[i], t[j].correlation_id@, t[j].sender@) {
            assert(has_key(s[j], e.correlation_id@, e.sender@));
        } else if j == s.len() as int && has_key(t[i], t[j].correlation_id@, t[j].sender@) {
            assert(has_key(s[i], e.correlation_id@, e.sender@));
        }
    }
    let k = choose|k: int| 0 <= k < t.len() && has_key(#[trigger] t[k], e.correlation_id@, e.sender@);
    if k != s.len() as int {
        assert(has_key(s[k], e.correlation_id@, e.sender@));
    }
}

/// The sum of a list of transfer amounts.
pub open spec fn total(shares: Seq<u64>) -> int
    decreases shares.len(),
{
    if shares.len() == 0 {
        0
    } else {
        total(shares.drop_last()) + shares.last()
    }
}

proof fn lemma_total_prefix_grows(shares: Seq<u64>, i: int, j: int)
    requires
        0 <= i <= j <= shares.len(),
    ensures
        total(shares.take(i)) <= total(shares.take(j)),
    decreases j - i,
{
    if i < j {
        lemma_total_prefix_grows(shares, i, j - 1);
        assert(shares.take(j).drop_last() =~= shares.take(j - 1));
    }
}

/// Checks that `shares` can leave a custody account holding `balance` without taking
/// it below `minimum_reserve`, and gives the balance that remains. Fails with
/// `InsufficientFunds`, and pays nothing, where it cannot.
pub fn disburse(balance: u64, minimum_reserve: u64, shares: &Vec<u64>) -> (r: Result<u64, EscrowError>)
    ensures
        (minimum_reserve <= balance && total(shares@) <= balance - minimum_reserve) ==> r == Ok::<
            u64,
            EscrowError,
        >((balance - total(shares@)) as u64),
        !(minimum_reserve <= balance && total(shares@) <= balance - minimum_reserve) ==> r == Err::<
            u64,
            EscrowError,
        >(EscrowError::InsufficientFunds),
{
    if balance < minimum_reserve {
        return Err(EscrowError::InsufficientFunds);
    }
    let available = balance - minimum_reserve;
    let mut paid: u64 = 0;
    let mut i: usize = 0;
    while i < shares.len()
        invariant
            0 <= i <= shares@.len(),
            paid == total(shares@.take(i as int)),
            paid <= available,
            available == balance - minimum_reserve,
        decreases shares@.len() - i,
    {
        assert(shares@.take(i as int + 1).drop_last() =~= shares@.take(i as int));
        if shares[i] > available - paid {
            proof {
                lemma_total_prefix_grows(shares@, i as int + 1, shares@.len() as int);
                assert(shares@.take(shares@.len() as int) =~= shares@);
            }
            return Err(EscrowError::InsufficientFunds);
        }
        paid = paid + shares[i];
        i = i + 1;
    }
    assert(shares@.take(shares@.len() as int) =~= shares@);
    Ok(balance - paid)
}

/// Replacing a record by one with the same key keeps the store well formed.
proof fn lemma_update_keeps_wf(s: Seq<Escrow>, k: int, e: Escrow)
    requires
        records_wf(s),
        0 <= k < s.len(),
        e.wf(),
        e.correlation_id@ == s[k].correlation_id@,
        e.sender@ == s[k].sender@,
    ensures
        records_wf(s.update(k, e)),
{
    let t = s.update(k, e);
    assert forall|i: int, j: int|
        #![trigger t[i], t[j]]
        0 <= i < t.len() && 0 <= j < t.len() && i != j
        implies !has_key(t[i], t[j].correlation_id@, t[j].sender@) by {
        assert(!has_key(s[i], s[j].correlation_id@, s[j].sender@));
    }
    assert forall|i: int| 0 <= i < t.len() implies (#[trigger] t[i]).wf() by {
        if i != k {
            assert(s[i].wf());
        }
    }
}

/// Whether a custody account holding `balance` can pay out `amount` and keep `minimum_reserve`.
pub open spec fn can_pay(balance: int, minimum_reserve: int, amount: int) -> bool {
    minimum_reserve <= balance && amount <= balance - minimum_reserve
}

/// What a successful creation request did: where the record stands, and how much
/// was moved into custody (nothing, when the record already existed).
#[derive(Clone, Copy, Debug, PartialEq, Eq, Structural)]
pub struct Created {
    pub index: usize,
    pub funded: u64,
}

/// All escrows, at most one per `(correlation id, sender)`.
pub struct EscrowStore {
    pub records: Vec<Escrow>,
}

impl EscrowStore {
    pub open spec fn wf(&self) -> bool {
        records_wf(self.records@)
    }

    /// An empty store.
    pub fn new() -> (r: EscrowStore)
        ensures
            r.wf(),
            r.records@.len() == 0,
    {
        EscrowStore { records: Vec::new() }
    }

    /// The position of the record stored under `(correlation_id, sender)`.
    pub fn find(&self, correlation_id: &[u8], sender: &[u8; 32]) -> (r: Option<usize>)
        requires
            self.wf(),
        ensures
            match find_key(self.records@, correlation_id@, sender@) {
                Some(i) => r == Some(i as usize),
                None => r is None,
            },
            r matches Some(i) ==> i < self.records@.len() && has_key(
                self.records@[i as int],
                correlation_id@,
                sender@,
            ),
    {
        let mut i: usize = 0;
        while i < self.records.len()
            invariant
                records_wf(self.records@),
                0 <= i <= self.records@.len(),
                forall|j: int| 0 <= j < i ==> !has_key(#[trigger] self.records@[j], correlation_id@, sender@),
            decreases self.records@.len() - i,
        {
            let e = &self.records[i];
            if same_bytes(e.correlation_id.as_slice(), correlation_id) && same_bytes(&e.sender, sender) {
                proof {
                    let k = choose|k: int| 0 <= k < self.records@.len() && has_key(
                        #[trigger] self.records@[k],
                        correlation_id@,
                        sender@,
                    );
                    assert(has_key(self.records@[i as int], correlation_id@, sender@));
                    if k != i {
                        assert(has_key(self.records@[k], self.records@[i as int].correlation_id@, self.records@[i as int].sender@));
                    }
                }
                return Some(i);
            }
            i = i + 1;
        }
        None
    }

    /// Deletes the record at `index` and hands it back; the others keep their order.
    pub fn remove_escrow(&mut self, index: usize) -> (r: Escrow)
        requires
            old(self).wf(),
            index < old(self).records@.len(),
        ensures
            final(self).wf(),
            r == old(self).records@[index as int],
            final(self).records@ == old(self).records@.remove(index as int),
    {
        let ghost before = self.records@;
        let r = self.records.remove(index);
        proof {
            let after = self.records@;
            assert forall|i: int, j: int|
                #![trigger after[i], after[j]]
                0 <= i < after.len() && 0 <= j < after.len() && i != j
                implies !has_key(after[i], after[j].correlation_id@, after[j].sender@) by {
                let bi = if i < index { i } else { i + 1 };
                let bj = if j < index { j } else { j + 1 };
                assert(after[i] == before[bi] && after[j] == before[bj]);
                assert(!has_key(before[bi], before[bj].correlation_id@, before[bj].sender@));
            }
            assert forall|i: int| 0 <= i < after.len() implies (#[trigger] after[i]).wf() by {
                let bi = if i < index { i } else { i + 1 };
                assert(after[i] == before[bi]);
            }
        }
        r
    }

    /// Opens an escrow for `amount` under `(correlation_id, sender)`. A repeated request
    /// for an existing key with the same amount succeeds and moves nothing; one with
    /// another amount fails with `AlreadyExists`.
    pub fn create_escrow(
        &mut self,
        sender: [u8; 32],
        recipient: Option<[u8; 32]>,
        platform: [u8; 32],
        correlation_id: Vec<u8>,
        amount: u64,
        now: i64,
        config: EscrowConfig,
        bump: u8,
    ) -> (r: Result<Created, EscrowError>)
        requires
            old(self).wf(),
            config.wf(),
            now + config.timeout_seconds <= i64::MAX,
        ensures
            final(self).wf(),
            correlation_id@.len() > MAX_CORRELATION_ID_LEN ==> r == Err::<Created, EscrowError>(
                EscrowError::InvalidCorrelationId,
            ),
            correlation_id@.len() <= MAX_CORRELATION_ID_LEN && amount == 0 ==> r == Err::<
                Created,
                EscrowError,
            >(EscrowError::InvalidAmount),
            r is Err ==> final(self).records@ == old(self).records@,
            correlation_id@.len() <= MAX_CORRELATION_ID_LEN && amount > 0 ==> match find_key(
                old(self).records@,
                correlation_id@,
                sender@,
            ) {
                Some(i) => if old(self).records@[i].amount == amount {
                    r == Ok::<Created, EscrowError>(Created { index: i as usize, funded: 0 })
                        && final(self).records@ == old(self).records@
                } else {
                    r == Err::<Created, EscrowError>(EscrowError::AlreadyExists)
                },
                None => r == Ok::<Created, EscrowError>(
                    Created { index: old(self).records@.len() as usize, funded: amount },
                ) && final(self).records@.len() == old(self).records@.len() + 1
                    && final(self).records@.drop_last() == old(self).records@
                    && final(self).records@.last().opened_as(
                    sender,
                    recipient,
                    platform,
                    correlation_id@,
                    amount,
                    now,
                    config,
                    bump,
                ),
            },
    {
        if correlation_id.len() > MAX_CORRELATION_ID_LEN {
            return Err(EscrowError::InvalidCorrelationId);
        }
        if amount == 0 {
            return Err(EscrowError::InvalidAmount);
        }
        match self.find(correlation_id.as_slice(), &sender) {
            Some(i) => {
                if self.records[i].amount == amount {
                    Ok(Created { index: i, funded: 0 })
                } else {
                    Err(EscrowError::AlreadyExists)
                }
            },
            None => {
                let e = Escrow::new_pending(sender, recipient, platform, correlation_id, amount, now, config, bump);
                match e {
                    Ok(e) => {
                        let index = self.records.len();
                        let ghost before = self.records@;
                        self.records.push(e);
                        proof {
                            assert(self.records@.drop_last() =~= before);
                            assert forall|i: int, j: int|
                                #![trigger self.records@[i], self.records@[j]]
                                0 <= i < self.records@.len() && 0 <= j < self.records@.len() && i != j
                                implies !has_key(self.records@[i], self.records@[j].correlation_id@, self.records@[j].sender@) by {
                                if i == index as int {
                                    if has_key(self.records@[i], self.records@[j].correlation_id@, self.records@[j].sender@) {
                                        assert(has_key(before[j], correlation_id@, sender@));
                                    }
                                } else if j == index as int {
                                    if has_key(self.records@[i], self.records@[j].correlation_id@, self.records@[j].sender@) {
                                        assert(has_key(before[i], correlation_id@, sender@));
                                    }
                                }
                            }
                        }
                        Ok(Created { index, funded: amount })
                    },
                    Err(err) => Err(err),
                }
            },
        }
    }

    /// Releases the record at `index` out of a custody account holding `balance`.
    /// Where the payout would take the account below `minimum_reserve`, the whole
    /// request fails with `InsufficientFunds` and the record stays `Pending`.
    pub fn release_at(
        &mut self,
        index: usize,
        caller: &[u8; 32],
        platform: &[u8; 32],
        now: i64,
        balance: u64,
        minimum_reserve: u64,
    ) -> (r: Result<Payout, EscrowError>)
        requires
            old(self).wf(),
            index < old(self).records@.len(),
        ensures
            final(self).wf(),
            ({
                let e = old(self).records@[index as int];
                match release_error(e, caller@, platform@, now as int) {
                    Some(err) => r == Err::<Payout, EscrowError>(err) && final(self).records@ == old(
                        self,
                    ).records@,
                    None => if can_pay(balance as int, minimum_reserve as int, e.amount as int) {
                        r matches Ok(p) && p.to_platform == fee_of(e.amount as int, e.fee_bps as int)
                            && p.to_platform + p.to_recipient == e.amount && final(self).records@ == old(
                            self,
                        ).records@.update(index as int, e.with_status(EscrowStatus::Released))
                    } else {
                        r == Err::<Payout, EscrowError>(EscrowError::InsufficientFunds)
                            && final(self).records@ == old(self).records@
                    },
                }
            }),
    {
        let ghost before = self.records@;
        proof {
            assert(before[index as int].wf());
        }
        let released = self.records[index].release_escrow(caller, platform, now);
        proof {
            lemma_update_keeps_wf(before, index as int, self.records@[index as int]);
        }
        match released {
            Ok(p) => {
                let shares = vec![p.to_platform, p.to_recipient];
                proof {
                    assert(shares@.drop_last().drop_last() =~= Seq::<u64>::empty());
                    reveal_with_fuel(total, 3);
                    assert(total(shares@) == p.to_platform + p.to_recipient);
                }
                match disburse(balance, minimum_reserve, &shares) {
                    Ok(_) => Ok(p),
                    Err(err) => {
                        self.records[index].status = EscrowStatus::Pending;
                        proof {
                            assert(self.records@ =~= before);
                        }
                        Err(err)
                    },
                }
            },
            Err(err) => {
                proof {
                    assert(self.records@ =~= before);
                }
                Err(err)
            },
        }
    }

    /// Refunds the record at `index` out of a custody account holding `balance`.
    /// Where the refund would take the account below `minimum_reserve`, the whole
    /// request fails with `InsufficientFunds` and the record stays `Pending`.
    pub fn refund_at(
        &mut self,
        index: usize,
        caller: &[u8; 32],
        now: i64,
        balance: u64,
        minimum_reserve: u64,
    ) -> (r: Result<u64, EscrowError>)
        requires
            old(self).wf(),
            index < old(self).records@.len(),
        ensures
            final(self).wf(),
            ({
                let e = old(self).records@[index as int];
                match refund_error(e, caller@, now as int) {
                    Some(err) => r == Err::<u64, EscrowError>(err) && final(self).records@ == old(
                        self,
                    ).records@,
                    None => if can_pay(balance as int, minimum_reserve as int, e.amount as int) {
                        r == Ok::<u64, EscrowError>(e.amount) && final(self).records@ == old(
                            self,
                        ).records@.update(index as int, e.with_status(EscrowStatus::Refunded))
                    } else {
                        r == Err::<u64, EscrowError>(EscrowError::InsufficientFunds)
                            && final(self).records@ == old(self).records@
                    },
                }
            }),
    {
        let ghost before = self.records@;
        proof {
            assert(before[index as int].wf());
        }
        let refunded = self.records[index].refund_escrow(caller, now);
        proof {
            lemma_update_keeps_wf(before, index as int, self.records@[index as int]);
        }
        match refunded {
            Ok(amount) => {
                let shares = vec![amount];
                proof {
                    assert(shares@.drop_last() =~= Seq::<u64>::empty());
                    reveal_with_fuel(total, 2);
                    assert(total(shares@) == amount);
                }
                match disburse(balance, minimum_reserve, &shares) {
                    Ok(_) => Ok(amount),
                    Err(err) => {
                        self.records[index].status = EscrowStatus::Pending;
                        proof {
                            assert(self.records@ =~= before);
                        }
                        Err(err)
                    },
                }
            },
            Err(err) => {
                proof {
                    assert(self.records@ =~= before);
                }
                Err(err)
            },
        }
    }
}

} // verus!
