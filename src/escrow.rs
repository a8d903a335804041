//! The escrow record and its state machine: every transition re-checks that the
//! record is still `Pending` before it changes anything.

use vstd::prelude::*;
use crate::policy::{expired, fee_of, is_expired, split, BPS_DENOMINATOR, ESCROW_TIMEOUT_SECONDS, FIFTEEN_DAYS, PLATFORM_FEE_BPS};

verus! {

/// Longest correlation id, in bytes, that a record can hold.
pub const MAX_CORRELATION_ID_LEN: usize = 256;

/// Where an escrow stands. Every status but `Pending` is terminal.
#[derive(Clone, Copy, Debug, PartialEq, Eq, Structural)]
pub enum EscrowStatus {
    Pending,
    Released,
    Refunded,
    Withheld,
    Completed,
}

/// Why a request was rejected. A rejected request changes nothing.
#[derive(Clone, Copy, Debug, PartialEq, Eq, Structural)]
pub enum EscrowError {
    InvalidAmount,
    InvalidCorrelationId,
    AlreadyExists,
    EscrowNotPending,
    EscrowExpired,
    EscrowTimeoutNotReached,
    InvalidRecipient,
    InvalidSender,
    InvalidPlatform,
    ThreadIdMismatch,
    InsufficientFunds,
}

/// Errors that name a caller or party who does not match the record.
pub open spec fn is_authorization_error(err: EscrowError) -> bool {
    err is InvalidRecipient || err is InvalidSender || err is InvalidPlatform
}

/// Policy chosen when an escrow is created: the fee rate and the refund timeout.
#[derive(Clone, Copy, Debug, PartialEq, Eq, Structural)]
pub struct EscrowConfig {
    pub fee_bps: u64,
    pub timeout_seconds: i64,
}

impl EscrowConfig {
    pub open spec fn wf(&self) -> bool {
        self.fee_bps <= BPS_DENOMINATOR && self.timeout_seconds >= 0
    }

    /// A 2% platform fee and a 30-day timeout.
    pub fn standard() -> (c: EscrowConfig)
        ensures
            c.wf(),
            c.fee_bps == PLATFORM_FEE_BPS,
            c.timeout_seconds == ESCROW_TIMEOUT_SECONDS,
    {
        EscrowConfig { fee_bps: PLATFORM_FEE_BPS, timeout_seconds: ESCROW_TIMEOUT_SECONDS }
    }

    /// No fee and a 15-day timeout, for escrows whose recipient is bound when they claim.
    pub fn claim_on_reply() -> (c: EscrowConfig)
        ensures
            c.wf(),
            c.fee_bps == 0,
            c.timeout_seconds == FIFTEEN_DAYS,
    {
        EscrowConfig { fee_bps: 0, timeout_seconds: FIFTEEN_DAYS }
    }
}

/// What a release pays out: the fee to the platform and the rest to the recipient.
#[derive(Clone, Copy, Debug, PartialEq, Eq, Structural)]
pub struct Payout {
    pub to_platform: u64,
    pub to_recipient: u64,
}

/// One transfer of one balance from `sender` to `recipient`, held in custody.
pub struct Escrow {
    pub sender: [u8; 32],
    /// `None` until the recipient is bound by their first claim.
    pub recipient: Option<[u8; 32]>,
    pub platform: [u8; 32],
    pub amount: u64,
    pub correlation_id: Vec<u8>,
    pub status: EscrowStatus,
    pub created_at: i64,
    pub expires_at: i64,
    pub fee_bps: u64,
    pub bump: u8,
}

/// Whether `key` is the bound recipient of `e`.
pub open spec fn is_bound_recipient(e: Escrow, key: Seq<u8>) -> bool {
    match e.recipient {
        Some(r) => r@ == key,
        None => false,
    }
}

/// The error, if any, with which `release_escrow` rejects a request.
pub open spec fn release_error(e: Escrow, caller: Seq<u8>, platform: Seq<u8>, now: int) -> Option<EscrowError> {
    if !(e.status is Pending) {
        Some(EscrowError::EscrowNotPending)
    } else if platform != e.platform@ {
        Some(EscrowError::InvalidPlatform)
    } else if !is_bound_recipient(e, caller) {
        Some(EscrowError::InvalidRecipient)
    } else if expired(e.expires_at as int, now) {
        Some(EscrowError::EscrowExpired)
    } else {
        None
    }
}

/// The error, if any, with which `refund_escrow` rejects a request: the sender may
/// refund at any time, anyone else only once the escrow has expired.
pub open spec fn refund_error(e: Escrow, caller: Seq<u8>, now: int) -> Option<EscrowError> {
    if !(e.status is Pending) {
        Some(EscrowError::EscrowNotPending)
    } else if !(caller == e.sender@ || expired(e.expires_at as int, now)) {
        Some(EscrowError::EscrowTimeoutNotReached)
    } else {
        None
    }
}

/// The error, if any, with which `withhold` rejects a request.
pub open spec fn withhold_error(e: Escrow, caller: Seq<u8>) -> Option<EscrowError> {
    if !(e.status is Pending) {
        Some(EscrowError::EscrowNotPending)
    } else if caller != e.sender@ {
        Some(EscrowError::InvalidSender)
    } else {
        None
    }
}

/// The error, if any, with which `register_and_claim` rejects a request.
pub open spec fn claim_error(
    e: Escrow,
    caller: Seq<u8>,
    sender: Seq<u8>,
    correlation_id: Seq<u8>,
    balance: int,
    minimum_reserve: int,
) -> Option<EscrowError> {
    if !(e.status is Pending) {
        Some(EscrowError::EscrowNotPending)
    } else if correlation_id != e.correlation_id@ {
        Some(EscrowError::ThreadIdMismatch)
    } else if sender != e.sender@ {
        Some(EscrowError::InvalidSender)
    } else if e.recipient is Some && !is_bound_recipient(e, caller) {
        Some(EscrowError::InvalidRecipient)
    } else if balance < minimum_reserve {
        Some(EscrowError::InsufficientFunds)
    } else {
        None
    }
}

/// A record that has left `Pending` rejects every resolution request with
/// `EscrowNotPending`, so it never reaches a second terminal status or returns to `Pending`.
pub proof fn law_terminal_is_final(
    e: Escrow,
    caller: Seq<u8>,
    platform: Seq<u8>,
    sender: Seq<u8>,
    correlation_id: Seq<u8>,
    now: int,
    balance: int,
    minimum_reserve: int,
)
    requires
        !(e.status is Pending),
    ensures
        release_error(e, caller, platform, now) == Some(EscrowError::EscrowNotPending),
        refund_error(e, caller, now) == Some(EscrowError::EscrowNotPending),
        withhold_error(e, caller) == Some(EscrowError::EscrowNotPending),
        claim_error(e, caller, sender, correlation_id, balance, minimum_reserve) == Some(
            EscrowError::EscrowNotPending,
        ),
{
}

/// On a pending escrow, a release asked for by anyone but the bound recipient fails
/// with an authorization error, and so moves no funds.
pub proof fn law_release_needs_recipient(e: Escrow, caller: Seq<u8>, platform: Seq<u8>, now: int)
    requires
        e.status is Pending,
        !is_bound_recipient(e, caller),
    ensures
        release_error(e, caller, platform, now) matches Some(err) && is_authorization_error(err),
{
}

/// Byte-wise equality of two keys or ids.
pub fn same_bytes(a: &[u8], b: &[u8]) -> (r: bool)
    ensures
        r == (a@ == b@),
{
    if a.len() != b.len() {
        return false;
    }
    let mut i: usize = 0;
    while i < a.len()
        invariant
            a@.len() == b@.len(),
            0 <= i <= a@.len(),
            forall|j: int| 0 <= j < i ==> a@[j] == b@[j],
        decreases a@.len() - i,
    {
        if a[i] != b[i] {
            return false;
        }
        i = i + 1;
    }
    assert(a@ =~= b@);
    true
}

impl Escrow {
    /// A record as every operation finds and leaves it.
    pub open spec fn wf(&self) -> bool {
        &&& self.amount > 0
        &&& self.correlation_id@.len() <= MAX_CORRELATION_ID_LEN
        &&& self.fee_bps <= BPS_DENOMINATOR
        &&& self.created_at <= self.expires_at
    }

    /// The same record with another status.
    pub open spec fn with_status(self, status: EscrowStatus) -> Escrow {
        Escrow { status: status, ..self }
    }

    /// Whether this is the `Pending` record that the given request opens.
    pub open spec fn opened_as(
        self,
        sender: [u8; 32],
        recipient: Option<[u8; 32]>,
        platform: [u8; 32],
        correlation_id: Seq<u8>,
        amount: u64,
        now: i64,
        config: EscrowConfig,
        bump: u8,
    ) -> bool {
        &&& self.wf()
        &&& self.sender == sender
        &&& self.recipient == recipient
        &&& self.platform == platform
        &&& self.correlation_id@ == correlation_id
        &&& self.amount == amount
        &&& self.status is Pending
        &&& self.created_at == now
        &&& self.expires_at == now + config.timeout_seconds
        &&& self.fee_bps == config.fee_bps
        &&& self.bump == bump
    }

    /// Opens a `Pending` escrow at time `now`, expiring `config.timeout_seconds` later.
    pub fn new_pending(
        sender: [u8; 32],
        recipient: Option<[u8; 32]>,
        platform: [u8; 32],
        correlation_id: Vec<u8>,
        amount: u64,
        now: i64,
        config: EscrowConfig,
        bump: u8,
    ) -> (r: Result<Escrow, EscrowError>)
        requires
            config.wf(),
            now + config.timeout_seconds <= i64::MAX,
        ensures
            correlation_id@.len() > MAX_CORRELATION_ID_LEN ==> r == Err::<Escrow, EscrowError>(
                EscrowError::InvalidCorrelationId,
            ),
            correlation_id@.len() <= MAX_CORRELATION_ID_LEN && amount == 0 ==> r == Err::<
                Escrow,
                EscrowError,
            >(EscrowError::InvalidAmount),
            correlation_id@.len() <= MAX_CORRELATION_ID_LEN && amount > 0 ==> (r matches Ok(e)
                && e.opened_as(sender, recipient, platform, correlation_id@, amount, now, config, bump)),
    {
        if correlation_id.len() > MAX_CORRELATION_ID_LEN {
            return Err(EscrowError::InvalidCorrelationId);
        }
        if amount == 0 {
            return Err(EscrowError::InvalidAmount);
        }
        Ok(Escrow {
            sender,
            recipient,
            platform,
            amount,
            correlation_id,
            status: EscrowStatus::Pending,
            created_at: now,
            expires_at: now + config.timeout_seconds,
            fee_bps: config.fee_bps,
            bump,
        })
    }

    /// Whether the escrow's deadline has passed at `current_time`.
    pub fn is_expired(&self, current_time: i64) -> (r: bool)
        ensures
            r == expired(self.expires_at as int, current_time as int),
    {
        is_expired(self.expires_at, current_time)
    }

    /// The platform's share of the escrowed amount.
    pub fn calculate_platform_fee(&self) -> (fee: u64)
        requires
            self.wf(),
        ensures
            fee == fee_of(self.amount as int, self.fee_bps as int),
            fee <= self.amount,
    {
        split(self.amount, self.fee_bps).0
    }

    /// The recipient's share: the amount less the platform fee.
    pub fn calculate_recipient_amount(&self) -> (net: u64)
        requires
            self.wf(),
        ensures
            net == self.amount - fee_of(self.amount as int, self.fee_bps as int),
    {
        split(self.amount, self.fee_bps).1
    }

    /// Pays the escrow out to its bound recipient, who must be the caller, before the
    /// deadline. `platform` is the account offered to receive the fee.
    pub fn release_escrow(&mut self, caller: &[u8; 32], platform: &[u8; 32], now: i64) -> (r: Result<Payout, EscrowError>)
        requires
            old(self).wf(),
        ensures
            final(self).wf(),
            match release_error(*old(self), caller@, platform@, now as int) {
                Some(err) => r == Err::<Payout, EscrowError>(err) && *final(self) == *old(self),
                None => r matches Ok(p) && p.to_platform == fee_of(
                    old(self).amount as int,
                    old(self).fee_bps as int,
                ) && p.to_platform + p.to_recipient == old(self).amount && *final(self) == old(
                    self,
                ).with_status(EscrowStatus::Released),
            },
    {
        if self.status != EscrowStatus::Pending {
            return Err(EscrowError::EscrowNotPending);
        }
        if !same_bytes(platform, &self.platform) {
            return Err(EscrowError::InvalidPlatform);
        }
        match self.recipient {
            Some(bound) => {
                if !same_bytes(caller, &bound) {
                    return Err(EscrowError::InvalidRecipient);
                }
            },
            None => {
                return Err(EscrowError::InvalidRecipient);
            },
        }
        if self.is_expired(now) {
            return Err(EscrowError::EscrowExpired);
        }
        let (fee, net) = split(self.amount, self.fee_bps);
        self.status = EscrowStatus::Released;
        Ok(Payout { to_platform: fee, to_recipient: net })
    }

    /// Returns the whole amount, with no fee, to the sender: at any time when the
    /// sender asks, and at the request of anyone once the escrow has expired.
    pub fn refund_escrow(&mut self, caller: &[u8; 32], now: i64) -> (r: Result<u64, EscrowError>)
        requires
            old(self).wf(),
        ensures
            final(self).wf(),
            match refund_error(*old(self), caller@, now as int) {
                Some(err) => r == Err::<u64, EscrowError>(err) && *final(self) == *old(self),
                None => r == Ok::<u64, EscrowError>(old(self).amount) && *final(self) == old(
                    self,
                ).with_status(EscrowStatus::Refunded),
            },
    {
        if self.status != EscrowStatus::Pending {
            return Err(EscrowError::EscrowNotPending);
        }
        let is_sender = same_bytes(caller, &self.sender);
        let expired_now = self.is_expired(now);
        if !(is_sender || expired_now) {
            return Err(EscrowError::EscrowTimeoutNotReached);
        }
        self.status = EscrowStatus::Refunded;
        Ok(self.amount)
    }

    /// The sender takes the whole amount back, marking the escrow `Withheld`.
    pub fn withhold(&mut self, caller: &[u8; 32]) -> (r: Result<u64, EscrowError>)
        requires
            old(self).wf(),
        ensures
            final(self).wf(),
            match withhold_error(*old(self), caller@) {
                Some(err) => r == Err::<u64, EscrowError>(err) && *final(self) == *old(self),
                None => r == Ok::<u64, EscrowError>(old(self).amount) && *final(self) == old(
                    self,
                ).with_status(EscrowStatus::Withheld),
            },
    {
        if self.status != EscrowStatus::Pending {
            return Err(EscrowError::EscrowNotPending);
        }
        if !same_bytes(caller, &self.sender) {
            return Err(EscrowError::InvalidSender);
        }
        self.status = EscrowStatus::Withheld;
        Ok(self.amount)
    }

    /// Binds the caller as recipient (or confirms the one already bound) and pays out
    /// everything in custody above `minimum_reserve`. `sender` and `correlation_id`
    /// must name this record.
    pub fn register_and_claim(
        &mut self,
        caller: &[u8; 32],
        sender: &[u8; 32],
        correlation_id: &[u8],
        balance: u64,
        minimum_reserve: u64,
    ) -> (r: Result<u64, EscrowError>)
        requires
            old(self).wf(),
        ensures
            final(self).wf(),
            match claim_error(
                *old(self),
                caller@,
                sender@,
                correlation_id@,
                balance as int,
                minimum_reserve as int,
            ) {
                Some(err) => r == Err::<u64, EscrowError>(err) && *final(self) == *old(self),
                None => r == Ok::<u64, EscrowError>((balance - minimum_reserve) as u64)
                    && *final(self) == (Escrow {
                    recipient: Some(*caller),
                    status: EscrowStatus::Completed,
                    ..*old(self)
                }),
            },
    {
        if self.status != EscrowStatus::Pending {
            return Err(EscrowError::EscrowNotPending);
        }
        if !same_bytes(correlation_id, self.correlation_id.as_slice()) {
            return Err(EscrowError::ThreadIdMismatch);
        }
        if !same_bytes(sender, &self.sender) {
            return Err(EscrowError::InvalidSender);
        }
        match self.recipient {
            Some(bound) => {
                if !same_bytes(caller, &bound) {
                    return Err(EscrowError::InvalidRecipient);
                }
            },
            None => {},
        }
        let paid = match balance.checked_sub(minimum_reserve) {
            Some(p) => p,
            None => {
                return Err(EscrowError::InsufficientFunds);
            },
        };
        self.recipient = Some(*caller);
        self.status = EscrowStatus::Completed;
        Ok(paid)
    }
}

} // verus!
