//! Utility tokens that prove a lessee's right to use a rented asset: minting
//! them once the deposit is held, answering access checks from devices and
//! other systems, subleasing, revocation and renewal.

use vstd::prelude::*;
use crate::types::{AccountId, DepositStatus, LeaseInstance, LeaseStatus};

verus! {

/// What kind of asset a token unlocks.
#[derive(Clone, Copy, Debug, PartialEq, Eq, Structural)]
pub enum AssetType {
    Physical,
    Digital,
    IoT,
    Hybrid,
}

/// How much of the asset a token unlocks.
#[derive(Clone, Copy, Debug, PartialEq, Eq, Structural)]
pub enum AccessLevel {
    Full,
    Limited,
    TimeBased,
    Conditional,
}

/// Why a token was revoked.
#[derive(Clone, Debug)]
pub enum RevocationReason {
    LeaseTerminated,
    LeaseExpired,
    LeaseEvicted,
    LeaseDefaulted,
    LeaseDisputed,
    SecurityBreach,
    AssetDamage,
    RegulatoryCompliance,
    CourtOrder,
    Other(String),
}

/// Why an outside system asks whether a token is valid.
#[derive(Clone, Copy, Debug, PartialEq, Eq, Structural)]
pub enum VerificationPurpose {
    Unlock,
    Access,
    Authenticate,
    Validate,
    Audit,
}

/// Why an access-token operation was refused.
#[derive(Clone, Copy, Debug, PartialEq, Eq, Structural)]
pub enum AccessError {
    LeaseNotFound,
    TokenNotFound,
    TokenAlreadyExists,
    InvalidLeaseState,
    UnauthorizedTransfer,
    TokenRevoked,
    TokenExpired,
    TransferNotAllowed,
    VerificationFailed,
    RevocationFailed,
    RenewalFailed,
    InvalidAssetType,
    InvalidAccessLevel,
    CrossContractCallFailed,
}

impl AccessError {
    /// The stable numeric code of an error (5001 to 5014, in declaration order).
    pub open spec fn code_spec(self) -> u32 {
        match self {
            AccessError::LeaseNotFound => 5001,
            AccessError::TokenNotFound => 5002,
            AccessError::TokenAlreadyExists => 5003,
            AccessError::InvalidLeaseState => 5004,
            AccessError::UnauthorizedTransfer => 5005,
            AccessError::TokenRevoked => 5006,
            AccessError::TokenExpired => 5007,
            AccessError::TransferNotAllowed => 5008,
            AccessError::VerificationFailed => 5009,
            AccessError::RevocationFailed => 5010,
            AccessError::RenewalFailed => 5011,
            AccessError::InvalidAssetType => 5012,
            AccessError::InvalidAccessLevel => 5013,
            AccessError::CrossContractCallFailed => 5014,
        }
    }

    /// The stable numeric code of an error.
    pub fn code(&self) -> (c: u32)
        ensures
            c == self.code_spec(),
    {
        match self {
            AccessError::LeaseNotFound => 5001,
            AccessError::TokenNotFound => 5002,
            AccessError::TokenAlreadyExists => 5003,
            AccessError::InvalidLeaseState => 5004,
            AccessError::UnauthorizedTransfer => 5005,
            AccessError::TokenRevoked => 5006,
            AccessError::TokenExpired => 5007,
            AccessError::TransferNotAllowed => 5008,
            AccessError::VerificationFailed => 5009,
            AccessError::RevocationFailed => 5010,
            AccessError::RenewalFailed => 5011,
            AccessError::InvalidAssetType => 5012,
            AccessError::InvalidAccessLevel => 5013,
            AccessError::CrossContractCallFailed => 5014,
        }
    }
}

/// A lessee's access token.
#[derive(Clone, Debug)]
pub struct LesseeAccessToken {
    pub lease_id: u64,
    pub lessee: AccountId,
    /// The off-chain identifier of the asset (a lock, a server, a car).
    pub asset_identifier: String,
    pub expiration_timestamp: u64,
    pub minted_at: u64,
    pub last_verified: u64,
    pub verification_count: u32,
    /// Whether the lessee may sublease the asset by passing the token on.
    pub transferable: bool,
    pub transfer_count: u32,
    pub revoked: bool,
    pub revoked_at: Option<u64>,
    pub revocation_reason: Option<RevocationReason>,
    pub asset_type: AssetType,
    pub access_level: AccessLevel,
}

/// The answer to an access check.
#[derive(Clone, Debug)]
pub struct AccessVerificationResponse {
    pub token_id: u128,
    pub is_valid: bool,
    pub lessee: AccountId,
    pub asset_identifier: String,
    pub expiration_timestamp: u64,
    pub access_level: AccessLevel,
    pub verification_timestamp: u64,
    /// Seconds until the token expires (0 once it has).
    pub remaining_time: u64,
    pub transferable: bool,
}

/// Issues, checks and withdraws lessee access tokens.
pub struct LesseeAccessTokenManager;

/// The identifier of the token minted for `lease_id` at `timestamp`: the lease
/// in the high 64 bits, the time in the low 64 bits.
pub open spec fn lease_token_id(lease_id: u64, timestamp: u64) -> int {
    lease_id * 0x1_0000_0000_0000_0000 + timestamp
}

/// A token is valid while it is not revoked and not past its expiration.
pub open spec fn token_valid_spec(token: LesseeAccessToken, now: u64) -> bool {
    !token.revoked && now <= token.expiration_timestamp
}

/// Seconds left before `expiration` (0 once it has passed).
pub open spec fn remaining_time_spec(expiration: u64, now: u64) -> u64 {
    if now < expiration { (expiration - now) as u64 } else { 0 }
}

/// The token minted for an active lease whose deposit is held.
pub open spec fn minted_token(
    lease_id: u64,
    lease: LeaseInstance,
    asset_identifier: String,
    asset_type: AssetType,
    access_level: AccessLevel,
    transferable: bool,
    now: u64,
) -> LesseeAccessToken {
    LesseeAccessToken {
        lease_id,
        lessee: lease.tenant,
        asset_identifier,
        expiration_timestamp: lease.end_date,
        minted_at: now,
        last_verified: now,
        verification_count: 0,
        transferable,
        transfer_count: 0,
        revoked: false,
        revoked_at: None,
        revocation_reason: None,
        asset_type,
        access_level,
    }
}

/// The elements of a list of token ids other than `id`.
pub open spec fn other_than(id: u128) -> spec_fn(u128) -> bool {
    |x: u128| x != id
}

/// The answer to a check of `token` at `now`.
pub open spec fn verification_response(token: LesseeAccessToken, token_id: u128, now: u64) -> AccessVerificationResponse {
    AccessVerificationResponse {
        token_id,
        is_valid: token_valid_spec(token, now),
        lessee: token.lessee,
        asset_identifier: token.asset_identifier,
        expiration_timestamp: token.expiration_timestamp,
        access_level: token.access_level,
        verification_timestamp: now,
        remaining_time: remaining_time_spec(token.expiration_timestamp, now),
        transferable: token.transferable,
    }
}

/// The outcome of passing `token` from `from` to `to` at `now`.
pub open spec fn transfer_outcome(token: LesseeAccessToken, from: AccountId, to: AccountId, now: u64) -> Result<LesseeAccessToken, AccessError> {
    if !token.transferable {
        Err(AccessError::TransferNotAllowed)
    } else if token.revoked {
        Err(AccessError::TokenRevoked)
    } else if now > token.expiration_timestamp {
        Err(AccessError::TokenExpired)
    } else if token.lessee != from {
        Err(AccessError::UnauthorizedTransfer)
    } else {
        Ok(LesseeAccessToken { lessee: to, transfer_count: (token.transfer_count + 1) as u32, ..token })
    }
}

/// The outcome of renewing `token` until `new_expiration`.
pub open spec fn renew_outcome(token: LesseeAccessToken, new_expiration: u64) -> Result<LesseeAccessToken, AccessError> {
    if token.revoked {
        Err(AccessError::TokenRevoked)
    } else {
        Ok(LesseeAccessToken { expiration_timestamp: new_expiration, ..token })
    }
}

/// Revocation is final: a revoked token never grants access, cannot be
/// passed on and cannot be renewed.
pub proof fn lemma_revoked_token_is_dead(token: LesseeAccessToken, from: AccountId, to: AccountId, now: u64, new_expiration: u64)
    requires
        token.revoked,
    ensures
        !token_valid_spec(token, now),
        transfer_outcome(token, from, to, now) is Err,
        renew_outcome(token, new_expiration) == Err::<LesseeAccessToken, AccessError>(AccessError::TokenRevoked),
{
}

/// Token ids are unique: different leases, or different minting times, give
/// different ids.
pub proof fn lemma_token_id_injective(l1: u64, t1: u64, l2: u64, t2: u64)
    ensures
        lease_token_id(l1, t1) == lease_token_id(l2, t2) ==> l1 == l2 && t1 == t2,
{
    if l1 < l2 {
        assert(lease_token_id(l1, t1) < lease_token_id(l2, t2)) by (nonlinear_arith)
            requires l1 < l2, t1 < 0x1_0000_0000_0000_0000int, t2 >= 0;
    } else if l2 < l1 {
        assert(lease_token_id(l2, t2) < lease_token_id(l1, t1)) by (nonlinear_arith)
            requires l2 < l1, t2 < 0x1_0000_0000_0000_0000int, t1 >= 0;
    }
}

impl LesseeAccessTokenManager {
    /// The id of the token minted for `lease_id` at `timestamp`.
    pub fn generate_unique_token_id(lease_id: u64, timestamp: u64) -> (id: u128)
        ensures
            id == lease_token_id(lease_id, timestamp),
    {
        let hi: u128 = (lease_id as u128) << 64u32;
        let lo: u128 = timestamp as u128;
        assert(((lease_id as u128) << 64u32) | (timestamp as u128)
            == (lease_id as u128) * 0x1_0000_0000_0000_0000u128 + (timestamp as u128)) by (bit_vector);
        hi | lo
    }

    /// Whether `token` grants access at `now`.
    pub fn is_token_valid(token: &LesseeAccessToken, now: u64) -> (b: bool)
        ensures
            b == token_valid_spec(*token, now),
    {
        !token.revoked && now <= token.expiration_timestamp
    }

    /// Seconds left before `expiration` (0 once it has passed).
    pub fn remaining_time(expiration: u64, now: u64) -> (t: u64)
        ensures
            t == remaining_time_spec(expiration, now),
    {
        if now < expiration { expiration - now } else { 0 }
    }

    /// How long a stored token is kept alive: until it expires.
    pub fn token_ttl(expiration: u64, now: u64) -> (ttl: u64)
        requires
            now <= expiration,
        ensures
            ttl == expiration - now,
    {
        expiration - now
    }

    /// Mints the access token of an active lease whose deposit is held; a
    /// lease has at most one token.
    pub fn mint_lessee_access_token(
        lease: Option<&LeaseInstance>,
        lease_id: u64,
        token_exists: bool,
        asset_identifier: String,
        asset_type: AssetType,
        access_level: AccessLevel,
        transferable: bool,
        now: u64,
    ) -> (r: Result<(u128, LesseeAccessToken), AccessError>)
        ensures
            lease is None ==> r == Err::<(u128, LesseeAccessToken), AccessError>(AccessError::LeaseNotFound),
            lease is Some && (lease->0.status != LeaseStatus::Active || lease->0.deposit_status != DepositStatus::Held)
                ==> r == Err::<(u128, LesseeAccessToken), AccessError>(AccessError::InvalidLeaseState),
            lease is Some && lease->0.status == LeaseStatus::Active && lease->0.deposit_status == DepositStatus::Held && token_exists
                ==> r == Err::<(u128, LesseeAccessToken), AccessError>(AccessError::TokenAlreadyExists),
            r is Ok <==> (lease is Some && lease->0.status == LeaseStatus::Active
                && lease->0.deposit_status == DepositStatus::Held && !token_exists),
            r is Ok ==> r->Ok_0.0 == lease_token_id(lease_id, now)
                && r->Ok_0.1 == minted_token(lease_id, *lease->0, asset_identifier, asset_type, access_level, transferable, now),
    {
        let l = match lease {
            Some(l) => l,
            None => return Err(AccessError::LeaseNotFound),
        };
        if l.status != LeaseStatus::Active {
            return Err(AccessError::InvalidLeaseState);
        }
        if l.deposit_status != DepositStatus::Held {
            return Err(AccessError::InvalidLeaseState);
        }
        if token_exists {
            return Err(AccessError::TokenAlreadyExists);
        }
        let token_id = Self::generate_unique_token_id(lease_id, now);
        let token = LesseeAccessToken {
            lease_id,
            lessee: l.tenant,
            asset_identifier,
            expiration_timestamp: l.end_date,
            minted_at: now,
            last_verified: now,
            verification_count: 0,
            transferable,
            transfer_count: 0,
            revoked: false,
            revoked_at: None,
            revocation_reason: None,
            asset_type,
            access_level,
        };
        Ok((token_id, token))
    }

    /// Points a lease at the token contract and the token that unlocks it.
    pub fn link_lease_to_token(lease: &mut LeaseInstance, token_contract: AccountId, token_id: u128)
        ensures
            *final(lease) == (LeaseInstance { nft_contract: Some(token_contract), token_id: Some(token_id), ..*old(lease) }),
    {
        lease.nft_contract = Some(token_contract);
        lease.token_id = Some(token_id);
    }

    /// Answers an access check at `now` and records it on the token (time of
    /// the check and one more check). A revoked or expired token is answered
    /// as invalid, not refused.
    pub fn verify_access_token(token: Option<LesseeAccessToken>, token_id: u128, now: u64)
        -> (r: Result<(AccessVerificationResponse, LesseeAccessToken), AccessError>)
        requires
            token is Some ==> token->0.verification_count < u32::MAX,
        ensures
            r is Err <==> token is None,
            r is Err ==> r->Err_0 == AccessError::TokenNotFound,
            r is Ok ==> r->Ok_0.0 == verification_response(token->0, token_id, now)
                && r->Ok_0.1 == (LesseeAccessToken {
                    last_verified: now,
                    verification_count: (token->0.verification_count + 1) as u32,
                    ..token->0
                }),
    {
        let mut t = match token {
            Some(t) => t,
            None => return Err(AccessError::TokenNotFound),
        };
        let is_valid = Self::is_token_valid(&t, now);
        let remaining_time = Self::remaining_time(t.expiration_timestamp, now);
        let response = AccessVerificationResponse {
            token_id,
            is_valid,
            lessee: t.lessee,
            asset_identifier: t.asset_identifier.clone(),
            expiration_timestamp: t.expiration_timestamp,
            access_level: t.access_level,
            verification_timestamp: now,
            remaining_time,
            transferable: t.transferable,
        };
        t.last_verified = now;
        t.verification_count = t.verification_count + 1;
        Ok((response, t))
    }

    /// Passes a transferable, live token from its lessee to a sublessee.
    pub fn transfer_access_token(token: Option<LesseeAccessToken>, from: AccountId, to: AccountId, now: u64)
        -> (r: Result<LesseeAccessToken, AccessError>)
        requires
            token is Some ==> token->0.transfer_count < u32::MAX,
        ensures
            token is None ==> r == Err::<LesseeAccessToken, AccessError>(AccessError::TokenNotFound),
            token is Some ==> r == transfer_outcome(token->0, from, to, now),
    {
        let mut t = match token {
            Some(t) => t,
            None => return Err(AccessError::TokenNotFound),
        };
        if !t.transferable {
            return Err(AccessError::TransferNotAllowed);
        }
        if t.revoked {
            return Err(AccessError::TokenRevoked);
        }
        if now > t.expiration_timestamp {
            return Err(AccessError::TokenExpired);
        }
        if t.lessee != from {
            return Err(AccessError::UnauthorizedTransfer);
        }
        t.lessee = to;
        t.transfer_count = t.transfer_count + 1;
        Ok(t)
    }

    /// Revokes a token at once, recording when and why.
    pub fn revoke_access_token(token: Option<LesseeAccessToken>, reason: RevocationReason, now: u64)
        -> (r: Result<LesseeAccessToken, AccessError>)
        ensures
            r is Err <==> token is None,
            r is Err ==> r->Err_0 == AccessError::TokenNotFound,
            r is Ok ==> r->Ok_0 == (LesseeAccessToken {
                revoked: true,
                revoked_at: Some(now),
                revocation_reason: Some(reason),
                ..token->0
            }),
    {
        let mut t = match token {
            Some(t) => t,
            None => return Err(AccessError::TokenNotFound),
        };
        t.revoked = true;
        t.revoked_at = Some(now);
        t.revocation_reason = Some(reason);
        Ok(t)
    }

    /// Moves the expiration of a token that is not revoked (on lease renewal).
    pub fn renew_access_token(token: Option<LesseeAccessToken>, new_expiration: u64)
        -> (r: Result<LesseeAccessToken, AccessError>)
        ensures
            token is None ==> r == Err::<LesseeAccessToken, AccessError>(AccessError::TokenNotFound),
            token is Some ==> r == renew_outcome(token->0, new_expiration),
    {
        let mut t = match token {
            Some(t) => t,
            None => return Err(AccessError::TokenNotFound),
        };
        if t.revoked {
            return Err(AccessError::TokenRevoked);
        }
        t.expiration_timestamp = new_expiration;
        Ok(t)
    }

    /// The revocation that a change of lease status calls for: a lease that
    /// ends or goes into dispute loses its access token.
    pub fn revocation_for_status(new_status: LeaseStatus) -> (r: Option<RevocationReason>)
        ensures
            new_status == LeaseStatus::Terminated ==> r matches Some(RevocationReason::LeaseTerminated),
            new_status == LeaseStatus::Expired ==> r matches Some(RevocationReason::LeaseExpired),
            new_status == LeaseStatus::Disputed ==> r matches Some(RevocationReason::LeaseDisputed),
            r is None <==> (new_status == LeaseStatus::Active || new_status == LeaseStatus::Pending),
    {
        match new_status {
            LeaseStatus::Terminated => Some(RevocationReason::LeaseTerminated),
            LeaseStatus::Expired => Some(RevocationReason::LeaseExpired),
            LeaseStatus::Disputed => Some(RevocationReason::LeaseDisputed),
            _ => None,
        }
    }

    /// The token list of a holder without `id`, in the same order.
    pub fn without_token(list: &Vec<u128>, id: u128) -> (r: Vec<u128>)
        ensures
            r@ == list@.filter(other_than(id)),
    {
        let mut r: Vec<u128> = Vec::new();
        let mut i: usize = 0;
        while i < list.len()
            invariant
                i <= list.len(),
                r@ == list@.subrange(0, i as int).filter(other_than(id)),
            decreases list.len() - i,
        {
            let x = list[i];
            proof {
                let s = list@.subrange(0, i as int + 1);
                assert(s.drop_last() == list@.subrange(0, i as int));
                assert(s.last() == x);
                reveal_with_fuel(Seq::<_>::filter, 1);
            }
            if x != id {
                r.push(x);
            }
            i = i + 1;
        }
        assert(list@.subrange(0, list.len() as int) == list@);
        r
    }

    /// Moves token `id` from one holder's list to the end of another's:
    /// afterwards the first list no longer holds it, the second does, and
    /// every other id stays where it was.
    pub fn move_token(from_list: &Vec<u128>, to_list: &mut Vec<u128>, id: u128) -> (r: Vec<u128>)
        ensures
            r@ == from_list@.filter(other_than(id)),
            final(to_list)@ == old(to_list)@.push(id),
            !r@.contains(id),
            final(to_list)@.contains(id),
            forall|x: u128| x != id && from_list@.contains(x) ==> r@.contains(x),
    {
        let r = Self::without_token(from_list, id);
        to_list.push(id);
        proof {
            broadcast use vstd::seq_lib::group_filter_ensures;
            assert(to_list@[to_list@.len() - 1] == id);
            if r@.contains(id) {
                let k = choose|k: int| 0 <= k < r@.len() && r@[k] == id;
                assert(other_than(id)(from_list@.filter(other_than(id))[k]));
            }
            assert forall|x: u128| x != id && from_list@.contains(x) implies r@.contains(x) by {
                let k = choose|k: int| 0 <= k < from_list@.len() && from_list@[k] == x;
                assert(other_than(id)(from_list@[k]));
            }
        }
        r
    }
}

} // verus!
