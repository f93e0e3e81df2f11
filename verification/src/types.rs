//! Plain data model of leases, deposits and their errors.

use vstd::prelude::*;

verus! {

/// Identifies an account (a landlord, tenant, arbitrator, token or contract).
#[derive(Clone, Copy, Debug, PartialEq, Eq, Structural)]
pub struct AccountId {
    pub id: u64,
}

/// The unit in which a rate is quoted.
#[derive(Clone, Copy, Debug, PartialEq, Eq, Structural)]
pub enum RateType {
    PerSecond,
    PerHour,
    PerDay,
}

#[derive(Clone, Copy, Debug, PartialEq, Eq, Structural)]
pub enum DepositStatus {
    Held,
    Settled,
    Disputed,
}

#[derive(Clone, Copy, Debug, PartialEq, Eq, Structural)]
pub enum LeaseStatus {
    Pending,
    Active,
    Expired,
    Disputed,
    Terminated,
}

#[derive(Clone, Copy, Debug, PartialEq, Eq, Structural)]
pub enum MaintenanceStatus {
    NoIssue,
    Reported,
    Fixed,
    Verified,
}

/// Damage grades reported by a property oracle, from least to most severe.
#[derive(Clone, Copy, Debug, PartialEq, Eq, Structural)]
pub enum DamageSeverity {
    NormalWearAndTear,
    Minor,
    Moderate,
    Major,
    Severe,
    Catastrophic,
}

impl DamageSeverity {
    /// The numeric damage code of a grade (0 for normal wear, up to 5).
    pub open spec fn code_spec(self) -> u32 {
        match self {
            DamageSeverity::NormalWearAndTear => 0,
            DamageSeverity::Minor => 1,
            DamageSeverity::Moderate => 2,
            DamageSeverity::Major => 3,
            DamageSeverity::Severe => 4,
            DamageSeverity::Catastrophic => 5,
        }
    }

    /// The numeric damage code of a grade.
    pub fn code(&self) -> (c: u32)
        ensures
            c == self.code_spec(),
    {
        match self {
            DamageSeverity::NormalWearAndTear => 0,
            DamageSeverity::Minor => 1,
            DamageSeverity::Moderate => 2,
            DamageSeverity::Major => 3,
            DamageSeverity::Severe => 4,
            DamageSeverity::Catastrophic => 5,
        }
    }
}

/// The split of a released deposit.
#[derive(Clone, Copy, Debug, PartialEq, Eq, Structural)]
pub struct DepositReleasePartial {
    pub tenant_amount: i128,
    pub landlord_amount: i128,
}

/// How a deposit is released.
#[derive(Clone, Copy, Debug, PartialEq, Eq, Structural)]
pub enum DepositRelease {
    FullRefund,
    PartialRefund(DepositReleasePartial),
    Disputed,
}

/// A proposed change to a lease's rent or end date.
#[derive(Clone, Copy, Debug, PartialEq, Eq, Structural)]
pub struct LeaseAmendment {
    pub new_rent_per_sec: Option<i128>,
    pub new_end_date: Option<u64>,
}

/// Shares of harvested yield, in basis points.
#[derive(Clone, Copy, Debug, PartialEq, Eq, Structural)]
pub struct YieldDistribution {
    pub lessee_bps: u32,
    pub lessor_bps: u32,
    pub dao_bps: u32,
}

/// Errors of lease operations.
#[derive(Clone, Copy, Debug, PartialEq, Eq, Structural)]
pub enum LeaseError {
    LeaseNotFound,
    LeaseNotExpired,
    RentOutstanding,
    DepositNotSettled,
    Unauthorised,
    InvalidDeduction,
    NftTransferFailed,
    UsageRightsNotFound,
    UsageRightsExpired,
    KycRequired,
    InvalidAsset,
    NftNotReturned,
    WithdrawalAddressNotSet,
    NotAnArbitrator,
    LeaseAlreadyExists,
    UpgradeNotAllowed,
    PathPaymentFailed,
    SlippageExceeded,
    InvalidReleaseMath,
    OracleNotWhitelisted,
    InvalidSignature,
    InvalidNonce,
    LeaseNotTerminated,
    DepositAlreadySettled,
    YieldUnderflow,
    InsufficientLiquidityBuffer,
    YieldProtocolNotWhitelisted,
    InvalidYieldDistribution,
    /// The lease or its rent routing is not in a state that allows the operation.
    InvalidState,
}

impl LeaseError {
    /// The stable numeric code of an error (1 to 29, in declaration order).
    pub open spec fn code_spec(self) -> u32 {
        match self {
            LeaseError::LeaseNotFound => 1,
            LeaseError::LeaseNotExpired => 2,
            LeaseError::RentOutstanding => 3,
            LeaseError::DepositNotSettled => 4,
            LeaseError::Unauthorised => 5,
            LeaseError::InvalidDeduction => 6,
            LeaseError::NftTransferFailed => 7,
            LeaseError::UsageRightsNotFound => 8,
            LeaseError::UsageRightsExpired => 9,
            LeaseError::KycRequired => 10,
            LeaseError::InvalidAsset => 11,
            LeaseError::NftNotReturned => 12,
            LeaseError::WithdrawalAddressNotSet => 13,
            LeaseError::NotAnArbitrator => 14,
            LeaseError::LeaseAlreadyExists => 15,
            LeaseError::UpgradeNotAllowed => 16,
            LeaseError::PathPaymentFailed => 17,
            LeaseError::SlippageExceeded => 18,
            LeaseError::InvalidReleaseMath => 19,
            LeaseError::OracleNotWhitelisted => 20,
            LeaseError::InvalidSignature => 21,
            LeaseError::InvalidNonce => 22,
            LeaseError::LeaseNotTerminated => 23,
            LeaseError::DepositAlreadySettled => 24,
            LeaseError::YieldUnderflow => 25,
            LeaseError::InsufficientLiquidityBuffer => 26,
            LeaseError::YieldProtocolNotWhitelisted => 27,
            LeaseError::InvalidYieldDistribution => 28,
            LeaseError::InvalidState => 29,
        }
    }

    /// The stable numeric code of an error.
    pub fn code(&self) -> (c: u32)
        ensures
            c == self.code_spec(),
    {
        match self {
            LeaseError::LeaseNotFound => 1,
            LeaseError::LeaseNotExpired => 2,
            LeaseError::RentOutstanding => 3,
            LeaseError::DepositNotSettled => 4,
            LeaseError::Unauthorised => 5,
            LeaseError::InvalidDeduction => 6,
            LeaseError::NftTransferFailed => 7,
            LeaseError::UsageRightsNotFound => 8,
            LeaseError::UsageRightsExpired => 9,
            LeaseError::KycRequired => 10,
            LeaseError::InvalidAsset => 11,
            LeaseError::NftNotReturned => 12,
            LeaseError::WithdrawalAddressNotSet => 13,
            LeaseError::NotAnArbitrator => 14,
            LeaseError::LeaseAlreadyExists => 15,
            LeaseError::UpgradeNotAllowed => 16,
            LeaseError::PathPaymentFailed => 17,
            LeaseError::SlippageExceeded => 18,
            LeaseError::InvalidReleaseMath => 19,
            LeaseError::OracleNotWhitelisted => 20,
            LeaseError::InvalidSignature => 21,
            LeaseError::InvalidNonce => 22,
            LeaseError::LeaseNotTerminated => 23,
            LeaseError::DepositAlreadySettled => 24,
            LeaseError::YieldUnderflow => 25,
            LeaseError::InsufficientLiquidityBuffer => 26,
            LeaseError::YieldProtocolNotWhitelisted => 27,
            LeaseError::InvalidYieldDistribution => 28,
            LeaseError::InvalidState => 29,
        }
    }
}

/// A simple symbol-keyed lease.
pub struct Lease {
    pub landlord: AccountId,
    pub tenant: AccountId,
    pub rent_per_sec: i128,
    pub late_fee_per_sec: i128,
    pub deposit_amount: i128,
    pub start_date: u64,
    pub end_date: u64,
    pub property_uri: String,
    pub status: LeaseStatus,
    pub nft_contract: Option<AccountId>,
    pub token_id: Option<u128>,
    pub active: bool,
    pub grace_period_end: u64,
    pub late_fee_flat: i128,
    pub debt: i128,
    pub flat_fee_applied: bool,
    pub seconds_late_charged: u64,
    pub rent_paid: i128,
    pub expiry_time: u64,
    pub buyout_price: Option<i128>,
    pub cumulative_payments: i128,
    pub payment_token: AccountId,
}

/// A numbered lease with its deposit, maintenance and yield state.
pub struct LeaseInstance {
    pub landlord: AccountId,
    pub tenant: AccountId,
    pub rent_amount: i128,
    pub deposit_amount: i128,
    pub security_deposit: i128,
    pub start_date: u64,
    pub end_date: u64,
    pub property_uri: String,
    pub status: LeaseStatus,
    pub nft_contract: Option<AccountId>,
    pub token_id: Option<u128>,
    pub active: bool,
    pub rent_paid: i128,
    pub expiry_time: u64,
    pub buyout_price: Option<i128>,
    pub cumulative_payments: i128,
    pub debt: i128,
    pub rent_paid_through: u64,
    pub deposit_status: DepositStatus,
    pub rent_per_sec: i128,
    pub grace_period_end: u64,
    pub late_fee_flat: i128,
    pub late_fee_per_sec: i128,
    pub flat_fee_applied: bool,
    pub seconds_late_charged: u64,
    pub withdrawal_address: Option<AccountId>,
    pub rent_withdrawn: i128,
    pub arbitrators: Vec<AccountId>,
    pub maintenance_status: MaintenanceStatus,
    pub withheld_rent: i128,
    pub repair_proof_hash: Option<[u8; 32]>,
    pub inspector: Option<AccountId>,
    pub paused: bool,
    pub pause_reason: Option<String>,
    pub paused_at: Option<u64>,
    pub pause_initiator: Option<AccountId>,
    pub total_paused_duration: u64,
    pub rent_pull_authorized_amount: Option<i128>,
    pub last_rent_pull_timestamp: Option<u64>,
    pub billing_cycle_duration: u64,
    pub yield_delegation_enabled: bool,
    pub yield_accumulated: i128,
    pub equity_balance: i128,
    pub equity_percentage_bps: u32,
    pub had_late_payment: bool,
    pub has_pet: bool,
    pub pet_deposit_amount: i128,
    pub pet_rent_amount: i128,
    pub payment_token: AccountId,
}

/// The terms a landlord and tenant sign when creating a numbered lease.
pub struct CreateLeaseParams {
    pub tenant: AccountId,
    pub rent_amount: i128,
    pub deposit_amount: i128,
    pub security_deposit: i128,
    pub start_date: u64,
    pub end_date: u64,
    pub property_uri: String,
    pub payment_token: AccountId,
    pub arbitrators: Vec<AccountId>,
    pub rent_per_sec: i128,
    pub grace_period_end: u64,
    pub late_fee_flat: i128,
    pub late_fee_per_sec: i128,
    pub equity_percentage_bps: u32,
    pub has_pet: bool,
    pub pet_deposit_amount: i128,
    pub pet_rent_amount: i128,
    pub yield_delegation_enabled: bool,
    pub deposit_asset: Option<AccountId>,
    pub dex_contract: Option<AccountId>,
    pub max_slippage_bps: u32,
    pub swap_path: Vec<AccountId>,
}

/// Rights of a renter to use a leased NFT until `valid_until`.
#[derive(Clone, Debug)]
pub struct UsageRights {
    pub renter: AccountId,
    pub nft_contract: AccountId,
    pub token_id: u128,
    pub lease_id: String,
    pub valid_until: u64,
}

/// Part of a lease's security deposit placed with a yield protocol.
#[derive(Clone, Copy, Debug, PartialEq, Eq, Structural)]
pub struct YieldDeployment {
    pub lease_id: u64,
    pub principal_amount: i128,
    pub yield_protocol: AccountId,
    pub deployment_timestamp: u64,
    pub lp_tokens: i128,
    pub active: bool,
}

/// A signed damage report from a property oracle.
#[derive(Clone, Copy, Debug)]
pub struct OraclePayload {
    pub lease_id: u64,
    pub oracle_pubkey: [u8; 32],
    pub damage_severity: DamageSeverity,
    pub nonce: u64,
    pub timestamp: u64,
    pub signature: [u8; 64],
}

/// Notice that a symbol-keyed lease ended.
#[derive(Clone, Copy, Debug, PartialEq, Eq, Structural)]
pub struct LeaseEnded {
    pub id: u64,
    pub duration: u64,
    pub total_paid: i128,
}

/// Notice that a numbered lease was terminated and archived.
#[derive(Clone, Copy, Debug, PartialEq, Eq, Structural)]
pub struct LeaseTerminated {
    pub lease_id: u64,
}

/// Notice of how a disputed deposit was split.
#[derive(Clone, Copy, Debug, PartialEq, Eq, Structural)]
pub struct DisputeResolved {
    pub lease_id: u64,
    pub resolution: DepositReleasePartial,
}

/// Notice that rent is late: whole days past the grace period and the fine so far.
#[derive(Clone, Copy, Debug, PartialEq, Eq, Structural)]
pub struct PaymentLate {
    pub lease_id: u64,
    pub days_late: u64,
    pub current_fine: i128,
}

/// Notice that a lease was finalized by mutual agreement on its escrow.
#[derive(Clone, Copy, Debug, PartialEq, Eq, Structural)]
pub struct MutualLeaseFinalized {
    pub lease_id: u64,
    pub return_amount: i128,
    pub slash_amount: i128,
    pub tenant_refund: i128,
    pub landlord_payout: i128,
}

/// The receipt kept for a month's rent on a named lease.
#[derive(Clone, Debug)]
pub struct Receipt {
    pub lease_id: String,
    pub month: u32,
    pub amount: i128,
    pub date: u64,
}

/// A lease kept in history after it ends, with who ended it and when.
pub struct HistoricalLease {
    pub lease: LeaseInstance,
    pub terminated_by: AccountId,
    pub terminated_at: u64,
}

} // verus!
