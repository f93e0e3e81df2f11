//! A secondary market for lessor-rights tokens: listing, buying (which moves
//! the token and re-routes the lease's rent), delisting and repricing, with a
//! price history per token.

use vstd::prelude::*;
use crate::contract::{fits_i128, LeaseContract};
use crate::math::div_toward_zero;
use crate::nft::{accrual_fits, accrued_rent_spec, elapsed_in_cycle, LessorRightsNFT, LessorRightsNFTMetadata, NFTTransferRecord, BILLING_CYCLE_SECONDS};
use crate::router::{fresh_accumulation, proration_on_transfer, routing_to, RoutingTransfer, YieldAccumulation};
use crate::types::AccountId;

verus! {

/// Seconds in a day.
pub const SECONDS_PER_DAY: u64 = 86_400;

/// Seconds a listing without an expiry is kept (a year).
pub const DEFAULT_LISTING_TTL: u64 = 31_536_000;

/// How the market is set up.
#[derive(Clone, Copy, Debug, PartialEq, Eq, Structural)]
pub struct DEXIntegrationConfig {
    pub dex_contract: AccountId,
    pub token_contract: AccountId,
    /// Market fee on each sale, in basis points of the price.
    pub fee_bps: u32,
    pub min_price: i128,
    pub max_price: i128,
    pub enabled: bool,
}

/// A token offered for sale.
#[derive(Clone, Copy, Debug, PartialEq, Eq, Structural)]
pub struct NFTListing {
    pub token_id: u128,
    pub seller: AccountId,
    pub price: i128,
    pub listed_at: u64,
    pub expires_at: Option<u64>,
    pub lease_id: u64,
    /// The monthly rent a buyer can expect while the lease runs.
    pub yield_projection: i128,
    pub active: bool,
}

/// One entry of a token's price history.
#[derive(Clone, Copy, Debug, PartialEq, Eq, Structural)]
pub struct PricePoint {
    pub price: i128,
    pub timestamp: u64,
    /// The amount traded at that price (0 for a listing or a repricing).
    pub volume: i128,
}

/// One entry of a token's yield history.
#[derive(Clone, Copy, Debug, PartialEq, Eq, Structural)]
pub struct YieldPoint {
    pub yield_amount: i128,
    pub timestamp: u64,
    pub holder: AccountId,
}

/// The trading record of one token.
#[derive(Clone, Debug)]
pub struct NFTMarketData {
    pub token_id: u128,
    pub lease_id: u64,
    pub current_price: i128,
    pub last_sale_price: i128,
    pub last_sale_timestamp: u64,
    pub price_history: Vec<PricePoint>,
    pub yield_history: Vec<YieldPoint>,
    pub total_volume: i128,
    pub sale_count: u32,
}

/// Why a market operation was refused.
#[derive(Clone, Copy, Debug, PartialEq, Eq, Structural)]
pub enum DEXError {
    NFTNotFound,
    NotAuthorized,
    InvalidPrice,
    ListingExpired,
    InsufficientBalance,
    DEXNotEnabled,
    TransferFailed,
    MarketDataCorrupted,
    YieldProjectionFailed,
    CrossContractCallFailed,
}

impl DEXError {
    /// The stable numeric code of an error (4001 to 4010, in declaration order).
    pub open spec fn code_spec(self) -> u32 {
        match self {
            DEXError::NFTNotFound => 4001,
            DEXError::NotAuthorized => 4002,
            DEXError::InvalidPrice => 4003,
            DEXError::ListingExpired => 4004,
            DEXError::InsufficientBalance => 4005,
            DEXError::DEXNotEnabled => 4006,
            DEXError::TransferFailed => 4007,
            DEXError::MarketDataCorrupted => 4008,
            DEXError::YieldProjectionFailed => 4009,
            DEXError::CrossContractCallFailed => 4010,
        }
    }

    /// The stable numeric code of an error.
    pub fn code(&self) -> (c: u32)
        ensures
            c == self.code_spec(),
    {
        match self {
            DEXError::NFTNotFound => 4001,
            DEXError::NotAuthorized => 4002,
            DEXError::InvalidPrice => 4003,
            DEXError::ListingExpired => 4004,
            DEXError::InsufficientBalance => 4005,
            DEXError::DEXNotEnabled => 4006,
            DEXError::TransferFailed => 4007,
            DEXError::MarketDataCorrupted => 4008,
            DEXError::YieldProjectionFailed => 4009,
            DEXError::CrossContractCallFailed => 4010,
        }
    }
}

/// Market-wide figures.
#[derive(Clone, Copy, Debug, PartialEq, Eq, Structural)]
pub struct MarketStatistics {
    pub total_listings: u32,
    pub active_listings: u32,
    pub total_volume_24h: i128,
    pub average_price: i128,
    pub highest_price: i128,
    pub lowest_price: i128,
    pub total_yield_distributed: i128,
    pub last_updated: u64,
}

impl MarketStatistics {
    /// Figures of an empty market (the lowest price starts at the maximum).
    pub fn new() -> (s: Self)
        ensures
            s == (MarketStatistics {
                total_listings: 0,
                active_listings: 0,
                total_volume_24h: 0,
                average_price: 0,
                highest_price: 0,
                lowest_price: i128::MAX,
                total_yield_distributed: 0,
                last_updated: 0,
            }),
    {
        MarketStatistics {
            total_listings: 0,
            active_listings: 0,
            total_volume_24h: 0,
            average_price: 0,
            highest_price: 0,
            lowest_price: i128::MAX,
            total_yield_distributed: 0,
            last_updated: 0,
        }
    }
}

/// Everything a sale changes.
#[derive(Clone, Debug)]
pub struct NFTSale {
    pub fees: i128,
    pub seller_proceeds: i128,
    pub transfer: NFTTransferRecord,
    pub metadata: LessorRightsNFTMetadata,
    pub routing: RoutingTransfer,
    pub market_data: NFTMarketData,
}

/// Lists, sells and reprices lessor-rights tokens.
pub struct DEXIntegrationManager;

/// The monthly rent a buyer can expect: the lease's rent while at least one
/// whole billing cycle of the lease remains, else nothing.
pub open spec fn yield_projection_spec(metadata: LessorRightsNFTMetadata, now: u64) -> i128 {
    if metadata.lease_end > now && (metadata.lease_end - now) / (BILLING_CYCLE_SECONDS as int) > 0 {
        metadata.monthly_rent
    } else {
        0
    }
}

/// The projected yield is the lease's monthly rent, however many whole
/// billing cycles of 2 592 000 seconds remain, and nothing once less than a
/// whole cycle remains: it never grows with the remaining term.
pub proof fn lemma_yield_projection_is_monthly_rent(metadata: LessorRightsNFTMetadata, now: u64)
    ensures
        metadata.lease_end >= now + 2_592_000 ==> yield_projection_spec(metadata, now) == metadata.monthly_rent,
        metadata.lease_end < now + 2_592_000 ==> yield_projection_spec(metadata, now) == 0,
        forall|later: u64| #![trigger yield_projection_spec(metadata, later)]
            now <= later && metadata.lease_end >= later + 2_592_000
                ==> yield_projection_spec(metadata, later) == yield_projection_spec(metadata, now),
{
    let n = metadata.lease_end - now;
    assert(n >= 2_592_000 ==> n / 2_592_000 > 0) by (nonlinear_arith);
    assert(0 <= n < 2_592_000 ==> n / 2_592_000 == 0) by (nonlinear_arith);
    assert forall|later: u64| #![trigger yield_projection_spec(metadata, later)]
        now <= later && metadata.lease_end >= later + 2_592_000
            implies yield_projection_spec(metadata, later) == yield_projection_spec(metadata, now) by {
        let m = metadata.lease_end - later;
        assert(m >= 2_592_000 ==> m / 2_592_000 > 0) by (nonlinear_arith);
    }
}

/// Whether a price lies in the configured range.
pub open spec fn price_in_range(config: DEXIntegrationConfig, price: i128) -> bool {
    config.min_price <= price <= config.max_price
}

/// The market fee on a sale at `price`, rounded toward zero.
pub open spec fn sale_fee_spec(price: i128, fee_bps: u32) -> int {
    div_toward_zero(price * fee_bps, 10000)
}

/// Whether a listing can still be bought at `now`.
pub open spec fn listing_live(listing: NFTListing, now: u64) -> bool {
    listing.active && match listing.expires_at {
        Some(e) => now <= e,
        None => true,
    }
}

/// The figures of a token's trading record other than its histories.
pub open spec fn market_figures(md: NFTMarketData) -> (u128, u64, i128, i128, u64, i128, u32) {
    (md.token_id, md.lease_id, md.current_price, md.last_sale_price, md.last_sale_timestamp, md.total_volume, md.sale_count)
}

/// `r` is the trading record `md` after a sale at `price` and `now`: the last
/// sale, the volume and the count of sales grow and the sale joins the price
/// history; a token without a record starts one with this sale.
pub open spec fn sale_recorded(md: Option<NFTMarketData>, r: NFTMarketData, token_id: u128, price: i128, now: u64) -> bool {
    match md {
        Some(m) => {
            &&& market_figures(r) == market_figures(NFTMarketData {
                    last_sale_price: price,
                    last_sale_timestamp: now,
                    total_volume: (m.total_volume + price) as i128,
                    sale_count: (m.sale_count + 1) as u32,
                    ..m
                })
            &&& r.price_history@ == m.price_history@.push(PricePoint { price, timestamp: now, volume: price })
            &&& r.yield_history@ == m.yield_history@
        },
        None => {
            &&& market_figures(r) == (token_id, 0u64, price, price, now, price, 1u32)
            &&& r.price_history@ == seq![PricePoint { price, timestamp: now, volume: price }]
            &&& r.yield_history@.len() == 0
        },
    }
}

/// A sale splits the price exactly between the market fee and the seller,
/// and with a fee of at most 100% on a non-negative price neither part is
/// negative or larger than the price.
pub proof fn lemma_sale_split(price: i128, fee_bps: u32)
    requires
        fee_bps <= 10000,
        price >= 0,
    ensures
        0 <= sale_fee_spec(price, fee_bps) <= price,
        0 <= price - sale_fee_spec(price, fee_bps) <= price,
        sale_fee_spec(price, fee_bps) + (price - sale_fee_spec(price, fee_bps)) == price,
{
    crate::math::lemma_share_between_zero_and_total(price as int, fee_bps as int);
}

impl DEXIntegrationManager {
    /// The monthly rent a buyer can expect from a token.
    pub fn calculate_yield_projection(metadata: &LessorRightsNFTMetadata, now: u64) -> (y: i128)
        ensures
            y == yield_projection_spec(*metadata, now),
    {
        let remaining_months: u64 = if metadata.lease_end > now {
            (metadata.lease_end - now) / BILLING_CYCLE_SECONDS
        } else {
            0
        };
        if remaining_months == 0 {
            return 0;
        }
        metadata.monthly_rent
    }

    /// Lists a token for sale by its holder, at a price in the configured
    /// range, when the market is enabled and the token is not locked;
    /// `duration_days` sets an expiry.
    pub fn list_nft_on_dex(
        metadata: Option<&LessorRightsNFTMetadata>,
        token_id: u128,
        seller: AccountId,
        price: i128,
        duration_days: Option<u32>,
        config: Option<&DEXIntegrationConfig>,
        locked: bool,
        now: u64,
    ) -> (r: Result<NFTListing, DEXError>)
        requires
            duration_days is Some ==> now + duration_days->0 * SECONDS_PER_DAY <= u64::MAX,
        ensures
            metadata is None ==> r == Err::<NFTListing, DEXError>(DEXError::NFTNotFound),
            metadata is Some && metadata->0.current_holder != seller ==> r == Err::<NFTListing, DEXError>(DEXError::NotAuthorized),
            metadata is Some && metadata->0.current_holder == seller && !(config is Some && config->0.enabled)
                ==> r == Err::<NFTListing, DEXError>(DEXError::DEXNotEnabled),
            metadata is Some && metadata->0.current_holder == seller && config is Some && config->0.enabled
                && !price_in_range(*config->0, price) ==> r == Err::<NFTListing, DEXError>(DEXError::InvalidPrice),
            metadata is Some && metadata->0.current_holder == seller && config is Some && config->0.enabled
                && price_in_range(*config->0, price) && locked ==> r == Err::<NFTListing, DEXError>(DEXError::NotAuthorized),
            r is Ok <==> (metadata is Some && metadata->0.current_holder == seller && config is Some && config->0.enabled
                && price_in_range(*config->0, price) && !locked),
            r is Ok ==> r->Ok_0 == (NFTListing {
                token_id,
                seller,
                price,
                listed_at: now,
                expires_at: match duration_days { Some(d) => Some((now + d * SECONDS_PER_DAY) as u64), None => None },
                lease_id: metadata->0.lease_id,
                yield_projection: yield_projection_spec(*metadata->0, now),
                active: true,
            }),
    {
        let m = match metadata {
            Some(m) => m,
            None => return Err(DEXError::NFTNotFound),
        };
        if m.current_holder != seller {
            return Err(DEXError::NotAuthorized);
        }
        let c = match config {
            Some(c) => c,
            None => return Err(DEXError::DEXNotEnabled),
        };
        if !c.enabled {
            return Err(DEXError::DEXNotEnabled);
        }
        if price < c.min_price || price > c.max_price {
            return Err(DEXError::InvalidPrice);
        }
        if locked {
            return Err(DEXError::NotAuthorized);
        }
        let yield_projection = Self::calculate_yield_projection(m, now);
        let expires_at = match duration_days {
            Some(days) => Some(now + (days as u64) * SECONDS_PER_DAY),
            None => None,
        };
        Ok(NFTListing {
            token_id,
            seller,
            price,
            listed_at: now,
            expires_at,
            lease_id: m.lease_id,
            yield_projection,
            active: true,
        })
    }

    /// How long a listing is kept: until it expires, or a year.
    pub fn listing_ttl(listing: &NFTListing, now: u64) -> (ttl: u64)
        requires
            listing.expires_at is Some ==> now <= listing.expires_at->0,
        ensures
            ttl == match listing.expires_at { Some(e) => (e - now) as u64, None => DEFAULT_LISTING_TTL },
    {
        match listing.expires_at {
            Some(e) => e - now,
            None => DEFAULT_LISTING_TTL,
        }
    }

    /// The trading record after a listing or repricing at `price`: the
    /// current price changes and a point with no volume is added.
    pub fn update_market_data_on_listing(md: Option<NFTMarketData>, token_id: u128, price: i128, now: u64) -> (r: NFTMarketData)
        ensures
            md is Some ==> market_figures(r) == market_figures(NFTMarketData { current_price: price, ..md->0 })
                && r.price_history@ == md->0.price_history@.push(PricePoint { price, timestamp: now, volume: 0 })
                && r.yield_history@ == md->0.yield_history@,
            md is None ==> market_figures(r) == (token_id, 0u64, price, 0i128, 0u64, 0i128, 0u32)
                && r.price_history@ == seq![PricePoint { price, timestamp: now, volume: 0 }]
                && r.yield_history@.len() == 0,
    {
        let mut m = match md {
            Some(m) => m,
            None => NFTMarketData {
                token_id,
                lease_id: 0,
                current_price: price,
                last_sale_price: 0,
                last_sale_timestamp: 0,
                price_history: Vec::new(),
                yield_history: Vec::new(),
                total_volume: 0,
                sale_count: 0,
            },
        };
        m.current_price = price;
        m.price_history.push(PricePoint { price, timestamp: now, volume: 0 });
        m
    }

    /// The trading record after a repricing (the same change as a listing).
    pub fn update_market_data_on_price_update(md: Option<NFTMarketData>, token_id: u128, new_price: i128, now: u64) -> (r: NFTMarketData)
        ensures
            md is Some ==> market_figures(r) == market_figures(NFTMarketData { current_price: new_price, ..md->0 })
                && r.price_history@ == md->0.price_history@.push(PricePoint { price: new_price, timestamp: now, volume: 0 })
                && r.yield_history@ == md->0.yield_history@,
            md is None ==> market_figures(r) == (token_id, 0u64, new_price, 0i128, 0u64, 0i128, 0u32)
                && r.price_history@ == seq![PricePoint { price: new_price, timestamp: now, volume: 0 }]
                && r.yield_history@.len() == 0,
    {
        Self::update_market_data_on_listing(md, token_id, new_price, now)
    }

    /// The trading record after a sale at `price`: the last sale, the volume
    /// and the count of sales grow, and a point with the sale's volume is
    /// added.
    pub fn update_market_data_on_sale(md: Option<NFTMarketData>, token_id: u128, price: i128, now: u64) -> (r: NFTMarketData)
        requires
            md is Some ==> fits_i128(md->0.total_volume + price) && md->0.sale_count < u32::MAX,
        ensures
            sale_recorded(md, r, token_id, price, now),
    {
        let mut m = match md {
            Some(m) => m,
            None => NFTMarketData {
                token_id,
                lease_id: 0,
                current_price: price,
                last_sale_price: price,
                last_sale_timestamp: now,
                price_history: Vec::new(),
                yield_history: Vec::new(),
                total_volume: 0,
                sale_count: 0,
            },
        };
        m.last_sale_price = price;
        m.last_sale_timestamp = now;
        m.total_volume = m.total_volume + price;
        m.sale_count = m.sale_count + 1;
        m.price_history.push(PricePoint { price, timestamp: now, volume: price });
        m
    }

    /// Buys a listed token: the listing must be live, its price within the
    /// buyer's limit and the market enabled. The market fee is taken from the
    /// price, the token moves to the buyer, the lease's rent is re-routed to
    /// the buyer and the sale is recorded.
    pub fn buy_nft_from_dex(
        listing: Option<&NFTListing>,
        buyer: AccountId,
        max_price: i128,
        config: Option<&DEXIntegrationConfig>,
        metadata: Option<LessorRightsNFTMetadata>,
        locked: bool,
        lease_exists: bool,
        accumulation: Option<&YieldAccumulation>,
        market_data: Option<NFTMarketData>,
        now: u64,
    ) -> (r: Result<NFTSale, DEXError>)
        requires
            listing is Some && config is Some ==> fits_i128(listing->0.price * config->0.fee_bps),
            metadata is Some ==> accrual_fits(elapsed_in_cycle(metadata->0.billing_cycle_start, now), metadata->0.monthly_rent),
            metadata is Some ==> metadata->0.transfer_count < u32::MAX,
            accumulation is Some ==> fits_i128(accumulation->0.accumulated_yield * 10000),
            listing is Some && market_data is Some ==> fits_i128(market_data->0.total_volume + listing->0.price)
                && market_data->0.sale_count < u32::MAX,
        ensures
            listing is None ==> r is Err && r->Err_0 == DEXError::NFTNotFound,
            listing is Some && !listing_live(*listing->0, now) ==> r is Err && r->Err_0 == DEXError::ListingExpired,
            listing is Some && listing_live(*listing->0, now) && listing->0.price > max_price
                ==> r is Err && r->Err_0 == DEXError::InvalidPrice,
            listing is Some && listing_live(*listing->0, now) && listing->0.price <= max_price
                && !(config is Some && config->0.enabled) ==> r is Err && r->Err_0 == DEXError::DEXNotEnabled,
            r is Ok <==> (listing is Some && listing_live(*listing->0, now) && listing->0.price <= max_price
                && config is Some && config->0.enabled
                && metadata is Some && metadata->0.current_holder == listing->0.seller && !locked
                && lease_exists && accumulation is Some),
            r is Err && listing is Some && listing_live(*listing->0, now) && listing->0.price <= max_price
                && config is Some && config->0.enabled ==> r->Err_0 == DEXError::TransferFailed,
            r is Ok ==> {
                let s = r->Ok_0;
                let l = listing->0;
                let m = metadata->0;
                let elapsed = elapsed_in_cycle(m.billing_cycle_start, now);
                &&& s.fees == sale_fee_spec(l.price, config->0.fee_bps)
                &&& s.seller_proceeds == l.price - s.fees
                &&& s.transfer.token_id == l.token_id
                &&& s.transfer.from_holder == l.seller
                &&& s.transfer.to_holder == buyer
                &&& s.transfer.transfer_timestamp == now
                &&& s.transfer.accrued_rent_at_transfer == accrued_rent_spec(elapsed, m.monthly_rent)
                &&& s.transfer.proration_amount == s.transfer.accrued_rent_at_transfer
                &&& s.transfer.billing_cycle_remaining
                    == (if elapsed < BILLING_CYCLE_SECONDS { BILLING_CYCLE_SECONDS - elapsed } else { 0 })
                &&& s.metadata == (LessorRightsNFTMetadata {
                    current_holder: buyer,
                    last_transfer: now,
                    transfer_count: (m.transfer_count + 1) as u32,
                    pending_yield: 0,
                    billing_cycle_start: now,
                    ..m
                })
                &&& s.routing.proration == proration_on_transfer(*accumulation->0, now)
                &&& s.routing.accumulation == fresh_accumulation(l.lease_id, buyer, now)
                &&& s.routing.config == routing_to(l.lease_id, buyer, now)
                &&& sale_recorded(market_data, s.market_data, l.token_id, l.price, now)
            },
    {
        let l = match listing {
            Some(l) => l,
            None => return Err(DEXError::NFTNotFound),
        };
        if !l.active {
            return Err(DEXError::ListingExpired);
        }
        if let Some(expires_at) = l.expires_at {
            if now > expires_at {
                return Err(DEXError::ListingExpired);
            }
        }
        if l.price > max_price {
            return Err(DEXError::InvalidPrice);
        }
        let c = match config {
            Some(c) => c,
            None => return Err(DEXError::DEXNotEnabled),
        };
        if !c.enabled {
            return Err(DEXError::DEXNotEnabled);
        }
        proof {
            assert(l.price >= 0 ==> l.price * c.fee_bps >= 0) by (nonlinear_arith)
                requires c.fee_bps >= 0;
            assert(l.price < 0 ==> l.price * c.fee_bps <= 0) by (nonlinear_arith)
                requires c.fee_bps >= 0;
        }
        let fees = (l.price * (c.fee_bps as i128)) / 10000;
        let seller_proceeds = l.price - fees;
        let (transfer, new_metadata) = match LessorRightsNFT::transfer_nft(metadata, l.token_id, l.seller, buyer, locked, now) {
            Ok(t) => t,
            Err(_) => return Err(DEXError::TransferFailed),
        };
        let routing = match LeaseContract::update_payment_routing_on_nft_transfer(lease_exists, accumulation, l.lease_id, buyer, now) {
            Ok(rt) => rt,
            Err(_) => return Err(DEXError::TransferFailed),
        };
        let md = Self::update_market_data_on_sale(market_data, l.token_id, l.price, now);
        Ok(NFTSale { fees, seller_proceeds, transfer, metadata: new_metadata, routing, market_data: md })
    }

    /// Withdraws a listing; only its seller may.
    pub fn delist_nft(listing: Option<&NFTListing>, seller: AccountId) -> (r: Result<(), DEXError>)
        ensures
            listing is None ==> r == Err::<(), DEXError>(DEXError::NFTNotFound),
            listing is Some && listing->0.seller != seller ==> r == Err::<(), DEXError>(DEXError::NotAuthorized),
            r is Ok <==> (listing is Some && listing->0.seller == seller),
    {
        let l = match listing {
            Some(l) => l,
            None => return Err(DEXError::NFTNotFound),
        };
        if l.seller != seller {
            return Err(DEXError::NotAuthorized);
        }
        Ok(())
    }

    /// Reprices a listing within the configured range; only its seller may.
    pub fn update_listing_price(listing: Option<NFTListing>, seller: AccountId, new_price: i128, config: Option<&DEXIntegrationConfig>)
        -> (r: Result<NFTListing, DEXError>)
        ensures
            listing is None ==> r == Err::<NFTListing, DEXError>(DEXError::NFTNotFound),
            listing is Some && listing->0.seller != seller ==> r == Err::<NFTListing, DEXError>(DEXError::NotAuthorized),
            listing is Some && listing->0.seller == seller && config is None ==> r == Err::<NFTListing, DEXError>(DEXError::DEXNotEnabled),
            listing is Some && listing->0.seller == seller && config is Some && !price_in_range(*config->0, new_price)
                ==> r == Err::<NFTListing, DEXError>(DEXError::InvalidPrice),
            r is Ok <==> (listing is Some && listing->0.seller == seller && config is Some && price_in_range(*config->0, new_price)),
            r is Ok ==> r->Ok_0 == (NFTListing { price: new_price, ..listing->0 }),
    {
        let mut l = match listing {
            Some(l) => l,
            None => return Err(DEXError::NFTNotFound),
        };
        if l.seller != seller {
            return Err(DEXError::NotAuthorized);
        }
        let c = match config {
            Some(c) => c,
            None => return Err(DEXError::DEXNotEnabled),
        };
        if new_price < c.min_price || new_price > c.max_price {
            return Err(DEXError::InvalidPrice);
        }
        l.price = new_price;
        Ok(l)
    }

    /// Sets up the market, enabled; only the admin may.
    pub fn configure_dex(
        admin: Option<AccountId>,
        caller: AccountId,
        dex_contract: AccountId,
        token_contract: AccountId,
        fee_bps: u32,
        min_price: i128,
        max_price: i128,
    ) -> (r: Result<DEXIntegrationConfig, DEXError>)
        ensures
            r is Ok <==> admin == Some(caller),
            r is Err ==> r->Err_0 == DEXError::NotAuthorized,
            r is Ok ==> r->Ok_0 == (DEXIntegrationConfig { dex_contract, token_contract, fee_bps, min_price, max_price, enabled: true }),
    {
        let is_admin = match admin {
            Some(a) => a == caller,
            None => false,
        };
        if !is_admin {
            return Err(DEXError::NotAuthorized);
        }
        Ok(DEXIntegrationConfig { dex_contract, token_contract, fee_bps, min_price, max_price, enabled: true })
    }

    /// Turns the market on or off; only the admin may, once it is set up.
    pub fn toggle_dex_integration(admin: Option<AccountId>, caller: AccountId, config: Option<DEXIntegrationConfig>, enabled: bool)
        -> (r: Result<DEXIntegrationConfig, DEXError>)
        ensures
            admin != Some(caller) ==> r == Err::<DEXIntegrationConfig, DEXError>(DEXError::NotAuthorized),
            admin == Some(caller) && config is None ==> r == Err::<DEXIntegrationConfig, DEXError>(DEXError::DEXNotEnabled),
            admin == Some(caller) && config is Some
                ==> r == Ok::<DEXIntegrationConfig, DEXError>(DEXIntegrationConfig { enabled, ..config->0 }),
    {
        let is_admin = match admin {
            Some(a) => a == caller,
            None => false,
        };
        if !is_admin {
            return Err(DEXError::NotAuthorized);
        }
        let mut c = match config {
            Some(c) => c,
            None => return Err(DEXError::DEXNotEnabled),
        };
        c.enabled = enabled;
        Ok(c)
    }

    /// Market figures as of `now`, before any trading is counted.
    pub fn get_market_statistics(now: u64) -> (s: MarketStatistics)
        ensures
            s == (MarketStatistics {
                total_listings: 0,
                active_listings: 0,
                total_volume_24h: 0,
                average_price: 0,
                highest_price: 0,
                lowest_price: i128::MAX,
                total_yield_distributed: 0,
                last_updated: now,
            }),
    {
        let mut s = MarketStatistics::new();
        s.last_updated = now;
        s
    }
}

} // verus!
