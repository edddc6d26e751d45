//! The market-data endpoints of the v5 API.

use vstd::prelude::*;

verus! {

/// A market-data operation of the v5 API.
///
/// The set is closed: an operation exists exactly when it has a variant here,
/// and every variant has exactly one wire path.
#[derive(Clone, Copy, Debug, PartialEq, Eq, Hash, Structural)]
pub enum MarketEnum {
    GetKline,
    GetMarkPriceKline,
    GetIndexPriceKline,
    GetPremiumIndexPriceKline,
    GetInstrumentsInfo,
    GetOrderbook,
    GetTickers,
    GetFundingRateHistory,
    GetPublicTradingHistory,
    GetOpenInterest,
    GetHistoricalVolatility,
    GetInsurance,
    GetRiskLimit,
    GetOptionDeliveryPrice,
}

impl MarketEnum {
    /// The wire path of an operation, as the exchange publishes it.
    pub open spec fn path(self) -> Seq<char> {
        match self {
            MarketEnum::GetKline => "/v5/market/kline"@,
            MarketEnum::GetMarkPriceKline => "/v5/market/mark-price-kline"@,
            MarketEnum::GetIndexPriceKline => "/v5/market/index-price-kline"@,
            MarketEnum::GetPremiumIndexPriceKline => "/v5/market/premium-index-price-kline"@,
            MarketEnum::GetInstrumentsInfo => "/v5/market/instruments-info"@,
            MarketEnum::GetOrderbook => "/v5/market/orderbook"@,
            MarketEnum::GetTickers => "/v5/market/tickers"@,
            MarketEnum::GetFundingRateHistory => "/v5/market/funding/history"@,
            MarketEnum::GetPublicTradingHistory => "/v5/market/recent-trade"@,
            MarketEnum::GetOpenInterest => "/v5/market/open-interest"@,
            MarketEnum::GetHistoricalVolatility => "/v5/market/historical-volatility"@,
            MarketEnum::GetInsurance => "/v5/market/insurance"@,
            MarketEnum::GetRiskLimit => "/v5/market/risk-limit"@,
            MarketEnum::GetOptionDeliveryPrice => "/v5/market/delivery-price"@,
        }
    }

    /// Resolves the operation to its wire path.
    pub fn as_str(&self) -> (path: &'static str)
        ensures
            path@ == self.path(),
    {
        match self {
            MarketEnum::GetKline => "/v5/market/kline",
            MarketEnum::GetMarkPriceKline => "/v5/market/mark-price-kline",
            MarketEnum::GetIndexPriceKline => "/v5/market/index-price-kline",
            MarketEnum::GetPremiumIndexPriceKline => "/v5/market/premium-index-price-kline",
            MarketEnum::GetInstrumentsInfo => "/v5/market/instruments-info",
            MarketEnum::GetOrderbook => "/v5/market/orderbook",
            MarketEnum::GetTickers => "/v5/market/tickers",
            MarketEnum::GetFundingRateHistory => "/v5/market/funding/history",
            MarketEnum::GetPublicTradingHistory => "/v5/market/recent-trade",
            MarketEnum::GetOpenInterest => "/v5/market/open-interest",
            MarketEnum::GetHistoricalVolatility => "/v5/market/historical-volatility",
            MarketEnum::GetInsurance => "/v5/market/insurance",
            MarketEnum::GetRiskLimit => "/v5/market/risk-limit",
            MarketEnum::GetOptionDeliveryPrice => "/v5/market/delivery-price",
        }
    }

    /// Resolves the operation to its wire path, as an owned string.
    pub fn to_string(&self) -> (path: String)
        ensures
            path@ == self.path(),
            path@.len() > 0,
    {
        proof {
            lemma_path_is_rooted(*self);
        }
        self.as_str().to_string()
    }

    /// Every operation of the catalog, each exactly once, in the order in
    /// which the exchange documents them.
    pub open spec fn catalog() -> Seq<MarketEnum> {
        seq![
            MarketEnum::GetKline,
            MarketEnum::GetMarkPriceKline,
            MarketEnum::GetIndexPriceKline,
            MarketEnum::GetPremiumIndexPriceKline,
            MarketEnum::GetInstrumentsInfo,
            MarketEnum::GetOrderbook,
            MarketEnum::GetTickers,
            MarketEnum::GetFundingRateHistory,
            MarketEnum::GetPublicTradingHistory,
            MarketEnum::GetOpenInterest,
            MarketEnum::GetHistoricalVolatility,
            MarketEnum::GetInsurance,
            MarketEnum::GetRiskLimit,
            MarketEnum::GetOptionDeliveryPrice,
        ]
    }

    /// Enumerates the catalog.
    pub fn all() -> (operations: Vec<MarketEnum>)
        ensures
            operations@ == Self::catalog(),
    {
        let operations = vec![
            MarketEnum::GetKline,
            MarketEnum::GetMarkPriceKline,
            MarketEnum::GetIndexPriceKline,
            MarketEnum::GetPremiumIndexPriceKline,
            MarketEnum::GetInstrumentsInfo,
            MarketEnum::GetOrderbook,
            MarketEnum::GetTickers,
            MarketEnum::GetFundingRateHistory,
            MarketEnum::GetPublicTradingHistory,
            MarketEnum::GetOpenInterest,
            MarketEnum::GetHistoricalVolatility,
            MarketEnum::GetInsurance,
            MarketEnum::GetRiskLimit,
            MarketEnum::GetOptionDeliveryPrice,
        ];
        assert(operations@ =~= Self::catalog());
        operations
    }
}

/// The catalog is closed and has no repetition: every operation stands in
/// it, and none stands in it twice.
pub proof fn lemma_catalog_lists_each_operation_once()
    ensures
        forall|operation: MarketEnum| MarketEnum::catalog().contains(operation),
        MarketEnum::catalog().no_duplicates(),
        MarketEnum::catalog().len() == 14,
{
    let catalog = MarketEnum::catalog();
    assert forall|operation: MarketEnum| catalog.contains(operation) by {
        let at: int = match operation {
            MarketEnum::GetKline => 0,
            MarketEnum::GetMarkPriceKline => 1,
            MarketEnum::GetIndexPriceKline => 2,
            MarketEnum::GetPremiumIndexPriceKline => 3,
            MarketEnum::GetInstrumentsInfo => 4,
            MarketEnum::GetOrderbook => 5,
            MarketEnum::GetTickers => 6,
            MarketEnum::GetFundingRateHistory => 7,
            MarketEnum::GetPublicTradingHistory => 8,
            MarketEnum::GetOpenInterest => 9,
            MarketEnum::GetHistoricalVolatility => 10,
            MarketEnum::GetInsurance => 11,
            MarketEnum::GetRiskLimit => 12,
            MarketEnum::GetOptionDeliveryPrice => 13,
        };
        assert(catalog[at] == operation);
    }
}

/// What every wire path starts with: the API version and family.
pub open spec fn market_root() -> Seq<char> {
    "/v5/market/"@
}

/// Every wire path is non-empty: it starts with the root of the market
/// family and names something below it.
pub proof fn lemma_path_is_rooted(operation: MarketEnum)
    ensures
        operation.path().len() > market_root().len(),
        operation.path().subrange(0, market_root().len() as int) == market_root(),
{
    reveal_strlit("/v5/market/");
    reveal_strlit("/v5/market/kline");
    reveal_strlit("/v5/market/mark-price-kline");
    reveal_strlit("/v5/market/index-price-kline");
    reveal_strlit("/v5/market/premium-index-price-kline");
    reveal_strlit("/v5/market/instruments-info");
    reveal_strlit("/v5/market/orderbook");
    reveal_strlit("/v5/market/tickers");
    reveal_strlit("/v5/market/funding/history");
    reveal_strlit("/v5/market/recent-trade");
    reveal_strlit("/v5/market/open-interest");
    reveal_strlit("/v5/market/historical-volatility");
    reveal_strlit("/v5/market/insurance");
    reveal_strlit("/v5/market/risk-limit");
    reveal_strlit("/v5/market/delivery-price");
    assert(operation.path().subrange(0, market_root().len() as int) =~= market_root());
}

/// No two operations share a wire path.
pub proof fn lemma_paths_are_distinct(a: MarketEnum, b: MarketEnum)
    requires
        a != b,
    ensures
        a.path() != b.path(),
{
    reveal_strlit("/v5/market/kline");
    reveal_strlit("/v5/market/mark-price-kline");
    reveal_strlit("/v5/market/index-price-kline");
    reveal_strlit("/v5/market/premium-index-price-kline");
    reveal_strlit("/v5/market/instruments-info");
    reveal_strlit("/v5/market/orderbook");
    reveal_strlit("/v5/market/tickers");
    reveal_strlit("/v5/market/funding/history");
    reveal_strlit("/v5/market/recent-trade");
    reveal_strlit("/v5/market/open-interest");
    reveal_strlit("/v5/market/historical-volatility");
    reveal_strlit("/v5/market/insurance");
    reveal_strlit("/v5/market/risk-limit");
    reveal_strlit("/v5/market/delivery-price");
    // A path is told from every other by its length and the first
    // character below the root.
    assert(a.path().len() != b.path().len() || a.path()[11] != b.path()[11]);
}

} // verus!
