//! The market-data client: one method per operation of the catalog.

use crate::bybit::http_manager::DispatchRequest;
use crate::endpoints::v5market::{lemma_paths_are_distinct, MarketEnum};
use serde_json::Value;
use std::collections::HashMap;
use std::sync::Arc;
use vstd::prelude::*;

verus! {

/// The market-data capability.
///
/// Every method is the same thin adapter. It takes the query parameters of
/// one call and describes the one request that the HTTP manager is to
/// perform for it: a signed `GET` of the operation's wire path with exactly
/// those parameters. No method checks a parameter, and a client keeps nothing
/// between calls.
pub trait Market: Sized {
    /// The HTTP manager that the requests are meant for.
    type Manager;

    /// The manager that the client was made with.
    spec fn manager(&self) -> Arc<Self::Manager>;

    /// Makes a client of a shared manager.
    fn new(http_manager: Arc<Self::Manager>) -> (client: Self)
        ensures
            client.manager() == http_manager,
    ;

    /// The shared manager, for whoever performs the requests.
    fn http_manager(&self) -> (handle: &Arc<Self::Manager>)
        ensures
            *handle == self.manager(),
    ;

    /// Query the kline data. The exchange returns the candles in groups by the
    /// requested interval.
    ///
    /// The exchange demands `category` (spot, linear, inverse), `symbol` and
    /// `interval`.
    fn get_kline(&self, query: HashMap<String, String>) -> (request: DispatchRequest)
        ensures
            request.is_read(MarketEnum::GetKline, query),
    ;

    /// Query the kline data of the mark price.
    ///
    /// The exchange demands `category` (linear, inverse), `symbol` and
    /// `interval`.
    fn get_mark_price_kline(&self, query: HashMap<String, String>) -> (request: DispatchRequest)
        ensures
            request.is_read(MarketEnum::GetMarkPriceKline, query),
    ;

    /// Query the kline data of the index price.
    ///
    /// The exchange demands `category` (linear, inverse), `symbol` and
    /// `interval`.
    fn get_index_price_kline(&self, query: HashMap<String, String>) -> (request: DispatchRequest)
        ensures
            request.is_read(MarketEnum::GetIndexPriceKline, query),
    ;

    /// Query the kline data of the premium index price.
    ///
    /// The exchange demands `category` (linear), `symbol` and `interval`.
    fn get_premium_index_price_kline(&self, query: HashMap<String, String>) -> (request: DispatchRequest)
        ensures
            request.is_read(MarketEnum::GetPremiumIndexPriceKline, query),
    ;

    /// Query the instruments that are open for trading.
    ///
    /// The exchange demands `category` (spot, linear, inverse, option).
    fn get_instruments_info(&self, query: HashMap<String, String>) -> (request: DispatchRequest)
        ensures
            request.is_read(MarketEnum::GetInstrumentsInfo, query),
    ;

    /// Query the order book.
    ///
    /// The exchange demands `category` (spot, linear, inverse, option) and
    /// `symbol`.
    fn get_orderbook(&self, query: HashMap<String, String>) -> (request: DispatchRequest)
        ensures
            request.is_read(MarketEnum::GetOrderbook, query),
    ;

    /// Query the latest price snapshot, the best bid and ask, and the volume
    /// traded in the last 24 hours.
    ///
    /// The exchange demands `category` (spot, linear, inverse, option).
    fn get_tickers(&self, query: HashMap<String, String>) -> (request: DispatchRequest)
        ensures
            request.is_read(MarketEnum::GetTickers, query),
    ;

    /// Query the funding rates of the past. The funding interval differs from
    /// symbol to symbol.
    ///
    /// The exchange demands `category` (linear, inverse) and `symbol`.
    fn get_funding_rate_history(&self, query: HashMap<String, String>) -> (request: DispatchRequest)
        ensures
            request.is_read(MarketEnum::GetFundingRateHistory, query),
    ;

    /// Query the recent public trades.
    ///
    /// The exchange demands `category` (spot, linear, inverse, option) and
    /// `symbol`.
    fn get_public_trade_history(&self, query: HashMap<String, String>) -> (request: DispatchRequest)
        ensures
            request.is_read(MarketEnum::GetPublicTradingHistory, query),
    ;

    /// Query the open interest of a symbol.
    ///
    /// The exchange demands `category` (linear, inverse), `symbol` and
    /// `intervalTime`.
    fn get_open_interest(&self, query: HashMap<String, String>) -> (request: DispatchRequest)
        ensures
            request.is_read(MarketEnum::GetOpenInterest, query),
    ;

    /// Query the historical volatility of options.
    ///
    /// The exchange demands `category` (option).
    fn get_historical_volatility(&self, query: HashMap<String, String>) -> (request: DispatchRequest)
        ensures
            request.is_read(MarketEnum::GetHistoricalVolatility, query),
    ;

    /// Query the insurance pool, which the exchange updates once a day.
    ///
    /// The exchange demands no parameter.
    fn get_insurance(&self, query: HashMap<String, String>) -> (request: DispatchRequest)
        ensures
            request.is_read(MarketEnum::GetInsurance, query),
    ;

    /// Query the risk limits of futures.
    ///
    /// The exchange demands no parameter.
    fn get_risk_limit(&self, query: HashMap<String, String>) -> (request: DispatchRequest)
        ensures
            request.is_read(MarketEnum::GetRiskLimit, query),
    ;

    /// Query the delivery prices of options.
    ///
    /// The exchange demands no parameter.
    fn get_option_delivery_price(&self, query: HashMap<String, String>) -> (request: DispatchRequest)
        ensures
            request.is_read(MarketEnum::GetOptionDeliveryPrice, query),
    ;

    /// What the client answers its caller once the manager has reported the
    /// outcome of a request: that outcome, value or error, as it came.
    fn relay<E>(&self, outcome: Result<Value, E>) -> (reply: Result<Value, E>)
        ensures
            reply == outcome,
    ;
}

/// The market-data client over HTTP. All it holds is its share of the
/// manager.
pub struct MarketHTTP<M> {
    http_manager: Arc<M>,
}

impl<M> Market for MarketHTTP<M> {
    type Manager = M;

    closed spec fn manager(&self) -> Arc<M> {
        self.http_manager
    }

    fn new(http_manager: Arc<M>) -> (client: Self) {
        MarketHTTP { http_manager }
    }

    fn http_manager(&self) -> (handle: &Arc<M>) {
        &self.http_manager
    }

    fn get_kline(&self, query: HashMap<String, String>) -> (request: DispatchRequest) {
        DispatchRequest::read(MarketEnum::GetKline, query)
    }

    fn get_mark_price_kline(&self, query: HashMap<String, String>) -> (request: DispatchRequest) {
        DispatchRequest::read(MarketEnum::GetMarkPriceKline, query)
    }

    fn get_index_price_kline(&self, query: HashMap<String, String>) -> (request: DispatchRequest) {
        DispatchRequest::read(MarketEnum::GetIndexPriceKline, query)
    }

    fn get_premium_index_price_kline(&self, query: HashMap<String, String>) -> (request: DispatchRequest) {
        DispatchRequest::read(MarketEnum::GetPremiumIndexPriceKline, query)
    }

    fn get_instruments_info(&self, query: HashMap<String, String>) -> (request: DispatchRequest) {
        DispatchRequest::read(MarketEnum::GetInstrumentsInfo, query)
    }

    fn get_orderbook(&self, query: HashMap<String, String>) -> (request: DispatchRequest) {
        DispatchRequest::read(MarketEnum::GetOrderbook, query)
    }

    fn get_tickers(&self, query: HashMap<String, String>) -> (request: DispatchRequest) {
        DispatchRequest::read(MarketEnum::GetTickers, query)
    }

    fn get_funding_rate_history(&self, query: HashMap<String, String>) -> (request: DispatchRequest) {
        DispatchRequest::read(MarketEnum::GetFundingRateHistory, query)
    }

    fn get_public_trade_history(&self, query: HashMap<String, String>) -> (request: DispatchRequest) {
        DispatchRequest::read(MarketEnum::GetPublicTradingHistory, query)
    }

    fn get_open_interest(&self, query: HashMap<String, String>) -> (request: DispatchRequest) {
        DispatchRequest::read(MarketEnum::GetOpenInterest, query)
    }

    fn get_historical_volatility(&self, query: HashMap<String, String>) -> (request: DispatchRequest) {
        DispatchRequest::read(MarketEnum::GetHistoricalVolatility, query)
    }

    fn get_insurance(&self, query: HashMap<String, String>) -> (request: DispatchRequest) {
        DispatchRequest::read(MarketEnum::GetInsurance, query)
    }

    fn get_risk_limit(&self, query: HashMap<String, String>) -> (request: DispatchRequest) {
        DispatchRequest::read(MarketEnum::GetRiskLimit, query)
    }

    fn get_option_delivery_price(&self, query: HashMap<String, String>) -> (request: DispatchRequest) {
        DispatchRequest::read(MarketEnum::GetOptionDeliveryPrice, query)
    }

    fn relay<E>(&self, outcome: Result<Value, E>) -> (reply: Result<Value, E>) {
        outcome
    }
}

/// A request tells which call it was made for: if it is the read of one
/// operation with one map of parameters, it is the read of no other
/// operation and of no other map.
pub proof fn lemma_request_tells_its_call(
    request: DispatchRequest,
    first: MarketEnum,
    first_params: HashMap<String, String>,
    second: MarketEnum,
    second_params: HashMap<String, String>,
)
    requires
        request.is_read(first, first_params),
        request.is_read(second, second_params),
    ensures
        first == second,
        first_params == second_params,
{
    if first != second {
        lemma_paths_are_distinct(first, second);
    }
}

/// Calling again repeats the request: two requests made for the same
/// operation with the same parameters agree in every part, whatever was
/// called in between.
pub proof fn lemma_same_call_same_request(
    earlier: DispatchRequest,
    later: DispatchRequest,
    operation: MarketEnum,
    params: HashMap<String, String>,
)
    requires
        earlier.is_read(operation, params),
        later.is_read(operation, params),
    ensures
        later.verb == earlier.verb,
        later.path@ == earlier.path@,
        later.params == earlier.params,
        later.authenticated == earlier.authenticated,
{
}

} // verus!
