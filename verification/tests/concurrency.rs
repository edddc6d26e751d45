use bybit_market::bybit::http_manager::{DispatchRequest, HttpVerb};
use bybit_market::bybit::market::{Market, MarketHTTP};
use bybit_market::endpoints::v5market::MarketEnum;
use futures::executor::block_on;
use futures::future::join_all;
use serde_json::Value;
use std::collections::HashMap;
use std::future::Future;
use std::pin::Pin;
use std::sync::{Arc, Mutex};
use std::task::{Context, Poll};

/// Suspends the calling task once, as a network exchange would.
struct Suspension {
    resumed: bool,
}

impl Future for Suspension {
    type Output = ();

    fn poll(mut self: Pin<&mut Self>, context: &mut Context<'_>) -> Poll<()> {
        if self.resumed {
            Poll::Ready(())
        } else {
            self.resumed = true;
            context.waker().wake_by_ref();
            Poll::Pending
        }
    }
}

struct Tally {
    seen: Vec<DispatchRequest>,
    in_flight: usize,
    most_in_flight: usize,
}

/// A manager whose every exchange suspends once before it answers with the
/// request it was given.
struct SlowManager {
    tally: Mutex<Tally>,
}

impl SlowManager {
    fn idle() -> SlowManager {
        SlowManager {
            tally: Mutex::new(Tally {
                seen: Vec::new(),
                in_flight: 0,
                most_in_flight: 0,
            }),
        }
    }

    async fn execute(&self, request: DispatchRequest) -> Result<Value, String> {
        {
            let mut tally = self.tally.lock().unwrap();
            tally.seen.push(request.clone());
            tally.in_flight += 1;
            if tally.in_flight > tally.most_in_flight {
                tally.most_in_flight = tally.in_flight;
            }
        }
        Suspension { resumed: false }.await;
        self.tally.lock().unwrap().in_flight -= 1;
        if request.params.contains_key("fail") {
            return Err(format!("rejected {}", request.params["call"]));
        }
        let mut body: serde_json::Map<String, Value> = serde_json::Map::new();
        body.insert(String::from("path"), Value::String(request.path));
        body.insert(String::from("call"), Value::String(request.params["call"].clone()));
        Ok(Value::Object(body))
    }
}

async fn perform(
    client: &MarketHTTP<SlowManager>,
    request: DispatchRequest,
) -> Result<Value, String> {
    let outcome: Result<Value, String> = client.http_manager().execute(request).await;
    client.relay(outcome)
}

fn request_at(client: &MarketHTTP<SlowManager>, call: usize) -> DispatchRequest {
    let mut query: HashMap<String, String> = HashMap::new();
    query.insert(String::from("call"), call.to_string());
    if call % 10 == 3 {
        query.insert(String::from("fail"), String::from("yes"));
    }
    match call % 14 {
        0 => client.get_kline(query),
        1 => client.get_mark_price_kline(query),
        2 => client.get_index_price_kline(query),
        3 => client.get_premium_index_price_kline(query),
        4 => client.get_instruments_info(query),
        5 => client.get_orderbook(query),
        6 => client.get_tickers(query),
        7 => client.get_funding_rate_history(query),
        8 => client.get_public_trade_history(query),
        9 => client.get_open_interest(query),
        10 => client.get_historical_volatility(query),
        11 => client.get_insurance(query),
        12 => client.get_risk_limit(query),
        _ => client.get_option_delivery_price(query),
    }
}

#[test]
fn concurrent_calls_each_reach_the_manager_once() {
    let calls: usize = 140;
    let manager: Arc<SlowManager> = Arc::new(SlowManager::idle());
    let client: MarketHTTP<SlowManager> = MarketHTTP::new(manager.clone());
    let operations: Vec<MarketEnum> = MarketEnum::all();

    let mut pending = Vec::new();
    for call in 0..calls {
        pending.push(perform(&client, request_at(&client, call)));
    }
    let replies: Vec<Result<Value, String>> = block_on(join_all(pending));

    // Every reply belongs to its own call.
    assert_eq!(replies.len(), calls);
    for (call, reply) in replies.iter().enumerate() {
        if call % 10 == 3 {
            assert_eq!(reply, &Err(format!("rejected {}", call)));
        } else {
            let body: &Value = reply.as_ref().unwrap();
            assert_eq!(body["call"], Value::String(call.to_string()));
            assert_eq!(body["path"], Value::String(operations[call % 14].to_string()));
        }
    }

    // Every call was seen once, with its own parameters and no other.
    let tally = manager.tally.lock().unwrap();
    assert_eq!(tally.seen.len(), calls);
    assert_eq!(tally.in_flight, 0);
    assert_eq!(tally.most_in_flight, calls);
    let mut times_seen: Vec<usize> = vec![0; calls];
    for request in tally.seen.iter() {
        let call: usize = request.params["call"].parse().unwrap();
        times_seen[call] += 1;
        assert_eq!(request.verb, HttpVerb::Get);
        assert!(request.authenticated);
        assert_eq!(request.path, operations[call % 14].to_string());
        if call % 10 == 3 {
            assert_eq!(request.params.len(), 2);
        } else {
            assert_eq!(request.params.len(), 1);
        }
    }
    assert!(times_seen.iter().all(|times| *times == 1));
}

#[test]
fn concurrent_calls_of_one_operation_do_not_merge() {
    let calls: usize = 100;
    let manager: Arc<SlowManager> = Arc::new(SlowManager::idle());
    let client: MarketHTTP<SlowManager> = MarketHTTP::new(manager.clone());

    let mut pending = Vec::new();
    for _ in 0..calls {
        let mut query: HashMap<String, String> = HashMap::new();
        query.insert(String::from("call"), String::from("same"));
        pending.push(perform(&client, client.get_tickers(query)));
    }
    let replies: Vec<Result<Value, String>> = block_on(join_all(pending));

    assert_eq!(replies.len(), calls);
    for reply in replies.iter() {
        assert_eq!(reply, &replies[0]);
        assert_eq!(
            reply.as_ref().unwrap()["path"],
            Value::String(String::from("/v5/market/tickers"))
        );
    }
    let tally = manager.tally.lock().unwrap();
    assert_eq!(tally.seen.len(), calls);
    assert_eq!(tally.most_in_flight, calls);
    for request in tally.seen.iter() {
        assert_eq!(request, &tally.seen[0]);
    }
}
