use mexc_rs::topic::{DealsTopic, DepthTopic, KlineIntervalTopic, KlineTopic, Topic};

fn all_topics(symbol: &str) -> Vec<Topic> {
    vec![
        Topic::AccountDeals,
        Topic::AccountOrders,
        Topic::AccountUpdate,
        Topic::Deals(DealsTopic::new(symbol.to_string())),
        Topic::Kline(KlineTopic::new(symbol.to_string(), KlineIntervalTopic::Min1)),
        Topic::Kline(KlineTopic::new(symbol.to_string(), KlineIntervalTopic::Hour4)),
        Topic::Depth(DepthTopic::new(symbol.to_string())),
        Topic::BookTicker(symbol.to_string()),
        Topic::BookTickerBatch(symbol.to_string()),
    ]
}

#[test]
fn subscription_strings() {
    let expected = [
        "spot@private.deals.v3.api.pb",
        "spot@private.orders.v3.api.pb",
        "spot@private.account.v3.api.pb",
        "spot@public.aggre.deals.v3.api.pb@10ms@BTCUSDT",
        "spot@public.kline.v3.api.pb@BTCUSDT@Min1",
        "spot@public.kline.v3.api.pb@BTCUSDT@Hour4",
        "spot@public.aggre.depth.v3.api.pb@10@BTCUSDT",
        "spot@public.aggre.bookTicker.v3.api.pb@10ms@BTCUSDT",
        "spot@public.bookTicker.batch.v3.api.pb@BTCUSDT",
    ];
    for (t, e) in all_topics("BTCUSDT").iter().zip(expected.iter()) {
        assert_eq!(t.to_topic_subscription_string(), *e);
    }
}

#[test]
fn changing_symbol_changes_only_symbol_segment() {
    for (a, b) in all_topics("BTCUSDT").iter().zip(all_topics("ETHUSDT").iter()) {
        let sa = a.to_topic_subscription_string();
        let sb = b.to_topic_subscription_string();
        if a.requires_auth() {
            assert_eq!(sa, sb);
        } else {
            assert_eq!(sa.replace("BTCUSDT", "ETHUSDT"), sb);
        }
    }
}

#[test]
fn subscription_strings_are_distinct() {
    let strings: Vec<String> = all_topics("BTCUSDT")
        .iter()
        .map(|t| t.to_topic_subscription_string())
        .collect();
    for i in 0..strings.len() {
        for j in 0..strings.len() {
            if i != j {
                assert_ne!(strings[i], strings[j]);
            }
        }
    }
}

#[test]
fn auth_only_for_account_topics() {
    let auth: Vec<bool> = all_topics("BTCUSDT").iter().map(|t| t.requires_auth()).collect();
    assert_eq!(auth, vec![true, true, true, false, false, false, false, false, false]);
}

#[test]
fn interval_tokens() {
    assert_eq!(KlineIntervalTopic::Min15.as_str(), "Min15");
    assert_eq!(KlineIntervalTopic::Month1.as_str(), "Month1");
}
