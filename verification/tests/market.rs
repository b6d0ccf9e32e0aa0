use coingecko_tokio::market::{MarketRequest, Order, PriceChangePercentage};

fn usd() -> MarketRequest {
    MarketRequest::new(String::from("usd"), None, None, None, None, None, None, None)
}

#[test]
fn query_of_the_documented_scenario() {
    let request = MarketRequest::new(
        String::from("usd"),
        None,
        None,
        Some(Order::MarketCapDesc),
        None,
        Some(2),
        Some(true),
        None,
    );
    assert_eq!(
        request.query(),
        "vs_currency=usd&order=market_cap_desc&page=2&sparkline=true"
    );
}

#[test]
fn query_without_filters_is_the_currency_alone() {
    assert_eq!(usd().query(), "vs_currency=usd");
}

#[test]
fn query_leaves_an_absent_page_out() {
    let mut request = usd();
    request.per_page = Some(100);
    assert_eq!(request.query(), "vs_currency=usd&per_page=100");
    assert!(!request.query().contains("&page="));
}

#[test]
fn query_with_every_filter_keeps_the_field_order() {
    let request = MarketRequest::new(
        String::from("eur"),
        Some(String::from("bitcoin,ethereum")),
        Some(String::from("stablecoins")),
        Some(Order::VolumeAsc),
        Some(250),
        Some(3),
        Some(false),
        Some(PriceChangePercentage::SevenDays),
    );
    assert_eq!(
        request.query(),
        "vs_currency=eur&ids=bitcoin,ethereum&category=stablecoins&order=volume_asc\
         &per_page=250&page=3&sparkline=false&price_change_percentage=7d"
    );
}

#[test]
fn query_has_one_segment_for_each_present_filter() {
    let mut request = usd();
    assert_eq!(request.query().matches('&').count(), 0);
    request.ids = Some(String::from("bitcoin"));
    assert_eq!(request.query(), "vs_currency=usd&ids=bitcoin");
    request.sparkline = Some(true);
    assert_eq!(request.query(), "vs_currency=usd&ids=bitcoin&sparkline=true");
    request.order = Some(Order::IdDesc);
    assert_eq!(
        request.query(),
        "vs_currency=usd&ids=bitcoin&order=id_desc&sparkline=true"
    );
    request.price_change_percentage = Some(PriceChangePercentage::OneYear);
    request.category = Some(String::from("layer-1"));
    request.per_page = Some(1);
    request.page = Some(0);
    assert_eq!(request.query().matches('&').count(), 7);
    assert!(request.query().starts_with("vs_currency=usd&"));
}

#[test]
fn query_writes_each_single_filter_under_its_name() {
    let mut request = usd();
    request.ids = Some(String::from("tezos"));
    assert_eq!(request.query(), "vs_currency=usd&ids=tezos");

    let mut request = usd();
    request.category = Some(String::from("defi"));
    assert_eq!(request.query(), "vs_currency=usd&category=defi");

    let mut request = usd();
    request.order = Some(Order::GeckoAsc);
    assert_eq!(request.query(), "vs_currency=usd&order=gecko_asc");

    let mut request = usd();
    request.per_page = Some(50);
    assert_eq!(request.query(), "vs_currency=usd&per_page=50");

    let mut request = usd();
    request.page = Some(4294967295);
    assert_eq!(request.query(), "vs_currency=usd&page=4294967295");

    let mut request = usd();
    request.sparkline = Some(false);
    assert_eq!(request.query(), "vs_currency=usd&sparkline=false");

    let mut request = usd();
    request.price_change_percentage = Some(PriceChangePercentage::TentyFourHours);
    assert_eq!(request.query(), "vs_currency=usd&price_change_percentage=24h");
}

#[test]
fn query_does_not_escape_free_text() {
    let request = MarketRequest::new(
        String::from("us d"),
        Some(String::from("a&b=c")),
        Some(String::from("")),
        None,
        None,
        None,
        None,
        None,
    );
    assert_eq!(request.query(), "vs_currency=us d&ids=a&b=c&category=");
}

#[test]
fn query_of_an_empty_currency() {
    let request = MarketRequest::default();
    assert_eq!(request.query(), "vs_currency=");
}

#[test]
fn new_keeps_every_argument_in_its_field() {
    let request = MarketRequest::new(
        String::from("chf"),
        Some(String::from("algorand")),
        Some(String::from("smart-contracts")),
        Some(Order::MarketCapAsc),
        Some(10),
        Some(7),
        Some(true),
        Some(PriceChangePercentage::ThirtyDays),
    );
    assert_eq!(request.vs_currency, "chf");
    assert_eq!(request.ids.as_deref(), Some("algorand"));
    assert_eq!(request.category.as_deref(), Some("smart-contracts"));
    assert_eq!(request.order, Some(Order::MarketCapAsc));
    assert_eq!(request.per_page, Some(10));
    assert_eq!(request.page, Some(7));
    assert_eq!(request.sparkline, Some(true));
    assert_eq!(
        request.price_change_percentage,
        Some(PriceChangePercentage::ThirtyDays)
    );
}

#[test]
fn default_request_has_no_currency_and_no_filter() {
    let request = MarketRequest::default();
    assert_eq!(request.vs_currency, "");
    assert!(request.ids.is_none());
    assert!(request.category.is_none());
    assert!(request.order.is_none());
    assert!(request.per_page.is_none());
    assert!(request.page.is_none());
    assert!(request.sparkline.is_none());
    assert!(request.price_change_percentage.is_none());
}

#[test]
fn clone_is_the_same_request() {
    let request = MarketRequest::new(
        String::from("usd"),
        Some(String::from("bitcoin")),
        None,
        Some(Order::VolumeDesc),
        None,
        Some(9),
        None,
        Some(PriceChangePercentage::TwoHundredDays),
    );
    let copy = request.clone();
    assert_eq!(copy.vs_currency, request.vs_currency);
    assert_eq!(copy.ids, request.ids);
    assert_eq!(copy.category, request.category);
    assert_eq!(copy.order, request.order);
    assert_eq!(copy.per_page, request.per_page);
    assert_eq!(copy.page, request.page);
    assert_eq!(copy.sparkline, request.sparkline);
    assert_eq!(copy.price_change_percentage, request.price_change_percentage);
    assert_eq!(copy.query(), request.query());
}

#[test]
fn order_wire_table() {
    assert_eq!(Order::GeckoDesc.to_string(), "gecko_desc");
    assert_eq!(Order::GeckoAsc.to_string(), "gecko_asc");
    assert_eq!(Order::MarketCapAsc.to_string(), "market_cap_asc");
    assert_eq!(Order::MarketCapDesc.to_string(), "market_cap_desc");
    assert_eq!(Order::VolumeAsc.to_string(), "volume_asc");
    assert_eq!(Order::VolumeDesc.to_string(), "volume_desc");
    assert_eq!(Order::IdAsc.to_string(), "id_asc");
    assert_eq!(Order::IdDesc.to_string(), "id_desc");
}

#[test]
fn price_change_percentage_wire_table() {
    assert_eq!(PriceChangePercentage::OneHour.to_string(), "1h");
    assert_eq!(PriceChangePercentage::TentyFourHours.to_string(), "24h");
    assert_eq!(PriceChangePercentage::SevenDays.to_string(), "7d");
    assert_eq!(PriceChangePercentage::FourteenDays.to_string(), "14d");
    assert_eq!(PriceChangePercentage::ThirtyDays.to_string(), "30d");
    assert_eq!(PriceChangePercentage::TwoHundredDays.to_string(), "200d");
    assert_eq!(PriceChangePercentage::OneYear.to_string(), "1y");
}

#[test]
fn wire_tokens_are_pairwise_different() {
    let orders = [
        Order::GeckoDesc,
        Order::GeckoAsc,
        Order::MarketCapAsc,
        Order::MarketCapDesc,
        Order::VolumeAsc,
        Order::VolumeDesc,
        Order::IdAsc,
        Order::IdDesc,
    ];
    for a in orders.iter() {
        for b in orders.iter() {
            assert_eq!(a.as_str() == b.as_str(), a == b);
        }
    }
    let windows = [
        PriceChangePercentage::OneHour,
        PriceChangePercentage::TentyFourHours,
        PriceChangePercentage::SevenDays,
        PriceChangePercentage::FourteenDays,
        PriceChangePercentage::ThirtyDays,
        PriceChangePercentage::TwoHundredDays,
        PriceChangePercentage::OneYear,
    ];
    for a in windows.iter() {
        for b in windows.iter() {
            assert_eq!(a.as_str() == b.as_str(), a == b);
        }
    }
}

#[test]
fn as_str_and_to_string_agree() {
    assert_eq!(Order::MarketCapDesc.as_str(), "market_cap_desc");
    assert_eq!(Order::MarketCapDesc.as_str(), Order::MarketCapDesc.to_string());
    assert_eq!(PriceChangePercentage::FourteenDays.as_str(), "14d");
    assert_eq!(
        PriceChangePercentage::FourteenDays.as_str(),
        PriceChangePercentage::FourteenDays.to_string()
    );
}
