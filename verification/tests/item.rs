use osrs_cli::item::ItemPrice;

#[test]
fn test_price_avg() {
    // No price data available
    assert_eq!(
        ItemPrice {
            high: None,
            high_time: None,
            low: None,
            low_time: None,
        }
        .avg(),
        None
    );

    // Only high price available
    assert_eq!(
        ItemPrice {
            high: Some(1000),
            high_time: Some(0),
            low: None,
            low_time: None,
        }
        .avg(),
        Some(1000)
    );

    // Only low price available
    assert_eq!(
        ItemPrice {
            high: None,
            high_time: None,
            low: Some(1000),
            low_time: Some(0),
        }
        .avg(),
        Some(1000)
    );

    // Both available - average them (should round down)
    assert_eq!(
        ItemPrice {
            high: Some(1000),
            high_time: Some(0),
            low: Some(995),
            low_time: Some(0),
        }
        .avg(),
        Some(997)
    );
}

#[test]
fn test_price_avg_of_huge_prices() {
    let price = ItemPrice {
        high: Some(usize::MAX),
        high_time: None,
        low: Some(usize::MAX - 1),
        low_time: None,
    };
    assert_eq!(price.avg(), Some(usize::MAX - 1));
}
