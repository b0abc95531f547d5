use ticker_bot::decimal::{format_price, Decimal};
use ticker_bot::error::{QuoteErrorKind, QuoteRequestError};
use ticker_bot::json::Json;
use ticker_bot::quote::{
    assemble_quote, build_call, parse_quote_body, quote_fields, quote_from_json, quote_url,
    AssetQuoteRequest, AssetQuoteResponse, PercentChange,
};

fn bitcoin_body() -> &'static str {
    "{\"bitcoin\":{\"usd\":65761,\"usd_24h_change\":1.884}}"
}

#[test]
fn test_format_price() {
    let price = Decimal::parse("123456789.123456789").unwrap();
    assert_eq!("123456789", format_price(&price, 0));
    assert_eq!("123456789.12", format_price(&price, 2));
    assert_eq!("123456789.123456789", format_price(&price, 9));
    assert_eq!("123456789.123456789", format_price(&price, 10));
}

#[test]
fn test_display_other_error() {
    let err = QuoteRequestError::Other("test".to_string());
    assert_eq!("Other Error: test", err.message());
}

#[test]
fn messages_begin_with_the_words_of_their_kind() {
    assert_eq!(QuoteRequestError::HttpRequest("x".to_string()).message(), "HTTP Request Error: x");
    assert_eq!(QuoteRequestError::JsonParse("x".to_string()).message(), "JSON Parse Error: x");
    assert_eq!(
        QuoteRequestError::ParseBigDecimal("x".to_string()).message(),
        "BigDecimal Parse Error: x"
    );
    assert_eq!(QuoteRequestError::MissingField("x".to_string()).message(), "Other Error: x");
    assert_eq!(QuoteRequestError::ParseChange("x".to_string()).message(), "Other Error: x");
}

#[test]
fn kinds_of_the_variants() {
    assert_eq!(
        QuoteRequestError::HttpRequest(String::new()).kind(),
        QuoteErrorKind::TransportFailure
    );
    assert_eq!(
        QuoteRequestError::JsonParse(String::new()).kind(),
        QuoteErrorKind::MalformedResponse
    );
    assert_eq!(QuoteRequestError::MissingField(String::new()).kind(), QuoteErrorKind::MissingField);
    assert_eq!(
        QuoteRequestError::ParseBigDecimal(String::new()).kind(),
        QuoteErrorKind::UnparseablePrice
    );
    assert_eq!(
        QuoteRequestError::ParseChange(String::new()).kind(),
        QuoteErrorKind::UnparseableChange
    );
    assert_eq!(QuoteRequestError::Other(String::new()).kind(), QuoteErrorKind::Internal);
}

#[test]
fn body_with_price_and_change_gives_the_quote() {
    let quote: AssetQuoteResponse = parse_quote_body(bitcoin_body(), "bitcoin", "usd").unwrap();
    assert_eq!(quote.name, "bitcoin");
    assert_eq!(quote.price_usd, Decimal::parse("65761").unwrap());
    assert_eq!(quote.price_usd.to_text(), "65761");
    assert_eq!(quote.price_usd.fractional_digit_count(), 0);
    assert_eq!(f64::from_bits(quote.price_change_24h.bits), 1.884);
}

#[test]
fn price_keeps_every_digit() {
    let body = "{\"bitcoin\":{\"usd\":65761.123456789012,\"usd_24h_change\":0.5}}";
    let quote = parse_quote_body(body, "bitcoin", "usd").unwrap();
    assert_eq!(quote.price_usd.to_text(), "65761.123456789012");
    assert_eq!(quote.price_usd.unscaled_digits(), "65761123456789012");
    assert_eq!(quote.price_usd.fractional_digit_count(), 12);
}

#[test]
fn decimal_text_round_trips() {
    let price = Decimal::parse("65761.123456789012").unwrap();
    assert_eq!(price.to_text(), "65761.123456789012");
    let again = Decimal::parse(&price.to_text()).unwrap();
    assert_eq!(again, price);
}

#[test]
fn decimal_with_exponent_has_a_negative_scale() {
    let d = Decimal::parse("5e9").unwrap();
    assert_eq!(d.unscaled_digits(), "5");
    assert_eq!(d.fractional_digit_count(), -9);
    assert_eq!(format_price(&d, 2), "5000000000");
}

#[test]
fn decimal_rejects_what_is_no_number() {
    let err = Decimal::parse("12a").unwrap_err();
    assert_eq!(err.kind(), QuoteErrorKind::UnparseablePrice);
    assert!(Decimal::parse("").is_err());
}

#[test]
fn rounding_is_half_to_even() {
    assert_eq!(format_price(&Decimal::parse("0.125").unwrap(), 2), "0.12");
    assert_eq!(format_price(&Decimal::parse("0.135").unwrap(), 2), "0.14");
    assert_eq!(format_price(&Decimal::parse("-0.125").unwrap(), 2), "-0.12");
    assert_eq!(format_price(&Decimal::parse("2.5").unwrap(), 0), "2");
    assert_eq!(format_price(&Decimal::parse("3.5").unwrap(), 0), "4");
    assert_eq!(format_price(&Decimal::parse("9.999").unwrap(), 2), "10.00");
    let rounded = Decimal::parse("129.41675").unwrap().round_half_even(4);
    assert_eq!(rounded.unscaled_digits(), "1294168");
    assert_eq!(rounded.fractional_digit_count(), 4);
}

#[test]
fn price_with_few_digits_is_left_as_it_is() {
    assert_eq!(format_price(&Decimal::parse("1.50").unwrap(), 2), "1.50");
    assert_eq!(format_price(&Decimal::parse("7").unwrap(), 3), "7");
}

#[test]
fn body_without_change_is_a_missing_field() {
    let err = parse_quote_body("{\"bitcoin\":{\"usd\":100}}", "bitcoin", "usd").unwrap_err();
    assert_eq!(err.kind(), QuoteErrorKind::MissingField);
    assert_eq!(
        err,
        QuoteRequestError::MissingField(
            "missing price and/or 24h change field(s) in the API response".to_string()
        )
    );
}

#[test]
fn body_without_price_is_a_missing_field() {
    let err =
        parse_quote_body("{\"bitcoin\":{\"usd_24h_change\":1.5}}", "bitcoin", "usd").unwrap_err();
    assert_eq!(err.kind(), QuoteErrorKind::MissingField);
}

#[test]
fn body_without_the_asset_is_a_missing_field() {
    let err = parse_quote_body(bitcoin_body(), "ethereum", "usd").unwrap_err();
    assert_eq!(
        err,
        QuoteRequestError::MissingField(
            "missing id of the API response, or is not an object".to_string()
        )
    );
}

#[test]
fn asset_that_is_no_object_is_a_missing_field() {
    let err = parse_quote_body("{\"bitcoin\":5}", "bitcoin", "usd").unwrap_err();
    assert_eq!(
        err,
        QuoteRequestError::MissingField(
            "missing id of the API response, or is not an object".to_string()
        )
    );
}

#[test]
fn body_that_is_no_json_is_malformed() {
    let err = parse_quote_body("<html>", "bitcoin", "usd").unwrap_err();
    assert_eq!(err.kind(), QuoteErrorKind::MalformedResponse);
    let err = parse_quote_body("", "bitcoin", "usd").unwrap_err();
    assert_eq!(err.kind(), QuoteErrorKind::MalformedResponse);
}

#[test]
fn body_that_is_no_object_is_malformed() {
    let err = parse_quote_body("[1,2]", "bitcoin", "usd").unwrap_err();
    assert_eq!(
        err,
        QuoteRequestError::JsonParse("the API response is not an object".to_string())
    );
}

#[test]
fn price_that_is_no_number_is_unparseable() {
    let body = "{\"bitcoin\":{\"usd\":\"65761\",\"usd_24h_change\":1.884}}";
    let err = parse_quote_body(body, "bitcoin", "usd").unwrap_err();
    assert_eq!(
        err,
        QuoteRequestError::ParseBigDecimal(
            "cannot parse price as Number from the API response".to_string()
        )
    );
}

#[test]
fn change_that_is_no_number_is_unparseable() {
    let body = "{\"bitcoin\":{\"usd\":65761,\"usd_24h_change\":null}}";
    let err = parse_quote_body(body, "bitcoin", "usd").unwrap_err();
    assert_eq!(err.kind(), QuoteErrorKind::UnparseableChange);
    assert_eq!(
        err,
        QuoteRequestError::ParseChange(
            "cannot parse 24h change as a finite number from the API response".to_string()
        )
    );
}

#[test]
fn change_beyond_the_doubles_is_unparseable() {
    let body = "{\"bitcoin\":{\"usd\":65761,\"usd_24h_change\":1e999}}";
    let err = parse_quote_body(body, "bitcoin", "usd").unwrap_err();
    assert_eq!(err.kind(), QuoteErrorKind::UnparseableChange);
}

#[test]
fn bad_price_is_reported_before_bad_change() {
    let body = "{\"bitcoin\":{\"usd\":true,\"usd_24h_change\":null}}";
    let err = parse_quote_body(body, "bitcoin", "usd").unwrap_err();
    assert_eq!(err.kind(), QuoteErrorKind::UnparseablePrice);
}

#[test]
fn other_currency_is_read_under_its_own_keys() {
    let body = "{\"bitcoin\":{\"eur\":60000.5,\"eur_24h_change\":-2.25,\"usd\":1,\"usd_24h_change\":9}}";
    let quote = parse_quote_body(body, "bitcoin", "eur").unwrap();
    assert_eq!(quote.price_usd.to_text(), "60000.5");
    assert_eq!(f64::from_bits(quote.price_change_24h.bits), -2.25);
}

#[test]
fn two_assets_in_one_body_are_told_apart() {
    let body = "{\"bitcoin\":{\"usd\":65761,\"usd_24h_change\":1.884},\"ethereum\":{\"usd\":3500.25,\"usd_24h_change\":-0.5}}";
    let first = parse_quote_body(body, "bitcoin", "usd").unwrap();
    let second = parse_quote_body(body, "ethereum", "usd").unwrap();
    assert_eq!(first.name, "bitcoin");
    assert_eq!(first.price_usd.to_text(), "65761");
    assert_eq!(second.name, "ethereum");
    assert_eq!(second.price_usd.to_text(), "3500.25");
}

#[test]
fn json_document_is_searched_by_key() {
    let doc = Json::Object(vec![
        ticker_bot::json::Member { key: "a".to_string(), value: Json::Null },
        ticker_bot::json::Member { key: "b".to_string(), value: Json::Number("12.5".to_string()) },
        ticker_bot::json::Member { key: "b".to_string(), value: Json::Bool(true) },
    ]);
    assert!(doc.is_object());
    assert_eq!(doc.member(&"a".to_string()), Some(&Json::Null));
    assert_eq!(doc.member(&"b".to_string()), Some(&Json::Number("12.5".to_string())));
    assert_eq!(doc.member(&"c".to_string()), None);
    assert_eq!(Json::Null.member(&"a".to_string()), None);
    assert!(!Json::Array(vec![]).is_object());
    assert_eq!(Json::Number("7".to_string()).number_text(), Some(&"7".to_string()));
    assert_eq!(Json::Text("7".to_string()).number_text(), None);
}

#[test]
fn fields_are_found_in_a_document_built_by_hand() {
    let entry = Json::Object(vec![
        ticker_bot::json::Member { key: "usd".to_string(), value: Json::Number("100".to_string()) },
        ticker_bot::json::Member {
            key: "usd_24h_change".to_string(),
            value: Json::Number("0.25".to_string()),
        },
    ]);
    let doc = Json::Object(vec![ticker_bot::json::Member { key: "bitcoin".to_string(), value: entry }]);
    let (price, change) = quote_fields(&doc, "bitcoin", "usd").unwrap();
    assert_eq!(price, &Json::Number("100".to_string()));
    assert_eq!(change, &Json::Number("0.25".to_string()));
    let quote = quote_from_json(&doc, "bitcoin", "usd").unwrap();
    assert_eq!(quote.price_usd.to_text(), "100");
    assert_eq!(f64::from_bits(quote.price_change_24h.bits), 0.25);
    assert!(quote_fields(&doc, "bitcoin", "eur").is_err());
}

#[test]
fn quote_is_put_together_from_its_parts() {
    let price = Decimal::parse("1.5").unwrap();
    let change = PercentChange { bits: 2.0f64.to_bits() };
    let quote = assemble_quote("bitcoin", Ok(price.clone()), Some(change)).unwrap();
    assert_eq!(
        quote,
        AssetQuoteResponse { name: "bitcoin".to_string(), price_usd: price.clone(), price_change_24h: change }
    );
    let failed = QuoteRequestError::ParseBigDecimal("bad".to_string());
    assert_eq!(assemble_quote("bitcoin", Err(failed.clone()), Some(change)), Err(failed.clone()));
    assert_eq!(assemble_quote("bitcoin", Err(failed.clone()), None), Err(failed));
    assert_eq!(
        assemble_quote("bitcoin", Ok(price), None).unwrap_err().kind(),
        QuoteErrorKind::UnparseableChange
    );
}

#[test]
fn dummy_response_holds_its_three_values() {
    let dummy = AssetQuoteResponse::dummy();
    assert_eq!(dummy.name, "dummy");
    assert_eq!(dummy.price_usd, Decimal::parse("-99999.00").unwrap());
    assert_eq!(dummy.price_usd.to_text(), "-99999.00");
    assert_eq!(f64::from_bits(dummy.price_change_24h.bits), -999.0);
}

#[test]
fn url_names_asset_and_currency() {
    assert_eq!(
        quote_url("bitcoin", "usd"),
        "https://api.coingecko.com/api/v3/simple/price?ids=bitcoin&vs_currencies=usd&include_24hr_change=true"
    );
}

#[test]
fn call_carries_the_key_only_where_there_is_one() {
    let request = AssetQuoteRequest { name: "bitcoin".to_string(), vs_currency: "usd".to_string() };
    let bare = build_call(&request, "");
    assert_eq!(bare.api_key, None);
    assert_eq!(bare.accept, "application/json");
    assert_eq!(bare.url, quote_url("bitcoin", "usd"));
    let keyed = build_call(&request, "SECRET");
    assert_eq!(keyed.api_key, Some("SECRET".to_string()));
    assert_eq!(keyed.url, bare.url);
}
