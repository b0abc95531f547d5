//! Quote requests and responses, the call to the pricing service, and how the
//! body of its reply is read.

use vstd::prelude::*;
use vstd::string::*;
use crate::decimal::{parsed_decimal, Decimal, DecimalView};
use crate::error::{QuoteErrorKind, QuoteRequestError};
use crate::json::{float_bits_of_number, json_error_text, json_from_text, number_float_bits, parsed_json, Json};

verus! {

/// A request for the price of one asset in one currency.
#[derive(Debug, Clone, PartialEq, Eq)]
pub struct AssetQuoteRequest {
    /// Identifier of the asset at the pricing service.
    pub name: String,
    /// The currency in which the price is asked.
    pub vs_currency: String,
}

/// A percentage change, held as the bits of a finite double-precision number.
#[derive(Debug, Clone, Copy, PartialEq, Eq)]
pub struct PercentChange {
    pub bits: u64,
}

/// The price of one asset and its change over the last 24 hours.
#[derive(Debug, Clone, PartialEq, Eq)]
pub struct AssetQuoteResponse {
    /// Identifier of the asset, as it stood in the request.
    pub name: String,
    /// The price, with every digit that the pricing service sent.
    pub price_usd: Decimal,
    /// The change of the price over the last 24 hours, in percent.
    pub price_change_24h: PercentChange,
}

/// What a response holds.
pub struct QuoteView {
    pub name: Seq<char>,
    pub price: DecimalView,
    pub change_bits: u64,
}

impl View for AssetQuoteResponse {
    type V = QuoteView;

    open spec fn view(&self) -> QuoteView {
        QuoteView {
            name: self.name@,
            price: self.price_usd@,
            change_bits: self.price_change_24h.bits,
        }
    }
}

impl AssetQuoteResponse {
    /// The invariant of the type: that of its price.
    pub open spec fn wf(&self) -> bool {
        self.price_usd.wf()
    }

    /// A response that stands for no asset: the name `dummy`, the price
    /// -99999.00 and the change -999.0.
    pub fn dummy() -> (r: AssetQuoteResponse)
        ensures
            r.wf(),
            r@.name == "dummy"@,
            r@.price == (DecimalView { unscaled: "-9999900"@, scale: 2 }),
            r@.change_bits == 0xC08F_3800_0000_0000u64,
    {
        AssetQuoteResponse {
            name: String::from_str("dummy"),
            price_usd: Decimal::placeholder(),
            price_change_24h: PercentChange { bits: 0xC08F_3800_0000_0000u64 },
        }
    }
}

/// The call that the consumer makes for one request.
#[derive(Debug, Clone, PartialEq, Eq)]
pub struct QuoteCall {
    /// Where the GET request goes, query included.
    pub url: String,
    /// The value of the `Accept` header.
    pub accept: String,
    /// The value of the `x-cg-demo-api-key` header; `None` sends no such
    /// header.
    pub api_key: Option<String>,
}

/// The address of the simple-price endpoint for one asset and one currency.
pub open spec fn spec_quote_url(name: Seq<char>, currency: Seq<char>) -> Seq<char> {
    "https://api.coingecko.com/api/v3/simple/price?ids="@ + name + "&vs_currencies="@ + currency
        + "&include_24hr_change=true"@
}

/// The address of the simple-price endpoint for one asset and one currency,
/// asking for the 24-hour change too.
pub fn quote_url(name: &str, currency: &str) -> (url: String)
    ensures
        url@ == spec_quote_url(name@, currency@),
{
    let mut url = String::from_str("https://api.coingecko.com/api/v3/simple/price?ids=");
    url.append(name);
    url.append("&vs_currencies=");
    url.append(currency);
    url.append("&include_24hr_change=true");
    url
}

/// The call for one request. An empty key is no key: the call is then made
/// without the key's header.
pub fn build_call(request: &AssetQuoteRequest, api_key: &str) -> (call: QuoteCall)
    ensures
        call.url@ == spec_quote_url(request.name@, request.vs_currency@),
        call.accept@ == "application/json"@,
        api_key@.len() == 0 ==> call.api_key is None,
        api_key@.len() > 0 ==> (call.api_key matches Some(key) && key@ == api_key@),
{
    let key = if api_key.unicode_len() > 0 {
        Some(String::from_str(api_key))
    } else {
        None
    };
    QuoteCall {
        url: quote_url(request.name.as_str(), request.vs_currency.as_str()),
        accept: String::from_str("application/json"),
        api_key: key,
    }
}

/// Why a body gives no quote: the kind of the failure, and its detail where
/// the library words it. Where the detail is `None`, the words are those of
/// the parser that rejected the text.
pub struct Failure {
    pub kind: QuoteErrorKind,
    pub detail: Option<Seq<char>>,
}

impl QuoteRequestError {
    /// Whether this error is the failure `f`.
    pub open spec fn is_failure(&self, f: Failure) -> bool {
        &&& self.spec_kind() == f.kind
        &&& f.detail matches Some(d) ==> self.detail() == d
    }
}

/// The key under which the 24-hour change of a price in `currency` stands.
pub open spec fn change_key(currency: Seq<char>) -> Seq<char> {
    currency + "_24h_change"@
}

/// The detail of the failure where the body is JSON, but no object.
pub open spec fn not_an_object_detail() -> Seq<char> {
    "the API response is not an object"@
}

/// The detail of the failure where the asset has no object of its own.
pub open spec fn missing_asset_detail() -> Seq<char> {
    "missing id of the API response, or is not an object"@
}

/// The detail of the failure where the price or the change is not there.
pub open spec fn missing_fields_detail() -> Seq<char> {
    "missing price and/or 24h change field(s) in the API response"@
}

/// The detail of the failure where the price is no JSON number.
pub open spec fn price_not_number_detail() -> Seq<char> {
    "cannot parse price as Number from the API response"@
}

/// The detail of the failure where the change is no JSON number, or none
/// that a finite double can hold.
pub open spec fn change_not_number_detail() -> Seq<char> {
    "cannot parse 24h change as a finite number from the API response"@
}

/// The price and the change of the asset `name` in a document, as they stand
/// there: the document is an object, it holds an object under `name`, and
/// that holds a value under `currency` and one under the change's key.
pub open spec fn spec_quote_fields(doc: Json, name: Seq<char>, currency: Seq<char>) -> Result<
    (Json, Json),
    Failure,
> {
    if !(doc is Object) {
        Err(Failure { kind: QuoteErrorKind::MalformedResponse, detail: Some(not_an_object_detail()) })
    } else {
        match doc.spec_member(name) {
            Some(entry) if entry is Object => {
                match (entry.spec_member(currency), entry.spec_member(change_key(currency))) {
                    (Some(price), Some(change)) => Ok((price, change)),
                    _ => Err(
                        Failure {
                            kind: QuoteErrorKind::MissingField,
                            detail: Some(missing_fields_detail()),
                        },
                    ),
                }
            },
            _ => Err(
                Failure { kind: QuoteErrorKind::MissingField, detail: Some(missing_asset_detail()) },
            ),
        }
    }
}

/// Finds the price and the change of the asset `name` in a document.
pub fn quote_fields<'a>(doc: &'a Json, name: &str, currency: &str) -> (r: Result<
    (&'a Json, &'a Json),
    QuoteRequestError,
>)
    ensures
        r is Ok <==> spec_quote_fields(*doc, name@, currency@) is Ok,
        r matches Ok(fields) ==> spec_quote_fields(*doc, name@, currency@) == Ok::<
            (Json, Json),
            Failure,
        >((*fields.0, *fields.1)),
        r matches Err(e) ==> (spec_quote_fields(*doc, name@, currency@) matches Err(f)
            && e.is_failure(f)),
{
    if !doc.is_object() {
        return Err(
            QuoteRequestError::JsonParse(String::from_str("the API response is not an object")),
        );
    }
    let name_key = String::from_str(name);
    let entry = match doc.member(&name_key) {
        Some(entry) => entry,
        None => {
            return Err(
                QuoteRequestError::MissingField(
                    String::from_str("missing id of the API response, or is not an object"),
                ),
            );
        },
    };
    if !entry.is_object() {
        return Err(
            QuoteRequestError::MissingField(
                String::from_str("missing id of the API response, or is not an object"),
            ),
        );
    }
    let price_key = String::from_str(currency);
    let mut change_name = String::from_str(currency);
    change_name.append("_24h_change");
    match (entry.member(&price_key), entry.member(&change_name)) {
        (Some(price), Some(change)) => Ok((price, change)),
        _ => Err(
            QuoteRequestError::MissingField(
                String::from_str("missing price and/or 24h change field(s) in the API response"),
            ),
        ),
    }
}

/// Puts a response together from the asset's name, the outcome of reading
/// the price and the outcome of reading the change. An error of the price is
/// handed on as it is; a change that could not be read gives
/// `ParseChange`; else the response holds the three values.
pub fn assemble_quote(
    name: &str,
    price: Result<Decimal, QuoteRequestError>,
    change: Option<PercentChange>,
) -> (r: Result<AssetQuoteResponse, QuoteRequestError>)
    requires
        price matches Ok(d) ==> d.wf(),
    ensures
        price matches Err(e) ==> r == Err::<AssetQuoteResponse, QuoteRequestError>(e),
        price is Ok && change is None ==> (r matches Err(e) && e.is_failure(
            Failure {
                kind: QuoteErrorKind::UnparseableChange,
                detail: Some(change_not_number_detail()),
            },
        )),
        price matches Ok(d) ==> (change matches Some(c) ==> (r matches Ok(q) && q.wf() && q@
            == (QuoteView { name: name@, price: d@, change_bits: c.bits }))),
{
    match price {
        Err(e) => Err(e),
        Ok(d) => match change {
            None => Err(
                QuoteRequestError::ParseChange(
                    String::from_str(
                        "cannot parse 24h change as a finite number from the API response",
                    ),
                ),
            ),
            Some(c) => Ok(
                AssetQuoteResponse {
                    name: String::from_str(name),
                    price_usd: d,
                    price_change_24h: c,
                },
            ),
        },
    }
}

/// The quote of the asset `name` that a document holds: its two fields are
/// found, the price is a number that reads as a decimal, and the change is a
/// number that reads as a finite double.
pub open spec fn spec_quote_from_json(doc: Json, name: Seq<char>, currency: Seq<char>) -> Result<
    QuoteView,
    Failure,
> {
    match spec_quote_fields(doc, name, currency) {
        Err(f) => Err(f),
        Ok((price, change)) => match price.spec_number_text() {
            None => Err(
                Failure {
                    kind: QuoteErrorKind::UnparseablePrice,
                    detail: Some(price_not_number_detail()),
                },
            ),
            Some(price_text) => match parsed_decimal(price_text) {
                None => Err(Failure { kind: QuoteErrorKind::UnparseablePrice, detail: None }),
                Some((unscaled, scale)) => {
                    let bits = match change.spec_number_text() {
                        None => None,
                        Some(change_text) => number_float_bits(change_text),
                    };
                    match bits {
                        None => Err(
                            Failure {
                                kind: QuoteErrorKind::UnparseableChange,
                                detail: Some(change_not_number_detail()),
                            },
                        ),
                        Some(b) => Ok(
                            QuoteView {
                                name,
                                price: DecimalView { unscaled, scale },
                                change_bits: b,
                            },
                        ),
                    }
                },
            },
        },
    }
}

/// Reads the quote of the asset `name` in `currency` out of a document.
pub fn quote_from_json(doc: &Json, name: &str, currency: &str) -> (r: Result<
    AssetQuoteResponse,
    QuoteRequestError,
>)
    ensures
        r is Ok <==> spec_quote_from_json(*doc, name@, currency@) is Ok,
        r matches Ok(q) ==> q.wf() && q@.name == name@ && spec_quote_from_json(
            *doc,
            name@,
            currency@,
        ) == Ok::<QuoteView, Failure>(q@),
        r matches Err(e) ==> (spec_quote_from_json(*doc, name@, currency@) matches Err(f)
            && e.is_failure(f)),
{
    let (price_json, change_json) = match quote_fields(doc, name, currency) {
        Ok(fields) => fields,
        Err(e) => {
            return Err(e);
        },
    };
    let price = match price_json.number_text() {
        Some(text) => Decimal::parse(text.as_str()),
        None => Err(
            QuoteRequestError::ParseBigDecimal(
                String::from_str("cannot parse price as Number from the API response"),
            ),
        ),
    };
    let change = match change_json.number_text() {
        Some(text) => match float_bits_of_number(text.as_str()) {
            Some(bits) => Some(PercentChange { bits }),
            None => None,
        },
        None => None,
    };
    assemble_quote(name, price, change)
}

/// The quote of the asset `name` that the text of a body holds.
pub open spec fn spec_parse_quote_body(body: Seq<char>, name: Seq<char>, currency: Seq<char>) -> Result<
    QuoteView,
    Failure,
> {
    match parsed_json(body) {
        None => Err(Failure { kind: QuoteErrorKind::MalformedResponse, detail: None }),
        Some(doc) => spec_quote_from_json(doc, name, currency),
    }
}

/// Reads the quote of the asset `name` in `currency` out of the body of a
/// reply. The response carries the name that was asked for.
pub fn parse_quote_body(body: &str, name: &str, currency: &str) -> (r: Result<
    AssetQuoteResponse,
    QuoteRequestError,
>)
    ensures
        r is Ok <==> spec_parse_quote_body(body@, name@, currency@) is Ok,
        r matches Ok(q) ==> q.wf() && q@.name == name@ && spec_parse_quote_body(
            body@,
            name@,
            currency@,
        ) == Ok::<QuoteView, Failure>(q@),
        r matches Err(e) ==> (spec_parse_quote_body(body@, name@, currency@) matches Err(f)
            && e.is_failure(f)),
{
    match json_from_text(body) {
        Err(e) => Err(QuoteRequestError::JsonParse(json_error_text(&e))),
        Ok(doc) => quote_from_json(&doc, name, currency),
    }
}

/// A quote that is read out of a body for an asset carries the name of that
/// asset, whatever else the body holds: a request is never answered with the
/// quote of another asset.
pub proof fn lemma_quote_names_the_asset(body: Seq<char>, name: Seq<char>, currency: Seq<char>)
    ensures
        spec_parse_quote_body(body, name, currency) matches Ok(q) ==> q.name == name,
{
}

} // verus!
