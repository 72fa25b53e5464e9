//! The requests of the exchange's endpoints.
//!
//! Every endpoint is a GET on the exchange's host. A request is its URL, which
//! is the host, the endpoint's path and the query string, and for a private
//! endpoint a bearer credential that was signed for `GET` and that same path.

use vstd::prelude::*;
use vstd::string::StringExecFns;
use crate::auth::{create_jwt, is_credential_for, Credentials};
use crate::error::AuthError;
use crate::params::{ContractExpiryType, ExpiringContractStatus, Granularity, ProductType};
use crate::query::{bool_text_of, decimal_of, optional, pair, query_string, repeated, texts, Query};
use crate::text::decimal;

verus! {

pub const PROTOCOL: &'static str = "https://";

pub const BASE_URL: &'static str = "api.coinbase.com";

pub const PUBLIC_ACCOUNTS_ENDPOINT: &'static str = "/api/v3/brokerage/accounts";

pub const PUBLIC_PRODUCT_ENDPOINT: &'static str = "/api/v3/brokerage/market/products";

pub const PUBLIC_PRODUCTS_ENDPOINT: &'static str = "/api/v3/brokerage/market/products";

pub const PUBLIC_PRODUCT_BOOK_ENDPOINT: &'static str = "/api/v3/brokerage/market/product_book";

pub const PUBLIC_SERVER_TIME_ENDPOINT: &'static str = "/api/v3/brokerage/time";

pub const BEST_BID_ASK_ENDPOINT: &'static str = "/api/v3/brokerage/best_bid_ask";

/// The verb of every request.
pub const GET: &'static str = "GET";

/// A GET request that is ready to be sent.
pub struct Request {
    /// The full URL, query string included.
    pub url: String,
    /// The bearer credential to send along, if the endpoint asks for one.
    pub bearer: Option<String>,
}

/// The URL of `path` with the given parameters on the exchange's host.
pub open spec fn url_of(path: Seq<char>, params: Seq<Seq<char>>) -> Seq<char> {
    PROTOCOL@ + BASE_URL@ + path + query_string(params)
}

/// The text of an optional string.
pub open spec fn text_of(value: Option<String>) -> Option<Seq<char>> {
    match value {
        Some(s) => Some(s@),
        None => None,
    }
}

/// The text of an optional string slice.
pub open spec fn slice_text_of(value: Option<&str>) -> Option<Seq<char>> {
    match value {
        Some(s) => Some(s@),
        None => None,
    }
}

/// The path of one account.
pub open spec fn account_path(account_uuid: Seq<char>) -> Seq<char> {
    PUBLIC_ACCOUNTS_ENDPOINT@ + seq!['/'] + account_uuid
}

/// The path of one product.
pub open spec fn product_path(product_id: Seq<char>) -> Seq<char> {
    PUBLIC_PRODUCT_ENDPOINT@ + seq!['/'] + product_id
}

/// The path of the recent trades of one product.
pub open spec fn market_trades_path(product_id: Seq<char>) -> Seq<char> {
    product_path(product_id) + "/ticker"@
}

/// The path of the candles of one product.
pub open spec fn candles_path(product_id: Seq<char>) -> Seq<char> {
    product_path(product_id) + "/candles"@
}

/// The parameters of a request for recent trades: the limit always, the bounds
/// of the time window where they are given.
pub open spec fn market_trades_params(
    limit: u32,
    start: Option<Seq<char>>,
    end: Option<Seq<char>>,
) -> Seq<Seq<char>> {
    seq![pair("limit"@, decimal(limit as nat))] + optional("start"@, start) + optional(
        "end"@,
        end,
    )
}

/// The parameters of a request for best bids and asks: one `product_ids` per
/// product, none where no list is given.
pub open spec fn best_bid_ask_params(product_ids: Option<Seq<Seq<char>>>) -> Seq<Seq<char>> {
    match product_ids {
        Some(ids) => repeated("product_ids"@, ids),
        None => Seq::empty(),
    }
}

/// The parameters of a request for an order book: the product always, the
/// depth and the price increment where they are given.
pub open spec fn product_book_params(
    product_id: Seq<char>,
    limit: Option<u32>,
    aggregation_price_increment: Option<Seq<char>>,
) -> Seq<Seq<char>> {
    seq![pair("product_id"@, product_id)] + optional("limit"@, decimal_of(limit)) + optional(
        "aggregation_price_increment"@,
        aggregation_price_increment,
    )
}

/// The parameters of a request for candles: the time window and the
/// granularity always, the limit where it is given.
pub open spec fn candles_params(
    start: Seq<char>,
    end: Seq<char>,
    granularity: Granularity,
    limit: Option<u32>,
) -> Seq<Seq<char>> {
    seq![pair("start"@, start), pair("end"@, end), pair("granularity"@, granularity.name())]
        + optional("limit"@, decimal_of(limit))
}

/// The name of an optional product type.
pub open spec fn product_type_name(value: Option<ProductType>) -> Option<Seq<char>> {
    match value {
        Some(v) => Some(v.name()),
        None => None,
    }
}

/// The name of an optional contract expiry type.
pub open spec fn contract_expiry_type_name(value: Option<ContractExpiryType>) -> Option<
    Seq<char>,
> {
    match value {
        Some(v) => Some(v.name()),
        None => None,
    }
}

/// The name of an optional expiring contract status.
pub open spec fn expiring_contract_status_name(value: Option<ExpiringContractStatus>) -> Option<
    Seq<char>,
> {
    match value {
        Some(v) => Some(v.name()),
        None => None,
    }
}

/// The texts of an optional list of string slices.
pub open spec fn texts_of(values: Option<Vec<&str>>) -> Option<Seq<Seq<char>>> {
    match values {
        Some(v) => Some(texts(v@)),
        None => None,
    }
}

/// The parameters of a product listing, in the order in which they are
/// written. Each is left out when it is absent; `product_ids` comes once per
/// product.
pub open spec fn products_params(
    limit: Option<u32>,
    offset: Option<u32>,
    product_type: Option<ProductType>,
    product_ids: Option<Seq<Seq<char>>>,
    contract_expiry_type: Option<ContractExpiryType>,
    expiring_contract_status: Option<ExpiringContractStatus>,
    get_all_products: Option<bool>,
) -> Seq<Seq<char>> {
    optional("limit"@, decimal_of(limit)) + optional("offset"@, decimal_of(offset)) + optional(
        "product_type"@,
        product_type_name(product_type),
    ) + best_bid_ask_params(product_ids) + optional(
        "contract_expiry_type"@,
        contract_expiry_type_name(contract_expiry_type),
    ) + optional(
        "expiring_contract_status"@,
        expiring_contract_status_name(expiring_contract_status),
    ) + optional("get_all_products"@, bool_text_of(get_all_products))
}

/// Writes the URL of `path` with the parameters of `query`.
pub fn build_url(path: &str, query: &Query) -> (url: String)
    ensures
        url@ == url_of(path@, query@),
{
    let mut url = String::from_str(PROTOCOL);
    url.append(BASE_URL);
    url.append(path);
    let tail = query.finish();
    url.append(tail.as_str());
    url
}

/// Writes the path of `id` below `base`: the base, `/`, the identifier.
pub fn child_path(base: &str, id: &str) -> (path: String)
    ensures
        path@ == base@ + seq!['/'] + id@,
{
    let mut path = String::from_str(base);
    path.push('/');
    path.append(id);
    path
}

/// Adds the parameter `key=value` where a value is given.
pub fn push_optional(query: &mut Query, key: &str, value: Option<&str>)
    ensures
        final(query)@ == old(query)@ + optional(key@, slice_text_of(value)),
{
    match value {
        Some(v) => {
            query.push(key, v);
            assert(query@ =~= old(query)@ + optional(key@, slice_text_of(value)));
        },
        None => {
            assert(query@ =~= old(query)@ + optional(key@, slice_text_of(value)));
        },
    }
}

/// Adds the parameter `key=value`, the number in decimal, where a number is
/// given.
pub fn push_optional_number(query: &mut Query, key: &str, value: Option<u32>)
    ensures
        final(query)@ == old(query)@ + optional(key@, decimal_of(value)),
{
    match value {
        Some(v) => {
            query.push_number(key, v);
            assert(query@ =~= old(query)@ + optional(key@, decimal_of(value)));
        },
        None => {
            assert(query@ =~= old(query)@ + optional(key@, decimal_of(value)));
        },
    }
}

/// Adds one `product_ids` parameter per product where a list is given.
pub fn push_product_ids(query: &mut Query, product_ids: &Option<Vec<&str>>)
    ensures
        final(query)@ == old(query)@ + best_bid_ask_params(texts_of(*product_ids)),
{
    match product_ids {
        Some(ids) => {
            query.push_each("product_ids", ids);
        },
        None => {
            assert(query@ =~= old(query)@ + best_bid_ask_params(texts_of(*product_ids)));
        },
    }
}

/// True when `r` is what a private endpoint owes for `path` and `params`.
///
/// A request has the URL of that path and those parameters, and carries a
/// credential of the key for `GET` and that same path, the query string left
/// out. There is no request exactly when the key cannot be read, with the
/// error `KeyFormat`, or when the signer made no signature, with the error
/// `Signing`.
pub open spec fn is_signed_request(
    r: Result<Request, AuthError>,
    credentials: Credentials,
    path: Seq<char>,
    params: Seq<Seq<char>>,
) -> bool {
    match r {
        Ok(request) => {
            &&& credentials.key_is_readable()
            &&& request.url@ == url_of(path, params)
            &&& request.bearer matches Some(jwt) && is_credential_for(
                jwt@,
                credentials.key_name@,
                GET@,
                path,
            )
        },
        Err(e) => if credentials.key_is_readable() {
            e == AuthError::Signing
        } else {
            e == AuthError::KeyFormat
        },
    }
}

/// The planner of the exchange's requests.
pub struct Client<'a> {
    pub name: &'a str,
}

impl<'a> Client<'a> {
    /// A planner under the given name.
    pub fn new(name: &'a str) -> (client: Client<'a>)
        ensures
            client.name@ == name@,
    {
        Client { name }
    }

    /// The request for `url` without a credential.
    pub fn get(&self, url: String) -> (request: Request)
        ensures
            request.url == url,
            request.bearer is None,
    {
        Request { url, bearer: None }
    }

    /// The request for `url` with `jwt` as its bearer credential.
    pub fn get_auth(&self, url: String, jwt: String) -> (request: Request)
        ensures
            request.url == url,
            request.bearer == Some(jwt),
    {
        Request { url, bearer: Some(jwt) }
    }

    /// The request for `path` with the parameters of `query`, with a fresh
    /// credential for `GET` and `path`.
    pub fn signed_get(&self, credentials: &Credentials, path: &str, query: &Query) -> (r: Result<
        Request,
        AuthError,
    >)
        ensures
            is_signed_request(r, *credentials, path@, query@),
    {
        let url = build_url(path, query);
        match create_jwt(credentials, GET, path) {
            Ok(jwt) => Ok(self.get_auth(url, jwt)),
            Err(e) => Err(e),
        }
    }

    /// The request for the accounts of the key.
    pub fn list_accounts(&self, credentials: &Credentials) -> (r: Result<Request, AuthError>)
        ensures
            is_signed_request(r, *credentials, PUBLIC_ACCOUNTS_ENDPOINT@, Seq::empty()),
    {
        self.signed_get(credentials, PUBLIC_ACCOUNTS_ENDPOINT, &Query::new())
    }

    /// The request for one account of the key.
    pub fn get_account(&self, credentials: &Credentials, account_uuid: &str) -> (r: Result<
        Request,
        AuthError,
    >)
        ensures
            is_signed_request(r, *credentials, account_path(account_uuid@), Seq::empty()),
    {
        let path = child_path(PUBLIC_ACCOUNTS_ENDPOINT, account_uuid);
        self.signed_get(credentials, path.as_str(), &Query::new())
    }

    /// The request for the best bid and ask of the given products, or of all
    /// products where no list is given. The credential is bound to the path
    /// alone.
    pub fn get_best_bid_ask(
        &self,
        credentials: &Credentials,
        product_ids: Option<Vec<&str>>,
    ) -> (r: Result<Request, AuthError>)
        ensures
            is_signed_request(
                r,
                *credentials,
                BEST_BID_ASK_ENDPOINT@,
                best_bid_ask_params(texts_of(product_ids)),
            ),
    {
        let mut query = Query::new();
        push_product_ids(&mut query, &product_ids);
        assert(query@ =~= best_bid_ask_params(texts_of(product_ids)));
        self.signed_get(credentials, BEST_BID_ASK_ENDPOINT, &query)
    }

    /// The request for the recent trades of a product: at most `limit` of
    /// them, within the time window where its bounds are given.
    pub fn get_public_market_trades(
        &self,
        product_id: &str,
        limit: u32,
        start: Option<String>,
        end: Option<String>,
    ) -> (request: Request)
        ensures
            request.url@ == url_of(
                market_trades_path(product_id@),
                market_trades_params(limit, text_of(start), text_of(end)),
            ),
            request.bearer is None,
    {
        let mut path = child_path(PUBLIC_PRODUCT_ENDPOINT, product_id);
        path.append("/ticker");
        let mut query = Query::new();
        query.push_number("limit", limit);
        assert(query@ =~= seq![pair("limit"@, decimal(limit as nat))]);
        match &start {
            Some(s) => {
                query.push("start", s.as_str());
            },
            None => {},
        }
        assert(query@ =~= seq![pair("limit"@, decimal(limit as nat))] + optional(
            "start"@,
            text_of(start),
        ));
        match &end {
            Some(e) => {
                query.push("end", e.as_str());
            },
            None => {},
        }
        assert(query@ =~= market_trades_params(limit, text_of(start), text_of(end)));
        self.get(build_url(path.as_str(), &query))
    }

    /// The request for the order book of a product.
    pub fn get_public_product_book(
        &self,
        product_id: &str,
        limit: Option<u32>,
        aggregation_price_increment: Option<&str>,
    ) -> (request: Request)
        ensures
            request.url@ == url_of(
                PUBLIC_PRODUCT_BOOK_ENDPOINT@,
                product_book_params(
                    product_id@,
                    limit,
                    slice_text_of(aggregation_price_increment),
                ),
            ),
            request.bearer is None,
    {
        let mut query = Query::new();
        query.push("product_id", product_id);
        assert(query@ =~= seq![pair("product_id"@, product_id@)]);
        push_optional_number(&mut query, "limit", limit);
        push_optional(&mut query, "aggregation_price_increment", aggregation_price_increment);
        self.get(build_url(PUBLIC_PRODUCT_BOOK_ENDPOINT, &query))
    }

    /// The request for the candles of a product between `start` and `end`.
    pub fn get_public_product_candles(
        &self,
        product_id: &str,
        start: &str,
        end: &str,
        granularity: Granularity,
        limit: Option<u32>,
    ) -> (request: Request)
        ensures
            request.url@ == url_of(
                candles_path(product_id@),
                candles_params(start@, end@, granularity, limit),
            ),
            request.bearer is None,
    {
        let mut path = child_path(PUBLIC_PRODUCT_ENDPOINT, product_id);
        path.append("/candles");
        let mut query = Query::new();
        query.push("start", start);
        query.push("end", end);
        query.push("granularity", granularity.as_str());
        assert(query@ =~= seq![
            pair("start"@, start@),
            pair("end"@, end@),
            pair("granularity"@, granularity.name()),
        ]);
        push_optional_number(&mut query, "limit", limit);
        self.get(build_url(path.as_str(), &query))
    }

    /// The request for one product.
    pub fn get_public_product(&self, product_id: &str) -> (request: Request)
        ensures
            request.url@ == url_of(product_path(product_id@), Seq::empty()),
            request.bearer is None,
    {
        let path = child_path(PUBLIC_PRODUCT_ENDPOINT, product_id);
        self.get(build_url(path.as_str(), &Query::new()))
    }

    /// The request for a listing of products. Every parameter is optional and
    /// left out of the URL when absent; with none given the URL has no query
    /// string.
    pub fn list_public_products(
        &self,
        limit: Option<u32>,
        offset: Option<u32>,
        product_type: Option<ProductType>,
        product_ids: Option<Vec<&str>>,
        contract_expiry_type: Option<ContractExpiryType>,
        expiring_contract_status: Option<ExpiringContractStatus>,
        get_all_products: Option<bool>,
    ) -> (request: Request)
        ensures
            request.url@ == url_of(
                PUBLIC_PRODUCTS_ENDPOINT@,
                products_params(
                    limit,
                    offset,
                    product_type,
                    texts_of(product_ids),
                    contract_expiry_type,
                    expiring_contract_status,
                    get_all_products,
                ),
            ),
            request.bearer is None,
            limit is None && offset is None && product_type is None && product_ids is None
                && contract_expiry_type is None && expiring_contract_status is None
                && get_all_products is None ==> request.url@ == PROTOCOL@ + BASE_URL@
                + PUBLIC_PRODUCTS_ENDPOINT@,
    {
        let mut query = Query::new();
        push_optional_number(&mut query, "limit", limit);
        assert(query@ =~= optional("limit"@, decimal_of(limit)));
        push_optional_number(&mut query, "offset", offset);
        match product_type {
            Some(v) => {
                query.push("product_type", v.as_str());
            },
            None => {},
        }
        assert(query@ =~= optional("limit"@, decimal_of(limit)) + optional(
            "offset"@,
            decimal_of(offset),
        ) + optional("product_type"@, product_type_name(product_type)));
        push_product_ids(&mut query, &product_ids);
        let ghost upto_ids = query@;
        match contract_expiry_type {
            Some(v) => {
                query.push("contract_expiry_type", v.as_str());
            },
            None => {},
        }
        assert(query@ =~= upto_ids + optional(
            "contract_expiry_type"@,
            contract_expiry_type_name(contract_expiry_type),
        ));
        let ghost upto_expiry = query@;
        match expiring_contract_status {
            Some(v) => {
                query.push("expiring_contract_status", v.as_str());
            },
            None => {},
        }
        assert(query@ =~= upto_expiry + optional(
            "expiring_contract_status"@,
            expiring_contract_status_name(expiring_contract_status),
        ));
        let ghost upto_status = query@;
        match get_all_products {
            Some(v) => {
                query.push_bool("get_all_products", v);
            },
            None => {},
        }
        assert(query@ =~= upto_status + optional(
            "get_all_products"@,
            bool_text_of(get_all_products),
        ));
        let request = self.get(build_url(PUBLIC_PRODUCTS_ENDPOINT, &query));
        proof {
            if limit is None && offset is None && product_type is None && product_ids is None
                && contract_expiry_type is None && expiring_contract_status is None
                && get_all_products is None {
                assert(query@ =~= Seq::<Seq<char>>::empty());
                assert(request.url@ =~= PROTOCOL@ + BASE_URL@ + PUBLIC_PRODUCTS_ENDPOINT@);
            }
        }
        request
    }

    /// The request for the exchange's clock.
    pub fn get_public_server_time(&self) -> (request: Request)
        ensures
            request.url@ == url_of(PUBLIC_SERVER_TIME_ENDPOINT@, Seq::empty()),
            request.bearer is None,
    {
        self.get(build_url(PUBLIC_SERVER_TIME_ENDPOINT, &Query::new()))
    }
}

} // verus!
