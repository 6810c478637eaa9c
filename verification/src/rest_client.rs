//! Records of the pricing API, the client that asks for them, and the errors
//! a request can end in.

use crate::app_config::AppConfig;
use crate::endpoints::{
    current_prices_url, current_prices_url_spec, sites_url, sites_url_spec, usage_url,
    usage_url_spec,
};
use vstd::pervasive::unreached;
use vstd::prelude::*;
use vstd::string::StringExecFns;

verus! {

/// `iso8601_timestamp::Timestamp`: an instant, carried through unread.
#[verifier::external_type_specification]
#[verifier::external_body]
pub struct ExTimestamp(iso8601_timestamp::Timestamp);

/// One metering channel of a site.
#[derive(Debug, PartialEq)]
pub struct SiteChannels {
    pub identifier: String,
    pub tariff: String,
    /// Sent under the key `type`.
    pub tariff_type: String,
}

/// One metering point.
#[derive(Debug, PartialEq)]
pub struct SiteDetails {
    pub active_from: iso8601_timestamp::Timestamp,
    pub channels: Vec<SiteChannels>,
    pub id: String,
    pub network: String,
    pub nmi: String,
    pub status: String,
}

/// A number of the API, kept as the bit pattern of its single-precision
/// binary value, so that nothing of it is lost and nothing is computed on it.
#[derive(Debug, Clone, Copy, PartialEq, Eq)]
pub struct Number {
    pub bits: u32,
}

impl Number {
    /// The number whose bit pattern is `bits`.
    pub fn from_bits(bits: u32) -> (n: Number)
        ensures
            n.bits == bits,
    {
        Number { bits }
    }

    /// The bit pattern of the number.
    pub fn to_bits(&self) -> (bits: u32)
        ensures
            bits == self.bits,
    {
        self.bits
    }
}

/// The tariff period an interval falls in.
#[derive(Debug)]
pub struct TariffInformation {
    pub period: String,
}

/// The price of one channel for the current interval.
#[derive(Debug)]
pub struct CurrentPrices {
    /// Sent under the key `type`.
    pub interval_type: String,
    pub date: iso8601_timestamp::Timestamp,
    /// Length of the interval in minutes.
    pub duration: u8,
    pub start_time: iso8601_timestamp::Timestamp,
    pub end_time: iso8601_timestamp::Timestamp,
    pub nem_time: iso8601_timestamp::Timestamp,
    pub per_kwh: Number,
    pub renewables: Number,
    pub spot_per_kwh: Number,
    pub channel_type: String,
    pub spike_status: String,
    pub tariff_information: TariffInformation,
    pub descriptor: String,
    pub estimate: bool,
}

/// The metered usage of one channel over one interval.
#[derive(Debug)]
pub struct CurrentUsage {
    /// Sent under the key `type`.
    pub price_type: String,
    /// Length of the interval in minutes.
    pub duration: u8,
    pub date: iso8601_timestamp::Timestamp,
    pub end_time: iso8601_timestamp::Timestamp,
    pub quality: String,
    pub kwh: Number,
    pub nem_time: iso8601_timestamp::Timestamp,
    pub per_kwh: Number,
    pub channel_type: String,
    pub channel_identifier: String,
    pub cost: Number,
    pub renewables: Number,
    pub spot_per_kwh: Number,
    pub start_time: iso8601_timestamp::Timestamp,
    pub spike_status: String,
    pub tariff_information: TariffInformation,
    pub descriptor: String,
}

/// How a request can fail.
#[derive(Debug)]
pub enum Error {
    /// No usable response arrived; the transport's message.
    ReqwestError(String),
    /// The body of a 200 response is not the expected array of records; the
    /// decoder's message.
    SerdeJsonError(String),
    /// The server answered with another status than 200. `status_code` is
    /// the status line, `body` the response body as it came.
    HttpNon200Status { status_code: String, body: String },
    /// The array decoded, and holds no record where one is needed.
    EmptyResult,
}

/// The status and body of a response. The status is a three-digit code.
#[derive(Debug)]
pub struct Reply {
    status: u16,
    body: String,
}

impl Reply {
    #[verifier::type_invariant]
    spec fn three_digits(self) -> bool {
        100 <= self.status <= 999
    }

    /// The status code.
    pub closed spec fn status(self) -> u16 {
        self.status
    }

    /// The body, as it came.
    pub closed spec fn body(self) -> Seq<char> {
        self.body@
    }

    /// A reply of the given status and body, if `status` has three digits.
    pub fn new(status: u16, body: String) -> (reply: Option<Reply>)
        ensures
            reply.is_some() <==> 100 <= status <= 999,
            reply matches Some(r) ==> r.status() == status && r.body() == body@,
    {
        if 100 <= status && status <= 999 {
            Some(Reply { status, body })
        } else {
            None
        }
    }

    /// The status code, which has three digits.
    pub fn status_code(&self) -> (code: u16)
        ensures
            code == self.status(),
            100 <= code <= 999,
    {
        proof {
            use_type_invariant(self);
        }
        self.status
    }

    /// The body.
    pub fn body_text(&self) -> (text: &String)
        ensures
            text@ == self.body(),
    {
        &self.body
    }

    /// Whether the status is 200, the only one under which records count.
    pub fn is_ok(&self) -> (ok: bool)
        ensures
            ok == (self.status() == 200),
    {
        self.status == 200
    }
}

/// The status line that `http` renders for a status code: the number, a
/// space, and the reason phrase it knows for that number.
pub uninterp spec fn status_line_text(code: u16) -> Seq<char>;

/// `reqwest::StatusCode::from_u16` followed by `to_string` on the status.
/// Trusted: the first accepts exactly the codes from 100 to 999, and the text
/// that the second gives depends on the code alone.
#[verifier::external_body]
fn status_line(code: u16) -> (line: Option<String>)
    ensures
        line.is_some() <==> 100 <= code <= 999,
        line matches Some(text) ==> text@ == status_line_text(code),
{
    match reqwest::StatusCode::from_u16(code) {
        Ok(status) => Some(status.to_string()),
        Err(_) => None,
    }
}

/// What came of one request that was answered: the reply, and what its body
/// decodes to, records or the decoder's message.
pub struct Fetched<T> {
    pub reply: Reply,
    pub records: Result<Vec<T>, String>,
}

/// Whether `result` is what a request that ended in `outcome` amounts to.
///
/// A request that got no response (`Err`, with the transport's message)
/// fails with that message. Any status but 200 fails with the status line
/// and the body as it came, whatever the body decodes to. On 200 a body that
/// did not decode fails with the decoder's message; an empty array fails
/// where `needs_one` asks for a record; otherwise the records come back as
/// they were decoded.
pub open spec fn settles<T>(
    outcome: Result<Fetched<T>, String>,
    needs_one: bool,
    result: Result<Vec<T>, Error>,
) -> bool {
    match outcome {
        Err(message) => result == Err::<Vec<T>, Error>(Error::ReqwestError(message)),
        Ok(fetched) => if fetched.reply.status() != 200 {
            result matches Err(Error::HttpNon200Status { status_code, body })
                && status_code@ == status_line_text(fetched.reply.status())
                && body@ == fetched.reply.body()
        } else {
            match fetched.records {
                Err(message) => result == Err::<Vec<T>, Error>(Error::SerdeJsonError(message)),
                Ok(records) => if needs_one && records@.len() == 0 {
                    result == Err::<Vec<T>, Error>(Error::EmptyResult)
                } else {
                    result == Ok::<Vec<T>, Error>(records)
                },
            }
        },
    }
}

/// Judges the outcome of one request.
pub fn settle<T>(outcome: Result<Fetched<T>, String>, needs_one: bool) -> (result: Result<
    Vec<T>,
    Error,
>)
    ensures
        settles(outcome, needs_one, result),
{
    match outcome {
        Err(message) => Err(Error::ReqwestError(message)),
        Ok(fetched) => {
            let Fetched { reply, records } = fetched;
            let code = reply.status_code();
            if code != 200 {
                match status_line(code) {
                    Some(line) => Err(
                        Error::HttpNon200Status { status_code: line, body: reply.body },
                    ),
                    None => unreached(),
                }
            } else {
                match records {
                    Err(message) => Err(Error::SerdeJsonError(message)),
                    Ok(rows) => {
                        if needs_one && rows.len() == 0 {
                            Err(Error::EmptyResult)
                        } else {
                            Ok(rows)
                        }
                    },
                }
            }
        },
    }
}

/// Takes the first of the records, which is the one record of an account
/// that has one; fails with `EmptyResult` where there is none.
pub fn first<T>(records: Vec<T>) -> (result: Result<T, Error>)
    ensures
        records@.len() == 0 ==> result == Err::<T, Error>(Error::EmptyResult),
        records@.len() > 0 ==> result == Ok::<T, Error>(records@[0]),
{
    let mut records = records;
    if records.len() == 0 {
        Err(Error::EmptyResult)
    } else {
        Ok(records.remove(0))
    }
}

/// One header of a request. It has no `Debug`: a value may hold the token.
pub struct Header {
    pub name: String,
    pub value: String,
}

/// How long a request may take, in seconds, before it is given up.
pub const REQUEST_TIMEOUT_SECONDS: u64 = 30;

/// A GET request: the address, the headers in the order they are set, and
/// the time it may take.
pub struct Request {
    pub url: String,
    pub headers: Vec<Header>,
    pub timeout_seconds: u64,
}

/// The value of the authorization header for a token.
pub open spec fn bearer_spec(auth_token: Seq<char>) -> Seq<char> {
    "Bearer "@ + auth_token
}

/// Whether `header` has the given name and value.
pub open spec fn is_header(header: Header, name: Seq<char>, value: Seq<char>) -> bool {
    header.name@ == name && header.value@ == value
}

/// Whether `request` is the request to `url` that presents `auth_token` and
/// sends and accepts JSON, carries nothing else, and may take
/// `REQUEST_TIMEOUT_SECONDS`.
pub open spec fn is_request(request: Request, url: Seq<char>, auth_token: Seq<char>) -> bool {
    &&& request.url@ == url
    &&& request.headers@.len() == 3
    &&& is_header(request.headers@[0], "Authorization"@, bearer_spec(auth_token))
    &&& is_header(request.headers@[1], "Content-Type"@, "application/json"@)
    &&& is_header(request.headers@[2], "Accept"@, "application/json"@)
    &&& request.timeout_seconds == REQUEST_TIMEOUT_SECONDS
}

/// Builds the value of the authorization header for a token.
pub fn bearer(auth_token: &str) -> (value: String)
    ensures
        value@ == bearer_spec(auth_token@),
{
    String::from_str("Bearer ").concat(auth_token)
}

/// A client for one address of the API, with the token it presents there.
/// It has no `Debug`: the token is not for logs.
#[derive(Clone)]
pub struct RestClient {
    pub url: String,
    pub auth_token: String,
}

impl RestClient {
    /// A client for `url` that presents `auth_token`.
    pub fn new_client(url: String, auth_token: String) -> (client: Self)
        ensures
            client.url == url,
            client.auth_token == auth_token,
    {
        Self { url, auth_token }
    }

    /// The client for the list of sites of the configured account.
    pub fn for_sites(config: &AppConfig) -> (client: Self)
        ensures
            client.url@ == sites_url_spec(config.amberconfig.base_url@),
            client.auth_token@ == config.apitoken.psk@,
    {
        Self::new_client(
            sites_url(config.amberconfig.base_url.as_str()),
            config.apitoken.psk.clone(),
        )
    }

    /// The client for the current prices of `site`.
    pub fn for_current_prices(config: &AppConfig, site: &SiteDetails) -> (client: Self)
        ensures
            client.url@ == current_prices_url_spec(config.amberconfig.base_url@, site.id@),
            client.auth_token@ == config.apitoken.psk@,
    {
        Self::new_client(
            current_prices_url(config.amberconfig.base_url.as_str(), site.id.as_str()),
            config.apitoken.psk.clone(),
        )
    }

    /// The client for the usage of `site` from `start_date` to `end_date`.
    pub fn for_usage(config: &AppConfig, site: &SiteDetails, start_date: &str, end_date: &str) -> (client:
        Self)
        ensures
            client.url@ == usage_url_spec(
                config.amberconfig.base_url@,
                site.id@,
                start_date@,
                end_date@,
            ),
            client.auth_token@ == config.apitoken.psk@,
    {
        Self::new_client(
            usage_url(config.amberconfig.base_url.as_str(), site.id.as_str(), start_date, end_date),
            config.apitoken.psk.clone(),
        )
    }

    /// The request this client sends: a GET to its address with its token.
    pub fn request(&self) -> (request: Request)
        ensures
            is_request(request, self.url@, self.auth_token@),
    {
        let mut headers: Vec<Header> = Vec::new();
        headers.push(
            Header {
                name: String::from_str("Authorization"),
                value: bearer(self.auth_token.as_str()),
            },
        );
        headers.push(
            Header {
                name: String::from_str("Content-Type"),
                value: String::from_str("application/json"),
            },
        );
        headers.push(
            Header { name: String::from_str("Accept"), value: String::from_str("application/json") },
        );
        Request { url: self.url.clone(), headers, timeout_seconds: REQUEST_TIMEOUT_SECONDS }
    }

    /// Judges the outcome of the request for the sites. An account without a
    /// site is an error, not an empty list.
    pub fn get_site_data(&self, outcome: Result<Fetched<SiteDetails>, String>) -> (result: Result<
        Vec<SiteDetails>,
        Error,
    >)
        ensures
            settles(outcome, true, result),
            result matches Ok(sites) ==> sites@.len() > 0,
    {
        settle(outcome, true)
    }

    /// Judges the outcome of the request for the current prices. A site
    /// without a price window is an error, not an empty list.
    pub fn get_current_price_data(&self, outcome: Result<Fetched<CurrentPrices>, String>) -> (result:
        Result<Vec<CurrentPrices>, Error>)
        ensures
            settles(outcome, true, result),
            result matches Ok(prices) ==> prices@.len() > 0,
    {
        settle(outcome, true)
    }

    /// Judges the outcome of the request for usage. A period without a row of
    /// usage is an empty list.
    pub fn get_usage_data(&self, outcome: Result<Fetched<CurrentUsage>, String>) -> (result: Result<
        Vec<CurrentUsage>,
        Error,
    >)
        ensures
            settles(outcome, false, result),
    {
        settle(outcome, false)
    }
}

/// A status from 300 up is reported as `HttpNon200Status` with the body as
/// it came, whether or not that body decodes, and for each kind of record.
pub proof fn refused_status_is_reported<T>(
    outcome: Result<Fetched<T>, String>,
    needs_one: bool,
    result: Result<Vec<T>, Error>,
)
    requires
        settles(outcome, needs_one, result),
        outcome is Ok,
        outcome->Ok_0.reply.status() >= 300,
    ensures
        result matches Err(Error::HttpNon200Status { status_code, body }) && body@
            == outcome->Ok_0.reply.body(),
{
}

/// An empty array under status 200 is reported as `EmptyResult` where a
/// record is needed.
pub proof fn empty_array_is_reported<T>(
    outcome: Result<Fetched<T>, String>,
    result: Result<Vec<T>, Error>,
)
    requires
        settles(outcome, true, result),
        outcome is Ok,
        outcome->Ok_0.reply.status() == 200,
        outcome->Ok_0.records is Ok,
        outcome->Ok_0.records->Ok_0@.len() == 0,
    ensures
        result == Err::<Vec<T>, Error>(Error::EmptyResult),
{
}

/// Under status 200, records that decoded come back as they are: the same
/// rows in the same order, none dropped and none merged. Only an empty array
/// where a record is needed is turned away.
pub proof fn decoded_records_are_returned<T>(
    outcome: Result<Fetched<T>, String>,
    needs_one: bool,
    result: Result<Vec<T>, Error>,
)
    requires
        settles(outcome, needs_one, result),
        outcome is Ok,
        outcome->Ok_0.reply.status() == 200,
        outcome->Ok_0.records is Ok,
        !needs_one || outcome->Ok_0.records->Ok_0@.len() > 0,
    ensures
        result is Ok,
        result->Ok_0@ == outcome->Ok_0.records->Ok_0@,
{
}

} // verus!
