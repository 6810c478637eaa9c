use amber_client::app_config::{AmberConfig, ApiToken, AppConfig};
use amber_client::endpoints::{current_prices_url, sites_url, usage_url};
use amber_client::rest_client::{
    bearer, RestClient, SiteChannels, SiteDetails, REQUEST_TIMEOUT_SECONDS,
};
use iso8601_timestamp::Timestamp;

fn config() -> AppConfig {
    AppConfig {
        amberconfig: AmberConfig { base_url: String::from("https://api.example.test/v1") },
        apitoken: ApiToken { name: String::from("home"), psk: String::from("psk_0123456789") },
    }
}

fn site() -> SiteDetails {
    SiteDetails {
        active_from: Timestamp::parse("2022-01-01T00:00:00Z").unwrap(),
        channels: vec![SiteChannels {
            identifier: String::from("E1"),
            tariff: String::from("A100"),
            tariff_type: String::from("general"),
        }],
        id: String::from("01FG2K6V5JZ37FEJX8Y1KP8YV"),
        network: String::from("Jemena"),
        nmi: String::from("3052282872"),
        status: String::from("active"),
    }
}

#[test]
fn sites_url_appends_the_resource() {
    assert_eq!(sites_url("https://api.example.test/v1"), "https://api.example.test/v1/sites");
    assert_eq!(sites_url(""), "/sites");
}

#[test]
fn current_prices_url_is_built_from_the_site_id_alone() {
    assert_eq!(
        current_prices_url("https://api.example.test/v1", "01FG2K6V5JZ37FEJX8Y1KP8YV"),
        "https://api.example.test/v1/sites/01FG2K6V5JZ37FEJX8Y1KP8YV/prices/current?resolution=30"
    );
}

#[test]
fn current_prices_url_has_one_query_parameter() {
    let url = current_prices_url("http://h", "S");
    assert_eq!(url.matches('?').count(), 1);
    assert_eq!(url.matches('&').count(), 0);
    assert!(url.ends_with("?resolution=30"));
}

#[test]
fn usage_url_carries_both_dates_and_the_resolution() {
    assert_eq!(
        usage_url("https://api.example.test/v1", "01FG2K6V5JZ37FEJX8Y1KP8YV", "2023-09-12", "2023-09-13"),
        "https://api.example.test/v1/sites/01FG2K6V5JZ37FEJX8Y1KP8YV/usage?startDate=2023-09-12&endDate=2023-09-13&resolution=30"
    );
}

#[test]
fn bearer_prefixes_the_token() {
    assert_eq!(bearer("psk_0123456789"), "Bearer psk_0123456789");
    assert_eq!(bearer(""), "Bearer ");
}

#[test]
fn new_client_keeps_address_and_token() {
    let client = RestClient::new_client(String::from("http://h/sites"), String::from("t"));
    assert_eq!(client.url, "http://h/sites");
    assert_eq!(client.auth_token, "t");
}

#[test]
fn request_has_the_three_headers_in_order() {
    let client = RestClient::new_client(String::from("http://h/sites"), String::from("secret"));
    let request = client.request();
    assert_eq!(request.url, "http://h/sites");
    assert_eq!(request.headers.len(), 3);
    assert_eq!(request.headers[0].name, "Authorization");
    assert_eq!(request.headers[0].value, "Bearer secret");
    assert_eq!(request.headers[1].name, "Content-Type");
    assert_eq!(request.headers[1].value, "application/json");
    assert_eq!(request.headers[2].name, "Accept");
    assert_eq!(request.headers[2].value, "application/json");
    assert_eq!(request.timeout_seconds, REQUEST_TIMEOUT_SECONDS);
    assert_eq!(REQUEST_TIMEOUT_SECONDS, 30);
}

#[test]
fn clients_are_built_from_the_configuration() {
    let config = config();
    let site = site();
    let sites = RestClient::for_sites(&config);
    assert_eq!(sites.url, "https://api.example.test/v1/sites");
    assert_eq!(sites.auth_token, "psk_0123456789");
    let prices = RestClient::for_current_prices(&config, &site);
    assert_eq!(
        prices.url,
        "https://api.example.test/v1/sites/01FG2K6V5JZ37FEJX8Y1KP8YV/prices/current?resolution=30"
    );
    assert_eq!(prices.auth_token, "psk_0123456789");
    let usage = RestClient::for_usage(&config, &site, "2023-09-12", "2023-09-13");
    assert_eq!(
        usage.url,
        "https://api.example.test/v1/sites/01FG2K6V5JZ37FEJX8Y1KP8YV/usage?startDate=2023-09-12&endDate=2023-09-13&resolution=30"
    );
    assert_eq!(usage.auth_token, "psk_0123456789");
}
