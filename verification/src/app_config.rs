//! The settings a client is built from.

use vstd::prelude::*;

verus! {

/// Where the pricing API lives.
#[derive(Debug)]
pub struct AmberConfig {
    pub base_url: String,
}

/// The credential presented with every request. It has no `Debug`: the
/// secret is not for logs.
pub struct ApiToken {
    pub name: String,
    /// The bearer secret.
    pub psk: String,
}

/// Everything the program is configured with.
pub struct AppConfig {
    pub amberconfig: AmberConfig,
    pub apitoken: ApiToken,
}

} // verus!
