//! What a deployment is configured with: the node's two endpoints and the
//! lending protocol's contracts that name the reserves and their oracles.

use crate::primitives::Address;
use vstd::prelude::*;

verus! {

/// The lending protocol's data provider, which lists the reserves:
/// `0x057835Ad21a177dbdd3090bB1CAE03EaCF78Fc6d`.
pub const AAVE_PROTOCOL_DATA_PROVIDER: [u8; 20] = [
    0x05, 0x78, 0x35, 0xad, 0x21, 0xa1, 0x77, 0xdb, 0xdd, 0x30,
    0x90, 0xbb, 0x1c, 0xae, 0x03, 0xea, 0xcf, 0x78, 0xfc, 0x6d,
];

/// The lending protocol's price oracle, which names the source of each
/// reserve's price: `0xA50ba011c48153De246E5192C8f9258A2ba79Ca9`.
pub const AAVE_ORACLE: [u8; 20] = [
    0xa5, 0x0b, 0xa0, 0x11, 0xc4, 0x81, 0x53, 0xde, 0x24, 0x6e,
    0x51, 0x92, 0xc8, 0xf9, 0x25, 0x8a, 0x2b, 0xa7, 0x9c, 0xa9,
];

/// The configuration of a deployment.
#[derive(Clone, Debug, PartialEq, Eq)]
pub struct Config {
    /// The node's endpoint for questions and answers.
    pub http_url: String,
    /// The node's endpoint for subscriptions.
    pub ws_url: String,
    /// The contract that lists the reserves.
    pub aave_protocol_data_provider: Address,
    /// The contract that names the source of each reserve's price.
    pub aave_oracle: Address,
}

impl Config {
    /// The configuration for a node with these two endpoints, with the
    /// lending protocol's contracts at their known addresses.
    pub fn new(http_url: String, ws_url: String) -> (config: Config)
        ensures
            config.http_url == http_url,
            config.ws_url == ws_url,
            config.aave_protocol_data_provider@ == AAVE_PROTOCOL_DATA_PROVIDER@,
            config.aave_oracle@ == AAVE_ORACLE@,
    {
        Config {
            http_url,
            ws_url,
            aave_protocol_data_provider: Address::new(AAVE_PROTOCOL_DATA_PROVIDER),
            aave_oracle: Address::new(AAVE_ORACLE),
        }
    }
}

} // verus!
