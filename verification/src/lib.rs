pub mod button;
pub mod client;
pub mod contract_env;
pub mod elections;
pub mod erc20;
pub mod light_client;
pub mod network;
pub mod router;
pub mod scale;
pub mod service;
pub mod peers;
pub mod proposal;
pub mod session;
pub mod yellow_button;
