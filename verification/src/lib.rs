pub mod client;
pub mod logger;
pub mod network;
pub mod rich_text;
pub mod server;
pub mod util;
