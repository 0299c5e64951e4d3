pub mod access;
pub mod host;
pub mod inheritance;
pub mod lending;
pub mod list;
pub mod math;
pub mod nft;
pub mod table;
