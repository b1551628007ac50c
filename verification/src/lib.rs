pub mod errors;
pub mod hexcode;
pub mod digest;
pub mod stream;
pub mod header;
pub mod meta;
pub mod txn;
pub mod filemsg;
pub mod storage;
pub mod session;
