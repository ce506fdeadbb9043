use vstd::prelude::*;

pub mod admin;
pub mod archive;
pub mod codec;
pub mod config;
pub mod digest;
pub mod enrich;
pub mod error;
pub mod llm;
pub mod media;
pub mod ops;
pub mod preprocess;
pub mod receiver;
pub mod source;
pub mod status;
pub mod store;
pub mod text;
pub mod wechat;
pub mod worker;

verus! {

} // verus!
