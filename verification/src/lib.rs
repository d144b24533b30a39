//! The decisions of a Stratum proxy.
//!
//! The proxy stands between miners and a pool. Miners that speak SV1 are routed by the token that
//! they mine for, miners that speak SV2 come in directly, and the pool is reached over a single
//! extended channel. The modules decide what each message and event comes to; sockets, tasks,
//! locks and clocks are the business of the caller, who acts and reports back.
//!
//! - [`ban`], [`pending_extranonce`]: what is remembered about addresses
//! - [`token_router`], with [`sv1`]: SV1 miners, from their first message to their last
//! - [`ingress`]: the way in for SV2 miners of the translator
//! - [`translator`]: the channels of such a miner
//! - [`sv2_proxy`], with [`target`]: SV2 miners with standard channels, and the pool
//! - [`keys`], [`messages`], [`net`], [`linear_map`], [`flow`]: what the others share
pub mod ban;
pub mod flow;
pub mod ingress;
pub mod keys;
pub mod linear_map;
pub mod messages;
pub mod net;
pub mod pending_extranonce;
pub mod sv1;
pub mod sv2_proxy;
pub mod target;
pub mod token_router;
pub mod translator;
