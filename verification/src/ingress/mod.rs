//! Where downstreams that speak SV2 come in.
pub mod sv2_ingress;
