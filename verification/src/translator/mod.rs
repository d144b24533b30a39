//! The side of the translator that speaks the SV2 mining protocol with downstreams.
pub mod downstream_sv2;
