//! A declarative toolkit for assembling shell surfaces: persistent
//! multi-segment bars and transient overlay plates, anchored to the edges of
//! an output. The library turns a tree of tagged elements plus an
//! anchor/margin configuration into a realization plan that an embedder
//! carries out against the host toolkit, including the timed self-dismissal
//! of transient surfaces.

pub mod anchoring;
pub mod bar;
pub mod builder;
pub mod plate;
pub mod config;
pub mod lifecycle;
pub mod tags;
