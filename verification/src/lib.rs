//! Compositing core of a live visual-performance engine.
//!
//! Independent visual sources ("clips") render into frame buffers of their
//! own. Layers select one clip each and blend it over the output of the
//! layer below; the output of the topmost layer is the final composite.
//! Everything here is stated over plain values and proved against the
//! contracts of the functions.

pub mod error;
pub mod blend;
pub mod weight;
pub mod color;
pub mod image;
pub mod clip;
pub mod address;
pub mod entity;
pub mod message;
pub mod clip_layer;
pub mod clip_rendering;
pub mod bundles;
pub mod control;
pub mod frame;
pub mod visibility;
pub mod selection;
pub mod deck;
pub mod beat;
pub mod output_target;
pub mod plugin;
pub mod render;
