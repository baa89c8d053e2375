//! Verified core of the OpenMedia tool suite: text and markup
//! generation, SVG editing, model registry lookups, prompt refinement,
//! request defaults and frame transitions.

pub mod animate;
pub mod chart;
pub mod commands;
pub mod error;
pub mod frames;
pub mod imaging;
pub mod improve;
pub mod markup;
pub mod models;
pub mod requests;
pub mod svg_edit;
pub mod text;
pub mod tools;
pub mod video;
