//! A flower-breeding engine and the terminal pieces it draws with.
//!
//! The heart of the crate is [`genetics`]: heritable state across three
//! inheritance models, stochastic crossing of compatible genotypes, and the
//! deterministic base-3 encoding of an all-Mendelian genotype into a trait
//! lookup index. [`flower`] and [`acnh_flowers`] resolve a genotype to a
//! visible trait through per-species color tables; [`terminal`], [`ui`] and
//! [`display`] build the styled text and the screen buffer it is drawn on.

pub mod genetics;
pub mod terminal;
pub mod ui;
pub mod display;
pub mod flower;
pub mod acnh_flowers;
