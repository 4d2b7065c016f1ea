//! Seed recovery and outcome forecasting for a 48-bit linear congruential
//! generator, as used by a block game's enchanting mechanic.
//!
//! The crate models the generator exactly (`rng`), verifies candidate seeds
//! against observed outcome triples, recovers full hidden states from partial
//! observations (`manipulator`), and forecasts the cheapest sequence of
//! actions that produces a wished-for enchantment outcome.

pub mod rng;
pub mod cracker;
pub mod catalog;
pub mod fround;
pub mod enchant;
pub mod manipulator;
pub mod utilities;
