//! Bar-chart minigame logic: a row of bars laid out from configuration, bars
//! whose height moves with their base held in place, and click counters that
//! push their value to one bar each, optionally drawing on a shared pool.

pub mod controller;
pub mod graph;
pub mod player;
