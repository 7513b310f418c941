//! Calculators for Old School RuneScape: exact binomial probabilities and a
//! model of herb farming that predicts survival, yield, experience and profit.

pub mod binomial_laws;
pub mod chance;
pub mod commands;
pub mod config;
pub mod description;
pub mod diary;
pub mod drops;
pub mod error;
pub mod farm;
pub mod fmt;
pub mod herbs;
pub mod hiscore;
pub mod http;
pub mod item;
pub mod laws;
pub mod magic;
pub mod math;
pub mod model;
pub mod prices;
pub mod ratio;
pub mod reals;
pub mod run;
pub mod skill;
pub mod text;
pub mod xp;
