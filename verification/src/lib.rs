//! Competitor resolution and arena configuration for a multi-competitor
//! tournament.
//!
//! The library turns an ordered selection of competitor project directories
//! into a fully specified, validated launch configuration for an external
//! arena engine, and drives the run, watch and update command modes.
//! Everything that touches the world — prompts, the filesystem, the build
//! toolchain, the engine's blocking launch — is an external collaborator:
//! callers observe the world and report outcomes, while every decision
//! (classification, fail-fast ordering, accumulation, validation) is made
//! and proved here.

pub mod arena;
pub mod launch;
pub mod pipeline;
pub mod project;
pub mod settings;
pub mod update;
