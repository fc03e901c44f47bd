//! Core of a terminal tool for editing the dependency list of a Maven build
//! descriptor while searching a remote package registry.
//!
//! The crate holds the event-driven control loop's logic: translation of raw
//! key input into semantic intents, the pure state reducer that applies an
//! intent to the application state and schedules side effects, the decision
//! functions of the effect orchestrator, and the dependency-document model
//! that reads and rewrites the XML tree. Terminal rendering, network calls
//! and the async plumbing live outside this crate and drive it through the
//! public functions here.

pub mod app;
pub mod dependency;
pub mod events;
pub mod list;
pub mod maven_registry;
pub mod views;
pub mod xml;
