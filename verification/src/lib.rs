//! The logic of a terminal application that searches, plays and downloads films and series.
pub mod basic_laws;
pub mod download;
pub mod json;
pub mod numbers;
pub mod outside;
pub mod providers;
pub mod strings;
pub mod transfer;
pub mod tui;
