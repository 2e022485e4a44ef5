//! Verified core of a small self-hosted HTTP text-to-speech bridge for the
//! Legado reader: configuration checks, token authentication, Legado profile
//! generation, and the retry and time-budget decisions around upstream
//! speech synthesis.

pub mod config;
pub mod error;
pub mod http;
pub mod legado;
pub mod services;
pub mod state;
pub mod text;
