//! The work behind the endpoints: the Legado profile and speech synthesis.

pub mod legado;
pub mod tts;
