//! What every request handler shares: the settings and the synthesis service.

use std::sync::Arc;

use vstd::prelude::*;

use edge_tts_rust::EdgeTtsClient;

use crate::config::Config;
use crate::services::tts::TtsService;

verus! {

/// The settings and the synthesis service, shared by all handlers.
#[derive(Debug, Clone)]
pub struct AppState {
    pub config: Arc<Config>,
    pub tts_service: Arc<TtsService>,
}

impl AppState {
    /// The shared state for `config` from the outcome of building an
    /// upstream client: with these settings and a synthesis service holding
    /// that client when it was built, else the same error.
    pub fn with_client(config: Config, client: Result<EdgeTtsClient, edge_tts_rust::Error>) -> (res:
        Result<Self, edge_tts_rust::Error>)
        ensures
            match client {
                Ok(c) => res matches Ok(state) && *state.config == config
                    && state.tts_service.tts_config() == config.tts
                    && state.tts_service.edge_client() == c,
                Err(e) => res matches Err(e2) && e2 == e,
            },
    {
        let tts_service = TtsService::with_client(client, config.tts.clone())?;
        Ok(AppState { config: Arc::new(config), tts_service: Arc::new(tts_service) })
    }
}

} // verus!
