//! Service configuration handed to the process at startup.

use vstd::prelude::*;

verus! {

/// Which coaching backend a deployment is entitled to.
#[derive(Debug, Clone, Copy, PartialEq, Eq, Structural)]
pub enum AITier {
    Free,
    Paid,
    Premium,
}

/// Startup configuration.  The surrounding process fills this in from its
/// environment; the library only carries the plain values.
#[derive(Debug, Clone)]
pub struct AppConfig {
    pub host: String,
    pub port: u16,
    pub database_url: String,
    pub jwt_secret: String,
    pub ollama_host: String,
    pub ai_tier: AITier,
}

} // verus!
