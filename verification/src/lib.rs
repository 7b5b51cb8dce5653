//! Diagram platform core: providers, registries, configuration, rendering
//! policies (circuit breaker, rate limiting, authentication) and conversions.
pub mod assoc;
pub mod auth;
pub mod browser;
pub mod capabilities;
pub mod circuit_breaker;
pub mod cli;
pub mod config;
pub mod conversion;
pub mod encoding;
pub mod error;
pub mod fonts;
pub mod laws;
pub mod order;
pub mod parse;
pub mod paths;
pub mod ports;
pub mod providers;
pub mod rate_limit;
pub mod services;
pub mod text;
pub mod transport;

pub use capabilities::{CapabilityRegistry, ProviderCategory, ProviderMetadata, RuntimeDependency};
pub use error::{DiagramError, DiagramResult};
pub use ports::{DiagramOptions, DiagramProvider, DiagramRequest, DiagramResponse, OutputFormat};
pub use providers::{
    BpmnProvider, D2Provider, DitaaProvider, EchoProvider, ExcalidrawProvider, GraphvizProvider,
    MermaidProvider, Provider, VegaLiteProvider, VegaProvider, WavedromProvider,
};
pub use services::{render_with_registry, DiagramRegistry};
