//! A host-side chain execution engine for sandboxed, user-supplied transform
//! programs. An ordered chain of guest modules is instantiated inside a
//! linear-memory sandbox; record batches are marshaled across the host/guest
//! boundary, each stage's output becoming the next stage's input, with
//! short-circuit-on-error semantics and a closed error-code taxonomy.
//!
//! Everything the host decides — the wire protocol around each guest call, the
//! init handshake, transform discovery, the output-callback slot discipline and
//! the chain composition — is verified here. The sandbox runtime itself and the
//! versioned wire codec are outside collaborators, reached only through a small
//! set of trusted declarations.

pub mod codec;
pub mod config;
pub mod engine;
pub mod error;
pub mod guest;
pub mod init;
pub mod instance;
pub mod memory;
pub mod metrics;
pub mod records;
pub mod transforms;

pub use config::SmartModuleConfig;
pub use config::SmartModuleConfigBuilder;
pub use config::SmartModuleExtraParams;
pub use config::SmartModuleInitialData;
pub use engine::SmartEngine;
pub use engine::SmartModuleChainBuilder;
pub use engine::SmartModuleChainInstance;
pub use error::EngineError;
pub use error::SmartModuleInitErrorStatus;
pub use error::SmartModuleTransformErrorStatus;
pub use metrics::SmartModuleChainMetrics;
pub use records::Record;
pub use records::SmartModuleInput;
pub use records::SmartModuleOutput;
pub use records::SmartModuleTransformError;
