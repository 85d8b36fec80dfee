//! A desktop-shell support library built around an interactive process I/O
//! multiplexer: a registry of pseudo-terminal-backed shell sessions, the
//! per-session reader that turns raw byte streams into discrete events, and a
//! one-shot capture controller that routes the process's own standard streams
//! into the same event pipeline. The surrounding data model for the rendering
//! engine (status codes, operator metadata, configuration, bridge payloads)
//! lives here as well.

pub mod bridge;
pub mod capture;
pub mod context;
pub mod error;
pub mod operator;
pub mod pty;
pub mod reader;
pub mod status;
pub mod text;

pub use bridge::BundleOptions;
pub use bridge::BundleResult;
pub use bridge::CompileStatusInfo;
pub use bridge::CompileStatusPayload;
pub use bridge::OperatorInfo;
pub use bridge::OperatorSelectedPayload;
pub use bridge::ProjectInfo;
pub use bridge::VividInitializedPayload;
pub use capture::CaptureController;
pub use capture::LineBuffer;
pub use capture::OutputPayload;
pub use context::CompileStatus;
pub use context::ContextConfig;
pub use error::check_result;
pub use error::Error;
pub use operator::OutputKind;
pub use operator::ParamType;
pub use operator::RegistryEntry;
pub use operator::TextureInfo;
pub use pty::PtyError;
pub use pty::PtyManager;
pub use reader::PtyEvent;
pub use reader::ReadOutcome;
pub use status::VividOutputKind;
pub use status::VividParamType;
pub use status::VividResult;
