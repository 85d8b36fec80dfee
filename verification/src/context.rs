//! Context configuration and compilation status: the plain-data side of the
//! engine context. The context handle itself, and the foreign calls against
//! it, live with the host; the decisions about what those calls' raw results
//! mean are made here.

use vstd::prelude::*;

verus! {

/// Configuration for creating an engine context.
#[derive(Debug, Clone, PartialEq, Eq)]
pub struct ContextConfig {
    /// Render width in pixels.
    pub width: u32,
    /// Render height in pixels.
    pub height: u32,
    /// Enable graphics validation (debug mode).
    pub enable_validation: bool,
}

impl ContextConfig {
    /// Create a new context config with the given resolution.
    pub fn new(width: u32, height: u32) -> (c: Self)
        ensures
            c.width == width,
            c.height == height,
            !c.enable_validation,
    {
        ContextConfig { width, height, enable_validation: false }
    }

    /// Enable validation mode.
    pub fn with_validation(self, enable: bool) -> (c: Self)
        ensures
            c.width == self.width,
            c.height == self.height,
            c.enable_validation == enable,
    {
        ContextConfig { width: self.width, height: self.height, enable_validation: enable }
    }
}

impl core::default::Default for ContextConfig {
    /// The default configuration: 1280 by 720, validation off.
    fn default() -> (c: Self)
        ensures
            c.width == 1280,
            c.height == 720,
            !c.enable_validation,
    {
        ContextConfig::new(1280, 720)
    }
}

/// Compilation status information.
#[derive(Debug, Clone, PartialEq, Eq)]
pub struct CompileStatus {
    /// Whether compilation succeeded.
    pub success: bool,
    /// Error message (if failed).
    pub message: Option<String>,
    /// Line number of first error.
    pub error_line: Option<u32>,
    /// Column of first error.
    pub error_column: Option<u32>,
}

/// Assemble the compilation status from the engine's raw report, in which a
/// non-positive line or column means "none".
pub fn compile_status_from_raw(
    success: bool,
    message: Option<String>,
    error_line: i32,
    error_column: i32,
) -> (status: CompileStatus)
    ensures
        status.success == success,
        status.message == message,
        status.error_line == (if error_line > 0 {
            Some(error_line as u32)
        } else {
            None::<u32>
        }),
        status.error_column == (if error_column > 0 {
            Some(error_column as u32)
        } else {
            None::<u32>
        }),
{
    CompileStatus {
        success,
        message,
        error_line: if error_line > 0 {
            Some(error_line as u32)
        } else {
            None
        },
        error_column: if error_column > 0 {
            Some(error_column as u32)
        } else {
            None
        },
    }
}

} // verus!
