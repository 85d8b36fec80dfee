//! Status codes reported by the rendering engine, together with the
//! classification enums it uses for operator outputs and parameters.

use vstd::prelude::*;

verus! {

/// Result codes for engine API calls.
#[derive(Debug, Clone, Copy, PartialEq, Eq, Structural)]
pub enum VividResult {
    Success,
    ErrorInvalidArgument,
    ErrorNotInitialized,
    ErrorLoadFailed,
    ErrorCompileFailed,
    ErrorNoChain,
    ErrorOperatorNotFound,
    ErrorParamNotFound,
    ErrorInternal,
}

impl VividResult {
    /// Check if the result is Ok.
    pub fn is_ok(self) -> (r: bool)
        ensures
            r == (self == VividResult::Success),
    {
        match self {
            VividResult::Success => true,
            _ => false,
        }
    }

    /// Check if the result is an error.
    pub fn is_err(self) -> (r: bool)
        ensures
            r == (self != VividResult::Success),
    {
        !self.is_ok()
    }
}

/// Output type classification for operators.
#[derive(Debug, Clone, Copy, PartialEq, Eq, Structural)]
pub enum VividOutputKind {
    Texture,
    CpuPixels,
    Value,
    ValueArray,
    Geometry,
    Camera,
    Light,
    Audio,
    AudioValue,
    Event,
}

/// Parameter types for UI and serialization.
#[derive(Debug, Clone, Copy, PartialEq, Eq, Structural)]
pub enum VividParamType {
    Float,
    Int,
    Bool,
    Vec2,
    Vec3,
    Vec4,
    Color,
    Text,
    FilePath,
    Enum,
    Adsr,
    DeviceList,
}

} // verus!
