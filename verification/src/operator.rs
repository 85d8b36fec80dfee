//! Operator metadata: output and parameter classifications, their mapping
//! from the engine's raw enums, texture descriptions, and the operator type
//! registry's entries.

use vstd::prelude::*;

use crate::status::VividOutputKind;
use crate::status::VividParamType;

verus! {

/// Output type classification for operators.
#[derive(Debug, Clone, Copy, PartialEq, Eq, Structural)]
pub enum OutputKind {
    Texture,
    CpuPixels,
    Value,
    ValueArray,
    Geometry,
    Camera,
    Light,
    Audio,
    AudioValue,
    Event,
}

impl core::convert::From<VividOutputKind> for OutputKind {
    fn from(kind: VividOutputKind) -> OutputKind {
        match kind {
            VividOutputKind::Texture => OutputKind::Texture,
            VividOutputKind::CpuPixels => OutputKind::CpuPixels,
            VividOutputKind::Value => OutputKind::Value,
            VividOutputKind::ValueArray => OutputKind::ValueArray,
            VividOutputKind::Geometry => OutputKind::Geometry,
            VividOutputKind::Camera => OutputKind::Camera,
            VividOutputKind::Light => OutputKind::Light,
            VividOutputKind::Audio => OutputKind::Audio,
            VividOutputKind::AudioValue => OutputKind::AudioValue,
            VividOutputKind::Event => OutputKind::Event,
        }
    }
}

impl vstd::std_specs::convert::FromSpecImpl<VividOutputKind> for OutputKind {
    open spec fn obeys_from_spec() -> bool {
        true
    }

    open spec fn from_spec(kind: VividOutputKind) -> OutputKind {
        match kind {
            VividOutputKind::Texture => OutputKind::Texture,
            VividOutputKind::CpuPixels => OutputKind::CpuPixels,
            VividOutputKind::Value => OutputKind::Value,
            VividOutputKind::ValueArray => OutputKind::ValueArray,
            VividOutputKind::Geometry => OutputKind::Geometry,
            VividOutputKind::Camera => OutputKind::Camera,
            VividOutputKind::Light => OutputKind::Light,
            VividOutputKind::Audio => OutputKind::Audio,
            VividOutputKind::AudioValue => OutputKind::AudioValue,
            VividOutputKind::Event => OutputKind::Event,
        }
    }
}

impl OutputKind {
    /// The name this kind goes by in bridge payloads.
    pub open spec fn spec_label(self) -> Seq<char> {
        match self {
            OutputKind::Texture => "Texture"@,
            OutputKind::CpuPixels => "CpuPixels"@,
            OutputKind::Value => "Value"@,
            OutputKind::ValueArray => "ValueArray"@,
            OutputKind::Geometry => "Geometry"@,
            OutputKind::Camera => "Camera"@,
            OutputKind::Light => "Light"@,
            OutputKind::Audio => "Audio"@,
            OutputKind::AudioValue => "AudioValue"@,
            OutputKind::Event => "Event"@,
        }
    }

    /// The name this kind goes by in bridge payloads.
    pub fn label(&self) -> (s: &'static str)
        ensures
            s@ == self.spec_label(),
    {
        match self {
            OutputKind::Texture => "Texture",
            OutputKind::CpuPixels => "CpuPixels",
            OutputKind::Value => "Value",
            OutputKind::ValueArray => "ValueArray",
            OutputKind::Geometry => "Geometry",
            OutputKind::Camera => "Camera",
            OutputKind::Light => "Light",
            OutputKind::Audio => "Audio",
            OutputKind::AudioValue => "AudioValue",
            OutputKind::Event => "Event",
        }
    }
}

/// Parameter types.
#[derive(Debug, Clone, Copy, PartialEq, Eq, Structural)]
pub enum ParamType {
    Float,
    Int,
    Bool,
    Vec2,
    Vec3,
    Vec4,
    Color,
    Text,
    FilePath,
    Enum,
    Adsr,
    DeviceList,
}

impl core::convert::From<VividParamType> for ParamType {
    fn from(ty: VividParamType) -> ParamType {
        match ty {
            VividParamType::Float => ParamType::Float,
            VividParamType::Int => ParamType::Int,
            VividParamType::Bool => ParamType::Bool,
            VividParamType::Vec2 => ParamType::Vec2,
            VividParamType::Vec3 => ParamType::Vec3,
            VividParamType::Vec4 => ParamType::Vec4,
            VividParamType::Color => ParamType::Color,
            VividParamType::Text => ParamType::Text,
            VividParamType::FilePath => ParamType::FilePath,
            VividParamType::Enum => ParamType::Enum,
            VividParamType::Adsr => ParamType::Adsr,
            VividParamType::DeviceList => ParamType::DeviceList,
        }
    }
}

impl vstd::std_specs::convert::FromSpecImpl<VividParamType> for ParamType {
    open spec fn obeys_from_spec() -> bool {
        true
    }

    open spec fn from_spec(ty: VividParamType) -> ParamType {
        match ty {
            VividParamType::Float => ParamType::Float,
            VividParamType::Int => ParamType::Int,
            VividParamType::Bool => ParamType::Bool,
            VividParamType::Vec2 => ParamType::Vec2,
            VividParamType::Vec3 => ParamType::Vec3,
            VividParamType::Vec4 => ParamType::Vec4,
            VividParamType::Color => ParamType::Color,
            VividParamType::Text => ParamType::Text,
            VividParamType::FilePath => ParamType::FilePath,
            VividParamType::Enum => ParamType::Enum,
            VividParamType::Adsr => ParamType::Adsr,
            VividParamType::DeviceList => ParamType::DeviceList,
        }
    }
}

impl ParamType {
    /// The name this type goes by in bridge payloads.
    pub open spec fn spec_label(self) -> Seq<char> {
        match self {
            ParamType::Float => "Float"@,
            ParamType::Int => "Int"@,
            ParamType::Bool => "Bool"@,
            ParamType::Vec2 => "Vec2"@,
            ParamType::Vec3 => "Vec3"@,
            ParamType::Vec4 => "Vec4"@,
            ParamType::Color => "Color"@,
            ParamType::Text => "Text"@,
            ParamType::FilePath => "FilePath"@,
            ParamType::Enum => "Enum"@,
            ParamType::Adsr => "Adsr"@,
            ParamType::DeviceList => "DeviceList"@,
        }
    }

    /// The name this type goes by in bridge payloads.
    pub fn label(&self) -> (s: &'static str)
        ensures
            s@ == self.spec_label(),
    {
        match self {
            ParamType::Float => "Float",
            ParamType::Int => "Int",
            ParamType::Bool => "Bool",
            ParamType::Vec2 => "Vec2",
            ParamType::Vec3 => "Vec3",
            ParamType::Vec4 => "Vec4",
            ParamType::Color => "Color",
            ParamType::Text => "Text",
            ParamType::FilePath => "FilePath",
            ParamType::Enum => "Enum",
            ParamType::Adsr => "Adsr",
            ParamType::DeviceList => "DeviceList",
        }
    }
}

/// Texture information.
#[derive(Debug, Clone, PartialEq, Eq)]
pub struct TextureInfo {
    pub width: u32,
    pub height: u32,
    pub format: i32,
    pub has_alpha: bool,
}

/// Assemble texture information from the engine's raw description, whose
/// dimensions arrive as signed integers.
pub fn texture_info_from_raw(width: i32, height: i32, format: i32, has_alpha: bool) -> (info:
    TextureInfo)
    ensures
        info.width == width as u32,
        info.height == height as u32,
        info.format == format,
        info.has_alpha == has_alpha,
{
    TextureInfo {
        width: #[verifier::truncate] (width as u32),
        height: #[verifier::truncate] (height as u32),
        format,
        has_alpha,
    }
}

/// Information about a registered operator type.
#[derive(Debug, Clone, PartialEq, Eq)]
pub struct RegistryEntry {
    pub name: String,
    pub category: String,
}

/// The registry entry for one probed slot: a slot without a name is skipped,
/// and a name without a category is filed under "Unknown".
pub fn registry_entry_from_parts(name: Option<String>, category: Option<String>) -> (entry:
    Option<RegistryEntry>)
    ensures
        match name {
            None => entry is None,
            Some(n) => match entry {
                Some(e) => e.name == n && (match category {
                    Some(c) => e.category == c,
                    None => e.category@ == "Unknown"@,
                }),
                None => false,
            },
        },
{
    match name {
        None => None,
        Some(n) => Some(
            RegistryEntry {
                name: n,
                category: match category {
                    Some(c) => c,
                    None => String::from_str("Unknown"),
                },
            },
        ),
    }
}

} // verus!
