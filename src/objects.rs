//! Geometry kinds, texture formats and the parameters handed to the driver
//! for them.
use vstd::prelude::*;
use vstd::string::StringExecFns;

use crate::gl;
use crate::GolemError;

verus! {

/// The primitive that a draw call assembles from its indices.
#[derive(Clone, Copy, Debug, PartialEq, Eq, Structural)]
pub enum GeometryType {
    Points,
    Lines,
    LineStrip,
    LineLoop,
    TriangleStrip,
    TriangleFan,
    Triangles,
}

/// The layout of the pixels of an image.
#[derive(Clone, Copy, Debug, PartialEq, Eq, Structural)]
pub enum ColorFormat {
    RGB,
    RGBA,
}

pub open spec fn spec_geometry_mode(g: GeometryType) -> u32 {
    match g {
        GeometryType::Points => gl::POINTS,
        GeometryType::Lines => gl::LINES,
        GeometryType::LineStrip => gl::LINE_STRIP,
        GeometryType::LineLoop => gl::LINE_LOOP,
        GeometryType::TriangleStrip => gl::TRIANGLE_STRIP,
        GeometryType::TriangleFan => gl::TRIANGLE_FAN,
        GeometryType::Triangles => gl::TRIANGLES,
    }
}

pub open spec fn spec_color_format(c: ColorFormat) -> u32 {
    match c {
        ColorFormat::RGB => gl::RGB,
        ColorFormat::RGBA => gl::RGBA,
    }
}

/// The driver's drawing mode for a kind of geometry.
pub fn geometry_mode(g: GeometryType) -> (r: u32)
    ensures
        r == spec_geometry_mode(g),
{
    match g {
        GeometryType::Points => gl::POINTS,
        GeometryType::Lines => gl::LINES,
        GeometryType::LineStrip => gl::LINE_STRIP,
        GeometryType::LineLoop => gl::LINE_LOOP,
        GeometryType::TriangleStrip => gl::TRIANGLE_STRIP,
        GeometryType::TriangleFan => gl::TRIANGLE_FAN,
        GeometryType::Triangles => gl::TRIANGLES,
    }
}

/// The driver's name for a pixel layout.
pub fn color_format(c: ColorFormat) -> (r: u32)
    ensures
        r == spec_color_format(c),
{
    match c {
        ColorFormat::RGB => gl::RGB,
        ColorFormat::RGBA => gl::RGBA,
    }
}

/// What the driver is told when an image is uploaded to a texture.
#[derive(Clone, Copy, Debug, PartialEq, Eq, Structural)]
pub struct TextureUpload {
    /// The pixel layout of the image.
    pub format: u32,
    pub width: i32,
    pub height: i32,
}

/// Checks the size of an image against the driver's largest texture size,
/// `max_size`, and gives the upload parameters. Fails when a side is larger.
pub fn texture_upload(width: u32, height: u32, color: ColorFormat, max_size: i32) -> (r: Result<
    TextureUpload,
    GolemError,
>)
    ensures
        r is Ok <==> (width <= max_size && height <= max_size),
        r is Err ==> r->Err_0 is ContextError,
        r matches Ok(u) ==> u == (TextureUpload {
            format: spec_color_format(color),
            width: width as i32,
            height: height as i32,
        }),
{
    if max_size < 0 || width > max_size as u32 || height > max_size as u32 {
        Err(GolemError::ContextError(String::from_str("texture larger than the driver allows")))
    } else {
        Ok(TextureUpload { format: color_format(color), width: width as i32, height: height as i32 })
    }
}

/// The driver's name for texture unit `unit`, where there is one.
pub fn texture_unit(unit: u32) -> (r: Option<u32>)
    ensures
        r == (if gl::TEXTURE0 + unit <= u32::MAX {
            Some((gl::TEXTURE0 + unit) as u32)
        } else {
            None::<u32>
        }),
{
    gl::TEXTURE0.checked_add(unit)
}

} // verus!
