//! The OpenGL enumerants that the library hands to the driver.
use vstd::prelude::*;

verus! {

pub const POINTS: u32 = 0x0000;
pub const LINES: u32 = 0x0001;
pub const LINE_LOOP: u32 = 0x0002;
pub const LINE_STRIP: u32 = 0x0003;
pub const TRIANGLES: u32 = 0x0004;
pub const TRIANGLE_STRIP: u32 = 0x0005;
pub const TRIANGLE_FAN: u32 = 0x0006;

pub const RGB: u32 = 0x1907;
pub const RGBA: u32 = 0x1908;

pub const TEXTURE0: u32 = 0x84C0;

} // verus!
