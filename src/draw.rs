//! The decisions a context makes around the driver: whether a stage built,
//! which program is bound, and what a draw call asks of the driver.
use vstd::prelude::*;
use vstd::string::StringExecFns;

use crate::objects::{geometry_mode, spec_geometry_mode, GeometryType};
use crate::GolemError;

verus! {

/// The bytes of one index of an element buffer; indices are `u32`.
pub const INDEX_BYTES: usize = 4;

/// Turns the driver's verdict on compiling or linking a shader into a
/// result, keeping the driver's message on failure.
pub fn shader_status(succeeded: bool, info: String) -> (r: Result<(), GolemError>)
    ensures
        succeeded ==> r == Ok::<(), GolemError>(()),
        !succeeded ==> r == Err::<(), GolemError>(GolemError::ShaderCompilationError(info)),
{
    if succeeded {
        Ok(())
    } else {
        Err(GolemError::ShaderCompilationError(info))
    }
}

/// Whether the program the driver reports as current is the one with
/// handle `id`. The driver reports handles through an `i32` query, so a
/// handle above `i32::MAX` comes back wrapped; `id` is read the same way.
pub fn program_is_current(current: i32, id: u32) -> (r: bool)
    ensures
        r == (current == id as i32),
{
    current == id as i32
}

/// The arguments of one indexed draw call.
#[derive(Clone, Copy, Debug, PartialEq, Eq, Structural)]
pub struct DrawCall {
    /// The driver's drawing mode.
    pub mode: u32,
    /// The number of indices drawn.
    pub count: i32,
    /// The byte offset of the first index in the element buffer.
    pub offset: i32,
}

/// Whether `start..end` is a range of indices that can be told to the
/// driver, which takes their count and byte offset as `i32`.
pub open spec fn draw_fits(start: int, end: int) -> bool {
    &&& start <= end
    &&& end - start <= i32::MAX
    &&& INDEX_BYTES * start <= i32::MAX
}

/// Plans drawing the indices `start..end` of the bound element buffer as
/// `geometry`, given the handle of the current program (0 when none is
/// bound). Fails when no program is bound, or when the range is reversed or
/// too large for the driver.
pub fn plan_draw(current_program: i32, start: usize, end: usize, geometry: GeometryType) -> (r:
    Result<DrawCall, GolemError>)
    ensures
        current_program == 0 ==> r == Err::<DrawCall, GolemError>(GolemError::NoBoundProgram),
        current_program != 0 && draw_fits(start as int, end as int) ==> r == Ok::<
            DrawCall,
            GolemError,
        >(
            DrawCall {
                mode: spec_geometry_mode(geometry),
                count: (end - start) as i32,
                offset: (INDEX_BYTES * start) as i32,
            },
        ),
        current_program != 0 && !draw_fits(start as int, end as int) ==> r is Err
            && r->Err_0 is ContextError,
{
    if current_program == 0 {
        return Err(GolemError::NoBoundProgram);
    }
    if start > end {
        return Err(GolemError::ContextError(String::from_str("draw range is reversed")));
    }
    let count = end - start;
    let limit: usize = i32::MAX as usize;
    if count > limit || start > limit / INDEX_BYTES {
        return Err(GolemError::ContextError(String::from_str("draw range too large")));
    }
    Ok(DrawCall { mode: geometry_mode(geometry), count: count as i32, offset: (INDEX_BYTES * start) as i32 })
}

} // verus!
