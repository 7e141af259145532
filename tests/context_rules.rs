use golem::buffer::{Buffer, BufferWrite};
use golem::draw::{plan_draw, program_is_current, shader_status, DrawCall};
use golem::objects::{
    color_format, geometry_mode, texture_unit, texture_upload, ColorFormat, GeometryType,
    TextureUpload,
};
use golem::GolemError;

#[test]
fn new_buffer_is_empty() {
    let b = Buffer::new(7);
    assert_eq!(b.id(), 7);
    assert_eq!(b.length(), 0);
}

#[test]
fn buffer_grows_to_twice_the_end_of_the_data() {
    let mut b = Buffer::new(1);
    let w = b.prepare_write(0, 4, 12).unwrap();
    assert_eq!(w, BufferWrite { grow_to: Some(24), keep: 0, offset: 0 });
    assert_eq!(b.length(), 24);
    let w = b.prepare_write(1, 4, 8).unwrap();
    assert_eq!(w, BufferWrite { grow_to: None, keep: 0, offset: 4 });
    assert_eq!(b.length(), 24);
    let w = b.prepare_write(3, 4, 12).unwrap();
    assert_eq!(w, BufferWrite { grow_to: None, keep: 0, offset: 12 });
    let w = b.prepare_write(4, 4, 12).unwrap();
    assert_eq!(w, BufferWrite { grow_to: Some(56), keep: 24, offset: 16 });
    assert_eq!(b.length(), 56);
    assert_eq!(b.id(), 1);
}

#[test]
fn empty_write_to_empty_buffer_does_not_grow() {
    let mut b = Buffer::new(2);
    assert_eq!(b.prepare_write(0, 4, 0).unwrap(), BufferWrite { grow_to: None, keep: 0, offset: 0 });
    assert_eq!(b.length(), 0);
}

#[test]
fn buffer_too_large_fails_and_keeps_its_size() {
    let mut b = Buffer::new(3);
    b.prepare_write(0, 1, 10).unwrap();
    assert!(matches!(b.prepare_write(0, 1, 1_073_741_824), Err(GolemError::ContextError(_))));
    assert_eq!(b.length(), 20);
    assert!(matches!(b.prepare_write(usize::MAX, 4, 1), Err(GolemError::ContextError(_))));
    assert_eq!(b.length(), 20);
    let w = b.prepare_write(0, 1, 1_073_741_823).unwrap();
    assert_eq!(w.grow_to, Some(2_147_483_646));
    assert_eq!(w.keep, 20);
}

#[test]
fn draw_without_a_program_fails() {
    assert!(matches!(plan_draw(0, 0, 3, GeometryType::Triangles), Err(GolemError::NoBoundProgram)));
}

#[test]
fn draw_gives_mode_count_and_byte_offset() {
    assert_eq!(
        plan_draw(3, 0, 3, GeometryType::Triangles).unwrap(),
        DrawCall { mode: 0x0004, count: 3, offset: 0 }
    );
    assert_eq!(
        plan_draw(3, 2, 5, GeometryType::Lines).unwrap(),
        DrawCall { mode: 0x0001, count: 3, offset: 8 }
    );
    assert_eq!(
        plan_draw(1, 4, 4, GeometryType::Points).unwrap(),
        DrawCall { mode: 0x0000, count: 0, offset: 16 }
    );
}

#[test]
fn draw_range_too_large_fails() {
    assert!(matches!(
        plan_draw(1, 0, 2_147_483_648, GeometryType::Triangles),
        Err(GolemError::ContextError(_))
    ));
    assert!(matches!(
        plan_draw(1, 536_870_912, 536_870_912, GeometryType::Triangles),
        Err(GolemError::ContextError(_))
    ));
    assert_eq!(
        plan_draw(1, 536_870_911, 536_870_912, GeometryType::Triangles).unwrap().offset,
        2_147_483_644
    );
}

#[test]
fn reversed_draw_range_fails() {
    assert!(matches!(plan_draw(1, 3, 2, GeometryType::Triangles), Err(GolemError::ContextError(_))));
    assert!(matches!(plan_draw(0, 3, 2, GeometryType::Triangles), Err(GolemError::NoBoundProgram)));
}

#[test]
fn geometry_modes_match_the_driver() {
    assert_eq!(geometry_mode(GeometryType::Points), 0x0000);
    assert_eq!(geometry_mode(GeometryType::Lines), 0x0001);
    assert_eq!(geometry_mode(GeometryType::LineLoop), 0x0002);
    assert_eq!(geometry_mode(GeometryType::LineStrip), 0x0003);
    assert_eq!(geometry_mode(GeometryType::Triangles), 0x0004);
    assert_eq!(geometry_mode(GeometryType::TriangleStrip), 0x0005);
    assert_eq!(geometry_mode(GeometryType::TriangleFan), 0x0006);
    assert_eq!(color_format(ColorFormat::RGB), 0x1907);
    assert_eq!(color_format(ColorFormat::RGBA), 0x1908);
}

#[test]
fn program_identity_is_compared_by_handle() {
    assert!(program_is_current(5, 5));
    assert!(!program_is_current(5, 6));
    assert!(!program_is_current(0, 6));
    assert!(program_is_current(-1, u32::MAX));
    assert!(!program_is_current(-2, u32::MAX));
}

#[test]
fn shader_status_keeps_the_driver_message() {
    assert!(shader_status(true, String::from("unused")).is_ok());
    match shader_status(false, String::from("0:1: syntax error")) {
        Err(GolemError::ShaderCompilationError(info)) => assert_eq!(info, "0:1: syntax error"),
        _ => panic!("expected a compilation error"),
    }
}

#[test]
fn texture_sizes_are_checked_against_the_driver_limit() {
    assert_eq!(
        texture_upload(640, 480, ColorFormat::RGBA, 4096).unwrap(),
        TextureUpload { format: 0x1908, width: 640, height: 480 }
    );
    assert_eq!(
        texture_upload(4096, 4096, ColorFormat::RGB, 4096).unwrap(),
        TextureUpload { format: 0x1907, width: 4096, height: 4096 }
    );
    assert!(matches!(texture_upload(4097, 1, ColorFormat::RGB, 4096), Err(GolemError::ContextError(_))));
    assert!(matches!(texture_upload(1, 4097, ColorFormat::RGB, 4096), Err(GolemError::ContextError(_))));
    assert!(matches!(texture_upload(0, 0, ColorFormat::RGB, -1), Err(GolemError::ContextError(_))));
}

#[test]
fn texture_units_follow_texture0() {
    assert_eq!(texture_unit(0), Some(0x84C0));
    assert_eq!(texture_unit(3), Some(0x84C3));
    assert_eq!(texture_unit(u32::MAX), None);
}

#[test]
fn string_errors_are_context_errors() {
    match GolemError::from(String::from("no context")) {
        GolemError::ContextError(m) => assert_eq!(m, "no context"),
        _ => panic!("expected a context error"),
    }
}
