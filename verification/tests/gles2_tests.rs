use rafx_render::gles2::api::{device_release_result, RafxApiDefGles2, RafxApiGles2};
use rafx_render::gles2::device_context::{gles2_device_info, RafxDeviceContextGles2Inner};
use rafx_render::text::push_decimal;
use rafx_render::types::{
    RafxError, RafxFormat, RafxResourceType, RafxSampleCount, GL_DEPTH_COMPONENT, GL_RGBA,
    GL_UNSIGNED_BYTE, GL_UNSIGNED_SHORT, RESOURCE_TYPE_RENDER_TARGET_COLOR,
    RESOURCE_TYPE_RENDER_TARGET_DEPTH_STENCIL, RESOURCE_TYPE_TEXTURE,
};
use std::sync::Arc;

#[derive(Debug, PartialEq)]
struct FakeGl(u32);

fn make_api(validate_shaders: bool) -> RafxApiGles2<FakeGl> {
    let def = RafxApiDefGles2 { validate_shaders };
    let inner = RafxDeviceContextGles2Inner::new(FakeGl(7), &def, 4, 16);
    match RafxApiGles2::new(inner) {
        Ok(api) => api,
        Err(_) => panic!("creating the backend failed"),
    }
}

#[test]
fn api_def_default_does_not_validate() {
    assert!(!RafxApiDefGles2::default().validate_shaders);
}

#[test]
fn device_info_from_gl_limits() {
    let info = gles2_device_info(4, 16);
    assert!(!info.supports_multithreaded_usage);
    assert!(!info.debug_names_enabled);
    assert_eq!(info.min_uniform_buffer_offset_alignment, 4);
    assert_eq!(info.min_storage_buffer_offset_alignment, 4);
    assert_eq!(info.upload_texture_alignment, 4);
    assert_eq!(info.upload_texture_row_alignment, 4);
    assert!(!info.supports_clamp_to_border_color);
    assert_eq!(info.max_vertex_attribute_count, 16);
}

#[test]
fn device_info_reinterprets_negative_limits() {
    let info = gles2_device_info(-1, -2);
    assert_eq!(info.min_uniform_buffer_offset_alignment, u32::MAX);
    assert_eq!(info.max_vertex_attribute_count, u32::MAX - 1);
}

#[test]
fn device_context_holds_device_state() {
    let api = make_api(true);
    let context = api.device_context();
    assert_eq!(context.device_info().upload_texture_alignment, 4);
    assert_eq!(context.device_info().max_vertex_attribute_count, 16);
    assert_eq!(*context.gl_context(), FakeGl(7));
    let clone = context.clone();
    assert_eq!(clone.device_info().max_vertex_attribute_count, 16);
}

#[test]
fn inner_keeps_validate_shaders() {
    let def = RafxApiDefGles2 { validate_shaders: true };
    let inner = RafxDeviceContextGles2Inner::new(FakeGl(1), &def, 1, 8);
    assert!(inner.validate_shaders());
    assert_eq!(inner.device_info().upload_texture_row_alignment, 1);
    assert_eq!(*inner.gl(), FakeGl(1));
}

#[test]
fn find_supported_format_for_color_target() {
    let api = make_api(false);
    let candidates = [
        RafxFormat::UNDEFINED,
        RafxFormat::B8G8R8A8_UNORM,
        RafxFormat::R8G8B8A8_UNORM,
        RafxFormat::D16_UNORM,
    ];
    let found = api.device_context().find_supported_format(
        &candidates,
        RafxResourceType::from_bits(RESOURCE_TYPE_RENDER_TARGET_COLOR),
    );
    assert_eq!(found, Some(RafxFormat::R8G8B8A8_UNORM));
}

#[test]
fn find_supported_format_for_depth_target() {
    let api = make_api(false);
    let candidates = [RafxFormat::D32_SFLOAT, RafxFormat::D24_UNORM_S8_UINT, RafxFormat::D16_UNORM];
    let found = api.device_context().find_supported_format(
        &candidates,
        RafxResourceType::from_bits(RESOURCE_TYPE_RENDER_TARGET_DEPTH_STENCIL | RESOURCE_TYPE_TEXTURE),
    );
    assert_eq!(found, Some(RafxFormat::D16_UNORM));
}

#[test]
fn find_supported_format_none_for_other_uses() {
    let api = make_api(false);
    let candidates = [RafxFormat::R8G8B8A8_UNORM];
    let found = api
        .device_context()
        .find_supported_format(&candidates, RafxResourceType::from_bits(RESOURCE_TYPE_TEXTURE));
    assert_eq!(found, None);
}

#[test]
fn find_supported_format_none_when_unsupported() {
    let api = make_api(false);
    let candidates = [RafxFormat::R8G8B8A8_SRGB, RafxFormat::B8G8R8A8_SRGB];
    let rt = RafxResourceType::from_bits(RESOURCE_TYPE_RENDER_TARGET_COLOR);
    assert_eq!(api.device_context().find_supported_format(&candidates, rt), None);
    assert_eq!(api.device_context().find_supported_format(&[], rt), None);
}

#[test]
fn gles2_format_table() {
    let rgba = RafxFormat::R8G8B8A8_UNORM.gles2_texture_format_info().unwrap();
    assert_eq!(rgba.gl_internal_format, GL_RGBA);
    assert_eq!(rgba.gl_format, GL_RGBA);
    assert_eq!(rgba.gl_type, GL_UNSIGNED_BYTE);
    let depth = RafxFormat::D16_UNORM.gles2_texture_format_info().unwrap();
    assert_eq!(depth.gl_format, GL_DEPTH_COMPONENT);
    assert_eq!(depth.gl_type, GL_UNSIGNED_SHORT);
    assert!(RafxFormat::UNDEFINED.gles2_texture_format_info().is_none());
    assert!(RafxFormat::B8G8R8A8_UNORM.gles2_texture_format_info().is_none());
}

#[test]
fn resource_type_intersects() {
    let both = RafxResourceType::from_bits(RESOURCE_TYPE_RENDER_TARGET_COLOR | RESOURCE_TYPE_TEXTURE);
    assert!(both.intersects(RafxResourceType::from_bits(RESOURCE_TYPE_TEXTURE)));
    assert!(!both.intersects(RafxResourceType::from_bits(RESOURCE_TYPE_RENDER_TARGET_DEPTH_STENCIL)));
}

#[test]
fn find_supported_sample_count_only_single() {
    let api = make_api(false);
    let context = api.device_context();
    assert_eq!(
        context.find_supported_sample_count(&[RafxSampleCount::SampleCount4, RafxSampleCount::SampleCount1]),
        Some(RafxSampleCount::SampleCount1)
    );
    assert_eq!(
        context.find_supported_sample_count(&[RafxSampleCount::SampleCount2, RafxSampleCount::SampleCount4]),
        None
    );
    assert_eq!(context.find_supported_sample_count(&[]), None);
}

#[test]
fn gl_finish_passes_result_on() {
    let api = make_api(false);
    assert!(api.device_context().gl_finish(Ok(())).is_ok());
    match api.device_context().gl_finish(Err(RafxError::StringError("lost".to_string()))) {
        Err(RafxError::StringError(message)) => assert_eq!(message, "lost"),
        Ok(()) => panic!("the failure was dropped"),
    }
}

#[test]
fn destroy_last_reference_succeeds() {
    let mut api = make_api(false);
    assert!(api.destroy().is_ok());
    // a second destroy does nothing
    assert!(api.destroy().is_ok());
}

#[test]
fn destroy_with_outstanding_reference_fails() {
    let mut api = make_api(false);
    let other = api.device_context().clone();
    match api.destroy() {
        Err(RafxError::StringError(message)) => {
            assert_eq!(message, "Could not destroy device, 2 references to it exist")
        }
        Ok(()) => panic!("destroyed a device still in use"),
    }
    // the context was released all the same; the clone still works
    assert!(api.destroy().is_ok());
    assert_eq!(other.device_info().max_vertex_attribute_count, 16);
}

#[test]
fn device_release_result_cases() {
    let def = RafxApiDefGles2 { validate_shaders: false };
    let inner = RafxDeviceContextGles2Inner::new(FakeGl(0), &def, 1, 1);
    assert!(device_release_result::<FakeGl>(Ok(inner), 1).is_ok());
    let inner = RafxDeviceContextGles2Inner::new(FakeGl(0), &def, 1, 1);
    match device_release_result(Err(Arc::new(inner)), 13) {
        Err(RafxError::StringError(message)) => {
            assert_eq!(message, "Could not destroy device, 13 references to it exist")
        }
        Ok(()) => panic!("expected an error"),
    }
}

#[test]
fn decimal_rendering() {
    for (n, text) in [(0usize, "0"), (7, "7"), (10, "10"), (1234567, "1234567"), (usize::MAX, &*usize::MAX.to_string())] {
        let mut out = String::from("n=");
        push_decimal(&mut out, n);
        assert_eq!(out, format!("n={}", text));
    }
}
