//! The GL ES 2.0 device context: device limits, the shared device state and
//! the format and sample-count queries.
use crate::gles2::api::RafxApiDefGles2;
use crate::sync::arc_clone;
use crate::types::{
    lemma_gles2_core_formats, spec_gles2_texture_format_info, RafxDeviceInfo, RafxFormat, RafxResourceType, RafxResult,
    RafxSampleCount, RESOURCE_TYPE_RENDER_TARGET_COLOR, RESOURCE_TYPE_RENDER_TARGET_DEPTH_STENCIL,
};
use std::sync::atomic::AtomicU64;
use std::sync::Arc;
use vstd::prelude::*;

verus! {

/// The device limits of a GL ES 2.0 device, from the values that GL reports
/// for `PACK_ALIGNMENT` and `MAX_VERTEX_ATTRIBS` (taken as `u32`, as GL's
/// signed integers are reinterpreted).
pub open spec fn spec_gles2_device_info(pack_alignment: i32, max_vertex_attribute_count: i32) -> RafxDeviceInfo {
    RafxDeviceInfo {
        supports_multithreaded_usage: false,
        debug_names_enabled: false,
        min_uniform_buffer_offset_alignment: pack_alignment as u32,
        min_storage_buffer_offset_alignment: pack_alignment as u32,
        upload_texture_alignment: pack_alignment as u32,
        upload_texture_row_alignment: pack_alignment as u32,
        supports_clamp_to_border_color: false,
        max_vertex_attribute_count: max_vertex_attribute_count as u32,
    }
}

/// The device limits are the values GL reports, unchanged but for the
/// reinterpretation of GL's signed integers as `u32`; the capabilities that
/// GL ES 2.0 lacks are off.
pub proof fn lemma_gles2_device_info_reports_gl_limits(pack_alignment: i32, max_vertex_attribute_count: i32)
    ensures
        ({
            let info = spec_gles2_device_info(pack_alignment, max_vertex_attribute_count);
            &&& info.max_vertex_attribute_count == max_vertex_attribute_count as u32
            &&& info.min_uniform_buffer_offset_alignment == pack_alignment as u32
            &&& info.min_storage_buffer_offset_alignment == pack_alignment as u32
            &&& info.upload_texture_alignment == pack_alignment as u32
            &&& info.upload_texture_row_alignment == pack_alignment as u32
            &&& 0 <= max_vertex_attribute_count ==> info.max_vertex_attribute_count == max_vertex_attribute_count
            &&& 0 <= pack_alignment ==> info.upload_texture_alignment == pack_alignment
            &&& !info.supports_multithreaded_usage && !info.debug_names_enabled
            &&& !info.supports_clamp_to_border_color
        }),
{
}

pub fn gles2_device_info(pack_alignment: i32, max_vertex_attribute_count: i32) -> (r: RafxDeviceInfo)
    ensures
        r == spec_gles2_device_info(pack_alignment, max_vertex_attribute_count),
        r.max_vertex_attribute_count == max_vertex_attribute_count as u32,
        r.min_uniform_buffer_offset_alignment == pack_alignment as u32,
        r.min_storage_buffer_offset_alignment == pack_alignment as u32,
        r.upload_texture_alignment == pack_alignment as u32,
        r.upload_texture_row_alignment == pack_alignment as u32,
        !r.supports_multithreaded_usage && !r.debug_names_enabled
            && !r.supports_clamp_to_border_color,
{
    let pack_alignment = pack_alignment as u32;
    let max_vertex_attribute_count = max_vertex_attribute_count as u32;
    RafxDeviceInfo {
        supports_multithreaded_usage: false,
        debug_names_enabled: false,
        min_uniform_buffer_offset_alignment: pack_alignment,
        min_storage_buffer_offset_alignment: pack_alignment,
        upload_texture_alignment: pack_alignment,
        upload_texture_row_alignment: pack_alignment,
        supports_clamp_to_border_color: false,  // requires GLES 3.2 or an extension
        max_vertex_attribute_count,
    }
}

/// The state shared by all clones of a device context. `G` is the GL side
/// of the device (context manager, main context and the fullscreen quad),
/// which this struct owns and tears down when it is dropped.
pub struct RafxDeviceContextGles2Inner<G> {
    pub(crate) device_info: RafxDeviceInfo,
    gl: G,
    pub(crate) validate_shaders: bool,
    pub(crate) gl_finish_call_count: AtomicU64,
}

impl<G> RafxDeviceContextGles2Inner<G> {
    pub closed spec fn spec_device_info(&self) -> RafxDeviceInfo {
        self.device_info
    }

    pub closed spec fn spec_validate_shaders(&self) -> bool {
        self.validate_shaders
    }

    pub closed spec fn spec_gl(&self) -> G {
        self.gl
    }

    /// Assembles the device state once GL has been initialized and has
    /// reported its pack alignment and vertex attribute limit.
    pub fn new(
        gl: G,
        gl_api_def: &RafxApiDefGles2,
        pack_alignment: i32,
        max_vertex_attribute_count: i32,
    ) -> (r: Self)
        ensures
            r.spec_device_info() == spec_gles2_device_info(pack_alignment, max_vertex_attribute_count),
            r.spec_device_info().max_vertex_attribute_count == max_vertex_attribute_count as u32,
            r.spec_device_info().min_uniform_buffer_offset_alignment == pack_alignment as u32,
            r.spec_device_info().min_storage_buffer_offset_alignment == pack_alignment as u32,
            r.spec_device_info().upload_texture_alignment == pack_alignment as u32,
            r.spec_device_info().upload_texture_row_alignment == pack_alignment as u32,
            !r.spec_device_info().supports_multithreaded_usage && !r.spec_device_info().debug_names_enabled
                && !r.spec_device_info().supports_clamp_to_border_color,
            r.spec_validate_shaders() == gl_api_def.validate_shaders,
            r.spec_gl() == gl,
    {
        let device_info = gles2_device_info(pack_alignment, max_vertex_attribute_count);
        RafxDeviceContextGles2Inner {
            device_info,
            gl,
            validate_shaders: gl_api_def.validate_shaders,
            gl_finish_call_count: AtomicU64::new(0),
        }
    }

    pub fn device_info(&self) -> (r: &RafxDeviceInfo)
        ensures
            *r == self.spec_device_info(),
    {
        &self.device_info
    }

    pub fn validate_shaders(&self) -> (r: bool)
        ensures
            r == self.spec_validate_shaders(),
    {
        self.validate_shaders
    }

    pub fn gl(&self) -> (r: &G)
        ensures
            *r == self.spec_gl(),
    {
        &self.gl
    }
}

/// A handle on a GL ES 2.0 device; clones share the device state.
pub struct RafxDeviceContextGles2<G> {
    pub(crate) inner: Arc<RafxDeviceContextGles2Inner<G>>,
}

impl<G> Clone for RafxDeviceContextGles2<G> {
    fn clone(&self) -> (r: Self)
        ensures
            r.spec_inner() == self.spec_inner(),
    {
        RafxDeviceContextGles2 { inner: arc_clone(&self.inner) }
    }
}

/// The first candidate that GL ES 2.0 can hold as a texture, if a
/// candidate at `index` is one.
pub open spec fn is_first_gles2_format(candidates: Seq<RafxFormat>, index: int) -> bool {
    &&& 0 <= index < candidates.len()
    &&& spec_gles2_texture_format_info(candidates[index]) is Some
    &&& forall|j: int| 0 <= j < index ==> spec_gles2_texture_format_info(#[trigger] candidates[j]) is None
}

/// At most one candidate is the first that GL ES 2.0 can hold, so the
/// format that `find_supported_format` returns for a render target is
/// determined: it is the candidate at the one index where
/// `is_first_gles2_format` holds. In particular, when the first candidate
/// is a GL ES 2.0 core format, it is that candidate.
pub proof fn lemma_first_gles2_format_unique(candidates: Seq<RafxFormat>, i: int, j: int)
    requires
        is_first_gles2_format(candidates, i),
        is_first_gles2_format(candidates, j),
    ensures
        i == j,
{
    if i < j {
        assert(spec_gles2_texture_format_info(candidates[i]) is None);
    } else if j < i {
        assert(spec_gles2_texture_format_info(candidates[j]) is None);
    }
}

/// A candidate list that starts with a format GL ES 2.0 supports has that
/// format as its first supported one.
pub proof fn lemma_first_candidate_supported(candidates: Seq<RafxFormat>)
    requires
        candidates.len() > 0,
        spec_gles2_texture_format_info(candidates[0]) is Some,
    ensures
        is_first_gles2_format(candidates, 0),
        forall|j: int| #[trigger] is_first_gles2_format(candidates, j) ==> j == 0,
{
    assert forall|j: int| #[trigger] is_first_gles2_format(candidates, j) implies j == 0 by {
        lemma_first_gles2_format_unique(candidates, 0, j);
    }
}

/// Whether a resource of this type is a render target (color or
/// depth/stencil).
pub open spec fn is_render_target(resource_type: RafxResourceType) -> bool {
    resource_type.spec_intersects(RafxResourceType { bits: RESOURCE_TYPE_RENDER_TARGET_DEPTH_STENCIL })
        || resource_type.spec_intersects(RafxResourceType { bits: RESOURCE_TYPE_RENDER_TARGET_COLOR })
}

impl<G> RafxDeviceContextGles2<G> {
    pub closed spec fn spec_inner(&self) -> RafxDeviceContextGles2Inner<G> {
        *self.inner
    }

    pub fn new(inner: Arc<RafxDeviceContextGles2Inner<G>>) -> (r: RafxResult<Self>)
        ensures
            r matches Ok(context) && context.spec_inner() == *inner,
    {
        Ok(RafxDeviceContextGles2 { inner })
    }

    pub fn device_info(&self) -> (r: &RafxDeviceInfo)
        ensures
            *r == self.spec_inner().spec_device_info(),
    {
        self.inner.device_info()
    }

    /// The GL side of the device (context manager and main context).
    pub fn gl_context(&self) -> (r: &G)
        ensures
            *r == self.spec_inner().spec_gl(),
    {
        self.inner.gl()
    }

    /// Completes a `glFinish` call, used internally to support polling
    /// fences: a failure of the call is passed on, a success is counted.
    pub fn gl_finish(&self, gl_finish_result: RafxResult<()>) -> (r: RafxResult<()>)
        ensures
            r == gl_finish_result,
    {
        if gl_finish_result.is_ok() {
            self.inner.gl_finish_call_count.fetch_add(1, std::sync::atomic::Ordering::Relaxed);
        }
        gl_finish_result
    }

    /// For render targets, the first candidate that GL ES 2.0 can hold as a
    /// texture; no format for any other use.
    pub fn find_supported_format(
        &self,
        candidates: &[RafxFormat],
        resource_type: RafxResourceType,
    ) -> (r: Option<RafxFormat>)
        ensures
            match r {
                Some(format) => is_render_target(resource_type) && exists|i: int|
                    is_first_gles2_format(candidates@, i) && candidates@[i] == format,
                None => !is_render_target(resource_type) || forall|i: int|
                    0 <= i < candidates@.len() ==> spec_gles2_texture_format_info(#[trigger] candidates@[i]) is None,
            },
            is_render_target(resource_type) && candidates@.len() > 0 && (candidates@[0] == RafxFormat::R8G8B8A8_UNORM
                || candidates@[0] == RafxFormat::R8G8B8_UNORM || candidates@[0] == RafxFormat::R5G6B5_UNORM_PACK16
                || candidates@[0] == RafxFormat::R4G4B4A4_UNORM_PACK16 || candidates@[0]
                == RafxFormat::R5G5B5A1_UNORM_PACK16 || candidates@[0] == RafxFormat::D16_UNORM) ==> r == Some(
                candidates@[0],
            ),
    {
        if resource_type.intersects(
            RafxResourceType::from_bits(RESOURCE_TYPE_RENDER_TARGET_DEPTH_STENCIL),
        ) || resource_type.intersects(RafxResourceType::from_bits(RESOURCE_TYPE_RENDER_TARGET_COLOR)) {
            let mut i: usize = 0;
            while i < candidates.len()
                invariant
                    i <= candidates@.len(),
                    is_render_target(resource_type),
                    forall|j: int| 0 <= j < i ==> spec_gles2_texture_format_info(#[trigger] candidates@[j]) is None,
                decreases candidates@.len() - i,
            {
                let candidate = candidates[i];
                if candidate.gles2_texture_format_info().is_some() {
                    proof {
                        lemma_gles2_core_formats();
                    }
                    assert(is_first_gles2_format(candidates@, i as int));
                    return Some(candidate);
                }
                i = i + 1;
            }
            proof {
                lemma_gles2_core_formats();
            }
            return None;
        }
        None
    }

    /// Only single-sampled targets are supported.
    pub fn find_supported_sample_count(&self, candidates: &[RafxSampleCount]) -> (r: Option<RafxSampleCount>)
        ensures
            r == (if candidates@.contains(RafxSampleCount::SampleCount1) {
                Some(RafxSampleCount::SampleCount1)
            } else {
                None
            }),
    {
        let mut i: usize = 0;
        while i < candidates.len()
            invariant
                i <= candidates@.len(),
                forall|j: int| 0 <= j < i ==> candidates@[j] != RafxSampleCount::SampleCount1,
            decreases candidates@.len() - i,
        {
            if candidates[i] == RafxSampleCount::SampleCount1 {
                return Some(RafxSampleCount::SampleCount1);
            }
            i = i + 1;
        }
        None
    }
}

} // verus!
