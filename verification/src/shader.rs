//! A shader program, owned by exactly one graphics backend.
use vstd::prelude::*;

verus! {

/// Reflection data gathered from the stages of a shader program: which
/// stages it has, and, for compute programs, the workgroup size.
#[derive(Debug)]
pub struct RafxPipelineReflection {
    /// Bit set of the shader stages that the program holds.
    pub shader_stages: u32,
    /// Threads per workgroup of a compute program.
    pub compute_threads_per_group: Option<[u32; 3]>,
}

/// Direct3D 12 shader program.
#[derive(Debug)]
pub struct RafxShaderDx12 {
    pub pipeline_reflection: RafxPipelineReflection,
}

/// Vulkan shader program.
#[derive(Debug)]
pub struct RafxShaderVulkan {
    pub pipeline_reflection: RafxPipelineReflection,
}

/// Metal shader program.
#[derive(Debug)]
pub struct RafxShaderMetal {
    pub pipeline_reflection: RafxPipelineReflection,
}

/// GL ES 2.0 shader program.
#[derive(Debug)]
pub struct RafxShaderGles2 {
    pub pipeline_reflection: RafxPipelineReflection,
}

/// GL ES 3.0 shader program.
#[derive(Debug)]
pub struct RafxShaderGles3 {
    pub pipeline_reflection: RafxPipelineReflection,
}

/// Shader program of the backend that does nothing.
#[derive(Debug)]
pub struct RafxShaderEmpty {
    pub pipeline_reflection: RafxPipelineReflection,
}

impl Clone for RafxPipelineReflection {
    fn clone(&self) -> (r: Self)
        ensures
            r == *self,
    {
        RafxPipelineReflection {
            shader_stages: self.shader_stages,
            compute_threads_per_group: self.compute_threads_per_group,
        }
    }
}

impl Clone for RafxShaderDx12 {
    fn clone(&self) -> (r: Self)
        ensures
            r == *self,
    {
        RafxShaderDx12 { pipeline_reflection: self.pipeline_reflection.clone() }
    }
}

impl Clone for RafxShaderVulkan {
    fn clone(&self) -> (r: Self)
        ensures
            r == *self,
    {
        RafxShaderVulkan { pipeline_reflection: self.pipeline_reflection.clone() }
    }
}

impl Clone for RafxShaderMetal {
    fn clone(&self) -> (r: Self)
        ensures
            r == *self,
    {
        RafxShaderMetal { pipeline_reflection: self.pipeline_reflection.clone() }
    }
}

impl Clone for RafxShaderGles2 {
    fn clone(&self) -> (r: Self)
        ensures
            r == *self,
    {
        RafxShaderGles2 { pipeline_reflection: self.pipeline_reflection.clone() }
    }
}

impl Clone for RafxShaderGles3 {
    fn clone(&self) -> (r: Self)
        ensures
            r == *self,
    {
        RafxShaderGles3 { pipeline_reflection: self.pipeline_reflection.clone() }
    }
}

impl Clone for RafxShaderEmpty {
    fn clone(&self) -> (r: Self)
        ensures
            r == *self,
    {
        RafxShaderEmpty { pipeline_reflection: self.pipeline_reflection.clone() }
    }
}

impl Clone for RafxShader {
    fn clone(&self) -> (r: Self)
        ensures
            r == *self,
    {
        match self {
            RafxShader::Dx12(inner) => RafxShader::Dx12(inner.clone()),
            RafxShader::Vk(inner) => RafxShader::Vk(inner.clone()),
            RafxShader::Metal(inner) => RafxShader::Metal(inner.clone()),
            RafxShader::Gles2(inner) => RafxShader::Gles2(inner.clone()),
            RafxShader::Gles3(inner) => RafxShader::Gles3(inner.clone()),
            RafxShader::Empty(inner) => RafxShader::Empty(inner.clone()),
        }
    }
}

impl RafxShaderDx12 {
    pub fn pipeline_reflection(&self) -> (r: &RafxPipelineReflection)
        ensures
            *r == self.pipeline_reflection,
    {
        &self.pipeline_reflection
    }
}

impl RafxShaderVulkan {
    pub fn pipeline_reflection(&self) -> (r: &RafxPipelineReflection)
        ensures
            *r == self.pipeline_reflection,
    {
        &self.pipeline_reflection
    }
}

impl RafxShaderMetal {
    pub fn pipeline_reflection(&self) -> (r: &RafxPipelineReflection)
        ensures
            *r == self.pipeline_reflection,
    {
        &self.pipeline_reflection
    }
}

impl RafxShaderGles2 {
    pub fn pipeline_reflection(&self) -> (r: &RafxPipelineReflection)
        ensures
            *r == self.pipeline_reflection,
    {
        &self.pipeline_reflection
    }
}

impl RafxShaderGles3 {
    pub fn pipeline_reflection(&self) -> (r: &RafxPipelineReflection)
        ensures
            *r == self.pipeline_reflection,
    {
        &self.pipeline_reflection
    }
}

impl RafxShaderEmpty {
    pub fn pipeline_reflection(&self) -> (r: &RafxPipelineReflection)
        ensures
            *r == self.pipeline_reflection,
    {
        &self.pipeline_reflection
    }
}

/// Represents one or more shader stages, producing an entire "program" to
/// execute on the GPU. The variant names the backend that owns it.
#[derive(Debug)]
pub enum RafxShader {
    Dx12(RafxShaderDx12),
    Vk(RafxShaderVulkan),
    Metal(RafxShaderMetal),
    Gles2(RafxShaderGles2),
    Gles3(RafxShaderGles3),
    Empty(RafxShaderEmpty),
}

impl RafxShader {
    /// The reflection data of the program, whichever backend owns it.
    pub open spec fn reflection(self) -> RafxPipelineReflection {
        match self {
            RafxShader::Dx12(inner) => inner.pipeline_reflection,
            RafxShader::Vk(inner) => inner.pipeline_reflection,
            RafxShader::Metal(inner) => inner.pipeline_reflection,
            RafxShader::Gles2(inner) => inner.pipeline_reflection,
            RafxShader::Gles3(inner) => inner.pipeline_reflection,
            RafxShader::Empty(inner) => inner.pipeline_reflection,
        }
    }

    pub fn pipeline_reflection(&self) -> (r: &RafxPipelineReflection)
        ensures
            *r == self.reflection(),
    {
        match self {
            RafxShader::Dx12(inner) => inner.pipeline_reflection(),
            RafxShader::Vk(inner) => inner.pipeline_reflection(),
            RafxShader::Metal(inner) => inner.pipeline_reflection(),
            RafxShader::Gles2(inner) => inner.pipeline_reflection(),
            RafxShader::Gles3(inner) => inner.pipeline_reflection(),
            RafxShader::Empty(inner) => inner.pipeline_reflection(),
        }
    }

    /// Get the underlying Direct3D 12 object, if this program belongs to that backend.
    pub fn dx12_shader(&self) -> (r: Option<&RafxShaderDx12>)
        ensures
            match r {
                Some(inner) => *self == RafxShader::Dx12(*inner),
                None => !(*self is Dx12),
            },
    {
        match self {
            RafxShader::Dx12(inner) => Some(inner),
            RafxShader::Vk(_) => None,
            RafxShader::Metal(_) => None,
            RafxShader::Gles2(_) => None,
            RafxShader::Gles3(_) => None,
            RafxShader::Empty(_) => None,
        }
    }

    /// Get the underlying vulkan API object. This provides access to any internally created
    /// vulkan objects.
    pub fn vk_shader(&self) -> (r: Option<&RafxShaderVulkan>)
        ensures
            match r {
                Some(inner) => *self == RafxShader::Vk(*inner),
                None => !(*self is Vk),
            },
    {
        match self {
            RafxShader::Dx12(_) => None,
            RafxShader::Vk(inner) => Some(inner),
            RafxShader::Metal(_) => None,
            RafxShader::Gles2(_) => None,
            RafxShader::Gles3(_) => None,
            RafxShader::Empty(_) => None,
        }
    }

    /// Get the underlying metal API object. This provides access to any internally created
    /// metal objects.
    pub fn metal_shader(&self) -> (r: Option<&RafxShaderMetal>)
        ensures
            match r {
                Some(inner) => *self == RafxShader::Metal(*inner),
                None => !(*self is Metal),
            },
    {
        match self {
            RafxShader::Dx12(_) => None,
            RafxShader::Vk(_) => None,
            RafxShader::Metal(inner) => Some(inner),
            RafxShader::Gles2(_) => None,
            RafxShader::Gles3(_) => None,
            RafxShader::Empty(_) => None,
        }
    }

    /// Get the underlying GL ES 2.0 object.
    pub fn gles2_shader(&self) -> (r: Option<&RafxShaderGles2>)
        ensures
            match r {
                Some(inner) => *self == RafxShader::Gles2(*inner),
                None => !(*self is Gles2),
            },
    {
        match self {
            RafxShader::Dx12(_) => None,
            RafxShader::Vk(_) => None,
            RafxShader::Metal(_) => None,
            RafxShader::Gles2(inner) => Some(inner),
            RafxShader::Gles3(_) => None,
            RafxShader::Empty(_) => None,
        }
    }

    /// Get the underlying GL ES 3.0 object.
    pub fn gles3_shader(&self) -> (r: Option<&RafxShaderGles3>)
        ensures
            match r {
                Some(inner) => *self == RafxShader::Gles3(*inner),
                None => !(*self is Gles3),
            },
    {
        match self {
            RafxShader::Dx12(_) => None,
            RafxShader::Vk(_) => None,
            RafxShader::Metal(_) => None,
            RafxShader::Gles2(_) => None,
            RafxShader::Gles3(inner) => Some(inner),
            RafxShader::Empty(_) => None,
        }
    }

    /// Get the underlying object of the backend that does nothing.
    pub fn empty_shader(&self) -> (r: Option<&RafxShaderEmpty>)
        ensures
            match r {
                Some(inner) => *self == RafxShader::Empty(*inner),
                None => !(*self is Empty),
            },
    {
        match self {
            RafxShader::Dx12(_) => None,
            RafxShader::Vk(_) => None,
            RafxShader::Metal(_) => None,
            RafxShader::Gles2(_) => None,
            RafxShader::Gles3(_) => None,
            RafxShader::Empty(inner) => Some(inner),
        }
    }
}

/// A shader program belongs to exactly one backend: of the six backend
/// accessors, exactly one finds it.
pub proof fn lemma_shader_has_exactly_one_backend(shader: RafxShader)
    ensures
        (if shader is Dx12 { 1int } else { 0int }) + (if shader is Vk { 1int } else { 0int })
            + (if shader is Metal { 1int } else { 0int }) + (if shader is Gles2 { 1int } else { 0int })
            + (if shader is Gles3 { 1int } else { 0int }) + (if shader is Empty { 1int } else { 0int })
            == 1,
{
}

/// The reflection data of a program is the reflection data of the backend
/// object that holds it.
pub proof fn lemma_reflection_is_backend_reflection(shader: RafxShader)
    ensures
        match shader {
            RafxShader::Dx12(inner) => shader.reflection() == inner.pipeline_reflection,
            RafxShader::Vk(inner) => shader.reflection() == inner.pipeline_reflection,
            RafxShader::Metal(inner) => shader.reflection() == inner.pipeline_reflection,
            RafxShader::Gles2(inner) => shader.reflection() == inner.pipeline_reflection,
            RafxShader::Gles3(inner) => shader.reflection() == inner.pipeline_reflection,
            RafxShader::Empty(inner) => shader.reflection() == inner.pipeline_reflection,
        },
{
}

} // verus!
