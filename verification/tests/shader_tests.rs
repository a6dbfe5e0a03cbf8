use rafx_render::shader::{
    RafxPipelineReflection, RafxShader, RafxShaderDx12, RafxShaderEmpty, RafxShaderGles2,
    RafxShaderGles3, RafxShaderMetal, RafxShaderVulkan,
};

fn reflection(stages: u32) -> RafxPipelineReflection {
    RafxPipelineReflection { shader_stages: stages, compute_threads_per_group: None }
}

fn all_shaders() -> Vec<RafxShader> {
    vec![
        RafxShader::Dx12(RafxShaderDx12 { pipeline_reflection: reflection(1) }),
        RafxShader::Vk(RafxShaderVulkan { pipeline_reflection: reflection(2) }),
        RafxShader::Metal(RafxShaderMetal { pipeline_reflection: reflection(3) }),
        RafxShader::Gles2(RafxShaderGles2 { pipeline_reflection: reflection(4) }),
        RafxShader::Gles3(RafxShaderGles3 { pipeline_reflection: reflection(5) }),
        RafxShader::Empty(RafxShaderEmpty { pipeline_reflection: reflection(6) }),
    ]
}

fn backends_found(shader: &RafxShader) -> [bool; 6] {
    [
        shader.dx12_shader().is_some(),
        shader.vk_shader().is_some(),
        shader.metal_shader().is_some(),
        shader.gles2_shader().is_some(),
        shader.gles3_shader().is_some(),
        shader.empty_shader().is_some(),
    ]
}

#[test]
fn shader_reflection_comes_from_backend() {
    for (i, shader) in all_shaders().iter().enumerate() {
        assert_eq!(shader.pipeline_reflection().shader_stages, (i + 1) as u32);
    }
}

#[test]
fn shader_has_exactly_one_backend() {
    for (i, shader) in all_shaders().iter().enumerate() {
        let found = backends_found(shader);
        assert_eq!(found.iter().filter(|b| **b).count(), 1);
        assert!(found[i]);
    }
}

#[test]
fn shader_backend_accessor_gives_inner() {
    let shaders = all_shaders();
    assert_eq!(shaders[0].dx12_shader().unwrap().pipeline_reflection().shader_stages, 1);
    assert_eq!(shaders[1].vk_shader().unwrap().pipeline_reflection().shader_stages, 2);
    assert_eq!(shaders[2].metal_shader().unwrap().pipeline_reflection().shader_stages, 3);
    assert_eq!(shaders[3].gles2_shader().unwrap().pipeline_reflection().shader_stages, 4);
    assert_eq!(shaders[4].gles3_shader().unwrap().pipeline_reflection().shader_stages, 5);
    assert_eq!(shaders[5].empty_shader().unwrap().pipeline_reflection().shader_stages, 6);
}

#[test]
fn shader_compute_reflection_is_kept() {
    let shader = RafxShader::Vk(RafxShaderVulkan {
        pipeline_reflection: RafxPipelineReflection {
            shader_stages: 32,
            compute_threads_per_group: Some([8, 8, 1]),
        },
    });
    assert_eq!(shader.pipeline_reflection().compute_threads_per_group, Some([8, 8, 1]));
    assert!(shader.gles2_shader().is_none());
}

#[test]
fn shader_clone_keeps_backend() {
    for shader in all_shaders() {
        let copy = shader.clone();
        assert_eq!(backends_found(&copy), backends_found(&shader));
        assert_eq!(copy.pipeline_reflection().shader_stages, shader.pipeline_reflection().shader_stages);
    }
}
