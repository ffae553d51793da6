use shader_binding::params::{ParamValues, ParameterError, Program, ShaderParam};
use shader_binding::program::{ProgramHandle, ProgramInfo, VarInfo};
use shader_binding::user::{EmptyProgram, UserProgram};
use shader_binding::value::{RawBufferHandle, TextureHandle, TextureParam, UniformValue};

fn vars(names: &[&str]) -> Vec<VarInfo> {
    names.iter().map(|n| VarInfo { name: n.to_string() }).collect()
}

fn info(uniforms: &[&str], blocks: &[&str], textures: &[&str]) -> ProgramInfo {
    ProgramInfo { uniforms: vars(uniforms), blocks: vars(blocks), textures: vars(textures) }
}

fn link_trivial(descriptor: &ProgramInfo) -> Result<(), ParameterError> {
    <() as ShaderParam<()>>::create_link(None, descriptor)
}

#[test]
fn trivial_source_links_to_empty_program() {
    let descriptor = info(&[], &[], &[]);
    assert_eq!(link_trivial(&descriptor), Ok(()));
    assert_eq!(<() as ShaderParam<()>>::create_link(Some(()), &descriptor), Ok(()));
}

#[test]
fn trivial_source_reports_first_uniform() {
    let descriptor = info(&["mvp", "color"], &["lights"], &["diffuse"]);
    assert_eq!(link_trivial(&descriptor), Err(ParameterError::ErrorUniform("mvp".to_string())));
}

#[test]
fn trivial_source_reports_single_uniform() {
    let descriptor = info(&["color"], &[], &[]);
    assert_eq!(link_trivial(&descriptor), Err(ParameterError::ErrorUniform("color".to_string())));
}

#[test]
fn trivial_source_reports_first_block_when_no_uniform() {
    let descriptor = info(&[], &["lights", "bones"], &["diffuse"]);
    assert_eq!(link_trivial(&descriptor), Err(ParameterError::ErrorBlock("lights".to_string())));
}

#[test]
fn trivial_source_reports_first_texture_when_nothing_else() {
    let descriptor = info(&[], &[], &["diffuse", "normal"]);
    assert_eq!(link_trivial(&descriptor), Err(ParameterError::ErrorTexture("diffuse".to_string())));
}

#[test]
fn trivial_source_reports_the_same_variable_every_time() {
    let descriptor = info(&["a"], &["b"], &["c"]);
    assert_eq!(link_trivial(&descriptor), link_trivial(&descriptor));
    assert_eq!(link_trivial(&descriptor), link_trivial(&descriptor.clone()));
}

#[test]
fn trivial_fill_leaves_slots_alone() {
    let mut uniforms = vec![None, Some(UniformValue::ValueI32(3))];
    let mut blocks = vec![Some(RawBufferHandle(9))];
    let mut textures: Vec<Option<TextureParam>> = vec![Some((TextureHandle(4), None))];
    ().fill_params(
        &(),
        ParamValues { uniforms: &mut uniforms[..], blocks: &mut blocks[..], textures: &mut textures[..] },
    );
    assert_eq!(uniforms, vec![None, Some(UniformValue::ValueI32(3))]);
    assert_eq!(blocks, vec![Some(RawBufferHandle(9))]);
    assert_eq!(textures, vec![Some((TextureHandle(4), None))]);
}

#[test]
fn empty_program_connects_and_leaves_empty_slots_empty() {
    let bound: EmptyProgram = UserProgram::connect(ProgramHandle::new(7, info(&[], &[], &[]))).unwrap();
    let mut uniforms: Vec<Option<UniformValue>> = vec![];
    let mut blocks: Vec<Option<RawBufferHandle>> = vec![];
    let mut textures: Vec<Option<TextureParam>> = vec![];
    (&bound).fill_params(ParamValues {
        uniforms: &mut uniforms[..],
        blocks: &mut blocks[..],
        textures: &mut textures[..],
    });
    assert!(uniforms.is_empty());
    assert!(blocks.is_empty());
    assert!(textures.is_empty());
    assert_eq!((&bound).get_handle().get_name(), 7);
    assert_eq!((&bound).get_handle().get_info(), &info(&[], &[], &[]));
}

#[test]
fn empty_program_pairs_with_unit_parameters() {
    let bound: EmptyProgram = UserProgram::connect(ProgramHandle::new(2, info(&[], &[], &[]))).unwrap();
    let mut uniforms: Vec<Option<UniformValue>> = vec![];
    let mut blocks: Vec<Option<RawBufferHandle>> = vec![];
    let mut textures: Vec<Option<TextureParam>> = vec![];
    let pair = (&bound, &());
    pair.fill_params(ParamValues {
        uniforms: &mut uniforms[..],
        blocks: &mut blocks[..],
        textures: &mut textures[..],
    });
    assert!(uniforms.is_empty() && blocks.is_empty() && textures.is_empty());
    assert_eq!(pair.get_handle().get_name(), 2);
}

#[test]
fn empty_program_refuses_program_with_variables() {
    let refused: Result<EmptyProgram, ParameterError> =
        UserProgram::connect(ProgramHandle::new(1, info(&["mvp"], &["lights"], &[])));
    assert_eq!(refused.err(), Some(ParameterError::ErrorUniform("mvp".to_string())));
    let refused: Result<EmptyProgram, ParameterError> =
        UserProgram::connect(ProgramHandle::new(1, info(&[], &["lights"], &["diffuse"])));
    assert_eq!(refused.err(), Some(ParameterError::ErrorBlock("lights".to_string())));
    let refused: Result<EmptyProgram, ParameterError> =
        UserProgram::connect(ProgramHandle::new(1, info(&[], &[], &["diffuse"])));
    assert_eq!(refused.err(), Some(ParameterError::ErrorTexture("diffuse".to_string())));
}

#[test]
fn cloned_program_keeps_handle() {
    let bound: EmptyProgram = UserProgram::connect(ProgramHandle::new(11, info(&[], &[], &[]))).unwrap();
    let copy = bound.clone();
    assert_eq!((&copy).get_handle(), (&bound).get_handle());
    assert_eq!((&copy).get_handle().get_name(), 11);
}
