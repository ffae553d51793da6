use shader_binding::params::{ParamValues, ParameterError, Program, ShaderParam};
use shader_binding::program::{ProgramHandle, ProgramInfo, VarInfo};
use shader_binding::user::UserProgram;
use shader_binding::value::{Float32, RawBufferHandle, TextureParam, ToUniform, UniformValue};

/// Parameters of the application, with one field for each uniform.
struct Params {
    a: i32,
    b: [f32; 3],
}

/// For each field of `Params`, the slot that it goes to.
#[derive(Clone, Copy, Debug, PartialEq)]
struct ParamsLink {
    a: Option<usize>,
    b: Option<usize>,
}

impl ShaderParam<ParamsLink> for Params {
    fn create_link(_: Option<Params>, info: &ProgramInfo) -> Result<ParamsLink, ParameterError> {
        let mut link = ParamsLink { a: None, b: None };
        for (slot, uniform) in info.uniforms.iter().enumerate() {
            match uniform.name.as_str() {
                "a" => link.a = Some(slot),
                "b" => link.b = Some(slot),
                _ => return Err(ParameterError::ErrorUniform(uniform.name.clone())),
            }
        }
        if let Some(block) = info.blocks.first() {
            return Err(ParameterError::ErrorBlock(block.name.clone()));
        }
        if let Some(texture) = info.textures.first() {
            return Err(ParameterError::ErrorTexture(texture.name.clone()));
        }
        Ok(link)
    }

    fn fill_params(&self, link: &ParamsLink, params: ParamValues) {
        if let Some(slot) = link.a {
            params.uniforms[slot] = Some(self.a.to_uniform());
        }
        if let Some(slot) = link.b {
            params.uniforms[slot] = Some(self.b.map(float).to_uniform());
        }
    }
}

fn float(number: f32) -> Float32 {
    Float32::from_bits(number.to_bits())
}

fn declares(uniforms: &[&str], blocks: &[&str]) -> ProgramHandle {
    let list = |names: &[&str]| names.iter().map(|n| VarInfo { name: n.to_string() }).collect();
    ProgramHandle::new(3, ProgramInfo { uniforms: list(uniforms), blocks: list(blocks), textures: vec![] })
}

#[test]
fn user_structure_round_trip() {
    let bound: UserProgram<ParamsLink, Params> = UserProgram::connect(declares(&["a", "b"], &[])).unwrap();
    let data = Params { a: 5, b: [1.0, 2.0, 3.0] };

    let mut uniforms = vec![None; 2];
    let mut blocks: Vec<Option<RawBufferHandle>> = vec![];
    let mut textures: Vec<Option<TextureParam>> = vec![];
    (&bound, &data).fill_params(ParamValues {
        uniforms: &mut uniforms[..],
        blocks: &mut blocks[..],
        textures: &mut textures[..],
    });
    assert_eq!(
        uniforms,
        vec![
            Some(UniformValue::ValueI32(5)),
            Some(UniformValue::ValueF32Vector3([float(1.0), float(2.0), float(3.0)]))
        ]
    );
    assert!(blocks.is_empty() && textures.is_empty());
    assert_eq!((&bound, &data).get_handle().get_name(), 3);
}

#[test]
fn user_structure_reads_current_values_on_each_fill() {
    let bound: UserProgram<ParamsLink, Params> = UserProgram::connect(declares(&["b", "a"], &[])).unwrap();
    let mut data = Params { a: 5, b: [1.0, 2.0, 3.0] };
    let mut blocks: Vec<Option<RawBufferHandle>> = vec![];
    let mut textures: Vec<Option<TextureParam>> = vec![];

    let mut first = vec![None; 2];
    (&bound, &data).fill_params(ParamValues {
        uniforms: &mut first[..],
        blocks: &mut blocks[..],
        textures: &mut textures[..],
    });
    data.a = 6;
    let mut second = vec![None; 2];
    (&bound, &data).fill_params(ParamValues {
        uniforms: &mut second[..],
        blocks: &mut blocks[..],
        textures: &mut textures[..],
    });
    assert_eq!(first[1], Some(UniformValue::ValueI32(5)));
    assert_eq!(second[1], Some(UniformValue::ValueI32(6)));
    assert_eq!(first[0], second[0]);
}

#[test]
fn user_structure_refuses_unknown_variable() {
    let refused = UserProgram::<ParamsLink, Params>::connect(declares(&["a", "c", "b"], &[]));
    assert_eq!(refused.err(), Some(ParameterError::ErrorUniform("c".to_string())));
    let refused = UserProgram::<ParamsLink, Params>::connect(declares(&["a"], &["lights"]));
    assert_eq!(refused.err(), Some(ParameterError::ErrorBlock("lights".to_string())));
}

#[test]
fn cloned_user_program_fills_alike() {
    let bound: UserProgram<ParamsLink, Params> = UserProgram::connect(declares(&["a"], &[])).unwrap();
    let copy = bound.clone();
    let data = Params { a: -2, b: [0.0; 3] };
    let mut blocks: Vec<Option<RawBufferHandle>> = vec![];
    let mut textures: Vec<Option<TextureParam>> = vec![];
    let mut uniforms = vec![None; 1];
    (&copy, &data).fill_params(ParamValues {
        uniforms: &mut uniforms[..],
        blocks: &mut blocks[..],
        textures: &mut textures[..],
    });
    assert_eq!(uniforms, vec![Some(UniformValue::ValueI32(-2))]);
    assert_eq!((&copy, &data).get_handle(), (&bound, &data).get_handle());
}
