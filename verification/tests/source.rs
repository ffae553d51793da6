use shader_binding::dictionary::{NamedCell, ParamDictionary, ParamDictionaryLink};
use shader_binding::params::{ParamValues, ParameterError, ShaderParam};
use shader_binding::program::{ProgramInfo, VarInfo};
use shader_binding::value::{
    Float32, RawBufferHandle, TextureHandle, TextureParam, ToUniform, UniformValue,
};

fn declared(names: &[&str]) -> Vec<VarInfo> {
    names.iter().map(|n| VarInfo { name: n.to_string() }).collect()
}

fn field<T>(name: &str, value: T) -> NamedCell<T> {
    NamedCell { name: name.to_string(), value }
}

fn floats3(values: [f32; 3]) -> UniformValue {
    values.map(|number| Float32::from_bits(number.to_bits())).to_uniform()
}

fn link(source: &ParamDictionary, info: &ProgramInfo) -> Result<ParamDictionaryLink, ParameterError> {
    <ParamDictionary as ShaderParam<ParamDictionaryLink>>::create_link(Some(source.clone()), info)
}

#[test]
fn static_source_round_trip() {
    let a: i32 = 5;
    let b: [f32; 3] = [1.0, 2.0, 3.0];
    let source = ParamDictionary {
        uniforms: vec![field("a", a.to_uniform()), field("b", floats3(b))],
        blocks: vec![],
        textures: vec![],
    };
    let info = ProgramInfo { uniforms: declared(&["a", "b"]), blocks: vec![], textures: vec![] };
    let link = link(&source, &info).unwrap();

    let mut uniforms = vec![None; 2];
    let mut blocks: Vec<Option<RawBufferHandle>> = vec![];
    let mut textures: Vec<Option<TextureParam>> = vec![];
    source.fill_params(
        &link,
        ParamValues { uniforms: &mut uniforms[..], blocks: &mut blocks[..], textures: &mut textures[..] },
    );
    assert_eq!(
        uniforms,
        vec![
            Some(UniformValue::ValueI32(5)),
            Some(UniformValue::ValueF32Vector3([
                Float32::from_bits(0x3f80_0000),
                Float32::from_bits(0x4000_0000),
                Float32::from_bits(0x4040_0000)
            ]))
        ]
    );
    assert!(blocks.is_empty());
    assert!(textures.is_empty());
}

#[test]
fn static_source_follows_descriptor_order() {
    let source = ParamDictionary {
        uniforms: vec![field("a", 5i32.to_uniform()), field("b", floats3([1.0, 2.0, 3.0]))],
        blocks: vec![field("data", RawBufferHandle(8))],
        textures: vec![field("image", (TextureHandle(3), None))],
    };
    let info = ProgramInfo {
        uniforms: declared(&["b", "a"]),
        blocks: declared(&["data"]),
        textures: declared(&["image"]),
    };
    let link = link(&source, &info).unwrap();
    assert_eq!(link.uniforms(), &[1usize, 0][..]);

    let mut uniforms = vec![None; 2];
    let mut blocks = vec![None; 1];
    let mut textures = vec![None; 1];
    let params =
        ParamValues { uniforms: &mut uniforms[..], blocks: &mut blocks[..], textures: &mut textures[..] };
    assert!(source.can_fill(&link, &params));
    source.fill_params(&link, params);
    assert_eq!(uniforms, vec![Some(floats3([1.0, 2.0, 3.0])), Some(UniformValue::ValueI32(5))]);
    assert_eq!(blocks, vec![Some(RawBufferHandle(8))]);
    assert_eq!(textures, vec![Some((TextureHandle(3), None))]);
}

#[test]
fn static_source_reports_missing_field() {
    let source = ParamDictionary {
        uniforms: vec![field("a", 5i32.to_uniform())],
        blocks: vec![],
        textures: vec![],
    };
    let info = ProgramInfo { uniforms: declared(&["a", "b"]), blocks: vec![], textures: vec![] };
    assert_eq!(link(&source, &info), Err(ParameterError::ErrorUniform("b".to_string())));
    assert_eq!(source.link_to(&info), Err(ParameterError::ErrorUniform("b".to_string())));
}

#[test]
fn missing_prototype_offers_nothing() {
    let info = ProgramInfo { uniforms: vec![], blocks: declared(&["data"]), textures: vec![] };
    assert_eq!(
        <ParamDictionary as ShaderParam<ParamDictionaryLink>>::create_link(None, &info),
        Err(ParameterError::ErrorBlock("data".to_string()))
    );
    let nothing = ProgramInfo { uniforms: vec![], blocks: vec![], textures: vec![] };
    let link = <ParamDictionary as ShaderParam<ParamDictionaryLink>>::create_link(None, &nothing).unwrap();
    assert!(link.uniforms().is_empty() && link.blocks().is_empty() && link.textures().is_empty());
}

#[test]
fn link_to_agrees_with_create_link() {
    let source = ParamDictionary {
        uniforms: vec![field("x", 1i32.to_uniform()), field("y", 2i32.to_uniform())],
        blocks: vec![field("data", RawBufferHandle(8))],
        textures: vec![],
    };
    let info = ProgramInfo { uniforms: declared(&["y"]), blocks: declared(&["data"]), textures: vec![] };
    assert_eq!(source.link_to(&info), link(&source, &info));
    assert_eq!(source.link_to(&info).unwrap().uniforms(), &[1usize][..]);
}

#[test]
fn cloned_dictionary_is_equal() {
    let source = ParamDictionary {
        uniforms: vec![field("x", 1i32.to_uniform())],
        blocks: vec![field("data", RawBufferHandle(8))],
        textures: vec![field("image", (TextureHandle(3), None))],
    };
    assert_eq!(source.clone(), source);
    assert_eq!(field("x", 4u8).clone(), field("x", 4u8));
    assert_eq!(ParamDictionary::new(), ParamDictionary { uniforms: vec![], blocks: vec![], textures: vec![] });
}
