use naga::back::spv::WriterFlags;
use naga::valid::{Capabilities, ValidationFlags, Validator};
use std::borrow::Cow;
use vulkanite::device::{Device, DeviceError};
use vulkanite::shader::{
    compiled_glsl, complete_writer_flags, generated_words, is_spirv, module_info, parsed_module,
    read_spirv, validated_module, writer_flags, ShaderCode, ShaderError, ShaderKind, ShaderModule,
    ShaderSource, WgslCompilation, WgslEvent, WgslShaderCompileInfo, WgslStage, WgslStep,
    CAPABILITIES_ALL, SPIRV_MAGIC, VALIDATE_ALL, WRITER_ADJUST_COORDINATE_SPACE,
    WRITER_CLAMP_FRAG_DEPTH, WRITER_DEBUG, WRITER_DEFAULTS, WRITER_DEFAULTS_DEBUG,
    WRITER_LABEL_VARYINGS,
};

const TRIANGLE: &str = "
@vertex
fn vs_main(@builtin(vertex_index) index: u32) -> @builtin(position) vec4<f32> {
    let x = f32(i32(index) - 1);
    let y = f32(i32(index & 1u) * 2 - 1);
    return vec4<f32>(x, y, 0.0, 1.0);
}

@fragment
fn fs_main() -> @location(0) vec4<f32> {
    return vec4<f32>(1.0, 0.0, 0.0, 1.0);
}
";

const NOT_WGSL: &str = "fn fn fn {";

const INVALID: &str = "
@fragment
fn fs_main() -> vec4<f32> {
    return vec4<f32>(1.0, 0.0, 0.0, 1.0);
}
";

fn default_flags() -> u32 {
    naga::back::spv::Options::default().flags.bits()
}

fn naga_words(source: &str, extra: u32) -> Vec<u32> {
    let module = naga::front::wgsl::parse_str(source).unwrap();
    let info =
        Validator::new(ValidationFlags::all(), Capabilities::all()).validate(&module).unwrap();
    let mut options = naga::back::spv::Options::default();
    options.flags |= WriterFlags::from_bits(extra).unwrap();
    naga::back::spv::write_vec(&module, &info, &options, None).unwrap()
}

fn compile(source: &str, info: WgslShaderCompileInfo) -> Result<Vec<u32>, ShaderError> {
    let mut compilation = WgslCompilation::new(info);
    let mut event = WgslEvent::Begin;
    loop {
        assert!(compilation.is_expected(&event));
        event = match compilation.advance(event) {
            WgslStep::Parse => WgslEvent::Parsed(naga::front::wgsl::parse_str(source)),
            WgslStep::Validate { module, flags, capabilities } => {
                let mut validator = Validator::new(
                    ValidationFlags::from_bits(flags).unwrap(),
                    Capabilities::from_bits(capabilities).unwrap(),
                );
                let checked = validator.validate(&module);
                WgslEvent::Validated { module, checked }
            }
            WgslStep::Write { module, info, flags } => {
                let mut options = naga::back::spv::Options::default();
                options.flags = WriterFlags::from_bits(flags).unwrap();
                WgslEvent::Written(naga::back::spv::write_vec(&module, &info, &options, None))
            }
            WgslStep::Done(words) => {
                assert_eq!(compilation.stage, WgslStage::Finished);
                return Ok(words);
            }
            WgslStep::Fail(error) => {
                assert_eq!(compilation.stage, WgslStage::Finished);
                return Err(error);
            }
        };
    }
}

#[test]
fn compiler_constants_match_the_compiler() {
    assert_eq!(VALIDATE_ALL, ValidationFlags::all().bits());
    assert_eq!(CAPABILITIES_ALL, Capabilities::all().bits());
    assert_eq!(WRITER_DEBUG, WriterFlags::DEBUG.bits());
    assert_eq!(WRITER_ADJUST_COORDINATE_SPACE, WriterFlags::ADJUST_COORDINATE_SPACE.bits());
    assert_eq!(WRITER_LABEL_VARYINGS, WriterFlags::LABEL_VARYINGS.bits());
    assert_eq!(WRITER_CLAMP_FRAG_DEPTH, WriterFlags::CLAMP_FRAG_DEPTH.bits());
    assert_eq!(
        WRITER_DEFAULTS,
        (WriterFlags::ADJUST_COORDINATE_SPACE
            | WriterFlags::LABEL_VARYINGS
            | WriterFlags::CLAMP_FRAG_DEPTH)
            .bits()
    );
    assert_eq!(WRITER_DEFAULTS_DEBUG, WRITER_DEFAULTS | WRITER_DEBUG);
    assert_eq!(default_flags() & !WRITER_DEBUG, WRITER_DEFAULTS);
}

#[test]
fn writer_flags_follow_the_compile_info() {
    let none = WgslShaderCompileInfo::default();
    assert!(!none.debug && !none.flip_y);
    assert_eq!(writer_flags(none), 0);
    assert_eq!(
        writer_flags(WgslShaderCompileInfo { debug: true, flip_y: false }),
        WriterFlags::DEBUG.bits()
    );
    assert_eq!(
        writer_flags(WgslShaderCompileInfo { debug: false, flip_y: true }),
        WriterFlags::ADJUST_COORDINATE_SPACE.bits()
    );
    assert_eq!(
        writer_flags(WgslShaderCompileInfo { debug: true, flip_y: true }),
        (WriterFlags::DEBUG | WriterFlags::ADJUST_COORDINATE_SPACE).bits()
    );
}

#[test]
fn complete_flags_are_the_defaults_and_what_is_added() {
    for debug in [false, true] {
        for flip_y in [false, true] {
            let info = WgslShaderCompileInfo { debug, flip_y };
            assert_eq!(complete_writer_flags(0x16, info), if debug { 0x17 } else { 0x16 });
            assert_eq!(complete_writer_flags(0x17, info), 0x17);
            assert_eq!(complete_writer_flags(0, info), writer_flags(info));
            let compilation = WgslCompilation::new(info);
            assert_eq!(compilation.stage, WgslStage::Start);
            assert_eq!(compilation.flags, default_flags() | writer_flags(info));
            assert_eq!(compilation.flags & WRITER_DEFAULTS, WRITER_DEFAULTS);
            if debug {
                assert_eq!(compilation.flags, 0x17);
            }
        }
    }
}

#[test]
fn wgsl_compiles_to_a_binary_module() {
    let words = compile(TRIANGLE, WgslShaderCompileInfo::default()).unwrap();
    assert_eq!(words[0], SPIRV_MAGIC);
    assert_eq!(words, naga_words(TRIANGLE, 0));
    let debug = compile(TRIANGLE, WgslShaderCompileInfo { debug: true, flip_y: true }).unwrap();
    assert_eq!(debug, naga_words(TRIANGLE, 3));
    assert_eq!(debug[0], SPIRV_MAGIC);
}

#[test]
fn asking_for_the_coordinate_flag_changes_nothing() {
    let plain = compile(TRIANGLE, WgslShaderCompileInfo { debug: false, flip_y: false }).unwrap();
    let flipped = compile(TRIANGLE, WgslShaderCompileInfo { debug: false, flip_y: true }).unwrap();
    assert_eq!(plain, flipped);
}

#[test]
fn unparsable_wgsl_is_a_parse_error() {
    assert!(naga::front::wgsl::parse_str(NOT_WGSL).is_err());
    let error = compile(NOT_WGSL, WgslShaderCompileInfo::default()).unwrap_err();
    assert!(matches!(error, ShaderError::WgslParse(_)));
}

#[test]
fn invalid_module_is_a_validation_error() {
    let module = naga::front::wgsl::parse_str(INVALID).unwrap();
    let checked = Validator::new(ValidationFlags::all(), Capabilities::all()).validate(&module);
    assert!(checked.is_err());
    let error = compile(INVALID, WgslShaderCompileInfo::default()).unwrap_err();
    assert!(matches!(error, ShaderError::Validation(_)));
}

#[test]
fn compilation_goes_step_by_step() {
    let info = WgslShaderCompileInfo { debug: true, flip_y: false };
    let mut compilation = WgslCompilation::new(info);
    assert!(compilation.is_expected(&WgslEvent::Begin));
    assert!(!compilation.is_expected(&WgslEvent::Written(Ok(vec![]))));
    assert!(!compilation.is_expected(&WgslEvent::Parsed(naga::front::wgsl::parse_str(TRIANGLE))));
    assert!(matches!(compilation.advance(WgslEvent::Begin), WgslStep::Parse));
    assert_eq!(compilation.stage, WgslStage::Parsing);
    assert!(!compilation.is_expected(&WgslEvent::Begin));
    let module =
        match compilation.advance(WgslEvent::Parsed(naga::front::wgsl::parse_str(TRIANGLE))) {
            WgslStep::Validate { module, flags, capabilities } => {
                assert_eq!(flags, ValidationFlags::all().bits());
                assert_eq!(capabilities, Capabilities::all().bits());
                module
            }
            other => panic!("{:?}", other),
        };
    assert_eq!(compilation.stage, WgslStage::Validating);
    assert!(!compilation.is_expected(&WgslEvent::Written(Ok(vec![]))));
    let checked = Validator::new(ValidationFlags::all(), Capabilities::all()).validate(&module);
    match compilation.advance(WgslEvent::Validated { module, checked }) {
        WgslStep::Write { flags, .. } => assert_eq!(flags, 0x17),
        other => panic!("{:?}", other),
    }
    assert_eq!(compilation.stage, WgslStage::Writing);
    match compilation.advance(WgslEvent::Written(Ok(vec![SPIRV_MAGIC, 9]))) {
        WgslStep::Done(words) => assert_eq!(words, vec![SPIRV_MAGIC, 9]),
        other => panic!("{:?}", other),
    }
    assert_eq!(compilation.stage, WgslStage::Finished);
    assert!(!compilation.is_expected(&WgslEvent::Begin));
}

#[test]
fn failed_write_is_an_error_of_the_back_end() {
    let module = naga::front::wgsl::parse_str(TRIANGLE).unwrap();
    let info =
        Validator::new(ValidationFlags::all(), Capabilities::all()).validate(&module).unwrap();
    let options = naga::back::spv::Options::default();
    let missing = naga::back::spv::PipelineOptions {
        shader_stage: naga::ShaderStage::Compute,
        entry_point: "nowhere".to_string(),
    };
    let written = naga::back::spv::write_vec(&module, &info, &options, Some(&missing));
    assert!(written.is_err());
    let mut compilation = WgslCompilation::new(WgslShaderCompileInfo::default());
    compilation.advance(WgslEvent::Begin);
    compilation.advance(WgslEvent::Parsed(Ok(module)));
    let module = naga::front::wgsl::parse_str(TRIANGLE).unwrap();
    compilation.advance(WgslEvent::Validated { module, checked: Ok(info) });
    assert!(matches!(
        compilation.advance(WgslEvent::Written(written)),
        WgslStep::Fail(ShaderError::SpirVParse(_))
    ));
    assert_eq!(compilation.stage, WgslStage::Finished);
}

#[test]
fn each_step_fails_with_its_own_kind() {
    let parsed = naga::front::wgsl::parse_str(NOT_WGSL);
    assert!(matches!(parsed_module(parsed), Err(ShaderError::WgslParse(_))));
    let parsed = naga::front::wgsl::parse_str(TRIANGLE);
    let module = parsed_module(parsed).unwrap();
    let mut validator = Validator::new(ValidationFlags::all(), Capabilities::all());
    let info = validated_module(validator.validate(&module)).unwrap();
    let invalid = naga::front::wgsl::parse_str(INVALID).unwrap();
    assert!(matches!(
        validated_module(validator.validate(&invalid)),
        Err(ShaderError::Validation(_))
    ));
    let options = naga::back::spv::Options::default();
    let missing = naga::back::spv::PipelineOptions {
        shader_stage: naga::ShaderStage::Compute,
        entry_point: "nowhere".to_string(),
    };
    let written = naga::back::spv::write_vec(&module, &info, &options, Some(&missing));
    assert!(matches!(generated_words(written), Err(ShaderError::SpirVParse(_))));
    let written = naga::back::spv::write_vec(&module, &info, &options, None);
    assert_eq!(generated_words(written).unwrap()[0], SPIRV_MAGIC);
    assert!(matches!(
        compiled_glsl(Err("1:1 error".to_string())),
        Err(ShaderError::GlslParse(message)) if message == "1:1 error"
    ));
    assert_eq!(compiled_glsl(Ok(vec![1, 2])).unwrap(), vec![1, 2]);
}

fn le_bytes(words: &[u32]) -> Vec<u8> {
    words.iter().flat_map(|w| w.to_le_bytes()).collect()
}

fn be_bytes(words: &[u32]) -> Vec<u8> {
    words.iter().flat_map(|w| w.to_be_bytes()).collect()
}

#[test]
fn binary_module_is_read_in_either_byte_order() {
    let words = vec![SPIRV_MAGIC, 0x0001_0000, 0xdead_beef, 7];
    assert_eq!(SPIRV_MAGIC, 0x0723_0203);
    assert_eq!(read_spirv(&le_bytes(&words)), Some(words.clone()));
    assert_eq!(read_spirv(&be_bytes(&words)), Some(words.clone()));
    assert_eq!(read_spirv(&[0x03, 0x02, 0x23, 0x07]), Some(vec![SPIRV_MAGIC]));
    assert_eq!(read_spirv(&[0x07, 0x23, 0x02, 0x03]), Some(vec![SPIRV_MAGIC]));
    assert!(is_spirv(&le_bytes(&words)));
    assert!(is_spirv(&be_bytes(&words)));
}

#[test]
fn bytes_that_are_no_module_are_refused() {
    let words = vec![SPIRV_MAGIC, 1, 2];
    let mut short = le_bytes(&words);
    short.pop();
    let cases: Vec<Vec<u8>> = vec![
        vec![],
        vec![0x03, 0x02, 0x23],
        short,
        le_bytes(&[0x1234_5678, SPIRV_MAGIC]),
        vec![0x03, 0x02, 0x23, 0x08],
        vec![0, 0, 0, 0],
    ];
    for bytes in cases {
        assert_eq!(read_spirv(&bytes), None, "{:?}", bytes);
        assert!(!is_spirv(&bytes), "{:?}", bytes);
        assert!(ash::util::read_spv(&mut std::io::Cursor::new(&bytes[..])).is_err());
    }
}

#[test]
fn reading_agrees_with_the_compiled_module() {
    let words = compile(TRIANGLE, WgslShaderCompileInfo::default()).unwrap();
    let bytes = le_bytes(&words);
    assert!(is_spirv(&bytes));
    assert_eq!(read_spirv(&bytes), Some(words.clone()));
    assert_eq!(
        ash::util::read_spv(&mut std::io::Cursor::new(&bytes[..])).unwrap(),
        words
    );
    assert_eq!(read_spirv(&be_bytes(&words)), Some(words));
}

#[test]
fn source_kinds_become_words_or_work_for_the_compiler() {
    let device: Device<()> = Device::new();
    let info = WgslShaderCompileInfo { debug: true, flip_y: false };
    let wgsl = ShaderSource::Wgsl(Cow::Borrowed(TRIANGLE), info);
    assert!(wgsl.is_supported());
    match device.create_shader_module(&wgsl) {
        ShaderCode::Wgsl { content, compilation } => {
            assert_eq!(content, TRIANGLE);
            assert_eq!(compilation, WgslCompilation::new(info));
            assert_eq!(compilation.stage, WgslStage::Start);
            assert_eq!(compilation.flags, 0x17);
        }
        _ => panic!("no compilation"),
    }
    let owned =
        ShaderSource::Wgsl(Cow::Owned(NOT_WGSL.to_string()), WgslShaderCompileInfo::default());
    match device.create_shader_module(&owned) {
        ShaderCode::Wgsl { content, compilation } => {
            assert_eq!(content, NOT_WGSL);
            assert_eq!(compilation.flags, default_flags());
        }
        _ => panic!("no compilation"),
    }
    let glsl = ShaderSource::Glsl {
        content: Cow::Borrowed("void main() {}"),
        kind: ShaderKind::Fragment,
        entry: "main",
    };
    assert!(glsl.is_supported());
    match device.create_shader_module(&glsl) {
        ShaderCode::Glsl { content, kind, entry } => {
            assert_eq!(content, "void main() {}");
            assert_eq!(kind, ShaderKind::Fragment);
            assert_eq!(entry, "main");
        }
        _ => panic!("no source"),
    }
    let bytes = le_bytes(&[SPIRV_MAGIC, 5]);
    let binary = ShaderSource::SpirV(&bytes);
    assert!(binary.is_supported());
    match device.create_shader_module(&binary) {
        ShaderCode::Words(words) => assert_eq!(words, vec![SPIRV_MAGIC, 5]),
        _ => panic!("no words"),
    }
    assert!(!ShaderSource::SpirV(&[1, 2, 3, 4]).is_supported());
    let hlsl = ShaderSource::Hlsl {
        content: Cow::Borrowed(""),
        kind: ShaderKind::Vertex,
        entry: "main",
    };
    assert!(!hlsl.is_supported());
}

#[test]
fn module_is_created_from_the_words() {
    let info = module_info(vec![SPIRV_MAGIC, 1]);
    assert_eq!(info.flags, ash::vk::ShaderModuleCreateFlags::empty().as_raw());
    assert_eq!(info.code, vec![SPIRV_MAGIC, 1]);
    assert!(matches!(ShaderModule::created(Ok(12)), Ok(ShaderModule { handle: 12 })));
    assert!(matches!(
        ShaderModule::created(Err(ash::vk::Result::ERROR_INVALID_SHADER_NV)),
        Err(ShaderError::Device(DeviceError::Other(ash::vk::Result::ERROR_INVALID_SHADER_NV)))
    ));
}
