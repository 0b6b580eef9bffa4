//! Shader sources and how they become the words of a native shader module.
//!
//! A module is created from 32-bit words of the binary intermediate format.
//! A binary module is read from its bytes. A high-level source is parsed,
//! validated and written by a compiler that is called from outside this
//! library, step by step as the library says; a mid-level source is handed
//! to another compiler as it is.

use vstd::prelude::*;
use std::borrow::Cow;
use crate::device::{Device, DeviceError};

verus! {

/// A shader module in the intermediate representation of the front end.
/// The library carries such a value and never looks inside it.
#[verifier::external_type_specification]
#[verifier::external_body]
pub struct ExModule(naga::Module);

/// What the validator has found out about a valid module. The library
/// carries such a value and never looks inside it.
#[verifier::external_type_specification]
#[verifier::external_body]
pub struct ExModuleInfo(naga::valid::ModuleInfo);

/// Why a high-level source does not parse. The library carries such a value
/// and never looks inside it.
#[verifier::external_type_specification]
#[verifier::external_body]
pub struct ExParseError(naga::front::wgsl::ParseError);

/// Why a module is not valid. The library carries such a value and never
/// looks inside it.
#[verifier::external_type_specification]
#[verifier::external_body]
pub struct ExValidationError(naga::valid::ValidationError);

/// An error together with the places in the source that it speaks of. The
/// library carries such a value and never looks inside it.
#[verifier::external_type_specification]
#[verifier::external_body]
#[verifier::reject_recursive_types(E)]
pub struct ExWithSpan<E>(naga::WithSpan<E>);

/// Why the back end could not write a module. The library carries such a
/// value and never looks inside it.
#[verifier::external_type_specification]
#[verifier::external_body]
pub struct ExWriterError(naga::back::spv::Error);

/// How a high-level source is compiled.
#[derive(Debug, Copy, Clone, PartialEq, Eq, Structural)]
pub struct WgslShaderCompileInfo {
    /// Keep debug labels in the module.
    pub debug: bool,
    /// Flip the vertical axis of the output position. The back end does so
    /// by default, so asking for it changes nothing.
    pub flip_y: bool,
}

impl Default for WgslShaderCompileInfo {
    fn default() -> (info: Self)
        ensures
            !info.debug,
            !info.flip_y,
    {
        WgslShaderCompileInfo { debug: false, flip_y: false }
    }
}

/// The source of a shader module.
pub enum ShaderSource<'a> {
    /// A high-level textual source.
    Wgsl(Cow<'a, str>, WgslShaderCompileInfo),
    /// A mid-level textual source with its stage and its entry point.
    Glsl { content: Cow<'a, str>, kind: ShaderKind, entry: &'a str },
    Hlsl { content: Cow<'a, str>, kind: ShaderKind, entry: &'a str },
    /// The bytes of a binary module.
    SpirV(&'a [u8]),
}

/// A compiled shader module of the native API.
#[derive(Clone, Copy, Debug, PartialEq, Eq, Structural)]
pub struct ShaderModule {
    pub handle: u64,
}

/// The stage that a mid-level source is compiled for.
#[derive(Clone, Copy, Debug, PartialEq, Eq, Structural)]
pub enum ShaderKind {
    Vertex,
    Fragment,
    Compute,
    Geometry,
    /// The source names its stage in a pragma.
    InferFromSource,
    RayGeneration,
    AnyHit,
    ClosestHit,
    Miss,
    Intersection,
    Callable,
    Task,
    Mesh,
}

/// Why no shader module came of a source.
#[derive(Debug)]
pub enum ShaderError {
    /// The high-level source does not parse.
    WgslParse(naga::front::wgsl::ParseError),
    /// The compiler rejected the mid-level source, with this message.
    GlslParse(String),
    /// No binary module could be generated for the parsed source.
    SpirVParse(naga::back::spv::Error),
    /// The parsed source is not a valid module.
    Validation(naga::WithSpan<naga::valid::ValidationError>),
    /// The native API refused the binary module.
    Device(DeviceError),
}

/// The first word of every binary module.
pub const SPIRV_MAGIC: u32 = 0x0723_0203;

/// Every check of the validator.
pub const VALIDATE_ALL: u8 = 0x1f;

/// Every capability that a validated module may use.
pub const CAPABILITIES_ALL: u8 = 0xff;

/// Writer flag: include debug labels for everything.
pub const WRITER_DEBUG: u32 = 0x1;

/// Writer flag: flip the vertical axis of the output position.
pub const WRITER_ADJUST_COORDINATE_SPACE: u32 = 0x2;

/// Writer flag: name the inputs and outputs of a stage.
pub const WRITER_LABEL_VARYINGS: u32 = 0x4;

/// Writer flag: keep the depth that a fragment writes between zero and one.
pub const WRITER_CLAMP_FRAG_DEPTH: u32 = 0x10;

/// The writer flags that the back end has by default in every build: the
/// coordinate flag, the varyings flag and the depth flag.
pub const WRITER_DEFAULTS: u32 = 0x16;

/// The writer flags that the back end has by default in a build with debug
/// assertions: those of every build and the debug flag.
pub const WRITER_DEFAULTS_DEBUG: u32 = 0x17;

/// Whether `flags` can be the default flags of the back end: the three
/// that every build has, with or without the debug flag, which a build with
/// debug assertions adds.
pub open spec fn is_writer_default(flags: u32) -> bool {
    flags == WRITER_DEFAULTS || flags == WRITER_DEFAULTS_DEBUG
}

/// Reads the flags of `naga::back::spv::Options::default()`. They are the
/// coordinate flag, the varyings flag and the depth flag, and in a build of
/// the back end with debug assertions the debug flag as well; which build
/// this is, the contract leaves open.
#[verifier::external_body]
fn default_writer_flags() -> (flags: u32)
    ensures
        is_writer_default(flags),
{
    naga::back::spv::Options::default().flags.bits()
}

/// The writer flags that a compilation adds to the defaults of the back end.
pub open spec fn spec_writer_flags(info: WgslShaderCompileInfo) -> u32 {
    if info.debug && info.flip_y {
        0x3
    } else if info.debug {
        WRITER_DEBUG
    } else if info.flip_y {
        WRITER_ADJUST_COORDINATE_SPACE
    } else {
        0
    }
}

/// The writer flags that a compilation adds to the defaults of the back end:
/// the debug flag and the coordinate flag, each where `info` asks for it.
#[verifier::when_used_as_spec(spec_writer_flags)]
pub fn writer_flags(info: WgslShaderCompileInfo) -> (flags: u32)
    ensures
        flags == spec_writer_flags(info),
{
    if info.debug && info.flip_y {
        0x3
    } else if info.debug {
        WRITER_DEBUG
    } else if info.flip_y {
        WRITER_ADJUST_COORDINATE_SPACE
    } else {
        0
    }
}

/// A parsed module, or the parse failure as a shader error.
pub fn parsed_module(parsed: Result<naga::Module, naga::front::wgsl::ParseError>) -> (module:
    Result<naga::Module, ShaderError>)
    ensures
        module == match parsed {
            Ok(m) => Ok::<naga::Module, ShaderError>(m),
            Err(e) => Err::<naga::Module, ShaderError>(ShaderError::WgslParse(e)),
        },
{
    match parsed {
        Ok(m) => Ok(m),
        Err(e) => Err(ShaderError::WgslParse(e)),
    }
}

/// The validation of a module, or the validation failure as a shader error.
pub fn validated_module(
    checked: Result<naga::valid::ModuleInfo, naga::WithSpan<naga::valid::ValidationError>>,
) -> (info: Result<naga::valid::ModuleInfo, ShaderError>)
    ensures
        info == match checked {
            Ok(i) => Ok::<naga::valid::ModuleInfo, ShaderError>(i),
            Err(e) => Err::<naga::valid::ModuleInfo, ShaderError>(ShaderError::Validation(e)),
        },
{
    match checked {
        Ok(i) => Ok(i),
        Err(e) => Err(ShaderError::Validation(e)),
    }
}

/// The words of a generated module, or the failure of the back end as a
/// shader error.
pub fn generated_words(written: Result<Vec<u32>, naga::back::spv::Error>) -> (words: Result<
    Vec<u32>,
    ShaderError,
>)
    ensures
        words == match written {
            Ok(w) => Ok::<Vec<u32>, ShaderError>(w),
            Err(e) => Err::<Vec<u32>, ShaderError>(ShaderError::SpirVParse(e)),
        },
{
    match written {
        Ok(w) => Ok(w),
        Err(e) => Err(ShaderError::SpirVParse(e)),
    }
}

/// The writer flags that the back end is given: its defaults and what the
/// compilation adds to them.
pub open spec fn complete_flags(defaults: u32, info: WgslShaderCompileInfo) -> u32 {
    defaults | spec_writer_flags(info)
}

/// The writer flags that the back end is given when its defaults are
/// `defaults`.
pub fn complete_writer_flags(defaults: u32, info: WgslShaderCompileInfo) -> (flags: u32)
    ensures
        flags == complete_flags(defaults, info),
{
    defaults | writer_flags(info)
}

/// What the back end is given, whichever build it is. The three default
/// flags are always set and no flag beside them and the debug flag is. The
/// debug flag is set where the compilation asks for it, and else where the
/// build has it by default. The coordinate flag is among the defaults, so
/// asking for it changes nothing.
pub proof fn lemma_complete_flags(defaults: u32, info: WgslShaderCompileInfo)
    requires
        is_writer_default(defaults),
    ensures
        is_writer_default(complete_flags(defaults, info)),
        info.debug ==> complete_flags(defaults, info) == WRITER_DEFAULTS_DEBUG,
        !info.debug ==> complete_flags(defaults, info) == defaults,
        complete_flags(defaults, info) == complete_flags(
            defaults,
            WgslShaderCompileInfo { debug: info.debug, flip_y: false },
        ),
{
    assert(0x16u32 | 0x0 == 0x16 && 0x16u32 | 0x1 == 0x17 && 0x16u32 | 0x2 == 0x16 && 0x16u32 | 0x3
        == 0x17 && 0x17u32 | 0x0 == 0x17 && 0x17u32 | 0x1 == 0x17 && 0x17u32 | 0x2 == 0x17
        && 0x17u32 | 0x3 == 0x17) by (bit_vector);
}

/// How far the compilation of a high-level source has come.
#[derive(Clone, Copy, Debug, PartialEq, Eq, Structural)]
pub enum WgslStage {
    /// Nothing was asked of the compiler yet.
    Start,
    /// The source is being parsed.
    Parsing,
    /// The parsed module is being validated.
    Validating,
    /// The valid module is being written.
    Writing,
    /// The words are there, or the compilation has failed.
    Finished,
}

/// What the compiler answered.
#[derive(Debug)]
pub enum WgslEvent {
    /// The compilation begins.
    Begin,
    /// The source was parsed to this module, or does not parse.
    Parsed(Result<naga::Module, naga::front::wgsl::ParseError>),
    /// The module was validated, or is not valid.
    Validated {
        module: naga::Module,
        checked: Result<naga::valid::ModuleInfo, naga::WithSpan<naga::valid::ValidationError>>,
    },
    /// The module was written to these words, or could not be written.
    Written(Result<Vec<u32>, naga::back::spv::Error>),
}

/// What to do next.
#[derive(Debug)]
pub enum WgslStep {
    /// Parse the source.
    Parse,
    /// Validate the module, with these checks and these capabilities.
    Validate { module: naga::Module, flags: u8, capabilities: u8 },
    /// Write the module, which is valid, with these writer flags and no
    /// other.
    Write { module: naga::Module, info: naga::valid::ModuleInfo, flags: u32 },
    /// The words of the binary module.
    Done(Vec<u32>),
    /// The compilation has failed.
    Fail(ShaderError),
}

/// The compilation of one high-level source to the words of a binary
/// module. The source is parsed; the parsed module is validated with every
/// check and every capability; the valid module is written. The first step
/// that fails ends the compilation, each with its own kind of error.
#[derive(Clone, Copy, Debug, PartialEq, Eq, Structural)]
pub struct WgslCompilation {
    pub stage: WgslStage,
    /// The writer flags that the back end is given.
    pub flags: u32,
}

impl WgslCompilation {
    /// Whether `event` is the answer that the compilation waits for.
    pub open spec fn expects(self, event: WgslEvent) -> bool {
        match (self.stage, event) {
            (WgslStage::Start, WgslEvent::Begin) => true,
            (WgslStage::Parsing, WgslEvent::Parsed(_)) => true,
            (WgslStage::Validating, WgslEvent::Validated { .. }) => true,
            (WgslStage::Writing, WgslEvent::Written(_)) => true,
            _ => false,
        }
    }

    /// The compilation after `event`, and what to do next.
    pub open spec fn next(self, event: WgslEvent) -> (WgslCompilation, WgslStep) {
        match event {
            WgslEvent::Begin => (
                WgslCompilation { stage: WgslStage::Parsing, ..self },
                WgslStep::Parse,
            ),
            WgslEvent::Parsed(Ok(module)) => (
                WgslCompilation { stage: WgslStage::Validating, ..self },
                WgslStep::Validate { module, flags: VALIDATE_ALL, capabilities: CAPABILITIES_ALL },
            ),
            WgslEvent::Parsed(Err(error)) => (
                WgslCompilation { stage: WgslStage::Finished, ..self },
                WgslStep::Fail(ShaderError::WgslParse(error)),
            ),
            WgslEvent::Validated { module, checked: Ok(info) } => (
                WgslCompilation { stage: WgslStage::Writing, ..self },
                WgslStep::Write { module, info, flags: self.flags },
            ),
            WgslEvent::Validated { module, checked: Err(error) } => (
                WgslCompilation { stage: WgslStage::Finished, ..self },
                WgslStep::Fail(ShaderError::Validation(error)),
            ),
            WgslEvent::Written(Ok(words)) => (
                WgslCompilation { stage: WgslStage::Finished, ..self },
                WgslStep::Done(words),
            ),
            WgslEvent::Written(Err(error)) => (
                WgslCompilation { stage: WgslStage::Finished, ..self },
                WgslStep::Fail(ShaderError::SpirVParse(error)),
            ),
        }
    }

    /// Begins a compilation. The back end will be given its default flags
    /// and what `info` adds to them; the defaults are those of this build of
    /// the back end, with or without the debug flag.
    pub fn new(info: WgslShaderCompileInfo) -> (compilation: Self)
        ensures
            compilation.stage == WgslStage::Start,
            compilation.flags == complete_flags(WRITER_DEFAULTS, info) || compilation.flags
                == complete_flags(WRITER_DEFAULTS_DEBUG, info),
    {
        WgslCompilation {
            stage: WgslStage::Start,
            flags: complete_writer_flags(default_writer_flags(), info),
        }
    }

    /// Whether `event` is the answer that the compilation waits for.
    pub fn is_expected(&self, event: &WgslEvent) -> (ok: bool)
        ensures
            ok == self.expects(*event),
    {
        match (self.stage, event) {
            (WgslStage::Start, WgslEvent::Begin) => true,
            (WgslStage::Parsing, WgslEvent::Parsed(_)) => true,
            (WgslStage::Validating, WgslEvent::Validated { .. }) => true,
            (WgslStage::Writing, WgslEvent::Written(_)) => true,
            _ => false,
        }
    }

    /// Takes the answer to the last step and says what to do next.
    pub fn advance(&mut self, event: WgslEvent) -> (step: WgslStep)
        requires
            old(self).expects(event),
        ensures
            (*final(self), step) == old(self).next(event),
    {
        match event {
            WgslEvent::Begin => {
                self.stage = WgslStage::Parsing;
                WgslStep::Parse
            },
            WgslEvent::Parsed(parsed) => match parsed_module(parsed) {
                Ok(module) => {
                    self.stage = WgslStage::Validating;
                    WgslStep::Validate {
                        module,
                        flags: VALIDATE_ALL,
                        capabilities: CAPABILITIES_ALL,
                    }
                },
                Err(error) => {
                    self.stage = WgslStage::Finished;
                    WgslStep::Fail(error)
                },
            },
            WgslEvent::Validated { module, checked } => match validated_module(checked) {
                Ok(info) => {
                    self.stage = WgslStage::Writing;
                    WgslStep::Write { module, info, flags: self.flags }
                },
                Err(error) => {
                    self.stage = WgslStage::Finished;
                    WgslStep::Fail(error)
                },
            },
            WgslEvent::Written(written) => {
                self.stage = WgslStage::Finished;
                match generated_words(written) {
                    Ok(words) => WgslStep::Done(words),
                    Err(error) => WgslStep::Fail(error),
                }
            },
        }
    }
}

/// A module is written only once it is validated, and it is the validated
/// module with its validation that is written. Each failure has its own
/// kind: a source that does not parse is a parse error, a module that is
/// not valid is a validation error, and a module that cannot be written is
/// an error of the back end. The words are done exactly when they are
/// written.
pub proof fn lemma_wgsl_steps(compilation: WgslCompilation, event: WgslEvent)
    requires
        compilation.expects(event),
    ensures
        match compilation.next(event).1 {
            WgslStep::Parse => event is Begin,
            WgslStep::Validate { module, flags, capabilities } => event == WgslEvent::Parsed(
                Ok(module),
            ) && flags == VALIDATE_ALL && capabilities == CAPABILITIES_ALL,
            WgslStep::Write { module, info, flags } => event == (WgslEvent::Validated {
                module,
                checked: Ok(info),
            }) && flags == compilation.flags,
            WgslStep::Done(words) => event == WgslEvent::Written(Ok(words)),
            WgslStep::Fail(ShaderError::WgslParse(error)) => event == WgslEvent::Parsed(
                Err(error),
            ),
            WgslStep::Fail(ShaderError::Validation(error)) => event matches WgslEvent::Validated {
                checked: Err(e),
                ..
            } && e == error,
            WgslStep::Fail(ShaderError::SpirVParse(error)) => event == WgslEvent::Written(
                Err(error),
            ),
            WgslStep::Fail(_) => false,
        },
        (compilation.next(event).1 is Done || compilation.next(event).1 is Fail)
            == (compilation.next(event).0.stage == WgslStage::Finished),
{
}

/// The word whose four bytes stand at `4 * index` in `bytes`, lowest byte
/// first.
pub open spec fn word_le(bytes: Seq<u8>, index: int) -> u32 {
    (bytes[4 * index] as int + 0x100 * (bytes[4 * index + 1] as int) + 0x1_0000 * (bytes[4 * index
        + 2] as int) + 0x100_0000 * (bytes[4 * index + 3] as int)) as u32
}

/// The word whose four bytes stand at `4 * index` in `bytes`, highest byte
/// first.
pub open spec fn word_be(bytes: Seq<u8>, index: int) -> u32 {
    (bytes[4 * index + 3] as int + 0x100 * (bytes[4 * index + 2] as int) + 0x1_0000 * (bytes[4
        * index + 1] as int) + 0x100_0000 * (bytes[4 * index] as int)) as u32
}

/// The words of a binary module given as bytes. The bytes are a module where
/// their number is a positive multiple of four and the first word is the
/// magic number in one of the two byte orders; every word is then read in
/// that byte order.
pub open spec fn spirv_words(bytes: Seq<u8>) -> Option<Seq<u32>> {
    if bytes.len() == 0 || bytes.len() % 4 != 0 {
        None
    } else if word_le(bytes, 0) == SPIRV_MAGIC {
        Some(Seq::new(bytes.len() / 4, |i: int| word_le(bytes, i)))
    } else if word_be(bytes, 0) == SPIRV_MAGIC {
        Some(Seq::new(bytes.len() / 4, |i: int| word_be(bytes, i)))
    } else {
        None
    }
}

/// Calls `ash::util::read_spv` on a cursor over the bytes. That function
/// fails where the length is no multiple of four or the first word is not
/// the magic number in either byte order, and else returns the words in the
/// byte order in which the first one is the magic number.
#[verifier::external_body]
fn read_spv(bytes: &[u8]) -> (words: Option<Vec<u32>>)
    ensures
        match words {
            Some(w) => spirv_words(bytes@) == Some(w@),
            None => spirv_words(bytes@).is_none(),
        },
{
    ash::util::read_spv(&mut std::io::Cursor::new(bytes)).ok()
}

/// Whether the bytes are a binary module.
pub fn is_spirv(bytes: &[u8]) -> (ok: bool)
    ensures
        ok == spirv_words(bytes@).is_some(),
{
    if bytes.len() == 0 || bytes.len() % 4 != 0 {
        return false;
    }
    let b0: u32 = bytes[0] as u32;
    let b1: u32 = bytes[1] as u32;
    let b2: u32 = bytes[2] as u32;
    let b3: u32 = bytes[3] as u32;
    let le: u32 = b0 + 0x100 * b1 + 0x1_0000 * b2 + 0x100_0000 * b3;
    let be: u32 = b3 + 0x100 * b2 + 0x1_0000 * b1 + 0x100_0000 * b0;
    le == SPIRV_MAGIC || be == SPIRV_MAGIC
}

/// Reads the words of a binary module from its bytes.
pub fn read_spirv(bytes: &[u8]) -> (words: Option<Vec<u32>>)
    ensures
        match words {
            Some(w) => spirv_words(bytes@) == Some(w@),
            None => spirv_words(bytes@).is_none(),
        },
        words.is_some() ==> words.unwrap()@.len() * 4 == bytes@.len() && words.unwrap()@[0]
            == SPIRV_MAGIC,
{
    read_spv(bytes)
}

/// What a shader module is made from, once the library has done its part.
pub enum ShaderCode<'a> {
    /// The words of the module.
    Words(Vec<u32>),
    /// A high-level source to compile, step by step as `compilation` says.
    Wgsl { content: &'a str, compilation: WgslCompilation },
    /// A mid-level source that a compiler has to turn into words.
    Glsl { content: &'a str, kind: ShaderKind, entry: &'a str },
}

impl<'a> ShaderSource<'a> {
    /// Whether the library can make a module from the source: any source but
    /// the unsupported mid-level dialect, and of binary sources those whose
    /// bytes are a module.
    pub open spec fn supported(&self) -> bool {
        match self {
            ShaderSource::Hlsl { .. } => false,
            ShaderSource::SpirV(bytes) => spirv_words(bytes@).is_some(),
            _ => true,
        }
    }

    /// Whether the library can make a module from the source.
    pub fn is_supported(&self) -> (ok: bool)
        ensures
            ok == self.supported(),
    {
        match self {
            ShaderSource::Hlsl { .. } => false,
            ShaderSource::SpirV(bytes) => is_spirv(bytes),
            _ => true,
        }
    }
}

impl<E> Device<E> {
    /// What the source's module is made from. A binary source is read to
    /// its words. A high-level source is handed on with the compilation that
    /// it is to go through, and a mid-level one with its stage and its entry
    /// point.
    pub fn create_shader_module<'a>(&self, source: &'a ShaderSource<'a>) -> (code: ShaderCode<'a>)
        requires
            source.supported(),
        ensures
            match *source {
                ShaderSource::Wgsl(text, info) => match code {
                    ShaderCode::Wgsl { content, compilation } => content@ == text@
                        && compilation.stage == WgslStage::Start && (compilation.flags
                        == complete_flags(WRITER_DEFAULTS, info) || compilation.flags
                        == complete_flags(WRITER_DEFAULTS_DEBUG, info)),
                    _ => false,
                },
                ShaderSource::Glsl { content, kind, entry } => match code {
                    ShaderCode::Glsl { content: c, kind: k, entry: e } => c@ == content@ && k
                        == kind && e == entry,
                    _ => false,
                },
                ShaderSource::Hlsl { .. } => true,
                ShaderSource::SpirV(bytes) => match code {
                    ShaderCode::Words(words) => spirv_words(bytes@) == Some(words@),
                    _ => false,
                },
            },
    {
        match source {
            ShaderSource::Wgsl(text, info) => ShaderCode::Wgsl {
                content: as_str(text),
                compilation: WgslCompilation::new(*info),
            },
            ShaderSource::Glsl { content, kind, entry } => ShaderCode::Glsl {
                content: as_str(content),
                kind: *kind,
                entry: *entry,
            },
            ShaderSource::Hlsl { .. } => vstd::pervasive::unreached(),
            ShaderSource::SpirV(bytes) => {
                match read_spirv(bytes) {
                    Some(words) => ShaderCode::Words(words),
                    None => vstd::pervasive::unreached(),
                }
            },
        }
    }
}

/// The text of a borrowed or owned string.
fn as_str<'b>(source: &'b Cow<'_, str>) -> (text: &'b str)
    ensures
        text@ == source@,
{
    match source {
        Cow::Borrowed(borrowed) => borrowed,
        Cow::Owned(owned) => owned.as_str(),
    }
}

/// What a native shader module is created from.
#[derive(Debug, PartialEq, Eq)]
pub struct ShaderModuleCreateInfo {
    pub flags: u32,
    pub code: Vec<u32>,
}

/// What the native module of the given words is created from.
pub fn module_info(words: Vec<u32>) -> (info: ShaderModuleCreateInfo)
    ensures
        info.flags == 0,
        info.code == words,
{
    ShaderModuleCreateInfo { flags: 0, code: words }
}

/// The words that the outside compiler made of a mid-level source, or its
/// message as a shader error.
pub fn compiled_glsl(compiled: Result<Vec<u32>, String>) -> (words: Result<Vec<u32>, ShaderError>)
    ensures
        words == match compiled {
            Ok(w) => Ok::<Vec<u32>, ShaderError>(w),
            Err(message) => Err::<Vec<u32>, ShaderError>(ShaderError::GlslParse(message)),
        },
{
    match compiled {
        Ok(w) => Ok(w),
        Err(message) => Err(ShaderError::GlslParse(message)),
    }
}

impl ShaderModule {
    /// The shader module that the native API created, or its refusal as a
    /// shader error.
    pub fn created(result: Result<u64, ash::vk::Result>) -> (module: Result<
        ShaderModule,
        ShaderError,
    >)
        ensures
            module == match result {
                Ok(handle) => Ok::<ShaderModule, ShaderError>(ShaderModule { handle }),
                Err(status) => Err::<ShaderModule, ShaderError>(
                    ShaderError::Device(DeviceError::Other(status)),
                ),
            },
    {
        match result {
            Ok(handle) => Ok(ShaderModule { handle }),
            Err(status) => Err(ShaderError::Device(DeviceError::Other(status))),
        }
    }
}

} // verus!
