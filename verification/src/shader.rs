//! Shader modules: compiled code as 32-bit words, and the stage it runs
//! in.

use crate::command::{VK_SHADER_STAGE_FRAGMENT_BIT, VK_SHADER_STAGE_VERTEX_BIT};
use crate::endian::{is_packed_natively, native_order_is_little, pack_words};
use vstd::prelude::*;

verus! {

/// The stage that a shader runs in.
#[derive(Clone, Copy, Debug, PartialEq, Eq, Structural)]
pub enum ShaderType {
    Vertex,
    Fragment,
}

/// Everything that creating a shader module and naming it in a pipeline
/// needs to be told. The entry point is always `main`.
pub struct Shader {
    /// The code, one word for every four bytes.
    pub code: Vec<u32>,
    /// Length of the code in bytes.
    pub code_size: usize,
    /// The stage bit.
    pub stage: u32,
}

/// The stage bit of a shader type.
pub open spec fn stage_bit(sh_type: ShaderType) -> u32 {
    match sh_type {
        ShaderType::Vertex => VK_SHADER_STAGE_VERTEX_BIT,
        ShaderType::Fragment => VK_SHADER_STAGE_FRAGMENT_BIT,
    }
}

/// Whether compiled code is a whole number of words.
pub open spec fn is_whole_words(bytes: Seq<u8>) -> bool {
    bytes.len() % 4 == 0
}

/// Whether compiled code is a whole number of words: the one thing that
/// is looked at before the bytes are taken for shader code.
pub fn has_whole_words(bytes: &Vec<u8>) -> (whole: bool)
    ensures
        whole == is_whole_words(bytes@),
{
    bytes.len() % 4 == 0
}

/// Packs bytes into words in the byte order of this machine, as a copy of
/// the bytes into word-sized memory would: the order is the one in which
/// the bytes 1, 0, 0, 0 make the word 1, or else the opposite one.
///
/// The number of bytes has to be a multiple of four. Startup does not go
/// on with code that is not: [`has_whole_words`] tells.
pub fn pack_to_u32s(bytes: &Vec<u8>) -> (words: Vec<u32>)
    requires
        is_whole_words(bytes@),
    ensures
        is_packed_natively(words@, bytes@),
{
    let little = native_order_is_little();
    pack_words(bytes, little).unwrap()
}

/// The stage bit of a shader type.
pub fn create_shader_stage_info(sh_type: ShaderType) -> (stage: u32)
    ensures
        stage == stage_bit(sh_type),
{
    match sh_type {
        ShaderType::Vertex => VK_SHADER_STAGE_VERTEX_BIT,
        ShaderType::Fragment => VK_SHADER_STAGE_FRAGMENT_BIT,
    }
}

impl Shader {
    /// The shader module for compiled code, which has to be a whole
    /// number of words. See [`pack_to_u32s`].
    pub fn from_bytes(compiled: &Vec<u8>, sh_type: ShaderType) -> (shader: Shader)
        requires
            is_whole_words(compiled@),
        ensures
            shader.code_size == compiled.len(),
            shader.stage == stage_bit(sh_type),
            is_packed_natively(shader.code@, compiled@),
    {
        let code = pack_to_u32s(compiled);
        Shader { code, code_size: compiled.len(), stage: create_shader_stage_info(sh_type) }
    }

    /// The stage bit under which the pipeline runs this shader.
    pub fn stage_info(&self) -> (stage: u32)
        ensures
            stage == self.stage,
    {
        self.stage
    }
}

} // verus!
