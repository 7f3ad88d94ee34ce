//! Shader bytecode: from a blob of bytes to the 32-bit words that the
//! backend compiles into a shader module.

use vstd::prelude::*;

use crate::graphics::config::ShaderStage;

verus! {

/// The first word of every SPIR-V module.
pub const SPIRV_MAGIC: u32 = 0x0723_0203;

/// Word `i` of `bytes`, least significant byte first.
pub open spec fn word_le(bytes: Seq<u8>, i: int) -> int {
    bytes[4 * i] + 0x100 * bytes[4 * i + 1] + 0x1_0000 * bytes[4 * i + 2] + 0x100_0000 * bytes[4 * i
        + 3]
}

/// Word `i` of `bytes`, most significant byte first.
pub open spec fn word_be(bytes: Seq<u8>, i: int) -> int {
    0x100_0000 * bytes[4 * i] + 0x1_0000 * bytes[4 * i + 1] + 0x100 * bytes[4 * i + 2] + bytes[4 * i
        + 3]
}

/// A blob is a SPIR-V module when it is a whole, positive number of words
/// and its first word is the magic number in one of the two byte orders.
pub open spec fn is_spirv(bytes: Seq<u8>) -> bool {
    &&& bytes.len() % 4 == 0
    &&& bytes.len() >= 4
    &&& (word_le(bytes, 0) == SPIRV_MAGIC || word_be(bytes, 0) == SPIRV_MAGIC)
}

/// The words of a SPIR-V module, read in the byte order that its magic
/// number shows.
pub open spec fn spirv_words(bytes: Seq<u8>) -> Seq<u32> {
    if word_le(bytes, 0) == SPIRV_MAGIC {
        Seq::new((bytes.len() / 4) as nat, |i: int| word_le(bytes, i) as u32)
    } else {
        Seq::new((bytes.len() / 4) as nat, |i: int| word_be(bytes, i) as u32)
    }
}

/// Why a blob of bytes is no shader bytecode.
#[derive(Clone, Copy, Debug, PartialEq, Eq, Structural)]
pub enum BytecodeError {
    /// The length is not a multiple of four bytes.
    NotWordAligned,
    /// The blob is empty or does not start with the SPIR-V magic number.
    MissingMagicNumber,
}

/// The error that a blob which is no SPIR-V module is refused with.
pub open spec fn decode_error(bytes: Seq<u8>) -> BytecodeError {
    if bytes.len() % 4 != 0 {
        BytecodeError::NotWordAligned
    } else {
        BytecodeError::MissingMagicNumber
    }
}

/// Calls `ash::util::read_spv` on a cursor over `bytes`.
///
/// Trusted: ash refuses a blob whose length is not a multiple of four, and
/// one that is empty or whose first word is the magic number in neither
/// byte order. Of any other blob it returns the words, each read in the byte
/// order in which the first word is the magic number.
#[verifier::external_body]
fn read_spv(bytes: &[u8]) -> (words: Option<Vec<u32>>)
    ensures
        words is Some <==> is_spirv(bytes@),
        words matches Some(w) ==> w@ == spirv_words(bytes@),
{
    ash::util::read_spv(&mut std::io::Cursor::new(bytes)).ok()
}

/// The decoded bytecode of one programmable stage, ready to be handed to
/// the backend.
#[derive(Debug)]
pub struct ShaderModule {
    stage: ShaderStage,
    code: Vec<u32>,
}

/// What a `ShaderModule` stands for.
pub struct ShaderModuleView {
    pub stage: ShaderStage,
    pub code: Seq<u32>,
}

impl View for ShaderModule {
    type V = ShaderModuleView;

    closed spec fn view(&self) -> ShaderModuleView {
        ShaderModuleView { stage: self.stage, code: self.code@ }
    }
}

impl ShaderModule {
    #[verifier::type_invariant]
    spec fn well_formed(self) -> bool {
        self.code@.len() > 0 && self.code@[0] == SPIRV_MAGIC
    }

    /// Decodes `bytecode` for `stage`. A blob that is no SPIR-V module is
    /// refused; in particular one whose length is not a multiple of four is
    /// never truncated.
    pub fn new(stage: ShaderStage, bytecode: &[u8]) -> (r: Result<ShaderModule, BytecodeError>)
        ensures
            r is Ok <==> is_spirv(bytecode@),
            r matches Ok(m) ==> m@ == (ShaderModuleView {
                stage,
                code: spirv_words(bytecode@),
            }),
            r matches Err(e) ==> e == decode_error(bytecode@),
            bytecode@.len() % 4 != 0 ==> r == Err::<ShaderModule, BytecodeError>(
                BytecodeError::NotWordAligned,
            ),
    {
        if bytecode.len() % 4 != 0 {
            return Err(BytecodeError::NotWordAligned);
        }
        match read_spv(bytecode) {
            Some(code) => {
                assert(code@[0] == SPIRV_MAGIC);
                Ok(ShaderModule { stage, code })
            },
            None => Err(BytecodeError::MissingMagicNumber),
        }
    }

    pub fn stage(&self) -> (s: ShaderStage)
        ensures
            s == self@.stage,
    {
        self.stage
    }

    /// The words of the module. There is at least one, and the first is the
    /// magic number.
    pub fn code(&self) -> (words: &[u32])
        ensures
            words@ == self@.code,
            words@.len() > 0,
            words@[0] == SPIRV_MAGIC,
    {
        proof {
            use_type_invariant(self);
        }
        self.code.as_slice()
    }
}

/// A decoded module has one word for every four bytes of the blob, and its
/// first word is the magic number whichever byte order the blob is in.
pub proof fn lemma_spirv_words(bytes: Seq<u8>)
    requires
        is_spirv(bytes),
    ensures
        spirv_words(bytes).len() * 4 == bytes.len(),
        spirv_words(bytes)[0] == SPIRV_MAGIC,
        forall|i: int|
            0 <= i < spirv_words(bytes).len() ==> #[trigger] spirv_words(bytes)[i] == (if word_le(
                bytes,
                0,
            ) == SPIRV_MAGIC {
                word_le(bytes, i)
            } else {
                word_be(bytes, i)
            }),
{
}

} // verus!
