//! Shader bytecode handling and the pipeline cache with its hot-swap
//! protocol.
//!
//! Bytecode is an opaque stream of 32-bit little-endian words; a module is
//! well-formed when it is word-aligned, holds at least the five header
//! words, and opens with the expected magic word. The cache never gives up
//! the active pipeline until a replacement has compiled: a reload is split
//! into `begin_reload`, which validates the bytecode and stages it, and
//! `finish_reload`, which takes the compile outcome and either installs the
//! new pipeline (only once the device is idle) or keeps the last good one.

use vstd::prelude::*;

verus! {

/// First header word of a well-formed bytecode module.
pub const BYTECODE_MAGIC: u32 = 0x0723_0203;

/// Errors of a pipeline (re)load. `BytecodeInvalid` is detected before any
/// compilation; `CompileFailed` is the device rejecting a well-formed blob.
#[derive(Clone, Copy, Debug, PartialEq, Eq, Structural)]
pub enum LoadError {
    BytecodeInvalid,
    CompileFailed,
}

/// The 32-bit word at word index `k` of a little-endian byte stream.
pub open spec fn spec_word_at(bytes: Seq<u8>, k: int) -> u32 {
    (bytes[4 * k] as u32) | ((bytes[4 * k + 1] as u32) << 8u32) | ((bytes[4 * k + 2] as u32)
        << 16u32) | ((bytes[4 * k + 3] as u32) << 24u32)
}

/// A bytecode module is well-formed when it is a whole number of words,
/// holds at least the five header words, and opens with the magic word.
pub open spec fn spec_valid_module(bytes: Seq<u8>) -> bool {
    &&& bytes.len() % 4 == 0
    &&& bytes.len() >= 20
    &&& spec_word_at(bytes, 0) == BYTECODE_MAGIC
}

/// Decodes one little-endian word starting at byte `4 * k`.
fn word_at(bytes: &Vec<u8>, k: usize) -> (w: u32)
    requires
        4 * k + 4 <= bytes@.len(),
    ensures
        w == spec_word_at(bytes@, k as int),
{
    let n = bytes.len();
    proof {
        assert(4 * (k as int) + 4 <= n as int);
    }
    let base = 4 * k;
    (bytes[base] as u32) | ((bytes[base + 1] as u32) << 8u32) | ((bytes[base + 2] as u32)
        << 16u32) | ((bytes[base + 3] as u32) << 24u32)
}

/// Checks the module header: word alignment, minimum length, magic word.
pub fn validate_bytecode(bytes: &Vec<u8>) -> (r: bool)
    ensures
        r == spec_valid_module(bytes@),
{
    if bytes.len() % 4 != 0 || bytes.len() < 20 {
        return false;
    }
    word_at(bytes, 0) == BYTECODE_MAGIC
}

/// Converts a byte stream into its 32-bit little-endian words; a trailing
/// partial word is dropped.
pub fn words_from_bytes(bytes: &Vec<u8>) -> (r: Vec<u32>)
    ensures
        r@.len() == bytes@.len() as int / 4,
        forall|k: int| 0 <= k < r@.len() ==> r@[k] == spec_word_at(bytes@, k),
{
    let n = bytes.len() / 4;
    let mut r: Vec<u32> = Vec::new();
    let mut k: usize = 0;
    while k < n
        invariant
            n == bytes@.len() as int / 4,
            k <= n,
            r@.len() == k,
            forall|j: int| 0 <= j < r@.len() ==> r@[j] == spec_word_at(bytes@, j),
        decreases n - k,
    {
        assert(4 * k + 4 <= bytes@.len());
        let w = word_at(bytes, k);
        r.push(w);
        k = k + 1;
    }
    r
}

/// A compiled graphics pipeline: the device handle and the viewport baked
/// into it (viewport and scissor are not dynamic state).
#[derive(Clone, Copy, Debug, PartialEq, Eq, Structural)]
pub struct Pipeline {
    pub handle: u64,
    pub viewport_w: u32,
    pub viewport_h: u32,
}

/// A validated reload staged between `begin_reload` and `finish_reload`:
/// the word streams of both stages and the viewport of the pipeline to
/// build.
pub struct PendingLoad {
    pub vert_words: Vec<u32>,
    pub frag_words: Vec<u32>,
    pub viewport_w: u32,
    pub viewport_h: u32,
}

/// The pipeline the cache exposes after a reload completes: the freshly
/// compiled one on success, the previously active one on failure.
pub open spec fn spec_reload_active(
    before: Option<Pipeline>,
    staged_w: u32,
    staged_h: u32,
    outcome: Option<u64>,
) -> Option<Pipeline> {
    match outcome {
        Some(handle) => Some(Pipeline { handle, viewport_w: staged_w, viewport_h: staged_h }),
        None => before,
    }
}

/// Compiles bytecode pairs into the executable pipeline and swaps it in
/// safely: the active pipeline survives every failed reload.
pub struct PipelineCache {
    pub active: Option<Pipeline>,
    pub pending: Option<PendingLoad>,
}

impl PipelineCache {
    /// An empty cache: no pipeline yet, nothing staged.
    pub fn new() -> (c: Self)
        ensures
            c.active is None,
            c.pending is None,
    {
        PipelineCache { active: None, pending: None }
    }

    /// The currently active pipeline, if any. A frame drawn while this is
    /// `None` still clears the target but issues no draw call.
    pub fn current(&self) -> (r: Option<Pipeline>)
        ensures
            r == self.active,
    {
        self.active
    }

    /// Validates a (vertex, fragment) bytecode pair and stages it for
    /// compilation at the given viewport. The active pipeline is never
    /// touched here; on malformed bytecode nothing is staged either.
    pub fn begin_reload(
        &mut self,
        vert: &Vec<u8>,
        frag: &Vec<u8>,
        viewport_w: u32,
        viewport_h: u32,
    ) -> (r: Result<(), LoadError>)
        ensures
            final(self).active == old(self).active,
            match r {
                Ok(()) => {
                    &&& spec_valid_module(vert@)
                    &&& spec_valid_module(frag@)
                    &&& match final(self).pending {
                        Some(p) => {
                            &&& p.vert_words@.len() == vert@.len() as int / 4
                            &&& forall|k: int|
                                0 <= k < p.vert_words@.len() ==> p.vert_words@[k] == spec_word_at(
                                    vert@,
                                    k,
                                )
                            &&& p.frag_words@.len() == frag@.len() as int / 4
                            &&& forall|k: int|
                                0 <= k < p.frag_words@.len() ==> p.frag_words@[k] == spec_word_at(
                                    frag@,
                                    k,
                                )
                            &&& p.viewport_w == viewport_w
                            &&& p.viewport_h == viewport_h
                        },
                        None => false,
                    }
                },
                Err(e) => {
                    &&& e == LoadError::BytecodeInvalid
                    &&& !(spec_valid_module(vert@) && spec_valid_module(frag@))
                    &&& final(self).pending is None
                },
            },
    {
        if !validate_bytecode(vert) || !validate_bytecode(frag) {
            self.pending = None;
            return Err(LoadError::BytecodeInvalid);
        }
        let vert_words = words_from_bytes(vert);
        let frag_words = words_from_bytes(frag);
        self.pending = Some(PendingLoad { vert_words, frag_words, viewport_w, viewport_h });
        Ok(())
    }

    /// Takes the device's compile outcome for the staged load. On failure
    /// the last good pipeline stays active and rendering continues with it;
    /// on success the new pipeline replaces it. `device_idle` records that
    /// no submitted command buffer still references the old pipeline; the
    /// swap is allowed only then.
    pub fn finish_reload(&mut self, outcome: Option<u64>, device_idle: bool) -> (r: Result<
        (),
        LoadError,
    >)
        requires
            old(self).pending is Some,
            outcome is Some ==> device_idle,
        ensures
            final(self).pending is None,
            final(self).active == spec_reload_active(
                old(self).active,
                old(self).pending->Some_0.viewport_w,
                old(self).pending->Some_0.viewport_h,
                outcome,
            ),
            match r {
                Ok(()) => outcome is Some,
                Err(e) => e == LoadError::CompileFailed && outcome is None,
            },
    {
        let staged = match self.pending.take() {
            Some(p) => p,
            None => {
                proof {
                    assert(false);
                }
                return Err(LoadError::CompileFailed);
            },
        };
        match outcome {
            Some(handle) => {
                self.active = Some(
                    Pipeline {
                        handle,
                        viewport_w: staged.viewport_w,
                        viewport_h: staged.viewport_h,
                    },
                );
                Ok(())
            },
            None => Err(LoadError::CompileFailed),
        }
    }

    /// Whether the active pipeline was built for a different extent and
    /// must be rebuilt after a swapchain recreation: the viewport is baked
    /// into the pipeline rather than supplied dynamically.
    pub fn needs_rebuild(&self, extent_w: u32, extent_h: u32) -> (r: bool)
        ensures
            r == match self.active {
                Some(p) => p.viewport_w != extent_w || p.viewport_h != extent_h,
                None => false,
            },
    {
        match &self.active {
            Some(p) => p.viewport_w != extent_w || p.viewport_h != extent_h,
            None => false,
        }
    }
}

/// Pipeline hot-swap is atomic for an observer of the current pipeline: a
/// reload whose compilation failed leaves the active pipeline exactly as it
/// was, and a successful reload replaces it with the staged one. Together
/// with `begin_reload` never changing the active pipeline, every failure
/// path of a reload preserves the observable pipeline.
pub proof fn lemma_hot_swap_atomic(
    before: Option<Pipeline>,
    staged_w: u32,
    staged_h: u32,
    outcome: Option<u64>,
)
    ensures
        outcome is None ==> spec_reload_active(before, staged_w, staged_h, outcome) == before,
        outcome matches Some(h) ==> spec_reload_active(before, staged_w, staged_h, outcome)
            == Some(Pipeline { handle: h, viewport_w: staged_w, viewport_h: staged_h }),
{
}

} // verus!
