//! Shader compilation support. Invoking the external compiler and checking
//! the file system are platform work; the library holds the compiler's
//! configuration.

use vstd::prelude::*;

verus! {

use vstd::string::StringExecFns;

/// Drives compilation of shader sources to bytecode. The compiler is
/// invoked by the platform layer; this records the directory it works in.
pub struct ShaderCompiler {
    pub shader_dir: String,
}

impl ShaderCompiler {
    /// A compiler working in the current directory.
    pub fn new() -> (c: Self)
        ensures
            c.shader_dir@ == "."@,
    {
        ShaderCompiler { shader_dir: String::from_str(".") }
    }
}

} // verus!
