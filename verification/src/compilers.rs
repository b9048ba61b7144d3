//! The pass-through compiler for plain JavaScript sources: the module's
//! code is the source text itself and its name is the source URL.

use vstd::prelude::*;

verus! {

/// A module ready to hand to the engine.
pub struct CompiledModule {
    pub code: String,
    pub name: String,
}

/// The no-op compiler used for sources that are already JavaScript.
pub struct JsCompiler {}

impl JsCompiler {
    pub fn new() -> JsCompiler {
        JsCompiler {  }
    }

    /// Wraps a fetched source file as a compiled module unchanged: the
    /// code is the decoded source text, the name its URL.
    pub fn compile(&self, url: String, source_text: String) -> (m: CompiledModule)
        ensures
            m.code@ == source_text@,
            m.name@ == url@,
    {
        CompiledModule { code: source_text, name: url }
    }
}

} // verus!
