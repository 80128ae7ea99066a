//! Assembly of shader source text for compilation.
//!
//! A program links a vertex stage and a fragment stage.  The caller supplies
//! the raw source of each; the library prepends the fixed language-version
//! directive and fixes the stage order.  Compiling and linking against the
//! driver — and aborting with its diagnostic text on failure — is the
//! interpreter's part.

use vstd::prelude::*;
use vstd::string::StringExecFns;

verus! {

/// The two programmable stages a program links, in compilation order.
#[derive(Clone, Copy, Debug, PartialEq, Eq, Structural)]
pub enum ShaderStage {
    Vertex,
    Fragment,
}

/// The language-version directive prepended to every shader source.
pub open spec fn version_directive() -> Seq<char> {
    "#version 330"@
}

/// Prepends the version directive and a newline to a stage's source text.
pub fn source_with_version(body: &str) -> (r: String)
    ensures
        r@ == version_directive() + "\n"@ + body@,
{
    let mut s = String::from_str("#version 330");
    s.append("\n");
    s.append(body);
    s
}

/// The compile plan for a program: the vertex stage then the fragment
/// stage, each with its source prefixed by the version directive.  The
/// interpreter compiles each stage in order, attaches both to a new
/// program, links it, and detaches and deletes the per-stage objects after
/// a successful link.
pub fn compile_plan(vertex_source: &str, fragment_source: &str) -> (r: Vec<(ShaderStage, String)>)
    ensures
        r@.len() == 2,
        r@[0].0 == ShaderStage::Vertex,
        r@[0].1@ == version_directive() + "\n"@ + vertex_source@,
        r@[1].0 == ShaderStage::Fragment,
        r@[1].1@ == version_directive() + "\n"@ + fragment_source@,
{
    let mut r: Vec<(ShaderStage, String)> = Vec::new();
    r.push((ShaderStage::Vertex, source_with_version(vertex_source)));
    r.push((ShaderStage::Fragment, source_with_version(fragment_source)));
    r
}

} // verus!
