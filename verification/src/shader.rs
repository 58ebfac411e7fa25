//! Shader build validation: deciding, from what the driver reported, whether
//! a compiled stage or a linked program may be used, and surfacing the
//! driver's diagnostic text verbatim when it may not.
//!
//! Submitting source to the driver and querying it are the caller's side;
//! this module owns the decision and the resulting objects. A
//! [`ShaderObject`] or [`ProgramObject`] can only be obtained through a
//! reply whose status flag reported success, so holding one is proof that
//! the build step it stands for went through.

use vstd::prelude::*;

verus! {

use crate::STATUS_OK;
use crate::StageKind;
use crate::diag::DiagOutcome;
use crate::diag::extract_diagnostic;
use crate::diag::trimmed_log;
use vstd::utf8::valid_utf8;
use vstd::utf8::decode_utf8;

/// What the driver reported after a compile or link was triggered: the
/// queried status flag and, when that flag signals failure, the raw bytes of
/// the info log (terminator included).
pub struct DriverReply {
    pub status: i32,
    pub info_log: Vec<u8>,
}

/// A compiled shader stage. A value of this type exists only for a handle
/// whose compile status query reported success.
pub struct ShaderObject {
    handle: u32,
    stage: StageKind,
}

impl ShaderObject {
    /// The driver handle of this compiled stage.
    pub closed spec fn spec_handle(&self) -> u32 {
        self.handle
    }

    /// The stage kind this shader was compiled for.
    pub closed spec fn spec_stage(&self) -> StageKind {
        self.stage
    }

    pub fn handle(&self) -> (r: u32)
        ensures
            r == self.spec_handle(),
    {
        self.handle
    }

    pub fn stage(&self) -> (r: StageKind)
        ensures
            r == self.spec_stage(),
    {
        self.stage
    }
}

/// A linked program: exactly one vertex stage and one fragment stage,
/// attached and linked with a success status. A value of this type is
/// ready for attribute-location queries and activation.
pub struct ProgramObject {
    handle: u32,
    vertex_shader: u32,
    fragment_shader: u32,
}

impl ProgramObject {
    /// The driver handle of the linked program.
    pub closed spec fn spec_handle(&self) -> u32 {
        self.handle
    }

    /// The handle of the attached vertex stage.
    pub closed spec fn spec_vertex_shader(&self) -> u32 {
        self.vertex_shader
    }

    /// The handle of the attached fragment stage.
    pub closed spec fn spec_fragment_shader(&self) -> u32 {
        self.fragment_shader
    }

    pub fn handle(&self) -> (r: u32)
        ensures
            r == self.spec_handle(),
    {
        self.handle
    }
}

/// Why a build step could not produce a usable object.
#[derive(Debug)]
pub enum BuildError {
    /// Compilation failed; holds the driver's diagnostic text verbatim.
    CompileFailed(String),
    /// Linking failed; holds the driver's diagnostic text verbatim.
    LinkFailed(String),
    /// The driver's info log was not valid text: an internal inconsistency
    /// distinct from a compile or link failure.
    LogNotText,
}

/// Validate one compiled stage. `handle` is the shader object the source was
/// submitted under; `reply` is the compile-status flag and, on failure, the
/// raw info log. Success is owed exactly when the driver reported it.
pub fn compile_shader(handle: u32, stage: StageKind, reply: DriverReply) -> (r: Result<
    ShaderObject,
    BuildError,
>)
    requires
        reply.status != STATUS_OK ==> reply.info_log@.len() >= 1,
    ensures
        r is Ok <==> reply.status == STATUS_OK,
        r matches Ok(s) ==> s.spec_handle() == handle && s.spec_stage() == stage,
        r matches Err(e) ==> !(e is LinkFailed),
        r matches Err(e) ==> (e is CompileFailed <==> valid_utf8(trimmed_log(reply.info_log@))),
        r matches Err(e) ==> (e matches BuildError::CompileFailed(t) ==> t@ == decode_utf8(
            trimmed_log(reply.info_log@),
        )),
{
    match extract_diagnostic(reply.status, reply.info_log) {
        DiagOutcome::Success => Ok(ShaderObject { handle, stage }),
        DiagOutcome::Failure(text) => Err(BuildError::CompileFailed(text)),
        DiagOutcome::BadEncoding => Err(BuildError::LogNotText),
    }
}

/// Validate one linked program built from exactly one compiled vertex stage
/// and one compiled fragment stage. `handle` is the program object both were
/// attached to; `reply` is the link-status flag and, on failure, the raw
/// info log. On success the program is usable immediately for
/// attribute-location queries: nothing beyond holding the value is required
/// of later callers.
pub fn link_program(handle: u32, vs: &ShaderObject, fs: &ShaderObject, reply: DriverReply) -> (r:
    Result<ProgramObject, BuildError>)
    requires
        vs.spec_stage() is Vertex,
        fs.spec_stage() is Fragment,
        reply.status != STATUS_OK ==> reply.info_log@.len() >= 1,
    ensures
        r is Ok <==> reply.status == STATUS_OK,
        r matches Ok(p) ==> p.spec_handle() == handle && p.spec_vertex_shader()
            == vs.spec_handle() && p.spec_fragment_shader() == fs.spec_handle(),
        r matches Err(e) ==> !(e is CompileFailed),
        r matches Err(e) ==> (e is LinkFailed <==> valid_utf8(trimmed_log(reply.info_log@))),
        r matches Err(e) ==> (e matches BuildError::LinkFailed(t) ==> t@ == decode_utf8(
            trimmed_log(reply.info_log@),
        )),
{
    match extract_diagnostic(reply.status, reply.info_log) {
        DiagOutcome::Success => Ok(
            ProgramObject {
                handle,
                vertex_shader: vs.handle(),
                fragment_shader: fs.handle(),
            },
        ),
        DiagOutcome::Failure(text) => Err(BuildError::LinkFailed(text)),
        DiagOutcome::BadEncoding => Err(BuildError::LogNotText),
    }
}

} // verus!
