//! The boundary to the native mesh-repair routine: its options record, the
//! typed outcome of its integer status code, and the validated description of
//! one invocation.

use crate::scan::contains_null;
use crate::scan::has_null_char;
use vstd::prelude::*;
use vstd::string::*;

verus! {

/// Options accepted by the native mesh-repair routine, every field concrete.
///
/// No partially-populated record may cross the native boundary; callers with
/// optional fields go through the normalizer first.
#[derive(Debug, Clone)]
pub struct MeshFixOptions {
    /// Join multiple disconnected components into a single mesh.
    pub join_multiple_components: bool,
    /// Write the output in STL format (otherwise OFF format).
    pub stl_output: bool,
    /// Let the native routine skip work when the output is already repaired.
    pub skip_if_fixed: bool,
}

impl Default for MeshFixOptions {
    /// The defaulted record: STL output on, everything else off.
    fn default() -> (r: Self)
        ensures
            r.join_multiple_components == false,
            r.stl_output == true,
            r.skip_if_fixed == false,
    {
        Self { join_multiple_components: false, stl_output: true, skip_if_fixed: false }
    }
}

/// Typed outcome of one native repair invocation.
///
/// The integer status contract with the native library is closed: 0, 1 and 2
/// map to the three named variants, and every other code is preserved
/// verbatim so diagnostics keep the original signal.
#[derive(Debug, Clone)]
pub enum MeshFixResult {
    Success,
    CantOpenFile,
    OutputFileExists,
    UnknownError(i32),
}

/// The fixed mapping from a native status code to its typed outcome.
pub open spec fn outcome_of_code(code: i32) -> MeshFixResult {
    if code == 0 {
        MeshFixResult::Success
    } else if code == 1 {
        MeshFixResult::CantOpenFile
    } else if code == 2 {
        MeshFixResult::OutputFileExists
    } else {
        MeshFixResult::UnknownError(code)
    }
}

impl From<i32> for MeshFixResult {
    /// Interpret a raw native status code.
    fn from(code: i32) -> (r: Self)
        ensures
            r == outcome_of_code(code),
    {
        match code {
            0 => MeshFixResult::Success,
            1 => MeshFixResult::CantOpenFile,
            2 => MeshFixResult::OutputFileExists,
            other => MeshFixResult::UnknownError(other),
        }
    }
}

impl vstd::std_specs::convert::FromSpecImpl<i32> for MeshFixResult {
    open spec fn obeys_from_spec() -> bool {
        true
    }

    open spec fn from_spec(code: i32) -> MeshFixResult {
        outcome_of_code(code)
    }
}

/// The status-code mapping is total over the integers and lossless on the
/// catch-all: an unrecognized code is carried through unchanged, so
/// interpreting a code never discards the raw value.
pub proof fn lemma_outcome_of_code_total(code: i32)
    ensures
        code == 0 ==> outcome_of_code(code) == MeshFixResult::Success,
        code == 1 ==> outcome_of_code(code) == MeshFixResult::CantOpenFile,
        code == 2 ==> outcome_of_code(code) == MeshFixResult::OutputFileExists,
        !(code == 0 || code == 1 || code == 2) ==> outcome_of_code(code)
            == MeshFixResult::UnknownError(code),
{
}

/// The all-defaults options record.
pub open spec fn spec_default_options() -> MeshFixOptions {
    MeshFixOptions { join_multiple_components: false, stl_output: true, skip_if_fixed: false }
}

/// A fully validated native invocation: both paths are known to be free of
/// embedded null characters, so each can be turned into a null-terminated
/// buffer without loss, and the options record is complete.
#[derive(Debug, Clone)]
pub struct FixMeshCall {
    /// Path of the mesh file handed to the native routine.
    pub input_path: String,
    /// Path the repaired mesh is written to; the native routine picks its
    /// own location when absent.
    pub output_path: Option<String>,
    /// The three flags, passed positionally to the native routine.
    pub options: MeshFixOptions,
}

/// What preparing a native invocation returns: either a call description
/// that copies the arguments verbatim, or the error for the first path that
/// holds an embedded null character, the input path checked first.
pub open spec fn prepare_spec(
    r: Result<FixMeshCall, String>,
    input: Seq<char>,
    output: Option<Seq<char>>,
    options: MeshFixOptions,
) -> bool {
    match r {
        Ok(call) => {
            &&& !contains_null(input)
            &&& (output matches Some(o) ==> !contains_null(o))
            &&& call.input_path@ == input
            &&& (output is None ==> call.output_path is None)
            &&& (output matches Some(o) ==> call.output_path matches Some(p) && p@ == o)
            &&& call.options == options
        },
        Err(m) => {
            if contains_null(input) {
                m@ == "Invalid input path: contains null bytes"@
            } else {
                &&& output matches Some(o) && contains_null(o)
                &&& m@ == "Invalid output path: contains null bytes"@
            }
        },
    }
}

/// Validate the strings of one native repair invocation.
///
/// The native routine takes null-terminated buffers, so a path with an
/// embedded null character is rejected here, before any native call could be
/// made; otherwise the arguments are packaged unchanged.
pub fn fix_mesh_prepare(
    input_path: &str,
    output_path: Option<&str>,
    options: &MeshFixOptions,
) -> (r: Result<FixMeshCall, String>)
    ensures
        prepare_spec(r, input_path@, output_path.deep_view(), *options),
{
    if has_null_char(input_path) {
        return Err(String::from_str("Invalid input path: contains null bytes"));
    }
    let out: Option<String> = match output_path {
        Some(o) => {
            if has_null_char(o) {
                return Err(String::from_str("Invalid output path: contains null bytes"));
            }
            Some(String::from_str(o))
        },
        None => None,
    };
    Ok(
        FixMeshCall {
            input_path: String::from_str(input_path),
            output_path: out,
            options: MeshFixOptions {
                join_multiple_components: options.join_multiple_components,
                stl_output: options.stl_output,
                skip_if_fixed: options.skip_if_fixed,
            },
        },
    )
}

/// Validate a native repair invocation that uses the default options.
pub fn fix_mesh_simple(input_path: &str, output_path: Option<&str>) -> (r: Result<
    FixMeshCall,
    String,
>)
    ensures
        prepare_spec(r, input_path@, output_path.deep_view(), spec_default_options()),
{
    let options = MeshFixOptions::default();
    fix_mesh_prepare(input_path, output_path, &options)
}

} // verus!
