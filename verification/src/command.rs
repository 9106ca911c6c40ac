//! The repair command: request and response types and the job orchestration
//! around one native repair invocation.
//!
//! The orchestrator is a single linear pass split at the native boundary:
//! `fix_mesh_file_begin` takes the request up to the point where only the
//! native routine can continue, and `fix_mesh_file_finish` turns the status
//! code it returned into the response. The surrounding application layer
//! performs the file-existence check and the native call between the two.

use crate::decimal::i32_dec_string;
use crate::decimal::int_to_dec;
use crate::meshfix::FixMeshCall;
use crate::meshfix::MeshFixOptions;
use crate::meshfix::MeshFixResult;
use crate::meshfix::fix_mesh_prepare;
use crate::meshfix::outcome_of_code;
use crate::meshfix::spec_default_options;
use crate::paths::derived_output_path;
use crate::paths::path_derivable;
use crate::paths::resolve_error_message;
use crate::paths::resolve_output_path;
use crate::scan::contains_null;
use vstd::prelude::*;
use vstd::string::*;

verus! {

/// The options record as the front end sends it: every field optional.
#[derive(Debug)]
pub struct FixMeshOptions {
    /// Join multiple disconnected components into a single mesh.
    pub join_multiple_components: Option<bool>,
    /// Write the output in STL format (otherwise OFF format).
    pub stl_output: Option<bool>,
    /// Let the native routine skip work when the output is already repaired.
    pub skip_if_fixed: Option<bool>,
}

/// The structured response handed back to the front end.
#[derive(Debug)]
pub struct FixMeshResponse {
    /// Whether the repair succeeded.
    pub success: bool,
    /// Human-readable account of the outcome; the front end may match on it.
    pub message: String,
    /// Where the repaired mesh was written; present exactly on success.
    pub output_path: Option<String>,
}

/// The normalized options: each absent field takes its default, an absent
/// record takes all defaults.
pub open spec fn spec_normalize_options(options: Option<FixMeshOptions>) -> MeshFixOptions {
    match options {
        Some(o) => MeshFixOptions {
            join_multiple_components: o.join_multiple_components.unwrap_or(false),
            stl_output: o.stl_output.unwrap_or(true),
            skip_if_fixed: o.skip_if_fixed.unwrap_or(false),
        },
        None => spec_default_options(),
    }
}

/// Fill in every missing option field.
///
/// The result always has all three fields concrete, so no partial record
/// can reach the native boundary; this can never fail.
pub fn normalize_options(options: Option<FixMeshOptions>) -> (r: MeshFixOptions)
    ensures
        r == spec_normalize_options(options),
{
    match options {
        Some(opts) => MeshFixOptions {
            join_multiple_components: opts.join_multiple_components.unwrap_or(false),
            stl_output: opts.stl_output.unwrap_or(true),
            skip_if_fixed: opts.skip_if_fixed.unwrap_or(false),
        },
        None => MeshFixOptions::default(),
    }
}

/// The fixed message for each repair outcome.
pub open spec fn outcome_message(outcome: MeshFixResult) -> Seq<char> {
    match outcome {
        MeshFixResult::Success => "Mesh fixed successfully"@,
        MeshFixResult::CantOpenFile => "Cannot open input file"@,
        MeshFixResult::OutputFileExists => "Output file already exists"@,
        MeshFixResult::UnknownError(code) => "Unknown error occurred (code: "@ + int_to_dec(
            code as int,
        ) + ")"@,
    }
}

/// The message for a request whose input file does not exist, the offending
/// path included verbatim.
pub open spec fn missing_input_message(input: Seq<char>) -> Seq<char> {
    "Input file does not exist: "@ + input
}

/// Translate a repair outcome into the response for the front end.
///
/// Success carries the resolved output path; every other outcome carries
/// none, and each outcome maps to its fixed message.
pub fn response_for_outcome(outcome: &MeshFixResult, resolved_path: &str) -> (r: FixMeshResponse)
    ensures
        r.success == (*outcome is Success),
        r.message@ == outcome_message(*outcome),
        *outcome is Success ==> (r.output_path matches Some(p) && p@ == resolved_path@),
        !(*outcome is Success) ==> r.output_path is None,
{
    match outcome {
        MeshFixResult::Success => FixMeshResponse {
            success: true,
            message: String::from_str("Mesh fixed successfully"),
            output_path: Some(String::from_str(resolved_path)),
        },
        MeshFixResult::CantOpenFile => FixMeshResponse {
            success: false,
            message: String::from_str("Cannot open input file"),
            output_path: None,
        },
        MeshFixResult::OutputFileExists => FixMeshResponse {
            success: false,
            message: String::from_str("Output file already exists"),
            output_path: None,
        },
        MeshFixResult::UnknownError(code) => {
            let digits = i32_dec_string(*code);
            let message = String::from_str("Unknown error occurred (code: ").concat(
                digits.as_str(),
            ).concat(")");
            FixMeshResponse { success: false, message, output_path: None }
        },
    }
}

/// The response for a request whose input file does not exist.
pub fn missing_input_response(input_path: &str) -> (r: FixMeshResponse)
    ensures
        r.success == false,
        r.message@ == missing_input_message(input_path@),
        r.output_path is None,
{
    let message = String::from_str("Input file does not exist: ").concat(input_path);
    FixMeshResponse { success: false, message, output_path: None }
}

/// Where the orchestrator stands after everything before the native call:
/// either the response is already decided, or a validated native invocation
/// is the one thing left to do.
#[derive(Debug)]
pub enum FixMeshStep {
    /// The response is decided without any native call.
    Done(FixMeshResponse),
    /// The request is valid; hand this invocation to the native routine.
    Call(FixMeshCall),
}

/// What the first orchestration pass must produce for each request.
///
/// A missing input file decides the response at once. Then, in order: a
/// request whose output path can be neither taken from the caller nor
/// derived fails as a command error, as does a path with an embedded null
/// character, the input path checked first; everything else becomes the one
/// validated native invocation, its arguments pinned.
pub open spec fn begin_spec(
    r: Result<FixMeshStep, String>,
    input_exists: bool,
    input: Seq<char>,
    output: Option<Seq<char>>,
    options: Option<FixMeshOptions>,
) -> bool {
    if !input_exists {
        &&& r matches Ok(FixMeshStep::Done(resp))
        &&& resp.success == false
        &&& resp.message@ == missing_input_message(input)
        &&& resp.output_path is None
    } else {
        let opts = spec_normalize_options(options);
        if output is None && !path_derivable(input) {
            &&& r matches Err(m)
            &&& m@ == resolve_error_message(input)
        } else {
            let resolved = match output {
                Some(o) => o,
                None => derived_output_path(input, opts.stl_output),
            };
            if contains_null(input) {
                &&& r matches Err(m)
                &&& m@ == "Invalid input path: contains null bytes"@
            } else if contains_null(resolved) {
                &&& r matches Err(m)
                &&& m@ == "Invalid output path: contains null bytes"@
            } else {
                &&& r matches Ok(FixMeshStep::Call(call))
                &&& call.input_path@ == input
                &&& call.output_path matches Some(p) && p@ == resolved
                &&& call.options == opts
            }
        }
    }
}

/// Run a repair request up to the native boundary.
///
/// `input_exists` is the application layer's answer to whether `input_path`
/// names an existing file; everything decided here is decided from the
/// arguments alone, in one pass and with no retry.
pub fn fix_mesh_file_begin(
    input_exists: bool,
    input_path: &str,
    output_path: Option<String>,
    options: Option<FixMeshOptions>,
) -> (r: Result<FixMeshStep, String>)
    ensures
        begin_spec(r, input_exists, input_path@, output_path.deep_view(), options),
{
    if !input_exists {
        return Ok(FixMeshStep::Done(missing_input_response(input_path)));
    }
    let fix_options = normalize_options(options);
    let final_output_path = match resolve_output_path(
        input_path,
        output_path,
        fix_options.stl_output,
    ) {
        Ok(p) => p,
        Err(e) => {
            return Err(e);
        },
    };
    match fix_mesh_prepare(input_path, Some(final_output_path.as_str()), &fix_options) {
        Ok(call) => Ok(FixMeshStep::Call(call)),
        Err(e) => Err(e),
    }
}

/// Turn the status code of the native call into the response.
///
/// `output_path` must be the resolved path the invocation was made with; it
/// is reported back to the caller exactly when the code means success.
pub fn fix_mesh_file_finish(code: i32, output_path: &str) -> (r: FixMeshResponse)
    ensures
        r.success == (code == 0),
        r.message@ == outcome_message(outcome_of_code(code)),
        code == 0 ==> (r.output_path matches Some(p) && p@ == output_path@),
        code != 0 ==> r.output_path is None,
{
    let outcome = MeshFixResult::from(code);
    response_for_outcome(&outcome, output_path)
}

} // verus!
