//! Tests for the command layer: options normalization, output-path
//! resolution, and the two orchestration passes around the native call.

use meshfix::FixMeshOptions;
use meshfix::FixMeshResponse;
use meshfix::FixMeshStep;
use meshfix::command::fix_mesh_file_begin;
use meshfix::command::fix_mesh_file_finish;
use meshfix::command::normalize_options;
use meshfix::paths::resolve_output_path;

#[test]
fn test_tauri_command_structure() {
    // Test that the command interface types work correctly
    let options = FixMeshOptions {
        join_multiple_components: Some(true),
        stl_output: Some(false),
        skip_if_fixed: Some(true),
    };

    assert_eq!(options.join_multiple_components, Some(true));
    assert_eq!(options.stl_output, Some(false));
    assert_eq!(options.skip_if_fixed, Some(true));

    let response = FixMeshResponse {
        success: true,
        message: "Test message".to_string(),
        output_path: Some("/test/path".to_string()),
    };

    assert!(response.success);
    assert_eq!(response.message, "Test message");
    assert_eq!(response.output_path, Some("/test/path".to_string()));

    println!("Tauri command structure test passed");
}

#[test]
fn test_normalize_absent_record() {
    let opts = normalize_options(None);
    assert!(!opts.join_multiple_components);
    assert!(opts.stl_output);
    assert!(!opts.skip_if_fixed);
}

#[test]
fn test_normalize_partial_record() {
    let opts = normalize_options(Some(FixMeshOptions {
        join_multiple_components: Some(true),
        stl_output: None,
        skip_if_fixed: None,
    }));
    assert!(opts.join_multiple_components);
    assert!(opts.stl_output);
    assert!(!opts.skip_if_fixed);

    let opts = normalize_options(Some(FixMeshOptions {
        join_multiple_components: None,
        stl_output: Some(false),
        skip_if_fixed: Some(true),
    }));
    assert!(!opts.join_multiple_components);
    assert!(!opts.stl_output);
    assert!(opts.skip_if_fixed);
}

#[test]
fn test_resolve_derives_stl_path() {
    let resolved = resolve_output_path("/a/b/model.stl", None, true).unwrap();
    assert_eq!(resolved, "/a/b/model_fixed.stl");
}

#[test]
fn test_resolve_derives_off_path() {
    let resolved = resolve_output_path("/a/b/model.stl", None, false).unwrap();
    assert_eq!(resolved, "/a/b/model_fixed.off");
}

#[test]
fn test_resolve_passes_explicit_path_through() {
    let resolved = resolve_output_path("/a/b/model.stl", Some("/elsewhere/out.ply".to_string()), true)
        .unwrap();
    assert_eq!(resolved, "/elsewhere/out.ply");
    let resolved = resolve_output_path("/a/b/model.stl", Some("/elsewhere/out.ply".to_string()), false)
        .unwrap();
    assert_eq!(resolved, "/elsewhere/out.ply");
}

#[test]
fn test_resolve_keeps_inner_dots_and_hidden_names() {
    let resolved = resolve_output_path("/x/a.b.c", None, true).unwrap();
    assert_eq!(resolved, "/x/a.b_fixed.stl");
    let resolved = resolve_output_path("/x/.hidden", None, true).unwrap();
    assert_eq!(resolved, "/x/.hidden_fixed.stl");
    let resolved = resolve_output_path("/x/noext", None, false).unwrap();
    assert_eq!(resolved, "/x/noext_fixed.off");
}

#[test]
fn test_resolve_rejects_missing_file_name() {
    let err = resolve_output_path("/a/b/", None, true).unwrap_err();
    assert_eq!(err, "Invalid input filename");
    let err = resolve_output_path("", None, true).unwrap_err();
    assert_eq!(err, "Invalid input filename");
}

#[test]
fn test_resolve_rejects_missing_parent() {
    let err = resolve_output_path("model.stl", None, true).unwrap_err();
    assert_eq!(err, "Invalid input path");
}

#[test]
fn test_resolve_rejects_dot_components() {
    let err = resolve_output_path("/a/..", None, true).unwrap_err();
    assert_eq!(err, "Invalid input filename");
    let err = resolve_output_path("/a/b/.", None, true).unwrap_err();
    assert_eq!(err, "Invalid input filename");
    let err = resolve_output_path("..", None, true).unwrap_err();
    assert_eq!(err, "Invalid input filename");
    let err = resolve_output_path("/", None, true).unwrap_err();
    assert_eq!(err, "Invalid input filename");
}

#[test]
fn test_resolve_passes_explicit_path_through_for_dot_input() {
    let resolved =
        resolve_output_path("/a/..", Some("/elsewhere/out.stl".to_string()), true).unwrap();
    assert_eq!(resolved, "/elsewhere/out.stl");
}

#[test]
fn test_begin_missing_input_decides_without_native_call() {
    let step = fix_mesh_file_begin(false, "/no/such/file.stl", None, None).unwrap();
    match step {
        FixMeshStep::Done(resp) => {
            assert!(!resp.success);
            assert_eq!(resp.message, "Input file does not exist: /no/such/file.stl");
            assert!(resp.message.contains("/no/such/file.stl"));
            assert!(resp.output_path.is_none());
        }
        FixMeshStep::Call(_) => panic!("a missing input must not reach the native boundary"),
    }
}

#[test]
fn test_begin_builds_native_call_with_derived_path() {
    let step = fix_mesh_file_begin(true, "/a/b/model.stl", None, None).unwrap();
    match step {
        FixMeshStep::Call(call) => {
            assert_eq!(call.input_path, "/a/b/model.stl");
            assert_eq!(call.output_path.as_deref(), Some("/a/b/model_fixed.stl"));
            assert!(!call.options.join_multiple_components);
            assert!(call.options.stl_output);
            assert!(!call.options.skip_if_fixed);
        }
        FixMeshStep::Done(_) => panic!("an existing input must reach the native boundary"),
    }
}

#[test]
fn test_begin_respects_options_and_explicit_output() {
    let options = FixMeshOptions {
        join_multiple_components: Some(true),
        stl_output: Some(false),
        skip_if_fixed: None,
    };
    let step = fix_mesh_file_begin(true, "/a/b/model.stl", None, Some(options)).unwrap();
    match step {
        FixMeshStep::Call(call) => {
            assert_eq!(call.output_path.as_deref(), Some("/a/b/model_fixed.off"));
            assert!(call.options.join_multiple_components);
            assert!(!call.options.stl_output);
            assert!(!call.options.skip_if_fixed);
        }
        FixMeshStep::Done(_) => panic!("an existing input must reach the native boundary"),
    }

    let step =
        fix_mesh_file_begin(true, "/a/b/model.stl", Some("/kept/as.is".to_string()), None).unwrap();
    match step {
        FixMeshStep::Call(call) => {
            assert_eq!(call.output_path.as_deref(), Some("/kept/as.is"));
        }
        FixMeshStep::Done(_) => panic!("an existing input must reach the native boundary"),
    }
}

#[test]
fn test_begin_propagates_resolution_failure() {
    let err = fix_mesh_file_begin(true, "model.stl", None, None).unwrap_err();
    assert_eq!(err, "Invalid input path");
    let err = fix_mesh_file_begin(true, "/a/b/", None, None).unwrap_err();
    assert_eq!(err, "Invalid input filename");
    let err = fix_mesh_file_begin(true, "/a/..", None, None).unwrap_err();
    assert_eq!(err, "Invalid input filename");
}

#[test]
fn test_begin_rejects_embedded_null() {
    let err = fix_mesh_file_begin(true, "/a/b/mo\0del.stl", None, None).unwrap_err();
    assert_eq!(err, "Invalid input path: contains null bytes");
    let err = fix_mesh_file_begin(true, "/a/b/model.stl", Some("/out\0.stl".to_string()), None)
        .unwrap_err();
    assert_eq!(err, "Invalid output path: contains null bytes");
}

#[test]
fn test_finish_success() {
    let resp = fix_mesh_file_finish(0, "/a/b/model_fixed.stl");
    assert!(resp.success);
    assert_eq!(resp.message, "Mesh fixed successfully");
    assert_eq!(resp.output_path.as_deref(), Some("/a/b/model_fixed.stl"));
}

#[test]
fn test_finish_cant_open_file() {
    let resp = fix_mesh_file_finish(1, "/a/b/model_fixed.stl");
    assert!(!resp.success);
    assert_eq!(resp.message, "Cannot open input file");
    assert!(resp.output_path.is_none());
}

#[test]
fn test_finish_output_file_exists() {
    let resp = fix_mesh_file_finish(2, "/a/b/model_fixed.stl");
    assert!(!resp.success);
    assert_eq!(resp.message, "Output file already exists");
    assert!(resp.output_path.is_none());
}

#[test]
fn test_finish_unknown_code_keeps_raw_value() {
    let resp = fix_mesh_file_finish(42, "/a/b/model_fixed.stl");
    assert!(!resp.success);
    assert_eq!(resp.message, "Unknown error occurred (code: 42)");
    assert!(resp.message.contains("code: 42"));
    assert!(resp.output_path.is_none());

    let resp = fix_mesh_file_finish(-9, "/a/b/model_fixed.stl");
    assert_eq!(resp.message, "Unknown error occurred (code: -9)");
}
