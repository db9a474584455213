use renderdog::call::PreparedCall;
use renderdog::error::OperationError;
use renderdog::exchange::{Action, Event, Operation, Stage};
use renderdog::replay::{
    ReplayListTexturesRequest, ReplayPickPixelRequest, ReplaySaveOutputsPngRequest,
    ReplaySaveTexturePngRequest, REPLAY_LIST_TEXTURES_JSON_PY, REPLAY_PICK_PIXEL_JSON_PY,
    REPLAY_SAVE_OUTPUTS_PNG_JSON_PY, REPLAY_SAVE_TEXTURE_PNG_JSON_PY,
};
use renderdog::rundir::RunDirAllocator;
use renderdog::toolchain::RenderDocInstallation;
use renderdog::workflows::{
    default_data_sample_bytes, default_delta_filter, default_max_search_results,
    default_tracked_indices, default_tracked_texels, ExportActionsRequest, ExportActionsResponse,
    ExportBindingsIndexRequest, ExportBindingsIndexResponse, ExportBundleError,
    ExportBundlePending, ExportBundleRequest, ExportBundleResponse, FindEventsRequest, FindResourceUsesRequest,
    GetBufferChangesDeltaRequest, GetBufferDetailsRequest, GetEventPipelineStateRequest,
    GetEventsRequest, GetPipelineBindingChangesDeltaRequest, GetPipelineDetailsRequest,
    GetResourceChangedEventIdsRequest, GetShaderDetailsRequest, GetTextureChangesDeltaRequest,
    GetTextureDetailsRequest, SearchResourcesRequest, TexelCoord, TriggerCaptureRequest,
};

fn install() -> RenderDocInstallation {
    RenderDocInstallation {
        root_dir: "/opt/rd".to_string(),
        qrenderdoc_exe: "/opt/rd/qrenderdoc".to_string(),
        renderdoccmd_exe: "/opt/rd/renderdoccmd".to_string(),
    }
}

fn check<R>(call: &PreparedCall<R>, stem: &str, run_prefix: &str) {
    assert_eq!(
        call.operation,
        Operation { stem: stem.to_string(), run_prefix: run_prefix.to_string() }
    );
    assert_eq!(call.host_program, "/opt/rd/qrenderdoc");
    assert_eq!(call.scripts_dir, "/work/artifacts/renderdoc/scripts");
}

#[test]
fn replay_requests_have_their_paths_resolved() {
    let req = ReplayListTexturesRequest { capture_path: "in.rdc".to_string(), event_id: Some(7) };
    let call = install().replay_list_textures("/work", &req);
    check(&call, "replay_list_textures_json", "replay_list_textures");
    assert_eq!(
        call.request,
        ReplayListTexturesRequest { capture_path: "/work/in.rdc".to_string(), event_id: Some(7) }
    );

    let req = ReplayPickPixelRequest {
        capture_path: "in.rdc".to_string(),
        event_id: None,
        texture_index: 2,
        x: 10,
        y: 20,
    };
    let call = install().replay_pick_pixel("/work", &req);
    check(&call, "replay_pick_pixel_json", "replay_pick_pixel");
    assert_eq!(
        call.request,
        ReplayPickPixelRequest { capture_path: "/work/in.rdc".to_string(), ..req.clone() }
    );

    let req = ReplaySaveTexturePngRequest {
        capture_path: "in.rdc".to_string(),
        event_id: Some(1),
        texture_index: 0,
        output_path: "out/t.png".to_string(),
    };
    let call = install().replay_save_texture_png("/work", &req);
    check(&call, "replay_save_texture_png_json", "replay_save_texture_png");
    assert_eq!(
        call.request,
        ReplaySaveTexturePngRequest {
            capture_path: "/work/in.rdc".to_string(),
            event_id: Some(1),
            texture_index: 0,
            output_path: "/work/out/t.png".to_string(),
        }
    );

    let req = ReplaySaveOutputsPngRequest {
        capture_path: "in.rdc".to_string(),
        event_id: Some(3),
        output_dir: "out".to_string(),
        basename: "frame".to_string(),
        include_depth: true,
    };
    let call = install().replay_save_outputs_png("/work", &req);
    check(&call, "replay_save_outputs_png_json", "replay_save_outputs_png");
    assert_eq!(
        call.request,
        ReplaySaveOutputsPngRequest {
            capture_path: "/work/in.rdc".to_string(),
            event_id: Some(3),
            output_dir: "/work/out".to_string(),
            basename: "frame".to_string(),
            include_depth: true,
        }
    );
}

#[test]
fn replay_requests_keep_absolute_paths() {
    let req = ReplaySaveTexturePngRequest {
        capture_path: "/abs/in.rdc".to_string(),
        event_id: None,
        texture_index: 4,
        output_path: "/abs/out/t.png".to_string(),
    };
    assert_eq!(install().replay_save_texture_png("/work", &req).request, req);
    let req = ReplaySaveOutputsPngRequest {
        capture_path: "/abs/in.rdc".to_string(),
        event_id: None,
        output_dir: "/abs/out".to_string(),
        basename: "relative/name".to_string(),
        include_depth: false,
    };
    assert_eq!(install().replay_save_outputs_png("/work", &req).request, req);
}

#[test]
fn replay_scripts_read_and_write_the_files_of_their_operation() {
    let scripts = [
        ("replay_list_textures_json", REPLAY_LIST_TEXTURES_JSON_PY),
        ("replay_pick_pixel_json", REPLAY_PICK_PIXEL_JSON_PY),
        ("replay_save_texture_png_json", REPLAY_SAVE_TEXTURE_PNG_JSON_PY),
        ("replay_save_outputs_png_json", REPLAY_SAVE_OUTPUTS_PNG_JSON_PY),
    ];
    for (stem, text) in scripts {
        assert!(text.contains(&format!("REQ_PATH = \"{stem}.request.json\"")));
        assert!(text.contains(&format!("RESP_PATH = \"{stem}.response.json\"")));
        assert!(text.contains("write_response({\"ok\": False, \"error\": traceback.format_exc()})"));
        assert!(text.contains("write_response({\"ok\": True, \"result\": payload})"));
    }
}

#[test]
fn trigger_capture_request_is_written_as_given() {
    let req = TriggerCaptureRequest {
        host: "localhost".to_string(),
        target_ident: 38920,
        num_frames: 1,
        timeout_s: 60,
    };
    let call = install().trigger_capture_via_target_control("/work", &req);
    check(&call, "trigger_capture", "trigger_capture");
    assert_eq!(call.request, req);
}

#[test]
fn export_requests_have_capture_and_output_dir_resolved() {
    let req = ExportActionsRequest {
        capture_path: "in.rdc".to_string(),
        output_dir: "/abs/out".to_string(),
        basename: "frame".to_string(),
        only_drawcalls: true,
        marker_prefix: Some("Pass/".to_string()),
        event_id_min: Some(1),
        event_id_max: None,
        name_contains: None,
        marker_contains: Some("Shadow".to_string()),
        case_sensitive: false,
    };
    let call = install().export_actions_jsonl("/work", &req);
    check(&call, "export_actions_jsonl", "export_actions_jsonl");
    assert_eq!(
        call.request,
        ExportActionsRequest { capture_path: "/work/in.rdc".to_string(), ..req.clone() }
    );

    let req = ExportBindingsIndexRequest {
        capture_path: "/abs/in.rdc".to_string(),
        output_dir: "out".to_string(),
        basename: "frame".to_string(),
        marker_prefix: None,
        event_id_min: None,
        event_id_max: Some(900),
        name_contains: Some("Draw".to_string()),
        marker_contains: None,
        case_sensitive: true,
        include_cbuffers: true,
        include_outputs: false,
    };
    let call = install().export_bindings_index_jsonl("/work", &req);
    check(&call, "export_bindings_index_jsonl", "export_bindings_index_jsonl");
    assert_eq!(
        call.request,
        ExportBindingsIndexRequest { output_dir: "/work/out".to_string(), ..req.clone() }
    );
}

#[test]
fn inspection_requests_have_the_capture_resolved() {
    let rd = install();

    let req = FindEventsRequest {
        capture_path: "in.rdc".to_string(),
        only_drawcalls: false,
        marker_prefix: None,
        event_id_min: None,
        event_id_max: None,
        name_contains: Some("vkCmdDraw".to_string()),
        marker_contains: None,
        case_sensitive: false,
        max_results: Some(200),
    };
    let call = rd.find_events("/work", &req);
    check(&call, "find_events_json", "find_events");
    assert_eq!(call.request, FindEventsRequest { capture_path: "/work/in.rdc".to_string(), ..req.clone() });

    let call = rd.get_events("/work", &GetEventsRequest { capture_path: "/abs/in.rdc".to_string() });
    check(&call, "get_events_json", "get_events");
    assert_eq!(call.request, GetEventsRequest { capture_path: "/abs/in.rdc".to_string() });

    let req = GetShaderDetailsRequest {
        capture_path: "in.rdc".to_string(),
        pipeline_name: "main".to_string(),
        entry_points: Some(vec!["vs_main".to_string(), "fs_main".to_string()]),
    };
    let call = rd.get_shader_details("/work", &req);
    check(&call, "get_shader_details_json", "get_shader_details");
    assert_eq!(call.request, GetShaderDetailsRequest { capture_path: "/work/in.rdc".to_string(), ..req.clone() });

    let req = GetBufferDetailsRequest { capture_path: "in.rdc".to_string(), buffer_name: "particles".to_string() };
    let call = rd.get_buffer_details("/work", &req);
    check(&call, "get_buffer_details_json", "get_buffer_details");
    assert_eq!(call.request, GetBufferDetailsRequest { capture_path: "/work/in.rdc".to_string(), ..req.clone() });

    let req = GetTextureDetailsRequest { capture_path: "in.rdc".to_string(), texture_name: "albedo".to_string() };
    let call = rd.get_texture_details("/work", &req);
    check(&call, "get_texture_details_json", "get_texture_details");
    assert_eq!(call.request, GetTextureDetailsRequest { capture_path: "/work/in.rdc".to_string(), ..req.clone() });

    let req = GetBufferChangesDeltaRequest {
        capture_path: "in.rdc".to_string(),
        buffer_name: "particles".to_string(),
        tracked_indices: vec![0, 5, 9],
    };
    let call = rd.get_buffer_changes_delta("/work", &req);
    check(&call, "get_buffer_changes_delta_json", "get_buffer_changes_delta");
    assert_eq!(call.request, GetBufferChangesDeltaRequest { capture_path: "/work/in.rdc".to_string(), ..req.clone() });

    let req = GetTextureChangesDeltaRequest {
        capture_path: "in.rdc".to_string(),
        texture_name: "albedo".to_string(),
        tracked_texels: vec![TexelCoord { x: 1, y: 2, z: 0, mip: 0, slice: 3 }],
    };
    let call = rd.get_texture_changes_delta("/work", &req);
    check(&call, "get_texture_changes_delta_json", "get_texture_changes_delta");
    assert_eq!(call.request, GetTextureChangesDeltaRequest { capture_path: "/work/in.rdc".to_string(), ..req.clone() });

    let req = GetPipelineDetailsRequest { capture_path: "in.rdc".to_string(), pipeline_name: "main".to_string() };
    let call = rd.get_pipeline_details("/work", &req);
    check(&call, "get_pipeline_details_json", "get_pipeline_details");
    assert_eq!(call.request, GetPipelineDetailsRequest { capture_path: "/work/in.rdc".to_string(), ..req.clone() });

    let req = GetPipelineBindingChangesDeltaRequest { capture_path: "in.rdc".to_string(), pipeline_name: "main".to_string() };
    let call = rd.get_pipeline_binding_changes_delta("/work", &req);
    check(&call, "get_pipeline_binding_changes_delta_json", "get_pipeline_binding_changes_delta");
    assert_eq!(call.request, GetPipelineBindingChangesDeltaRequest { capture_path: "/work/in.rdc".to_string(), ..req.clone() });

    let req = GetEventPipelineStateRequest { capture_path: "in.rdc".to_string(), event_id: 42 };
    let call = rd.get_event_pipeline_state("/work", &req);
    check(&call, "get_event_pipeline_state_json", "get_event_pipeline_state");
    assert_eq!(call.request, GetEventPipelineStateRequest { capture_path: "/work/in.rdc".to_string(), event_id: 42 });

    let req = GetResourceChangedEventIdsRequest { capture_path: "in.rdc".to_string(), resource_name: "depth".to_string() };
    let call = rd.get_resource_changed_event_ids("/work", &req);
    check(&call, "get_resource_changed_event_ids_json", "get_resource_changed_event_ids");
    assert_eq!(call.request, GetResourceChangedEventIdsRequest { capture_path: "/work/in.rdc".to_string(), ..req.clone() });

    let req = SearchResourcesRequest {
        capture_path: "in.rdc".to_string(),
        query: Some("^Texture".to_string()),
        case_sensitive: true,
        max_results: Some(500),
        resource_types: Some(vec!["Texture".to_string()]),
    };
    let call = rd.search_resources("/work", &req);
    check(&call, "search_resources_json", "search_resources");
    assert_eq!(call.request, SearchResourcesRequest { capture_path: "/work/in.rdc".to_string(), ..req.clone() });

    let req = FindResourceUsesRequest {
        capture_path: "in.rdc".to_string(),
        resource: "albedo".to_string(),
        max_results: None,
        data_sample_bytes: Some(0),
        delta_filter: Some("with_delta".to_string()),
    };
    let call = rd.find_resource_uses("/work", &req);
    check(&call, "find_resource_uses_json", "find_resource_uses");
    assert_eq!(call.request, FindResourceUsesRequest { capture_path: "/work/in.rdc".to_string(), ..req.clone() });
}

fn bundle_request(capture_path: &str, output_dir: &str) -> ExportBundleRequest {
    ExportBundleRequest {
        capture_path: capture_path.to_string(),
        output_dir: output_dir.to_string(),
        basename: "frame".to_string(),
        only_drawcalls: true,
        marker_prefix: Some("Pass".to_string()),
        event_id_min: Some(10),
        event_id_max: Some(20),
        name_contains: None,
        marker_contains: Some("Shadow".to_string()),
        case_sensitive: true,
        include_cbuffers: true,
        include_outputs: false,
    }
}

#[test]
fn bundle_is_two_exports_of_the_same_capture() {
    let calls = install().export_bundle_jsonl("/work", &bundle_request("in.rdc", "out"));
    assert_eq!(calls.capture_path, "/work/in.rdc");
    check(&calls.actions, "export_actions_jsonl", "export_actions_jsonl");
    check(&calls.bindings, "export_bindings_index_jsonl", "export_bindings_index_jsonl");
    assert_eq!(
        calls.actions.request,
        ExportActionsRequest {
            capture_path: "/work/in.rdc".to_string(),
            output_dir: "/work/out".to_string(),
            basename: "frame".to_string(),
            only_drawcalls: true,
            marker_prefix: Some("Pass".to_string()),
            event_id_min: Some(10),
            event_id_max: Some(20),
            name_contains: None,
            marker_contains: Some("Shadow".to_string()),
            case_sensitive: true,
        }
    );
    assert_eq!(
        calls.bindings.request,
        ExportBindingsIndexRequest {
            capture_path: "/work/in.rdc".to_string(),
            output_dir: "/work/out".to_string(),
            basename: "frame".to_string(),
            marker_prefix: Some("Pass".to_string()),
            event_id_min: Some(10),
            event_id_max: Some(20),
            name_contains: None,
            marker_contains: Some("Shadow".to_string()),
            case_sensitive: true,
            include_cbuffers: true,
            include_outputs: false,
        }
    );
}

#[test]
fn bundle_from_a_relative_cwd_resolves_once() {
    let calls = install().export_bundle_jsonl("work", &bundle_request("in.rdc", "/abs/out"));
    assert_eq!(calls.capture_path, "work/in.rdc");
    assert_eq!(calls.actions.request.capture_path, "work/in.rdc");
    assert_eq!(calls.bindings.request.capture_path, "work/in.rdc");
    assert_eq!(calls.actions.request.output_dir, "/abs/out");
    assert_eq!(calls.bindings.request.output_dir, "/abs/out");
    assert_eq!(calls.actions.scripts_dir, "work/artifacts/renderdoc/scripts");
}

fn actions_answer() -> ExportActionsResponse {
    ExportActionsResponse {
        capture_path: "/elsewhere/in.rdc".to_string(),
        actions_jsonl_path: "/work/out/frame.actions.jsonl".to_string(),
        summary_json_path: "/work/out/frame.summary.json".to_string(),
        total_actions: 120,
        drawcall_actions: 45,
    }
}

fn bindings_answer() -> ExportBindingsIndexResponse {
    ExportBindingsIndexResponse {
        capture_path: "/elsewhere/in.rdc".to_string(),
        bindings_jsonl_path: "/work/out/frame.bindings.jsonl".to_string(),
        summary_json_path: "/work/out/frame.bindings_summary.json".to_string(),
        total_drawcalls: 45,
    }
}

#[test]
fn failed_actions_export_ends_the_bundle() {
    let calls = install().export_bundle_jsonl("/work", &bundle_request("in.rdc", "out"));
    let failure = OperationError::ScriptError("capture not found".to_string());
    assert_eq!(
        calls.after_actions(Err(failure.clone())),
        Err(ExportBundleError::Actions(failure))
    );
}

#[test]
fn good_actions_export_hands_out_the_bindings_call() {
    let calls = install().export_bundle_jsonl("/work", &bundle_request("in.rdc", "out"));
    let bindings = calls.bindings.clone();
    let pending = calls.after_actions(Ok(actions_answer())).unwrap();
    assert_eq!(
        pending,
        ExportBundlePending {
            capture_path: "/work/in.rdc".to_string(),
            actions: actions_answer(),
            bindings,
        }
    );
}

#[test]
fn failed_bindings_export_fails_the_bundle() {
    let calls = install().export_bundle_jsonl("/work", &bundle_request("in.rdc", "out"));
    let pending = calls.after_actions(Ok(actions_answer())).unwrap();
    assert_eq!(
        pending.conclude(Err(OperationError::MissingResult)),
        Err(ExportBundleError::Bindings(OperationError::MissingResult))
    );
}

#[test]
fn good_bindings_export_concludes_the_bundle() {
    let calls = install().export_bundle_jsonl("/work", &bundle_request("in.rdc", "out"));
    let pending = calls.after_actions(Ok(actions_answer())).unwrap();
    assert_eq!(
        pending.conclude(Ok(bindings_answer())),
        Ok(ExportBundleResponse {
            capture_path: "/work/in.rdc".to_string(),
            actions_jsonl_path: "/work/out/frame.actions.jsonl".to_string(),
            actions_summary_json_path: "/work/out/frame.summary.json".to_string(),
            total_actions: 120,
            drawcall_actions: 45,
            bindings_jsonl_path: "/work/out/frame.bindings.jsonl".to_string(),
            bindings_summary_json_path: "/work/out/frame.bindings_summary.json".to_string(),
            total_drawcalls: 45,
        })
    );
}

#[test]
fn bundle_response_is_put_together_from_both() {
    let calls = install().export_bundle_jsonl("/work", &bundle_request("in.rdc", "out"));
    let actions = ExportActionsResponse {
        capture_path: "/elsewhere/in.rdc".to_string(),
        actions_jsonl_path: "/work/out/frame.actions.jsonl".to_string(),
        summary_json_path: "/work/out/frame.summary.json".to_string(),
        total_actions: 120,
        drawcall_actions: 45,
    };
    let bindings = ExportBindingsIndexResponse {
        capture_path: "/elsewhere/in.rdc".to_string(),
        bindings_jsonl_path: "/work/out/frame.bindings.jsonl".to_string(),
        summary_json_path: "/work/out/frame.bindings_summary.json".to_string(),
        total_drawcalls: 45,
    };
    assert_eq!(
        calls.finish(actions, bindings),
        ExportBundleResponse {
            capture_path: "/work/in.rdc".to_string(),
            actions_jsonl_path: "/work/out/frame.actions.jsonl".to_string(),
            actions_summary_json_path: "/work/out/frame.summary.json".to_string(),
            total_actions: 120,
            drawcall_actions: 45,
            bindings_jsonl_path: "/work/out/frame.bindings.jsonl".to_string(),
            bindings_summary_json_path: "/work/out/frame.bindings_summary.json".to_string(),
            total_drawcalls: 45,
        }
    );
}

#[test]
fn bundle_failure_says_which_export_failed() {
    assert_eq!(
        ExportBundleError::Actions(OperationError::ScriptError("boom".to_string())).message(),
        "export actions failed: qrenderdoc script error: boom"
    );
    assert_eq!(
        ExportBundleError::Bindings(OperationError::MissingResult).message(),
        "export bindings index failed: qrenderdoc script error: missing result"
    );
}

#[test]
fn prepared_call_lays_out_its_plan() {
    let call = install().get_events("/work", &GetEventsRequest { capture_path: "in.rdc".to_string() });
    let plan = call.plan("import renderdoc\n", "/work/artifacts/renderdoc/scripts/get_events/1-2-3");
    assert_eq!(plan.host_program, "/opt/rd/qrenderdoc");
    assert_eq!(plan.scripts_dir, "/work/artifacts/renderdoc/scripts");
    assert_eq!(plan.script_path, "/work/artifacts/renderdoc/scripts/get_events_json.py");
    assert_eq!(plan.script_text, "import renderdoc\n");
    assert_eq!(plan.run_root, "/work/artifacts/renderdoc/scripts/get_events");
    assert_eq!(plan.run_dir, "/work/artifacts/renderdoc/scripts/get_events/1-2-3");
    assert_eq!(
        plan.request_path,
        "/work/artifacts/renderdoc/scripts/get_events/1-2-3/get_events_json.request.json"
    );
    assert_eq!(
        plan.response_path,
        "/work/artifacts/renderdoc/scripts/get_events/1-2-3/get_events_json.response.json"
    );
}

#[test]
fn two_calls_of_one_operation_begin_in_different_run_directories() {
    let call = install().get_events("/work", &GetEventsRequest { capture_path: "in.rdc".to_string() });
    let mut allocator = RunDirAllocator::new(55);
    let first = call.begin(&mut allocator, "text", 1000).unwrap();
    let second = call.begin(&mut allocator, "text", 1000).unwrap();
    assert_eq!(first.stage, Stage::Idle);
    assert_eq!(first.plan.run_dir, "/work/artifacts/renderdoc/scripts/get_events/55-1000-0");
    assert_eq!(second.plan.run_dir, "/work/artifacts/renderdoc/scripts/get_events/55-1000-1");
    assert_ne!(first.plan.request_path, second.plan.request_path);
    assert_ne!(first.plan.response_path, second.plan.response_path);
    assert_eq!(first.plan.script_path, second.plan.script_path);

    let mut first = first;
    assert_eq!(
        first.advance(Event::Start),
        Action::CreateDirAll { path: "/work/artifacts/renderdoc/scripts".to_string() }
    );

    let mut used_up = RunDirAllocator::starting_at(55, u64::MAX);
    assert!(call.begin(&mut used_up, "text", 1000).is_none());
    assert_eq!(used_up.next_sequence(), u64::MAX);
}

#[test]
fn prepare_keeps_the_request() {
    let call = install().prepare("/w", "custom_json", "custom", 17u8);
    assert_eq!(call.operation.stem, "custom_json");
    assert_eq!(call.operation.run_prefix, "custom");
    assert_eq!(call.scripts_dir, "/w/artifacts/renderdoc/scripts");
    assert_eq!(call.request, 17);
}

#[test]
fn request_defaults() {
    assert_eq!(default_tracked_indices(), vec![0]);
    assert_eq!(default_tracked_texels(), vec![TexelCoord { x: 0, y: 0, z: 0, mip: 0, slice: 0 }]);
    assert_eq!(default_max_search_results(), Some(500));
    assert_eq!(default_delta_filter(), Some("all".to_string()));
    assert_eq!(default_data_sample_bytes(), Some(65536));
}
