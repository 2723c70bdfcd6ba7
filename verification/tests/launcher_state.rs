use deve_llama_gui::app::{mirostat_label, model_name_from_stem, CommandOutput, ConsoleAction, DeveLlamaGUI};
use deve_llama_gui::config::{AppSettings, LaunchConfig, Preset, RuntimeParams};
use deve_llama_gui::language::Language;
use deve_llama_gui::theme::Theme;

fn to_f32(p: RuntimeParams<i32>) -> RuntimeParams<f32> {
    let f = |x: i32| x as f32 / 1000.0;
    RuntimeParams {
        temperature: f(p.temperature),
        top_k: p.top_k,
        top_p: f(p.top_p),
        min_p: f(p.min_p),
        repeat_penalty: f(p.repeat_penalty),
        repeat_last_n: p.repeat_last_n,
        presence_penalty: f(p.presence_penalty),
        frequency_penalty: f(p.frequency_penalty),
        n_predict: p.n_predict,
        seed: p.seed,
        mirostat: p.mirostat,
        mirostat_tau: f(p.mirostat_tau),
        mirostat_eta: f(p.mirostat_eta),
    }
}

fn presets_f32() -> Vec<Preset<f32>> {
    Preset::default_presets()
        .into_iter()
        .map(|p| Preset {
            name: p.name,
            description: p.description,
            runtime_params: to_f32(p.runtime_params),
        })
        .collect()
}

fn fresh() -> DeveLlamaGUI<f32> {
    DeveLlamaGUI::new(None, None, None, presets_f32(), to_f32(RuntimeParams::default()))
}

fn last_log(g: &DeveLlamaGUI<f32>) -> &str {
    g.logs.last().unwrap().as_str()
}

#[test]
fn a_fresh_launcher() {
    let g = fresh();
    assert_eq!(g.logs, vec!["DeveLlamaGUI Pro Ready".to_string()]);
    assert!(!g.is_running);
    assert_eq!(g.status_message, "Stopped");
    assert_eq!(g.api_url, "http://127.0.0.1:8080/v1");
    assert!(g.cmd_preview.starts_with("H:\\AI\\llama.cpp\\llama-server.exe ^\n  --model"));
    assert!(g.cmd_preview.ends_with(" ^\n  --props"));
    assert_eq!(g.settings.presets.len(), 7);
    assert_eq!(g.settings.default_presets_snapshot.len(), 7);
    assert_eq!(g.settings.theme, Theme::Cyberpunk);
    assert_eq!(g.runtime_params.temperature, 0.6);
    assert_eq!(g.runtime_params.repeat_penalty, 1.05);
    assert_eq!(g.quick_commands.len(), 3);
    assert_eq!(g.status_label(), "Stopped");
    assert_eq!(g.preset_selector_text(), "Select preset...");
}

#[test]
fn loaded_settings_get_default_snapshot_when_missing() {
    let mut loaded = AppSettings::with_presets(presets_f32());
    loaded.default_presets_snapshot = Vec::new();
    loaded.language = Language::Japanese;
    loaded.last_preset_index = Some(2);
    let mut launch = LaunchConfig::default();
    launch.port = 9000;
    launch.host = "example".to_string();
    let g = DeveLlamaGUI::new(
        Some(loaded),
        Some(launch),
        None,
        presets_f32(),
        to_f32(RuntimeParams::default()),
    );
    assert_eq!(g.settings.default_presets_snapshot.len(), 7);
    assert_eq!(g.settings.language, Language::Japanese);
    assert_eq!(g.settings.last_preset_index, Some(2));
    assert_eq!(g.api_url, "http://example:9000/v1");
    assert_eq!(g.quick_commands[0].name, "クリア");
    assert_eq!(g.preset_selector_text(), "Creative Writing");
}

#[test]
fn applying_a_preset() {
    let mut g = fresh();
    assert!(g.apply_preset(5));
    assert_eq!(g.settings.last_preset_index, Some(5));
    assert_eq!(g.runtime_params.temperature, 0.3);
    assert_eq!(g.runtime_params.top_k, 10);
    assert!(!g.params_modified);
    assert_eq!(g.params_apply_status, "Applied: Math & Logic");
    assert_eq!(last_log(&g), "Applied:: Math & Logic");
    assert!(!g.apply_preset(7));
    assert_eq!(g.settings.last_preset_index, Some(5));
}

#[test]
fn saving_a_new_preset() {
    let mut g = fresh();
    assert!(!g.save_current_as_preset());
    g.new_preset_name = "Mine".to_string();
    g.new_preset_description = "for me".to_string();
    g.show_save_preset_dialog = true;
    g.runtime_params.temperature = 1.25;
    assert!(g.save_current_as_preset());
    assert_eq!(g.settings.presets.len(), 8);
    assert_eq!(g.settings.presets[7].name, "Mine");
    assert_eq!(g.settings.presets[7].description, "for me");
    assert_eq!(g.new_preset_name, "");
    assert!(!g.show_save_preset_dialog);
    assert_eq!(last_log(&g), "Preset saved");
    g.runtime_params.temperature = 0.1;
    assert!(g.apply_preset(7));
    assert_eq!(g.runtime_params.temperature, 1.25);
}

#[test]
fn overwriting_and_restoring() {
    let mut g = fresh();
    assert!(!g.force_overwrite_preset());
    assert!(!g.restore_preset_default());
    g.apply_preset(0);
    g.runtime_params.temperature = 1.9;
    assert!(g.force_overwrite_preset());
    assert_eq!(g.settings.presets[0].runtime_params.temperature, 1.9);
    assert_eq!(g.params_apply_status, "Preset overwritten: General Chat");
    g.runtime_params.temperature = 0.0;
    g.apply_preset(0);
    assert_eq!(g.runtime_params.temperature, 1.9);
    assert!(g.restore_preset_default());
    assert_eq!(g.settings.presets[0].runtime_params.temperature, 0.7);
    assert_eq!(g.runtime_params.temperature, 0.7);
    assert_eq!(last_log(&g), "Preset restored to default: General Chat");
}

#[test]
fn custom_presets_cannot_be_restored() {
    let mut g = fresh();
    g.new_preset_name = "Mine".to_string();
    g.save_current_as_preset();
    g.apply_preset(7);
    assert!(!g.restore_preset_default());
    assert_eq!(last_log(&g), "Cannot restore: this is a custom preset with no default.");
}

#[test]
fn deleting_presets() {
    let mut g = fresh();
    g.apply_preset(4);
    assert!(g.delete_preset(1));
    assert_eq!(g.settings.presets.len(), 6);
    assert_eq!(g.settings.last_preset_index, Some(3));
    assert_eq!(g.settings.presets[3].name, "Roleplay");
    assert_eq!(last_log(&g), "Preset deleted: Code Mode");
    assert!(g.delete_preset(3));
    assert_eq!(g.settings.last_preset_index, None);
    g.apply_preset(0);
    assert!(g.delete_preset(2));
    assert_eq!(g.settings.last_preset_index, Some(0));
    while g.settings.presets.len() > 1 {
        assert!(g.delete_preset(0));
    }
    assert!(!g.delete_preset(0));
    assert_eq!(g.settings.presets.len(), 1);
    assert_eq!(last_log(&g), "Cannot delete the last preset");
}

#[test]
fn console_commands() {
    let mut g = fresh();
    g.console_input = "   ".to_string();
    assert!(matches!(g.execute_console_command(), ConsoleAction::Nothing));
    assert_eq!(g.console_input, "   ");
    assert_eq!(g.logs.len(), 1);

    g.console_input = " /help ".to_string();
    assert!(matches!(g.execute_console_command(), ConsoleAction::Nothing));
    assert_eq!(g.console_input, "");
    assert_eq!(g.logs[1], "> /help");
    assert_eq!(g.logs[2], "Commands: /clear, /help, api_url, open_docs");

    match g.send_quick_command("api_url") {
        ConsoleAction::CopyToClipboard(t) => assert_eq!(t, "http://127.0.0.1:8080/v1"),
        _ => panic!("expected a copy"),
    }
    assert_eq!(last_log(&g), "API URL copied: http://127.0.0.1:8080/v1");

    match g.send_quick_command("open_docs") {
        ConsoleAction::OpenUrl(u) => {
            assert_eq!(u, "https://github.com/ggml-org/llama.cpp/blob/master/tools/server/README.md")
        },
        _ => panic!("expected a url"),
    }
    assert_eq!(last_log(&g), "Opening documentation...");

    g.set_language(Language::ChineseSimplified);
    assert_eq!(g.quick_commands[0].name, "清除");
    g.send_quick_command("frob");
    assert_eq!(last_log(&g), "未知命令: frob");

    g.send_quick_command("/clear");
    assert_eq!(g.logs, vec!["控制台已清空".to_string()]);
}

#[test]
fn starting_and_stopping() {
    let mut g = fresh();
    g.launch_config.n_parallel = 2;
    g.launch_config.port = 9090;
    let args = g.start_server();
    assert_eq!(args.last().unwrap(), "--props");
    assert!(args.windows(2).any(|w| w[0] == "--parallel" && w[1] == "2"));
    let n = g.logs.len();
    assert!(g.logs[n - 2].starts_with("Start command: H:\\AI\\llama.cpp\\llama-server.exe --model \"H:\\AI\\models\\model.gguf\" --host 127.0.0.1 --port 9090"));
    assert!(!g.logs[n - 2].contains('\n'));
    assert_eq!(g.logs[n - 1], "[INFO] ctx-size=4096, parallel=2, ctx per sequence=2048");
    assert_eq!(g.api_url, "http://127.0.0.1:9090/v1");

    g.on_server_started();
    assert!(g.is_running);
    assert_eq!(g.status_message, "Running on port 9090");
    assert_eq!(g.logs[g.logs.len() - 2], "Server started");
    assert_eq!(last_log(&g), "API: http://127.0.0.1:9090/v1");
    assert_eq!(g.params_apply_status, "Runtime params will be applied on next API call");
    assert_eq!(g.status_label(), "Running");

    g.on_launch_param_changed();
    assert!(g.launch_config_dirty);

    g.stop_server();
    assert!(!g.is_running && !g.launch_config_dirty);
    assert_eq!(g.status_message, "Stopped");
    assert_eq!(last_log(&g), "Server stopped");
    assert_eq!(g.params_apply_status, "");
}

#[test]
fn starting_fails_or_the_server_exits() {
    let mut g = fresh();
    g.on_server_start_failed("program not found");
    assert_eq!(g.status_message, "Failed: program not found");
    assert_eq!(last_log(&g), "Error: program not found");

    g.on_server_started();
    g.on_server_exited(false, "exit code: 3", Some(3));
    assert!(!g.is_running);
    assert_eq!(g.status_message, "Process exited: exit code: 3");
    let n = g.logs.len();
    assert_eq!(g.logs[n - 3], "Server process ended unexpectedly");
    assert_eq!(g.logs[n - 2], "Exit code: Some(3)");
    assert_eq!(g.logs[n - 1], "Check if llama-server path and model path are correct.");
    g.on_server_exited(false, "signal", None);
    assert_eq!(g.logs[g.logs.len() - 2], "Exit code: None");
    g.on_server_exited(true, "", None);
    assert_eq!(g.status_message, "Stopped");
}

#[test]
fn applying_runtime_params() {
    let mut g = fresh();
    g.on_runtime_param_changed();
    assert!(g.params_modified);
    assert_eq!(g.params_apply_status, "Modified - click Apply to save");
    assert!(!g.apply_runtime_params());
    assert!(!g.params_modified);
    assert_eq!(g.params_apply_status, "Parameters saved");

    g.on_server_started();
    assert!(g.apply_runtime_params());
    g.finish_apply_runtime_params(&CommandOutput::Finished {
        success: true,
        stdout: b" {\"n_ctx\": 2048} \n".to_vec(),
        stderr: Vec::new(),
    });
    assert_eq!(g.params_apply_status, "Runtime parameters updated");
    let n = g.logs.len();
    assert_eq!(g.logs[n - 4], "[API] Server props: {\"n_ctx\": 2048}");
    assert!(g.logs[n - 3].starts_with("[INFO] Note: Runtime params"));
    assert_eq!(g.logs[n - 2], "[WARN] ctx_size mismatch! Server actual: 2048, GUI setting: 4096. The model may not support the requested context size.");
    assert_eq!(g.logs[n - 1], "[INFO] The actual ctx per sequence may be 2048 (total / parallel). Model max context may limit the value.");

    g.finish_apply_runtime_params(&CommandOutput::Finished {
        success: true,
        stdout: b"{\"n_ctx\": 4096}".to_vec(),
        stderr: Vec::new(),
    });
    assert_eq!(last_log(&g), "[OK] ctx_size verified: 4096 matches GUI setting");

    g.finish_apply_runtime_params(&CommandOutput::Finished {
        success: false,
        stdout: Vec::new(),
        stderr: b"  connection refused\n".to_vec(),
    });
    assert_eq!(g.params_apply_status, "API Error: connection refused");
    assert_eq!(last_log(&g), "[API] Error: connection refused");

    g.finish_apply_runtime_params(&CommandOutput::Failed("no curl".to_string()));
    assert_eq!(g.params_apply_status, "Failed: no curl");
    assert_eq!(last_log(&g), "[API] curl failed: no curl");
}

#[test]
fn background_check_of_the_context() {
    let mut g = fresh();
    assert!(!g.ctx_check_due(Some(5000)));
    g.on_server_started();
    assert!(!g.ctx_check_due(None));
    assert!(!g.ctx_check_due(Some(2999)));
    assert!(g.ctx_check_due(Some(3000)));
    let before = g.logs.len();
    g.auto_verify_ctx(&CommandOutput::Failed("x".to_string()));
    g.auto_verify_ctx(&CommandOutput::Finished { success: true, stdout: b"{}".to_vec(), stderr: vec![] });
    assert_eq!(g.logs.len(), before);
    assert!(!g.ctx_verified);

    g.launch_config.n_parallel = 4;
    g.auto_verify_ctx(&CommandOutput::Finished {
        success: true,
        stdout: b"{\"n_ctx\": 1000}".to_vec(),
        stderr: vec![],
    });
    assert!(g.ctx_verified && g.ctx_mismatch_warned);
    let n = g.logs.len();
    assert_eq!(g.logs[n - 3], "[⚠] ctx_size MISMATCH! Server actual: 1000, GUI setting: 4096");
    assert_eq!(g.logs[n - 2], "[INFO] This may be due to --parallel 4: ctx_per_seq = 1000 / 4 = 250");
    assert_eq!(g.logs[n - 1], "[TIP] The model may not support the requested context size. Check llama-server logs for details.");
    assert!(!g.ctx_check_due(Some(10_000)));

    let mut h = fresh();
    h.on_server_started();
    h.auto_verify_ctx(&CommandOutput::Finished {
        success: true,
        stdout: b"{\"n_ctx\": 4096}".to_vec(),
        stderr: vec![],
    });
    assert!(h.ctx_verified && !h.ctx_mismatch_warned);
    assert_eq!(last_log(&h), "[✓] ctx_size verified: 4096 (matches GUI setting)");
}

#[test]
fn server_lines_are_absorbed() {
    let mut g = fresh();
    let mut shared: Vec<String> = Vec::new();
    g.absorb_server_logs(&mut shared);
    assert_eq!(g.logs.len(), 1);
    shared.push("loading model".to_string());
    shared.push("llama_context: n_ctx_per_seq (4096) < n_ctx_train (131072)".to_string());
    g.absorb_server_logs(&mut shared);
    assert!(shared.is_empty());
    assert_eq!(g.logs.len(), 3);
    assert!(g.ctx_mismatch_warned && g.ctx_verified);

    let mut many: Vec<String> = (0..250).map(|i| i.to_string()).collect();
    g.absorb_server_logs(&mut many);
    assert_eq!(g.logs.len(), 253 - 50);
}

#[test]
fn reported_context_sizes_are_read_from_json() {
    let cases: Vec<(&[u8], Option<&str>)> = vec![
        (b"{\"n_ctx\": 8192, \"x\": [1]}", Some("[WARN] ctx_size mismatch! Server actual: 8192, GUI setting: 4096. The model may not support the requested context size.")),
        (b" {\"n_ctx\":4096}\n", Some("[OK] ctx_size verified: 4096 matches GUI setting")),
        (b"{\"n_ctx\": \"4096\"}", None),
        (b"{\"n_ctx\": 1.5}", None),
        (b"{\"other\": 1}", None),
        (b"not json", None),
        (b"[4096]", None),
    ];
    for (reply, expected) in cases {
        let mut g = fresh();
        g.on_server_started();
        g.finish_apply_runtime_params(&CommandOutput::Finished {
            success: true,
            stdout: reply.to_vec(),
            stderr: Vec::new(),
        });
        let n = g.logs.len();
        match expected {
            Some(line) => assert!(g.logs[n - 2] == line || g.logs[n - 1] == line),
            None => assert!(g.logs[n - 1].starts_with("[INFO] Note:")),
        }
    }
}

#[test]
fn labels() {
    let g = fresh();
    assert_eq!(mirostat_label(Language::English, 0), "Disabled");
    assert_eq!(mirostat_label(Language::Japanese, 0), "無効");
    assert_eq!(mirostat_label(Language::English, 1), "Mirostat 1.0");
    assert_eq!(mirostat_label(Language::Korean, 2), "Mirostat 2.0");
    assert_eq!(mirostat_label(Language::English, 7), "Unknown");
    assert_eq!(g.preset_name_at(6), "Brainstorm");
    assert_eq!(g.preset_name_at(99), "");
    assert_eq!(model_name_from_stem(None), "Unknown Model");
    assert_eq!(model_name_from_stem(Some("qwen".to_string())), "qwen");
}

#[test]
fn model_name_from_the_path() {
    let mut g = fresh();
    g.launch_config.model_path = "/models/qwen2.5-7b.Q4_K_M.gguf".to_string();
    assert_eq!(g.get_model_name(), "qwen2.5-7b.Q4_K_M");
    g.launch_config.model_path = String::new();
    assert_eq!(g.get_model_name(), "Unknown Model");
}

#[test]
fn restoring_after_an_earlier_preset_was_deleted() {
    let mut g = fresh();
    g.apply_preset(4);
    g.runtime_params.temperature = 1.9;
    assert!(g.force_overwrite_preset());
    assert!(g.delete_preset(1));
    assert_eq!(g.settings.last_preset_index, Some(3));
    assert_eq!(g.settings.presets[3].name, "Roleplay");
    assert_eq!(g.settings.presets[3].runtime_params.temperature, 1.9);
    assert!(g.restore_preset_default());
    assert_eq!(g.settings.presets[3].runtime_params.temperature, 0.8);
    assert_eq!(g.settings.presets[3].runtime_params.mirostat_tau, 4.0);
    assert_eq!(g.runtime_params.temperature, 0.8);
    assert_eq!(g.settings.presets[2].runtime_params.temperature, 0.6);
    assert!(!g.params_modified);
    assert_eq!(last_log(&g), "Preset restored to default: Roleplay");
}

#[test]
fn custom_preset_within_the_snapshot_range_has_no_default() {
    let mut g = fresh();
    g.new_preset_name = "Mine".to_string();
    g.runtime_params.temperature = 1.5;
    assert!(g.save_current_as_preset());
    assert!(g.delete_preset(0));
    g.apply_preset(6);
    assert_eq!(g.settings.presets[6].name, "Mine");
    assert_eq!(g.settings.default_presets_snapshot.len(), 7);
    let presets_before: Vec<String> = g.settings.presets.iter().map(|p| p.name.clone()).collect();
    let logs_before = g.logs.len();
    assert!(!g.restore_preset_default());
    assert_eq!(last_log(&g), "Cannot restore: this is a custom preset with no default.");
    assert_eq!(g.logs.len(), logs_before + 1);
    assert_eq!(g.settings.presets[6].runtime_params.temperature, 1.5);
    assert_eq!(g.runtime_params.temperature, 1.5);
    let presets_after: Vec<String> = g.settings.presets.iter().map(|p| p.name.clone()).collect();
    assert_eq!(presets_before, presets_after);
}

#[test]
fn model_name_is_the_file_stem() {
    let mut g = fresh();
    g.launch_config.model_path = "m.gguf".to_string();
    assert_eq!(g.get_model_name(), "m");
    g.launch_config.model_path = ".hidden".to_string();
    assert_eq!(g.get_model_name(), ".hidden");
    g.launch_config.model_path = "a.b.c".to_string();
    assert_eq!(g.get_model_name(), "a.b");
    g.launch_config.model_path = "noext".to_string();
    assert_eq!(g.get_model_name(), "noext");
    g.launch_config.model_path = "models/sub/x.gguf".to_string();
    assert_eq!(g.get_model_name(), "x");
    g.launch_config.model_path = "/models/x.gguf".to_string();
    assert_eq!(g.get_model_name(), "x");
    g.launch_config.model_path = "H:/AI/models/model.gguf".to_string();
    assert_eq!(g.get_model_name(), "model");
    g.launch_config.model_path = "H:\\AI\\models\\model.gguf".to_string();
    let name = g.get_model_name();
    assert!(name == "model" || name == "H:\\AI\\models\\model", "{}", name);
    g.launch_config.model_path = "/models//.cache/y.Q4.gguf".to_string();
    assert_eq!(g.get_model_name(), "y.Q4");
}
