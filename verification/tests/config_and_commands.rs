use deve_llama_gui::command::{
    api_url, build_command, clipboard_args, ctx_per_seq, div_toward_zero, launch_args,
    open_url_args, props_request_args, props_url, web_ui_url,
};
use deve_llama_gui::config::{
    kv_cache_types, AppSettings, LaunchConfig, Preset, QuickCommand, RuntimeParams,
};
use deve_llama_gui::language::Language;
use deve_llama_gui::theme::Theme;

/// The command preview written out with `format!`, for comparison.
fn expected_preview(c: &LaunchConfig) -> String {
    let mut cmd = format!(
        "{} ^\n  --model \"{}\" ^\n  --host {} ^\n  --port {} ^\n  --n-gpu-layers {} ^\n  --ctx-size {} ^\n  --threads {} ^\n  --threads-batch {} ^\n  --batch-size {} ^\n  --ubatch-size {}",
        c.llama_server_path, c.model_path, c.host, c.port, c.n_gpu_layers, c.ctx_size,
        c.threads, c.threads_batch, c.batch_size, c.ubatch_size
    );
    if c.flash_attn {
        cmd.push_str(" ^\n  --flash-attn on");
    }
    cmd.push_str(&format!(" ^\n  --cache-type-k {}", c.kv_cache_type));
    cmd.push_str(&format!(" ^\n  --cache-type-v {}", c.kv_cache_type));
    if c.verbose {
        cmd.push_str(" ^\n  --verbose");
    }
    if !c.warmup {
        cmd.push_str(" ^\n  --no-warmup");
    }
    if !c.continuous_batching {
        cmd.push_str(" ^\n  --no-cont-batching");
    }
    cmd.push_str(&format!(" ^\n  --parallel {}", c.n_parallel));
    if !c.mmproj_path.is_empty() {
        cmd.push_str(&format!(" ^\n  --mmproj \"{}\"", c.mmproj_path));
    }
    cmd.push_str(" ^\n  --props");
    cmd
}

fn other_config() -> LaunchConfig {
    let mut c = LaunchConfig::default();
    c.model_path = "/models/qwen 7b.gguf".to_string();
    c.llama_server_path = "/opt/llama/llama-server".to_string();
    c.host = "0.0.0.0".to_string();
    c.port = 65535;
    c.n_gpu_layers = 0;
    c.ctx_size = -3;
    c.flash_attn = false;
    c.kv_cache_type = "q8_0".to_string();
    c.verbose = true;
    c.warmup = false;
    c.continuous_batching = false;
    c.n_parallel = 4;
    c.mmproj_path = "/models/mm proj.gguf".to_string();
    c
}

#[test]
fn default_launch_config() {
    let c = LaunchConfig::default();
    assert_eq!(c.model_path, r"H:\AI\models\model.gguf");
    assert_eq!(c.llama_server_path, r"H:\AI\llama.cpp\llama-server.exe");
    assert_eq!(c.host, "127.0.0.1");
    assert_eq!(c.port, 8080);
    assert_eq!(c.n_gpu_layers, 999);
    assert_eq!(c.ctx_size, 4096);
    assert_eq!((c.threads, c.threads_batch), (8, 8));
    assert_eq!((c.batch_size, c.ubatch_size), (2048, 512));
    assert!(c.flash_attn && c.warmup && c.continuous_batching && !c.verbose);
    assert_eq!(c.kv_cache_type, "f16");
    assert_eq!(c.n_parallel, 1);
    assert_eq!(c.mmproj_path, "");
}

#[test]
fn preview_of_the_default_config() {
    let c = LaunchConfig::default();
    assert_eq!(
        build_command(&c),
        "H:\\AI\\llama.cpp\\llama-server.exe ^\n  --model \"H:\\AI\\models\\model.gguf\" ^\n  --host 127.0.0.1 ^\n  --port 8080 ^\n  --n-gpu-layers 999 ^\n  --ctx-size 4096 ^\n  --threads 8 ^\n  --threads-batch 8 ^\n  --batch-size 2048 ^\n  --ubatch-size 512 ^\n  --flash-attn on ^\n  --cache-type-k f16 ^\n  --cache-type-v f16 ^\n  --parallel 1 ^\n  --props"
    );
    assert_eq!(build_command(&c), expected_preview(&c));
}

#[test]
fn preview_with_every_option_switched() {
    let c = other_config();
    assert_eq!(build_command(&c), expected_preview(&c));
}

#[test]
fn launch_arguments_of_the_default_config() {
    let c = LaunchConfig::default();
    let args = launch_args(&c);
    let expected: Vec<&str> = vec![
        "--model", r"H:\AI\models\model.gguf", "--host", "127.0.0.1", "--port", "8080",
        "--n-gpu-layers", "999", "--ctx-size", "4096", "--threads", "8", "--threads-batch", "8",
        "--batch-size", "2048", "--ubatch-size", "512", "--flash-attn", "on", "--cache-type-k",
        "f16", "--cache-type-v", "f16", "--parallel", "1", "--props",
    ];
    assert_eq!(args, expected);
}

#[test]
fn launch_arguments_with_every_option_switched() {
    let c = other_config();
    let args = launch_args(&c);
    let expected: Vec<&str> = vec![
        "--model", "/models/qwen 7b.gguf", "--host", "0.0.0.0", "--port", "65535",
        "--n-gpu-layers", "0", "--ctx-size", "-3", "--threads", "8", "--threads-batch", "8",
        "--batch-size", "2048", "--ubatch-size", "512", "--cache-type-k", "q8_0",
        "--cache-type-v", "q8_0", "--verbose", "--no-warmup", "--no-cont-batching",
        "--parallel", "4", "--mmproj", "/models/mm proj.gguf", "--props",
    ];
    assert_eq!(args, expected);
}

#[test]
fn addresses_of_the_server() {
    assert_eq!(api_url("127.0.0.1", 8080), "http://127.0.0.1:8080/v1");
    assert_eq!(props_url("localhost", 1024), "http://localhost:1024/props");
    assert_eq!(web_ui_url(8080), "http://localhost:8080");
    assert_eq!(props_request_args("h", 80, false), vec!["-s", "http://h:80/props"]);
    assert_eq!(
        props_request_args("h", 80, true),
        vec!["-s", "--connect-timeout", "2", "http://h:80/props"]
    );
    assert_eq!(open_url_args("http://x"), vec!["/c", "start", "", "http://x"]);
}

fn powershell_unquote(script: &str) -> String {
    let inner = script
        .strip_prefix("Set-Clipboard -Value '")
        .and_then(|s| s.strip_suffix('\''))
        .expect("quoted");
    inner.replace("''", "'")
}

#[test]
fn clipboard_script_quotes_the_text() {
    assert_eq!(clipboard_args("abc"), vec!["-command", "Set-Clipboard -Value 'abc'"]);
    assert_eq!(clipboard_args("it's"), vec!["-command", "Set-Clipboard -Value 'it''s'"]);
    for text in ["", "'", "''", "a'b'c", "日本'語", "x'''y"] {
        let args = clipboard_args(text);
        assert_eq!(powershell_unquote(&args[1]), text);
    }
}

#[test]
fn context_per_sequence() {
    assert_eq!(ctx_per_seq(4096, 1), None);
    assert_eq!(ctx_per_seq(4096, 0), None);
    assert_eq!(ctx_per_seq(4096, 4), Some(1024));
    assert_eq!(ctx_per_seq(4097, 2), Some(2048));
    assert_eq!(ctx_per_seq(-7, 2), Some(-3));
    assert_eq!(ctx_per_seq(i32::MIN, 2), Some(i32::MIN / 2));
    assert_eq!(div_toward_zero(i64::MIN, 3), i64::MIN / 3);
    assert_eq!(div_toward_zero(-1, 5), 0);
    assert_eq!(div_toward_zero(9, 4), 2);
}

#[test]
fn default_runtime_params_in_thousandths() {
    let p = RuntimeParams::<i32>::default();
    assert_eq!(
        (p.temperature, p.top_k, p.top_p, p.min_p, p.repeat_penalty, p.repeat_last_n),
        (600, 20, 1000, 0, 1050, 64)
    );
    assert_eq!((p.presence_penalty, p.frequency_penalty), (0, 0));
    assert_eq!((p.n_predict, p.seed, p.mirostat), (-1, -1, 0));
    assert_eq!((p.mirostat_tau, p.mirostat_eta), (5000, 100));
}

#[test]
fn the_seven_built_in_presets() {
    let presets = Preset::default_presets();
    let rows: Vec<(&str, i32, i32, i32, i32, i32)> = presets
        .iter()
        .map(|p| {
            let r = &p.runtime_params;
            (p.name.as_str(), r.temperature, r.top_k, r.top_p, r.min_p, r.repeat_penalty)
        })
        .collect();
    assert_eq!(
        rows,
        vec![
            ("General Chat", 700, 40, 900, 50, 1100),
            ("Code Mode", 600, 20, 1000, 0, 1050),
            ("Creative Writing", 900, 100, 950, 50, 1100),
            ("OpenClaw", 600, 40, 900, 50, 1100),
            ("Roleplay", 800, 100, 950, 50, 1100),
            ("Math & Logic", 300, 10, 800, 0, 1000),
            ("Brainstorm", 1000, 100, 950, 50, 1150),
        ]
    );
    assert_eq!(presets[0].description, "Balanced for everyday conversation");
    assert_eq!(presets[3].runtime_params.n_predict, 8192);
    assert_eq!(presets[4].runtime_params.mirostat, 2);
    assert_eq!(presets[4].runtime_params.mirostat_tau, 4000);
    assert_eq!(presets[4].runtime_params.mirostat_eta, 150);
    assert_eq!(presets[6].runtime_params.repeat_last_n, 32);
    for p in &presets {
        assert_eq!(p.runtime_params.seed, -1);
        assert_eq!(p.runtime_params.presence_penalty, 0);
    }
}

#[test]
fn default_settings() {
    let s = AppSettings::<i32>::default();
    assert_eq!(s.theme, Theme::Cyberpunk);
    assert_eq!(s.language, Language::English);
    assert_eq!(s.presets.len(), 7);
    assert_eq!(s.default_presets_snapshot.len(), 7);
    assert_eq!(s.last_preset_index, None);
    for (a, b) in s.presets.iter().zip(s.default_presets_snapshot.iter()) {
        assert_eq!(a.name, b.name);
        assert_eq!(a.runtime_params.temperature, b.runtime_params.temperature);
    }
}

#[test]
fn quick_commands_follow_the_language() {
    let en = QuickCommand::default_commands(Language::English);
    assert_eq!(en.len(), 3);
    assert_eq!(en[0].name, "Clear");
    assert_eq!(en[0].command, "/clear");
    assert_eq!(en[1].name, "Copy API URL");
    assert_eq!(en[1].command, "api_url");
    assert_eq!(en[2].description, "Open llama.cpp documentation");
    let ko = QuickCommand::default_commands(Language::Korean);
    assert_eq!(ko[0].name, "지우기");
    assert_eq!(ko[0].description, "Clear console logs");
}

#[test]
fn kv_cache_choices() {
    assert_eq!(
        kv_cache_types(),
        ["f16", "f32", "q8_0", "q4_0", "q4_1", "q5_0", "q5_1", "bf16", "iq4_nl"]
    );
}

