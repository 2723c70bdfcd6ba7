use vstd::prelude::*;

use crate::i18n::{tr, translation, TextKey};
use crate::language::Language;
use crate::theme::Theme;

verus! {

/// Sampling parameters sent with each request to the server. The
/// fractional ones have the type `F`: the launcher holds them as `f32`, and
/// the built-in tables here give them as `i32` counts of thousandths.
#[derive(Clone, Copy, Debug)]
pub struct RuntimeParams<F> {
    pub temperature: F,
    pub top_k: i32,
    pub top_p: F,
    pub min_p: F,
    pub repeat_penalty: F,
    pub repeat_last_n: i32,
    pub presence_penalty: F,
    pub frequency_penalty: F,
    pub n_predict: i32,
    pub seed: i32,
    pub mirostat: i32,
    pub mirostat_tau: F,
    pub mirostat_eta: F,
}

/// Sampling parameters written with their fractional values in thousandths.
pub open spec fn params_milli(
    temperature: i32,
    top_k: i32,
    top_p: i32,
    min_p: i32,
    repeat_penalty: i32,
    repeat_last_n: i32,
    n_predict: i32,
    mirostat: i32,
    mirostat_tau: i32,
    mirostat_eta: i32,
) -> RuntimeParams<i32> {
    RuntimeParams {
        temperature,
        top_k,
        top_p,
        min_p,
        repeat_penalty,
        repeat_last_n,
        presence_penalty: 0,
        frequency_penalty: 0,
        n_predict,
        seed: -1i32,
        mirostat,
        mirostat_tau,
        mirostat_eta,
    }
}

/// The sampling parameters used when no preset is chosen, in thousandths.
pub open spec fn default_runtime_params() -> RuntimeParams<i32> {
    params_milli(600, 20, 1000, 0, 1050, 64, -1i32, 0, 5000, 100)
}

impl Default for RuntimeParams<i32> {
    /// The default sampling parameters, fractional values in thousandths.
    fn default() -> (r: Self)
        ensures
            r == default_runtime_params(),
    {
        RuntimeParams {
            temperature: 600,
            top_k: 20,
            top_p: 1000,
            min_p: 0,
            repeat_penalty: 1050,
            repeat_last_n: 64,
            presence_penalty: 0,
            frequency_penalty: 0,
            n_predict: -1,
            seed: -1,
            mirostat: 0,
            mirostat_tau: 5000,
            mirostat_eta: 100,
        }
    }
}

/// A named set of sampling parameters.
pub struct Preset<F> {
    pub name: String,
    pub description: String,
    pub runtime_params: RuntimeParams<F>,
}

impl<F> DeepView for Preset<F> {
    type V = (Seq<char>, Seq<char>, RuntimeParams<F>);

    open spec fn deep_view(&self) -> Self::V {
        (self.name@, self.description@, self.runtime_params)
    }
}

impl<F: Copy> Clone for Preset<F> {
    fn clone(&self) -> (r: Self)
        ensures
            r == *self,
    {
        Preset {
            name: self.name.clone(),
            description: self.description.clone(),
            runtime_params: self.runtime_params,
        }
    }
}

/// A copy of a list of presets.
pub fn clone_presets<F: Copy>(v: &Vec<Preset<F>>) -> (r: Vec<Preset<F>>)
    ensures
        r@ == v@,
{
    let mut r: Vec<Preset<F>> = Vec::new();
    let n = v.len();
    for i in 0..n
        invariant
            n == v@.len(),
            r@ == v@.take(i as int),
    {
        r.push(v[i].clone());
        assert(v@.take(i + 1) == v@.take(i as int).push(v@[i as int]));
    }
    assert(v@.take(n as int) == v@);
    r
}

/// The built-in presets: name, description and parameters in thousandths.
/// Temperature, top-k, top-p, min-p and repeat penalty are those of the
/// table of built-in presets in the user documentation.
pub open spec fn default_preset_table() -> Seq<(Seq<char>, Seq<char>, RuntimeParams<i32>)> {
    seq![
        (
            "General Chat"@,
            "Balanced for everyday conversation"@,
            params_milli(700, 40, 900, 50, 1100, 64, -1i32, 0, 5000, 100),
        ),
        (
            "Code Mode"@,
            "Optimized for coding and precise tasks"@,
            params_milli(600, 20, 1000, 0, 1050, 128, -1i32, 0, 5000, 100),
        ),
        (
            "Creative Writing"@,
            "High temperature for creative output"@,
            params_milli(900, 100, 950, 50, 1100, 64, -1i32, 2, 5000, 100),
        ),
        (
            "OpenClaw"@,
            "Optimized for OpenClaw agent use"@,
            params_milli(600, 40, 900, 50, 1100, 96, 8192, 0, 5000, 100),
        ),
        (
            "Roleplay"@,
            "For character roleplay scenarios"@,
            params_milli(800, 100, 950, 50, 1100, 64, -1i32, 2, 4000, 150),
        ),
        (
            "Math & Logic"@,
            "Deterministic for math and reasoning"@,
            params_milli(300, 10, 800, 0, 1000, 128, -1i32, 0, 5000, 100),
        ),
        (
            "Brainstorm"@,
            "Maximum creativity and divergence"@,
            params_milli(1000, 100, 950, 50, 1150, 32, -1i32, 0, 5000, 100),
        ),
    ]
}

fn preset_milli(
    name: &str,
    description: &str,
    temperature: i32,
    top_k: i32,
    top_p: i32,
    min_p: i32,
    repeat_penalty: i32,
    repeat_last_n: i32,
    n_predict: i32,
    mirostat: i32,
    mirostat_tau: i32,
    mirostat_eta: i32,
) -> (r: Preset<i32>)
    ensures
        r.deep_view() == (
            name@,
            description@,
            params_milli(
                temperature,
                top_k,
                top_p,
                min_p,
                repeat_penalty,
                repeat_last_n,
                n_predict,
                mirostat,
                mirostat_tau,
                mirostat_eta,
            ),
        ),
{
    Preset {
        name: String::from_str(name),
        description: String::from_str(description),
        runtime_params: RuntimeParams {
            temperature,
            top_k,
            top_p,
            min_p,
            repeat_penalty,
            repeat_last_n,
            presence_penalty: 0,
            frequency_penalty: 0,
            n_predict,
            seed: -1,
            mirostat,
            mirostat_tau,
            mirostat_eta,
        },
    }
}

impl Preset<i32> {
    /// The built-in presets, fractional parameters in thousandths.
    pub fn default_presets() -> (r: Vec<Preset<i32>>)
        ensures
            r.deep_view() == default_preset_table(),
    {
        let mut r: Vec<Preset<i32>> = Vec::new();
        r.push(
            preset_milli(
                "General Chat",
                "Balanced for everyday conversation",
                700,
                40,
                900,
                50,
                1100,
                64,
                -1,
                0,
                5000,
                100,
            ),
        );
        r.push(
            preset_milli(
                "Code Mode",
                "Optimized for coding and precise tasks",
                600,
                20,
                1000,
                0,
                1050,
                128,
                -1,
                0,
                5000,
                100,
            ),
        );
        r.push(
            preset_milli(
                "Creative Writing",
                "High temperature for creative output",
                900,
                100,
                950,
                50,
                1100,
                64,
                -1,
                2,
                5000,
                100,
            ),
        );
        r.push(
            preset_milli(
                "OpenClaw",
                "Optimized for OpenClaw agent use",
                600,
                40,
                900,
                50,
                1100,
                96,
                8192,
                0,
                5000,
                100,
            ),
        );
        r.push(
            preset_milli(
                "Roleplay",
                "For character roleplay scenarios",
                800,
                100,
                950,
                50,
                1100,
                64,
                -1,
                2,
                4000,
                150,
            ),
        );
        r.push(
            preset_milli(
                "Math & Logic",
                "Deterministic for math and reasoning",
                300,
                10,
                800,
                0,
                1000,
                128,
                -1,
                0,
                5000,
                100,
            ),
        );
        r.push(
            preset_milli(
                "Brainstorm",
                "Maximum creativity and divergence",
                1000,
                100,
                950,
                50,
                1150,
                32,
                -1,
                0,
                5000,
                100,
            ),
        );
        assert(r.deep_view() =~= default_preset_table());
        r
    }
}

/// The settings with which the server is launched.
#[derive(Clone, Debug)]
pub struct LaunchConfig {
    pub model_path: String,
    pub llama_server_path: String,
    pub host: String,
    pub port: u16,
    pub n_gpu_layers: i32,
    pub ctx_size: i32,
    pub threads: i32,
    pub threads_batch: i32,
    pub batch_size: i32,
    pub ubatch_size: i32,
    pub flash_attn: bool,
    pub kv_cache_type: String,
    pub verbose: bool,
    pub warmup: bool,
    pub continuous_batching: bool,
    pub n_parallel: i32,
    pub mmproj_path: String,
}

/// The launch settings of a fresh installation.
pub open spec fn is_default_launch_config(c: LaunchConfig) -> bool {
    &&& c.model_path@ == "H:\\AI\\models\\model.gguf"@
    &&& c.llama_server_path@ == "H:\\AI\\llama.cpp\\llama-server.exe"@
    &&& c.host@ == "127.0.0.1"@
    &&& c.port == 8080
    &&& c.n_gpu_layers == 999
    &&& c.ctx_size == 4096
    &&& c.threads == 8
    &&& c.threads_batch == 8
    &&& c.batch_size == 2048
    &&& c.ubatch_size == 512
    &&& c.flash_attn
    &&& c.kv_cache_type@ == "f16"@
    &&& !c.verbose
    &&& c.warmup
    &&& c.continuous_batching
    &&& c.n_parallel == 1
    &&& c.mmproj_path@ == Seq::<char>::empty()
}

impl Default for LaunchConfig {
    fn default() -> (r: Self)
        ensures
            is_default_launch_config(r),
    {
        LaunchConfig {
            model_path: String::from_str("H:\\AI\\models\\model.gguf"),
            llama_server_path: String::from_str("H:\\AI\\llama.cpp\\llama-server.exe"),
            host: String::from_str("127.0.0.1"),
            port: 8080,
            n_gpu_layers: 999,
            ctx_size: 4096,
            threads: 8,
            threads_batch: 8,
            batch_size: 2048,
            ubatch_size: 512,
            flash_attn: true,
            kv_cache_type: String::from_str("f16"),
            verbose: false,
            warmup: true,
            continuous_batching: true,
            n_parallel: 1,
            mmproj_path: String::new(),
        }
    }
}

/// The choices offered for the key/value cache type.
pub open spec fn kv_cache_type_names() -> Seq<Seq<char>> {
    seq!["f16"@, "f32"@, "q8_0"@, "q4_0"@, "q4_1"@, "q5_0"@, "q5_1"@, "bf16"@, "iq4_nl"@]
}

/// The choices offered for the key/value cache type, in menu order.
pub fn kv_cache_types() -> (r: [&'static str; 9])
    ensures
        r@.map_values(|s: &'static str| s@) == kv_cache_type_names(),
{
    let r = ["f16", "f32", "q8_0", "q4_0", "q4_1", "q5_0", "q5_1", "bf16", "iq4_nl"];
    assert(r@.map_values(|s: &'static str| s@) =~= kv_cache_type_names());
    r
}

/// What the launcher remembers besides the launch and sampling parameters.
pub struct AppSettings<F> {
    pub theme: Theme,
    pub language: Language,
    pub presets: Vec<Preset<F>>,
    pub last_preset_index: Option<usize>,
    /// The presets as first installed, used to restore one to its default.
    pub default_presets_snapshot: Vec<Preset<F>>,
}

impl<F: Copy> AppSettings<F> {
    /// Fresh settings holding the given presets, which are also kept as the
    /// defaults to restore.
    pub fn with_presets(presets: Vec<Preset<F>>) -> (r: Self)
        ensures
            r.theme == Theme::Cyberpunk,
            r.language == Language::English,
            r.presets@ == presets@,
            r.default_presets_snapshot@ == presets@,
            r.last_preset_index is None,
    {
        let snapshot = clone_presets(&presets);
        AppSettings {
            theme: Theme::Cyberpunk,
            language: Language::English,
            default_presets_snapshot: snapshot,
            presets,
            last_preset_index: None,
        }
    }
}

impl Default for AppSettings<i32> {
    /// Fresh settings with the built-in presets (thousandths).
    fn default() -> (r: Self)
        ensures
            r.theme == Theme::Cyberpunk,
            r.language == Language::English,
            r.presets.deep_view() == default_preset_table(),
            r.default_presets_snapshot@ == r.presets@,
            r.last_preset_index is None,
    {
        AppSettings::with_presets(Preset::default_presets())
    }
}

/// A command offered in the list of quick commands.
#[derive(Clone, Debug)]
pub struct QuickCommand {
    pub name: String,
    pub description: String,
    pub command: String,
}

impl DeepView for QuickCommand {
    type V = (Seq<char>, Seq<char>, Seq<char>);

    open spec fn deep_view(&self) -> Self::V {
        (self.name@, self.description@, self.command@)
    }
}

/// The quick commands, with the first one's name in `lang`.
pub open spec fn quick_command_table(lang: Language) -> Seq<(Seq<char>, Seq<char>, Seq<char>)> {
    seq![
        (translation(lang, TextKey::Clear), "Clear console logs"@, "/clear"@),
        ("Copy API URL"@, "Copy API endpoint to clipboard"@, "api_url"@),
        ("Open Docs"@, "Open llama.cpp documentation"@, "open_docs"@),
    ]
}

fn quick_command(name: &str, description: &str, command: &str) -> (r: QuickCommand)
    ensures
        r.deep_view() == (name@, description@, command@),
{
    QuickCommand {
        name: String::from_str(name),
        description: String::from_str(description),
        command: String::from_str(command),
    }
}

impl QuickCommand {
    /// The commands offered in the quick-command list.
    pub fn default_commands(lang: Language) -> (r: Vec<QuickCommand>)
        ensures
            r.deep_view() == quick_command_table(lang),
    {
        let mut r: Vec<QuickCommand> = Vec::new();
        r.push(quick_command(tr(lang, TextKey::Clear), "Clear console logs", "/clear"));
        r.push(quick_command("Copy API URL", "Copy API endpoint to clipboard", "api_url"));
        r.push(quick_command("Open Docs", "Open llama.cpp documentation", "open_docs"));
        assert(r.deep_view() =~= quick_command_table(lang));
        r
    }
}

/// The table of built-in presets in the user documentation: temperature,
/// top-k, top-p, min-p and repeat penalty, fractions in thousandths.
pub open spec fn documented_preset(name: Seq<char>) -> Option<(i32, i32, i32, i32, i32)> {
    if name == "General Chat"@ {
        Some((700, 40, 900, 50, 1100))
    } else if name == "Code Mode"@ {
        Some((600, 20, 1000, 0, 1050))
    } else if name == "Creative Writing"@ {
        Some((900, 100, 950, 50, 1100))
    } else if name == "OpenClaw"@ {
        Some((600, 40, 900, 50, 1100))
    } else if name == "Roleplay"@ {
        Some((800, 100, 950, 50, 1100))
    } else if name == "Math & Logic"@ {
        Some((300, 10, 800, 0, 1000))
    } else if name == "Brainstorm"@ {
        Some((1000, 100, 950, 50, 1150))
    } else {
        None
    }
}

/// Each built-in preset has a name of its own and is the row of the
/// documented table with that name; it samples with Mirostat 2.0 when it is
/// meant for creative writing or roleplay, and without Mirostat otherwise.
pub proof fn lemma_builtin_presets_documented(i: int, j: int)
    requires
        0 <= i < default_preset_table().len(),
        0 <= j < default_preset_table().len(),
    ensures
        ({
            let (name, _, p) = default_preset_table()[i];
            &&& documented_preset(name) == Some(
                (p.temperature, p.top_k, p.top_p, p.min_p, p.repeat_penalty),
            )
            &&& p.mirostat == (if name == "Creative Writing"@ || name == "Roleplay"@ {
                2i32
            } else {
                0i32
            })
        }),
        i != j ==> default_preset_table()[i].0 != default_preset_table()[j].0,
{
    reveal_strlit("General Chat");
    reveal_strlit("Code Mode");
    reveal_strlit("Creative Writing");
    reveal_strlit("OpenClaw");
    reveal_strlit("Roleplay");
    reveal_strlit("Math & Logic");
    reveal_strlit("Brainstorm");
    assert("General Chat"@.len() == 12 && "General Chat"@[0] == 'G');
    assert("Code Mode"@.len() == 9);
    assert("Creative Writing"@.len() == 16);
    assert("OpenClaw"@.len() == 8 && "OpenClaw"@[0] == 'O');
    assert("Roleplay"@.len() == 8 && "Roleplay"@[0] == 'R');
    assert("Math & Logic"@.len() == 12 && "Math & Logic"@[0] == 'M');
    assert("Brainstorm"@.len() == 10);
}

} // verus!
