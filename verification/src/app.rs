use vstd::prelude::*;

use crate::command::{
    api_url, api_url_text, build_command, command_preview, launch_args, launch_arguments,
    preview_separator, props_request, props_request_args, quotient,
};
use crate::logs::{
    cap_logs, capped, decode_lossy, scan_flags, scan_server_lines, utf8_lossy,
};
use crate::messages::{
    auto_ctx_lines, ctx_ok_note, ctx_verified_note, exit_code_line, exit_code_text,
    manual_ctx_lines, mismatch_alert_text, mismatch_tip, mismatch_warning_text, number_text,
    parallel_hint_text, parallel_start_note, parallel_start_note_text, per_seq_hint,
    with_number,
};
use crate::props::{json_int_field, read_json_int_field};
use crate::text::{decimal_text, has_infix, replace_all, replace_text, trim, trim_white};
use crate::config::{
    clone_presets, AppSettings, LaunchConfig, Preset, QuickCommand, RuntimeParams,
    is_default_launch_config, quick_command_table,
};
use crate::i18n::{tr, translation, TextKey};
use crate::language::Language;
use crate::presets::{
    add_preset, choose_preset, default_of, delete_preset, find_named, lemma_find_named_prefix,
    overwrite_preset, restore_preset, PresetState,
};
use crate::text::same_text;
use crate::theme::Theme;

verus! {

broadcast use vstd::string::group_string_axioms;

/// The state of the launcher window, apart from the server process and the
/// files it reads and writes. `F` is the type of the fractional sampling
/// parameters.
pub struct DeveLlamaGUI<F> {
    pub launch_config: LaunchConfig,
    pub runtime_params: RuntimeParams<F>,
    pub settings: AppSettings<F>,
    pub logs: Vec<String>,
    pub is_running: bool,
    pub status_message: String,
    pub api_url: String,
    pub cmd_preview: String,
    pub params_modified: bool,
    pub params_apply_status: String,
    pub show_save_preset_dialog: bool,
    pub new_preset_name: String,
    pub new_preset_description: String,
    /// The preset whose deletion waits for confirmation.
    pub confirm_delete_preset_idx: Option<usize>,
    pub console_input: String,
    pub quick_commands: Vec<QuickCommand>,
    pub show_all_commands: bool,
    /// The launch settings changed while the server runs: a restart applies
    /// them.
    pub launch_config_dirty: bool,
    /// The server has been asked for its context size, or has reported a
    /// problem with it.
    pub ctx_verified: bool,
    /// The server's context size differs from the one asked for.
    pub ctx_mismatch_warned: bool,
}

/// What the launcher does after a console command, besides what the
/// command changes in its state.
pub enum ConsoleAction {
    Nothing,
    CopyToClipboard(String),
    OpenUrl(String),
}

/// How a helper program ended: it ran and exited (successfully or not)
/// with its output, or it could not be started.
pub enum CommandOutput {
    Finished { success: bool, stdout: Vec<u8>, stderr: Vec<u8> },
    Failed(String),
}

/// The documentation of the server.
pub open spec fn docs_url() -> Seq<char> {
    "https://github.com/ggml-org/llama.cpp/blob/master/tools/server/README.md"@
}

/// The commands the console answers besides reporting them unknown.
pub open spec fn console_commands() -> Seq<Seq<char>> {
    seq!["/clear"@, "/help"@, "api_url"@, "open_docs"@]
}

/// The answer to `/help`.
pub open spec fn help_text() -> Seq<char> {
    "Commands: /clear, /help, api_url, open_docs"@
}

/// `/help` names every command the console accepts.
pub proof fn lemma_help_names_every_command()
    ensures
        forall|i: int|
            0 <= i < console_commands().len() ==> has_infix(
                help_text(),
                #[trigger] console_commands()[i],
            ),
{
    reveal_strlit("Commands: /clear, /help, api_url, open_docs");
    reveal_strlit("/clear");
    reveal_strlit("/help");
    reveal_strlit("api_url");
    reveal_strlit("open_docs");
    let h = help_text();
    assert(h.subrange(10, 16) =~= "/clear"@);
    assert(h.subrange(18, 23) =~= "/help"@);
    assert(h.subrange(25, 32) =~= "api_url"@);
    assert(h.subrange(34, 43) =~= "open_docs"@);
    assert forall|i: int| 0 <= i < console_commands().len() implies has_infix(
        help_text(),
        #[trigger] console_commands()[i],
    ) by {
        if i == 0 {
            assert(h.subrange(10, 10 + console_commands()[i].len() as int) == console_commands()[i]);
        } else if i == 1 {
            assert(h.subrange(18, 18 + console_commands()[i].len() as int) == console_commands()[i]);
        } else if i == 2 {
            assert(h.subrange(25, 25 + console_commands()[i].len() as int) == console_commands()[i]);
        } else {
            assert(h.subrange(34, 34 + console_commands()[i].len() as int) == console_commands()[i]);
        }
    }
}

/// The line a console command adds to the logs after the echo of the
/// command itself.
pub open spec fn console_reply(lang: Language, cmd: Seq<char>, api: Seq<char>) -> Seq<char> {
    if cmd == "/help"@ {
        help_text()
    } else if cmd == "api_url"@ {
        "API URL copied: "@ + api
    } else if cmd == "open_docs"@ {
        "Opening documentation..."@
    } else {
        translation(lang, TextKey::UnknownCmd) + " "@ + cmd
    }
}

/// The logs after a (trimmed, non-empty) console command.
pub open spec fn console_logs(
    lang: Language,
    logs: Seq<Seq<char>>,
    cmd: Seq<char>,
    api: Seq<char>,
) -> Seq<Seq<char>> {
    if cmd == "/clear"@ {
        seq![translation(lang, TextKey::ConsoleCleared)]
    } else {
        logs.push("> "@ + cmd).push(console_reply(lang, cmd, api))
    }
}

/// The text shown for a Mirostat mode.
pub open spec fn mirostat_text(lang: Language, mode: i32) -> Seq<char> {
    if mode == 0 {
        translation(lang, TextKey::Disabled)
    } else if mode == 1 {
        translation(lang, TextKey::MirostatV1)
    } else if mode == 2 {
        translation(lang, TextKey::MirostatV2)
    } else {
        "Unknown"@
    }
}

/// The text shown for a Mirostat mode.
pub fn mirostat_label(lang: Language, mode: i32) -> (r: String)
    ensures
        r@ == mirostat_text(lang, mode),
{
    if mode == 0 {
        phrase(lang, TextKey::Disabled)
    } else if mode == 1 {
        phrase(lang, TextKey::MirostatV1)
    } else if mode == 2 {
        phrase(lang, TextKey::MirostatV2)
    } else {
        String::from_str("Unknown")
    }
}

/// What a model is called when its file name gives no name.
pub open spec fn unknown_model() -> Seq<char> {
    "Unknown Model"@
}

/// A file name that reads the same on every platform: not empty, without a
/// separator (`/`, `\`) or drive mark (`:`), and neither `.` nor `..`.
pub open spec fn bare_file_name(p: Seq<char>) -> bool {
    &&& p.len() > 0
    &&& !p.contains('/')
    &&& !p.contains('\\')
    &&& !p.contains(':')
    &&& p != "."@
    &&& p != ".."@
}

/// Whether `c` separates the parts of a path on some platform: `/` on
/// every platform, `\` on Windows.
pub open spec fn is_separator(c: char) -> bool {
    c == '/' || c == '\\'
}

/// The part of `p` after its last `/`, or with `windows` after its last
/// `/` or `\`; all of `p` when there is none.
pub open spec fn after_last_separator(p: Seq<char>, windows: bool) -> Seq<char>
    decreases p.len(),
{
    if p.len() == 0 {
        p
    } else if p.last() == '/' || (windows && p.last() == '\\') {
        seq![]
    } else {
        after_last_separator(p.drop_last(), windows).push(p.last())
    }
}

/// A path whose file name is what follows its last separator on every
/// platform: no drive mark, no two separators at its start (a Windows
/// network or verbatim prefix), and a bare file name after its last `/` or
/// `\`.
pub open spec fn plain_path(p: Seq<char>) -> bool {
    &&& !p.contains(':')
    &&& !(p.len() >= 2 && is_separator(p[0]) && is_separator(p[1]))
    &&& bare_file_name(after_last_separator(p, true))
}

/// A path on a Windows drive: an ASCII letter, `:` and a separator, with no
/// other `:`, and a bare file name after its last `/` or `\`. Elsewhere
/// than on Windows the drive mark is an ordinary part of a name.
pub open spec fn drive_path(p: Seq<char>) -> bool {
    &&& p.len() >= 3
    &&& (('a' <= p[0] && p[0] <= 'z') || ('A' <= p[0] && p[0] <= 'Z'))
    &&& p[1] == ':'
    &&& is_separator(p[2])
    &&& !p.skip(2).contains(':')
    &&& bare_file_name(after_last_separator(p, true))
}

/// The position of the last `.` in `name`, or -1 when there is none.
pub open spec fn last_dot(name: Seq<char>) -> int
    decreases name.len(),
{
    if name.len() == 0 {
        -1
    } else if name.last() == '.' {
        name.len() - 1
    } else {
        last_dot(name.drop_last())
    }
}

/// The stem of a file name: the part before the last `.`, unless that `.`
/// is the first character or there is none, in which case the whole name.
pub open spec fn stem_of(name: Seq<char>) -> Seq<char> {
    let k = last_dot(name);
    if k <= 0 {
        name
    } else {
        name.take(k)
    }
}

/// What holds of a stem `s` of `path` on every platform: it is a
/// contiguous part of the path, and without backslashes in the path (so
/// without a Windows verbatim prefix) it holds no `/`.
pub open spec fn stem_within(path: Seq<char>, s: Seq<char>) -> bool {
    &&& has_infix(path, s)
    &&& !path.contains('\\') ==> !s.contains('/')
}

/// The stem of the file name of `path` (`Path::file_stem`, then
/// `OsStr::to_str`).
///
/// Trusted: the separators are `/` and `\` on Windows and `/` elsewhere, so
/// the contract claims what the documentation of `Path` and `file_stem`
/// gives on either. A stem is a contiguous part of the path, and for a path
/// without backslashes (so without a Windows verbatim prefix, under which
/// `/` is no separator) it holds no `/`. For a `plain_path` it is the stem
/// of what follows the last separator, by one platform's separators or the
/// other's, and so is it for a `drive_path` (on Windows the drive is a
/// prefix, elsewhere part of the first name). Which part of other paths
/// (with a network or verbatim prefix, a drive without a separator after
/// it, or ending in a separator, `.` or `..`) is the file name is left
/// unsaid.
#[verifier::external_body]
fn path_file_stem(path: &str) -> (r: Option<String>)
    ensures
        r matches Some(s) ==> stem_within(path@, s@),
        plain_path(path@) || drive_path(path@) ==> (r is Some && (r->0@ == stem_of(
            after_last_separator(path@, false),
        ) || r->0@ == stem_of(after_last_separator(path@, true)))),
{
    match std::path::Path::new(path).file_stem() {
        Some(stem) => match stem.to_str() {
            Some(text) => Some(text.to_string()),
            None => None,
        },
        None => None,
    }
}

/// Without backslashes in a path, the two platforms' last parts agree.
proof fn lemma_after_last_separator_without_backslash(p: Seq<char>)
    requires
        !p.contains('\\'),
    ensures
        after_last_separator(p, false) == after_last_separator(p, true),
    decreases p.len(),
{
    if p.len() > 0 {
        assert(p.drop_last().len() < p.len());
        assert(!p.drop_last().contains('\\')) by {
            if p.drop_last().contains('\\') {
                let i = choose|i: int| 0 <= i < p.drop_last().len() && p.drop_last()[i] == '\\';
                assert(p[i] == '\\');
            }
        }
        assert(p[p.len() - 1] == p.last());
        lemma_after_last_separator_without_backslash(p.drop_last());
    }
}

/// The name shown for a model: the stem of its file name, or
/// "Unknown Model" when there is none.
pub fn model_name_from_stem(stem: Option<String>) -> (r: String)
    ensures
        r@ == match stem {
            Some(s) => s@,
            None => unknown_model(),
        },
{
    match stem {
        Some(s) => s,
        None => String::from_str("Unknown Model"),
    }
}

/// `CommandOutput::Finished` with success and its output decoded.
pub open spec fn succeeded_with(reply: &CommandOutput) -> Option<Seq<char>> {
    match reply {
        CommandOutput::Finished { success, stdout, stderr } => if *success {
            Some(utf8_lossy(stdout@))
        } else {
            None
        },
        CommandOutput::Failed(_) => None,
    }
}

/// `label`, then `sep`, then `text`.
pub open spec fn joined_text(label: Seq<char>, sep: Seq<char>, text: Seq<char>) -> Seq<char> {
    label + sep + text
}

/// A translated phrase followed by `sep` and `text`.
fn phrase_with(lang: Language, k: TextKey, sep: &str, text: &str) -> (r: String)
    ensures
        r@ == joined_text(translation(lang, k), sep@, text@),
{
    let mut r = String::from_str(tr(lang, k));
    r.append(sep);
    r.append(text);
    r
}

/// A translated phrase as a string.
fn phrase(lang: Language, k: TextKey) -> (r: String)
    ensures
        r@ == translation(lang, k),
{
    String::from_str(tr(lang, k))
}

/// Two pieces of text one after the other.
fn concat2(a: &str, b: &str) -> (r: String)
    ensures
        r@ == a@ + b@,
{
    let mut r = String::from_str(a);
    r.append(b);
    r
}

impl<F: Copy> DeveLlamaGUI<F> {
    /// The presets, the defaults, the chosen preset and the parameters in use.
    pub open spec fn preset_state(&self) -> PresetState<F> {
        PresetState {
            presets: self.settings.presets@,
            snapshot: self.settings.default_presets_snapshot@,
            selected: self.settings.last_preset_index,
            params: self.runtime_params,
        }
    }

    /// The language of the interface.
    pub open spec fn lang(&self) -> Language {
        self.settings.language
    }

    /// `other` differs from `self` at most in the presets, the chosen
    /// preset, the parameters in use, the "modified" mark, the status line
    /// of the parameters and the logs.
    pub open spec fn same_but_presets(&self, other: &Self) -> bool {
        *other == (DeveLlamaGUI {
            settings: AppSettings {
                presets: other.settings.presets,
                last_preset_index: other.settings.last_preset_index,
                ..self.settings
            },
            runtime_params: other.runtime_params,
            params_modified: other.params_modified,
            params_apply_status: other.params_apply_status,
            logs: other.logs,
            ..*self
        })
    }

    /// The launcher as it starts: what was loaded from the configuration
    /// file where there is something, the defaults elsewhere. Settings saved
    /// without default presets get `default_presets` as their defaults.
    pub fn new(
        loaded_settings: Option<AppSettings<F>>,
        loaded_launch: Option<LaunchConfig>,
        loaded_runtime: Option<RuntimeParams<F>>,
        default_presets: Vec<Preset<F>>,
        default_runtime: RuntimeParams<F>,
    ) -> (r: Self)
        ensures
            match loaded_settings {
                Some(s) => {
                    &&& r.settings.theme == s.theme
                    &&& r.settings.language == s.language
                    &&& r.settings.presets == s.presets
                    &&& r.settings.last_preset_index == s.last_preset_index
                    &&& r.settings.default_presets_snapshot@ == if s.default_presets_snapshot@.len()
                        == 0 {
                        default_presets@
                    } else {
                        s.default_presets_snapshot@
                    }
                },
                None => {
                    &&& r.settings.theme == Theme::Cyberpunk
                    &&& r.settings.language == Language::English
                    &&& r.settings.presets@ == default_presets@
                    &&& r.settings.last_preset_index is None
                    &&& r.settings.default_presets_snapshot@ == default_presets@
                },
            },
            match loaded_launch {
                Some(c) => r.launch_config == c,
                None => is_default_launch_config(r.launch_config),
            },
            r.runtime_params == match loaded_runtime {
                Some(p) => p,
                None => default_runtime,
            },
            r.logs.deep_view() == seq!["DeveLlamaGUI Pro Ready"@],
            !r.is_running,
            r.status_message@ == "Stopped"@,
            r.api_url@ == api_url_text(r.launch_config.host@, r.launch_config.port),
            r.cmd_preview@ == command_preview(r.launch_config),
            !r.params_modified,
            r.params_apply_status@ == Seq::<char>::empty(),
            !r.show_save_preset_dialog,
            r.new_preset_name@ == Seq::<char>::empty(),
            r.new_preset_description@ == Seq::<char>::empty(),
            r.confirm_delete_preset_idx is None,
            r.console_input@ == Seq::<char>::empty(),
            r.quick_commands.deep_view() == quick_command_table(r.settings.language),
            !r.show_all_commands,
            !r.launch_config_dirty,
            !r.ctx_verified,
            !r.ctx_mismatch_warned,
    {
        let mut settings = match loaded_settings {
            Some(s) => s,
            None => AppSettings::with_presets(clone_presets(&default_presets)),
        };
        if settings.default_presets_snapshot.len() == 0 {
            settings.default_presets_snapshot = default_presets;
        }
        let launch_config = match loaded_launch {
            Some(c) => c,
            None => LaunchConfig::default(),
        };
        let runtime_params = match loaded_runtime {
            Some(p) => p,
            None => default_runtime,
        };
        let quick_commands = QuickCommand::default_commands(settings.language);
        let api = api_url(launch_config.host.as_str(), launch_config.port);
        let preview = build_command(&launch_config);
        let mut logs: Vec<String> = Vec::new();
        logs.push(String::from_str("DeveLlamaGUI Pro Ready"));
        assert(logs.deep_view() =~= seq!["DeveLlamaGUI Pro Ready"@]);
        DeveLlamaGUI {
            launch_config,
            runtime_params,
            settings,
            logs,
            is_running: false,
            status_message: String::from_str("Stopped"),
            api_url: api,
            cmd_preview: preview,
            params_modified: false,
            params_apply_status: String::new(),
            show_save_preset_dialog: false,
            new_preset_name: String::new(),
            new_preset_description: String::new(),
            confirm_delete_preset_idx: None,
            console_input: String::new(),
            quick_commands,
            show_all_commands: false,
            launch_config_dirty: false,
            ctx_verified: false,
            ctx_mismatch_warned: false,
        }
    }

    /// Switches the interface language; the quick commands follow it. The
    /// caller saves the configuration.
    pub fn set_language(&mut self, lang: Language)
        ensures
            final(self).settings.language == lang,
            final(self).quick_commands.deep_view() == quick_command_table(lang),
            *final(self) == (DeveLlamaGUI {
                settings: AppSettings { language: lang, ..old(self).settings },
                quick_commands: final(self).quick_commands,
                ..*old(self)
            }),
    {
        self.settings.language = lang;
        self.quick_commands = QuickCommand::default_commands(lang);
    }

    /// Puts preset `index` in use and makes it the chosen one. Returns
    /// whether it did, in which case the configuration is to be saved; an
    /// index past the end changes nothing.
    pub fn apply_preset(&mut self, index: usize) -> (saved: bool)
        ensures
            saved == (index < old(self).settings.presets.len()),
            final(self).preset_state() == choose_preset(old(self).preset_state(), index),
            old(self).same_but_presets(&*final(self)),
            saved ==> {
                let name = old(self).settings.presets@[index as int].name@;
                &&& !final(self).params_modified
                &&& final(self).params_apply_status@ == joined_text(
                    translation(old(self).lang(), TextKey::PresetApplied),
                    " "@,
                    name,
                )
                &&& final(self).logs.deep_view() == old(self).logs.deep_view().push(
                    joined_text(translation(old(self).lang(), TextKey::PresetApplied), ": "@, name),
                )
            },
            !saved ==> *final(self) == *old(self),
    {
        let lang = self.settings.language;
        if index < self.settings.presets.len() {
            let params = self.settings.presets[index].runtime_params;
            self.runtime_params = params;
            self.settings.last_preset_index = Some(index);
            self.params_modified = false;
            let status = phrase_with(
                lang,
                TextKey::PresetApplied,
                " ",
                self.settings.presets[index].name.as_str(),
            );
            self.params_apply_status = status;
            let entry = phrase_with(
                lang,
                TextKey::PresetApplied,
                ": ",
                self.settings.presets[index].name.as_str(),
            );
            self.logs.push(entry);
            true
        } else {
            false
        }
    }

    /// Adds the parameters in use as a new preset under the name and
    /// description typed in the dialog, then closes the dialog and clears
    /// both fields. Returns whether it did, in which case the configuration
    /// is to be saved; without a name nothing changes.
    pub fn save_current_as_preset(&mut self) -> (saved: bool)
        ensures
            saved == (old(self).new_preset_name@.len() > 0),
            saved ==> {
                &&& final(self).preset_state() == add_preset(
                    old(self).preset_state(),
                    old(self).new_preset_name,
                    old(self).new_preset_description,
                )
                &&& final(self).logs.deep_view() == old(self).logs.deep_view().push(
                    translation(old(self).lang(), TextKey::PresetSaved),
                )
                &&& final(self).new_preset_name@ == Seq::<char>::empty()
                &&& final(self).new_preset_description@ == Seq::<char>::empty()
                &&& *final(self) == (DeveLlamaGUI {
                    settings: AppSettings {
                        presets: final(self).settings.presets,
                        ..old(self).settings
                    },
                    logs: final(self).logs,
                    show_save_preset_dialog: false,
                    new_preset_name: final(self).new_preset_name,
                    new_preset_description: final(self).new_preset_description,
                    ..*old(self)
                })
            },
            !saved ==> *final(self) == *old(self),
    {
        let lang = self.settings.language;
        if self.new_preset_name.as_str().unicode_len() > 0 {
            let preset = Preset {
                name: self.new_preset_name.clone(),
                description: self.new_preset_description.clone(),
                runtime_params: self.runtime_params,
            };
            self.settings.presets.push(preset);
            self.show_save_preset_dialog = false;
            self.new_preset_name = String::new();
            self.new_preset_description = String::new();
            self.logs.push(phrase(lang, TextKey::PresetSaved));
            true
        } else {
            false
        }
    }

    /// Writes the parameters in use into the chosen preset. Returns whether
    /// it did, in which case the configuration is to be saved; without a
    /// chosen preset that exists nothing changes.
    pub fn force_overwrite_preset(&mut self) -> (saved: bool)
        ensures
            saved == (old(self).settings.last_preset_index matches Some(i) && i
                < old(self).settings.presets.len()),
            final(self).preset_state() == overwrite_preset(old(self).preset_state()),
            old(self).same_but_presets(&*final(self)),
            saved ==> {
                let i = old(self).settings.last_preset_index->0;
                let name = old(self).settings.presets@[i as int].name@;
                let msg = joined_text(
                    translation(old(self).lang(), TextKey::PresetOverwritten),
                    ": "@,
                    name,
                );
                &&& !final(self).params_modified
                &&& final(self).params_apply_status@ == msg
                &&& final(self).logs.deep_view() == old(self).logs.deep_view().push(msg)
            },
            !saved ==> *final(self) == *old(self),
    {
        let lang = self.settings.language;
        match self.settings.last_preset_index {
            Some(idx) => {
                if idx < self.settings.presets.len() {
                    let params = self.runtime_params;
                    let mut preset = self.settings.presets[idx].clone();
                    preset.runtime_params = params;
                    let msg = phrase_with(
                        lang,
                        TextKey::PresetOverwritten,
                        ": ",
                        preset.name.as_str(),
                    );
                    let entry = msg.clone();
                    self.settings.presets.set(idx, preset);
                    self.params_modified = false;
                    self.params_apply_status = msg;
                    self.logs.push(entry);
                    true
                } else {
                    false
                }
            },
            None => false,
        }
    }

    /// Restores the chosen preset to its default, the built-in preset with
    /// the same name, and puts the default parameters in use. Returns
    /// whether it did, in which case the configuration is to be saved. A
    /// chosen preset without a default (one the user added) is only
    /// reported in the logs.
    pub fn restore_preset_default(&mut self) -> (saved: bool)
        ensures
            saved == (default_of(old(self).preset_state()) is Some),
            final(self).preset_state() == restore_preset(old(self).preset_state()),
            old(self).same_but_presets(&*final(self)),
            saved ==> {
                let i = old(self).settings.last_preset_index->0;
                let name = old(self).settings.presets@[i as int].name@;
                let msg = joined_text(
                    translation(old(self).lang(), TextKey::PresetRestored),
                    ": "@,
                    name,
                );
                &&& !final(self).params_modified
                &&& final(self).params_apply_status@ == msg
                &&& final(self).logs.deep_view() == old(self).logs.deep_view().push(msg)
            },
            !saved && old(self).settings.last_preset_index is Some ==> {
                &&& final(self).logs.deep_view() == old(self).logs.deep_view().push(
                    "Cannot restore: this is a custom preset with no default."@,
                )
                &&& *final(self) == (DeveLlamaGUI { logs: final(self).logs, ..*old(self) })
            },
            old(self).settings.last_preset_index is None ==> *final(self) == *old(self),
    {
        let lang = self.settings.language;
        match self.settings.last_preset_index {
            Some(idx) => {
                let found = if idx < self.settings.presets.len() {
                    self.find_default(idx)
                } else {
                    None
                };
                match found {
                    Some(j) => {
                        let default_params = self.settings.default_presets_snapshot[j].runtime_params;
                        let msg = phrase_with(
                            lang,
                            TextKey::PresetRestored,
                            ": ",
                            self.settings.presets[idx].name.as_str(),
                        );
                        let entry = msg.clone();
                        let mut preset = self.settings.presets[idx].clone();
                        preset.runtime_params = default_params;
                        self.settings.presets.set(idx, preset);
                        self.runtime_params = default_params;
                        self.params_modified = false;
                        self.params_apply_status = msg;
                        self.logs.push(entry);
                        true
                    },
                    None => {
                        self.logs.push(
                            String::from_str(
                                "Cannot restore: this is a custom preset with no default.",
                            ),
                        );
                        false
                    },
                }
            },
            None => false,
        }
    }

    /// The position of the default of preset `idx`: the first built-in
    /// preset with its name.
    fn find_default(&self, idx: usize) -> (r: Option<usize>)
        requires
            idx < self.settings.presets.len(),
        ensures
            match r {
                Some(j) => j < self.settings.default_presets_snapshot.len() && find_named(
                    self.settings.default_presets_snapshot@,
                    self.settings.presets@[idx as int].name@,
                ) == Some(j as int),
                None => find_named(
                    self.settings.default_presets_snapshot@,
                    self.settings.presets@[idx as int].name@,
                ) is None,
            },
    {
        let name = self.settings.presets[idx].name.as_str();
        let snapshot = &self.settings.default_presets_snapshot;
        let ghost sv = snapshot@;
        let n = snapshot.len();
        for j in 0..n
            invariant
                n == sv.len(),
                sv == self.settings.default_presets_snapshot@,
                snapshot@ == sv,
                name@ == self.settings.presets@[idx as int].name@,
                find_named(sv.take(j as int), name@) is None,
        {
            assert(sv.take(j + 1).drop_last() =~= sv.take(j as int));
            assert(sv.take(j + 1).last() == sv[j as int]);
            if same_text(snapshot[j].name.as_str(), name) {
                proof {
                    lemma_find_named_prefix(sv, name@, j as int);
                }
                return Some(j);
            }
        }
        assert(sv.take(n as int) =~= sv);
        None
    }

    /// Deletes preset `idx` and keeps the choice on the same preset (or
    /// clears it when that one goes). Returns whether it did, in which case
    /// the configuration is to be saved; the last preset is never deleted,
    /// which is only reported in the logs.
    pub fn delete_preset(&mut self, idx: usize) -> (saved: bool)
        requires
            old(self).settings.presets.len() <= 1 || idx < old(self).settings.presets.len(),
        ensures
            saved == (old(self).settings.presets.len() > 1),
            final(self).preset_state() == delete_preset(old(self).preset_state(), idx),
            old(self).same_but_presets(&*final(self)),
            final(self).runtime_params == old(self).runtime_params,
            final(self).params_modified == old(self).params_modified,
            final(self).params_apply_status == old(self).params_apply_status,
            final(self).logs.deep_view() == old(self).logs.deep_view().push(
                if saved {
                    joined_text(
                        translation(old(self).lang(), TextKey::PresetDeleted),
                        ": "@,
                        old(self).settings.presets@[idx as int].name@,
                    )
                } else {
                    translation(old(self).lang(), TextKey::CannotDeleteLast)
                },
            ),
    {
        let lang = self.settings.language;
        if self.settings.presets.len() <= 1 {
            self.logs.push(phrase(lang, TextKey::CannotDeleteLast));
            return false;
        }
        let entry = phrase_with(
            lang,
            TextKey::PresetDeleted,
            ": ",
            self.settings.presets[idx].name.as_str(),
        );
        self.settings.presets.remove(idx);
        match self.settings.last_preset_index {
            Some(current) => {
                if current == idx {
                    self.settings.last_preset_index = None;
                } else if current > idx {
                    self.settings.last_preset_index = Some(current - 1);
                }
            },
            None => {},
        }
        self.logs.push(entry);
        true
    }

    /// Empties the logs but for a note that they were cleared.
    pub fn clear_console(&mut self)
        ensures
            final(self).logs.deep_view() == seq![translation(old(self).lang(), TextKey::ConsoleCleared)],
            *final(self) == (DeveLlamaGUI { logs: final(self).logs, ..*old(self) }),
    {
        let lang = self.settings.language;
        let mut logs: Vec<String> = Vec::new();
        logs.push(phrase(lang, TextKey::ConsoleCleared));
        assert(logs.deep_view() =~= seq![translation(lang, TextKey::ConsoleCleared)]);
        self.logs = logs;
    }

    /// What running the console command `input` does: nothing when it is
    /// only whitespace; otherwise the trimmed command is echoed and answered
    /// in the logs, the input is cleared, and the action is to copy the
    /// server's address (`api_url`), open the documentation (`open_docs`),
    /// or nothing.
    pub open spec fn console_done(
        &self,
        after: &Self,
        action: ConsoleAction,
        input: Seq<char>,
    ) -> bool {
        let cmd = trim_white(input);
        if cmd.len() == 0 {
            &&& action is Nothing
            &&& *after == (DeveLlamaGUI { console_input: after.console_input, ..*self })
            &&& after.console_input@ == input
        } else {
            &&& after.logs.deep_view() == console_logs(
                self.lang(),
                self.logs.deep_view(),
                cmd,
                self.api_url@,
            )
            &&& after.console_input@ == Seq::<char>::empty()
            &&& *after == (DeveLlamaGUI {
                logs: after.logs,
                console_input: after.console_input,
                ..*self
            })
            &&& match action {
                ConsoleAction::Nothing => cmd != "api_url"@ && cmd != "open_docs"@,
                ConsoleAction::CopyToClipboard(t) => cmd == "api_url"@ && t@ == self.api_url@,
                ConsoleAction::OpenUrl(u) => cmd == "open_docs"@ && u@ == docs_url(),
            }
        }
    }

    /// Runs the command typed in the console.
    pub fn execute_console_command(&mut self) -> (r: ConsoleAction)
        ensures
            old(self).console_done(&*final(self), r, old(self).console_input@),
            trim_white(old(self).console_input@).len() == 0 ==> *final(self) == *old(self),
    {
        let cmd = trim(self.console_input.as_str());
        if cmd.as_str().unicode_len() == 0 {
            return ConsoleAction::Nothing;
        }
        proof {
            reveal_strlit("/clear");
            reveal_strlit("/help");
            reveal_strlit("api_url");
            reveal_strlit("open_docs");
        }
        let lang = self.settings.language;
        self.logs.push(concat2("> ", cmd.as_str()));
        let c = cmd.as_str();
        let action = if same_text(c, "/clear") {
            self.clear_console();
            ConsoleAction::Nothing
        } else if same_text(c, "/help") {
            self.logs.push(String::from_str("Commands: /clear, /help, api_url, open_docs"));
            ConsoleAction::Nothing
        } else if same_text(c, "api_url") {
            let url = self.api_url.clone();
            self.logs.push(concat2("API URL copied: ", self.api_url.as_str()));
            ConsoleAction::CopyToClipboard(url)
        } else if same_text(c, "open_docs") {
            self.logs.push(String::from_str("Opening documentation..."));
            ConsoleAction::OpenUrl(
                String::from_str(
                    "https://github.com/ggml-org/llama.cpp/blob/master/tools/server/README.md",
                ),
            )
        } else {
            self.logs.push(phrase_with(lang, TextKey::UnknownCmd, " ", c));
            ConsoleAction::Nothing
        };
        self.console_input = String::new();
        assert(self.logs.deep_view() == console_logs(
            lang,
            old(self).logs.deep_view(),
            cmd@,
            old(self).api_url@,
        ));
        assert(*self == (DeveLlamaGUI {
            logs: self.logs,
            console_input: self.console_input,
            ..*old(self)
        }));
        assert(match action {
            ConsoleAction::Nothing => cmd@ != "api_url"@ && cmd@ != "open_docs"@,
            ConsoleAction::CopyToClipboard(t) => cmd@ == "api_url"@ && t@ == old(self).api_url@,
            ConsoleAction::OpenUrl(u) => cmd@ == "open_docs"@ && u@ == docs_url(),
        });
        action
    }

    /// Runs a quick command as if it had been typed in the console.
    pub fn send_quick_command(&mut self, cmd: &str) -> (r: ConsoleAction)
        ensures
            old(self).console_done(&*final(self), r, cmd@),
    {
        self.console_input = String::from_str(cmd);
        self.execute_console_command()
    }

    /// Rebuilds the command preview and the server's address from the
    /// launch settings.
    pub fn update_command_preview(&mut self)
        ensures
            final(self).cmd_preview@ == command_preview(old(self).launch_config),
            final(self).api_url@ == api_url_text(
                old(self).launch_config.host@,
                old(self).launch_config.port,
            ),
            *final(self) == (DeveLlamaGUI {
                cmd_preview: final(self).cmd_preview,
                api_url: final(self).api_url,
                ..*old(self)
            }),
    {
        self.cmd_preview = build_command(&self.launch_config);
        self.api_url = api_url(self.launch_config.host.as_str(), self.launch_config.port);
    }

    /// Prepares the start of the server: refreshes the preview, logs the
    /// command on one line (and how the context is shared when more than one
    /// slot runs), and returns the arguments for the server program.
    pub fn start_server(&mut self) -> (args: Vec<String>)
        ensures
            args.deep_view() == launch_arguments(old(self).launch_config),
            final(self).cmd_preview@ == command_preview(old(self).launch_config),
            final(self).api_url@ == api_url_text(
                old(self).launch_config.host@,
                old(self).launch_config.port,
            ),
            final(self).logs.deep_view() == old(self).logs.deep_view().push(
                joined_text(
                    translation(old(self).lang(), TextKey::ServerStartCmd),
                    " "@,
                    replace_all(command_preview(old(self).launch_config), preview_separator(), " "@),
                ),
            ) + if old(self).launch_config.n_parallel > 1 {
                seq![
                    parallel_start_note(
                        old(self).launch_config.ctx_size as int,
                        old(self).launch_config.n_parallel as int,
                    ),
                ]
            } else {
                seq![]
            },
            *final(self) == (DeveLlamaGUI {
                cmd_preview: final(self).cmd_preview,
                api_url: final(self).api_url,
                logs: final(self).logs,
                ..*old(self)
            }),
    {
        self.update_command_preview();
        let lang = self.settings.language;
        proof {
            reveal_strlit(" ^\n  ");
        }
        let one_line = replace_text(self.cmd_preview.as_str(), " ^\n  ", " ");
        self.logs.push(phrase_with(lang, TextKey::ServerStartCmd, " ", one_line.as_str()));
        let ghost pushed = self.logs.deep_view();
        if self.launch_config.n_parallel > 1 {
            self.logs.push(
                parallel_start_note_text(
                    self.launch_config.ctx_size,
                    self.launch_config.n_parallel,
                ),
            );
        }
        assert(self.logs.deep_view() =~= pushed + if self.launch_config.n_parallel > 1 {
            seq![
                parallel_start_note(
                    self.launch_config.ctx_size as int,
                    self.launch_config.n_parallel as int,
                ),
            ]
        } else {
            seq![]
        });
        launch_args(&self.launch_config)
    }

    /// Records that the server process has started.
    pub fn on_server_started(&mut self)
        ensures
            final(self).is_running,
            !final(self).launch_config_dirty,
            !final(self).ctx_verified,
            !final(self).ctx_mismatch_warned,
            final(self).status_message@ == with_number(
                "Running on port "@,
                old(self).launch_config.port as int,
                ""@,
            ),
            final(self).logs.deep_view() == old(self).logs.deep_view().push(
                translation(old(self).lang(), TextKey::ServerStarted),
            ).push("API: "@ + old(self).api_url@),
            final(self).params_apply_status@ == translation(
                old(self).lang(),
                TextKey::WillApplyNext,
            ),
            *final(self) == (DeveLlamaGUI {
                is_running: true,
                launch_config_dirty: false,
                ctx_verified: false,
                ctx_mismatch_warned: false,
                status_message: final(self).status_message,
                logs: final(self).logs,
                params_apply_status: final(self).params_apply_status,
                ..*old(self)
            }),
    {
        let lang = self.settings.language;
        self.is_running = true;
        self.launch_config_dirty = false;
        self.ctx_verified = false;
        self.ctx_mismatch_warned = false;
        self.status_message = number_text("Running on port ", self.launch_config.port as i64, "");
        self.logs.push(phrase(lang, TextKey::ServerStarted));
        self.logs.push(concat2("API: ", self.api_url.as_str()));
        self.params_apply_status = phrase(lang, TextKey::WillApplyNext);
    }

    /// Records that the server process could not be started, with the
    /// error's text.
    pub fn on_server_start_failed(&mut self, error: &str)
        ensures
            final(self).status_message@ == "Failed: "@ + error@,
            final(self).logs.deep_view() == old(self).logs.deep_view().push("Error: "@ + error@),
            *final(self) == (DeveLlamaGUI {
                status_message: final(self).status_message,
                logs: final(self).logs,
                ..*old(self)
            }),
    {
        self.status_message = concat2("Failed: ", error);
        self.logs.push(concat2("Error: ", error));
    }

    /// Records that the server was stopped.
    pub fn stop_server(&mut self)
        ensures
            !final(self).is_running,
            final(self).status_message@ == translation(old(self).lang(), TextKey::StatusStopped),
            final(self).logs.deep_view() == old(self).logs.deep_view().push(
                translation(old(self).lang(), TextKey::ServerStopped),
            ),
            final(self).params_apply_status@ == Seq::<char>::empty(),
            *final(self) == (DeveLlamaGUI {
                is_running: false,
                launch_config_dirty: false,
                ctx_verified: false,
                ctx_mismatch_warned: false,
                status_message: final(self).status_message,
                logs: final(self).logs,
                params_apply_status: final(self).params_apply_status,
                ..*old(self)
            }),
    {
        let lang = self.settings.language;
        self.is_running = false;
        self.launch_config_dirty = false;
        self.ctx_verified = false;
        self.ctx_mismatch_warned = false;
        self.status_message = phrase(lang, TextKey::StatusStopped);
        self.logs.push(phrase(lang, TextKey::ServerStopped));
        self.params_apply_status = String::new();
    }

    /// Records that the server process ended by itself: cleanly, or with
    /// the exit status shown as `status_text` and the exit code `code`.
    pub fn on_server_exited(&mut self, success: bool, status_text: &str, code: Option<i32>)
        ensures
            !final(self).is_running,
            success ==> final(self).status_message@ == translation(
                old(self).lang(),
                TextKey::StatusStopped,
            ),
            success ==> final(self).logs.deep_view() == old(self).logs.deep_view().push(
                translation(old(self).lang(), TextKey::ServerStopped),
            ),
            !success ==> final(self).status_message@ == "Process exited: "@ + status_text@,
            !success ==> final(self).logs.deep_view() == old(self).logs.deep_view().push(
                translation(old(self).lang(), TextKey::ServerCrashed),
            ).push("Exit code: "@ + exit_code_text(code)).push(
                "Check if llama-server path and model path are correct."@,
            ),
            *final(self) == (DeveLlamaGUI {
                is_running: false,
                status_message: final(self).status_message,
                logs: final(self).logs,
                ..*old(self)
            }),
    {
        let lang = self.settings.language;
        self.is_running = false;
        if success {
            self.status_message = phrase(lang, TextKey::StatusStopped);
            self.logs.push(phrase(lang, TextKey::ServerStopped));
        } else {
            self.status_message = concat2("Process exited: ", status_text);
            self.logs.push(phrase(lang, TextKey::ServerCrashed));
            self.logs.push(exit_code_line(code));
            self.logs.push(
                String::from_str("Check if llama-server path and model path are correct."),
            );
        }
    }

    /// Accepts the sampling parameters. Returns whether the server is to be
    /// asked for its properties (it runs); otherwise they are only reported
    /// saved. The caller saves the configuration.
    pub fn apply_runtime_params(&mut self) -> (ask_server: bool)
        ensures
            ask_server == old(self).is_running,
            ask_server ==> *final(self) == (DeveLlamaGUI {
                params_modified: false,
                ..*old(self)
            }),
            !ask_server ==> {
                &&& final(self).params_apply_status@ == translation(
                    old(self).lang(),
                    TextKey::ParamsSaved,
                )
                &&& final(self).logs.deep_view() == old(self).logs.deep_view().push(
                    translation(old(self).lang(), TextKey::ParamsSaved),
                )
                &&& *final(self) == (DeveLlamaGUI {
                    params_modified: false,
                    params_apply_status: final(self).params_apply_status,
                    logs: final(self).logs,
                    ..*old(self)
                })
            },
    {
        let lang = self.settings.language;
        self.params_modified = false;
        if self.is_running {
            true
        } else {
            self.params_apply_status = phrase(lang, TextKey::ParamsSaved);
            self.logs.push(phrase(lang, TextKey::ParamsSaved));
            false
        }
    }

    /// The arguments for `curl` with which the server is asked for its
    /// properties; the background check gives up sooner.
    pub fn props_query(&self, background: bool) -> (r: Vec<String>)
        ensures
            r.deep_view() == props_request(
                self.launch_config.host@,
                self.launch_config.port,
                background,
            ),
    {
        props_request_args(self.launch_config.host.as_str(), self.launch_config.port, background)
    }

    /// Takes the server's answer to `apply_runtime_params`: the status and
    /// the logs report it, and the context size it reports is compared with
    /// the one asked for.
    pub fn finish_apply_runtime_params(&mut self, reply: &CommandOutput)
        ensures
            *final(self) == (DeveLlamaGUI {
                params_apply_status: final(self).params_apply_status,
                logs: final(self).logs,
                ..*old(self)
            }),
            match reply {
                CommandOutput::Failed(e) => {
                    &&& final(self).params_apply_status@ == "Failed: "@ + e@
                    &&& final(self).logs.deep_view() == old(self).logs.deep_view().push(
                        "[API] curl failed: "@ + e@,
                    )
                },
                CommandOutput::Finished { success, stdout, stderr } => if *success {
                    let text = utf8_lossy(stdout@);
                    &&& final(self).params_apply_status@ == translation(
                        old(self).lang(),
                        TextKey::RuntimeParamsUpdated,
                    )
                    &&& final(self).logs.deep_view() == old(self).logs.deep_view().push(
                        "[API] Server props: "@ + trim_white(text),
                    ).push(runtime_params_note()) + manual_ctx_lines(
                        json_int_field(text, "n_ctx"@),
                        old(self).launch_config.ctx_size,
                    )
                } else {
                    let err = trim_white(utf8_lossy(stderr@));
                    &&& final(self).params_apply_status@ == "API Error: "@ + err
                    &&& final(self).logs.deep_view() == old(self).logs.deep_view().push(
                        "[API] Error: "@ + err,
                    )
                },
            },
    {
        let lang = self.settings.language;
        match reply {
            CommandOutput::Failed(e) => {
                self.params_apply_status = concat2("Failed: ", e.as_str());
                self.logs.push(concat2("[API] curl failed: ", e.as_str()));
            },
            CommandOutput::Finished { success, stdout, stderr } => {
                if *success {
                    let text = decode_lossy(stdout.as_slice());
                    self.params_apply_status = phrase(lang, TextKey::RuntimeParamsUpdated);
                    let shown = trim(text.as_str());
                    self.logs.push(concat2("[API] Server props: ", shown.as_str()));
                    self.logs.push(
                        String::from_str(
                            "[INFO] Note: Runtime params (temp, top_k, etc.) are applied per-request via /completion or /v1/chat/completions API.",
                        ),
                    );
                    let ghost before = self.logs.deep_view();
                    let expected = self.launch_config.ctx_size;
                    match read_json_int_field(text.as_str(), "n_ctx") {
                        Some(n) => {
                            if n != expected as i64 {
                                self.logs.push(mismatch_warning_text(n, expected));
                                self.logs.push(
                                    number_text(
                                        "[INFO] The actual ctx per sequence may be ",
                                        n,
                                        " (total / parallel). Model max context may limit the value.",
                                    ),
                                );
                            } else {
                                self.logs.push(
                                    number_text(
                                        "[OK] ctx_size verified: ",
                                        n,
                                        " matches GUI setting",
                                    ),
                                );
                            }
                        },
                        None => {},
                    }
                    assert(self.logs.deep_view() =~= before + manual_ctx_lines(
                        json_int_field(text@, "n_ctx"@),
                        expected,
                    ));
                } else {
                    let err = decode_lossy(stderr.as_slice());
                    let shown = trim(err.as_str());
                    self.params_apply_status = concat2("API Error: ", shown.as_str());
                    self.logs.push(concat2("[API] Error: ", shown.as_str()));
                }
            },
        }
    }

    /// Whether the background check of the context size is due: the server
    /// runs, the check has not been made, and it was started at least three
    /// seconds (`elapsed_ms` milliseconds) ago.
    pub fn ctx_check_due(&self, elapsed_ms: Option<u64>) -> (r: bool)
        ensures
            r == (self.is_running && !self.ctx_verified && (elapsed_ms matches Some(ms) && ms
                >= 3000)),
    {
        if self.is_running && !self.ctx_verified {
            match elapsed_ms {
                Some(ms) => ms >= 3000,
                None => false,
            }
        } else {
            false
        }
    }

    /// Takes the server's answer to the background check: when it reports
    /// a context size, the check is done, and a size other than the one
    /// asked for is flagged. Without an answer the check stays due. Nothing
    /// happens when the check is done or the server does not run.
    pub fn auto_verify_ctx(&mut self, reply: &CommandOutput)
        ensures
            ({
                let reported = match succeeded_with(reply) {
                    Some(text) => json_int_field(text, "n_ctx"@),
                    None => None,
                };
                if old(self).ctx_verified || !old(self).is_running || reported is None {
                    *final(self) == *old(self)
                } else {
                    let n = reported->0;
                    let expected = old(self).launch_config.ctx_size;
                    &&& final(self).logs.deep_view() == old(self).logs.deep_view() + auto_ctx_lines(
                        n,
                        expected,
                        old(self).launch_config.n_parallel,
                    )
                    &&& *final(self) == (DeveLlamaGUI {
                        ctx_verified: true,
                        ctx_mismatch_warned: if n == expected {
                            old(self).ctx_mismatch_warned
                        } else {
                            true
                        },
                        logs: final(self).logs,
                        ..*old(self)
                    })
                }
            }),
    {
        if self.ctx_verified || !self.is_running {
            return;
        }
        match reply {
            CommandOutput::Finished { success, stdout, stderr } => {
                if !*success {
                    return;
                }
                let text = decode_lossy(stdout.as_slice());
                match read_json_int_field(text.as_str(), "n_ctx") {
                    Some(n) => {
                        let expected = self.launch_config.ctx_size;
                        let np = self.launch_config.n_parallel;
                        let ghost before = self.logs.deep_view();
                        if n == expected as i64 {
                            self.ctx_verified = true;
                            self.logs.push(
                                number_text(
                                    "[✓] ctx_size verified: ",
                                    n,
                                    " (matches GUI setting)",
                                ),
                            );
                        } else {
                            self.ctx_verified = true;
                            self.ctx_mismatch_warned = true;
                            self.logs.push(mismatch_alert_text(n, expected));
                            if np > 1 {
                                self.logs.push(parallel_hint_text(np, n));
                            }
                            self.logs.push(
                                String::from_str(
                                    "[TIP] The model may not support the requested context size. Check llama-server logs for details.",
                                ),
                            );
                        }
                        assert(self.logs.deep_view() =~= before + auto_ctx_lines(n, expected, np));
                    },
                    None => {},
                }
            },
            CommandOutput::Failed(_) => {},
        }
    }

    /// Records a change of the launch settings: the preview follows, and a
    /// running server needs a restart. The caller saves the configuration.
    pub fn on_launch_param_changed(&mut self)
        ensures
            final(self).cmd_preview@ == command_preview(old(self).launch_config),
            final(self).api_url@ == api_url_text(
                old(self).launch_config.host@,
                old(self).launch_config.port,
            ),
            *final(self) == (DeveLlamaGUI {
                cmd_preview: final(self).cmd_preview,
                api_url: final(self).api_url,
                launch_config_dirty: old(self).launch_config_dirty || old(self).is_running,
                ..*old(self)
            }),
    {
        self.update_command_preview();
        if self.is_running {
            self.launch_config_dirty = true;
        }
    }

    /// Records a change of the sampling parameters, not yet applied.
    pub fn on_runtime_param_changed(&mut self)
        ensures
            final(self).params_apply_status@ == translation(
                old(self).lang(),
                TextKey::ModifiedClickApply,
            ),
            *final(self) == (DeveLlamaGUI {
                params_modified: true,
                params_apply_status: final(self).params_apply_status,
                ..*old(self)
            }),
    {
        self.params_modified = true;
        self.params_apply_status = phrase(self.settings.language, TextKey::ModifiedClickApply);
    }

    /// Moves the lines that the server wrote into the logs, after reading
    /// them for reports of a failed assertion or of a context that is not
    /// fully used, which flag the context size.
    pub fn absorb_server_logs(&mut self, shared: &mut Vec<String>)
        ensures
            final(shared)@ == Seq::<String>::empty(),
            old(shared)@.len() == 0 ==> *final(self) == *old(self),
            old(shared)@.len() > 0 ==> {
                let (w, v) = scan_flags(
                    old(self).ctx_mismatch_warned,
                    old(self).ctx_verified,
                    old(shared).deep_view(),
                );
                &&& final(self).logs.deep_view() == capped(
                    old(self).logs.deep_view() + old(shared).deep_view(),
                )
                &&& *final(self) == (DeveLlamaGUI {
                    ctx_mismatch_warned: w,
                    ctx_verified: v,
                    logs: final(self).logs,
                    ..*old(self)
                })
            },
    {
        if shared.len() == 0 {
            return;
        }
        let (w, v) = scan_server_lines(self.ctx_mismatch_warned, self.ctx_verified, shared);
        self.ctx_mismatch_warned = w;
        self.ctx_verified = v;
        let ghost before = self.logs.deep_view();
        let ghost incoming = shared.deep_view();
        self.logs.append(shared);
        assert(self.logs.deep_view() =~= before + incoming);
        cap_logs(&mut self.logs);
    }

    /// The status shown in the title bar.
    pub fn status_label(&self) -> (r: String)
        ensures
            r@ == translation(
                self.lang(),
                if self.is_running {
                    TextKey::StatusRunning
                } else {
                    TextKey::StatusStopped
                },
            ),
    {
        if self.is_running {
            phrase(self.settings.language, TextKey::StatusRunning)
        } else {
            phrase(self.settings.language, TextKey::StatusStopped)
        }
    }

    /// The text of the preset selector: the chosen preset's name, or a
    /// prompt to choose one.
    pub fn preset_selector_text(&self) -> (r: String)
        ensures
            r@ == match self.settings.last_preset_index {
                Some(i) => if i < self.settings.presets.len() {
                    self.settings.presets@[i as int].name@
                } else {
                    translation(self.lang(), TextKey::SelectPreset)
                },
                None => translation(self.lang(), TextKey::SelectPreset),
            },
    {
        match self.settings.last_preset_index {
            Some(i) => {
                if i < self.settings.presets.len() {
                    self.settings.presets[i].name.clone()
                } else {
                    phrase(self.settings.language, TextKey::SelectPreset)
                }
            },
            None => phrase(self.settings.language, TextKey::SelectPreset),
        }
    }

    /// The name of preset `idx`, empty when there is none.
    pub fn preset_name_at(&self, idx: usize) -> (r: String)
        ensures
            r@ == if idx < self.settings.presets.len() {
                self.settings.presets@[idx as int].name@
            } else {
                Seq::<char>::empty()
            },
    {
        if idx < self.settings.presets.len() {
            self.settings.presets[idx].name.clone()
        } else {
            String::new()
        }
    }

    /// The name shown for the model: the stem of the model file's name, or
    /// "Unknown Model".
    pub fn get_model_name(&self) -> (r: String)
        ensures
            plain_path(self.launch_config.model_path@) || drive_path(self.launch_config.model_path@)
                ==> (r@ == stem_of(after_last_separator(self.launch_config.model_path@, false))
                || r@ == stem_of(after_last_separator(self.launch_config.model_path@, true))),
            (plain_path(self.launch_config.model_path@) || drive_path(
                self.launch_config.model_path@,
            )) && !self.launch_config.model_path@.contains('\\') ==> r@ == stem_of(
                after_last_separator(self.launch_config.model_path@, false),
            ),
            r@ == unknown_model() || stem_within(self.launch_config.model_path@, r@),
    {
        let r = model_name_from_stem(path_file_stem(self.launch_config.model_path.as_str()));
        proof {
            if !self.launch_config.model_path@.contains('\\') {
                lemma_after_last_separator_without_backslash(self.launch_config.model_path@);
            }
        }
        r
    }
}

/// The note logged after the server's properties were read.
pub open spec fn runtime_params_note() -> Seq<char> {
    "[INFO] Note: Runtime params (temp, top_k, etc.) are applied per-request via /completion or /v1/chat/completions API."@
}

} // verus!
