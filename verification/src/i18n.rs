use vstd::prelude::*;

use crate::language::Language;
use crate::text::same_text;

verus! {

/// The phrases of the interface that have a translation.
#[derive(Clone, Copy, PartialEq, Eq, Structural, Debug)]
pub enum TextKey {
    AppTitle,
    Model,
    Server,
    Mmproj,
    Browse,
    Clear,
    Host,
    Port,
    GpuLayers,
    Max,
    CtxSize,
    ParallelSlots,
    KvCache,
    Threads,
    BatchThreads,
    BatchSize,
    MicroBatch,
    FlashAttn,
    Warmup,
    ContBatching,
    Verbose,
    Start,
    Stop,
    OpenWebui,
    Preset,
    Save,
    Apply,
    SelectPreset,
    TemperatureSampling,
    Temperature,
    TopK,
    TopP,
    MinP,
    RepetitionControl,
    RepeatPenalty,
    CheckRange,
    PresencePenalty,
    FrequencyPenalty,
    Mirostat,
    Disabled,
    MirostatV1,
    MirostatV2,
    Tau,
    Eta,
    Other,
    MaxTokens,
    Seed,
    ApplyParams,
    ModifiedClickApply,
    ParamsSaved,
    RuntimeParamsUpdated,
    Console,
    CmdPreview,
    QuickCmds,
    Copy,
    Refresh,
    Run,
    MoreCmds,
    SavePreset,
    PresetName,
    Description,
    Cancel,
    AllCmds,
    Close,
    ModelServer,
    Network,
    GpuMemory,
    Performance,
    Options,
    StatusRunning,
    StatusStopped,
    ServerStarted,
    ServerStopped,
    ServerCrashed,
    PresetApplied,
    PresetSaved,
    ConsoleCleared,
    UnknownCmd,
    Theme,
    ApiUrl,
    WillApplyNext,
    LaunchNeedRestart,
    RuntimePerRequest,
    ForceOverwrite,
    RestoreDefault,
    DeletePreset,
    ConfirmDelete,
    PresetRestored,
    PresetOverwritten,
    PresetDeleted,
    CannotDeleteLast,
    CtxPerSeqWarn,
    ServerStartCmd,
}

/// The phrase that a key names, if it names one.
pub open spec fn lookup_key(s: Seq<char>) -> Option<TextKey> {
    if s == "app_title"@ {
        Some(TextKey::AppTitle)
    } else if s == "model"@ {
        Some(TextKey::Model)
    } else if s == "server"@ {
        Some(TextKey::Server)
    } else if s == "mmproj"@ {
        Some(TextKey::Mmproj)
    } else if s == "browse"@ {
        Some(TextKey::Browse)
    } else if s == "clear"@ {
        Some(TextKey::Clear)
    } else if s == "host"@ {
        Some(TextKey::Host)
    } else if s == "port"@ {
        Some(TextKey::Port)
    } else if s == "gpu_layers"@ {
        Some(TextKey::GpuLayers)
    } else if s == "max"@ {
        Some(TextKey::Max)
    } else if s == "ctx_size"@ {
        Some(TextKey::CtxSize)
    } else if s == "parallel_slots"@ {
        Some(TextKey::ParallelSlots)
    } else if s == "kv_cache"@ {
        Some(TextKey::KvCache)
    } else if s == "threads"@ {
        Some(TextKey::Threads)
    } else if s == "batch_threads"@ {
        Some(TextKey::BatchThreads)
    } else if s == "batch_size"@ {
        Some(TextKey::BatchSize)
    } else if s == "micro_batch"@ {
        Some(TextKey::MicroBatch)
    } else if s == "flash_attn"@ {
        Some(TextKey::FlashAttn)
    } else if s == "warmup"@ {
        Some(TextKey::Warmup)
    } else if s == "cont_batching"@ {
        Some(TextKey::ContBatching)
    } else if s == "verbose"@ {
        Some(TextKey::Verbose)
    } else if s == "start"@ {
        Some(TextKey::Start)
    } else if s == "stop"@ {
        Some(TextKey::Stop)
    } else if s == "open_webui"@ {
        Some(TextKey::OpenWebui)
    } else if s == "preset"@ {
        Some(TextKey::Preset)
    } else if s == "save"@ {
        Some(TextKey::Save)
    } else if s == "apply"@ {
        Some(TextKey::Apply)
    } else if s == "select_preset"@ {
        Some(TextKey::SelectPreset)
    } else if s == "temperature_sampling"@ {
        Some(TextKey::TemperatureSampling)
    } else if s == "temperature"@ {
        Some(TextKey::Temperature)
    } else if s == "top_k"@ {
        Some(TextKey::TopK)
    } else if s == "top_p"@ {
        Some(TextKey::TopP)
    } else if s == "min_p"@ {
        Some(TextKey::MinP)
    } else if s == "repetition_control"@ {
        Some(TextKey::RepetitionControl)
    } else if s == "repeat_penalty"@ {
        Some(TextKey::RepeatPenalty)
    } else if s == "check_range"@ {
        Some(TextKey::CheckRange)
    } else if s == "presence_penalty"@ {
        Some(TextKey::PresencePenalty)
    } else if s == "frequency_penalty"@ {
        Some(TextKey::FrequencyPenalty)
    } else if s == "mirostat"@ {
        Some(TextKey::Mirostat)
    } else if s == "disabled"@ {
        Some(TextKey::Disabled)
    } else if s == "mirostat_v1"@ {
        Some(TextKey::MirostatV1)
    } else if s == "mirostat_v2"@ {
        Some(TextKey::MirostatV2)
    } else if s == "tau"@ {
        Some(TextKey::Tau)
    } else if s == "eta"@ {
        Some(TextKey::Eta)
    } else if s == "other"@ {
        Some(TextKey::Other)
    } else if s == "max_tokens"@ {
        Some(TextKey::MaxTokens)
    } else if s == "seed"@ {
        Some(TextKey::Seed)
    } else if s == "apply_params"@ {
        Some(TextKey::ApplyParams)
    } else if s == "modified_click_apply"@ {
        Some(TextKey::ModifiedClickApply)
    } else if s == "params_saved"@ {
        Some(TextKey::ParamsSaved)
    } else if s == "runtime_params_updated"@ {
        Some(TextKey::RuntimeParamsUpdated)
    } else if s == "console"@ {
        Some(TextKey::Console)
    } else if s == "cmd_preview"@ {
        Some(TextKey::CmdPreview)
    } else if s == "quick_cmds"@ {
        Some(TextKey::QuickCmds)
    } else if s == "copy"@ {
        Some(TextKey::Copy)
    } else if s == "refresh"@ {
        Some(TextKey::Refresh)
    } else if s == "run"@ {
        Some(TextKey::Run)
    } else if s == "more_cmds"@ {
        Some(TextKey::MoreCmds)
    } else if s == "save_preset"@ {
        Some(TextKey::SavePreset)
    } else if s == "preset_name"@ {
        Some(TextKey::PresetName)
    } else if s == "description"@ {
        Some(TextKey::Description)
    } else if s == "cancel"@ {
        Some(TextKey::Cancel)
    } else if s == "all_cmds"@ {
        Some(TextKey::AllCmds)
    } else if s == "close"@ {
        Some(TextKey::Close)
    } else if s == "model_server"@ {
        Some(TextKey::ModelServer)
    } else if s == "network"@ {
        Some(TextKey::Network)
    } else if s == "gpu_memory"@ {
        Some(TextKey::GpuMemory)
    } else if s == "performance"@ {
        Some(TextKey::Performance)
    } else if s == "options"@ {
        Some(TextKey::Options)
    } else if s == "status_running"@ {
        Some(TextKey::StatusRunning)
    } else if s == "status_stopped"@ {
        Some(TextKey::StatusStopped)
    } else if s == "server_started"@ {
        Some(TextKey::ServerStarted)
    } else if s == "server_stopped"@ {
        Some(TextKey::ServerStopped)
    } else if s == "server_crashed"@ {
        Some(TextKey::ServerCrashed)
    } else if s == "preset_applied"@ {
        Some(TextKey::PresetApplied)
    } else if s == "preset_saved"@ {
        Some(TextKey::PresetSaved)
    } else if s == "console_cleared"@ {
        Some(TextKey::ConsoleCleared)
    } else if s == "unknown_cmd"@ {
        Some(TextKey::UnknownCmd)
    } else if s == "theme"@ {
        Some(TextKey::Theme)
    } else if s == "api_url"@ {
        Some(TextKey::ApiUrl)
    } else if s == "will_apply_next"@ {
        Some(TextKey::WillApplyNext)
    } else if s == "launch_need_restart"@ {
        Some(TextKey::LaunchNeedRestart)
    } else if s == "runtime_per_request"@ {
        Some(TextKey::RuntimePerRequest)
    } else if s == "force_overwrite"@ {
        Some(TextKey::ForceOverwrite)
    } else if s == "restore_default"@ {
        Some(TextKey::RestoreDefault)
    } else if s == "delete_preset"@ {
        Some(TextKey::DeletePreset)
    } else if s == "confirm_delete"@ {
        Some(TextKey::ConfirmDelete)
    } else if s == "preset_restored"@ {
        Some(TextKey::PresetRestored)
    } else if s == "preset_overwritten"@ {
        Some(TextKey::PresetOverwritten)
    } else if s == "preset_deleted"@ {
        Some(TextKey::PresetDeleted)
    } else if s == "cannot_delete_last"@ {
        Some(TextKey::CannotDeleteLast)
    } else if s == "ctx_per_seq_warn"@ {
        Some(TextKey::CtxPerSeqWarn)
    } else if s == "server_start_cmd"@ {
        Some(TextKey::ServerStartCmd)
    } else {
        None
    }
}

/// The text of a phrase in a language.
pub open spec fn translation(lang: Language, k: TextKey) -> Seq<char> {
    match lang {
        Language::English => match k {
            TextKey::AppTitle => "DeveLlamaGUI Pro"@,
            TextKey::Model => "Model:"@,
            TextKey::Server => "Server:"@,
            TextKey::Mmproj => "MMProj:"@,
            TextKey::Browse => "Browse"@,
            TextKey::Clear => "Clear"@,
            TextKey::Host => "Host:"@,
            TextKey::Port => "Port:"@,
            TextKey::GpuLayers => "GPU Layers:"@,
            TextKey::Max => "Max"@,
            TextKey::CtxSize => "Context Size:"@,
            TextKey::ParallelSlots => "Parallel Slots:"@,
            TextKey::KvCache => "KV Cache:"@,
            TextKey::Threads => "Threads:"@,
            TextKey::BatchThreads => "Batch Threads:"@,
            TextKey::BatchSize => "Batch Size:"@,
            TextKey::MicroBatch => "Micro Batch:"@,
            TextKey::FlashAttn => "Flash Attention"@,
            TextKey::Warmup => "Warmup"@,
            TextKey::ContBatching => "Continuous Batching"@,
            TextKey::Verbose => "Verbose Logging"@,
            TextKey::Start => "START"@,
            TextKey::Stop => "STOP"@,
            TextKey::OpenWebui => "Open WebUI"@,
            TextKey::Preset => "Preset"@,
            TextKey::Save => "Save"@,
            TextKey::Apply => "Apply"@,
            TextKey::SelectPreset => "Select preset..."@,
            TextKey::TemperatureSampling => "Temperature & Sampling"@,
            TextKey::Temperature => "Temperature:"@,
            TextKey::TopK => "Top K:"@,
            TextKey::TopP => "Top P:"@,
            TextKey::MinP => "Min P:"@,
            TextKey::RepetitionControl => "Repetition Control"@,
            TextKey::RepeatPenalty => "Repeat Penalty:"@,
            TextKey::CheckRange => "Check Range:"@,
            TextKey::PresencePenalty => "Presence Penalty:"@,
            TextKey::FrequencyPenalty => "Frequency Penalty:"@,
            TextKey::Mirostat => "Mirostat"@,
            TextKey::Disabled => "Disabled"@,
            TextKey::MirostatV1 => "Mirostat 1.0"@,
            TextKey::MirostatV2 => "Mirostat 2.0"@,
            TextKey::Tau => "Tau:"@,
            TextKey::Eta => "Eta:"@,
            TextKey::Other => "Other"@,
            TextKey::MaxTokens => "Max Tokens:"@,
            TextKey::Seed => "Seed:"@,
            TextKey::ApplyParams => "Apply Parameters"@,
            TextKey::ModifiedClickApply => "Modified - click Apply to save"@,
            TextKey::ParamsSaved => "Parameters saved"@,
            TextKey::RuntimeParamsUpdated => "Runtime parameters updated"@,
            TextKey::Console => "Console"@,
            TextKey::CmdPreview => "Command Preview"@,
            TextKey::QuickCmds => "Quick Commands"@,
            TextKey::Copy => "Copy"@,
            TextKey::Refresh => "Refresh"@,
            TextKey::Run => "Run"@,
            TextKey::MoreCmds => "More Commands..."@,
            TextKey::SavePreset => "Save Preset"@,
            TextKey::PresetName => "Preset Name:"@,
            TextKey::Description => "Description:"@,
            TextKey::Cancel => "Cancel"@,
            TextKey::AllCmds => "All Commands"@,
            TextKey::Close => "Close"@,
            TextKey::ModelServer => "Model & Server"@,
            TextKey::Network => "Network"@,
            TextKey::GpuMemory => "GPU & Memory"@,
            TextKey::Performance => "Performance"@,
            TextKey::Options => "Options"@,
            TextKey::StatusRunning => "Running"@,
            TextKey::StatusStopped => "Stopped"@,
            TextKey::ServerStarted => "Server started"@,
            TextKey::ServerStopped => "Server stopped"@,
            TextKey::ServerCrashed => "Server process ended unexpectedly"@,
            TextKey::PresetApplied => "Applied:"@,
            TextKey::PresetSaved => "Preset saved"@,
            TextKey::ConsoleCleared => "Console cleared"@,
            TextKey::UnknownCmd => "Unknown command:"@,
            TextKey::Theme => "Theme"@,
            TextKey::ApiUrl => "API URL"@,
            TextKey::WillApplyNext => "Runtime params will be applied on next API call"@,
            TextKey::LaunchNeedRestart => "Launch params require restart to take effect"@,
            TextKey::RuntimePerRequest => "Runtime params apply per API request"@,
            TextKey::ForceOverwrite => "Force Overwrite"@,
            TextKey::RestoreDefault => "Restore Default"@,
            TextKey::DeletePreset => "Delete"@,
            TextKey::ConfirmDelete => "Confirm delete?"@,
            TextKey::PresetRestored => "Preset restored to default"@,
            TextKey::PresetOverwritten => "Preset overwritten"@,
            TextKey::PresetDeleted => "Preset deleted"@,
            TextKey::CannotDeleteLast => "Cannot delete the last preset"@,
            TextKey::CtxPerSeqWarn => "ctx per seq = total ÷ parallel"@,
            TextKey::ServerStartCmd => "Start command:"@,
        },
        Language::ChineseSimplified => match k {
            TextKey::AppTitle => "DeveLlamaGUI Pro"@,
            TextKey::Model => "模型:"@,
            TextKey::Server => "服务器:"@,
            TextKey::Mmproj => "MMProj:"@,
            TextKey::Browse => "浏览"@,
            TextKey::Clear => "清除"@,
            TextKey::Host => "主机:"@,
            TextKey::Port => "端口:"@,
            TextKey::GpuLayers => "GPU层数:"@,
            TextKey::Max => "最大"@,
            TextKey::CtxSize => "上下文大小:"@,
            TextKey::ParallelSlots => "并行槽位:"@,
            TextKey::KvCache => "KV缓存:"@,
            TextKey::Threads => "线程数:"@,
            TextKey::BatchThreads => "批处理线程:"@,
            TextKey::BatchSize => "批处理大小:"@,
            TextKey::MicroBatch => "微批处理:"@,
            TextKey::FlashAttn => "Flash Attention"@,
            TextKey::Warmup => "预热"@,
            TextKey::ContBatching => "连续批处理"@,
            TextKey::Verbose => "详细日志"@,
            TextKey::Start => "启动"@,
            TextKey::Stop => "停止"@,
            TextKey::OpenWebui => "打开WebUI"@,
            TextKey::Preset => "预设"@,
            TextKey::Save => "保存"@,
            TextKey::Apply => "应用"@,
            TextKey::SelectPreset => "选择预设..."@,
            TextKey::TemperatureSampling => "温度与采样"@,
            TextKey::Temperature => "温度:"@,
            TextKey::TopK => "Top K:"@,
            TextKey::TopP => "Top P:"@,
            TextKey::MinP => "Min P:"@,
            TextKey::RepetitionControl => "重复控制"@,
            TextKey::RepeatPenalty => "重复惩罚:"@,
            TextKey::CheckRange => "检查范围:"@,
            TextKey::PresencePenalty => "存在惩罚:"@,
            TextKey::FrequencyPenalty => "频率惩罚:"@,
            TextKey::Mirostat => "Mirostat"@,
            TextKey::Disabled => "禁用"@,
            TextKey::MirostatV1 => "Mirostat 1.0"@,
            TextKey::MirostatV2 => "Mirostat 2.0"@,
            TextKey::Tau => "Tau:"@,
            TextKey::Eta => "Eta:"@,
            TextKey::Other => "其他"@,
            TextKey::MaxTokens => "最大令牌数:"@,
            TextKey::Seed => "随机种子:"@,
            TextKey::ApplyParams => "应用参数"@,
            TextKey::ModifiedClickApply => "已修改 - 点击应用保存"@,
            TextKey::ParamsSaved => "参数已保存"@,
            TextKey::RuntimeParamsUpdated => "运行时参数已更新"@,
            TextKey::Console => "控制台"@,
            TextKey::CmdPreview => "命令预览"@,
            TextKey::QuickCmds => "快速命令"@,
            TextKey::Copy => "复制"@,
            TextKey::Refresh => "刷新"@,
            TextKey::Run => "运行"@,
            TextKey::MoreCmds => "更多命令..."@,
            TextKey::SavePreset => "保存预设"@,
            TextKey::PresetName => "预设名称:"@,
            TextKey::Description => "描述:"@,
            TextKey::Cancel => "取消"@,
            TextKey::AllCmds => "所有命令"@,
            TextKey::Close => "关闭"@,
            TextKey::ModelServer => "模型与服务器"@,
            TextKey::Network => "网络"@,
            TextKey::GpuMemory => "GPU与内存"@,
            TextKey::Performance => "性能"@,
            TextKey::Options => "选项"@,
            TextKey::StatusRunning => "运行中"@,
            TextKey::StatusStopped => "已停止"@,
            TextKey::ServerStarted => "服务器已启动"@,
            TextKey::ServerStopped => "服务器已停止"@,
            TextKey::ServerCrashed => "服务器异常终止"@,
            TextKey::PresetApplied => "已应用:"@,
            TextKey::PresetSaved => "预设已保存"@,
            TextKey::ConsoleCleared => "控制台已清空"@,
            TextKey::UnknownCmd => "未知命令:"@,
            TextKey::Theme => "主题"@,
            TextKey::ApiUrl => "API地址"@,
            TextKey::WillApplyNext => "运行时参数将在每次API请求时应用"@,
            TextKey::LaunchNeedRestart => "启动参数需重启服务后生效"@,
            TextKey::RuntimePerRequest => "运行时参数在每次API请求时传入"@,
            TextKey::ForceOverwrite => "强制覆盖"@,
            TextKey::RestoreDefault => "还原默认"@,
            TextKey::DeletePreset => "删除"@,
            TextKey::ConfirmDelete => "确认删除？"@,
            TextKey::PresetRestored => "预设已还原为默认值"@,
            TextKey::PresetOverwritten => "预设已被强制覆盖"@,
            TextKey::PresetDeleted => "预设已删除"@,
            TextKey::CannotDeleteLast => "无法删除最后一个预设"@,
            TextKey::CtxPerSeqWarn => "每序列上下文 = 总量 ÷ 并行数"@,
            TextKey::ServerStartCmd => "启动命令:"@,
        },
        Language::ChineseTraditional => match k {
            TextKey::AppTitle => "DeveLlamaGUI Pro"@,
            TextKey::Model => "模型:"@,
            TextKey::Server => "伺服器:"@,
            TextKey::Mmproj => "MMProj:"@,
            TextKey::Browse => "瀏覽"@,
            TextKey::Clear => "清除"@,
            TextKey::Host => "主機:"@,
            TextKey::Port => "埠號:"@,
            TextKey::GpuLayers => "GPU層數:"@,
            TextKey::Max => "最大"@,
            TextKey::CtxSize => "上下文大小:"@,
            TextKey::ParallelSlots => "並行槽位:"@,
            TextKey::KvCache => "KV快取:"@,
            TextKey::Threads => "執行緒數:"@,
            TextKey::BatchThreads => "批次執行緒:"@,
            TextKey::BatchSize => "批次大小:"@,
            TextKey::MicroBatch => "微批次:"@,
            TextKey::FlashAttn => "Flash Attention"@,
            TextKey::Warmup => "預熱"@,
            TextKey::ContBatching => "連續批次處理"@,
            TextKey::Verbose => "詳細日誌"@,
            TextKey::Start => "啟動"@,
            TextKey::Stop => "停止"@,
            TextKey::OpenWebui => "開啟WebUI"@,
            TextKey::Preset => "預設"@,
            TextKey::Save => "儲存"@,
            TextKey::Apply => "套用"@,
            TextKey::SelectPreset => "選擇預設..."@,
            TextKey::TemperatureSampling => "溫度與取樣"@,
            TextKey::Temperature => "溫度:"@,
            TextKey::TopK => "Top K:"@,
            TextKey::TopP => "Top P:"@,
            TextKey::MinP => "Min P:"@,
            TextKey::RepetitionControl => "重複控制"@,
            TextKey::RepeatPenalty => "重複懲罰:"@,
            TextKey::CheckRange => "檢查範圍:"@,
            TextKey::PresencePenalty => "存在懲罰:"@,
            TextKey::FrequencyPenalty => "頻率懲罰:"@,
            TextKey::Mirostat => "Mirostat"@,
            TextKey::Disabled => "禁用"@,
            TextKey::MirostatV1 => "Mirostat 1.0"@,
            TextKey::MirostatV2 => "Mirostat 2.0"@,
            TextKey::Tau => "Tau:"@,
            TextKey::Eta => "Eta:"@,
            TextKey::Other => "其他"@,
            TextKey::MaxTokens => "最大權杖數:"@,
            TextKey::Seed => "隨機種子:"@,
            TextKey::ApplyParams => "套用參數"@,
            TextKey::ModifiedClickApply => "已修改 - 點擊套用儲存"@,
            TextKey::ParamsSaved => "參數已儲存"@,
            TextKey::RuntimeParamsUpdated => "執行時參數已更新"@,
            TextKey::Console => "控制台"@,
            TextKey::CmdPreview => "命令預覽"@,
            TextKey::QuickCmds => "快速命令"@,
            TextKey::Copy => "複製"@,
            TextKey::Refresh => "重新整理"@,
            TextKey::Run => "執行"@,
            TextKey::MoreCmds => "更多命令..."@,
            TextKey::SavePreset => "儲存預設"@,
            TextKey::PresetName => "預設名稱:"@,
            TextKey::Description => "描述:"@,
            TextKey::Cancel => "取消"@,
            TextKey::AllCmds => "所有命令"@,
            TextKey::Close => "閉"@,
            TextKey::ModelServer => "模型與伺服器"@,
            TextKey::Network => "網路"@,
            TextKey::GpuMemory => "GPU與記憶體"@,
            TextKey::Performance => "效能"@,
            TextKey::Options => "選項"@,
            TextKey::StatusRunning => "執行中"@,
            TextKey::StatusStopped => "已停止"@,
            TextKey::ServerStarted => "伺服器已啟動"@,
            TextKey::ServerStopped => "伺服器已停止"@,
            TextKey::ServerCrashed => "伺服器異常終止"@,
            TextKey::PresetApplied => "已套用:"@,
            TextKey::PresetSaved => "預設已儲存"@,
            TextKey::ConsoleCleared => "控制台已清空"@,
            TextKey::UnknownCmd => "未知命令:"@,
            TextKey::Theme => "主題"@,
            TextKey::ApiUrl => "API位址"@,
            TextKey::WillApplyNext => "執行時參數將在每次API請求時套用"@,
            TextKey::LaunchNeedRestart => "啟動參數需重啟服務後生效"@,
            TextKey::RuntimePerRequest => "執行時參數在每次API請求時傳入"@,
            TextKey::ForceOverwrite => "強制覆蓋"@,
            TextKey::RestoreDefault => "還原預設"@,
            TextKey::DeletePreset => "刪除"@,
            TextKey::ConfirmDelete => "確認刪除？"@,
            TextKey::PresetRestored => "預設已還原為預設值"@,
            TextKey::PresetOverwritten => "預設已被強制覆蓋"@,
            TextKey::PresetDeleted => "預設已刪除"@,
            TextKey::CannotDeleteLast => "無法刪除最後一個預設"@,
            TextKey::CtxPerSeqWarn => "每序列上下文 = 總量 ÷ 並行數"@,
            TextKey::ServerStartCmd => "啟動命令:"@,
        },
        Language::Japanese => match k {
            TextKey::AppTitle => "DeveLlamaGUI Pro"@,
            TextKey::Model => "モデル:"@,
            TextKey::Server => "サーバー:"@,
            TextKey::Mmproj => "MMProj:"@,
            TextKey::Browse => "参照"@,
            TextKey::Clear => "クリア"@,
            TextKey::Host => "ホスト:"@,
            TextKey::Port => "ポート:"@,
            TextKey::GpuLayers => "GPUレイヤー:"@,
            TextKey::Max => "最大"@,
            TextKey::CtxSize => "コンテキストサイズ:"@,
            TextKey::ParallelSlots => "並行スロット:"@,
            TextKey::KvCache => "KVキャッシュ:"@,
            TextKey::Threads => "スレッド数:"@,
            TextKey::BatchThreads => "バッチスレッド:"@,
            TextKey::BatchSize => "バッチサイズ:"@,
            TextKey::MicroBatch => "マイクロバッチ:"@,
            TextKey::FlashAttn => "Flash Attention"@,
            TextKey::Warmup => "ウォームアップ"@,
            TextKey::ContBatching => "連続バッチ処理"@,
            TextKey::Verbose => "詳細ログ"@,
            TextKey::Start => "開始"@,
            TextKey::Stop => "停止"@,
            TextKey::OpenWebui => "WebUIを開く"@,
            TextKey::Preset => "プリセット"@,
            TextKey::Save => "保存"@,
            TextKey::Apply => "適用"@,
            TextKey::SelectPreset => "プリセットを選択..."@,
            TextKey::TemperatureSampling => "温度とサンプリング"@,
            TextKey::Temperature => "温度:"@,
            TextKey::TopK => "Top K:"@,
            TextKey::TopP => "Top P:"@,
            TextKey::MinP => "Min P:"@,
            TextKey::RepetitionControl => "繰り返し制御"@,
            TextKey::RepeatPenalty => "繰り返しペナルティ:"@,
            TextKey::CheckRange => "チェック範囲:"@,
            TextKey::PresencePenalty => "存在ペナルティ:"@,
            TextKey::FrequencyPenalty => "頻度ペナルティ:"@,
            TextKey::Mirostat => "Mirostat"@,
            TextKey::Disabled => "無効"@,
            TextKey::MirostatV1 => "Mirostat 1.0"@,
            TextKey::MirostatV2 => "Mirostat 2.0"@,
            TextKey::Tau => "Tau:"@,
            TextKey::Eta => "Eta:"@,
            TextKey::Other => "その他"@,
            TextKey::MaxTokens => "最大トークン数:"@,
            TextKey::Seed => "シード値:"@,
            TextKey::ApplyParams => "パラメータを適用"@,
            TextKey::ModifiedClickApply => "変更済み - 適用をクリックして保存"@,
            TextKey::ParamsSaved => "パラメータを保存しました"@,
            TextKey::RuntimeParamsUpdated => "実行時パラメータを更新しました"@,
            TextKey::Console => "コンソール"@,
            TextKey::CmdPreview => "コマンドプレビュー"@,
            TextKey::QuickCmds => "クイックコマンド"@,
            TextKey::Copy => "コピー"@,
            TextKey::Refresh => "更新"@,
            TextKey::Run => "実行"@,
            TextKey::MoreCmds => "その他のコマンド..."@,
            TextKey::SavePreset => "プリセットを保存"@,
            TextKey::PresetName => "プリセット名:"@,
            TextKey::Description => "説明:"@,
            TextKey::Cancel => "キャンセル"@,
            TextKey::AllCmds => "すべてのコマンド"@,
            TextKey::Close => "閉じる"@,
            TextKey::ModelServer => "モデルとサーバー"@,
            TextKey::Network => "ネットワーク"@,
            TextKey::GpuMemory => "GPUとメモリ"@,
            TextKey::Performance => "パフォーマンス"@,
            TextKey::Options => "オプション"@,
            TextKey::StatusRunning => "実行中"@,
            TextKey::StatusStopped => "停止"@,
            TextKey::ServerStarted => "サーバーを開始しました"@,
            TextKey::ServerStopped => "サーバーを停止しました"@,
            TextKey::ServerCrashed => "サーバーが異常終了しました"@,
            TextKey::PresetApplied => "適用済み:"@,
            TextKey::PresetSaved => "プリセットを保存しました"@,
            TextKey::ConsoleCleared => "コンソールをクリアしました"@,
            TextKey::UnknownCmd => "不明なコマンド:"@,
            TextKey::Theme => "テーマ"@,
            TextKey::ApiUrl => "API URL"@,
            TextKey::WillApplyNext => "実行時パラメータは各APIリクエスト時に適用されます"@,
            TextKey::LaunchNeedRestart => "起動パラメータは再起動後に有効になります"@,
            TextKey::RuntimePerRequest => "実行時パラメータは各APIリクエストで渡されます"@,
            TextKey::ForceOverwrite => "強制上書き"@,
            TextKey::RestoreDefault => "デフォルトに戻す"@,
            TextKey::DeletePreset => "削除"@,
            TextKey::ConfirmDelete => "削除しますか？"@,
            TextKey::PresetRestored => "プリセットをデフォルトに戻しました"@,
            TextKey::PresetOverwritten => "プリセットを強制上書きしました"@,
            TextKey::PresetDeleted => "プリセットを削除しました"@,
            TextKey::CannotDeleteLast => "最後のプリセットは削除できません"@,
            TextKey::CtxPerSeqWarn => "シーケンスあたりctx = 合計 ÷ パラレル"@,
            TextKey::ServerStartCmd => "起動コマンド:"@,
        },
        Language::Korean => match k {
            TextKey::AppTitle => "DeveLlamaGUI Pro"@,
            TextKey::Model => "모델:"@,
            TextKey::Server => "서버:"@,
            TextKey::Mmproj => "MMProj:"@,
            TextKey::Browse => "찾아보기"@,
            TextKey::Clear => "지우기"@,
            TextKey::Host => "호스트:"@,
            TextKey::Port => "포트:"@,
            TextKey::GpuLayers => "GPU 레이어:"@,
            TextKey::Max => "최대"@,
            TextKey::CtxSize => "컨텍스트 크기:"@,
            TextKey::ParallelSlots => "병렬 슬롯:"@,
            TextKey::KvCache => "KV 캐시:"@,
            TextKey::Threads => "스레드 수:"@,
            TextKey::BatchThreads => "배치 스레드:"@,
            TextKey::BatchSize => "배치 크기:"@,
            TextKey::MicroBatch => "마이크로 배치:"@,
            TextKey::FlashAttn => "Flash Attention"@,
            TextKey::Warmup => "웜업"@,
            TextKey::ContBatching => "연속 배치 처리"@,
            TextKey::Verbose => "상세 로그"@,
            TextKey::Start => "시작"@,
            TextKey::Stop => "중지"@,
            TextKey::OpenWebui => "WebUI 열기"@,
            TextKey::Preset => "프리셋"@,
            TextKey::Save => "저장"@,
            TextKey::Apply => "적용"@,
            TextKey::SelectPreset => "프리셋 선택..."@,
            TextKey::TemperatureSampling => "온도 및 샘플링"@,
            TextKey::Temperature => "온도:"@,
            TextKey::TopK => "Top K:"@,
            TextKey::TopP => "Top P:"@,
            TextKey::MinP => "Min P:"@,
            TextKey::RepetitionControl => "반복 제어"@,
            TextKey::RepeatPenalty => "반복 패널티:"@,
            TextKey::CheckRange => "확인 범위:"@,
            TextKey::PresencePenalty => "존재 패널티:"@,
            TextKey::FrequencyPenalty => "빈도 패널티:"@,
            TextKey::Mirostat => "Mirostat"@,
            TextKey::Disabled => "비활성화"@,
            TextKey::MirostatV1 => "Mirostat 1.0"@,
            TextKey::MirostatV2 => "Mirostat 2.0"@,
            TextKey::Tau => "Tau:"@,
            TextKey::Eta => "Eta:"@,
            TextKey::Other => "기타"@,
            TextKey::MaxTokens => "최대 토큰 수:"@,
            TextKey::Seed => "시드 값:"@,
            TextKey::ApplyParams => "매개변수 적용"@,
            TextKey::ModifiedClickApply => "수정됨 - 저장하려면 적용을 클릭하세요"@,
            TextKey::ParamsSaved => "매개변수가 저장되었습니다"@,
            TextKey::RuntimeParamsUpdated => "런타임 매개변수가 업데이트되었습니다"@,
            TextKey::Console => "콘솔"@,
            TextKey::CmdPreview => "명령어 미리보기"@,
            TextKey::QuickCmds => "빠른 명령어"@,
            TextKey::Copy => "복사"@,
            TextKey::Refresh => "새로고침"@,
            TextKey::Run => "실행"@,
            TextKey::MoreCmds => "더 많은 명령어..."@,
            TextKey::SavePreset => "프리셋 저장"@,
            TextKey::PresetName => "프리셋 이름:"@,
            TextKey::Description => "설명:"@,
            TextKey::Cancel => "취소"@,
            TextKey::AllCmds => "모든 명령어"@,
            TextKey::Close => "닫기"@,
            TextKey::ModelServer => "모델 및 서버"@,
            TextKey::Network => "네트워크"@,
            TextKey::GpuMemory => "GPU 및 메모리"@,
            TextKey::Performance => "성능"@,
            TextKey::Options => "옵션"@,
            TextKey::StatusRunning => "실행 중"@,
            TextKey::StatusStopped => "중지됨"@,
            TextKey::ServerStarted => "서버가 시작되었습니다"@,
            TextKey::ServerStopped => "서버가 중지되었습니다"@,
            TextKey::ServerCrashed => "서버가 예기치 않게 종료되었습니다"@,
            TextKey::PresetApplied => "적용됨:"@,
            TextKey::PresetSaved => "프리셋이 저장되었습니다"@,
            TextKey::ConsoleCleared => "콘솔이 지워졌습니다"@,
            TextKey::UnknownCmd => "알 수 없는 명령어:"@,
            TextKey::Theme => "테마"@,
            TextKey::ApiUrl => "API URL"@,
            TextKey::WillApplyNext => "런타임 매개변수는 각 API 요청 시 적용됩니다"@,
            TextKey::LaunchNeedRestart => "시작 매개변수는 재시작 후 적용됩니다"@,
            TextKey::RuntimePerRequest => "런타임 매개변수는 각 API 요청에 전달됩니다"@,
            TextKey::ForceOverwrite => "강제 덮어쓰기"@,
            TextKey::RestoreDefault => "기본값 복원"@,
            TextKey::DeletePreset => "삭제"@,
            TextKey::ConfirmDelete => "삭제하시겠습니까?"@,
            TextKey::PresetRestored => "프리셋이 기본값으로 복원되었습니다"@,
            TextKey::PresetOverwritten => "프리셋이 강제 덮어쓰기되었습니다"@,
            TextKey::PresetDeleted => "프리셋이 삭제되었습니다"@,
            TextKey::CannotDeleteLast => "마지막 프리셋은 삭제할 수 없습니다"@,
            TextKey::CtxPerSeqWarn => "시퀀스당 ctx = 합계 ÷ 병렬"@,
            TextKey::ServerStartCmd => "시작 명령:"@,
        },
    }
}

/// What `t` gives for a key: its translation, or the key itself when it
/// names no phrase.
pub open spec fn translate_key(lang: Language, key: Seq<char>) -> Seq<char> {
    match lookup_key(key) {
        Some(k) => translation(lang, k),
        None => key,
    }
}

/// The phrase named by `key`, if any.
pub fn text_key(key: &str) -> (r: Option<TextKey>)
    ensures
        r == lookup_key(key@),
{
    if same_text(key, "app_title") {
        Some(TextKey::AppTitle)
    } else if same_text(key, "model") {
        Some(TextKey::Model)
    } else if same_text(key, "server") {
        Some(TextKey::Server)
    } else if same_text(key, "mmproj") {
        Some(TextKey::Mmproj)
    } else if same_text(key, "browse") {
        Some(TextKey::Browse)
    } else if same_text(key, "clear") {
        Some(TextKey::Clear)
    } else if same_text(key, "host") {
        Some(TextKey::Host)
    } else if same_text(key, "port") {
        Some(TextKey::Port)
    } else if same_text(key, "gpu_layers") {
        Some(TextKey::GpuLayers)
    } else if same_text(key, "max") {
        Some(TextKey::Max)
    } else if same_text(key, "ctx_size") {
        Some(TextKey::CtxSize)
    } else if same_text(key, "parallel_slots") {
        Some(TextKey::ParallelSlots)
    } else if same_text(key, "kv_cache") {
        Some(TextKey::KvCache)
    } else if same_text(key, "threads") {
        Some(TextKey::Threads)
    } else if same_text(key, "batch_threads") {
        Some(TextKey::BatchThreads)
    } else if same_text(key, "batch_size") {
        Some(TextKey::BatchSize)
    } else if same_text(key, "micro_batch") {
        Some(TextKey::MicroBatch)
    } else if same_text(key, "flash_attn") {
        Some(TextKey::FlashAttn)
    } else if same_text(key, "warmup") {
        Some(TextKey::Warmup)
    } else if same_text(key, "cont_batching") {
        Some(TextKey::ContBatching)
    } else if same_text(key, "verbose") {
        Some(TextKey::Verbose)
    } else if same_text(key, "start") {
        Some(TextKey::Start)
    } else if same_text(key, "stop") {
        Some(TextKey::Stop)
    } else if same_text(key, "open_webui") {
        Some(TextKey::OpenWebui)
    } else if same_text(key, "preset") {
        Some(TextKey::Preset)
    } else if same_text(key, "save") {
        Some(TextKey::Save)
    } else if same_text(key, "apply") {
        Some(TextKey::Apply)
    } else if same_text(key, "select_preset") {
        Some(TextKey::SelectPreset)
    } else if same_text(key, "temperature_sampling") {
        Some(TextKey::TemperatureSampling)
    } else if same_text(key, "temperature") {
        Some(TextKey::Temperature)
    } else if same_text(key, "top_k") {
        Some(TextKey::TopK)
    } else if same_text(key, "top_p") {
        Some(TextKey::TopP)
    } else if same_text(key, "min_p") {
        Some(TextKey::MinP)
    } else if same_text(key, "repetition_control") {
        Some(TextKey::RepetitionControl)
    } else if same_text(key, "repeat_penalty") {
        Some(TextKey::RepeatPenalty)
    } else if same_text(key, "check_range") {
        Some(TextKey::CheckRange)
    } else if same_text(key, "presence_penalty") {
        Some(TextKey::PresencePenalty)
    } else if same_text(key, "frequency_penalty") {
        Some(TextKey::FrequencyPenalty)
    } else if same_text(key, "mirostat") {
        Some(TextKey::Mirostat)
    } else if same_text(key, "disabled") {
        Some(TextKey::Disabled)
    } else if same_text(key, "mirostat_v1") {
        Some(TextKey::MirostatV1)
    } else if same_text(key, "mirostat_v2") {
        Some(TextKey::MirostatV2)
    } else if same_text(key, "tau") {
        Some(TextKey::Tau)
    } else if same_text(key, "eta") {
        Some(TextKey::Eta)
    } else if same_text(key, "other") {
        Some(TextKey::Other)
    } else if same_text(key, "max_tokens") {
        Some(TextKey::MaxTokens)
    } else if same_text(key, "seed") {
        Some(TextKey::Seed)
    } else if same_text(key, "apply_params") {
        Some(TextKey::ApplyParams)
    } else if same_text(key, "modified_click_apply") {
        Some(TextKey::ModifiedClickApply)
    } else if same_text(key, "params_saved") {
        Some(TextKey::ParamsSaved)
    } else if same_text(key, "runtime_params_updated") {
        Some(TextKey::RuntimeParamsUpdated)
    } else if same_text(key, "console") {
        Some(TextKey::Console)
    } else if same_text(key, "cmd_preview") {
        Some(TextKey::CmdPreview)
    } else if same_text(key, "quick_cmds") {
        Some(TextKey::QuickCmds)
    } else if same_text(key, "copy") {
        Some(TextKey::Copy)
    } else if same_text(key, "refresh") {
        Some(TextKey::Refresh)
    } else if same_text(key, "run") {
        Some(TextKey::Run)
    } else if same_text(key, "more_cmds") {
        Some(TextKey::MoreCmds)
    } else if same_text(key, "save_preset") {
        Some(TextKey::SavePreset)
    } else if same_text(key, "preset_name") {
        Some(TextKey::PresetName)
    } else if same_text(key, "description") {
        Some(TextKey::Description)
    } else if same_text(key, "cancel") {
        Some(TextKey::Cancel)
    } else if same_text(key, "all_cmds") {
        Some(TextKey::AllCmds)
    } else if same_text(key, "close") {
        Some(TextKey::Close)
    } else if same_text(key, "model_server") {
        Some(TextKey::ModelServer)
    } else if same_text(key, "network") {
        Some(TextKey::Network)
    } else if same_text(key, "gpu_memory") {
        Some(TextKey::GpuMemory)
    } else if same_text(key, "performance") {
        Some(TextKey::Performance)
    } else if same_text(key, "options") {
        Some(TextKey::Options)
    } else if same_text(key, "status_running") {
        Some(TextKey::StatusRunning)
    } else if same_text(key, "status_stopped") {
        Some(TextKey::StatusStopped)
    } else if same_text(key, "server_started") {
        Some(TextKey::ServerStarted)
    } else if same_text(key, "server_stopped") {
        Some(TextKey::ServerStopped)
    } else if same_text(key, "server_crashed") {
        Some(TextKey::ServerCrashed)
    } else if same_text(key, "preset_applied") {
        Some(TextKey::PresetApplied)
    } else if same_text(key, "preset_saved") {
        Some(TextKey::PresetSaved)
    } else if same_text(key, "console_cleared") {
        Some(TextKey::ConsoleCleared)
    } else if same_text(key, "unknown_cmd") {
        Some(TextKey::UnknownCmd)
    } else if same_text(key, "theme") {
        Some(TextKey::Theme)
    } else if same_text(key, "api_url") {
        Some(TextKey::ApiUrl)
    } else if same_text(key, "will_apply_next") {
        Some(TextKey::WillApplyNext)
    } else if same_text(key, "launch_need_restart") {
        Some(TextKey::LaunchNeedRestart)
    } else if same_text(key, "runtime_per_request") {
        Some(TextKey::RuntimePerRequest)
    } else if same_text(key, "force_overwrite") {
        Some(TextKey::ForceOverwrite)
    } else if same_text(key, "restore_default") {
        Some(TextKey::RestoreDefault)
    } else if same_text(key, "delete_preset") {
        Some(TextKey::DeletePreset)
    } else if same_text(key, "confirm_delete") {
        Some(TextKey::ConfirmDelete)
    } else if same_text(key, "preset_restored") {
        Some(TextKey::PresetRestored)
    } else if same_text(key, "preset_overwritten") {
        Some(TextKey::PresetOverwritten)
    } else if same_text(key, "preset_deleted") {
        Some(TextKey::PresetDeleted)
    } else if same_text(key, "cannot_delete_last") {
        Some(TextKey::CannotDeleteLast)
    } else if same_text(key, "ctx_per_seq_warn") {
        Some(TextKey::CtxPerSeqWarn)
    } else if same_text(key, "server_start_cmd") {
        Some(TextKey::ServerStartCmd)
    } else {
        None
    }
}

/// The text of a phrase in a language.
pub fn tr(lang: Language, k: TextKey) -> (r: &'static str)
    ensures
        r@ == translation(lang, k),
{
    match lang {
        Language::English => match k {
            TextKey::AppTitle => "DeveLlamaGUI Pro",
            TextKey::Model => "Model:",
            TextKey::Server => "Server:",
            TextKey::Mmproj => "MMProj:",
            TextKey::Browse => "Browse",
            TextKey::Clear => "Clear",
            TextKey::Host => "Host:",
            TextKey::Port => "Port:",
            TextKey::GpuLayers => "GPU Layers:",
            TextKey::Max => "Max",
            TextKey::CtxSize => "Context Size:",
            TextKey::ParallelSlots => "Parallel Slots:",
            TextKey::KvCache => "KV Cache:",
            TextKey::Threads => "Threads:",
            TextKey::BatchThreads => "Batch Threads:",
            TextKey::BatchSize => "Batch Size:",
            TextKey::MicroBatch => "Micro Batch:",
            TextKey::FlashAttn => "Flash Attention",
            TextKey::Warmup => "Warmup",
            TextKey::ContBatching => "Continuous Batching",
            TextKey::Verbose => "Verbose Logging",
            TextKey::Start => "START",
            TextKey::Stop => "STOP",
            TextKey::OpenWebui => "Open WebUI",
            TextKey::Preset => "Preset",
            TextKey::Save => "Save",
            TextKey::Apply => "Apply",
            TextKey::SelectPreset => "Select preset...",
            TextKey::TemperatureSampling => "Temperature & Sampling",
            TextKey::Temperature => "Temperature:",
            TextKey::TopK => "Top K:",
            TextKey::TopP => "Top P:",
            TextKey::MinP => "Min P:",
            TextKey::RepetitionControl => "Repetition Control",
            TextKey::RepeatPenalty => "Repeat Penalty:",
            TextKey::CheckRange => "Check Range:",
            TextKey::PresencePenalty => "Presence Penalty:",
            TextKey::FrequencyPenalty => "Frequency Penalty:",
            TextKey::Mirostat => "Mirostat",
            TextKey::Disabled => "Disabled",
            TextKey::MirostatV1 => "Mirostat 1.0",
            TextKey::MirostatV2 => "Mirostat 2.0",
            TextKey::Tau => "Tau:",
            TextKey::Eta => "Eta:",
            TextKey::Other => "Other",
            TextKey::MaxTokens => "Max Tokens:",
            TextKey::Seed => "Seed:",
            TextKey::ApplyParams => "Apply Parameters",
            TextKey::ModifiedClickApply => "Modified - click Apply to save",
            TextKey::ParamsSaved => "Parameters saved",
            TextKey::RuntimeParamsUpdated => "Runtime parameters updated",
            TextKey::Console => "Console",
            TextKey::CmdPreview => "Command Preview",
            TextKey::QuickCmds => "Quick Commands",
            TextKey::Copy => "Copy",
            TextKey::Refresh => "Refresh",
            TextKey::Run => "Run",
            TextKey::MoreCmds => "More Commands...",
            TextKey::SavePreset => "Save Preset",
            TextKey::PresetName => "Preset Name:",
            TextKey::Description => "Description:",
            TextKey::Cancel => "Cancel",
            TextKey::AllCmds => "All Commands",
            TextKey::Close => "Close",
            TextKey::ModelServer => "Model & Server",
            TextKey::Network => "Network",
            TextKey::GpuMemory => "GPU & Memory",
            TextKey::Performance => "Performance",
            TextKey::Options => "Options",
            TextKey::StatusRunning => "Running",
            TextKey::StatusStopped => "Stopped",
            TextKey::ServerStarted => "Server started",
            TextKey::ServerStopped => "Server stopped",
            TextKey::ServerCrashed => "Server process ended unexpectedly",
            TextKey::PresetApplied => "Applied:",
            TextKey::PresetSaved => "Preset saved",
            TextKey::ConsoleCleared => "Console cleared",
            TextKey::UnknownCmd => "Unknown command:",
            TextKey::Theme => "Theme",
            TextKey::ApiUrl => "API URL",
            TextKey::WillApplyNext => "Runtime params will be applied on next API call",
            TextKey::LaunchNeedRestart => "Launch params require restart to take effect",
            TextKey::RuntimePerRequest => "Runtime params apply per API request",
            TextKey::ForceOverwrite => "Force Overwrite",
            TextKey::RestoreDefault => "Restore Default",
            TextKey::DeletePreset => "Delete",
            TextKey::ConfirmDelete => "Confirm delete?",
            TextKey::PresetRestored => "Preset restored to default",
            TextKey::PresetOverwritten => "Preset overwritten",
            TextKey::PresetDeleted => "Preset deleted",
            TextKey::CannotDeleteLast => "Cannot delete the last preset",
            TextKey::CtxPerSeqWarn => "ctx per seq = total ÷ parallel",
            TextKey::ServerStartCmd => "Start command:",
        },
        Language::ChineseSimplified => match k {
            TextKey::AppTitle => "DeveLlamaGUI Pro",
            TextKey::Model => "模型:",
            TextKey::Server => "服务器:",
            TextKey::Mmproj => "MMProj:",
            TextKey::Browse => "浏览",
            TextKey::Clear => "清除",
            TextKey::Host => "主机:",
            TextKey::Port => "端口:",
            TextKey::GpuLayers => "GPU层数:",
            TextKey::Max => "最大",
            TextKey::CtxSize => "上下文大小:",
            TextKey::ParallelSlots => "并行槽位:",
            TextKey::KvCache => "KV缓存:",
            TextKey::Threads => "线程数:",
            TextKey::BatchThreads => "批处理线程:",
            TextKey::BatchSize => "批处理大小:",
            TextKey::MicroBatch => "微批处理:",
            TextKey::FlashAttn => "Flash Attention",
            TextKey::Warmup => "预热",
            TextKey::ContBatching => "连续批处理",
            TextKey::Verbose => "详细日志",
            TextKey::Start => "启动",
            TextKey::Stop => "停止",
            TextKey::OpenWebui => "打开WebUI",
            TextKey::Preset => "预设",
            TextKey::Save => "保存",
            TextKey::Apply => "应用",
            TextKey::SelectPreset => "选择预设...",
            TextKey::TemperatureSampling => "温度与采样",
            TextKey::Temperature => "温度:",
            TextKey::TopK => "Top K:",
            TextKey::TopP => "Top P:",
            TextKey::MinP => "Min P:",
            TextKey::RepetitionControl => "重复控制",
            TextKey::RepeatPenalty => "重复惩罚:",
            TextKey::CheckRange => "检查范围:",
            TextKey::PresencePenalty => "存在惩罚:",
            TextKey::FrequencyPenalty => "频率惩罚:",
            TextKey::Mirostat => "Mirostat",
            TextKey::Disabled => "禁用",
            TextKey::MirostatV1 => "Mirostat 1.0",
            TextKey::MirostatV2 => "Mirostat 2.0",
            TextKey::Tau => "Tau:",
            TextKey::Eta => "Eta:",
            TextKey::Other => "其他",
            TextKey::MaxTokens => "最大令牌数:",
            TextKey::Seed => "随机种子:",
            TextKey::ApplyParams => "应用参数",
            TextKey::ModifiedClickApply => "已修改 - 点击应用保存",
            TextKey::ParamsSaved => "参数已保存",
            TextKey::RuntimeParamsUpdated => "运行时参数已更新",
            TextKey::Console => "控制台",
            TextKey::CmdPreview => "命令预览",
            TextKey::QuickCmds => "快速命令",
            TextKey::Copy => "复制",
            TextKey::Refresh => "刷新",
            TextKey::Run => "运行",
            TextKey::MoreCmds => "更多命令...",
            TextKey::SavePreset => "保存预设",
            TextKey::PresetName => "预设名称:",
            TextKey::Description => "描述:",
            TextKey::Cancel => "取消",
            TextKey::AllCmds => "所有命令",
            TextKey::Close => "关闭",
            TextKey::ModelServer => "模型与服务器",
            TextKey::Network => "网络",
            TextKey::GpuMemory => "GPU与内存",
            TextKey::Performance => "性能",
            TextKey::Options => "选项",
            TextKey::StatusRunning => "运行中",
            TextKey::StatusStopped => "已停止",
            TextKey::ServerStarted => "服务器已启动",
            TextKey::ServerStopped => "服务器已停止",
            TextKey::ServerCrashed => "服务器异常终止",
            TextKey::PresetApplied => "已应用:",
            TextKey::PresetSaved => "预设已保存",
            TextKey::ConsoleCleared => "控制台已清空",
            TextKey::UnknownCmd => "未知命令:",
            TextKey::Theme => "主题",
            TextKey::ApiUrl => "API地址",
            TextKey::WillApplyNext => "运行时参数将在每次API请求时应用",
            TextKey::LaunchNeedRestart => "启动参数需重启服务后生效",
            TextKey::RuntimePerRequest => "运行时参数在每次API请求时传入",
            TextKey::ForceOverwrite => "强制覆盖",
            TextKey::RestoreDefault => "还原默认",
            TextKey::DeletePreset => "删除",
            TextKey::ConfirmDelete => "确认删除？",
            TextKey::PresetRestored => "预设已还原为默认值",
            TextKey::PresetOverwritten => "预设已被强制覆盖",
            TextKey::PresetDeleted => "预设已删除",
            TextKey::CannotDeleteLast => "无法删除最后一个预设",
            TextKey::CtxPerSeqWarn => "每序列上下文 = 总量 ÷ 并行数",
            TextKey::ServerStartCmd => "启动命令:",
        },
        Language::ChineseTraditional => match k {
            TextKey::AppTitle => "DeveLlamaGUI Pro",
            TextKey::Model => "模型:",
            TextKey::Server => "伺服器:",
            TextKey::Mmproj => "MMProj:",
            TextKey::Browse => "瀏覽",
            TextKey::Clear => "清除",
            TextKey::Host => "主機:",
            TextKey::Port => "埠號:",
            TextKey::GpuLayers => "GPU層數:",
            TextKey::Max => "最大",
            TextKey::CtxSize => "上下文大小:",
            TextKey::ParallelSlots => "並行槽位:",
            TextKey::KvCache => "KV快取:",
            TextKey::Threads => "執行緒數:",
            TextKey::BatchThreads => "批次執行緒:",
            TextKey::BatchSize => "批次大小:",
            TextKey::MicroBatch => "微批次:",
            TextKey::FlashAttn => "Flash Attention",
            TextKey::Warmup => "預熱",
            TextKey::ContBatching => "連續批次處理",
            TextKey::Verbose => "詳細日誌",
            TextKey::Start => "啟動",
            TextKey::Stop => "停止",
            TextKey::OpenWebui => "開啟WebUI",
            TextKey::Preset => "預設",
            TextKey::Save => "儲存",
            TextKey::Apply => "套用",
            TextKey::SelectPreset => "選擇預設...",
            TextKey::TemperatureSampling => "溫度與取樣",
            TextKey::Temperature => "溫度:",
            TextKey::TopK => "Top K:",
            TextKey::TopP => "Top P:",
            TextKey::MinP => "Min P:",
            TextKey::RepetitionControl => "重複控制",
            TextKey::RepeatPenalty => "重複懲罰:",
            TextKey::CheckRange => "檢查範圍:",
            TextKey::PresencePenalty => "存在懲罰:",
            TextKey::FrequencyPenalty => "頻率懲罰:",
            TextKey::Mirostat => "Mirostat",
            TextKey::Disabled => "禁用",
            TextKey::MirostatV1 => "Mirostat 1.0",
            TextKey::MirostatV2 => "Mirostat 2.0",
            TextKey::Tau => "Tau:",
            TextKey::Eta => "Eta:",
            TextKey::Other => "其他",
            TextKey::MaxTokens => "最大權杖數:",
            TextKey::Seed => "隨機種子:",
            TextKey::ApplyParams => "套用參數",
            TextKey::ModifiedClickApply => "已修改 - 點擊套用儲存",
            TextKey::ParamsSaved => "參數已儲存",
            TextKey::RuntimeParamsUpdated => "執行時參數已更新",
            TextKey::Console => "控制台",
            TextKey::CmdPreview => "命令預覽",
            TextKey::QuickCmds => "快速命令",
            TextKey::Copy => "複製",
            TextKey::Refresh => "重新整理",
            TextKey::Run => "執行",
            TextKey::MoreCmds => "更多命令...",
            TextKey::SavePreset => "儲存預設",
            TextKey::PresetName => "預設名稱:",
            TextKey::Description => "描述:",
            TextKey::Cancel => "取消",
            TextKey::AllCmds => "所有命令",
            TextKey::Close => "閉",
            TextKey::ModelServer => "模型與伺服器",
            TextKey::Network => "網路",
            TextKey::GpuMemory => "GPU與記憶體",
            TextKey::Performance => "效能",
            TextKey::Options => "選項",
            TextKey::StatusRunning => "執行中",
            TextKey::StatusStopped => "已停止",
            TextKey::ServerStarted => "伺服器已啟動",
            TextKey::ServerStopped => "伺服器已停止",
            TextKey::ServerCrashed => "伺服器異常終止",
            TextKey::PresetApplied => "已套用:",
            TextKey::PresetSaved => "預設已儲存",
            TextKey::ConsoleCleared => "控制台已清空",
            TextKey::UnknownCmd => "未知命令:",
            TextKey::Theme => "主題",
            TextKey::ApiUrl => "API位址",
            TextKey::WillApplyNext => "執行時參數將在每次API請求時套用",
            TextKey::LaunchNeedRestart => "啟動參數需重啟服務後生效",
            TextKey::RuntimePerRequest => "執行時參數在每次API請求時傳入",
            TextKey::ForceOverwrite => "強制覆蓋",
            TextKey::RestoreDefault => "還原預設",
            TextKey::DeletePreset => "刪除",
            TextKey::ConfirmDelete => "確認刪除？",
            TextKey::PresetRestored => "預設已還原為預設值",
            TextKey::PresetOverwritten => "預設已被強制覆蓋",
            TextKey::PresetDeleted => "預設已刪除",
            TextKey::CannotDeleteLast => "無法刪除最後一個預設",
            TextKey::CtxPerSeqWarn => "每序列上下文 = 總量 ÷ 並行數",
            TextKey::ServerStartCmd => "啟動命令:",
        },
        Language::Japanese => match k {
            TextKey::AppTitle => "DeveLlamaGUI Pro",
            TextKey::Model => "モデル:",
            TextKey::Server => "サーバー:",
            TextKey::Mmproj => "MMProj:",
            TextKey::Browse => "参照",
            TextKey::Clear => "クリア",
            TextKey::Host => "ホスト:",
            TextKey::Port => "ポート:",
            TextKey::GpuLayers => "GPUレイヤー:",
            TextKey::Max => "最大",
            TextKey::CtxSize => "コンテキストサイズ:",
            TextKey::ParallelSlots => "並行スロット:",
            TextKey::KvCache => "KVキャッシュ:",
            TextKey::Threads => "スレッド数:",
            TextKey::BatchThreads => "バッチスレッド:",
            TextKey::BatchSize => "バッチサイズ:",
            TextKey::MicroBatch => "マイクロバッチ:",
            TextKey::FlashAttn => "Flash Attention",
            TextKey::Warmup => "ウォームアップ",
            TextKey::ContBatching => "連続バッチ処理",
            TextKey::Verbose => "詳細ログ",
            TextKey::Start => "開始",
            TextKey::Stop => "停止",
            TextKey::OpenWebui => "WebUIを開く",
            TextKey::Preset => "プリセット",
            TextKey::Save => "保存",
            TextKey::Apply => "適用",
            TextKey::SelectPreset => "プリセットを選択...",
            TextKey::TemperatureSampling => "温度とサンプリング",
            TextKey::Temperature => "温度:",
            TextKey::TopK => "Top K:",
            TextKey::TopP => "Top P:",
            TextKey::MinP => "Min P:",
            TextKey::RepetitionControl => "繰り返し制御",
            TextKey::RepeatPenalty => "繰り返しペナルティ:",
            TextKey::CheckRange => "チェック範囲:",
            TextKey::PresencePenalty => "存在ペナルティ:",
            TextKey::FrequencyPenalty => "頻度ペナルティ:",
            TextKey::Mirostat => "Mirostat",
            TextKey::Disabled => "無効",
            TextKey::MirostatV1 => "Mirostat 1.0",
            TextKey::MirostatV2 => "Mirostat 2.0",
            TextKey::Tau => "Tau:",
            TextKey::Eta => "Eta:",
            TextKey::Other => "その他",
            TextKey::MaxTokens => "最大トークン数:",
            TextKey::Seed => "シード値:",
            TextKey::ApplyParams => "パラメータを適用",
            TextKey::ModifiedClickApply => "変更済み - 適用をクリックして保存",
            TextKey::ParamsSaved => "パラメータを保存しました",
            TextKey::RuntimeParamsUpdated => "実行時パラメータを更新しました",
            TextKey::Console => "コンソール",
            TextKey::CmdPreview => "コマンドプレビュー",
            TextKey::QuickCmds => "クイックコマンド",
            TextKey::Copy => "コピー",
            TextKey::Refresh => "更新",
            TextKey::Run => "実行",
            TextKey::MoreCmds => "その他のコマンド...",
            TextKey::SavePreset => "プリセットを保存",
            TextKey::PresetName => "プリセット名:",
            TextKey::Description => "説明:",
            TextKey::Cancel => "キャンセル",
            TextKey::AllCmds => "すべてのコマンド",
            TextKey::Close => "閉じる",
            TextKey::ModelServer => "モデルとサーバー",
            TextKey::Network => "ネットワーク",
            TextKey::GpuMemory => "GPUとメモリ",
            TextKey::Performance => "パフォーマンス",
            TextKey::Options => "オプション",
            TextKey::StatusRunning => "実行中",
            TextKey::StatusStopped => "停止",
            TextKey::ServerStarted => "サーバーを開始しました",
            TextKey::ServerStopped => "サーバーを停止しました",
            TextKey::ServerCrashed => "サーバーが異常終了しました",
            TextKey::PresetApplied => "適用済み:",
            TextKey::PresetSaved => "プリセットを保存しました",
            TextKey::ConsoleCleared => "コンソールをクリアしました",
            TextKey::UnknownCmd => "不明なコマンド:",
            TextKey::Theme => "テーマ",
            TextKey::ApiUrl => "API URL",
            TextKey::WillApplyNext => "実行時パラメータは各APIリクエスト時に適用されます",
            TextKey::LaunchNeedRestart => "起動パラメータは再起動後に有効になります",
            TextKey::RuntimePerRequest => "実行時パラメータは各APIリクエストで渡されます",
            TextKey::ForceOverwrite => "強制上書き",
            TextKey::RestoreDefault => "デフォルトに戻す",
            TextKey::DeletePreset => "削除",
            TextKey::ConfirmDelete => "削除しますか？",
            TextKey::PresetRestored => "プリセットをデフォルトに戻しました",
            TextKey::PresetOverwritten => "プリセットを強制上書きしました",
            TextKey::PresetDeleted => "プリセットを削除しました",
            TextKey::CannotDeleteLast => "最後のプリセットは削除できません",
            TextKey::CtxPerSeqWarn => "シーケンスあたりctx = 合計 ÷ パラレル",
            TextKey::ServerStartCmd => "起動コマンド:",
        },
        Language::Korean => match k {
            TextKey::AppTitle => "DeveLlamaGUI Pro",
            TextKey::Model => "모델:",
            TextKey::Server => "서버:",
            TextKey::Mmproj => "MMProj:",
            TextKey::Browse => "찾아보기",
            TextKey::Clear => "지우기",
            TextKey::Host => "호스트:",
            TextKey::Port => "포트:",
            TextKey::GpuLayers => "GPU 레이어:",
            TextKey::Max => "최대",
            TextKey::CtxSize => "컨텍스트 크기:",
            TextKey::ParallelSlots => "병렬 슬롯:",
            TextKey::KvCache => "KV 캐시:",
            TextKey::Threads => "스레드 수:",
            TextKey::BatchThreads => "배치 스레드:",
            TextKey::BatchSize => "배치 크기:",
            TextKey::MicroBatch => "마이크로 배치:",
            TextKey::FlashAttn => "Flash Attention",
            TextKey::Warmup => "웜업",
            TextKey::ContBatching => "연속 배치 처리",
            TextKey::Verbose => "상세 로그",
            TextKey::Start => "시작",
            TextKey::Stop => "중지",
            TextKey::OpenWebui => "WebUI 열기",
            TextKey::Preset => "프리셋",
            TextKey::Save => "저장",
            TextKey::Apply => "적용",
            TextKey::SelectPreset => "프리셋 선택...",
            TextKey::TemperatureSampling => "온도 및 샘플링",
            TextKey::Temperature => "온도:",
            TextKey::TopK => "Top K:",
            TextKey::TopP => "Top P:",
            TextKey::MinP => "Min P:",
            TextKey::RepetitionControl => "반복 제어",
            TextKey::RepeatPenalty => "반복 패널티:",
            TextKey::CheckRange => "확인 범위:",
            TextKey::PresencePenalty => "존재 패널티:",
            TextKey::FrequencyPenalty => "빈도 패널티:",
            TextKey::Mirostat => "Mirostat",
            TextKey::Disabled => "비활성화",
            TextKey::MirostatV1 => "Mirostat 1.0",
            TextKey::MirostatV2 => "Mirostat 2.0",
            TextKey::Tau => "Tau:",
            TextKey::Eta => "Eta:",
            TextKey::Other => "기타",
            TextKey::MaxTokens => "최대 토큰 수:",
            TextKey::Seed => "시드 값:",
            TextKey::ApplyParams => "매개변수 적용",
            TextKey::ModifiedClickApply => "수정됨 - 저장하려면 적용을 클릭하세요",
            TextKey::ParamsSaved => "매개변수가 저장되었습니다",
            TextKey::RuntimeParamsUpdated => "런타임 매개변수가 업데이트되었습니다",
            TextKey::Console => "콘솔",
            TextKey::CmdPreview => "명령어 미리보기",
            TextKey::QuickCmds => "빠른 명령어",
            TextKey::Copy => "복사",
            TextKey::Refresh => "새로고침",
            TextKey::Run => "실행",
            TextKey::MoreCmds => "더 많은 명령어...",
            TextKey::SavePreset => "프리셋 저장",
            TextKey::PresetName => "프리셋 이름:",
            TextKey::Description => "설명:",
            TextKey::Cancel => "취소",
            TextKey::AllCmds => "모든 명령어",
            TextKey::Close => "닫기",
            TextKey::ModelServer => "모델 및 서버",
            TextKey::Network => "네트워크",
            TextKey::GpuMemory => "GPU 및 메모리",
            TextKey::Performance => "성능",
            TextKey::Options => "옵션",
            TextKey::StatusRunning => "실행 중",
            TextKey::StatusStopped => "중지됨",
            TextKey::ServerStarted => "서버가 시작되었습니다",
            TextKey::ServerStopped => "서버가 중지되었습니다",
            TextKey::ServerCrashed => "서버가 예기치 않게 종료되었습니다",
            TextKey::PresetApplied => "적용됨:",
            TextKey::PresetSaved => "프리셋이 저장되었습니다",
            TextKey::ConsoleCleared => "콘솔이 지워졌습니다",
            TextKey::UnknownCmd => "알 수 없는 명령어:",
            TextKey::Theme => "테마",
            TextKey::ApiUrl => "API URL",
            TextKey::WillApplyNext => "런타임 매개변수는 각 API 요청 시 적용됩니다",
            TextKey::LaunchNeedRestart => "시작 매개변수는 재시작 후 적용됩니다",
            TextKey::RuntimePerRequest => "런타임 매개변수는 각 API 요청에 전달됩니다",
            TextKey::ForceOverwrite => "강제 덮어쓰기",
            TextKey::RestoreDefault => "기본값 복원",
            TextKey::DeletePreset => "삭제",
            TextKey::ConfirmDelete => "삭제하시겠습니까?",
            TextKey::PresetRestored => "프리셋이 기본값으로 복원되었습니다",
            TextKey::PresetOverwritten => "프리셋이 강제 덮어쓰기되었습니다",
            TextKey::PresetDeleted => "프리셋이 삭제되었습니다",
            TextKey::CannotDeleteLast => "마지막 프리셋은 삭제할 수 없습니다",
            TextKey::CtxPerSeqWarn => "시퀀스당 ctx = 합계 ÷ 병렬",
            TextKey::ServerStartCmd => "시작 명령:",
        },
    }
}

/// The interface text for `key` in `lang`; a key that names no phrase is
/// returned as it is.
pub fn t(lang: Language, key: &str) -> (r: String)
    ensures
        r@ == translate_key(lang, key@),
        lookup_key(key@) is None ==> r@ == key@,
{
    match text_key(key) {
        Some(k) => String::from_str(tr(lang, k)),
        None => String::from_str(key),
    }
}

/// The key under which a phrase is looked up.
pub open spec fn key_text(k: TextKey) -> Seq<char> {
    match k {
        TextKey::AppTitle => "app_title"@,
        TextKey::Model => "model"@,
        TextKey::Server => "server"@,
        TextKey::Mmproj => "mmproj"@,
        TextKey::Browse => "browse"@,
        TextKey::Clear => "clear"@,
        TextKey::Host => "host"@,
        TextKey::Port => "port"@,
        TextKey::GpuLayers => "gpu_layers"@,
        TextKey::Max => "max"@,
        TextKey::CtxSize => "ctx_size"@,
        TextKey::ParallelSlots => "parallel_slots"@,
        TextKey::KvCache => "kv_cache"@,
        TextKey::Threads => "threads"@,
        TextKey::BatchThreads => "batch_threads"@,
        TextKey::BatchSize => "batch_size"@,
        TextKey::MicroBatch => "micro_batch"@,
        TextKey::FlashAttn => "flash_attn"@,
        TextKey::Warmup => "warmup"@,
        TextKey::ContBatching => "cont_batching"@,
        TextKey::Verbose => "verbose"@,
        TextKey::Start => "start"@,
        TextKey::Stop => "stop"@,
        TextKey::OpenWebui => "open_webui"@,
        TextKey::Preset => "preset"@,
        TextKey::Save => "save"@,
        TextKey::Apply => "apply"@,
        TextKey::SelectPreset => "select_preset"@,
        TextKey::TemperatureSampling => "temperature_sampling"@,
        TextKey::Temperature => "temperature"@,
        TextKey::TopK => "top_k"@,
        TextKey::TopP => "top_p"@,
        TextKey::MinP => "min_p"@,
        TextKey::RepetitionControl => "repetition_control"@,
        TextKey::RepeatPenalty => "repeat_penalty"@,
        TextKey::CheckRange => "check_range"@,
        TextKey::PresencePenalty => "presence_penalty"@,
        TextKey::FrequencyPenalty => "frequency_penalty"@,
        TextKey::Mirostat => "mirostat"@,
        TextKey::Disabled => "disabled"@,
        TextKey::MirostatV1 => "mirostat_v1"@,
        TextKey::MirostatV2 => "mirostat_v2"@,
        TextKey::Tau => "tau"@,
        TextKey::Eta => "eta"@,
        TextKey::Other => "other"@,
        TextKey::MaxTokens => "max_tokens"@,
        TextKey::Seed => "seed"@,
        TextKey::ApplyParams => "apply_params"@,
        TextKey::ModifiedClickApply => "modified_click_apply"@,
        TextKey::ParamsSaved => "params_saved"@,
        TextKey::RuntimeParamsUpdated => "runtime_params_updated"@,
        TextKey::Console => "console"@,
        TextKey::CmdPreview => "cmd_preview"@,
        TextKey::QuickCmds => "quick_cmds"@,
        TextKey::Copy => "copy"@,
        TextKey::Refresh => "refresh"@,
        TextKey::Run => "run"@,
        TextKey::MoreCmds => "more_cmds"@,
        TextKey::SavePreset => "save_preset"@,
        TextKey::PresetName => "preset_name"@,
        TextKey::Description => "description"@,
        TextKey::Cancel => "cancel"@,
        TextKey::AllCmds => "all_cmds"@,
        TextKey::Close => "close"@,
        TextKey::ModelServer => "model_server"@,
        TextKey::Network => "network"@,
        TextKey::GpuMemory => "gpu_memory"@,
        TextKey::Performance => "performance"@,
        TextKey::Options => "options"@,
        TextKey::StatusRunning => "status_running"@,
        TextKey::StatusStopped => "status_stopped"@,
        TextKey::ServerStarted => "server_started"@,
        TextKey::ServerStopped => "server_stopped"@,
        TextKey::ServerCrashed => "server_crashed"@,
        TextKey::PresetApplied => "preset_applied"@,
        TextKey::PresetSaved => "preset_saved"@,
        TextKey::ConsoleCleared => "console_cleared"@,
        TextKey::UnknownCmd => "unknown_cmd"@,
        TextKey::Theme => "theme"@,
        TextKey::ApiUrl => "api_url"@,
        TextKey::WillApplyNext => "will_apply_next"@,
        TextKey::LaunchNeedRestart => "launch_need_restart"@,
        TextKey::RuntimePerRequest => "runtime_per_request"@,
        TextKey::ForceOverwrite => "force_overwrite"@,
        TextKey::RestoreDefault => "restore_default"@,
        TextKey::DeletePreset => "delete_preset"@,
        TextKey::ConfirmDelete => "confirm_delete"@,
        TextKey::PresetRestored => "preset_restored"@,
        TextKey::PresetOverwritten => "preset_overwritten"@,
        TextKey::PresetDeleted => "preset_deleted"@,
        TextKey::CannotDeleteLast => "cannot_delete_last"@,
        TextKey::CtxPerSeqWarn => "ctx_per_seq_warn"@,
        TextKey::ServerStartCmd => "server_start_cmd"@,
    }
}

/// Every phrase's key is recognised: looking up the key of a phrase finds
/// that phrase, so its text is what `t` gives for the key in every
/// language.
pub proof fn lemma_every_key_recognised(k: TextKey, lang: Language)
    ensures
        lookup_key(key_text(k)) == Some(k),
        translate_key(lang, key_text(k)) == translation(lang, k),
{
    reveal_strlit("app_title");
    assert("app_title"@.len() == 9 && "app_title"@[0] == 'a');
    reveal_strlit("model");
    assert("model"@.len() == 5 && "model"@[0] == 'm' && "model"@[1] == 'o');
    reveal_strlit("server");
    assert("server"@.len() == 6 && "server"@[0] == 's');
    reveal_strlit("mmproj");
    assert("mmproj"@.len() == 6 && "mmproj"@[0] == 'm');
    reveal_strlit("browse");
    assert("browse"@.len() == 6 && "browse"@[0] == 'b');
    reveal_strlit("clear");
    assert("clear"@.len() == 5 && "clear"@[0] == 'c' && "clear"@[2] == 'e');
    reveal_strlit("host");
    assert("host"@.len() == 4 && "host"@[0] == 'h');
    reveal_strlit("port");
    assert("port"@.len() == 4 && "port"@[0] == 'p');
    reveal_strlit("gpu_layers");
    assert("gpu_layers"@.len() == 10 && "gpu_layers"@[0] == 'g' && "gpu_layers"@[4] == 'l');
    reveal_strlit("max");
    assert("max"@.len() == 3 && "max"@[0] == 'm');
    reveal_strlit("ctx_size");
    assert("ctx_size"@.len() == 8 && "ctx_size"@[0] == 'c');
    reveal_strlit("parallel_slots");
    assert("parallel_slots"@.len() == 14
        && "parallel_slots"@[0] == 'p'
        && "parallel_slots"@[1] == 'a');
    reveal_strlit("kv_cache");
    assert("kv_cache"@.len() == 8 && "kv_cache"@[0] == 'k');
    reveal_strlit("threads");
    assert("threads"@.len() == 7 && "threads"@[0] == 't');
    reveal_strlit("batch_threads");
    assert("batch_threads"@.len() == 13 && "batch_threads"@[0] == 'b');
    reveal_strlit("batch_size");
    assert("batch_size"@.len() == 10 && "batch_size"@[0] == 'b');
    reveal_strlit("micro_batch");
    assert("micro_batch"@.len() == 11 && "micro_batch"@[0] == 'm' && "micro_batch"@[2] == 'c');
    reveal_strlit("flash_attn");
    assert("flash_attn"@.len() == 10 && "flash_attn"@[0] == 'f');
    reveal_strlit("warmup");
    assert("warmup"@.len() == 6 && "warmup"@[0] == 'w');
    reveal_strlit("cont_batching");
    assert("cont_batching"@.len() == 13 && "cont_batching"@[0] == 'c');
    reveal_strlit("verbose");
    assert("verbose"@.len() == 7 && "verbose"@[0] == 'v');
    reveal_strlit("start");
    assert("start"@.len() == 5 && "start"@[0] == 's');
    reveal_strlit("stop");
    assert("stop"@.len() == 4 && "stop"@[0] == 's' && "stop"@[1] == 't');
    reveal_strlit("open_webui");
    assert("open_webui"@.len() == 10 && "open_webui"@[0] == 'o');
    reveal_strlit("preset");
    assert("preset"@.len() == 6 && "preset"@[0] == 'p');
    reveal_strlit("save");
    assert("save"@.len() == 4 && "save"@[0] == 's' && "save"@[1] == 'a');
    reveal_strlit("apply");
    assert("apply"@.len() == 5 && "apply"@[0] == 'a');
    reveal_strlit("select_preset");
    assert("select_preset"@.len() == 13 && "select_preset"@[0] == 's');
    reveal_strlit("temperature_sampling");
    assert("temperature_sampling"@.len() == 20 && "temperature_sampling"@[0] == 't');
    reveal_strlit("temperature");
    assert("temperature"@.len() == 11 && "temperature"@[0] == 't');
    reveal_strlit("top_k");
    assert("top_k"@.len() == 5 && "top_k"@[0] == 't' && "top_k"@[1] == 'o' && "top_k"@[4] == 'k');
    reveal_strlit("top_p");
    assert("top_p"@.len() == 5 && "top_p"@[0] == 't' && "top_p"@[1] == 'o' && "top_p"@[4] == 'p');
    reveal_strlit("min_p");
    assert("min_p"@.len() == 5 && "min_p"@[0] == 'm' && "min_p"@[1] == 'i');
    reveal_strlit("repetition_control");
    assert("repetition_control"@.len() == 18 && "repetition_control"@[0] == 'r');
    reveal_strlit("repeat_penalty");
    assert("repeat_penalty"@.len() == 14 && "repeat_penalty"@[0] == 'r');
    reveal_strlit("check_range");
    assert("check_range"@.len() == 11 && "check_range"@[0] == 'c' && "check_range"@[1] == 'h');
    reveal_strlit("presence_penalty");
    assert("presence_penalty"@.len() == 16 && "presence_penalty"@[0] == 'p');
    reveal_strlit("frequency_penalty");
    assert("frequency_penalty"@.len() == 17);
    reveal_strlit("mirostat");
    assert("mirostat"@.len() == 8 && "mirostat"@[0] == 'm');
    reveal_strlit("disabled");
    assert("disabled"@.len() == 8 && "disabled"@[0] == 'd');
    reveal_strlit("mirostat_v1");
    assert("mirostat_v1"@.len() == 11
        && "mirostat_v1"@[0] == 'm'
        && "mirostat_v1"@[2] == 'r'
        && "mirostat_v1"@[10] == '1');
    reveal_strlit("mirostat_v2");
    assert("mirostat_v2"@.len() == 11
        && "mirostat_v2"@[0] == 'm'
        && "mirostat_v2"@[2] == 'r'
        && "mirostat_v2"@[10] == '2');
    reveal_strlit("tau");
    assert("tau"@.len() == 3 && "tau"@[0] == 't');
    reveal_strlit("eta");
    assert("eta"@.len() == 3 && "eta"@[0] == 'e');
    reveal_strlit("other");
    assert("other"@.len() == 5 && "other"@[0] == 'o');
    reveal_strlit("max_tokens");
    assert("max_tokens"@.len() == 10 && "max_tokens"@[0] == 'm');
    reveal_strlit("seed");
    assert("seed"@.len() == 4 && "seed"@[0] == 's' && "seed"@[1] == 'e');
    reveal_strlit("apply_params");
    assert("apply_params"@.len() == 12 && "apply_params"@[0] == 'a');
    reveal_strlit("modified_click_apply");
    assert("modified_click_apply"@.len() == 20 && "modified_click_apply"@[0] == 'm');
    reveal_strlit("params_saved");
    assert("params_saved"@.len() == 12 && "params_saved"@[0] == 'p' && "params_saved"@[1] == 'a');
    reveal_strlit("runtime_params_updated");
    assert("runtime_params_updated"@.len() == 22);
    reveal_strlit("console");
    assert("console"@.len() == 7 && "console"@[0] == 'c');
    reveal_strlit("cmd_preview");
    assert("cmd_preview"@.len() == 11 && "cmd_preview"@[0] == 'c' && "cmd_preview"@[1] == 'm');
    reveal_strlit("quick_cmds");
    assert("quick_cmds"@.len() == 10 && "quick_cmds"@[0] == 'q');
    reveal_strlit("copy");
    assert("copy"@.len() == 4 && "copy"@[0] == 'c');
    reveal_strlit("refresh");
    assert("refresh"@.len() == 7 && "refresh"@[0] == 'r');
    reveal_strlit("run");
    assert("run"@.len() == 3 && "run"@[0] == 'r');
    reveal_strlit("more_cmds");
    assert("more_cmds"@.len() == 9 && "more_cmds"@[0] == 'm');
    reveal_strlit("save_preset");
    assert("save_preset"@.len() == 11 && "save_preset"@[0] == 's');
    reveal_strlit("preset_name");
    assert("preset_name"@.len() == 11 && "preset_name"@[0] == 'p' && "preset_name"@[1] == 'r');
    reveal_strlit("description");
    assert("description"@.len() == 11 && "description"@[0] == 'd');
    reveal_strlit("cancel");
    assert("cancel"@.len() == 6 && "cancel"@[0] == 'c');
    reveal_strlit("all_cmds");
    assert("all_cmds"@.len() == 8 && "all_cmds"@[0] == 'a');
    reveal_strlit("close");
    assert("close"@.len() == 5 && "close"@[0] == 'c' && "close"@[2] == 'o');
    reveal_strlit("model_server");
    assert("model_server"@.len() == 12 && "model_server"@[0] == 'm');
    reveal_strlit("network");
    assert("network"@.len() == 7 && "network"@[0] == 'n');
    reveal_strlit("gpu_memory");
    assert("gpu_memory"@.len() == 10 && "gpu_memory"@[0] == 'g' && "gpu_memory"@[4] == 'm');
    reveal_strlit("performance");
    assert("performance"@.len() == 11 && "performance"@[0] == 'p' && "performance"@[1] == 'e');
    reveal_strlit("options");
    assert("options"@.len() == 7 && "options"@[0] == 'o');
    reveal_strlit("status_running");
    assert("status_running"@.len() == 14
        && "status_running"@[0] == 's'
        && "status_running"@[1] == 't'
        && "status_running"@[7] == 'r');
    reveal_strlit("status_stopped");
    assert("status_stopped"@.len() == 14
        && "status_stopped"@[0] == 's'
        && "status_stopped"@[1] == 't'
        && "status_stopped"@[7] == 's');
    reveal_strlit("server_started");
    assert("server_started"@.len() == 14
        && "server_started"@[0] == 's'
        && "server_started"@[1] == 'e'
        && "server_started"@[7] == 's'
        && "server_started"@[9] == 'a');
    reveal_strlit("server_stopped");
    assert("server_stopped"@.len() == 14
        && "server_stopped"@[0] == 's'
        && "server_stopped"@[1] == 'e'
        && "server_stopped"@[7] == 's'
        && "server_stopped"@[9] == 'o');
    reveal_strlit("server_crashed");
    assert("server_crashed"@.len() == 14
        && "server_crashed"@[0] == 's'
        && "server_crashed"@[1] == 'e'
        && "server_crashed"@[7] == 'c');
    reveal_strlit("preset_applied");
    assert("preset_applied"@.len() == 14
        && "preset_applied"@[0] == 'p'
        && "preset_applied"@[1] == 'r'
        && "preset_applied"@[7] == 'a');
    reveal_strlit("preset_saved");
    assert("preset_saved"@.len() == 12 && "preset_saved"@[0] == 'p' && "preset_saved"@[1] == 'r');
    reveal_strlit("console_cleared");
    assert("console_cleared"@.len() == 15 && "console_cleared"@[0] == 'c');
    reveal_strlit("unknown_cmd");
    assert("unknown_cmd"@.len() == 11 && "unknown_cmd"@[0] == 'u');
    reveal_strlit("theme");
    assert("theme"@.len() == 5 && "theme"@[0] == 't' && "theme"@[1] == 'h');
    reveal_strlit("api_url");
    assert("api_url"@.len() == 7 && "api_url"@[0] == 'a');
    reveal_strlit("will_apply_next");
    assert("will_apply_next"@.len() == 15 && "will_apply_next"@[0] == 'w');
    reveal_strlit("launch_need_restart");
    assert("launch_need_restart"@.len() == 19 && "launch_need_restart"@[0] == 'l');
    reveal_strlit("runtime_per_request");
    assert("runtime_per_request"@.len() == 19 && "runtime_per_request"@[0] == 'r');
    reveal_strlit("force_overwrite");
    assert("force_overwrite"@.len() == 15 && "force_overwrite"@[0] == 'f');
    reveal_strlit("restore_default");
    assert("restore_default"@.len() == 15 && "restore_default"@[0] == 'r');
    reveal_strlit("delete_preset");
    assert("delete_preset"@.len() == 13 && "delete_preset"@[0] == 'd');
    reveal_strlit("confirm_delete");
    assert("confirm_delete"@.len() == 14 && "confirm_delete"@[0] == 'c');
    reveal_strlit("preset_restored");
    assert("preset_restored"@.len() == 15 && "preset_restored"@[0] == 'p');
    reveal_strlit("preset_overwritten");
    assert("preset_overwritten"@.len() == 18 && "preset_overwritten"@[0] == 'p');
    reveal_strlit("preset_deleted");
    assert("preset_deleted"@.len() == 14
        && "preset_deleted"@[0] == 'p'
        && "preset_deleted"@[1] == 'r'
        && "preset_deleted"@[7] == 'd');
    reveal_strlit("cannot_delete_last");
    assert("cannot_delete_last"@.len() == 18 && "cannot_delete_last"@[0] == 'c');
    reveal_strlit("ctx_per_seq_warn");
    assert("ctx_per_seq_warn"@.len() == 16 && "ctx_per_seq_warn"@[0] == 'c');
    reveal_strlit("server_start_cmd");
    assert("server_start_cmd"@.len() == 16 && "server_start_cmd"@[0] == 's');
    match k {
        TextKey::AppTitle => {},
        TextKey::Model => {},
        TextKey::Server => {},
        TextKey::Mmproj => {},
        TextKey::Browse => {},
        TextKey::Clear => {},
        TextKey::Host => {},
        TextKey::Port => {},
        TextKey::GpuLayers => {},
        TextKey::Max => {},
        TextKey::CtxSize => {},
        TextKey::ParallelSlots => {},
        TextKey::KvCache => {},
        TextKey::Threads => {},
        TextKey::BatchThreads => {},
        TextKey::BatchSize => {},
        TextKey::MicroBatch => {},
        TextKey::FlashAttn => {},
        TextKey::Warmup => {},
        TextKey::ContBatching => {},
        TextKey::Verbose => {},
        TextKey::Start => {},
        TextKey::Stop => {},
        TextKey::OpenWebui => {},
        TextKey::Preset => {},
        TextKey::Save => {},
        TextKey::Apply => {},
        TextKey::SelectPreset => {},
        TextKey::TemperatureSampling => {},
        TextKey::Temperature => {},
        TextKey::TopK => {},
        TextKey::TopP => {},
        TextKey::MinP => {},
        TextKey::RepetitionControl => {},
        TextKey::RepeatPenalty => {},
        TextKey::CheckRange => {},
        TextKey::PresencePenalty => {},
        TextKey::FrequencyPenalty => {},
        TextKey::Mirostat => {},
        TextKey::Disabled => {},
        TextKey::MirostatV1 => {},
        TextKey::MirostatV2 => {},
        TextKey::Tau => {},
        TextKey::Eta => {},
        TextKey::Other => {},
        TextKey::MaxTokens => {},
        TextKey::Seed => {},
        TextKey::ApplyParams => {},
        TextKey::ModifiedClickApply => {},
        TextKey::ParamsSaved => {},
        TextKey::RuntimeParamsUpdated => {},
        TextKey::Console => {},
        TextKey::CmdPreview => {},
        TextKey::QuickCmds => {},
        TextKey::Copy => {},
        TextKey::Refresh => {},
        TextKey::Run => {},
        TextKey::MoreCmds => {},
        TextKey::SavePreset => {},
        TextKey::PresetName => {},
        TextKey::Description => {},
        TextKey::Cancel => {},
        TextKey::AllCmds => {},
        TextKey::Close => {},
        TextKey::ModelServer => {},
        TextKey::Network => {},
        TextKey::GpuMemory => {},
        TextKey::Performance => {},
        TextKey::Options => {},
        TextKey::StatusRunning => {},
        TextKey::StatusStopped => {},
        TextKey::ServerStarted => {},
        TextKey::ServerStopped => {},
        TextKey::ServerCrashed => {},
        TextKey::PresetApplied => {},
        TextKey::PresetSaved => {},
        TextKey::ConsoleCleared => {},
        TextKey::UnknownCmd => {},
        TextKey::Theme => {},
        TextKey::ApiUrl => {},
        TextKey::WillApplyNext => {},
        TextKey::LaunchNeedRestart => {},
        TextKey::RuntimePerRequest => {},
        TextKey::ForceOverwrite => {},
        TextKey::RestoreDefault => {},
        TextKey::DeletePreset => {},
        TextKey::ConfirmDelete => {},
        TextKey::PresetRestored => {},
        TextKey::PresetOverwritten => {},
        TextKey::PresetDeleted => {},
        TextKey::CannotDeleteLast => {},
        TextKey::CtxPerSeqWarn => {},
        TextKey::ServerStartCmd => {},
    }
}

/// A key that names a phrase is that phrase's key.
pub proof fn lemma_lookup_gives_key(s: Seq<char>)
    ensures
        lookup_key(s) matches Some(k) ==> s == key_text(k),
{
}

/// In every language a phrase is not empty and differs from its key.
pub proof fn lemma_phrase_differs_from_key(lang: Language, k: TextKey)
    ensures
        translation(lang, k).len() > 0,
        translation(lang, k) != key_text(k),
{
    match k {
        TextKey::AppTitle => {
            reveal_strlit("app_title");
            match lang {
                Language::English => {
                    reveal_strlit("DeveLlamaGUI Pro");
                    assert("DeveLlamaGUI Pro"@.len() != "app_title"@.len());
                },
                Language::ChineseSimplified => {
                    reveal_strlit("DeveLlamaGUI Pro");
                    assert("DeveLlamaGUI Pro"@.len() != "app_title"@.len());
                },
                Language::ChineseTraditional => {
                    reveal_strlit("DeveLlamaGUI Pro");
                    assert("DeveLlamaGUI Pro"@.len() != "app_title"@.len());
                },
                Language::Japanese => {
                    reveal_strlit("DeveLlamaGUI Pro");
                    assert("DeveLlamaGUI Pro"@.len() != "app_title"@.len());
                },
                Language::Korean => {
                    reveal_strlit("DeveLlamaGUI Pro");
                    assert("DeveLlamaGUI Pro"@.len() != "app_title"@.len());
                },
            }
        },
        TextKey::Model => {
            reveal_strlit("model");
            match lang {
                Language::English => {
                    reveal_strlit("Model:");
                    assert("Model:"@.len() != "model"@.len());
                },
                Language::ChineseSimplified => {
                    reveal_strlit("模型:");
                    assert("模型:"@.len() != "model"@.len());
                },
                Language::ChineseTraditional => {
                    reveal_strlit("模型:");
                    assert("模型:"@.len() != "model"@.len());
                },
                Language::Japanese => {
                    reveal_strlit("モデル:");
                    assert("モデル:"@.len() != "model"@.len());
                },
                Language::Korean => {
                    reveal_strlit("모델:");
                    assert("모델:"@.len() != "model"@.len());
                },
            }
        },
        TextKey::Server => {
            reveal_strlit("server");
            match lang {
                Language::English => {
                    reveal_strlit("Server:");
                    assert("Server:"@.len() != "server"@.len());
                },
                Language::ChineseSimplified => {
                    reveal_strlit("服务器:");
                    assert("服务器:"@.len() != "server"@.len());
                },
                Language::ChineseTraditional => {
                    reveal_strlit("伺服器:");
                    assert("伺服器:"@.len() != "server"@.len());
                },
                Language::Japanese => {
                    reveal_strlit("サーバー:");
                    assert("サーバー:"@.len() != "server"@.len());
                },
                Language::Korean => {
                    reveal_strlit("서버:");
                    assert("서버:"@.len() != "server"@.len());
                },
            }
        },
        TextKey::Mmproj => {
            reveal_strlit("mmproj");
            match lang {
                Language::English => {
                    reveal_strlit("MMProj:");
                    assert("MMProj:"@.len() != "mmproj"@.len());
                },
                Language::ChineseSimplified => {
                    reveal_strlit("MMProj:");
                    assert("MMProj:"@.len() != "mmproj"@.len());
                },
                Language::ChineseTraditional => {
                    reveal_strlit("MMProj:");
                    assert("MMProj:"@.len() != "mmproj"@.len());
                },
                Language::Japanese => {
                    reveal_strlit("MMProj:");
                    assert("MMProj:"@.len() != "mmproj"@.len());
                },
                Language::Korean => {
                    reveal_strlit("MMProj:");
                    assert("MMProj:"@.len() != "mmproj"@.len());
                },
            }
        },
        TextKey::Browse => {
            reveal_strlit("browse");
            match lang {
                Language::English => {
                    reveal_strlit("Browse");
                    assert("Browse"@[0] != "browse"@[0]);
                },
                Language::ChineseSimplified => {
                    reveal_strlit("浏览");
                    assert("浏览"@.len() != "browse"@.len());
                },
                Language::ChineseTraditional => {
                    reveal_strlit("瀏覽");
                    assert("瀏覽"@.len() != "browse"@.len());
                },
                Language::Japanese => {
                    reveal_strlit("参照");
                    assert("参照"@.len() != "browse"@.len());
                },
                Language::Korean => {
                    reveal_strlit("찾아보기");
                    assert("찾아보기"@.len() != "browse"@.len());
                },
            }
        },
        TextKey::Clear => {
            reveal_strlit("clear");
            match lang {
                Language::English => {
                    reveal_strlit("Clear");
                    assert("Clear"@[0] != "clear"@[0]);
                },
                Language::ChineseSimplified => {
                    reveal_strlit("清除");
                    assert("清除"@.len() != "clear"@.len());
                },
                Language::ChineseTraditional => {
                    reveal_strlit("清除");
                    assert("清除"@.len() != "clear"@.len());
                },
                Language::Japanese => {
                    reveal_strlit("クリア");
                    assert("クリア"@.len() != "clear"@.len());
                },
                Language::Korean => {
                    reveal_strlit("지우기");
                    assert("지우기"@.len() != "clear"@.len());
                },
            }
        },
        TextKey::Host => {
            reveal_strlit("host");
            match lang {
                Language::English => {
                    reveal_strlit("Host:");
                    assert("Host:"@.len() != "host"@.len());
                },
                Language::ChineseSimplified => {
                    reveal_strlit("主机:");
                    assert("主机:"@.len() != "host"@.len());
                },
                Language::ChineseTraditional => {
                    reveal_strlit("主機:");
                    assert("主機:"@.len() != "host"@.len());
                },
                Language::Japanese => {
                    reveal_strlit("ホスト:");
                    assert("ホスト:"@[0] != "host"@[0]);
                },
                Language::Korean => {
                    reveal_strlit("호스트:");
                    assert("호스트:"@[0] != "host"@[0]);
                },
            }
        },
        TextKey::Port => {
            reveal_strlit("port");
            match lang {
                Language::English => {
                    reveal_strlit("Port:");
                    assert("Port:"@.len() != "port"@.len());
                },
                Language::ChineseSimplified => {
                    reveal_strlit("端口:");
                    assert("端口:"@.len() != "port"@.len());
                },
                Language::ChineseTraditional => {
                    reveal_strlit("埠號:");
                    assert("埠號:"@.len() != "port"@.len());
                },
                Language::Japanese => {
                    reveal_strlit("ポート:");
                    assert("ポート:"@[0] != "port"@[0]);
                },
                Language::Korean => {
                    reveal_strlit("포트:");
                    assert("포트:"@.len() != "port"@.len());
                },
            }
        },
        TextKey::GpuLayers => {
            reveal_strlit("gpu_layers");
            match lang {
                Language::English => {
                    reveal_strlit("GPU Layers:");
                    assert("GPU Layers:"@.len() != "gpu_layers"@.len());
                },
                Language::ChineseSimplified => {
                    reveal_strlit("GPU层数:");
                    assert("GPU层数:"@.len() != "gpu_layers"@.len());
                },
                Language::ChineseTraditional => {
                    reveal_strlit("GPU層數:");
                    assert("GPU層數:"@.len() != "gpu_layers"@.len());
                },
                Language::Japanese => {
                    reveal_strlit("GPUレイヤー:");
                    assert("GPUレイヤー:"@.len() != "gpu_layers"@.len());
                },
                Language::Korean => {
                    reveal_strlit("GPU 레이어:");
                    assert("GPU 레이어:"@.len() != "gpu_layers"@.len());
                },
            }
        },
        TextKey::Max => {
            reveal_strlit("max");
            match lang {
                Language::English => {
                    reveal_strlit("Max");
                    assert("Max"@[0] != "max"@[0]);
                },
                Language::ChineseSimplified => {
                    reveal_strlit("最大");
                    assert("最大"@.len() != "max"@.len());
                },
                Language::ChineseTraditional => {
                    reveal_strlit("最大");
                    assert("最大"@.len() != "max"@.len());
                },
                Language::Japanese => {
                    reveal_strlit("最大");
                    assert("最大"@.len() != "max"@.len());
                },
                Language::Korean => {
                    reveal_strlit("최대");
                    assert("최대"@.len() != "max"@.len());
                },
            }
        },
        TextKey::CtxSize => {
            reveal_strlit("ctx_size");
            match lang {
                Language::English => {
                    reveal_strlit("Context Size:");
                    assert("Context Size:"@.len() != "ctx_size"@.len());
                },
                Language::ChineseSimplified => {
                    reveal_strlit("上下文大小:");
                    assert("上下文大小:"@.len() != "ctx_size"@.len());
                },
                Language::ChineseTraditional => {
                    reveal_strlit("上下文大小:");
                    assert("上下文大小:"@.len() != "ctx_size"@.len());
                },
                Language::Japanese => {
                    reveal_strlit("コンテキストサイズ:");
                    assert("コンテキストサイズ:"@.len() != "ctx_size"@.len());
                },
                Language::Korean => {
                    reveal_strlit("컨텍스트 크기:");
                    assert("컨텍스트 크기:"@[0] != "ctx_size"@[0]);
                },
            }
        },
        TextKey::ParallelSlots => {
            reveal_strlit("parallel_slots");
            match lang {
                Language::English => {
                    reveal_strlit("Parallel Slots:");
                    assert("Parallel Slots:"@.len() != "parallel_slots"@.len());
                },
                Language::ChineseSimplified => {
                    reveal_strlit("并行槽位:");
                    assert("并行槽位:"@.len() != "parallel_slots"@.len());
                },
                Language::ChineseTraditional => {
                    reveal_strlit("並行槽位:");
                    assert("並行槽位:"@.len() != "parallel_slots"@.len());
                },
                Language::Japanese => {
                    reveal_strlit("並行スロット:");
                    assert("並行スロット:"@.len() != "parallel_slots"@.len());
                },
                Language::Korean => {
                    reveal_strlit("병렬 슬롯:");
                    assert("병렬 슬롯:"@.len() != "parallel_slots"@.len());
                },
            }
        },
        TextKey::KvCache => {
            reveal_strlit("kv_cache");
            match lang {
                Language::English => {
                    reveal_strlit("KV Cache:");
                    assert("KV Cache:"@.len() != "kv_cache"@.len());
                },
                Language::ChineseSimplified => {
                    reveal_strlit("KV缓存:");
                    assert("KV缓存:"@.len() != "kv_cache"@.len());
                },
                Language::ChineseTraditional => {
                    reveal_strlit("KV快取:");
                    assert("KV快取:"@.len() != "kv_cache"@.len());
                },
                Language::Japanese => {
                    reveal_strlit("KVキャッシュ:");
                    assert("KVキャッシュ:"@[0] != "kv_cache"@[0]);
                },
                Language::Korean => {
                    reveal_strlit("KV 캐시:");
                    assert("KV 캐시:"@.len() != "kv_cache"@.len());
                },
            }
        },
        TextKey::Threads => {
            reveal_strlit("threads");
            match lang {
                Language::English => {
                    reveal_strlit("Threads:");
                    assert("Threads:"@.len() != "threads"@.len());
                },
                Language::ChineseSimplified => {
                    reveal_strlit("线程数:");
                    assert("线程数:"@.len() != "threads"@.len());
                },
                Language::ChineseTraditional => {
                    reveal_strlit("執行緒數:");
                    assert("執行緒數:"@.len() != "threads"@.len());
                },
                Language::Japanese => {
                    reveal_strlit("スレッド数:");
                    assert("スレッド数:"@.len() != "threads"@.len());
                },
                Language::Korean => {
                    reveal_strlit("스레드 수:");
                    assert("스레드 수:"@.len() != "threads"@.len());
                },
            }
        },
        TextKey::BatchThreads => {
            reveal_strlit("batch_threads");
            match lang {
                Language::English => {
                    reveal_strlit("Batch Threads:");
                    assert("Batch Threads:"@.len() != "batch_threads"@.len());
                },
                Language::ChineseSimplified => {
                    reveal_strlit("批处理线程:");
                    assert("批处理线程:"@.len() != "batch_threads"@.len());
                },
                Language::ChineseTraditional => {
                    reveal_strlit("批次執行緒:");
                    assert("批次執行緒:"@.len() != "batch_threads"@.len());
                },
                Language::Japanese => {
                    reveal_strlit("バッチスレッド:");
                    assert("バッチスレッド:"@.len() != "batch_threads"@.len());
                },
                Language::Korean => {
                    reveal_strlit("배치 스레드:");
                    assert("배치 스레드:"@.len() != "batch_threads"@.len());
                },
            }
        },
        TextKey::BatchSize => {
            reveal_strlit("batch_size");
            match lang {
                Language::English => {
                    reveal_strlit("Batch Size:");
                    assert("Batch Size:"@.len() != "batch_size"@.len());
                },
                Language::ChineseSimplified => {
                    reveal_strlit("批处理大小:");
                    assert("批处理大小:"@.len() != "batch_size"@.len());
                },
                Language::ChineseTraditional => {
                    reveal_strlit("批次大小:");
                    assert("批次大小:"@.len() != "batch_size"@.len());
                },
                Language::Japanese => {
                    reveal_strlit("バッチサイズ:");
                    assert("バッチサイズ:"@.len() != "batch_size"@.len());
                },
                Language::Korean => {
                    reveal_strlit("배치 크기:");
                    assert("배치 크기:"@.len() != "batch_size"@.len());
                },
            }
        },
        TextKey::MicroBatch => {
            reveal_strlit("micro_batch");
            match lang {
                Language::English => {
                    reveal_strlit("Micro Batch:");
                    assert("Micro Batch:"@.len() != "micro_batch"@.len());
                },
                Language::ChineseSimplified => {
                    reveal_strlit("微批处理:");
                    assert("微批处理:"@.len() != "micro_batch"@.len());
                },
                Language::ChineseTraditional => {
                    reveal_strlit("微批次:");
                    assert("微批次:"@.len() != "micro_batch"@.len());
                },
                Language::Japanese => {
                    reveal_strlit("マイクロバッチ:");
                    assert("マイクロバッチ:"@.len() != "micro_batch"@.len());
                },
                Language::Korean => {
                    reveal_strlit("마이크로 배치:");
                    assert("마이크로 배치:"@.len() != "micro_batch"@.len());
                },
            }
        },
        TextKey::FlashAttn => {
            reveal_strlit("flash_attn");
            match lang {
                Language::English => {
                    reveal_strlit("Flash Attention");
                    assert("Flash Attention"@.len() != "flash_attn"@.len());
                },
                Language::ChineseSimplified => {
                    reveal_strlit("Flash Attention");
                    assert("Flash Attention"@.len() != "flash_attn"@.len());
                },
                Language::ChineseTraditional => {
                    reveal_strlit("Flash Attention");
                    assert("Flash Attention"@.len() != "flash_attn"@.len());
                },
                Language::Japanese => {
                    reveal_strlit("Flash Attention");
                    assert("Flash Attention"@.len() != "flash_attn"@.len());
                },
                Language::Korean => {
                    reveal_strlit("Flash Attention");
                    assert("Flash Attention"@.len() != "flash_attn"@.len());
                },
            }
        },
        TextKey::Warmup => {
            reveal_strlit("warmup");
            match lang {
                Language::English => {
                    reveal_strlit("Warmup");
                    assert("Warmup"@[0] != "warmup"@[0]);
                },
                Language::ChineseSimplified => {
                    reveal_strlit("预热");
                    assert("预热"@.len() != "warmup"@.len());
                },
                Language::ChineseTraditional => {
                    reveal_strlit("預熱");
                    assert("預熱"@.len() != "warmup"@.len());
                },
                Language::Japanese => {
                    reveal_strlit("ウォームアップ");
                    assert("ウォームアップ"@.len() != "warmup"@.len());
                },
                Language::Korean => {
                    reveal_strlit("웜업");
                    assert("웜업"@.len() != "warmup"@.len());
                },
            }
        },
        TextKey::ContBatching => {
            reveal_strlit("cont_batching");
            match lang {
                Language::English => {
                    reveal_strlit("Continuous Batching");
                    assert("Continuous Batching"@.len() != "cont_batching"@.len());
                },
                Language::ChineseSimplified => {
                    reveal_strlit("连续批处理");
                    assert("连续批处理"@.len() != "cont_batching"@.len());
                },
                Language::ChineseTraditional => {
                    reveal_strlit("連續批次處理");
                    assert("連續批次處理"@.len() != "cont_batching"@.len());
                },
                Language::Japanese => {
                    reveal_strlit("連続バッチ処理");
                    assert("連続バッチ処理"@.len() != "cont_batching"@.len());
                },
                Language::Korean => {
                    reveal_strlit("연속 배치 처리");
                    assert("연속 배치 처리"@.len() != "cont_batching"@.len());
                },
            }
        },
        TextKey::Verbose => {
            reveal_strlit("verbose");
            match lang {
                Language::English => {
                    reveal_strlit("Verbose Logging");
                    assert("Verbose Logging"@.len() != "verbose"@.len());
                },
                Language::ChineseSimplified => {
                    reveal_strlit("详细日志");
                    assert("详细日志"@.len() != "verbose"@.len());
                },
                Language::ChineseTraditional => {
                    reveal_strlit("詳細日誌");
                    assert("詳細日誌"@.len() != "verbose"@.len());
                },
                Language::Japanese => {
                    reveal_strlit("詳細ログ");
                    assert("詳細ログ"@.len() != "verbose"@.len());
                },
                Language::Korean => {
                    reveal_strlit("상세 로그");
                    assert("상세 로그"@.len() != "verbose"@.len());
                },
            }
        },
        TextKey::Start => {
            reveal_strlit("start");
            match lang {
                Language::English => {
                    reveal_strlit("START");
                    assert("START"@[0] != "start"@[0]);
                },
                Language::ChineseSimplified => {
                    reveal_strlit("启动");
                    assert("启动"@.len() != "start"@.len());
                },
                Language::ChineseTraditional => {
                    reveal_strlit("啟動");
                    assert("啟動"@.len() != "start"@.len());
                },
                Language::Japanese => {
                    reveal_strlit("開始");
                    assert("開始"@.len() != "start"@.len());
                },
                Language::Korean => {
                    reveal_strlit("시작");
                    assert("시작"@.len() != "start"@.len());
                },
            }
        },
        TextKey::Stop => {
            reveal_strlit("stop");
            match lang {
                Language::English => {
                    reveal_strlit("STOP");
                    assert("STOP"@[0] != "stop"@[0]);
                },
                Language::ChineseSimplified => {
                    reveal_strlit("停止");
                    assert("停止"@.len() != "stop"@.len());
                },
                Language::ChineseTraditional => {
                    reveal_strlit("停止");
                    assert("停止"@.len() != "stop"@.len());
                },
                Language::Japanese => {
                    reveal_strlit("停止");
                    assert("停止"@.len() != "stop"@.len());
                },
                Language::Korean => {
                    reveal_strlit("중지");
                    assert("중지"@.len() != "stop"@.len());
                },
            }
        },
        TextKey::OpenWebui => {
            reveal_strlit("open_webui");
            match lang {
                Language::English => {
                    reveal_strlit("Open WebUI");
                    assert("Open WebUI"@[0] != "open_webui"@[0]);
                },
                Language::ChineseSimplified => {
                    reveal_strlit("打开WebUI");
                    assert("打开WebUI"@.len() != "open_webui"@.len());
                },
                Language::ChineseTraditional => {
                    reveal_strlit("開啟WebUI");
                    assert("開啟WebUI"@.len() != "open_webui"@.len());
                },
                Language::Japanese => {
                    reveal_strlit("WebUIを開く");
                    assert("WebUIを開く"@.len() != "open_webui"@.len());
                },
                Language::Korean => {
                    reveal_strlit("WebUI 열기");
                    assert("WebUI 열기"@.len() != "open_webui"@.len());
                },
            }
        },
        TextKey::Preset => {
            reveal_strlit("preset");
            match lang {
                Language::English => {
                    reveal_strlit("Preset");
                    assert("Preset"@[0] != "preset"@[0]);
                },
                Language::ChineseSimplified => {
                    reveal_strlit("预设");
                    assert("预设"@.len() != "preset"@.len());
                },
                Language::ChineseTraditional => {
                    reveal_strlit("預設");
                    assert("預設"@.len() != "preset"@.len());
                },
                Language::Japanese => {
                    reveal_strlit("プリセット");
                    assert("プリセット"@.len() != "preset"@.len());
                },
                Language::Korean => {
                    reveal_strlit("프리셋");
                    assert("프리셋"@.len() != "preset"@.len());
                },
            }
        },
        TextKey::Save => {
            reveal_strlit("save");
            match lang {
                Language::English => {
                    reveal_strlit("Save");
                    assert("Save"@[0] != "save"@[0]);
                },
                Language::ChineseSimplified => {
                    reveal_strlit("保存");
                    assert("保存"@.len() != "save"@.len());
                },
                Language::ChineseTraditional => {
                    reveal_strlit("儲存");
                    assert("儲存"@.len() != "save"@.len());
                },
                Language::Japanese => {
                    reveal_strlit("保存");
                    assert("保存"@.len() != "save"@.len());
                },
                Language::Korean => {
                    reveal_strlit("저장");
                    assert("저장"@.len() != "save"@.len());
                },
            }
        },
        TextKey::Apply => {
            reveal_strlit("apply");
            match lang {
                Language::English => {
                    reveal_strlit("Apply");
                    assert("Apply"@[0] != "apply"@[0]);
                },
                Language::ChineseSimplified => {
                    reveal_strlit("应用");
                    assert("应用"@.len() != "apply"@.len());
                },
                Language::ChineseTraditional => {
                    reveal_strlit("套用");
                    assert("套用"@.len() != "apply"@.len());
                },
                Language::Japanese => {
                    reveal_strlit("適用");
                    assert("適用"@.len() != "apply"@.len());
                },
                Language::Korean => {
                    reveal_strlit("적용");
                    assert("적용"@.len() != "apply"@.len());
                },
            }
        },
        TextKey::SelectPreset => {
            reveal_strlit("select_preset");
            match lang {
                Language::English => {
                    reveal_strlit("Select preset...");
                    assert("Select preset..."@.len() != "select_preset"@.len());
                },
                Language::ChineseSimplified => {
                    reveal_strlit("选择预设...");
                    assert("选择预设..."@.len() != "select_preset"@.len());
                },
                Language::ChineseTraditional => {
                    reveal_strlit("選擇預設...");
                    assert("選擇預設..."@.len() != "select_preset"@.len());
                },
                Language::Japanese => {
                    reveal_strlit("プリセットを選択...");
                    assert("プリセットを選択..."@.len() != "select_preset"@.len());
                },
                Language::Korean => {
                    reveal_strlit("프리셋 선택...");
                    assert("프리셋 선택..."@.len() != "select_preset"@.len());
                },
            }
        },
        TextKey::TemperatureSampling => {
            reveal_strlit("temperature_sampling");
            match lang {
                Language::English => {
                    reveal_strlit("Temperature & Sampling");
                    assert("Temperature & Sampling"@.len() != "temperature_sampling"@.len());
                },
                Language::ChineseSimplified => {
                    reveal_strlit("温度与采样");
                    assert("温度与采样"@.len() != "temperature_sampling"@.len());
                },
                Language::ChineseTraditional => {
                    reveal_strlit("溫度與取樣");
                    assert("溫度與取樣"@.len() != "temperature_sampling"@.len());
                },
                Language::Japanese => {
                    reveal_strlit("温度とサンプリング");
                    assert("温度とサンプリング"@.len() != "temperature_sampling"@.len());
                },
                Language::Korean => {
                    reveal_strlit("온도 및 샘플링");
                    assert("온도 및 샘플링"@.len() != "temperature_sampling"@.len());
                },
            }
        },
        TextKey::Temperature => {
            reveal_strlit("temperature");
            match lang {
                Language::English => {
                    reveal_strlit("Temperature:");
                    assert("Temperature:"@.len() != "temperature"@.len());
                },
                Language::ChineseSimplified => {
                    reveal_strlit("温度:");
                    assert("温度:"@.len() != "temperature"@.len());
                },
                Language::ChineseTraditional => {
                    reveal_strlit("溫度:");
                    assert("溫度:"@.len() != "temperature"@.len());
                },
                Language::Japanese => {
                    reveal_strlit("温度:");
                    assert("温度:"@.len() != "temperature"@.len());
                },
                Language::Korean => {
                    reveal_strlit("온도:");
                    assert("온도:"@.len() != "temperature"@.len());
                },
            }
        },
        TextKey::TopK => {
            reveal_strlit("top_k");
            match lang {
                Language::English => {
                    reveal_strlit("Top K:");
                    assert("Top K:"@.len() != "top_k"@.len());
                },
                Language::ChineseSimplified => {
                    reveal_strlit("Top K:");
                    assert("Top K:"@.len() != "top_k"@.len());
                },
                Language::ChineseTraditional => {
                    reveal_strlit("Top K:");
                    assert("Top K:"@.len() != "top_k"@.len());
                },
                Language::Japanese => {
                    reveal_strlit("Top K:");
                    assert("Top K:"@.len() != "top_k"@.len());
                },
                Language::Korean => {
                    reveal_strlit("Top K:");
                    assert("Top K:"@.len() != "top_k"@.len());
                },
            }
        },
        TextKey::TopP => {
            reveal_strlit("top_p");
            match lang {
                Language::English => {
                    reveal_strlit("Top P:");
                    assert("Top P:"@.len() != "top_p"@.len());
                },
                Language::ChineseSimplified => {
                    reveal_strlit("Top P:");
                    assert("Top P:"@.len() != "top_p"@.len());
                },
                Language::ChineseTraditional => {
                    reveal_strlit("Top P:");
                    assert("Top P:"@.len() != "top_p"@.len());
                },
                Language::Japanese => {
                    reveal_strlit("Top P:");
                    assert("Top P:"@.len() != "top_p"@.len());
                },
                Language::Korean => {
                    reveal_strlit("Top P:");
                    assert("Top P:"@.len() != "top_p"@.len());
                },
            }
        },
        TextKey::MinP => {
            reveal_strlit("min_p");
            match lang {
                Language::English => {
                    reveal_strlit("Min P:");
                    assert("Min P:"@.len() != "min_p"@.len());
                },
                Language::ChineseSimplified => {
                    reveal_strlit("Min P:");
                    assert("Min P:"@.len() != "min_p"@.len());
                },
                Language::ChineseTraditional => {
                    reveal_strlit("Min P:");
                    assert("Min P:"@.len() != "min_p"@.len());
                },
                Language::Japanese => {
                    reveal_strlit("Min P:");
                    assert("Min P:"@.len() != "min_p"@.len());
                },
                Language::Korean => {
                    reveal_strlit("Min P:");
                    assert("Min P:"@.len() != "min_p"@.len());
                },
            }
        },
        TextKey::RepetitionControl => {
            reveal_strlit("repetition_control");
            match lang {
                Language::English => {
                    reveal_strlit("Repetition Control");
                    assert("Repetition Control"@[0] != "repetition_control"@[0]);
                },
                Language::ChineseSimplified => {
                    reveal_strlit("重复控制");
                    assert("重复控制"@.len() != "repetition_control"@.len());
                },
                Language::ChineseTraditional => {
                    reveal_strlit("重複控制");
                    assert("重複控制"@.len() != "repetition_control"@.len());
                },
                Language::Japanese => {
                    reveal_strlit("繰り返し制御");
                    assert("繰り返し制御"@.len() != "repetition_control"@.len());
                },
                Language::Korean => {
                    reveal_strlit("반복 제어");
                    assert("반복 제어"@.len() != "repetition_control"@.len());
                },
            }
        },
        TextKey::RepeatPenalty => {
            reveal_strlit("repeat_penalty");
            match lang {
                Language::English => {
                    reveal_strlit("Repeat Penalty:");
                    assert("Repeat Penalty:"@.len() != "repeat_penalty"@.len());
                },
                Language::ChineseSimplified => {
                    reveal_strlit("重复惩罚:");
                    assert("重复惩罚:"@.len() != "repeat_penalty"@.len());
                },
                Language::ChineseTraditional => {
                    reveal_strlit("重複懲罰:");
                    assert("重複懲罰:"@.len() != "repeat_penalty"@.len());
                },
                Language::Japanese => {
                    reveal_strlit("繰り返しペナルティ:");
                    assert("繰り返しペナルティ:"@.len() != "repeat_penalty"@.len());
                },
                Language::Korean => {
                    reveal_strlit("반복 패널티:");
                    assert("반복 패널티:"@.len() != "repeat_penalty"@.len());
                },
            }
        },
        TextKey::CheckRange => {
            reveal_strlit("check_range");
            match lang {
                Language::English => {
                    reveal_strlit("Check Range:");
                    assert("Check Range:"@.len() != "check_range"@.len());
                },
                Language::ChineseSimplified => {
                    reveal_strlit("检查范围:");
                    assert("检查范围:"@.len() != "check_range"@.len());
                },
                Language::ChineseTraditional => {
                    reveal_strlit("檢查範圍:");
                    assert("檢查範圍:"@.len() != "check_range"@.len());
                },
                Language::Japanese => {
                    reveal_strlit("チェック範囲:");
                    assert("チェック範囲:"@.len() != "check_range"@.len());
                },
                Language::Korean => {
                    reveal_strlit("확인 범위:");
                    assert("확인 범위:"@.len() != "check_range"@.len());
                },
            }
        },
        TextKey::PresencePenalty => {
            reveal_strlit("presence_penalty");
            match lang {
                Language::English => {
                    reveal_strlit("Presence Penalty:");
                    assert("Presence Penalty:"@.len() != "presence_penalty"@.len());
                },
                Language::ChineseSimplified => {
                    reveal_strlit("存在惩罚:");
                    assert("存在惩罚:"@.len() != "presence_penalty"@.len());
                },
                Language::ChineseTraditional => {
                    reveal_strlit("存在懲罰:");
                    assert("存在懲罰:"@.len() != "presence_penalty"@.len());
                },
                Language::Japanese => {
                    reveal_strlit("存在ペナルティ:");
                    assert("存在ペナルティ:"@.len() != "presence_penalty"@.len());
                },
                Language::Korean => {
                    reveal_strlit("존재 패널티:");
                    assert("존재 패널티:"@.len() != "presence_penalty"@.len());
                },
            }
        },
        TextKey::FrequencyPenalty => {
            reveal_strlit("frequency_penalty");
            match lang {
                Language::English => {
                    reveal_strlit("Frequency Penalty:");
                    assert("Frequency Penalty:"@.len() != "frequency_penalty"@.len());
                },
                Language::ChineseSimplified => {
                    reveal_strlit("频率惩罚:");
                    assert("频率惩罚:"@.len() != "frequency_penalty"@.len());
                },
                Language::ChineseTraditional => {
                    reveal_strlit("頻率懲罰:");
                    assert("頻率懲罰:"@.len() != "frequency_penalty"@.len());
                },
                Language::Japanese => {
                    reveal_strlit("頻度ペナルティ:");
                    assert("頻度ペナルティ:"@.len() != "frequency_penalty"@.len());
                },
                Language::Korean => {
                    reveal_strlit("빈도 패널티:");
                    assert("빈도 패널티:"@.len() != "frequency_penalty"@.len());
                },
            }
        },
        TextKey::Mirostat => {
            reveal_strlit("mirostat");
            match lang {
                Language::English => {
                    reveal_strlit("Mirostat");
                    assert("Mirostat"@[0] != "mirostat"@[0]);
                },
                Language::ChineseSimplified => {
                    reveal_strlit("Mirostat");
                    assert("Mirostat"@[0] != "mirostat"@[0]);
                },
                Language::ChineseTraditional => {
                    reveal_strlit("Mirostat");
                    assert("Mirostat"@[0] != "mirostat"@[0]);
                },
                Language::Japanese => {
                    reveal_strlit("Mirostat");
                    assert("Mirostat"@[0] != "mirostat"@[0]);
                },
                Language::Korean => {
                    reveal_strlit("Mirostat");
                    assert("Mirostat"@[0] != "mirostat"@[0]);
                },
            }
        },
        TextKey::Disabled => {
            reveal_strlit("disabled");
            match lang {
                Language::English => {
                    reveal_strlit("Disabled");
                    assert("Disabled"@[0] != "disabled"@[0]);
                },
                Language::ChineseSimplified => {
                    reveal_strlit("禁用");
                    assert("禁用"@.len() != "disabled"@.len());
                },
                Language::ChineseTraditional => {
                    reveal_strlit("禁用");
                    assert("禁用"@.len() != "disabled"@.len());
                },
                Language::Japanese => {
                    reveal_strlit("無効");
                    assert("無効"@.len() != "disabled"@.len());
                },
                Language::Korean => {
                    reveal_strlit("비활성화");
                    assert("비활성화"@.len() != "disabled"@.len());
                },
            }
        },
        TextKey::MirostatV1 => {
            reveal_strlit("mirostat_v1");
            match lang {
                Language::English => {
                    reveal_strlit("Mirostat 1.0");
                    assert("Mirostat 1.0"@.len() != "mirostat_v1"@.len());
                },
                Language::ChineseSimplified => {
                    reveal_strlit("Mirostat 1.0");
                    assert("Mirostat 1.0"@.len() != "mirostat_v1"@.len());
                },
                Language::ChineseTraditional => {
                    reveal_strlit("Mirostat 1.0");
                    assert("Mirostat 1.0"@.len() != "mirostat_v1"@.len());
                },
                Language::Japanese => {
                    reveal_strlit("Mirostat 1.0");
                    assert("Mirostat 1.0"@.len() != "mirostat_v1"@.len());
                },
                Language::Korean => {
                    reveal_strlit("Mirostat 1.0");
                    assert("Mirostat 1.0"@.len() != "mirostat_v1"@.len());
                },
            }
        },
        TextKey::MirostatV2 => {
            reveal_strlit("mirostat_v2");
            match lang {
                Language::English => {
                    reveal_strlit("Mirostat 2.0");
                    assert("Mirostat 2.0"@.len() != "mirostat_v2"@.len());
                },
                Language::ChineseSimplified => {
                    reveal_strlit("Mirostat 2.0");
                    assert("Mirostat 2.0"@.len() != "mirostat_v2"@.len());
                },
                Language::ChineseTraditional => {
                    reveal_strlit("Mirostat 2.0");
                    assert("Mirostat 2.0"@.len() != "mirostat_v2"@.len());
                },
                Language::Japanese => {
                    reveal_strlit("Mirostat 2.0");
                    assert("Mirostat 2.0"@.len() != "mirostat_v2"@.len());
                },
                Language::Korean => {
                    reveal_strlit("Mirostat 2.0");
                    assert("Mirostat 2.0"@.len() != "mirostat_v2"@.len());
                },
            }
        },
        TextKey::Tau => {
            reveal_strlit("tau");
            match lang {
                Language::English => {
                    reveal_strlit("Tau:");
                    assert("Tau:"@.len() != "tau"@.len());
                },
                Language::ChineseSimplified => {
                    reveal_strlit("Tau:");
                    assert("Tau:"@.len() != "tau"@.len());
                },
                Language::ChineseTraditional => {
                    reveal_strlit("Tau:");
                    assert("Tau:"@.len() != "tau"@.len());
                },
                Language::Japanese => {
                    reveal_strlit("Tau:");
                    assert("Tau:"@.len() != "tau"@.len());
                },
                Language::Korean => {
                    reveal_strlit("Tau:");
                    assert("Tau:"@.len() != "tau"@.len());
                },
            }
        },
        TextKey::Eta => {
            reveal_strlit("eta");
            match lang {
                Language::English => {
                    reveal_strlit("Eta:");
                    assert("Eta:"@.len() != "eta"@.len());
                },
                Language::ChineseSimplified => {
                    reveal_strlit("Eta:");
                    assert("Eta:"@.len() != "eta"@.len());
                },
                Language::ChineseTraditional => {
                    reveal_strlit("Eta:");
                    assert("Eta:"@.len() != "eta"@.len());
                },
                Language::Japanese => {
                    reveal_strlit("Eta:");
                    assert("Eta:"@.len() != "eta"@.len());
                },
                Language::Korean => {
                    reveal_strlit("Eta:");
                    assert("Eta:"@.len() != "eta"@.len());
                },
            }
        },
        TextKey::Other => {
            reveal_strlit("other");
            match lang {
                Language::English => {
                    reveal_strlit("Other");
                    assert("Other"@[0] != "other"@[0]);
                },
                Language::ChineseSimplified => {
                    reveal_strlit("其他");
                    assert("其他"@.len() != "other"@.len());
                },
                Language::ChineseTraditional => {
                    reveal_strlit("其他");
                    assert("其他"@.len() != "other"@.len());
                },
                Language::Japanese => {
                    reveal_strlit("その他");
                    assert("その他"@.len() != "other"@.len());
                },
                Language::Korean => {
                    reveal_strlit("기타");
                    assert("기타"@.len() != "other"@.len());
                },
            }
        },
        TextKey::MaxTokens => {
            reveal_strlit("max_tokens");
            match lang {
                Language::English => {
                    reveal_strlit("Max Tokens:");
                    assert("Max Tokens:"@.len() != "max_tokens"@.len());
                },
                Language::ChineseSimplified => {
                    reveal_strlit("最大令牌数:");
                    assert("最大令牌数:"@.len() != "max_tokens"@.len());
                },
                Language::ChineseTraditional => {
                    reveal_strlit("最大權杖數:");
                    assert("最大權杖數:"@.len() != "max_tokens"@.len());
                },
                Language::Japanese => {
                    reveal_strlit("最大トークン数:");
                    assert("最大トークン数:"@.len() != "max_tokens"@.len());
                },
                Language::Korean => {
                    reveal_strlit("최대 토큰 수:");
                    assert("최대 토큰 수:"@.len() != "max_tokens"@.len());
                },
            }
        },
        TextKey::Seed => {
            reveal_strlit("seed");
            match lang {
                Language::English => {
                    reveal_strlit("Seed:");
                    assert("Seed:"@.len() != "seed"@.len());
                },
                Language::ChineseSimplified => {
                    reveal_strlit("随机种子:");
                    assert("随机种子:"@.len() != "seed"@.len());
                },
                Language::ChineseTraditional => {
                    reveal_strlit("隨機種子:");
                    assert("隨機種子:"@.len() != "seed"@.len());
                },
                Language::Japanese => {
                    reveal_strlit("シード値:");
                    assert("シード値:"@.len() != "seed"@.len());
                },
                Language::Korean => {
                    reveal_strlit("시드 값:");
                    assert("시드 값:"@.len() != "seed"@.len());
                },
            }
        },
        TextKey::ApplyParams => {
            reveal_strlit("apply_params");
            match lang {
                Language::English => {
                    reveal_strlit("Apply Parameters");
                    assert("Apply Parameters"@.len() != "apply_params"@.len());
                },
                Language::ChineseSimplified => {
                    reveal_strlit("应用参数");
                    assert("应用参数"@.len() != "apply_params"@.len());
                },
                Language::ChineseTraditional => {
                    reveal_strlit("套用參數");
                    assert("套用參數"@.len() != "apply_params"@.len());
                },
                Language::Japanese => {
                    reveal_strlit("パラメータを適用");
                    assert("パラメータを適用"@.len() != "apply_params"@.len());
                },
                Language::Korean => {
                    reveal_strlit("매개변수 적용");
                    assert("매개변수 적용"@.len() != "apply_params"@.len());
                },
            }
        },
        TextKey::ModifiedClickApply => {
            reveal_strlit("modified_click_apply");
            match lang {
                Language::English => {
                    reveal_strlit("Modified - click Apply to save");
                    assert("Modified - click Apply to save"@.len() != "modified_click_apply"@.len());
                },
                Language::ChineseSimplified => {
                    reveal_strlit("已修改 - 点击应用保存");
                    assert("已修改 - 点击应用保存"@.len() != "modified_click_apply"@.len());
                },
                Language::ChineseTraditional => {
                    reveal_strlit("已修改 - 點擊套用儲存");
                    assert("已修改 - 點擊套用儲存"@.len() != "modified_click_apply"@.len());
                },
                Language::Japanese => {
                    reveal_strlit("変更済み - 適用をクリックして保存");
                    assert("変更済み - 適用をクリックして保存"@.len() != "modified_click_apply"@.len());
                },
                Language::Korean => {
                    reveal_strlit("수정됨 - 저장하려면 적용을 클릭하세요");
                    assert("수정됨 - 저장하려면 적용을 클릭하세요"@.len() != "modified_click_apply"@.len());
                },
            }
        },
        TextKey::ParamsSaved => {
            reveal_strlit("params_saved");
            match lang {
                Language::English => {
                    reveal_strlit("Parameters saved");
                    assert("Parameters saved"@.len() != "params_saved"@.len());
                },
                Language::ChineseSimplified => {
                    reveal_strlit("参数已保存");
                    assert("参数已保存"@.len() != "params_saved"@.len());
                },
                Language::ChineseTraditional => {
                    reveal_strlit("參數已儲存");
                    assert("參數已儲存"@.len() != "params_saved"@.len());
                },
                Language::Japanese => {
                    reveal_strlit("パラメータを保存しました");
                    assert("パラメータを保存しました"@[0] != "params_saved"@[0]);
                },
                Language::Korean => {
                    reveal_strlit("매개변수가 저장되었습니다");
                    assert("매개변수가 저장되었습니다"@.len() != "params_saved"@.len());
                },
            }
        },
        TextKey::RuntimeParamsUpdated => {
            reveal_strlit("runtime_params_updated");
            match lang {
                Language::English => {
                    reveal_strlit("Runtime parameters updated");
                    assert("Runtime parameters updated"@.len() != "runtime_params_updated"@.len());
                },
                Language::ChineseSimplified => {
                    reveal_strlit("运行时参数已更新");
                    assert("运行时参数已更新"@.len() != "runtime_params_updated"@.len());
                },
                Language::ChineseTraditional => {
                    reveal_strlit("執行時參數已更新");
                    assert("執行時參數已更新"@.len() != "runtime_params_updated"@.len());
                },
                Language::Japanese => {
                    reveal_strlit("実行時パラメータを更新しました");
                    assert("実行時パラメータを更新しました"@.len() != "runtime_params_updated"@.len());
                },
                Language::Korean => {
                    reveal_strlit("런타임 매개변수가 업데이트되었습니다");
                    assert("런타임 매개변수가 업데이트되었습니다"@.len() != "runtime_params_updated"@.len());
                },
            }
        },
        TextKey::Console => {
            reveal_strlit("console");
            match lang {
                Language::English => {
                    reveal_strlit("Console");
                    assert("Console"@[0] != "console"@[0]);
                },
                Language::ChineseSimplified => {
                    reveal_strlit("控制台");
                    assert("控制台"@.len() != "console"@.len());
                },
                Language::ChineseTraditional => {
                    reveal_strlit("控制台");
                    assert("控制台"@.len() != "console"@.len());
                },
                Language::Japanese => {
                    reveal_strlit("コンソール");
                    assert("コンソール"@.len() != "console"@.len());
                },
                Language::Korean => {
                    reveal_strlit("콘솔");
                    assert("콘솔"@.len() != "console"@.len());
                },
            }
        },
        TextKey::CmdPreview => {
            reveal_strlit("cmd_preview");
            match lang {
                Language::English => {
                    reveal_strlit("Command Preview");
                    assert("Command Preview"@.len() != "cmd_preview"@.len());
                },
                Language::ChineseSimplified => {
                    reveal_strlit("命令预览");
                    assert("命令预览"@.len() != "cmd_preview"@.len());
                },
                Language::ChineseTraditional => {
                    reveal_strlit("命令預覽");
                    assert("命令預覽"@.len() != "cmd_preview"@.len());
                },
                Language::Japanese => {
                    reveal_strlit("コマンドプレビュー");
                    assert("コマンドプレビュー"@.len() != "cmd_preview"@.len());
                },
                Language::Korean => {
                    reveal_strlit("명령어 미리보기");
                    assert("명령어 미리보기"@.len() != "cmd_preview"@.len());
                },
            }
        },
        TextKey::QuickCmds => {
            reveal_strlit("quick_cmds");
            match lang {
                Language::English => {
                    reveal_strlit("Quick Commands");
                    assert("Quick Commands"@.len() != "quick_cmds"@.len());
                },
                Language::ChineseSimplified => {
                    reveal_strlit("快速命令");
                    assert("快速命令"@.len() != "quick_cmds"@.len());
                },
                Language::ChineseTraditional => {
                    reveal_strlit("快速命令");
                    assert("快速命令"@.len() != "quick_cmds"@.len());
                },
                Language::Japanese => {
                    reveal_strlit("クイックコマンド");
                    assert("クイックコマンド"@.len() != "quick_cmds"@.len());
                },
                Language::Korean => {
                    reveal_strlit("빠른 명령어");
                    assert("빠른 명령어"@.len() != "quick_cmds"@.len());
                },
            }
        },
        TextKey::Copy => {
            reveal_strlit("copy");
            match lang {
                Language::English => {
                    reveal_strlit("Copy");
                    assert("Copy"@[0] != "copy"@[0]);
                },
                Language::ChineseSimplified => {
                    reveal_strlit("复制");
                    assert("复制"@.len() != "copy"@.len());
                },
                Language::ChineseTraditional => {
                    reveal_strlit("複製");
                    assert("複製"@.len() != "copy"@.len());
                },
                Language::Japanese => {
                    reveal_strlit("コピー");
                    assert("コピー"@.len() != "copy"@.len());
                },
                Language::Korean => {
                    reveal_strlit("복사");
                    assert("복사"@.len() != "copy"@.len());
                },
            }
        },
        TextKey::Refresh => {
            reveal_strlit("refresh");
            match lang {
                Language::English => {
                    reveal_strlit("Refresh");
                    assert("Refresh"@[0] != "refresh"@[0]);
                },
                Language::ChineseSimplified => {
                    reveal_strlit("刷新");
                    assert("刷新"@.len() != "refresh"@.len());
                },
                Language::ChineseTraditional => {
                    reveal_strlit("重新整理");
                    assert("重新整理"@.len() != "refresh"@.len());
                },
                Language::Japanese => {
                    reveal_strlit("更新");
                    assert("更新"@.len() != "refresh"@.len());
                },
                Language::Korean => {
                    reveal_strlit("새로고침");
                    assert("새로고침"@.len() != "refresh"@.len());
                },
            }
        },
        TextKey::Run => {
            reveal_strlit("run");
            match lang {
                Language::English => {
                    reveal_strlit("Run");
                    assert("Run"@[0] != "run"@[0]);
                },
                Language::ChineseSimplified => {
                    reveal_strlit("运行");
                    assert("运行"@.len() != "run"@.len());
                },
                Language::ChineseTraditional => {
                    reveal_strlit("執行");
                    assert("執行"@.len() != "run"@.len());
                },
                Language::Japanese => {
                    reveal_strlit("実行");
                    assert("実行"@.len() != "run"@.len());
                },
                Language::Korean => {
                    reveal_strlit("실행");
                    assert("실행"@.len() != "run"@.len());
                },
            }
        },
        TextKey::MoreCmds => {
            reveal_strlit("more_cmds");
            match lang {
                Language::English => {
                    reveal_strlit("More Commands...");
                    assert("More Commands..."@.len() != "more_cmds"@.len());
                },
                Language::ChineseSimplified => {
                    reveal_strlit("更多命令...");
                    assert("更多命令..."@.len() != "more_cmds"@.len());
                },
                Language::ChineseTraditional => {
                    reveal_strlit("更多命令...");
                    assert("更多命令..."@.len() != "more_cmds"@.len());
                },
                Language::Japanese => {
                    reveal_strlit("その他のコマンド...");
                    assert("その他のコマンド..."@.len() != "more_cmds"@.len());
                },
                Language::Korean => {
                    reveal_strlit("더 많은 명령어...");
                    assert("더 많은 명령어..."@.len() != "more_cmds"@.len());
                },
            }
        },
        TextKey::SavePreset => {
            reveal_strlit("save_preset");
            match lang {
                Language::English => {
                    reveal_strlit("Save Preset");
                    assert("Save Preset"@[0] != "save_preset"@[0]);
                },
                Language::ChineseSimplified => {
                    reveal_strlit("保存预设");
                    assert("保存预设"@.len() != "save_preset"@.len());
                },
                Language::ChineseTraditional => {
                    reveal_strlit("儲存預設");
                    assert("儲存預設"@.len() != "save_preset"@.len());
                },
                Language::Japanese => {
                    reveal_strlit("プリセットを保存");
                    assert("プリセットを保存"@.len() != "save_preset"@.len());
                },
                Language::Korean => {
                    reveal_strlit("프리셋 저장");
                    assert("프리셋 저장"@.len() != "save_preset"@.len());
                },
            }
        },
        TextKey::PresetName => {
            reveal_strlit("preset_name");
            match lang {
                Language::English => {
                    reveal_strlit("Preset Name:");
                    assert("Preset Name:"@.len() != "preset_name"@.len());
                },
                Language::ChineseSimplified => {
                    reveal_strlit("预设名称:");
                    assert("预设名称:"@.len() != "preset_name"@.len());
                },
                Language::ChineseTraditional => {
                    reveal_strlit("預設名稱:");
                    assert("預設名稱:"@.len() != "preset_name"@.len());
                },
                Language::Japanese => {
                    reveal_strlit("プリセット名:");
                    assert("プリセット名:"@.len() != "preset_name"@.len());
                },
                Language::Korean => {
                    reveal_strlit("프리셋 이름:");
                    assert("프리셋 이름:"@.len() != "preset_name"@.len());
                },
            }
        },
        TextKey::Description => {
            reveal_strlit("description");
            match lang {
                Language::English => {
                    reveal_strlit("Description:");
                    assert("Description:"@.len() != "description"@.len());
                },
                Language::ChineseSimplified => {
                    reveal_strlit("描述:");
                    assert("描述:"@.len() != "description"@.len());
                },
                Language::ChineseTraditional => {
                    reveal_strlit("描述:");
                    assert("描述:"@.len() != "description"@.len());
                },
                Language::Japanese => {
                    reveal_strlit("説明:");
                    assert("説明:"@.len() != "description"@.len());
                },
                Language::Korean => {
                    reveal_strlit("설명:");
                    assert("설명:"@.len() != "description"@.len());
                },
            }
        },
        TextKey::Cancel => {
            reveal_strlit("cancel");
            match lang {
                Language::English => {
                    reveal_strlit("Cancel");
                    assert("Cancel"@[0] != "cancel"@[0]);
                },
                Language::ChineseSimplified => {
                    reveal_strlit("取消");
                    assert("取消"@.len() != "cancel"@.len());
                },
                Language::ChineseTraditional => {
                    reveal_strlit("取消");
                    assert("取消"@.len() != "cancel"@.len());
                },
                Language::Japanese => {
                    reveal_strlit("キャンセル");
                    assert("キャンセル"@.len() != "cancel"@.len());
                },
                Language::Korean => {
                    reveal_strlit("취소");
                    assert("취소"@.len() != "cancel"@.len());
                },
            }
        },
        TextKey::AllCmds => {
            reveal_strlit("all_cmds");
            match lang {
                Language::English => {
                    reveal_strlit("All Commands");
                    assert("All Commands"@.len() != "all_cmds"@.len());
                },
                Language::ChineseSimplified => {
                    reveal_strlit("所有命令");
                    assert("所有命令"@.len() != "all_cmds"@.len());
                },
                Language::ChineseTraditional => {
                    reveal_strlit("所有命令");
                    assert("所有命令"@.len() != "all_cmds"@.len());
                },
                Language::Japanese => {
                    reveal_strlit("すべてのコマンド");
                    assert("すべてのコマンド"@[0] != "all_cmds"@[0]);
                },
                Language::Korean => {
                    reveal_strlit("모든 명령어");
                    assert("모든 명령어"@.len() != "all_cmds"@.len());
                },
            }
        },
        TextKey::Close => {
            reveal_strlit("close");
            match lang {
                Language::English => {
                    reveal_strlit("Close");
                    assert("Close"@[0] != "close"@[0]);
                },
                Language::ChineseSimplified => {
                    reveal_strlit("关闭");
                    assert("关闭"@.len() != "close"@.len());
                },
                Language::ChineseTraditional => {
                    reveal_strlit("閉");
                    assert("閉"@.len() != "close"@.len());
                },
                Language::Japanese => {
                    reveal_strlit("閉じる");
                    assert("閉じる"@.len() != "close"@.len());
                },
                Language::Korean => {
                    reveal_strlit("닫기");
                    assert("닫기"@.len() != "close"@.len());
                },
            }
        },
        TextKey::ModelServer => {
            reveal_strlit("model_server");
            match lang {
                Language::English => {
                    reveal_strlit("Model & Server");
                    assert("Model & Server"@.len() != "model_server"@.len());
                },
                Language::ChineseSimplified => {
                    reveal_strlit("模型与服务器");
                    assert("模型与服务器"@.len() != "model_server"@.len());
                },
                Language::ChineseTraditional => {
                    reveal_strlit("模型與伺服器");
                    assert("模型與伺服器"@.len() != "model_server"@.len());
                },
                Language::Japanese => {
                    reveal_strlit("モデルとサーバー");
                    assert("モデルとサーバー"@.len() != "model_server"@.len());
                },
                Language::Korean => {
                    reveal_strlit("모델 및 서버");
                    assert("모델 및 서버"@.len() != "model_server"@.len());
                },
            }
        },
        TextKey::Network => {
            reveal_strlit("network");
            match lang {
                Language::English => {
                    reveal_strlit("Network");
                    assert("Network"@[0] != "network"@[0]);
                },
                Language::ChineseSimplified => {
                    reveal_strlit("网络");
                    assert("网络"@.len() != "network"@.len());
                },
                Language::ChineseTraditional => {
                    reveal_strlit("網路");
                    assert("網路"@.len() != "network"@.len());
                },
                Language::Japanese => {
                    reveal_strlit("ネットワーク");
                    assert("ネットワーク"@.len() != "network"@.len());
                },
                Language::Korean => {
                    reveal_strlit("네트워크");
                    assert("네트워크"@.len() != "network"@.len());
                },
            }
        },
        TextKey::GpuMemory => {
            reveal_strlit("gpu_memory");
            match lang {
                Language::English => {
                    reveal_strlit("GPU & Memory");
                    assert("GPU & Memory"@.len() != "gpu_memory"@.len());
                },
                Language::ChineseSimplified => {
                    reveal_strlit("GPU与内存");
                    assert("GPU与内存"@.len() != "gpu_memory"@.len());
                },
                Language::ChineseTraditional => {
                    reveal_strlit("GPU與記憶體");
                    assert("GPU與記憶體"@.len() != "gpu_memory"@.len());
                },
                Language::Japanese => {
                    reveal_strlit("GPUとメモリ");
                    assert("GPUとメモリ"@.len() != "gpu_memory"@.len());
                },
                Language::Korean => {
                    reveal_strlit("GPU 및 메모리");
                    assert("GPU 및 메모리"@.len() != "gpu_memory"@.len());
                },
            }
        },
        TextKey::Performance => {
            reveal_strlit("performance");
            match lang {
                Language::English => {
                    reveal_strlit("Performance");
                    assert("Performance"@[0] != "performance"@[0]);
                },
                Language::ChineseSimplified => {
                    reveal_strlit("性能");
                    assert("性能"@.len() != "performance"@.len());
                },
                Language::ChineseTraditional => {
                    reveal_strlit("效能");
                    assert("效能"@.len() != "performance"@.len());
                },
                Language::Japanese => {
                    reveal_strlit("パフォーマンス");
                    assert("パフォーマンス"@.len() != "performance"@.len());
                },
                Language::Korean => {
                    reveal_strlit("성능");
                    assert("성능"@.len() != "performance"@.len());
                },
            }
        },
        TextKey::Options => {
            reveal_strlit("options");
            match lang {
                Language::English => {
                    reveal_strlit("Options");
                    assert("Options"@[0] != "options"@[0]);
                },
                Language::ChineseSimplified => {
                    reveal_strlit("选项");
                    assert("选项"@.len() != "options"@.len());
                },
                Language::ChineseTraditional => {
                    reveal_strlit("選項");
                    assert("選項"@.len() != "options"@.len());
                },
                Language::Japanese => {
                    reveal_strlit("オプション");
                    assert("オプション"@.len() != "options"@.len());
                },
                Language::Korean => {
                    reveal_strlit("옵션");
                    assert("옵션"@.len() != "options"@.len());
                },
            }
        },
        TextKey::StatusRunning => {
            reveal_strlit("status_running");
            match lang {
                Language::English => {
                    reveal_strlit("Running");
                    assert("Running"@.len() != "status_running"@.len());
                },
                Language::ChineseSimplified => {
                    reveal_strlit("运行中");
                    assert("运行中"@.len() != "status_running"@.len());
                },
                Language::ChineseTraditional => {
                    reveal_strlit("執行中");
                    assert("執行中"@.len() != "status_running"@.len());
                },
                Language::Japanese => {
                    reveal_strlit("実行中");
                    assert("実行中"@.len() != "status_running"@.len());
                },
                Language::Korean => {
                    reveal_strlit("실행 중");
                    assert("실행 중"@.len() != "status_running"@.len());
                },
            }
        },
        TextKey::StatusStopped => {
            reveal_strlit("status_stopped");
            match lang {
                Language::English => {
                    reveal_strlit("Stopped");
                    assert("Stopped"@.len() != "status_stopped"@.len());
                },
                Language::ChineseSimplified => {
                    reveal_strlit("已停止");
                    assert("已停止"@.len() != "status_stopped"@.len());
                },
                Language::ChineseTraditional => {
                    reveal_strlit("已停止");
                    assert("已停止"@.len() != "status_stopped"@.len());
                },
                Language::Japanese => {
                    reveal_strlit("停止");
                    assert("停止"@.len() != "status_stopped"@.len());
                },
                Language::Korean => {
                    reveal_strlit("중지됨");
                    assert("중지됨"@.len() != "status_stopped"@.len());
                },
            }
        },
        TextKey::ServerStarted => {
            reveal_strlit("server_started");
            match lang {
                Language::English => {
                    reveal_strlit("Server started");
                    assert("Server started"@[0] != "server_started"@[0]);
                },
                Language::ChineseSimplified => {
                    reveal_strlit("服务器已启动");
                    assert("服务器已启动"@.len() != "server_started"@.len());
                },
                Language::ChineseTraditional => {
                    reveal_strlit("伺服器已啟動");
                    assert("伺服器已啟動"@.len() != "server_started"@.len());
                },
                Language::Japanese => {
                    reveal_strlit("サーバーを開始しました");
                    assert("サーバーを開始しました"@.len() != "server_started"@.len());
                },
                Language::Korean => {
                    reveal_strlit("서버가 시작되었습니다");
                    assert("서버가 시작되었습니다"@.len() != "server_started"@.len());
                },
            }
        },
        TextKey::ServerStopped => {
            reveal_strlit("server_stopped");
            match lang {
                Language::English => {
                    reveal_strlit("Server stopped");
                    assert("Server stopped"@[0] != "server_stopped"@[0]);
                },
                Language::ChineseSimplified => {
                    reveal_strlit("服务器已停止");
                    assert("服务器已停止"@.len() != "server_stopped"@.len());
                },
                Language::ChineseTraditional => {
                    reveal_strlit("伺服器已停止");
                    assert("伺服器已停止"@.len() != "server_stopped"@.len());
                },
                Language::Japanese => {
                    reveal_strlit("サーバーを停止しました");
                    assert("サーバーを停止しました"@.len() != "server_stopped"@.len());
                },
                Language::Korean => {
                    reveal_strlit("서버가 중지되었습니다");
                    assert("서버가 중지되었습니다"@.len() != "server_stopped"@.len());
                },
            }
        },
        TextKey::ServerCrashed => {
            reveal_strlit("server_crashed");
            match lang {
                Language::English => {
                    reveal_strlit("Server process ended unexpectedly");
                    assert("Server process ended unexpectedly"@.len() != "server_crashed"@.len());
                },
                Language::ChineseSimplified => {
                    reveal_strlit("服务器异常终止");
                    assert("服务器异常终止"@.len() != "server_crashed"@.len());
                },
                Language::ChineseTraditional => {
                    reveal_strlit("伺服器異常終止");
                    assert("伺服器異常終止"@.len() != "server_crashed"@.len());
                },
                Language::Japanese => {
                    reveal_strlit("サーバーが異常終了しました");
                    assert("サーバーが異常終了しました"@.len() != "server_crashed"@.len());
                },
                Language::Korean => {
                    reveal_strlit("서버가 예기치 않게 종료되었습니다");
                    assert("서버가 예기치 않게 종료되었습니다"@.len() != "server_crashed"@.len());
                },
            }
        },
        TextKey::PresetApplied => {
            reveal_strlit("preset_applied");
            match lang {
                Language::English => {
                    reveal_strlit("Applied:");
                    assert("Applied:"@.len() != "preset_applied"@.len());
                },
                Language::ChineseSimplified => {
                    reveal_strlit("已应用:");
                    assert("已应用:"@.len() != "preset_applied"@.len());
                },
                Language::ChineseTraditional => {
                    reveal_strlit("已套用:");
                    assert("已套用:"@.len() != "preset_applied"@.len());
                },
                Language::Japanese => {
                    reveal_strlit("適用済み:");
                    assert("適用済み:"@.len() != "preset_applied"@.len());
                },
                Language::Korean => {
                    reveal_strlit("적용됨:");
                    assert("적용됨:"@.len() != "preset_applied"@.len());
                },
            }
        },
        TextKey::PresetSaved => {
            reveal_strlit("preset_saved");
            match lang {
                Language::English => {
                    reveal_strlit("Preset saved");
                    assert("Preset saved"@[0] != "preset_saved"@[0]);
                },
                Language::ChineseSimplified => {
                    reveal_strlit("预设已保存");
                    assert("预设已保存"@.len() != "preset_saved"@.len());
                },
                Language::ChineseTraditional => {
                    reveal_strlit("預設已儲存");
                    assert("預設已儲存"@.len() != "preset_saved"@.len());
                },
                Language::Japanese => {
                    reveal_strlit("プリセットを保存しました");
                    assert("プリセットを保存しました"@[0] != "preset_saved"@[0]);
                },
                Language::Korean => {
                    reveal_strlit("프리셋이 저장되었습니다");
                    assert("프리셋이 저장되었습니다"@[0] != "preset_saved"@[0]);
                },
            }
        },
        TextKey::ConsoleCleared => {
            reveal_strlit("console_cleared");
            match lang {
                Language::English => {
                    reveal_strlit("Console cleared");
                    assert("Console cleared"@[0] != "console_cleared"@[0]);
                },
                Language::ChineseSimplified => {
                    reveal_strlit("控制台已清空");
                    assert("控制台已清空"@.len() != "console_cleared"@.len());
                },
                Language::ChineseTraditional => {
                    reveal_strlit("控制台已清空");
                    assert("控制台已清空"@.len() != "console_cleared"@.len());
                },
                Language::Japanese => {
                    reveal_strlit("コンソールをクリアしました");
                    assert("コンソールをクリアしました"@.len() != "console_cleared"@.len());
                },
                Language::Korean => {
                    reveal_strlit("콘솔이 지워졌습니다");
                    assert("콘솔이 지워졌습니다"@.len() != "console_cleared"@.len());
                },
            }
        },
        TextKey::UnknownCmd => {
            reveal_strlit("unknown_cmd");
            match lang {
                Language::English => {
                    reveal_strlit("Unknown command:");
                    assert("Unknown command:"@.len() != "unknown_cmd"@.len());
                },
                Language::ChineseSimplified => {
                    reveal_strlit("未知命令:");
                    assert("未知命令:"@.len() != "unknown_cmd"@.len());
                },
                Language::ChineseTraditional => {
                    reveal_strlit("未知命令:");
                    assert("未知命令:"@.len() != "unknown_cmd"@.len());
                },
                Language::Japanese => {
                    reveal_strlit("不明なコマンド:");
                    assert("不明なコマンド:"@.len() != "unknown_cmd"@.len());
                },
                Language::Korean => {
                    reveal_strlit("알 수 없는 명령어:");
                    assert("알 수 없는 명령어:"@[0] != "unknown_cmd"@[0]);
                },
            }
        },
        TextKey::Theme => {
            reveal_strlit("theme");
            match lang {
                Language::English => {
                    reveal_strlit("Theme");
                    assert("Theme"@[0] != "theme"@[0]);
                },
                Language::ChineseSimplified => {
                    reveal_strlit("主题");
                    assert("主题"@.len() != "theme"@.len());
                },
                Language::ChineseTraditional => {
                    reveal_strlit("主題");
                    assert("主題"@.len() != "theme"@.len());
                },
                Language::Japanese => {
                    reveal_strlit("テーマ");
                    assert("テーマ"@.len() != "theme"@.len());
                },
                Language::Korean => {
                    reveal_strlit("테마");
                    assert("테마"@.len() != "theme"@.len());
                },
            }
        },
        TextKey::ApiUrl => {
            reveal_strlit("api_url");
            match lang {
                Language::English => {
                    reveal_strlit("API URL");
                    assert("API URL"@[0] != "api_url"@[0]);
                },
                Language::ChineseSimplified => {
                    reveal_strlit("API地址");
                    assert("API地址"@.len() != "api_url"@.len());
                },
                Language::ChineseTraditional => {
                    reveal_strlit("API位址");
                    assert("API位址"@.len() != "api_url"@.len());
                },
                Language::Japanese => {
                    reveal_strlit("API URL");
                    assert("API URL"@[0] != "api_url"@[0]);
                },
                Language::Korean => {
                    reveal_strlit("API URL");
                    assert("API URL"@[0] != "api_url"@[0]);
                },
            }
        },
        TextKey::WillApplyNext => {
            reveal_strlit("will_apply_next");
            match lang {
                Language::English => {
                    reveal_strlit("Runtime params will be applied on next API call");
                    assert("Runtime params will be applied on next API call"@.len() != "will_apply_next"@.len());
                },
                Language::ChineseSimplified => {
                    reveal_strlit("运行时参数将在每次API请求时应用");
                    assert("运行时参数将在每次API请求时应用"@.len() != "will_apply_next"@.len());
                },
                Language::ChineseTraditional => {
                    reveal_strlit("執行時參數將在每次API請求時套用");
                    assert("執行時參數將在每次API請求時套用"@.len() != "will_apply_next"@.len());
                },
                Language::Japanese => {
                    reveal_strlit("実行時パラメータは各APIリクエスト時に適用されます");
                    assert("実行時パラメータは各APIリクエスト時に適用されます"@.len() != "will_apply_next"@.len());
                },
                Language::Korean => {
                    reveal_strlit("런타임 매개변수는 각 API 요청 시 적용됩니다");
                    assert("런타임 매개변수는 각 API 요청 시 적용됩니다"@.len() != "will_apply_next"@.len());
                },
            }
        },
        TextKey::LaunchNeedRestart => {
            reveal_strlit("launch_need_restart");
            match lang {
                Language::English => {
                    reveal_strlit("Launch params require restart to take effect");
                    assert("Launch params require restart to take effect"@.len() != "launch_need_restart"@.len());
                },
                Language::ChineseSimplified => {
                    reveal_strlit("启动参数需重启服务后生效");
                    assert("启动参数需重启服务后生效"@.len() != "launch_need_restart"@.len());
                },
                Language::ChineseTraditional => {
                    reveal_strlit("啟動參數需重啟服務後生效");
                    assert("啟動參數需重啟服務後生效"@.len() != "launch_need_restart"@.len());
                },
                Language::Japanese => {
                    reveal_strlit("起動パラメータは再起動後に有効になります");
                    assert("起動パラメータは再起動後に有効になります"@.len() != "launch_need_restart"@.len());
                },
                Language::Korean => {
                    reveal_strlit("시작 매개변수는 재시작 후 적용됩니다");
                    assert("시작 매개변수는 재시작 후 적용됩니다"@.len() != "launch_need_restart"@.len());
                },
            }
        },
        TextKey::RuntimePerRequest => {
            reveal_strlit("runtime_per_request");
            match lang {
                Language::English => {
                    reveal_strlit("Runtime params apply per API request");
                    assert("Runtime params apply per API request"@.len() != "runtime_per_request"@.len());
                },
                Language::ChineseSimplified => {
                    reveal_strlit("运行时参数在每次API请求时传入");
                    assert("运行时参数在每次API请求时传入"@.len() != "runtime_per_request"@.len());
                },
                Language::ChineseTraditional => {
                    reveal_strlit("執行時參數在每次API請求時傳入");
                    assert("執行時參數在每次API請求時傳入"@.len() != "runtime_per_request"@.len());
                },
                Language::Japanese => {
                    reveal_strlit("実行時パラメータは各APIリクエストで渡されます");
                    assert("実行時パラメータは各APIリクエストで渡されます"@.len() != "runtime_per_request"@.len());
                },
                Language::Korean => {
                    reveal_strlit("런타임 매개변수는 각 API 요청에 전달됩니다");
                    assert("런타임 매개변수는 각 API 요청에 전달됩니다"@.len() != "runtime_per_request"@.len());
                },
            }
        },
        TextKey::ForceOverwrite => {
            reveal_strlit("force_overwrite");
            match lang {
                Language::English => {
                    reveal_strlit("Force Overwrite");
                    assert("Force Overwrite"@[0] != "force_overwrite"@[0]);
                },
                Language::ChineseSimplified => {
                    reveal_strlit("强制覆盖");
                    assert("强制覆盖"@.len() != "force_overwrite"@.len());
                },
                Language::ChineseTraditional => {
                    reveal_strlit("強制覆蓋");
                    assert("強制覆蓋"@.len() != "force_overwrite"@.len());
                },
                Language::Japanese => {
                    reveal_strlit("強制上書き");
                    assert("強制上書き"@.len() != "force_overwrite"@.len());
                },
                Language::Korean => {
                    reveal_strlit("강제 덮어쓰기");
                    assert("강제 덮어쓰기"@.len() != "force_overwrite"@.len());
                },
            }
        },
        TextKey::RestoreDefault => {
            reveal_strlit("restore_default");
            match lang {
                Language::English => {
                    reveal_strlit("Restore Default");
                    assert("Restore Default"@[0] != "restore_default"@[0]);
                },
                Language::ChineseSimplified => {
                    reveal_strlit("还原默认");
                    assert("还原默认"@.len() != "restore_default"@.len());
                },
                Language::ChineseTraditional => {
                    reveal_strlit("還原預設");
                    assert("還原預設"@.len() != "restore_default"@.len());
                },
                Language::Japanese => {
                    reveal_strlit("デフォルトに戻す");
                    assert("デフォルトに戻す"@.len() != "restore_default"@.len());
                },
                Language::Korean => {
                    reveal_strlit("기본값 복원");
                    assert("기본값 복원"@.len() != "restore_default"@.len());
                },
            }
        },
        TextKey::DeletePreset => {
            reveal_strlit("delete_preset");
            match lang {
                Language::English => {
                    reveal_strlit("Delete");
                    assert("Delete"@.len() != "delete_preset"@.len());
                },
                Language::ChineseSimplified => {
                    reveal_strlit("删除");
                    assert("删除"@.len() != "delete_preset"@.len());
                },
                Language::ChineseTraditional => {
                    reveal_strlit("刪除");
                    assert("刪除"@.len() != "delete_preset"@.len());
                },
                Language::Japanese => {
                    reveal_strlit("削除");
                    assert("削除"@.len() != "delete_preset"@.len());
                },
                Language::Korean => {
                    reveal_strlit("삭제");
                    assert("삭제"@.len() != "delete_preset"@.len());
                },
            }
        },
        TextKey::ConfirmDelete => {
            reveal_strlit("confirm_delete");
            match lang {
                Language::English => {
                    reveal_strlit("Confirm delete?");
                    assert("Confirm delete?"@.len() != "confirm_delete"@.len());
                },
                Language::ChineseSimplified => {
                    reveal_strlit("确认删除？");
                    assert("确认删除？"@.len() != "confirm_delete"@.len());
                },
                Language::ChineseTraditional => {
                    reveal_strlit("確認刪除？");
                    assert("確認刪除？"@.len() != "confirm_delete"@.len());
                },
                Language::Japanese => {
                    reveal_strlit("削除しますか？");
                    assert("削除しますか？"@.len() != "confirm_delete"@.len());
                },
                Language::Korean => {
                    reveal_strlit("삭제하시겠습니까?");
                    assert("삭제하시겠습니까?"@.len() != "confirm_delete"@.len());
                },
            }
        },
        TextKey::PresetRestored => {
            reveal_strlit("preset_restored");
            match lang {
                Language::English => {
                    reveal_strlit("Preset restored to default");
                    assert("Preset restored to default"@.len() != "preset_restored"@.len());
                },
                Language::ChineseSimplified => {
                    reveal_strlit("预设已还原为默认值");
                    assert("预设已还原为默认值"@.len() != "preset_restored"@.len());
                },
                Language::ChineseTraditional => {
                    reveal_strlit("預設已還原為預設值");
                    assert("預設已還原為預設值"@.len() != "preset_restored"@.len());
                },
                Language::Japanese => {
                    reveal_strlit("プリセットをデフォルトに戻しました");
                    assert("プリセットをデフォルトに戻しました"@.len() != "preset_restored"@.len());
                },
                Language::Korean => {
                    reveal_strlit("프리셋이 기본값으로 복원되었습니다");
                    assert("프리셋이 기본값으로 복원되었습니다"@.len() != "preset_restored"@.len());
                },
            }
        },
        TextKey::PresetOverwritten => {
            reveal_strlit("preset_overwritten");
            match lang {
                Language::English => {
                    reveal_strlit("Preset overwritten");
                    assert("Preset overwritten"@[0] != "preset_overwritten"@[0]);
                },
                Language::ChineseSimplified => {
                    reveal_strlit("预设已被强制覆盖");
                    assert("预设已被强制覆盖"@.len() != "preset_overwritten"@.len());
                },
                Language::ChineseTraditional => {
                    reveal_strlit("預設已被強制覆蓋");
                    assert("預設已被強制覆蓋"@.len() != "preset_overwritten"@.len());
                },
                Language::Japanese => {
                    reveal_strlit("プリセットを強制上書きしました");
                    assert("プリセットを強制上書きしました"@.len() != "preset_overwritten"@.len());
                },
                Language::Korean => {
                    reveal_strlit("프리셋이 강제 덮어쓰기되었습니다");
                    assert("프리셋이 강제 덮어쓰기되었습니다"@.len() != "preset_overwritten"@.len());
                },
            }
        },
        TextKey::PresetDeleted => {
            reveal_strlit("preset_deleted");
            match lang {
                Language::English => {
                    reveal_strlit("Preset deleted");
                    assert("Preset deleted"@[0] != "preset_deleted"@[0]);
                },
                Language::ChineseSimplified => {
                    reveal_strlit("预设已删除");
                    assert("预设已删除"@.len() != "preset_deleted"@.len());
                },
                Language::ChineseTraditional => {
                    reveal_strlit("預設已刪除");
                    assert("預設已刪除"@.len() != "preset_deleted"@.len());
                },
                Language::Japanese => {
                    reveal_strlit("プリセットを削除しました");
                    assert("プリセットを削除しました"@.len() != "preset_deleted"@.len());
                },
                Language::Korean => {
                    reveal_strlit("프리셋이 삭제되었습니다");
                    assert("프리셋이 삭제되었습니다"@.len() != "preset_deleted"@.len());
                },
            }
        },
        TextKey::CannotDeleteLast => {
            reveal_strlit("cannot_delete_last");
            match lang {
                Language::English => {
                    reveal_strlit("Cannot delete the last preset");
                    assert("Cannot delete the last preset"@.len() != "cannot_delete_last"@.len());
                },
                Language::ChineseSimplified => {
                    reveal_strlit("无法删除最后一个预设");
                    assert("无法删除最后一个预设"@.len() != "cannot_delete_last"@.len());
                },
                Language::ChineseTraditional => {
                    reveal_strlit("無法刪除最後一個預設");
                    assert("無法刪除最後一個預設"@.len() != "cannot_delete_last"@.len());
                },
                Language::Japanese => {
                    reveal_strlit("最後のプリセットは削除できません");
                    assert("最後のプリセットは削除できません"@.len() != "cannot_delete_last"@.len());
                },
                Language::Korean => {
                    reveal_strlit("마지막 프리셋은 삭제할 수 없습니다");
                    assert("마지막 프리셋은 삭제할 수 없습니다"@.len() != "cannot_delete_last"@.len());
                },
            }
        },
        TextKey::CtxPerSeqWarn => {
            reveal_strlit("ctx_per_seq_warn");
            match lang {
                Language::English => {
                    reveal_strlit("ctx per seq = total ÷ parallel");
                    assert("ctx per seq = total ÷ parallel"@.len() != "ctx_per_seq_warn"@.len());
                },
                Language::ChineseSimplified => {
                    reveal_strlit("每序列上下文 = 总量 ÷ 并行数");
                    assert("每序列上下文 = 总量 ÷ 并行数"@.len() != "ctx_per_seq_warn"@.len());
                },
                Language::ChineseTraditional => {
                    reveal_strlit("每序列上下文 = 總量 ÷ 並行數");
                    assert("每序列上下文 = 總量 ÷ 並行數"@.len() != "ctx_per_seq_warn"@.len());
                },
                Language::Japanese => {
                    reveal_strlit("シーケンスあたりctx = 合計 ÷ パラレル");
                    assert("シーケンスあたりctx = 合計 ÷ パラレル"@.len() != "ctx_per_seq_warn"@.len());
                },
                Language::Korean => {
                    reveal_strlit("시퀀스당 ctx = 합계 ÷ 병렬");
                    assert("시퀀스당 ctx = 합계 ÷ 병렬"@.len() != "ctx_per_seq_warn"@.len());
                },
            }
        },
        TextKey::ServerStartCmd => {
            reveal_strlit("server_start_cmd");
            match lang {
                Language::English => {
                    reveal_strlit("Start command:");
                    assert("Start command:"@.len() != "server_start_cmd"@.len());
                },
                Language::ChineseSimplified => {
                    reveal_strlit("启动命令:");
                    assert("启动命令:"@.len() != "server_start_cmd"@.len());
                },
                Language::ChineseTraditional => {
                    reveal_strlit("啟動命令:");
                    assert("啟動命令:"@.len() != "server_start_cmd"@.len());
                },
                Language::Japanese => {
                    reveal_strlit("起動コマンド:");
                    assert("起動コマンド:"@.len() != "server_start_cmd"@.len());
                },
                Language::Korean => {
                    reveal_strlit("시작 명령:");
                    assert("시작 명령:"@.len() != "server_start_cmd"@.len());
                },
            }
        },
    }
}

/// Every key that English translates is translated, by a phrase that is
/// not empty, in every language: no phrase is missing from a table.
pub proof fn lemma_translated_in_every_language(key: Seq<char>, lang: Language)
    requires
        translate_key(Language::English, key) != key,
    ensures
        translate_key(lang, key) != key,
        translate_key(lang, key).len() > 0,
{
    lemma_lookup_gives_key(key);
    let k = lookup_key(key)->0;
    lemma_phrase_differs_from_key(lang, k);
}

} // verus!
