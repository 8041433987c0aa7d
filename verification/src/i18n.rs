//! Interface language and message tables.
//!
//! The language in force lives in a [`LangState`]: it starts undecided and is
//! fixed by [`init`], by the first [`lang`] query (automatic detection), or
//! switched by [`toggle`]. Automatic detection prefers the language override
//! from the environment and falls back to the system locale.

use vstd::prelude::*;
use vstd::string::*;
use crate::text::{decimal, digit_char, push_decimal, seq_starts_with, str_eq, str_starts_with};

verus! {

/// An interface language.
#[derive(Clone, Copy, PartialEq, Eq, Structural, Debug)]
pub enum Lang {
    Zh,
    En,
}

impl Lang {
    /// The other language.
    pub open spec fn flipped(self) -> Lang {
        match self {
            Lang::Zh => Lang::En,
            Lang::En => Lang::Zh,
        }
    }
}

/// The language setting of a running program.
pub struct LangState {
    /// The language in force, once it has been decided.
    pub current: Option<Lang>,
    /// The value of the language override in the environment, if it is set.
    pub env_lang: Option<String>,
    /// The system's preferred locale, if one was found.
    pub locale: Option<String>,
}

impl LangState {
    /// An undecided setting, with the environment's override and the
    /// system locale (if any).
    pub fn new(env_lang: Option<String>, locale: Option<String>) -> (s: LangState)
        ensures
            s.current is None,
            s.env_lang == env_lang,
            s.locale == locale,
    {
        LangState { current: None, env_lang, locale }
    }

    /// An undecided setting, with the environment's override (if any) and
    /// the locale the system reports now.
    pub fn with_system_locale(env_lang: Option<String>) -> (s: LangState)
        ensures
            s.current is None,
            s.env_lang == env_lang,
    {
        LangState::new(env_lang, system_locale())
    }
}

/// The lower-case form of `s`, as `str::to_lowercase` computes it.
pub uninterp spec fn lowercase(s: Seq<char>) -> Seq<char>;

/// Calls `str::to_lowercase`. Claimed: the result's characters are the
/// Unicode lower-case mapping of `s`, which depends on `s` alone and is
/// named `lowercase`; nothing more is said of it here.
#[verifier::external_body]
fn to_lowercase(s: &str) -> (r: String)
    ensures
        r@ == lowercase(s@),
{
    s.to_lowercase()
}

/// The language a lower-cased language tag names: English for the English
/// tags, Chinese for anything else.
pub open spec fn lang_of_lowercase(s: Seq<char>) -> Lang {
    if s == "en"@ || s == "en-us"@ || s == "en-gb"@ || s == "english"@ {
        Lang::En
    } else {
        Lang::Zh
    }
}

/// The language named by an already lower-cased tag.
pub fn lang_from_lowercase(s: &str) -> (l: Lang)
    ensures
        l == lang_of_lowercase(s@),
{
    if str_eq(s, "en") || str_eq(s, "en-us") || str_eq(s, "en-gb") || str_eq(s, "english") {
        Lang::En
    } else {
        Lang::Zh
    }
}

/// The language named by a tag, compared without regard to case.
pub fn lang_from_str(s: &str) -> (l: Lang)
    ensures
        l == lang_of_lowercase(lowercase(s@)),
{
    let lower = to_lowercase(s);
    lang_from_lowercase(lower.as_str())
}

/// The language chosen from a system locale: Chinese for a `zh` locale or
/// when no locale is known, English otherwise.
pub open spec fn lang_of_locale(locale: Option<Seq<char>>) -> Lang {
    match locale {
        Some(l) => if seq_starts_with(l, "zh"@) {
            Lang::Zh
        } else {
            Lang::En
        },
        None => Lang::Zh,
    }
}

/// The language chosen from a system locale.
pub fn lang_from_locale(locale: Option<&str>) -> (l: Lang)
    ensures
        l == lang_of_locale(
            match locale {
                Some(s) => Some(s@),
                None => None,
            },
        ),
{
    match locale {
        Some(s) => if str_starts_with(s, "zh") {
            Lang::Zh
        } else {
            Lang::En
        },
        None => Lang::Zh,
    }
}

/// Calls `sys_locale::get_locale`, the system's preferred locale as a
/// language tag, or `None` when it cannot be found. What it returns depends
/// on the machine and its settings, so nothing is claimed of it.
#[verifier::external_body]
fn system_locale() -> (r: Option<String>) {
    sys_locale::get_locale()
}

/// The view of an optional text.
pub open spec fn opt_view(s: Option<String>) -> Option<Seq<char>> {
    match s {
        Some(v) => Some(v@),
        None => None,
    }
}

/// Automatic detection: the environment's override if it is set, else the
/// language of the system locale.
pub open spec fn detected_lang(env_lang: Option<String>, locale: Option<String>) -> Lang {
    match env_lang {
        Some(v) => lang_of_lowercase(lowercase(v@)),
        None => lang_of_locale(opt_view(locale)),
    }
}

/// Automatic detection: the environment's override if set, else the
/// system locale.
fn auto_detect(env_lang: &Option<String>, locale: &Option<String>) -> (l: Lang)
    ensures
        l == detected_lang(*env_lang, *locale),
{
    match env_lang {
        Some(v) => lang_from_str(v.as_str()),
        None => match locale {
            Some(loc) => lang_from_locale(Some(loc.as_str())),
            None => lang_from_locale(None),
        },
    }
}

/// The language a query of `s` answers: the decided language, or, while
/// undecided, what automatic detection gives.
pub open spec fn resolved(s: LangState) -> Lang {
    match s.current {
        Some(c) => c,
        None => detected_lang(s.env_lang, s.locale),
    }
}

/// `post` keeps the environment's override and locale of `pre`.
pub open spec fn same_sources(pre: LangState, post: LangState) -> bool {
    post.env_lang == pre.env_lang && post.locale == pre.locale
}

/// An explicit language request: present, not empty, and not `auto`.
pub open spec fn explicit_hint(hint: Option<&str>) -> bool {
    match hint {
        Some(s) => s@.len() > 0 && s@ != "auto"@,
        None => false,
    }
}

/// `post` is `pre` after deciding the language from the request `hint`.
pub open spec fn initialized(pre: LangState, hint: Option<&str>, post: LangState) -> bool {
    &&& same_sources(pre, post)
    &&& post.current == Some(
        if explicit_hint(hint) {
            lang_of_lowercase(lowercase(hint.unwrap()@))
        } else {
            detected_lang(pre.env_lang, pre.locale)
        },
    )
}

/// Decides the language: the explicit request if there is one, else by
/// automatic detection.
pub fn init(state: &mut LangState, lang_hint: Option<&str>)
    ensures
        initialized(*old(state), lang_hint, *final(state)),
        same_sources(*old(state), *final(state)),
        final(state).current == Some(
            if explicit_hint(lang_hint) {
                lang_of_lowercase(lowercase(lang_hint.unwrap()@))
            } else {
                detected_lang(old(state).env_lang, old(state).locale)
            },
        ),
{
    let l = match lang_hint {
        Some(s) => {
            if !s.is_empty() && !str_eq(s, "auto") {
                lang_from_str(s)
            } else {
                auto_detect(&state.env_lang, &state.locale)
            }
        },
        None => auto_detect(&state.env_lang, &state.locale),
    };
    state.current = Some(l);
}

/// The language in force; an undecided setting is decided here by
/// automatic detection.
pub fn lang(state: &mut LangState) -> (l: Lang)
    ensures
        same_sources(*old(state), *final(state)),
        l == resolved(*old(state)),
        final(state).current == Some(l),
{
    match state.current {
        Some(c) => c,
        None => {
            let detected = auto_detect(&state.env_lang, &state.locale);
            state.current = Some(detected);
            detected
        },
    }
}

/// `post` is `pre` with the language switched to the other one.
pub open spec fn toggled(pre: LangState, post: LangState) -> bool {
    &&& same_sources(pre, post)
    &&& post.current == Some(resolved(pre).flipped())
}

/// Switches to the other language.
pub fn toggle(state: &mut LangState)
    ensures
        toggled(*old(state), *final(state)),
{
    let current = lang(state);
    let new_lang = match current {
        Lang::Zh => Lang::En,
        Lang::En => Lang::Zh,
    };
    state.current = Some(new_lang);
}

/// Flipping twice gives the language back, and never gives the same one.
pub proof fn lemma_flip_involution(l: Lang)
    ensures
        l.flipped().flipped() == l,
        l.flipped() != l,
{
}

/// Toggling twice restores the language in force, and the first toggle
/// changes it.
pub proof fn law_toggle_twice_restores(s0: LangState, s1: LangState, s2: LangState)
    requires
        toggled(s0, s1),
        toggled(s1, s2),
    ensures
        s2.current == Some(resolved(s0)),
        same_sources(s0, s2),
        resolved(s1) != resolved(s0),
{
    lemma_flip_involution(resolved(s0));
}

/// A query answers the decided language as it stands, and only an
/// undecided setting is answered by automatic detection; right after
/// `init`, that is the explicit request's language, if there was one.
pub proof fn law_query_answers_the_decision(s: LangState, pre: LangState, hint: Option<&str>)
    ensures
        s.current matches Some(l) ==> resolved(s) == l,
        s.current is None ==> resolved(s) == detected_lang(s.env_lang, s.locale),
        initialized(pre, hint, s) && explicit_hint(hint) ==> resolved(s) == lang_of_lowercase(
            lowercase(hint.unwrap()@),
        ),
{
}

/// A query leaves the answer fixed: asking again gives the same language.
pub proof fn law_language_is_stable(s0: LangState, s1: LangState)
    requires
        same_sources(s0, s1),
        s1.current == Some(resolved(s0)),
    ensures
        resolved(s1) == resolved(s0),
{
}

/// Fixed messages.
#[derive(Clone, Copy, Debug)]
#[allow(non_camel_case_types)]
pub enum Key {
    target_process_label,
    memory_usage_label,
    usage_label,
    threshold_label,
    refresh_interval_label,
    auto_cleanup_label,
    auto_cleanup_enabled,
    system_status,
    system_info,
    pid_header,
    process_name_header,
    cpu_header,
    memory_header,
    help_up,
    help_down,
    help_kill_selected,
    help_kill_high_mem,
    help_refresh,
    help_quit,
    help_lang,
    confirm_cleanup,
    confirm_kill_selected,
    confirm_yes,
    confirm_no,
    msg_refreshed,
    msg_lang_switched,
    cli_starting,
    cli_kill_error,
    cli_hint_once,
    err_kill_failed,
    err_sigkill_failed,
}

/// The fixed text shown for `key` in language `lang`.
pub open spec fn key_text(lang: Lang, key: Key) -> Seq<char> {
    match lang {
        Lang::Zh => match key {
            Key::target_process_label => "目标进程"@,
            Key::memory_usage_label => "内存使用"@,
            Key::usage_label => "使用率"@,
            Key::threshold_label => "阈值"@,
            Key::refresh_interval_label => "刷新间隔"@,
            Key::auto_cleanup_label => "自动清理"@,
            Key::auto_cleanup_enabled => "开启 · 清理内存最高 40%"@,
            Key::system_status => "系统状态"@,
            Key::system_info => "系统信息"@,
            Key::pid_header => "PID"@,
            Key::process_name_header => "进程名"@,
            Key::cpu_header => "CPU"@,
            Key::memory_header => "内存"@,
            Key::help_up => " 上 "@,
            Key::help_down => " 下 "@,
            Key::help_kill_selected => " 杀死选中 "@,
            Key::help_kill_high_mem => " 清理高内存(40%) "@,
            Key::help_refresh => " 刷新 "@,
            Key::help_quit => " 退出"@,
            Key::help_lang => " 切换语言"@,
            Key::confirm_cleanup => "确认清理内存最高的 40% 进程? "@,
            Key::confirm_kill_selected => "确认杀死选中进程? "@,
            Key::confirm_yes => " 是 "@,
            Key::confirm_no => " 否"@,
            Key::msg_refreshed => "» 已刷新"@,
            Key::msg_lang_switched => "● 语言已切换为中文"@,
            Key::cli_starting => "🚀 ra-killer 启动"@,
            Key::cli_kill_error => "❌ 杀死进程时出错"@,
            Key::cli_hint_once => "  💡 提示: 使用 --once 或 -o 参数可以只运行一次检查"@,
            Key::err_kill_failed => "kill 命令失败"@,
            Key::err_sigkill_failed => "SIGKILL 失败"@,
        },
        Lang::En => match key {
            Key::target_process_label => "TARGET"@,
            Key::memory_usage_label => "MEMORY"@,
            Key::usage_label => "USAGE"@,
            Key::threshold_label => "THRESHOLD"@,
            Key::refresh_interval_label => "REFRESH"@,
            Key::auto_cleanup_label => "AUTO CLEANUP"@,
            Key::auto_cleanup_enabled => "ON · kill top 40% memory"@,
            Key::system_status => "SYSTEM STATUS"@,
            Key::system_info => "SYSTEM INFO"@,
            Key::pid_header => "PID"@,
            Key::process_name_header => "PROCESS"@,
            Key::cpu_header => "CPU"@,
            Key::memory_header => "MEMORY"@,
            Key::help_up => " Up "@,
            Key::help_down => " Down "@,
            Key::help_kill_selected => " Kill Sel "@,
            Key::help_kill_high_mem => " Kill Top 40% "@,
            Key::help_refresh => " Refresh "@,
            Key::help_quit => " Quit"@,
            Key::help_lang => " Language"@,
            Key::confirm_cleanup => "Confirm kill top 40% memory processes? "@,
            Key::confirm_kill_selected => "Confirm kill selected process? "@,
            Key::confirm_yes => " Yes "@,
            Key::confirm_no => " No"@,
            Key::msg_refreshed => "» Refreshed"@,
            Key::msg_lang_switched => "● Language switched to English"@,
            Key::cli_starting => "🚀 ra-killer started"@,
            Key::cli_kill_error => "❌ Error killing processes"@,
            Key::cli_hint_once => "  💡 Tip: Use --once or -o to run a single check"@,
            Key::err_kill_failed => "kill command failed"@,
            Key::err_sigkill_failed => "SIGKILL failed"@,
        },
    }
}

/// The fixed text for `key` in language `lang`.
pub fn text(lang: Lang, key: Key) -> (r: &'static str)
    ensures
        r@ == key_text(lang, key),
{
    match lang {
        Lang::Zh => match key {
            Key::target_process_label => "目标进程",
            Key::memory_usage_label => "内存使用",
            Key::usage_label => "使用率",
            Key::threshold_label => "阈值",
            Key::refresh_interval_label => "刷新间隔",
            Key::auto_cleanup_label => "自动清理",
            Key::auto_cleanup_enabled => "开启 · 清理内存最高 40%",
            Key::system_status => "系统状态",
            Key::system_info => "系统信息",
            Key::pid_header => "PID",
            Key::process_name_header => "进程名",
            Key::cpu_header => "CPU",
            Key::memory_header => "内存",
            Key::help_up => " 上 ",
            Key::help_down => " 下 ",
            Key::help_kill_selected => " 杀死选中 ",
            Key::help_kill_high_mem => " 清理高内存(40%) ",
            Key::help_refresh => " 刷新 ",
            Key::help_quit => " 退出",
            Key::help_lang => " 切换语言",
            Key::confirm_cleanup => "确认清理内存最高的 40% 进程? ",
            Key::confirm_kill_selected => "确认杀死选中进程? ",
            Key::confirm_yes => " 是 ",
            Key::confirm_no => " 否",
            Key::msg_refreshed => "» 已刷新",
            Key::msg_lang_switched => "● 语言已切换为中文",
            Key::cli_starting => "🚀 ra-killer 启动",
            Key::cli_kill_error => "❌ 杀死进程时出错",
            Key::cli_hint_once => "  💡 提示: 使用 --once 或 -o 参数可以只运行一次检查",
            Key::err_kill_failed => "kill 命令失败",
            Key::err_sigkill_failed => "SIGKILL 失败",
        },
        Lang::En => match key {
            Key::target_process_label => "TARGET",
            Key::memory_usage_label => "MEMORY",
            Key::usage_label => "USAGE",
            Key::threshold_label => "THRESHOLD",
            Key::refresh_interval_label => "REFRESH",
            Key::auto_cleanup_label => "AUTO CLEANUP",
            Key::auto_cleanup_enabled => "ON · kill top 40% memory",
            Key::system_status => "SYSTEM STATUS",
            Key::system_info => "SYSTEM INFO",
            Key::pid_header => "PID",
            Key::process_name_header => "PROCESS",
            Key::cpu_header => "CPU",
            Key::memory_header => "MEMORY",
            Key::help_up => " Up ",
            Key::help_down => " Down ",
            Key::help_kill_selected => " Kill Sel ",
            Key::help_kill_high_mem => " Kill Top 40% ",
            Key::help_refresh => " Refresh ",
            Key::help_quit => " Quit",
            Key::help_lang => " Language",
            Key::confirm_cleanup => "Confirm kill top 40% memory processes? ",
            Key::confirm_kill_selected => "Confirm kill selected process? ",
            Key::confirm_yes => " Yes ",
            Key::confirm_no => " No",
            Key::msg_refreshed => "» Refreshed",
            Key::msg_lang_switched => "● Language switched to English",
            Key::cli_starting => "🚀 ra-killer started",
            Key::cli_kill_error => "❌ Error killing processes",
            Key::cli_hint_once => "  💡 Tip: Use --once or -o to run a single check",
            Key::err_kill_failed => "kill command failed",
            Key::err_sigkill_failed => "SIGKILL failed",
        },
    }
}

/// Messages that carry values. A `percent` is the memory usage already
/// written out as text; sizes (`used`, `total`, `mem`) are texts as
/// `format_bytes` writes them.
pub enum DynKey {
    MsgKilledCount(usize),
    MsgKillFailed(String),
    MsgAutoKilled(usize),
    MsgKilledProcess(u32),
    TableTitle { name: String, count: usize },
    RefreshIntervalSecs(u64),
    CliThreshold(u8),
    CliInterval(u64),
    CliTarget(String),
    CliMemoryUsage { used: String, total: String, percent: String },
    CliMemoryWarning { percent: String, threshold: u8 },
    CliKilledReleased { count: usize, name: String },
    CliNoProcess(String),
    CliFoundDetail { name: String, pid: u32, mem: String },
    CliCannotTerminate { pid: u32, error: String },
    CliTerminated(u32),
    CliProcessDetail { name: String, pid: u32, mem: String },
    CliSigtermFailed(u32),
}

/// The text shown for the parameterised message `key` in language `lang`.
pub open spec fn dyn_text(lang: Lang, key: DynKey) -> Seq<char> {
    match lang {
        Lang::Zh => match key {
            DynKey::MsgKilledCount(n) => "[OK] 已终止 "@ + decimal(n as nat) + " 个进程（内存最高 40%）"@,
            DynKey::MsgKillFailed(e) => "✕ 终止进程失败: "@ + e@,
            DynKey::MsgAutoKilled(n) => "» 已自动终止 "@ + decimal(n as nat) + " 个高内存进程"@,
            DynKey::MsgKilledProcess(pid) => "[OK] 已终止进程 "@ + decimal(pid as nat),
            DynKey::TableTitle { name, count } => "进程列表 - "@ + name@ + " ("@ + decimal(count as nat) + " 个)"@,
            DynKey::RefreshIntervalSecs(secs) => decimal(secs as nat) + " 秒"@,
            DynKey::CliThreshold(v) => "📊 内存阈值: "@ + decimal(v as nat) + "%"@,
            DynKey::CliInterval(v) => "⏱️  检查间隔: "@ + decimal(v as nat) + " 秒"@,
            DynKey::CliTarget(v) => "🎯 目标进程: "@ + v@,
            DynKey::CliMemoryUsage { used, total, percent } => "💾 内存使用: "@ + used@ + " / "@ + total@ + " ("@ + percent@ + "%)"@,
            DynKey::CliMemoryWarning { percent, threshold } => "⚠️  内存使用率 "@ + percent@ + "% 超过阈值 "@ + decimal(threshold as nat) + "%"@,
            DynKey::CliKilledReleased { count, name } => "✅ 已杀死 "@ + decimal(count as nat) + " 个 "@ + name@ + " 进程，释放内存"@,
            DynKey::CliNoProcess(name) => "ℹ️  未找到 "@ + name@ + " 进程"@,
            DynKey::CliFoundDetail { name, pid, mem } => "🔍 找到 "@ + name@ + " 进程: PID="@ + decimal(pid as nat) + ", 内存="@ + mem@,
            DynKey::CliCannotTerminate { pid, error } => "⚠️  无法终止进程 "@ + decimal(pid as nat) + ": "@ + error@,
            DynKey::CliTerminated(pid) => "✅ 已终止进程 "@ + decimal(pid as nat),
            DynKey::CliProcessDetail { name, pid, mem } => "  📋 "@ + name@ + " 进程: PID="@ + decimal(pid as nat) + ", 内存="@ + mem@,
            DynKey::CliSigtermFailed(pid) => "⚠️  进程 "@ + decimal(pid as nat) + " 未响应 SIGTERM，使用 SIGKILL"@,
        },
        Lang::En => match key {
            DynKey::MsgKilledCount(n) => "[OK] Killed "@ + decimal(n as nat) + " processes (top 40% memory)"@,
            DynKey::MsgKillFailed(e) => "✕ Failed to kill processes: "@ + e@,
            DynKey::MsgAutoKilled(n) => "» Auto-killed "@ + decimal(n as nat) + " high-memory processes"@,
            DynKey::MsgKilledProcess(pid) => "[OK] Terminated process "@ + decimal(pid as nat),
            DynKey::TableTitle { name, count } => "Processes - "@ + name@ + " ("@ + decimal(count as nat) + " total)"@,
            DynKey::RefreshIntervalSecs(secs) => decimal(secs as nat) + "s"@,
            DynKey::CliThreshold(v) => "📊 Memory threshold: "@ + decimal(v as nat) + "%"@,
            DynKey::CliInterval(v) => "⏱️  Check interval: "@ + decimal(v as nat) + "s"@,
            DynKey::CliTarget(v) => "🎯 Target process: "@ + v@,
            DynKey::CliMemoryUsage { used, total, percent } => "💾 Memory: "@ + used@ + " / "@ + total@ + " ("@ + percent@ + "%)"@,
            DynKey::CliMemoryWarning { percent, threshold } => "⚠️  Memory usage "@ + percent@ + "% exceeds threshold "@ + decimal(threshold as nat) + "%"@,
            DynKey::CliKilledReleased { count, name } => "✅ Killed "@ + decimal(count as nat) + " "@ + name@ + " processes, memory freed"@,
            DynKey::CliNoProcess(name) => "ℹ️  No "@ + name@ + " processes found"@,
            DynKey::CliFoundDetail { name, pid, mem } => "🔍 Found "@ + name@ + " process: PID="@ + decimal(pid as nat) + ", Memory="@ + mem@,
            DynKey::CliCannotTerminate { pid, error } => "⚠️  Cannot terminate process "@ + decimal(pid as nat) + ": "@ + error@,
            DynKey::CliTerminated(pid) => "✅ Terminated process "@ + decimal(pid as nat),
            DynKey::CliProcessDetail { name, pid, mem } => "  📋 "@ + name@ + " process: PID="@ + decimal(pid as nat) + ", Memory="@ + mem@,
            DynKey::CliSigtermFailed(pid) => "⚠️  Process "@ + decimal(pid as nat) + " did not respond to SIGTERM, using SIGKILL"@,
        },
    }
}

/// The text for the parameterised message `key` in language `lang`.
pub fn dyn_message(lang: Lang, key: DynKey) -> (r: String)
    ensures
        r@ == dyn_text(lang, key),
{
    match lang {
        Lang::Zh => match key {
            DynKey::MsgKilledCount(n) => {
                let mut s = String::from_str("[OK] 已终止 ");
                push_decimal(&mut s, n as u128);
                s.append(" 个进程（内存最高 40%）");
                s
            },
            DynKey::MsgKillFailed(e) => {
                let mut s = String::from_str("✕ 终止进程失败: ");
                s.append(e.as_str());
                s
            },
            DynKey::MsgAutoKilled(n) => {
                let mut s = String::from_str("» 已自动终止 ");
                push_decimal(&mut s, n as u128);
                s.append(" 个高内存进程");
                s
            },
            DynKey::MsgKilledProcess(pid) => {
                let mut s = String::from_str("[OK] 已终止进程 ");
                push_decimal(&mut s, pid as u128);
                s
            },
            DynKey::TableTitle { name, count } => {
                let mut s = String::from_str("进程列表 - ");
                s.append(name.as_str());
                s.append(" (");
                push_decimal(&mut s, count as u128);
                s.append(" 个)");
                s
            },
            DynKey::RefreshIntervalSecs(secs) => {
                let mut s = String::new();
                push_decimal(&mut s, secs as u128);
                s.append(" 秒");
                assert(s@ =~= decimal(secs as nat) + " 秒"@);
                s
            },
            DynKey::CliThreshold(v) => {
                let mut s = String::from_str("📊 内存阈值: ");
                push_decimal(&mut s, v as u128);
                s.append("%");
                s
            },
            DynKey::CliInterval(v) => {
                let mut s = String::from_str("⏱️  检查间隔: ");
                push_decimal(&mut s, v as u128);
                s.append(" 秒");
                s
            },
            DynKey::CliTarget(v) => {
                let mut s = String::from_str("🎯 目标进程: ");
                s.append(v.as_str());
                s
            },
            DynKey::CliMemoryUsage { used, total, percent } => {
                let mut s = String::from_str("💾 内存使用: ");
                s.append(used.as_str());
                s.append(" / ");
                s.append(total.as_str());
                s.append(" (");
                s.append(percent.as_str());
                s.append("%)");
                s
            },
            DynKey::CliMemoryWarning { percent, threshold } => {
                let mut s = String::from_str("⚠️  内存使用率 ");
                s.append(percent.as_str());
                s.append("% 超过阈值 ");
                push_decimal(&mut s, threshold as u128);
                s.append("%");
                s
            },
            DynKey::CliKilledReleased { count, name } => {
                let mut s = String::from_str("✅ 已杀死 ");
                push_decimal(&mut s, count as u128);
                s.append(" 个 ");
                s.append(name.as_str());
                s.append(" 进程，释放内存");
                s
            },
            DynKey::CliNoProcess(name) => {
                let mut s = String::from_str("ℹ️  未找到 ");
                s.append(name.as_str());
                s.append(" 进程");
                s
            },
            DynKey::CliFoundDetail { name, pid, mem } => {
                let mut s = String::from_str("🔍 找到 ");
                s.append(name.as_str());
                s.append(" 进程: PID=");
                push_decimal(&mut s, pid as u128);
                s.append(", 内存=");
                s.append(mem.as_str());
                s
            },
            DynKey::CliCannotTerminate { pid, error } => {
                let mut s = String::from_str("⚠️  无法终止进程 ");
                push_decimal(&mut s, pid as u128);
                s.append(": ");
                s.append(error.as_str());
                s
            },
            DynKey::CliTerminated(pid) => {
                let mut s = String::from_str("✅ 已终止进程 ");
                push_decimal(&mut s, pid as u128);
                s
            },
            DynKey::CliProcessDetail { name, pid, mem } => {
                let mut s = String::from_str("  📋 ");
                s.append(name.as_str());
                s.append(" 进程: PID=");
                push_decimal(&mut s, pid as u128);
                s.append(", 内存=");
                s.append(mem.as_str());
                s
            },
            DynKey::CliSigtermFailed(pid) => {
                let mut s = String::from_str("⚠️  进程 ");
                push_decimal(&mut s, pid as u128);
                s.append(" 未响应 SIGTERM，使用 SIGKILL");
                s
            },
        },
        Lang::En => match key {
            DynKey::MsgKilledCount(n) => {
                let mut s = String::from_str("[OK] Killed ");
                push_decimal(&mut s, n as u128);
                s.append(" processes (top 40% memory)");
                s
            },
            DynKey::MsgKillFailed(e) => {
                let mut s = String::from_str("✕ Failed to kill processes: ");
                s.append(e.as_str());
                s
            },
            DynKey::MsgAutoKilled(n) => {
                let mut s = String::from_str("» Auto-killed ");
                push_decimal(&mut s, n as u128);
                s.append(" high-memory processes");
                s
            },
            DynKey::MsgKilledProcess(pid) => {
                let mut s = String::from_str("[OK] Terminated process ");
                push_decimal(&mut s, pid as u128);
                s
            },
            DynKey::TableTitle { name, count } => {
                let mut s = String::from_str("Processes - ");
                s.append(name.as_str());
                s.append(" (");
                push_decimal(&mut s, count as u128);
                s.append(" total)");
                s
            },
            DynKey::RefreshIntervalSecs(secs) => {
                let mut s = String::new();
                push_decimal(&mut s, secs as u128);
                s.append("s");
                assert(s@ =~= decimal(secs as nat) + "s"@);
                s
            },
            DynKey::CliThreshold(v) => {
                let mut s = String::from_str("📊 Memory threshold: ");
                push_decimal(&mut s, v as u128);
                s.append("%");
                s
            },
            DynKey::CliInterval(v) => {
                let mut s = String::from_str("⏱️  Check interval: ");
                push_decimal(&mut s, v as u128);
                s.append("s");
                s
            },
            DynKey::CliTarget(v) => {
                let mut s = String::from_str("🎯 Target process: ");
                s.append(v.as_str());
                s
            },
            DynKey::CliMemoryUsage { used, total, percent } => {
                let mut s = String::from_str("💾 Memory: ");
                s.append(used.as_str());
                s.append(" / ");
                s.append(total.as_str());
                s.append(" (");
                s.append(percent.as_str());
                s.append("%)");
                s
            },
            DynKey::CliMemoryWarning { percent, threshold } => {
                let mut s = String::from_str("⚠️  Memory usage ");
                s.append(percent.as_str());
                s.append("% exceeds threshold ");
                push_decimal(&mut s, threshold as u128);
                s.append("%");
                s
            },
            DynKey::CliKilledReleased { count, name } => {
                let mut s = String::from_str("✅ Killed ");
                push_decimal(&mut s, count as u128);
                s.append(" ");
                s.append(name.as_str());
                s.append(" processes, memory freed");
                s
            },
            DynKey::CliNoProcess(name) => {
                let mut s = String::from_str("ℹ️  No ");
                s.append(name.as_str());
                s.append(" processes found");
                s
            },
            DynKey::CliFoundDetail { name, pid, mem } => {
                let mut s = String::from_str("🔍 Found ");
                s.append(name.as_str());
                s.append(" process: PID=");
                push_decimal(&mut s, pid as u128);
                s.append(", Memory=");
                s.append(mem.as_str());
                s
            },
            DynKey::CliCannotTerminate { pid, error } => {
                let mut s = String::from_str("⚠️  Cannot terminate process ");
                push_decimal(&mut s, pid as u128);
                s.append(": ");
                s.append(error.as_str());
                s
            },
            DynKey::CliTerminated(pid) => {
                let mut s = String::from_str("✅ Terminated process ");
                push_decimal(&mut s, pid as u128);
                s
            },
            DynKey::CliProcessDetail { name, pid, mem } => {
                let mut s = String::from_str("  📋 ");
                s.append(name.as_str());
                s.append(" process: PID=");
                push_decimal(&mut s, pid as u128);
                s.append(", Memory=");
                s.append(mem.as_str());
                s
            },
            DynKey::CliSigtermFailed(pid) => {
                let mut s = String::from_str("⚠️  Process ");
                push_decimal(&mut s, pid as u128);
                s.append(" did not respond to SIGTERM, using SIGKILL");
                s
            },
        },
    }
}

/// The fixed text for `key` in the language in force.
pub fn t(state: &mut LangState, key: Key) -> (r: &'static str)
    ensures
        same_sources(*old(state), *final(state)),
        final(state).current == Some(resolved(*old(state))),
        r@ == key_text(resolved(*old(state)), key),
{
    let l = lang(state);
    text(l, key)
}

/// The text for the parameterised message `key` in the language in force.
pub fn td(state: &mut LangState, key: DynKey) -> (r: String)
    ensures
        same_sources(*old(state), *final(state)),
        final(state).current == Some(resolved(*old(state))),
        r@ == dyn_text(resolved(*old(state)), key),
{
    let l = lang(state);
    dyn_message(l, key)
}


/// A pictograph: a character of the emoji blocks (U+1F000 to U+1FAFF), of
/// the symbol and dingbat blocks (U+2600 to U+27BF), or the emoji
/// presentation selector U+FE0F.
pub open spec fn is_pictograph(c: char) -> bool {
    let u = c as u32;
    (0x1F000 <= u <= 0x1FAFF) || (0x2600 <= u <= 0x27BF) || u == 0xFE0F
}

/// An emoji: a character of the emoji blocks (U+1F000 to U+1FAFF) or the
/// emoji presentation selector U+FE0F.
pub open spec fn is_emoji(c: char) -> bool {
    let u = c as u32;
    (0x1F000 <= u <= 0x1FAFF) || u == 0xFE0F
}

/// `s` holds no pictograph.
pub open spec fn no_pictograph(s: Seq<char>) -> bool {
    forall|i: int| 0 <= i < s.len() ==> !is_pictograph(#[trigger] s[i])
}

/// `s` holds no emoji.
pub open spec fn no_emoji(s: Seq<char>) -> bool {
    forall|i: int| 0 <= i < s.len() ==> !is_emoji(#[trigger] s[i])
}

/// `s` holds a pictograph.
pub open spec fn has_pictograph(s: Seq<char>) -> bool {
    exists|i: int| 0 <= i < s.len() && is_pictograph(#[trigger] s[i])
}

/// The first character of `s` that is not a space, if any.
pub open spec fn first_non_space(s: Seq<char>) -> Option<char>
    decreases s.len(),
{
    if s.len() == 0 {
        None
    } else if s[0] == ' ' {
        first_non_space(s.drop_first())
    } else {
        Some(s[0])
    }
}

/// A fixed text of the command-line log.
pub open spec fn is_cli_key(key: Key) -> bool {
    key is cli_starting || key is cli_kill_error || key is cli_hint_once
}

/// A fixed text of the interactive interface (neither a command-line log
/// text nor an error text).
pub open spec fn is_interface_key(key: Key) -> bool {
    !is_cli_key(key) && !(key is err_kill_failed) && !(key is err_sigkill_failed)
}

/// The symbol a command-line log message leads with; `None` for the
/// interface messages.
pub open spec fn cli_symbol(key: DynKey) -> Option<char> {
    match key {
        DynKey::CliThreshold(_) => Some('📊'),
        DynKey::CliInterval(_) => Some('⏱'),
        DynKey::CliTarget(_) => Some('🎯'),
        DynKey::CliMemoryUsage { .. } => Some('💾'),
        DynKey::CliMemoryWarning { .. } => Some('⚠'),
        DynKey::CliKilledReleased { .. } => Some('✅'),
        DynKey::CliNoProcess(_) => Some('ℹ'),
        DynKey::CliFoundDetail { .. } => Some('🔍'),
        DynKey::CliCannotTerminate { .. } => Some('⚠'),
        DynKey::CliTerminated(_) => Some('✅'),
        DynKey::CliProcessDetail { .. } => Some('📋'),
        DynKey::CliSigtermFailed(_) => Some('⚠'),
        _ => None,
    }
}

proof fn lemma_concat_no_pictograph(a: Seq<char>, b: Seq<char>)
    requires
        no_pictograph(a),
        no_pictograph(b),
    ensures
        no_pictograph(a + b),
{
    assert forall|i: int| 0 <= i < (a + b).len() implies !is_pictograph(#[trigger] (a + b)[i]) by {
        if i < a.len() {
            assert((a + b)[i] == a[i]);
        } else {
            assert((a + b)[i] == b[i - a.len()]);
        }
    }
}

proof fn lemma_decimal_no_pictograph(n: nat)
    ensures
        no_pictograph(decimal(n)),
    decreases n,
{
    if n >= 10 {
        lemma_decimal_no_pictograph(n / 10);
        lemma_concat_no_pictograph(decimal(n / 10), seq![digit_char(n % 10)]);
        assert(decimal(n) =~= decimal(n / 10) + seq![digit_char(n % 10)]);
    }
}

proof fn lemma_starts_with_concat(a: Seq<char>, b: Seq<char>, p: Seq<char>)
    requires
        seq_starts_with(a, p),
    ensures
        seq_starts_with(a + b, p),
{
    assert((a + b).subrange(0, p.len() as int) =~= a.subrange(0, p.len() as int));
}

proof fn lemma_first_non_space_concat(a: Seq<char>, b: Seq<char>)
    requires
        first_non_space(a) is Some,
    ensures
        first_non_space(a + b) == first_non_space(a),
    decreases a.len(),
{
    assert((a + b)[0] == a[0]);
    if a[0] == ' ' {
        lemma_first_non_space_concat(a.drop_first(), b);
        assert((a + b).drop_first() =~= a.drop_first() + b);
    }
}

/// The interface's fixed texts use no pictographs.
pub proof fn law_interface_texts_have_no_pictographs(lang: Lang, key: Key)
    requires
        is_interface_key(key),
    ensures
        no_pictograph(key_text(lang, key)),
{
    match key {
        Key::target_process_label => {
            reveal_strlit("目标进程");
            reveal_strlit("TARGET");
        },
        Key::memory_usage_label => {
            reveal_strlit("内存使用");
            reveal_strlit("MEMORY");
        },
        Key::usage_label => {
            reveal_strlit("使用率");
            reveal_strlit("USAGE");
        },
        Key::threshold_label => {
            reveal_strlit("阈值");
            reveal_strlit("THRESHOLD");
        },
        Key::refresh_interval_label => {
            reveal_strlit("刷新间隔");
            reveal_strlit("REFRESH");
        },
        Key::auto_cleanup_label => {
            reveal_strlit("自动清理");
            reveal_strlit("AUTO CLEANUP");
        },
        Key::auto_cleanup_enabled => {
            reveal_strlit("开启 · 清理内存最高 40%");
            reveal_strlit("ON · kill top 40% memory");
        },
        Key::system_status => {
            reveal_strlit("系统状态");
            reveal_strlit("SYSTEM STATUS");
        },
        Key::system_info => {
            reveal_strlit("系统信息");
            reveal_strlit("SYSTEM INFO");
        },
        Key::pid_header => {
            reveal_strlit("PID");
            reveal_strlit("PID");
        },
        Key::process_name_header => {
            reveal_strlit("进程名");
            reveal_strlit("PROCESS");
        },
        Key::cpu_header => {
            reveal_strlit("CPU");
            reveal_strlit("CPU");
        },
        Key::memory_header => {
            reveal_strlit("内存");
            reveal_strlit("MEMORY");
        },
        Key::help_up => {
            reveal_strlit(" 上 ");
            reveal_strlit(" Up ");
        },
        Key::help_down => {
            reveal_strlit(" 下 ");
            reveal_strlit(" Down ");
        },
        Key::help_kill_selected => {
            reveal_strlit(" 杀死选中 ");
            reveal_strlit(" Kill Sel ");
        },
        Key::help_kill_high_mem => {
            reveal_strlit(" 清理高内存(40%) ");
            reveal_strlit(" Kill Top 40% ");
        },
        Key::help_refresh => {
            reveal_strlit(" 刷新 ");
            reveal_strlit(" Refresh ");
        },
        Key::help_quit => {
            reveal_strlit(" 退出");
            reveal_strlit(" Quit");
        },
        Key::help_lang => {
            reveal_strlit(" 切换语言");
            reveal_strlit(" Language");
        },
        Key::confirm_cleanup => {
            reveal_strlit("确认清理内存最高的 40% 进程? ");
            reveal_strlit("Confirm kill top 40% memory processes? ");
        },
        Key::confirm_kill_selected => {
            reveal_strlit("确认杀死选中进程? ");
            reveal_strlit("Confirm kill selected process? ");
        },
        Key::confirm_yes => {
            reveal_strlit(" 是 ");
            reveal_strlit(" Yes ");
        },
        Key::confirm_no => {
            reveal_strlit(" 否");
            reveal_strlit(" No");
        },
        Key::msg_refreshed => {
            reveal_strlit("» 已刷新");
            reveal_strlit("» Refreshed");
        },
        Key::msg_lang_switched => {
            reveal_strlit("● 语言已切换为中文");
            reveal_strlit("● Language switched to English");
        },
        _ => {},
    }
}

/// The command-line log's fixed texts carry a pictograph.
pub proof fn law_cli_texts_carry_a_pictograph(lang: Lang, key: Key)
    requires
        is_cli_key(key),
    ensures
        has_pictograph(key_text(lang, key)),
{
    match key {
        Key::cli_starting => {
            reveal_strlit("🚀 ra-killer 启动");
            reveal_strlit("🚀 ra-killer started");
            assert(is_pictograph(key_text(lang, key)[0]));
        },
        Key::cli_kill_error => {
            reveal_strlit("❌ 杀死进程时出错");
            reveal_strlit("❌ Error killing processes");
            assert(is_pictograph(key_text(lang, key)[0]));
        },
        Key::cli_hint_once => {
            reveal_strlit("  💡 提示: 使用 --once 或 -o 参数可以只运行一次检查");
            reveal_strlit("  💡 Tip: Use --once or -o to run a single check");
            assert(is_pictograph(key_text(lang, key)[2]));
        },
        _ => {},
    }
}

/// The interface's messages are marked: a completed kill with "[OK] ", an
/// automatic cleanup with "» ", a failure with "✕ " followed by the error
/// text; apart from the error text they use no emoji, and the success
/// messages no pictograph at all.
pub proof fn law_interface_messages_are_marked(lang: Lang, key: DynKey)
    ensures
        (key is MsgKilledCount || key is MsgKilledProcess) ==> seq_starts_with(
            dyn_text(lang, key),
            "[OK] "@,
        ) && no_pictograph(dyn_text(lang, key)),
        key is MsgAutoKilled ==> seq_starts_with(dyn_text(lang, key), "» "@) && no_pictograph(
            dyn_text(lang, key),
        ),
        key matches DynKey::MsgKillFailed(e) ==> {
            let t = dyn_text(lang, key);
            &&& seq_starts_with(t, "✕ "@)
            &&& t.len() >= e@.len()
            &&& t.subrange(t.len() - e@.len(), t.len() as int) == e@
            &&& no_emoji(t.subrange(0, t.len() - e@.len()))
        },
{
    reveal_strlit("[OK] ");
    reveal_strlit("» ");
    reveal_strlit("✕ ");
    match lang {
        Lang::Zh => match key {
            DynKey::MsgKilledCount(n) => {
                reveal_strlit("[OK] 已终止 ");
                reveal_strlit(" 个进程（内存最高 40%）");
                lemma_decimal_no_pictograph(n as nat);
                assert("[OK] 已终止 "@.subrange(0, 5) =~= "[OK] "@);
                lemma_concat_no_pictograph("[OK] 已终止 "@, decimal(n as nat));
                lemma_starts_with_concat("[OK] 已终止 "@, decimal(n as nat), "[OK] "@);
                lemma_concat_no_pictograph("[OK] 已终止 "@ + decimal(n as nat), " 个进程（内存最高 40%）"@);
                lemma_starts_with_concat("[OK] 已终止 "@ + decimal(n as nat), " 个进程（内存最高 40%）"@, "[OK] "@);
            },
            DynKey::MsgKilledProcess(pid) => {
                reveal_strlit("[OK] 已终止进程 ");
                lemma_decimal_no_pictograph(pid as nat);
                assert("[OK] 已终止进程 "@.subrange(0, 5) =~= "[OK] "@);
                lemma_concat_no_pictograph("[OK] 已终止进程 "@, decimal(pid as nat));
                lemma_starts_with_concat("[OK] 已终止进程 "@, decimal(pid as nat), "[OK] "@);
            },
            DynKey::MsgAutoKilled(n) => {
                reveal_strlit("» 已自动终止 ");
                reveal_strlit(" 个高内存进程");
                lemma_decimal_no_pictograph(n as nat);
                assert("» 已自动终止 "@.subrange(0, 2) =~= "» "@);
                lemma_concat_no_pictograph("» 已自动终止 "@, decimal(n as nat));
                lemma_starts_with_concat("» 已自动终止 "@, decimal(n as nat), "» "@);
                lemma_concat_no_pictograph("» 已自动终止 "@ + decimal(n as nat), " 个高内存进程"@);
                lemma_starts_with_concat("» 已自动终止 "@ + decimal(n as nat), " 个高内存进程"@, "» "@);
            },
            DynKey::MsgKillFailed(e) => {
                reveal_strlit("✕ 终止进程失败: ");
                let t = "✕ 终止进程失败: "@ + e@;
                assert("✕ 终止进程失败: "@.subrange(0, 2) =~= "✕ "@);
                lemma_starts_with_concat("✕ 终止进程失败: "@, e@, "✕ "@);
                assert(t.subrange(t.len() - e@.len(), t.len() as int) =~= e@);
                assert(t.subrange(0, t.len() - e@.len()) =~= "✕ 终止进程失败: "@);
            },
            _ => {},
        },
        Lang::En => match key {
            DynKey::MsgKilledCount(n) => {
                reveal_strlit("[OK] Killed ");
                reveal_strlit(" processes (top 40% memory)");
                lemma_decimal_no_pictograph(n as nat);
                assert("[OK] Killed "@.subrange(0, 5) =~= "[OK] "@);
                lemma_concat_no_pictograph("[OK] Killed "@, decimal(n as nat));
                lemma_starts_with_concat("[OK] Killed "@, decimal(n as nat), "[OK] "@);
                lemma_concat_no_pictograph("[OK] Killed "@ + decimal(n as nat), " processes (top 40% memory)"@);
                lemma_starts_with_concat("[OK] Killed "@ + decimal(n as nat), " processes (top 40% memory)"@, "[OK] "@);
            },
            DynKey::MsgKilledProcess(pid) => {
                reveal_strlit("[OK] Terminated process ");
                lemma_decimal_no_pictograph(pid as nat);
                assert("[OK] Terminated process "@.subrange(0, 5) =~= "[OK] "@);
                lemma_concat_no_pictograph("[OK] Terminated process "@, decimal(pid as nat));
                lemma_starts_with_concat("[OK] Terminated process "@, decimal(pid as nat), "[OK] "@);
            },
            DynKey::MsgAutoKilled(n) => {
                reveal_strlit("» Auto-killed ");
                reveal_strlit(" high-memory processes");
                lemma_decimal_no_pictograph(n as nat);
                assert("» Auto-killed "@.subrange(0, 2) =~= "» "@);
                lemma_concat_no_pictograph("» Auto-killed "@, decimal(n as nat));
                lemma_starts_with_concat("» Auto-killed "@, decimal(n as nat), "» "@);
                lemma_concat_no_pictograph("» Auto-killed "@ + decimal(n as nat), " high-memory processes"@);
                lemma_starts_with_concat("» Auto-killed "@ + decimal(n as nat), " high-memory processes"@, "» "@);
            },
            DynKey::MsgKillFailed(e) => {
                reveal_strlit("✕ Failed to kill processes: ");
                let t = "✕ Failed to kill processes: "@ + e@;
                assert("✕ Failed to kill processes: "@.subrange(0, 2) =~= "✕ "@);
                lemma_starts_with_concat("✕ Failed to kill processes: "@, e@, "✕ "@);
                assert(t.subrange(t.len() - e@.len(), t.len() as int) =~= e@);
                assert(t.subrange(0, t.len() - e@.len()) =~= "✕ Failed to kill processes: "@);
            },
            _ => {},
        },
    }
}

/// Every command-line log message leads, after any indentation, with its
/// symbol.
pub proof fn law_cli_messages_lead_with_their_symbol(lang: Lang, key: DynKey)
    requires
        cli_symbol(key) is Some,
    ensures
        first_non_space(dyn_text(lang, key)) == cli_symbol(key),
{
    reveal_with_fuel(first_non_space, 3);
    match lang {
        Lang::Zh => match key {
            DynKey::CliThreshold(v) => {
                reveal_strlit("📊 内存阈值: ");
                assert(first_non_space("📊 内存阈值: "@) == cli_symbol(key));
                lemma_first_non_space_concat("📊 内存阈值: "@, decimal(v as nat));
                lemma_first_non_space_concat("📊 内存阈值: "@ + decimal(v as nat), "%"@);
            },
            DynKey::CliInterval(v) => {
                reveal_strlit("⏱️  检查间隔: ");
                assert(first_non_space("⏱️  检查间隔: "@) == cli_symbol(key));
                lemma_first_non_space_concat("⏱️  检查间隔: "@, decimal(v as nat));
                lemma_first_non_space_concat("⏱️  检查间隔: "@ + decimal(v as nat), " 秒"@);
            },
            DynKey::CliTarget(v) => {
                reveal_strlit("🎯 目标进程: ");
                assert(first_non_space("🎯 目标进程: "@) == cli_symbol(key));
                lemma_first_non_space_concat("🎯 目标进程: "@, v@);
            },
            DynKey::CliMemoryUsage { used, total, percent } => {
                reveal_strlit("💾 内存使用: ");
                assert(first_non_space("💾 内存使用: "@) == cli_symbol(key));
                lemma_first_non_space_concat("💾 内存使用: "@, used@);
                lemma_first_non_space_concat("💾 内存使用: "@ + used@, " / "@);
                lemma_first_non_space_concat("💾 内存使用: "@ + used@ + " / "@, total@);
                lemma_first_non_space_concat("💾 内存使用: "@ + used@ + " / "@ + total@, " ("@);
                lemma_first_non_space_concat("💾 内存使用: "@ + used@ + " / "@ + total@ + " ("@, percent@);
                lemma_first_non_space_concat("💾 内存使用: "@ + used@ + " / "@ + total@ + " ("@ + percent@, "%)"@);
            },
            DynKey::CliMemoryWarning { percent, threshold } => {
                reveal_strlit("⚠️  内存使用率 ");
                assert(first_non_space("⚠️  内存使用率 "@) == cli_symbol(key));
                lemma_first_non_space_concat("⚠️  内存使用率 "@, percent@);
                lemma_first_non_space_concat("⚠️  内存使用率 "@ + percent@, "% 超过阈值 "@);
                lemma_first_non_space_concat("⚠️  内存使用率 "@ + percent@ + "% 超过阈值 "@, decimal(threshold as nat));
                lemma_first_non_space_concat("⚠️  内存使用率 "@ + percent@ + "% 超过阈值 "@ + decimal(threshold as nat), "%"@);
            },
            DynKey::CliKilledReleased { count, name } => {
                reveal_strlit("✅ 已杀死 ");
                assert(first_non_space("✅ 已杀死 "@) == cli_symbol(key));
                lemma_first_non_space_concat("✅ 已杀死 "@, decimal(count as nat));
                lemma_first_non_space_concat("✅ 已杀死 "@ + decimal(count as nat), " 个 "@);
                lemma_first_non_space_concat("✅ 已杀死 "@ + decimal(count as nat) + " 个 "@, name@);
                lemma_first_non_space_concat("✅ 已杀死 "@ + decimal(count as nat) + " 个 "@ + name@, " 进程，释放内存"@);
            },
            DynKey::CliNoProcess(name) => {
                reveal_strlit("ℹ️  未找到 ");
                assert(first_non_space("ℹ️  未找到 "@) == cli_symbol(key));
                lemma_first_non_space_concat("ℹ️  未找到 "@, name@);
                lemma_first_non_space_concat("ℹ️  未找到 "@ + name@, " 进程"@);
            },
            DynKey::CliFoundDetail { name, pid, mem } => {
                reveal_strlit("🔍 找到 ");
                assert(first_non_space("🔍 找到 "@) == cli_symbol(key));
                lemma_first_non_space_concat("🔍 找到 "@, name@);
                lemma_first_non_space_concat("🔍 找到 "@ + name@, " 进程: PID="@);
                lemma_first_non_space_concat("🔍 找到 "@ + name@ + " 进程: PID="@, decimal(pid as nat));
                lemma_first_non_space_concat("🔍 找到 "@ + name@ + " 进程: PID="@ + decimal(pid as nat), ", 内存="@);
                lemma_first_non_space_concat("🔍 找到 "@ + name@ + " 进程: PID="@ + decimal(pid as nat) + ", 内存="@, mem@);
            },
            DynKey::CliCannotTerminate { pid, error } => {
                reveal_strlit("⚠️  无法终止进程 ");
                assert(first_non_space("⚠️  无法终止进程 "@) == cli_symbol(key));
                lemma_first_non_space_concat("⚠️  无法终止进程 "@, decimal(pid as nat));
                lemma_first_non_space_concat("⚠️  无法终止进程 "@ + decimal(pid as nat), ": "@);
                lemma_first_non_space_concat("⚠️  无法终止进程 "@ + decimal(pid as nat) + ": "@, error@);
            },
            DynKey::CliTerminated(pid) => {
                reveal_strlit("✅ 已终止进程 ");
                assert(first_non_space("✅ 已终止进程 "@) == cli_symbol(key));
                lemma_first_non_space_concat("✅ 已终止进程 "@, decimal(pid as nat));
            },
            DynKey::CliProcessDetail { name, pid, mem } => {
                reveal_strlit("  📋 ");
                assert("  📋 "@.drop_first().drop_first()[0] == "  📋 "@[2]);
                assert(first_non_space("  📋 "@) == cli_symbol(key));
                lemma_first_non_space_concat("  📋 "@, name@);
                lemma_first_non_space_concat("  📋 "@ + name@, " 进程: PID="@);
                lemma_first_non_space_concat("  📋 "@ + name@ + " 进程: PID="@, decimal(pid as nat));
                lemma_first_non_space_concat("  📋 "@ + name@ + " 进程: PID="@ + decimal(pid as nat), ", 内存="@);
                lemma_first_non_space_concat("  📋 "@ + name@ + " 进程: PID="@ + decimal(pid as nat) + ", 内存="@, mem@);
            },
            DynKey::CliSigtermFailed(pid) => {
                reveal_strlit("⚠️  进程 ");
                assert(first_non_space("⚠️  进程 "@) == cli_symbol(key));
                lemma_first_non_space_concat("⚠️  进程 "@, decimal(pid as nat));
                lemma_first_non_space_concat("⚠️  进程 "@ + decimal(pid as nat), " 未响应 SIGTERM，使用 SIGKILL"@);
            },
            _ => {},
        },
        Lang::En => match key {
            DynKey::CliThreshold(v) => {
                reveal_strlit("📊 Memory threshold: ");
                assert(first_non_space("📊 Memory threshold: "@) == cli_symbol(key));
                lemma_first_non_space_concat("📊 Memory threshold: "@, decimal(v as nat));
                lemma_first_non_space_concat("📊 Memory threshold: "@ + decimal(v as nat), "%"@);
            },
            DynKey::CliInterval(v) => {
                reveal_strlit("⏱️  Check interval: ");
                assert(first_non_space("⏱️  Check interval: "@) == cli_symbol(key));
                lemma_first_non_space_concat("⏱️  Check interval: "@, decimal(v as nat));
                lemma_first_non_space_concat("⏱️  Check interval: "@ + decimal(v as nat), "s"@);
            },
            DynKey::CliTarget(v) => {
                reveal_strlit("🎯 Target process: ");
                assert(first_non_space("🎯 Target process: "@) == cli_symbol(key));
                lemma_first_non_space_concat("🎯 Target process: "@, v@);
            },
            DynKey::CliMemoryUsage { used, total, percent } => {
                reveal_strlit("💾 Memory: ");
                assert(first_non_space("💾 Memory: "@) == cli_symbol(key));
                lemma_first_non_space_concat("💾 Memory: "@, used@);
                lemma_first_non_space_concat("💾 Memory: "@ + used@, " / "@);
                lemma_first_non_space_concat("💾 Memory: "@ + used@ + " / "@, total@);
                lemma_first_non_space_concat("💾 Memory: "@ + used@ + " / "@ + total@, " ("@);
                lemma_first_non_space_concat("💾 Memory: "@ + used@ + " / "@ + total@ + " ("@, percent@);
                lemma_first_non_space_concat("💾 Memory: "@ + used@ + " / "@ + total@ + " ("@ + percent@, "%)"@);
            },
            DynKey::CliMemoryWarning { percent, threshold } => {
                reveal_strlit("⚠️  Memory usage ");
                assert(first_non_space("⚠️  Memory usage "@) == cli_symbol(key));
                lemma_first_non_space_concat("⚠️  Memory usage "@, percent@);
                lemma_first_non_space_concat("⚠️  Memory usage "@ + percent@, "% exceeds threshold "@);
                lemma_first_non_space_concat("⚠️  Memory usage "@ + percent@ + "% exceeds threshold "@, decimal(threshold as nat));
                lemma_first_non_space_concat("⚠️  Memory usage "@ + percent@ + "% exceeds threshold "@ + decimal(threshold as nat), "%"@);
            },
            DynKey::CliKilledReleased { count, name } => {
                reveal_strlit("✅ Killed ");
                assert(first_non_space("✅ Killed "@) == cli_symbol(key));
                lemma_first_non_space_concat("✅ Killed "@, decimal(count as nat));
                lemma_first_non_space_concat("✅ Killed "@ + decimal(count as nat), " "@);
                lemma_first_non_space_concat("✅ Killed "@ + decimal(count as nat) + " "@, name@);
                lemma_first_non_space_concat("✅ Killed "@ + decimal(count as nat) + " "@ + name@, " processes, memory freed"@);
            },
            DynKey::CliNoProcess(name) => {
                reveal_strlit("ℹ️  No ");
                assert(first_non_space("ℹ️  No "@) == cli_symbol(key));
                lemma_first_non_space_concat("ℹ️  No "@, name@);
                lemma_first_non_space_concat("ℹ️  No "@ + name@, " processes found"@);
            },
            DynKey::CliFoundDetail { name, pid, mem } => {
                reveal_strlit("🔍 Found ");
                assert(first_non_space("🔍 Found "@) == cli_symbol(key));
                lemma_first_non_space_concat("🔍 Found "@, name@);
                lemma_first_non_space_concat("🔍 Found "@ + name@, " process: PID="@);
                lemma_first_non_space_concat("🔍 Found "@ + name@ + " process: PID="@, decimal(pid as nat));
                lemma_first_non_space_concat("🔍 Found "@ + name@ + " process: PID="@ + decimal(pid as nat), ", Memory="@);
                lemma_first_non_space_concat("🔍 Found "@ + name@ + " process: PID="@ + decimal(pid as nat) + ", Memory="@, mem@);
            },
            DynKey::CliCannotTerminate { pid, error } => {
                reveal_strlit("⚠️  Cannot terminate process ");
                assert(first_non_space("⚠️  Cannot terminate process "@) == cli_symbol(key));
                lemma_first_non_space_concat("⚠️  Cannot terminate process "@, decimal(pid as nat));
                lemma_first_non_space_concat("⚠️  Cannot terminate process "@ + decimal(pid as nat), ": "@);
                lemma_first_non_space_concat("⚠️  Cannot terminate process "@ + decimal(pid as nat) + ": "@, error@);
            },
            DynKey::CliTerminated(pid) => {
                reveal_strlit("✅ Terminated process ");
                assert(first_non_space("✅ Terminated process "@) == cli_symbol(key));
                lemma_first_non_space_concat("✅ Terminated process "@, decimal(pid as nat));
            },
            DynKey::CliProcessDetail { name, pid, mem } => {
                reveal_strlit("  📋 ");
                assert("  📋 "@.drop_first().drop_first()[0] == "  📋 "@[2]);
                assert(first_non_space("  📋 "@) == cli_symbol(key));
                lemma_first_non_space_concat("  📋 "@, name@);
                lemma_first_non_space_concat("  📋 "@ + name@, " process: PID="@);
                lemma_first_non_space_concat("  📋 "@ + name@ + " process: PID="@, decimal(pid as nat));
                lemma_first_non_space_concat("  📋 "@ + name@ + " process: PID="@ + decimal(pid as nat), ", Memory="@);
                lemma_first_non_space_concat("  📋 "@ + name@ + " process: PID="@ + decimal(pid as nat) + ", Memory="@, mem@);
            },
            DynKey::CliSigtermFailed(pid) => {
                reveal_strlit("⚠️  Process ");
                assert(first_non_space("⚠️  Process "@) == cli_symbol(key));
                lemma_first_non_space_concat("⚠️  Process "@, decimal(pid as nat));
                lemma_first_non_space_concat("⚠️  Process "@ + decimal(pid as nat), " did not respond to SIGTERM, using SIGKILL"@);
            },
            _ => {},
        },
    }
}

/// Any request that is neither empty nor `auto` decides the language by
/// itself, whatever the environment's override and the locale say.
pub proof fn law_explicit_request_decides(pre: LangState, request: &str, post: LangState)
    requires
        request@.len() > 0,
        request@ != "auto"@,
        initialized(pre, Some(request), post),
    ensures
        post.current == Some(lang_of_lowercase(lowercase(request@))),
        post.env_lang == pre.env_lang,
        post.locale == pre.locale,
{
}

/// Without a request, or with an empty or `auto` one, automatic detection
/// decides: the override when set, else the locale.
pub proof fn law_no_request_detects(pre: LangState, hint: Option<&str>, post: LangState)
    requires
        hint is None || hint.unwrap()@.len() == 0 || hint.unwrap()@ == "auto"@,
        initialized(pre, hint, post),
    ensures
        pre.env_lang matches Some(v) ==> post.current == Some(lang_of_lowercase(lowercase(v@))),
        pre.env_lang is None ==> post.current == Some(lang_of_locale(opt_view(pre.locale))),
{
}

/// How each parameterised message is laid out: its fixed words, and its
/// values in the order shown (sizes before totals, names before pids).
pub proof fn law_message_layout(key: DynKey)
    ensures
        key matches DynKey::MsgKilledCount(n) ==> dyn_text(Lang::Zh, key) == "[OK] 已终止 "@ + decimal(n as nat) + " 个进程（内存最高 40%）"@,
        key matches DynKey::MsgKillFailed(e) ==> dyn_text(Lang::Zh, key) == "✕ 终止进程失败: "@ + e@,
        key matches DynKey::MsgAutoKilled(n) ==> dyn_text(Lang::Zh, key) == "» 已自动终止 "@ + decimal(n as nat) + " 个高内存进程"@,
        key matches DynKey::MsgKilledProcess(pid) ==> dyn_text(Lang::Zh, key) == "[OK] 已终止进程 "@ + decimal(pid as nat),
        key matches DynKey::TableTitle { name, count } ==> dyn_text(Lang::Zh, key) == "进程列表 - "@ + name@ + " ("@ + decimal(count as nat) + " 个)"@,
        key matches DynKey::RefreshIntervalSecs(secs) ==> dyn_text(Lang::Zh, key) == decimal(secs as nat) + " 秒"@,
        key matches DynKey::CliThreshold(v) ==> dyn_text(Lang::Zh, key) == "📊 内存阈值: "@ + decimal(v as nat) + "%"@,
        key matches DynKey::CliInterval(v) ==> dyn_text(Lang::Zh, key) == "⏱️  检查间隔: "@ + decimal(v as nat) + " 秒"@,
        key matches DynKey::CliTarget(v) ==> dyn_text(Lang::Zh, key) == "🎯 目标进程: "@ + v@,
        key matches DynKey::CliMemoryUsage { used, total, percent } ==> dyn_text(Lang::Zh, key) == "💾 内存使用: "@ + used@ + " / "@ + total@ + " ("@ + percent@ + "%)"@,
        key matches DynKey::CliMemoryWarning { percent, threshold } ==> dyn_text(Lang::Zh, key) == "⚠️  内存使用率 "@ + percent@ + "% 超过阈值 "@ + decimal(threshold as nat) + "%"@,
        key matches DynKey::CliKilledReleased { count, name } ==> dyn_text(Lang::Zh, key) == "✅ 已杀死 "@ + decimal(count as nat) + " 个 "@ + name@ + " 进程，释放内存"@,
        key matches DynKey::CliNoProcess(name) ==> dyn_text(Lang::Zh, key) == "ℹ️  未找到 "@ + name@ + " 进程"@,
        key matches DynKey::CliFoundDetail { name, pid, mem } ==> dyn_text(Lang::Zh, key) == "🔍 找到 "@ + name@ + " 进程: PID="@ + decimal(pid as nat) + ", 内存="@ + mem@,
        key matches DynKey::CliCannotTerminate { pid, error } ==> dyn_text(Lang::Zh, key) == "⚠️  无法终止进程 "@ + decimal(pid as nat) + ": "@ + error@,
        key matches DynKey::CliTerminated(pid) ==> dyn_text(Lang::Zh, key) == "✅ 已终止进程 "@ + decimal(pid as nat),
        key matches DynKey::CliProcessDetail { name, pid, mem } ==> dyn_text(Lang::Zh, key) == "  📋 "@ + name@ + " 进程: PID="@ + decimal(pid as nat) + ", 内存="@ + mem@,
        key matches DynKey::CliSigtermFailed(pid) ==> dyn_text(Lang::Zh, key) == "⚠️  进程 "@ + decimal(pid as nat) + " 未响应 SIGTERM，使用 SIGKILL"@,
        key matches DynKey::MsgKilledCount(n) ==> dyn_text(Lang::En, key) == "[OK] Killed "@ + decimal(n as nat) + " processes (top 40% memory)"@,
        key matches DynKey::MsgKillFailed(e) ==> dyn_text(Lang::En, key) == "✕ Failed to kill processes: "@ + e@,
        key matches DynKey::MsgAutoKilled(n) ==> dyn_text(Lang::En, key) == "» Auto-killed "@ + decimal(n as nat) + " high-memory processes"@,
        key matches DynKey::MsgKilledProcess(pid) ==> dyn_text(Lang::En, key) == "[OK] Terminated process "@ + decimal(pid as nat),
        key matches DynKey::TableTitle { name, count } ==> dyn_text(Lang::En, key) == "Processes - "@ + name@ + " ("@ + decimal(count as nat) + " total)"@,
        key matches DynKey::RefreshIntervalSecs(secs) ==> dyn_text(Lang::En, key) == decimal(secs as nat) + "s"@,
        key matches DynKey::CliThreshold(v) ==> dyn_text(Lang::En, key) == "📊 Memory threshold: "@ + decimal(v as nat) + "%"@,
        key matches DynKey::CliInterval(v) ==> dyn_text(Lang::En, key) == "⏱️  Check interval: "@ + decimal(v as nat) + "s"@,
        key matches DynKey::CliTarget(v) ==> dyn_text(Lang::En, key) == "🎯 Target process: "@ + v@,
        key matches DynKey::CliMemoryUsage { used, total, percent } ==> dyn_text(Lang::En, key) == "💾 Memory: "@ + used@ + " / "@ + total@ + " ("@ + percent@ + "%)"@,
        key matches DynKey::CliMemoryWarning { percent, threshold } ==> dyn_text(Lang::En, key) == "⚠️  Memory usage "@ + percent@ + "% exceeds threshold "@ + decimal(threshold as nat) + "%"@,
        key matches DynKey::CliKilledReleased { count, name } ==> dyn_text(Lang::En, key) == "✅ Killed "@ + decimal(count as nat) + " "@ + name@ + " processes, memory freed"@,
        key matches DynKey::CliNoProcess(name) ==> dyn_text(Lang::En, key) == "ℹ️  No "@ + name@ + " processes found"@,
        key matches DynKey::CliFoundDetail { name, pid, mem } ==> dyn_text(Lang::En, key) == "🔍 Found "@ + name@ + " process: PID="@ + decimal(pid as nat) + ", Memory="@ + mem@,
        key matches DynKey::CliCannotTerminate { pid, error } ==> dyn_text(Lang::En, key) == "⚠️  Cannot terminate process "@ + decimal(pid as nat) + ": "@ + error@,
        key matches DynKey::CliTerminated(pid) ==> dyn_text(Lang::En, key) == "✅ Terminated process "@ + decimal(pid as nat),
        key matches DynKey::CliProcessDetail { name, pid, mem } ==> dyn_text(Lang::En, key) == "  📋 "@ + name@ + " process: PID="@ + decimal(pid as nat) + ", Memory="@ + mem@,
        key matches DynKey::CliSigtermFailed(pid) ==> dyn_text(Lang::En, key) == "⚠️  Process "@ + decimal(pid as nat) + " did not respond to SIGTERM, using SIGKILL"@,
{
}

/// English is chosen for exactly the tags `en`, `en-us`, `en-gb` and
/// `english` (compared after lower-casing); every other tag, `zh` among
/// them, chooses Chinese. A system locale chooses Chinese when it begins
/// with `zh` or is unknown, and English otherwise.
pub proof fn law_language_tags(tag: Seq<char>, locale: Seq<char>)
    ensures
        lang_of_lowercase("en"@) == Lang::En,
        lang_of_lowercase("en-us"@) == Lang::En,
        lang_of_lowercase("en-gb"@) == Lang::En,
        lang_of_lowercase("english"@) == Lang::En,
        lang_of_lowercase("zh"@) == Lang::Zh,
        (tag != "en"@ && tag != "en-us"@ && tag != "en-gb"@ && tag != "english"@) ==> lang_of_lowercase(tag)
            == Lang::Zh,
        lang_of_locale(None) == Lang::Zh,
        (locale.len() >= 2 && locale[0] == 'z' && locale[1] == 'h') ==> lang_of_locale(Some(locale))
            == Lang::Zh,
        !(locale.len() >= 2 && locale[0] == 'z' && locale[1] == 'h') ==> lang_of_locale(Some(locale))
            == Lang::En,
{
    reveal_strlit("en");
    reveal_strlit("en-us");
    reveal_strlit("en-gb");
    reveal_strlit("english");
    reveal_strlit("zh");
    assert("zh"@ != "en"@ && "zh"@ != "en-us"@ && "zh"@ != "en-gb"@ && "zh"@ != "english"@) by {
        assert("zh"@[0] != "en"@[0]);
        assert("zh"@.len() != "en-us"@.len());
        assert("zh"@.len() != "en-gb"@.len());
        assert("zh"@.len() != "english"@.len());
    }
    if locale.len() >= 2 && locale[0] == 'z' && locale[1] == 'h' {
        assert(locale.subrange(0, 2) =~= "zh"@);
    } else if locale.len() >= 2 {
        if locale.subrange(0, 2) == "zh"@ {
            assert(locale.subrange(0, 2)[0] == locale[0]);
            assert(locale.subrange(0, 2)[1] == locale[1]);
        }
    }
}

/// A character of the CJK Unified Ideographs block (U+4E00 to U+9FFF).
pub open spec fn is_cjk(c: char) -> bool {
    0x4E00 <= c as u32 <= 0x9FFF
}

/// `s` holds a Chinese character.
pub open spec fn has_cjk(s: Seq<char>) -> bool {
    exists|i: int| 0 <= i < s.len() && is_cjk(#[trigger] s[i])
}

/// `s` holds no Chinese character.
pub open spec fn no_cjk(s: Seq<char>) -> bool {
    forall|i: int| 0 <= i < s.len() ==> !is_cjk(#[trigger] s[i])
}

/// Every fixed text is written in its own language: the Chinese text holds
/// Chinese characters and the English one none, except for the shared
/// column names `PID` and `CPU`, which read the same in both.
pub proof fn law_texts_are_in_their_language(key: Key)
    ensures
        (key is pid_header || key is cpu_header) ==> key_text(Lang::Zh, key) == key_text(Lang::En, key),
        !(key is pid_header || key is cpu_header) ==> has_cjk(key_text(Lang::Zh, key)),
        no_cjk(key_text(Lang::En, key)),
{
    match key {
        Key::target_process_label => {
            reveal_strlit("目标进程");
            reveal_strlit("TARGET");
            assert(is_cjk("目标进程"@[0]));
        },
        Key::memory_usage_label => {
            reveal_strlit("内存使用");
            reveal_strlit("MEMORY");
            assert(is_cjk("内存使用"@[0]));
        },
        Key::usage_label => {
            reveal_strlit("使用率");
            reveal_strlit("USAGE");
            assert(is_cjk("使用率"@[0]));
        },
        Key::threshold_label => {
            reveal_strlit("阈值");
            reveal_strlit("THRESHOLD");
            assert(is_cjk("阈值"@[0]));
        },
        Key::refresh_interval_label => {
            reveal_strlit("刷新间隔");
            reveal_strlit("REFRESH");
            assert(is_cjk("刷新间隔"@[0]));
        },
        Key::auto_cleanup_label => {
            reveal_strlit("自动清理");
            reveal_strlit("AUTO CLEANUP");
            assert(is_cjk("自动清理"@[0]));
        },
        Key::auto_cleanup_enabled => {
            reveal_strlit("开启 · 清理内存最高 40%");
            reveal_strlit("ON · kill top 40% memory");
            assert(is_cjk("开启 · 清理内存最高 40%"@[0]));
        },
        Key::system_status => {
            reveal_strlit("系统状态");
            reveal_strlit("SYSTEM STATUS");
            assert(is_cjk("系统状态"@[0]));
        },
        Key::system_info => {
            reveal_strlit("系统信息");
            reveal_strlit("SYSTEM INFO");
            assert(is_cjk("系统信息"@[0]));
        },
        Key::pid_header => {
            reveal_strlit("PID");
        },
        Key::process_name_header => {
            reveal_strlit("进程名");
            reveal_strlit("PROCESS");
            assert(is_cjk("进程名"@[0]));
        },
        Key::cpu_header => {
            reveal_strlit("CPU");
        },
        Key::memory_header => {
            reveal_strlit("内存");
            reveal_strlit("MEMORY");
            assert(is_cjk("内存"@[0]));
        },
        Key::help_up => {
            reveal_strlit(" 上 ");
            reveal_strlit(" Up ");
            assert(is_cjk(" 上 "@[1]));
        },
        Key::help_down => {
            reveal_strlit(" 下 ");
            reveal_strlit(" Down ");
            assert(is_cjk(" 下 "@[1]));
        },
        Key::help_kill_selected => {
            reveal_strlit(" 杀死选中 ");
            reveal_strlit(" Kill Sel ");
            assert(is_cjk(" 杀死选中 "@[1]));
        },
        Key::help_kill_high_mem => {
            reveal_strlit(" 清理高内存(40%) ");
            reveal_strlit(" Kill Top 40% ");
            assert(is_cjk(" 清理高内存(40%) "@[1]));
        },
        Key::help_refresh => {
            reveal_strlit(" 刷新 ");
            reveal_strlit(" Refresh ");
            assert(is_cjk(" 刷新 "@[1]));
        },
        Key::help_quit => {
            reveal_strlit(" 退出");
            reveal_strlit(" Quit");
            assert(is_cjk(" 退出"@[1]));
        },
        Key::help_lang => {
            reveal_strlit(" 切换语言");
            reveal_strlit(" Language");
            assert(is_cjk(" 切换语言"@[1]));
        },
        Key::confirm_cleanup => {
            reveal_strlit("确认清理内存最高的 40% 进程? ");
            reveal_strlit("Confirm kill top 40% memory processes? ");
            assert(is_cjk("确认清理内存最高的 40% 进程? "@[0]));
        },
        Key::confirm_kill_selected => {
            reveal_strlit("确认杀死选中进程? ");
            reveal_strlit("Confirm kill selected process? ");
            assert(is_cjk("确认杀死选中进程? "@[0]));
        },
        Key::confirm_yes => {
            reveal_strlit(" 是 ");
            reveal_strlit(" Yes ");
            assert(is_cjk(" 是 "@[1]));
        },
        Key::confirm_no => {
            reveal_strlit(" 否");
            reveal_strlit(" No");
            assert(is_cjk(" 否"@[1]));
        },
        Key::msg_refreshed => {
            reveal_strlit("» 已刷新");
            reveal_strlit("» Refreshed");
            assert(is_cjk("» 已刷新"@[2]));
        },
        Key::msg_lang_switched => {
            reveal_strlit("● 语言已切换为中文");
            reveal_strlit("● Language switched to English");
            assert(is_cjk("● 语言已切换为中文"@[2]));
        },
        Key::cli_starting => {
            reveal_strlit("🚀 ra-killer 启动");
            reveal_strlit("🚀 ra-killer started");
            assert(is_cjk("🚀 ra-killer 启动"@[12]));
        },
        Key::cli_kill_error => {
            reveal_strlit("❌ 杀死进程时出错");
            reveal_strlit("❌ Error killing processes");
            assert(is_cjk("❌ 杀死进程时出错"@[2]));
        },
        Key::cli_hint_once => {
            reveal_strlit("  💡 提示: 使用 --once 或 -o 参数可以只运行一次检查");
            reveal_strlit("  💡 Tip: Use --once or -o to run a single check");
            assert(is_cjk("  💡 提示: 使用 --once 或 -o 参数可以只运行一次检查"@[4]));
        },
        Key::err_kill_failed => {
            reveal_strlit("kill 命令失败");
            reveal_strlit("kill command failed");
            assert(is_cjk("kill 命令失败"@[5]));
        },
        Key::err_sigkill_failed => {
            reveal_strlit("SIGKILL 失败");
            reveal_strlit("SIGKILL failed");
            assert(is_cjk("SIGKILL 失败"@[8]));
        },
    }
}

} // verus!
