use ra_killer::i18n::{
    init, lang, lang_from_locale, lang_from_lowercase, lang_from_str, t, td, toggle, text, DynKey, Key,
    Lang, LangState,
};

#[test]
fn language_tags() {
    assert_eq!(lang_from_str("en"), Lang::En);
    assert_eq!(lang_from_str("EN"), Lang::En);
    assert_eq!(lang_from_str("En-Us"), Lang::En);
    assert_eq!(lang_from_str("en-GB"), Lang::En);
    assert_eq!(lang_from_str("English"), Lang::En);
    assert_eq!(lang_from_str("zh"), Lang::Zh);
    assert_eq!(lang_from_str("fr"), Lang::Zh);
    assert_eq!(lang_from_str("en_US"), Lang::Zh);
    assert_eq!(lang_from_str(""), Lang::Zh);
    assert_eq!(lang_from_lowercase("EN"), Lang::Zh);
    assert_eq!(lang_from_lowercase("english"), Lang::En);
}

#[test]
fn locales() {
    assert_eq!(lang_from_locale(Some("zh-CN")), Lang::Zh);
    assert_eq!(lang_from_locale(Some("zh")), Lang::Zh);
    assert_eq!(lang_from_locale(Some("en-US")), Lang::En);
    assert_eq!(lang_from_locale(Some("z")), Lang::En);
    assert_eq!(lang_from_locale(Some("ZH-cn")), Lang::En);
    assert_eq!(lang_from_locale(None), Lang::Zh);
}

#[test]
fn explicit_request_wins() {
    let mut s = LangState::new(Some("zh".to_string()), None);
    init(&mut s, Some("english"));
    assert_eq!(s.current, Some(Lang::En));
    assert_eq!(lang(&mut s), Lang::En);
}

#[test]
fn auto_uses_environment_override() {
    let mut s = LangState::new(Some("EN-GB".to_string()), None);
    init(&mut s, Some("auto"));
    assert_eq!(s.current, Some(Lang::En));
    let mut s = LangState::new(Some("de".to_string()), None);
    init(&mut s, Some(""));
    assert_eq!(s.current, Some(Lang::Zh));
    let mut s = LangState::new(Some("en".to_string()), None);
    init(&mut s, None);
    assert_eq!(s.current, Some(Lang::En));
}

#[test]
fn first_query_decides() {
    let mut s = LangState::new(Some("en".to_string()), None);
    assert_eq!(s.current, None);
    assert_eq!(lang(&mut s), Lang::En);
    assert_eq!(s.current, Some(Lang::En));
    let mut s = LangState::new(None, None);
    assert_eq!(lang(&mut s), Lang::Zh);
    assert_eq!(s.current, Some(Lang::Zh));
    let mut s = LangState::new(None, Some("en-US".to_string()));
    assert_eq!(lang(&mut s), Lang::En);
    let mut s = LangState::new(None, Some("zh-CN".to_string()));
    assert_eq!(lang(&mut s), Lang::Zh);
    let mut s = LangState::new(Some("zh".to_string()), Some("en-US".to_string()));
    assert_eq!(lang(&mut s), Lang::Zh);
    let mut s = LangState::with_system_locale(None);
    let l = lang(&mut s);
    assert_eq!(s.current, Some(l));
    assert_eq!(lang(&mut s), l);
}

#[test]
fn auto_falls_back_to_locale() {
    let mut s = LangState::new(None, Some("fr-FR".to_string()));
    init(&mut s, Some("auto"));
    assert_eq!(s.current, Some(Lang::En));
    toggle(&mut s);
    assert_eq!(s.current, Some(Lang::Zh));
}

#[test]
fn toggle_switches_and_twice_restores() {
    let mut s = LangState::new(None, None);
    init(&mut s, Some("en"));
    toggle(&mut s);
    assert_eq!(lang(&mut s), Lang::Zh);
    toggle(&mut s);
    assert_eq!(lang(&mut s), Lang::En);
    let mut s = LangState::new(Some("english".to_string()), None);
    toggle(&mut s);
    assert_eq!(s.current, Some(Lang::Zh));
}

#[test]
fn fixed_texts() {
    let mut s = LangState::new(None, None);
    init(&mut s, Some("zh"));
    assert_eq!(t(&mut s, Key::target_process_label), "目标进程");
    assert_eq!(t(&mut s, Key::msg_lang_switched), "● 语言已切换为中文");
    init(&mut s, Some("en"));
    assert_eq!(t(&mut s, Key::target_process_label), "TARGET");
    assert_eq!(t(&mut s, Key::help_kill_high_mem), " Kill Top 40% ");
    assert_eq!(t(&mut s, Key::cli_hint_once), "  💡 Tip: Use --once or -o to run a single check");
    assert_eq!(text(Lang::Zh, Key::err_sigkill_failed), "SIGKILL 失败");
    assert_eq!(text(Lang::En, Key::pid_header), text(Lang::Zh, Key::pid_header));
}

#[test]
fn parameterised_texts() {
    let mut s = LangState::new(None, None);
    init(&mut s, Some("en"));
    assert_eq!(td(&mut s, DynKey::MsgKilledCount(3)), "[OK] Killed 3 processes (top 40% memory)");
    assert_eq!(td(&mut s, DynKey::RefreshIntervalSecs(20)), "20s");
    assert_eq!(
        td(&mut s, DynKey::TableTitle { name: "rust-analyzer".to_string(), count: 12 }),
        "Processes - rust-analyzer (12 total)"
    );
    assert_eq!(
        td(&mut s, DynKey::CliMemoryWarning { percent: "88.0".to_string(), threshold: 85 }),
        "⚠️  Memory usage 88.0% exceeds threshold 85%"
    );
    init(&mut s, Some("zh"));
    assert_eq!(
        td(&mut s, DynKey::CliProcessDetail { name: "rust-analyzer".to_string(), pid: 32918, mem: "1.07 GB".to_string() }),
        "  📋 rust-analyzer 进程: PID=32918, 内存=1.07 GB"
    );
    assert_eq!(td(&mut s, DynKey::CliThreshold(85)), "📊 内存阈值: 85%");
    assert_eq!(td(&mut s, DynKey::CliInterval(20)), "⏱️  检查间隔: 20 秒");
    assert_eq!(
        td(&mut s, DynKey::CliMemoryUsage { used: "20.77 GB".to_string(), total: "31.06 GB".to_string(), percent: "66.9".to_string() }),
        "💾 内存使用: 20.77 GB / 31.06 GB (66.9%)"
    );
    assert_eq!(td(&mut s, DynKey::CliTerminated(8157)), "✅ 已终止进程 8157");
    assert_eq!(
        td(&mut s, DynKey::CliKilledReleased { count: 2, name: "rust-analyzer".to_string() }),
        "✅ 已杀死 2 个 rust-analyzer 进程，释放内存"
    );
    assert_eq!(td(&mut s, DynKey::MsgKilledProcess(0)), "[OK] 已终止进程 0");
}

fn is_pictograph(c: char) -> bool {
    let u = c as u32;
    (0x1F000..=0x1FAFF).contains(&u) || (0x2600..=0x27BF).contains(&u) || u == 0xFE0F
}

#[test]
fn interface_texts_plain_and_log_texts_with_symbols() {
    for lang in [Lang::Zh, Lang::En] {
        assert!(!text(lang, Key::help_quit).chars().any(is_pictograph));
        assert!(!text(lang, Key::confirm_cleanup).chars().any(is_pictograph));
        assert!(text(lang, Key::cli_starting).chars().any(is_pictograph));
        let mut s = LangState::new(None, None);
        init(&mut s, Some(if lang == Lang::En { "en" } else { "zh" }));
        assert!(td(&mut s, DynKey::MsgKilledCount(4)).starts_with("[OK] "));
        assert!(td(&mut s, DynKey::MsgAutoKilled(4)).starts_with("» "));
        let failed = td(&mut s, DynKey::MsgKillFailed("boom".to_string()));
        assert!(failed.starts_with("✕ ") && failed.ends_with("boom"));
        let detail = td(&mut s, DynKey::CliProcessDetail { name: "x".to_string(), pid: 1, mem: "1 B".to_string() });
        assert_eq!(detail.trim_start().chars().next(), Some('📋'));
        let warn = td(&mut s, DynKey::CliSigtermFailed(3));
        assert_eq!(warn.chars().next(), Some('⚠'));
    }
}
