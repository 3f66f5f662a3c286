//! How a session comes about: the command line, settings, providers, checks, earlier sessions
//! and side questions.

use attacode::args::{split_long, Args, USAGE};
use attacode::bootstrap::{
    api_key, client_error, model_name_from_provider, plan_engine, resolve_provider, resolve_resume_target,
    resolve_settings, session_id, unless_empty, BootstrapConfig, BootstrapError, ProviderConfig,
    Resume, ResumeFault, Settings, CORE_DEFAULT_MAX_TOKENS, FALLBACK_MAX_TOKENS,
};
use attacode::btw::{
    describe_failure, say, AnswerEvent, Answering, MessageRole, ModelContent, ModelMessage, SideQuestions, INTERRUPTED,
    NO_CONTEXT, REPLAY_EXCHANGES,
};
use attacode::commands::CommandInfo;
use attacode::doctor::{
    checks, CheckResult, CheckedSettings, Enforcement, HealthReport, HealthStatus, NamedCheck,
    SandboxCheck, SelectedProvider,
};
use attacode::sessions::{describe, first_line, search_text, SessionSummary, MAX_CANDIDATES};

// ---- earlier sessions ----------------------------------------------------------------

fn summary(preview: &str, title: Option<&str>) -> SessionSummary {
    SessionSummary {
        session_id: "7YWHMfk9JZe0LM0g1ZauHu".into(),
        last_modified: "2026-09-02 10:00".into(),
        message_count: 4,
        preview: preview.into(),
        title: title.map(Into::into),
    }
}

#[test]
fn the_candidate_name_is_the_whole_session_id() {
    let s = summary("hello", None);
    let c = describe(&s);
    assert_eq!(c.name, s.session_id.to_string());
}

#[test]
fn a_title_wins_over_the_preview() {
    let c = describe(&summary("first message", Some("重构权限门")));
    assert!(c.description.contains("重构权限门"));
    assert!(!c.description.contains("first message"));
}

#[test]
fn the_description_carries_when_and_how_big() {
    let c = describe(&summary("hi", None));
    assert!(c.description.contains("2026-09-02 10:00"));
    assert!(c.description.contains("4 msgs"));
    assert_eq!(c.description, "2026-09-02 10:00  4 msgs  hi");
}

#[test]
fn a_long_cjk_preview_is_truncated_on_a_character_boundary() {
    let long = "问".repeat(200);
    let out = first_line(&long);
    assert!(out.ends_with('…'));
    assert_eq!(out.chars().count(), 61);
}

#[test]
fn an_empty_preview_still_produces_a_row() {
    let c = describe(&summary("\n\n", None));
    assert!(c.description.contains("4 msgs"));
}

#[test]
fn a_preview_is_taken_from_its_first_line_that_is_not_blank() {
    assert_eq!(first_line("\n  \n  hello  \nthere"), "hello");
    assert_eq!(first_line(&"x".repeat(60)), "x".repeat(60));
    assert_eq!(describe(&summary("hi", Some("  "))).description, "2026-09-02 10:00  4 msgs  hi");
}

#[test]
fn a_blank_search_asks_for_the_latest_sessions() {
    assert_eq!(search_text("  "), None);
    assert_eq!(search_text(" gate "), Some("gate".to_string()));
    assert_eq!(MAX_CANDIDATES, 20);
    assert!(attacode::sessions::candidates(None).is_empty());
    let rows = attacode::sessions::candidates(Some(vec![summary("a", None), summary("b", None)]));
    assert_eq!(rows.len(), 2);
    assert!(rows[1].description.ends_with("  b"));
}

#[test]
fn a_command_shows_its_arguments_where_it_has_any() {
    let info = |hint: Option<&str>| CommandInfo {
        name: "commit".into(),
        description: "Create a git commit".into(),
        argument_hint: hint.map(Into::into),
    };
    let rows = attacode::commands::candidates(&vec![info(Some("message")), info(Some("")), info(None)]);
    assert_eq!(rows[0].name, "/commit");
    assert_eq!(rows[0].description, "Create a git commit  (args: message)");
    assert_eq!(rows[1].description, "Create a git commit");
    assert_eq!(rows[2].description, "Create a git commit");
}

// ---- checks --------------------------------------------------------------------------

fn plain_settings(model: &str) -> CheckedSettings {
    CheckedSettings {
        model_name: model.into(),
        providers: 0,
        permission_mode: "Default".into(),
        permission_rules: 0,
        local_permission_rules: 0,
        allow_write: 0,
        scripts: 0,
        task_models: 0,
        recorder: false,
    }
}

fn full_sandbox() -> SandboxCheck {
    SandboxCheck {
        mode: "MacOSSandboxExec".into(),
        enforcement: Enforcement::Full,
        unmet: Vec::new(),
    }
}

fn builtin() -> Option<SelectedProvider> {
    Some(SelectedProvider { id: "anthropic".into(), base_url: None })
}

fn report(settings: &CheckedSettings, history_ok: bool) -> Vec<NamedCheck> {
    checks(settings, &builtin(), history_ok, &full_sandbox())
}

fn find<'a>(report: &'a [NamedCheck], name: &str) -> &'a CheckResult {
    &report.iter().find(|c| c.name == name).unwrap().result
}

#[test]
fn every_check_is_in_the_report() {
    let r = report(&plain_settings("m"), true);
    let names: Vec<_> = r.iter().map(|c| c.name.as_str()).collect();
    assert_eq!(
        names,
        ["model.provider", "history.store", "sandbox", "permissions", "settings.unused"]
    );
}

#[test]
fn a_plain_settings_file_has_nothing_ignored() {
    let r = report(&plain_settings("m"), true);
    assert_eq!(find(&r, "settings.unused").status, HealthStatus::Healthy);
}

#[test]
fn sections_we_do_not_consume_are_named_rather_than_ignored() {
    let mut s = plain_settings("m");
    s.scripts = 1;
    s.recorder = true;
    let r = report(&s, true);
    let c = find(&r, "settings.unused");
    assert_eq!(c.status, HealthStatus::Degraded);
    assert!(c.summary.contains("scripts"), "got: {}", c.summary);
    assert!(c.summary.contains("recorder"), "got: {}", c.summary);
    assert!(c.summary.contains("script engine"), "got: {}", c.summary);
    assert_eq!(
        c.summary,
        "configured but ignored — `scripts` (1): this build carries no script engine \
         (`script-host`), so no binding runs · `recorder` (1): record/replay is not wired, so \
         nothing is recorded or replayed"
    );
}

#[test]
fn an_in_memory_session_is_reported_as_degraded() {
    let r = report(&plain_settings("m"), false);
    let store = find(&r, "history.store");
    assert_eq!(store.status, HealthStatus::Degraded);
    assert!(store.summary.contains("--continue"));
}

#[test]
fn bypass_permissions_never_reports_as_fine() {
    let mut s = plain_settings("m");
    s.permission_mode = "BypassPermissions".into();
    let r = report(&s, true);
    assert_eq!(find(&r, "permissions").status, HealthStatus::Degraded);
    let r = report(&plain_settings("m"), true);
    assert_eq!(
        find(&r, "permissions").summary,
        "mode Default · 0 project + 0 local rules · 0 write exemptions"
    );
}

#[test]
fn the_default_session_reports_which_provider_and_model_are_in_force() {
    let r = report(&plain_settings("example-opus5"), true);
    let p = find(&r, "model.provider");
    assert_eq!(p.status, HealthStatus::Healthy);
    assert!(p.summary.contains("example-opus5"), "got: {}", p.summary);
    assert!(p.summary.contains("ANTHROPIC_"), "got: {}", p.summary);
    assert!(p.summary.contains("anthropic"), "got: {}", p.summary);
}

#[test]
fn a_configured_provider_is_named_along_with_its_endpoint() {
    let mut settings = plain_settings("deepseek-chat");
    settings.providers = 1;
    let selected = Some(SelectedProvider {
        id: "deepseek".into(),
        base_url: Some("https://api.deepseek.com/v1".into()),
    });
    let r = checks(&settings, &selected, true, &full_sandbox());
    let p = find(&r, "model.provider");
    assert!(p.summary.contains("deepseek"), "got: {}", p.summary);
    assert!(p.summary.contains("https://api.deepseek.com/v1"), "got: {}", p.summary);
    assert_eq!(
        p.summary,
        "provider `deepseek` → https://api.deepseek.com/v1 · model `deepseek-chat`"
    );
}

#[test]
fn no_provider_in_force_is_never_fine() {
    let mut settings = plain_settings("m");
    settings.providers = 2;
    let r = checks(&settings, &None, true, &full_sandbox());
    let p = find(&r, "model.provider");
    assert_eq!(p.status, HealthStatus::Degraded);
    assert_eq!(p.summary, "2 providers, none selected");
}

#[test]
fn a_sandbox_that_does_not_hold_says_so() {
    let mut sandbox = full_sandbox();
    sandbox.enforcement = Enforcement::Partial;
    sandbox.unmet = vec!["network".into(), "devices".into()];
    let r = checks(&plain_settings("m"), &builtin(), true, &sandbox);
    assert_eq!(find(&r, "sandbox").summary, "MacOSSandboxExec, partially: network; devices");
    sandbox.enforcement = Enforcement::Unconfined;
    let r = checks(&plain_settings("m"), &builtin(), true, &sandbox);
    assert_eq!(find(&r, "sandbox").status, HealthStatus::Degraded);
    assert_eq!(
        find(&r, "sandbox").summary,
        "no confinement (MacOSSandboxExec) — the model's shell commands run unrestricted"
    );
}

#[test]
fn findings_carry_their_details() {
    let mut s = plain_settings("m");
    s.scripts = 1;
    s.task_models = 2;
    let mut sandbox = full_sandbox();
    sandbox.unmet = vec!["net".into(), "a\\b".into()];
    let r = checks(&s, &builtin(), true, &sandbox);
    let details = |name: &str| find(&r, name).details.clone();
    assert_eq!(
        details("model.provider").as_deref(),
        Some("{\"base_url\":null,\"providers_configured\":0,\"selected\":\"anthropic\"}")
    );
    assert_eq!(details("history.store"), None);
    assert_eq!(details("permissions"), None);
    assert_eq!(
        details("sandbox").as_deref(),
        Some("{\"mode\":\"MacOSSandboxExec\",\"unmet\":[\"net\",\"a\\\\b\"]}")
    );
    assert_eq!(
        details("settings.unused").as_deref(),
        Some("{\"ignored\":[\"scripts\",\"task_models\"]}")
    );
    for d in r.iter().filter_map(|c| c.result.details.as_deref()) {
        let value: serde_json::Value = serde_json::from_str(d).unwrap();
        assert_eq!(value.to_string(), d);
    }
}

#[test]
fn the_rendered_report_names_every_check() {
    let report = HealthReport {
        label: "degraded".into(),
        checks: report(&plain_settings("m"), false),
    };
    let text = attacode::doctor::render(&report);
    assert!(text.starts_with("doctor: degraded"), "got: {text}");
    for name in ["model.provider", "history.store", "sandbox", "permissions", "settings.unused"] {
        assert!(text.contains(name), "{name} is missing:\n{text}");
    }
    assert!(text.contains("\n  ! history.store        in-memory only"));
    assert!(text.contains("\n  · sandbox              MacOSSandboxExec\n"));
    assert!(!text.ends_with('\n'));
}

// ---- settings and providers ----------------------------------------------------------

fn provider(api_type: &str, default_model: Option<&str>) -> ProviderConfig {
    ProviderConfig {
        api_type: Some(api_type.into()),
        base_url: Some("https://example.invalid/v1".into()),
        api_key: Some("k".into()),
        default_model: default_model.map(Into::into),
    }
}

fn settings(model: &str) -> Settings {
    Settings {
        model_name: model.into(),
        max_tokens: CORE_DEFAULT_MAX_TOKENS,
        providers: Vec::new(),
        default_provider: None,
        session_dir: None,
        allow_client_permission_override: true,
        instruction_file: None,
    }
}

fn config() -> BootstrapConfig {
    BootstrapConfig {
        fallback_model: "fallback-model".into(),
        model_override: None,
        fallback_max_tokens: FALLBACK_MAX_TOKENS,
        local_data_dir: "/proj/.atta".into(),
        resume: None,
    }
}

#[test]
fn a_single_provider_needs_no_default_provider() {
    let mut s = settings("m");
    s.providers.push(("deepseek".into(), provider("anthropic", None)));
    let (id, _) = resolve_provider(&s, None).unwrap();
    assert_eq!(id, "deepseek");
}

#[test]
fn default_provider_picks_among_several() {
    let mut s = settings("m");
    s.providers.push(("a".into(), provider("anthropic", None)));
    s.providers.push(("b".into(), provider("anthropic", None)));
    s.default_provider = Some("b".into());
    assert_eq!(resolve_provider(&s, None).unwrap().0, "b");
}

#[test]
fn several_providers_without_a_default_is_an_error_not_a_guess() {
    let mut s = settings("m");
    s.providers.push(("b".into(), provider("anthropic", None)));
    s.providers.push(("a".into(), provider("anthropic", None)));
    let err = resolve_provider(&s, None).unwrap_err();
    assert!(
        matches!(&err, BootstrapError::AmbiguousProvider(ids) if ids.contains('a') && ids.contains('b')),
        "got: {err:?}"
    );
    assert_eq!(err, BootstrapError::AmbiguousProvider("a, b".into()));
    assert_eq!(
        err.message(),
        "settings.json configures several providers (a, b) but no `default_provider`; name the \
         one this session should use"
    );
}

#[test]
fn a_default_provider_that_is_not_configured_says_so() {
    let mut s = settings("m");
    s.providers.push(("a".into(), provider("anthropic", None)));
    s.default_provider = Some("typo".into());
    assert!(matches!(
        resolve_provider(&s, None).unwrap_err(),
        BootstrapError::UnknownProvider(id) if id == "typo"
    ));
}

#[test]
fn no_providers_falls_back_to_anthropic_over_the_env() {
    let s = settings("m");
    let (id, cfg) = resolve_provider(&s, None).unwrap();
    assert_eq!(id, "anthropic");
    assert_eq!(cfg.api_type.as_deref(), Some("anthropic"));
    assert!(cfg.api_key.is_none());
    let (_, cfg) = resolve_provider(&s, Some("https://elsewhere".into())).unwrap();
    assert_eq!(cfg.base_url.as_deref(), Some("https://elsewhere"));
    let (_, cfg) = resolve_provider(&s, Some(String::new())).unwrap();
    assert_eq!(cfg.base_url, None);
}

#[test]
fn a_providers_own_key_wins_over_the_environment() {
    let cfg = provider("anthropic", None);
    assert_eq!(api_key(cfg.api_key, Some("env".into())).as_deref(), Some("k"));
    assert_eq!(api_key(None, Some("env".into())).as_deref(), Some("env"));
}

#[test]
fn a_providers_default_model_fills_in_when_nothing_nearer_spoke() {
    let s = resolve_settings(settings("fallback-model"), &config(), None);
    assert_eq!(s.model_name, "fallback-model");
    assert_eq!(
        model_name_from_provider(&s, &provider("anthropic", Some("deepseek-chat")), &config())
            .as_deref(),
        Some("deepseek-chat")
    );
    assert!(model_name_from_provider(&s, &provider("anthropic", Some(" ")), &config()).is_none());
}

#[test]
fn an_explicit_model_override_beats_the_providers_default() {
    let mut c = config();
    c.model_override = Some("example-opus5".into());
    let s = resolve_settings(settings("fallback-model"), &c, None);
    assert!(
        model_name_from_provider(&s, &provider("anthropic", Some("deepseek-chat")), &c).is_none()
    );
}

#[test]
fn a_configured_model_name_beats_the_providers_default() {
    let s = resolve_settings(settings("written-down"), &config(), None);
    assert_eq!(s.model_name, "written-down");
    assert!(model_name_from_provider(
        &s,
        &provider("anthropic", Some("deepseek-chat")),
        &config()
    )
    .is_none());
}

#[test]
fn nothing_configured_falls_back_to_the_caller_supplied_defaults() {
    let s = resolve_settings(settings("fallback-model"), &config(), None);
    assert_eq!(s.model_name, "fallback-model");
    assert_eq!(s.max_tokens, 8192);
    assert_eq!(s.session_dir.as_deref(), Some("/proj/.atta"));
    assert!(!s.allow_client_permission_override);
}

#[test]
fn env_model_override_beats_every_settings_layer() {
    let mut c = config();
    c.model_override = Some("from-env".into());
    assert_eq!(resolve_settings(settings("from-settings"), &c, None).model_name, "from-env");
}

#[test]
fn explicit_max_tokens_is_not_clobbered_by_the_fallback() {
    let mut loaded = settings("m");
    loaded.max_tokens = 4096;
    assert_eq!(resolve_settings(loaded, &config(), None).max_tokens, 4096);
}

#[test]
fn an_explicit_instruction_file_is_not_overridden_by_discovery() {
    let mut loaded = settings("m");
    loaded.instruction_file = Some("/somewhere/else.md".into());
    let s = resolve_settings(loaded, &config(), Some("/proj/FOUND.md".into()));
    assert_eq!(s.instruction_file.as_deref(), Some("/somewhere/else.md"));
    let s = resolve_settings(settings("m"), &config(), Some("/proj/FOUND.md".into()));
    assert_eq!(s.instruction_file.as_deref(), Some("/proj/FOUND.md"));
}

#[test]
fn an_engine_is_planned_from_the_settings_in_force() {
    let mut loaded = settings("fallback-model");
    loaded.providers.push(("deepseek".into(), provider("anthropic", Some("deepseek-chat"))));
    let plan = plan_engine(loaded, &config(), None, None).unwrap();
    assert_eq!(plan.provider_id, "deepseek");
    assert_eq!(plan.provider.api_key.as_deref(), Some("k"));
    assert_eq!(plan.settings.model_name, "deepseek-chat");
    assert_eq!(plan.settings.max_tokens, 8192);
    let mut loaded = settings("fallback-model");
    loaded.default_provider = Some("typo".into());
    loaded.providers.push(("deepseek".into(), provider("anthropic", None)));
    assert_eq!(
        plan_engine(loaded, &config(), None, None).unwrap_err(),
        BootstrapError::UnknownProvider("typo".into())
    );
}

#[test]
fn a_missing_key_on_a_first_run_is_named_for_what_it_is() {
    let e = "provider anthropic: missing api_key".to_string();
    assert_eq!(client_error(true, e.clone()), BootstrapError::MissingCredentials);
    assert_eq!(client_error(false, e.clone()), BootstrapError::Client(e));
    assert_eq!(
        client_error(true, "timeout".into()).message(),
        "failed to construct the model client: timeout"
    );
    assert_eq!(
        BootstrapError::MissingCredentials.message(),
        "missing API credentials: set ANTHROPIC_AUTH_TOKEN or ANTHROPIC_API_KEY"
    );
    assert_eq!(BootstrapError::Engine("x".into()).message(), "failed to build agent: x");
}

#[test]
fn a_session_asked_for_by_id_has_to_be_there() {
    let id = Some(Resume::Id("abc".into()));
    assert_eq!(resolve_resume_target(&id, true, None, None), Ok(Some("abc".into())));
    let err = resolve_resume_target(&id, true, Some("not base58".into()), None).unwrap_err();
    assert!(
        matches!(&err, BootstrapError::Resume { id, source: ResumeFault::BadId(e) }
            if id == "abc" && e == "not base58")
    );
    let err = resolve_resume_target(&id, false, None, None).unwrap_err();
    assert!(matches!(
        &err,
        BootstrapError::Resume { id, source: ResumeFault::NotFound(x) } if id == "abc" && x == "abc"
    ));
    assert!(err.message().starts_with("cannot resume session abc: "));
}

#[test]
fn the_latest_session_need_not_be_there() {
    let latest = Some(Resume::Latest);
    assert_eq!(resolve_resume_target(&latest, true, None, Some("x".into())), Ok(Some("x".into())));
    assert_eq!(resolve_resume_target(&latest, true, None, None), Ok(None));
    assert_eq!(resolve_resume_target(&latest, false, None, Some("x".into())), Ok(None));
    assert_eq!(resolve_resume_target(&None, true, None, Some("x".into())), Ok(None));
    assert_eq!(session_id(&Some("old".into()), "new".into()), "old");
    assert_eq!(session_id(&None, "new".into()), "new");
}

#[test]
fn an_empty_variable_is_no_variable() {
    assert_eq!(unless_empty(Some(String::new())), None);
    assert_eq!(unless_empty(Some("x".into())), Some("x".into()));
    assert_eq!(unless_empty(None), None);
}

// ---- the command line ----------------------------------------------------------------

fn parse(args: &[&str]) -> Result<Option<Args>, String> {
    Args::parse(&args.iter().map(|s| s.to_string()).collect())
}

#[test]
fn faults_of_the_command_line_are_named() {
    assert_eq!(parse(&["--model"]).unwrap_err(), "--model 需要一个值");
    assert_eq!(parse(&["--resume", ""]).unwrap_err(), "--resume 需要一个值");
    assert_eq!(parse(&["--modle"]).unwrap_err(), format!("未知参数: --modle\n\n{USAGE}"));
    assert_eq!(parse(&["--model="]).unwrap_err(), format!("未知参数: --model=\n\n{USAGE}"));
    assert_eq!(parse(&["--help=x"]).unwrap_err(), format!("--help 不接受 `=值` 形式\n\n{USAGE}"));
    assert_eq!(split_long("--model=a=b"), Some(("--model".into(), "a=b".into())));
    assert_eq!(split_long("--model"), None);
}

#[test]
fn later_arguments_win() {
    let a = parse(&["-m", "x", "-c", "--resume=id", "--model=y"]).unwrap().unwrap();
    assert_eq!(a.model.as_deref(), Some("y"));
    assert_eq!(a.resume, Some(Resume::Id("id".into())));
    assert!(parse(&["-m", "x", "-h", "--nonsense"]).unwrap().is_none());
}

// ---- side questions ------------------------------------------------------------------

fn text_of(m: &ModelMessage) -> &str {
    match &m.content[0] {
        ModelContent::Text { text } => text,
        ModelContent::Encoded(s) => s,
    }
}

#[test]
fn with_no_conversation_yet_there_is_nothing_to_ask_about() {
    let mut side = SideQuestions::new();
    assert!(!side.is_ready());
    assert_eq!(side.begin("why?", 1).unwrap_err(), NO_CONTEXT);
}

#[test]
fn the_mirror_never_alters_the_request() {
    let mut side = SideQuestions::new();
    side.mirror(vec![say(MessageRole::User, "原样")]);
    let (_, messages) = side.begin("why?", 1).unwrap();
    assert_eq!(messages.len(), 2);
    assert_eq!(text_of(&messages[0]), "原样");
}

#[test]
fn the_snapshot_follows_the_latest_request() {
    let mut side = SideQuestions::new();
    side.mirror(vec![say(MessageRole::User, "第一轮")]);
    side.mirror(vec![
        say(MessageRole::User, "第一轮"),
        say(MessageRole::Assistant, "答"),
        say(MessageRole::User, "第二轮"),
    ]);
    let (_, messages) = side.begin("why?", 1).unwrap();
    assert_eq!(messages.len(), 3 + 1);
}

#[test]
fn a_later_side_question_sees_the_earlier_ones() {
    let mut side = SideQuestions::new();
    side.mirror(vec![say(MessageRole::User, "帮我看一下配置")]);
    assert!(side.is_ready());
    let (none, messages) = side.begin("那个配置文件叫什么", 1).unwrap();
    assert_eq!(none, None);
    assert!(text_of(&messages[1]).ends_with("那个配置文件叫什么"));
    assert!(text_of(&messages[1]).contains("没有任何工具"));
    let pieces = vec!["叫 ".to_string(), "settings.json".to_string()];
    assert_eq!(
        side.finish("那个配置文件叫什么", &pieces, false).unwrap(),
        "叫 settings.json"
    );
    let (first, messages) = side.begin("它在哪个目录", 2).unwrap();
    assert_eq!(first, Some(1));
    assert_eq!(messages.len(), 4);
    assert_eq!(text_of(&messages[1]), "那个配置文件叫什么");
    assert_eq!(text_of(&messages[2]), "叫 settings.json");
    assert_eq!(messages[2].role, MessageRole::Assistant);
    side.clear();
    let (_, messages) = side.begin("再问", 3).unwrap();
    assert_eq!(messages.len(), 2);
}

#[test]
fn abandoning_a_side_question_leaves_nothing_behind() {
    let mut side = SideQuestions::new();
    side.mirror(vec![say(MessageRole::User, "x")]);
    side.begin("q", 7).unwrap();
    assert_eq!(side.abandon(), Some(7));
    assert_eq!(side.abandon(), None);
    assert_eq!(side.finish("q", &vec!["half".to_string()], true).unwrap_err(), INTERRUPTED);
    assert!(side.exchanges().is_empty());
    side.begin("q", 8).unwrap();
    side.finish("q", &vec!["whole".to_string()], false).unwrap();
    assert_eq!(side.exchanges()[0].answer, "whole");
    assert_eq!(describe_failure("down"), "侧问没能问出去：down");
}

#[test]
fn only_the_latest_exchanges_go_along() {
    let mut side = SideQuestions::new();
    side.mirror(vec![say(MessageRole::User, "x")]);
    for i in 0..REPLAY_EXCHANGES + 5 {
        side.finish(&format!("q{i}"), &vec![format!("a{i}")], false).unwrap();
    }
    let (_, messages) = side.begin("last", 1).unwrap();
    assert_eq!(messages.len(), 1 + 2 * REPLAY_EXCHANGES + 1);
    assert_eq!(text_of(&messages[1]), "q5");
}

#[test]
fn the_answer_arrives_in_pieces() {
    let mut side = SideQuestions::new();
    side.mirror(vec![say(MessageRole::User, "x")]);
    side.begin("q", 1).unwrap();
    let mut answering = Answering::new("q".into());
    assert!(answering.on(AnswerEvent::Text("一".into()), &mut side, false).is_none());
    assert!(answering.on(AnswerEvent::Other, &mut side, false).is_none());
    assert!(answering.on(AnswerEvent::Text("二".into()), &mut side, false).is_none());
    assert_eq!(answering.on(AnswerEvent::End, &mut side, false), Some(Ok("一二".into())));
    assert_eq!(side.exchanges()[0].answer, "一二");
}

#[test]
fn an_answer_that_breaks_off_is_not_kept() {
    let mut side = SideQuestions::new();
    side.mirror(vec![say(MessageRole::User, "x")]);
    let ends = [
        (AnswerEvent::End, true, INTERRUPTED.to_string()),
        (AnswerEvent::Cancelled, false, INTERRUPTED.to_string()),
        (AnswerEvent::Failed("down".into()), false, describe_failure("down")),
    ];
    for (event, cancelled, said) in ends {
        let mut answering = Answering::new("q".into());
        answering.on(AnswerEvent::Text("half".into()), &mut side, false);
        assert_eq!(answering.on(event, &mut side, cancelled), Some(Err(said)));
        assert!(side.exchanges().is_empty());
    }
}
