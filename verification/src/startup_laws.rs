//! What holds of the way a session starts and is looked into: the command line, the settings,
//! the health report, the trace, and the texts they write.

use crate::args::{parse_from, split_long_spec, ArgsView, USAGE};
use crate::ask::{header_spec, option_json_spec, question_json_spec};
use crate::bootstrap::{
    client_fault, is_chosen, is_resume_target, laid_over, named_model, provider_index,
    provider_model, text_le, BootstrapConfig, BootstrapError, ProviderConfig, Resume, ResumeFault,
    ResumeView, Settings,
};
use crate::btw::concatenated;
use crate::doctor::{
    check_lines, check_names, checks_provider, mark_spec, padded, report_spec, CheckedSettings,
    HealthReport, HealthStatus, HistoryCheck, NamedCheck, PermissionsCheck, ProviderCheck,
    SandboxCheck, SelectedProvider, UnusedSettingsCheck,
};
use crate::frame_state::{opt_text, FrameState, LineKind, StatusContent, TranscriptEntry};
use crate::json::{hex_digit, quoted_char, quoted_chars, quoted_spec};
use crate::keybindings::parser::lowercase;
use crate::text::{decimal_spec, join_spec, lemma_span_is, texts, trim_end_spec, trim_spec};
use crate::text_laws::{lacks, law_found_is_the_first, stands_at};
use crate::trace::{
    ask_count, count_of, escaped, escaped_char, frame_line_spec, hex_char, json_opt_spec,
    json_str_spec, kind_member, kind_members, kind_name_spec, kinds_of, status_spec,
};
use vstd::prelude::*;

verus! {

// ---- the command line ----------------------------------------------------------------

/// An argument is split at its first equals sign, where something stands behind that.
pub proof fn law_split_at_the_first_equals_sign(flag: Seq<char>, value: Seq<char>)
    requires
        lacks(flag, '='),
    ensures
        value.len() > 0 ==> split_long_spec(flag + seq!['='] + value) == Some((flag, value)),
        split_long_spec(flag + seq!['=']) is None,
        split_long_spec(flag) is None,
{
    let a = flag + seq!['='] + value;
    let k = flag.len() as int;
    lemma_span_is(a, '=', k);
    assert(a.take(k) =~= flag);
    assert(a.skip(k + 1) =~= value);
    lemma_span_is(flag + seq!['='], '=', k);
    lemma_span_is(flag, '=', k);
}

proof fn lemma_flags()
    ensures
        "-h"@ == seq!['-', 'h'],
        "-m"@ == seq!['-', 'm'],
        "-c"@ == seq!['-', 'c'],
        "--help"@ == seq!['-', '-', 'h', 'e', 'l', 'p'],
        "--model"@ == seq!['-', '-', 'm', 'o', 'd', 'e', 'l'],
        "--continue"@ == seq!['-', '-', 'c', 'o', 'n', 't', 'i', 'n', 'u', 'e'],
        "--resume"@ == seq!['-', '-', 'r', 'e', 's', 'u', 'm', 'e'],
        "-h"@.len() == 2 && "-h"@[1] == 'h',
        "-m"@.len() == 2 && "-m"@[1] == 'm',
        "-c"@.len() == 2 && "-c"@[1] == 'c',
        "--help"@.len() == 6,
        "--model"@.len() == 7,
        "--continue"@.len() == 10,
        "--resume"@.len() == 8,
{
    reveal_strlit("-h");
    reveal_strlit("-m");
    reveal_strlit("-c");
    reveal_strlit("--help");
    reveal_strlit("--model");
    reveal_strlit("--continue");
    reveal_strlit("--resume");
    assert("-h"@ =~= seq!['-', 'h']);
    assert("-m"@ =~= seq!['-', 'm']);
    assert("-c"@ =~= seq!['-', 'c']);
    assert("--help"@ =~= seq!['-', '-', 'h', 'e', 'l', 'p']);
    assert("--model"@ =~= seq!['-', '-', 'm', 'o', 'd', 'e', 'l']);
    assert("--continue"@ =~= seq!['-', '-', 'c', 'o', 'n', 't', 'i', 'n', 'u', 'e']);
    assert("--resume"@ =~= seq!['-', '-', 'r', 'e', 's', 'u', 'm', 'e']);
}

/// A request for help is answered with the help, whatever stood before it and stands behind it.
/// A line that has been read to its end is what was read.
pub proof fn law_help_and_the_end(args: Seq<Seq<char>>, i: int, before: ArgsView)
    requires
        0 <= i <= args.len(),
    ensures
        i == args.len() ==> parse_from(args, i, before) == Ok::<Option<ArgsView>, Seq<char>>(
            Some(before),
        ),
        i < args.len() && (args[i] == "-h"@ || args[i] == "--help"@) ==> parse_from(args, i, before)
            == Ok::<Option<ArgsView>, Seq<char>>(None),
{
}

/// The model and the session are the argument behind their flag, which has to be there; the
/// latest of each counts, and neither touches the other.
pub proof fn law_flags_with_a_value(args: Seq<Seq<char>>, i: int, before: ArgsView)
    requires
        0 <= i < args.len(),
    ensures
        ({
            let there = i + 1 < args.len() && args[i + 1].len() > 0;
            let r = parse_from(args, i, before);
            &&& (args[i] == "-m"@ || args[i] == "--model"@) && there ==> r == parse_from(
                args,
                i + 2,
                ArgsView { model: Some(args[i + 1]), resume: before.resume },
            )
            &&& args[i] == "--resume"@ && there ==> r == parse_from(
                args,
                i + 2,
                ArgsView { model: before.model, resume: Some(ResumeView::Id(args[i + 1])) },
            )
            &&& (args[i] == "-m"@ || args[i] == "--model"@ || args[i] == "--resume"@) && !there
                ==> r == Err::<Option<ArgsView>, Seq<char>>(args[i] + " 需要一个值"@)
            &&& args[i] == "-c"@ || args[i] == "--continue"@ ==> r == parse_from(
                args,
                i + 1,
                ArgsView { model: before.model, resume: Some(ResumeView::Latest) },
            )
        }),
{
    lemma_flags();
}

/// A value may stand behind an equals sign instead. Other flags take none, and an argument that
/// is no flag is refused.
pub proof fn law_flags_with_an_equals_sign(
    args: Seq<Seq<char>>,
    i: int,
    before: ArgsView,
    flag: Seq<char>,
    value: Seq<char>,
)
    requires
        0 <= i < args.len(),
        lacks(flag, '='),
        value.len() > 0,
    ensures
        ({
            let r = parse_from(args, i, before);
            &&& args[i] == flag + seq!['='] + value ==> {
                &&& flag == "--model"@ ==> r == parse_from(
                    args,
                    i + 1,
                    ArgsView { model: Some(value), resume: before.resume },
                )
                &&& flag == "--resume"@ ==> r == parse_from(
                    args,
                    i + 1,
                    ArgsView { model: before.model, resume: Some(ResumeView::Id(value)) },
                )
                &&& flag != "--model"@ && flag != "--resume"@ ==> r == Err::<
                    Option<ArgsView>,
                    Seq<char>,
                >(flag + " 不接受 `=值` 形式\n\n"@ + USAGE@)
            }
            &&& args[i] == flag && flag != "-h"@ && flag != "--help"@ && flag != "-m"@ && flag
                != "--model"@ && flag != "--resume"@ && flag != "-c"@ && flag != "--continue"@
                ==> r == Err::<Option<ArgsView>, Seq<char>>(
                "未知参数: "@ + flag + "\n\n"@ + USAGE@,
            )
        }),
{
    lemma_flags();
    law_split_at_the_first_equals_sign(flag, value);
    let a = flag + seq!['='] + value;
    assert(a[flag.len() as int] == '=');
    assert(lacks("-h"@, '=') && lacks("-m"@, '=') && lacks("-c"@, '=') && lacks("--help"@, '=')
        && lacks("--model"@, '=') && lacks("--continue"@, '=') && lacks("--resume"@, '='));
}

// ---- the settings --------------------------------------------------------------------

/// Texts are ordered by the first character in which they differ; a beginning comes before the
/// whole.
pub proof fn law_order_of_texts(p: Seq<char>, x: Seq<char>, y: Seq<char>)
    ensures
        x.len() == 0 ==> text_le(p + x, p + y),
        x.len() > 0 && y.len() == 0 ==> !text_le(p + x, p + y),
        x.len() > 0 && y.len() > 0 && x[0] != y[0] ==> (text_le(p + x, p + y) <==> x[0] < y[0]),
    decreases p.len(),
{
    if p.len() == 0 {
        assert(p + x =~= x);
        assert(p + y =~= y);
    } else {
        let q = p.drop_first();
        assert((p + x).drop_first() =~= q + x);
        assert((p + y).drop_first() =~= q + y);
        law_order_of_texts(q, x, y);
    }
}

proof fn lemma_provider_index(p: Seq<(String, ProviderConfig)>, id: Seq<char>, k: int)
    requires
        0 <= k < p.len(),
        p[k].0@ == id,
        forall|j: int| 0 <= j < k ==> (#[trigger] p[j]).0@ != id,
    ensures
        provider_index(p, id) == k,
    decreases k,
{
    if k > 0 {
        assert(p[0].0@ != id);
        let t = p.drop_first();
        assert(t[k - 1] == p[k]);
        assert forall|j: int| 0 <= j < k - 1 implies (#[trigger] t[j]).0@ != id by {
            assert(t[j] == p[j + 1]);
        }
        lemma_provider_index(t, id, k - 1);
    }
}

proof fn lemma_no_provider(p: Seq<(String, ProviderConfig)>, id: Seq<char>)
    requires
        forall|j: int| 0 <= j < p.len() ==> (#[trigger] p[j]).0@ != id,
    ensures
        provider_index(p, id) == p.len(),
    decreases p.len(),
{
    if p.len() > 0 {
        assert(p[0].0@ != id);
        let t = p.drop_first();
        assert forall|j: int| 0 <= j < t.len() implies (#[trigger] t[j]).0@ != id by {
            assert(t[j] == p[j + 1]);
        }
        lemma_no_provider(t, id);
    }
}

/// The provider in force is the one that the settings name, with its own configuration, or the
/// only one that they have. A name that none has and a choice that is left open are refused.
pub proof fn law_provider_in_force(
    p: Seq<(String, ProviderConfig)>,
    default_provider: Option<String>,
    env: Option<String>,
    r: Result<(String, ProviderConfig), BootstrapError>,
    k: int,
)
    requires
        is_chosen(p, default_provider, env, r),
        p.len() > 0,
    ensures
        default_provider matches Some(name) ==> {
            &&& 0 <= k < p.len() && p[k].0@ == name@ && (forall|j: int|
                0 <= j < k ==> (#[trigger] p[j]).0@ != name@) ==> r is Ok && r->Ok_0.0@ == name@
                && r->Ok_0.1 == p[k].1
            &&& (forall|j: int| 0 <= j < p.len() ==> (#[trigger] p[j]).0@ != name@) ==> r is Err
                && r->Err_0 is UnknownProvider && r->Err_0->UnknownProvider_0@ == name@
        },
        default_provider is None && p.len() == 1 ==> r is Ok && r->Ok_0.0@ == p[0].0@ && r->Ok_0.1
            == p[0].1,
        default_provider is None && p.len() > 1 ==> r is Err && r->Err_0 is AmbiguousProvider,
{
    match default_provider {
        Some(name) => {
            if 0 <= k < p.len() && p[k].0@ == name@ && (forall|j: int|
                0 <= j < k ==> (#[trigger] p[j]).0@ != name@) {
                lemma_provider_index(p, name@, k);
            }
            if forall|j: int| 0 <= j < p.len() ==> (#[trigger] p[j]).0@ != name@ {
                lemma_no_provider(p, name@);
            }
        },
        None => {},
    }
}

/// Without any provider the built-in one is in force, at the address of the environment where
/// that has one.
pub proof fn law_built_in_provider(
    default_provider: Option<String>,
    env: Option<String>,
    r: Result<(String, ProviderConfig), BootstrapError>,
)
    requires
        is_chosen(seq![], default_provider, env, r),
    ensures
        r is Ok,
        r->Ok_0.0@ == "anthropic"@,
        opt_text(r->Ok_0.1.api_type) == Some("anthropic"@),
        r->Ok_0.1.base_url is Some <==> env is Some && env->0@.len() > 0,
        r->Ok_0.1.base_url is Some ==> r->Ok_0.1.base_url->0@ == env->0@,
        r->Ok_0.1.api_key is None,
        r->Ok_0.1.default_model is None,
{
}

/// The settings of a run: what the files say, but for the limit that nobody has set, the
/// directory of the project, and the permissions, which the engine alone gives.
pub proof fn law_settings_of_a_run(
    loaded: Settings,
    config: BootstrapConfig,
    found: Option<String>,
    r: Settings,
)
    requires
        laid_over(loaded, config, found, r),
    ensures
        loaded.max_tokens == 2000 ==> r.max_tokens == config.fallback_max_tokens,
        loaded.max_tokens != 2000 ==> r.max_tokens == loaded.max_tokens,
        r.session_dir is Some,
        r.session_dir->0@ == config.local_data_dir@,
        !r.allow_client_permission_override,
        loaded.instruction_file is Some ==> r.instruction_file == loaded.instruction_file,
        loaded.instruction_file is None ==> r.instruction_file == found,
        r.providers == loaded.providers,
        r.default_provider == loaded.default_provider,
{
}

/// The provider names the model only where neither the run nor the settings do, and only by a
/// name that is not blank.
pub proof fn law_model_of_the_provider(
    loaded: Settings,
    config: BootstrapConfig,
    provider: ProviderConfig,
)
    requires
        config.model_override is None,
        loaded.model_name@ == config.fallback_model@,
    ensures
        ({
            let m = provider_model(named_model(loaded, config), provider, config);
            &&& provider.default_model is None ==> m is None
            &&& provider.default_model matches Some(name) ==> (m is Some <==> trim_spec(
                name@,
            ).len() > 0)
            &&& m is Some ==> Some(m->0) == opt_text(provider.default_model)
        }),
{
}

/// The session that is gone on with: none where none is asked for, the latest one where there
/// is one, and the one that was named, which has to be there and to have a sound name.
pub proof fn law_session_that_is_gone_on_with(
    target: Option<Resume>,
    stored: bool,
    bad_id: Option<String>,
    recent: Option<String>,
    r: Result<Option<String>, BootstrapError>,
)
    requires
        is_resume_target(target, stored, bad_id, recent, r),
    ensures
        target is None ==> r == Ok::<Option<String>, BootstrapError>(None),
        target == Some(Resume::Latest) && stored ==> r == Ok::<Option<String>, BootstrapError>(
            recent,
        ),
        target == Some(Resume::Latest) && !stored ==> r == Ok::<Option<String>, BootstrapError>(
            None,
        ),
        target matches Some(Resume::Id(id)) ==> {
            &&& stored && bad_id is None ==> r is Ok && r->Ok_0 is Some && r->Ok_0->0@ == id@
            &&& !stored ==> r is Err && r->Err_0 is Resume && r->Err_0->Resume_id@ == id@
                && r->Err_0->Resume_source is NotFound
            &&& stored && bad_id is Some ==> r is Err && r->Err_0 is Resume && r->Err_0->Resume_id@
                == id@ && r->Err_0->Resume_source == ResumeFault::BadId(bad_id->0)
        },
{
}

/// A missing key is a matter of credentials only where nothing is configured; any other failure
/// of the client is reported in its own words.
pub proof fn law_failures_of_the_client(error: String, k: int)
    ensures
        client_fault(false, error) == BootstrapError::Client(error),
        stands_at(error@, "missing api_key"@, k) ==> client_fault(true, error)
            == BootstrapError::MissingCredentials,
        (forall|j: int| !#[trigger] stands_at(error@, "missing api_key"@, j)) ==> client_fault(
            true,
            error,
        ) == BootstrapError::Client(error),
{
    reveal_strlit("missing api_key");
    law_found_is_the_first(error@, "missing api_key"@, k);
}

/// What is said of a start that fails names what failed.
pub proof fn law_failures_name_what_failed(id: String, why: String)
    ensures
        (BootstrapError::Resume { id, source: ResumeFault::NotFound(id) }).message_spec()
            == "cannot resume session "@ + id@ + ": "@ + ("session not found: "@ + id@),
        (BootstrapError::Resume { id, source: ResumeFault::BadId(why) }).message_spec()
            == "cannot resume session "@ + id@ + ": "@ + ("invalid session id: "@ + why@),
        (BootstrapError::Resume { id, source: ResumeFault::Engine(why) }).message_spec()
            == "cannot resume session "@ + id@ + ": "@ + why@,
        BootstrapError::UnknownProvider(id).message_spec() == "`default_provider` names `"@ + id@
            + "`, which is not in `providers`"@,
        BootstrapError::Client(why).message_spec() == "failed to construct the model client: "@
            + why@,
        BootstrapError::Engine(why).message_spec() == "failed to build agent: "@ + why@,
{
}

// ---- the health report ---------------------------------------------------------------

/// A name is padded with spaces to the width of its column, and never cut.
pub proof fn law_names_are_padded(s: Seq<char>, width: nat, i: int)
    ensures
        padded(s, width).len() == if s.len() >= width {
            s.len()
        } else {
            width
        },
        padded(s, width).take(s.len() as int) == s,
        s.len() <= i < padded(s, width).len() ==> padded(s, width)[i] == ' ',
{
    assert(padded(s, width).take(s.len() as int) =~= s);
}

/// The report has one line for each check, in their order: its mark, its name and its summary.
pub proof fn law_report_has_a_line_for_each_check(checks: Seq<NamedCheck>, c: NamedCheck)
    ensures
        check_lines(seq![]) == Seq::<char>::empty(),
        check_lines(checks.push(c)) == check_lines(checks) + ("  "@ + mark_spec(c.result.status)
            + " "@ + padded(c.name@, 20) + " "@ + c.result.summary@ + "\n"@),
        mark_spec(HealthStatus::Healthy) == seq!['·'],
        mark_spec(HealthStatus::Degraded) == seq!['!'],
        mark_spec(HealthStatus::Failing) == seq!['×'],
{
    assert(checks.push(c).drop_last() =~= checks);
    reveal_strlit("·");
    reveal_strlit("!");
    reveal_strlit("×");
    assert("·"@ =~= seq!['·']);
    assert("!"@ =~= seq!['!']);
    assert("×"@ =~= seq!['×']);
}

/// The report begins with its label and ends with the last line that says something.
pub proof fn law_report_begins_with_its_label(report: HealthReport)
    ensures
        report_spec(report) == trim_end_spec(
            "doctor: "@ + report.label@ + "\n"@ + check_lines(report.checks@),
        ),
{
}

/// The provider is healthy where one is in force; the summary names it, where it points to, and
/// the model.
pub proof fn law_check_of_the_provider(
    c: ProviderCheck,
    settings: CheckedSettings,
    selected: Option<SelectedProvider>,
)
    requires
        checks_provider(c, settings, selected),
    ensures
        ({
            let r = c.check_spec();
            let n = settings.providers;
            &&& r.status == if selected is Some {
                HealthStatus::Healthy
            } else {
                HealthStatus::Degraded
            }
            &&& selected is None ==> r.summary == decimal_spec(n as nat)
                + " providers, none selected"@
            &&& selected matches Some(p) ==> {
                let to = if p.base_url is Some && p.base_url->0@.len() > 0 {
                    " → "@ + p.base_url->0@
                } else {
                    seq![]
                };
                &&& n == 0 ==> r.summary == "the built-in `"@ + p.id@
                    + "` provider (ANTHROPIC_* env"@ + to + ")"@ + " · model `"@
                    + settings.model_name@ + "`"@
                &&& n > 0 ==> r.summary == "provider `"@ + p.id@ + "`"@ + to + " · model `"@
                    + settings.model_name@ + "`"@
                &&& r.details == Some(
                    "{\"base_url\":"@ + (if p.base_url is Some && p.base_url->0@.len() > 0 {
                        quoted_spec(p.base_url->0@)
                    } else {
                        "null"@
                    }) + ",\"providers_configured\":"@ + decimal_spec(n as nat)
                        + ",\"selected\":"@ + quoted_spec(p.id@) + "}"@,
                )
            }
        }),
{
}

/// The history is healthy where it is kept on disk, and the sandbox where it confines in full.
pub proof fn law_checks_of_history_and_sandbox(h: HistoryCheck, s: SandboxCheck)
    ensures
        h.check_spec().status == if h.ok {
            HealthStatus::Healthy
        } else {
            HealthStatus::Degraded
        },
        s.check_spec().status == if s.enforcement is Full {
            HealthStatus::Healthy
        } else {
            HealthStatus::Degraded
        },
        h.ok ==> h.check_spec().summary == "transcripts are being written to disk"@,
        !h.ok ==> h.check_spec().summary
            == "in-memory only — this session will be gone when the process exits, and --continue will not find it"@,
        s.check_spec().details == Some(
            "{\"mode\":"@ + quoted_spec(s.mode@) + ",\"unmet\":"@ + ("["@ + join_spec(
                texts(s.unmet@).map_values(|t: Seq<char>| quoted_spec(t)),
                ","@,
            ) + "]"@) + "}"@,
        ),
        s.enforcement is Full ==> s.check_spec().summary == s.mode@,
        s.enforcement is Partial ==> s.check_spec().summary == s.mode@ + ", partially: "@
            + join_spec(texts(s.unmet@), "; "@),
        s.enforcement is Unconfined ==> s.check_spec().summary == "no confinement ("@ + s.mode@
            + ") — the model's shell commands run unrestricted"@,
{
}

/// The permissions are healthy unless the name of their mode has `bypass` in it; the summary
/// counts the rules of each place.
pub proof fn law_check_of_the_permissions(c: PermissionsCheck, k: int)
    ensures
        ({
            let r = c.check_spec();
            let summary = "mode "@ + c.mode@ + " · "@ + decimal_spec(c.project_rules as nat)
                + " project + "@ + decimal_spec(c.local_rules as nat) + " local rules · "@
                + decimal_spec(c.allow_write as nat) + " write exemptions"@;
            &&& stands_at(lowercase(c.mode@), "bypass"@, k) ==> r.status == HealthStatus::Degraded
            &&& r.status == HealthStatus::Healthy || r.status == HealthStatus::Degraded
            &&& r.status == HealthStatus::Degraded ==> exists|j: int|
                #[trigger] stands_at(lowercase(c.mode@), "bypass"@, j)
            &&& r.status == HealthStatus::Degraded ==> r.summary == summary
                + " — every tool call is permitted unchecked"@
            &&& r.status == HealthStatus::Healthy ==> r.summary == summary
        }),
{
    reveal_strlit("bypass");
    let name = lowercase(c.mode@);
    law_found_is_the_first(name, "bypass"@, k);
}

/// Settings that nothing reads are named, each with how many there are; without any the check
/// is healthy.
pub proof fn law_check_of_unused_settings(c: UnusedSettingsCheck)
    ensures
        ({
            let r = c.check_spec();
            let none = c.scripts == 0 && c.task_models == 0 && !c.recorder;
            &&& r.status == if none {
                HealthStatus::Healthy
            } else {
                HealthStatus::Degraded
            }
            &&& c.sections().len() == c.names().len()
            &&& c.names().contains("scripts"@) <==> c.scripts > 0
            &&& c.names().contains("task_models"@) <==> c.task_models > 0
            &&& c.names().contains("recorder"@) <==> c.recorder
            &&& c.scripts > 0 ==> c.sections()[0] == "`"@ + "scripts"@ + "` ("@ + decimal_spec(
                c.scripts as nat,
            ) + "): "@
                + "this build carries no script engine (`script-host`), so no binding runs"@
            &&& !none ==> r.summary == "configured but ignored — "@ + join_spec(
                c.sections(),
                " · "@,
            )
        }),
{
    reveal_strlit("scripts");
    reveal_strlit("task_models");
    reveal_strlit("recorder");
    let names = c.names();
    if c.scripts > 0 {
        assert(names[0] == "scripts"@);
    }
    if c.task_models > 0 {
        assert(names[if c.scripts > 0 {
            1int
        } else {
            0
        }] == "task_models"@);
    }
    if c.recorder {
        assert(names[names.len() - 1] == "recorder"@);
    }
    assert("scripts"@.len() == 7 && "task_models"@.len() == 11 && "recorder"@.len() == 8);
}

/// The checks, in the order in which they are reported.
pub proof fn law_order_of_the_checks()
    ensures
        check_names() == seq![
            "model.provider"@,
            "history.store"@,
            "sandbox"@,
            "permissions"@,
            "settings.unused"@,
        ],
{
}

// ---- JSON ----------------------------------------------------------------------------

/// What a lower-case hexadecimal digit is worth.
pub open spec fn hex_worth(c: char) -> int {
    if '0' <= c <= '9' {
        c as u32 - '0' as u32
    } else {
        c as u32 - 'a' as u32 + 10
    }
}

pub open spec fn is_hex(c: char) -> bool {
    '0' <= c <= '9' || 'a' <= c <= 'f'
}

/// A quoted text is its characters one behind the other, between quotation marks.
pub proof fn law_text_is_quoted_by_its_characters(a: Seq<char>, b: Seq<char>, c: char)
    ensures
        quoted_spec(a) == seq!['"'] + quoted_chars(a) + seq!['"'],
        quoted_chars(a + b) == quoted_chars(a) + quoted_chars(b),
        quoted_chars(seq![c]) == quoted_char(c),
    decreases b.len(),
{
    let one = seq![c];
    assert(one.drop_last() =~= seq![]);
    assert(quoted_chars(one.drop_last()) =~= seq![]);
    assert(quoted_chars(one) =~= quoted_char(c));
    if b.len() == 0 {
        assert(a + b =~= a);
        assert(quoted_chars(a) + quoted_chars(b) =~= quoted_chars(a));
    } else {
        law_text_is_quoted_by_its_characters(a, b.drop_last(), c);
        assert((a + b).drop_last() =~= a + b.drop_last());
        assert(quoted_chars(a + b) =~= quoted_chars(a) + quoted_chars(b));
    }
}

/// How a character stands in JSON: as itself, unless it is a quotation mark, a backslash or a
/// control character.
pub proof fn law_quoted_character(c: char)
    ensures
        c as u32 >= 32 && c != '"' && c != '\\' ==> quoted_char(c) == seq![c],
        c == '"' || c == '\\' ==> quoted_char(c) == seq!['\\', c],
        c == '\n' ==> quoted_char(c) == seq!['\\', 'n'],
        c == '\t' ==> quoted_char(c) == seq!['\\', 't'],
        c == '\r' ==> quoted_char(c) == seq!['\\', 'r'],
        c == '\u{8}' ==> quoted_char(c) == seq!['\\', 'b'],
        c == '\u{c}' ==> quoted_char(c) == seq!['\\', 'f'],
        (c as u32) < 32 && c != '\n' && c != '\t' && c != '\r' && c != '\u{8}' && c != '\u{c}' ==> {
            let q = quoted_char(c);
            &&& q.len() == 6
            &&& q.take(4) == seq!['\\', 'u', '0', '0']
            &&& is_hex(q[4]) && is_hex(q[5])
            &&& 16 * hex_worth(q[4]) + hex_worth(q[5]) == c as u32
        },
{
    let u = c as u32 as nat;
    if u < 32 && u != 10 && u != 9 && u != 13 && u != 8 && u != 12 {
        let q = quoted_char(c);
        assert(q.take(4) =~= seq!['\\', 'u', '0', '0']);
        assert(u / 16 < 16 && u % 16 < 16);
        lemma_hex_digit(u / 16);
        lemma_hex_digit(u % 16);
        assert(16 * (u / 16) + u % 16 == u);
    }
}

proof fn lemma_hex_digit(n: nat)
    requires
        n < 16,
    ensures
        is_hex(hex_digit(n)),
        hex_worth(hex_digit(n)) == n,
        is_hex(hex_char(n)),
        hex_worth(hex_char(n)) == n,
{
}

/// A question as it is told: its title, its options with keys and labels in their order, and
/// its text.
pub proof fn law_question_in_json(
    header: Option<Seq<char>>,
    question: Seq<char>,
    options: Seq<(String, String)>,
    o: (String, String),
)
    ensures
        question_json_spec(header, question, options) == "{\"header\":"@ + (match header {
            Some(h) => quoted_spec(h),
            None => "null"@,
        }) + ",\"options\":"@ + ("["@ + join_spec(
            options.map_values(|x: (String, String)| option_json_spec(x)),
            ","@,
        ) + "]"@) + ",\"question\":"@ + quoted_spec(question) + "}"@,
        option_json_spec(o) == "{\"key\":"@ + quoted_spec(o.0@) + ",\"label\":"@ + quoted_spec(o.1@)
            + "}"@,
        header_spec(None) == "AskUserQuestion"@,
        header matches Some(h) ==> header_spec(header) == if trim_spec(h).len() > 0 {
            h
        } else {
            "AskUserQuestion"@
        },
{
}

// ---- the trace -----------------------------------------------------------------------

/// A text in the trace is its characters one behind the other, between quotation marks.
pub proof fn law_text_is_escaped_by_its_characters(a: Seq<char>, b: Seq<char>, c: char)
    ensures
        json_str_spec(a) == seq!['"'] + escaped(a) + seq!['"'],
        escaped(a + b) == escaped(a) + escaped(b),
        escaped(seq![c]) == escaped_char(c),
    decreases b.len(),
{
    let one = seq![c];
    assert(one.drop_last() =~= seq![]);
    assert(escaped(one.drop_last()) =~= seq![]);
    assert(escaped(one) =~= escaped_char(c));
    if b.len() == 0 {
        assert(a + b =~= a);
        assert(escaped(a) + escaped(b) =~= escaped(a));
    } else {
        law_text_is_escaped_by_its_characters(a, b.drop_last(), c);
        assert((a + b).drop_last() =~= a + b.drop_last());
        assert(escaped(a + b) =~= escaped(a) + escaped(b));
    }
}

/// How a character stands in the trace: as itself, unless it is a quotation mark, a backslash
/// or a control character.
pub proof fn law_escaped_character(c: char)
    ensures
        c as u32 >= 32 && c != '"' && c != '\\' ==> escaped_char(c) == seq![c],
        c == '"' || c == '\\' ==> escaped_char(c) == seq!['\\', c],
        c == '\n' ==> escaped_char(c) == seq!['\\', 'n'],
        c == '\t' ==> escaped_char(c) == seq!['\\', 't'],
        c == '\r' ==> escaped_char(c) == seq!['\\', 'r'],
        (c as u32) < 32 && c != '\n' && c != '\t' && c != '\r' ==> {
            let q = escaped_char(c);
            &&& q.len() == 6
            &&& q.take(4) == seq!['\\', 'u', '0', '0']
            &&& is_hex(q[4]) && is_hex(q[5])
            &&& 16 * hex_worth(q[4]) + hex_worth(q[5]) == c as u32
        },
{
    reveal_strlit("\\\"");
    reveal_strlit("\\\\");
    reveal_strlit("\\n");
    reveal_strlit("\\r");
    reveal_strlit("\\t");
    reveal_strlit("\\u00");
    let q = escaped_char(c);
    let u = c as u32 as nat;
    if c == '"' || c == '\\' {
        assert(q =~= seq!['\\', c]);
    }
    assert(c == '\n' ==> q =~= seq!['\\', 'n']);
    assert(c == '\t' ==> q =~= seq!['\\', 't']);
    assert(c == '\r' ==> q =~= seq!['\\', 'r']);
    if u < 32 && c != '\n' && c != '\t' && c != '\r' {
        assert(q.take(4) =~= seq!['\\', 'u', '0', '0']);
        lemma_hex_digit(u / 16);
        lemma_hex_digit(u % 16);
        assert(16 * (u / 16) + u % 16 == u);
    }
}

/// The kinds of line are listed once each, in the order in which they come up, and counted over
/// the whole transcript.
pub proof fn law_kinds_are_counted(es: Seq<TranscriptEntry>, e: TranscriptEntry, kind: LineKind)
    ensures
        kinds_of(seq![]).len() == 0,
        kinds_of(es).contains(e.kind) ==> kinds_of(es.push(e)) == kinds_of(es),
        !kinds_of(es).contains(e.kind) ==> kinds_of(es.push(e)) == kinds_of(es).push(e.kind),
        count_of(seq![], kind) == 0,
        count_of(es.push(e), kind) == count_of(es, kind) + if e.kind == kind {
            1int
        } else {
            0
        },
        kinds_of(es).contains(kind) <==> count_of(es, kind) > 0,
        kind_member(es, kind) == "\""@ + kind_name_spec(kind) + "\":"@ + decimal_spec(
            count_of(es, kind),
        ),
    decreases es.len(),
{
    assert(es.push(e).drop_last() =~= es);
    if es.len() > 0 {
        let init = es.drop_last();
        law_kinds_are_counted(init, e, kind);
        let k = es.last().kind;
        let before = kinds_of(init);
        if !before.contains(k) {
            assert(kinds_of(es) =~= before.push(k));
            assert(kinds_of(es)[before.len() as int] == k);
            if before.contains(kind) {
                let i = choose|i: int| 0 <= i < before.len() && before[i] == kind;
                assert(kinds_of(es)[i] == kind);
            }
            if kinds_of(es).contains(kind) && kind != k {
                let i = choose|i: int| 0 <= i < kinds_of(es).len() && kinds_of(es)[i] == kind;
                assert(before[i] == kind);
            }
        }
    }
}

/// The names of the kinds of line.
pub proof fn law_names_of_the_kinds()
    ensures
        kind_name_spec(LineKind::Spacer) == "Spacer"@,
        kind_name_spec(LineKind::Banner) == "Banner"@,
        kind_name_spec(LineKind::UserPrompt) == "UserPrompt"@,
        kind_name_spec(LineKind::AssistantText) == "AssistantText"@,
        kind_name_spec(LineKind::ToolHeading) == "ToolHeading"@,
        kind_name_spec(LineKind::ToolResultOk) == "ToolResultOk"@,
        kind_name_spec(LineKind::ToolResultErr) == "ToolResultErr"@,
        kind_name_spec(LineKind::Note) == "Note"@,
        kind_name_spec(LineKind::Warning) == "Warning"@,
        kind_name_spec(LineKind::Error) == "Error"@,
        kind_name_spec(LineKind::Thinking) == "Thinking"@,
        kind_name_spec(LineKind::DiffOld) == "DiffOld"@,
        kind_name_spec(LineKind::DiffNew) == "DiffNew"@,
        kind_name_spec(LineKind::DiffContext) == "DiffContext"@,
{
}

/// The fields of a line of the trace, each with its name before it.
pub open spec fn frame_fields(event: Seq<char>, frame: FrameState) -> Seq<Seq<char>> {
    let usage = frame.footer_hints.usage;
    seq![
        "{\"event\":"@ + json_str_spec(event),
        ",\"entries\":"@ + decimal_spec(frame.transcript.body.entries@.len()),
        ",\"kinds\":{"@ + join_spec(kind_members(frame.transcript.body.entries@), ","@),
        "},\"header\":"@ + json_opt_spec(frame.transcript.header.text),
        ",\"status\":"@ + status_spec(frame.operation_status.status_line.content),
        ",\"tasks\":"@ + decimal_spec(frame.operation_status.task_list.items@.len()),
        ",\"sub_agents\":"@ + decimal_spec(frame.sub_agent_bar.agents@.len()),
        ",\"asks\":"@ + decimal_spec(ask_count(frame)),
        ",\"selected_block\":"@ + json_opt_spec(frame.transcript.body.selected_block),
        ",\"model\":"@ + json_str_spec(frame.footer_hints.model@),
        ",\"tok_in\":"@ + decimal_spec(usage.token_in as nat),
        ",\"tok_out\":"@ + decimal_spec(usage.token_out as nat),
        ",\"turns\":"@ + decimal_spec(usage.turn_count as nat),
        "}"@,
    ]
}

/// A line of the trace is its fields one behind the other.
pub proof fn law_line_of_the_trace(event: Seq<char>, frame: FrameState)
    ensures
        frame_line_spec(event, frame) == concatenated(frame_fields(event, frame)),
        frame.composer.content.ask is None ==> ask_count(frame) == 0,
        frame.composer.content.ask matches Some(a) ==> ask_count(frame) == a.pending@.len(),
        frame.transcript.header.text is None ==> json_opt_spec(frame.transcript.header.text)
            == "null"@,
        frame.transcript.header.text matches Some(t) ==> json_opt_spec(frame.transcript.header.text)
            == json_str_spec(t@),
        ({
            let content = frame.operation_status.status_line.content;
            match content {
                None => status_spec(content) == "null"@,
                Some(StatusContent::Compacting { .. }) => status_spec(content)
                    == "\"compacting\""@,
                Some(StatusContent::TurnRunning { activity, .. }) => status_spec(content)
                    == json_str_spec(activity@),
            }
        }),
{
    let usage = frame.footer_hints.usage;
    let f = frame_fields(event, frame);
    assert(f.take(0) =~= seq![]);
    let s0 = Seq::<char>::empty();
    assert(concatenated(f.take(0)) == s0);
    lemma_next_field(f, 0);
    lemma_associative(concatenated(f.take(0)), "{\"event\":"@, json_str_spec(event));
    lemma_next_field(f, 1);
    lemma_associative(
        concatenated(f.take(1)),
        ",\"entries\":"@,
        decimal_spec(frame.transcript.body.entries@.len()),
    );
    lemma_next_field(f, 2);
    lemma_associative(
        concatenated(f.take(2)),
        ",\"kinds\":{"@,
        join_spec(kind_members(frame.transcript.body.entries@), ","@),
    );
    lemma_next_field(f, 3);
    lemma_associative(
        concatenated(f.take(3)),
        "},\"header\":"@,
        json_opt_spec(frame.transcript.header.text),
    );
    lemma_next_field(f, 4);
    lemma_associative(
        concatenated(f.take(4)),
        ",\"status\":"@,
        status_spec(frame.operation_status.status_line.content),
    );
    lemma_next_field(f, 5);
    lemma_associative(
        concatenated(f.take(5)),
        ",\"tasks\":"@,
        decimal_spec(frame.operation_status.task_list.items@.len()),
    );
    lemma_next_field(f, 6);
    lemma_associative(
        concatenated(f.take(6)),
        ",\"sub_agents\":"@,
        decimal_spec(frame.sub_agent_bar.agents@.len()),
    );
    lemma_next_field(f, 7);
    lemma_associative(concatenated(f.take(7)), ",\"asks\":"@, decimal_spec(ask_count(frame)));
    lemma_next_field(f, 8);
    lemma_associative(
        concatenated(f.take(8)),
        ",\"selected_block\":"@,
        json_opt_spec(frame.transcript.body.selected_block),
    );
    lemma_next_field(f, 9);
    lemma_associative(
        concatenated(f.take(9)),
        ",\"model\":"@,
        json_str_spec(frame.footer_hints.model@),
    );
    lemma_next_field(f, 10);
    lemma_associative(
        concatenated(f.take(10)),
        ",\"tok_in\":"@,
        decimal_spec(usage.token_in as nat),
    );
    lemma_next_field(f, 11);
    lemma_associative(
        concatenated(f.take(11)),
        ",\"tok_out\":"@,
        decimal_spec(usage.token_out as nat),
    );
    lemma_next_field(f, 12);
    lemma_associative(
        concatenated(f.take(12)),
        ",\"turns\":"@,
        decimal_spec(usage.turn_count as nat),
    );
    lemma_next_field(f, 13);
    assert(f.take(14) =~= f);
    assert(s0 + "{\"event\":"@ =~= "{\"event\":"@);
}

proof fn lemma_next_field(f: Seq<Seq<char>>, k: int)
    requires
        0 <= k < f.len(),
    ensures
        concatenated(f.take(k + 1)) == concatenated(f.take(k)) + f[k],
{
    assert(f.take(k + 1).drop_last() =~= f.take(k));
}

proof fn lemma_associative(x: Seq<char>, a: Seq<char>, b: Seq<char>)
    ensures
        x + (a + b) == x + a + b,
{
    assert(x + (a + b) =~= x + a + b);
}

} // verus!
