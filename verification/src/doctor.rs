//! What a session reports of how it is wired. A check says what it sees, and mends nothing.

use crate::bootstrap::unless_empty;
use crate::frame_state::{clone_opt, opt_text};
use crate::json::{
    all_quoted, array, array_spec, opt_quoted, opt_quoted_spec, quote_all, quoted, quoted_spec,
};
use crate::keybindings::parser::{lowercase, to_lowercase};
use crate::text::{
    chars_of, decimal, decimal_spec, find, find_spec, join, join_spec, texts, trim_end,
    trim_end_spec,
};
use vstd::prelude::*;
use vstd::string::*;

verus! {

#[derive(Debug, Clone, Copy, PartialEq, Eq, Structural)]
pub enum HealthStatus {
    Healthy,
    Degraded,
    Failing,
}

/// What a check found.
#[derive(Debug, Clone)]
pub struct CheckResult {
    pub status: HealthStatus,
    pub summary: String,
    /// More about it, as a JSON object.
    pub details: Option<String>,
}

/// What a [`CheckResult`] holds.
pub struct CheckView {
    pub status: HealthStatus,
    pub summary: Seq<char>,
    pub details: Option<Seq<char>>,
}

impl View for CheckResult {
    type V = CheckView;

    open spec fn view(&self) -> CheckView {
        CheckView {
            status: self.status,
            summary: self.summary@,
            details: opt_text(self.details),
        }
    }
}

/// A check with its name.
#[derive(Debug, Clone)]
pub struct NamedCheck {
    pub name: String,
    pub result: CheckResult,
}

/// The report of all checks, under the label of the whole.
#[derive(Debug, Clone)]
pub struct HealthReport {
    pub label: String,
    pub checks: Vec<NamedCheck>,
}

pub open spec fn mark_spec(status: HealthStatus) -> Seq<char> {
    match status {
        HealthStatus::Healthy => "·"@,
        HealthStatus::Degraded => "!"@,
        HealthStatus::Failing => "×"@,
    }
}

/// The width that names are filled up to.
pub const NAME_WIDTH: usize = 20;

/// A text filled up with spaces on the right.
pub open spec fn padded(s: Seq<char>, width: nat) -> Seq<char> {
    if s.len() >= width {
        s
    } else {
        s + Seq::new((width - s.len()) as nat, |i: int| ' ')
    }
}

fn pad(s: &str, width: usize) -> (r: String)
    ensures
        r@ == padded(s@, width as nat),
{
    let v: Vec<char> = chars_of(s);
    let mut r: String = s.to_owned();
    let mut n: usize = v.len();
    let ghost len = v@.len();
    while n < width
        invariant
            len == s@.len(),
            len <= n,
            n <= width || n == len,
            r@ == s@ + Seq::new((n - len) as nat, |i: int| ' '),
        decreases width - n,
    {
        r.push(' ');
        n += 1;
    }
    r
}

/// One line of the report.
pub open spec fn check_line(c: NamedCheck) -> Seq<char> {
    "  "@ + mark_spec(c.result.status) + " "@ + padded(c.name@, NAME_WIDTH as nat) + " "@
        + c.result.summary@ + "\n"@
}

pub open spec fn check_lines(checks: Seq<NamedCheck>) -> Seq<char>
    decreases checks.len(),
{
    if checks.len() == 0 {
        seq![]
    } else {
        check_lines(checks.drop_last()) + check_line(checks.last())
    }
}

/// The report as text: the label, then a line for each check, without a line feed at the
/// end.
pub open spec fn report_spec(report: HealthReport) -> Seq<char> {
    trim_end_spec("doctor: "@ + report.label@ + "\n"@ + check_lines(report.checks@))
}

/// Writes a report.
pub fn render(report: &HealthReport) -> (r: String)
    ensures
        r@ == report_spec(*report),
{
    let mut out: String = "doctor: ".to_owned().concat(report.label.as_str()).concat("\n");
    let ghost start = out@;
    let checks = &report.checks;
    let mut i: usize = 0;
    while i < checks.len()
        invariant
            i <= checks@.len(),
            out@ == start + check_lines(checks@.take(i as int)),
        decreases checks@.len() - i,
    {
        let c: &NamedCheck = &checks[i];
        let mark: &str = match c.result.status {
            HealthStatus::Healthy => "·",
            HealthStatus::Degraded => "!",
            HealthStatus::Failing => "×",
        };
        let line: String = "  ".to_owned().concat(mark).concat(" ").concat(
            pad(c.name.as_str(), NAME_WIDTH).as_str(),
        ).concat(" ").concat(c.result.summary.as_str()).concat("\n");
        out.append(line.as_str());
        proof {
            assert(checks@.take(i + 1).drop_last() =~= checks@.take(i as int));
        }
        i += 1;
    }
    assert(checks@.take(i as int) =~= checks@);
    trim_end(out.as_str())
}

fn ok(summary: String) -> (r: CheckResult)
    ensures
        r@ == (CheckView { status: HealthStatus::Healthy, summary: summary@, details: None }),
{
    CheckResult { status: HealthStatus::Healthy, summary, details: None }
}

fn degraded(summary: String) -> (r: CheckResult)
    ensures
        r@ == (CheckView { status: HealthStatus::Degraded, summary: summary@, details: None }),
{
    CheckResult { status: HealthStatus::Degraded, summary, details: None }
}

impl CheckResult {
    fn with_details(self, details: String) -> (r: CheckResult)
        ensures
            r@ == (CheckView { details: Some(details@), ..self@ }),
    {
        CheckResult { status: self.status, summary: self.summary, details: Some(details) }
    }
}

// ---- the provider --------------------------------------------------------------------

/// Which provider and model the session uses.
#[derive(Debug, Clone)]
pub struct ProviderCheck {
    /// The provider in force.
    pub selected: Option<String>,
    /// How many providers the settings have; with none the built-in one is in force.
    pub configured: usize,
    /// Where the endpoint was pointed to, if anywhere.
    pub base_url: Option<String>,
    pub model: String,
}

impl ProviderCheck {
    pub open spec fn endpoint_note_spec(self) -> Seq<char> {
        match self.base_url {
            Some(url) => " → "@ + url@,
            None => seq![],
        }
    }

    fn endpoint_note(&self) -> (r: String)
        ensures
            r@ == self.endpoint_note_spec(),
    {
        match &self.base_url {
            Some(url) => " → ".to_owned().concat(url.as_str()),
            None => String::new(),
        }
    }

    pub open spec fn check_spec(self) -> CheckView {
        match self.selected {
            None => CheckView {
                status: HealthStatus::Degraded,
                summary: decimal_spec(self.configured as nat) + " providers, none selected"@,
                details: None,
            },
            Some(id) => CheckView {
                status: HealthStatus::Healthy,
                summary: (if self.configured == 0 {
                    "the built-in `"@ + id@ + "` provider (ANTHROPIC_* env"@
                        + self.endpoint_note_spec() + ")"@
                } else {
                    "provider `"@ + id@ + "`"@ + self.endpoint_note_spec()
                }) + " · model `"@ + self.model@ + "`"@,
                details: Some(
                    "{\"base_url\":"@ + opt_quoted_spec(opt_text(self.base_url))
                        + ",\"providers_configured\":"@ + decimal_spec(self.configured as nat)
                        + ",\"selected\":"@ + opt_quoted_spec(opt_text(self.selected)) + "}"@,
                ),
            },
        }
    }

    /// Names the provider, the endpoint and the model in force.
    pub fn check(&self) -> (r: CheckResult)
        ensures
            r@ == self.check_spec(),
    {
        let via: String = match &self.selected {
            None => {
                return degraded(decimal(self.configured as u64).concat(" providers, none selected"));
            },
            Some(id) => if self.configured == 0 {
                "the built-in `".to_owned().concat(id.as_str()).concat(
                    "` provider (ANTHROPIC_* env",
                ).concat(self.endpoint_note().as_str()).concat(")")
            } else {
                "provider `".to_owned().concat(id.as_str()).concat("`").concat(
                    self.endpoint_note().as_str(),
                )
            },
        };
        let details: String = "{\"base_url\":".to_owned().concat(
            opt_quoted(&self.base_url).as_str(),
        ).concat(",\"providers_configured\":").concat(
            decimal(self.configured as u64).as_str(),
        ).concat(",\"selected\":").concat(opt_quoted(&self.selected).as_str()).concat("}");
        ok(via.concat(" · model `").concat(self.model.as_str()).concat("`")).with_details(details)
    }
}

// ---- the transcript ------------------------------------------------------------------

/// Whether the transcript is written to disk.
#[derive(Debug, Clone, Copy)]
pub struct HistoryCheck {
    pub ok: bool,
}

impl HistoryCheck {
    pub open spec fn check_spec(self) -> CheckView {
        if self.ok {
            CheckView {
                status: HealthStatus::Healthy,
                summary: "transcripts are being written to disk"@,
                details: None,
            }
        } else {
            CheckView {
                status: HealthStatus::Degraded,
                summary: "in-memory only — this session will be gone when the process exits, and --continue will not find it"@,
                details: None,
            }
        }
    }

    pub fn check(&self) -> (r: CheckResult)
        ensures
            r@ == self.check_spec(),
    {
        if self.ok {
            ok("transcripts are being written to disk".to_owned())
        } else {
            degraded(
                "in-memory only — this session will be gone when the process exits, and --continue will not find it".to_owned(),
            )
        }
    }
}

// ---- the sandbox ---------------------------------------------------------------------

/// How much of a policy a sandbox enforces.
#[derive(Debug, Clone, Copy, PartialEq, Eq, Structural)]
pub enum Enforcement {
    Full,
    Partial,
    Unconfined,
}

/// What the sandbox made of a probe.
#[derive(Debug, Clone)]
pub struct SandboxCheck {
    /// The name of the backend.
    pub mode: String,
    pub enforcement: Enforcement,
    /// What it could not do.
    pub unmet: Vec<String>,
}

impl SandboxCheck {
    pub open spec fn check_spec(self) -> CheckView {
        let details = Some(
            "{\"mode\":"@ + quoted_spec(self.mode@) + ",\"unmet\":"@ + array_spec(
                all_quoted(texts(self.unmet@)),
            ) + "}"@,
        );
        match self.enforcement {
            Enforcement::Full => CheckView {
                status: HealthStatus::Healthy,
                summary: self.mode@,
                details,
            },
            Enforcement::Partial => CheckView {
                status: HealthStatus::Degraded,
                summary: self.mode@ + ", partially: "@ + join_spec(texts(self.unmet@), "; "@),
                details,
            },
            Enforcement::Unconfined => CheckView {
                status: HealthStatus::Degraded,
                summary: "no confinement ("@ + self.mode@
                    + ") — the model's shell commands run unrestricted"@,
                details,
            },
        }
    }

    pub fn check(&self) -> (r: CheckResult)
        ensures
            r@ == self.check_spec(),
    {
        let details: String = "{\"mode\":".to_owned().concat(
            quoted(self.mode.as_str()).as_str(),
        ).concat(",\"unmet\":").concat(array(&quote_all(&self.unmet)).as_str()).concat("}");
        let result = match self.enforcement {
            Enforcement::Full => ok(self.mode.clone()),
            Enforcement::Partial => degraded(
                self.mode.clone().concat(", partially: ").concat(join(&self.unmet, "; ").as_str()),
            ),
            Enforcement::Unconfined => degraded(
                "no confinement (".to_owned().concat(self.mode.as_str()).concat(
                    ") — the model's shell commands run unrestricted",
                ),
            ),
        };
        result.with_details(details)
    }
}

// ---- permissions ---------------------------------------------------------------------

/// The permission mode and the rules in force.
#[derive(Debug, Clone)]
pub struct PermissionsCheck {
    /// The name of the mode.
    pub mode: String,
    pub project_rules: usize,
    pub local_rules: usize,
    pub allow_write: usize,
}

impl PermissionsCheck {
    pub open spec fn summary_spec(self) -> Seq<char> {
        "mode "@ + self.mode@ + " · "@ + decimal_spec(self.project_rules as nat)
            + " project + "@ + decimal_spec(self.local_rules as nat) + " local rules · "@
            + decimal_spec(self.allow_write as nat) + " write exemptions"@
    }

    /// The mode lets every call pass: its name has `bypass` in it, in whatever case.
    pub open spec fn bypasses(self) -> bool {
        let name = lowercase(self.mode@);
        find_spec(name, "bypass"@) < name.len()
    }

    /// To let every call pass unchecked is a choice, and never a quiet one.
    pub open spec fn check_spec(self) -> CheckView {
        if self.bypasses() {
            CheckView {
                status: HealthStatus::Degraded,
                summary: self.summary_spec() + " — every tool call is permitted unchecked"@,
                details: None,
            }
        } else {
            CheckView {
                status: HealthStatus::Healthy,
                summary: self.summary_spec(),
                details: None,
            }
        }
    }

    pub fn check(&self) -> (r: CheckResult)
        ensures
            r@ == self.check_spec(),
    {
        let summary: String = "mode ".to_owned().concat(self.mode.as_str()).concat(" · ").concat(
            decimal(self.project_rules as u64).as_str(),
        ).concat(" project + ").concat(decimal(self.local_rules as u64).as_str()).concat(
            " local rules · ",
        ).concat(decimal(self.allow_write as u64).as_str()).concat(" write exemptions");
        let name: String = to_lowercase(self.mode.as_str());
        let length: usize = chars_of(name.as_str()).len();
        if find(name.as_str(), "bypass") < length {
            degraded(summary.concat(" — every tool call is permitted unchecked"))
        } else {
            ok(summary)
        }
    }
}

// ---- settings that nothing reads -----------------------------------------------------

/// How many entries there are in the sections of the settings that nothing here reads.
#[derive(Debug, Clone, Copy)]
pub struct UnusedSettingsCheck {
    pub scripts: usize,
    pub task_models: usize,
    pub recorder: bool,
}

/// One ignored section: its name, the number of its entries, and why it is ignored.
pub open spec fn ignored_spec(name: Seq<char>, n: nat, why: Seq<char>) -> Seq<char> {
    "`"@ + name + "` ("@ + decimal_spec(n) + "): "@ + why
}

fn ignored(name: &str, n: usize, why: &str) -> (r: String)
    ensures
        r@ == ignored_spec(name@, n as nat, why@),
{
    "`".to_owned().concat(name).concat("` (").concat(decimal(n as u64).as_str()).concat(
        "): ",
    ).concat(why)
}

impl UnusedSettingsCheck {
    /// The ignored sections, in order.
    pub open spec fn sections(self) -> Seq<Seq<char>> {
        let scripts: Seq<Seq<char>> = if self.scripts > 0 {
            seq![
                ignored_spec(
                    "scripts"@,
                    self.scripts as nat,
                    "this build carries no script engine (`script-host`), so no binding runs"@,
                ),
            ]
        } else {
            seq![]
        };
        let models: Seq<Seq<char>> = if self.task_models > 0 {
            seq![
                ignored_spec(
                    "task_models"@,
                    self.task_models as nat,
                    "no task router is built, so sub-agents all use the session model"@,
                ),
            ]
        } else {
            seq![]
        };
        let recorder: Seq<Seq<char>> = if self.recorder {
            seq![
                ignored_spec(
                    "recorder"@,
                    1,
                    "record/replay is not wired, so nothing is recorded or replayed"@,
                ),
            ]
        } else {
            seq![]
        };
        scripts + models + recorder
    }

    /// The names of the ignored sections, in order.
    pub open spec fn names(self) -> Seq<Seq<char>> {
        let scripts: Seq<Seq<char>> = if self.scripts > 0 {
            seq!["scripts"@]
        } else {
            seq![]
        };
        let models: Seq<Seq<char>> = if self.task_models > 0 {
            seq!["task_models"@]
        } else {
            seq![]
        };
        let recorder: Seq<Seq<char>> = if self.recorder {
            seq!["recorder"@]
        } else {
            seq![]
        };
        scripts + models + recorder
    }

    pub open spec fn check_spec(self) -> CheckView {
        if self.sections().len() == 0 {
            CheckView {
                status: HealthStatus::Healthy,
                summary: "every configured section is consumed"@,
                details: None,
            }
        } else {
            CheckView {
                status: HealthStatus::Degraded,
                summary: "configured but ignored — "@ + join_spec(self.sections(), " · "@),
                details: Some("{\"ignored\":"@ + array_spec(all_quoted(self.names())) + "}"@),
            }
        }
    }

    /// Names the sections that are written down and have no effect.
    pub fn check(&self) -> (r: CheckResult)
        ensures
            r@ == self.check_spec(),
    {
        let mut parts: Vec<String> = Vec::new();
        let mut names: Vec<String> = Vec::new();
        if self.scripts > 0 {
            names.push("scripts".to_owned());
            parts.push(
                ignored(
                    "scripts",
                    self.scripts,
                    "this build carries no script engine (`script-host`), so no binding runs",
                ),
            );
        }
        if self.task_models > 0 {
            names.push("task_models".to_owned());
            parts.push(
                ignored(
                    "task_models",
                    self.task_models,
                    "no task router is built, so sub-agents all use the session model",
                ),
            );
        }
        if self.recorder {
            names.push("recorder".to_owned());
            parts.push(
                ignored(
                    "recorder",
                    1,
                    "record/replay is not wired, so nothing is recorded or replayed",
                ),
            );
        }
        assert(texts(parts@) =~= self.sections());
        assert(texts(names@) =~= self.names());
        if parts.len() == 0 {
            return ok("every configured section is consumed".to_owned());
        }
        let details: String = "{\"ignored\":".to_owned().concat(
            array(&quote_all(&names)).as_str(),
        ).concat("}");
        degraded("configured but ignored — ".to_owned().concat(join(&parts, " · ").as_str()))
            .with_details(details)
    }
}

// ---- all of them ---------------------------------------------------------------------

/// The names of the checks, in the order of the report.
pub open spec fn check_names() -> Seq<Seq<char>> {
    seq!["model.provider"@, "history.store"@, "sandbox"@, "permissions"@, "settings.unused"@]
}

fn named(name: &str, result: CheckResult) -> (r: NamedCheck)
    ensures
        r.name@ == name@,
        r.result == result,
{
    NamedCheck { name: name.to_owned(), result }
}

/// The settings of a session, as far as the checks look at them.
#[derive(Debug, Clone)]
pub struct CheckedSettings {
    pub model_name: String,
    /// How many providers there are.
    pub providers: usize,
    /// The name of the permission mode.
    pub permission_mode: String,
    pub permission_rules: usize,
    pub local_permission_rules: usize,
    pub allow_write: usize,
    pub scripts: usize,
    pub task_models: usize,
    pub recorder: bool,
}

/// The provider in force: its name, and the endpoint that the settings give it.
#[derive(Debug, Clone)]
pub struct SelectedProvider {
    pub id: String,
    pub base_url: Option<String>,
}

/// `c` looks at the provider in force; an empty endpoint is none.
pub open spec fn checks_provider(
    c: ProviderCheck,
    settings: CheckedSettings,
    selected: Option<SelectedProvider>,
) -> bool {
    &&& opt_text(c.selected) == match selected {
        Some(p) => Some(p.id@),
        None => None,
    }
    &&& c.configured == settings.providers
    &&& opt_text(c.base_url) == match selected {
        Some(p) => match p.base_url {
            Some(u) => if u@.len() == 0 {
                None
            } else {
                Some(u@)
            },
            None => None,
        },
        None => None,
    }
    &&& c.model@ == settings.model_name@
}

impl ProviderCheck {
    pub fn of(settings: &CheckedSettings, selected: &Option<SelectedProvider>) -> (r: Self)
        ensures
            checks_provider(r, *settings, *selected),
    {
        let (id, base_url) = match selected {
            Some(p) => (Some(p.id.clone()), unless_empty(clone_opt(&p.base_url))),
            None => (None, None),
        };
        ProviderCheck {
            selected: id,
            configured: settings.providers,
            base_url,
            model: settings.model_name.clone(),
        }
    }
}

impl PermissionsCheck {
    pub fn of(settings: &CheckedSettings) -> (r: Self)
        ensures
            r == (PermissionsCheck {
                mode: settings.permission_mode,
                project_rules: settings.permission_rules,
                local_rules: settings.local_permission_rules,
                allow_write: settings.allow_write,
            }),
    {
        PermissionsCheck {
            mode: settings.permission_mode.clone(),
            project_rules: settings.permission_rules,
            local_rules: settings.local_permission_rules,
            allow_write: settings.allow_write,
        }
    }
}

impl UnusedSettingsCheck {
    pub fn of(settings: &CheckedSettings) -> (r: Self)
        ensures
            r == (UnusedSettingsCheck {
                scripts: settings.scripts,
                task_models: settings.task_models,
                recorder: settings.recorder,
            }),
    {
        UnusedSettingsCheck {
            scripts: settings.scripts,
            task_models: settings.task_models,
            recorder: settings.recorder,
        }
    }
}

/// Runs the five checks of a session.
pub fn checks(
    settings: &CheckedSettings,
    selected_provider: &Option<SelectedProvider>,
    history_ok: bool,
    sandbox: &SandboxCheck,
) -> (r: Vec<NamedCheck>)
    ensures
        r@.map_values(|c: NamedCheck| c.name@) == check_names(),
        exists|provider: ProviderCheck|
            #![trigger checks_provider(provider, *settings, *selected_provider)]
            checks_provider(provider, *settings, *selected_provider) && r@[0].result@
                == provider.check_spec(),
        r@[1].result@ == (HistoryCheck { ok: history_ok }).check_spec(),
        r@[2].result@ == sandbox.check_spec(),
        r@[3].result@ == (PermissionsCheck {
            mode: settings.permission_mode,
            project_rules: settings.permission_rules,
            local_rules: settings.local_permission_rules,
            allow_write: settings.allow_write,
        }).check_spec(),
        r@[4].result@ == (UnusedSettingsCheck {
            scripts: settings.scripts,
            task_models: settings.task_models,
            recorder: settings.recorder,
        }).check_spec(),
{
    let provider: ProviderCheck = ProviderCheck::of(settings, selected_provider);
    let history = HistoryCheck { ok: history_ok };
    let permissions: PermissionsCheck = PermissionsCheck::of(settings);
    let unused: UnusedSettingsCheck = UnusedSettingsCheck::of(settings);
    let r: Vec<NamedCheck> = vec![
        named("model.provider", provider.check()),
        named("history.store", history.check()),
        named("sandbox", sandbox.check()),
        named("permissions", permissions.check()),
        named("settings.unused", unused.check()),
    ];
    r
}

} // verus!
