//! The decisions on the way to a running session: settings, provider, model, and which
//! session to go on with.

use crate::frame_state::{clone_opt, opt_text};
use crate::text::{chars_of, find, find_spec, join, join_spec, texts, trim, trim_spec};
use vstd::prelude::*;
use vstd::string::*;

verus! {

/// The token limit that the settings have where no file sets one.
pub const CORE_DEFAULT_MAX_TOKENS: u32 = 2000;

/// The token limit of a session where no file sets one.
pub const FALLBACK_MAX_TOKENS: u32 = 8192;

/// Which session to go on with.
#[derive(Debug, PartialEq, Eq)]
pub enum Resume {
    /// The latest one of the project; without one a new session begins.
    Latest,
    /// The one with that id, which has to be there.
    Id(String),
}

/// What a [`Resume`] holds.
pub enum ResumeView {
    Latest,
    Id(Seq<char>),
}

impl View for Resume {
    type V = ResumeView;

    open spec fn view(&self) -> ResumeView {
        match *self {
            Resume::Latest => ResumeView::Latest,
            Resume::Id(id) => ResumeView::Id(id@),
        }
    }
}

impl Clone for Resume {
    fn clone(&self) -> (r: Self)
        ensures
            r == *self,
    {
        match self {
            Resume::Latest => Resume::Latest,
            Resume::Id(id) => Resume::Id(id.clone()),
        }
    }
}

/// Why a session cannot be gone on with.
#[derive(Debug, PartialEq, Eq)]
pub enum ResumeFault {
    /// The text is no session id; why not.
    BadId(String),
    NotFound(String),
    /// What the engine said.
    Engine(String),
}

/// Why no session came about.
#[derive(Debug, PartialEq, Eq)]
pub enum BootstrapError {
    MissingCredentials,
    Resume { id: String, source: ResumeFault },
    AmbiguousProvider(String),
    UnknownProvider(String),
    Client(String),
    Engine(String),
}

impl ResumeFault {
    pub open spec fn message_spec(self) -> Seq<char> {
        match self {
            ResumeFault::BadId(e) => "invalid session id: "@ + e@,
            ResumeFault::NotFound(id) => "session not found: "@ + id@,
            ResumeFault::Engine(e) => e@,
        }
    }

    pub fn message(&self) -> (r: String)
        ensures
            r@ == self.message_spec(),
    {
        match self {
            ResumeFault::BadId(e) => "invalid session id: ".to_owned().concat(e.as_str()),
            ResumeFault::NotFound(id) => "session not found: ".to_owned().concat(id.as_str()),
            ResumeFault::Engine(e) => e.clone(),
        }
    }
}

impl BootstrapError {
    pub open spec fn message_spec(self) -> Seq<char> {
        match self {
            BootstrapError::MissingCredentials =>
                "missing API credentials: set ANTHROPIC_AUTH_TOKEN or ANTHROPIC_API_KEY"@,
            BootstrapError::Resume { id, source } => "cannot resume session "@ + id@ + ": "@
                + source.message_spec(),
            BootstrapError::AmbiguousProvider(ids) => "settings.json configures several providers ("@
                + ids@ + ") but no `default_provider`; name the one this session should use"@,
            BootstrapError::UnknownProvider(id) => "`default_provider` names `"@ + id@
                + "`, which is not in `providers`"@,
            BootstrapError::Client(e) => "failed to construct the model client: "@ + e@,
            BootstrapError::Engine(e) => "failed to build agent: "@ + e@,
        }
    }

    /// The error in words.
    pub fn message(&self) -> (r: String)
        ensures
            r@ == self.message_spec(),
    {
        match self {
            BootstrapError::MissingCredentials =>
                "missing API credentials: set ANTHROPIC_AUTH_TOKEN or ANTHROPIC_API_KEY".to_owned(),
            BootstrapError::Resume { id, source } => "cannot resume session ".to_owned().concat(
                id.as_str(),
            ).concat(": ").concat(source.message().as_str()),
            BootstrapError::AmbiguousProvider(ids) =>
                "settings.json configures several providers (".to_owned().concat(
                ids.as_str(),
            ).concat(") but no `default_provider`; name the one this session should use"),
            BootstrapError::UnknownProvider(id) => "`default_provider` names `".to_owned().concat(
                id.as_str(),
            ).concat("`, which is not in `providers`"),
            BootstrapError::Client(e) => "failed to construct the model client: ".to_owned().concat(
                e.as_str(),
            ),
            BootstrapError::Engine(e) => "failed to build agent: ".to_owned().concat(e.as_str()),
        }
    }
}

// ---- settings ------------------------------------------------------------------------

/// What the settings say of a provider.
#[derive(Debug)]
pub struct ProviderConfig {
    pub api_type: Option<String>,
    pub base_url: Option<String>,
    pub api_key: Option<String>,
    pub default_model: Option<String>,
}

impl Clone for ProviderConfig {
    fn clone(&self) -> (r: Self)
        ensures
            r == *self,
    {
        ProviderConfig {
            api_type: clone_opt(&self.api_type),
            base_url: clone_opt(&self.base_url),
            api_key: clone_opt(&self.api_key),
            default_model: clone_opt(&self.default_model),
        }
    }
}

/// The settings that decisions are made on, merged from all their files.
#[derive(Debug)]
pub struct Settings {
    pub model_name: String,
    pub max_tokens: u32,
    /// Names and configurations; each name occurs once.
    pub providers: Vec<(String, ProviderConfig)>,
    pub default_provider: Option<String>,
    pub session_dir: Option<String>,
    pub allow_client_permission_override: bool,
    pub instruction_file: Option<String>,
}

/// What the program was started with.
#[derive(Debug)]
pub struct BootstrapConfig {
    /// The model where no settings file names one.
    pub fallback_model: String,
    /// The model named for this run, which no file overrules.
    pub model_override: Option<String>,
    pub fallback_max_tokens: u32,
    /// Where the data of the project is.
    pub local_data_dir: String,
    pub resume: Option<Resume>,
}

/// An environment variable counts where it is not empty.
pub fn unless_empty(value: Option<String>) -> (r: Option<String>)
    ensures
        r == match value {
            Some(v) => if v@.len() == 0 {
                None
            } else {
                Some(v)
            },
            None => None,
        },
{
    match value {
        Some(v) => if v.as_str().is_empty() {
            None
        } else {
            Some(v)
        },
        None => None,
    }
}

/// The model that the run or else a settings file names.
pub open spec fn named_model(loaded: Settings, config: BootstrapConfig) -> Seq<char> {
    match config.model_override {
        Some(m) => m@,
        None => loaded.model_name@,
    }
}

/// What is laid over the merged settings beside the model: the token limit where no file set
/// one, the place of the sessions, and an instruction file that was found where none is
/// named. Nobody but the user overrides a permission.
pub open spec fn laid_over(
    loaded: Settings,
    config: BootstrapConfig,
    found_instructions: Option<String>,
    r: Settings,
) -> bool {
    &&& r.max_tokens == if loaded.max_tokens == CORE_DEFAULT_MAX_TOKENS {
        config.fallback_max_tokens
    } else {
        loaded.max_tokens
    }
    &&& opt_text(r.session_dir) == Some(config.local_data_dir@)
    &&& !r.allow_client_permission_override
    &&& r.instruction_file == match loaded.instruction_file {
        Some(f) => Some(f),
        None => found_instructions,
    }
    &&& r.providers == loaded.providers
    &&& r.default_provider == loaded.default_provider
}

/// Lays over the merged settings what is decided here: the model named for this run, the
/// token limit where no file set one, and an instruction file that was found where none is
/// named.
pub fn resolve_settings(
    loaded: Settings,
    config: &BootstrapConfig,
    found_instructions: Option<String>,
) -> (r: Settings)
    ensures
        r.model_name@ == named_model(loaded, *config),
        laid_over(loaded, *config, found_instructions, r),
{
    let mut settings: Settings = loaded;
    match &config.model_override {
        Some(m) => {
            settings.model_name = m.clone();
        },
        None => {},
    }
    if settings.max_tokens == CORE_DEFAULT_MAX_TOKENS {
        settings.max_tokens = config.fallback_max_tokens;
    }
    settings.session_dir = Some(config.local_data_dir.clone());
    settings.allow_client_permission_override = false;
    if settings.instruction_file.is_none() {
        settings.instruction_file = found_instructions;
    }
    settings
}

// ---- the provider --------------------------------------------------------------------

/// One text comes before another, or is the same: by the first character that differs.
pub open spec fn text_le(a: Seq<char>, b: Seq<char>) -> bool
    decreases a.len(),
{
    if a.len() == 0 {
        true
    } else if b.len() == 0 {
        false
    } else if a[0] != b[0] {
        a[0] < b[0]
    } else {
        text_le(a.drop_first(), b.drop_first())
    }
}

fn comes_first(a: &str, b: &str) -> (r: bool)
    ensures
        r == text_le(a@, b@),
{
    let v: Vec<char> = chars_of(a);
    let w: Vec<char> = chars_of(b);
    let mut i: usize = 0;
    proof {
        assert(v@.skip(0) =~= v@);
        assert(w@.skip(0) =~= w@);
    }
    while i < v.len() && i < w.len() && v[i] == w[i]
        invariant
            i <= v@.len(),
            i <= w@.len(),
            text_le(v@, w@) == text_le(v@.skip(i as int), w@.skip(i as int)),
        decreases v@.len() - i,
    {
        assert(v@.skip(i as int).drop_first() =~= v@.skip(i + 1));
        assert(w@.skip(i as int).drop_first() =~= w@.skip(i + 1));
        i += 1;
    }
    if i == v.len() {
        true
    } else if i == w.len() {
        false
    } else {
        v[i] < w[i]
    }
}

/// How many texts of a sorted list come before `x`.
pub open spec fn place_in(s: Seq<Seq<char>>, x: Seq<char>) -> nat
    decreases s.len(),
{
    if s.len() == 0 || text_le(x, s[0]) {
        0
    } else {
        1 + place_in(s.drop_first(), x)
    }
}

/// The texts in order.
pub open spec fn sorted(s: Seq<Seq<char>>) -> Seq<Seq<char>>
    decreases s.len(),
{
    if s.len() == 0 {
        s
    } else {
        let before = sorted(s.drop_last());
        before.insert(place_in(before, s.last()) as int, s.last())
    }
}

/// The names of the providers.
pub open spec fn provider_ids(p: Seq<(String, ProviderConfig)>) -> Seq<Seq<char>> {
    p.map_values(|x: (String, ProviderConfig)| x.0@)
}

fn sorted_ids(p: &Vec<(String, ProviderConfig)>) -> (r: Vec<String>)
    ensures
        texts(r@) == sorted(provider_ids(p@)),
{
    let ghost all = provider_ids(p@);
    let mut r: Vec<String> = Vec::new();
    let mut i: usize = 0;
    while i < p.len()
        invariant
            i <= p@.len(),
            all == provider_ids(p@),
            texts(r@) == sorted(all.take(i as int)),
        decreases p@.len() - i,
    {
        let id: &String = &p[i].0;
        let ghost before = texts(r@);
        let mut k: usize = 0;
        proof {
            assert(before.skip(0) =~= before);
            assert(all.take(i + 1).drop_last() =~= all.take(i as int));
        }
        while k < r.len() && !comes_first(id.as_str(), r[k].as_str())
            invariant
                k <= r@.len(),
                before == texts(r@),
                place_in(before, id@) == k + place_in(before.skip(k as int), id@),
            decreases r@.len() - k,
        {
            assert(before.skip(k as int).drop_first() =~= before.skip(k + 1));
            k += 1;
        }
        r.insert(k, id.clone());
        i += 1;
    }
    assert(all.take(i as int) =~= all);
    r
}

/// How many providers stand before the one with that name.
pub open spec fn provider_index(p: Seq<(String, ProviderConfig)>, id: Seq<char>) -> nat
    decreases p.len(),
{
    if p.len() == 0 || p[0].0@ == id {
        0
    } else {
        1 + provider_index(p.drop_first(), id)
    }
}

fn find_provider(p: &Vec<(String, ProviderConfig)>, id: &String) -> (k: usize)
    ensures
        k == provider_index(p@, id@),
        k <= p@.len(),
        k < p@.len() ==> p@[k as int].0@ == id@,
{
    let mut k: usize = 0;
    proof {
        assert(p@.skip(0) =~= p@);
    }
    while k < p.len() && p[k].0 != *id
        invariant
            k <= p@.len(),
            provider_index(p@, id@) == k + provider_index(p@.skip(k as int), id@),
        decreases p@.len() - k,
    {
        assert(p@.skip(k as int).drop_first() =~= p@.skip(k + 1));
        k += 1;
    }
    k
}

/// The provider in force. The one that the settings name; without a name the only one there
/// is; several without a name are an error and never a guess; and with none configured the
/// built-in one, at the endpoint that the environment names.
pub open spec fn is_chosen(
    p: Seq<(String, ProviderConfig)>,
    default_provider: Option<String>,
    env_base_url: Option<String>,
    r: Result<(String, ProviderConfig), BootstrapError>,
) -> bool {
    if p.len() == 0 {
        &&& r matches Ok((id, cfg))
        &&& id@ == "anthropic"@
        &&& opt_text(cfg.api_type) == Some("anthropic"@)
        &&& opt_text(cfg.base_url) == match env_base_url {
            Some(u) => if u@.len() == 0 {
                None
            } else {
                Some(u@)
            },
            None => None,
        }
        &&& cfg.api_key is None
        &&& cfg.default_model is None
    } else {
        match default_provider {
            Some(name) => {
                let k = provider_index(p, name@) as int;
                if k < p.len() {
                    r matches Ok((id, cfg)) && id@ == name@ && cfg == p[k].1
                } else {
                    r matches Err(BootstrapError::UnknownProvider(id)) && id@ == name@
                }
            },
            None => if p.len() == 1 {
                r matches Ok((id, cfg)) && id@ == p[0].0@ && cfg == p[0].1
            } else {
                r matches Err(BootstrapError::AmbiguousProvider(ids)) && ids@ == join_spec(
                    sorted(provider_ids(p)),
                    ", "@,
                )
            },
        }
    }
}

/// Finds the provider in force.
pub fn resolve_provider(settings: &Settings, env_base_url: Option<String>) -> (r: Result<
    (String, ProviderConfig),
    BootstrapError,
>)
    ensures
        is_chosen(settings.providers@, settings.default_provider, env_base_url, r),
{
    let n: usize = settings.providers.len();
    if n > 0 {
        let id: String = match &settings.default_provider {
            Some(id) => id.clone(),
            None => if n == 1 {
                settings.providers[0].0.clone()
            } else {
                let ids: Vec<String> = sorted_ids(&settings.providers);
                return Err(BootstrapError::AmbiguousProvider(join(&ids, ", ")));
            },
        };
        let k: usize = find_provider(&settings.providers, &id);
        if k < n {
            return Ok((id, settings.providers[k].1.clone()));
        }
        return Err(BootstrapError::UnknownProvider(id));
    }
    Ok(
        (
            "anthropic".to_owned(),
            ProviderConfig {
                api_type: Some("anthropic".to_owned()),
                base_url: unless_empty(env_base_url),
                api_key: None,
                default_model: None,
            },
        ),
    )
}

/// The model that a provider goes by, where nothing nearer names one: neither the run nor a
/// settings file.
pub open spec fn provider_model(
    named: Seq<char>,
    provider: ProviderConfig,
    config: BootstrapConfig,
) -> Option<Seq<char>> {
    if config.model_override is Some || named != config.fallback_model@ {
        None
    } else {
        match provider.default_model {
            Some(m) => if trim_spec(m@).len() == 0 {
                None
            } else {
                Some(m@)
            },
            None => None,
        }
    }
}

pub fn model_name_from_provider(
    settings: &Settings,
    provider: &ProviderConfig,
    config: &BootstrapConfig,
) -> (r: Option<String>)
    ensures
        opt_text(r) == provider_model(settings.model_name@, *provider, *config),
{
    if config.model_override.is_some() || settings.model_name != config.fallback_model {
        return None;
    }
    match &provider.default_model {
        Some(m) => if trim(m.as_str()).as_str().is_empty() {
            None
        } else {
            Some(m.clone())
        },
        None => None,
    }
}

/// What an engine is put together from.
#[derive(Debug)]
pub struct EnginePlan {
    pub settings: Settings,
    pub provider_id: String,
    pub provider: ProviderConfig,
}

/// Decides what the engine is put together from: the settings in force, the provider, and
/// the model, which the provider names where nothing nearer does.
pub fn plan_engine(
    loaded: Settings,
    config: &BootstrapConfig,
    found_instructions: Option<String>,
    env_base_url: Option<String>,
) -> (r: Result<EnginePlan, BootstrapError>)
    ensures
        match r {
            Ok(plan) => {
                &&& is_chosen(
                    loaded.providers@,
                    loaded.default_provider,
                    env_base_url,
                    Ok((plan.provider_id, plan.provider)),
                )
                &&& laid_over(loaded, *config, found_instructions, plan.settings)
                &&& plan.settings.model_name@ == match provider_model(
                    named_model(loaded, *config),
                    plan.provider,
                    *config,
                ) {
                    Some(m) => m,
                    None => named_model(loaded, *config),
                }
            },
            Err(e) => is_chosen(loaded.providers@, loaded.default_provider, env_base_url, Err(e)),
        },
{
    let mut settings = resolve_settings(loaded, config, found_instructions);
    match resolve_provider(&settings, env_base_url) {
        Ok((provider_id, provider)) => {
            match model_name_from_provider(&settings, &provider, config) {
                Some(name) => {
                    settings.model_name = name;
                },
                None => {},
            }
            Ok(EnginePlan { settings, provider_id, provider })
        },
        Err(e) => Err(e),
    }
}

/// The model that is named for the run is the one in force, whatever the settings and the
/// provider say; and one that a settings file names comes before that of the provider.
pub proof fn law_the_nearest_name_wins(
    loaded: Settings,
    config: BootstrapConfig,
    provider: ProviderConfig,
)
    ensures
        config.model_override matches Some(m) ==> named_model(loaded, config) == m@
            && provider_model(named_model(loaded, config), provider, config) is None,
        config.model_override is None && loaded.model_name@ != config.fallback_model@
            ==> named_model(loaded, config) == loaded.model_name@ && provider_model(
            named_model(loaded, config),
            provider,
            config,
        ) is None,
{
}

/// The key of a provider: its own where the settings have one, else that of the
/// environment.
pub fn api_key(configured: Option<String>, environment: Option<String>) -> (r: Option<String>)
    ensures
        r == match configured {
            Some(k) => Some(k),
            None => environment,
        },
{
    match configured {
        Some(k) => Some(k),
        None => environment,
    }
}

/// What a failure to make the model client says.
pub open spec fn client_fault(no_providers: bool, error: String) -> BootstrapError {
    if no_providers && find_spec(error@, "missing api_key"@) < error@.len() {
        BootstrapError::MissingCredentials
    } else {
        BootstrapError::Client(error)
    }
}

/// What a failure to make the model client is reported as. Without any provider configured
/// a missing key means that nothing was set up yet.
pub fn client_error(no_providers: bool, error: String) -> (r: BootstrapError)
    ensures
        r == client_fault(no_providers, error),
        r == if no_providers && find_spec(error@, "missing api_key"@) < error@.len() {
            BootstrapError::MissingCredentials
        } else {
            BootstrapError::Client(error)
        },
{
    let length: usize = chars_of(error.as_str()).len();
    if no_providers && find(error.as_str(), "missing api_key") < length {
        BootstrapError::MissingCredentials
    } else {
        BootstrapError::Client(error)
    }
}

// ---- the session to go on with -------------------------------------------------------

/// Which session is gone on with, and why none can be.
pub open spec fn is_resume_target(
    target: Option<Resume>,
    stored: bool,
    bad_id: Option<String>,
    recent: Option<String>,
    r: Result<Option<String>, BootstrapError>,
) -> bool {
    match target {
        None => r matches Ok(None),
        Some(Resume::Latest) => r matches Ok(x) && x == if stored {
            recent
        } else {
            None
        },
        Some(Resume::Id(id)) => match r {
            Ok(x) => stored && bad_id is None && opt_text(x) == Some(id@),
            Err(BootstrapError::Resume { id: x, source: ResumeFault::NotFound(y) }) => !stored
                && x@ == id@ && y@ == id@,
            Err(BootstrapError::Resume { id: x, source: ResumeFault::BadId(y) }) => stored && x@
                == id@ && Some(y) == bad_id,
            Err(_) => false,
        },
    }
}

/// Which session to go on with. `stored` says whether sessions are kept at all; `bad_id` is
/// what is wrong with the id that was asked for, if anything; `recent` is the latest
/// session of the project. An id that was asked for has to be there; for the latest one it
/// is no error that there is none.
pub fn resolve_resume_target(
    target: &Option<Resume>,
    stored: bool,
    bad_id: Option<String>,
    recent: Option<String>,
) -> (r: Result<Option<String>, BootstrapError>)
    ensures
        is_resume_target(*target, stored, bad_id, recent, r),
        match *target {
            None => r == Ok::<Option<String>, BootstrapError>(None),
            Some(Resume::Latest) => r == Ok::<Option<String>, BootstrapError>(
                if stored {
                    recent
                } else {
                    None
                },
            ),
            Some(Resume::Id(id)) => if !stored {
                r matches Err(BootstrapError::Resume { id: x, source: ResumeFault::NotFound(y) })
                    && x@ == id@ && y@ == id@
            } else {
                match bad_id {
                    Some(e) => r matches Err(
                        BootstrapError::Resume { id: x, source: ResumeFault::BadId(y) },
                    ) && x@ == id@ && y == e,
                    None => r matches Ok(Some(x)) && x@ == id@,
                }
            },
        },
{
    match target {
        None => Ok(None),
        Some(Resume::Latest) => if stored {
            Ok(recent)
        } else {
            Ok(None)
        },
        Some(Resume::Id(id)) => {
            if !stored {
                return Err(
                    BootstrapError::Resume {
                        id: id.clone(),
                        source: ResumeFault::NotFound(id.clone()),
                    },
                );
            }
            match bad_id {
                Some(e) => Err(
                    BootstrapError::Resume { id: id.clone(), source: ResumeFault::BadId(e) },
                ),
                None => Ok(Some(id.clone())),
            }
        },
    }
}

/// The id that a session is kept under: the one that it goes on with, else a fresh one.
pub fn session_id(resuming: &Option<String>, fresh: String) -> (r: String)
    ensures
        r@ == match *resuming {
            Some(id) => id@,
            None => fresh@,
        },
{
    match resuming {
        Some(id) => id.clone(),
        None => fresh,
    }
}

// ---- laws ----------------------------------------------------------------------------

proof fn lemma_place_in(s: Seq<Seq<char>>, x: Seq<char>)
    ensures
        place_in(s, x) <= s.len(),
        forall|i: int| 0 <= i < place_in(s, x) ==> !text_le(x, #[trigger] s[i]),
        place_in(s, x) < s.len() ==> text_le(x, s[place_in(s, x) as int]),
    decreases s.len(),
{
    if s.len() > 0 && !text_le(x, s[0]) {
        let t = s.drop_first();
        lemma_place_in(t, x);
        assert forall|i: int| 0 <= i < place_in(s, x) implies !text_le(x, #[trigger] s[i]) by {
            if i > 0 {
                assert(s[i] == t[i - 1]);
            }
        }
    }
}

proof fn lemma_le_total(a: Seq<char>, b: Seq<char>)
    ensures
        text_le(a, b) || text_le(b, a),
    decreases a.len(),
{
    if a.len() > 0 && b.len() > 0 && a[0] == b[0] {
        lemma_le_total(a.drop_first(), b.drop_first());
    }
}

proof fn lemma_le_trans(a: Seq<char>, b: Seq<char>, c: Seq<char>)
    requires
        text_le(a, b),
        text_le(b, c),
    ensures
        text_le(a, c),
    decreases a.len(),
{
    if a.len() > 0 && b.len() > 0 && c.len() > 0 && a[0] == b[0] && b[0] == c[0] {
        lemma_le_trans(a.drop_first(), b.drop_first(), c.drop_first());
    }
}

/// The names in an error about providers are in order, each of them once for each time that
/// it is configured.
pub proof fn law_sorted_is_an_ordered_permutation(s: Seq<Seq<char>>)
    ensures
        sorted(s).to_multiset() == s.to_multiset(),
        forall|i: int, j: int|
            0 <= i < j < sorted(s).len() ==> text_le(
                #[trigger] sorted(s)[i],
                #[trigger] sorted(s)[j],
            ),
    decreases s.len(),
{
    broadcast use vstd::seq_lib::group_to_multiset_ensures;

    if s.len() > 0 {
        let init = s.drop_last();
        let x = s.last();
        law_sorted_is_an_ordered_permutation(init);
        let b = sorted(init);
        lemma_place_in(b, x);
        let k = place_in(b, x) as int;
        let r = sorted(s);
        vstd::seq_lib::to_multiset_insert(b, k, x);
        assert(s =~= init.push(x));
        assert forall|i: int, j: int| 0 <= i < j < r.len() implies text_le(
            #[trigger] r[i],
            #[trigger] r[j],
        ) by {
            if j == k {
                lemma_le_total(x, b[i]);
            } else if i == k && k < j - 1 {
                lemma_le_trans(x, b[k], b[j - 1]);
            }
        }
    }
}

} // verus!
