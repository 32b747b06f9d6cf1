//! Configuration: the poll interval and the named alert rules.
use crate::text::same_text;
use vstd::prelude::*;

verus! {

/// One alert rule: a status filter, inclusive percentage bounds and what to show.
#[derive(Clone, Debug)]
pub struct Message {
    pub status: String,
    pub from: i64,
    pub to: i64,
    pub body: Option<String>,
    pub summary: Option<String>,
    pub icon: Option<String>,
    pub urgency: Option<String>,
}

/// The daemon's configuration. Rules are kept as (name, rule) pairs.
#[derive(Clone, Debug)]
pub struct Config {
    pub poll: String,
    pub messages: Vec<(String, Message)>,
}

/// The set of rule names.
pub open spec fn rule_names(msgs: Seq<(String, Message)>) -> Set<Seq<char>> {
    Set::new(|n: Seq<char>| exists|i: int| 0 <= i < msgs.len() && #[trigger] msgs[i].0@ == n)
}

/// The poll interval used when the configuration gives none.
pub fn default_poll() -> (r: String)
    ensures
        r@ == "2m"@,
{
    String::from_str("2m")
}

/// The status filter of a rule that gives none.
pub fn default_status() -> (r: String)
    ensures
        r@ == "Discharging"@,
{
    String::from_str("Discharging")
}

/// Declares `std::io::Error`, carried opaque in read failures.
#[verifier::external_type_specification]
#[verifier::external_body]
pub struct ExIoError(std::io::Error);

/// Declares `toml::de::Error`, carried opaque in parse failures.
#[verifier::external_type_specification]
#[verifier::external_body]
pub struct ExTomlError(toml::de::Error);

/// Declares `std::path::PathBuf`, the opaque path of a configuration file.
#[verifier::external_type_specification]
#[verifier::external_body]
pub struct ExPathBuf(std::path::PathBuf);

/// Why a configuration file could not be loaded.
#[derive(Debug)]
pub enum LoadErrorKind {
    /// The file could not be read.
    Read(std::io::Error),
    /// The file is not a valid configuration.
    Parse(toml::de::Error),
}

/// A failed load of the configuration file at `path`.
#[derive(Debug)]
pub struct LoadError {
    pub kind: LoadErrorKind,
    pub path: std::path::PathBuf,
}

/// Why a reload did not install a new configuration.
#[derive(Debug)]
pub enum ReloadError {
    /// The file could not be loaded; the active configuration stays.
    Load(LoadError),
    /// The lock guarding the active configuration was poisoned.
    Poison,
}

/// The configuration in force after a reload whose load gave `loaded`.
pub open spec fn reloaded(active: Config, loaded: Result<Config, LoadError>) -> Config {
    match loaded {
        Ok(c) => c,
        Err(_) => active,
    }
}

/// What a reload whose load gave `loaded` returns.
pub open spec fn reload_result(loaded: Result<Config, LoadError>) -> Result<(), ReloadError> {
    match loaded {
        Ok(_) => Ok(()),
        Err(e) => Err(ReloadError::Load(e)),
    }
}

/// Installs a freshly loaded configuration in place of the active one; a failed
/// load leaves the active configuration as it was.
pub fn reload(active: &mut Config, loaded: Result<Config, LoadError>) -> (r: Result<(), ReloadError>)
    ensures
        *final(active) == reloaded(*old(active), loaded),
        r == reload_result(loaded),
{
    match loaded {
        Ok(c) => {
            *active = c;
            Ok(())
        },
        Err(e) => Err(ReloadError::Load(e)),
    }
}

/// Reading the same configuration twice in a row leaves what the first reading
/// installed, and one that equals the active configuration changes nothing.
pub proof fn reload_idempotent(active: Config, loaded: Result<Config, LoadError>)
    ensures
        reloaded(reloaded(active, loaded), loaded) == reloaded(active, loaded),
        loaded == Ok::<Config, LoadError>(active) ==> reloaded(active, loaded) == active,
{
}

/// Whether a change event calls for a reload: the data of the configuration
/// file itself changed.
pub open spec fn is_config_change_spec(
    data_modified: bool,
    changed: Seq<String>,
    config_name: Seq<char>,
) -> bool {
    data_modified && exists|i: int| 0 <= i < changed.len() && #[trigger] changed[i]@ == config_name
}

/// Decides whether a change event in the configuration's directory triggers a
/// reload: only a data modification of a file with the configuration's name.
pub fn is_config_change(data_modified: bool, changed: &Vec<String>, config_name: &str) -> (r: bool)
    ensures
        r == is_config_change_spec(data_modified, changed@, config_name@),
{
    if !data_modified {
        return false;
    }
    let n = changed.len();
    let mut i: usize = 0;
    while i < n
        invariant
            data_modified,
            n == changed@.len(),
            i <= n,
            forall|j: int| 0 <= j < i ==> #[trigger] changed@[j]@ != config_name@,
        decreases n - i,
    {
        if same_text(changed[i].as_str(), config_name) {
            assert(changed@[i as int]@ == config_name@);
            return true;
        }
        i = i + 1;
    }
    false
}

/// How many times a reload is tried for one change of the file.
pub const RELOAD_ATTEMPTS: usize = 10;

/// Milliseconds to wait between two reload attempts.
pub const RELOAD_BACKOFF_MS: u64 = 10;

/// What to do after one reload attempt.
#[derive(PartialEq, Eq, Structural, Clone, Copy, Debug)]
pub enum ReloadStep {
    /// The new configuration is installed: wake the poller.
    Reloaded,
    /// Try again after waiting this many milliseconds.
    RetryAfterMs(u64),
    /// All attempts failed: report the last error, keep the active configuration.
    GiveUp,
    /// The configuration lock is unusable.
    Fatal,
}

/// The step after attempt number `attempt` (from zero) of `n` ended with `outcome`.
pub open spec fn reload_step(attempt: nat, n: nat, outcome: Result<(), ReloadError>) -> ReloadStep {
    match outcome {
        Ok(_) => ReloadStep::Reloaded,
        Err(ReloadError::Poison) => ReloadStep::Fatal,
        Err(ReloadError::Load(_)) => if attempt + 1 < n {
            ReloadStep::RetryAfterMs(RELOAD_BACKOFF_MS as u64)
        } else {
            ReloadStep::GiveUp
        },
    }
}

/// Decides what follows a reload attempt: a load failure is retried after a
/// short wait until `n` attempts have been made.
pub fn next_reload_step(attempt: usize, n: usize, outcome: &Result<(), ReloadError>) -> (r: ReloadStep)
    requires
        attempt < n,
    ensures
        r == reload_step(attempt as nat, n as nat, *outcome),
{
    match outcome {
        Ok(_) => ReloadStep::Reloaded,
        Err(ReloadError::Poison) => ReloadStep::Fatal,
        Err(ReloadError::Load(_)) => if attempt + 1 < n {
            ReloadStep::RetryAfterMs(RELOAD_BACKOFF_MS)
        } else {
            ReloadStep::GiveUp
        },
    }
}

/// The configuration in force and the final step, when attempts from number
/// `attempt` on load `loads[attempt]`, `loads[attempt + 1]`, ... in turn.
pub open spec fn retry_run(
    active: Config,
    loads: Seq<Result<Config, LoadError>>,
    attempt: nat,
    n: nat,
) -> (Config, ReloadStep)
    decreases n - attempt,
{
    if attempt >= n || attempt >= loads.len() {
        (active, ReloadStep::GiveUp)
    } else {
        let loaded = loads[attempt as int];
        let next = reloaded(active, loaded);
        match reload_step(attempt, n, reload_result(loaded)) {
            ReloadStep::RetryAfterMs(_) => retry_run(next, loads, attempt + 1, n),
            step => (next, step),
        }
    }
}

proof fn lemma_retry_from(active: Config, loads: Seq<Result<Config, LoadError>>, k: nat, n: nat)
    requires
        k < n <= loads.len(),
        forall|i: int| k <= i < n - 1 ==> #[trigger] loads[i] is Err,
    ensures
        loads[n - 1] is Ok ==> retry_run(active, loads, k, n) == (
            loads[n - 1]->Ok_0,
            ReloadStep::Reloaded,
        ),
        loads[n - 1] is Err ==> retry_run(active, loads, k, n) == (active, ReloadStep::GiveUp),
    decreases n - k,
{
    if k + 1 < n {
        assert(loads[k as int] is Err);
        lemma_retry_from(active, loads, k + 1, n);
    }
}

/// With `n` attempts, loads that fail `n - 1` times and then succeed install the
/// last one; `n` failures in a row give up and keep the active configuration.
pub proof fn retry_bound(active: Config, loads: Seq<Result<Config, LoadError>>, n: nat)
    requires
        0 < n <= loads.len(),
        forall|i: int| 0 <= i < n - 1 ==> #[trigger] loads[i] is Err,
    ensures
        loads[n - 1] is Ok ==> retry_run(active, loads, 0, n) == (
            loads[n - 1]->Ok_0,
            ReloadStep::Reloaded,
        ),
        loads[n - 1] is Err ==> retry_run(active, loads, 0, n) == (active, ReloadStep::GiveUp),
{
    lemma_retry_from(active, loads, 0, n);
}

} // verus!
