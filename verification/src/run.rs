//! The `test` command: which parameters apply, which measurements are made in which order, and
//! what comes of them.

use crate::config::{AppConfig, ConfigView, Server, ServerView, TestConfig};
use crate::error::Error;
use crate::latency::{probe_count, probes_for};
use crate::reading::Reading;
use crate::result::{Measured, ResultView, TestResult};
use crate::time::Timestamp;
use crate::transfer::{compute_dynamic_cap, effective_cap, law_cap_is_the_larger};
use vstd::prelude::*;

verus! {

/// What is measured.
#[derive(Debug, Clone, Copy, PartialEq, Eq, Structural)]
pub enum TestUnit {
    All,
    Latency,
    Download,
    Upload,
}

/// What the user asks of a run.
#[derive(Debug, PartialEq, Eq)]
pub struct TestArgs {
    pub server: Option<String>,
    pub duration: Option<u64>,
    pub concurrency: Option<usize>,
    pub timeout: Option<u64>,
    pub no_save: bool,
    pub json: bool,
    pub quiet: bool,
    pub unit: TestUnit,
}

/// What is meant when no command is given: a full run with nothing asked for.
pub open spec fn nothing_asked() -> TestArgs {
    TestArgs {
        server: None,
        duration: None,
        concurrency: None,
        timeout: None,
        no_save: false,
        json: false,
        quiet: false,
        unit: TestUnit::All,
    }
}

impl Default for TestArgs {
    fn default() -> (r: Self)
        ensures
            r == nothing_asked(),
    {
        TestArgs {
            server: None,
            duration: None,
            concurrency: None,
            timeout: None,
            no_save: false,
            json: false,
            quiet: false,
            unit: TestUnit::All,
        }
    }
}

/// The parameters that apply to a run.
#[derive(Debug, Clone, Copy, PartialEq, Eq, Structural)]
pub struct RuntimeOptions {
    pub duration_seconds: u64,
    pub concurrency: usize,
    pub timeout_seconds: u64,
    pub no_save: bool,
    pub json: bool,
    pub quiet: bool,
    pub unit: TestUnit,
}

/// What the user asks for, and the configured value otherwise. Only a full run is saved, and only
/// if neither the user nor the configuration says otherwise.
pub open spec fn resolved(test: TestConfig, args: TestArgs) -> RuntimeOptions {
    RuntimeOptions {
        duration_seconds: match args.duration {
            Some(n) => n,
            None => test.duration_seconds,
        },
        concurrency: match args.concurrency {
            Some(n) => n,
            None => test.concurrency,
        },
        timeout_seconds: match args.timeout {
            Some(n) => n,
            None => test.timeout_seconds,
        },
        no_save: args.no_save || !test.save_history || args.unit != TestUnit::All,
        json: args.json,
        quiet: args.quiet,
        unit: args.unit,
    }
}

/// The parameters that apply to a run.
pub fn resolve_options(test: &TestConfig, args: &TestArgs) -> (r: RuntimeOptions)
    ensures
        r == resolved(*test, *args),
{
    RuntimeOptions {
        duration_seconds: args.duration.unwrap_or(test.duration_seconds),
        concurrency: args.concurrency.unwrap_or(test.concurrency),
        timeout_seconds: args.timeout.unwrap_or(test.timeout_seconds),
        no_save: args.no_save || !test.save_history || args.unit != TestUnit::All,
        json: args.json,
        quiet: args.quiet,
        unit: args.unit,
    }
}

impl RuntimeOptions {
    /// Whether the run shows its progress.
    pub open spec fn shows_progress(self) -> bool {
        !self.quiet && !self.json
    }

    /// Whether the run shows its progress.
    pub fn interactive(&self) -> (r: bool)
        ensures
            r == self.shows_progress(),
    {
        !self.quiet && !self.json
    }

    /// Whether the result is stored.
    pub open spec fn is_stored(self) -> bool {
        !self.no_save
    }

    /// Whether the result is stored.
    pub fn saves(&self) -> (r: bool)
        ensures
            r == self.is_stored(),
    {
        !self.no_save
    }

    /// Whether the user is told that the result was stored: only by a run that shows its
    /// progress, so that the output of any other run is its result and nothing else.
    pub open spec fn tells_saving(self) -> bool {
        !self.no_save && self.shows_progress()
    }

    /// Whether the user is told that the result was stored.
    pub fn announces_saving(&self) -> (r: bool)
        ensures
            r == self.tells_saving(),
    {
        !self.no_save && !self.quiet && !self.json
    }
}

/// The speed in Mbps up to which a download is not cut short by its cap.
pub const DOWNLOAD_FLOOR_MBPS: u64 = 1_000;

/// The speed in Mbps up to which an upload is not cut short by its cap.
pub const UPLOAD_FLOOR_MBPS: u64 = 600;

/// A run before its server is chosen.
#[derive(Debug, Clone, Copy, PartialEq, Eq)]
pub struct TestPlan {
    pub options: RuntimeOptions,
    pub download_cap: u64,
    pub upload_cap: u64,
    pub chunk_size_bytes: usize,
    pub probes: usize,
}

/// The run that the configuration and the user ask for.
pub open spec fn planned(test: TestConfig, args: TestArgs, plan: TestPlan) -> bool {
    let options = resolved(test, args);
    &&& plan.options == options
    &&& plan.download_cap == effective_cap(
        test.max_download_bytes,
        options.duration_seconds,
        DOWNLOAD_FLOOR_MBPS,
    )
    &&& plan.upload_cap == effective_cap(
        test.max_upload_bytes,
        options.duration_seconds,
        UPLOAD_FLOOR_MBPS,
    )
    &&& plan.chunk_size_bytes == test.chunk_size_bytes
    &&& plan.probes == probes_for(test.latency_probe_count)
}

/// Whether `r` is what planning a run gives. Without any configured server there is none.
pub open spec fn plan_outcome(
    cfg: ConfigView,
    args: TestArgs,
    r: Result<TestPlan, Error>,
) -> bool {
    match r {
        Ok(plan) => cfg.servers.len() > 0 && planned(cfg.test, args, plan),
        Err(e) => cfg.servers.len() == 0 && e == Error::NoServers,
    }
}

/// Plans a run.
pub fn plan_test(cfg: &AppConfig, args: &TestArgs) -> (r: Result<TestPlan, Error>)
    ensures
        plan_outcome(cfg@, *args, r),
{
    let options = resolve_options(&cfg.test, args);
    let download_cap = compute_dynamic_cap(
        cfg.test.max_download_bytes,
        options.duration_seconds,
        DOWNLOAD_FLOOR_MBPS,
    );
    let upload_cap = compute_dynamic_cap(
        cfg.test.max_upload_bytes,
        options.duration_seconds,
        UPLOAD_FLOOR_MBPS,
    );
    if cfg.servers.len() == 0 {
        return Err(Error::NoServers);
    }
    Ok(
        TestPlan {
            options,
            download_cap,
            upload_cap,
            chunk_size_bytes: cfg.test.chunk_size_bytes,
            probes: probe_count(cfg.test.latency_probe_count),
        },
    )
}

/// What a run does next.
#[derive(Debug, Clone, Copy, PartialEq, Eq, Structural)]
pub enum Phase {
    Latency,
    Download,
    Upload,
    Report,
}

/// Whether a run of this unit makes the measurement of this phase.
pub open spec fn measures(unit: TestUnit, phase: Phase) -> bool {
    match phase {
        Phase::Latency => unit == TestUnit::All || unit == TestUnit::Latency,
        Phase::Download => unit == TestUnit::All || unit == TestUnit::Download,
        Phase::Upload => unit == TestUnit::All || unit == TestUnit::Upload,
        Phase::Report => false,
    }
}

/// The phase itself if the run has it, and the next one that it has otherwise.
pub open spec fn phase_from(unit: TestUnit, phase: Phase) -> Phase {
    if phase == Phase::Latency && measures(unit, Phase::Latency) {
        Phase::Latency
    } else if (phase == Phase::Latency || phase == Phase::Download) && measures(
        unit,
        Phase::Download,
    ) {
        Phase::Download
    } else if phase != Phase::Report && measures(unit, Phase::Upload) {
        Phase::Upload
    } else {
        Phase::Report
    }
}

/// The phase that a run has after this one.
pub open spec fn phase_after(unit: TestUnit, phase: Phase) -> Phase {
    match phase {
        Phase::Latency => phase_from(unit, Phase::Download),
        Phase::Download => phase_from(unit, Phase::Upload),
        _ => Phase::Report,
    }
}

fn advance(unit: TestUnit, from: Phase) -> (r: Phase)
    ensures
        r == phase_from(unit, from),
{
    let all = unit == TestUnit::All;
    match from {
        Phase::Latency => if all || unit == TestUnit::Latency {
            Phase::Latency
        } else if unit == TestUnit::Download {
            Phase::Download
        } else {
            Phase::Upload
        },
        Phase::Download => if all || unit == TestUnit::Download {
            Phase::Download
        } else if unit == TestUnit::Upload {
            Phase::Upload
        } else {
            Phase::Report
        },
        Phase::Upload => if all || unit == TestUnit::Upload {
            Phase::Upload
        } else {
            Phase::Report
        },
        Phase::Report => Phase::Report,
    }
}

/// A full run measures the latency, then the download, then the upload, and reports; any other
/// run makes its one measurement and reports.
pub proof fn law_phase_order(unit: TestUnit)
    ensures
        ({
            let first = phase_from(unit, Phase::Latency);
            if unit == TestUnit::All {
                &&& first == Phase::Latency
                &&& phase_after(unit, Phase::Latency) == Phase::Download
                &&& phase_after(unit, Phase::Download) == Phase::Upload
                &&& phase_after(unit, Phase::Upload) == Phase::Report
            } else {
                &&& forall|phase: Phase| measures(unit, phase) <==> phase == first
                &&& phase_after(unit, first) == Phase::Report
            }
        }),
{
    let first = phase_from(unit, Phase::Latency);
    if unit != TestUnit::All {
        assert forall|phase: Phase| measures(unit, phase) <==> phase == first by {
            match phase {
                Phase::Latency => {},
                Phase::Download => {},
                Phase::Upload => {},
                Phase::Report => {},
            }
        }
    }
}

/// A run with its server, and what it measured so far.
#[derive(Debug)]
pub struct TestRun {
    plan: TestPlan,
    server: Server,
    phase: Phase,
    measured: Measured,
}

/// What a [`TestRun`] holds.
#[verifier::ext_equal]
pub struct RunView {
    pub plan: TestPlan,
    pub server: ServerView,
    pub phase: Phase,
    pub measured: Measured,
}

impl View for TestRun {
    type V = RunView;

    closed spec fn view(&self) -> RunView {
        RunView {
            plan: self.plan,
            server: self.server@,
            phase: self.phase,
            measured: self.measured,
        }
    }
}

/// A measurement to be made.
#[derive(Debug, PartialEq, Eq)]
pub enum Action {
    Latency { url: String, probes: usize, timeout_seconds: u64 },
    Download { url: String, duration_seconds: u64, concurrency: usize, max_bytes: u64 },
    Upload {
        url: String,
        duration_seconds: u64,
        concurrency: usize,
        max_bytes: u64,
        chunk_size: usize,
    },
    Report,
}

/// What a measurement brought.
#[derive(Debug, Clone, Copy, PartialEq, Eq, Structural)]
pub enum Outcome {
    Latency { latency_ms: Reading, jitter_ms: Reading },
    Download { mbps: Reading, bytes: u64 },
    Upload { mbps: Reading, bytes: u64 },
}

/// Nothing measured.
pub open spec fn nothing_measured() -> Measured {
    Measured {
        latency_ms: Reading { bits: 0 },
        jitter_ms: Reading { bits: 0 },
        download_mbps: Reading { bits: 0 },
        upload_mbps: Reading { bits: 0 },
        download_bytes: 0,
        upload_bytes: 0,
    }
}

/// The phase whose measurement brings this.
pub open spec fn phase_of(outcome: Outcome) -> Phase {
    match outcome {
        Outcome::Latency { .. } => Phase::Latency,
        Outcome::Download { .. } => Phase::Download,
        Outcome::Upload { .. } => Phase::Upload,
    }
}

/// What is measured once a measurement brought this.
pub open spec fn with_outcome(measured: Measured, outcome: Outcome) -> Measured {
    match outcome {
        Outcome::Latency { latency_ms, jitter_ms } => Measured { latency_ms, jitter_ms, ..measured },
        Outcome::Download { mbps, bytes } => Measured {
            download_mbps: mbps,
            download_bytes: bytes,
            ..measured
        },
        Outcome::Upload { mbps, bytes } => Measured {
            upload_mbps: mbps,
            upload_bytes: bytes,
            ..measured
        },
    }
}

/// Whether the measurement of this phase is behind a run that is at `now`.
pub open spec fn is_past(phase: Phase, now: Phase) -> bool {
    match phase {
        Phase::Latency => now != Phase::Latency,
        Phase::Download => now == Phase::Upload || now == Phase::Report,
        Phase::Upload => now == Phase::Report,
        Phase::Report => false,
    }
}

impl RunView {
    /// A run is only ever at a phase that it has, and what it has not measured is zero.
    pub open spec fn wf(self) -> bool {
        let unit = self.plan.options.unit;
        let none = nothing_measured();
        &&& self.phase == Phase::Report || measures(unit, self.phase)
        &&& !(measures(unit, Phase::Latency) && is_past(Phase::Latency, self.phase))
            ==> self.measured.latency_ms == none.latency_ms && self.measured.jitter_ms
            == none.jitter_ms
        &&& !(measures(unit, Phase::Download) && is_past(Phase::Download, self.phase))
            ==> self.measured.download_mbps == none.download_mbps && self.measured.download_bytes
            == none.download_bytes
        &&& !(measures(unit, Phase::Upload) && is_past(Phase::Upload, self.phase))
            ==> self.measured.upload_mbps == none.upload_mbps && self.measured.upload_bytes
            == none.upload_bytes
    }

    /// Whether `action` is what this run asks for.
    pub open spec fn asks_for(self, action: Action) -> bool {
        let options = self.plan.options;
        match self.phase {
            Phase::Latency => {
                &&& action matches Action::Latency { url, probes, timeout_seconds }
                &&& url@ == self.server.latency_url
                &&& probes == self.plan.probes
                &&& timeout_seconds == options.timeout_seconds
            },
            Phase::Download => {
                &&& action matches Action::Download {
                    url,
                    duration_seconds,
                    concurrency,
                    max_bytes,
                }
                &&& url@ == self.server.download_url
                &&& duration_seconds == options.duration_seconds
                &&& concurrency == options.concurrency
                &&& max_bytes == self.plan.download_cap
            },
            Phase::Upload => {
                &&& action matches Action::Upload {
                    url,
                    duration_seconds,
                    concurrency,
                    max_bytes,
                    chunk_size,
                }
                &&& url@ == self.server.upload_url
                &&& duration_seconds == options.duration_seconds
                &&& concurrency == options.concurrency
                &&& max_bytes == self.plan.upload_cap
                &&& chunk_size == self.plan.chunk_size_bytes
            },
            Phase::Report => action == Action::Report,
        }
    }

    /// The run once the measurement of its phase brought this.
    pub open spec fn after(self, outcome: Outcome) -> RunView {
        RunView {
            phase: phase_after(self.plan.options.unit, self.phase),
            measured: with_outcome(self.measured, outcome),
            ..self
        }
    }

    /// The result of the run.
    pub open spec fn result(self, started_at: Timestamp, app_version: Seq<char>) -> ResultView {
        ResultView {
            id: None,
            started_at,
            duration_seconds: self.plan.options.duration_seconds,
            server_id: self.server.id,
            server_name: self.server.name,
            server_download_url: self.server.download_url,
            server_upload_url: self.server.upload_url,
            server_latency_url: self.server.latency_url,
            measured: self.measured,
            error: None,
            app_version,
        }
    }
}

/// The planned run against a server, before its first measurement.
pub open spec fn begun(plan: TestPlan, server: ServerView) -> RunView {
    RunView {
        plan,
        server,
        phase: phase_from(plan.options.unit, Phase::Latency),
        measured: nothing_measured(),
    }
}

impl TestRun {
    /// The planned run against a server, before its first measurement.
    pub fn begin(plan: TestPlan, server: Server) -> (r: Self)
        ensures
            r@ == begun(plan, server@),
            r@.wf(),
    {
        let zero = Reading { bits: 0 };
        TestRun {
            plan,
            server,
            phase: advance(plan.options.unit, Phase::Latency),
            measured: Measured {
                latency_ms: zero,
                jitter_ms: zero,
                download_mbps: zero,
                upload_mbps: zero,
                download_bytes: 0,
                upload_bytes: 0,
            },
        }
    }

    /// What the run does next.
    pub fn action(&self) -> (r: Action)
        ensures
            self@.asks_for(r),
    {
        let options = self.plan.options;
        match self.phase {
            Phase::Latency => Action::Latency {
                url: self.server.latency_url.clone(),
                probes: self.plan.probes,
                timeout_seconds: options.timeout_seconds,
            },
            Phase::Download => Action::Download {
                url: self.server.download_url.clone(),
                duration_seconds: options.duration_seconds,
                concurrency: options.concurrency,
                max_bytes: self.plan.download_cap,
            },
            Phase::Upload => Action::Upload {
                url: self.server.upload_url.clone(),
                duration_seconds: options.duration_seconds,
                concurrency: options.concurrency,
                max_bytes: self.plan.upload_cap,
                chunk_size: self.plan.chunk_size_bytes,
            },
            Phase::Report => Action::Report,
        }
    }

    /// Takes note of what the measurement of the current phase brought.
    pub fn record(&mut self, outcome: Outcome)
        requires
            old(self)@.wf(),
            old(self)@.phase == phase_of(outcome),
        ensures
            final(self)@ == old(self)@.after(outcome),
            final(self)@.wf(),
    {
        let unit = self.plan.options.unit;
        match outcome {
            Outcome::Latency { latency_ms, jitter_ms } => {
                self.measured.latency_ms = latency_ms;
                self.measured.jitter_ms = jitter_ms;
                self.phase = advance(unit, Phase::Download);
            },
            Outcome::Download { mbps, bytes } => {
                self.measured.download_mbps = mbps;
                self.measured.download_bytes = bytes;
                self.phase = advance(unit, Phase::Upload);
            },
            Outcome::Upload { mbps, bytes } => {
                self.measured.upload_mbps = mbps;
                self.measured.upload_bytes = bytes;
                self.phase = Phase::Report;
            },
        }
    }

    /// The result of a run that has made its measurements.
    pub fn result(&self, started_at: Timestamp, app_version: &str) -> (r: TestResult)
        requires
            self@.phase == Phase::Report,
        ensures
            r@ == self@.result(started_at, app_version@),
    {
        TestResult {
            id: None,
            started_at,
            duration_seconds: self.plan.options.duration_seconds,
            server_id: self.server.id.clone(),
            server_name: self.server.name.clone(),
            server_download_url: self.server.download_url.clone(),
            server_upload_url: self.server.upload_url.clone(),
            server_latency_url: self.server.latency_url.clone(),
            measured: self.measured,
            error: None,
            app_version: app_version.to_owned(),
        }
    }
}

/// What a run does not measure is zero in its result.
pub proof fn law_unmeasured_is_zero(run: RunView)
    requires
        run.wf(),
        run.phase == Phase::Report,
    ensures
        ({
            let unit = run.plan.options.unit;
            let none = nothing_measured();
            &&& !measures(unit, Phase::Latency) ==> run.measured.latency_ms == none.latency_ms
                && run.measured.jitter_ms == none.jitter_ms
            &&& !measures(unit, Phase::Download) ==> run.measured.download_mbps
                == none.download_mbps && run.measured.download_bytes == 0
            &&& !measures(unit, Phase::Upload) ==> run.measured.upload_mbps == none.upload_mbps
                && run.measured.upload_bytes == 0
        }),
{
}

/// A full run ends with exactly what its three measurements brought.
pub proof fn law_full_run_keeps_all(
    run: RunView,
    latency_ms: Reading,
    jitter_ms: Reading,
    down: Reading,
    down_bytes: u64,
    up: Reading,
    up_bytes: u64,
)
    requires
        run.plan.options.unit == TestUnit::All,
        run.phase == Phase::Latency,
    ensures
        ({
            let end = run.after(Outcome::Latency { latency_ms, jitter_ms }).after(
                Outcome::Download { mbps: down, bytes: down_bytes },
            ).after(Outcome::Upload { mbps: up, bytes: up_bytes });
            &&& end.phase == Phase::Report
            &&& end.measured == (Measured {
                latency_ms,
                jitter_ms,
                download_mbps: down,
                upload_mbps: up,
                download_bytes: down_bytes,
                upload_bytes: up_bytes,
            })
        }),
{
}

/// Only full runs are stored, and none if the user or the configuration says so.
pub proof fn law_what_is_saved(test: TestConfig, args: TestArgs)
    ensures
        resolved(test, args).is_stored() <==> args.unit == TestUnit::All && !args.no_save
            && test.save_history,
{
}

/// What the user asks for applies, and what they do not ask for is as configured.
pub proof fn law_arguments_come_first(test: TestConfig, args: TestArgs)
    ensures
        args.duration matches Some(n) ==> resolved(test, args).duration_seconds == n,
        args.duration is None ==> resolved(test, args).duration_seconds == test.duration_seconds,
        args.concurrency matches Some(n) ==> resolved(test, args).concurrency == n,
        args.concurrency is None ==> resolved(test, args).concurrency == test.concurrency,
        args.timeout matches Some(n) ==> resolved(test, args).timeout_seconds == n,
        args.timeout is None ==> resolved(test, args).timeout_seconds == test.timeout_seconds,
        resolved(test, args).unit == args.unit,
        resolved(test, args).json == args.json,
        resolved(test, args).quiet == args.quiet,
{
}

/// A run of which nothing is asked is a full one with the configured parameters, shows its
/// progress, and is stored unless the configuration says otherwise.
pub proof fn law_plain_run_is_as_configured(test: TestConfig)
    ensures
        ({
            let options = resolved(test, nothing_asked());
            &&& options.duration_seconds == test.duration_seconds
            &&& options.concurrency == test.concurrency
            &&& options.timeout_seconds == test.timeout_seconds
            &&& options.unit == TestUnit::All
            &&& options.shows_progress()
            &&& options.is_stored() <==> test.save_history
            &&& options.tells_saving() <==> test.save_history
            &&& nothing_asked().server is None
        }),
{
}

/// Progress is shown unless the user asks for quiet or for JSON.
pub proof fn law_scripts_see_no_progress(test: TestConfig, args: TestArgs)
    ensures
        resolved(test, args).shows_progress() <==> !args.quiet && !args.json,
        resolved(test, args).tells_saving() <==> resolved(test, args).is_stored() && !args.quiet
            && !args.json,
{
}

/// A run is planned exactly when a server is configured. Its caps are the configured ones, or
/// what 1000 Mbps of download and 600 Mbps of upload come to in its time if that is more and can
/// be computed; its bodies are as large as configured, and it asks for at most six probes.
pub proof fn law_plan_follows_the_configuration(
    cfg: ConfigView,
    args: TestArgs,
    r: Result<TestPlan, Error>,
)
    requires
        plan_outcome(cfg, args, r),
    ensures
        r is Ok <==> cfg.servers.len() > 0,
        r is Err ==> r->Err_0 == Error::NoServers,
        r matches Ok(plan) ==> {
            let secs = plan.options.duration_seconds;
            &&& plan.options == resolved(cfg.test, args)
            &&& plan.download_cap >= cfg.test.max_download_bytes
            &&& plan.upload_cap >= cfg.test.max_upload_bytes
            &&& secs * 1_000_000_000 <= u64::MAX ==> {
                &&& plan.download_cap >= secs * 125_000_000
                &&& plan.download_cap == cfg.test.max_download_bytes || plan.download_cap == secs
                    * 125_000_000
            }
            &&& secs * 600_000_000 <= u64::MAX ==> {
                &&& plan.upload_cap >= secs * 75_000_000
                &&& plan.upload_cap == cfg.test.max_upload_bytes || plan.upload_cap == secs
                    * 75_000_000
            }
            &&& plan.chunk_size_bytes == cfg.test.chunk_size_bytes
            &&& plan.probes <= 6
            &&& plan.probes == cfg.test.latency_probe_count || (plan.probes == 6
                && cfg.test.latency_probe_count > 6)
        },
{
    if let Ok(plan) = r {
        let secs = plan.options.duration_seconds;
        law_cap_is_the_larger(cfg.test.max_download_bytes, secs, DOWNLOAD_FLOOR_MBPS);
        law_cap_is_the_larger(cfg.test.max_upload_bytes, secs, UPLOAD_FLOOR_MBPS);
    }
}

/// A full run makes every measurement, and a run of one unit makes that one alone.
pub proof fn law_unit_names_its_measurement(phase: Phase)
    ensures
        measures(TestUnit::All, phase) <==> phase != Phase::Report,
        measures(TestUnit::Latency, phase) <==> phase == Phase::Latency,
        measures(TestUnit::Download, phase) <==> phase == Phase::Download,
        measures(TestUnit::Upload, phase) <==> phase == Phase::Upload,
{
}

/// What a run asks for is the measurement of its phase, against the URL that its server has for
/// it, with the parameters that were planned.
pub proof fn law_actions_use_server_and_plan(run: RunView, action: Action)
    requires
        run.asks_for(action),
    ensures
        action is Latency <==> run.phase == Phase::Latency,
        action is Download <==> run.phase == Phase::Download,
        action is Upload <==> run.phase == Phase::Upload,
        action is Report <==> run.phase == Phase::Report,
        action matches Action::Latency { url, probes, timeout_seconds } ==> url@
            == run.server.latency_url && probes == run.plan.probes && timeout_seconds
            == run.plan.options.timeout_seconds,
        action matches Action::Download { url, duration_seconds, concurrency, max_bytes } ==> url@
            == run.server.download_url && duration_seconds == run.plan.options.duration_seconds
            && concurrency == run.plan.options.concurrency && max_bytes == run.plan.download_cap,
        action matches Action::Upload { url, duration_seconds, concurrency, max_bytes, chunk_size }
            ==> url@ == run.server.upload_url && duration_seconds
            == run.plan.options.duration_seconds && concurrency == run.plan.options.concurrency
            && max_bytes == run.plan.upload_cap && chunk_size == run.plan.chunk_size_bytes,
{
}

/// Taking note of a measurement records exactly what it brought, whatever the run is: both of its
/// numbers are those that were measured, and all other numbers, the plan and the server stay.
pub proof fn law_measurement_is_recorded(run: RunView, outcome: Outcome)
    ensures
        run.after(outcome).plan == run.plan,
        run.after(outcome).server == run.server,
        outcome matches Outcome::Latency { latency_ms, jitter_ms } ==> {
            let m = run.after(outcome).measured;
            &&& m.latency_ms == latency_ms && m.jitter_ms == jitter_ms
            &&& m.download_mbps == run.measured.download_mbps
            &&& m.download_bytes == run.measured.download_bytes
            &&& m.upload_mbps == run.measured.upload_mbps
            &&& m.upload_bytes == run.measured.upload_bytes
        },
        outcome matches Outcome::Download { mbps, bytes } ==> {
            let m = run.after(outcome).measured;
            &&& m.download_mbps == mbps && m.download_bytes == bytes
            &&& m.latency_ms == run.measured.latency_ms
            &&& m.jitter_ms == run.measured.jitter_ms
            &&& m.upload_mbps == run.measured.upload_mbps
            &&& m.upload_bytes == run.measured.upload_bytes
        },
        outcome matches Outcome::Upload { mbps, bytes } ==> {
            let m = run.after(outcome).measured;
            &&& m.upload_mbps == mbps && m.upload_bytes == bytes
            &&& m.latency_ms == run.measured.latency_ms
            &&& m.jitter_ms == run.measured.jitter_ms
            &&& m.download_mbps == run.measured.download_mbps
            &&& m.download_bytes == run.measured.download_bytes
        },
{
}

/// A run of one unit is over after its one measurement, and its result holds exactly what that
/// brought and zero for everything else.
pub proof fn law_single_run_keeps_its_measurement(
    plan: TestPlan,
    server: ServerView,
    outcome: Outcome,
    started_at: Timestamp,
    app_version: Seq<char>,
)
    requires
        plan.options.unit != TestUnit::All,
        measures(plan.options.unit, phase_of(outcome)),
    ensures
        ({
            let end = begun(plan, server).after(outcome);
            let m = end.result(started_at, app_version).measured;
            let zero = Reading { bits: 0 };
            &&& begun(plan, server).phase == phase_of(outcome)
            &&& end.phase == Phase::Report
            &&& match outcome {
                Outcome::Latency { latency_ms, jitter_ms } => {
                    &&& m.latency_ms == latency_ms && m.jitter_ms == jitter_ms
                    &&& m.download_mbps == zero && m.download_bytes == 0
                    &&& m.upload_mbps == zero && m.upload_bytes == 0
                },
                Outcome::Download { mbps, bytes } => {
                    &&& m.download_mbps == mbps && m.download_bytes == bytes
                    &&& m.latency_ms == zero && m.jitter_ms == zero
                    &&& m.upload_mbps == zero && m.upload_bytes == 0
                },
                Outcome::Upload { mbps, bytes } => {
                    &&& m.upload_mbps == mbps && m.upload_bytes == bytes
                    &&& m.latency_ms == zero && m.jitter_ms == zero
                    &&& m.download_mbps == zero && m.download_bytes == 0
                },
            }
        }),
{
}

/// A result says what was measured, against which server, when and for how long, and by which
/// version; it has no number and no error yet.
pub proof fn law_result_tells_of_the_run(
    run: RunView,
    started_at: Timestamp,
    app_version: Seq<char>,
)
    ensures
        ({
            let result = run.result(started_at, app_version);
            &&& result.measured == run.measured
            &&& result.server_id == run.server.id
            &&& result.server_name == run.server.name
            &&& result.server_download_url == run.server.download_url
            &&& result.server_upload_url == run.server.upload_url
            &&& result.server_latency_url == run.server.latency_url
            &&& result.started_at == started_at
            &&& result.duration_seconds == run.plan.options.duration_seconds
            &&& result.app_version == app_version
            &&& result.id is None && result.error is None
        }),
{
}

} // verus!
