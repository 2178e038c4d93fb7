//! Starting the daemon, one step at a time.
//!
//! A start is a short conversation. The sequence names an effect, the caller
//! performs it and reports how it went, and the sequence names the next one,
//! until it finishes with an outcome. The sequence performs nothing itself, so
//! what a start does to the machine can be read off the effects it names.

use crate::command::{launch_command, launch_text, CommandLine, CommandText};
use crate::identity::DaemonIdentity;
use crate::paths::{create_dir_failure, error_log_path_in, join_path, log_path_in, state_dir_of};
use crate::platform::Platform;
use crate::text::result_text;
use vstd::prelude::*;

verus! {

/// How a start ended.
#[derive(Debug, PartialEq, Eq)]
pub enum StartOutcome {
    /// The daemon answered the probe: nothing was launched.
    AlreadyRunning,
    /// The daemon's process was spawned. It may not be listening yet.
    Started,
    /// A step failed; nothing after it was attempted.
    Failed { message: String },
}

/// What an outcome holds.
pub enum OutcomeText {
    AlreadyRunning,
    Started,
    Failed { message: Seq<char> },
}

impl View for StartOutcome {
    type V = OutcomeText;

    open spec fn view(&self) -> OutcomeText {
        match self {
            StartOutcome::AlreadyRunning => OutcomeText::AlreadyRunning,
            StartOutcome::Started => OutcomeText::Started,
            StartOutcome::Failed { message } => OutcomeText::Failed { message: message@ },
        }
    }
}

impl StartOutcome {
    /// A second value that holds the same.
    fn duplicate(&self) -> (copy: StartOutcome)
        ensures
            copy@ == self@,
    {
        match self {
            StartOutcome::AlreadyRunning => StartOutcome::AlreadyRunning,
            StartOutcome::Started => StartOutcome::Started,
            StartOutcome::Failed { message } => StartOutcome::Failed { message: message.clone() },
        }
    }
}

/// How a file is to be opened.
#[derive(Clone, Copy, Debug, PartialEq, Eq, Structural)]
pub struct OpenMode {
    /// Create the file where it is missing.
    pub create: bool,
    /// Open it for writing.
    pub write: bool,
    /// Empty it where it exists.
    pub truncate: bool,
}

/// The way a log is opened for a start: for writing, created where it is
/// missing and emptied where it is not, so that a log holds the output of one
/// run of the daemon and no more.
pub open spec fn fresh_log() -> OpenMode {
    OpenMode { create: true, write: true, truncate: true }
}

/// What the caller is asked to do next. Each effect but the last is answered
/// with `Ok` where it succeeded and with `Err` and the operating system's words
/// where it did not.
#[derive(Debug, PartialEq, Eq)]
pub enum Effect {
    /// Connect to `address` and drop the connection at once.
    Probe { address: String },
    /// Find the user's home directory; succeed with its path.
    FindHome,
    /// Create the directory `path`, and what is missing above it, unless it
    /// exists.
    EnsureDir { path: String },
    /// Open the output log at `path` as `mode` says, and keep it open.
    OpenLog { path: String, mode: OpenMode },
    /// Open the error log at `path` as `mode` says, and keep it open.
    OpenErrorLog { path: String, mode: OpenMode },
    /// Spawn `command` and do not wait for it. Its standard output goes to the
    /// file that was opened at `stdout`, its standard error to the one that was
    /// opened at `stderr`.
    Spawn { command: CommandLine, stdout: String, stderr: String },
    /// Nothing more: the start has ended with `outcome`.
    Finish { outcome: StartOutcome },
}

/// What an effect holds.
pub enum EffectText {
    Probe { address: Seq<char> },
    FindHome,
    EnsureDir { path: Seq<char> },
    OpenLog { path: Seq<char>, mode: OpenMode },
    OpenErrorLog { path: Seq<char>, mode: OpenMode },
    Spawn { command: CommandText, stdout: Seq<char>, stderr: Seq<char> },
    Finish { outcome: OutcomeText },
}

impl View for Effect {
    type V = EffectText;

    open spec fn view(&self) -> EffectText {
        match self {
            Effect::Probe { address } => EffectText::Probe { address: address@ },
            Effect::FindHome => EffectText::FindHome,
            Effect::EnsureDir { path } => EffectText::EnsureDir { path: path@ },
            Effect::OpenLog { path, mode } => EffectText::OpenLog { path: path@, mode: *mode },
            Effect::OpenErrorLog { path, mode } => EffectText::OpenErrorLog {
                path: path@,
                mode: *mode,
            },
            Effect::Spawn { command, stdout, stderr } => EffectText::Spawn {
                command: command@,
                stdout: stdout@,
                stderr: stderr@,
            },
            Effect::Finish { outcome } => EffectText::Finish { outcome: outcome@ },
        }
    }
}

/// The effect whose answer a sequence waits for.
#[derive(Debug, PartialEq, Eq)]
pub enum Stage {
    Probing,
    FindingHome,
    EnsuringDir { dir: String },
    OpeningLog { dir: String },
    OpeningErrorLog { dir: String },
    Spawning,
    Finished { outcome: StartOutcome },
}

/// What a stage holds.
pub enum StageText {
    Probing,
    FindingHome,
    EnsuringDir { dir: Seq<char> },
    OpeningLog { dir: Seq<char> },
    OpeningErrorLog { dir: Seq<char> },
    Spawning,
    Finished { outcome: OutcomeText },
}

impl View for Stage {
    type V = StageText;

    open spec fn view(&self) -> StageText {
        match self {
            Stage::Probing => StageText::Probing,
            Stage::FindingHome => StageText::FindingHome,
            Stage::EnsuringDir { dir } => StageText::EnsuringDir { dir: dir@ },
            Stage::OpeningLog { dir } => StageText::OpeningLog { dir: dir@ },
            Stage::OpeningErrorLog { dir } => StageText::OpeningErrorLog { dir: dir@ },
            Stage::Spawning => StageText::Spawning,
            Stage::Finished { outcome } => StageText::Finished { outcome: outcome@ },
        }
    }
}

/// A start in progress. A sequence comes from `begin` and moves by `advance`
/// alone, so it only ever stands where the rule of the sequence has led it.
#[derive(Debug, PartialEq, Eq)]
pub struct StartSequence {
    identity: DaemonIdentity,
    platform: Platform,
    stage: Stage,
}

/// What a start in progress holds.
pub struct SequenceText {
    pub identity: DaemonIdentity,
    pub platform: Platform,
    pub stage: StageText,
}

impl View for StartSequence {
    type V = SequenceText;

    closed spec fn view(&self) -> SequenceText {
        SequenceText { identity: self.identity, platform: self.platform, stage: self.stage@ }
    }
}

/// A sequence at `stage`, otherwise as `s`.
pub open spec fn at_stage(s: SequenceText, stage: StageText) -> SequenceText {
    SequenceText { stage, ..s }
}

/// A sequence that has ended with `outcome`, and the effect that says so.
pub open spec fn finished(s: SequenceText, outcome: OutcomeText) -> (SequenceText, EffectText) {
    (at_stage(s, StageText::Finished { outcome }), EffectText::Finish { outcome })
}

/// A sequence that has ended because a step failed.
pub open spec fn failed(s: SequenceText, message: Seq<char>) -> (SequenceText, EffectText) {
    finished(s, OutcomeText::Failed { message })
}

/// A fresh start, and its first effect: the probe of the daemon's address.
pub open spec fn begun(identity: DaemonIdentity, platform: Platform) -> (SequenceText, EffectText) {
    (
        SequenceText { identity, platform, stage: StageText::Probing },
        EffectText::Probe { address: identity.probe_address_text() },
    )
}

/// The spawn of the gateway with its output streams in the two logs of the
/// state directory `dir`.
pub open spec fn spawn_text(identity: DaemonIdentity, platform: Platform, dir: Seq<char>) -> EffectText {
    EffectText::Spawn {
        command: launch_text(identity, platform),
        stdout: log_path_in(dir, platform),
        stderr: error_log_path_in(dir, platform),
    }
}

/// The rule of the sequence: where it stands after `reply`, and what it asks
/// for next.
///
/// A daemon that answers the probe is left alone. Otherwise the state directory
/// is resolved and ensured, the two logs are opened afresh, and only then is the
/// daemon spawned. The first failure ends the sequence with its own message. A
/// sequence that has ended stays as it is.
pub open spec fn step(s: SequenceText, reply: Result<Seq<char>, Seq<char>>) -> (
    SequenceText,
    EffectText,
) {
    match s.stage {
        StageText::Probing => match reply {
            Ok(_) => finished(s, OutcomeText::AlreadyRunning),
            Err(_) => (at_stage(s, StageText::FindingHome), EffectText::FindHome),
        },
        StageText::FindingHome => match reply {
            Ok(home) => {
                let dir = state_dir_of(home, s.platform);
                (at_stage(s, StageText::EnsuringDir { dir }), EffectText::EnsureDir { path: dir })
            },
            Err(_) => failed(s, "Could not find home directory"@),
        },
        StageText::EnsuringDir { dir } => match reply {
            Ok(_) => (
                at_stage(s, StageText::OpeningLog { dir }),
                EffectText::OpenLog { path: log_path_in(dir, s.platform), mode: fresh_log() },
            ),
            Err(detail) => failed(s, "Failed to create OpenClaw directory: "@ + detail),
        },
        StageText::OpeningLog { dir } => match reply {
            Ok(_) => (
                at_stage(s, StageText::OpeningErrorLog { dir }),
                EffectText::OpenErrorLog {
                    path: error_log_path_in(dir, s.platform),
                    mode: fresh_log(),
                },
            ),
            Err(detail) => failed(s, "Failed to open gateway log file: "@ + detail),
        },
        StageText::OpeningErrorLog { dir } => match reply {
            Ok(_) => (at_stage(s, StageText::Spawning), spawn_text(s.identity, s.platform, dir)),
            Err(detail) => failed(s, "Failed to open gateway error log file: "@ + detail),
        },
        StageText::Spawning => match reply {
            Ok(_) => finished(s, OutcomeText::Started),
            Err(detail) => failed(s, "Failed to start gateway: "@ + detail),
        },
        StageText::Finished { outcome } => (s, EffectText::Finish { outcome }),
    }
}

/// The mode of `fresh_log`.
fn fresh() -> (mode: OpenMode)
    ensures
        mode == fresh_log(),
{
    OpenMode { create: true, write: true, truncate: true }
}

/// `prefix` followed by `detail`.
fn failure(prefix: &str, detail: &str) -> (outcome: StartOutcome)
    ensures
        outcome@ == (OutcomeText::Failed { message: prefix@ + detail@ }),
{
    let mut message = String::from_str(prefix);
    message.append(detail);
    StartOutcome::Failed { message }
}

impl StartSequence {
    /// Begins a start of the daemon `identity`.
    pub fn begin(identity: DaemonIdentity, platform: Platform) -> (started: (StartSequence, Effect))
        ensures
            (started.0@, started.1@) == begun(identity, platform),
    {
        (
            StartSequence { identity, platform, stage: Stage::Probing },
            Effect::Probe { address: identity.probe_address() },
        )
    }

    /// A sequence that has ended with `outcome`, and the effect that says so.
    fn end(identity: DaemonIdentity, platform: Platform, outcome: StartOutcome) -> (next: (
        StartSequence,
        Effect,
    ))
        ensures
            next.0@ == (SequenceText {
                identity,
                platform,
                stage: StageText::Finished { outcome: outcome@ },
            }),
            next.1@ == (EffectText::Finish { outcome: outcome@ }),
    {
        let reported = outcome.duplicate();
        (
            StartSequence { identity, platform, stage: Stage::Finished { outcome } },
            Effect::Finish { outcome: reported },
        )
    }

    /// Whether the sequence has ended.
    pub fn is_finished(&self) -> (ended: bool)
        ensures
            ended == (self@.stage is Finished),
    {
        match self.stage {
            Stage::Finished { .. } => true,
            _ => false,
        }
    }

    /// Takes the answer to the effect that was named last, and names the next.
    pub fn advance(self, reply: Result<String, String>) -> (next: (StartSequence, Effect))
        ensures
            (next.0@, next.1@) == step(self@, result_text(reply)),
    {
        let StartSequence { identity, platform, stage } = self;
        match stage {
            Stage::Probing => match reply {
                Ok(_) => Self::end(identity, platform, StartOutcome::AlreadyRunning),
                Err(_) => (
                    StartSequence { identity, platform, stage: Stage::FindingHome },
                    Effect::FindHome,
                ),
            },
            Stage::FindingHome => match reply {
                Ok(home) => {
                    let dir = join_path(home.as_str(), ".openclaw", platform);
                    let path = dir.clone();
                    (
                        StartSequence { identity, platform, stage: Stage::EnsuringDir { dir } },
                        Effect::EnsureDir { path },
                    )
                },
                Err(_) => Self::end(
                    identity,
                    platform,
                    StartOutcome::Failed {
                        message: String::from_str("Could not find home directory"),
                    },
                ),
            },
            Stage::EnsuringDir { dir } => match reply {
                Ok(_) => {
                    let path = join_path(dir.as_str(), "gateway.log", platform);
                    (
                        StartSequence { identity, platform, stage: Stage::OpeningLog { dir } },
                        Effect::OpenLog { path, mode: fresh() },
                    )
                },
                Err(detail) => Self::end(
                    identity,
                    platform,
                    StartOutcome::Failed { message: create_dir_failure(detail.as_str()) },
                ),
            },
            Stage::OpeningLog { dir } => match reply {
                Ok(_) => {
                    let path = join_path(dir.as_str(), "gateway_error.log", platform);
                    (
                        StartSequence { identity, platform, stage: Stage::OpeningErrorLog { dir } },
                        Effect::OpenErrorLog { path, mode: fresh() },
                    )
                },
                Err(detail) => Self::end(
                    identity,
                    platform,
                    failure("Failed to open gateway log file: ", detail.as_str()),
                ),
            },
            Stage::OpeningErrorLog { dir } => match reply {
                Ok(_) => (
                    StartSequence { identity, platform, stage: Stage::Spawning },
                    Effect::Spawn {
                        command: launch_command(identity, platform),
                        stdout: join_path(dir.as_str(), "gateway.log", platform),
                        stderr: join_path(dir.as_str(), "gateway_error.log", platform),
                    },
                ),
                Err(detail) => Self::end(
                    identity,
                    platform,
                    failure("Failed to open gateway error log file: ", detail.as_str()),
                ),
            },
            Stage::Spawning => match reply {
                Ok(_) => Self::end(identity, platform, StartOutcome::Started),
                Err(detail) => Self::end(
                    identity,
                    platform,
                    failure("Failed to start gateway: ", detail.as_str()),
                ),
            },
            Stage::Finished { outcome } => Self::end(identity, platform, outcome),
        }
    }
}

/// What a caller who asked for a start is told.
pub open spec fn start_reply(outcome: OutcomeText) -> Result<Seq<char>, Seq<char>> {
    match outcome {
        OutcomeText::AlreadyRunning => Ok("Gateway is already running"@),
        OutcomeText::Started => Ok("Gateway starting..."@),
        OutcomeText::Failed { message } => Err(message),
    }
}

/// What a caller who asked for a start at launch of the application is told:
/// whether the daemon was started now.
pub open spec fn auto_start_reply(outcome: OutcomeText) -> Result<bool, Seq<char>> {
    match outcome {
        OutcomeText::AlreadyRunning => Ok(false),
        OutcomeText::Started => Ok(true),
        OutcomeText::Failed { message } => Err(message),
    }
}

/// What an answer to an automatic start holds.
pub open spec fn auto_start_text(r: Result<bool, String>) -> Result<bool, Seq<char>> {
    match r {
        Ok(b) => Ok(b),
        Err(e) => Err(e@),
    }
}

/// The answer to a request to start the gateway, from how the start ended.
pub fn start_gateway(outcome: StartOutcome) -> (reply: Result<String, String>)
    ensures
        result_text(reply) == start_reply(outcome@),
{
    match outcome {
        StartOutcome::AlreadyRunning => Ok(String::from_str("Gateway is already running")),
        StartOutcome::Started => Ok(String::from_str("Gateway starting...")),
        StartOutcome::Failed { message } => Err(message),
    }
}

/// The answer to a start at launch of the application, from how the start
/// ended.
pub fn auto_start_gateway(outcome: StartOutcome) -> (reply: Result<bool, String>)
    ensures
        auto_start_text(reply) == auto_start_reply(outcome@),
{
    match outcome {
        StartOutcome::AlreadyRunning => Ok(false),
        StartOutcome::Started => Ok(true),
        StartOutcome::Failed { message } => Err(message),
    }
}

/// The effects that a sequence at `s` names while `replies` are taken in turn.
pub open spec fn effects_of(s: SequenceText, replies: Seq<Result<Seq<char>, Seq<char>>>) -> Seq<
    EffectText,
>
    decreases replies.len(),
{
    if replies.len() == 0 {
        Seq::empty()
    } else {
        seq![step(s, replies.first()).1] + effects_of(
            step(s, replies.first()).0,
            replies.drop_first(),
        )
    }
}

/// Where a sequence at `s` stands once `replies` were taken in turn.
pub open spec fn state_after(s: SequenceText, replies: Seq<Result<Seq<char>, Seq<char>>>) -> SequenceText
    decreases replies.len(),
{
    if replies.len() == 0 {
        s
    } else {
        state_after(step(s, replies.first()).0, replies.drop_first())
    }
}

/// How many answers a sequence has taken when it waits at `stage`, if it has
/// not ended.
pub open spec fn answers_taken(stage: StageText) -> nat {
    match stage {
        StageText::Probing => 0,
        StageText::FindingHome => 1,
        StageText::EnsuringDir { .. } => 2,
        StageText::OpeningLog { .. } => 3,
        StageText::OpeningErrorLog { .. } => 4,
        StageText::Spawning => 5,
        StageText::Finished { .. } => 6,
    }
}

/// How many of `effects` spawn a process.
pub open spec fn spawns(effects: Seq<EffectText>) -> nat
    decreases effects.len(),
{
    if effects.len() == 0 {
        0
    } else {
        (if effects.first() is Spawn {
            1nat
        } else {
            0nat
        }) + spawns(effects.drop_first())
    }
}

/// How many spawns a sequence at `stage` may still name.
pub open spec fn spawns_ahead(stage: StageText) -> nat {
    match stage {
        StageText::Spawning => 0,
        StageText::Finished { .. } => 0,
        _ => 1,
    }
}

/// A daemon that answers the probe is left alone: whatever the caller reports
/// afterwards, the sequence names nothing but its own end, and the caller is
/// told that the gateway is already running.
pub proof fn law_running_daemon_is_left_alone(
    identity: DaemonIdentity,
    platform: Platform,
    replies: Seq<Result<Seq<char>, Seq<char>>>,
)
    requires
        replies.len() > 0,
        replies.first() is Ok,
    ensures
        forall|i: int|
            0 <= i < replies.len() ==> #[trigger] effects_of(
                begun(identity, platform).0,
                replies,
            )[i] == (EffectText::Finish { outcome: OutcomeText::AlreadyRunning }),
        effects_of(begun(identity, platform).0, replies).len() == replies.len(),
        spawns(effects_of(begun(identity, platform).0, replies)) == 0,
        start_reply(OutcomeText::AlreadyRunning) == Ok::<Seq<char>, Seq<char>>(
            "Gateway is already running"@,
        ),
{
    let start = begun(identity, platform).0;
    let done = step(start, replies.first()).0;
    lemma_finished_stays(done, OutcomeText::AlreadyRunning, replies.drop_first());
    let effects = effects_of(start, replies);
    let rest = effects_of(done, replies.drop_first());
    assert(effects == seq![step(start, replies.first()).1] + rest);
    assert forall|i: int| 0 <= i < replies.len() implies #[trigger] effects[i] == (
    EffectText::Finish { outcome: OutcomeText::AlreadyRunning }) by {
        if i > 0 {
            assert(effects[i] == rest[i - 1]);
        }
    }
    assert(effects.drop_first() =~= rest);
}

/// A sequence that has ended names its end again, and nothing else.
proof fn lemma_finished_stays(
    s: SequenceText,
    outcome: OutcomeText,
    replies: Seq<Result<Seq<char>, Seq<char>>>,
)
    requires
        s.stage == (StageText::Finished { outcome }),
    ensures
        effects_of(s, replies).len() == replies.len(),
        forall|i: int|
            0 <= i < replies.len() ==> #[trigger] effects_of(s, replies)[i] == (EffectText::Finish {
                outcome,
            }),
        spawns(effects_of(s, replies)) == 0,
    decreases replies.len(),
{
    if replies.len() > 0 {
        lemma_finished_stays(s, outcome, replies.drop_first());
        let effects = effects_of(s, replies);
        let rest = effects_of(s, replies.drop_first());
        assert(step(s, replies.first()) == (s, EffectText::Finish { outcome }));
        assert(effects == seq![EffectText::Finish { outcome }] + rest);
        assert forall|i: int| 0 <= i < replies.len() implies #[trigger] effects[i] == (
        EffectText::Finish { outcome }) by {
            if i > 0 {
                assert(effects[i] == rest[i - 1]);
            }
        }
        assert(effects.drop_first() =~= rest);
    }
}

/// A daemon that does not answer the probe is launched, where every step
/// succeeds, in this order: the state directory under the home that was found
/// is ensured, the output log and the error log in it are opened afresh, the
/// gateway command is spawned once, and the caller is told that the gateway is
/// starting.
pub proof fn law_stopped_daemon_is_launched_once(
    identity: DaemonIdentity,
    platform: Platform,
    refusal: Seq<char>,
    home: Seq<char>,
    done: Seq<char>,
)
    ensures
        effects_of(
            begun(identity, platform).0,
            seq![Err(refusal), Ok(home), Ok(done), Ok(done), Ok(done), Ok(done)],
        ) == seq![
            EffectText::FindHome,
            EffectText::EnsureDir { path: state_dir_of(home, platform) },
            EffectText::OpenLog {
                path: log_path_in(state_dir_of(home, platform), platform),
                mode: fresh_log(),
            },
            EffectText::OpenErrorLog {
                path: error_log_path_in(state_dir_of(home, platform), platform),
                mode: fresh_log(),
            },
            spawn_text(identity, platform, state_dir_of(home, platform)),
            EffectText::Finish { outcome: OutcomeText::Started },
        ],
        spawns(
            effects_of(
                begun(identity, platform).0,
                seq![Err(refusal), Ok(home), Ok(done), Ok(done), Ok(done), Ok(done)],
            ),
        ) == 1,
        start_reply(OutcomeText::Started) == Ok::<Seq<char>, Seq<char>>("Gateway starting..."@),
{
    let dir = state_dir_of(home, platform);
    let r0: Seq<Result<Seq<char>, Seq<char>>> = seq![
        Err(refusal),
        Ok(home),
        Ok(done),
        Ok(done),
        Ok(done),
        Ok(done),
    ];
    let r1 = r0.drop_first();
    let r2 = r1.drop_first();
    let r3 = r2.drop_first();
    let r4 = r3.drop_first();
    let r5 = r4.drop_first();
    let r6 = r5.drop_first();
    let s0 = begun(identity, platform).0;
    let s1 = step(s0, r0.first()).0;
    let s2 = step(s1, r1.first()).0;
    let s3 = step(s2, r2.first()).0;
    let s4 = step(s3, r3.first()).0;
    let s5 = step(s4, r4.first()).0;
    let s6 = step(s5, r5.first()).0;
    assert(r6.len() == 0);
    assert(effects_of(s6, r6) =~= Seq::empty());
    assert(effects_of(s5, r5) =~= seq![EffectText::Finish { outcome: OutcomeText::Started }]);
    assert(effects_of(s4, r4) =~= seq![
        spawn_text(identity, platform, dir),
        EffectText::Finish { outcome: OutcomeText::Started },
    ]);
    assert(effects_of(s3, r3) =~= seq![
        EffectText::OpenErrorLog { path: error_log_path_in(dir, platform), mode: fresh_log() },
        spawn_text(identity, platform, dir),
        EffectText::Finish { outcome: OutcomeText::Started },
    ]);
    assert(effects_of(s2, r2) =~= seq![
        EffectText::OpenLog { path: log_path_in(dir, platform), mode: fresh_log() },
        EffectText::OpenErrorLog { path: error_log_path_in(dir, platform), mode: fresh_log() },
        spawn_text(identity, platform, dir),
        EffectText::Finish { outcome: OutcomeText::Started },
    ]);
    assert(effects_of(s1, r1) =~= seq![
        EffectText::EnsureDir { path: dir },
        EffectText::OpenLog { path: log_path_in(dir, platform), mode: fresh_log() },
        EffectText::OpenErrorLog { path: error_log_path_in(dir, platform), mode: fresh_log() },
        spawn_text(identity, platform, dir),
        EffectText::Finish { outcome: OutcomeText::Started },
    ]);
    assert(effects_of(s0, r0) =~= seq![
        EffectText::FindHome,
        EffectText::EnsureDir { path: dir },
        EffectText::OpenLog { path: log_path_in(dir, platform), mode: fresh_log() },
        EffectText::OpenErrorLog { path: error_log_path_in(dir, platform), mode: fresh_log() },
        spawn_text(identity, platform, dir),
        EffectText::Finish { outcome: OutcomeText::Started },
    ]);
    lemma_spawns_bounded(s0, r0);
    lemma_spawn_counts(effects_of(s0, r0), 4);
}

/// A spawn among `effects` is counted.
proof fn lemma_spawn_counts(effects: Seq<EffectText>, at: int)
    requires
        0 <= at < effects.len(),
        effects[at] is Spawn,
    ensures
        spawns(effects) >= 1,
    decreases effects.len(),
{
    if at > 0 {
        lemma_spawn_counts(effects.drop_first(), at - 1);
    }
}

/// From any stage on, a sequence names no more spawns than the stage leaves
/// ahead of it.
proof fn lemma_spawns_bounded(s: SequenceText, replies: Seq<Result<Seq<char>, Seq<char>>>)
    ensures
        spawns(effects_of(s, replies)) <= spawns_ahead(s.stage),
    decreases replies.len(),
{
    if replies.len() > 0 {
        let next = step(s, replies.first());
        lemma_spawns_bounded(next.0, replies.drop_first());
        let effects = effects_of(s, replies);
        assert(effects.first() == next.1);
        assert(effects.drop_first() =~= effects_of(next.0, replies.drop_first()));
    }
}

/// A start spawns at most one process, whatever the caller reports and however
/// long it goes on reporting.
pub proof fn law_never_spawns_twice(
    identity: DaemonIdentity,
    platform: Platform,
    replies: Seq<Result<Seq<char>, Seq<char>>>,
)
    ensures
        spawns(effects_of(begun(identity, platform).0, replies)) <= 1,
{
    lemma_spawns_bounded(begun(identity, platform).0, replies);
}

/// Each step is taken only from the step before it, and only on that step's
/// success: a spawn is named only on a freshly opened error log, the error log
/// is asked for only on a freshly opened output log, the output log only on an
/// ensured state directory, the state directory only on a home that was found,
/// and the home only on a probe that failed.
pub proof fn law_steps_follow_in_order(s: SequenceText, reply: Result<Seq<char>, Seq<char>>)
    ensures
        step(s, reply).1 is Spawn ==> s.stage is OpeningErrorLog && reply is Ok,
        step(s, reply).0.stage is OpeningErrorLog ==> s.stage is OpeningLog && reply is Ok,
        step(s, reply).0.stage is OpeningLog ==> s.stage is EnsuringDir && reply is Ok,
        step(s, reply).0.stage is EnsuringDir ==> s.stage is FindingHome && reply is Ok,
        step(s, reply).0.stage is FindingHome ==> s.stage is Probing && reply is Err,
{
}

/// Every answer moves a sequence one stage on, or ends it.
proof fn lemma_one_stage_per_answer(s: SequenceText, replies: Seq<Result<Seq<char>, Seq<char>>>)
    ensures
        state_after(s, replies).stage is Finished || answers_taken(state_after(s, replies).stage)
            == answers_taken(s.stage) + replies.len(),
        state_after(s, replies).identity == s.identity,
        state_after(s, replies).platform == s.platform,
    decreases replies.len(),
{
    if replies.len() > 0 {
        let next = step(s, replies.first()).0;
        lemma_one_stage_per_answer(next, replies.drop_first());
        if next.stage is Finished {
            lemma_finished_state_stays(next, replies.drop_first());
        }
    }
}

/// A sequence that has ended stands where it stood.
proof fn lemma_finished_state_stays(s: SequenceText, replies: Seq<Result<Seq<char>, Seq<char>>>)
    requires
        s.stage is Finished,
    ensures
        state_after(s, replies) == s,
    decreases replies.len(),
{
    if replies.len() > 0 {
        lemma_finished_state_stays(s, replies.drop_first());
    }
}

/// The effect named on the answer `at` is the one that the rule gives for the
/// place where the sequence stood after the answers before it.
proof fn lemma_effect_at(s: SequenceText, replies: Seq<Result<Seq<char>, Seq<char>>>, at: int)
    requires
        0 <= at < replies.len(),
    ensures
        effects_of(s, replies).len() == replies.len(),
        effects_of(s, replies)[at] == step(state_after(s, replies.take(at)), replies[at]).1,
    decreases replies.len(),
{
    let next = step(s, replies.first());
    let rest = replies.drop_first();
    lemma_effects_len(next.0, rest);
    if at == 0 {
        assert(replies.take(0) =~= Seq::empty());
    } else {
        lemma_effect_at(next.0, rest, at - 1);
        assert(replies.take(at).drop_first() =~= rest.take(at - 1));
        assert(replies.take(at).first() == replies.first());
    }
}

/// One effect is named for each answer.
proof fn lemma_effects_len(s: SequenceText, replies: Seq<Result<Seq<char>, Seq<char>>>)
    ensures
        effects_of(s, replies).len() == replies.len(),
    decreases replies.len(),
{
    if replies.len() > 0 {
        lemma_effects_len(step(s, replies.first()).0, replies.drop_first());
    }
}

/// Whatever the caller reports, a spawn is named only on the fifth answer, and
/// only in a run in which the probe failed, the home directory was found, the
/// state directory under it was ensured, and the output log and the error log
/// inside that directory were both opened afresh, in this order and with
/// success each time.
pub proof fn law_spawn_only_after_the_logs_are_open(
    identity: DaemonIdentity,
    platform: Platform,
    replies: Seq<Result<Seq<char>, Seq<char>>>,
    at: int,
)
    requires
        0 <= at < replies.len(),
        effects_of(begun(identity, platform).0, replies)[at] is Spawn,
    ensures
        at == 4,
        replies[0] is Err,
        replies[1] is Ok && replies[2] is Ok && replies[3] is Ok && replies[4] is Ok,
        ({
            let effects = effects_of(begun(identity, platform).0, replies);
            let dir = state_dir_of(replies[1]->Ok_0, platform);
            &&& effects[0] == EffectText::FindHome
            &&& effects[1] == (EffectText::EnsureDir { path: dir })
            &&& effects[2] == (EffectText::OpenLog {
                path: log_path_in(dir, platform),
                mode: fresh_log(),
            })
            &&& effects[3] == (EffectText::OpenErrorLog {
                path: error_log_path_in(dir, platform),
                mode: fresh_log(),
            })
            &&& effects[4] == spawn_text(identity, platform, dir)
        }),
{
    let s0 = begun(identity, platform).0;
    lemma_effect_at(s0, replies, at);
    lemma_one_stage_per_answer(s0, replies.take(at));
    assert(state_after(s0, replies.take(at)).stage is OpeningErrorLog);
    assert(at == 4);
    lemma_effect_at(s0, replies, 0);
    lemma_effect_at(s0, replies, 1);
    lemma_effect_at(s0, replies, 2);
    lemma_effect_at(s0, replies, 3);
    lemma_state_after_one_more(s0, replies, 0);
    lemma_state_after_one_more(s0, replies, 1);
    lemma_state_after_one_more(s0, replies, 2);
    lemma_state_after_one_more(s0, replies, 3);
    assert(replies.take(0) =~= Seq::empty());
}

/// Taking one more answer is one more step.
proof fn lemma_state_after_one_more(
    s: SequenceText,
    replies: Seq<Result<Seq<char>, Seq<char>>>,
    taken: int,
)
    requires
        0 <= taken < replies.len(),
    ensures
        state_after(s, replies.take(taken + 1)) == step(
            state_after(s, replies.take(taken)),
            replies[taken],
        ).0,
    decreases taken,
{
    let longer = replies.take(taken + 1);
    if taken == 0 {
        assert(replies.take(0) =~= Seq::empty());
        assert(longer.drop_first() =~= Seq::empty());
        assert(longer.first() == replies[0]);
        assert(state_after(step(s, replies[0]).0, longer.drop_first()) == step(s, replies[0]).0);
    } else {
        let next = step(s, replies.first()).0;
        let rest = replies.drop_first();
        lemma_state_after_one_more(next, rest, taken - 1);
        assert(longer.drop_first() =~= rest.take(taken));
        assert(replies.take(taken).drop_first() =~= rest.take(taken - 1));
        assert(longer.first() == replies.first());
        assert(replies.take(taken).first() == replies.first());
        assert(rest[taken - 1] == replies[taken]);
    }
}

/// The first step that fails ends the start with that step's message; nothing
/// is attempted after it.
pub proof fn law_first_failure_ends_the_start(s: SequenceText, detail: Seq<char>)
    requires
        !(s.stage is Probing),
        !(s.stage is Finished),
    ensures
        step(s, Err(detail)).1 is Finish,
        step(s, Err(detail)).1->outcome is Failed,
        step(s, Err(detail)).0.stage == (StageText::Finished {
            outcome: step(s, Err(detail)).1->outcome,
        }),
        start_reply(step(s, Err(detail)).1->outcome) is Err,
{
}

} // verus!
