use vstd::prelude::*;

use crate::text::texts;
use crate::transcription::{
    finish_transcription, outcome_of, run_outcome, ColiExit, ColiReply, Failure, Outcome,
    TranscribeError, Transcript, TranscriptionSettings, COLI_TIMEOUT_SECS,
};

verus! {

/// Where a transcription stands.
#[derive(Debug, Clone, Copy, PartialEq, Eq, Structural)]
pub enum Stage {
    CheckingAudio,
    LocatingColi,
    Launching,
    Waiting,
    StoppingColi,
    Collecting,
}

/// What the caller does next for a transcription, and reports back.
pub enum TranscriptionStep {
    /// Check that the audio file exists and has a Unicode path; report `AudioChecked`.
    CheckAudio,
    /// Look for the `coli` executable; report `ColiLocated`.
    LocateColi,
    /// Start `program` with `args`, with its output captured; report `Launched`.
    Launch { program: String, args: Vec<String> },
    /// Wait at most `timeout_secs` seconds for it to exit; report `Waited`.
    Wait { timeout_secs: u64 },
    /// Kill it and reap it; report `Stopped`.
    StopColi,
    /// Collect its exit status and output, and read the output as JSON; report `Collected`.
    Collect,
}

/// What the caller found out when it did a step.
pub enum TranscriptionEvent {
    /// Whether the audio file exists, its path as displayed, and its path if
    /// it is valid Unicode.
    AudioChecked { exists: bool, shown_path: String, unicode_path: Option<String> },
    /// The `coli` executable that answered, if any.
    ColiLocated { executable: Option<String> },
    /// Why `coli` could not be started, if it could not.
    Launched { failure: Option<String> },
    /// Whether `coli` exited within the time (`Ok(true)`) or not (`Ok(false)`),
    /// or why waiting failed.
    Waited { outcome: Result<bool, String> },
    /// `coli` was stopped.
    Stopped,
    /// How `coli` ended and what its output reads as, or why it could not be collected.
    Collected { outcome: Result<(ColiExit, ColiReply), String> },
}

/// A step, with its texts.
pub enum StepView {
    CheckAudio,
    LocateColi,
    Launch { program: Seq<char>, args: Seq<Seq<char>> },
    Wait { timeout_secs: u64 },
    StopColi,
    Collect,
}

impl View for TranscriptionStep {
    type V = StepView;

    open spec fn view(&self) -> StepView {
        match self {
            TranscriptionStep::CheckAudio => StepView::CheckAudio,
            TranscriptionStep::LocateColi => StepView::LocateColi,
            TranscriptionStep::Launch { program, args } => StepView::Launch {
                program: program@,
                args: texts(args@),
            },
            TranscriptionStep::Wait { timeout_secs } => StepView::Wait { timeout_secs: *timeout_secs },
            TranscriptionStep::StopColi => StepView::StopColi,
            TranscriptionStep::Collect => StepView::Collect,
        }
    }
}

/// The state of a transcription: the model and cleaning choice, the audio
/// path and executable once known, and the stage.
pub struct JobView {
    pub model: Seq<char>,
    pub polish: bool,
    pub audio_path: Seq<char>,
    pub executable: Seq<char>,
    pub stage: Stage,
}

/// A transcription in progress.
pub struct TranscriptionJob {
    settings: TranscriptionSettings,
    audio_path: String,
    executable: String,
    stage: Stage,
}

impl View for TranscriptionJob {
    type V = JobView;

    closed spec fn view(&self) -> JobView {
        JobView {
            model: self.settings.model@,
            polish: self.settings.polish,
            audio_path: self.audio_path@,
            executable: self.executable@,
            stage: self.stage,
        }
    }
}

/// The arguments of `coli` that transcribe `audio_path` with `model`, with JSON output.
pub open spec fn coli_args_of(model: Seq<char>, audio_path: Seq<char>) -> Seq<Seq<char>> {
    seq!["asr"@, "-j"@, "--model"@, model, audio_path]
}

/// The step that a stage asks for.
pub open spec fn step_of(job: JobView) -> StepView {
    match job.stage {
        Stage::CheckingAudio => StepView::CheckAudio,
        Stage::LocatingColi => StepView::LocateColi,
        Stage::Launching => StepView::Launch {
            program: job.executable,
            args: coli_args_of(job.model, job.audio_path),
        },
        Stage::Waiting => StepView::Wait { timeout_secs: 120 },
        Stage::StoppingColi => StepView::StopColi,
        Stage::Collecting => StepView::Collect,
    }
}

/// How a transcription goes on: the next state and step, or the result.
pub enum ProgressView {
    Next(JobView, StepView),
    Finished(Outcome),
}

/// The state at the next stage.
pub open spec fn at_stage(job: JobView, stage: Stage) -> JobView {
    JobView { stage, ..job }
}

/// Goes on to `job`, asking for its step.
pub open spec fn go_on(job: JobView) -> ProgressView {
    ProgressView::Next(job, step_of(job))
}

/// How a transcription in state `job` goes on once `event` is reported. An
/// event that does not answer the current step changes nothing, and the step
/// is asked for again.
pub open spec fn job_progress(job: JobView, event: TranscriptionEvent) -> ProgressView {
    match (job.stage, event) {
        (Stage::CheckingAudio, TranscriptionEvent::AudioChecked { exists, shown_path, unicode_path }) => {
            if !exists {
                ProgressView::Finished(Err(Failure::AudioNotFound(shown_path@)))
            } else {
                match unicode_path {
                    Some(p) => go_on(
                        JobView { audio_path: p@, stage: Stage::LocatingColi, ..job },
                    ),
                    None => ProgressView::Finished(Err(Failure::InvalidAudioPath)),
                }
            }
        },
        (Stage::LocatingColi, TranscriptionEvent::ColiLocated { executable }) => match executable {
            Some(e) => go_on(JobView { executable: e@, stage: Stage::Launching, ..job }),
            None => ProgressView::Finished(Err(Failure::ColiNotFound)),
        },
        (Stage::Launching, TranscriptionEvent::Launched { failure }) => match failure {
            Some(reason) => ProgressView::Finished(
                Err(Failure::LaunchFailed(job.executable, reason@)),
            ),
            None => go_on(at_stage(job, Stage::Waiting)),
        },
        (Stage::Waiting, TranscriptionEvent::Waited { outcome }) => match outcome {
            Ok(true) => go_on(at_stage(job, Stage::Collecting)),
            Ok(false) => go_on(at_stage(job, Stage::StoppingColi)),
            Err(reason) => ProgressView::Finished(Err(Failure::WaitFailed(reason@))),
        },
        (Stage::StoppingColi, TranscriptionEvent::Stopped) => ProgressView::Finished(
            Err(Failure::TimedOut),
        ),
        (Stage::Collecting, TranscriptionEvent::Collected { outcome }) => match outcome {
            Ok((exit, reply)) => ProgressView::Finished(run_outcome(exit, reply, job.polish)),
            Err(reason) => ProgressView::Finished(Err(Failure::CollectFailed(reason@))),
        },
        _ => go_on(job),
    }
}

/// How a transcription goes on: the job and the next step, or its result.
pub enum Progress {
    Next(TranscriptionJob, TranscriptionStep),
    Finished(Result<Transcript, TranscribeError>),
}

/// The texts of a `Progress`.
pub open spec fn progress_of(p: Progress) -> ProgressView {
    match p {
        Progress::Next(job, step) => ProgressView::Next(job@, step@),
        Progress::Finished(r) => ProgressView::Finished(outcome_of(r)),
    }
}

impl TranscriptionJob {
    /// Starts a transcription with the caller's choices (defaults: the
    /// `sensevoice` model, cleaned text); the first step checks the audio file.
    pub fn new(model: Option<String>, polish: Option<bool>) -> (r: (TranscriptionJob, TranscriptionStep))
        ensures
            r.0@.model == (match model {
                Some(m) => m@,
                None => "sensevoice"@,
            }),
            r.0@.polish == (match polish {
                Some(p) => p,
                None => true,
            }),
            r.0@.stage == Stage::CheckingAudio,
            r.1@ == step_of(r.0@),
    {
        let settings = TranscriptionSettings::resolve(model, polish);
        let job = TranscriptionJob {
            settings,
            audio_path: String::new(),
            executable: String::new(),
            stage: Stage::CheckingAudio,
        };
        (job, TranscriptionStep::CheckAudio)
    }

    /// The step that the current stage asks for.
    fn current_step(&self) -> (r: TranscriptionStep)
        ensures
            r@ == step_of(self@),
    {
        match self.stage {
            Stage::CheckingAudio => TranscriptionStep::CheckAudio,
            Stage::LocatingColi => TranscriptionStep::LocateColi,
            Stage::Launching => {
                let args = self.settings.coli_arguments(self.audio_path.as_str());
                TranscriptionStep::Launch { program: self.executable.clone(), args }
            },
            Stage::Waiting => TranscriptionStep::Wait { timeout_secs: COLI_TIMEOUT_SECS },
            Stage::StoppingColi => TranscriptionStep::StopColi,
            Stage::Collecting => TranscriptionStep::Collect,
        }
    }

    /// Goes on from the current stage.
    fn proceed(self) -> (r: Progress)
        ensures
            progress_of(r) == go_on(self@),
    {
        let step = self.current_step();
        Progress::Next(self, step)
    }

    /// Takes in what the caller found out, and says what comes next.
    pub fn advance(self, event: TranscriptionEvent) -> (r: Progress)
        ensures
            progress_of(r) == job_progress(self@, event),
    {
        let ghost job = self@;
        let ghost ev = event;
        match (self.stage, event) {
            (
                Stage::CheckingAudio,
                TranscriptionEvent::AudioChecked { exists, shown_path, unicode_path },
            ) => {
                if !exists {
                    Progress::Finished(Err(TranscribeError::AudioNotFound { path: shown_path }))
                } else {
                    match unicode_path {
                        Some(p) => {
                            let next = TranscriptionJob {
                                audio_path: p,
                                stage: Stage::LocatingColi,
                                ..self
                            };
                            next.proceed()
                        },
                        None => Progress::Finished(Err(TranscribeError::InvalidAudioPath)),
                    }
                }
            },
            (Stage::LocatingColi, TranscriptionEvent::ColiLocated { executable }) => {
                match executable {
                    Some(e) => {
                        let next = TranscriptionJob { executable: e, stage: Stage::Launching, ..self };
                        next.proceed()
                    },
                    None => Progress::Finished(Err(TranscribeError::ColiNotFound)),
                }
            },
            (Stage::Launching, TranscriptionEvent::Launched { failure }) => {
                match failure {
                    Some(reason) => Progress::Finished(
                        Err(TranscribeError::LaunchFailed { executable: self.executable, reason }),
                    ),
                    None => {
                        let next = TranscriptionJob { stage: Stage::Waiting, ..self };
                        next.proceed()
                    },
                }
            },
            (Stage::Waiting, TranscriptionEvent::Waited { outcome }) => {
                match outcome {
                    Ok(true) => {
                        let next = TranscriptionJob { stage: Stage::Collecting, ..self };
                        next.proceed()
                    },
                    Ok(false) => {
                        let next = TranscriptionJob { stage: Stage::StoppingColi, ..self };
                        next.proceed()
                    },
                    Err(reason) => Progress::Finished(Err(TranscribeError::WaitFailed { reason })),
                }
            },
            (Stage::StoppingColi, TranscriptionEvent::Stopped) => Progress::Finished(
                Err(TranscribeError::TimedOut),
            ),
            (Stage::Collecting, TranscriptionEvent::Collected { outcome }) => {
                match outcome {
                    Ok((exit, reply)) => Progress::Finished(
                        finish_transcription(exit, reply, self.settings.polish),
                    ),
                    Err(reason) => Progress::Finished(
                        Err(TranscribeError::CollectFailed { reason }),
                    ),
                }
            },
            _ => self.proceed(),
        }
    }
}

/// The order in which the stages come.
pub open spec fn stage_rank(stage: Stage) -> int {
    match stage {
        Stage::CheckingAudio => 0,
        Stage::LocatingColi => 1,
        Stage::Launching => 2,
        Stage::Waiting => 3,
        Stage::StoppingColi => 4,
        Stage::Collecting => 4,
    }
}

/// A transcription only moves forward: each event either leaves it as it is
/// or takes it to a later stage, and the model and cleaning choice never
/// change. So every transcription ends after at most five answered steps.
pub proof fn lemma_job_moves_forward(job: JobView, event: TranscriptionEvent)
    ensures
        job_progress(job, event) matches ProgressView::Next(next, step) ==> {
            &&& step == step_of(next)
            &&& next.model == job.model
            &&& next.polish == job.polish
            &&& (next == job || stage_rank(next.stage) > stage_rank(job.stage))
        },
{
}

/// A transcription is handed back only from output that `coli` produced in a
/// run that exited with success, and then it is what that output says.
pub proof fn lemma_success_only_from_collected_output(job: JobView, event: TranscriptionEvent)
    ensures
        job_progress(job, event) matches ProgressView::Finished(Ok(t)) ==> {
            &&& job.stage == Stage::Collecting
            &&& event matches TranscriptionEvent::Collected { outcome: Ok((exit, reply)) }
            &&& exit.success
            &&& run_outcome(exit, reply, job.polish) == Outcome::Ok(t)
        },
{
}

/// A run that does not exit in time is stopped before the time-out is
/// reported, and the time-out is reported only after the run was stopped.
pub proof fn lemma_timeout_stops_coli_first(job: JobView, event: TranscriptionEvent)
    ensures
        (job.stage == Stage::Waiting && event matches TranscriptionEvent::Waited {
            outcome: Ok(false),
        }) ==> job_progress(job, event) == go_on(at_stage(job, Stage::StoppingColi))
            && step_of(at_stage(job, Stage::StoppingColi)) == StepView::StopColi,
        job_progress(job, event) == ProgressView::Finished(Err(Failure::TimedOut)) <==> (
        job.stage == Stage::StoppingColi && event is Stopped),
{
}

/// Once the audio file has been found and `coli` located, `coli` is started
/// on exactly that file, with the job's model and JSON output.
pub proof fn lemma_launch_uses_checked_audio_and_located_coli(
    job: JobView,
    shown_path: String,
    audio_path: String,
    executable: String,
)
    requires
        job.stage == Stage::CheckingAudio,
    ensures
        job_progress(job, TranscriptionEvent::AudioChecked {
            exists: true,
            shown_path,
            unicode_path: Some(audio_path),
        }) matches ProgressView::Next(located, StepView::LocateColi) && job_progress(
            located,
            TranscriptionEvent::ColiLocated { executable: Some(executable) },
        ) matches ProgressView::Next(launching, step) && step == (StepView::Launch {
            program: executable@,
            args: coli_args_of(job.model, audio_path@),
        }),
{
}

/// Each step that fails ends the transcription with its own failure, and
/// nothing else is done after it:
/// - a missing audio file is reported by the path shown, before anything else;
///   an existing file whose path is not Unicode is reported as such;
/// - no answering `coli` is reported as not found;
/// - a failed start names the located executable and the reason;
/// - failures to wait or to collect carry their reasons;
/// and a report that does not answer the current step changes nothing.
pub proof fn lemma_each_failed_step_ends_with_its_failure(job: JobView, event: TranscriptionEvent)
    ensures
        job.stage == Stage::CheckingAudio ==> (event matches TranscriptionEvent::AudioChecked {
            exists,
            shown_path,
            unicode_path,
        } ==> (!exists ==> job_progress(job, event) == ProgressView::Finished(
            Outcome::Err(Failure::AudioNotFound(shown_path@)),
        )) && (exists && unicode_path is None ==> job_progress(job, event)
            == ProgressView::Finished(Outcome::Err(Failure::InvalidAudioPath)))),
        job.stage == Stage::LocatingColi ==> (event matches TranscriptionEvent::ColiLocated {
            executable: None,
        } ==> job_progress(job, event) == ProgressView::Finished(
            Outcome::Err(Failure::ColiNotFound),
        )),
        job.stage == Stage::Launching ==> (event matches TranscriptionEvent::Launched {
            failure: Some(reason),
        } ==> job_progress(job, event) == ProgressView::Finished(
            Outcome::Err(Failure::LaunchFailed(job.executable, reason@)),
        )),
        job.stage == Stage::Waiting ==> (event matches TranscriptionEvent::Waited {
            outcome: Err(reason),
        } ==> job_progress(job, event) == ProgressView::Finished(
            Outcome::Err(Failure::WaitFailed(reason@)),
        )),
        job.stage == Stage::Collecting ==> (event matches TranscriptionEvent::Collected {
            outcome: Err(reason),
        } ==> job_progress(job, event) == ProgressView::Finished(
            Outcome::Err(Failure::CollectFailed(reason@)),
        )),
        job.stage == Stage::Waiting ==> (event matches TranscriptionEvent::Waited {
            outcome: Ok(true),
        } ==> job_progress(job, event) == ProgressView::Next(
            JobView { stage: Stage::Collecting, ..job },
            StepView::Collect,
        )),
        (job.stage == Stage::CheckingAudio && !(event is AudioChecked)) ==> job_progress(
            job,
            event,
        ) == ProgressView::Next(job, StepView::CheckAudio),
        (job.stage == Stage::Collecting && !(event is Collected)) ==> job_progress(job, event)
            == ProgressView::Next(job, StepView::Collect),
{
}

} // verus!
