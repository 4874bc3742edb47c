use vstd::prelude::*;
use vstd::string::*;

use crate::text::{opt_text, texts, trim, trimmed};

verus! {

/// How long a `coli asr` run may take before it is stopped, in seconds.
pub const COLI_TIMEOUT_SECS: u64 = 120;

/// The model used when the caller names none.
pub open spec fn default_model() -> Seq<char> {
    "sensevoice"@
}

/// The model and text-cleaning choice of one transcription.
pub struct TranscriptionSettings {
    pub model: String,
    pub polish: bool,
}

impl TranscriptionSettings {
    /// The caller's choices, with the defaults for those left open: the
    /// `sensevoice` model, and the cleaned text.
    pub fn resolve(model: Option<String>, polish: Option<bool>) -> (r: TranscriptionSettings)
        ensures
            r.model@ == (match model {
                Some(m) => m@,
                None => default_model(),
            }),
            r.polish == (match polish {
                Some(p) => p,
                None => true,
            }),
    {
        let model = match model {
            Some(m) => m,
            None => String::from_str("sensevoice"),
        };
        let polish = match polish {
            Some(p) => p,
            None => true,
        };
        TranscriptionSettings { model, polish }
    }

    /// The arguments of `coli` that transcribe `audio_path` with JSON output.
    pub fn coli_arguments(&self, audio_path: &str) -> (r: Vec<String>)
        ensures
            texts(r@) == seq!["asr"@, "-j"@, "--model"@, self.model@, audio_path@],
    {
        let mut args: Vec<String> = Vec::new();
        args.push(String::from_str("asr"));
        args.push(String::from_str("-j"));
        args.push(String::from_str("--model"));
        args.push(self.model.clone());
        args.push(String::from_str(audio_path));
        assert(texts(args@) =~= seq!["asr"@, "-j"@, "--model"@, self.model@, audio_path@]);
        args
    }
}

/// How a finished `coli asr` run ended.
pub struct ColiExit {
    /// Whether it exited with success.
    pub success: bool,
    /// Its exit status, as displayed.
    pub status: String,
    /// What it wrote to standard error.
    pub stderr: String,
    /// What it wrote to standard output.
    pub stdout: String,
}

/// What `coli` wrote to standard output, as read as JSON.
pub enum ColiReply {
    /// A transcription: the raw text, the cleaned text if any, and the language.
    Transcribed { text: String, text_clean: Option<String>, lang: Option<String> },
    /// An error that `coli` reported.
    Failed { error: String },
    /// Output of neither shape.
    Unrecognized,
}

/// The text of a transcription and its language.
#[derive(Debug, Clone)]
pub struct Transcript {
    pub text: String,
    pub lang: Option<String>,
}

/// Why a transcription failed.
#[derive(Debug, Clone)]
pub enum TranscribeError {
    /// The audio file does not exist; the path as displayed.
    AudioNotFound { path: String },
    /// The audio path is not valid Unicode.
    InvalidAudioPath,
    /// No `coli` executable answered.
    ColiNotFound,
    /// `coli` could not be started.
    LaunchFailed { executable: String, reason: String },
    /// Waiting for `coli` failed.
    WaitFailed { reason: String },
    /// `coli` ran longer than the timeout and was stopped.
    TimedOut,
    /// The output of `coli` could not be collected.
    CollectFailed { reason: String },
    /// `coli` exited with failure; its exit status and its trimmed standard error.
    ExitFailure { status: String, stderr: String },
    /// `coli` reported an error.
    Reported { message: String },
    /// The trimmed standard output of `coli`, which was not understood.
    Unparsed { stdout: String },
}

/// A failure, with the texts it carries.
pub enum Failure {
    AudioNotFound(Seq<char>),
    InvalidAudioPath,
    ColiNotFound,
    LaunchFailed(Seq<char>, Seq<char>),
    WaitFailed(Seq<char>),
    TimedOut,
    CollectFailed(Seq<char>),
    ExitFailure(Seq<char>, Seq<char>),
    Reported(Seq<char>),
    Unparsed(Seq<char>),
}

impl View for TranscribeError {
    type V = Failure;

    open spec fn view(&self) -> Failure {
        match self {
            TranscribeError::AudioNotFound { path } => Failure::AudioNotFound(path@),
            TranscribeError::InvalidAudioPath => Failure::InvalidAudioPath,
            TranscribeError::ColiNotFound => Failure::ColiNotFound,
            TranscribeError::LaunchFailed { executable, reason } => Failure::LaunchFailed(
                executable@,
                reason@,
            ),
            TranscribeError::WaitFailed { reason } => Failure::WaitFailed(reason@),
            TranscribeError::TimedOut => Failure::TimedOut,
            TranscribeError::CollectFailed { reason } => Failure::CollectFailed(reason@),
            TranscribeError::ExitFailure { status, stderr } => Failure::ExitFailure(
                status@,
                stderr@,
            ),
            TranscribeError::Reported { message } => Failure::Reported(message@),
            TranscribeError::Unparsed { stdout } => Failure::Unparsed(stdout@),
        }
    }
}

/// The message that reports a failure.
pub open spec fn failure_message(f: Failure) -> Seq<char> {
    match f {
        Failure::AudioNotFound(path) => "Audio file not found: "@ + path,
        Failure::InvalidAudioPath => "Invalid audio path"@,
        Failure::ColiNotFound =>
            "Failed to locate the coli executable. Bundle it into the app or install @marswave/coli."@,
        Failure::LaunchFailed(executable, reason) => "Failed to execute coli via "@ + executable
            + ": "@ + reason,
        Failure::WaitFailed(reason) => "Failed while waiting for coli: "@ + reason,
        Failure::TimedOut => "coli asr timed out after 120 seconds"@,
        Failure::CollectFailed(reason) => "Failed to collect coli output: "@ + reason,
        Failure::ExitFailure(status, stderr) => if stderr.len() == 0 {
            "coli asr failed with status "@ + status
        } else {
            "coli asr failed: "@ + stderr
        },
        Failure::Reported(message) => message,
        Failure::Unparsed(stdout) => "Failed to parse coli response: "@ + stdout,
    }
}

impl TranscribeError {
    /// The message that reports this failure.
    pub fn message(&self) -> (r: String)
        ensures
            r@ == failure_message(self@),
    {
        match self {
            TranscribeError::AudioNotFound { path } => String::from_str(
                "Audio file not found: ",
            ).concat(path.as_str()),
            TranscribeError::InvalidAudioPath => String::from_str("Invalid audio path"),
            TranscribeError::ColiNotFound => String::from_str(
                "Failed to locate the coli executable. Bundle it into the app or install @marswave/coli.",
            ),
            TranscribeError::LaunchFailed { executable, reason } => String::from_str(
                "Failed to execute coli via ",
            ).concat(executable.as_str()).concat(": ").concat(reason.as_str()),
            TranscribeError::WaitFailed { reason } => String::from_str(
                "Failed while waiting for coli: ",
            ).concat(reason.as_str()),
            TranscribeError::TimedOut => String::from_str("coli asr timed out after 120 seconds"),
            TranscribeError::CollectFailed { reason } => String::from_str(
                "Failed to collect coli output: ",
            ).concat(reason.as_str()),
            TranscribeError::ExitFailure { status, stderr } => {
                if stderr.as_str().is_empty() {
                    String::from_str("coli asr failed with status ").concat(status.as_str())
                } else {
                    String::from_str("coli asr failed: ").concat(stderr.as_str())
                }
            },
            TranscribeError::Reported { message } => message.clone(),
            TranscribeError::Unparsed { stdout } => String::from_str(
                "Failed to parse coli response: ",
            ).concat(stdout.as_str()),
        }
    }
}

/// The text handed back: the cleaned text when cleaning is asked for and
/// `coli` produced one, else the raw text.
pub open spec fn chosen_text(polish: bool, text: Seq<char>, text_clean: Option<Seq<char>>) -> Seq<
    char,
> {
    if polish {
        match text_clean {
            Some(clean) => clean,
            None => text,
        }
    } else {
        text
    }
}

/// The result of a transcription: the text and language, or the failure.
pub type Outcome = Result<(Seq<char>, Option<Seq<char>>), Failure>;

/// The texts of a transcription result.
pub open spec fn outcome_of(r: Result<Transcript, TranscribeError>) -> Outcome {
    match r {
        Ok(t) => Ok((t.text@, opt_text(t.lang))),
        Err(e) => Err(e@),
    }
}

/// What a finished run of `coli` means, with `reply` read from its output.
pub open spec fn run_outcome(exit: ColiExit, reply: ColiReply, polish: bool) -> Outcome {
    if !exit.success {
        Err(Failure::ExitFailure(exit.status@, trimmed(exit.stderr@)))
    } else {
        match reply {
            ColiReply::Transcribed { text, text_clean, lang } => Ok(
                (chosen_text(polish, text@, opt_text(text_clean)), opt_text(lang)),
            ),
            ColiReply::Failed { error } => Err(Failure::Reported(error@)),
            ColiReply::Unrecognized => Err(Failure::Unparsed(trimmed(exit.stdout@))),
        }
    }
}

/// Reads the result of a finished `coli asr` run: a failed exit is reported
/// with the trimmed standard error (or the exit status when that is blank); a
/// transcription yields its text, cleaned when asked for; an error that `coli`
/// reported is handed on; other output is reported, trimmed.
pub fn finish_transcription(exit: ColiExit, reply: ColiReply, polish: bool) -> (r: Result<
    Transcript,
    TranscribeError,
>)
    ensures
        outcome_of(r) == run_outcome(exit, reply, polish),
{
    if !exit.success {
        let stderr = String::from_str(trim(exit.stderr.as_str()));
        return Err(TranscribeError::ExitFailure { status: exit.status, stderr });
    }
    match reply {
        ColiReply::Transcribed { text, text_clean, lang } => {
            let chosen = if polish {
                match text_clean {
                    Some(clean) => clean,
                    None => text,
                }
            } else {
                text
            };
            Ok(Transcript { text: chosen, lang })
        },
        ColiReply::Failed { error } => Err(TranscribeError::Reported { message: error }),
        ColiReply::Unrecognized => {
            let stdout = String::from_str(trim(exit.stdout.as_str()));
            Err(TranscribeError::Unparsed { stdout })
        },
    }
}

/// How a finished run is read, stated by what reached the caller:
/// - a run that exited with failure is reported with its exit status and
///   trimmed standard error, whatever its output said and whatever cleaning
///   choice was made;
/// - a transcription is handed back with the language that `coli` reported,
///   whether cleaning is on or off; with cleaning off its text is the raw
///   text, with cleaning on it is the cleaned text when `coli` gave one and
///   the raw text otherwise;
/// - an error that `coli` reported is handed on unchanged, and output of
///   neither shape is reported trimmed, whatever the cleaning choice.
pub proof fn lemma_run_outcome_reads_reply(exit: ColiExit, reply: ColiReply, polish: bool)
    ensures
        !exit.success ==> run_outcome(exit, reply, polish) == Outcome::Err(
            Failure::ExitFailure(exit.status@, trimmed(exit.stderr@)),
        ),
        exit.success ==> (reply matches ColiReply::Transcribed { text, text_clean, lang } ==> {
            &&& run_outcome(exit, reply, false) == Outcome::Ok((text@, opt_text(lang)))
            &&& run_outcome(exit, reply, true) == Outcome::Ok(
                (
                    match text_clean {
                        Some(clean) => clean@,
                        None => text@,
                    },
                    opt_text(lang),
                ),
            )
        }),
        exit.success ==> (reply matches ColiReply::Failed { error } ==> run_outcome(
            exit,
            reply,
            polish,
        ) == Outcome::Err(Failure::Reported(error@))),
        exit.success ==> (reply is Unrecognized ==> run_outcome(exit, reply, polish)
            == Outcome::Err(Failure::Unparsed(trimmed(exit.stdout@)))),
{
}

/// Every failure is reported with a message that carries its details: the
/// missing audio path, the executable and reason of a failed start, the
/// reasons of failed waits and collections, the trimmed standard error of a
/// failed run (or its exit status when that is blank), the error `coli`
/// reported, unchanged, and the output that was not understood.
pub proof fn lemma_failure_messages(a: Seq<char>, b: Seq<char>)
    ensures
        failure_message(Failure::AudioNotFound(a)) == "Audio file not found: "@ + a,
        failure_message(Failure::InvalidAudioPath) == "Invalid audio path"@,
        failure_message(Failure::ColiNotFound)
            == "Failed to locate the coli executable. Bundle it into the app or install @marswave/coli."@,
        failure_message(Failure::LaunchFailed(a, b)) == "Failed to execute coli via "@ + a
            + ": "@ + b,
        failure_message(Failure::WaitFailed(a)) == "Failed while waiting for coli: "@ + a,
        failure_message(Failure::TimedOut) == "coli asr timed out after 120 seconds"@,
        failure_message(Failure::CollectFailed(a)) == "Failed to collect coli output: "@ + a,
        b.len() == 0 ==> failure_message(Failure::ExitFailure(a, b))
            == "coli asr failed with status "@ + a,
        b.len() > 0 ==> failure_message(Failure::ExitFailure(a, b)) == "coli asr failed: "@ + b,
        failure_message(Failure::Reported(a)) == a,
        failure_message(Failure::Unparsed(a)) == "Failed to parse coli response: "@ + a,
{
}

} // verus!
