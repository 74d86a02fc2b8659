use vstd::prelude::*;

use crate::cache::{
    fingerprint_of, hash_build_file, is_stale, lemma_fingerprint_content_only,
    lemma_fingerprint_trims_to_itself, record_text, sha256_of, should_rebuild,
};
use crate::compiler::Platform;
use crate::path::DirPath;
use crate::resolver::ResolveError;

verus! {

/// Where the project's final executable is expected, relative to the project root.
#[derive(Debug, Clone)]
pub struct OutputPath(pub String);

impl OutputPath {
    pub fn as_str(&self) -> (r: &str)
        ensures
            r@ == self.0@,
    {
        self.0.as_str()
    }
}

/// Why a `build` or `clean` stopped.
#[derive(Debug)]
pub enum BuildError {
    /// No project root was found.
    Resolve(ResolveError),
    /// The project root holds no build script.
    NoBuildScript,
    /// The project root is the filesystem root, which has no name to give the output.
    NoDirectoryName,
    /// The cache directory could not be created.
    CacheDirectory,
    /// The build script could not be read.
    UnreadableScript,
    /// The compiler could not be launched.
    CompilerLaunch,
    /// The compiler exited with failure; what it printed is kept.
    Compilation { stdout: Vec<u8>, stderr: Vec<u8> },
    /// The new fingerprint could not be written to the cache record.
    CacheUpdate,
    /// The builder could not be launched.
    BuilderLaunch,
    /// The builder exited with a status other than zero.
    BuilderFailed,
    /// The directory to clean is not a project root.
    NotAProject,
}

/// Where a build stands. Each phase but the last two names the outside work to do next;
/// its outcome is handed back as a `BuildEvent`.
#[derive(Debug)]
pub enum BuildPhase {
    /// Clean the project first; the outcome does not matter.
    Cleaning,
    /// Find the project root.
    Resolving,
    /// Look for the build script in `dir`.
    CheckingScript { dir: DirPath },
    /// Create the cache directory in `dir` if it is missing.
    PreparingCache { dir: DirPath },
    /// Read the build script's bytes.
    Fingerprinting { dir: DirPath },
    /// Read the cache record.
    CheckingCache { dir: DirPath, fingerprint: String },
    /// Run the compiler on the build script.
    Compiling { dir: DirPath, fingerprint: String },
    /// Write `fingerprint` to the cache record.
    UpdatingCache { dir: DirPath, fingerprint: String },
    /// Run the compiled builder.
    Executing { dir: DirPath },
    /// The build succeeded.
    Done { output: OutputPath },
    /// The build failed.
    Aborted { error: BuildError },
}

/// The outcome of the outside work that a phase asked for.
#[derive(Debug)]
pub enum BuildEvent {
    Cleaned,
    Resolved(Result<DirPath, ResolveError>),
    ScriptChecked(bool),
    CacheDirCreated(bool),
    /// The script's bytes, or `None` if it could not be read.
    ScriptRead(Option<Vec<u8>>),
    /// The cache record's text, or `None` if it could not be read.
    RecordRead(Option<String>),
    CompilerRan { launched: bool, success: bool, stdout: Vec<u8>, stderr: Vec<u8> },
    RecordWritten(bool),
    /// `code` is the exit code, `None` where the builder ended without one.
    BuilderRan { launched: bool, code: Option<i32> },
}

/// The directory separator of the platform.
pub open spec fn separator_text(platform: Platform) -> Seq<char> {
    match platform {
        Platform::Unix => "/"@,
        Platform::Windows => "\\"@,
    }
}

/// The output executable: in `build`, named after the project root.
pub open spec fn output_text(dir: Seq<Seq<char>>, platform: Platform) -> Seq<char> {
    "build"@ + separator_text(platform) + dir.last()
}

/// The path where the builder leaves the project's executable.
pub fn output_path(name: &str, platform: Platform) -> (r: OutputPath)
    ensures
        r.0@ == "build"@ + separator_text(platform) + name@,
{
    let mut s = String::from_str("build");
    match platform {
        Platform::Unix => s.append("/"),
        Platform::Windows => s.append("\\"),
    }
    s.append(name);
    OutputPath(s)
}

/// The first phase of a build.
pub fn start_build(clean_first: bool) -> (r: BuildPhase)
    ensures
        clean_first ==> r is Cleaning,
        !clean_first ==> r is Resolving,
{
    if clean_first {
        BuildPhase::Cleaning
    } else {
        BuildPhase::Resolving
    }
}

/// The phase that follows `phase` once its outside work ended with `event`. An event that
/// does not answer the phase leaves it unchanged.
pub fn advance(phase: BuildPhase, event: BuildEvent, platform: Platform) -> (r: BuildPhase)
    ensures
        match (phase, event) {
            (BuildPhase::Cleaning, BuildEvent::Cleaned) => r is Resolving,
            (BuildPhase::Resolving, BuildEvent::Resolved(Ok(d))) => r == BuildPhase::CheckingScript {
                dir: d,
            },
            (BuildPhase::Resolving, BuildEvent::Resolved(Err(e))) => (r matches BuildPhase::Aborted {
                error: BuildError::Resolve(x),
            } && x == e),
            (BuildPhase::CheckingScript { dir }, BuildEvent::ScriptChecked(present)) => if !present {
                r matches BuildPhase::Aborted { error: BuildError::NoBuildScript }
            } else if dir@.len() == 0 {
                r matches BuildPhase::Aborted { error: BuildError::NoDirectoryName }
            } else {
                r == BuildPhase::PreparingCache { dir }
            },
            (BuildPhase::PreparingCache { dir }, BuildEvent::CacheDirCreated(created)) => if created {
                r == BuildPhase::Fingerprinting { dir }
            } else {
                r matches BuildPhase::Aborted { error: BuildError::CacheDirectory }
            },
            (BuildPhase::Fingerprinting { dir }, BuildEvent::ScriptRead(content)) => match content {
                Some(bytes) => (r matches BuildPhase::CheckingCache { dir: d, fingerprint: f } && d == dir
                    && f@ == fingerprint_of(bytes@)),
                None => r matches BuildPhase::Aborted { error: BuildError::UnreadableScript },
            },
            (BuildPhase::CheckingCache { dir, fingerprint }, BuildEvent::RecordRead(record)) => if is_stale(
                record_text(record),
                fingerprint@,
            ) {
                r == BuildPhase::Compiling { dir, fingerprint }
            } else {
                r == BuildPhase::Executing { dir }
            },
            (
                BuildPhase::Compiling { dir, fingerprint },
                BuildEvent::CompilerRan { launched, success, stdout, stderr },
            ) => if !launched {
                r matches BuildPhase::Aborted { error: BuildError::CompilerLaunch }
            } else if !success {
                (r matches BuildPhase::Aborted { error: BuildError::Compilation { stdout: o, stderr: e } }
                    && o == stdout && e == stderr)
            } else {
                r == BuildPhase::UpdatingCache { dir, fingerprint }
            },
            (BuildPhase::UpdatingCache { dir, fingerprint }, BuildEvent::RecordWritten(written)) => if written {
                r == BuildPhase::Executing { dir }
            } else {
                r matches BuildPhase::Aborted { error: BuildError::CacheUpdate }
            },
            (BuildPhase::Executing { dir }, BuildEvent::BuilderRan { launched, code }) => if !launched {
                r matches BuildPhase::Aborted { error: BuildError::BuilderLaunch }
            } else if code != Some(0i32) {
                r matches BuildPhase::Aborted { error: BuildError::BuilderFailed }
            } else if dir@.len() == 0 {
                r matches BuildPhase::Aborted { error: BuildError::NoDirectoryName }
            } else {
                r matches BuildPhase::Done { output } && output.0@ == output_text(dir@, platform)
            },
            (p, _) => r == p,
        },
{
    match (phase, event) {
        (BuildPhase::Cleaning, BuildEvent::Cleaned) => BuildPhase::Resolving,
        (BuildPhase::Resolving, BuildEvent::Resolved(Ok(d))) => BuildPhase::CheckingScript { dir: d },
        (BuildPhase::Resolving, BuildEvent::Resolved(Err(e))) => BuildPhase::Aborted {
            error: BuildError::Resolve(e),
        },
        (BuildPhase::CheckingScript { dir }, BuildEvent::ScriptChecked(present)) => {
            if !present {
                BuildPhase::Aborted { error: BuildError::NoBuildScript }
            } else if dir.comps.len() == 0 {
                BuildPhase::Aborted { error: BuildError::NoDirectoryName }
            } else {
                BuildPhase::PreparingCache { dir }
            }
        },
        (BuildPhase::PreparingCache { dir }, BuildEvent::CacheDirCreated(created)) => {
            if created {
                BuildPhase::Fingerprinting { dir }
            } else {
                BuildPhase::Aborted { error: BuildError::CacheDirectory }
            }
        },
        (BuildPhase::Fingerprinting { dir }, BuildEvent::ScriptRead(content)) => match content {
            Some(bytes) => BuildPhase::CheckingCache { dir, fingerprint: hash_build_file(&bytes) },
            None => BuildPhase::Aborted { error: BuildError::UnreadableScript },
        },
        (BuildPhase::CheckingCache { dir, fingerprint }, BuildEvent::RecordRead(record)) => {
            if should_rebuild(&record, fingerprint.as_str()) {
                BuildPhase::Compiling { dir, fingerprint }
            } else {
                BuildPhase::Executing { dir }
            }
        },
        (
            BuildPhase::Compiling { dir, fingerprint },
            BuildEvent::CompilerRan { launched, success, stdout, stderr },
        ) => {
            if !launched {
                BuildPhase::Aborted { error: BuildError::CompilerLaunch }
            } else if !success {
                BuildPhase::Aborted { error: BuildError::Compilation { stdout, stderr } }
            } else {
                BuildPhase::UpdatingCache { dir, fingerprint }
            }
        },
        (BuildPhase::UpdatingCache { dir, fingerprint }, BuildEvent::RecordWritten(written)) => {
            if written {
                BuildPhase::Executing { dir }
            } else {
                BuildPhase::Aborted { error: BuildError::CacheUpdate }
            }
        },
        (BuildPhase::Executing { dir }, BuildEvent::BuilderRan { launched, code }) => {
            if !launched {
                BuildPhase::Aborted { error: BuildError::BuilderLaunch }
            } else if !matches!(code, Some(0i32)) {
                BuildPhase::Aborted { error: BuildError::BuilderFailed }
            } else {
                match dir.file_name() {
                    Some(name) => BuildPhase::Done { output: output_path(name.as_str(), platform) },
                    None => BuildPhase::Aborted { error: BuildError::NoDirectoryName },
                }
            }
        },
        (p, _) => p,
    }
}

/// The directories that `clean` removes from the project root, where they exist: the cache
/// directory and the build output. A directory without a build script is no project.
pub fn clean_targets(script_present: bool) -> (r: Result<Vec<String>, BuildError>)
    ensures
        script_present ==> (r matches Ok(v) && crate::path::texts(v@) == seq![".talon"@, "build"@]),
        !script_present ==> r matches Err(BuildError::NotAProject),
{
    if !script_present {
        return Err(BuildError::NotAProject);
    }
    let mut v: Vec<String> = Vec::new();
    v.push(String::from_str(".talon"));
    v.push(String::from_str("build"));
    assert(crate::path::texts(v@) =~= seq![".talon"@, "build"@]);
    Ok(v)
}

/// Building twice on an unchanged script compiles once: a missing record is stale, and
/// the record that the compiling build writes matches the same script's fingerprint.
pub proof fn lemma_unchanged_script_compiles_once(content: Seq<u8>)
    ensures
        is_stale(None, fingerprint_of(content)),
        !is_stale(Some(fingerprint_of(content)), fingerprint_of(content)),
{
    lemma_fingerprint_trims_to_itself(content);
}

/// A script whose content changed since the record was written must be compiled again,
/// unless the two contents' SHA-256 digests collide. This covers going back to an older
/// content after another one was compiled: only the last record counts.
pub proof fn lemma_changed_script_is_stale(recorded: Seq<u8>, current: Seq<u8>)
    requires
        sha256_of(recorded) != sha256_of(current),
    ensures
        is_stale(Some(fingerprint_of(recorded)), fingerprint_of(current)),
{
    lemma_fingerprint_trims_to_itself(recorded);
    lemma_fingerprint_content_only(recorded, current);
}

} // verus!
