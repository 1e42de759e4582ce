use vstd::prelude::*;
use vstd::string::*;

use crate::params::{is_word_char, is_word_ident};
use crate::text::str_eq;

verus! {

/// Why a compilation failed.
#[derive(Debug, Clone, PartialEq, Eq)]
pub enum CompileError {
    /// The requested Dockerfile is not in the source tree; carries its path.
    MissingDockerfile(String),
    /// The engine reported a build failure; carries the build transcript.
    BuildError(String),
    /// The source tree could not be fetched or checked out.
    GitError(String),
    /// The container engine refused or failed a request.
    EngineError(String),
    /// A file could not be read or written.
    IoError(String),
}

/// The message a compilation failure is reported with.
pub open spec fn spec_compile_error_message(e: CompileError) -> Seq<char> {
    match e {
        CompileError::MissingDockerfile(p) => "Couldn't find dockerfile: "@ + p@,
        CompileError::BuildError(t) => t@,
        CompileError::GitError(m) => m@,
        CompileError::EngineError(m) => m@,
        CompileError::IoError(m) => m@,
    }
}

/// Renders the message a compilation failure is reported with.
pub fn compile_error_message(e: &CompileError) -> (r: String)
    ensures
        r@ == spec_compile_error_message(*e),
{
    match e {
        CompileError::MissingDockerfile(p) => {
            let mut s = String::from_str("Couldn't find dockerfile: ");
            s.append(p.as_str());
            s
        },
        CompileError::BuildError(t) => t.clone(),
        CompileError::GitError(m) => m.clone(),
        CompileError::EngineError(m) => m.clone(),
        CompileError::IoError(m) => m.clone(),
    }
}

/// The envelope a compilation request is answered with. `buildlog` carries the
/// full transcript exactly when the build itself failed.
#[derive(Debug, Clone, PartialEq, Eq)]
pub struct EnsureCompilationResponse {
    pub status: String,
    pub message: String,
    pub buildlog: Option<String>,
}

/// Builds the envelope for a finished compilation request.
pub fn compile_response(outcome: &Result<(), CompileError>) -> (r: EnsureCompilationResponse)
    ensures
        outcome is Ok ==> r.status@ == "OK"@ && r.message@ == ""@ && (r.buildlog is None),
        outcome matches Err(e) ==> r.status@ == "KO"@ && r.message@ == spec_compile_error_message(
            *e,
        ),
        outcome matches Err(CompileError::BuildError(t)) ==> (r.buildlog matches Some(b) && b@
            == t@),
        !(outcome matches Err(CompileError::BuildError(t))) ==> (r.buildlog is None),
{
    proof {
        reveal_strlit("");
        assert(""@ =~= Seq::<char>::empty());
    }
    match outcome {
        Ok(_) => EnsureCompilationResponse {
            status: String::from_str("OK"),
            message: String::new(),
            buildlog: None,
        },
        Err(e) => {
            let buildlog = match e {
                CompileError::BuildError(t) => Some(t.clone()),
                _ => None,
            };
            EnsureCompilationResponse {
                status: String::from_str("KO"),
                message: compile_error_message(e),
                buildlog,
            }
        },
    }
}

/// The full image reference `<prefix><demo_id>:<tag>`.
pub fn image_name(prefix: &str, demo_id: &str, tag: &str) -> (r: String)
    ensures
        r@ == prefix@ + demo_id@ + ":"@ + tag@,
{
    let mut s = String::from_str(prefix);
    s.append(demo_id);
    s.append(":");
    s.append(tag);
    s
}

/// The image repository `<prefix><demo_id>` all of a demo's tags live under.
pub fn image_repository(prefix: &str, demo_id: &str) -> (r: String)
    ensures
        r@ == prefix@ + demo_id@,
{
    let mut s = String::from_str(prefix);
    s.append(demo_id);
    s
}

/// The container name `<exec_prefix><demo_id>-<key>`, unique per request as
/// long as concurrent requests carry distinct keys.
pub fn container_name(exec_prefix: &str, demo_id: &str, key: &str) -> (r: String)
    ensures
        r@ == exec_prefix@ + demo_id@ + "-"@ + key@,
{
    let mut s = String::from_str(exec_prefix);
    s.append(demo_id);
    s.append("-");
    s.append(key);
    s
}

/// Container names are unique per request: two well-formed `(demo_id, key)`
/// pairs produce the same `<exec_prefix><demo_id>-<key>` name only when they
/// are the same pair, since the separator is no word character.
pub proof fn lemma_container_name_unique(
    prefix: Seq<char>,
    d1: Seq<char>,
    k1: Seq<char>,
    d2: Seq<char>,
    k2: Seq<char>,
)
    requires
        is_word_ident(d1),
        is_word_ident(k1),
        is_word_ident(d2),
        is_word_ident(k2),
        prefix + d1 + "-"@ + k1 == prefix + d2 + "-"@ + k2,
    ensures
        d1 == d2,
        k1 == k2,
{
    reveal_strlit("-");
    let s = prefix + d1 + "-"@ + k1;
    assert(s.len() == prefix.len() + d1.len() + 1 + k1.len());
    assert(s.len() == prefix.len() + d2.len() + 1 + k2.len());
    assert(s[prefix.len() + d1.len() as int] == '-');
    assert(s[prefix.len() + d2.len() as int] == '-');
    assert(!is_word_char('-'));
    if d1.len() < d2.len() {
        let i = prefix.len() + d1.len();
        assert(s[i as int] == d2[d1.len() as int]);
        assert(is_word_char(d2[d1.len() as int]));
        assert(false);
    }
    if d2.len() < d1.len() {
        let i = prefix.len() + d2.len();
        assert(s[i as int] == d1[d2.len() as int]);
        assert(is_word_char(d1[d2.len() as int]));
        assert(false);
    }
    assert forall|j: int| 0 <= j < d1.len() implies d1[j] == d2[j] by {
        assert(s[prefix.len() + j] == d1[j]);
        assert(s[prefix.len() + j] == d2[j]);
    }
    assert(d1 =~= d2);
    assert forall|j: int| 0 <= j < k1.len() implies k1[j] == k2[j] by {
        assert(s[prefix.len() + d1.len() + 1 + j] == k1[j]);
        assert(s[prefix.len() + d2.len() + 1 + j] == k2[j]);
    }
    assert(k1 =~= k2);
}

/// What stands on disk where a demo's source tree belongs.
#[derive(Debug, Clone, PartialEq, Eq)]
pub enum TreeState {
    /// Nothing is there.
    Absent,
    /// A directory is there, but it is not a repository.
    NotARepo,
    /// A repository is there; the string is its `origin` URL.
    Repo(String),
}

/// How the reconciler treats what it finds on disk.
#[derive(Debug, Clone, Copy, PartialEq, Eq, Structural)]
pub enum RepoAction {
    /// Keep the repository and fetch into it.
    Open,
    /// Erase what is there, then clone from the requested URL.
    EraseThenClone,
    /// Clone from the requested URL into the empty spot.
    CloneFresh,
}

/// The reconciler's decision: keep a repository whose origin already matches
/// the requested URL; erase and reclone one whose origin differs, or a
/// directory that is no repository; clone into an empty spot.
pub open spec fn spec_repo_action(t: TreeState, url: Seq<char>) -> RepoAction {
    match t {
        TreeState::Absent => RepoAction::CloneFresh,
        TreeState::NotARepo => RepoAction::EraseThenClone,
        TreeState::Repo(origin) => if origin@ == url {
            RepoAction::Open
        } else {
            RepoAction::EraseThenClone
        },
    }
}

/// Decides how to reconcile the on-disk source tree with the requested URL.
pub fn repo_action(t: &TreeState, url: &str) -> (r: RepoAction)
    ensures
        r == spec_repo_action(*t, url@),
{
    match t {
        TreeState::Absent => RepoAction::CloneFresh,
        TreeState::NotARepo => RepoAction::EraseThenClone,
        TreeState::Repo(origin) => {
            if str_eq(origin.as_str(), url) {
                RepoAction::Open
            } else {
                RepoAction::EraseThenClone
            }
        },
    }
}

/// The origin URL of the tree once the decided action has run: a clone sets
/// it to the requested URL, and a kept repository already had it.
pub open spec fn spec_origin_after(t: TreeState, url: Seq<char>) -> Seq<char> {
    match t {
        TreeState::Repo(origin) => if spec_repo_action(t, url) is Open {
            origin@
        } else {
            url
        },
        _ => url,
    }
}

/// Reconciliation always ends with the tree's origin at the requested URL:
/// in particular, asking for a new URL replaces the on-disk repository and
/// the tree then reports the new origin.
pub proof fn lemma_url_switch(url_a: String, url_b: String)
    ensures
        url_a@ != url_b@ ==> spec_repo_action(TreeState::Repo(url_a), url_b@)
            is EraseThenClone,
        spec_origin_after(TreeState::Repo(url_a), url_b@) == url_b@,
{
}

/// The tags on a demo's image repository after a successful compilation: the
/// superseded tags are collected, and the freshly built image stands under
/// both the revision's tag and `latest`.
pub open spec fn spec_tags_after_compile(sha_tag: Seq<char>, latest_tag: Seq<char>) -> Seq<
    Seq<char>,
> {
    seq![sha_tag, latest_tag]
}

/// Whether a compilation has to build: only when no existing tag is already
/// the requested revision's tag.
pub open spec fn spec_needs_build(tags: Seq<Seq<char>>, sha_tag: Seq<char>) -> bool {
    !tags.contains(sha_tag)
}

/// What a compilation request does once the source tree is ready.
#[derive(Debug, Clone, Copy, PartialEq, Eq, Structural)]
pub enum CompileDecision {
    /// The requested Dockerfile is not in the tree: fail without building.
    RejectMissingDockerfile,
    /// The revision's image already exists: note it and do nothing.
    AlreadyBuilt,
    /// Package the tree and build the image.
    Build,
}

/// Decides a compilation request from the Dockerfile check and the tags the
/// engine lists for the demo's repository.
pub open spec fn spec_compile_decision(
    dockerfile_exists: bool,
    tags: Seq<Seq<char>>,
    sha_tag: Seq<char>,
) -> CompileDecision {
    if !dockerfile_exists {
        CompileDecision::RejectMissingDockerfile
    } else if spec_needs_build(tags, sha_tag) {
        CompileDecision::Build
    } else {
        CompileDecision::AlreadyBuilt
    }
}

/// Decides a compilation request: reject when the Dockerfile is missing, skip
/// the build when the revision's tag already exists, build otherwise.
pub fn compile_decision(dockerfile_exists: bool, existing_tags: &Vec<String>, sha_tag: &str) -> (r:
    CompileDecision)
    ensures
        r == spec_compile_decision(
            dockerfile_exists,
            existing_tags@.map_values(|t: String| t@),
            sha_tag@,
        ),
{
    let ghost tags = existing_tags@.map_values(|t: String| t@);
    if !dockerfile_exists {
        return CompileDecision::RejectMissingDockerfile;
    }
    let n = existing_tags.len();
    let mut i: usize = 0;
    while i < n
        invariant
            dockerfile_exists,
            n == existing_tags@.len(),
            i <= n,
            tags == existing_tags@.map_values(|t: String| t@),
            forall|j: int| 0 <= j < i ==> tags[j] != sha_tag@,
        decreases n - i,
    {
        if str_eq(existing_tags[i].as_str(), sha_tag) {
            proof {
                assert(tags[i as int] == sha_tag@);
                assert(tags.contains(sha_tag@));
            }
            return CompileDecision::AlreadyBuilt;
        }
        i += 1;
    }
    proof {
        assert forall|j: int| 0 <= j < tags.len() implies tags[j] != sha_tag@ by {}
        assert(!tags.contains(sha_tag@));
    }
    CompileDecision::Build
}

/// Compilation is idempotent: after a successful compilation of a revision,
/// a second request for the same revision finds the revision's tag among the
/// listed tags and decides not to build.
pub proof fn lemma_compilation_idempotent(sha_tag: Seq<char>, latest_tag: Seq<char>)
    ensures
        !spec_needs_build(spec_tags_after_compile(sha_tag, latest_tag), sha_tag),
        spec_compile_decision(true, spec_tags_after_compile(sha_tag, latest_tag), sha_tag)
            is AlreadyBuilt,
{
    assert(spec_tags_after_compile(sha_tag, latest_tag)[0] == sha_tag);
    assert(spec_tags_after_compile(sha_tag, latest_tag).contains(sha_tag));
}

/// Where a compilation session stands.
#[derive(Debug, Clone, Copy, PartialEq, Eq, Structural)]
pub enum CompilePhase {
    /// The source tree is being reconciled and the revision resolved.
    Preparing,
    /// The revision is resolved; the Dockerfile check is next.
    CheckingDockerfile,
    /// The Dockerfile is there; the engine's tag listing is next.
    ListingImages,
    /// The image is being built; build events are being drained.
    Building,
    /// The build succeeded; superseded tags are collected and the new image
    /// is re-aliased as `latest`.
    Collecting,
    /// The outcome is decided; nothing changes any more.
    Finished,
}

/// What can happen to a compilation request, as seen by its session.
#[derive(Debug, Clone, PartialEq, Eq)]
pub enum CompileEvent {
    /// The tree is reconciled; carries the resolved revision.
    PrepareOk(String),
    PrepareFailed(String),
    DockerfileFound,
    /// Carries the requested Dockerfile path.
    DockerfileMissing(String),
    /// Carries the tags the engine lists under the demo's repository.
    ImagesListed(Vec<String>),
    ListFailed(String),
    BuildMsg(BuildEvent),
    BuildStreamEnded,
    /// Superseded images are removed and the new tag is aliased as `latest`.
    CleanupAndTagDone,
    TagFailed(String),
}

/// One compilation request's lifecycle. The driver feeds it every event and
/// performs the build, the tag collection and the re-aliasing it calls for.
#[derive(Debug, Clone, PartialEq, Eq)]
pub struct CompileSession {
    pub phase: CompilePhase,
    /// The repository `<prefix><demo_id>` this compilation works on.
    pub repository: String,
    /// The tag the resolved revision's image gets, once the revision is known.
    pub wanted_tag: Option<String>,
    /// The build transcript, in arrival order.
    pub transcript: String,
    /// Whether the engine reported a build error.
    pub build_failed: bool,
    /// Whether a build was started at all.
    pub build_started: bool,
    /// The tags listed before the build: what the collection removes.
    pub listed_tags: Vec<String>,
    /// Whether the session has called for the superseded tags' removal.
    pub gc_requested: bool,
    /// The decided outcome, once there is one.
    pub outcome: Option<Result<(), CompileError>>,
}

/// What always holds of a session between steps; in particular, the
/// collection of superseded tags is requested only once a build has run and
/// failed nowhere.
pub open spec fn compile_session_inv(s: CompileSession) -> bool {
    &&& (s.gc_requested ==> s.build_started && !s.build_failed)
    &&& (s.gc_requested ==> s.phase is Collecting || s.phase is Finished)
    &&& (s.build_failed ==> s.build_started)
    &&& (s.outcome is Some <==> s.phase is Finished)
    &&& ((s.phase is CheckingDockerfile || s.phase is ListingImages || s.phase is Building
        || s.phase is Collecting) ==> (s.wanted_tag is Some))
    &&& (s.phase is Collecting ==> s.gc_requested)
    &&& (s.build_started ==> (s.phase is Building || s.phase is Collecting
        || s.phase is Finished))
    &&& ((s.phase is Building || s.phase is Collecting) ==> s.build_started)
}

/// A fresh session for one demo's compilation.
pub fn new_compile_session(prefix: &str, demo_id: &str) -> (r: CompileSession)
    ensures
        r.phase is Preparing,
        r.repository@ == prefix@ + demo_id@,
        (r.wanted_tag is None),
        r.transcript@ == Seq::<char>::empty(),
        !r.build_failed,
        !r.build_started,
        r.listed_tags@ == Seq::<String>::empty(),
        !r.gc_requested,
        (r.outcome is None),
        compile_session_inv(r),
{
    CompileSession {
        phase: CompilePhase::Preparing,
        repository: image_repository(prefix, demo_id),
        wanted_tag: None,
        transcript: String::new(),
        build_failed: false,
        build_started: false,
        listed_tags: Vec::new(),
        gc_requested: false,
        outcome: None,
    }
}

/// Whether the listed tags already carry the wanted one.
pub open spec fn spec_tag_hit(tags: Seq<String>, wanted: Option<String>) -> bool {
    match wanted {
        Some(w) => !spec_needs_build(tags.map_values(|t: String| t@), w@),
        None => false,
    }
}

/// The events a phase reacts to; every other event leaves the session as it is.
pub open spec fn spec_compile_event_applies(s: CompileSession, e: CompileEvent) -> bool {
    match s.phase {
        CompilePhase::Preparing => e is PrepareOk || e is PrepareFailed,
        CompilePhase::CheckingDockerfile => e is DockerfileFound || e is DockerfileMissing,
        CompilePhase::ListingImages => (e is ImagesListed && s.wanted_tag is Some)
            || e is ListFailed,
        CompilePhase::Building => e is BuildMsg || e is BuildStreamEnded,
        CompilePhase::Collecting => e is CleanupAndTagDone || e is TagFailed,
        CompilePhase::Finished => false,
    }
}

/// Advances a compilation session by one event.
///
/// A listing that already carries the revision's tag ends the session with a
/// success and no build — compilation is idempotent. The collection of
/// superseded tags is requested only on the success path of a build, never
/// before the build stream has ended cleanly.
#[verifier::rlimit(60)]
pub fn compile_step(s: CompileSession, e: CompileEvent) -> (r: CompileSession)
    ensures
        compile_session_inv(s) ==> compile_session_inv(r),
        !spec_compile_event_applies(s, e) ==> r == s,
        r.repository == s.repository,
        s.phase is Preparing ==> (e matches CompileEvent::PrepareOk(sha) ==> (
        r.phase is CheckingDockerfile) && (r.wanted_tag matches Some(w) && w@ == s.repository@
            + ":"@ + sha@) && r.outcome == s.outcome && r.transcript == s.transcript
            && r.build_failed == s.build_failed && r.build_started == s.build_started
            && r.listed_tags == s.listed_tags && r.gc_requested == s.gc_requested),
        s.phase is Preparing ==> (e matches CompileEvent::PrepareFailed(m) ==> r == (
        CompileSession {
            phase: CompilePhase::Finished,
            outcome: Some(Err(CompileError::GitError(m))),
            ..s
        })),
        s.phase is CheckingDockerfile && e is DockerfileFound ==> r == (CompileSession {
            phase: CompilePhase::ListingImages,
            ..s
        }),
        s.phase is CheckingDockerfile ==> (e matches CompileEvent::DockerfileMissing(p) ==> r == (
        CompileSession {
            phase: CompilePhase::Finished,
            outcome: Some(Err(CompileError::MissingDockerfile(p))),
            ..s
        })),
        s.phase is ListingImages && (s.wanted_tag is Some) ==> (
        e matches CompileEvent::ImagesListed(tags) ==> ((spec_tag_hit(tags@, s.wanted_tag) ==> r
            == (CompileSession {
            phase: CompilePhase::Finished,
            outcome: Some(Ok::<(), CompileError>(())),
            ..s
        })) && (!spec_tag_hit(tags@, s.wanted_tag) ==> r == (CompileSession {
            phase: CompilePhase::Building,
            build_started: true,
            listed_tags: tags,
            ..s
        })))),
        s.phase is ListingImages ==> (e matches CompileEvent::ListFailed(m) ==> r == (
        CompileSession {
            phase: CompilePhase::Finished,
            outcome: Some(Err(CompileError::EngineError(m))),
            ..s
        })),
        s.phase is Building ==> (e matches CompileEvent::BuildMsg(ev) ==> (r.phase is Building)
            && r.gc_requested == s.gc_requested && r.outcome == s.outcome && r.build_started
            == s.build_started && r.wanted_tag == s.wanted_tag && r.listed_tags == s.listed_tags
            && (match ev {
            BuildEvent::Stream(m) => r.transcript@ == s.transcript@ + m@ && r.build_failed
                == s.build_failed,
            BuildEvent::ErrorMsg(m) => r.transcript@ == s.transcript@ + m@ && r.build_failed,
            BuildEvent::Other => r.transcript@ == s.transcript@ && r.build_failed
                == s.build_failed,
        })),
        s.phase is Building && e is BuildStreamEnded && s.build_failed ==> (
        r.outcome matches Some(Err(CompileError::BuildError(t))) && t@ == s.transcript@) && (
        r.phase is Finished) && r.transcript == s.transcript && r.build_failed == s.build_failed
            && r.build_started == s.build_started && r.wanted_tag == s.wanted_tag
            && r.listed_tags == s.listed_tags && r.gc_requested == s.gc_requested,
        s.phase is Building && e is BuildStreamEnded && !s.build_failed ==> r == (CompileSession {
            phase: CompilePhase::Collecting,
            gc_requested: true,
            ..s
        }),
        s.phase is Collecting && e is CleanupAndTagDone ==> r == (CompileSession {
            phase: CompilePhase::Finished,
            outcome: Some(Ok::<(), CompileError>(())),
            ..s
        }),
        s.phase is Collecting ==> (e matches CompileEvent::TagFailed(m) ==> r == (CompileSession {
            phase: CompilePhase::Finished,
            outcome: Some(Err(CompileError::EngineError(m))),
            ..s
        })),
{
    let CompileSession {
        phase,
        repository,
        wanted_tag,
        transcript,
        build_failed,
        build_started,
        listed_tags,
        gc_requested,
        outcome,
    } = s;
    match phase {
        CompilePhase::Preparing => match e {
            CompileEvent::PrepareOk(sha) => {
                let mut w = repository.clone();
                w.append(":");
                w.append(sha.as_str());
                CompileSession {
                    phase: CompilePhase::CheckingDockerfile,
                    repository,
                    wanted_tag: Some(w),
                    transcript,
                    build_failed,
                    build_started,
                    listed_tags,
                    gc_requested,
                    outcome,
                }
            },
            CompileEvent::PrepareFailed(m) => CompileSession {
                phase: CompilePhase::Finished,
                repository,
                wanted_tag,
                transcript,
                build_failed,
                build_started,
                listed_tags,
                gc_requested,
                outcome: Some(Err(CompileError::GitError(m))),
            },
            _ => CompileSession {
                phase,
                repository,
                wanted_tag,
                transcript,
                build_failed,
                build_started,
                listed_tags,
                gc_requested,
                outcome,
            },
        },
        CompilePhase::CheckingDockerfile => match e {
            CompileEvent::DockerfileFound => CompileSession {
                phase: CompilePhase::ListingImages,
                repository,
                wanted_tag,
                transcript,
                build_failed,
                build_started,
                listed_tags,
                gc_requested,
                outcome,
            },
            CompileEvent::DockerfileMissing(p) => CompileSession {
                phase: CompilePhase::Finished,
                repository,
                wanted_tag,
                transcript,
                build_failed,
                build_started,
                listed_tags,
                gc_requested,
                outcome: Some(Err(CompileError::MissingDockerfile(p))),
            },
            _ => CompileSession {
                phase,
                repository,
                wanted_tag,
                transcript,
                build_failed,
                build_started,
                listed_tags,
                gc_requested,
                outcome,
            },
        },
        CompilePhase::ListingImages => match e {
            CompileEvent::ImagesListed(tags) => match wanted_tag {
                Some(w) => {
                    let d = compile_decision(true, &tags, w.as_str());
                    match d {
                        CompileDecision::AlreadyBuilt => CompileSession {
                            phase: CompilePhase::Finished,
                            repository,
                            wanted_tag: Some(w),
                            transcript,
                            build_failed,
                            build_started,
                            listed_tags,
                            gc_requested,
                            outcome: Some(Ok(())),
                        },
                        _ => CompileSession {
                            phase: CompilePhase::Building,
                            repository,
                            wanted_tag: Some(w),
                            transcript,
                            build_failed,
                            build_started: true,
                            listed_tags: tags,
                            gc_requested,
                            outcome,
                        },
                    }
                },
                None => CompileSession {
                    phase,
                    repository,
                    wanted_tag: None,
                    transcript,
                    build_failed,
                    build_started,
                    listed_tags,
                    gc_requested,
                    outcome,
                },
            },
            CompileEvent::ListFailed(m) => CompileSession {
                phase: CompilePhase::Finished,
                repository,
                wanted_tag,
                transcript,
                build_failed,
                build_started,
                listed_tags,
                gc_requested,
                outcome: Some(Err(CompileError::EngineError(m))),
            },
            _ => CompileSession {
                phase,
                repository,
                wanted_tag,
                transcript,
                build_failed,
                build_started,
                listed_tags,
                gc_requested,
                outcome,
            },
        },
        CompilePhase::Building => match e {
            CompileEvent::BuildMsg(ev) => {
                let mut transcript = transcript;
                let mut build_failed = build_failed;
                absorb_build_event(&mut transcript, &mut build_failed, &ev);
                CompileSession {
                    phase,
                    repository,
                    wanted_tag,
                    transcript,
                    build_failed,
                    build_started,
                    listed_tags,
                    gc_requested,
                    outcome,
                }
            },
            CompileEvent::BuildStreamEnded => {
                if build_failed {
                    CompileSession {
                        phase: CompilePhase::Finished,
                        repository,
                        wanted_tag,
                        outcome: Some(Err(CompileError::BuildError(transcript.clone()))),
                        transcript,
                        build_failed,
                        build_started,
                        listed_tags,
                        gc_requested,
                    }
                } else {
                    CompileSession {
                        phase: CompilePhase::Collecting,
                        repository,
                        wanted_tag,
                        transcript,
                        build_failed,
                        build_started,
                        listed_tags,
                        gc_requested: true,
                        outcome,
                    }
                }
            },
            _ => CompileSession {
                phase,
                repository,
                wanted_tag,
                transcript,
                build_failed,
                build_started,
                listed_tags,
                gc_requested,
                outcome,
            },
        },
        CompilePhase::Collecting => match e {
            CompileEvent::CleanupAndTagDone => CompileSession {
                phase: CompilePhase::Finished,
                repository,
                wanted_tag,
                transcript,
                build_failed,
                build_started,
                listed_tags,
                gc_requested,
                outcome: Some(Ok(())),
            },
            CompileEvent::TagFailed(m) => CompileSession {
                phase: CompilePhase::Finished,
                repository,
                wanted_tag,
                transcript,
                build_failed,
                build_started,
                listed_tags,
                gc_requested,
                outcome: Some(Err(CompileError::EngineError(m))),
            },
            _ => CompileSession {
                phase,
                repository,
                wanted_tag,
                transcript,
                build_failed,
                build_started,
                listed_tags,
                gc_requested,
                outcome,
            },
        },
        CompilePhase::Finished => CompileSession {
            phase,
            repository,
            wanted_tag,
            transcript,
            build_failed,
            build_started,
            listed_tags,
            gc_requested,
            outcome,
        },
    }
}

/// One event from the engine's build stream.
#[derive(Debug, Clone, PartialEq, Eq)]
pub enum BuildEvent {
    /// A chunk of build output.
    Stream(String),
    /// An error reported by the engine; the build has failed.
    ErrorMsg(String),
    /// Anything else the stream carries; ignored.
    Other,
}

/// Folds one build event into the transcript and the failure flag: output and
/// errors are appended in arrival order, and an error marks the build failed
/// for good.
pub fn absorb_build_event(transcript: &mut String, failed: &mut bool, ev: &BuildEvent)
    ensures
        ev matches BuildEvent::Stream(m) ==> final(transcript)@ == old(transcript)@ + m@
            && *final(failed) == *old(failed),
        ev matches BuildEvent::ErrorMsg(m) ==> final(transcript)@ == old(transcript)@ + m@
            && *final(failed),
        ev is Other ==> final(transcript)@ == old(transcript)@ && *final(failed) == *old(failed),
{
    match ev {
        BuildEvent::Stream(m) => {
            transcript.append(m.as_str());
        },
        BuildEvent::ErrorMsg(m) => {
            transcript.append(m.as_str());
            *failed = true;
        },
        BuildEvent::Other => {},
    }
}

} // verus!
