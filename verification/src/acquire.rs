//! The acquisition pipeline as a step machine. Every decision of the
//! pipeline — filename resolution, manifest lookup, the idempotence fast
//! path, hash verification, extraction — is made and verified here; the I/O
//! each decision calls for (reading the manifest, probing the cache,
//! fetching the asset, writing the binary) is performed by the caller, which
//! hands the outcome back as an event and keeps stepping until the machine
//! is done.

use crate::archive::extract_binary;
use crate::archive::extract_spec;
use crate::archive::hash_matches;
use crate::archive::sha256_of;
use crate::errors::AcquisitionError;
use crate::manifest::lookup_expected_hash;
use crate::manifest::manifest_lookup_spec;
use crate::release::cache_path_spec;
use crate::release::cached_binary_path;
use crate::release::download_filename;
use crate::release::download_filename_spec;
use crate::release::download_url;
use crate::release::download_url_spec;
use crate::release::manifest_path;
use crate::release::manifest_path_spec;
use crate::release::Platform;
use vstd::pervasive::unreached;
use vstd::prelude::*;

verus! {

/// One I/O step the caller must perform before the machine can continue.
pub enum Action {
    /// Read the manifest file at this path; answer with `ManifestRead`.
    ReadManifest(String),
    /// Test whether a file exists at this path; answer with `CacheChecked`.
    CheckCache(String),
    /// Fetch this URL; answer with `Downloaded`.
    Download(String),
    /// Write these bytes at this path with these mode bits; answer with
    /// `BinaryWritten`.
    WriteBinary(String, u32, Vec<u8>),
}

/// The outcome of a performed action, handed back to the machine.
pub enum Event {
    /// The manifest text, or `None` where the file was unreadable.
    ManifestRead(Option<String>),
    /// Whether the cached binary already exists.
    CacheChecked(bool),
    /// The fetched asset, or `None` on a transport error or a non-success
    /// response.
    Downloaded(Option<Vec<u8>>),
    /// Whether the write succeeded.
    BinaryWritten(bool),
}

/// How far the pipeline has come; the digest found in the manifest is
/// carried from lookup to verification.
pub enum Stage {
    AwaitManifest,
    AwaitCache(Vec<u8>),
    AwaitDownload(Vec<u8>),
    AwaitWrite,
}

/// An acquisition in progress: the request and the stage it has reached.
pub struct Acquisition {
    pub version: String,
    pub cache_root: String,
    pub filename: String,
    pub stage: Stage,
}

/// Either a further action to perform, or the pipeline's result: the cache
/// path of the daemon binary, or the step that failed.
pub enum Outcome {
    Pending(Acquisition, Action),
    Done(Result<String, AcquisitionError>),
}

pub ghost enum ActionView {
    ReadManifest(Seq<char>),
    CheckCache(Seq<char>),
    Download(Seq<char>),
    WriteBinary(Seq<char>, u32, Seq<u8>),
}

pub ghost enum EventView {
    ManifestRead(Option<Seq<char>>),
    CacheChecked(bool),
    Downloaded(Option<Seq<u8>>),
    BinaryWritten(bool),
}

pub ghost enum StageView {
    AwaitManifest,
    AwaitCache(Seq<u8>),
    AwaitDownload(Seq<u8>),
    AwaitWrite,
}

pub ghost struct AcquisitionView {
    pub version: Seq<char>,
    pub cache_root: Seq<char>,
    pub filename: Seq<char>,
    pub stage: StageView,
}

pub ghost enum OutcomeView {
    Pending(AcquisitionView, ActionView),
    Done(Result<Seq<char>, AcquisitionError>),
}

impl View for Action {
    type V = ActionView;

    open spec fn view(&self) -> ActionView {
        match self {
            Action::ReadManifest(p) => ActionView::ReadManifest(p@),
            Action::CheckCache(p) => ActionView::CheckCache(p@),
            Action::Download(u) => ActionView::Download(u@),
            Action::WriteBinary(p, m, d) => ActionView::WriteBinary(p@, *m, d@),
        }
    }
}

impl View for Event {
    type V = EventView;

    open spec fn view(&self) -> EventView {
        match self {
            Event::ManifestRead(None) => EventView::ManifestRead(None),
            Event::ManifestRead(Some(t)) => EventView::ManifestRead(Some(t@)),
            Event::CacheChecked(b) => EventView::CacheChecked(*b),
            Event::Downloaded(None) => EventView::Downloaded(None),
            Event::Downloaded(Some(d)) => EventView::Downloaded(Some(d@)),
            Event::BinaryWritten(b) => EventView::BinaryWritten(*b),
        }
    }
}

impl View for Stage {
    type V = StageView;

    open spec fn view(&self) -> StageView {
        match self {
            Stage::AwaitManifest => StageView::AwaitManifest,
            Stage::AwaitCache(d) => StageView::AwaitCache(d@),
            Stage::AwaitDownload(d) => StageView::AwaitDownload(d@),
            Stage::AwaitWrite => StageView::AwaitWrite,
        }
    }
}

impl View for Acquisition {
    type V = AcquisitionView;

    open spec fn view(&self) -> AcquisitionView {
        AcquisitionView {
            version: self.version@,
            cache_root: self.cache_root@,
            filename: self.filename@,
            stage: self.stage@,
        }
    }
}

impl View for Outcome {
    type V = OutcomeView;

    open spec fn view(&self) -> OutcomeView {
        match self {
            Outcome::Pending(st, a) => OutcomeView::Pending(st@, a@),
            Outcome::Done(Ok(p)) => OutcomeView::Done(Ok(p@)),
            Outcome::Done(Err(e)) => OutcomeView::Done(Err(*e)),
        }
    }
}

/// The first step: resolve the asset filename. A platform with no
/// filename-resolution rule fails here, before any action — in particular
/// before any network request — is ever issued.
pub open spec fn spec_start(
    version: Seq<char>,
    cache_root: Seq<char>,
    platform: Platform,
) -> OutcomeView {
    match download_filename_spec(version, platform) {
        None => OutcomeView::Done(Err(AcquisitionError::UnsupportedPlatform)),
        Some(filename) => OutcomeView::Pending(
            AcquisitionView { version, cache_root, filename, stage: StageView::AwaitManifest },
            ActionView::ReadManifest(manifest_path_spec(version)),
        ),
    }
}

/// Whether the machine's stage awaits this kind of event.
pub open spec fn spec_accepts(st: AcquisitionView, ev: EventView) -> bool {
    match (st.stage, ev) {
        (StageView::AwaitManifest, EventView::ManifestRead(_)) => true,
        (StageView::AwaitCache(_), EventView::CacheChecked(_)) => true,
        (StageView::AwaitDownload(_), EventView::Downloaded(_)) => true,
        (StageView::AwaitWrite, EventView::BinaryWritten(_)) => true,
        _ => false,
    }
}

/// The machine's transition relation, one event at a time.
pub open spec fn spec_step(st: AcquisitionView, ev: EventView) -> OutcomeView
    recommends
        spec_accepts(st, ev),
{
    match (st.stage, ev) {
        (StageView::AwaitManifest, EventView::ManifestRead(None)) => OutcomeView::Done(
            Err(AcquisitionError::ManifestLookupFailed),
        ),
        (StageView::AwaitManifest, EventView::ManifestRead(Some(text))) => match
        manifest_lookup_spec(text, st.filename) {
            None => OutcomeView::Done(Err(AcquisitionError::ManifestLookupFailed)),
            Some(expected) => OutcomeView::Pending(
                AcquisitionView { stage: StageView::AwaitCache(expected), ..st },
                ActionView::CheckCache(cache_path_spec(st.cache_root, st.version)),
            ),
        },
        (StageView::AwaitCache(_), EventView::CacheChecked(true)) => OutcomeView::Done(
            Ok(cache_path_spec(st.cache_root, st.version)),
        ),
        (StageView::AwaitCache(expected), EventView::CacheChecked(false)) => OutcomeView::Pending(
            AcquisitionView { stage: StageView::AwaitDownload(expected), ..st },
            ActionView::Download(download_url_spec(st.version, st.filename)),
        ),
        (StageView::AwaitDownload(_), EventView::Downloaded(None)) => OutcomeView::Done(
            Err(AcquisitionError::DownloadFailed),
        ),
        (StageView::AwaitDownload(expected), EventView::Downloaded(Some(bytes))) => if sha256_of(
            bytes,
        ) != expected {
            OutcomeView::Done(Err(AcquisitionError::HashMismatch))
        } else {
            match extract_spec(bytes) {
                None => OutcomeView::Done(Err(AcquisitionError::BinaryNotFoundInArchive)),
                Some(ent) => OutcomeView::Pending(
                    AcquisitionView { stage: StageView::AwaitWrite, ..st },
                    ActionView::WriteBinary(
                        cache_path_spec(st.cache_root, st.version),
                        ent.1,
                        ent.2,
                    ),
                ),
            }
        },
        (StageView::AwaitWrite, EventView::BinaryWritten(true)) => OutcomeView::Done(
            Ok(cache_path_spec(st.cache_root, st.version)),
        ),
        (StageView::AwaitWrite, EventView::BinaryWritten(false)) => OutcomeView::Done(
            Err(AcquisitionError::CacheIoError),
        ),
        _ => OutcomeView::Done(Err(AcquisitionError::CacheIoError)),
    }
}

/// Begins acquisition of the daemon binary for a version and platform. The
/// caller performs each returned action and answers with the matching event
/// through [`Acquisition::step`].
pub fn start(version: String, cache_root: String, platform: Platform) -> (r: Outcome)
    ensures
        r@ == spec_start(version@, cache_root@, platform),
{
    let ghost v0 = version@;
    let ghost c0 = cache_root@;
    match download_filename(version.as_str(), platform) {
        Err(_) => Outcome::Done(Err(AcquisitionError::UnsupportedPlatform)),
        Ok(filename) => {
            let path = manifest_path(version.as_str());
            let r = Outcome::Pending(
                Acquisition { version, cache_root, filename, stage: Stage::AwaitManifest },
                Action::ReadManifest(path),
            );
            proof {
                assert(r@ =~~= spec_start(v0, c0, platform));
            }
            r
        },
    }
}

impl Acquisition {
    /// Whether this machine awaits the given kind of event. `step` must only
    /// be handed an event answering the action it came with.
    pub fn accepts(&self, ev: &Event) -> (r: bool)
        ensures
            r == spec_accepts(self@, ev@),
    {
        match (&self.stage, ev) {
            (Stage::AwaitManifest, Event::ManifestRead(_)) => true,
            (Stage::AwaitCache(_), Event::CacheChecked(_)) => true,
            (Stage::AwaitDownload(_), Event::Downloaded(_)) => true,
            (Stage::AwaitWrite, Event::BinaryWritten(_)) => true,
            _ => false,
        }
    }

    /// Advances the pipeline by one performed action.
    pub fn step(self, ev: Event) -> (r: Outcome)
        requires
            spec_accepts(self@, ev@),
        ensures
            r@ == spec_step(self@, ev@),
    {
        let ghost st0 = self@;
        let ghost ev0 = ev@;
        let Acquisition { version, cache_root, filename, stage } = self;
        match (stage, ev) {
            (Stage::AwaitManifest, Event::ManifestRead(None)) => Outcome::Done(
                Err(AcquisitionError::ManifestLookupFailed),
            ),
            (Stage::AwaitManifest, Event::ManifestRead(Some(text))) => {
                match lookup_expected_hash(text.as_str(), filename.as_str()) {
                    Err(_) => Outcome::Done(Err(AcquisitionError::ManifestLookupFailed)),
                    Ok(expected) => {
                        let path = cached_binary_path(cache_root.as_str(), version.as_str());
                        let r = Outcome::Pending(
                            Acquisition {
                                version,
                                cache_root,
                                filename,
                                stage: Stage::AwaitCache(expected),
                            },
                            Action::CheckCache(path),
                        );
                        proof {
                            assert(r@ =~~= spec_step(st0, ev0));
                        }
                        r
                    },
                }
            },
            (Stage::AwaitCache(_), Event::CacheChecked(true)) => {
                let path = cached_binary_path(cache_root.as_str(), version.as_str());
                Outcome::Done(Ok(path))
            },
            (Stage::AwaitCache(expected), Event::CacheChecked(false)) => {
                let url = download_url(version.as_str(), filename.as_str());
                let r = Outcome::Pending(
                    Acquisition {
                        version,
                        cache_root,
                        filename,
                        stage: Stage::AwaitDownload(expected),
                    },
                    Action::Download(url),
                );
                proof {
                    assert(r@ =~~= spec_step(st0, ev0));
                }
                r
            },
            (Stage::AwaitDownload(_), Event::Downloaded(None)) => Outcome::Done(
                Err(AcquisitionError::DownloadFailed),
            ),
            (Stage::AwaitDownload(expected), Event::Downloaded(Some(bytes))) => {
                if !hash_matches(&bytes, &expected) {
                    Outcome::Done(Err(AcquisitionError::HashMismatch))
                } else {
                    match extract_binary(&bytes) {
                        Err(_) => Outcome::Done(Err(AcquisitionError::BinaryNotFoundInArchive)),
                        Ok((mode, data)) => {
                            let path = cached_binary_path(cache_root.as_str(), version.as_str());
                            let r = Outcome::Pending(
                                Acquisition {
                                    version,
                                    cache_root,
                                    filename,
                                    stage: Stage::AwaitWrite,
                                },
                                Action::WriteBinary(path, mode, data),
                            );
                            proof {
                                assert(r@ =~~= spec_step(st0, ev0));
                            }
                            r
                        },
                    }
                }
            },
            (Stage::AwaitWrite, Event::BinaryWritten(true)) => {
                let path = cached_binary_path(cache_root.as_str(), version.as_str());
                Outcome::Done(Ok(path))
            },
            (Stage::AwaitWrite, Event::BinaryWritten(false)) => Outcome::Done(
                Err(AcquisitionError::CacheIoError),
            ),
            _ => unreached(),
        }
    }
}

/// The actions a run requests and the result it ends with: the machine is
/// stepped from `o`, answering the i-th pending action with `events[i]`,
/// until it is done or the events run out.
pub open spec fn spec_run(o: OutcomeView, events: Seq<EventView>) -> (Seq<ActionView>, Option<
    Result<Seq<char>, AcquisitionError>,
>)
    decreases events.len(),
{
    match o {
        OutcomeView::Done(res) => (Seq::<ActionView>::empty(), Some(res)),
        OutcomeView::Pending(st, a) => if events.len() == 0 {
            (seq![a], None)
        } else {
            let rest = spec_run(spec_step(st, events[0]), events.skip(1));
            (seq![a] + rest.0, rest.1)
        },
    }
}

/// A step never changes the request it serves: whatever stage the machine
/// moves to, the version and the cache root persist.
pub proof fn lemma_request_persists(st: AcquisitionView, ev: EventView)
    ensures
        spec_step(st, ev) matches OutcomeView::Pending(st2, _) ==> st2.version == st.version
            && st2.cache_root == st.cache_root,
{
}

/// Every successful run returns the cache path of the request — the fast
/// path over a populated cache and the full pipeline end at the same
/// location.
pub proof fn lemma_run_success_path(
    o: OutcomeView,
    events: Seq<EventView>,
    version: Seq<char>,
    cache_root: Seq<char>,
)
    requires
        match o {
            OutcomeView::Pending(st, _) => st.version == version && st.cache_root == cache_root,
            OutcomeView::Done(res) => res matches Ok(p) ==> p == cache_path_spec(
                cache_root,
                version,
            ),
        },
    ensures
        spec_run(o, events).1 matches Some(Ok(p)) ==> p == cache_path_spec(cache_root, version),
    decreases events.len(),
{
    match o {
        OutcomeView::Done(res) => {},
        OutcomeView::Pending(st, a) => {
            if events.len() > 0 {
                lemma_request_persists(st, events[0]);
                lemma_run_success_path(spec_step(st, events[0]), events.skip(1), version, cache_root);
            }
        },
    }
}

/// Idempotence of acquisition: with the cached binary already present, a run
/// performs exactly the manifest read and the cache probe — no download, no
/// write — and returns the cache path, the same path any successful run
/// returns.
pub proof fn lemma_cache_hit_run(
    version: Seq<char>,
    cache_root: Seq<char>,
    platform: Platform,
    text: Seq<char>,
)
    requires
        download_filename_spec(version, platform) matches Some(f) && manifest_lookup_spec(
            text,
            f,
        ) is Some,
    ensures
        spec_run(
            spec_start(version, cache_root, platform),
            seq![EventView::ManifestRead(Some(text)), EventView::CacheChecked(true)],
        ) == (
            seq![
                ActionView::ReadManifest(manifest_path_spec(version)),
                ActionView::CheckCache(cache_path_spec(cache_root, version)),
            ],
            Some(Ok::<Seq<char>, AcquisitionError>(cache_path_spec(cache_root, version))),
        ),
{
    reveal_with_fuel(spec_run, 4);
    let events = seq![EventView::ManifestRead(Some(text)), EventView::CacheChecked(true)];
    let o0 = spec_start(version, cache_root, platform);
    let st0 = o0->Pending_0;
    let o1 = spec_step(st0, events[0]);
    let st1 = o1->Pending_0;
    assert(events.skip(1) =~= seq![EventView::CacheChecked(true)]);
    assert(events.skip(1).skip(1) =~= Seq::<EventView>::empty());
    let o2 = spec_step(st1, events.skip(1)[0]);
    assert(o2 == OutcomeView::Done(
        Ok::<Seq<char>, AcquisitionError>(cache_path_spec(cache_root, version)),
    ));
    assert(spec_run(o2, events.skip(1).skip(1)) == (
        Seq::<ActionView>::empty(),
        Some(Ok::<Seq<char>, AcquisitionError>(cache_path_spec(cache_root, version))),
    ));
    assert(spec_run(o0, events).0 =~= seq![
        ActionView::ReadManifest(manifest_path_spec(version)),
        ActionView::CheckCache(cache_path_spec(cache_root, version)),
    ]);
}

/// No action in the sequence writes to the filesystem.
pub open spec fn no_write_action(actions: Seq<ActionView>) -> bool {
    forall|i: int| 0 <= i < actions.len() ==> !(#[trigger] actions[i] is WriteBinary)
}

/// A hash mismatch is fatal: the machine ends with `HashMismatch` at once
/// and requests no write, so nothing is placed at the binary's cache
/// location. The full run up to the mismatch requests exactly the manifest
/// read, the cache probe and the download.
pub proof fn lemma_hash_mismatch_run(
    version: Seq<char>,
    cache_root: Seq<char>,
    platform: Platform,
    text: Seq<char>,
    bytes: Seq<u8>,
)
    requires
        download_filename_spec(version, platform) matches Some(f) && manifest_lookup_spec(
            text,
            f,
        ) matches Some(expected) && sha256_of(bytes) != expected,
    ensures
        spec_run(
            spec_start(version, cache_root, platform),
            seq![
                EventView::ManifestRead(Some(text)),
                EventView::CacheChecked(false),
                EventView::Downloaded(Some(bytes)),
            ],
        ) == (
            seq![
                ActionView::ReadManifest(manifest_path_spec(version)),
                ActionView::CheckCache(cache_path_spec(cache_root, version)),
                ActionView::Download(
                    download_url_spec(
                        version,
                        download_filename_spec(version, platform)->Some_0,
                    ),
                ),
            ],
            Some(Err::<Seq<char>, AcquisitionError>(AcquisitionError::HashMismatch)),
        ),
        no_write_action(
            spec_run(
                spec_start(version, cache_root, platform),
                seq![
                    EventView::ManifestRead(Some(text)),
                    EventView::CacheChecked(false),
                    EventView::Downloaded(Some(bytes)),
                ],
            ).0,
        ),
{
    reveal_with_fuel(spec_run, 5);
    let events = seq![
        EventView::ManifestRead(Some(text)),
        EventView::CacheChecked(false),
        EventView::Downloaded(Some(bytes)),
    ];
    let o0 = spec_start(version, cache_root, platform);
    let st0 = o0->Pending_0;
    let o1 = spec_step(st0, events[0]);
    let st1 = o1->Pending_0;
    assert(events.skip(1) =~= seq![EventView::CacheChecked(false), EventView::Downloaded(
        Some(bytes),
    )]);
    let o2 = spec_step(st1, events.skip(1)[0]);
    let st2 = o2->Pending_0;
    assert(events.skip(1).skip(1) =~= seq![EventView::Downloaded(Some(bytes))]);
    let o3 = spec_step(st2, events.skip(1).skip(1)[0]);
    assert(o3 == OutcomeView::Done(
        Err::<Seq<char>, AcquisitionError>(AcquisitionError::HashMismatch),
    ));
    assert(events.skip(1).skip(1).skip(1) =~= Seq::<EventView>::empty());
    assert(spec_run(o0, events).0 =~= seq![
        ActionView::ReadManifest(manifest_path_spec(version)),
        ActionView::CheckCache(cache_path_spec(cache_root, version)),
        ActionView::Download(
            download_url_spec(version, download_filename_spec(version, platform)->Some_0),
        ),
    ]);
}

/// An unsupported platform fails up front: the machine is done with
/// `UnsupportedPlatform` without requesting any action — in particular, no
/// network request is ever attempted, whatever events are offered.
pub proof fn lemma_unsupported_platform(
    version: Seq<char>,
    cache_root: Seq<char>,
    platform: Platform,
)
    requires
        download_filename_spec(version, platform) is None,
    ensures
        spec_start(version, cache_root, platform) == OutcomeView::Done(
            Err::<Seq<char>, AcquisitionError>(AcquisitionError::UnsupportedPlatform),
        ),
        forall|events: Seq<EventView>|
            #[trigger] spec_run(spec_start(version, cache_root, platform), events).0
                =~= Seq::<ActionView>::empty(),
{
}

} // verus!
