//! The failure taxonomy: what can go wrong in a call, how it is tagged, and
//! whether it ends the call.

use crate::sdk::{error_cause, spec_error_cause};
use vstd::prelude::*;

verus! {

/// The category of a failure. Callers branch on the category, never on the
/// wording of a message.
#[derive(Clone, Copy, Debug, PartialEq, Eq, Structural)]
pub enum ErrorKind {
    /// Bytes handed in by the caller could not be taken as a byte buffer.
    InputDecode,
    /// The settings document was rejected, or a rolling-hash call named
    /// neither a prior hash nor an anchor point.
    Configuration,
    /// The bytes do not parse as a recognized container.
    ContainerFormat,
    /// No manifest store was found where one was expected.
    ManifestMissing,
    /// The manifest does not match the content hash of the asset.
    ManifestAssetMismatch,
    /// A fragment does not continue the chain it was offered for.
    ChainContinuity,
    /// An identity assertion failed trust verification.
    TrustVerification,
    /// The assembled report could not be serialized.
    Serialization,
}

impl ErrorKind {
    /// The tag under which a category is surfaced.
    pub open spec fn spec_tag(self) -> Seq<char> {
        match self {
            ErrorKind::InputDecode => "InputDecodeError"@,
            ErrorKind::Configuration => "ConfigurationError"@,
            ErrorKind::ContainerFormat => "ContainerFormatError"@,
            ErrorKind::ManifestMissing => "ManifestMissingError"@,
            ErrorKind::ManifestAssetMismatch => "ManifestAssetMismatchError"@,
            ErrorKind::ChainContinuity => "ChainContinuityError"@,
            ErrorKind::TrustVerification => "TrustVerificationFailure"@,
            ErrorKind::Serialization => "SerializationError"@,
        }
    }

    /// Whether a failure of this category ends the call. A trust failure
    /// never does: it is recorded with the assertion it concerns.
    pub open spec fn spec_aborts_call(self) -> bool {
        self != ErrorKind::TrustVerification
    }

    /// The tag under which this category is surfaced.
    pub fn tag(self) -> (t: &'static str)
        ensures
            t@ == self.spec_tag(),
    {
        match self {
            ErrorKind::InputDecode => "InputDecodeError",
            ErrorKind::Configuration => "ConfigurationError",
            ErrorKind::ContainerFormat => "ContainerFormatError",
            ErrorKind::ManifestMissing => "ManifestMissingError",
            ErrorKind::ManifestAssetMismatch => "ManifestAssetMismatchError",
            ErrorKind::ChainContinuity => "ChainContinuityError",
            ErrorKind::TrustVerification => "TrustVerificationFailure",
            ErrorKind::Serialization => "SerializationError",
        }
    }

    /// Whether a failure of this category ends the call.
    pub fn aborts_call(self) -> (b: bool)
        ensures
            b == self.spec_aborts_call(),
    {
        match self {
            ErrorKind::TrustVerification => false,
            _ => true,
        }
    }
}

/// No two categories share a tag: the tag alone tells the category.
pub proof fn lemma_tag_tells_kind(a: ErrorKind, b: ErrorKind)
    ensures
        a.spec_tag() == b.spec_tag() <==> a == b,
{
    reveal_strlit("InputDecodeError");
    reveal_strlit("ConfigurationError");
    reveal_strlit("ContainerFormatError");
    reveal_strlit("ManifestMissingError");
    reveal_strlit("ManifestAssetMismatchError");
    reveal_strlit("ChainContinuityError");
    reveal_strlit("TrustVerificationFailure");
    reveal_strlit("SerializationError");
    if a != b && a.spec_tag() == b.spec_tag() {
        // Equal tags have equal lengths and agree at every index.
        assert(a.spec_tag().len() == b.spec_tag().len());
        assert(a.spec_tag()[0] == b.spec_tag()[0]);
        assert(a.spec_tag()[1] == b.spec_tag()[1]);
    }
}

/// What the SDK said of a failed call, as far as the taxonomy needs it.
#[derive(Clone, Debug, PartialEq, Eq)]
pub enum Cause {
    /// The asset holds no manifest store.
    ManifestNotFound,
    /// The asset names a manifest store that lives at this URL and was not
    /// fetched.
    RemoteManifest(String),
    /// A content hash did not match.
    HashMismatch,
    /// Anything else: the bytes could not be read as the container they
    /// were declared to be.
    Other,
}

/// A failure reported by the SDK: its cause and its message.
#[derive(Clone, Debug, PartialEq, Eq)]
pub struct Failure {
    pub cause: Cause,
    pub message: String,
}

/// Whether `text` is what an error of the SDK displays.
pub open spec fn spec_displays(err: c2pa::Error, text: String) -> bool {
    vstd::string::to_string_from_display_ensures::<c2pa::Error>(&err, text)
}

/// What the SDK reported, as plain values: the cause it names and the text
/// it displays.
pub(crate) fn describe(err: &c2pa::Error) -> (failure: Failure)
    ensures
        failure.cause == spec_error_cause(*err),
        spec_displays(*err, failure.message),
{
    Failure { cause: error_cause(err), message: err.to_string() }
}

/// The step of a call in which the SDK failed.
#[derive(Clone, Copy, Debug, PartialEq, Eq, Structural)]
pub enum Stage {
    /// Applying the settings document.
    Settings,
    /// Reading a manifest store out of container bytes.
    Container,
    /// Folding a fragment into a rolling hash.
    Chain,
}

/// The category under which a failure of the SDK is surfaced.
///
/// The stage decides first: whatever goes wrong while the settings are
/// applied is a configuration error, and whatever goes wrong while a fragment
/// is folded into the chain is a continuity error. Only while a container is
/// read does the cause tell the categories apart.
pub open spec fn spec_kind_of(stage: Stage, cause: Cause) -> ErrorKind {
    match stage {
        Stage::Settings => ErrorKind::Configuration,
        Stage::Chain => ErrorKind::ChainContinuity,
        Stage::Container => match cause {
            Cause::ManifestNotFound => ErrorKind::ManifestMissing,
            Cause::RemoteManifest(_) => ErrorKind::ManifestMissing,
            Cause::HashMismatch => ErrorKind::ManifestAssetMismatch,
            Cause::Other => ErrorKind::ContainerFormat,
        },
    }
}

/// The URL that a failure carries: that of a remote manifest store met while
/// a container was read, and no other.
pub open spec fn spec_url_of(stage: Stage, cause: Cause) -> Option<Seq<char>> {
    match (stage, cause) {
        (Stage::Container, Cause::RemoteManifest(url)) => Some(url@),
        _ => None,
    }
}

/// A failure that ends a call: its category, a message for people, and, where
/// the manifest store lives elsewhere, its URL.
#[derive(Clone, Debug, PartialEq, Eq)]
pub struct ToolkitError {
    pub kind: ErrorKind,
    pub message: String,
    pub url: Option<String>,
}

/// A [`ToolkitError`] as a plain value.
pub struct ErrorView {
    pub kind: ErrorKind,
    pub message: Seq<char>,
    pub url: Option<Seq<char>>,
}

impl View for ToolkitError {
    type V = ErrorView;

    open spec fn view(&self) -> ErrorView {
        ErrorView {
            kind: self.kind,
            message: self.message@,
            url: match self.url {
                Some(u) => Some(u@),
                None => None,
            },
        }
    }
}

impl ErrorView {
    /// An error ends the call it arose in, and only a missing manifest
    /// store carries a URL.
    pub open spec fn wf(self) -> bool {
        &&& self.kind.spec_aborts_call()
        &&& self.url is Some ==> self.kind == ErrorKind::ManifestMissing
    }
}

/// The error that a failure of the SDK becomes.
pub open spec fn spec_classify(stage: Stage, failure: Failure) -> ErrorView {
    ErrorView {
        kind: spec_kind_of(stage, failure.cause),
        message: failure.message@,
        url: spec_url_of(stage, failure.cause),
    }
}

/// Whether `e` is the error that a failure `err` of the SDK becomes at
/// `stage`: the category and the URL go by the stage and by the cause that
/// `err` names, and the message is what `err` displays.
pub open spec fn spec_surfaces(stage: Stage, err: c2pa::Error, e: ToolkitError) -> bool {
    &&& e@.kind == spec_kind_of(stage, spec_error_cause(err))
    &&& e@.url == spec_url_of(stage, spec_error_cause(err))
    &&& spec_displays(err, e.message)
}

/// Whether `e` is what some failure of the SDK becomes at `stage`.
pub open spec fn spec_sdk_failure(stage: Stage, e: ToolkitError) -> bool {
    exists|err: c2pa::Error| spec_surfaces(stage, err, e)
}

impl ToolkitError {
    /// Turns a failure of the SDK, met at `stage`, into the error that is
    /// surfaced for it.
    pub fn classify(stage: Stage, failure: Failure) -> (e: ToolkitError)
        ensures
            e@ == spec_classify(stage, failure),
            e.message == failure.message,
            e@.wf(),
    {
        let Failure { cause, message } = failure;
        match stage {
            Stage::Settings => ToolkitError { kind: ErrorKind::Configuration, message, url: None },
            Stage::Chain => ToolkitError { kind: ErrorKind::ChainContinuity, message, url: None },
            Stage::Container => match cause {
                Cause::ManifestNotFound => ToolkitError {
                    kind: ErrorKind::ManifestMissing,
                    message,
                    url: None,
                },
                Cause::RemoteManifest(url) => ToolkitError {
                    kind: ErrorKind::ManifestMissing,
                    message,
                    url: Some(url),
                },
                Cause::HashMismatch => ToolkitError {
                    kind: ErrorKind::ManifestAssetMismatch,
                    message,
                    url: None,
                },
                Cause::Other => ToolkitError {
                    kind: ErrorKind::ContainerFormat,
                    message,
                    url: None,
                },
            },
        }
    }

    /// The error for caller-supplied bytes that could not be taken as a byte
    /// buffer.
    pub fn input_decode(message: String) -> (e: ToolkitError)
        ensures
            e@ == (ErrorView { kind: ErrorKind::InputDecode, message: message@, url: None }),
            e@.wf(),
    {
        ToolkitError { kind: ErrorKind::InputDecode, message, url: None }
    }

    /// The error for a call that cannot run as it was configured.
    pub fn configuration(message: String) -> (e: ToolkitError)
        ensures
            e@ == (ErrorView { kind: ErrorKind::Configuration, message: message@, url: None }),
            e@.wf(),
    {
        ToolkitError { kind: ErrorKind::Configuration, message, url: None }
    }

    /// The error for a manifest that does not match the asset it was
    /// supplied with.
    pub fn mismatch(message: String) -> (e: ToolkitError)
        ensures
            e@ == (ErrorView {
                kind: ErrorKind::ManifestAssetMismatch,
                message: message@,
                url: None,
            }),
            e@.wf(),
    {
        ToolkitError { kind: ErrorKind::ManifestAssetMismatch, message, url: None }
    }

    /// The error for a report that could not be serialized.
    pub fn serialization(message: String) -> (e: ToolkitError)
        ensures
            e@ == (ErrorView { kind: ErrorKind::Serialization, message: message@, url: None }),
            e@.wf(),
    {
        ToolkitError { kind: ErrorKind::Serialization, message, url: None }
    }
}

/// Bytes that the SDK cannot read as a container end the call in a
/// container format error: an error of the SDK that names neither a missing
/// manifest store nor a hash mismatch is surfaced, where a container was
/// read, under that category and without a URL.
pub proof fn lemma_unreadable_container(err: c2pa::Error, e: ToolkitError)
    requires
        spec_error_cause(err) is Other,
        spec_surfaces(Stage::Container, err, e),
    ensures
        e@.kind == ErrorKind::ContainerFormat,
        e@.url is None,
        e@.wf(),
{
}

/// A container without a manifest store ends the call in a missing manifest
/// error, which is not the category of bytes that could not be read; where
/// the store lives elsewhere, the error carries its URL.
pub proof fn lemma_missing_store(err: c2pa::Error, e: ToolkitError)
    requires
        spec_error_cause(err) is ManifestNotFound || spec_error_cause(err) is RemoteManifest,
        spec_surfaces(Stage::Container, err, e),
    ensures
        e@.kind == ErrorKind::ManifestMissing,
        e@.kind != ErrorKind::ContainerFormat,
        spec_error_cause(err) matches Cause::RemoteManifest(url) ==> e@.url == Some(url@),
        spec_error_cause(err) is ManifestNotFound ==> e@.url is None,
        e@.wf(),
{
}

/// Whatever the SDK reports, at whatever stage, becomes an error that ends
/// the call: never a trust verification failure, which is recorded with its
/// assertion.
pub proof fn lemma_sdk_failures_end_the_call(stage: Stage, failure: Failure)
    ensures
        spec_classify(stage, failure).wf(),
        spec_classify(stage, failure).kind != ErrorKind::TrustVerification,
{
}

/// An error as it is handed to the caller: the tag of its category as its
/// name, its message, and the URL of a remote manifest store where there is
/// one.
#[derive(Clone, Debug, PartialEq, Eq)]
pub struct SurfacedError {
    pub name: String,
    pub message: String,
    pub url: Option<String>,
}

/// Names an error by the tag of its category, and keeps its message and URL.
pub fn as_js_error(err: ToolkitError) -> (s: SurfacedError)
    ensures
        s.name@ == err.kind.spec_tag(),
        s.message@ == err.message@,
        s.url == err.url,
{
    let ToolkitError { kind, message, url } = err;
    SurfacedError { name: kind.tag().to_owned(), message, url }
}

} // verus!
