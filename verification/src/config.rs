//! Backend selection: exactly one of the three detection backends is chosen
//! at build or start time; selecting none, or more than one, is a
//! configuration error reported before the frame source ever starts.
//!
//! Because a pipeline can only be constructed from a [`Backend`], and a
//! [`Backend`] comes out of [`select_backend`] only on a valid selection, a
//! misconfigured process never reaches frame processing.

use vstd::prelude::*;

use crate::backend::Backend;
use crate::frame::MetadataKind;

verus! {

/// The start-time switches, one per backend variant, as the build or command
/// configuration presents them.
#[derive(Clone, Copy, PartialEq, Eq, Structural, Debug)]
pub struct BackendSelection {
    /// Use the metadata-stream classifier.
    pub metadata: bool,
    /// Use the image-feature detector.
    pub core_image: bool,
    /// Use the vision-request detector.
    pub vision: bool,
}

/// A selection that cannot drive the pipeline, detected before any frame
/// flows.
#[derive(Clone, Copy, PartialEq, Eq, Structural, Debug)]
pub enum ConfigError {
    /// No backend was selected.
    NoBackendSelected,
    /// More than one backend was selected at the same time.
    MultipleBackendsSelected,
}

impl ConfigError {
    /// The diagnostic reported before the frame source starts.
    pub fn describe(&self) -> (s: &'static str)
        ensures
            s@ == self.spec_describe(),
    {
        match self {
            ConfigError::NoBackendSelected => "one detection backend must be enabled",
            ConfigError::MultipleBackendsSelected => "only one detection backend can be enabled at a time",
        }
    }

    /// The text `describe` returns for each configuration error.
    pub open spec fn spec_describe(self) -> Seq<char> {
        match self {
            ConfigError::NoBackendSelected => "one detection backend must be enabled"@,
            ConfigError::MultipleBackendsSelected => "only one detection backend can be enabled at a time"@,
        }
    }
}

/// How many backends a selection switches on.
pub open spec fn selected_count(sel: BackendSelection) -> int {
    (if sel.metadata {
        1int
    } else {
        0int
    }) + (if sel.core_image {
        1int
    } else {
        0int
    }) + (if sel.vision {
        1int
    } else {
        0int
    })
}

/// The backend a valid selection names. Meaningful only when exactly one
/// switch is on.
pub open spec fn spec_chosen_backend(sel: BackendSelection, configured: MetadataKind) -> Backend {
    if sel.metadata {
        Backend::MetadataClassifier { configured }
    } else if sel.core_image {
        Backend::ImageFeatureDetector
    } else {
        Backend::VisionRequestDetector
    }
}

/// Validate the selection and construct the one active backend. Succeeds if
/// and only if exactly one backend is switched on; otherwise it fails fast
/// with the configuration error, before any frame source could start.
/// `configured` is the metadata kind the classifier variant filters for.
pub fn select_backend(sel: BackendSelection, configured: MetadataKind) -> (r: Result<
    Backend,
    ConfigError,
>)
    ensures
        r is Ok <==> selected_count(sel) == 1,
        r is Ok ==> (r matches Ok(b) && b == spec_chosen_backend(sel, configured)),
        selected_count(sel) == 0 ==> r == Err::<Backend, ConfigError>(ConfigError::NoBackendSelected),
        selected_count(sel) > 1 ==> r == Err::<Backend, ConfigError>(
            ConfigError::MultipleBackendsSelected,
        ),
{
    let picked: u8 = (if sel.metadata {
        1u8
    } else {
        0u8
    }) + (if sel.core_image {
        1u8
    } else {
        0u8
    }) + (if sel.vision {
        1u8
    } else {
        0u8
    });
    if picked == 0 {
        Err(ConfigError::NoBackendSelected)
    } else if picked > 1 {
        Err(ConfigError::MultipleBackendsSelected)
    } else if sel.metadata {
        Ok(Backend::MetadataClassifier { configured })
    } else if sel.core_image {
        Ok(Backend::ImageFeatureDetector)
    } else {
        Ok(Backend::VisionRequestDetector)
    }
}

} // verus!
