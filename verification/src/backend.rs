//! The three interchangeable detection backends and their shared outcome.
//!
//! A backend consumes what the capture collaborator reports for one frame and
//! produces zero or one decoded payload, or a fatal fault. Exactly one
//! backend is chosen at start and fixed for the life of the process; the
//! choice is transparent to the final output ([`lemma_backend_transparent`]).

use vstd::prelude::*;
use vstd::pervasive::unreached;

use crate::frame::DetectionResult;
use crate::frame::Feature;
use crate::frame::Frame;
use crate::frame::MetadataKind;
use crate::frame::MetadataObject;
use crate::frame::Observation;
use crate::frame::RequestFault;

verus! {

/// A fault that ends the whole pipeline: none of these is retried, each is
/// reported with a diagnostic and a nonzero exit.
#[derive(Clone, Copy, PartialEq, Eq, Structural, Debug)]
pub enum FatalError {
    /// A delivered frame exposed no image buffer to run the detector on.
    ImageBufferMissing,
    /// A feature did not have the shape of the code family the detector was
    /// configured for: the detector was wired to the wrong family.
    UnexpectedFeatureKind,
    /// A feature of the configured family lacked its decoded message string.
    MessageStringMissing,
    /// The vision request failed to execute on a frame.
    RequestFailed,
}

impl FatalError {
    /// The diagnostic naming which expectation failed, for the error report
    /// that accompanies the nonzero exit.
    pub fn describe(&self) -> (s: &'static str)
        ensures
            s@ == self.spec_describe(),
    {
        match self {
            FatalError::ImageBufferMissing => "Should get image buffer from sample buffer",
            FatalError::UnexpectedFeatureKind => "Should be a QR code feature",
            FatalError::MessageStringMissing => "Should have message string",
            FatalError::RequestFailed => "Image requests should perform",
        }
    }

    /// The text `describe` returns for each fault.
    pub open spec fn spec_describe(self) -> Seq<char> {
        match self {
            FatalError::ImageBufferMissing => "Should get image buffer from sample buffer"@,
            FatalError::UnexpectedFeatureKind => "Should be a QR code feature"@,
            FatalError::MessageStringMissing => "Should have message string"@,
            FatalError::RequestFailed => "Image requests should perform"@,
        }
    }
}

/// The active detection backend: a sum over the three variants, chosen once
/// at construction and never re-selected.
#[derive(Clone, Copy, PartialEq, Eq, Structural, Debug)]
pub enum Backend {
    /// Consumes pre-classified metadata objects and filters them for one
    /// configured kind; the collaborator performed the optical decode.
    MetadataClassifier { configured: MetadataKind },
    /// Consumes the features a feature-detection pass, configured for one
    /// code family, found in the frame's image.
    ImageFeatureDetector,
    /// Consumes the observations a stateful barcode-detection request holds
    /// after executing on the frame.
    VisionRequestDetector,
}

/// The payload of the first metadata object of the configured kind, scanning
/// in the collaborator's delivery order; `None` when no object matches.
pub open spec fn spec_classify(configured: MetadataKind, objects: Seq<MetadataObject>) -> Option<
    Seq<char>,
>
    decreases objects.len(),
{
    if objects.len() == 0 {
        None
    } else if objects[0].kind == configured {
        Some(objects[0].payload@)
    } else {
        spec_classify(configured, objects.drop_first())
    }
}

/// What the image-feature backend decides from the feature pass's report:
/// only the first feature is consumed; a missing image buffer, a feature of
/// the wrong shape, or a feature without its message string is fatal.
pub open spec fn spec_detect_features(features: Option<Vec<Feature>>) -> Result<
    Option<Seq<char>>,
    FatalError,
> {
    match features {
        None => Err(FatalError::ImageBufferMissing),
        Some(fs) => if fs@.len() == 0 {
            Ok(None)
        } else {
            match fs@[0] {
                Feature::Qr { message } => match message {
                    Some(m) => Ok(Some(m@)),
                    None => Err(FatalError::MessageStringMissing),
                },
                Feature::Other => Err(FatalError::UnexpectedFeatureKind),
            }
        },
    }
}

/// The payload of the first observation that exposes one, scanning in the
/// request's result order; `None` when no observation carries a payload.
pub open spec fn spec_scan_observations(observations: Seq<Observation>) -> Option<Seq<char>>
    decreases observations.len(),
{
    if observations.len() == 0 {
        None
    } else {
        match observations[0].payload {
            Some(m) => Some(m@),
            None => spec_scan_observations(observations.drop_first()),
        }
    }
}

/// What the vision backend decides from the request's outcome: a failed
/// execution is fatal; zero observations is simply no detection this frame.
pub open spec fn spec_detect_observations(
    observations: Result<Vec<Observation>, RequestFault>,
) -> Result<Option<Seq<char>>, FatalError> {
    match observations {
        Err(_) => Err(FatalError::RequestFailed),
        Ok(obs) => Ok(spec_scan_observations(obs@)),
    }
}

impl Backend {
    /// Whether a frame carries the kind of report this backend consumes. The
    /// capture graph is wired for exactly one output format, so the frames a
    /// session delivers always match its backend.
    pub open spec fn accepts(self, frame: Frame) -> bool {
        match (self, frame) {
            (Backend::MetadataClassifier { .. }, Frame::Metadata { .. }) => true,
            (Backend::ImageFeatureDetector, Frame::Image { .. }) => true,
            (Backend::VisionRequestDetector, Frame::Vision { .. }) => true,
            _ => false,
        }
    }

    /// What this backend decides for one frame: `Ok(None)` for no detection,
    /// `Ok(Some(p))` for a decoded payload, `Err` for a fatal fault.
    pub open spec fn spec_process(self, frame: Frame) -> Result<Option<Seq<char>>, FatalError>
        recommends
            self.accepts(frame),
    {
        match (self, frame) {
            (Backend::MetadataClassifier { configured }, Frame::Metadata { objects }) => Ok(
                spec_classify(configured, objects@),
            ),
            (Backend::ImageFeatureDetector, Frame::Image { features }) => spec_detect_features(
                features,
            ),
            (Backend::VisionRequestDetector, Frame::Vision { observations }) =>
                spec_detect_observations(observations),
            _ => Ok(None),
        }
    }

    /// Run this backend on one frame's report.
    pub fn process(&self, frame: &Frame) -> (r: Result<DetectionResult, FatalError>)
        requires
            self.accepts(*frame),
        ensures
            match self.spec_process(*frame) {
                Ok(m) => r matches Ok(d) && d.wf() && d.model() == m,
                Err(e) => r == Err::<DetectionResult, FatalError>(e),
            },
    {
        match self {
            Backend::MetadataClassifier { configured } => match frame {
                Frame::Metadata { objects } => Ok(classify_metadata(*configured, objects)),
                _ => unreached(),
            },
            Backend::ImageFeatureDetector => match frame {
                Frame::Image { features } => detect_in_features(features),
                _ => unreached(),
            },
            Backend::VisionRequestDetector => match frame {
                Frame::Vision { observations } => scan_observations(observations),
                _ => unreached(),
            },
        }
    }
}

/// The metadata-classifier variant: scan the pre-classified objects in
/// delivery order and report the first one of the configured kind. The
/// collaborator already resolved the payload, so the match's payload is
/// surfaced with the detection and backend choice stays transparent to the
/// final output.
pub fn classify_metadata(configured: MetadataKind, objects: &Vec<MetadataObject>) -> (r:
    DetectionResult)
    ensures
        r.wf(),
        r.model() == spec_classify(configured, objects@),
{
    proof {
        assert(objects@.skip(0) =~= objects@);
    }
    let mut i: usize = 0;
    while i < objects.len()
        invariant
            0 <= i <= objects@.len(),
            spec_classify(configured, objects@) == spec_classify(
                configured,
                objects@.skip(i as int),
            ),
        decreases objects@.len() - i,
    {
        if objects[i].kind == configured {
            proof {
                assert(objects@.skip(i as int)[0] == objects@[i as int]);
                assert(spec_classify(configured, objects@.skip(i as int)) == Some(
                    objects@[i as int].payload@,
                ));
            }
            return DetectionResult { found: true, payload: Some(objects[i].payload.clone()) };
        }
        proof {
            assert(objects@.skip(i as int).drop_first() =~= objects@.skip(i as int + 1));
        }
        i = i + 1;
    }
    DetectionResult { found: false, payload: None }
}

/// The image-feature variant: consume the first feature the pass found. A
/// frame without an image buffer, a feature that is not of the configured
/// family, or a feature without its message string is a configuration
/// invariant violation and fatal.
pub fn detect_in_features(features: &Option<Vec<Feature>>) -> (r: Result<
    DetectionResult,
    FatalError,
>)
    ensures
        match spec_detect_features(*features) {
            Ok(m) => r matches Ok(d) && d.wf() && d.model() == m,
            Err(e) => r == Err::<DetectionResult, FatalError>(e),
        },
{
    match features {
        None => Err(FatalError::ImageBufferMissing),
        Some(fs) => {
            if fs.len() == 0 {
                Ok(DetectionResult { found: false, payload: None })
            } else {
                match &fs[0] {
                    Feature::Qr { message } => match message {
                        Some(m) => Ok(
                            DetectionResult { found: true, payload: Some(m.clone()) },
                        ),
                        None => Err(FatalError::MessageStringMissing),
                    },
                    Feature::Other => Err(FatalError::UnexpectedFeatureKind),
                }
            }
        },
    }
}

/// The vision-request variant: a failed execution is fatal; otherwise scan
/// the accumulated observations in order for the first decoded payload.
pub fn scan_observations(observations: &Result<Vec<Observation>, RequestFault>) -> (r: Result<
    DetectionResult,
    FatalError,
>)
    ensures
        match spec_detect_observations(*observations) {
            Ok(m) => r matches Ok(d) && d.wf() && d.model() == m,
            Err(e) => r == Err::<DetectionResult, FatalError>(e),
        },
{
    match observations {
        Err(_) => Err(FatalError::RequestFailed),
        Ok(obs) => {
            proof {
                assert(obs@.skip(0) =~= obs@);
            }
            let mut i: usize = 0;
            while i < obs.len()
                invariant
                    0 <= i <= obs@.len(),
                    *observations == Ok::<Vec<Observation>, RequestFault>(*obs),
                    spec_scan_observations(obs@) == spec_scan_observations(obs@.skip(i as int)),
                decreases obs@.len() - i,
            {
                match &obs[i].payload {
                    Some(m) => {
                        proof {
                            assert(obs@.skip(i as int)[0] == obs@[i as int]);
                            assert(spec_scan_observations(obs@.skip(i as int)) == Some(m@));
                        }
                        return Ok(DetectionResult { found: true, payload: Some(m.clone()) });
                    },
                    None => {
                        proof {
                            assert(obs@.skip(i as int)[0] == obs@[i as int]);
                            assert(obs@.skip(i as int).drop_first() =~= obs@.skip(i as int + 1));
                        }
                        i = i + 1;
                    },
                }
            }
            Ok(DetectionResult { found: false, payload: None })
        },
    }
}

/// A frame that unambiguously encodes exactly the payload `p` for the given
/// backend: the collaborator reports a single code, of the configured kind,
/// with `p` resolved as its content.
pub open spec fn encodes_exactly(frame: Frame, backend: Backend, p: Seq<char>) -> bool {
    match frame {
        Frame::Metadata { objects } => {
            &&& backend matches Backend::MetadataClassifier { configured }
            &&& objects@.len() == 1
            &&& objects@[0].kind == configured
            &&& objects@[0].payload@ == p
        },
        Frame::Image { features } => {
            &&& backend is ImageFeatureDetector
            &&& features matches Some(fs)
            &&& fs@.len() == 1
            &&& fs@[0] matches Feature::Qr { message }
            &&& message matches Some(m)
            &&& m@ == p
        },
        Frame::Vision { observations } => {
            &&& backend is VisionRequestDetector
            &&& observations matches Ok(obs)
            &&& obs@.len() == 1
            &&& obs@[0].payload matches Some(m)
            &&& m@ == p
        },
    }
}

/// Backend choice is transparent to the final output: a frame that
/// unambiguously encodes one payload yields exactly that payload, whichever
/// of the three variants consumes it.
pub proof fn lemma_backend_transparent(backend: Backend, frame: Frame, p: Seq<char>)
    requires
        encodes_exactly(frame, backend, p),
    ensures
        backend.accepts(frame),
        backend.spec_process(frame) == Ok::<Option<Seq<char>>, FatalError>(Some(p)),
{
}

} // verus!
