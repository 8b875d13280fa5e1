//! What a delivered frame looks like to the detection logic.
//!
//! A captured frame itself is a foreign-owned handle, valid only inside the
//! callback that delivers it; nothing of it may be retained. What the
//! detection logic actually reads is what the capture collaborator reports
//! about the frame: a list of pre-classified metadata objects, the features a
//! feature-detection pass found in its image, or the observations a vision
//! request accumulated for it. Those reports are plain values, and [`Frame`]
//! carries exactly one of them, matching the backend the session was wired
//! for.

use vstd::prelude::*;

verus! {

/// The classification the capture collaborator attached to one metadata
/// object it decoded from a frame.
#[derive(Clone, Copy, PartialEq, Eq, Structural, Debug)]
pub enum MetadataKind {
    /// A machine-readable code of the family this scanner is configured for.
    QrCode,
    /// A machine-readable code of some other family.
    OtherCode,
    /// A metadata object that is not a machine-readable code at all.
    NonCode,
}

/// One pre-classified metadata object: the collaborator performed the optical
/// decode upstream and delivers the resolved payload with its kind.
#[derive(Debug)]
pub struct MetadataObject {
    pub kind: MetadataKind,
    pub payload: String,
}

/// One result of the feature-detection pass. The pass is configured at
/// construction for exactly one code family, so every feature it returns is
/// expected to carry that family's shape; a feature of any other shape means
/// the detector was wired to the wrong family.
#[derive(Debug)]
pub enum Feature {
    /// A feature of the configured code family, with its decoded message
    /// string if the collaborator resolved one.
    Qr { message: Option<String> },
    /// A feature that does not have the configured family's shape.
    Other,
}

/// One observation the vision request accumulated after executing on a frame,
/// with its decoded payload string if the observation exposes one.
#[derive(Debug)]
pub struct Observation {
    pub payload: Option<String>,
}

/// The vision request itself failed to execute on a frame.
#[derive(Clone, Copy, PartialEq, Eq, Structural, Debug)]
pub struct RequestFault;

/// One delivered frame, as the active backend observes it.
#[derive(Debug)]
pub enum Frame {
    /// The metadata objects the collaborator classified in this frame.
    Metadata { objects: Vec<MetadataObject> },
    /// The features the feature-detection pass found in this frame's image,
    /// or `None` if the frame exposed no image buffer to run the pass on.
    Image { features: Option<Vec<Feature>> },
    /// The observations the vision request holds after executing on this
    /// frame, or the report that the execution itself failed.
    Vision { observations: Result<Vec<Observation>, RequestFault> },
}

/// What one backend invocation produced for one frame: whether a code was
/// detected, and the decoded payload when one was.
#[derive(Debug)]
pub struct DetectionResult {
    pub found: bool,
    pub payload: Option<String>,
}

impl DetectionResult {
    /// A detection result is well formed when the flag and the payload agree:
    /// a payload is carried exactly on a detection.
    pub open spec fn wf(self) -> bool {
        self.found <==> self.payload is Some
    }

    /// The result seen abstractly: the decoded payload's characters, if any.
    pub open spec fn model(self) -> Option<Seq<char>> {
        match self.payload {
            Some(s) => Some(s@),
            None => None,
        }
    }
}

/// A frame that carries no decodable code and no fault: the collaborator
/// reports nothing at all for it. This is the expected steady state of a
/// scan that has not found its code yet.
pub open spec fn code_free(f: Frame) -> bool {
    match f {
        Frame::Metadata { objects } => objects@.len() == 0,
        Frame::Image { features } => features matches Some(fs) && fs@.len() == 0,
        Frame::Vision { observations } => observations matches Ok(obs) && obs@.len() == 0,
    }
}

} // verus!
