use qrscan::frame::Feature;
use qrscan::frame::MetadataKind;
use qrscan::frame::MetadataObject;
use qrscan::frame::Observation;
use qrscan::frame::RequestFault;
use qrscan::pipeline::QueueEvent;
use qrscan::utils::position_to_str;
use qrscan::Backend;
use qrscan::FatalError;
use qrscan::Frame;
use qrscan::FrameCounter;
use qrscan::Pipeline;
use qrscan::RunOutcome;
use qrscan::Step;

fn blank_metadata_frame() -> Frame {
    Frame::Metadata { objects: vec![] }
}

fn hello_metadata_frame() -> Frame {
    Frame::Metadata {
        objects: vec![MetadataObject {
            kind: MetadataKind::QrCode,
            payload: String::from("HELLO"),
        }],
    }
}

fn running_metadata_pipeline() -> Pipeline {
    let mut p = Pipeline::new(Backend::MetadataClassifier { configured: MetadataKind::QrCode });
    p.start();
    p
}

#[test]
fn counter_starts_at_zero_and_increments() {
    let mut c = FrameCounter::new();
    assert_eq!(c.get(), 0);
    c.increment();
    c.increment();
    assert_eq!(c.get(), 2);
}

#[test]
fn code_free_frames_count_up_and_yield_no_payload() {
    let frames: Vec<Frame> = (0..7).map(|_| blank_metadata_frame()).collect();
    let mut p = running_metadata_pipeline();
    let (outcome, trace) = p.run(&frames);
    assert!(matches!(outcome, RunOutcome::Exhausted));
    assert_eq!(p.frames_counted(), 7);
    assert_eq!(trace.len(), 14);
}

#[test]
fn first_code_frame_stops_the_run() {
    let frames = vec![
        blank_metadata_frame(),
        blank_metadata_frame(),
        hello_metadata_frame(),
        hello_metadata_frame(),
        blank_metadata_frame(),
    ];
    let mut p = running_metadata_pipeline();
    let (outcome, trace) = p.run(&frames);
    match outcome {
        RunOutcome::Found { payload } => assert_eq!(payload, "HELLO"),
        other => panic!("expected a detection, got {:?}", other),
    }
    // the found frame itself is not counted; the two before it are
    assert_eq!(p.frames_counted(), 2);
    // frames 0, 1 and 2 were processed; nothing after the match was touched
    assert_eq!(trace.len(), 6);
    for event in &trace {
        let index = match event {
            QueueEvent::Enter { index } => *index,
            QueueEvent::Exit { index } => *index,
        };
        assert!(index <= 2);
    }
}

#[test]
fn trace_shows_serial_in_order_processing() {
    let frames: Vec<Frame> = (0..5).map(|_| blank_metadata_frame()).collect();
    let mut p = running_metadata_pipeline();
    let (_, trace) = p.run(&frames);
    // every begin is immediately followed by its own end: no two frames overlap
    assert_eq!(trace.len(), 10);
    let mut expected_index = 0;
    let mut entered: Option<usize> = None;
    for event in &trace {
        match event {
            QueueEvent::Enter { index } => {
                assert!(entered.is_none(), "frame {} began while {:?} was in flight", index, entered);
                assert_eq!(*index, expected_index, "frames must begin in arrival order");
                entered = Some(*index);
            }
            QueueEvent::Exit { index } => {
                assert_eq!(entered, Some(*index), "a frame must end before the next begins");
                entered = None;
                expected_index += 1;
            }
        }
    }
    assert!(entered.is_none());
}

#[test]
fn fatal_frame_ends_the_run_with_its_error() {
    let frames = vec![
        Frame::Image { features: Some(vec![]) },
        Frame::Image { features: Some(vec![Feature::Qr { message: None }]) },
        Frame::Image { features: Some(vec![Feature::Qr { message: Some(String::from("X")) }]) },
    ];
    let mut p = Pipeline::new(Backend::ImageFeatureDetector);
    p.start();
    let (outcome, trace) = p.run(&frames);
    assert!(matches!(
        outcome,
        RunOutcome::Fatal { error: FatalError::MessageStringMissing }
    ));
    assert_eq!(p.frames_counted(), 1);
    assert_eq!(trace.len(), 4);
}

#[test]
fn bounded_run_ends_clean_after_its_budget() {
    let frames: Vec<Frame> = (0..9).map(|_| blank_metadata_frame()).collect();
    let mut p = running_metadata_pipeline();
    let (outcome, trace) = p.run_bounded(&frames, 4);
    assert!(matches!(outcome, RunOutcome::Exhausted));
    assert_eq!(p.frames_counted(), 4);
    assert_eq!(trace.len(), 8);
}

#[test]
fn bounded_run_still_reports_a_code_within_budget() {
    let frames = vec![blank_metadata_frame(), hello_metadata_frame(), blank_metadata_frame()];
    let mut p = running_metadata_pipeline();
    let (outcome, _) = p.run_bounded(&frames, 2);
    match outcome {
        RunOutcome::Found { payload } => assert_eq!(payload, "HELLO"),
        other => panic!("expected a detection, got {:?}", other),
    }
}

#[test]
fn deliver_continue_counts_and_found_does_not() {
    let mut p = running_metadata_pipeline();
    let s1 = p.deliver(&blank_metadata_frame());
    assert!(matches!(s1, Step::Continue));
    assert_eq!(p.frames_counted(), 1);
    let s2 = p.deliver(&hello_metadata_frame());
    match s2 {
        Step::Found { payload } => assert_eq!(payload, "HELLO"),
        other => panic!("expected a detection, got {:?}", other),
    }
    assert_eq!(p.frames_counted(), 1);
}

#[test]
fn deliver_vision_frames() {
    let mut p = Pipeline::new(Backend::VisionRequestDetector);
    p.start();
    let s1 = p.deliver(&Frame::Vision { observations: Ok(vec![Observation { payload: None }]) });
    assert!(matches!(s1, Step::Continue));
    let s2 = p.deliver(&Frame::Vision { observations: Err(RequestFault) });
    assert!(matches!(s2, Step::Fatal { error: FatalError::RequestFailed }));
}

#[test]
fn device_position_names() {
    assert_eq!(position_to_str(0), "Unspecified");
    assert_eq!(position_to_str(1), "Back");
    assert_eq!(position_to_str(2), "Front");
    assert_eq!(position_to_str(3), "Invalid");
    assert_eq!(position_to_str(-1), "Invalid");
}
