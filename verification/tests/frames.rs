use vicon_sys::rotation::{
    QuaternionBits, SegmentRotationEuler, SegmentRotationQuaternion, SegmentTranslation,
    Vector3Bits,
};
use vicon_sys::{
    FrameDecoder, OutputRotation, Progress, Reply, Request, RotationType, ViconError,
    ViconRotationType, ViconSdkStatus, ViconSubject,
};

const OK: i32 = 2;

fn bits(value: f64) -> u64 {
    value.to_bits()
}

/// What a stand-in for the tracking client knows of one subject.
#[derive(Clone)]
struct Body {
    name: Vec<u8>,
    name_result: i32,
    segments: u32,
    segments_result: i32,
    segment_name_result: i32,
    translation_mm: [f64; 3],
    translation_result: i32,
    translation_occluded: i32,
    euler: [f64; 3],
    quaternion_xyzw: [f64; 4],
    rotation_result: i32,
    rotation_occluded: i32,
}

fn body(name: &str) -> Body {
    Body {
        name: name.as_bytes().to_vec(),
        name_result: OK,
        segments: 1,
        segments_result: OK,
        segment_name_result: OK,
        translation_mm: [0.0, 0.0, 0.0],
        translation_result: OK,
        translation_occluded: 0,
        euler: [0.0, 0.0, 0.0],
        quaternion_xyzw: [0.0, 0.0, 0.0, 1.0],
        rotation_result: OK,
        rotation_occluded: 0,
    }
}

/// A stand-in for the tracking client: it answers each query from what it
/// knows and keeps the queries that it was asked.
struct Server {
    frame_result: i32,
    count_result: i32,
    subjects: Vec<Body>,
    asked: Vec<Request>,
}

fn server(subjects: Vec<Body>) -> Server {
    Server { frame_result: OK, count_result: OK, subjects, asked: Vec::new() }
}

fn padded(name: &[u8], capacity: usize) -> Vec<u8> {
    let mut buffer = vec![0u8; capacity];
    buffer[..name.len()].copy_from_slice(name);
    buffer
}

impl Server {
    fn find(&self, subject: &[u8]) -> &Body {
        self.subjects.iter().find(|t| t.name == subject).expect("a subject that was named")
    }

    fn answer(&mut self, request: &Request) -> Reply {
        self.asked.push(request.clone());
        match request {
            Request::GetFrame => Reply::Status { result: self.frame_result },
            Request::GetSubjectCount => {
                Reply::Count { result: self.count_result, count: self.subjects.len() as u32 }
            }
            Request::GetSubjectName { index, capacity } => {
                let subject = &self.subjects[*index as usize];
                Reply::Name { result: subject.name_result, buffer: padded(&subject.name, *capacity) }
            }
            Request::GetSegmentCount { subject } => {
                let subject = self.find(subject);
                Reply::Count { result: subject.segments_result, count: subject.segments }
            }
            Request::GetSegmentName { subject, index, capacity } => {
                assert_eq!(*index, 0);
                let subject = self.find(subject);
                Reply::Name {
                    result: subject.segment_name_result,
                    buffer: padded(b"root", *capacity),
                }
            }
            Request::GetSegmentGlobalTranslation { subject, segment } => {
                assert_eq!(segment, &b"root".to_vec());
                let subject = self.find(subject);
                Reply::Translation(SegmentTranslation {
                    result: subject.translation_result,
                    translation: subject.translation_mm.map(bits),
                    occluded: subject.translation_occluded,
                })
            }
            Request::GetSegmentGlobalRotationEulerXYZ { subject, segment } => {
                assert_eq!(segment, &b"root".to_vec());
                let subject = self.find(subject);
                Reply::Rotation(ViconRotationType::Euler(SegmentRotationEuler {
                    result: subject.rotation_result,
                    rotation: subject.euler.map(bits),
                    occluded: subject.rotation_occluded,
                }))
            }
            Request::GetSegmentGlobalRotationQuaternion { subject, segment } => {
                assert_eq!(segment, &b"root".to_vec());
                let subject = self.find(subject);
                Reply::Rotation(ViconRotationType::Quaternion(SegmentRotationQuaternion {
                    result: subject.rotation_result,
                    rotation: subject.quaternion_xyzw.map(bits),
                    occluded: subject.rotation_occluded,
                }))
            }
        }
    }

    fn poll(&mut self, rotation: OutputRotation) -> Result<Vec<ViconSubject>, ViconError> {
        let mut decoder = FrameDecoder::start(rotation);
        loop {
            let reply = self.answer(decoder.request());
            match decoder.advance(reply) {
                Progress::Pending(next) => decoder = next,
                Progress::Done(outcome) => return outcome,
            }
        }
    }
}

fn names(subjects: &[ViconSubject]) -> Vec<&str> {
    subjects.iter().map(|s| s.name.as_str()).collect()
}

fn sdk(source: ViconSdkStatus) -> ViconError {
    ViconError::SdkError { source }
}

#[test]
fn one_clear_subject_and_one_without_segments() {
    let mut a = body("A");
    a.translation_mm = [1000.0, 2000.0, 3000.0];
    a.quaternion_xyzw = [0.0, 0.0, 0.0, 1.0];
    let mut b = body("B");
    b.segments = 0;
    let subjects = server(vec![a, b]).poll(OutputRotation::Quaternion).unwrap();
    assert_eq!(subjects.len(), 1);
    let subject = &subjects[0];
    assert_eq!(subject.name, "A");
    assert_eq!(f64::from_bits(subject.origin_mm.x) / 1000.0, 1.0);
    assert_eq!(f64::from_bits(subject.origin_mm.y) / 1000.0, 2.0);
    assert_eq!(f64::from_bits(subject.origin_mm.z) / 1000.0, 3.0);
    assert_eq!(
        subject.rotation,
        RotationType::Quaternion(QuaternionBits {
            w: bits(1.0),
            i: bits(0.0),
            j: bits(0.0),
            k: bits(0.0),
        })
    );
}

#[test]
fn the_position_is_reported_as_delivered() {
    let mut a = body("A");
    a.translation_mm = [1000.0, -2000.5, 0.125];
    let subjects = server(vec![a]).poll(OutputRotation::Euler).unwrap();
    assert_eq!(
        subjects[0].origin_mm,
        Vector3Bits { x: bits(1000.0), y: bits(-2000.5), z: bits(0.125) }
    );
}

#[test]
fn the_queries_of_a_clear_subject_come_in_order() {
    let mut server = server(vec![body("A")]);
    server.poll(OutputRotation::Quaternion).unwrap();
    let a = b"A".to_vec();
    let root = b"root".to_vec();
    assert_eq!(
        server.asked,
        vec![
            Request::GetFrame,
            Request::GetSubjectCount,
            Request::GetSubjectName { index: 0, capacity: 1024 },
            Request::GetSegmentCount { subject: a.clone() },
            Request::GetSegmentName { subject: a.clone(), index: 0, capacity: 1024 },
            Request::GetSegmentGlobalTranslation { subject: a.clone(), segment: root.clone() },
            Request::GetSegmentGlobalRotationQuaternion { subject: a, segment: root },
        ]
    );
}

#[test]
fn the_rotation_query_matches_the_representation_asked_for() {
    let mut server = server(vec![body("A")]);
    server.poll(OutputRotation::Euler).unwrap();
    assert!(matches!(server.asked.last(), Some(Request::GetSegmentGlobalRotationEulerXYZ { .. })));
    assert!(!server
        .asked
        .iter()
        .any(|r| matches!(r, Request::GetSegmentGlobalRotationQuaternion { .. })));
}

#[test]
fn euler_angles_are_reported_when_asked_for() {
    let mut a = body("A");
    a.euler = [0.5, -0.25, 1.5];
    a.quaternion_xyzw = [9.0, 9.0, 9.0, 9.0];
    let subjects = server(vec![a]).poll(OutputRotation::Euler).unwrap();
    assert_eq!(
        subjects[0].rotation,
        RotationType::Euler(Vector3Bits { x: bits(0.5), y: bits(-0.25), z: bits(1.5) })
    );
}

#[test]
fn a_subject_without_segments_is_absent() {
    let mut a = body("A");
    a.segments = 0;
    let mut server = server(vec![a]);
    assert_eq!(server.poll(OutputRotation::Quaternion), Ok(Vec::new()));
    assert_eq!(server.asked.len(), 4);
}

#[test]
fn a_subject_with_occluded_position_is_absent() {
    let mut a = body("A");
    a.translation_occluded = 1;
    let mut server = server(vec![a, body("B")]);
    let subjects = server.poll(OutputRotation::Quaternion).unwrap();
    assert_eq!(names(&subjects), vec!["B"]);
    let asked_rotation_of_a = server.asked.iter().any(|r| {
        matches!(r, Request::GetSegmentGlobalRotationQuaternion { subject, .. } if subject == b"A")
    });
    assert!(!asked_rotation_of_a);
}

#[test]
fn a_subject_with_occluded_rotation_is_absent() {
    let mut a = body("A");
    a.rotation_occluded = 1;
    let subjects = server(vec![body("B"), a]).poll(OutputRotation::Quaternion).unwrap();
    assert_eq!(names(&subjects), vec!["B"]);
}

#[test]
fn any_nonzero_marker_counts_as_occluded() {
    for marker in [1, -1, 2, i32::MIN, i32::MAX] {
        let mut a = body("A");
        a.translation_occluded = marker;
        assert_eq!(server(vec![a]).poll(OutputRotation::Euler), Ok(Vec::new()));
        let mut b = body("B");
        b.rotation_occluded = marker;
        assert_eq!(server(vec![b]).poll(OutputRotation::Euler), Ok(Vec::new()));
    }
}

#[test]
fn subjects_come_in_the_order_of_the_server() {
    let mut skipped = body("m");
    skipped.segments = 0;
    let all = vec![body("z"), body("a"), skipped, body("q"), body("b")];
    let subjects = server(all).poll(OutputRotation::Euler).unwrap();
    assert_eq!(names(&subjects), vec!["z", "a", "q", "b"]);
}

#[test]
fn a_frame_without_subjects_is_empty() {
    let mut server = server(Vec::new());
    assert_eq!(server.poll(OutputRotation::Euler), Ok(Vec::new()));
    assert_eq!(server.asked, vec![Request::GetFrame, Request::GetSubjectCount]);
}

#[test]
fn a_frame_that_cannot_be_pulled_fails_the_poll() {
    let mut server = server(vec![body("A")]);
    server.frame_result = 10;
    assert_eq!(server.poll(OutputRotation::Euler), Err(sdk(ViconSdkStatus::NoDataFrame)));
    assert_eq!(server.asked, vec![Request::GetFrame]);
}

#[test]
fn a_failed_subject_count_fails_the_poll() {
    let mut server = server(vec![body("A")]);
    server.count_result = 9;
    assert_eq!(server.poll(OutputRotation::Euler), Err(sdk(ViconSdkStatus::NotConnected)));
}

#[test]
fn a_failure_at_any_query_of_a_subject_fails_the_poll_without_subjects() {
    let mut bad_name = body("B");
    bad_name.name_result = 11;
    let mut bad_count = body("B");
    bad_count.segments_result = 13;
    let mut bad_segment = body("B");
    bad_segment.segment_name_result = 14;
    let mut bad_position = body("B");
    bad_position.translation_result = 24;
    let mut bad_rotation = body("B");
    bad_rotation.rotation_result = 0;
    let cases = vec![
        (bad_name, ViconSdkStatus::InvalidIndex),
        (bad_count, ViconSdkStatus::InvalidSubjectName),
        (bad_segment, ViconSdkStatus::InvalidSegmentName),
        (bad_position, ViconSdkStatus::InvalidOperation),
        (bad_rotation, ViconSdkStatus::Unknown { code: 0 }),
    ];
    for (bad, status) in cases {
        let all = vec![body("A"), bad, body("C")];
        for rotation in [OutputRotation::Euler, OutputRotation::Quaternion] {
            assert_eq!(server(all.clone()).poll(rotation), Err(sdk(status)));
        }
    }
}

#[test]
fn a_failed_status_counts_before_the_marker() {
    let mut a = body("A");
    a.translation_result = 10;
    a.translation_occluded = 1;
    assert_eq!(server(vec![a]).poll(OutputRotation::Euler), Err(sdk(ViconSdkStatus::NoDataFrame)));
    let mut b = body("B");
    b.rotation_result = 10;
    b.rotation_occluded = 1;
    assert_eq!(server(vec![b]).poll(OutputRotation::Euler), Err(sdk(ViconSdkStatus::NoDataFrame)));
}

#[test]
fn the_segment_name_of_a_subject_without_segments_is_not_asked_for() {
    let mut a = body("A");
    a.segments = 0;
    a.segment_name_result = 14;
    a.translation_result = 14;
    a.rotation_result = 14;
    assert_eq!(server(vec![a]).poll(OutputRotation::Euler), Ok(Vec::new()));
}

#[test]
fn only_the_first_segment_is_examined() {
    let mut a = body("A");
    a.segments = 5;
    let mut server = server(vec![a]);
    assert_eq!(server.poll(OutputRotation::Euler).unwrap().len(), 1);
    assert_eq!(server.asked.len(), 7);
}

#[test]
fn names_are_read_without_their_padding() {
    let decoder = FrameDecoder::start(OutputRotation::Euler);
    let decoder = pending(decoder.advance(Reply::Status { result: OK }));
    let decoder = pending(decoder.advance(Reply::Count { result: OK, count: 1 }));
    let buffer = vec![b'r', b'i', b'g', 0, 0, b'1', 0, 0];
    let decoder = pending(decoder.advance(Reply::Name { result: OK, buffer }));
    assert_eq!(decoder.request(), &Request::GetSegmentCount { subject: b"rig1".to_vec() });
}

fn pending(progress: Progress) -> FrameDecoder {
    match progress {
        Progress::Pending(decoder) => decoder,
        Progress::Done(outcome) => panic!("the poll is over: {:?}", outcome),
    }
}

fn done(progress: Progress) -> Result<Vec<ViconSubject>, ViconError> {
    match progress {
        Progress::Done(outcome) => outcome,
        Progress::Pending(decoder) => panic!("the poll goes on: {:?}", decoder),
    }
}

#[test]
fn a_poll_starts_by_pulling_a_frame() {
    let decoder = FrameDecoder::start(OutputRotation::Quaternion);
    assert_eq!(decoder.request(), &Request::GetFrame);
    assert_eq!(decoder.index(), 0);
}

#[test]
fn an_answer_of_the_wrong_kind_fails_the_poll() {
    let decoder = FrameDecoder::start(OutputRotation::Euler);
    let outcome = done(decoder.advance(Reply::Count { result: OK, count: 3 }));
    assert_eq!(
        outcome,
        Err(ViconError::OtherError {
            message: "the reply does not answer the pending request".to_string()
        })
    );
}

#[test]
fn a_rotation_of_the_other_representation_fails_the_poll() {
    let decoder = FrameDecoder::start(OutputRotation::Euler);
    let decoder = pending(decoder.advance(Reply::Status { result: OK }));
    let decoder = pending(decoder.advance(Reply::Count { result: OK, count: 1 }));
    let decoder = pending(decoder.advance(Reply::Name { result: OK, buffer: b"A\0".to_vec() }));
    let decoder = pending(decoder.advance(Reply::Count { result: OK, count: 1 }));
    let decoder = pending(decoder.advance(Reply::Name { result: OK, buffer: b"s\0".to_vec() }));
    let decoder = pending(decoder.advance(Reply::Translation(SegmentTranslation {
        result: OK,
        translation: [0, 0, 0],
        occluded: 0,
    })));
    let outcome = done(decoder.advance(Reply::Rotation(ViconRotationType::Quaternion(
        SegmentRotationQuaternion { result: OK, rotation: [0, 0, 0, bits(1.0)], occluded: 0 },
    ))));
    assert!(matches!(outcome, Err(ViconError::OtherError { .. })));
}

#[test]
fn a_reported_subject_with_a_name_that_is_no_text_fails_the_poll() {
    let mut a = body("A");
    a.name = vec![0xff, 0xfe];
    assert_eq!(
        server(vec![a]).poll(OutputRotation::Euler),
        Err(ViconError::OtherError { message: "the subject name is not valid UTF-8".to_string() })
    );
}

#[test]
fn a_passed_over_subject_may_have_any_name() {
    let mut a = body("A");
    a.name = vec![0xff, 0xfe];
    a.segments = 0;
    let subjects = server(vec![a, body("B")]).poll(OutputRotation::Euler).unwrap();
    assert_eq!(names(&subjects), vec!["B"]);
}

#[test]
fn every_poll_gives_a_fresh_list() {
    let mut server = server(vec![body("A"), body("B")]);
    let first = server.poll(OutputRotation::Euler).unwrap();
    let second = server.poll(OutputRotation::Euler).unwrap();
    assert_eq!(first, second);
    assert_eq!(first.len(), 2);
}

#[test]
fn from_vicon_frame_takes_the_payloads_over() {
    let made = ViconSubject::from_vicon_frame(
        "mob_6".to_string(),
        SegmentTranslation {
            result: OK,
            translation: [bits(10.0), bits(20.0), bits(30.0)],
            occluded: 0,
        },
        ViconRotationType::Quaternion(SegmentRotationQuaternion {
            result: OK,
            rotation: [bits(0.5), bits(-0.5), bits(0.25), bits(0.75)],
            occluded: 0,
        }),
    );
    assert_eq!(
        made,
        Ok(ViconSubject {
            name: "mob_6".to_string(),
            origin_mm: Vector3Bits { x: bits(10.0), y: bits(20.0), z: bits(30.0) },
            rotation: RotationType::Quaternion(QuaternionBits {
                w: bits(0.75),
                i: bits(0.5),
                j: bits(-0.5),
                k: bits(0.25),
            }),
        })
    );
}
