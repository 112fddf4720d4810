use vicon_sys::rotation::{
    QuaternionBits, SegmentRotationEuler, SegmentRotationQuaternion, SegmentTranslation,
    Vector3Bits,
};
use vicon_sys::{
    FrameAnswers, HasViconHardware, MockVicon, OutputRotation, RotationType, SubjectAnswers,
    ViconError, ViconSdkStatus, ViconSubject,
};

fn bits(value: f64) -> u64 {
    value.to_bits()
}

fn padded(name: &str) -> Vec<u8> {
    let mut buffer = vec![0u8; 1024];
    buffer[..name.len()].copy_from_slice(name.as_bytes());
    buffer
}

fn clear(name: &str) -> SubjectAnswers {
    SubjectAnswers {
        name_result: 2,
        name: padded(name),
        segment_count_result: 2,
        segment_count: 1,
        segment_name_result: 2,
        segment_name: padded("root"),
        translation: SegmentTranslation {
            result: 2,
            translation: [bits(0.0), bits(0.0), bits(0.0)],
            occluded: 0,
        },
        euler: SegmentRotationEuler {
            result: 2,
            rotation: [bits(0.0), bits(0.0), bits(0.0)],
            occluded: 0,
        },
        quaternion: SegmentRotationQuaternion {
            result: 2,
            rotation: [bits(0.0), bits(0.0), bits(0.0), bits(1.0)],
            occluded: 0,
        },
    }
}

fn mock(subjects: Vec<SubjectAnswers>) -> MockVicon {
    MockVicon::new(FrameAnswers { frame_result: 2, subject_count_result: 2, subjects })
        .expect("a frame of few subjects")
}

fn names(subjects: &[ViconSubject]) -> Vec<String> {
    subjects.iter().map(|s| s.name.clone()).collect()
}

#[test]
fn mock_reports_the_clear_subject_and_not_the_one_without_segments() {
    let mut a = clear("A");
    a.translation.translation = [bits(1000.0), bits(2000.0), bits(3000.0)];
    a.quaternion.rotation = [bits(0.0), bits(0.0), bits(0.0), bits(1.0)];
    let mut b = clear("B");
    b.segment_count = 0;
    let mut hardware = mock(vec![a, b]);
    let subjects = hardware.read_frame_subjects(OutputRotation::Quaternion).unwrap();
    assert_eq!(subjects.len(), 1);
    assert_eq!(
        subjects[0],
        ViconSubject {
            name: "A".to_string(),
            origin_mm: Vector3Bits { x: bits(1000.0), y: bits(2000.0), z: bits(3000.0) },
            rotation: RotationType::Quaternion(QuaternionBits {
                w: bits(1.0),
                i: bits(0.0),
                j: bits(0.0),
                k: bits(0.0),
            }),
        }
    );
    let metres: Vec<f64> = [subjects[0].origin_mm.x, subjects[0].origin_mm.y, subjects[0].origin_mm.z]
        .iter()
        .map(|word| f64::from_bits(*word) / 1000.0)
        .collect();
    assert_eq!(metres, vec![1.0, 2.0, 3.0]);
}

#[test]
fn mock_gives_the_representation_asked_for_at_each_poll() {
    let mut a = clear("A");
    a.euler.rotation = [bits(0.1), bits(0.2), bits(0.3)];
    a.quaternion.rotation = [bits(0.5), bits(0.5), bits(0.5), bits(0.5)];
    let mut hardware = mock(vec![a]);
    let first = hardware.read_frame_subjects(OutputRotation::Euler).unwrap();
    let second = hardware.read_frame_subjects(OutputRotation::Quaternion).unwrap();
    assert_eq!(
        first[0].rotation,
        RotationType::Euler(Vector3Bits { x: bits(0.1), y: bits(0.2), z: bits(0.3) })
    );
    assert_eq!(
        second[0].rotation,
        RotationType::Quaternion(QuaternionBits {
            w: bits(0.5),
            i: bits(0.5),
            j: bits(0.5),
            k: bits(0.5),
        })
    );
}

#[test]
fn mock_occlusion_of_one_channel_is_enough_to_pass_a_subject_over() {
    let mut position = clear("position");
    position.translation.occluded = 1;
    let mut rotation = clear("rotation");
    rotation.quaternion.occluded = 1;
    let mut other_rotation = clear("euler");
    other_rotation.euler.occluded = 1;
    let hardware = mock(vec![position, rotation, other_rotation, clear("free")]);
    let as_quaternion = hardware.poll(OutputRotation::Quaternion).unwrap();
    assert_eq!(names(&as_quaternion), vec!["euler", "free"]);
    let as_euler = hardware.poll(OutputRotation::Euler).unwrap();
    assert_eq!(names(&as_euler), vec!["rotation", "free"]);
}

#[test]
fn mock_poll_is_the_poll_of_the_frame_without_the_subjects_passed_over() {
    let mut gone = clear("gone");
    gone.segment_count = 0;
    let mut hidden = clear("hidden");
    hidden.translation.occluded = 1;
    let with = mock(vec![clear("a"), gone, clear("b"), hidden, clear("c")]);
    let without = mock(vec![clear("a"), clear("b"), clear("c")]);
    for rotation in [OutputRotation::Euler, OutputRotation::Quaternion] {
        assert_eq!(with.poll(rotation), without.poll(rotation));
        assert_eq!(with.poll(rotation).unwrap().len(), 3);
    }
}

#[test]
fn mock_failure_returns_no_subjects() {
    let mut bad = clear("bad");
    bad.quaternion.result = 10;
    let hardware = mock(vec![clear("a"), bad, clear("c")]);
    assert_eq!(
        hardware.poll(OutputRotation::Quaternion),
        Err(ViconError::SdkError { source: ViconSdkStatus::NoDataFrame })
    );
    assert_eq!(hardware.poll(OutputRotation::Euler).unwrap().len(), 3);
}

#[test]
fn mock_fails_when_the_frame_cannot_be_pulled() {
    let hardware = MockVicon::new(FrameAnswers {
        frame_result: 9,
        subject_count_result: 2,
        subjects: vec![clear("a")],
    })
    .unwrap();
    assert_eq!(
        hardware.poll(OutputRotation::Euler),
        Err(ViconError::SdkError { source: ViconSdkStatus::NotConnected })
    );
}

#[test]
fn mock_fails_when_the_subjects_cannot_be_counted() {
    let hardware = MockVicon::new(FrameAnswers {
        frame_result: 2,
        subject_count_result: 1,
        subjects: vec![clear("a")],
    })
    .unwrap();
    assert_eq!(
        hardware.poll(OutputRotation::Euler),
        Err(ViconError::SdkError { source: ViconSdkStatus::Unimplemented })
    );
}

#[test]
fn mock_of_an_empty_frame_returns_no_subjects() {
    assert_eq!(mock(Vec::new()).poll(OutputRotation::Euler), Ok(Vec::new()));
}

#[test]
fn mock_keeps_the_order_of_the_frame() {
    let all: Vec<SubjectAnswers> = ["z", "y", "a", "m", "b"].iter().map(|n| clear(n)).collect();
    let subjects = mock(all).poll(OutputRotation::Euler).unwrap();
    assert_eq!(names(&subjects), vec!["z", "y", "a", "m", "b"]);
}

#[test]
fn mock_decodes_many_subjects() {
    let all: Vec<SubjectAnswers> = (0..500)
        .map(|i| {
            let mut subject = clear(&format!("s{}", i));
            if i % 3 == 0 {
                subject.segment_count = 0;
            }
            subject
        })
        .collect();
    let subjects = mock(all).poll(OutputRotation::Quaternion).unwrap();
    assert_eq!(subjects.len(), 333);
    assert_eq!(subjects[0].name, "s1");
    assert_eq!(subjects[332].name, "s499");
}
