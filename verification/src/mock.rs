//! A stand-in for the tracking hardware that answers from a prepared frame,
//! and a statement of what a poll returns for a frame.
use crate::frame::{
    initial_state, lemma_advance_decreases, malformed_name_message, opening_left, outcome_view,
    queries_left, subjects_left, DecoderView, FrameDecoder, HasViconHardware, Progress,
    ProgressView, Reply, ReplyView, Request, RequestView, SubjectView, ViconSubject,
};
use crate::name::strip_nulls;
use crate::rotation::{
    canonical_rotation, vector_of, OutputRotation, SegmentRotationEuler, SegmentRotationQuaternion,
    SegmentTranslation, ViconRotationType,
};
use crate::status::{failure_of, ErrorView, ViconError};
use vstd::prelude::*;
use vstd::utf8::{decode_utf8, valid_utf8};

verus! {

/// The status code with which the stand-in answers a query for the name of
/// a subject that the frame does not hold.
pub const INVALID_INDEX_CODE: i32 = 11;

/// What the tracking client answers to the queries about one subject.
#[derive(Debug, Clone, PartialEq, Eq)]
pub struct SubjectAnswers {
    /// Status code of the query for the subject's name.
    pub name_result: i32,
    /// The name buffer as the client leaves it.
    pub name: Vec<u8>,
    /// Status code of the query for the number of segments.
    pub segment_count_result: i32,
    /// The number of segments.
    pub segment_count: u32,
    /// Status code of the query for the name of the first segment.
    pub segment_name_result: i32,
    /// The buffer with the name of the first segment.
    pub segment_name: Vec<u8>,
    /// Answer to the query for the position of the first segment.
    pub translation: SegmentTranslation,
    /// Answer to the query for its rotation as Euler angles.
    pub euler: SegmentRotationEuler,
    /// Answer to the query for its rotation as a quaternion.
    pub quaternion: SegmentRotationQuaternion,
}

/// What the tracking client answers during the poll of one frame.
#[derive(Debug, Clone, PartialEq, Eq)]
pub struct FrameAnswers {
    /// Status code of pulling the frame.
    pub frame_result: i32,
    /// Status code of the query for the number of subjects.
    pub subject_count_result: i32,
    /// The subjects of the frame, in the server's order.
    pub subjects: Vec<SubjectAnswers>,
}

/// The answers about one subject, with buffers as sequences of bytes.
pub struct SubjectAnswersView {
    pub name_result: i32,
    pub name: Seq<u8>,
    pub segment_count_result: i32,
    pub segment_count: u32,
    pub segment_name_result: i32,
    pub segment_name: Seq<u8>,
    pub translation: SegmentTranslation,
    pub euler: SegmentRotationEuler,
    pub quaternion: SegmentRotationQuaternion,
}

/// The answers of one poll, with buffers as sequences of bytes.
pub struct FrameAnswersView {
    pub frame_result: i32,
    pub subject_count_result: i32,
    pub subjects: Seq<SubjectAnswersView>,
}

impl View for SubjectAnswers {
    type V = SubjectAnswersView;

    open spec fn view(&self) -> SubjectAnswersView {
        SubjectAnswersView {
            name_result: self.name_result,
            name: self.name@,
            segment_count_result: self.segment_count_result,
            segment_count: self.segment_count,
            segment_name_result: self.segment_name_result,
            segment_name: self.segment_name@,
            translation: self.translation,
            euler: self.euler,
            quaternion: self.quaternion,
        }
    }
}

impl View for FrameAnswers {
    type V = FrameAnswersView;

    open spec fn view(&self) -> FrameAnswersView {
        FrameAnswersView {
            frame_result: self.frame_result,
            subject_count_result: self.subject_count_result,
            subjects: self.subjects@.map_values(|subject: SubjectAnswers| subject@),
        }
    }
}

impl SubjectAnswersView {
    /// The rotation answer in the representation `rotation`.
    pub open spec fn rotation(self, rotation: OutputRotation) -> ViconRotationType {
        match rotation {
            OutputRotation::Euler => ViconRotationType::Euler(self.euler),
            OutputRotation::Quaternion => ViconRotationType::Quaternion(self.quaternion),
        }
    }
}

/// What becomes of one subject in a poll.
pub enum SubjectOutcome {
    /// The subject is passed over: it has no segment, or its position or its
    /// rotation is marked occluded.
    Skipped,
    /// The subject is reported.
    Reported(SubjectView),
    /// The poll fails at this subject.
    Failed(ErrorView),
}

/// What becomes of the subject with the answers `subject` in a poll that
/// asks for rotations in the representation `rotation`.
///
/// The queries are judged in the order in which they are made, and the first
/// status code that is not the success code fails the poll. A subject
/// without segments is passed over before its segment is asked for; one with
/// an occluded position before its rotation is asked for.
pub open spec fn subject_outcome(
    subject: SubjectAnswersView,
    rotation: OutputRotation,
) -> SubjectOutcome {
    let name = strip_nulls(subject.name);
    let turned = subject.rotation(rotation);
    if failure_of(subject.name_result) is Some {
        SubjectOutcome::Failed(failure_of(subject.name_result)->Some_0)
    } else if failure_of(subject.segment_count_result) is Some {
        SubjectOutcome::Failed(failure_of(subject.segment_count_result)->Some_0)
    } else if subject.segment_count == 0 {
        SubjectOutcome::Skipped
    } else if failure_of(subject.segment_name_result) is Some {
        SubjectOutcome::Failed(failure_of(subject.segment_name_result)->Some_0)
    } else if failure_of(subject.translation.result) is Some {
        SubjectOutcome::Failed(failure_of(subject.translation.result)->Some_0)
    } else if subject.translation.occluded != 0 {
        SubjectOutcome::Skipped
    } else if failure_of(turned.result_code()) is Some {
        SubjectOutcome::Failed(failure_of(turned.result_code())->Some_0)
    } else if turned.occluded_flag() != 0 {
        SubjectOutcome::Skipped
    } else if !valid_utf8(name) {
        SubjectOutcome::Failed(ErrorView::OtherError { message: malformed_name_message() })
    } else {
        SubjectOutcome::Reported(
            SubjectView {
                name: decode_utf8(name),
                origin_mm: vector_of(subject.translation.translation),
                rotation: canonical_rotation(turned),
            },
        )
    }
}

/// What a poll makes of `subjects`: the reported ones in their order, or
/// the error of the first subject at which the poll fails.
pub open spec fn decode_subjects(
    subjects: Seq<SubjectAnswersView>,
    rotation: OutputRotation,
) -> Result<Seq<SubjectView>, ErrorView>
    decreases subjects.len(),
{
    if subjects.len() == 0 {
        Ok(Seq::empty())
    } else {
        match subject_outcome(subjects.first(), rotation) {
            SubjectOutcome::Failed(error) => Err(error),
            SubjectOutcome::Skipped => decode_subjects(subjects.drop_first(), rotation),
            SubjectOutcome::Reported(subject) => match decode_subjects(
                subjects.drop_first(),
                rotation,
            ) {
                Ok(others) => Ok(seq![subject] + others),
                Err(error) => Err(error),
            },
        }
    }
}

/// What a poll of the frame with the answers `frame` returns.
pub open spec fn decoded(frame: FrameAnswersView, rotation: OutputRotation) -> Result<
    Seq<SubjectView>,
    ErrorView,
> {
    if failure_of(frame.frame_result) is Some {
        Err(failure_of(frame.frame_result)->Some_0)
    } else if failure_of(frame.subject_count_result) is Some {
        Err(failure_of(frame.subject_count_result)->Some_0)
    } else {
        decode_subjects(frame.subjects, rotation)
    }
}

/// The answer of the stand-in to `request` while the subject `index` is
/// under examination. Queries that name a subject are answered for the
/// subject under examination.
pub open spec fn answer_of(frame: FrameAnswersView, request: RequestView, index: u32) -> ReplyView {
    let subject = frame.subjects[index as int];
    match request {
        RequestView::GetFrame => ReplyView::Status { result: frame.frame_result },
        RequestView::GetSubjectCount => ReplyView::Count {
            result: frame.subject_count_result,
            count: frame.subjects.len() as u32,
        },
        RequestView::GetSubjectName { index: wanted, .. } => if wanted < frame.subjects.len() {
            ReplyView::Name {
                result: frame.subjects[wanted as int].name_result,
                buffer: frame.subjects[wanted as int].name,
            }
        } else {
            ReplyView::Name { result: INVALID_INDEX_CODE, buffer: Seq::empty() }
        },
        RequestView::GetSegmentCount { .. } => ReplyView::Count {
            result: subject.segment_count_result,
            count: subject.segment_count,
        },
        RequestView::GetSegmentName { .. } => ReplyView::Name {
            result: subject.segment_name_result,
            buffer: subject.segment_name,
        },
        RequestView::GetSegmentGlobalTranslation { .. } => ReplyView::Translation(
            subject.translation,
        ),
        RequestView::GetSegmentGlobalRotationEulerXYZ { .. } => ReplyView::Rotation(
            ViconRotationType::Euler(subject.euler),
        ),
        RequestView::GetSegmentGlobalRotationQuaternion { .. } => ReplyView::Rotation(
            ViconRotationType::Quaternion(subject.quaternion),
        ),
    }
}

/// What the poll that stands at `state` returns when every query from here
/// on is answered by the stand-in for `frame`.
pub open spec fn poll_from(frame: FrameAnswersView, state: DecoderView) -> Result<
    Seq<SubjectView>,
    ErrorView,
>
    decreases opening_left(state), subjects_left(state), queries_left(state),
{
    match state.advance(answer_of(frame, state.pending, state.index)) {
        ProgressView::Done(outcome) => outcome,
        ProgressView::Pending(next) => poll_from(frame, next),
    }
}

/// The outcome `rest` of the subjects still to come, behind the subjects
/// `before` that are decoded already.
pub open spec fn behind(
    before: Seq<SubjectView>,
    rest: Result<Seq<SubjectView>, ErrorView>,
) -> Result<Seq<SubjectView>, ErrorView> {
    match rest {
        Ok(others) => Ok(before + others),
        Err(error) => Err(error),
    }
}

/// Whether the poll gets as far as asking for the rotation of `subject`.
pub open spec fn rotation_asked(subject: SubjectAnswersView) -> bool {
    &&& failure_of(subject.name_result) is None
    &&& failure_of(subject.segment_count_result) is None
    &&& subject.segment_count != 0
    &&& failure_of(subject.segment_name_result) is None
    &&& failure_of(subject.translation.result) is None
    &&& subject.translation.occluded == 0
}

/// The state in which a poll leaves the subject `subject` behind, when it
/// came to the subject in `state` and did not fail at it.
pub open spec fn left_behind(state: DecoderView, subject: SubjectAnswersView) -> DecoderView {
    DecoderView {
        subjects: match subject_outcome(subject, state.rotation) {
            SubjectOutcome::Reported(reported) => state.subjects.push(reported),
            _ => state.subjects,
        },
        translation: if rotation_asked(subject) {
            subject.translation
        } else {
            state.translation
        },
        ..state
    }
}

/// A poll that is about to ask for the name of the subject `at` fails if
/// the subject fails, and else goes on as from the state in which it leaves
/// the subject behind.
proof fn lemma_poll_over_subject(frame: FrameAnswersView, state: DecoderView, at: int)
    requires
        frame.subjects.len() <= u32::MAX,
        0 <= at < frame.subjects.len(),
        state.pending is GetSubjectName,
        state.pending->GetSubjectName_index == at,
        state.index == at,
    ensures
        poll_from(frame, state) == (match subject_outcome(frame.subjects[at], state.rotation) {
            SubjectOutcome::Failed(error) => Err(error),
            _ => match left_behind(state, frame.subjects[at]).next_subject() {
                ProgressView::Done(outcome) => outcome,
                ProgressView::Pending(next) => poll_from(frame, next),
            },
        }),
{
    let subject = frame.subjects[at];
    let named = state.advance(answer_of(frame, state.pending, state.index));
    assert(poll_from(frame, state) == match named {
        ProgressView::Done(outcome) => outcome,
        ProgressView::Pending(next) => poll_from(frame, next),
    });
    if named is Pending {
        let s1 = named->Pending_0;
        let counted = s1.advance(answer_of(frame, s1.pending, s1.index));
        assert(poll_from(frame, s1) == match counted {
            ProgressView::Done(outcome) => outcome,
            ProgressView::Pending(next) => poll_from(frame, next),
        });
        if counted is Pending && subject.segment_count != 0 {
            let s2 = counted->Pending_0;
            let segment = s2.advance(answer_of(frame, s2.pending, s2.index));
            assert(poll_from(frame, s2) == match segment {
                ProgressView::Done(outcome) => outcome,
                ProgressView::Pending(next) => poll_from(frame, next),
            });
            if segment is Pending {
                let s3 = segment->Pending_0;
                let placed = s3.advance(answer_of(frame, s3.pending, s3.index));
                assert(poll_from(frame, s3) == match placed {
                    ProgressView::Done(outcome) => outcome,
                    ProgressView::Pending(next) => poll_from(frame, next),
                });
                if placed is Pending && subject.translation.occluded == 0 {
                    let s4 = placed->Pending_0;
                    let turned = s4.advance(answer_of(frame, s4.pending, s4.index));
                    assert(poll_from(frame, s4) == match turned {
                        ProgressView::Done(outcome) => outcome,
                        ProgressView::Pending(next) => poll_from(frame, next),
                    });
                }
            }
        }
    }
}

/// A poll that is about to ask for the name of the subject `at` returns the
/// subjects decoded so far, followed by what the subjects from `at` on
/// decode to; or the error of the first of them that fails.
proof fn lemma_poll_from_subject(frame: FrameAnswersView, state: DecoderView, at: int)
    requires
        frame.subjects.len() <= u32::MAX,
        0 <= at < frame.subjects.len(),
        state.pending is GetSubjectName,
        state.pending->GetSubjectName_index == at,
        state.index == at,
        state.subject_count == frame.subjects.len(),
    ensures
        poll_from(frame, state) == behind(
            state.subjects,
            decode_subjects(frame.subjects.skip(at), state.rotation),
        ),
    decreases frame.subjects.len() - at,
{
    let subject = frame.subjects[at];
    let here = frame.subjects.skip(at);
    let rest = frame.subjects.skip(at + 1);
    assert(here.first() == subject);
    assert(here.drop_first() == rest);
    lemma_poll_over_subject(frame, state, at);
    let outcome = subject_outcome(subject, state.rotation);
    if !(outcome is Failed) {
        let moved = left_behind(state, subject);
        if at + 1 < frame.subjects.len() {
            let next = moved.next_subject()->Pending_0;
            lemma_poll_from_subject(frame, next, at + 1);
            if decode_subjects(rest, state.rotation) is Ok {
                let others = decode_subjects(rest, state.rotation)->Ok_0;
                if outcome is Reported {
                    assert(moved.subjects + others =~= state.subjects + (seq![
                        outcome->Reported_0,
                    ] + others));
                }
            }
        } else {
            assert(rest.len() == 0);
            let none = Seq::<SubjectView>::empty();
            if outcome is Reported {
                assert(state.subjects + (seq![outcome->Reported_0] + none) =~= moved.subjects);
            } else {
                assert(state.subjects + none =~= state.subjects);
            }
        }
    }
}

/// What the stand-in's poll returns is what `decoded` says of the frame.
pub proof fn lemma_poll_is_decoded(frame: FrameAnswersView, rotation: OutputRotation)
    requires
        frame.subjects.len() <= u32::MAX,
    ensures
        poll_from(frame, initial_state(rotation)) == decoded(frame, rotation),
{
    let start = initial_state(rotation);
    reveal_with_fuel(poll_from, 3);
    if failure_of(frame.frame_result) is None && failure_of(frame.subject_count_result) is None {
        if frame.subjects.len() > 0 {
            let counted = start.advance(answer_of(frame, start.pending, start.index))->Pending_0;
            let named = counted.advance(
                answer_of(frame, counted.pending, counted.index),
            )->Pending_0;
            lemma_poll_from_subject(frame, named, 0);
            assert(frame.subjects.skip(0) == frame.subjects);
            match decode_subjects(frame.subjects, rotation) {
                Ok(others) => {
                    assert(Seq::<SubjectView>::empty() + others =~= others);
                },
                Err(_) => {},
            }
        }
    }
}

/// Only a clear subject is reported: every query about it was answered
/// with the success code, it has a segment, and neither its position nor
/// its rotation is marked occluded. What is reported is its name without
/// the padding, its position as delivered and its rotation in canonical
/// form and in the representation asked for.
pub proof fn lemma_reported_is_clear(subject: SubjectAnswersView, rotation: OutputRotation)
    requires
        subject_outcome(subject, rotation) is Reported,
    ensures
        subject.segment_count != 0,
        subject.translation.occluded == 0,
        subject.rotation(rotation).occluded_flag() == 0,
        failure_of(subject.name_result) is None,
        failure_of(subject.segment_count_result) is None,
        failure_of(subject.segment_name_result) is None,
        failure_of(subject.translation.result) is None,
        failure_of(subject.rotation(rotation).result_code()) is None,
        subject_outcome(subject, rotation)->Reported_0 == (SubjectView {
            name: decode_utf8(strip_nulls(subject.name)),
            origin_mm: vector_of(subject.translation.translation),
            rotation: canonical_rotation(subject.rotation(rotation)),
        }),
        subject_outcome(subject, rotation)->Reported_0.rotation.kind() == rotation,
{
}

/// A poll that returns subjects has failed at none.
pub proof fn lemma_decoded_without_failure(
    subjects: Seq<SubjectAnswersView>,
    rotation: OutputRotation,
    at: int,
)
    requires
        0 <= at < subjects.len(),
        decode_subjects(subjects, rotation) is Ok,
    ensures
        !(subject_outcome(subjects[at], rotation) is Failed),
    decreases at,
{
    if at > 0 {
        assert(subjects.drop_first()[at - 1] == subjects[at]);
        lemma_decoded_without_failure(subjects.drop_first(), rotation, at - 1);
    }
}

/// A subject that is passed over leaves no trace: the poll returns what it
/// would return if the subject were not in the frame.
pub proof fn lemma_skipped_leaves_no_trace(
    subjects: Seq<SubjectAnswersView>,
    rotation: OutputRotation,
    at: int,
)
    requires
        0 <= at < subjects.len(),
        subject_outcome(subjects[at], rotation) is Skipped,
    ensures
        decode_subjects(subjects, rotation) == decode_subjects(subjects.remove(at), rotation),
    decreases at,
{
    if at == 0 {
        assert(subjects.remove(0) == subjects.drop_first());
    } else {
        let shorter = subjects.remove(at);
        assert(subjects.drop_first()[at - 1] == subjects[at]);
        assert(shorter.first() == subjects.first());
        assert(shorter.drop_first() == subjects.drop_first().remove(at - 1));
        lemma_skipped_leaves_no_trace(subjects.drop_first(), rotation, at - 1);
    }
}

/// The number of subjects returned is never more than the frame holds.
pub proof fn lemma_decoded_no_longer(subjects: Seq<SubjectAnswersView>, rotation: OutputRotation)
    requires
        decode_subjects(subjects, rotation) is Ok,
    ensures
        decode_subjects(subjects, rotation)->Ok_0.len() <= subjects.len(),
    decreases subjects.len(),
{
    if subjects.len() > 0 {
        lemma_decoded_without_failure(subjects, rotation, 0);
        lemma_decoded_no_longer(subjects.drop_first(), rotation);
    }
}

/// The frame `frame` without its subject `at`.
pub open spec fn without(frame: FrameAnswersView, at: int) -> FrameAnswersView {
    FrameAnswersView { subjects: frame.subjects.remove(at), ..frame }
}

/// A subject with zero segments never appears in what a poll returns: the
/// subjects returned are those that the frame without it gives.
pub proof fn lemma_no_segments_absent(frame: FrameAnswersView, rotation: OutputRotation, at: int)
    requires
        0 <= at < frame.subjects.len(),
        frame.subjects[at].segment_count == 0,
    ensures
        !(subject_outcome(frame.subjects[at], rotation) is Reported),
        decoded(frame, rotation) is Ok ==> decoded(frame, rotation) == decoded(
            without(frame, at),
            rotation,
        ),
{
    if decoded(frame, rotation) is Ok {
        lemma_decoded_without_failure(frame.subjects, rotation, at);
        lemma_skipped_leaves_no_trace(frame.subjects, rotation, at);
    }
}

/// A subject whose position or rotation is marked occluded never appears
/// in what a poll returns, even if the other of the two is clear: the
/// subjects returned are those that the frame without it gives.
pub proof fn lemma_occluded_absent(frame: FrameAnswersView, rotation: OutputRotation, at: int)
    requires
        0 <= at < frame.subjects.len(),
        frame.subjects[at].translation.occluded != 0 || frame.subjects[at].rotation(
            rotation,
        ).occluded_flag() != 0,
    ensures
        !(subject_outcome(frame.subjects[at], rotation) is Reported),
        decoded(frame, rotation) is Ok ==> decoded(frame, rotation) == decoded(
            without(frame, at),
            rotation,
        ),
{
    if decoded(frame, rotation) is Ok {
        lemma_decoded_without_failure(frame.subjects, rotation, at);
        lemma_skipped_leaves_no_trace(frame.subjects, rotation, at);
    }
}

/// A failure returns no subject, and it is the failure of the first query
/// that was not answered with the success code: a poll fails exactly when
/// the frame cannot be pulled, its subjects cannot be counted, or one of
/// its subjects fails.
pub proof fn lemma_failure_is_first(frame: FrameAnswersView, rotation: OutputRotation)
    ensures
        failure_of(frame.frame_result) matches Some(error) ==> decoded(frame, rotation) == Err::<
            Seq<SubjectView>,
            ErrorView,
        >(error),
        decoded(frame, rotation) is Ok ==> failure_of(frame.frame_result) is None && failure_of(
            frame.subject_count_result,
        ) is None && forall|at: int|
            0 <= at < frame.subjects.len() ==> !(#[trigger] subject_outcome(
                frame.subjects[at],
                rotation,
            ) is Failed),
{
    if decoded(frame, rotation) is Ok {
        assert forall|at: int| 0 <= at < frame.subjects.len() implies !(#[trigger] subject_outcome(
            frame.subjects[at],
            rotation,
        ) is Failed) by {
            lemma_decoded_without_failure(frame.subjects, rotation, at);
        }
    }
}

/// A stand-in for the tracking hardware: every poll decodes the same
/// prepared frame.
#[derive(Debug)]
pub struct MockVicon {
    frame: FrameAnswers,
}

impl View for MockVicon {
    type V = FrameAnswersView;

    closed spec fn view(&self) -> FrameAnswersView {
        self.frame@
    }
}

/// Whether the poll that stands at `state` is a poll of `frame`: once the
/// subjects are counted, the subject under examination is one of the frame.
pub open spec fn polls(frame: FrameAnswersView, state: DecoderView) -> bool {
    opening_left(state) == 0 ==> state.subject_count == frame.subjects.len() && state.index
        < frame.subjects.len()
}

impl MockVicon {
    #[verifier::type_invariant]
    spec fn countable(self) -> bool {
        self.frame.subjects.len() <= u32::MAX
    }

    /// A stand-in that answers with `frame`. `None` when the frame holds
    /// more subjects than a subject count can say.
    pub fn new(frame: FrameAnswers) -> (mock: Option<MockVicon>)
        ensures
            mock is Some <==> frame.subjects.len() <= u32::MAX,
            mock matches Some(made) ==> made@ == frame@,
    {
        if frame.subjects.len() <= u32::MAX as usize {
            Some(MockVicon { frame })
        } else {
            None
        }
    }

    /// Answers `request` while the subject `index` is under examination.
    fn answer(&self, request: &Request, index: u32) -> (reply: Reply)
        requires
            request@ is GetFrame || request@ is GetSubjectCount || request@ is GetSubjectName
                || index < self@.subjects.len(),
        ensures
            reply@ == answer_of(self@, request@, index),
    {
        proof {
            use_type_invariant(self);
        }
        match request {
            Request::GetFrame => Reply::Status { result: self.frame.frame_result },
            Request::GetSubjectCount => Reply::Count {
                result: self.frame.subject_count_result,
                count: self.frame.subjects.len() as u32,
            },
            Request::GetSubjectName { index: wanted, .. } => {
                if (*wanted as usize) < self.frame.subjects.len() {
                    let subject = &self.frame.subjects[*wanted as usize];
                    Reply::Name { result: subject.name_result, buffer: subject.name.clone() }
                } else {
                    Reply::Name { result: INVALID_INDEX_CODE, buffer: Vec::new() }
                }
            },
            Request::GetSegmentCount { .. } => {
                let subject = &self.frame.subjects[index as usize];
                Reply::Count { result: subject.segment_count_result, count: subject.segment_count }
            },
            Request::GetSegmentName { .. } => {
                let subject = &self.frame.subjects[index as usize];
                Reply::Name {
                    result: subject.segment_name_result,
                    buffer: subject.segment_name.clone(),
                }
            },
            Request::GetSegmentGlobalTranslation { .. } => {
                Reply::Translation(self.frame.subjects[index as usize].translation)
            },
            Request::GetSegmentGlobalRotationEulerXYZ { .. } => {
                Reply::Rotation(ViconRotationType::Euler(self.frame.subjects[index as usize].euler))
            },
            Request::GetSegmentGlobalRotationQuaternion { .. } => {
                Reply::Rotation(
                    ViconRotationType::Quaternion(self.frame.subjects[index as usize].quaternion),
                )
            },
        }
    }

    /// Polls the prepared frame: the decoder asks, the stand-in answers,
    /// until the poll is over.
    pub fn poll(&self, rotation: OutputRotation) -> (outcome: Result<Vec<ViconSubject>, ViconError>)
        ensures
            outcome_view(outcome) == decoded(self@, rotation),
    {
        proof {
            use_type_invariant(self);
            lemma_poll_is_decoded(self@, rotation);
        }
        let mut decoder = FrameDecoder::start(rotation);
        loop
            invariant
                self@.subjects.len() <= u32::MAX,
                poll_from(self@, decoder@) == decoded(self@, rotation),
                polls(self@, decoder@),
            decreases opening_left(decoder@), subjects_left(decoder@), queries_left(decoder@),
        {
            let reply = self.answer(decoder.request(), decoder.index());
            let ghost before = decoder@;
            match decoder.advance(reply) {
                Progress::Pending(next) => {
                    proof {
                        lemma_advance_decreases(before, reply@);
                    }
                    decoder = next;
                },
                Progress::Done(outcome) => {
                    return outcome;
                },
            }
        }
    }
}

impl HasViconHardware for MockVicon {
    /// Decodes the prepared frame once more.
    fn read_frame_subjects(&mut self, rotation_type: OutputRotation) -> (outcome: Result<
        Vec<ViconSubject>,
        ViconError,
    >)
        ensures
            outcome_view(outcome) == decoded(old(self)@, rotation_type),
            final(self)@ == old(self)@,
    {
        self.poll(rotation_type)
    }
}

} // verus!
