//! Decoding of one frame into subjects.
//!
//! The decoder does not call the tracking client. It is a state machine: it
//! names the query to make next, takes the client's answer, and either names
//! the following query or ends the poll with the subjects or with an error.
use crate::name::{buffer_to_cstring, name_text, strip_nulls, NAME_BUFFER_CAPACITY};
use crate::rotation::{
    canonical_rotation, vector_of, OutputRotation, RotationType, SegmentTranslation, Vector3Bits,
    ViconRotationType,
};
use crate::status::{classify, failure_of, ErrorView, ViconError, SUCCESS_CODE};
use vstd::prelude::*;
use vstd::utf8::{decode_utf8, valid_utf8};

verus! {

/// A single subject identified in a frame.
#[derive(Debug, Clone, PartialEq, Eq)]
pub struct ViconSubject {
    /// The subject's name.
    pub name: String,
    /// The subject's position relative to the origin of the capture volume,
    /// in millimetres, exactly as delivered. A caller that wants metres
    /// divides each scalar by 1000.
    pub origin_mm: Vector3Bits,
    /// The subject's rotation, in the representation that was asked for.
    pub rotation: RotationType,
}

/// A subject with its name as a sequence of characters.
pub struct SubjectView {
    pub name: Seq<char>,
    pub origin_mm: Vector3Bits,
    pub rotation: RotationType,
}

impl View for ViconSubject {
    type V = SubjectView;

    open spec fn view(&self) -> SubjectView {
        SubjectView { name: self.name@, origin_mm: self.origin_mm, rotation: self.rotation }
    }
}

/// The views of a list of subjects, in order.
pub open spec fn subject_views(subjects: Seq<ViconSubject>) -> Seq<SubjectView> {
    subjects.map_values(|subject: ViconSubject| subject@)
}

/// A thing that can read from a motion-capture data stream.
pub trait HasViconHardware {
    /// Returns all subjects identified in the next available frame, each
    /// with its rotation in the representation `rotation_type`.
    fn read_frame_subjects(&mut self, rotation_type: OutputRotation) -> Result<
        Vec<ViconSubject>,
        ViconError,
    >;
}

impl ViconSubject {
    /// Builds a subject from the answers for its first segment: the position
    /// is taken over word by word, the rotation is brought into canonical
    /// form.
    pub fn from_vicon_frame(
        name: String,
        translation: SegmentTranslation,
        vicon_rotation: ViconRotationType,
    ) -> (made: Result<ViconSubject, ViconError>)
        ensures
            made is Ok,
            made->Ok_0@ == (SubjectView {
                name: name@,
                origin_mm: vector_of(translation.translation),
                rotation: canonical_rotation(vicon_rotation),
            }),
    {
        let origin_mm = Vector3Bits {
            x: translation.translation[0],
            y: translation.translation[1],
            z: translation.translation[2],
        };
        match RotationType::try_from(vicon_rotation) {
            Ok(rotation) => Ok(ViconSubject { name, origin_mm, rotation }),
            Err(message) => Err(ViconError::OtherError { message }),
        }
    }
}

/// A query to the tracking client.
#[derive(Debug, Clone, PartialEq, Eq)]
pub enum Request {
    /// Pull a new frame.
    GetFrame,
    /// Count the subjects of the frame.
    GetSubjectCount,
    /// Write the name of the subject `index` into a buffer of `capacity`
    /// bytes.
    GetSubjectName { index: u32, capacity: usize },
    /// Count the segments of `subject`.
    GetSegmentCount { subject: Vec<u8> },
    /// Write the name of segment `index` of `subject` into a buffer of
    /// `capacity` bytes.
    GetSegmentName { subject: Vec<u8>, index: u32, capacity: usize },
    /// Position of `segment` of `subject` in the capture volume.
    GetSegmentGlobalTranslation { subject: Vec<u8>, segment: Vec<u8> },
    /// Rotation of `segment` of `subject` as Euler angles.
    GetSegmentGlobalRotationEulerXYZ { subject: Vec<u8>, segment: Vec<u8> },
    /// Rotation of `segment` of `subject` as a quaternion.
    GetSegmentGlobalRotationQuaternion { subject: Vec<u8>, segment: Vec<u8> },
}

/// A query with its names as sequences of bytes.
pub enum RequestView {
    GetFrame,
    GetSubjectCount,
    GetSubjectName { index: u32, capacity: usize },
    GetSegmentCount { subject: Seq<u8> },
    GetSegmentName { subject: Seq<u8>, index: u32, capacity: usize },
    GetSegmentGlobalTranslation { subject: Seq<u8>, segment: Seq<u8> },
    GetSegmentGlobalRotationEulerXYZ { subject: Seq<u8>, segment: Seq<u8> },
    GetSegmentGlobalRotationQuaternion { subject: Seq<u8>, segment: Seq<u8> },
}

impl View for Request {
    type V = RequestView;

    open spec fn view(&self) -> RequestView {
        match *self {
            Request::GetFrame => RequestView::GetFrame,
            Request::GetSubjectCount => RequestView::GetSubjectCount,
            Request::GetSubjectName { index, capacity } => RequestView::GetSubjectName {
                index,
                capacity,
            },
            Request::GetSegmentCount { subject } => RequestView::GetSegmentCount {
                subject: subject@,
            },
            Request::GetSegmentName { subject, index, capacity } => RequestView::GetSegmentName {
                subject: subject@,
                index,
                capacity,
            },
            Request::GetSegmentGlobalTranslation {
                subject,
                segment,
            } => RequestView::GetSegmentGlobalTranslation { subject: subject@, segment: segment@ },
            Request::GetSegmentGlobalRotationEulerXYZ {
                subject,
                segment,
            } => RequestView::GetSegmentGlobalRotationEulerXYZ {
                subject: subject@,
                segment: segment@,
            },
            Request::GetSegmentGlobalRotationQuaternion {
                subject,
                segment,
            } => RequestView::GetSegmentGlobalRotationQuaternion {
                subject: subject@,
                segment: segment@,
            },
        }
    }
}

/// An answer of the tracking client.
#[derive(Debug, Clone, PartialEq, Eq)]
pub enum Reply {
    /// Answer to `GetFrame`: a status code and nothing else.
    Status { result: i32 },
    /// Answer to `GetSubjectCount` and to `GetSegmentCount`.
    Count { result: i32, count: u32 },
    /// Answer to `GetSubjectName` and to `GetSegmentName`: the status code
    /// and the buffer as the client left it.
    Name { result: i32, buffer: Vec<u8> },
    /// Answer to `GetSegmentGlobalTranslation`.
    Translation(SegmentTranslation),
    /// Answer to either rotation query.
    Rotation(ViconRotationType),
}

/// An answer with its buffer as a sequence of bytes.
pub enum ReplyView {
    Status { result: i32 },
    Count { result: i32, count: u32 },
    Name { result: i32, buffer: Seq<u8> },
    Translation(SegmentTranslation),
    Rotation(ViconRotationType),
}

impl View for Reply {
    type V = ReplyView;

    open spec fn view(&self) -> ReplyView {
        match *self {
            Reply::Status { result } => ReplyView::Status { result },
            Reply::Count { result, count } => ReplyView::Count { result, count },
            Reply::Name { result, buffer } => ReplyView::Name { result, buffer: buffer@ },
            Reply::Translation(translation) => ReplyView::Translation(translation),
            Reply::Rotation(rotation) => ReplyView::Rotation(rotation),
        }
    }
}

/// The decoder of one frame, between two queries.
#[derive(Debug)]
pub struct FrameDecoder {
    rotation: OutputRotation,
    pending: Request,
    subject_count: u32,
    index: u32,
    translation: SegmentTranslation,
    subjects: Vec<ViconSubject>,
}

/// The state of a decoder.
pub struct DecoderView {
    /// The rotation representation that the caller asked for.
    pub rotation: OutputRotation,
    /// The query whose answer the decoder waits for.
    pub pending: RequestView,
    /// The number of subjects in the frame, once known.
    pub subject_count: u32,
    /// The index of the subject under examination.
    pub index: u32,
    /// The position of the subject under examination, once known.
    pub translation: SegmentTranslation,
    /// The subjects decoded so far, in the server's order.
    pub subjects: Seq<SubjectView>,
}

impl View for FrameDecoder {
    type V = DecoderView;

    closed spec fn view(&self) -> DecoderView {
        DecoderView {
            rotation: self.rotation,
            pending: self.pending@,
            subject_count: self.subject_count,
            index: self.index,
            translation: self.translation,
            subjects: subject_views(self.subjects@),
        }
    }
}

/// Where a poll stands after an answer.
#[derive(Debug)]
pub enum Progress {
    /// The poll goes on: make the query that the decoder names.
    Pending(FrameDecoder),
    /// The poll is over.
    Done(Result<Vec<ViconSubject>, ViconError>),
}

/// Where a poll stands, over the views of what it holds.
pub enum ProgressView {
    Pending(DecoderView),
    Done(Result<Seq<SubjectView>, ErrorView>),
}

/// The view of the outcome of a poll.
pub open spec fn outcome_view(outcome: Result<Vec<ViconSubject>, ViconError>) -> Result<
    Seq<SubjectView>,
    ErrorView,
> {
    match outcome {
        Ok(subjects) => Ok(subject_views(subjects@)),
        Err(error) => Err(error@),
    }
}

impl View for Progress {
    type V = ProgressView;

    open spec fn view(&self) -> ProgressView {
        match *self {
            Progress::Pending(decoder) => ProgressView::Pending(decoder@),
            Progress::Done(outcome) => ProgressView::Done(outcome_view(outcome)),
        }
    }
}

/// The message of the error that ends a poll when an answer is not an
/// answer to the pending query.
pub open spec fn unexpected_reply_message() -> Seq<char> {
    "the reply does not answer the pending request"@
}

/// The message of the error that ends a poll when the name of a subject to
/// be reported is not text.
pub open spec fn malformed_name_message() -> Seq<char> {
    "the subject name is not valid UTF-8"@
}

/// The state in which a poll starts: the frame is yet to be pulled.
pub open spec fn initial_state(rotation: OutputRotation) -> DecoderView {
    DecoderView {
        rotation,
        pending: RequestView::GetFrame,
        subject_count: 0,
        index: 0,
        translation: SegmentTranslation { result: 0, translation: [0u64, 0u64, 0u64], occluded: 0 },
        subjects: Seq::empty(),
    }
}

/// The rotation query for the representation `rotation`.
pub open spec fn rotation_request(
    rotation: OutputRotation,
    subject: Seq<u8>,
    segment: Seq<u8>,
) -> RequestView {
    match rotation {
        OutputRotation::Euler => RequestView::GetSegmentGlobalRotationEulerXYZ { subject, segment },
        OutputRotation::Quaternion => RequestView::GetSegmentGlobalRotationQuaternion {
            subject,
            segment,
        },
    }
}

/// The subject that a query names; empty for a query that names none.
pub open spec fn pending_subject(request: RequestView) -> Seq<u8> {
    match request {
        RequestView::GetSegmentCount { subject } => subject,
        RequestView::GetSegmentName { subject, .. } => subject,
        RequestView::GetSegmentGlobalTranslation { subject, .. } => subject,
        RequestView::GetSegmentGlobalRotationEulerXYZ { subject, .. } => subject,
        RequestView::GetSegmentGlobalRotationQuaternion { subject, .. } => subject,
        _ => Seq::empty(),
    }
}

/// The segment that a query names; empty for a query that names none.
pub open spec fn pending_segment(request: RequestView) -> Seq<u8> {
    match request {
        RequestView::GetSegmentGlobalTranslation { segment, .. } => segment,
        RequestView::GetSegmentGlobalRotationEulerXYZ { segment, .. } => segment,
        RequestView::GetSegmentGlobalRotationQuaternion { segment, .. } => segment,
        _ => Seq::empty(),
    }
}

/// The status code of an answer.
pub open spec fn reply_code(reply: ReplyView) -> i32 {
    match reply {
        ReplyView::Status { result } => result,
        ReplyView::Count { result, .. } => result,
        ReplyView::Name { result, .. } => result,
        ReplyView::Translation(translation) => translation.result,
        ReplyView::Rotation(rotation) => rotation.result_code(),
    }
}

/// Whether `reply` is of the kind that `request` asks for.
pub open spec fn answers(request: RequestView, reply: ReplyView) -> bool {
    match request {
        RequestView::GetFrame => reply is Status,
        RequestView::GetSubjectCount => reply is Count,
        RequestView::GetSubjectName { .. } => reply is Name,
        RequestView::GetSegmentCount { .. } => reply is Count,
        RequestView::GetSegmentName { .. } => reply is Name,
        RequestView::GetSegmentGlobalTranslation { .. } => reply is Translation,
        RequestView::GetSegmentGlobalRotationEulerXYZ { .. } => reply matches ReplyView::Rotation(
            ViconRotationType::Euler(_),
        ),
        RequestView::GetSegmentGlobalRotationQuaternion { .. } => reply matches ReplyView::Rotation(
            ViconRotationType::Quaternion(_),
        ),
    }
}

impl DecoderView {
    /// A poll that ends with `error`.
    pub open spec fn fail(error: ErrorView) -> ProgressView {
        ProgressView::Done(Err(error))
    }

    /// The poll after the subject under examination is dealt with: on to the
    /// name of the next subject, or done when it was the last.
    pub open spec fn next_subject(self) -> ProgressView {
        if self.index + 1 < self.subject_count {
            ProgressView::Pending(
                DecoderView {
                    pending: RequestView::GetSubjectName {
                        index: (self.index + 1) as u32,
                        capacity: NAME_BUFFER_CAPACITY,
                    },
                    index: (self.index + 1) as u32,
                    ..self
                },
            )
        } else {
            ProgressView::Done(Ok(self.subjects))
        }
    }

    /// The poll after the rotation of the subject under examination has
    /// arrived clear: the subject is reported, unless its name is not text.
    pub open spec fn report(self, subject: Seq<u8>, rotation: ViconRotationType) -> ProgressView {
        if valid_utf8(subject) {
            (DecoderView {
                subjects: self.subjects.push(
                    SubjectView {
                        name: decode_utf8(subject),
                        origin_mm: vector_of(self.translation.translation),
                        rotation: canonical_rotation(rotation),
                    },
                ),
                ..self
            }).next_subject()
        } else {
            Self::fail(ErrorView::OtherError { message: malformed_name_message() })
        }
    }

    /// The poll after a rotation answer for `subject`.
    pub open spec fn after_rotation(
        self,
        subject: Seq<u8>,
        rotation: ViconRotationType,
    ) -> ProgressView {
        if failure_of(rotation.result_code()) is Some {
            Self::fail(failure_of(rotation.result_code())->Some_0)
        } else if rotation.occluded_flag() != 0 {
            self.next_subject()
        } else {
            self.report(subject, rotation)
        }
    }

    /// Where the poll stands after `reply` has arrived in this state.
    pub open spec fn advance(self, reply: ReplyView) -> ProgressView {
        match (self.pending, reply) {
            (RequestView::GetFrame, ReplyView::Status { result }) => {
                if failure_of(result) is Some {
                    Self::fail(failure_of(result)->Some_0)
                } else {
                    ProgressView::Pending(
                        DecoderView { pending: RequestView::GetSubjectCount, ..self },
                    )
                }
            },
            (RequestView::GetSubjectCount, ReplyView::Count { result, count }) => {
                if failure_of(result) is Some {
                    Self::fail(failure_of(result)->Some_0)
                } else if count == 0 {
                    ProgressView::Done(Ok(self.subjects))
                } else {
                    ProgressView::Pending(
                        DecoderView {
                            pending: RequestView::GetSubjectName {
                                index: 0,
                                capacity: NAME_BUFFER_CAPACITY,
                            },
                            subject_count: count,
                            index: 0,
                            ..self
                        },
                    )
                }
            },
            (RequestView::GetSubjectName { .. }, ReplyView::Name { result, buffer }) => {
                if failure_of(result) is Some {
                    Self::fail(failure_of(result)->Some_0)
                } else {
                    ProgressView::Pending(
                        DecoderView {
                            pending: RequestView::GetSegmentCount { subject: strip_nulls(buffer) },
                            ..self
                        },
                    )
                }
            },
            (RequestView::GetSegmentCount { subject }, ReplyView::Count { result, count }) => {
                if failure_of(result) is Some {
                    Self::fail(failure_of(result)->Some_0)
                } else if count == 0 {
                    self.next_subject()
                } else {
                    ProgressView::Pending(
                        DecoderView {
                            pending: RequestView::GetSegmentName {
                                subject,
                                index: 0,
                                capacity: NAME_BUFFER_CAPACITY,
                            },
                            ..self
                        },
                    )
                }
            },
            (RequestView::GetSegmentName { subject, .. }, ReplyView::Name { result, buffer }) => {
                if failure_of(result) is Some {
                    Self::fail(failure_of(result)->Some_0)
                } else {
                    ProgressView::Pending(
                        DecoderView {
                            pending: RequestView::GetSegmentGlobalTranslation {
                                subject,
                                segment: strip_nulls(buffer),
                            },
                            ..self
                        },
                    )
                }
            },
            (
                RequestView::GetSegmentGlobalTranslation { subject, segment },
                ReplyView::Translation(translation),
            ) => {
                if failure_of(translation.result) is Some {
                    Self::fail(failure_of(translation.result)->Some_0)
                } else if translation.occluded != 0 {
                    self.next_subject()
                } else {
                    ProgressView::Pending(
                        DecoderView {
                            pending: rotation_request(self.rotation, subject, segment),
                            translation,
                            ..self
                        },
                    )
                }
            },
            (
                RequestView::GetSegmentGlobalRotationEulerXYZ { subject, .. },
                ReplyView::Rotation(ViconRotationType::Euler(euler)),
            ) => self.after_rotation(subject, ViconRotationType::Euler(euler)),
            (
                RequestView::GetSegmentGlobalRotationQuaternion { subject, .. },
                ReplyView::Rotation(ViconRotationType::Quaternion(quaternion)),
            ) => self.after_rotation(subject, ViconRotationType::Quaternion(quaternion)),
            _ => Self::fail(ErrorView::OtherError { message: unexpected_reply_message() }),
        }
    }
}

/// Pushing a subject onto a list pushes its view onto the list's views.
proof fn lemma_views_push(subjects: Seq<ViconSubject>, subject: ViconSubject)
    ensures
        subject_views(subjects.push(subject)) == subject_views(subjects).push(subject@),
{
    assert(subject_views(subjects.push(subject)) =~= subject_views(subjects).push(subject@));
}

/// The error for an answer that does not answer the pending query.
fn unexpected_reply() -> (progress: Progress)
    ensures
        progress@ == DecoderView::fail(
            ErrorView::OtherError { message: unexpected_reply_message() },
        ),
{
    let message = "the reply does not answer the pending request".to_owned();
    Progress::Done(Err(ViconError::OtherError { message }))
}

impl FrameDecoder {
    /// A decoder at the start of a poll that is to report rotations in the
    /// representation `rotation`.
    pub fn start(rotation: OutputRotation) -> (decoder: FrameDecoder)
        ensures
            decoder@ == initial_state(rotation),
    {
        let decoder = FrameDecoder {
            rotation,
            pending: Request::GetFrame,
            subject_count: 0,
            index: 0,
            translation: SegmentTranslation { result: 0, translation: [0, 0, 0], occluded: 0 },
            subjects: Vec::new(),
        };
        proof {
            assert(subject_views(decoder.subjects@) =~= Seq::empty());
            assert(decoder.translation.translation == [0u64, 0u64, 0u64]);
        }
        decoder
    }

    /// The query to make now. Its answer is what `advance` takes.
    pub fn request(&self) -> (pending: &Request)
        ensures
            pending@ == self@.pending,
    {
        &self.pending
    }

    /// The index of the subject under examination.
    pub fn index(&self) -> (index: u32)
        ensures
            index == self@.index,
    {
        self.index
    }

    /// Moves on to the subject after the one under examination.
    fn next_subject(
        rotation: OutputRotation,
        subject_count: u32,
        index: u32,
        translation: SegmentTranslation,
        subjects: Vec<ViconSubject>,
    ) -> (progress: Progress)
        ensures
            progress@ == (DecoderView {
                rotation,
                pending: RequestView::GetFrame,
                subject_count,
                index,
                translation,
                subjects: subject_views(subjects@),
            }).next_subject(),
    {
        if subject_count > 0 && index < subject_count - 1 {
            let next: u32 = index + 1;
            Progress::Pending(
                FrameDecoder {
                    rotation,
                    pending: Request::GetSubjectName {
                        index: next,
                        capacity: NAME_BUFFER_CAPACITY,
                    },
                    subject_count,
                    index: next,
                    translation,
                    subjects,
                },
            )
        } else {
            Progress::Done(Ok(subjects))
        }
    }

    /// Takes the answer to the pending query and says where the poll stands.
    ///
    /// A status code other than success ends the poll with the error that
    /// carries the status: no subject is returned then. A subject without
    /// segments, or whose position or rotation is marked occluded, is passed
    /// over without error. Only the first segment of a subject is examined.
    /// An answer of another kind than the pending query asks for ends the
    /// poll with an error, and so does a subject to be reported whose name is
    /// not well-formed UTF-8.
    pub fn advance(self, reply: Reply) -> (progress: Progress)
        ensures
            progress@ == self@.advance(reply@),
    {
        let FrameDecoder { rotation, pending, subject_count, index, translation, subjects } = self;
        match (pending, reply) {
            (Request::GetFrame, Reply::Status { result }) => {
                match ViconError::try_from(result) {
                    Err(error) => Progress::Done(Err(error)),
                    Ok(_) => Progress::Pending(
                        FrameDecoder {
                            rotation,
                            pending: Request::GetSubjectCount,
                            subject_count,
                            index,
                            translation,
                            subjects,
                        },
                    ),
                }
            },
            (Request::GetSubjectCount, Reply::Count { result, count }) => {
                match ViconError::try_from(result) {
                    Err(error) => Progress::Done(Err(error)),
                    Ok(_) => {
                        if count == 0 {
                            Progress::Done(Ok(subjects))
                        } else {
                            Progress::Pending(
                                FrameDecoder {
                                    rotation,
                                    pending: Request::GetSubjectName {
                                        index: 0,
                                        capacity: NAME_BUFFER_CAPACITY,
                                    },
                                    subject_count: count,
                                    index: 0,
                                    translation,
                                    subjects,
                                },
                            )
                        }
                    },
                }
            },
            (Request::GetSubjectName { .. }, Reply::Name { result, buffer }) => {
                match ViconError::try_from(result) {
                    Err(error) => Progress::Done(Err(error)),
                    Ok(_) => {
                        let subject = buffer_to_cstring(&buffer);
                        Progress::Pending(
                            FrameDecoder {
                                rotation,
                                pending: Request::GetSegmentCount { subject },
                                subject_count,
                                index,
                                translation,
                                subjects,
                            },
                        )
                    },
                }
            },
            (Request::GetSegmentCount { subject }, Reply::Count { result, count }) => {
                match ViconError::try_from(result) {
                    Err(error) => Progress::Done(Err(error)),
                    Ok(_) => {
                        if count == 0 {
                            Self::next_subject(
                                rotation,
                                subject_count,
                                index,
                                translation,
                                subjects,
                            )
                        } else {
                            Progress::Pending(
                                FrameDecoder {
                                    rotation,
                                    pending: Request::GetSegmentName {
                                        subject,
                                        index: 0,
                                        capacity: NAME_BUFFER_CAPACITY,
                                    },
                                    subject_count,
                                    index,
                                    translation,
                                    subjects,
                                },
                            )
                        }
                    },
                }
            },
            (Request::GetSegmentName { subject, .. }, Reply::Name { result, buffer }) => {
                match ViconError::try_from(result) {
                    Err(error) => Progress::Done(Err(error)),
                    Ok(_) => {
                        let segment = buffer_to_cstring(&buffer);
                        Progress::Pending(
                            FrameDecoder {
                                rotation,
                                pending: Request::GetSegmentGlobalTranslation { subject, segment },
                                subject_count,
                                index,
                                translation,
                                subjects,
                            },
                        )
                    },
                }
            },
            (
                Request::GetSegmentGlobalTranslation { subject, segment },
                Reply::Translation(segment_translation),
            ) => {
                match ViconError::try_from(segment_translation.result) {
                    Err(error) => Progress::Done(Err(error)),
                    Ok(_) => {
                        if segment_translation.occluded != 0 {
                            Self::next_subject(
                                rotation,
                                subject_count,
                                index,
                                translation,
                                subjects,
                            )
                        } else {
                            let pending = match rotation {
                                OutputRotation::Euler => Request::GetSegmentGlobalRotationEulerXYZ {
                                    subject,
                                    segment,
                                },
                                OutputRotation::Quaternion => {
                                    Request::GetSegmentGlobalRotationQuaternion { subject, segment }
                                },
                            };
                            Progress::Pending(
                                FrameDecoder {
                                    rotation,
                                    pending,
                                    subject_count,
                                    index,
                                    translation: segment_translation,
                                    subjects,
                                },
                            )
                        }
                    },
                }
            },
            (
                Request::GetSegmentGlobalRotationEulerXYZ { subject, .. },
                Reply::Rotation(ViconRotationType::Euler(euler)),
            ) => Self::after_rotation(
                rotation,
                subject_count,
                index,
                translation,
                subjects,
                subject,
                ViconRotationType::Euler(euler),
            ),
            (
                Request::GetSegmentGlobalRotationQuaternion { subject, .. },
                Reply::Rotation(ViconRotationType::Quaternion(quaternion)),
            ) => Self::after_rotation(
                rotation,
                subject_count,
                index,
                translation,
                subjects,
                subject,
                ViconRotationType::Quaternion(quaternion),
            ),
            _ => unexpected_reply(),
        }
    }

    /// Deals with the rotation answer for the subject named `subject`.
    fn after_rotation(
        rotation: OutputRotation,
        subject_count: u32,
        index: u32,
        translation: SegmentTranslation,
        subjects: Vec<ViconSubject>,
        subject: Vec<u8>,
        segment_rotation: ViconRotationType,
    ) -> (progress: Progress)
        ensures
            progress@ == (DecoderView {
                rotation,
                pending: RequestView::GetFrame,
                subject_count,
                index,
                translation,
                subjects: subject_views(subjects@),
            }).after_rotation(subject@, segment_rotation),
    {
        match ViconError::try_from(segment_rotation.result()) {
            Err(error) => Progress::Done(Err(error)),
            Ok(_) => {
                if segment_rotation.occluded() {
                    Self::next_subject(rotation, subject_count, index, translation, subjects)
                } else {
                    match name_text(subject) {
                        None => {
                            let message = "the subject name is not valid UTF-8".to_owned();
                            Progress::Done(Err(ViconError::OtherError { message }))
                        },
                        Some(name) => {
                            match ViconSubject::from_vicon_frame(
                                name,
                                translation,
                                segment_rotation,
                            ) {
                                Err(error) => Progress::Done(Err(error)),
                                Ok(made) => {
                                    let mut subjects = subjects;
                                    proof {
                                        lemma_views_push(subjects@, made);
                                    }
                                    subjects.push(made);
                                    Self::next_subject(
                                        rotation,
                                        subject_count,
                                        index,
                                        translation,
                                        subjects,
                                    )
                                },
                            }
                        },
                    }
                }
            },
        }
    }
}

/// How many of the two opening queries of a poll are still to be answered.
pub open spec fn opening_left(state: DecoderView) -> nat {
    match state.pending {
        RequestView::GetFrame => 2,
        RequestView::GetSubjectCount => 1,
        _ => 0,
    }
}

/// How many subjects are still to be examined, the one under examination
/// included.
pub open spec fn subjects_left(state: DecoderView) -> nat {
    if state.index < state.subject_count {
        (state.subject_count - state.index) as nat
    } else {
        0
    }
}

/// How many queries about the subject under examination may still follow,
/// the pending one included.
pub open spec fn queries_left(state: DecoderView) -> nat {
    match state.pending {
        RequestView::GetSubjectName { .. } => 5,
        RequestView::GetSegmentCount { .. } => 4,
        RequestView::GetSegmentName { .. } => 3,
        RequestView::GetSegmentGlobalTranslation { .. } => 2,
        _ => 1,
    }
}

/// Every answer brings a poll nearer to its end, whoever gives the answers:
/// a caller that makes the query named and hands the answer over, again and
/// again, is done after finitely many queries.
pub proof fn lemma_advance_decreases(state: DecoderView, reply: ReplyView)
    requires
        state.advance(reply) is Pending,
    ensures
        ({
            let next = state.advance(reply)->Pending_0;
            ||| opening_left(next) < opening_left(state)
            ||| opening_left(next) == opening_left(state) && subjects_left(next) < subjects_left(
                state,
            )
            ||| opening_left(next) == opening_left(state) && subjects_left(next) == subjects_left(
                state,
            ) && queries_left(next) < queries_left(state)
        }),
{
}

/// The subjects that a poll holds where it stands: those decoded so far
/// while it goes on, those returned when it is done, none when it failed.
pub open spec fn subjects_held(progress: ProgressView) -> Seq<SubjectView> {
    match progress {
        ProgressView::Pending(state) => state.subjects,
        ProgressView::Done(Ok(subjects)) => subjects,
        ProgressView::Done(Err(_)) => Seq::empty(),
    }
}

/// Whether the poll, where it stands, has left the subject `index` behind:
/// it is done, or it asks for the name of the subject after it.
pub open spec fn moved_past(progress: ProgressView, index: u32) -> bool {
    match progress {
        ProgressView::Pending(state) => state.index == index + 1 && state.pending
            == (RequestView::GetSubjectName {
            index: (index + 1) as u32,
            capacity: NAME_BUFFER_CAPACITY,
        }),
        ProgressView::Done(_) => true,
    }
}

/// A subject with zero segments is never reported: the answer that counts
/// its segments as zero leaves the decoded subjects as they were, and the
/// poll moves past the subject.
pub proof fn lemma_no_segments_not_reported(state: DecoderView, result: i32)
    requires
        state.pending is GetSegmentCount,
        result == SUCCESS_CODE,
    ensures
        subjects_held(state.advance(ReplyView::Count { result, count: 0 })) == state.subjects,
        moved_past(state.advance(ReplyView::Count { result, count: 0 }), state.index),
{
}

/// A subject whose position is marked occluded is never reported, whatever
/// its rotation would have been: the rotation is not even asked for.
pub proof fn lemma_occluded_position_not_reported(
    state: DecoderView,
    translation: SegmentTranslation,
)
    requires
        state.pending is GetSegmentGlobalTranslation,
        translation.result == SUCCESS_CODE,
        translation.occluded != 0,
    ensures
        subjects_held(state.advance(ReplyView::Translation(translation))) == state.subjects,
        moved_past(state.advance(ReplyView::Translation(translation)), state.index),
{
}

/// A subject whose rotation is marked occluded is never reported, though
/// its position was clear.
pub proof fn lemma_occluded_rotation_not_reported(state: DecoderView, rotation: ViconRotationType)
    requires
        state.pending == rotation_request(
            rotation.kind(),
            pending_subject(state.pending),
            pending_segment(state.pending),
        ),
        rotation.result_code() == SUCCESS_CODE,
        rotation.occluded_flag() != 0,
    ensures
        subjects_held(state.advance(ReplyView::Rotation(rotation))) == state.subjects,
        moved_past(state.advance(ReplyView::Rotation(rotation)), state.index),
{
}

/// An answer adds at most one subject, and only in one way: a rotation query
/// is pending, and the answer is a rotation of the pending representation
/// with the success code and not marked occluded. The subject added has the
/// position held since the translation answer and the canonical form of the
/// rotation. In every other case the subjects stay as they were, unless the
/// poll fails.
pub proof fn lemma_reported_only_when_clear(state: DecoderView, reply: ReplyView)
    ensures
        state.advance(reply) is Done && state.advance(reply)->Done_0 is Err || subjects_held(
            state.advance(reply),
        ) == state.subjects || ({
            &&& reply matches ReplyView::Rotation(rotation)
            &&& state.pending == rotation_request(
                rotation.kind(),
                pending_subject(state.pending),
                pending_segment(state.pending),
            )
            &&& rotation.result_code() == SUCCESS_CODE
            &&& rotation.occluded_flag() == 0
            &&& valid_utf8(pending_subject(state.pending))
            &&& subjects_held(state.advance(reply)) == state.subjects.push(
                SubjectView {
                    name: decode_utf8(pending_subject(state.pending)),
                    origin_mm: vector_of(state.translation.translation),
                    rotation: canonical_rotation(rotation),
                },
            )
        }),
{
}

/// A rotation query becomes pending in one way only: a translation query
/// was pending and was answered with the success code and a position that
/// is not marked occluded. That position is the one kept, and the rotation
/// asked for is the one that the caller wants.
pub proof fn lemma_rotation_asked_only_when_position_clear(state: DecoderView, reply: ReplyView)
    requires
        state.advance(reply) matches ProgressView::Pending(next) && (next.pending
            is GetSegmentGlobalRotationEulerXYZ || next.pending
            is GetSegmentGlobalRotationQuaternion),
    ensures
        state.pending is GetSegmentGlobalTranslation,
        reply matches ReplyView::Translation(translation) && translation.result == SUCCESS_CODE
            && translation.occluded == 0 && state.advance(reply)->Pending_0.translation
            == translation,
        state.advance(reply)->Pending_0.pending == rotation_request(
            state.rotation,
            pending_subject(state.pending),
            pending_segment(state.pending),
        ),
{
}

/// A translation query becomes pending in one way only: the name of the
/// first segment was asked for and arrived, which in turn happens only
/// after a segment count that is not zero.
pub proof fn lemma_position_asked_only_when_segments(state: DecoderView, reply: ReplyView)
    ensures
        state.advance(reply) matches ProgressView::Pending(next) && next.pending
            is GetSegmentGlobalTranslation ==> state.pending is GetSegmentName,
        state.advance(reply) matches ProgressView::Pending(next) && next.pending
            is GetSegmentName ==> state.pending is GetSegmentCount && state.advance(
            reply,
        )->Pending_0.pending->GetSegmentName_index == 0 && (reply matches ReplyView::Count {
            count,
            ..
        } && count != 0),
{
}

/// A status code other than success, in an answer of the kind that the
/// pending query asks for, ends the poll with the error that carries the
/// classified status. No subject is returned.
pub proof fn lemma_failure_ends_poll(state: DecoderView, reply: ReplyView)
    requires
        answers(state.pending, reply),
        reply_code(reply) != SUCCESS_CODE,
    ensures
        state.advance(reply) == ProgressView::Done(
            Err(ErrorView::SdkError { source: classify(reply_code(reply)) }),
        ),
{
}

} // verus!
