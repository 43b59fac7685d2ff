//! The RAW pipeline backend: load the RAW file, develop it into pixels,
//! create the JPEG file, encode the pixels and write them to it.
//!
//! The backend is a state machine. Its driver performs each action it is
//! asked for and hands back what came of it.

use crate::jpeg::{encode_jpeg, encoded, DecodedImage, EncodeError};
use vstd::prelude::*;

verus! {

/// Where the backend stands.
#[derive(Clone, Debug, PartialEq, Eq)]
pub enum PipelineState {
    /// Nothing was asked for yet.
    Idle,
    /// The RAW file is being loaded.
    Loading,
    /// The RAW file is being developed into pixels.
    Developing,
    /// The JPEG file is being created, for this image.
    Creating(DecodedImage),
    /// The JPEG file is being written.
    Writing,
    /// The backend has finished.
    Done,
}

/// Why the backend failed.
#[derive(Clone, Copy, Debug, PartialEq, Eq, Structural)]
pub enum PipelineError {
    /// The RAW file could not be loaded or developed.
    Decode,
    /// The JPEG file could not be created.
    Create,
    /// The pixels could not be encoded, or not be written to the JPEG file.
    Encode,
}

/// What the driver reports.
#[derive(Clone, Debug, PartialEq, Eq)]
pub enum PipelineEvent {
    /// The backend is to start.
    Start,
    /// The RAW file was loaded, or not.
    Loaded(bool),
    /// The RAW file was developed into this image, or not.
    Developed(Option<DecodedImage>),
    /// The JPEG file was created, or not.
    Created(bool),
    /// The bytes were written to the JPEG file, or not.
    Written(bool),
}

/// What the backend asks its driver to do.
#[derive(Debug, PartialEq, Eq)]
pub enum PipelineAction {
    /// Load the RAW file at this path.
    Load(String),
    /// Develop the RAW file at this path into 8-bit RGB pixels.
    Develop(String),
    /// Create the file at this path, empty.
    Create(String),
    /// Write `bytes` to the file that was created at `path`.
    Write { path: String, bytes: Vec<u8> },
    /// Nothing more: the backend ended so.
    Finish(Result<(), PipelineError>),
    /// Nothing: the event did not answer what was asked for.
    Rejected,
}

/// An image as plain values: its width, its height and its pixels.
pub type ImageView = (int, int, Seq<u8>);

/// A state as plain values.
pub enum PipelineStateView {
    Idle,
    Loading,
    Developing,
    Creating(ImageView),
    Writing,
    Done,
}

/// An event as plain values.
pub enum PipelineEventView {
    Start,
    Loaded(bool),
    Developed(Option<ImageView>),
    Created(bool),
    Written(bool),
}

/// An action as plain values.
pub enum PipelineActionView {
    Load(Seq<char>),
    Develop(Seq<char>),
    Create(Seq<char>),
    Write { path: Seq<char>, bytes: Seq<u8> },
    Finish(Result<(), PipelineError>),
    Rejected,
}

/// The plain values of an image.
pub open spec fn image_view(image: DecodedImage) -> ImageView {
    (image.width as int, image.height as int, image.data@)
}

impl View for PipelineState {
    type V = PipelineStateView;

    open spec fn view(&self) -> PipelineStateView {
        match self {
            PipelineState::Idle => PipelineStateView::Idle,
            PipelineState::Loading => PipelineStateView::Loading,
            PipelineState::Developing => PipelineStateView::Developing,
            PipelineState::Creating(image) => PipelineStateView::Creating(image_view(*image)),
            PipelineState::Writing => PipelineStateView::Writing,
            PipelineState::Done => PipelineStateView::Done,
        }
    }
}

impl View for PipelineEvent {
    type V = PipelineEventView;

    open spec fn view(&self) -> PipelineEventView {
        match self {
            PipelineEvent::Start => PipelineEventView::Start,
            PipelineEvent::Loaded(ok) => PipelineEventView::Loaded(*ok),
            PipelineEvent::Developed(None) => PipelineEventView::Developed(None),
            PipelineEvent::Developed(Some(image)) => PipelineEventView::Developed(
                Some(image_view(*image)),
            ),
            PipelineEvent::Created(ok) => PipelineEventView::Created(*ok),
            PipelineEvent::Written(ok) => PipelineEventView::Written(*ok),
        }
    }
}

impl View for PipelineAction {
    type V = PipelineActionView;

    open spec fn view(&self) -> PipelineActionView {
        match self {
            PipelineAction::Load(path) => PipelineActionView::Load(path@),
            PipelineAction::Develop(path) => PipelineActionView::Develop(path@),
            PipelineAction::Create(path) => PipelineActionView::Create(path@),
            PipelineAction::Write { path, bytes } => PipelineActionView::Write {
                path: path@,
                bytes: bytes@,
            },
            PipelineAction::Finish(result) => PipelineActionView::Finish(*result),
            PipelineAction::Rejected => PipelineActionView::Rejected,
        }
    }
}

/// The backend's next state and action, for the file `source` that is to be
/// written to `output`.
///
/// The steps follow one another: load, develop, create the file, encode and
/// write. The first that fails ends the backend with its error: a file that
/// cannot be created ends it whatever the image is, and only once the file
/// is there are the pixels encoded. An event that does not answer the
/// pending action changes nothing.
pub open spec fn pipeline_step(
    source: Seq<char>,
    output: Seq<char>,
    state: PipelineStateView,
    event: PipelineEventView,
) -> (PipelineStateView, PipelineActionView) {
    match (state, event) {
        (PipelineStateView::Idle, PipelineEventView::Start) => (
            PipelineStateView::Loading,
            PipelineActionView::Load(source),
        ),
        (PipelineStateView::Loading, PipelineEventView::Loaded(true)) => (
            PipelineStateView::Developing,
            PipelineActionView::Develop(source),
        ),
        (PipelineStateView::Loading, PipelineEventView::Loaded(false)) => (
            PipelineStateView::Done,
            PipelineActionView::Finish(Err(PipelineError::Decode)),
        ),
        (PipelineStateView::Developing, PipelineEventView::Developed(None)) => (
            PipelineStateView::Done,
            PipelineActionView::Finish(Err(PipelineError::Decode)),
        ),
        (PipelineStateView::Developing, PipelineEventView::Developed(Some(image))) => (
            PipelineStateView::Creating(image),
            PipelineActionView::Create(output),
        ),
        (PipelineStateView::Creating(_), PipelineEventView::Created(false)) => (
            PipelineStateView::Done,
            PipelineActionView::Finish(Err(PipelineError::Create)),
        ),
        (PipelineStateView::Creating(image), PipelineEventView::Created(true)) => {
            match encoded(image.0, image.1, image.2) {
                Ok(bytes) => (
                    PipelineStateView::Writing,
                    PipelineActionView::Write { path: output, bytes },
                ),
                Err(_) => (
                    PipelineStateView::Done,
                    PipelineActionView::Finish(Err(PipelineError::Encode)),
                ),
            }
        },
        (PipelineStateView::Writing, PipelineEventView::Written(true)) => (
            PipelineStateView::Done,
            PipelineActionView::Finish(Ok(())),
        ),
        (PipelineStateView::Writing, PipelineEventView::Written(false)) => (
            PipelineStateView::Done,
            PipelineActionView::Finish(Err(PipelineError::Encode)),
        ),
        _ => (state, PipelineActionView::Rejected),
    }
}

/// The text of a backend error.
pub open spec fn pipeline_error_text(error: PipelineError) -> Seq<char> {
    match error {
        PipelineError::Decode => "Could not decode file..."@,
        PipelineError::Create => "Could not create JPG file..."@,
        PipelineError::Encode => "Encoding image in JPEG format failed."@,
    }
}

impl PipelineError {
    /// Says what went wrong.
    pub fn message(&self) -> (text: String)
        ensures
            text@ == pipeline_error_text(*self),
    {
        match self {
            PipelineError::Decode => String::from_str("Could not decode file..."),
            PipelineError::Create => String::from_str("Could not create JPG file..."),
            PipelineError::Encode => String::from_str("Encoding image in JPEG format failed."),
        }
    }
}

/// Moves the backend one step: takes what the driver reports and says what
/// to do next for the file `source`, whose JPEG goes to `output`.
pub fn step(
    source: &str,
    output: &str,
    state: PipelineState,
    event: PipelineEvent,
) -> (next: (PipelineState, PipelineAction))
    ensures
        (next.0@, next.1@) == pipeline_step(source@, output@, state@, event@),
{
    match (state, event) {
        (PipelineState::Idle, PipelineEvent::Start) => (
            PipelineState::Loading,
            PipelineAction::Load(String::from_str(source)),
        ),
        (PipelineState::Loading, PipelineEvent::Loaded(true)) => (
            PipelineState::Developing,
            PipelineAction::Develop(String::from_str(source)),
        ),
        (PipelineState::Loading, PipelineEvent::Loaded(false)) => (
            PipelineState::Done,
            PipelineAction::Finish(Err(PipelineError::Decode)),
        ),
        (PipelineState::Developing, PipelineEvent::Developed(None)) => (
            PipelineState::Done,
            PipelineAction::Finish(Err(PipelineError::Decode)),
        ),
        (PipelineState::Developing, PipelineEvent::Developed(Some(image))) => (
            PipelineState::Creating(image),
            PipelineAction::Create(String::from_str(output)),
        ),
        (PipelineState::Creating(_), PipelineEvent::Created(false)) => (
            PipelineState::Done,
            PipelineAction::Finish(Err(PipelineError::Create)),
        ),
        (PipelineState::Creating(image), PipelineEvent::Created(true)) => {
            match encode_jpeg(&image) {
                Ok(bytes) => (
                    PipelineState::Writing,
                    PipelineAction::Write { path: String::from_str(output), bytes },
                ),
                Err(_) => (PipelineState::Done, PipelineAction::Finish(Err(PipelineError::Encode))),
            }
        },
        (PipelineState::Writing, PipelineEvent::Written(true)) => (
            PipelineState::Done,
            PipelineAction::Finish(Ok(())),
        ),
        (PipelineState::Writing, PipelineEvent::Written(false)) => (
            PipelineState::Done,
            PipelineAction::Finish(Err(PipelineError::Encode)),
        ),
        (state, _) => (state, PipelineAction::Rejected),
    }
}

/// How the backend ends where the loading, the developing, the creating of
/// the file and the writing end as told: with the error of the first step
/// that fails, else in success. The encoding stands between the creating
/// and the writing.
pub open spec fn pipeline_result(
    loaded: bool,
    developed: Option<ImageView>,
    created: bool,
    written: bool,
) -> Result<(), PipelineError> {
    if !loaded {
        Err(PipelineError::Decode)
    } else {
        match developed {
            None => Err(PipelineError::Decode),
            Some(image) => if !created {
                Err(PipelineError::Create)
            } else if encoded(image.0, image.1, image.2) is Err {
                Err(PipelineError::Encode)
            } else if !written {
                Err(PipelineError::Encode)
            } else {
                Ok(())
            },
        }
    }
}

/// The backend from its start to its end: it asks for the loading, then the
/// developing, then the creating of the file, then the writing, each once
/// and only where the step before went well, and ends as `pipeline_result`
/// says. Where the file cannot be created the backend ends with that error,
/// whether or not the image could have been encoded.
pub proof fn lemma_pipeline_to_end(
    source: Seq<char>,
    output: Seq<char>,
    loaded: bool,
    developed: Option<ImageView>,
    created: bool,
    written: bool,
)
    ensures
        ({
            let end = PipelineActionView::Finish(
                pipeline_result(loaded, developed, created, written),
            );
            let begun = pipeline_step(
                source,
                output,
                PipelineStateView::Idle,
                PipelineEventView::Start,
            );
            let read = pipeline_step(source, output, begun.0, PipelineEventView::Loaded(loaded));
            let drawn = pipeline_step(
                source,
                output,
                read.0,
                PipelineEventView::Developed(developed),
            );
            let made = pipeline_step(source, output, drawn.0, PipelineEventView::Created(created));
            let kept = pipeline_step(source, output, made.0, PipelineEventView::Written(written));
            &&& begun.1 == PipelineActionView::Load(source)
            &&& if !loaded {
                read == (PipelineStateView::Done, end)
            } else {
                &&& read.1 == PipelineActionView::Develop(source)
                &&& match developed {
                    None => drawn == (PipelineStateView::Done, end),
                    Some(image) => {
                        &&& drawn.1 == PipelineActionView::Create(output)
                        &&& if !created {
                            made == (PipelineStateView::Done, end)
                        } else {
                            match encoded(image.0, image.1, image.2) {
                                Err(_) => made == (PipelineStateView::Done, end),
                                Ok(bytes) => {
                                    &&& made.1 == (PipelineActionView::Write {
                                        path: output,
                                        bytes,
                                    })
                                    &&& kept == (PipelineStateView::Done, end)
                                },
                            }
                        }
                    },
                }
            }
        }),
{
}

/// The backend asks for bytes to be written only once the file was created
/// for an image that was developed: what it has written is the encoding of
/// that image, and where it has it written is the output path.
pub proof fn lemma_store_follows_decoding(
    source: Seq<char>,
    output: Seq<char>,
    state: PipelineStateView,
    event: PipelineEventView,
)
    requires
        pipeline_step(source, output, state, event).1 is Write,
    ensures
        event == PipelineEventView::Created(true),
        state matches PipelineStateView::Creating(image) && encoded(image.0, image.1, image.2)
            == Ok::<Seq<u8>, EncodeError>(pipeline_step(source, output, state, event).1->bytes),
        pipeline_step(source, output, state, event).1->path == output,
{
}

/// The file is created only for an image that was developed, and the image
/// is kept for the encoding.
pub proof fn lemma_create_follows_developing(
    source: Seq<char>,
    output: Seq<char>,
    state: PipelineStateView,
    event: PipelineEventView,
)
    requires
        pipeline_step(source, output, state, event).1 is Create,
    ensures
        state == PipelineStateView::Developing,
        event matches PipelineEventView::Developed(Some(image)) && pipeline_step(
            source,
            output,
            state,
            event,
        ) == (PipelineStateView::Creating(image), PipelineActionView::Create(output)),
{
}

/// The backend reports success only for a file that was written.
pub proof fn lemma_success_follows_store(
    source: Seq<char>,
    output: Seq<char>,
    state: PipelineStateView,
    event: PipelineEventView,
)
    requires
        pipeline_step(source, output, state, event).1 == PipelineActionView::Finish(Ok(())),
    ensures
        state == PipelineStateView::Writing,
        event == PipelineEventView::Written(true),
{
}

} // verus!
