use cr2_to_jpg::jpeg::{encode_jpeg, DecodedImage, EncodeError, JPEG_QUALITY, MAX_JPEG_SIDE};
use cr2_to_jpg::pipeline::{step, PipelineAction, PipelineError, PipelineEvent, PipelineState};
use image::GenericImageView;

fn red(width: usize, height: usize) -> DecodedImage {
    let mut data = Vec::new();
    for _ in 0..width * height {
        data.extend_from_slice(&[250, 10, 10]);
    }
    DecodedImage { width, height, data }
}

#[test]
fn encoding_gives_a_jpeg_of_the_same_size() {
    let bytes = encode_jpeg(&red(20, 12)).expect("a small image is encoded");
    assert!(bytes.len() > 4);
    assert_eq!(&bytes[..2], &[0xFF, 0xD8]);
    assert_eq!(&bytes[bytes.len() - 2..], &[0xFF, 0xD9]);
    let decoded = image::load_from_memory(&bytes).expect("the bytes are an image");
    assert_eq!(decoded.dimensions(), (20, 12));
    let pixel = decoded.to_rgb8().get_pixel(10, 6).0;
    assert!(pixel[0] > 200 && pixel[1] < 60 && pixel[2] < 60);
}

#[test]
fn encoding_is_a_function_of_the_image() {
    assert_eq!(encode_jpeg(&red(9, 9)), encode_jpeg(&red(9, 9)));
    assert_ne!(encode_jpeg(&red(9, 9)), encode_jpeg(&red(9, 10)));
}

#[test]
fn quality_is_the_best() {
    assert_eq!(JPEG_QUALITY, 100);
    assert_eq!(MAX_JPEG_SIDE, 65535);
}

#[test]
fn too_few_pixels_are_refused() {
    let mut image = red(4, 4);
    image.data.pop();
    assert_eq!(encode_jpeg(&image), Err(EncodeError::PixelsMissing));
    let empty = DecodedImage { width: 1, height: 1, data: Vec::new() };
    assert_eq!(encode_jpeg(&empty), Err(EncodeError::PixelsMissing));
}

#[test]
fn more_pixels_than_needed_are_accepted() {
    let mut image = red(4, 4);
    image.data.extend_from_slice(&[1, 2, 3, 4]);
    assert!(encode_jpeg(&image).is_ok());
}

#[test]
fn a_side_too_long_is_refused() {
    let image = DecodedImage { width: 65536, height: 0, data: Vec::new() };
    assert_eq!(encode_jpeg(&image), Err(EncodeError::TooLarge));
    let image = DecodedImage { width: 0, height: 70000, data: Vec::new() };
    assert_eq!(encode_jpeg(&image), Err(EncodeError::TooLarge));
    let image = DecodedImage { width: usize::MAX, height: 1, data: Vec::new() };
    assert_eq!(encode_jpeg(&image), Err(EncodeError::TooLarge));
}

#[test]
fn the_longest_side_is_accepted() {
    let image = red(65535, 1);
    let bytes = encode_jpeg(&image).expect("a side of 65535 fits");
    let decoded = image::load_from_memory(&bytes).expect("the bytes are an image");
    assert_eq!(decoded.dimensions(), (65535, 1));
}

#[test]
fn pipeline_loads_develops_creates_and_writes() {
    let (state, action) =
        step("shots/a.cr2", "out/a.jpg", PipelineState::Idle, PipelineEvent::Start);
    assert_eq!(state, PipelineState::Loading);
    assert_eq!(action, PipelineAction::Load("shots/a.cr2".to_string()));

    let (state, action) = step("shots/a.cr2", "out/a.jpg", state, PipelineEvent::Loaded(true));
    assert_eq!(state, PipelineState::Developing);
    assert_eq!(action, PipelineAction::Develop("shots/a.cr2".to_string()));

    let (state, action) =
        step("shots/a.cr2", "out/a.jpg", state, PipelineEvent::Developed(Some(red(8, 8))));
    assert_eq!(state, PipelineState::Creating(red(8, 8)));
    assert_eq!(action, PipelineAction::Create("out/a.jpg".to_string()));

    let (state, action) = step("shots/a.cr2", "out/a.jpg", state, PipelineEvent::Created(true));
    assert_eq!(state, PipelineState::Writing);
    match action {
        PipelineAction::Write { path, bytes } => {
            assert_eq!(path, "out/a.jpg");
            assert_eq!(Ok(bytes), encode_jpeg(&red(8, 8)));
        }
        other => panic!("unexpected action {:?}", other),
    }

    let (state, action) = step("shots/a.cr2", "out/a.jpg", state, PipelineEvent::Written(true));
    assert_eq!(state, PipelineState::Done);
    assert_eq!(action, PipelineAction::Finish(Ok(())));
}

#[test]
fn pipeline_ends_at_the_first_failure() {
    let (state, action) = step("a.cr2", "a.jpg", PipelineState::Loading, PipelineEvent::Loaded(false));
    assert_eq!((state, action), (PipelineState::Done, PipelineAction::Finish(Err(PipelineError::Decode))));

    let (state, action) =
        step("a.cr2", "a.jpg", PipelineState::Developing, PipelineEvent::Developed(None));
    assert_eq!((state, action), (PipelineState::Done, PipelineAction::Finish(Err(PipelineError::Decode))));

    let (state, action) =
        step("a.cr2", "a.jpg", PipelineState::Creating(red(2, 2)), PipelineEvent::Created(false));
    assert_eq!((state, action), (PipelineState::Done, PipelineAction::Finish(Err(PipelineError::Create))));

    let broken = DecodedImage { width: 3, height: 3, data: vec![0; 5] };
    let (state, action) =
        step("a.cr2", "a.jpg", PipelineState::Creating(broken), PipelineEvent::Created(true));
    assert_eq!((state, action), (PipelineState::Done, PipelineAction::Finish(Err(PipelineError::Encode))));

    let (state, action) = step("a.cr2", "a.jpg", PipelineState::Writing, PipelineEvent::Written(false));
    assert_eq!((state, action), (PipelineState::Done, PipelineAction::Finish(Err(PipelineError::Encode))));
}

#[test]
fn a_file_that_cannot_be_created_ends_the_pipeline_whatever_the_image() {
    let too_wide = DecodedImage { width: 65536, height: 1, data: vec![0; 3 * 65536] };
    let (state, action) =
        step("a.cr2", "a.jpg", PipelineState::Developing, PipelineEvent::Developed(Some(too_wide.clone())));
    assert_eq!(state, PipelineState::Creating(too_wide.clone()));
    assert_eq!(action, PipelineAction::Create("a.jpg".to_string()));
    let (state, action) = step("a.cr2", "a.jpg", state, PipelineEvent::Created(false));
    assert_eq!((state, action), (PipelineState::Done, PipelineAction::Finish(Err(PipelineError::Create))));

    // Once the file is there, the same image fails in the encoding.
    let (state, action) =
        step("a.cr2", "a.jpg", PipelineState::Creating(too_wide), PipelineEvent::Created(true));
    assert_eq!((state, action), (PipelineState::Done, PipelineAction::Finish(Err(PipelineError::Encode))));
}

#[test]
fn pipeline_rejects_answers_out_of_turn() {
    let (state, action) = step("a.cr2", "a.jpg", PipelineState::Idle, PipelineEvent::Written(true));
    assert_eq!((state, action), (PipelineState::Idle, PipelineAction::Rejected));
    let (state, action) = step("a.cr2", "a.jpg", PipelineState::Done, PipelineEvent::Start);
    assert_eq!((state, action), (PipelineState::Done, PipelineAction::Rejected));
    let (state, action) =
        step("a.cr2", "a.jpg", PipelineState::Loading, PipelineEvent::Developed(Some(red(1, 1))));
    assert_eq!((state, action), (PipelineState::Loading, PipelineAction::Rejected));
    let (state, action) =
        step("a.cr2", "a.jpg", PipelineState::Creating(red(1, 1)), PipelineEvent::Written(true));
    assert_eq!((state, action), (PipelineState::Creating(red(1, 1)), PipelineAction::Rejected));
    let (state, action) = step("a.cr2", "a.jpg", PipelineState::Developing, PipelineEvent::Created(true));
    assert_eq!((state, action), (PipelineState::Developing, PipelineAction::Rejected));
}

#[test]
fn pipeline_errors_have_their_messages() {
    assert_eq!(PipelineError::Decode.message(), "Could not decode file...");
    assert_eq!(PipelineError::Create.message(), "Could not create JPG file...");
    assert_eq!(PipelineError::Encode.message(), "Encoding image in JPEG format failed.");
}
