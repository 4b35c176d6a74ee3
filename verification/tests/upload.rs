use image::{DynamicImage, GenericImageView, ImageOutputFormat, Rgb, RgbImage};
use image_optimizer::reply::{Rejection, Reply};
use image_optimizer::transcode::transcode;
use image_optimizer::transcode::TranscodeError;
use image_optimizer::upload::{
    close, is_image_field, part_done, Action, Event, Step, Upload, IMAGE_FIELD,
};
use std::io::Cursor;

fn png(width: u32, height: u32) -> Vec<u8> {
    let img = DynamicImage::ImageRgb8(RgbImage::from_fn(width, height, |x, y| {
        Rgb([(x % 256) as u8, (y % 256) as u8, 99])
    }));
    let mut buffer = Cursor::new(Vec::new());
    img.write_to(&mut buffer, ImageOutputFormat::Png).unwrap();
    buffer.into_inner()
}

fn part(name: &str) -> Event {
    Event::Part { name: Some(name.to_string()) }
}

/// Feeds the events in order, up to the first reply.
fn feed(events: Vec<Event>) -> Step {
    let mut upload = Upload::start();
    for event in events {
        match upload.step(event) {
            Step::Continue(next) => upload = next,
            Step::Finish(reply) => return Step::Finish(reply),
        }
    }
    Step::Continue(upload)
}

fn reply_to(events: Vec<Event>) -> Reply {
    match feed(events) {
        Step::Finish(reply) => reply,
        Step::Continue(upload) => panic!("no reply yet: {:?}", upload),
    }
}

fn state_after(events: Vec<Event>) -> Upload {
    match feed(events) {
        Step::Continue(upload) => upload,
        Step::Finish(reply) => panic!("already replied: {:?}", reply),
    }
}

fn image_part_in_chunks(bytes: &[u8], size: usize) -> Vec<Event> {
    let mut events = vec![part("image")];
    for chunk in bytes.chunks(size) {
        events.push(Event::Chunk { data: chunk.to_vec() });
    }
    events.push(Event::PartEnd);
    events
}

#[test]
fn the_field_is_called_image() {
    assert_eq!(IMAGE_FIELD, "image");
    assert!(is_image_field(&Some("image".to_string())));
    assert!(!is_image_field(&Some("Image".to_string())));
    assert!(!is_image_field(&Some("image ".to_string())));
    assert!(!is_image_field(&Some("images".to_string())));
    assert!(!is_image_field(&Some(String::new())));
    assert!(!is_image_field(&None));
}

#[test]
fn a_conversation_starts_by_looking_for_a_part() {
    let upload = Upload::start();
    assert_eq!(upload, Upload::Scanning { output: vec![] });
    assert_eq!(upload.awaits(), Action::NextPart);
}

#[test]
fn inside_the_image_part_the_machine_waits_for_chunks() {
    let upload = state_after(vec![part("image")]);
    assert_eq!(upload.awaits(), Action::NextChunk);
    let upload = state_after(vec![part("image"), Event::Chunk { data: vec![1] }]);
    assert_eq!(upload.awaits(), Action::NextChunk);
    let upload = state_after(vec![part("other")]);
    assert_eq!(upload.awaits(), Action::NextPart);
}

#[test]
fn closing_without_output_reports_the_missing_image() {
    assert_eq!(close(vec![]), Reply::Rejected(Rejection::MissingImage));
    assert_eq!(close(vec![1, 2, 3]), Reply::Image(vec![1, 2, 3]));
}

#[test]
fn the_result_of_the_pipeline_decides_after_an_image_part() {
    assert_eq!(
        part_done(Ok(vec![9, 9])),
        Step::Continue(Upload::Scanning { output: vec![9, 9] })
    );
    assert_eq!(
        part_done(Err(TranscodeError::InvalidImage)),
        Step::Finish(Reply::Rejected(Rejection::InvalidFormat))
    );
    assert_eq!(
        part_done(Err(TranscodeError::EncodeFailed)),
        Step::Finish(Reply::Failed)
    );
}

#[test]
fn empty_body_is_rejected_as_missing_image() {
    assert_eq!(
        reply_to(vec![Event::End]),
        Reply::Rejected(Rejection::MissingImage)
    );
}

#[test]
fn body_without_image_field_yields_400_no_image_found() {
    let reply = reply_to(vec![part("file"), part("comment"), Event::End]);
    assert_eq!(reply.status(), 400);
    assert_eq!(reply, Reply::Rejected(Rejection::MissingImage));
    assert_eq!(reply.text(), Some("No image found in request"));
}

#[test]
fn other_parts_are_passed_over() {
    assert_eq!(
        state_after(vec![part("file")]),
        Upload::Scanning { output: vec![] }
    );
    assert_eq!(
        state_after(vec![Event::Part { name: None }]),
        Upload::Scanning { output: vec![] }
    );
}

#[test]
fn unreadable_body_without_image_is_rejected_as_missing_image() {
    assert_eq!(
        reply_to(vec![part("file"), Event::Unreadable]),
        Reply::Rejected(Rejection::MissingImage)
    );
}

#[test]
fn image_part_is_collected_chunk_by_chunk() {
    let upload = state_after(vec![
        part("image"),
        Event::Chunk { data: vec![1, 2] },
        Event::Chunk { data: vec![] },
        Event::Chunk { data: vec![3] },
    ]);
    assert_eq!(upload, Upload::Reading { output: vec![], body: vec![1, 2, 3] });
}

#[test]
fn upload_of_2000_by_1000_png_yields_jpeg_1024_by_512() {
    let bytes = png(2000, 1000);
    let mut events = image_part_in_chunks(&bytes, 4096);
    events.push(Event::End);
    let reply = reply_to(events);
    assert_eq!(reply.status(), 200);
    assert_eq!(reply.headers().len(), 2);
    match reply {
        Reply::Image(jpeg) => {
            let back = image::load_from_memory(&jpeg).unwrap();
            assert_eq!(image::guess_format(&jpeg).unwrap(), image::ImageFormat::Jpeg);
            assert_eq!(back.dimensions(), (1024, 512));
        }
        other => panic!("no image: {:?}", other),
    }
}

#[test]
fn upload_of_500_by_500_png_yields_jpeg_500_by_500() {
    let bytes = png(500, 500);
    let mut events = image_part_in_chunks(&bytes, 1000);
    events.push(Event::End);
    match reply_to(events) {
        Reply::Image(jpeg) => {
            let back = image::load_from_memory(&jpeg).unwrap();
            assert_eq!(back.dimensions(), (500, 500));
        }
        other => panic!("no image: {:?}", other),
    }
}

#[test]
fn upload_of_text_as_image_yields_400() {
    let reply = reply_to(image_part_in_chunks(b"this is a text file, not a picture", 8));
    assert_eq!(reply.status(), 400);
    assert_eq!(reply, Reply::Rejected(Rejection::InvalidFormat));
    assert_eq!(reply.text(), Some("Invalid image format"));
}

#[test]
fn empty_image_part_counts_as_no_image() {
    let events = vec![part("image"), Event::PartEnd];
    assert_eq!(state_after(events), Upload::Scanning { output: vec![] });
    let reply = reply_to(vec![part("image"), Event::PartEnd, Event::End]);
    assert_eq!(reply.status(), 400);
    assert_eq!(reply, Reply::Rejected(Rejection::MissingImage));
    let reply = reply_to(vec![
        part("image"),
        Event::Chunk { data: vec![] },
        Event::PartEnd,
        part("note"),
        Event::End,
    ]);
    assert_eq!(reply, Reply::Rejected(Rejection::MissingImage));
}

#[test]
fn empty_image_part_keeps_the_image_before_it() {
    let bytes = png(20, 10);
    let expected = transcode(&bytes).unwrap();
    let mut events = image_part_in_chunks(&bytes, 16);
    events.push(part("image"));
    events.push(Event::PartEnd);
    events.push(Event::End);
    assert_eq!(reply_to(events), Reply::Image(expected));
}

#[test]
fn the_cut_into_chunks_does_not_matter() {
    let bytes = png(40, 30);
    let whole = transcode(&bytes).unwrap();
    for size in [1, 7, 64, bytes.len()] {
        let upload = state_after(image_part_in_chunks(&bytes, size));
        assert_eq!(upload, Upload::Scanning { output: whole.clone() });
        assert_eq!(upload.awaits(), Action::NextPart);
    }
}

#[test]
fn broken_image_part_is_rejected_without_a_reason() {
    let reply = reply_to(vec![
        part("image"),
        Event::Chunk { data: png(10, 10) },
        Event::ChunkFailed,
    ]);
    assert_eq!(reply.status(), 400);
    assert_eq!(reply, Reply::Rejected(Rejection::BrokenUpload));
    assert_eq!(reply.text(), None);
}

#[test]
fn image_that_cannot_be_encoded_yields_500() {
    let mut buffer = Cursor::new(Vec::new());
    DynamicImage::new_rgb16(6, 6)
        .write_to(&mut buffer, ImageOutputFormat::Png)
        .unwrap();
    let reply = reply_to(image_part_in_chunks(&buffer.into_inner(), 50));
    assert_eq!(reply.status(), 500);
    assert_eq!(reply, Reply::Failed);
    assert_eq!(reply.text(), None);
    assert!(reply.headers().is_empty());
}

#[test]
fn parts_around_the_image_are_ignored() {
    let bytes = png(20, 10);
    let expected = transcode(&bytes).unwrap();
    let mut events = vec![part("title")];
    events.extend(image_part_in_chunks(&bytes, 16));
    events.push(part("note"));
    events.push(Event::End);
    assert_eq!(reply_to(events), Reply::Image(expected));
}

#[test]
fn the_last_image_part_wins() {
    let first = png(20, 10);
    let second = png(30, 15);
    let expected = transcode(&second).unwrap();
    let mut events = image_part_in_chunks(&first, 16);
    events.extend(image_part_in_chunks(&second, 16));
    events.push(Event::End);
    assert_eq!(reply_to(events), Reply::Image(expected));
}

#[test]
fn an_invalid_image_part_ends_the_upload_even_after_a_valid_one() {
    let mut events = image_part_in_chunks(&png(20, 10), 16);
    events.extend(image_part_in_chunks(b"garbage", 16));
    assert_eq!(reply_to(events), Reply::Rejected(Rejection::InvalidFormat));
}

#[test]
fn unreadable_body_after_an_image_still_yields_the_image() {
    let bytes = png(20, 10);
    let expected = transcode(&bytes).unwrap();
    let mut events = image_part_in_chunks(&bytes, 16);
    events.push(Event::Unreadable);
    assert_eq!(reply_to(events), Reply::Image(expected));
}

#[test]
fn events_out_of_turn_change_nothing() {
    let upload = state_after(vec![
        Event::Chunk { data: vec![1] },
        Event::PartEnd,
        Event::ChunkFailed,
    ]);
    assert_eq!(upload, Upload::Scanning { output: vec![] });

    let upload = state_after(vec![
        part("image"),
        Event::Chunk { data: vec![7] },
        part("image"),
        Event::End,
        Event::Unreadable,
    ]);
    assert_eq!(upload, Upload::Reading { output: vec![], body: vec![7] });
}

#[test]
fn the_conversation_is_over_with_the_first_reply() {
    let reply = reply_to(vec![Event::End, part("image"), Event::End]);
    assert_eq!(reply, Reply::Rejected(Rejection::MissingImage));
}
