use image_optimizer::reply::{
    health, Rejection, Reply, CONTENT_DISPOSITION, CONTENT_TYPE, HEALTH_MEMBER, HEALTH_STATUS,
    JPEG_CONTENT_TYPE, JPEG_DISPOSITION,
};

#[test]
fn health_is_alive_with_status_200() {
    let reply = health();
    assert_eq!(reply, Reply::Alive);
    assert_eq!(reply.status(), 200);
    assert_eq!(HEALTH_STATUS, "ok");
}

#[test]
fn health_is_the_same_every_time() {
    let first = health();
    let _ = Reply::Failed.status();
    let _ = Reply::Rejected(Rejection::MissingImage).status();
    assert_eq!(health(), first);
}

#[test]
fn health_document_is_status_ok() {
    assert_eq!(HEALTH_MEMBER, "status");
    let (member, value) = health().document().unwrap();
    assert_eq!((member, value), ("status", "ok"));
    let mut document = serde_json::Map::new();
    document.insert(member.to_string(), serde_json::Value::from(value));
    assert_eq!(
        serde_json::Value::Object(document).to_string(),
        "{\"status\":\"ok\"}"
    );
}

#[test]
fn only_the_liveness_reply_has_a_document() {
    assert_eq!(Reply::Image(vec![1]).document(), None);
    assert_eq!(Reply::Rejected(Rejection::MissingImage).document(), None);
    assert_eq!(Reply::Failed.document(), None);
}

#[test]
fn an_image_is_sent_as_a_jpeg_download() {
    assert_eq!(CONTENT_TYPE, "Content-Type");
    assert_eq!(CONTENT_DISPOSITION, "Content-Disposition");
    assert_eq!(
        Reply::Image(vec![0xff, 0xd8]).headers(),
        vec![
            ("Content-Type", "image/jpeg"),
            ("Content-Disposition", "attachment; filename=\"processed.jpg\""),
        ]
    );
}

#[test]
fn no_other_reply_has_headers() {
    assert!(Reply::Alive.headers().is_empty());
    assert!(Reply::Rejected(Rejection::InvalidFormat).headers().is_empty());
    assert!(Reply::Failed.headers().is_empty());
}

#[test]
fn only_rejections_have_text() {
    assert_eq!(
        Reply::Rejected(Rejection::MissingImage).text(),
        Some("No image found in request")
    );
    assert_eq!(
        Reply::Rejected(Rejection::InvalidFormat).text(),
        Some("Invalid image format")
    );
    assert_eq!(Reply::Rejected(Rejection::BrokenUpload).text(), None);
    assert_eq!(Reply::Alive.text(), None);
    assert_eq!(Reply::Image(vec![1]).text(), None);
    assert_eq!(Reply::Failed.text(), None);
}

#[test]
fn an_image_is_sent_with_status_200() {
    assert_eq!(Reply::Image(vec![0xff, 0xd8]).status(), 200);
}

#[test]
fn every_rejection_is_status_400() {
    assert_eq!(Reply::Rejected(Rejection::MissingImage).status(), 400);
    assert_eq!(Reply::Rejected(Rejection::InvalidFormat).status(), 400);
    assert_eq!(Reply::Rejected(Rejection::BrokenUpload).status(), 400);
}

#[test]
fn an_encoder_failure_is_status_500() {
    assert_eq!(Reply::Failed.status(), 500);
}

#[test]
fn rejections_carry_their_reason() {
    assert_eq!(
        Rejection::MissingImage.reason(),
        Some("No image found in request")
    );
    assert_eq!(Rejection::InvalidFormat.reason(), Some("Invalid image format"));
    assert_eq!(Rejection::BrokenUpload.reason(), None);
}

#[test]
fn jpeg_headers_name_the_download() {
    assert_eq!(JPEG_CONTENT_TYPE, "image/jpeg");
    assert_eq!(JPEG_DISPOSITION, "attachment; filename=\"processed.jpg\"");
}
