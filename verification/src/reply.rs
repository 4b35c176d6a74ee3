//! What the service answers: a tagged value that the transport layer turns
//! into a status line, headers and a body.

use vstd::prelude::*;

verus! {

/// Media type of a processed image.
pub const JPEG_CONTENT_TYPE: &'static str = "image/jpeg";

/// `Content-Disposition` of a processed image: a download named
/// `processed.jpg`.
pub const JPEG_DISPOSITION: &'static str = "attachment; filename=\"processed.jpg\"";

/// Name of the header that carries the media type.
pub const CONTENT_TYPE: &'static str = "Content-Type";

/// Name of the header that says how the body is to be presented.
pub const CONTENT_DISPOSITION: &'static str = "Content-Disposition";

/// Name of the one member of the liveness document.
pub const HEALTH_MEMBER: &'static str = "status";

/// Value of that member.
pub const HEALTH_STATUS: &'static str = "ok";

/// Why an upload was turned away as the client's fault.
#[derive(Clone, Copy, Debug, PartialEq, Eq, Structural)]
pub enum Rejection {
    /// The body held no part named `image`.
    MissingImage,
    /// The `image` part is not an image the decoder recognises.
    InvalidFormat,
    /// Reading the `image` part broke off.
    BrokenUpload,
}

/// An answer of the service.
#[derive(Debug, PartialEq, Eq)]
pub enum Reply {
    /// The service is up.
    Alive,
    /// The processed image, as JPEG bytes.
    Image(Vec<u8>),
    /// The request is at fault.
    Rejected(Rejection),
    /// The image was understood but could not be encoded.
    Failed,
}

/// A `Reply` as a mathematical value.
pub enum ReplyView {
    Alive,
    Image(Seq<u8>),
    Rejected(Rejection),
    Failed,
}

impl View for Reply {
    type V = ReplyView;

    open spec fn view(&self) -> ReplyView {
        match *self {
            Reply::Alive => ReplyView::Alive,
            Reply::Image(bytes) => ReplyView::Image(bytes@),
            Reply::Rejected(why) => ReplyView::Rejected(why),
            Reply::Failed => ReplyView::Failed,
        }
    }
}

/// The HTTP status that goes with a reply: 200 for a success, 400 where
/// the request is at fault, 500 where the service is.
pub open spec fn status_of(reply: ReplyView) -> u16 {
    match reply {
        ReplyView::Alive => 200,
        ReplyView::Image(_) => 200,
        ReplyView::Rejected(_) => 400,
        ReplyView::Failed => 500,
    }
}

/// The plain text sent with a rejection, where one is sent.
pub open spec fn reason_of(why: Rejection) -> Option<Seq<char>> {
    match why {
        Rejection::MissingImage => Some("No image found in request"@),
        Rejection::InvalidFormat => Some("Invalid image format"@),
        Rejection::BrokenUpload => None,
    }
}

/// The headers that go with a reply, as pairs of name and value, in the
/// order they are set: media type and disposition with an image, none
/// otherwise.
pub open spec fn headers_of(reply: ReplyView) -> Seq<(Seq<char>, Seq<char>)> {
    match reply {
        ReplyView::Image(_) => seq![
            (CONTENT_TYPE@, JPEG_CONTENT_TYPE@),
            (CONTENT_DISPOSITION@, JPEG_DISPOSITION@),
        ],
        _ => Seq::empty(),
    }
}

/// The JSON document that goes with a reply, as the name and the string
/// value of its one member: `status` is `ok` for the liveness reply; no
/// other reply has a document.
pub open spec fn document_of(reply: ReplyView) -> Option<(Seq<char>, Seq<char>)> {
    match reply {
        ReplyView::Alive => Some((HEALTH_MEMBER@, HEALTH_STATUS@)),
        _ => None,
    }
}

/// The plain text that goes with a reply: the reason of a rejection that
/// has one.
pub open spec fn text_of(reply: ReplyView) -> Option<Seq<char>> {
    match reply {
        ReplyView::Rejected(why) => reason_of(why),
        _ => None,
    }
}

/// The bytes that go with a reply: the JPEG of an image reply. No other
/// reply carries image bytes.
pub open spec fn image_of(reply: ReplyView) -> Option<Seq<u8>> {
    match reply {
        ReplyView::Image(bytes) => Some(bytes),
        _ => None,
    }
}

/// Image bytes are sent with status 200 and with no other: a reply that
/// carries them has the two headers and neither text nor document.
pub proof fn lemma_image_only_with_success(reply: ReplyView)
    ensures
        image_of(reply) is Some ==> status_of(reply) == 200 && headers_of(reply).len() == 2
            && text_of(reply) is None && document_of(reply) is None,
        status_of(reply) != 200 ==> image_of(reply) is None && headers_of(reply).len() == 0,
        status_of(reply) == 200 || status_of(reply) == 400 || status_of(reply) == 500,
{
}

impl Rejection {
    /// The plain text to send with this rejection, if any.
    pub fn reason(&self) -> (text: Option<&'static str>)
        ensures
            match text {
                Some(t) => reason_of(*self) == Some(t@),
                None => reason_of(*self) is None,
            },
    {
        match self {
            Rejection::MissingImage => Some("No image found in request"),
            Rejection::InvalidFormat => Some("Invalid image format"),
            Rejection::BrokenUpload => None,
        }
    }
}

impl Reply {
    /// The headers to send with this reply, in order.
    pub fn headers(&self) -> (list: Vec<(&'static str, &'static str)>)
        ensures
            list@.len() == headers_of(self@).len(),
            forall|i: int|
                0 <= i < list@.len() ==> (#[trigger] list@[i]).0@ == headers_of(self@)[i].0
                    && list@[i].1@ == headers_of(self@)[i].1,
    {
        let mut list: Vec<(&'static str, &'static str)> = Vec::new();
        match self {
            Reply::Image(_) => {
                list.push((CONTENT_TYPE, JPEG_CONTENT_TYPE));
                list.push((CONTENT_DISPOSITION, JPEG_DISPOSITION));
            },
            _ => {},
        }
        list
    }

    /// The JSON document to send with this reply, if any: the name and the
    /// string value of its one member.
    pub fn document(&self) -> (member: Option<(&'static str, &'static str)>)
        ensures
            match member {
                Some((name, value)) => document_of(self@) == Some((name@, value@)),
                None => document_of(self@) is None,
            },
    {
        match self {
            Reply::Alive => Some((HEALTH_MEMBER, HEALTH_STATUS)),
            _ => None,
        }
    }

    /// The plain text to send with this reply, if any.
    pub fn text(&self) -> (text: Option<&'static str>)
        ensures
            match text {
                Some(t) => text_of(self@) == Some(t@),
                None => text_of(self@) is None,
            },
    {
        match self {
            Reply::Rejected(why) => why.reason(),
            _ => None,
        }
    }

    /// The HTTP status to send with this reply.
    pub fn status(&self) -> (code: u16)
        ensures
            code == status_of(self@),
    {
        match self {
            Reply::Alive => 200,
            Reply::Image(_) => 200,
            Reply::Rejected(_) => 400,
            Reply::Failed => 500,
        }
    }
}

/// The answer to a liveness probe. It takes no input and reads no state:
/// whatever was uploaded before, the answer is the same, status 200 with
/// the document whose member `status` is `ok`.
pub fn health() -> (reply: Reply)
    ensures
        reply@ == ReplyView::Alive,
        status_of(reply@) == 200,
        document_of(reply@) == Some((HEALTH_MEMBER@, HEALTH_STATUS@)),
{
    Reply::Alive
}

} // verus!
