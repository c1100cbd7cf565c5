//! What the node client computes before it hands a request to the worker.
use vstd::prelude::*;

use emailmessage::{header, Message, SinglePart};

use crate::models::{status_text, MessageModel, MessageStatus, MessageView};

verus! {

/// The bytes of a MIME message with the given subject and a single
/// `text/plain; charset=utf8` part holding `body` in quoted-printable
/// transfer encoding (as `emailmessage` formats it).
pub uninterp spec fn mime_text_message(subject: Seq<char>, body: Seq<char>) -> Seq<u8>;

/// Calls `emailmessage`'s `Message::builder().subject(..).mime_body(..)` with a
/// single part built by `SinglePart::builder()` (content type
/// `text/plain; charset=utf8`, quoted-printable transfer encoding), then formats
/// it with `to_string` and takes the bytes. Trusted: the result is the named
/// message of `subject` and `body`. The builder adds no date and no random
/// header, so the same arguments give the same bytes.
#[verifier::external_body]
fn format_text_message(subject: &str, body: &str) -> (r: Vec<u8>)
    ensures
        r@ == mime_text_message(subject@, body@),
{
    let m: Message<SinglePart<&str>> = Message::builder().subject(subject).mime_body(
        SinglePart::builder().header(header::ContentType(
            "text/plain; charset=utf8".parse().unwrap(),
        )).header(header::ContentTransferEncoding::QuotedPrintable).body(body),
    );
    m.to_string().into_bytes()
}

/// The message record that sending a message starts from: no hash yet, status
/// `Unknown`, no signature, and the MIME text of the title and body as data.
pub fn compose_outgoing_message(
    from: &String,
    to: String,
    title: &String,
    body: &String,
    created_at: i64,
) -> (r: MessageModel)
    ensures
        r@ == (MessageView {
            hash: Seq::empty(),
            sender: from@,
            recipient: to@,
            created_at,
            status: status_text(MessageStatus::Unknown),
            signature: Seq::empty(),
            data: mime_text_message(title@, body@),
        }),
{
    let data = format_text_message(title.as_str(), body.as_str());
    MessageModel {
        hash: String::new(),
        sender: from.clone(),
        recipient: to,
        created_at,
        status: MessageStatus::Unknown.to_string(),
        signature: Vec::new(),
        data,
    }
}

} // verus!
