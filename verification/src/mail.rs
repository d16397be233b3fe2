//! The part of the `lettre` crate that messages are made with.
//!
//! Nothing here is proved. Each item states what this library takes for
//! granted about a function of `lettre`. The values of its types are opaque
//! and are only handed from one of these functions to the next; what they
//! hold has a name wherever a contract of the library speaks of it.
//!
//! The lines of mailboxes are taken as `lettre` keeps them beside the
//! encoded headers: each mailbox written with its name trimmed, the
//! mailboxes of a line joined as `lettre` joins them.

use vstd::prelude::*;
use crate::text::{one_line, text_of};

verus! {

/// `lettre::Address`, opaque.
#[verifier::external_type_specification]
#[verifier::external_body]
pub struct ExAddress(lettre::Address);

/// `lettre::address::AddressError`, opaque.
#[verifier::external_type_specification]
#[verifier::external_body]
pub struct ExAddressError(lettre::address::AddressError);

/// `lettre::message::Mailbox`, opaque.
#[verifier::external_type_specification]
#[verifier::external_body]
pub struct ExMailbox(lettre::message::Mailbox);

/// `lettre::message::header::ContentType`, opaque.
#[verifier::external_type_specification]
#[verifier::external_body]
pub struct ExContentType(lettre::message::header::ContentType);

/// `lettre::message::header::ContentTypeErr`, opaque.
#[verifier::external_type_specification]
#[verifier::external_body]
pub struct ExContentTypeErr(lettre::message::header::ContentTypeErr);

/// `lettre::message::MessageBuilder`, opaque.
#[verifier::external_type_specification]
#[verifier::external_body]
pub struct ExMessageBuilder(lettre::message::MessageBuilder);

/// `lettre::Message`, opaque.
#[verifier::external_type_specification]
#[verifier::external_body]
pub struct ExMessage(lettre::Message);

/// `lettre::message::MultiPartBuilder`, opaque.
#[verifier::external_type_specification]
#[verifier::external_body]
pub struct ExMultiPartBuilder(lettre::message::MultiPartBuilder);

/// `lettre::message::MultiPart`, opaque.
#[verifier::external_type_specification]
#[verifier::external_body]
pub struct ExMultiPart(lettre::message::MultiPart);

/// `lettre::message::SinglePart`, opaque.
#[verifier::external_type_specification]
#[verifier::external_body]
pub struct ExSinglePart(lettre::message::SinglePart);

/// `lettre::message::Attachment`, opaque.
#[verifier::external_type_specification]
#[verifier::external_body]
pub struct ExAttachment(lettre::message::Attachment);

/// `lettre::error::Error`, opaque.
#[verifier::external_type_specification]
#[verifier::external_body]
pub struct ExError(lettre::error::Error);

/// Whether `lettre` reads `s` as a mailbox: an address, bare or in angle
/// brackets behind a display name.
pub uninterp spec fn mailbox_syntax(s: Seq<char>) -> bool;

/// Whether `lettre` reads `s` as a bare address, `user@domain`.
pub uninterp spec fn address_syntax(s: Seq<char>) -> bool;

/// Whether `lettre` reads `s` as a MIME type.
pub uninterp spec fn content_type_syntax(s: Seq<char>) -> bool;

/// What a single part holds: the bytes it is written out as, its headers and
/// its encoded body.
pub uninterp spec fn part_bytes(part: lettre::message::SinglePart) -> Seq<u8>;

/// The bytes of the part that `lettre` makes of an HTML body: type
/// `text/html`, the body in the encoding that `lettre` picks for it.
pub uninterp spec fn html_bytes(body: Seq<char>) -> Seq<u8>;

/// The bytes of the part that `lettre` makes of a plain text body: type
/// `text/plain`, the body in the encoding that `lettre` picks for it.
pub uninterp spec fn plain_bytes(body: Seq<char>) -> Seq<u8>;

/// The parts that a multipart holds, first to last, each as the bytes it is
/// written out as.
pub uninterp spec fn parts_of(multipart: lettre::message::MultiPart) -> Seq<Seq<u8>>;

/// The subtype that a multipart was made with: `alternative`, `mixed` and so
/// on.
pub uninterp spec fn subtype_of(multipart: lettre::message::MultiPart) -> Seq<char>;

/// The subtype that a multipart in the making was started with.
pub uninterp spec fn started_subtype(builder: lettre::message::MultiPartBuilder) -> Seq<char>;

/// The subtype and the parts of a multipart, written out as one run of
/// bytes, boundary lines and all.
pub uninterp spec fn whole_bytes(multipart: lettre::message::MultiPart) -> Seq<u8>;

/// The file name that an attachment is shown under, where it is one that is
/// shown as a file.
pub uninterp spec fn attached(attachment: lettre::message::Attachment) -> Option<Seq<char>>;

/// The text that a MIME type is written as.
pub uninterp spec fn type_text(content_type: lettre::message::header::ContentType) -> Seq<char>;

/// The text that `lettre` writes the MIME type as that it reads from `s`.
pub uninterp spec fn type_read(s: Seq<char>) -> Seq<char>;

/// The bytes of the part that `lettre` makes of a file: its name, its
/// content and the text of its type.
pub uninterp spec fn attachment_bytes(
    filename: Seq<char>,
    content: Seq<u8>,
    content_type: Seq<char>,
) -> Seq<u8>;

/// The text of an address, `user@domain`.
pub uninterp spec fn address_text(address: lettre::Address) -> Seq<char>;

/// Whether `lettre` can write a mailbox into a header. It cannot where the
/// name of the mailbox, trimmed, holds a line break.
pub uninterp spec fn writable(mailbox: lettre::message::Mailbox) -> bool;

/// The text that a mailbox is written as in a header.
pub uninterp spec fn shown(mailbox: lettre::message::Mailbox) -> Seq<char>;

/// The text that the mailbox is written as that `lettre` reads from `s`.
pub uninterp spec fn shown_mailbox(s: Seq<char>) -> Seq<char>;

/// The text that the mailbox of a name and an address is written as.
pub uninterp spec fn shown_sender(name: Option<Seq<char>>, address: Seq<char>) -> Seq<char>;

/// The line of mailboxes that a header holds once a mailbox, written as
/// `added`, has joined the line it held before; `None` stands for a header
/// that was not there.
pub uninterp spec fn joined_line(line: Option<Seq<char>>, added: Seq<char>) -> Seq<char>;

/// Whether `lettre` makes a message of these lines of mailboxes: the sender
/// must read as one mailbox, and the three lines of recipients together as
/// at least one.
pub uninterp spec fn lines_accepted(
    from: Option<Seq<char>>,
    to: Option<Seq<char>>,
    cc: Option<Seq<char>>,
    bcc: Option<Seq<char>>,
) -> bool;

/// The envelope that `lettre` reads from the lines of mailboxes of a message:
/// the address of the sender, and the addresses of all recipients, those of
/// blind copies too.
pub uninterp spec fn envelope_read(
    from: Option<Seq<char>>,
    to: Option<Seq<char>>,
    cc: Option<Seq<char>>,
    bcc: Option<Seq<char>>,
) -> (Option<Seq<char>>, Seq<Seq<char>>);

/// What a message in the making holds: the lines of its headers.
pub uninterp spec fn held_by(builder: lettre::message::MessageBuilder) -> Lines;

/// What a message holds.
pub uninterp spec fn held(message: lettre::Message) -> Held;

/// The lines of the headers of a message in the making. `None` stands for a
/// header that is not there.
pub struct Lines {
    pub from: Option<Seq<char>>,
    pub to: Option<Seq<char>>,
    pub cc: Option<Seq<char>>,
    pub bcc: Option<Seq<char>>,
    pub subject: Option<Seq<char>>,
    /// Nothing but the lines decides what becomes of the message: there is
    /// no `Sender` header, no envelope was forced on it, and the line of
    /// blind copies leaves the headers when the message is made.
    pub plain: bool,
}

/// What a message holds: the lines of its headers, its envelope, and the
/// subtype and the parts of its body, each part as the bytes it is written
/// out as. A message has no line of blind copies.
pub struct Held {
    pub from: Option<Seq<char>>,
    pub to: Option<Seq<char>>,
    pub cc: Option<Seq<char>>,
    pub subject: Option<Seq<char>>,
    pub envelope: (Option<Seq<char>>, Seq<Seq<char>>),
    pub subtype: Seq<char>,
    pub parts: Seq<Seq<u8>>,
}

/// Parsing a mailbox succeeds on the strings in mailbox syntax and on no
/// others; the outcome depends on the string alone. A mailbox that was read
/// can be written: no name that is read holds a line break.
pub assume_specification[ <lettre::message::Mailbox as core::str::FromStr>::from_str ](
    src: &str,
) -> (r: Result<lettre::message::Mailbox, <lettre::message::Mailbox as core::str::FromStr>::Err>)
    ensures
        r is Ok <==> mailbox_syntax(src@),
        r is Ok ==> writable(r->Ok_0) && shown(r->Ok_0) == shown_mailbox(src@),
;

/// Parsing an address succeeds on the strings in address syntax and on no
/// others; the outcome depends on the string alone.
pub assume_specification[ <lettre::Address as core::str::FromStr>::from_str ](val: &str) -> (r:
    Result<lettre::Address, lettre::address::AddressError>)
    ensures
        r is Ok <==> address_syntax(val@),
        r is Ok ==> address_text(r->Ok_0) == val@,
;

/// Parsing a MIME type succeeds on the strings in its syntax and on no
/// others. `application/octet-stream` is one of them.
pub assume_specification[ lettre::message::header::ContentType::parse ](s: &str) -> (r: Result<
    lettre::message::header::ContentType,
    lettre::message::header::ContentTypeErr,
>)
    ensures
        r is Ok <==> content_type_syntax(s@),
        s@ == "application/octet-stream"@ ==> r is Ok,
        r is Ok ==> type_text(r->Ok_0) == type_read(s@),
;

/// `Mailbox::new` pairs a display name with an address. The mailbox can be
/// written where the name, trimmed, holds no line break.
pub assume_specification[ lettre::message::Mailbox::new ](
    name: Option<String>,
    email: lettre::Address,
) -> (made: lettre::message::Mailbox)
    ensures
        one_line(text_of(name)) ==> writable(made) && shown(made) == shown_sender(
            text_of(name),
            address_text(email),
        ),
;

/// `Message::builder` starts a message without headers.
pub assume_specification[ lettre::Message::builder ]() -> (made: lettre::message::MessageBuilder)
    ensures
        held_by(made) == (Lines {
            from: None,
            to: None,
            cc: None,
            bcc: None,
            subject: None,
            plain: true,
        }),
;

/// `MessageBuilder::from` lets a mailbox join the line of senders; the
/// other lines stay. It panics on a mailbox that cannot be written.
pub assume_specification[ lettre::message::MessageBuilder::from ](
    builder: lettre::message::MessageBuilder,
    mbox: lettre::message::Mailbox,
) -> (made: lettre::message::MessageBuilder)
    requires
        writable(mbox),
    ensures
        held_by(made) == (Lines {
            from: Some(joined_line(held_by(builder).from, shown(mbox))),
            ..held_by(builder)
        }),
;

/// `MessageBuilder::to` lets a mailbox join the line of recipients; the
/// other lines stay. It panics on a mailbox that cannot be written.
pub assume_specification[ lettre::message::MessageBuilder::to ](
    builder: lettre::message::MessageBuilder,
    mbox: lettre::message::Mailbox,
) -> (made: lettre::message::MessageBuilder)
    requires
        writable(mbox),
    ensures
        held_by(made) == (Lines {
            to: Some(joined_line(held_by(builder).to, shown(mbox))),
            ..held_by(builder)
        }),
;

/// `MessageBuilder::cc` lets a mailbox join the line of recipients of a
/// copy; the other lines stay. It panics on a mailbox that cannot be written.
pub assume_specification[ lettre::message::MessageBuilder::cc ](
    builder: lettre::message::MessageBuilder,
    mbox: lettre::message::Mailbox,
) -> (made: lettre::message::MessageBuilder)
    requires
        writable(mbox),
    ensures
        held_by(made) == (Lines {
            cc: Some(joined_line(held_by(builder).cc, shown(mbox))),
            ..held_by(builder)
        }),
;

/// `MessageBuilder::bcc` lets a mailbox join the line of recipients of a
/// blind copy; the other lines stay. It panics on a mailbox that cannot be
/// written.
pub assume_specification[ lettre::message::MessageBuilder::bcc ](
    builder: lettre::message::MessageBuilder,
    mbox: lettre::message::Mailbox,
) -> (made: lettre::message::MessageBuilder)
    requires
        writable(mbox),
    ensures
        held_by(made) == (Lines {
            bcc: Some(joined_line(held_by(builder).bcc, shown(mbox))),
            ..held_by(builder)
        }),
;

/// `MessageBuilder::multipart` closes the message over its body. Where
/// nothing but the lines decides, it refuses exactly the lines that are not
/// accepted; the message holds the lines but that of blind copies, the
/// envelope read from all of them, and the body it was given.
pub assume_specification[ lettre::message::MessageBuilder::multipart ](
    builder: lettre::message::MessageBuilder,
    part: lettre::message::MultiPart,
) -> (r: Result<lettre::Message, lettre::error::Error>)
    ensures
        held_by(builder).plain ==> (r is Ok <==> lines_accepted(
            held_by(builder).from,
            held_by(builder).to,
            held_by(builder).cc,
            held_by(builder).bcc,
        )),
        held_by(builder).plain && r is Ok ==> held(r->Ok_0) == (Held {
            from: held_by(builder).from,
            to: held_by(builder).to,
            cc: held_by(builder).cc,
            subject: held_by(builder).subject,
            envelope: envelope_read(
                held_by(builder).from,
                held_by(builder).to,
                held_by(builder).cc,
                held_by(builder).bcc,
            ),
            subtype: subtype_of(part),
            parts: parts_of(part),
        }),
;

/// `MultiPart::alternative` starts a group of renderings of one content: a
/// multipart of subtype `alternative`.
pub assume_specification[ lettre::message::MultiPart::alternative ]() -> (builder:
    lettre::message::MultiPartBuilder)
    ensures
        started_subtype(builder) == "alternative"@,
;

/// `MultiPart::mixed` starts a container of unrelated parts: a multipart of
/// subtype `mixed`.
pub assume_specification[ lettre::message::MultiPart::mixed ]() -> (builder:
    lettre::message::MultiPartBuilder)
    ensures
        started_subtype(builder) == "mixed"@,
;

/// `MultiPartBuilder::singlepart` makes the multipart: of the subtype it was
/// started with, with `part` as its only part.
pub assume_specification[ lettre::message::MultiPartBuilder::singlepart ](
    builder: lettre::message::MultiPartBuilder,
    part: lettre::message::SinglePart,
) -> (made: lettre::message::MultiPart)
    ensures
        subtype_of(made) == started_subtype(builder),
        parts_of(made) == seq![part_bytes(part)],
;

/// `MultiPartBuilder::multipart` makes the multipart: of the subtype it was
/// started with, with the nested multipart `part` as its only part.
pub assume_specification[ lettre::message::MultiPartBuilder::multipart ](
    builder: lettre::message::MultiPartBuilder,
    part: lettre::message::MultiPart,
) -> (made: lettre::message::MultiPart)
    ensures
        subtype_of(made) == started_subtype(builder),
        parts_of(made) == seq![whole_bytes(part)],
;

/// `MultiPart::singlepart` appends a part: the subtype stays, the parts so
/// far stay in place, and `part` comes last.
pub assume_specification[ lettre::message::MultiPart::singlepart ](
    multipart: lettre::message::MultiPart,
    part: lettre::message::SinglePart,
) -> (made: lettre::message::MultiPart)
    ensures
        subtype_of(made) == subtype_of(multipart),
        parts_of(made) == parts_of(multipart).push(part_bytes(part)),
;

/// `Attachment::new` names an attachment that is shown as a file.
pub assume_specification[ lettre::message::Attachment::new ](filename: String) -> (made:
    lettre::message::Attachment)
    ensures
        attached(made) == Some(filename@),
;

/// `MessageBuilder::subject` sets the subject; the lines of mailboxes stay.
#[verifier::external_body]
pub(crate) fn with_subject(builder: lettre::message::MessageBuilder, subject: String) -> (made:
    lettre::message::MessageBuilder)
    ensures
        held_by(made) == (Lines { subject: Some(subject@), ..held_by(builder) }),
{
    builder.subject(subject)
}

/// `SinglePart::html`: a part of type `text/html` with `body` as content.
/// What the part holds depends on `body` alone.
#[verifier::external_body]
pub(crate) fn html_part(body: String) -> (part: lettre::message::SinglePart)
    ensures
        part_bytes(part) == html_bytes(body@),
{
    lettre::message::SinglePart::html(body)
}

/// `SinglePart::plain`: a part of type `text/plain` with `body` as content.
/// What the part holds depends on `body` alone.
#[verifier::external_body]
pub(crate) fn plain_part(body: String) -> (part: lettre::message::SinglePart)
    ensures
        part_bytes(part) == plain_bytes(body@),
{
    lettre::message::SinglePart::plain(body)
}

/// `Attachment::body`: the part that carries `content` under the
/// attachment's name, with the given type. What the part of a file holds
/// depends on the name, the content and the text of the type alone.
#[verifier::external_body]
pub(crate) fn attachment_part(
    attachment: lettre::message::Attachment,
    content: Vec<u8>,
    content_type: lettre::message::header::ContentType,
) -> (part: lettre::message::SinglePart)
    ensures
        attached(attachment) is Some ==> part_bytes(part) == attachment_bytes(
            attached(attachment)->0,
            content@,
            type_text(content_type),
        ),
{
    attachment.body(content, content_type)
}

} // verus!
