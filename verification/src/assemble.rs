//! From a mail in plain values to the message that the transport takes.
//!
//! The message is made by `lettre`, call by call, in the order of the mail:
//! sender, subject, recipients, then the body from its first part to its
//! last. The message itself is opaque; what this module answers for is what
//! it hands over, and when it gives up.

use vstd::prelude::*;
use std::str::FromStr;
use lettre::message::header::ContentType;
use lettre::message::{Attachment, Mailbox, MessageBuilder, MultiPart};
use lettre::{Address, Message};
use crate::mail::{
    address_syntax, attachment_part, held, held_by, html_part, mailbox_syntax, parts_of, plain_part,
    subtype_of, whole_bytes, with_subject, Lines,
};
use crate::message::{
    all_mailboxes, all_typed, file_bytes, line_of, usable_content_type, written, Alternative,
    AttachmentPart, Body, ComposedMessage,
};
use crate::text::{is_one_line, one_line};

verus! {

/// Why no message was made.
#[derive(Debug, Clone, Copy, PartialEq, Eq, Structural)]
pub enum BuildError {
    /// The sender is no address.
    Sender,
    /// The sender's name holds a line break.
    SenderName,
    /// A recipient, of the mail or of a copy, is no mailbox.
    Recipient,
    /// The type of an attachment is no MIME type.
    ContentType,
    /// All parts were in order and `lettre` still refused the message.
    Refused,
}

/// The header that a recipient is put in.
#[derive(Debug, Clone, Copy, PartialEq, Eq, Structural)]
pub enum RecipientField {
    To,
    Cc,
    Bcc,
}

/// The lines of a message in the making with the line of one field of
/// recipients set.
pub open spec fn with_line(lines: Lines, field: RecipientField, line: Option<Seq<char>>) -> Lines {
    match field {
        RecipientField::To => Lines { to: line, ..lines },
        RecipientField::Cc => Lines { cc: line, ..lines },
        RecipientField::Bcc => Lines { bcc: line, ..lines },
    }
}

/// The line of one field of recipients.
pub open spec fn line_at(lines: Lines, field: RecipientField) -> Option<Seq<char>> {
    match field {
        RecipientField::To => lines.to,
        RecipientField::Cc => lines.cc,
        RecipientField::Bcc => lines.bcc,
    }
}

/// Adds every element of `list` to `builder` as a recipient, in order.
/// Gives up at the first element that is no mailbox.
fn add_recipients(builder: MessageBuilder, list: &Vec<String>, field: RecipientField) -> (r:
    Option<MessageBuilder>)
    requires
        line_at(held_by(builder), field) is None,
    ensures
        r is Some <==> all_mailboxes(list.deep_view()),
        r is Some ==> held_by(r->0) == with_line(
            held_by(builder),
            field,
            line_of(written(list.deep_view())),
        ),
{
    let ghost start = held_by(builder);
    let ghost all = written(list.deep_view());
    let mut builder = builder;
    let mut i: usize = 0;
    while i < list.len()
        invariant
            i <= list.len(),
            all == written(list.deep_view()),
            forall|j: int| 0 <= j < i ==> mailbox_syntax(#[trigger] list.deep_view()[j]),
            held_by(builder) == with_line(start, field, line_of(all.take(i as int))),
        decreases list.len() - i,
    {
        proof {
            assert(list.deep_view()[i as int] == list@[i as int]@);
            assert(all.take(i + 1).drop_last() =~= all.take(i as int));
            assert(all.take(i + 1).last() == crate::mail::shown_mailbox(list@[i as int]@));
        }
        match Mailbox::from_str(list[i].as_str()) {
            Ok(mailbox) => {
                builder = match field {
                    RecipientField::To => builder.to(mailbox),
                    RecipientField::Cc => builder.cc(mailbox),
                    RecipientField::Bcc => builder.bcc(mailbox),
                };
            },
            Err(_) => {
                return None;
            },
        }
        i = i + 1;
    }
    proof {
        assert(all.take(i as int) =~= all);
    }
    Some(builder)
}

/// The group of renderings: the HTML part, then the plain text where there
/// is one.
fn alternative_group(content: &Alternative) -> (group: MultiPart)
    ensures
        crate::mail::subtype_of(group) == "alternative"@,
        crate::mail::parts_of(group) == content@.parts(),
{
    let group = MultiPart::alternative().singlepart(html_part(content.html.clone()));
    match &content.text {
        Some(text) => group.singlepart(plain_part(text.clone())),
        None => group,
    }
}

/// The body: the group of renderings, or a container with the group as its
/// first part and one part for each attachment behind it, in order. Gives up
/// at the first attachment whose type is no MIME type.
fn body_tree(body: &Body) -> (r: Option<MultiPart>)
    ensures
        r is Some <==> all_typed(body@.attachments()),
        r is Some ==> body@.carried_as(subtype_of(r->0), parts_of(r->0)),
{
    match body {
        Body::Alternative(content) => Some(alternative_group(content)),
        Body::Mixed(content, attachments) => {
            let ghost views = attachments@.map_values(|a: AttachmentPart| a@);
            let group = alternative_group(content);
            let ghost first = whole_bytes(group);
            let mut tree = MultiPart::mixed().multipart(group);
            let mut i: usize = 0;
            while i < attachments.len()
                invariant
                    i <= attachments.len(),
                    views == attachments@.map_values(|a: AttachmentPart| a@),
                    views == body@.attachments(),
                    forall|j: int|
                        0 <= j < i ==> usable_content_type((#[trigger] views[j]).content_type),
                    subtype_of(tree) == "mixed"@,
                    parts_of(tree).len() == i + 1,
                    parts_of(tree)[0] == first,
                    forall|j: int|
                        0 <= j < i ==> parts_of(tree)[j + 1] == file_bytes(#[trigger] views[j]),
                decreases attachments.len() - i,
            {
                let attachment = &attachments[i];
                proof {
                    assert(views[i as int] == attachment@);
                }
                match ContentType::parse(attachment.content_type.as_str()) {
                    Ok(content_type) => {
                        tree = tree.singlepart(
                            attachment_part(
                                Attachment::new(attachment.filename.clone()),
                                attachment.content.clone(),
                                content_type,
                            ),
                        );
                    },
                    Err(_) => {
                        return None;
                    },
                }
                i = i + 1;
            }
            Some(tree)
        },
    }
}

/// Makes the message for a mail.
///
/// A mail that is not makeable yields the first of its faults, in the order
/// sender, name of the sender, recipients, types of the attachments. A mail
/// that is makeable yields a message exactly where `lettre` accepts its
/// lines; the message then holds the mail.
pub fn build_message(mail: &ComposedMessage) -> (r: Result<Message, BuildError>)
    ensures
        match r {
            Ok(message) => mail@.makeable() && mail@.accepted() && mail@.held_in(held(message)),
            Err(BuildError::Refused) => mail@.makeable() && !mail@.accepted(),
            Err(BuildError::Sender) => !address_syntax(mail@.from_address),
            Err(BuildError::SenderName) => {
                &&& address_syntax(mail@.from_address)
                &&& !one_line(mail@.from_name)
            },
            Err(BuildError::Recipient) => {
                &&& address_syntax(mail@.from_address)
                &&& one_line(mail@.from_name)
                &&& !(all_mailboxes(mail@.to) && all_mailboxes(mail@.cc) && all_mailboxes(
                    mail@.bcc,
                ))
            },
            Err(BuildError::ContentType) => {
                &&& address_syntax(mail@.from_address)
                &&& one_line(mail@.from_name)
                &&& all_mailboxes(mail@.to)
                &&& all_mailboxes(mail@.cc)
                &&& all_mailboxes(mail@.bcc)
                &&& !all_typed(mail@.body.attachments())
            },
        },
{
    let address = match Address::from_str(mail.from_address.as_str()) {
        Ok(address) => address,
        Err(_) => {
            return Err(BuildError::Sender);
        },
    };
    let name: Option<&str> = match &mail.from_name {
        Some(name) => Some(name.as_str()),
        None => None,
    };
    if !is_one_line(name) {
        return Err(BuildError::SenderName);
    }
    let sender = Mailbox::new(mail.from_name.clone(), address);
    let builder = with_subject(Message::builder().from(sender), mail.subject.clone());
    let builder = match add_recipients(builder, &mail.to, RecipientField::To) {
        Some(builder) => builder,
        None => {
            return Err(BuildError::Recipient);
        },
    };
    let builder = match add_recipients(builder, &mail.cc, RecipientField::Cc) {
        Some(builder) => builder,
        None => {
            return Err(BuildError::Recipient);
        },
    };
    let builder = match add_recipients(builder, &mail.bcc, RecipientField::Bcc) {
        Some(builder) => builder,
        None => {
            return Err(BuildError::Recipient);
        },
    };
    let tree = match body_tree(&mail.body) {
        Some(tree) => tree,
        None => {
            return Err(BuildError::ContentType);
        },
    };
    proof {
        let sender_line = seq![crate::mail::shown_sender(mail@.from_name, mail@.from_address)];
        assert(sender_line.drop_last() =~= Seq::<Seq<char>>::empty());
        assert(line_of(sender_line.drop_last()) is None);
        assert(held_by(builder) == mail@.lines());
    }
    match builder.multipart(tree) {
        Ok(message) => Ok(message),
        Err(_) => Err(BuildError::Refused),
    }
}

} // verus!
