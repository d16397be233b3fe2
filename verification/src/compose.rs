//! From a request to the mail it asks for.
//!
//! A request is checked field by field, in a fixed order, and the first fault
//! found is the answer. Only a request without fault yields a mail, so that
//! nothing is made, and nothing sent, for a request that is turned down.

use vstd::prelude::*;
use std::str::FromStr;
use lettre::message::header::ContentType;
use lettre::message::Mailbox;
use lettre::Address;
use crate::addresses::{copy_list, extract_addrs, lemma_normalized_idempotent, normalized};
use crate::filename::{attachment_filename, attachment_name};
use crate::mail::{address_syntax, content_type_syntax, mailbox_syntax};
use crate::message::{
    all_mailboxes, default_content_type, usable_content_type, Alternative, AlternativeView, AttachmentPart,
    AttachmentView, Body, BodyView, ComposedMessage, MessageView,
};
use crate::request::{ComposeError, EntryShape, RequestView, SendRequest, Upload, UploadView};
use crate::text::{is_one_line, one_line, str_of};

verus! {

/// The addresses that a list of the request stands for: in a form, with the
/// comma-joined form resolved; in JSON, the list itself.
pub open spec fn recipients(list: Seq<Seq<char>>, shape: EntryShape) -> Seq<Seq<char>> {
    match shape {
        EntryShape::Form => normalized(list),
        EntryShape::Json => list,
    }
}

/// The address that the mail is sent from: the one the request names, else
/// the relay's user name.
pub open spec fn sender_of(request: RequestView, default_sender: Option<Seq<char>>) -> Option<
    Seq<char>,
> {
    match request.from_address {
        Some(address) => Some(address),
        None => default_sender,
    }
}

/// The first fault of a request, `None` for a request without fault.
///
/// The order is: subject, sender (its address, then its name), recipients
/// (that there is one, then each of the three lists in turn), HTML content.
pub open spec fn first_failure(
    request: RequestView,
    shape: EntryShape,
    default_sender: Option<Seq<char>>,
) -> Option<ComposeError> {
    if request.subject.len() == 0 {
        Some(ComposeError::SubjectMissing)
    } else if request.from_address is Some && (request.from_address->0.len() < 3 || !address_syntax(
        request.from_address->0,
    )) {
        Some(ComposeError::FromAddressInvalid)
    } else if request.from_address is None && (default_sender is None || !address_syntax(
        default_sender->0,
    )) {
        Some(ComposeError::NoSender)
    } else if !one_line(request.from_name) {
        Some(ComposeError::FromNameInvalid)
    } else if recipients(request.to_addresses, shape).len() == 0 {
        Some(ComposeError::ToAddressesMissing)
    } else if !all_mailboxes(recipients(request.to_addresses, shape)) {
        Some(ComposeError::ToAddressInvalid)
    } else if !all_mailboxes(recipients(request.cc_addresses, shape)) {
        Some(ComposeError::CcAddressInvalid)
    } else if !all_mailboxes(recipients(request.bcc_addresses, shape)) {
        Some(ComposeError::BccAddressInvalid)
    } else if request.content_html.len() == 0 {
        Some(ComposeError::ContentHtmlMissing)
    } else {
        None
    }
}

/// The MIME type of an upload: the declared one where it is a MIME type,
/// else the type of a file of unknown content.
pub open spec fn content_type_for(declared: Option<Seq<char>>) -> Seq<char> {
    match declared {
        Some(t) => if content_type_syntax(t) {
            t
        } else {
            default_content_type()
        },
        None => default_content_type(),
    }
}

/// The part that carries an upload.
pub open spec fn part_for(upload: UploadView) -> AttachmentView {
    AttachmentView {
        filename: attachment_name(upload.safe_name, upload.raw_name),
        content_type: content_type_for(upload.content_type),
        content: upload.content,
    }
}

/// The body of the mail: the renderings alone, or, for a form with at least
/// one upload, a container of the renderings and one part for each upload,
/// in the order of the uploads.
pub open spec fn planned_body(request: RequestView, shape: EntryShape) -> BodyView {
    let content = AlternativeView { html: request.content_html, text: request.content_text };
    if shape == EntryShape::Form && request.attachments.len() > 0 {
        BodyView::Mixed(content, request.attachments.map_values(|u: UploadView| part_for(u)))
    } else {
        BodyView::Alternative(content)
    }
}

/// The mail that a request without fault asks for.
pub open spec fn planned(
    request: RequestView,
    shape: EntryShape,
    default_sender: Option<Seq<char>>,
) -> MessageView {
    MessageView {
        from_name: request.from_name,
        from_address: sender_of(request, default_sender)->0,
        to: recipients(request.to_addresses, shape),
        cc: recipients(request.cc_addresses, shape),
        bcc: recipients(request.bcc_addresses, shape),
        subject: request.subject,
        body: planned_body(request, shape),
    }
}

/// Whether a request can be sent from some address: the one it names, which
/// then has at least three characters, or else the relay's user name; that
/// one is an address; and the sender's name stands in one line.
pub open spec fn has_sender(request: RequestView, default_sender: Option<Seq<char>>) -> bool {
    &&& match request.from_address {
        Some(address) => address.len() >= 3 && address_syntax(address),
        None => default_sender is Some && address_syntax(default_sender->0),
    }
    &&& one_line(request.from_name)
}

/// A request with a subject, HTML content, a sender, at least one recipient
/// and nothing but mailboxes in its three lists has no fault. Its mail goes
/// to the recipients of the request, in their order, and can be made.
pub proof fn lemma_valid_request_composes(
    request: RequestView,
    shape: EntryShape,
    default_sender: Option<Seq<char>>,
)
    requires
        request.subject.len() > 0,
        request.content_html.len() > 0,
        has_sender(request, default_sender),
        recipients(request.to_addresses, shape).len() > 0,
        all_mailboxes(recipients(request.to_addresses, shape)),
        all_mailboxes(recipients(request.cc_addresses, shape)),
        all_mailboxes(recipients(request.bcc_addresses, shape)),
    ensures
        first_failure(request, shape, default_sender) is None,
        planned(request, shape, default_sender).to == recipients(request.to_addresses, shape),
        planned(request, shape, default_sender).makeable(),
{
    lemma_planned_is_makeable(request, shape, default_sender);
}

/// A request without fault is a valid one: the conditions of
/// `lemma_valid_request_composes` are the only way to a mail.
pub proof fn lemma_no_fault_means_valid(
    request: RequestView,
    shape: EntryShape,
    default_sender: Option<Seq<char>>,
)
    requires
        first_failure(request, shape, default_sender) is None,
    ensures
        request.subject.len() > 0,
        request.content_html.len() > 0,
        has_sender(request, default_sender),
        recipients(request.to_addresses, shape).len() > 0,
        all_mailboxes(recipients(request.to_addresses, shape)),
        all_mailboxes(recipients(request.cc_addresses, shape)),
        all_mailboxes(recipients(request.bcc_addresses, shape)),
{
}

/// The mail of a request without fault can be made: its sender is an
/// address, its recipients are mailboxes, its attachments have usable types.
pub proof fn lemma_planned_is_makeable(
    request: RequestView,
    shape: EntryShape,
    default_sender: Option<Seq<char>>,
)
    requires
        first_failure(request, shape, default_sender) is None,
    ensures
        planned(request, shape, default_sender).makeable(),
{
    let parts = planned_body(request, shape).attachments();
    assert forall|i: int| 0 <= i < parts.len() implies usable_content_type(
        (#[trigger] parts[i]).content_type,
    ) by {
    }
}

/// One string that is no mailbox, anywhere in the three lists, and the
/// request has a fault: no mail is laid out for it.
pub proof fn lemma_bad_address_is_a_fault(
    request: RequestView,
    shape: EntryShape,
    default_sender: Option<Seq<char>>,
)
    requires
        !all_mailboxes(recipients(request.to_addresses, shape)) || !all_mailboxes(
            recipients(request.cc_addresses, shape),
        ) || !all_mailboxes(recipients(request.bcc_addresses, shape)),
    ensures
        first_failure(request, shape, default_sender) is Some,
{
}

/// Where the request names no sender, the mail is sent from the relay's user
/// name.
pub proof fn lemma_sender_falls_back(
    request: RequestView,
    shape: EntryShape,
    default_sender: Option<Seq<char>>,
)
    requires
        request.from_address is None,
        first_failure(request, shape, default_sender) is None,
    ensures
        default_sender is Some,
        planned(request, shape, default_sender).from_address == default_sender->0,
{
}

/// Where neither the request nor the relay names a sender, the request has a
/// fault: no mail is laid out, and so none with a made-up sender.
pub proof fn lemma_no_sender_is_a_fault(request: RequestView, shape: EntryShape)
    requires
        request.from_address is None,
    ensures
        first_failure(request, shape, None) is Some,
        request.subject.len() > 0 ==> first_failure(request, shape, None) == Some(
            ComposeError::NoSender,
        ),
{
}

/// Where the request names a sender, the mail is sent from it, whatever the
/// relay's user name is.
pub proof fn lemma_named_sender_is_kept(
    request: RequestView,
    shape: EntryShape,
    default_sender: Option<Seq<char>>,
)
    requires
        request.from_address is Some,
    ensures
        planned(request, shape, default_sender).from_address == request.from_address->0,
        first_failure(request, shape, default_sender) == first_failure(request, shape, None),
{
}

/// Resolving the lists of a form twice gives what resolving them once gives.
pub proof fn lemma_recipients_idempotent(list: Seq<Seq<char>>, shape: EntryShape)
    ensures
        recipients(recipients(list, shape), shape) == recipients(list, shape),
{
    lemma_normalized_idempotent(list);
}

/// A body without container holds the renderings and nothing else; a
/// container holds them first and then one part for each upload, in the
/// order of the uploads. The HTML content is always there.
pub proof fn lemma_body_shape(request: RequestView, shape: EntryShape)
    ensures
        planned_body(request, shape).content().html == request.content_html,
        planned_body(request, shape).content().text == request.content_text,
        planned_body(request, shape) is Mixed <==> shape == EntryShape::Form
            && request.attachments.len() > 0,
        planned_body(request, shape) is Mixed ==> planned_body(request, shape).attachments().len()
            == request.attachments.len(),
        forall|i: int|
            0 <= i < planned_body(request, shape).attachments().len() ==> (
            #[trigger] planned_body(request, shape).attachments()[i]) == part_for(
                request.attachments[i],
            ),
{
}

/// Whether every element of `list` is in mailbox syntax.
fn check_mailboxes(list: &Vec<String>) -> (r: bool)
    ensures
        r == all_mailboxes(list.deep_view()),
{
    let mut i: usize = 0;
    while i < list.len()
        invariant
            i <= list.len(),
            forall|j: int| 0 <= j < i ==> mailbox_syntax(#[trigger] list.deep_view()[j]),
        decreases list.len() - i,
    {
        proof {
            assert(list.deep_view()[i as int] == list@[i as int]@);
        }
        match Mailbox::from_str(list[i].as_str()) {
            Ok(_) => {},
            Err(_) => {
                return false;
            },
        }
        i = i + 1;
    }
    true
}

/// The addresses that a list of the request stands for.
fn resolve(list: &Vec<String>, shape: EntryShape) -> (out: Vec<String>)
    ensures
        out.deep_view() == recipients(list.deep_view(), shape),
{
    match shape {
        EntryShape::Form => extract_addrs(list),
        EntryShape::Json => copy_list(list),
    }
}

/// The MIME type of an upload.
pub fn attachment_content_type(declared: Option<&str>) -> (r: String)
    ensures
        r@ == content_type_for(str_of(declared)),
{
    match declared {
        Some(t) => match ContentType::parse(t) {
            Ok(_) => t.to_owned(),
            Err(_) => "application/octet-stream".to_owned(),
        },
        None => "application/octet-stream".to_owned(),
    }
}

/// The part that carries an upload.
pub fn plan_attachment(upload: &Upload) -> (part: AttachmentPart)
    ensures
        part@ == part_for(upload@),
{
    let safe: Option<&str> = match &upload.safe_name {
        Some(s) => Some(s.as_str()),
        None => None,
    };
    let raw: Option<&str> = match &upload.raw_name {
        Some(s) => Some(s.as_str()),
        None => None,
    };
    let declared: Option<&str> = match &upload.content_type {
        Some(s) => Some(s.as_str()),
        None => None,
    };
    AttachmentPart {
        filename: attachment_filename(safe, raw),
        content_type: attachment_content_type(declared),
        content: upload.content.clone(),
    }
}

/// The body of the mail.
fn plan_body(request: &SendRequest, shape: EntryShape) -> (body: Body)
    ensures
        body@ == planned_body(request@, shape),
{
    let content = Alternative {
        html: request.content_html.clone(),
        text: request.content_text.clone(),
    };
    let form = match shape {
        EntryShape::Form => true,
        EntryShape::Json => false,
    };
    if form && request.attachments.len() > 0 {
        let ghost uploads = request@.attachments;
        let ghost to_part = |u: UploadView| part_for(u);
        let mut parts: Vec<AttachmentPart> = Vec::new();
        let mut i: usize = 0;
        while i < request.attachments.len()
            invariant
                i <= request.attachments.len(),
                uploads == request@.attachments,
                to_part == |u: UploadView| part_for(u),
                parts@.map_values(|a: AttachmentPart| a@) == uploads.take(i as int).map_values(
                    to_part,
                ),
            decreases request.attachments.len() - i,
        {
            let ghost before = parts@.map_values(|a: AttachmentPart| a@);
            let part = plan_attachment(&request.attachments[i]);
            parts.push(part);
            proof {
                assert(parts@.map_values(|a: AttachmentPart| a@) =~= before.push(part@));
            }
            i = i + 1;
        }
        proof {
            assert(uploads.take(i as int) =~= uploads);
        }
        Body::Mixed(content, parts)
    } else {
        Body::Alternative(content)
    }
}

/// Checks a request and lays out the mail it asks for.
///
/// `default_sender` is the relay's user name, which stands in where the
/// request names no sender. The answer is the first fault of the request, in
/// the order of `first_failure`, or the mail of `planned`.
pub fn compose(request: &SendRequest, shape: EntryShape, default_sender: Option<&str>) -> (r:
    Result<ComposedMessage, ComposeError>)
    ensures
        match r {
            Ok(mail) => {
                &&& first_failure(request@, shape, str_of(default_sender)) is None
                &&& mail@ == planned(request@, shape, str_of(default_sender))
                &&& mail@.makeable()
            },
            Err(e) => first_failure(request@, shape, str_of(default_sender)) == Some(e),
        },
{
    if request.subject.as_str().is_empty() {
        return Err(ComposeError::SubjectMissing);
    }
    let from_address: String = match &request.from_address {
        Some(address) => {
            if address.as_str().unicode_len() < 3 {
                return Err(ComposeError::FromAddressInvalid);
            }
            match Address::from_str(address.as_str()) {
                Ok(_) => address.clone(),
                Err(_) => {
                    return Err(ComposeError::FromAddressInvalid);
                },
            }
        },
        None => match default_sender {
            Some(user) => match Address::from_str(user) {
                Ok(_) => user.to_owned(),
                Err(_) => {
                    return Err(ComposeError::NoSender);
                },
            },
            None => {
                return Err(ComposeError::NoSender);
            },
        },
    };
    let name: Option<&str> = match &request.from_name {
        Some(name) => Some(name.as_str()),
        None => None,
    };
    if !is_one_line(name) {
        return Err(ComposeError::FromNameInvalid);
    }
    let to = resolve(&request.to_addresses, shape);
    if to.len() == 0 {
        return Err(ComposeError::ToAddressesMissing);
    }
    if !check_mailboxes(&to) {
        return Err(ComposeError::ToAddressInvalid);
    }
    let cc = resolve(&request.cc_addresses, shape);
    if !check_mailboxes(&cc) {
        return Err(ComposeError::CcAddressInvalid);
    }
    let bcc = resolve(&request.bcc_addresses, shape);
    if !check_mailboxes(&bcc) {
        return Err(ComposeError::BccAddressInvalid);
    }
    if request.content_html.as_str().is_empty() {
        return Err(ComposeError::ContentHtmlMissing);
    }
    let body = plan_body(request, shape);
    proof {
        lemma_planned_is_makeable(request@, shape, str_of(default_sender));
    }
    Ok(
        ComposedMessage {
            from_name: request.from_name.clone(),
            from_address,
            to,
            cc,
            bcc,
            subject: request.subject.clone(),
            body,
        },
    )
}

} // verus!
