//! A mail that is ready to be made: who sends it, who gets it, and the tree
//! of its parts, all in plain values.

use vstd::prelude::*;
use lettre::message::MultiPart;
use crate::mail::{
    address_syntax, attachment_bytes, content_type_syntax, envelope_read, html_bytes, joined_line,
    lines_accepted, mailbox_syntax, parts_of, plain_bytes, shown_mailbox, shown_sender, subtype_of,
    type_read, whole_bytes, Held, Lines,
};
use crate::text::{one_line, text_of};

verus! {

/// The renderings of the content. The HTML part comes first, the plain text,
/// where there is one, second.
#[derive(Debug, Clone, PartialEq, Eq)]
pub struct Alternative {
    pub html: String,
    pub text: Option<String>,
}

/// A file that travels with the mail.
#[derive(Debug, Clone, PartialEq, Eq)]
pub struct AttachmentPart {
    pub filename: String,
    pub content_type: String,
    pub content: Vec<u8>,
}

/// The body of a mail.
#[derive(Debug, Clone, PartialEq, Eq)]
pub enum Body {
    /// The renderings are the whole body.
    Alternative(Alternative),
    /// A container of the renderings, as its first part, and the attachments
    /// behind them.
    Mixed(Alternative, Vec<AttachmentPart>),
}

/// A mail in plain values.
#[derive(Debug, Clone, PartialEq, Eq)]
pub struct ComposedMessage {
    pub from_name: Option<String>,
    pub from_address: String,
    pub to: Vec<String>,
    pub cc: Vec<String>,
    pub bcc: Vec<String>,
    pub subject: String,
    pub body: Body,
}

pub struct AlternativeView {
    pub html: Seq<char>,
    pub text: Option<Seq<char>>,
}

pub struct AttachmentView {
    pub filename: Seq<char>,
    pub content_type: Seq<char>,
    pub content: Seq<u8>,
}

pub enum BodyView {
    Alternative(AlternativeView),
    Mixed(AlternativeView, Seq<AttachmentView>),
}

pub struct MessageView {
    pub from_name: Option<Seq<char>>,
    pub from_address: Seq<char>,
    pub to: Seq<Seq<char>>,
    pub cc: Seq<Seq<char>>,
    pub bcc: Seq<Seq<char>>,
    pub subject: Seq<char>,
    pub body: BodyView,
}

impl View for Alternative {
    type V = AlternativeView;

    open spec fn view(&self) -> AlternativeView {
        AlternativeView { html: self.html@, text: text_of(self.text) }
    }
}

impl View for AttachmentPart {
    type V = AttachmentView;

    open spec fn view(&self) -> AttachmentView {
        AttachmentView {
            filename: self.filename@,
            content_type: self.content_type@,
            content: self.content@,
        }
    }
}

impl View for Body {
    type V = BodyView;

    open spec fn view(&self) -> BodyView {
        match *self {
            Body::Alternative(content) => BodyView::Alternative(content@),
            Body::Mixed(content, attachments) => BodyView::Mixed(
                content@,
                attachments@.map_values(|a: AttachmentPart| a@),
            ),
        }
    }
}

impl View for ComposedMessage {
    type V = MessageView;

    open spec fn view(&self) -> MessageView {
        MessageView {
            from_name: text_of(self.from_name),
            from_address: self.from_address@,
            to: self.to.deep_view(),
            cc: self.cc.deep_view(),
            bcc: self.bcc.deep_view(),
            subject: self.subject@,
            body: self.body@,
        }
    }
}

/// Whether every element of `list` is in mailbox syntax.
pub open spec fn all_mailboxes(list: Seq<Seq<char>>) -> bool {
    forall|i: int| 0 <= i < list.len() ==> mailbox_syntax(#[trigger] list[i])
}

/// The MIME type of a file of unknown content.
pub open spec fn default_content_type() -> Seq<char> {
    "application/octet-stream"@
}

/// Whether a MIME type can be put on a part.
pub open spec fn usable_content_type(t: Seq<char>) -> bool {
    t == default_content_type() || content_type_syntax(t)
}

/// Whether every attachment has a usable MIME type.
pub open spec fn all_typed(attachments: Seq<AttachmentView>) -> bool {
    forall|i: int|
        0 <= i < attachments.len() ==> usable_content_type((#[trigger] attachments[i]).content_type)
}

/// The line of a header into which mailboxes were written one after
/// another, each joining the line so far; no line where there was none.
pub open spec fn line_of(written: Seq<Seq<char>>) -> Option<Seq<char>>
    decreases written.len(),
{
    if written.len() == 0 {
        None
    } else {
        Some(joined_line(line_of(written.drop_last()), written.last()))
    }
}

/// The recipients of a list, each as `lettre` writes the mailbox it reads.
pub open spec fn written(list: Seq<Seq<char>>) -> Seq<Seq<char>> {
    list.map_values(|s: Seq<char>| shown_mailbox(s))
}

/// The bytes of the part that carries an attachment.
pub open spec fn file_bytes(attachment: AttachmentView) -> Seq<u8> {
    attachment_bytes(
        attachment.filename,
        attachment.content,
        type_read(attachment.content_type),
    )
}

impl AlternativeView {
    /// The parts of the group of renderings, each as the bytes that `lettre`
    /// writes it out as: the HTML part, then the plain text part where there
    /// is plain text.
    pub open spec fn parts(self) -> Seq<Seq<u8>> {
        match self.text {
            Some(text) => seq![html_bytes(self.html), plain_bytes(text)],
            None => seq![html_bytes(self.html)],
        }
    }
}

impl BodyView {
    /// The renderings of the content.
    pub open spec fn content(self) -> AlternativeView {
        match self {
            BodyView::Alternative(content) => content,
            BodyView::Mixed(content, _) => content,
        }
    }

    /// The attachments, in order; none for a body without container.
    pub open spec fn attachments(self) -> Seq<AttachmentView> {
        match self {
            BodyView::Alternative(_) => Seq::empty(),
            BodyView::Mixed(_, attachments) => attachments,
        }
    }
}

impl BodyView {
    /// Whether a body of the given subtype and parts is this body: the group
    /// of renderings alone, or a container of subtype `mixed` with that
    /// group as its first part and the attachments, in order, behind it.
    pub open spec fn carried_as(self, subtype: Seq<char>, parts: Seq<Seq<u8>>) -> bool {
        match self {
            BodyView::Alternative(content) => {
                &&& subtype == "alternative"@
                &&& parts == content.parts()
            },
            BodyView::Mixed(content, attachments) => {
                &&& subtype == "mixed"@
                &&& parts.len() == attachments.len() + 1
                &&& exists|group: MultiPart|
                    {
                        &&& subtype_of(group) == "alternative"@
                        &&& parts_of(group) == content.parts()
                        &&& parts[0] == #[trigger] whole_bytes(group)
                    }
                &&& forall|i: int|
                    0 <= i < attachments.len() ==> parts[i + 1] == file_bytes(
                        #[trigger] attachments[i],
                    )
            },
        }
    }
}

impl MessageView {
    /// The lines of the headers that the mail is written into: the sender,
    /// the recipients of each list in order, and the subject.
    pub open spec fn lines(self) -> Lines {
        Lines {
            from: line_of(seq![shown_sender(self.from_name, self.from_address)]),
            to: line_of(written(self.to)),
            cc: line_of(written(self.cc)),
            bcc: line_of(written(self.bcc)),
            subject: Some(self.subject),
            plain: true,
        }
    }

    /// Whether `lettre` makes a message of the mail.
    pub open spec fn accepted(self) -> bool {
        lines_accepted(self.lines().from, self.lines().to, self.lines().cc, self.lines().bcc)
    }

    /// Whether what a message holds is this mail: its lines but that of the
    /// blind copies, the envelope read from all its lines, and its body.
    pub open spec fn held_in(self, message: Held) -> bool {
        &&& message.from == self.lines().from
        &&& message.to == self.lines().to
        &&& message.cc == self.lines().cc
        &&& message.subject == self.lines().subject
        &&& message.envelope == envelope_read(
            self.lines().from,
            self.lines().to,
            self.lines().cc,
            self.lines().bcc,
        )
        &&& self.body.carried_as(message.subtype, message.parts)
    }

    /// Whether the mail can be made: the sender is an address and its name
    /// stands in one line, every recipient is a mailbox, and every
    /// attachment has a usable type.
    pub open spec fn makeable(self) -> bool {
        &&& address_syntax(self.from_address)
        &&& one_line(self.from_name)
        &&& all_mailboxes(self.to)
        &&& all_mailboxes(self.cc)
        &&& all_mailboxes(self.bcc)
        &&& all_typed(self.body.attachments())
    }
}

} // verus!
