//! A request to send one mail, as the layer that parsed it hands it over.

use vstd::prelude::*;
use crate::text::text_of;

verus! {

/// The two shapes in which a request arrives.
#[derive(Debug, Clone, Copy, PartialEq, Eq, Structural)]
pub enum EntryShape {
    /// A form submission. It may carry attachments, and a list of addresses
    /// may come as one comma-joined field.
    Form,
    /// A JSON body. It has no attachments and its lists are lists.
    Json,
}

/// An uploaded file.
#[derive(Debug, Clone, PartialEq, Eq)]
pub struct Upload {
    /// The sanitized name: free of path separators and without extension.
    pub safe_name: Option<String>,
    /// The name as the client sent it. Not to be trusted.
    pub raw_name: Option<String>,
    /// The MIME type that the client declared.
    pub content_type: Option<String>,
    pub content: Vec<u8>,
}

/// What is asked for: one mail.
#[derive(Debug, Clone, PartialEq, Eq)]
pub struct SendRequest {
    pub subject: String,
    pub from_address: Option<String>,
    pub from_name: Option<String>,
    pub to_addresses: Vec<String>,
    pub cc_addresses: Vec<String>,
    pub bcc_addresses: Vec<String>,
    pub content_html: String,
    pub content_text: Option<String>,
    /// Read only for a form submission.
    pub attachments: Vec<Upload>,
}

/// An upload as contracts see it.
pub struct UploadView {
    pub safe_name: Option<Seq<char>>,
    pub raw_name: Option<Seq<char>>,
    pub content_type: Option<Seq<char>>,
    pub content: Seq<u8>,
}

/// A request as contracts see it.
pub struct RequestView {
    pub subject: Seq<char>,
    pub from_address: Option<Seq<char>>,
    pub from_name: Option<Seq<char>>,
    pub to_addresses: Seq<Seq<char>>,
    pub cc_addresses: Seq<Seq<char>>,
    pub bcc_addresses: Seq<Seq<char>>,
    pub content_html: Seq<char>,
    pub content_text: Option<Seq<char>>,
    pub attachments: Seq<UploadView>,
}

impl View for Upload {
    type V = UploadView;

    open spec fn view(&self) -> UploadView {
        UploadView {
            safe_name: text_of(self.safe_name),
            raw_name: text_of(self.raw_name),
            content_type: text_of(self.content_type),
            content: self.content@,
        }
    }
}

impl View for SendRequest {
    type V = RequestView;

    open spec fn view(&self) -> RequestView {
        RequestView {
            subject: self.subject@,
            from_address: text_of(self.from_address),
            from_name: text_of(self.from_name),
            to_addresses: self.to_addresses.deep_view(),
            cc_addresses: self.cc_addresses.deep_view(),
            bcc_addresses: self.bcc_addresses.deep_view(),
            content_html: self.content_html@,
            content_text: text_of(self.content_text),
            attachments: self.attachments@.map_values(|u: Upload| u@),
        }
    }
}

/// Why a request is turned down before anything is sent.
#[derive(Debug, Clone, Copy, PartialEq, Eq, Structural)]
pub enum ComposeError {
    /// The subject is empty.
    SubjectMissing,
    /// The sender's address is shorter than three characters or is no
    /// address.
    FromAddressInvalid,
    /// The request names no sender and the relay's user name cannot stand in:
    /// there is none, or it is no address.
    NoSender,
    /// The sender's name holds a line break.
    FromNameInvalid,
    /// There is no recipient.
    ToAddressesMissing,
    /// A recipient is no mailbox.
    ToAddressInvalid,
    /// A recipient of a copy is no mailbox.
    CcAddressInvalid,
    /// A recipient of a blind copy is no mailbox.
    BccAddressInvalid,
    /// The HTML content is empty.
    ContentHtmlMissing,
}

impl ComposeError {
    /// Whether the fault lies with the configuration and not with the
    /// request.
    pub open spec fn is_configuration(self) -> bool {
        self == ComposeError::NoSender
    }

    /// Decides `is_configuration`.
    pub fn configuration(&self) -> (r: bool)
        ensures
            r == self.is_configuration(),
    {
        match self {
            ComposeError::NoSender => true,
            _ => false,
        }
    }

    /// What the caller is told.
    pub open spec fn text(self) -> Seq<char> {
        match self {
            ComposeError::SubjectMissing => "subject missing or empty"@,
            ComposeError::FromAddressInvalid => "from_address invalid"@,
            ComposeError::NoSender => "no sender address"@,
            ComposeError::FromNameInvalid => "from_name invalid"@,
            ComposeError::ToAddressesMissing => "to_addresses missing or empty"@,
            ComposeError::ToAddressInvalid => "invalid to_address"@,
            ComposeError::CcAddressInvalid => "invalid cc_address"@,
            ComposeError::BccAddressInvalid => "invalid bcc_address"@,
            ComposeError::ContentHtmlMissing => "content_html missing or empty"@,
        }
    }

    /// What the caller is told, naming the field at fault.
    pub fn message(&self) -> (r: String)
        ensures
            r@ == self.text(),
    {
        match self {
            ComposeError::SubjectMissing => "subject missing or empty".to_owned(),
            ComposeError::FromAddressInvalid => "from_address invalid".to_owned(),
            ComposeError::NoSender => "no sender address".to_owned(),
            ComposeError::FromNameInvalid => "from_name invalid".to_owned(),
            ComposeError::ToAddressesMissing => "to_addresses missing or empty".to_owned(),
            ComposeError::ToAddressInvalid => "invalid to_address".to_owned(),
            ComposeError::CcAddressInvalid => "invalid cc_address".to_owned(),
            ComposeError::BccAddressInvalid => "invalid bcc_address".to_owned(),
            ComposeError::ContentHtmlMissing => "content_html missing or empty".to_owned(),
        }
    }
}

} // verus!
