use vstd::prelude::*;
use vstd::string::StringExecFns;

use crate::crypto;
use crate::message;
use crate::text;

verus! {

/// Events of the encrypt workflow.
#[derive(Debug, Clone, PartialEq, Eq)]
pub enum Message {
    /// The user asks to load a descriptor from a file.
    LoadDescriptor,
    /// The user asks to encrypt the loaded descriptor.
    Encrypt,
    /// Encryption produced this payload.
    EncryptedPayload(Vec<u8>),
    /// A valid descriptor string (already trimmed) was read.
    Descriptor(String),
    /// An operation failed with this message.
    Error(String),
    /// An acknowledgement that needs no handling.
    Noop(String),
}

/// The mathematical value of an encrypt-workflow event.
pub enum MessageView {
    LoadDescriptor,
    Encrypt,
    EncryptedPayload(Seq<u8>),
    Descriptor(Seq<char>),
    Error(Seq<char>),
    Noop(Seq<char>),
}

impl View for Message {
    type V = MessageView;

    open spec fn view(&self) -> MessageView {
        match self {
            Message::LoadDescriptor => MessageView::LoadDescriptor,
            Message::Encrypt => MessageView::Encrypt,
            Message::EncryptedPayload(p) => MessageView::EncryptedPayload(p@),
            Message::Descriptor(d) => MessageView::Descriptor(d@),
            Message::Error(e) => MessageView::Error(e@),
            Message::Noop(s) => MessageView::Noop(s@),
        }
    }
}

/// The follow-up work a handled event asks of the caller.
#[derive(Debug, Clone, PartialEq, Eq)]
pub enum Action {
    /// Nothing to do.
    Stay,
    /// Open a read dialog for the descriptor file; feed the outcome to
    /// `on_descriptor_read`.
    PickDescriptorFile,
    /// Run `run_encrypt` on this descriptor and feed back its message.
    RunEncrypt(String),
    /// Open a write dialog and save this payload; feed the outcome to
    /// `on_persist_result`.
    SaveBackup(Vec<u8>),
}

/// The mathematical value of an `Action`.
pub enum ActionView {
    Stay,
    PickDescriptorFile,
    RunEncrypt(Seq<char>),
    SaveBackup(Seq<u8>),
}

impl View for Action {
    type V = ActionView;

    open spec fn view(&self) -> ActionView {
        match self {
            Action::Stay => ActionView::Stay,
            Action::PickDescriptorFile => ActionView::PickDescriptorFile,
            Action::RunEncrypt(d) => ActionView::RunEncrypt(d@),
            Action::SaveBackup(p) => ActionView::SaveBackup(p@),
        }
    }
}

/// The encrypt workflow: loads a descriptor, encrypts it under a fresh
/// nonce, and saves the resulting payload.
pub struct Encrypt {
    descriptor: Option<String>,
    encrypted_payload: Option<Vec<u8>>,
    error: Option<String>,
}

/// The mathematical value of the encrypt workflow's state.
pub struct EncryptView {
    pub descriptor: Option<Seq<char>>,
    pub encrypted_payload: Option<Seq<u8>>,
    pub error: Option<Seq<char>>,
}

impl View for Encrypt {
    type V = EncryptView;

    closed spec fn view(&self) -> EncryptView {
        EncryptView {
            descriptor: match self.descriptor {
                Some(d) => Some(d@),
                None => None,
            },
            encrypted_payload: match self.encrypted_payload {
                Some(p) => Some(p@),
                None => None,
            },
            error: match self.error {
                Some(e) => Some(e@),
                None => None,
            },
        }
    }
}

/// How one event transforms the workflow state, and what follow-up work it
/// asks for. A successful input clears the previous status message; a
/// freshly encrypted payload is stored, reported, and handed straight on for
/// saving: persistence is chained, not a separate user step.
pub open spec fn spec_update(s: EncryptView, m: MessageView) -> (EncryptView, ActionView) {
    match m {
        MessageView::LoadDescriptor => (s, ActionView::PickDescriptorFile),
        MessageView::Encrypt => match s.descriptor {
            Some(d) => (s, ActionView::RunEncrypt(d)),
            None => (s, ActionView::Stay),
        },
        MessageView::EncryptedPayload(p) => (
            EncryptView {
                encrypted_payload: Some(p),
                error: Some("Descriptor encrypted!"@),
                ..s
            },
            ActionView::SaveBackup(p),
        ),
        MessageView::Descriptor(d) => (
            EncryptView { descriptor: Some(d), error: None, ..s },
            ActionView::Stay,
        ),
        MessageView::Error(e) => (EncryptView { error: Some(e), ..s }, ActionView::Stay),
        MessageView::Noop(_) => (s, ActionView::Stay),
    }
}

/// The event that a finished descriptor-file dialog feeds back: the bytes
/// must decode as UTF-8 and their trimmed text must parse as a descriptor.
pub open spec fn spec_descriptor_read(res: Option<Seq<u8>>) -> MessageView {
    match res {
        None => MessageView::Error("Fail to open file"@),
        Some(b) => match text::utf8_decoded(b) {
            Some(s) => if crypto::descriptor_ok(text::spec_trimmed(s)) {
                MessageView::Descriptor(text::spec_trimmed(s))
            } else {
                MessageView::Error("File does not contains a valid descriptor."@)
            },
            None => MessageView::Error("File does not contains a valid descriptor."@),
        },
    }
}

/// The event that an encryption attempt under a given nonce feeds back.
pub open spec fn spec_run_encrypt(d: Seq<char>, nonce: Seq<u8>) -> MessageView {
    if crypto::descriptor_ok(d) {
        match crypto::encryption(d, nonce) {
            Ok(bytes) => MessageView::EncryptedPayload(bytes),
            Err(e) => MessageView::Error("Fail to encrypt descriptor: "@ + e),
        }
    } else {
        MessageView::Error("File does not contains a valid descriptor."@)
    }
}

/// The event that a finished save dialog feeds back.
pub open spec fn spec_persist_result(res: Option<bool>) -> MessageView {
    match res {
        None => MessageView::Error("Fail to open file."@),
        Some(true) => MessageView::Noop(Seq::empty()),
        Some(false) => MessageView::Error("Fail to write to disk."@),
    }
}

impl Encrypt {
    /// A fresh workflow: no input, no output, no message.
    pub fn new() -> (s: Self)
        ensures
            s@ == (EncryptView { descriptor: None, encrypted_payload: None, error: None }),
    {
        Encrypt { descriptor: None, encrypted_payload: None, error: None }
    }

    /// Wraps an encrypt-workflow event for the top-level dispatcher.
    pub fn route(msg: Message) -> (r: message::Message)
        ensures
            r == message::Message::Encrypt(msg),
    {
        message::Message::Encrypt(msg)
    }

    /// Handles one event: mutates the state and returns the follow-up work,
    /// exactly as `spec_update` says.
    pub fn update(&mut self, msg: Message) -> (a: Action)
        ensures
            final(self)@ == spec_update(old(self)@, msg@).0,
            a@ == spec_update(old(self)@, msg@).1,
    {
        match msg {
            Message::LoadDescriptor => Action::PickDescriptorFile,
            Message::Encrypt => self.on_encrypt(),
            Message::EncryptedPayload(p) => self.on_persist_backup(p),
            Message::Descriptor(d) => {
                self.on_update_descriptor(d);
                Action::Stay
            },
            Message::Error(e) => {
                self.on_error(e);
                Action::Stay
            },
            Message::Noop(_) => Action::Stay,
        }
    }

    /// Asks for an encryption run when a descriptor is loaded; a defensive
    /// no-op otherwise.
    fn on_encrypt(&mut self) -> (a: Action)
        ensures
            *final(self) == *old(self),
            a@ == spec_update(old(self)@, MessageView::Encrypt).1,
    {
        if let Some(d) = &self.descriptor {
            Action::RunEncrypt(d.clone())
        } else {
            Action::Stay
        }
    }

    /// Stores the loaded descriptor and clears the status message.
    fn on_update_descriptor(&mut self, descriptor: String)
        ensures
            final(self)@ == (EncryptView {
                descriptor: Some(descriptor@),
                error: None,
                ..old(self)@
            }),
    {
        self.descriptor = Some(descriptor);
        self.error = None;
    }

    /// Stores a status message.
    fn on_error(&mut self, error: String)
        ensures
            final(self)@ == (EncryptView { error: Some(error@), ..old(self)@ }),
    {
        self.error = Some(error);
    }

    /// Stores the fresh payload, reports success, and asks to save it at
    /// once.
    fn on_persist_backup(&mut self, bytes: Vec<u8>) -> (a: Action)
        ensures
            final(self)@ == spec_update(old(self)@, MessageView::EncryptedPayload(bytes@)).0,
            a@ == spec_update(old(self)@, MessageView::EncryptedPayload(bytes@)).1,
    {
        self.encrypted_payload = Some(bytes.clone());
        self.error = Some("Descriptor encrypted!".to_owned());
        Action::SaveBackup(bytes)
    }

    /// Turns the outcome of the descriptor-file dialog into the next event.
    pub fn on_descriptor_read(res: Option<Vec<u8>>) -> (m: Message)
        ensures
            m@ == spec_descriptor_read(match res {
                Some(b) => Some(b@),
                None => None,
            }),
    {
        match res {
            Some(bytes) => match text::decode_utf8(bytes) {
                Some(s) => {
                    let t = text::trim_str(s.as_str());
                    if crypto::descriptor_is_valid(t.as_str()) {
                        Message::Descriptor(t)
                    } else {
                        Message::Error("File does not contains a valid descriptor.".to_owned())
                    }
                },
                None => Message::Error("File does not contains a valid descriptor.".to_owned()),
            },
            None => Message::Error("Fail to open file".to_owned()),
        }
    }

    /// Encrypts the descriptor under the given nonce and reports the outcome
    /// as the next event.
    pub fn run_encrypt_with(descriptor: &String, nonce: [u8; 12]) -> (m: Message)
        ensures
            m@ == spec_run_encrypt(descriptor@, nonce@),
    {
        if crypto::descriptor_is_valid(descriptor.as_str()) {
            match crypto::encrypt_descriptor(descriptor.as_str(), nonce) {
                Ok(bytes) => Message::EncryptedPayload(bytes),
                Err(e) => Message::Error(
                    "Fail to encrypt descriptor: ".to_owned().concat(e.as_str()),
                ),
            }
        } else {
            Message::Error("File does not contains a valid descriptor.".to_owned())
        }
    }

    /// Draws a fresh nonce from the secure source and encrypts the
    /// descriptor under it; reports a failure of the source as an event.
    pub fn run_encrypt(descriptor: &String) -> (m: Message)
        ensures
            m@ == MessageView::Error("Failed to generate random bytes"@) || (exists|n: Seq<u8>|
                n.len() == 12 && m@ == spec_run_encrypt(descriptor@, n)),
    {
        match crypto::generate_nonce() {
            Some(nonce) => {
                let m = Self::run_encrypt_with(descriptor, nonce);
                proof {
                    assert(nonce@.len() == 12);
                }
                m
            },
            None => Message::Error("Failed to generate random bytes".to_owned()),
        }
    }

    /// Turns the outcome of the save dialog into the next event.
    pub fn on_persist_result(res: Option<bool>) -> (m: Message)
        ensures
            m@ == spec_persist_result(res),
    {
        match res {
            None => Message::Error("Fail to open file.".to_owned()),
            Some(ok) => {
                if ok {
                    Message::Noop(String::new())
                } else {
                    Message::Error("Fail to write to disk.".to_owned())
                }
            },
        }
    }

    /// The loaded descriptor, if any.
    pub fn descriptor(&self) -> (r: &Option<String>)
        ensures
            match r {
                Some(d) => self@.descriptor == Some(d@),
                None => self@.descriptor is None,
            },
    {
        &self.descriptor
    }

    /// The encrypted payload, if any.
    pub fn encrypted_payload(&self) -> (r: &Option<Vec<u8>>)
        ensures
            match r {
                Some(p) => self@.encrypted_payload == Some(p@),
                None => self@.encrypted_payload is None,
            },
    {
        &self.encrypted_payload
    }

    /// The last status message, if any.
    pub fn error(&self) -> (r: &Option<String>)
        ensures
            match r {
                Some(e) => self@.error == Some(e@),
                None => self@.error is None,
            },
    {
        &self.error
    }
}

/// A cancelled file dialog only sets the status message: neither the loaded
/// descriptor nor the encrypted payload changes, whichever dialog it was.
pub proof fn lemma_cancelled_dialog_leaves_state(s: EncryptView)
    ensures
        spec_descriptor_read(None) == MessageView::Error("Fail to open file"@),
        spec_persist_result(None) == MessageView::Error("Fail to open file."@),
        spec_update(s, spec_descriptor_read(None)).0 == (EncryptView {
            error: Some("Fail to open file"@),
            ..s
        }),
        spec_update(s, spec_descriptor_read(None)).1 == ActionView::Stay,
        spec_update(s, spec_persist_result(None)).0 == (EncryptView {
            error: Some("Fail to open file."@),
            ..s
        }),
        spec_update(s, spec_persist_result(None)).1 == ActionView::Stay,
{
}

} // verus!
