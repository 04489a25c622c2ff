use vstd::prelude::*;

use crate::crypto;
use crate::crypto::DecryptOutcome;
use crate::message;
use crate::text;

verus! {

/// Events of the decrypt workflow.
#[derive(Debug, Clone, PartialEq, Eq)]
pub enum Message {
    /// The user asks to load an encrypted backup from a file.
    LoadBackup,
    /// The user asks to load a public key from a file.
    LoadKey,
    /// The user asks to decrypt with the loaded inputs.
    Decrypt,
    /// A structurally valid encrypted payload was read.
    EncryptedPayload(Vec<u8>),
    /// A valid public key string (already trimmed) was read.
    Key(String),
    /// Decryption produced this descriptor text.
    Descriptor(String),
    /// The user asks to save the decrypted descriptor.
    Persist,
    /// An operation failed with this message.
    Error(String),
    /// An acknowledgement that needs no handling.
    Noop(String),
}

/// The mathematical value of a decrypt-workflow event.
pub enum MessageView {
    LoadBackup,
    LoadKey,
    Decrypt,
    EncryptedPayload(Seq<u8>),
    Key(Seq<char>),
    Descriptor(Seq<char>),
    Persist,
    Error(Seq<char>),
    Noop(Seq<char>),
}

impl View for Message {
    type V = MessageView;

    open spec fn view(&self) -> MessageView {
        match self {
            Message::LoadBackup => MessageView::LoadBackup,
            Message::LoadKey => MessageView::LoadKey,
            Message::Decrypt => MessageView::Decrypt,
            Message::EncryptedPayload(p) => MessageView::EncryptedPayload(p@),
            Message::Key(k) => MessageView::Key(k@),
            Message::Descriptor(d) => MessageView::Descriptor(d@),
            Message::Persist => MessageView::Persist,
            Message::Error(e) => MessageView::Error(e@),
            Message::Noop(s) => MessageView::Noop(s@),
        }
    }
}

/// The follow-up work a handled event asks of the caller. Everything that
/// touches a file dialog or the disk is carried out outside the workflow and
/// re-enters it as a single event.
#[derive(Debug, Clone, PartialEq, Eq)]
pub enum Action {
    /// Nothing to do.
    Stay,
    /// Open a read dialog for the encrypted backup; feed the outcome to
    /// `on_backup_read`.
    PickBackupFile,
    /// Open a read dialog for the key file; feed the outcome to `on_key_read`.
    PickKeyFile,
    /// Run `run_decrypt` on this payload and key and feed back its message.
    RunDecrypt(Vec<u8>, String),
    /// Open a write dialog and save this descriptor text; feed the outcome to
    /// `on_persist_result`.
    SaveDescriptor(String),
}

/// The mathematical value of an `Action`.
pub enum ActionView {
    Stay,
    PickBackupFile,
    PickKeyFile,
    RunDecrypt(Seq<u8>, Seq<char>),
    SaveDescriptor(Seq<char>),
}

impl View for Action {
    type V = ActionView;

    open spec fn view(&self) -> ActionView {
        match self {
            Action::Stay => ActionView::Stay,
            Action::PickBackupFile => ActionView::PickBackupFile,
            Action::PickKeyFile => ActionView::PickKeyFile,
            Action::RunDecrypt(p, k) => ActionView::RunDecrypt(p@, k@),
            Action::SaveDescriptor(d) => ActionView::SaveDescriptor(d@),
        }
    }
}

/// The decrypt workflow: loads a key and an encrypted payload, decrypts,
/// and offers to persist the resulting descriptor.
pub struct Decrypt {
    key: Option<String>,
    encrypted_payload: Option<Vec<u8>>,
    valid: bool,
    descriptor: Option<String>,
    error: Option<String>,
}

/// The mathematical value of the decrypt workflow's state.
pub struct DecryptView {
    pub key: Option<Seq<char>>,
    pub encrypted_payload: Option<Seq<u8>>,
    pub valid: bool,
    pub descriptor: Option<Seq<char>>,
    pub error: Option<Seq<char>>,
}

impl View for Decrypt {
    type V = DecryptView;

    closed spec fn view(&self) -> DecryptView {
        DecryptView {
            key: match self.key {
                Some(k) => Some(k@),
                None => None,
            },
            encrypted_payload: match self.encrypted_payload {
                Some(p) => Some(p@),
                None => None,
            },
            valid: self.valid,
            descriptor: match self.descriptor {
                Some(d) => Some(d@),
                None => None,
            },
            error: match self.error {
                Some(e) => Some(e@),
                None => None,
            },
        }
    }
}

/// How one event transforms the workflow state, and what follow-up work it
/// asks for. A successful input clears the previous status message; every
/// failure overwrites it.
pub open spec fn spec_update(s: DecryptView, m: MessageView) -> (DecryptView, ActionView) {
    match m {
        MessageView::LoadBackup => (s, ActionView::PickBackupFile),
        MessageView::LoadKey => (s, ActionView::PickKeyFile),
        MessageView::Decrypt => match (s.encrypted_payload, s.key) {
            (Some(p), Some(k)) => (s, ActionView::RunDecrypt(p, k)),
            _ => (s, ActionView::Stay),
        },
        MessageView::EncryptedPayload(p) => (
            DecryptView { encrypted_payload: Some(p), valid: s.key is Some, error: None, ..s },
            ActionView::Stay,
        ),
        MessageView::Key(k) => (
            DecryptView { key: Some(k), valid: s.encrypted_payload is Some, error: None, ..s },
            ActionView::Stay,
        ),
        MessageView::Descriptor(d) => (
            DecryptView { descriptor: Some(d), error: None, ..s },
            ActionView::Stay,
        ),
        MessageView::Persist => match s.descriptor {
            Some(d) => (s, ActionView::SaveDescriptor(d)),
            None => (s, ActionView::Stay),
        },
        MessageView::Error(e) => (DecryptView { error: Some(e), ..s }, ActionView::Stay),
        MessageView::Noop(_) => (s, ActionView::Stay),
    }
}

/// The event that a finished backup-file dialog feeds back: `None` stands for
/// a cancelled dialog, `Some(bytes)` for the bytes that were read.
pub open spec fn spec_backup_read(res: Option<Seq<u8>>) -> MessageView {
    match res {
        None => MessageView::Error("Fail to open file"@),
        Some(b) => if crypto::payload_structure_ok(b) {
            MessageView::EncryptedPayload(b)
        } else {
            MessageView::Error("Invalid payload"@)
        },
    }
}

/// The event that a finished key-file dialog feeds back: the bytes must
/// decode as UTF-8 and, once trimmed, parse as a public key.
pub open spec fn spec_key_read(res: Option<Seq<u8>>) -> MessageView {
    match res {
        None => MessageView::Error("Fail to open file"@),
        Some(b) => match text::utf8_decoded(b) {
            Some(s) => if crypto::key_ok(text::spec_trimmed(s)) {
                MessageView::Key(text::spec_trimmed(s))
            } else {
                MessageView::Error("this file does not contains a valid key"@)
            },
            None => MessageView::Error("this file does not contains a valid key"@),
        },
    }
}

/// The event that a decryption attempt feeds back.
pub open spec fn spec_run_decrypt(p: Seq<u8>, k: Seq<char>) -> MessageView {
    if crypto::payload_structure_ok(p) && crypto::key_ok(k) {
        match crypto::decryption(p, k) {
            Some(Some(d)) => MessageView::Descriptor(d),
            Some(None) => MessageView::Error("Payload decrypted, but not of type descriptor"@),
            None => MessageView::Error("This key fails to decrypt the encrypted payload"@),
        }
    } else {
        MessageView::Error("This key fails to decrypt the encrypted payload"@)
    }
}

/// The event that a finished save dialog feeds back: `None` stands for a
/// cancelled dialog, `Some(ok)` for a write that succeeded or failed.
pub open spec fn spec_persist_result(res: Option<bool>) -> MessageView {
    match res {
        None => MessageView::Error("Fail to open file."@),
        Some(true) => MessageView::Noop(Seq::empty()),
        Some(false) => MessageView::Error("Fail to write to disk."@),
    }
}

impl Decrypt {
    /// A fresh workflow: no inputs, no output, no message.
    pub fn new() -> (s: Self)
        ensures
            s@ == (DecryptView {
                key: None,
                encrypted_payload: None,
                valid: false,
                descriptor: None,
                error: None,
            }),
    {
        Decrypt { key: None, encrypted_payload: None, valid: false, descriptor: None, error: None }
    }

    /// Wraps a decrypt-workflow event for the top-level dispatcher.
    pub fn route(msg: Message) -> (r: message::Message)
        ensures
            r == message::Message::Decrypt(msg),
    {
        message::Message::Decrypt(msg)
    }

    /// Handles one event: mutates the state and returns the follow-up work,
    /// exactly as `spec_update` says.
    pub fn update(&mut self, msg: Message) -> (a: Action)
        ensures
            final(self)@ == spec_update(old(self)@, msg@).0,
            a@ == spec_update(old(self)@, msg@).1,
    {
        match msg {
            Message::LoadBackup => Action::PickBackupFile,
            Message::LoadKey => Action::PickKeyFile,
            Message::Decrypt => self.on_decrypt(),
            Message::EncryptedPayload(p) => {
                self.on_update_encrypted_payload(p);
                Action::Stay
            },
            Message::Key(key) => {
                self.on_update_key(key);
                Action::Stay
            },
            Message::Descriptor(d) => {
                self.on_update_descriptor(d);
                Action::Stay
            },
            Message::Persist => self.on_persist(),
            Message::Error(e) => {
                self.on_error(e);
                Action::Stay
            },
            Message::Noop(_) => Action::Stay,
        }
    }

    /// Asks for a decryption run when both inputs are present; a defensive
    /// no-op otherwise.
    fn on_decrypt(&mut self) -> (a: Action)
        ensures
            *final(self) == *old(self),
            a@ == spec_update(old(self)@, MessageView::Decrypt).1,
    {
        if let (Some(payload), Some(key)) = (&self.encrypted_payload, &self.key) {
            Action::RunDecrypt(payload.clone(), key.clone())
        } else {
            Action::Stay
        }
    }

    /// Stores the loaded ciphertext, clears the status message and
    /// recomputes readiness.
    fn on_update_encrypted_payload(&mut self, bytes: Vec<u8>)
        ensures
            final(self)@ == (DecryptView {
                encrypted_payload: Some(bytes@),
                valid: old(self)@.key is Some,
                error: None,
                ..old(self)@
            }),
    {
        self.encrypted_payload = Some(bytes);
        self.error = None;
        self.check_decryptable();
    }

    /// Stores the loaded key, clears the status message and recomputes
    /// readiness.
    fn on_update_key(&mut self, key: String)
        ensures
            final(self)@ == (DecryptView {
                key: Some(key@),
                valid: old(self)@.encrypted_payload is Some,
                error: None,
                ..old(self)@
            }),
    {
        self.key = Some(key);
        self.error = None;
        self.check_decryptable();
    }

    /// Stores the decrypted descriptor; reaching this terminal state clears
    /// any pending error.
    fn on_update_descriptor(&mut self, descriptor: String)
        ensures
            final(self)@ == (DecryptView {
                descriptor: Some(descriptor@),
                error: None,
                ..old(self)@
            }),
    {
        self.descriptor = Some(descriptor);
        self.error = None;
    }

    /// Stores a status message.
    fn on_error(&mut self, error: String)
        ensures
            final(self)@ == (DecryptView { error: Some(error@), ..old(self)@ }),
    {
        self.error = Some(error);
    }

    /// Asks to save the descriptor when one is present; a no-op otherwise.
    fn on_persist(&mut self) -> (a: Action)
        ensures
            *final(self) == *old(self),
            a@ == spec_update(old(self)@, MessageView::Persist).1,
    {
        if let Some(d) = &self.descriptor {
            Action::SaveDescriptor(d.clone())
        } else {
            Action::Stay
        }
    }

    /// Recomputes `valid`: true iff both inputs are present.
    fn check_decryptable(&mut self)
        ensures
            final(self)@ == (DecryptView {
                valid: old(self)@.key is Some && old(self)@.encrypted_payload is Some,
                ..old(self)@
            }),
    {
        self.valid = self.key.is_some() && self.encrypted_payload.is_some();
    }

    /// Turns the outcome of the backup-file dialog into the next event:
    /// bytes that pass the structural check are accepted, all else fails
    /// with the matching message.
    pub fn on_backup_read(res: Option<Vec<u8>>) -> (m: Message)
        ensures
            m@ == spec_backup_read(match res {
                Some(b) => Some(b@),
                None => None,
            }),
    {
        match res {
            Some(bytes) => {
                if crypto::payload_structure_is_valid(&bytes) {
                    Message::EncryptedPayload(bytes)
                } else {
                    Message::Error("Invalid payload".to_owned())
                }
            },
            None => Message::Error("Fail to open file".to_owned()),
        }
    }

    /// Turns the outcome of the key-file dialog into the next event: the
    /// bytes must be UTF-8 and their trimmed text must parse as a key.
    pub fn on_key_read(res: Option<Vec<u8>>) -> (m: Message)
        ensures
            m@ == spec_key_read(match res {
                Some(b) => Some(b@),
                None => None,
            }),
    {
        match res {
            Some(bytes) => match text::decode_utf8(bytes) {
                Some(s) => {
                    let t = text::trim_str(s.as_str());
                    if crypto::key_is_valid(t.as_str()) {
                        Message::Key(t)
                    } else {
                        Message::Error("this file does not contains a valid key".to_owned())
                    }
                },
                None => Message::Error("this file does not contains a valid key".to_owned()),
            },
            None => Message::Error("Fail to open file".to_owned()),
        }
    }

    /// Attempts the decryption and reports the outcome as the next event.
    pub fn run_decrypt(payload: &Vec<u8>, key: &String) -> (m: Message)
        ensures
            m@ == spec_run_decrypt(payload@, key@),
    {
        if crypto::payload_structure_is_valid(payload) && crypto::key_is_valid(key.as_str()) {
            match crypto::decrypt_payload(payload, key.as_str()) {
                DecryptOutcome::Descriptor(d) => Message::Descriptor(d),
                DecryptOutcome::NotDescriptor => Message::Error(
                    "Payload decrypted, but not of type descriptor".to_owned(),
                ),
                DecryptOutcome::Failure => Message::Error(
                    "This key fails to decrypt the encrypted payload".to_owned(),
                ),
            }
        } else {
            Message::Error("This key fails to decrypt the encrypted payload".to_owned())
        }
    }

    /// Turns the outcome of the save dialog into the next event.
    pub fn on_persist_result(res: Option<bool>) -> (m: Message)
        ensures
            m@ == spec_persist_result(res),
    {
        match res {
            None => Message::Error("Fail to open file.".to_owned()),
            Some(ok) => {
                if ok {
                    Message::Noop(String::new())
                } else {
                    Message::Error("Fail to write to disk.".to_owned())
                }
            },
        }
    }

    /// The loaded key, if any.
    pub fn key(&self) -> (r: &Option<String>)
        ensures
            match r {
                Some(k) => self@.key == Some(k@),
                None => self@.key is None,
            },
    {
        &self.key
    }

    /// The loaded encrypted payload, if any.
    pub fn encrypted_payload(&self) -> (r: &Option<Vec<u8>>)
        ensures
            match r {
                Some(p) => self@.encrypted_payload == Some(p@),
                None => self@.encrypted_payload is None,
            },
    {
        &self.encrypted_payload
    }

    /// Whether both inputs are present, so that decryption may be requested.
    pub fn is_valid(&self) -> (r: bool)
        ensures
            r == self@.valid,
    {
        self.valid
    }

    /// The decrypted descriptor, if any.
    pub fn descriptor(&self) -> (r: &Option<String>)
        ensures
            match r {
                Some(d) => self@.descriptor == Some(d@),
                None => self@.descriptor is None,
            },
    {
        &self.descriptor
    }

    /// The last status message, if any.
    pub fn error(&self) -> (r: &Option<String>)
        ensures
            match r {
                Some(e) => self@.error == Some(e@),
                None => self@.error is None,
            },
    {
        &self.error
    }
}

/// `valid` means exactly that both inputs are present.
pub open spec fn ready_consistent(s: DecryptView) -> bool {
    s.valid == (s.key is Some && s.encrypted_payload is Some)
}


/// The base case of the readiness invariant: a fresh workflow is
/// ready-consistent, so with `lemma_update_preserves_ready` the equality
/// holds after any sequence of events.
pub proof fn lemma_new_ready_consistent()
    ensures
        ready_consistent(DecryptView {
            key: None,
            encrypted_payload: None,
            valid: false,
            descriptor: None,
            error: None,
        }),
{
}

/// Readiness stays consistent under every event: a fresh workflow satisfies
/// `ready_consistent`, and each handled event preserves it, so `valid` equals
/// "both inputs present" at every point in time.
pub proof fn lemma_update_preserves_ready(s: DecryptView, m: MessageView)
    requires
        ready_consistent(s),
    ensures
        ready_consistent(spec_update(s, m).0),
{
}

/// Bytes that fail the structural check yield the "Invalid payload" error,
/// and handling that error leaves both inputs, the output and readiness
/// untouched.
pub proof fn lemma_invalid_payload_leaves_inputs(s: DecryptView, bytes: Seq<u8>)
    requires
        !crypto::payload_structure_ok(bytes),
    ensures
        spec_backup_read(Some(bytes)) == MessageView::Error("Invalid payload"@),
        spec_update(s, spec_backup_read(Some(bytes))).0 == (DecryptView {
            error: Some("Invalid payload"@),
            ..s
        }),
        spec_update(s, spec_backup_read(Some(bytes))).1 == ActionView::Stay,
{
}

/// A cancelled file dialog only sets the status message: neither input nor
/// the output nor readiness changes, whichever of the three dialogs it was.
pub proof fn lemma_cancelled_dialog_leaves_state(s: DecryptView)
    ensures
        spec_backup_read(None) == MessageView::Error("Fail to open file"@),
        spec_key_read(None) == MessageView::Error("Fail to open file"@),
        spec_persist_result(None) == MessageView::Error("Fail to open file."@),
        spec_update(s, spec_backup_read(None)).0 == (DecryptView {
            error: Some("Fail to open file"@),
            ..s
        }),
        spec_update(s, spec_backup_read(None)).1 == ActionView::Stay,
        spec_update(s, spec_persist_result(None)).0 == (DecryptView {
            error: Some("Fail to open file."@),
            ..s
        }),
        spec_update(s, spec_persist_result(None)).1 == ActionView::Stay,
{
}

} // verus!
