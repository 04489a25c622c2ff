use vstd::prelude::*;

pub mod crypto;
pub mod message;
pub mod screens;
pub mod text;

use crate::message::{Message, Navigation};
use crate::screens::decrypt;
use crate::screens::decrypt::Decrypt;
use crate::screens::encrypt;
use crate::screens::encrypt::Encrypt;
use crate::screens::home::Home;

verus! {

/// The screen the application shows.
#[derive(Debug, Clone, Copy, PartialEq, Eq)]
pub enum Screen {
    Home,
    Encrypt,
    Decrypt,
}

/// The screen a navigation event selects.
pub open spec fn nav_target(n: Navigation) -> Screen {
    match n {
        Navigation::Home => Screen::Home,
        Navigation::Encrypt => Screen::Encrypt,
        Navigation::Decrypt => Screen::Decrypt,
    }
}

/// The follow-up work the application asks of its caller after one event,
/// tagged by the workflow it belongs to.
#[derive(Debug, Clone, PartialEq, Eq)]
pub enum AppAction {
    Stay,
    Encrypt(encrypt::Action),
    Decrypt(decrypt::Action),
}

/// The mathematical value of an `AppAction`.
pub enum AppActionView {
    Stay,
    Encrypt(encrypt::ActionView),
    Decrypt(decrypt::ActionView),
}

impl View for AppAction {
    type V = AppActionView;

    open spec fn view(&self) -> AppActionView {
        match self {
            AppAction::Stay => AppActionView::Stay,
            AppAction::Encrypt(a) => AppActionView::Encrypt(a@),
            AppAction::Decrypt(a) => AppActionView::Decrypt(a@),
        }
    }
}

/// The application: the visible screen and one instance of each workflow.
/// The workflows live for the application's lifetime, so their state
/// survives navigating away and back.
pub struct Bed {
    screen: Screen,
    decrypt: Decrypt,
    encrypt: Encrypt,
    home: Home,
}

/// The mathematical value of the application's state.
pub struct BedView {
    pub screen: Screen,
    pub decrypt: decrypt::DecryptView,
    pub encrypt: encrypt::EncryptView,
}

impl View for Bed {
    type V = BedView;

    closed spec fn view(&self) -> BedView {
        BedView { screen: self.screen, decrypt: self.decrypt@, encrypt: self.encrypt@ }
    }
}

/// The window title for each screen.
pub open spec fn spec_title(s: Screen) -> Seq<char> {
    match s {
        Screen::Home => "Bitcoin Encrypted Descriptor"@,
        Screen::Encrypt => "Encrypt"@,
        Screen::Decrypt => "Decrypt"@,
    }
}

impl Bed {
    /// A fresh application: home screen, both workflows empty.
    pub fn new() -> (b: Self)
        ensures
            b@.screen == Screen::Home,
            b@.decrypt == (decrypt::DecryptView {
                key: None,
                encrypted_payload: None,
                valid: false,
                descriptor: None,
                error: None,
            }),
            b@.encrypt == (encrypt::EncryptView {
                descriptor: None,
                encrypted_payload: None,
                error: None,
            }),
    {
        Bed {
            screen: Screen::Home,
            decrypt: Decrypt::new(),
            encrypt: Encrypt::new(),
            home: Home::new(),
        }
    }

    /// The window title of the visible screen.
    pub fn title(&self) -> (t: String)
        ensures
            t@ == spec_title(self@.screen),
    {
        match self.screen {
            Screen::Home => "Bitcoin Encrypted Descriptor".to_owned(),
            Screen::Encrypt => "Encrypt".to_owned(),
            Screen::Decrypt => "Decrypt".to_owned(),
        }
    }

    /// Dispatches one top-level event: navigation selects the visible screen
    /// and touches no workflow; a workflow event reaches only its own
    /// workflow, whose follow-up work comes back tagged.
    pub fn update(&mut self, message: Message) -> (a: AppAction)
        ensures
            match message {
                Message::Nav(n) => final(self)@ == (BedView {
                    screen: nav_target(n),
                    ..old(self)@
                }) && a@ == AppActionView::Stay,
                Message::Encrypt(m) => ({
                    let (s2, act) = encrypt::spec_update(old(self)@.encrypt, m@);
                    final(self)@ == (BedView { encrypt: s2, ..old(self)@ }) && a@
                        == AppActionView::Encrypt(act)
                }),
                Message::Decrypt(m) => ({
                    let (s2, act) = decrypt::spec_update(old(self)@.decrypt, m@);
                    final(self)@ == (BedView { decrypt: s2, ..old(self)@ }) && a@
                        == AppActionView::Decrypt(act)
                }),
                Message::Home(_) => final(self)@ == old(self)@ && a@ == AppActionView::Stay,
            },
    {
        match message {
            Message::Nav(navigation) => {
                match navigation {
                    Navigation::Home => {
                        self.screen = Screen::Home;
                    },
                    Navigation::Encrypt => {
                        self.screen = Screen::Encrypt;
                    },
                    Navigation::Decrypt => {
                        self.screen = Screen::Decrypt;
                    },
                }
                AppAction::Stay
            },
            Message::Encrypt(m) => AppAction::Encrypt(self.encrypt.update(m)),
            Message::Decrypt(m) => AppAction::Decrypt(self.decrypt.update(m)),
            Message::Home(m) => {
                self.home.update(m);
                AppAction::Stay
            },
        }
    }

    /// The visible screen.
    pub fn screen(&self) -> (s: Screen)
        ensures
            s == self@.screen,
    {
        self.screen
    }

    /// The decrypt workflow, for reading.
    pub fn decrypt_screen(&self) -> (r: &Decrypt)
        ensures
            r@ == self@.decrypt,
    {
        &self.decrypt
    }

    /// The encrypt workflow, for reading.
    pub fn encrypt_screen(&self) -> (r: &Encrypt)
        ensures
            r@ == self@.encrypt,
    {
        &self.encrypt
    }
}

} // verus!
