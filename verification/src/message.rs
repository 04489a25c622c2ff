use vstd::prelude::*;

use crate::screens;

verus! {

/// The top-level event: a navigation request or an event of one workflow,
/// wrapped in its direction's tag so that dispatch needs no look inside.
#[derive(Debug, Clone, PartialEq, Eq)]
pub enum Message {
    Nav(Navigation),
    Encrypt(screens::encrypt::Message),
    Decrypt(screens::decrypt::Message),
    Home(screens::home::Message),
}

/// A pure selection of the visible screen; it carries no payload and never
/// touches workflow state.
#[derive(Debug, Clone, PartialEq, Eq)]
pub enum Navigation {
    Home,
    Encrypt,
    Decrypt,
}

} // verus!
