//! The global hotkey service: which hotkey is registered, and what a
//! change of settings asks of the registration.

use vstd::prelude::*;

use crate::config::AppConfig;
use crate::error::{ClipTypeError, Result};

verus! {

/// The view of an optional string.
pub open spec fn optional_text(s: Option<String>) -> Option<Seq<char>> {
    match s {
        Some(t) => Some(t@),
        None => None,
    }
}

/// Keeps the hotkey that is registered with the system, if any.
#[derive(Debug)]
pub struct HotkeyService {
    registered: Option<String>,
}

impl View for HotkeyService {
    type V = Option<Seq<char>>;

    closed spec fn view(&self) -> Option<Seq<char>> {
        optional_text(self.registered)
    }
}

impl Default for HotkeyService {
    fn default() -> (r: Self)
        ensures
            r@ == None::<Seq<char>>,
    {
        HotkeyService { registered: None }
    }
}

/// What the system registration must undergo: the hotkey to unregister and
/// the hotkey to register, in that order.
#[derive(Debug, Clone, PartialEq, Eq)]
pub struct HotkeyChange {
    pub unregister: Option<String>,
    pub register: Option<String>,
}

impl HotkeyService {
    /// Whether a hotkey is registered.
    pub fn is_registered(&self) -> (r: bool)
        ensures
            r == self@ is Some,
    {
        self.registered.is_some()
    }

    /// Forgets the registered hotkey and returns it: the system
    /// registration of that hotkey is to be removed.
    pub fn unregister_current(&mut self) -> (r: Option<String>)
        ensures
            final(self)@ == None::<Seq<char>>,
            optional_text(r) == old(self)@,
    {
        let taken = self.registered.take();
        proof {
            assert(self@ == optional_text(self.registered));
        }
        taken
    }

    /// Brings the registration in line with `config`: the registered
    /// hotkey, if any, is forgotten and is to be unregistered; the hotkey of
    /// the settings is to be registered when ClipType is enabled, after
    /// which `mark_registered` records it.
    pub fn sync(&mut self, config: &AppConfig) -> (r: HotkeyChange)
        ensures
            final(self)@ == None::<Seq<char>>,
            optional_text(r.unregister) == old(self)@,
            optional_text(r.register) == (if config.enabled {
                Some(config.hotkey@)
            } else {
                None
            }),
    {
        let unregister = self.unregister_current();
        if !config.enabled {
            return HotkeyChange { unregister, register: None };
        }
        HotkeyChange { unregister, register: Some(config.hotkey.clone()) }
    }

    /// Ends the registration of `hotkey` with the system, whose outcome was
    /// `outcome`: on success the hotkey counts as registered; on failure
    /// the registration record stays as it was and the error is handed on.
    pub fn finish_register(&mut self, hotkey: String, outcome: Result<()>) -> (r: Result<()>)
        ensures
            outcome is Ok ==> r is Ok && final(self)@ == Some(hotkey@),
            outcome matches Err(e) ==> r == Err::<(), ClipTypeError>(e) && final(self)@
                == old(self)@,
    {
        match outcome {
            Ok(()) => {
                self.mark_registered(hotkey);
                Ok(())
            },
            Err(e) => Err(e),
        }
    }

    /// Records that `hotkey` is now registered with the system.
    pub fn mark_registered(&mut self, hotkey: String)
        ensures
            final(self)@ == Some(hotkey@),
    {
        self.registered = Some(hotkey);
    }
}

} // verus!
