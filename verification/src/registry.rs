//! The shared-state registry: the slots through which interrupt context and
//! the cooperative loop exchange the radio handle, the last-known network
//! settings and the user's change callback.  The host guards every access
//! with its critical section; this type holds the slots' state and the exact
//! effect of each access.

use crate::flags::{spec_from_bits, valid_flag_bits, ChangedFlags};
use vstd::prelude::*;

verus! {

/// The network settings the radio layer reads and configuration calls write.
#[derive(Debug, Clone, Copy, PartialEq, Eq, Structural)]
pub struct NetworkSettings {
    pub promiscuous: bool,
    pub ext_address: u64,
    pub short_address: u16,
    pub pan_id: u16,
    pub channel: u8,
}

/// The settings in force before any were stored.
pub open spec fn spec_default_settings() -> NetworkSettings {
    NetworkSettings { promiscuous: false, ext_address: 0, short_address: 0, pan_id: 0, channel: 0 }
}

impl Default for NetworkSettings {
    /// The settings in force before any were stored.
    fn default() -> (r: NetworkSettings)
        ensures
            r == spec_default_settings(),
    {
        NetworkSettings {
            promiscuous: false,
            ext_address: 0,
            short_address: 0,
            pan_id: 0,
            channel: 0,
        }
    }
}

/// The registry's three slots: the radio handle (held for the engine's
/// lifetime), the last-known network settings, and the user's change
/// callback.  `R` is the radio handle's type and `C` the callback's; both are
/// owned by whoever built the registry and handed back on teardown.
pub struct Registry<R, C> {
    radio: Option<R>,
    settings: Option<NetworkSettings>,
    change_callback: Option<C>,
}

impl<R, C> Registry<R, C> {
    /// The radio slot.
    pub closed spec fn spec_radio(&self) -> Option<R> {
        self.radio
    }

    /// The settings slot.
    pub closed spec fn spec_settings(&self) -> Option<NetworkSettings> {
        self.settings
    }

    /// The change-callback slot.
    pub closed spec fn spec_change_callback(&self) -> Option<C> {
        self.change_callback
    }

    /// An empty registry: no radio, no settings, no callback.
    pub fn new() -> (r: Registry<R, C>)
        ensures
            r.spec_radio() is None,
            r.spec_settings() is None,
            r.spec_change_callback() is None,
    {
        Registry { radio: None, settings: None, change_callback: None }
    }

    /// Stores the radio handle for the engine's lifetime, replacing any
    /// previous holder.
    pub fn register_radio(&mut self, radio: R)
        ensures
            final(self).spec_radio() == Some(radio),
            final(self).spec_settings() == old(self).spec_settings(),
            final(self).spec_change_callback() == old(self).spec_change_callback(),
    {
        self.radio = Some(radio);
    }

    /// Runs `f` against the registered radio handle, returning `None` when no
    /// radio is registered and `Some` of `f`'s result otherwise.  The host
    /// calls this inside its critical section, so `f` must be short and
    /// non-blocking.
    pub fn with_radio<T, F: FnOnce(R) -> (R, T)>(&mut self, f: F) -> (r: Option<T>)
        requires
            old(self).spec_radio() matches Some(radio) ==> call_requires(f, (radio,)),
        ensures
            r is Some <==> old(self).spec_radio() is Some,
            old(self).spec_radio() is None ==> final(self).spec_radio() == old(
                self,
            ).spec_radio(),
            (old(self).spec_radio() is Some && r is Some) ==> exists|back: R|
                call_ensures(f, (old(self).spec_radio()->Some_0,), (back, r->Some_0))
                    && final(self).spec_radio() == Some(back),
            final(self).spec_settings() == old(self).spec_settings(),
            final(self).spec_change_callback() == old(self).spec_change_callback(),
    {
        match self.radio.take() {
            None => None,
            Some(radio) => {
                let (back, t) = f(radio);
                self.radio = Some(back);
                Some(t)
            },
        }
    }

    /// Reads the settings slot, falling back to the defaults while nothing
    /// has been stored.
    pub fn get_settings(&self) -> (r: NetworkSettings)
        ensures
            r == (match self.spec_settings() {
                Some(s) => s,
                None => spec_default_settings(),
            }),
    {
        match &self.settings {
            Some(s) => *s,
            None => NetworkSettings {
                promiscuous: false,
                ext_address: 0,
                short_address: 0,
                pan_id: 0,
                channel: 0,
            },
        }
    }

    /// Writes the settings slot.
    pub fn set_settings(&mut self, settings: NetworkSettings)
        ensures
            final(self).spec_settings() == Some(settings),
            final(self).spec_radio() == old(self).spec_radio(),
            final(self).spec_change_callback() == old(self).spec_change_callback(),
    {
        self.settings = Some(settings);
    }

    /// Stores the user's change callback, silently replacing and dropping any
    /// previous one; `None` clears the slot.
    pub fn set_change_callback(&mut self, callback: Option<C>)
        ensures
            final(self).spec_change_callback() == callback,
            final(self).spec_radio() == old(self).spec_radio(),
            final(self).spec_settings() == old(self).spec_settings(),
    {
        self.change_callback = callback;
    }

    /// Takes the change callback out of its slot, for the host to invoke; the
    /// host puts it back with [`Self::set_change_callback`] when the call
    /// returns.
    pub fn take_change_callback(&mut self) -> (r: Option<C>)
        ensures
            r == old(self).spec_change_callback(),
            final(self).spec_change_callback() is None,
            final(self).spec_radio() == old(self).spec_radio(),
            final(self).spec_settings() == old(self).spec_settings(),
    {
        self.change_callback.take()
    }

    /// Whether a change callback is registered.
    pub fn has_change_callback(&self) -> (r: bool)
        ensures
            r == (self.spec_change_callback() is Some),
    {
        self.change_callback.is_some()
    }

    /// The state-change dispatch decision: given the raw flag word the engine
    /// passed to its state-changed callback, yields the decoded flag set the
    /// user callback must now be invoked with — exactly once, with exactly
    /// those flags — or `None` when no callback is registered or the word
    /// carries a bit the engine cannot legitimately emit.
    pub fn change_callback(&self, bits: u32) -> (r: Option<ChangedFlags>)
        ensures
            r is Some <==> (self.spec_change_callback() is Some && valid_flag_bits(bits)),
            r matches Some(f) ==> f@ == bits && Some(f) == spec_from_bits(bits),
    {
        if self.change_callback.is_some() {
            ChangedFlags::from_bits(bits)
        } else {
            None
        }
    }

    /// Empties every slot, dropping the radio handle, the settings and the
    /// callback: the engine instance is being torn down.
    pub fn teardown(&mut self)
        ensures
            final(self).spec_radio() is None,
            final(self).spec_settings() is None,
            final(self).spec_change_callback() is None,
    {
        self.radio = None;
        self.settings = None;
        self.change_callback = None;
    }
}

} // verus!
