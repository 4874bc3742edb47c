use vstd::prelude::*;
use vstd::string::*;

verus! {

/// The global shortcut that toggles recording, and whether it is in use.
#[derive(Debug, Clone)]
pub struct HotkeyConfig {
    pub accelerator: String,
    pub enabled: bool,
}

/// The shortcut used when none is configured.
pub open spec fn default_accelerator() -> Seq<char> {
    "Cmd+Shift+V"@
}

impl Default for HotkeyConfig {
    /// `Cmd+Shift+V`, enabled.
    fn default() -> (r: HotkeyConfig)
        ensures
            r.accelerator@ == default_accelerator(),
            r.enabled,
    {
        HotkeyConfig { accelerator: String::from_str("Cmd+Shift+V"), enabled: true }
    }
}

/// Keeps track of the shortcut that is registered, if any.
pub struct HotkeyManager {
    current_hotkey: Option<String>,
}

impl View for HotkeyManager {
    type V = Option<Seq<char>>;

    closed spec fn view(&self) -> Option<Seq<char>> {
        match self.current_hotkey {
            Some(s) => Some(s@),
            None => None,
        }
    }
}

/// The registered shortcut after `accelerator` has been registered.
pub open spec fn hotkey_after_register(prev: Option<Seq<char>>, accelerator: Seq<char>) -> Option<
    Seq<char>,
> {
    Some(accelerator)
}

/// The registered shortcut after the shortcut has been unregistered.
pub open spec fn hotkey_after_unregister(prev: Option<Seq<char>>) -> Option<Seq<char>> {
    None
}

/// The text of an optional string slice.
pub open spec fn opt_str_text(s: Option<&str>) -> Option<Seq<char>> {
    match s {
        Some(v) => Some(v@),
        None => None,
    }
}

impl HotkeyManager {
    /// A manager with no shortcut registered.
    pub fn new() -> (r: HotkeyManager)
        ensures
            r@ == None::<Seq<char>>,
    {
        HotkeyManager { current_hotkey: None }
    }

    /// Registers `accelerator` as the shortcut, in place of any earlier one.
    /// This always succeeds.
    pub fn register_hotkey(&mut self, accelerator: &str) -> (r: Result<(), String>)
        ensures
            r is Ok,
            final(self)@ == hotkey_after_register(old(self)@, accelerator@),
    {
        self.current_hotkey = Some(String::from_str(accelerator));
        Ok(())
    }

    /// Forgets the registered shortcut. This always succeeds.
    pub fn unregister_hotkey(&mut self) -> (r: Result<(), String>)
        ensures
            r is Ok,
            final(self)@ == hotkey_after_unregister(old(self)@),
    {
        self.current_hotkey = None;
        Ok(())
    }

    /// The registered shortcut, if any.
    pub fn get_current_hotkey(&self) -> (r: Option<&str>)
        ensures
            opt_str_text(r) == self@,
    {
        match &self.current_hotkey {
            Some(s) => Some(s.as_str()),
            None => None,
        }
    }
}

impl Default for HotkeyManager {
    /// A manager with no shortcut registered.
    fn default() -> (r: HotkeyManager)
        ensures
            r@ == None::<Seq<char>>,
    {
        HotkeyManager::new()
    }
}

/// Registering a shortcut and then asking for it gives it back, whatever was
/// registered before; after unregistering, no shortcut is reported.
pub proof fn lemma_hotkey_read_after_write(prev: Option<Seq<char>>, accelerator: Seq<char>)
    ensures
        hotkey_after_register(prev, accelerator) == Some(accelerator),
        hotkey_after_unregister(prev) == None::<Seq<char>>,
        hotkey_after_unregister(hotkey_after_register(prev, accelerator)) == None::<Seq<char>>,
{
}

} // verus!
