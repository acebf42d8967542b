//! Keyboard simulation: modifier masks, the reverse key map built from a
//! platform layout, and the resolution of a remote keystroke into the key
//! event the platform synthesizer posts.
//!
//! The platform layout and the event synthesizer are behind the two traits;
//! their implementations (OS translation tables, event posting) live outside
//! the library.

use vstd::prelude::*;
use vstd::string::StringExecFns;

verus! {

/// Keycode range probed when building the key map: keycodes 0..128.
pub const KEYCODE_PROBE_LIMIT: u16 = 128;

/// A modifier key, as the platform translation tables know it.
#[derive(Debug, Clone, Copy, PartialEq, Eq, Structural)]
pub enum KeyModifier {
    Cmd,
    Shift,
    AlphaLock,
    Alt,
    Ctrl,
    RightShift,
    RightAlt,
    RightCtrl,
}

impl KeyModifier {
    /// The modifier's bit in a modifier mask.
    pub open spec fn spec_mask(self) -> u32 {
        match self {
            KeyModifier::Cmd => 0x100,
            KeyModifier::Shift => 0x200,
            KeyModifier::AlphaLock => 0x400,
            KeyModifier::Alt => 0x800,
            KeyModifier::Ctrl => 0x1000,
            KeyModifier::RightShift => 0x2000,
            KeyModifier::RightAlt => 0x4000,
            KeyModifier::RightCtrl => 0x8000,
        }
    }

    /// The modifier's bit in a modifier mask.
    pub fn mask(self) -> (r: u32)
        ensures
            r == self.spec_mask(),
    {
        match self {
            KeyModifier::Cmd => 0x100,
            KeyModifier::Shift => 0x200,
            KeyModifier::AlphaLock => 0x400,
            KeyModifier::Alt => 0x800,
            KeyModifier::Ctrl => 0x1000,
            KeyModifier::RightShift => 0x2000,
            KeyModifier::RightAlt => 0x4000,
            KeyModifier::RightCtrl => 0x8000,
        }
    }
}

/// Adds one modifier's bit to a modifier mask.
pub fn extend_modifier(modifier: u32, new_modifier: KeyModifier) -> (r: u32)
    ensures
        r == modifier | new_modifier.spec_mask(),
{
    modifier | new_modifier.mask()
}

/// The text `display_mod` produces: one name per set modifier bit, each
/// followed by a space, in a fixed order.
pub open spec fn display_mod_spec(modifier: u32) -> Seq<char> {
    (if modifier & 0x100 != 0 {
        "Cmd "@
    } else {
        Seq::empty()
    }) + (if modifier & 0x200 != 0 {
        "Shift "@
    } else {
        Seq::empty()
    }) + (if modifier & 0x400 != 0 {
        "AlphaLock "@
    } else {
        Seq::empty()
    }) + (if modifier & 0x800 != 0 {
        "Option "@
    } else {
        Seq::empty()
    }) + (if modifier & 0x1000 != 0 {
        "Ctrl "@
    } else {
        Seq::empty()
    }) + (if modifier & 0x2000 != 0 {
        "RightShift "@
    } else {
        Seq::empty()
    }) + (if modifier & 0x4000 != 0 {
        "RightOption "@
    } else {
        Seq::empty()
    }) + (if modifier & 0x8000 != 0 {
        "RightCtrl "@
    } else {
        Seq::empty()
    })
}

/// Renders a modifier mask as text, one name per set bit.
pub fn display_mod(modifier: u32) -> (r: String)
    ensures
        r@ == display_mod_spec(modifier),
{
    let mut result = String::new();
    if modifier & 0x100 != 0 {
        result.append("Cmd ");
    }
    if modifier & 0x200 != 0 {
        result.append("Shift ");
    }
    if modifier & 0x400 != 0 {
        result.append("AlphaLock ");
    }
    if modifier & 0x800 != 0 {
        result.append("Option ");
    }
    if modifier & 0x1000 != 0 {
        result.append("Ctrl ");
    }
    if modifier & 0x2000 != 0 {
        result.append("RightShift ");
    }
    if modifier & 0x4000 != 0 {
        result.append("RightOption ");
    }
    if modifier & 0x8000 != 0 {
        result.append("RightCtrl ");
    }
    result
}

/// The modifiers named by a mask, in a fixed order.
pub open spec fn get_modifiers_spec(modifier: u32) -> Seq<KeyModifier> {
    (if modifier & 0x100 != 0 {
        seq![KeyModifier::Cmd]
    } else {
        Seq::empty()
    }) + (if modifier & 0x200 != 0 {
        seq![KeyModifier::Shift]
    } else {
        Seq::empty()
    }) + (if modifier & 0x400 != 0 {
        seq![KeyModifier::AlphaLock]
    } else {
        Seq::empty()
    }) + (if modifier & 0x800 != 0 {
        seq![KeyModifier::Alt]
    } else {
        Seq::empty()
    }) + (if modifier & 0x1000 != 0 {
        seq![KeyModifier::Ctrl]
    } else {
        Seq::empty()
    }) + (if modifier & 0x2000 != 0 {
        seq![KeyModifier::RightShift]
    } else {
        Seq::empty()
    }) + (if modifier & 0x4000 != 0 {
        seq![KeyModifier::RightAlt]
    } else {
        Seq::empty()
    }) + (if modifier & 0x8000 != 0 {
        seq![KeyModifier::RightCtrl]
    } else {
        Seq::empty()
    })
}

/// Lists the modifiers named by a mask.
#[verifier::rlimit(100)]
pub fn get_modifiers(modifier: u32) -> (r: Vec<KeyModifier>)
    ensures
        r@ == get_modifiers_spec(modifier),
{
    let mut result: Vec<KeyModifier> = Vec::new();
    if modifier & 0x100 != 0 {
        result.push(KeyModifier::Cmd);
    }
    if modifier & 0x200 != 0 {
        result.push(KeyModifier::Shift);
    }
    if modifier & 0x400 != 0 {
        result.push(KeyModifier::AlphaLock);
    }
    if modifier & 0x800 != 0 {
        result.push(KeyModifier::Alt);
    }
    if modifier & 0x1000 != 0 {
        result.push(KeyModifier::Ctrl);
    }
    if modifier & 0x2000 != 0 {
        result.push(KeyModifier::RightShift);
    }
    if modifier & 0x4000 != 0 {
        result.push(KeyModifier::RightAlt);
    }
    if modifier & 0x8000 != 0 {
        result.push(KeyModifier::RightCtrl);
    }
    assert(result@ =~= get_modifiers_spec(modifier));
    result
}

/// On Windows, the virtual-key code a modifier maps to when it is pressed
/// into the keyboard state for translation.
pub fn map_modifier_to_virtual_key(modifier: KeyModifier) -> (r: u32)
    ensures
        r == match modifier {
            KeyModifier::Cmd => 0x5B_u32,
            KeyModifier::Shift => 0x10_u32,
            KeyModifier::AlphaLock => 0x14_u32,
            KeyModifier::Alt => 0x12_u32,
            KeyModifier::Ctrl => 0x11_u32,
            KeyModifier::RightShift => 0xA1_u32,
            KeyModifier::RightAlt => 0xA5_u32,
            KeyModifier::RightCtrl => 0xA3_u32,
        },
{
    match modifier {
        KeyModifier::Cmd => 0x5B,
        KeyModifier::Shift => 0x10,
        KeyModifier::AlphaLock => 0x14,
        KeyModifier::Alt => 0x12,
        KeyModifier::Ctrl => 0x11,
        KeyModifier::RightShift => 0xA1,
        KeyModifier::RightAlt => 0xA5,
        KeyModifier::RightCtrl => 0xA3,
    }
}

/// One key mapping: the keycode that, with the given modifier mask active,
/// produces the given key string under the layout the map was built from.
#[derive(Debug, Clone)]
pub struct KeyMapEntry {
    /// The platform-specific keycode that produces this key combination.
    pub keycode: u16,
    /// The key string the keycode produces with the modifiers active.
    pub key: String,
    /// The modifier mask active when this mapping was recorded.
    pub modifiers: u32,
}

/// The platform keyboard event: its Unicode payload can be overridden and
/// it can be posted to the OS.
pub trait KeyboardEventTrait {
    /// Replaces the event's Unicode payload with the given string.
    fn override_utf(&mut self, key: &str);

    /// Posts the event to the OS.
    fn send(&self);
}

/// The platform keyboard layout: keycode translation, change detection and
/// the layout-independent key table.
///
/// The two specification functions are the layout's mathematical view:
/// the current translation tables, which hold still between layout
/// changes. The contracts tie the executable methods to that view, and
/// they are the platform adapters' obligations — an adapter must answer
/// consistently with one view until `has_changed` reports a change;
/// what is proved through the trait holds of every adapter that keeps
/// the contracts. Outside the verifier the view functions erase to
/// stubs that are never called.
pub trait KeyboardLayoutTrait {
    /// The string the current layout's tables translate a keycode and
    /// modifier mask to; `None` where the combination produces nothing.
    spec fn spec_translate(&self, keycode: u16, modifier: u32) -> Option<Seq<char>>;

    /// The layout-independent key table, as the layout defines it.
    spec fn spec_independent_codes(&self) -> Seq<(Seq<char>, u16)>;

    /// What string the keycode produces with the modifier mask active, under
    /// the current layout; `None` where it produces nothing.
    fn key_translate(&self, keycode: u16, modifier: u32) -> (r: Option<String>)
        ensures
            match r {
                Some(s) => self.spec_translate(keycode, modifier) matches Some(t) && s@ == t,
                None => self.spec_translate(keycode, modifier) is None,
            },
    ;

    /// True exactly once after each real layout change; reset on read.
    /// What the layout changed to is the adapter's business, so nothing
    /// is promised of the new view.
    fn has_changed(&mut self) -> bool;

    /// The layout-independent keys (Enter, Tab, arrows, ...) with their
    /// fixed keycodes.
    fn get_independent_codes(&self) -> (r: Vec<(String, u16)>)
        ensures
            r@.len() == self.spec_independent_codes().len(),
            forall|i: int|
                0 <= i < r@.len() ==> (#[trigger] r@[i]).0@ == self.spec_independent_codes()[i].0
                    && r@[i].1 == self.spec_independent_codes()[i].1,
    ;
}

/// First keycode paired with `key` in the layout-independent table.
pub open spec fn independent_lookup(codes: Seq<(String, u16)>, key: Seq<char>) -> Option<u16>
    decreases codes.len(),
{
    if codes.len() == 0 {
        None
    } else if codes.first().0@ == key {
        Some(codes.first().1)
    } else {
        independent_lookup(codes.drop_first(), key)
    }
}

/// First keycode of an entry matching both the key string and the modifier
/// mask.
pub open spec fn entry_lookup(entries: Seq<KeyMapEntry>, key: Seq<char>, modifiers: u32) -> Option<
    u16,
>
    decreases entries.len(),
{
    if entries.len() == 0 {
        None
    } else if entries.first().key@ == key && entries.first().modifiers == modifiers {
        Some(entries.first().keycode)
    } else {
        entry_lookup(entries.drop_first(), key, modifiers)
    }
}

/// The mask a layout-dependent lookup searches under: Control is cleared,
/// because Control-modified keycodes yield no printable string in the
/// translation tables.
pub open spec fn effective_modifier(modifier: u32) -> u32 {
    if modifier & 0x1000 != 0 {
        modifier & !0x1000u32
    } else {
        modifier
    }
}

/// What `KeyMap::get_code` resolves a key and modifier mask to.
pub open spec fn get_code_spec(
    independent_codes: Seq<(String, u16)>,
    entries: Seq<KeyMapEntry>,
    key: Seq<char>,
    modifier: u32,
) -> Option<u16> {
    match independent_lookup(independent_codes, key) {
        Some(code) => Some(code),
        None => entry_lookup(entries, key, effective_modifier(modifier)),
    }
}

/// A layout-independent key resolves to its fixed keycode under every
/// modifier mask.
pub proof fn lemma_independent_key_ignores_modifiers(
    independent_codes: Seq<(String, u16)>,
    entries: Seq<KeyMapEntry>,
    key: Seq<char>,
    m1: u32,
    m2: u32,
)
    requires
        independent_lookup(independent_codes, key) is Some,
    ensures
        get_code_spec(independent_codes, entries, key, m1) == independent_lookup(
            independent_codes,
            key,
        ),
        get_code_spec(independent_codes, entries, key, m1) == get_code_spec(
            independent_codes,
            entries,
            key,
            m2,
        ),
{
}

/// The reverse key map: every (keycode, modifiers, key string) the layout
/// produced over the probed keycodes and modifier masks, plus the
/// layout-independent table.
pub struct KeyMap {
    /// The recorded layout-dependent mappings.
    pub entries: Vec<KeyMapEntry>,
    /// The layout-independent keys with their fixed keycodes.
    pub independent_codes: Vec<(String, u16)>,
}

/// The modifier masks the key map is built against: none, Shift, Option,
/// Cmd, Shift+Option, Shift+Cmd, Option+Cmd.
pub open spec fn is_probe_modifier(m: u32) -> bool {
    m == 0 || m == 0x200 || m == 0x800 || m == 0x100 || m == 0xA00 || m == 0x300 || m == 0x900
}

/// Every recorded entry is one of the layout's translations of a probed
/// keycode and mask, carrying the translated string.
pub open spec fn entries_sound<T: KeyboardLayoutTrait>(
    entries: Seq<KeyMapEntry>,
    layout: &T,
) -> bool {
    forall|j: int|
        0 <= j < entries.len() ==> {
            let e = #[trigger] entries[j];
            &&& e.keycode < KEYCODE_PROBE_LIMIT
            &&& is_probe_modifier(e.modifiers)
            &&& (layout.spec_translate(e.keycode, e.modifiers) matches Some(t) && e.key@ == t)
        }
}

/// Every probed keycode the layout translates under the mask has an
/// entry with that keycode and mask.
pub open spec fn entries_complete_for<T: KeyboardLayoutTrait>(
    entries: Seq<KeyMapEntry>,
    layout: &T,
    modifier: u32,
) -> bool {
    forall|code: u16|
        code < KEYCODE_PROBE_LIMIT && (#[trigger] layout.spec_translate(code, modifier)) is Some
            ==> exists|j: int|
            0 <= j < entries.len() && (#[trigger] entries[j]).keycode == code
                && entries[j].modifiers == modifier
}

/// Records, for one modifier mask, every translation the layout has over
/// the probed keycodes, appending the entries in keycode order.
fn probe_modifier<T: KeyboardLayoutTrait>(layout: &T, modifier: u32, entries: &mut Vec<KeyMapEntry>)
    requires
        is_probe_modifier(modifier),
    ensures
        final(entries)@.len() >= old(entries)@.len(),
        final(entries)@.subrange(0, old(entries)@.len() as int) == old(entries)@,
        forall|j: int|
            old(entries)@.len() <= j < final(entries)@.len() ==> {
                let e = #[trigger] final(entries)@[j];
                &&& e.keycode < KEYCODE_PROBE_LIMIT
                &&& e.modifiers == modifier
                &&& (layout.spec_translate(e.keycode, modifier) matches Some(t) && e.key@ == t)
            },
        entries_complete_for(final(entries)@, layout, modifier),
        forall|m: u32|
            entries_complete_for(old(entries)@, layout, m) ==> #[trigger] entries_complete_for(
                final(entries)@,
                layout,
                m,
            ),
        entries_sound(old(entries)@, layout) ==> entries_sound(final(entries)@, layout),
{
    let ghost orig = entries@;
    let mut code: u16 = 0;
    while code < KEYCODE_PROBE_LIMIT
        invariant
            is_probe_modifier(modifier),
            code <= KEYCODE_PROBE_LIMIT,
            orig.len() <= entries@.len(),
            entries@.subrange(0, orig.len() as int) == orig,
            forall|j: int|
                orig.len() <= j < entries@.len() ==> {
                    let e = #[trigger] entries@[j];
                    &&& e.keycode < KEYCODE_PROBE_LIMIT
                    &&& e.modifiers == modifier
                    &&& (layout.spec_translate(e.keycode, modifier) matches Some(t) && e.key@ == t)
                },
            forall|c: u16|
                c < code && (#[trigger] layout.spec_translate(c, modifier)) is Some ==> exists|
                    j: int,
                |
                    orig.len() <= j < entries@.len() && (#[trigger] entries@[j]).keycode == c
                        && entries@[j].modifiers == modifier,
        decreases KEYCODE_PROBE_LIMIT - code,
    {
        let result = layout.key_translate(code, modifier);
        if let Some(s) = result {
            let ghost before = entries@;
            entries.push(KeyMapEntry { keycode: code, key: s, modifiers: modifier });
            proof {
                let after = entries@;
                assert(after.subrange(0, orig.len() as int) =~= before.subrange(
                    0,
                    orig.len() as int,
                ));
                assert(after[after.len() - 1].keycode == code && after[after.len()
                    - 1].modifiers == modifier);
                assert forall|c: u16|
                    c < code + 1 && (#[trigger] layout.spec_translate(c, modifier))
                        is Some implies exists|j: int|
                    orig.len() <= j < after.len() && (#[trigger] after[j]).keycode == c
                        && after[j].modifiers == modifier by {
                    if c < code {
                        let j = choose|j: int|
                            orig.len() <= j < before.len() && (#[trigger] before[j]).keycode == c
                                && before[j].modifiers == modifier;
                        assert(after[j] == before[j]);
                    } else {
                        assert(after[after.len() - 1].keycode == c);
                    }
                }
            }
        }
        code = code + 1;
    }
    proof {
        let done = entries@;
        assert forall|m: u32|
            entries_complete_for(orig, layout, m) implies #[trigger] entries_complete_for(
            done,
            layout,
            m,
        ) by {
            assert forall|c: u16|
                c < KEYCODE_PROBE_LIMIT && (#[trigger] layout.spec_translate(c, m))
                    is Some implies exists|j: int|
                0 <= j < done.len() && (#[trigger] done[j]).keycode == c && done[j].modifiers
                    == m by {
                let j = choose|j: int|
                    0 <= j < orig.len() && (#[trigger] orig[j]).keycode == c && orig[j].modifiers
                        == m;
                assert(done.subrange(0, orig.len() as int)[j] == done[j]);
                assert(done[j] == orig[j]);
            }
        }
        if entries_sound(orig, layout) {
            assert forall|j: int| 0 <= j < done.len() implies {
                let e = #[trigger] done[j];
                &&& e.keycode < KEYCODE_PROBE_LIMIT
                &&& is_probe_modifier(e.modifiers)
                &&& (layout.spec_translate(e.keycode, e.modifiers) matches Some(t) && e.key@ == t)
            } by {
                if j < orig.len() {
                    assert(done.subrange(0, orig.len() as int)[j] == done[j]);
                    assert(done[j] == orig[j]);
                }
            }
        }
    }
}

impl KeyMap {
    /// Every recorded entry came from a probed keycode and modifier mask.
    pub open spec fn wf(&self) -> bool {
        forall|j: int|
            0 <= j < self.entries@.len() ==> (#[trigger] self.entries@[j]).keycode
                < KEYCODE_PROBE_LIMIT && is_probe_modifier(self.entries@[j].modifiers)
    }

    /// The map is the layout's: the entries record exactly the layout's
    /// translations over the probed keycodes and masks (nothing else, and
    /// none missing), and the independent table is the layout's table.
    pub open spec fn matches_layout<T: KeyboardLayoutTrait>(&self, layout: &T) -> bool {
        &&& entries_sound(self.entries@, layout)
        &&& forall|m: u32|
            #[trigger] is_probe_modifier(m) ==> entries_complete_for(self.entries@, layout, m)
        &&& self.independent_codes@.len() == layout.spec_independent_codes().len()
        &&& forall|i: int|
            0 <= i < self.independent_codes@.len() ==> (#[trigger] self.independent_codes@[i]).0@
                == layout.spec_independent_codes()[i].0 && self.independent_codes@[i].1
                == layout.spec_independent_codes()[i].1
    }

    /// Builds the map by asking the layout what every keycode 0..128
    /// produces under each of the seven probed modifier masks, and caching
    /// the layout-independent table: the result records the layout
    /// completely, with no extra entries.
    pub fn new<T: KeyboardLayoutTrait>(layout: &T) -> (r: KeyMap)
        ensures
            r.wf(),
            r.matches_layout(layout),
    {
        let modifiers: Vec<u32> = vec![0, 0x200u32, 0x800u32, 0x100u32, 0xA00u32, 0x300u32, 0x900u32];
        let mut entries: Vec<KeyMapEntry> = Vec::new();
        proof {
            assert(entries_sound(entries@, layout));
        }
        let mut mi: usize = 0;
        while mi < modifiers.len()
            invariant
                modifiers@ =~= seq![
                    0u32,
                    0x200u32,
                    0x800u32,
                    0x100u32,
                    0xA00u32,
                    0x300u32,
                    0x900u32,
                ],
                0 <= mi <= modifiers@.len(),
                entries_sound(entries@, layout),
                forall|k: int|
                    0 <= k < mi ==> entries_complete_for(
                        entries@,
                        layout,
                        #[trigger] modifiers@[k],
                    ),
            decreases modifiers@.len() - mi,
        {
            let modifier: u32 = modifiers[mi];
            proof {
                assert(is_probe_modifier(modifier));
            }
            probe_modifier(layout, modifier, &mut entries);
            mi = mi + 1;
        }
        proof {
            assert forall|m: u32| #[trigger]
                is_probe_modifier(m) implies entries_complete_for(entries@, layout, m) by {
                if m == 0 {
                    assert(entries_complete_for(entries@, layout, modifiers@[0]));
                } else if m == 0x200 {
                    assert(entries_complete_for(entries@, layout, modifiers@[1]));
                } else if m == 0x800 {
                    assert(entries_complete_for(entries@, layout, modifiers@[2]));
                } else if m == 0x100 {
                    assert(entries_complete_for(entries@, layout, modifiers@[3]));
                } else if m == 0xA00 {
                    assert(entries_complete_for(entries@, layout, modifiers@[4]));
                } else if m == 0x300 {
                    assert(entries_complete_for(entries@, layout, modifiers@[5]));
                } else {
                    assert(entries_complete_for(entries@, layout, modifiers@[6]));
                }
            }
        }
        let independent_codes = layout.get_independent_codes();
        KeyMap { entries, independent_codes }
    }

    /// Finds the keycode for a key string and modifier mask: the
    /// layout-independent table first, then the recorded entries with
    /// Control cleared from the mask.
    pub fn get_code(&self, key: &str, modifier: u32) -> (r: Option<u16>)
        ensures
            r == get_code_spec(self.independent_codes@, self.entries@, key@, modifier),
    {
        let key_string: String = key.to_owned();
        let ghost codes = self.independent_codes@;
        proof {
            assert(codes.skip(0) =~= codes);
        }
        let mut i: usize = 0;
        while i < self.independent_codes.len()
            invariant
                0 <= i <= codes.len(),
                self.independent_codes@ == codes,
                key_string@ == key@,
                independent_lookup(codes, key_string@) == independent_lookup(
                    codes.skip(i as int),
                    key_string@,
                ),
            decreases codes.len() - i,
        {
            proof {
                assert(codes.skip(i as int).drop_first() =~= codes.skip(i as int + 1));
                assert(codes.skip(i as int).first() == codes[i as int]);
            }
            if self.independent_codes[i].0 == key_string {
                return Some(self.independent_codes[i].1);
            }
            i = i + 1;
        }
        proof {
            assert(codes.skip(codes.len() as int) =~= Seq::<(String, u16)>::empty());
        }
        let search_modifier: u32 = if modifier & 0x1000 != 0 {
            modifier & !0x1000u32
        } else {
            modifier
        };
        let ghost entries = self.entries@;
        proof {
            assert(entries.skip(0) =~= entries);
        }
        let mut j: usize = 0;
        while j < self.entries.len()
            invariant
                0 <= j <= entries.len(),
                self.entries@ == entries,
                key_string@ == key@,
                self.independent_codes@ == codes,
                independent_lookup(codes, key@) is None,
                search_modifier == effective_modifier(modifier),
                entry_lookup(entries, key_string@, search_modifier) == entry_lookup(
                    entries.skip(j as int),
                    key_string@,
                    search_modifier,
                ),
            decreases entries.len() - j,
        {
            proof {
                assert(entries.skip(j as int).drop_first() =~= entries.skip(j as int + 1));
                assert(entries.skip(j as int).first() == entries[j as int]);
            }
            let e = &self.entries[j];
            if e.key == key_string && e.modifiers == search_modifier {
                return Some(e.keycode);
            }
            j = j + 1;
        }
        proof {
            assert(entries.skip(entries.len() as int) =~= Seq::<KeyMapEntry>::empty());
        }
        None
    }
}

/// A remote keystroke, as the data channel delivers it.
#[derive(Debug, Clone)]
pub struct KeystrokeData {
    /// The key string the remote user typed ("a", "ß", "Enter", ...).
    pub key: String,
    /// Whether Meta/Cmd was held.
    pub meta: bool,
    /// Whether Shift was held.
    pub shift: bool,
    /// Whether Control was held.
    pub ctrl: bool,
    /// Whether Alt/Option was held.
    pub alt: bool,
    /// True for key press, false for key release.
    pub down: bool,
}

/// Compares two strings by their characters.
pub fn str_eq(a: &str, b: &str) -> (r: bool)
    ensures
        r == (a@ == b@),
{
    let sa: String = a.to_owned();
    let sb: String = b.to_owned();
    sa == sb
}

/// The modifier mask a keystroke's booleans compose, in the order the
/// controller applies them: Shift, Cmd, Option, Ctrl.
pub open spec fn compose_modifiers(shift: bool, meta: bool, alt: bool, ctrl: bool) -> u32 {
    let m0: u32 = 0;
    let m1: u32 = if shift {
        m0 | 0x200
    } else {
        m0
    };
    let m2: u32 = if meta {
        m1 | 0x100
    } else {
        m1
    };
    let m3: u32 = if alt {
        m2 | 0x800
    } else {
        m2
    };
    if ctrl {
        m3 | 0x1000
    } else {
        m3
    }
}

/// Whether the keystroke's Unicode payload is overridden with the literal
/// key string: printable keys (none of the layout-independent names),
/// pressed down, without Meta or Control. The override preserves the exact
/// character across mismatched layouts.
pub open spec fn should_override_utf_spec(d: KeystrokeData) -> bool {
    d.key@ != "Enter"@ && d.key@ != "Tab"@ && d.key@ != "Backspace"@ && d.key@ != "Escape"@
        && d.key@ != "Delete"@ && d.key@ != "ArrowLeft"@ && d.key@ != "ArrowRight"@ && d.key@
        != "ArrowUp"@ && d.key@ != "ArrowDown"@ && d.key@ != "PageUp"@ && d.key@ != "PageDown"@
        && d.key@ != "Control"@ && d.key@ != "Shift"@ && d.key@ != "Meta"@ && d.key@ != "Alt"@
        && d.key@ != "CapsLock"@ && d.key@.len() > 0 && !d.meta && !d.ctrl && d.down
}

/// Decides whether the keystroke's Unicode payload is overridden.
pub fn should_override_utf(d: &KeystrokeData) -> (r: bool)
    ensures
        r == should_override_utf_spec(*d),
{
    !str_eq(d.key.as_str(), "Enter") && !str_eq(d.key.as_str(), "Tab") && !str_eq(
        d.key.as_str(),
        "Backspace",
    ) && !str_eq(d.key.as_str(), "Escape") && !str_eq(d.key.as_str(), "Delete") && !str_eq(
        d.key.as_str(),
        "ArrowLeft",
    ) && !str_eq(d.key.as_str(), "ArrowRight") && !str_eq(d.key.as_str(), "ArrowUp") && !str_eq(
        d.key.as_str(),
        "ArrowDown",
    ) && !str_eq(d.key.as_str(), "PageUp") && !str_eq(d.key.as_str(), "PageDown") && !str_eq(
        d.key.as_str(),
        "Control",
    ) && !str_eq(d.key.as_str(), "Shift") && !str_eq(d.key.as_str(), "Meta") && !str_eq(
        d.key.as_str(),
        "Alt",
    ) && !str_eq(d.key.as_str(), "CapsLock") && !d.key.as_str().is_empty() && !d.meta && !d.ctrl
        && d.down
}

/// The fully resolved key event handed to the platform synthesizer: the
/// keycode and mask to press, and the Unicode payload to force onto the
/// event where the override applies.
#[derive(Debug, Clone)]
pub struct KeyEventPlan {
    /// The keycode to synthesize; 0 where no mapping was found.
    pub keycode: u16,
    /// The modifier mask active on the event.
    pub modifiers: u32,
    /// True for key press, false for key release.
    pub down: bool,
    /// The literal key string to write into the event's Unicode payload,
    /// where the override applies.
    pub utf_override: Option<String>,
}

/// High-level keyboard controller: detects layout changes, rebuilds the key
/// map, and resolves remote keystrokes into key event plans.
pub struct KeyboardController<T: KeyboardLayoutTrait> {
    /// The reverse key map for the current layout.
    pub map: KeyMap,
    /// The platform layout handler.
    pub layout: T,
    /// Whether keyboard simulation is enabled.
    pub enabled: bool,
}

impl<T: KeyboardLayoutTrait> KeyboardController<T> {
    /// Builds a controller over the given layout, with the key map filled
    /// from it and simulation enabled.
    pub fn new(layout: T) -> (r: KeyboardController<T>)
        ensures
            r.enabled,
            r.map.wf(),
            r.map.matches_layout(&r.layout),
    {
        let map = KeyMap::new(&layout);
        KeyboardController { map, layout, enabled: true }
    }

    /// Enables or disables keyboard simulation.
    pub fn set_enabled(&mut self, enabled: bool)
        ensures
            final(self).enabled == enabled,
            final(self).map == old(self).map,
    {
        self.enabled = enabled;
    }

    /// Resolves a remote keystroke into the key event to synthesize: a
    /// no-op while disabled; otherwise the key map (rebuilt first if the
    /// layout changed) resolves the keycode, a missing mapping falls back
    /// to keycode 0, and printable down-strokes carry the literal key
    /// string as their Unicode payload.
    pub fn simulate_keystrokes(&mut self, keystroke_data: KeystrokeData) -> (r: Option<
        KeyEventPlan,
    >)
        requires
            old(self).map.wf(),
        ensures
            final(self).enabled == old(self).enabled,
            final(self).map.wf(),
            !old(self).enabled ==> r is None && final(self).map == old(self).map,
            old(self).enabled ==> match r {
                Some(plan) => {
                    &&& plan.modifiers == compose_modifiers(
                        keystroke_data.shift,
                        keystroke_data.meta,
                        keystroke_data.alt,
                        keystroke_data.ctrl,
                    )
                    &&& plan.down == keystroke_data.down
                    &&& plan.keycode == match get_code_spec(
                        final(self).map.independent_codes@,
                        final(self).map.entries@,
                        keystroke_data.key@,
                        plan.modifiers,
                    ) {
                        Some(code) => code,
                        None => 0u16,
                    }
                    &&& match plan.utf_override {
                        Some(s) => should_override_utf_spec(keystroke_data) && s@
                            == keystroke_data.key@,
                        None => !should_override_utf_spec(keystroke_data),
                    }
                },
                None => false,
            },
    {
        if !self.enabled {
            return None;
        }
        let mut modifier: u32 = 0;
        if keystroke_data.shift {
            modifier = extend_modifier(modifier, KeyModifier::Shift);
        }
        if keystroke_data.meta {
            modifier = extend_modifier(modifier, KeyModifier::Cmd);
        }
        if keystroke_data.alt {
            modifier = extend_modifier(modifier, KeyModifier::Alt);
        }
        if keystroke_data.ctrl {
            modifier = extend_modifier(modifier, KeyModifier::Ctrl);
        }
        let layout_changed = self.layout.has_changed();
        if layout_changed {
            self.map = KeyMap::new(&self.layout);
        }
        let keycode: u16 = match self.map.get_code(self.key_str(&keystroke_data), modifier) {
            Some(keycode) => keycode,
            None => 0,
        };
        let utf_override: Option<String> = if should_override_utf(&keystroke_data) {
            Some(keystroke_data.key.clone())
        } else {
            None
        };
        Some(
            KeyEventPlan { keycode, modifiers: modifier, down: keystroke_data.down, utf_override },
        )
    }

    /// The keystroke's key string as a borrowed slice.
    fn key_str<'a>(&self, d: &'a KeystrokeData) -> (r: &'a str)
        ensures
            r@ == d.key@,
    {
        d.key.as_str()
    }
}

} // verus!
