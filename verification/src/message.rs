//! A complete lighting configuration: a preset for every mode, the colors of
//! the single keys, and the preset that is in effect.

use std::collections::HashMap;
use vstd::prelude::*;
use crate::color::RGB;
use crate::key::Key;
use crate::mode::{Direction, Mode};
use crate::preset::{mode_preset, ModePreset, PresetView, LEVEL_MAX, LEVEL_MIN};

verus! {

/// What a configuration holds, as contracts speak of it.
pub struct LightingUpdateView {
    /// The preset of every mode but `NoBacklight`.
    pub presets: Map<Mode, PresetView>,
    /// The colors given to single keys; a key without an entry is dark.
    pub key_colors: Map<Key, RGB>,
    /// The preset in effect.
    pub active: PresetView,
}

impl LightingUpdateView {
    /// There is exactly one preset for every mode but `NoBacklight`, filed
    /// under its own mode, and all presets are valid.
    pub open spec fn wf(self) -> bool {
        &&& forall|m: Mode| self.presets.contains_key(m) <==> #[trigger] m.has_preset()
        &&& forall|m: Mode| #[trigger]
            m.has_preset() ==> self.presets[m].mode == m && self.presets[m].valid()
        &&& self.active.valid()
    }

    /// The color a key is lit in: its entry, or black without one.
    pub open spec fn key_color(self, key: Key) -> RGB {
        if self.key_colors.contains_key(key) {
            self.key_colors[key]
        } else {
            RGB::black()
        }
    }
}

/// The presets of a configuration in which no mode was configured.
pub open spec fn default_presets() -> Map<Mode, PresetView> {
    Map::new(|m: Mode| m.has_preset(), |m: Mode| PresetView::default_for(m))
}

/// The presets of a table that files them under mode codes.
pub open spec fn presets_by_mode(table: Map<u8, ModePreset>) -> Map<Mode, PresetView> {
    Map::new(|m: Mode| m.has_preset(), |m: Mode| table[m.spec_code()]@)
}

/// The colors of a table that files them under key codes. An entry under a
/// code that no key has is left out.
pub open spec fn colors_by_key(table: Map<u16, RGB>) -> Map<Key, RGB> {
    Map::new(|k: Key| table.contains_key(k.spec_code()), |k: Key| table[k.spec_code()])
}

/// Whether a code is that of a mode with a preset.
pub open spec fn is_preset_code(code: u8) -> bool {
    1 <= code <= 0x13 || code == 0x80
}

/// A table with the default preset of every mode but `NoBacklight`, each
/// filed under the code of its mode.
pub fn mode_presets_default_hashmap() -> (table: HashMap<u8, ModePreset>)
    ensures
        forall|c: u8| table@.contains_key(c) <==> is_preset_code(c),
        presets_by_mode(table@) == default_presets(),
{
    let mut table: HashMap<u8, ModePreset> = HashMap::new();
    let mut code: u8 = 0x01;
    while code <= 0x13
        invariant
            1 <= code <= 0x14,
            forall|c: u8| table@.contains_key(c) <==> 1 <= c < code,
            forall|c: u8|
                1 <= c < code ==> Mode::spec_from_code(c as int) == Some(
                    (#[trigger] table@[c])@.mode,
                ) && table@[c]@ == PresetView::default_for(table@[c]@.mode),
        decreases 0x14 - code,
    {
        match Mode::from_code(code) {
            Some(mode) => {
                table.insert(code, ModePreset::default_for(mode));
            },
            None => {},
        }
        code += 1;
    }
    table.insert(0x80, ModePreset::default_for(Mode::UserDefined));
    proof {
        assert forall|m: Mode| #[trigger] m.has_preset() implies table@[m.spec_code()]@
            == PresetView::default_for(m) by {
            Mode::lemma_from_code_inverts(m);
        }
        assert(presets_by_mode(table@) =~= default_presets());
    }
    table
}

/// A complete lighting configuration. It is built once by one of the three
/// constructors and not changed afterwards.
pub struct LightingUpdateMessage {
    /// The preset of every mode but `NoBacklight`, filed under the mode's code.
    mode_presets: HashMap<u8, ModePreset>,
    /// The colors of single keys in `UserDefined` mode, filed under the key's
    /// code. A key without an entry is dark.
    key_colors: HashMap<u16, RGB>,
    /// The preset in effect; its mode may be `NoBacklight`.
    active_mode: ModePreset,
}

impl View for LightingUpdateMessage {
    type V = LightingUpdateView;

    closed spec fn view(&self) -> LightingUpdateView {
        LightingUpdateView {
            presets: presets_by_mode(self.mode_presets@),
            key_colors: colors_by_key(self.key_colors@),
            active: self.active_mode@,
        }
    }
}

impl LightingUpdateMessage {
    #[verifier::type_invariant]
    spec fn presets_complete(&self) -> bool {
        &&& forall|c: u8| self.mode_presets@.contains_key(c) <==> is_preset_code(c)
        &&& self@.wf()
    }

    /// A configuration that puts `active_mode` into effect. Its mode keeps
    /// these settings as its preset; every other mode has its default preset.
    /// No key has a color of its own.
    pub fn set_active_mode(active_mode: ModePreset) -> (msg: LightingUpdateMessage)
        ensures
            msg@.wf(),
            msg@.active == active_mode@,
            msg@.key_colors == Map::<Key, RGB>::empty(),
            msg@.presets == if active_mode@.mode.has_preset() {
                default_presets().insert(active_mode@.mode, active_mode@)
            } else {
                default_presets()
            },
    {
        let mut mode_presets = mode_presets_default_hashmap();
        let code = active_mode.mode().code();
        let ghost defaults = mode_presets@;
        let ghost mode = active_mode@.mode;
        let has_slot = mode_presets.contains_key(&code);
        assert(has_slot == mode.has_preset()) by {
            assert(has_slot == is_preset_code(mode.spec_code()));
        }
        if has_slot {
            mode_presets.insert(code, active_mode);
        }
        let key_colors: HashMap<u16, RGB> = HashMap::new();
        proof {
            use_type_invariant(&active_mode);
            assert forall|m: Mode| #[trigger] m.has_preset() implies presets_by_mode(
                mode_presets@,
            )[m] == (if m == mode {
                active_mode@
            } else {
                PresetView::default_for(m)
            }) by {
                Mode::lemma_code_injective(m, mode);
                assert(presets_by_mode(defaults)[m] == default_presets()[m]);
            }
            if mode.has_preset() {
                assert(presets_by_mode(mode_presets@) =~= default_presets().insert(
                    mode,
                    active_mode@,
                ));
            } else {
                assert(presets_by_mode(mode_presets@) =~= default_presets());
            }
            assert(colors_by_key(key_colors@) =~= Map::<Key, RGB>::empty());
        }
        LightingUpdateMessage { mode_presets, key_colors, active_mode }
    }

    /// A configuration that switches the backlight off. Every mode has its
    /// default preset and no key has a color of its own.
    pub fn set_backlight_off() -> (msg: LightingUpdateMessage)
        ensures
            msg@.wf(),
            msg@.active == (PresetView {
                mode: Mode::NoBacklight,
                color: RGB::black(),
                full_color: false,
                brightness: 1,
                speed: 1,
                direction: Direction::Right,
            }),
            msg@.key_colors == Map::<Key, RGB>::empty(),
            msg@.presets == default_presets(),
    {
        let mode_presets = mode_presets_default_hashmap();
        let key_colors: HashMap<u16, RGB> = HashMap::new();
        let active_mode = mode_preset(
            Mode::NoBacklight,
            RGB { red: 0, green: 0, blue: 0 },
            false,
            1,
            1,
            Direction::Right,
        );
        proof {
            assert(colors_by_key(key_colors@) =~= Map::<Key, RGB>::empty());
        }
        LightingUpdateMessage { mode_presets, key_colors, active_mode }
    }

    /// A configuration that lights every key in a color of its own, at the
    /// given brightness. `colors` files the colors under key codes; a key
    /// without an entry stays dark. Every mode has its default preset.
    pub fn set_user_defined(brightness: u8, colors: HashMap<u16, RGB>) -> (msg:
        LightingUpdateMessage)
        requires
            LEVEL_MIN <= brightness <= LEVEL_MAX,
        ensures
            msg@.wf(),
            msg@.active == (PresetView {
                mode: Mode::UserDefined,
                color: RGB::white(),
                full_color: false,
                brightness,
                speed: 1,
                direction: Direction::Right,
            }),
            msg@.key_colors == colors_by_key(colors@),
            msg@.presets == default_presets(),
    {
        let mode_presets = mode_presets_default_hashmap();
        let active_mode = mode_preset(
            Mode::UserDefined,
            RGB { red: 0xff, green: 0xff, blue: 0xff },
            false,
            brightness,
            1,
            Direction::Right,
        );
        LightingUpdateMessage { mode_presets, key_colors: colors, active_mode }
    }

    /// The preset in effect.
    pub fn active_mode(&self) -> (preset: ModePreset)
        ensures
            preset@ == self@.active,
            self@.wf(),
    {
        proof {
            use_type_invariant(self);
        }
        self.active_mode
    }

    /// The preset kept for `mode`; `NoBacklight` has none.
    pub fn preset_for(&self, mode: Mode) -> (preset: Option<ModePreset>)
        ensures
            match preset {
                Some(p) => mode.has_preset() && p@ == self@.presets[mode],
                None => !mode.has_preset(),
            },
            self@.wf(),
    {
        proof {
            use_type_invariant(self);
        }
        match self.mode_presets.get(&mode.code()) {
            Some(preset) => {
                assert(is_preset_code(mode.spec_code()));
                Some(*preset)
            },
            None => {
                assert(!is_preset_code(mode.spec_code()));
                None
            },
        }
    }

    /// The color `key` is lit in in `UserDefined` mode.
    pub fn key_color(&self, key: Key) -> (color: RGB)
        ensures
            color == self@.key_color(key),
            self@.wf(),
    {
        proof {
            use_type_invariant(self);
        }
        match self.key_colors.get(&key.code()) {
            Some(color) => *color,
            None => RGB { red: 0, green: 0, blue: 0 },
        }
    }
}

} // verus!
