//! Input mapping
//!
//! Actions are looked up by keyboard key, by mouse button or by name. The
//! lookup maps are kept in vectors, in the order of the actions.
//!
//! The state of a key that went up stays readable as released until the
//! next frame begins.

use vstd::prelude::*;
use smol_str::SmolStr;
use crate::smol::{smol_as_str, smol_clone, smol_new, smol_text};
use crate::text::same_text;

pub use crate::game::event::{ElementState, MouseButton};

verus! {

/// The code of a key of the keyboard.
#[derive(Debug, Clone, Copy, PartialEq, Eq, Hash, Structural)]
pub struct VirtualKeyCode(pub u32);

pub struct ActionInfo {
    pub name: SmolStr,
    pub keyboard_keys: Vec<VirtualKeyCode>,
    pub mouse_buttons: Vec<MouseButton>,
}

/// Schema of action as it appears in a configuration file.
///
/// Mappings are optional for the sake of config ergonomics,
/// but will be mapped to infallible fields when loaded into
/// the input mapper.
pub struct ActionDef {
    pub name: String,
    pub keyboard_keys: Option<Vec<VirtualKeyCode>>,
    pub mouse_buttons: Option<Vec<MouseButton>>,
}

/// Action event instance.
pub struct InputEvent {}

impl ActionInfo {
    /// The action of a definition; a mapping that the definition leaves out
    /// is empty.
    pub fn from(def: ActionDef) -> (info: Self)
        ensures
            smol_text(info.name) == def.name@,
            info.keyboard_keys@ == match def.keyboard_keys {
                Some(keys) => keys@,
                None => Seq::<VirtualKeyCode>::empty(),
            },
            info.mouse_buttons@ == match def.mouse_buttons {
                Some(buttons) => buttons@,
                None => Seq::<MouseButton>::empty(),
            },
    {
        Self {
            name: smol_new(def.name.as_str()),
            keyboard_keys: match def.keyboard_keys {
                Some(keys) => keys,
                None => Vec::new(),
            },
            mouse_buttons: match def.mouse_buttons {
                Some(buttons) => buttons,
                None => Vec::new(),
            },
        }
    }
}

struct KeyState {
    action: SmolStr,
    virtual_keycode: VirtualKeyCode,
    element_state: ElementState,
}

/// The pairs of key and action position for the first `upto` actions: for
/// each action in order, one pair for each of its keys in order.
pub open spec fn key_pairs(actions: Seq<ActionInfo>, upto: nat) -> Seq<(VirtualKeyCode, usize)>
    decreases upto,
{
    if upto == 0 {
        Seq::<(VirtualKeyCode, usize)>::empty()
    } else {
        key_pairs(actions, (upto - 1) as nat) + Seq::new(
            actions[upto - 1].keyboard_keys@.len(),
            |j: int| (actions[upto - 1].keyboard_keys@[j], (upto - 1) as usize),
        )
    }
}

/// The pairs of mouse button and action position for the first `upto`
/// actions.
pub open spec fn button_pairs(actions: Seq<ActionInfo>, upto: nat) -> Seq<(MouseButton, usize)>
    decreases upto,
{
    if upto == 0 {
        Seq::<(MouseButton, usize)>::empty()
    } else {
        button_pairs(actions, (upto - 1) as nat) + Seq::new(
            actions[upto - 1].mouse_buttons@.len(),
            |j: int| (actions[upto - 1].mouse_buttons@[j], (upto - 1) as usize),
        )
    }
}

/// The position of the first action at or after `from` whose name is
/// `name`.
pub open spec fn find_name(actions: Seq<ActionInfo>, name: Seq<char>, from: int) -> Option<int>
    decreases actions.len() - from,
{
    if from < 0 || from >= actions.len() {
        None
    } else if smol_text(actions[from].name) == name {
        Some(from)
    } else {
        find_name(actions, name, from + 1)
    }
}

/// The action position of the first pair at or after `from` whose key is
/// `keycode`.
pub open spec fn find_key(pairs: Seq<(VirtualKeyCode, usize)>, keycode: VirtualKeyCode, from: int) -> Option<
    usize,
>
    decreases pairs.len() - from,
{
    if from < 0 || from >= pairs.len() {
        None
    } else if pairs[from].0 == keycode {
        Some(pairs[from].1)
    } else {
        find_key(pairs, keycode, from + 1)
    }
}

/// The state of one key: the name of its action, the key, and whether it
/// is down.
pub type KeyRecord = (Seq<char>, VirtualKeyCode, ElementState);

/// The position of the first record at or after `from` for the key.
pub open spec fn find_record(records: Seq<KeyRecord>, keycode: VirtualKeyCode, from: int) -> Option<
    int,
>
    decreases records.len() - from,
{
    if from < 0 || from >= records.len() {
        None
    } else if records[from].1 == keycode {
        Some(from)
    } else {
        find_record(records, keycode, from + 1)
    }
}

/// The state of the first record at or after `from` for the action.
pub open spec fn find_action_state(records: Seq<KeyRecord>, name: Seq<char>, from: int) -> Option<
    ElementState,
>
    decreases records.len() - from,
{
    if from < 0 || from >= records.len() {
        None
    } else if records[from].0 == name {
        Some(records[from].2)
    } else {
        find_action_state(records, name, from + 1)
    }
}

/// The records of keys that are down, in order.
pub open spec fn pressed_records(records: Seq<KeyRecord>) -> Seq<KeyRecord> {
    records.filter(|record: KeyRecord| record.2 is Pressed)
}

/// # Implementation
///
/// Actions potentially need to be looked up using multiple input.
/// By keyboard key, mouse button, gamepad button, or name.
///
/// Lookup maps are stored in vectors to speed up iteration.
pub struct InputMap {
    actions2: Vec<ActionInfo>,
    state: Vec<KeyState>,
    /// Mapping of virtual key codes to actions, by index.
    keymap: Vec<(VirtualKeyCode, usize)>,
    /// Mapping of mouse buttons to actions, by index.
    mousemap: Vec<(MouseButton, usize)>,
    namemap: Vec<(SmolStr, usize)>,
}

impl InputMap {
    /// The actions, in the order in which they were loaded.
    pub closed spec fn actions(self) -> Seq<ActionInfo> {
        self.actions2@
    }

    /// The key states, in the order in which the keys were first used.
    pub closed spec fn key_states(self) -> Seq<KeyRecord> {
        Seq::new(
            self.state@.len(),
            |i: int|
                (
                    smol_text(self.state@[i].action),
                    self.state@[i].virtual_keycode,
                    self.state@[i].element_state,
                ),
        )
    }

    /// Whether the lookup maps are those of the actions.
    pub closed spec fn wf(self) -> bool {
        &&& self.keymap@ == key_pairs(self.actions2@, self.actions2@.len())
        &&& self.mousemap@ == button_pairs(self.actions2@, self.actions2@.len())
        &&& self.namemap@.len() == self.actions2@.len()
        &&& forall|i: int|
            0 <= i < self.namemap@.len() ==> {
                &&& smol_text((#[trigger] self.namemap@[i]).0) == smol_text(self.actions2@[i].name)
                &&& self.namemap@[i].1 == i
            }
    }

    /// The position of the action that the key is mapped to, if it is
    /// mapped: the first action, in order, that lists the key.
    pub open spec fn key_action(self, keycode: VirtualKeyCode) -> Option<usize> {
        find_key(key_pairs(self.actions(), self.actions().len()), keycode, 0)
    }

    pub fn new() -> (map: Self)
        ensures
            map.wf(),
            map.actions() == Seq::<ActionInfo>::empty(),
            map.key_states() == Seq::<KeyRecord>::empty(),
    {
        let map = Self {
            actions2: Vec::new(),
            state: Vec::new(),
            keymap: Vec::new(),
            mousemap: Vec::new(),
            namemap: Vec::new(),
        };
        assert(map.key_states() =~= Seq::<KeyRecord>::empty());
        map
    }

    /// Rebuild the input mappings to actions, for when the actions have been changed.
    fn rebuild_mappings(&mut self)
        ensures
            final(self).wf(),
            final(self).actions() == old(self).actions(),
            final(self).key_states() == old(self).key_states(),
    {
        // Start fresh
        self.keymap.clear();
        self.mousemap.clear();
        self.namemap.clear();
        let mut index: usize = 0;
        while index < self.actions2.len()
            invariant
                index <= self.actions2@.len(),
                self.actions2 == old(self).actions2,
                self.state == old(self).state,
                self.keymap@ == key_pairs(self.actions2@, index as nat),
                self.mousemap@ == button_pairs(self.actions2@, index as nat),
                self.namemap@.len() == index,
                forall|i: int|
                    0 <= i < index ==> {
                        &&& smol_text((#[trigger] self.namemap@[i]).0) == smol_text(
                            self.actions2@[i].name,
                        )
                        &&& self.namemap@[i].1 == i
                    },
            decreases self.actions2@.len() - index,
        {
            let ghost keys_before = self.keymap@;
            let ghost buttons_before = self.mousemap@;
            let ghost names_before = self.namemap@;
            let mut j: usize = 0;
            while j < self.actions2[index].keyboard_keys.len()
                invariant
                    index < self.actions2@.len(),
                    j <= self.actions2@[index as int].keyboard_keys@.len(),
                    self.actions2 == old(self).actions2,
                    self.state == old(self).state,
                    self.mousemap@ == buttons_before,
                    self.namemap@ == names_before,
                    self.keymap@ == keys_before + Seq::new(
                        j as nat,
                        |k: int| (self.actions2@[index as int].keyboard_keys@[k], index),
                    ),
                decreases self.actions2@[index as int].keyboard_keys@.len() - j,
            {
                let key = self.actions2[index].keyboard_keys[j];
                self.keymap.push((key, index));
                j += 1;
                assert(self.keymap@ =~= keys_before + Seq::new(
                    j as nat,
                    |k: int| (self.actions2@[index as int].keyboard_keys@[k], index),
                ));
            }
            let ghost keys_after = self.keymap@;
            let mut b: usize = 0;
            while b < self.actions2[index].mouse_buttons.len()
                invariant
                    index < self.actions2@.len(),
                    b <= self.actions2@[index as int].mouse_buttons@.len(),
                    self.actions2 == old(self).actions2,
                    self.state == old(self).state,
                    self.keymap@ == keys_after,
                    self.namemap@ == names_before,
                    self.mousemap@ == buttons_before + Seq::new(
                        b as nat,
                        |k: int| (self.actions2@[index as int].mouse_buttons@[k], index),
                    ),
                decreases self.actions2@[index as int].mouse_buttons@.len() - b,
            {
                let button = self.actions2[index].mouse_buttons[b];
                self.mousemap.push((button, index));
                b += 1;
                assert(self.mousemap@ =~= buttons_before + Seq::new(
                    b as nat,
                    |k: int| (self.actions2@[index as int].mouse_buttons@[k], index),
                ));
            }
            self.namemap.push((smol_clone(&self.actions2[index].name), index));
            assert(self.keymap@ =~= key_pairs(self.actions2@, (index + 1) as nat));
            assert(self.mousemap@ =~= button_pairs(self.actions2@, (index + 1) as nat));
            index += 1;
        }
    }

    /// Discard input state.
    ///
    /// Keep pressed state so action stays down.
    pub fn clear_releases(&mut self)
        ensures
            final(self).wf() == old(self).wf(),
            final(self).actions() == old(self).actions(),
            final(self).key_states() == pressed_records(old(self).key_states()),
    {
        let mut kept: Vec<KeyState> = Vec::new();
        let mut swap: Vec<KeyState> = Vec::new();
        core::mem::swap(&mut swap, &mut self.state);
        let ghost records = old(self).key_states();
        proof {
            reveal(Seq::filter);
        }
        assert(pressed_records(records.take(0)) =~= Seq::<KeyRecord>::empty());
        let mut i: usize = 0;
        while i < swap.len()
            invariant
                i <= swap@.len(),
                swap@ == old(self).state@,
                records == old(self).key_states(),
                kept@.len() == pressed_records(records.take(i as int)).len(),
                forall|k: int|
                    0 <= k < kept@.len() ==> (
                        smol_text((#[trigger] kept@[k]).action),
                        kept@[k].virtual_keycode,
                        kept@[k].element_state,
                    ) == pressed_records(records.take(i as int))[k],
            decreases swap@.len() - i,
        {
            proof {
                reveal(Seq::filter);
                assert(records.len() == swap@.len());
                let longer = records.take(i + 1);
                assert(longer.len() == i + 1);
                assert(longer.drop_last() =~= records.take(i as int));
                assert(longer.last() == records[i as int]);
                assert(records[i as int] == (
                    smol_text(swap@[i as int].action),
                    swap@[i as int].virtual_keycode,
                    swap@[i as int].element_state,
                ));
                assert(pressed_records(longer) == if longer.last().2 is Pressed {
                    pressed_records(longer.drop_last()).push(longer.last())
                } else {
                    pressed_records(longer.drop_last())
                });
            }
            match swap[i].element_state {
                ElementState::Pressed => {
                    kept.push(
                        KeyState {
                            action: smol_clone(&swap[i].action),
                            virtual_keycode: swap[i].virtual_keycode,
                            element_state: ElementState::Pressed,
                        },
                    );
                },
                ElementState::Released => {},
            }
            i += 1;
        }
        assert(records.take(swap@.len() as int) =~= records);
        self.state = kept;
        assert(self.key_states() =~= pressed_records(records));
    }

    /// Adds the actions of the definitions behind those already loaded
    /// and rebuilds the lookup maps.
    pub fn load_definitions(&mut self, definitions: Vec<ActionDef>)
        ensures
            final(self).wf(),
            final(self).key_states() == old(self).key_states(),
            final(self).actions().len() == old(self).actions().len() + definitions@.len(),
            forall|i: int|
                0 <= i < old(self).actions().len() ==> final(self).actions()[i] == old(
                    self,
                ).actions()[i],
            forall|i: int|
                0 <= i < definitions@.len() ==> {
                    let info = #[trigger] final(self).actions()[old(self).actions().len() + i];
                    let def = definitions@[i];
                    &&& smol_text(info.name) == def.name@
                    &&& info.keyboard_keys@ == match def.keyboard_keys {
                        Some(keys) => keys@,
                        None => Seq::<VirtualKeyCode>::empty(),
                    }
                    &&& info.mouse_buttons@ == match def.mouse_buttons {
                        Some(buttons) => buttons@,
                        None => Seq::<MouseButton>::empty(),
                    }
                },
    {
        let mut definitions = definitions;
        let ghost defs = definitions@;
        let ghost base = self.actions2@.len();
        let count = definitions.len();
        let mut taken: usize = 0;
        while taken < count
            invariant
                count == defs.len(),
                taken + definitions@.len() == defs.len(),
                definitions@ == defs.skip(taken as int),
                self.state == old(self).state,
                base == old(self).actions2@.len(),
                self.actions2@.len() == base + taken,
                forall|i: int| 0 <= i < base ==> self.actions2@[i] == old(self).actions2@[i],
                forall|i: int|
                    0 <= i < taken ==> {
                        let info = #[trigger] self.actions2@[base + i];
                        let def = defs[i];
                        &&& smol_text(info.name) == def.name@
                        &&& info.keyboard_keys@ == match def.keyboard_keys {
                            Some(keys) => keys@,
                            None => Seq::<VirtualKeyCode>::empty(),
                        }
                        &&& info.mouse_buttons@ == match def.mouse_buttons {
                            Some(buttons) => buttons@,
                            None => Seq::<MouseButton>::empty(),
                        }
                    },
            decreases count - taken,
        {
            let def = definitions.remove(0);
            assert(def == defs[taken as int]);
            self.actions2.push(ActionInfo::from(def));
            taken += 1;
            assert(definitions@ =~= defs.skip(taken as int));
        }
        self.rebuild_mappings();
    }

    /// Lookup an action by name: the first action, in order, of that name.
    pub fn action_by_name(&self, name: &str) -> (r: Option<&ActionInfo>)
        requires
            self.wf(),
        ensures
            match find_name(self.actions(), name@, 0) {
                Some(i) => r == Some(&self.actions()[i]),
                None => r is None,
            },
    {
        let mut i: usize = 0;
        while i < self.namemap.len()
            invariant
                self.wf(),
                i <= self.namemap@.len(),
                find_name(self.actions(), name@, 0) == find_name(self.actions(), name@, i as int),
            decreases self.namemap@.len() - i,
        {
            if same_text(smol_as_str(&self.namemap[i].0), name) {
                let index = self.namemap[i].1;
                return Some(&self.actions2[index]);
            }
            i += 1;
        }
        None
    }

    /// Lookup an action by keyboard key.
    pub fn action_by_key(&self, keycode: VirtualKeyCode) -> (r: Option<&ActionInfo>)
        requires
            self.wf(),
        ensures
            match self.key_action(keycode) {
                Some(i) => i < self.actions().len() && r == Some(&self.actions()[i as int]),
                None => r is None,
            },
    {
        let count = self.actions2.len();
        proof {
            lemma_key_pairs_layout(self.actions2@, count as nat);
        }
        let mut i: usize = 0;
        while i < self.keymap.len()
            invariant
                self.wf(),
                i <= self.keymap@.len(),
                forall|k: int|
                    0 <= k < self.keymap@.len() ==> (#[trigger] self.keymap@[k]).1
                        < self.actions2@.len(),
                self.key_action(keycode) == find_key(self.keymap@, keycode, i as int),
            decreases self.keymap@.len() - i,
        {
            if self.keymap[i].0 == keycode {
                let index = self.keymap[i].1;
                return Some(&self.actions2[index]);
            }
            i += 1;
        }
        None
    }

    pub fn set_key_pressed(&mut self, keycode: VirtualKeyCode)
        requires
            old(self).wf(),
        ensures
            final(self).wf(),
            final(self).actions() == old(self).actions(),
            final(self).key_states() == old(self).states_after(keycode, ElementState::Pressed),
    {
        self.set_key_state(keycode, ElementState::Pressed)
    }

    pub fn set_key_released(&mut self, keycode: VirtualKeyCode)
        requires
            old(self).wf(),
        ensures
            final(self).wf(),
            final(self).actions() == old(self).actions(),
            final(self).key_states() == old(self).states_after(keycode, ElementState::Released),
    {
        self.set_key_state(keycode, ElementState::Released)
    }

    /// The key states after a key went down or up: the record of a key
    /// that has one is updated; a key without record gets one, with the
    /// name of its action, if it is mapped to an action.
    pub open spec fn states_after(self, keycode: VirtualKeyCode, state: ElementState) -> Seq<
        KeyRecord,
    > {
        match find_record(self.key_states(), keycode, 0) {
            Some(i) => self.key_states().update(i, (self.key_states()[i].0, keycode, state)),
            None => match self.key_action(keycode) {
                Some(a) => self.key_states().push(
                    (smol_text(self.actions()[a as int].name), keycode, state),
                ),
                None => self.key_states(),
            },
        }
    }

    pub fn set_key_state(&mut self, keycode: VirtualKeyCode, state: ElementState)
        requires
            old(self).wf(),
        ensures
            final(self).wf(),
            final(self).actions() == old(self).actions(),
            final(self).key_states() == old(self).states_after(keycode, state),
    {
        let mut i: usize = 0;
        while i < self.state.len()
            invariant
                i <= self.state@.len(),
                *self == *old(self),
                old(self).wf(),
                find_record(self.key_states(), keycode, 0) == find_record(
                    self.key_states(),
                    keycode,
                    i as int,
                ),
            decreases self.state@.len() - i,
        {
            if self.state[i].virtual_keycode == keycode {
                let updated = KeyState {
                    action: smol_clone(&self.state[i].action),
                    virtual_keycode: keycode,
                    element_state: state,
                };
                self.state.set(i, updated);
                assert(self.key_states() =~= old(self).states_after(keycode, state));
                assert(self.keymap == old(self).keymap);
                assert(self.mousemap == old(self).mousemap);
                assert(self.namemap == old(self).namemap);
                assert(self.actions2 == old(self).actions2);
                return ;
            }
            i += 1;
        }
        let name = match self.action_by_key(keycode) {
            Some(action_def) => Some(smol_clone(&action_def.name)),
            None => None,
        };
        match name {
            Some(action) => {
                self.state.push(
                    KeyState { action, virtual_keycode: keycode, element_state: state },
                );
                assert(self.key_states() =~= old(self).states_after(keycode, state));
            },
            None => {},
        }
    }

    /// Whether the first key recorded for the action is down; false for an
    /// action without recorded key.
    pub fn is_action_pressed(&self, name: &str) -> (r: bool)
        ensures
            r == (find_action_state(self.key_states(), name@, 0) == Some(ElementState::Pressed)),
    {
        match self.action_state(name) {
            Some(ElementState::Pressed) => true,
            _ => false,
        }
    }

    /// Whether the first key recorded for the action went up in this
    /// frame; false for an action without recorded key.
    pub fn is_action_released(&self, name: &str) -> (r: bool)
        ensures
            r == (find_action_state(self.key_states(), name@, 0) == Some(ElementState::Released)),
    {
        match self.action_state(name) {
            Some(ElementState::Released) => true,
            _ => false,
        }
    }

    fn action_state(&self, name: &str) -> (r: Option<ElementState>)
        ensures
            r == find_action_state(self.key_states(), name@, 0),
    {
        let mut i: usize = 0;
        while i < self.state.len()
            invariant
                i <= self.state@.len(),
                find_action_state(self.key_states(), name@, 0) == find_action_state(
                    self.key_states(),
                    name@,
                    i as int,
                ),
            decreases self.state@.len() - i,
        {
            if same_text(smol_as_str(&self.state[i].action), name) {
                return Some(self.state[i].element_state);
            }
            i += 1;
        }
        None
    }
}

proof fn lemma_find_key_from(pairs: Seq<(VirtualKeyCode, usize)>, keycode: VirtualKeyCode, from: int)
    requires
        0 <= from <= pairs.len(),
    ensures
        match find_key(pairs, keycode, from) {
            Some(action) => exists|i: int|
                from <= i < pairs.len() && (#[trigger] pairs[i]) == (keycode, action) && forall|
                    j: int,
                |
                    from <= j < i ==> (#[trigger] pairs[j]).0 != keycode,
            None => forall|j: int| from <= j < pairs.len() ==> (#[trigger] pairs[j]).0 != keycode,
        },
    decreases pairs.len() - from,
{
    if from < pairs.len() {
        if pairs[from].0 == keycode {
            assert(pairs[from] == (keycode, pairs[from].1));
        } else {
            lemma_find_key_from(pairs, keycode, from + 1);
        }
    }
}

/// Every pair names an action before `upto` that lists the pair's key, and
/// the pairs stand in the order of their actions.
proof fn lemma_key_pairs_layout(actions: Seq<ActionInfo>, upto: nat)
    requires
        upto <= actions.len() <= usize::MAX,
    ensures
        forall|i: int|
            0 <= i < key_pairs(actions, upto).len() ==> {
                let pair = #[trigger] key_pairs(actions, upto)[i];
                pair.1 < upto && actions[pair.1 as int].keyboard_keys@.contains(pair.0)
            },
        forall|i: int, j: int|
            0 <= i <= j < key_pairs(actions, upto).len() ==> (#[trigger] key_pairs(actions, upto)[i]).1
                <= (#[trigger] key_pairs(actions, upto)[j]).1,
    decreases upto,
{
    if upto > 0 {
        lemma_key_pairs_layout(actions, (upto - 1) as nat);
        let earlier = key_pairs(actions, (upto - 1) as nat);
        let keys = actions[upto - 1].keyboard_keys@;
        let added = Seq::new(keys.len(), |j: int| (keys[j], (upto - 1) as usize));
        let pairs = key_pairs(actions, upto);
        assert(pairs == earlier + added);
        assert forall|i: int| 0 <= i < pairs.len() implies ({
            let pair = #[trigger] pairs[i];
            pair.1 < upto && actions[pair.1 as int].keyboard_keys@.contains(pair.0)
        }) by {
            if i < earlier.len() {
                assert(pairs[i] == earlier[i]);
            } else {
                assert(pairs[i] == added[i - earlier.len()]);
                assert(keys[i - earlier.len()] == pairs[i].0);
            }
        }
        assert forall|i: int, j: int| 0 <= i <= j < pairs.len() implies (#[trigger] pairs[i]).1 <= (
        #[trigger] pairs[j]).1 by {
            if j < earlier.len() {
                assert(pairs[i] == earlier[i] && pairs[j] == earlier[j]);
            } else if i < earlier.len() {
                assert(pairs[i] == earlier[i]);
                assert(pairs[j] == added[j - earlier.len()]);
            } else {
                assert(pairs[i] == added[i - earlier.len()]);
                assert(pairs[j] == added[j - earlier.len()]);
            }
        }
    }
}

/// The pair of the key at position `k` of the action at position `a`
/// stands behind the pairs of the actions before `a`, at distance `k`.
proof fn lemma_key_pair_position(actions: Seq<ActionInfo>, upto: nat, a: int, k: int)
    requires
        0 <= a < upto <= actions.len(),
        0 <= k < actions[a].keyboard_keys@.len(),
    ensures
        key_pairs(actions, a as nat).len() + k < key_pairs(actions, upto).len(),
        key_pairs(actions, upto)[key_pairs(actions, a as nat).len() + k] == (
            actions[a].keyboard_keys@[k],
            a as usize,
        ),
    decreases upto,
{
    let earlier = key_pairs(actions, (upto - 1) as nat);
    let keys = actions[upto - 1].keyboard_keys@;
    let added = Seq::new(keys.len(), |j: int| (keys[j], (upto - 1) as usize));
    assert(key_pairs(actions, upto) == earlier + added);
    if a < upto - 1 {
        lemma_key_pair_position(actions, (upto - 1) as nat, a, k);
    } else {
        assert((earlier + added)[earlier.len() + k] == added[k]);
    }
}

/// A key is mapped to the first action, in the order of the actions, that
/// lists it, and to none where no action lists it.
pub proof fn lemma_key_maps_to_first_action(map: InputMap, keycode: VirtualKeyCode)
    requires
        map.actions().len() <= usize::MAX,
    ensures
        match map.key_action(keycode) {
            Some(a) => {
                &&& a < map.actions().len()
                &&& map.actions()[a as int].keyboard_keys@.contains(keycode)
                &&& forall|b: int|
                    0 <= b < a ==> !(#[trigger] map.actions()[b]).keyboard_keys@.contains(keycode)
            },
            None => forall|b: int|
                0 <= b < map.actions().len() ==> !(#[trigger] map.actions()[b]).keyboard_keys@.contains(
                    keycode,
                ),
        },
{
    let actions = map.actions();
    let pairs = key_pairs(actions, actions.len());
    lemma_find_key_from(pairs, keycode, 0);
    lemma_key_pairs_layout(actions, actions.len());
    match map.key_action(keycode) {
        Some(a) => {
            let i = choose|i: int|
                0 <= i < pairs.len() && (#[trigger] pairs[i]) == (keycode, a) && forall|j: int|
                    0 <= j < i ==> (#[trigger] pairs[j]).0 != keycode;
            assert forall|b: int| 0 <= b < a implies !(#[trigger] actions[b]).keyboard_keys@.contains(
                keycode,
            ) by {
                if actions[b].keyboard_keys@.contains(keycode) {
                    let k = choose|k: int|
                        0 <= k < actions[b].keyboard_keys@.len() && actions[b].keyboard_keys@[k]
                            == keycode;
                    let at = key_pairs(actions, b as nat).len() + k;
                    lemma_key_pair_position(actions, actions.len(), b, k);
                    if at < i {
                        assert(pairs[at].0 != keycode);
                    } else {
                        assert(pairs[i].1 <= pairs[at].1);
                    }
                }
            }
        },
        None => {
            assert forall|b: int| 0 <= b < actions.len() implies !(
            #[trigger] actions[b]).keyboard_keys@.contains(keycode) by {
                if actions[b].keyboard_keys@.contains(keycode) {
                    let k = choose|k: int|
                        0 <= k < actions[b].keyboard_keys@.len() && actions[b].keyboard_keys@[k]
                            == keycode;
                    let at = key_pairs(actions, b as nat).len() + k;
                    lemma_key_pair_position(actions, actions.len(), b, k);
                    assert(pairs[at].0 != keycode);
                }
            }
        },
    }
}

/// Once the releases are cleared no action reads as released: clearing
/// keeps only the records of keys that are down.
pub proof fn lemma_release_lasts_one_frame(records: Seq<KeyRecord>, name: Seq<char>)
    ensures
        find_action_state(pressed_records(records), name, 0) != Some(ElementState::Released),
{
    let pressed = |record: KeyRecord| record.2 is Pressed;
    let kept = records.filter(pressed);
    assert forall|i: int| 0 <= i < kept.len() implies (#[trigger] kept[i]).2 is Pressed by {
        records.lemma_filter_pred(pressed, i);
    }
    lemma_found_state_occurs(kept, name, 0);
}

proof fn lemma_found_state_occurs(records: Seq<KeyRecord>, name: Seq<char>, from: int)
    requires
        0 <= from,
    ensures
        match find_action_state(records, name, from) {
            Some(state) => exists|i: int|
                from <= i < records.len() && (#[trigger] records[i]).2 == state,
            None => true,
        },
    decreases records.len() - from,
{
    if from < records.len() {
        if records[from].0 == name {
            assert(records[from].2 == find_action_state(records, name, from)->0);
        } else {
            lemma_found_state_occurs(records, name, from + 1);
        }
    }
}

} // verus!
