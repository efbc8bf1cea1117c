//! Keyboard, mouse and menu input dispatch: what a key press, a click or a
//! menu action does to the game. The caller reads the window events, the
//! world and the selection, and performs the world-side effects that the
//! outcome names.

use vstd::prelude::*;

use crate::building::PlacementType;
use crate::game::GameControl;
use crate::units::UnitDefRegistry;

verus! {

/// The keys the game reacts to.
#[derive(Clone, Copy, Debug, PartialEq, Eq, Structural)]
pub enum Key {
    Space,
    R,
    Escape,
    /// A digit key, by slot: `1`..`9` are slots 0..8 and `0` is slot 9.
    Digit(u8),
    /// Any other key.
    Other,
}

/// Slot of the digit key showing `digit` (0..=9): `1` is slot 0 and `0`
/// is slot 9.
pub open spec fn digit_slot(digit: u8) -> u8 {
    if digit == 0 {
        9
    } else {
        (digit - 1) as u8
    }
}

/// The key for the digit `digit` (0..=9) on the keyboard.
pub fn digit_key(digit: u8) -> (r: Key)
    requires
        digit <= 9,
    ensures
        r == Key::Digit(digit_slot(digit)),
{
    if digit == 0 {
        Key::Digit(9)
    } else {
        Key::Digit(digit - 1)
    }
}

/// The first selected unit as the input handlers see it.
#[derive(Clone, Copy, Debug, PartialEq, Eq, Structural)]
pub struct SelectedUnit {
    pub entity: u64,
    /// Its unit type, if it has one.
    pub unit_type: Option<u32>,
    /// It is a builder.
    pub is_builder: bool,
    /// It is a factory.
    pub is_factory: bool,
}

/// What a key press asks of the caller beyond the game-control changes.
#[derive(Clone, Copy, Debug, PartialEq, Eq, Structural)]
pub enum KeyOutcome {
    Nothing,
    /// The pause flag was toggled.
    TogglePause,
    /// Reset the world and the game control.
    Reset,
    /// Placement mode was left.
    CancelPlacement,
    /// Leave the event loop.
    Exit,
    /// Save the current selection to a control-group slot.
    SaveGroup(u8),
    /// Recall a control-group slot.
    RecallGroup(u8),
    /// Placement mode was entered for this building.
    EnterPlacement(PlacementType),
    /// Queue this unit type in this factory.
    QueueUnit(u64, u32),
}

/// The `slot`-th build option of `unit_type` (its `can_build` entry).
pub open spec fn build_option(registry: UnitDefRegistry, unit_type: Option<u32>, slot: u8) -> Option<u32> {
    match unit_type {
        Some(t) => match registry.lookup(t) {
            Some(d) => if (slot as int) < d.can_build.len() {
                Some(d.can_build[slot as int])
            } else {
                None
            },
            None => None,
        },
        None => None,
    }
}

/// What a key press does, as a function of the key, the Ctrl modifier,
/// the placement mode and the selection.
pub open spec fn key_outcome(
    registry: UnitDefRegistry,
    key: Key,
    ctrl: bool,
    placing: bool,
    selected: Option<SelectedUnit>,
) -> KeyOutcome {
    match key {
        Key::Space => KeyOutcome::TogglePause,
        Key::R => KeyOutcome::Reset,
        Key::Escape => if placing {
            KeyOutcome::CancelPlacement
        } else {
            KeyOutcome::Exit
        },
        Key::Digit(slot) => if ctrl {
            KeyOutcome::SaveGroup(slot)
        } else {
            match selected {
                None => KeyOutcome::RecallGroup(slot),
                Some(s) => if s.is_builder {
                    match build_option(registry, s.unit_type, slot) {
                        Some(id) => KeyOutcome::EnterPlacement(PlacementType(id)),
                        None => KeyOutcome::Nothing,
                    }
                } else if s.is_factory {
                    match build_option(registry, s.unit_type, slot) {
                        Some(id) => KeyOutcome::QueueUnit(s.entity, id),
                        None => KeyOutcome::Nothing,
                    }
                } else {
                    KeyOutcome::RecallGroup(slot)
                },
            }
        },
        Key::Other => KeyOutcome::Nothing,
    }
}

/// Keys with a fixed meaning: Space always toggles the pause and R always
/// resets, whatever the modifiers, the placement mode and the selection;
/// Escape leaves placement mode when placing and exits otherwise; a digit
/// with Ctrl saves a control group; other keys do nothing.
pub proof fn lemma_fixed_keys(
    registry: UnitDefRegistry,
    ctrl: bool,
    placing: bool,
    selected: Option<SelectedUnit>,
    slot: u8,
)
    ensures
        key_outcome(registry, Key::Space, ctrl, placing, selected) == KeyOutcome::TogglePause,
        key_outcome(registry, Key::R, ctrl, placing, selected) == KeyOutcome::Reset,
        placing ==> key_outcome(registry, Key::Escape, ctrl, placing, selected) == KeyOutcome::CancelPlacement,
        !placing ==> key_outcome(registry, Key::Escape, ctrl, placing, selected) == KeyOutcome::Exit,
        key_outcome(registry, Key::Digit(slot), true, placing, selected) == KeyOutcome::SaveGroup(slot),
        key_outcome(registry, Key::Other, ctrl, placing, selected) == KeyOutcome::Nothing,
{
}

/// A digit key never touches the pause or the placement mode except to
/// enter placement for a selected builder; with nothing selected it recalls
/// the control group of its slot.
pub proof fn lemma_digit_keys(registry: UnitDefRegistry, placing: bool, selected: Option<SelectedUnit>, slot: u8)
    ensures
        selected is None ==> key_outcome(registry, Key::Digit(slot), false, placing, selected)
            == KeyOutcome::RecallGroup(slot),
        key_outcome(registry, Key::Digit(slot), false, placing, selected) is EnterPlacement ==> (selected
            matches Some(s) && s.is_builder),
        key_outcome(registry, Key::Digit(slot), false, placing, selected) is QueueUnit ==> (selected
            matches Some(s) && s.is_factory && !s.is_builder),
        !(key_outcome(registry, Key::Digit(slot), false, placing, selected) is TogglePause),
        !(key_outcome(registry, Key::Digit(slot), false, placing, selected) is CancelPlacement),
{
}

fn build_option_of(registry: &UnitDefRegistry, unit_type: Option<u32>, slot: u8) -> (r: Option<u32>)
    ensures
        r == build_option(*registry, unit_type, slot),
{
    match unit_type {
        Some(t) => match registry.get(t) {
            Some(d) => {
                if (slot as usize) < d.can_build.len() {
                    Some(d.can_build[slot as usize])
                } else {
                    None
                }
            },
            None => None,
        },
        None => None,
    }
}

/// Handle a key press: space toggles the pause, escape leaves placement
/// mode (or the game when not placing), a digit saves (with Ctrl) or
/// recalls a control group, or picks the build option of that slot for a
/// selected builder (placement) or factory (queue).
pub fn handle_key_press(
    game: &mut GameControl,
    registry: &UnitDefRegistry,
    key: Key,
    ctrl: bool,
    selected: Option<SelectedUnit>,
) -> (r: KeyOutcome)
    ensures
        r == key_outcome(*registry, key, ctrl, old(game).placement_mode is Some, selected),
        *final(game) == (GameControl {
            paused: if r is TogglePause {
                !old(game).paused
            } else {
                old(game).paused
            },
            placement_mode: match r {
                KeyOutcome::CancelPlacement => None,
                KeyOutcome::EnterPlacement(p) => Some(p),
                _ => old(game).placement_mode,
            },
            ..*old(game)
        }),
{
    match key {
        Key::Space => {
            game.paused = !game.paused;
            KeyOutcome::TogglePause
        },
        Key::R => KeyOutcome::Reset,
        Key::Escape => {
            if game.placement_mode.is_some() {
                game.placement_mode = None;
                KeyOutcome::CancelPlacement
            } else {
                KeyOutcome::Exit
            }
        },
        Key::Digit(slot) => {
            if ctrl {
                KeyOutcome::SaveGroup(slot)
            } else {
                match selected {
                    None => KeyOutcome::RecallGroup(slot),
                    Some(s) => {
                        if s.is_builder {
                            match build_option_of(registry, s.unit_type, slot) {
                                Some(id) => {
                                    game.placement_mode = Some(PlacementType(id));
                                    KeyOutcome::EnterPlacement(PlacementType(id))
                                },
                                None => KeyOutcome::Nothing,
                            }
                        } else if s.is_factory {
                            match build_option_of(registry, s.unit_type, slot) {
                                Some(id) => KeyOutcome::QueueUnit(s.entity, id),
                                None => KeyOutcome::Nothing,
                            }
                        } else {
                            KeyOutcome::RecallGroup(slot)
                        }
                    },
                }
            }
        },
        Key::Other => KeyOutcome::Nothing,
    }
}

/// Mouse buttons the game reacts to.
#[derive(Clone, Copy, Debug, PartialEq, Eq, Structural)]
pub enum MouseButton {
    Left,
    Right,
    Other,
}

/// What a mouse press asks of the caller, at the ground point under the
/// cursor.
#[derive(Clone, Copy, Debug, PartialEq, Eq, Structural)]
pub enum MouseOutcome {
    Nothing,
    /// Place this building there (placement mode has been left).
    Place(PlacementType),
    /// Placement mode was left without placing.
    CancelPlacement,
    /// Select the unit there (shift not held).
    Select,
    /// Toggle the unit there in the selection (shift held).
    ToggleSelect,
    /// Send every selected unit there.
    MoveSelected,
}

/// What a mouse press does: nothing off the ground; in placement mode the
/// left button places and the right button cancels; otherwise the left
/// button selects (toggles with shift) and the right button moves the
/// selection.
pub open spec fn mouse_outcome(
    placement: Option<PlacementType>,
    button: MouseButton,
    on_ground: bool,
    shift: bool,
) -> MouseOutcome {
    if !on_ground {
        MouseOutcome::Nothing
    } else {
        match placement {
            Some(p) => match button {
                MouseButton::Left => MouseOutcome::Place(p),
                MouseButton::Right => MouseOutcome::CancelPlacement,
                MouseButton::Other => MouseOutcome::Nothing,
            },
            None => match button {
                MouseButton::Left => if shift {
                    MouseOutcome::ToggleSelect
                } else {
                    MouseOutcome::Select
                },
                MouseButton::Right => MouseOutcome::MoveSelected,
                MouseButton::Other => MouseOutcome::Nothing,
            },
        }
    }
}

/// What each click does: off the ground nothing; while placing, the left
/// button places exactly the pending building and the right button cancels;
/// otherwise the left button selects (toggles with Shift) and the right
/// button moves the selection. Only a click while placing places or
/// cancels.
pub proof fn lemma_click_rules(placement: Option<PlacementType>, button: MouseButton, on_ground: bool, shift: bool)
    ensures
        !on_ground ==> mouse_outcome(placement, button, on_ground, shift) == MouseOutcome::Nothing,
        placement matches Some(p) ==> (on_ground ==> mouse_outcome(placement, MouseButton::Left, on_ground, shift)
            == MouseOutcome::Place(p)),
        on_ground && placement is Some ==> mouse_outcome(placement, MouseButton::Right, on_ground, shift)
            == MouseOutcome::CancelPlacement,
        on_ground && placement is None ==> mouse_outcome(placement, MouseButton::Left, on_ground, shift) == (if shift {
            MouseOutcome::ToggleSelect
        } else {
            MouseOutcome::Select
        }),
        on_ground && placement is None ==> mouse_outcome(placement, MouseButton::Right, on_ground, shift)
            == MouseOutcome::MoveSelected,
        (mouse_outcome(placement, button, on_ground, shift) is Place || mouse_outcome(placement, button, on_ground, shift)
            is CancelPlacement) ==> placement is Some,
        mouse_outcome(placement, MouseButton::Other, on_ground, shift) == MouseOutcome::Nothing,
{
}

/// Handle a mouse press; `on_ground` tells whether the cursor is over the
/// ground. Placing or cancelling leaves placement mode.
pub fn handle_mouse_press(game: &mut GameControl, button: MouseButton, on_ground: bool, shift: bool) -> (r: MouseOutcome)
    ensures
        r == mouse_outcome(old(game).placement_mode, button, on_ground, shift),
        *final(game) == (GameControl {
            placement_mode: if r is Place || r is CancelPlacement {
                None
            } else {
                old(game).placement_mode
            },
            ..*old(game)
        }),
{
    if !on_ground {
        return MouseOutcome::Nothing;
    }
    match game.placement_mode {
        Some(p) => match button {
            MouseButton::Left => {
                game.placement_mode = None;
                MouseOutcome::Place(p)
            },
            MouseButton::Right => {
                game.placement_mode = None;
                MouseOutcome::CancelPlacement
            },
            MouseButton::Other => MouseOutcome::Nothing,
        },
        None => match button {
            MouseButton::Left => {
                if shift {
                    MouseOutcome::ToggleSelect
                } else {
                    MouseOutcome::Select
                }
            },
            MouseButton::Right => MouseOutcome::MoveSelected,
            MouseButton::Other => MouseOutcome::Nothing,
        },
    }
}

/// Actions returned by the menu overlay for the game to process.
#[derive(Clone, Copy, Debug, PartialEq, Eq, Structural)]
pub enum UiAction {
    /// Build/place this unit type (builder selected).
    Build(u32),
    /// Queue this unit type (factory selected).
    QueueUnit(u32),
}

/// A build option of the menu: the slot of its key and the unit type.
#[derive(Clone, Copy, Debug, PartialEq, Eq, Structural)]
pub struct MenuEntry {
    /// Slot of the digit key that picks it (see [`digit_slot`]).
    pub slot: u8,
    pub unit_type_id: u32,
}

/// Number of build options that have a key.
pub const MENU_SLOTS: usize = 10;

/// The menu entries for the build options `options` (a `can_build` list):
/// one per option among the first ten whose type is registered, keyed by
/// its position in the list.
pub open spec fn menu_from(registry: UnitDefRegistry, options: Seq<u32>, upto: int) -> Seq<MenuEntry>
    decreases upto,
{
    if upto <= 0 {
        Seq::empty()
    } else {
        let rest = menu_from(registry, options, upto - 1);
        let id = options[upto - 1];
        if registry.lookup(id) is Some {
            rest.push(MenuEntry { slot: (upto - 1) as u8, unit_type_id: id })
        } else {
            rest
        }
    }
}

/// The build menu of a unit of type `unit_type`.
pub open spec fn build_menu(registry: UnitDefRegistry, unit_type: Option<u32>) -> Seq<MenuEntry> {
    match unit_type {
        Some(t) => match registry.lookup(t) {
            Some(d) => menu_from(
                registry,
                d.can_build,
                if d.can_build.len() < MENU_SLOTS {
                    d.can_build.len() as int
                } else {
                    MENU_SLOTS as int
                },
            ),
            None => Seq::empty(),
        },
        None => Seq::empty(),
    }
}

/// The build menu of the selected unit: for each of the first ten entries
/// of its `can_build` list whose type is registered, the key slot (its
/// position in the list) and the unit type. Empty when the unit's type is
/// unknown.
pub fn menu_entries(registry: &UnitDefRegistry, unit_type: Option<u32>) -> (r: Vec<MenuEntry>)
    ensures
        r@ == build_menu(*registry, unit_type),
{
    let mut entries: Vec<MenuEntry> = Vec::new();
    match unit_type {
        None => entries,
        Some(t) => match registry.get(t) {
            None => entries,
            Some(d) => {
                let n = if d.can_build.len() < MENU_SLOTS {
                    d.can_build.len()
                } else {
                    MENU_SLOTS
                };
                let mut i: usize = 0;
                while i < n
                    invariant
                        n <= d.can_build@.len(),
                        n <= MENU_SLOTS,
                        i <= n,
                        entries@ == menu_from(*registry, d.can_build@, i as int),
                    decreases n - i,
                {
                    let id = d.can_build[i];
                    match registry.get(id) {
                        Some(_) => {
                            entries.push(MenuEntry { slot: i as u8, unit_type_id: id });
                        },
                        None => {},
                    }
                    i += 1;
                }
                entries
            },
        },
    }
}

proof fn lemma_menu_entry_slot(registry: UnitDefRegistry, options: Seq<u32>, upto: int, k: int)
    requires
        0 <= upto <= options.len(),
        upto <= MENU_SLOTS,
        0 <= k < menu_from(registry, options, upto).len(),
    ensures
        ({
            let e = menu_from(registry, options, upto)[k];
            &&& 0 <= e.slot < upto
            &&& options[e.slot as int] == e.unit_type_id
            &&& registry.lookup(e.unit_type_id) is Some
        }),
    decreases upto,
{
    let rest = menu_from(registry, options, upto - 1);
    if k < rest.len() {
        lemma_menu_entry_slot(registry, options, upto - 1, k);
    }
}

/// The menu lists, in key order, exactly the registered options among the
/// first ten build options: each entry's key slot is the position of its
/// unit type in the list, slots strictly increase, and every registered
/// option in the first ten slots has an entry.
pub proof fn lemma_menu_lists_options(registry: UnitDefRegistry, options: Seq<u32>, upto: int)
    requires
        0 <= upto <= options.len(),
        upto <= MENU_SLOTS,
    ensures
        ({
            let menu = menu_from(registry, options, upto);
            &&& forall|k: int| #![trigger menu[k]] 0 <= k < menu.len() ==> {
                &&& 0 <= menu[k].slot < upto
                &&& options[menu[k].slot as int] == menu[k].unit_type_id
                &&& registry.lookup(menu[k].unit_type_id) is Some
            }
            &&& forall|a: int, b: int| 0 <= a < b < menu.len() ==> menu[a].slot < menu[b].slot
            &&& forall|i: int| #![trigger options[i]]
                0 <= i < upto && registry.lookup(options[i]) is Some ==> exists|k: int|
                    0 <= k < menu.len() && menu[k].slot == i && menu[k].unit_type_id == options[i]
        }),
    decreases upto,
{
    if upto > 0 {
        lemma_menu_lists_options(registry, options, upto - 1);
        let rest = menu_from(registry, options, upto - 1);
        let menu = menu_from(registry, options, upto);
        assert forall|k: int| #![trigger menu[k]] 0 <= k < menu.len() implies {
            &&& 0 <= menu[k].slot < upto
            &&& options[menu[k].slot as int] == menu[k].unit_type_id
            &&& registry.lookup(menu[k].unit_type_id) is Some
        } by {
            if k < rest.len() {
                assert(menu[k] == rest[k]);
            }
        }
        assert forall|a: int, b: int| 0 <= a < b < menu.len() implies menu[a].slot < menu[b].slot by {
            if b < rest.len() {
                assert(menu[a] == rest[a] && menu[b] == rest[b]);
            } else {
                assert(menu[a] == rest[a]);
                assert(rest[a].slot < upto - 1);
            }
        }
        assert forall|i: int| #![trigger options[i]]
            0 <= i < upto && registry.lookup(options[i]) is Some implies exists|k: int|
                0 <= k < menu.len() && menu[k].slot == i && menu[k].unit_type_id == options[i] by {
            if i < upto - 1 {
                let k = choose|k: int| 0 <= k < rest.len() && rest[k].slot == i && rest[k].unit_type_id == options[i];
                assert(menu[k] == rest[k]);
            } else {
                assert(menu[rest.len() as int] == MenuEntry { slot: (upto - 1) as u8, unit_type_id: options[i] });
            }
        }
    }
}

/// The menu and the digit keys agree: with a builder selected, pressing
/// the key of a menu entry (without Ctrl) enters placement for that entry's
/// unit type; with a factory selected (that is not a builder) it queues
/// that unit type in the factory.
pub proof fn lemma_menu_key_picks_entry(
    registry: UnitDefRegistry,
    placing: bool,
    selected: SelectedUnit,
    k: int,
)
    requires
        0 <= k < build_menu(registry, selected.unit_type).len(),
    ensures
        ({
            let e = build_menu(registry, selected.unit_type)[k];
            let out = key_outcome(registry, Key::Digit(e.slot), false, placing, Some(selected));
            &&& selected.is_builder ==> out == KeyOutcome::EnterPlacement(PlacementType(e.unit_type_id))
            &&& (!selected.is_builder && selected.is_factory) ==> out == KeyOutcome::QueueUnit(
                selected.entity,
                e.unit_type_id,
            )
        }),
{
    let t = selected.unit_type->0;
    let d = registry.lookup(t)->0;
    let n = if d.can_build.len() < MENU_SLOTS {
        d.can_build.len() as int
    } else {
        MENU_SLOTS as int
    };
    lemma_menu_entry_slot(registry, d.can_build, n, k);
}

/// Display name of a unit type: its definition's name, or "#<id>" when it
/// is not registered.
pub open spec fn display_name(def: Option<crate::units::UnitDefView>, id: u32) -> Seq<char> {
    match def {
        Some(d) => d.name,
        None => "#"@ + crate::building::decimal(id as nat),
    }
}

/// Display name of `unit_type_id` in the interface.
pub fn unit_display_name(registry: &UnitDefRegistry, unit_type_id: u32) -> (r: String)
    ensures
        r@ == display_name(registry.lookup(unit_type_id), unit_type_id),
{
    match registry.get(unit_type_id) {
        Some(d) => d.name.clone(),
        None => String::from_str("#").concat(crate::building::decimal_string(unit_type_id).as_str()),
    }
}

/// Entry of the factory production queue as the menu shows it.
pub struct QueueEntry {
    pub name: String,
    /// Icon lookup key.
    pub icon_key: String,
}

/// Placement mode after the menu actions `actions`: the last build action
/// wins.
pub open spec fn placement_after(start: Option<PlacementType>, actions: Seq<UiAction>) -> Option<PlacementType>
    decreases actions.len(),
{
    if actions.len() == 0 {
        start
    } else {
        match actions.last() {
            UiAction::Build(id) => Some(PlacementType(id)),
            UiAction::QueueUnit(_) => placement_after(start, actions.drop_last()),
        }
    }
}

/// The queue orders that the menu actions `actions` give when `selected`
/// is the first selected unit: each queue action, in order, for it.
pub open spec fn queue_orders(actions: Seq<UiAction>, selected: Option<u64>) -> Seq<(u64, u32)>
    decreases actions.len(),
{
    if actions.len() == 0 {
        Seq::empty()
    } else {
        let rest = queue_orders(actions.drop_last(), selected);
        match (actions.last(), selected) {
            (UiAction::QueueUnit(id), Some(s)) => rest.push((s, id)),
            _ => rest,
        }
    }
}

/// Menu actions: a build action sets the placement to its unit type,
/// whatever came before; a queue action leaves the placement alone and
/// adds one order for the selected unit (none without a selection).
pub proof fn lemma_menu_action_rules(start: Option<PlacementType>, actions: Seq<UiAction>, selected: Option<u64>, id: u32)
    ensures
        placement_after(start, actions.push(UiAction::Build(id))) == Some(PlacementType(id)),
        placement_after(start, actions.push(UiAction::QueueUnit(id))) == placement_after(start, actions),
        selected matches Some(s) ==> queue_orders(actions.push(UiAction::QueueUnit(id)), selected) == queue_orders(
            actions,
            selected,
        ).push((s, id)),
        queue_orders(actions.push(UiAction::Build(id)), selected) == queue_orders(actions, selected),
        selected is None ==> queue_orders(actions, selected).len() == 0,
        placement_after(start, Seq::empty()) == start,
    decreases actions.len(),
{
    assert(actions.push(UiAction::Build(id)).drop_last() == actions);
    assert(actions.push(UiAction::QueueUnit(id)).drop_last() == actions);
    if selected is None && actions.len() > 0 {
        lemma_menu_action_rules(start, actions.drop_last(), selected, id);
    }
}

/// Process the menu actions in order: a build action enters placement
/// mode, a queue action becomes a queue order for the selected unit (none
/// without a selection). Returns the queue orders, as (factory, unit type).
pub fn process_ui_actions(game: &mut GameControl, actions: &Vec<UiAction>, selected: Option<u64>) -> (r: Vec<(u64, u32)>)
    ensures
        *final(game) == (GameControl {
            placement_mode: placement_after(old(game).placement_mode, actions@),
            ..*old(game)
        }),
        r@ == queue_orders(actions@, selected),
{
    let mut orders: Vec<(u64, u32)> = Vec::new();
    let len = actions.len();
    let mut i: usize = 0;
    while i < len
        invariant
            len == actions@.len(),
            i <= len,
            *game == (GameControl {
                placement_mode: placement_after(old(game).placement_mode, actions@.take(i as int)),
                ..*old(game)
            }),
            orders@ == queue_orders(actions@.take(i as int), selected),
        decreases len - i,
    {
        proof {
            assert(actions@.take(i as int + 1).drop_last() =~= actions@.take(i as int));
        }
        match actions[i] {
            UiAction::Build(id) => {
                game.handle_build_command(PlacementType(id));
            },
            UiAction::QueueUnit(id) => {
                match selected {
                    Some(s) => {
                        orders.push((s, id));
                    },
                    None => {},
                }
            },
        }
        i += 1;
    }
    assert(actions@.take(len as int) =~= actions@);
    orders
}

} // verus!
