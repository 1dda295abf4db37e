//! Applying a mode to the materials that a list of handles names.

use bevy::input::keyboard::KeyCode;
use bevy::input::Input;
use crate::keyboard::{just_pressed_keys, requested_mode};
use crate::keys::{requested, Key};
use crate::material::BlockyMaterial;
use crate::mode::SamplingMode;
use std::collections::HashMap;
use vstd::prelude::*;

verus! {

/// The materials after `mode` is applied through `handles`: a material that a
/// handle names has the mode, with its texture kept, and every other material
/// is as it was. A handle that names no material adds nothing.
pub open spec fn applied<H>(
    mode: SamplingMode,
    handles: Set<u64>,
    materials: Map<u64, BlockyMaterial<H>>,
) -> Map<u64, BlockyMaterial<H>> {
    Map::new(
        |id: u64| materials.contains_key(id),
        |id: u64|
            if handles.contains(id) {
                materials[id].with_mode(mode)
            } else {
                materials[id]
            },
    )
}

/// The materials after one update cycle in which the keys in `pressed` were
/// just pressed: the mode that the keys ask for is applied, and with no
/// request nothing changes.
pub open spec fn updated<H>(
    pressed: Set<Key>,
    handles: Set<u64>,
    materials: Map<u64, BlockyMaterial<H>>,
) -> Map<u64, BlockyMaterial<H>> {
    match requested(pressed) {
        Some(mode) => applied(mode, handles, materials),
        None => materials,
    }
}

/// Applying a mode neither adds nor removes a material. Each material that a
/// handle names then has the mode and the texture it had, and each material
/// that no handle names is unchanged.
pub proof fn applied_sets_the_named_materials<H>(
    mode: SamplingMode,
    handles: Set<u64>,
    materials: Map<u64, BlockyMaterial<H>>,
)
    ensures
        applied(mode, handles, materials).dom() == materials.dom(),
        forall|id: u64| #[trigger]
            materials.contains_key(id) && handles.contains(id) ==> {
                &&& applied(mode, handles, materials)[id].mode() == mode
                &&& applied(mode, handles, materials)[id].texture() == materials[id].texture()
            },
        forall|id: u64| #[trigger]
            materials.contains_key(id) && !handles.contains(id) ==> applied(
                mode,
                handles,
                materials,
            )[id] == materials[id],
{
    assert(applied(mode, handles, materials).dom() =~= materials.dom());
    assert forall|id: u64| #[trigger]
        materials.contains_key(id) && handles.contains(id) implies {
        &&& applied(mode, handles, materials)[id].mode() == mode
        &&& applied(mode, handles, materials)[id].texture() == materials[id].texture()
    } by {
        materials[id].with_mode_replaces_the_mode(materials[id], mode);
    }
}

/// Applying a mode through no handle at all changes nothing.
pub proof fn applied_to_nothing_changes_nothing<H>(
    mode: SamplingMode,
    materials: Map<u64, BlockyMaterial<H>>,
)
    ensures
        applied(mode, Set::<u64>::empty(), materials) == materials,
{
    assert(applied(mode, Set::<u64>::empty(), materials) =~= materials);
}

/// Applying a mode a second time, through the same handles, changes nothing
/// more.
pub proof fn applied_twice_is_applied_once<H>(
    mode: SamplingMode,
    handles: Set<u64>,
    materials: Map<u64, BlockyMaterial<H>>,
)
    ensures
        applied(mode, handles, applied(mode, handles, materials)) == applied(
            mode,
            handles,
            materials,
        ),
{
    let once = applied(mode, handles, materials);
    assert forall|id: u64| #[trigger] once.contains_key(id) implies applied(mode, handles, once)[id]
        == once[id] by {
        materials[id].with_mode_replaces_the_mode(materials[id], mode);
    }
    assert(applied(mode, handles, once) =~= once);
}

/// A cycle in which none of the three bound keys was just pressed changes no
/// material, whatever else was pressed.
pub proof fn update_without_a_press_changes_nothing<H>(
    pressed: Set<Key>,
    handles: Set<u64>,
    materials: Map<u64, BlockyMaterial<H>>,
)
    requires
        !pressed.contains(Key::Key1),
        !pressed.contains(Key::Key2),
        !pressed.contains(Key::Key3),
    ensures
        updated(pressed, handles, materials) == materials,
{
}

/// Sets the mode of every material that a handle in `handles` names. A handle
/// whose material is gone is passed over, and the rest are still updated. The
/// order of the handles, and how often one occurs, makes no difference.
pub fn apply_mode<H>(
    mode: SamplingMode,
    handles: &Vec<u64>,
    materials: &mut HashMap<u64, BlockyMaterial<H>>,
)
    ensures
        final(materials)@ == applied(mode, handles@.to_set(), old(materials)@),
        final(materials)@.dom() == old(materials)@.dom(),
        forall|id: u64| #[trigger]
            old(materials)@.contains_key(id) && handles@.contains(id) ==> {
                &&& final(materials)@[id].mode() == mode
                &&& final(materials)@[id].texture() == old(materials)@[id].texture()
            },
        forall|id: u64| #[trigger]
            old(materials)@.contains_key(id) && !handles@.contains(id) ==> final(materials)@[id]
                == old(materials)@[id],
{
    broadcast use vstd::std_specs::hash::group_hash_axioms;

    let ghost before = materials@;
    assert(materials@ =~= applied(mode, handles@.take(0).to_set(), before));
    let mut i: usize = 0;
    while i < handles.len()
        invariant
            i <= handles.len(),
            materials@ == applied(mode, handles@.take(i as int).to_set(), before),
        decreases handles.len() - i,
    {
        let id = handles[i];
        match materials.remove(&id) {
            Some(mut material) => {
                material.set_sampling_mode(mode);
                materials.insert(id, material);
            },
            None => {},
        }
        proof {
            let seen = handles@.take(i as int);
            let next = handles@.take(i + 1);
            assert(next =~= seen.push(id));
            assert(next.to_set() =~= seen.to_set().insert(id)) by {
                assert forall|other: u64| seen.contains(other) implies next.contains(other) by {
                    let k = choose|k: int| 0 <= k < seen.len() && seen[k] == other;
                    assert(next[k] == other);
                }
                assert(next[i as int] == id);
            }
            if before.contains_key(id) {
                before[id].with_mode_replaces_the_mode(before[id], mode);
            }
            assert(materials@ =~= applied(mode, next.to_set(), before));
        }
        i += 1;
    }
    proof {
        assert(handles@.take(handles.len() as int) =~= handles@);
        applied_sets_the_named_materials(mode, handles@.to_set(), before);
    }
}

/// One update cycle: reads the bound keys, and where they ask for a mode,
/// applies it to the materials that `handles` names. When no bound key was
/// just pressed, no material is touched.
pub fn update_sampling_mode<H>(
    keys: &Input<KeyCode>,
    handles: &Vec<u64>,
    materials: &mut HashMap<u64, BlockyMaterial<H>>,
)
    ensures
        final(materials)@ == updated(just_pressed_keys(*keys), handles@.to_set(), old(materials)@),
{
    if let Some(new_mode) = requested_mode(keys) {
        apply_mode(new_mode, handles, materials);
    }
}

} // verus!
