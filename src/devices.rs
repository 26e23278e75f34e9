use vstd::prelude::*;

use crate::input::{GamepadState, Joystick, JoystickId};

verus! {

/// Number of physical gamepad slots that are probed.
pub const GAMEPAD_SLOTS: u32 = 4;

/// Ids of the connected physical devices, given for each slot whether a device
/// is there: slot `s` yields id `s + 1`, in ascending slot order.
pub open spec fn physical_ids(present: Seq<bool>) -> Seq<JoystickId>
    decreases present.len(),
{
    if present.len() == 0 {
        Seq::empty()
    } else {
        let rest = physical_ids(present.drop_last());
        if present.last() {
            rest.push(present.len() as JoystickId)
        } else {
            rest
        }
    }
}

/// All logical ids: the keyboard first, then the physical devices.
pub open spec fn joystick_ids(present: Seq<bool>) -> Seq<JoystickId> {
    seq![0 as JoystickId].add(physical_ids(present))
}

/// The physical slot behind a logical id; the keyboard has none.
pub open spec fn slot_of(id: JoystickId) -> Option<u32> {
    if id == 0 {
        None
    } else {
        Some((id - 1) as u32)
    }
}

/// The physical slot that a query for `id` must probe, or `None` for the keyboard.
pub fn gamepad_slot(id: JoystickId) -> (r: Option<u32>)
    ensures
        r == slot_of(id),
{
    if id == 0 {
        None
    } else {
        Some(id - 1)
    }
}

/// The snapshot for logical id `id`: the keyboard joystick for id 0, else the
/// gamepad read from the id's slot, or `None` when no device is there.
pub fn joystick_for(id: JoystickId, keyboard: &Joystick, pad: Option<GamepadState>) -> (r: Option<Joystick>)
    ensures
        id == 0 ==> r == Some(*keyboard),
        id != 0 ==> r == (match pad {
            Some(g) => Some(crate::input::gamepad_joystick(g)),
            None => None,
        }),
{
    if id == 0 {
        Some(*keyboard)
    } else {
        match pad {
            Some(g) => Some(Joystick::from_gamepad(&g)),
            None => None,
        }
    }
}

proof fn lemma_physical_ids_bounded(present: Seq<bool>)
    requires
        present.len() <= u32::MAX,
    ensures
        physical_ids(present).len() <= present.len(),
        forall|i: int|
            0 <= i < physical_ids(present).len() ==> 1 <= #[trigger] physical_ids(present)[i] <= present.len(),
    decreases present.len(),
{
    if present.len() > 0 {
        lemma_physical_ids_bounded(present.drop_last());
    }
}

/// The logical ids available, given for each probed slot whether a device is connected.
pub fn available_joysticks(present: &Vec<bool>) -> (r: Vec<JoystickId>)
    requires
        present@.len() < u32::MAX,
    ensures
        r@ == joystick_ids(present@),
{
    let mut r: Vec<JoystickId> = Vec::new();
    r.push(0);
    let mut i: usize = 0;
    while i < present.len()
        invariant
            i <= present@.len(),
            present@.len() < u32::MAX,
            r@ == joystick_ids(present@.subrange(0, i as int)),
        decreases present@.len() - i,
    {
        let ghost prev = present@.subrange(0, i as int);
        let ghost next = present@.subrange(0, i + 1);
        assert(next.drop_last() =~= prev);
        if present[i] {
            r.push((i + 1) as JoystickId);
            assert(r@ =~= joystick_ids(next));
        } else {
            assert(r@ =~= joystick_ids(next));
        }
        i = i + 1;
    }
    assert(present@.subrange(0, present@.len() as int) =~= present@);
    r
}

/// Ids listed for any device table start with the keyboard's 0, are never
/// empty, and rise strictly.
pub proof fn lemma_ids_keyboard_first_ascending(present: Seq<bool>)
    requires
        present.len() < u32::MAX,
    ensures
        joystick_ids(present).len() >= 1,
        joystick_ids(present)[0] == 0,
        forall|i: int, j: int|
            0 <= i < j < joystick_ids(present).len() ==> joystick_ids(present)[i] < joystick_ids(present)[j],
    decreases present.len(),
{
    lemma_physical_ids_bounded(present);
    if present.len() > 0 {
        let rest = present.drop_last();
        lemma_ids_keyboard_first_ascending(rest);
        lemma_physical_ids_bounded(rest);
        let ids = joystick_ids(present);
        let prev = joystick_ids(rest);
        if present.last() {
            assert(ids =~= prev.push(present.len() as JoystickId));
        } else {
            assert(ids =~= prev);
        }
        assert forall|i: int, j: int| 0 <= i < j < ids.len() implies ids[i] < ids[j] by {
            if j < prev.len() {
                assert(ids[i] == prev[i]);
                assert(ids[j] == prev[j]);
            } else {
                assert(ids[i] == prev[i]);
                if i > 0 {
                    assert(prev[i] == physical_ids(rest)[i - 1]);
                }
            }
        }
    }
}

/// Listing the devices of an empty table gives the keyboard alone.
pub proof fn lemma_no_devices_keyboard_only(present: Seq<bool>)
    requires
        forall|s: int| 0 <= s < present.len() ==> !present[s],
    ensures
        joystick_ids(present) == seq![0 as JoystickId],
    decreases present.len(),
{
    if present.len() > 0 {
        lemma_no_devices_keyboard_only(present.drop_last());
    }
    assert(joystick_ids(present) =~= seq![0 as JoystickId]);
}

} // verus!
