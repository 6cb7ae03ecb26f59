//! The text the HUD's room-name label shows for a locator result.

use vstd::prelude::*;

verus! {

/// The label text for a resolved room: the room's name, or the empty
/// string when the position lies in no room.
pub fn room_display_text(new_text: Option<&str>) -> (r: &str)
    ensures
        match new_text {
            Some(s) => r@ == s@,
            None => r@ == Seq::<char>::empty(),
        },
{
    match new_text {
        Some(s) => s,
        None => {
            proof {
                reveal_strlit("");
            }
            ""
        },
    }
}

} // verus!
