//! Effects built on the move transition plugin.
use crate::text::str_eq;
use vstd::prelude::*;

verus! {

/// The 3D transform setting that a spin changes: the z rotation for
/// `spin`, `z` and any other name, x for `spinx` and `x`, y for `spiny` and
/// `y`.
pub open spec fn spin_setting_spec(name: Seq<char>) -> Seq<char> {
    if name == "spinx"@ || name == "x"@ {
        "Rotation.X"@
    } else if name == "spiny"@ || name == "y"@ {
        "Rotation.Y"@
    } else {
        "Rotation.Z"@
    }
}

/// The 3D transform setting that the spin `name` changes.
pub fn spin(name: &str) -> (r: &'static str)
    ensures
        r@ == spin_setting_spec(name@),
{
    if str_eq(name, "spinx") || str_eq(name, "x") {
        "Rotation.X"
    } else if str_eq(name, "spiny") || str_eq(name, "y") {
        "Rotation.Y"
    } else {
        "Rotation.Z"
    }
}


/// `spinx` and `x` spin around the x axis, `spiny` and `y` around the y
/// axis, and every other name around the z axis.
pub proof fn spins_turn_their_axis(name: Seq<char>)
    ensures
        (name == "spinx"@ || name == "x"@) ==> spin_setting_spec(name) == "Rotation.X"@,
        (name == "spiny"@ || name == "y"@) ==> spin_setting_spec(name) == "Rotation.Y"@,
        name != "spinx"@ && name != "x"@ && name != "spiny"@ && name != "y"@ ==> spin_setting_spec(name)
            == "Rotation.Z"@,
        spin_setting_spec("spinx"@) != spin_setting_spec("spiny"@),
{
    reveal_strlit("spinx");
    reveal_strlit("x");
    reveal_strlit("spiny");
    reveal_strlit("y");
    reveal_strlit("Rotation.X");
    reveal_strlit("Rotation.Y");
    assert("spinx"@.len() == 5 && "spinx"@[0] == 's' && "spinx"@[4] == 'x');
    assert("x"@.len() == 1 && "x"@[0] == 'x');
    assert("spiny"@.len() == 5 && "spiny"@[0] == 's' && "spiny"@[4] == 'y');
    assert("y"@.len() == 1 && "y"@[0] == 'y');
    assert("Rotation.X"@.len() == 10 && "Rotation.X"@[0] == 'R' && "Rotation.X"@[4] == 't' && "Rotation.X"@[9] == 'X');
    assert("Rotation.Y"@.len() == 10 && "Rotation.Y"@[0] == 'R' && "Rotation.Y"@[4] == 't' && "Rotation.Y"@[9] == 'Y');
}

} // verus!
