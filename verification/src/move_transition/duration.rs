//! How long a move transition takes and how it eases.
use crate::deps::{pascal_case, to_pascal_case};
use crate::handlers::channel_rewards::{easing_indices_spec, easing_names_have_their_codes};
use crate::text::str_eq;
use vstd::prelude::*;

verus! {

/// The easing curves of the move transition plugin.
#[derive(PartialEq, Eq, Structural, Clone, Copy, Debug)]
pub enum EasingFunction {
    Quadratic,
    Cubic,
    Quartic,
    Quintic,
    Sine,
    Circular,
    Expotential,
    Elastic,
    Bounce,
    Back,
}

/// Where the easing applies: not at all, at the start, at the end, or both.
#[derive(PartialEq, Eq, Structural, Clone, Copy, Debug)]
pub enum EasingType {
    NoEasing,
    EaseIn,
    EaseOut,
    EaseInAndOut,
}

impl EasingFunction {
    /// The number the plugin uses for the curve.
    pub open spec fn code_spec(self) -> i32 {
        match self {
            EasingFunction::Quadratic => 1,
            EasingFunction::Cubic => 2,
            EasingFunction::Quartic => 3,
            EasingFunction::Quintic => 4,
            EasingFunction::Sine => 5,
            EasingFunction::Circular => 6,
            EasingFunction::Expotential => 7,
            EasingFunction::Elastic => 8,
            EasingFunction::Bounce => 9,
            EasingFunction::Back => 10,
        }
    }

    /// The number the plugin uses for the curve.
    pub fn code(&self) -> (c: i32)
        ensures
            c == self.code_spec(),
    {
        match self {
            EasingFunction::Quadratic => 1,
            EasingFunction::Cubic => 2,
            EasingFunction::Quartic => 3,
            EasingFunction::Quintic => 4,
            EasingFunction::Sine => 5,
            EasingFunction::Circular => 6,
            EasingFunction::Expotential => 7,
            EasingFunction::Elastic => 8,
            EasingFunction::Bounce => 9,
            EasingFunction::Back => 10,
        }
    }

    /// The curve whose variant name is exactly `name`.
    pub open spec fn from_name_spec(name: Seq<char>) -> Option<EasingFunction> {
        if name == "Quadratic"@ {
            Some(EasingFunction::Quadratic)
        } else if name == "Cubic"@ {
            Some(EasingFunction::Cubic)
        } else if name == "Quartic"@ {
            Some(EasingFunction::Quartic)
        } else if name == "Quintic"@ {
            Some(EasingFunction::Quintic)
        } else if name == "Sine"@ {
            Some(EasingFunction::Sine)
        } else if name == "Circular"@ {
            Some(EasingFunction::Circular)
        } else if name == "Expotential"@ {
            Some(EasingFunction::Expotential)
        } else if name == "Elastic"@ {
            Some(EasingFunction::Elastic)
        } else if name == "Bounce"@ {
            Some(EasingFunction::Bounce)
        } else if name == "Back"@ {
            Some(EasingFunction::Back)
        } else {
            None
        }
    }

    /// The curve whose variant name is exactly `name`, if any.
    pub fn from_name(name: &str) -> (r: Option<EasingFunction>)
        ensures
            r == Self::from_name_spec(name@),
    {
        if str_eq(name, "Quadratic") {
            Some(EasingFunction::Quadratic)
        } else if str_eq(name, "Cubic") {
            Some(EasingFunction::Cubic)
        } else if str_eq(name, "Quartic") {
            Some(EasingFunction::Quartic)
        } else if str_eq(name, "Quintic") {
            Some(EasingFunction::Quintic)
        } else if str_eq(name, "Sine") {
            Some(EasingFunction::Sine)
        } else if str_eq(name, "Circular") {
            Some(EasingFunction::Circular)
        } else if str_eq(name, "Expotential") {
            Some(EasingFunction::Expotential)
        } else if str_eq(name, "Elastic") {
            Some(EasingFunction::Elastic)
        } else if str_eq(name, "Bounce") {
            Some(EasingFunction::Bounce)
        } else if str_eq(name, "Back") {
            Some(EasingFunction::Back)
        } else {
            None
        }
    }
}

impl EasingType {
    /// The number the plugin uses for the easing type.
    pub open spec fn code_spec(self) -> i32 {
        match self {
            EasingType::NoEasing => 0,
            EasingType::EaseIn => 1,
            EasingType::EaseOut => 2,
            EasingType::EaseInAndOut => 3,
        }
    }

    /// The number the plugin uses for the easing type.
    pub fn code(&self) -> (c: i32)
        ensures
            c == self.code_spec(),
    {
        match self {
            EasingType::NoEasing => 0,
            EasingType::EaseIn => 1,
            EasingType::EaseOut => 2,
            EasingType::EaseInAndOut => 3,
        }
    }

    /// The easing type whose variant name is exactly `name`.
    pub open spec fn from_name_spec(name: Seq<char>) -> Option<EasingType> {
        if name == "NoEasing"@ {
            Some(EasingType::NoEasing)
        } else if name == "EaseIn"@ {
            Some(EasingType::EaseIn)
        } else if name == "EaseOut"@ {
            Some(EasingType::EaseOut)
        } else if name == "EaseInAndOut"@ {
            Some(EasingType::EaseInAndOut)
        } else {
            None
        }
    }

    /// The easing type whose variant name is exactly `name`, if any.
    pub fn from_name(name: &str) -> (r: Option<EasingType>)
        ensures
            r == Self::from_name_spec(name@),
    {
        if str_eq(name, "NoEasing") {
            Some(EasingType::NoEasing)
        } else if str_eq(name, "EaseIn") {
            Some(EasingType::EaseIn)
        } else if str_eq(name, "EaseOut") {
            Some(EasingType::EaseOut)
        } else if str_eq(name, "EaseInAndOut") {
            Some(EasingType::EaseInAndOut)
        } else {
            None
        }
    }
}

impl Default for EasingFunction {
    fn default() -> (r: Self)
        ensures
            r == EasingFunction::Quadratic,
    {
        EasingFunction::Quadratic
    }
}

impl Default for EasingType {
    fn default() -> (r: Self)
        ensures
            r == EasingType::EaseInAndOut,
    {
        EasingType::EaseInAndOut
    }
}

/// How long a move transition runs (in milliseconds) and how it eases.
pub struct EasingDuration {
    pub duration: Option<i32>,
    pub easing_function: EasingFunction,
    pub easing_type: EasingType,
}

impl Default for EasingDuration {
    fn default() -> (r: Self)
        ensures
            r.duration is None,
            r.easing_function == EasingFunction::Quadratic,
            r.easing_type == EasingType::EaseInAndOut,
    {
        EasingDuration {
            duration: None,
            easing_function: EasingFunction::Quadratic,
            easing_type: EasingType::EaseInAndOut,
        }
    }
}

impl EasingDuration {
    /// A transition of `duration` milliseconds with the default easing
    /// (quadratic, in and out).
    pub fn new(duration: i32) -> (r: EasingDuration)
        ensures
            r.duration == Some(duration),
            r.easing_function == EasingFunction::Quadratic,
            r.easing_type == EasingType::EaseInAndOut,
    {
        EasingDuration {
            duration: Some(duration),
            easing_function: EasingFunction::Quadratic,
            easing_type: EasingType::EaseInAndOut,
        }
    }
}

/// The (easing function, easing type) numbers for names already in Pascal
/// case: a name that is no variant counts as quadratic, and as no easing.
pub open spec fn pascal_easing_indices_spec(easing_function: Seq<char>, easing_type: Seq<char>) -> (
    i32,
    i32,
) {
    (
        match EasingFunction::from_name_spec(easing_function) {
            Some(f) => f.code_spec(),
            None => EasingFunction::Quadratic.code_spec(),
        },
        match EasingType::from_name_spec(easing_type) {
            Some(t) => t.code_spec(),
            None => EasingType::NoEasing.code_spec(),
        },
    )
}

/// The numbers for an easing function and an easing type whose names are
/// already in Pascal case.
pub fn easing_indices_from_pascal(easing_function: &str, easing_type: &str) -> (r: (i32, i32))
    ensures
        r == pascal_easing_indices_spec(easing_function@, easing_type@),
{
    let f = match EasingFunction::from_name(easing_function) {
        Some(f) => f,
        None => EasingFunction::Quadratic,
    };
    let t = match EasingType::from_name(easing_type) {
        Some(t) => t,
        None => EasingType::NoEasing,
    };
    (f.code(), t.code())
}

/// The numbers for an easing function and an easing type named in chat
/// (`"cubic"`, `"ease-in"`): each name is put in Pascal case and read as a
/// variant name.
pub fn find_easing_indicies(easing_function: &str, easing_type: &str) -> (r: (i32, i32))
    ensures
        r == pascal_easing_indices_spec(pascal_case(easing_function@), pascal_case(easing_type@)),
{
    let f = to_pascal_case(easing_function);
    let t = to_pascal_case(easing_type);
    easing_indices_from_pascal(f.as_str(), t.as_str())
}


/// Each easing curve and easing type is found by its own name, and its
/// plugin number is the one the chat easing names give it (the curve
/// `Expotential` is the chat name `exponential`, `NoEasing` is `nothing`),
/// so a move eases the same way whichever way it was named.
pub proof fn easing_variants_match_chat_names()
    ensures
        EasingFunction::from_name_spec("Quadratic"@) == Some(EasingFunction::Quadratic),
        EasingFunction::Quadratic.code_spec() == easing_indices_spec("nothing"@, "quadratic"@).1,
        EasingFunction::from_name_spec("Cubic"@) == Some(EasingFunction::Cubic),
        EasingFunction::Cubic.code_spec() == easing_indices_spec("nothing"@, "cubic"@).1,
        EasingFunction::from_name_spec("Quartic"@) == Some(EasingFunction::Quartic),
        EasingFunction::Quartic.code_spec() == easing_indices_spec("nothing"@, "quartic"@).1,
        EasingFunction::from_name_spec("Quintic"@) == Some(EasingFunction::Quintic),
        EasingFunction::Quintic.code_spec() == easing_indices_spec("nothing"@, "quintic"@).1,
        EasingFunction::from_name_spec("Sine"@) == Some(EasingFunction::Sine),
        EasingFunction::Sine.code_spec() == easing_indices_spec("nothing"@, "sine"@).1,
        EasingFunction::from_name_spec("Circular"@) == Some(EasingFunction::Circular),
        EasingFunction::Circular.code_spec() == easing_indices_spec("nothing"@, "circular"@).1,
        EasingFunction::from_name_spec("Expotential"@) == Some(EasingFunction::Expotential),
        EasingFunction::Expotential.code_spec() == easing_indices_spec("nothing"@, "exponential"@).1,
        EasingFunction::from_name_spec("Elastic"@) == Some(EasingFunction::Elastic),
        EasingFunction::Elastic.code_spec() == easing_indices_spec("nothing"@, "elastic"@).1,
        EasingFunction::from_name_spec("Bounce"@) == Some(EasingFunction::Bounce),
        EasingFunction::Bounce.code_spec() == easing_indices_spec("nothing"@, "bounce"@).1,
        EasingFunction::from_name_spec("Back"@) == Some(EasingFunction::Back),
        EasingFunction::Back.code_spec() == easing_indices_spec("nothing"@, "back"@).1,
        EasingType::from_name_spec("NoEasing"@) == Some(EasingType::NoEasing),
        EasingType::NoEasing.code_spec() == easing_indices_spec("nothing"@, "quadratic"@).0,
        EasingType::from_name_spec("EaseIn"@) == Some(EasingType::EaseIn),
        EasingType::EaseIn.code_spec() == easing_indices_spec("ease-in"@, "quadratic"@).0,
        EasingType::from_name_spec("EaseOut"@) == Some(EasingType::EaseOut),
        EasingType::EaseOut.code_spec() == easing_indices_spec("ease-out"@, "quadratic"@).0,
        EasingType::from_name_spec("EaseInAndOut"@) == Some(EasingType::EaseInAndOut),
        EasingType::EaseInAndOut.code_spec() == easing_indices_spec("ease-in-and-out"@, "quadratic"@).0,
{
    reveal_strlit("Quadratic");
    reveal_strlit("Cubic");
    reveal_strlit("Quartic");
    reveal_strlit("Quintic");
    reveal_strlit("Sine");
    reveal_strlit("Circular");
    reveal_strlit("Expotential");
    reveal_strlit("Elastic");
    reveal_strlit("Bounce");
    reveal_strlit("Back");
    reveal_strlit("NoEasing");
    reveal_strlit("EaseIn");
    reveal_strlit("EaseOut");
    reveal_strlit("EaseInAndOut");
    assert("Quadratic"@.len() == 9 && "Quadratic"@[0] == 'Q' && "Quadratic"@[2] == 'a');
    assert("Cubic"@.len() == 5 && "Cubic"@[0] == 'C' && "Cubic"@[2] == 'b');
    assert("Quartic"@.len() == 7 && "Quartic"@[0] == 'Q' && "Quartic"@[2] == 'a');
    assert("Quintic"@.len() == 7 && "Quintic"@[0] == 'Q' && "Quintic"@[2] == 'i');
    assert("Sine"@.len() == 4 && "Sine"@[0] == 'S' && "Sine"@[2] == 'n');
    assert("Circular"@.len() == 8 && "Circular"@[0] == 'C' && "Circular"@[2] == 'r');
    assert("Expotential"@.len() == 11 && "Expotential"@[0] == 'E' && "Expotential"@[2] == 'p');
    assert("Elastic"@.len() == 7 && "Elastic"@[0] == 'E' && "Elastic"@[2] == 'a');
    assert("Bounce"@.len() == 6 && "Bounce"@[0] == 'B' && "Bounce"@[2] == 'u');
    assert("Back"@.len() == 4 && "Back"@[0] == 'B' && "Back"@[2] == 'c');
    assert("NoEasing"@.len() == 8 && "NoEasing"@[0] == 'N' && "NoEasing"@[2] == 'E');
    assert("EaseIn"@.len() == 6 && "EaseIn"@[0] == 'E' && "EaseIn"@[2] == 's');
    assert("EaseOut"@.len() == 7 && "EaseOut"@[0] == 'E' && "EaseOut"@[2] == 's');
    assert("EaseInAndOut"@.len() == 12 && "EaseInAndOut"@[0] == 'E' && "EaseInAndOut"@[2] == 's');
    easing_names_have_their_codes("nothing"@, "quadratic"@);
    easing_names_have_their_codes("nothing"@, "quadratic"@);
    easing_names_have_their_codes("nothing"@, "cubic"@);
    easing_names_have_their_codes("nothing"@, "quartic"@);
    easing_names_have_their_codes("nothing"@, "quintic"@);
    easing_names_have_their_codes("nothing"@, "sine"@);
    easing_names_have_their_codes("nothing"@, "circular"@);
    easing_names_have_their_codes("nothing"@, "exponential"@);
    easing_names_have_their_codes("nothing"@, "elastic"@);
    easing_names_have_their_codes("nothing"@, "bounce"@);
    easing_names_have_their_codes("nothing"@, "back"@);
    easing_names_have_their_codes("nothing"@, "quadratic"@);
    easing_names_have_their_codes("ease-in"@, "quadratic"@);
    easing_names_have_their_codes("ease-out"@, "quadratic"@);
    easing_names_have_their_codes("ease-in-and-out"@, "quadratic"@);
}

} // verus!
