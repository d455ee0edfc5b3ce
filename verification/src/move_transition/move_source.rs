//! Move-source filters: how a transform is applied (absolutely or relative
//! to where the source is).
use vstd::prelude::*;

verus! {

/// How a move-source value combines with the source's current one.
#[derive(PartialEq, Eq, Structural, Clone, Copy, Debug)]
pub enum Sign {
    Nothing,
    Positive,
    Negative,
    Multiply,
    Divide,
}

impl Default for Sign {
    fn default() -> (r: Self)
        ensures
            r == Sign::Nothing,
    {
        Sign::Nothing
    }
}

impl Sign {
    /// The plugin's symbol for the sign.
    pub open spec fn symbol(self) -> Seq<char> {
        match self {
            Sign::Nothing => " "@,
            Sign::Positive => "+"@,
            Sign::Negative => "-"@,
            Sign::Multiply => "*"@,
            Sign::Divide => "/"@,
        }
    }

    /// The plugin's symbol for the sign.
    pub fn as_str(&self) -> (s: &'static str)
        ensures
            s@ == self.symbol(),
    {
        match self {
            Sign::Nothing => " ",
            Sign::Positive => "+",
            Sign::Negative => "-",
            Sign::Multiply => "*",
            Sign::Divide => "/",
        }
    }

    /// The sign written as text (its symbol).
    pub fn to_text(&self) -> (s: String)
        ensures
            s@ == self.symbol(),
    {
        crate::text::owned(self.as_str())
    }
}

/// The signs a move-source transform is built with: a relative transform
/// adds to the position and multiplies the scale; otherwise both are
/// absolute. An unset flag counts as absolute.
pub open spec fn transform_signs_spec(relative_transform: Option<bool>) -> (Sign, Sign) {
    if relative_transform == Some(true) {
        (Sign::Positive, Sign::Multiply)
    } else {
        (Sign::Nothing, Sign::Nothing)
    }
}

/// The (position sign, scale sign) of a move-source transform.
pub fn transform_signs(relative_transform: Option<bool>) -> (r: (Sign, Sign))
    ensures
        r == transform_signs_spec(relative_transform),
{
    let relative = match relative_transform {
        Some(b) => b,
        None => false,
    };
    if relative {
        (Sign::Positive, Sign::Multiply)
    } else {
        (Sign::Nothing, Sign::Nothing)
    }
}


/// Each sign has its own symbol, and a relative transform adds to the
/// position and multiplies the scale while an absolute one sets both.
pub proof fn signs_are_distinct(a: Sign, b: Sign, relative: Option<bool>)
    ensures
        a != b ==> a.symbol() != b.symbol(),
        relative == Some(true) ==> transform_signs_spec(relative) == (Sign::Positive, Sign::Multiply),
        relative != Some(true) ==> transform_signs_spec(relative) == (Sign::Nothing, Sign::Nothing),
{
    reveal_strlit(" ");
    reveal_strlit("+");
    reveal_strlit("-");
    reveal_strlit("*");
    reveal_strlit("/");
    assert(" "@.len() == 1 && " "@[0] == ' ');
    assert("+"@.len() == 1 && "+"@[0] == '+');
    assert("-"@.len() == 1 && "-"@[0] == '-');
    assert("*"@.len() == 1 && "*"@[0] == '*');
    assert("/"@.len() == 1 && "/"@[0] == '/');
}

} // verus!
