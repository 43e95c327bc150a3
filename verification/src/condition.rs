use vstd::prelude::*;

verus! {

/// One of the ten mutually exclusive craft-wide modifiers.
#[derive(Copy, Clone, Debug, PartialEq, Eq, Structural)]
pub enum Condition {
    Normal,
    Good,
    Excellent,
    Poor,
    Centered,
    Sturdy,
    Pliant,
    Malleable,
    Primed,
    GoodOmen,
}

impl Condition {
    /// The bit that stands for this condition in a recipe's mask of enabled
    /// conditions.
    pub open spec fn spec_flag(self) -> u16 {
        match self {
            Condition::Normal => 0x0001,
            Condition::Good => 0x0002,
            Condition::Excellent => 0x0004,
            Condition::Poor => 0x0008,
            Condition::Centered => 0x0010,
            Condition::Sturdy => 0x0020,
            Condition::Pliant => 0x0040,
            Condition::Malleable => 0x0080,
            Condition::Primed => 0x0100,
            Condition::GoodOmen => 0x0200,
        }
    }

    /// The bit that stands for this condition in a recipe's mask of enabled
    /// conditions.
    pub fn flag(self) -> (r: u16)
        ensures
            r == self.spec_flag(),
    {
        match self {
            Condition::Normal => 0x0001,
            Condition::Good => 0x0002,
            Condition::Excellent => 0x0004,
            Condition::Poor => 0x0008,
            Condition::Centered => 0x0010,
            Condition::Sturdy => 0x0020,
            Condition::Pliant => 0x0040,
            Condition::Malleable => 0x0080,
            Condition::Primed => 0x0100,
            Condition::GoodOmen => 0x0200,
        }
    }
}

impl Condition {
    /// Whether a recipe with the mask `conditions_flag` enables this
    /// condition. The normal condition is always enabled.
    pub open spec fn spec_is_enabled(self, conditions_flag: u16) -> bool {
        self == Condition::Normal || conditions_flag & self.spec_flag() != 0
    }

    /// Whether a recipe with the mask `conditions_flag` enables this
    /// condition.
    pub fn is_enabled(self, conditions_flag: u16) -> (r: bool)
        ensures
            r == self.spec_is_enabled(conditions_flag),
    {
        match self {
            Condition::Normal => true,
            _ => conditions_flag & self.flag() != 0,
        }
    }
}

impl Default for Condition {
    fn default() -> (r: Self)
        ensures
            r == Condition::Normal,
    {
        Condition::Normal
    }
}

} // verus!
