use vstd::prelude::*;

verus! {

/// The static target of a craft.
#[derive(Copy, Clone, Debug, PartialEq, Eq, Hash, Structural)]
pub struct Recipe {
    pub rlvl: u32,
    pub level: u8,
    pub progress_max: u32,
    pub quality_max: u32,
    pub durability_max: i8,
    pub progress_divider: u32,
    pub progress_modifier: u32,
    pub quality_divider: u32,
    pub quality_modifier: u32,
    pub is_expert: bool,
    pub conditions_flag: u16,
}

} // verus!
