use vstd::prelude::*;

verus! {

/// The static stats of the crafter.
#[derive(Copy, Clone, Debug, PartialEq, Eq, Structural)]
pub struct Player {
    pub craftsmanship: u32,
    pub control: u32,
    pub cp: u32,
    pub level: u8,
    pub can_use_manipulation: bool,
    pub has_splendorous_tool: bool,
    pub is_specialist: bool,
}

/// The highest job level that has a crafter level.
pub const MAX_LEVEL: u8 = 90;

/// The crafter level that belongs to a job level: none up to 50, and from 51
/// to 90 what the table gives.
pub open spec fn spec_clvl(level: u8) -> Option<u32> {
    if level <= 50 || level > 90 {
        None
    } else {
        Some(
            match level {
                51u8 => 120u32,
                52u8 => 125,
                53u8 => 130,
                54u8 => 133,
                55u8 => 136,
                56u8 => 139,
                57u8 => 142,
                58u8 => 145,
                59u8 => 148,
                60u8 => 150,
                61u8 => 260,
                62u8 => 265,
                63u8 => 270,
                64u8 => 273,
                65u8 => 276,
                66u8 => 279,
                67u8 => 282,
                68u8 => 285,
                69u8 => 288,
                70u8 => 290,
                71u8 => 390,
                72u8 => 395,
                73u8 => 400,
                74u8 => 403,
                75u8 => 406,
                76u8 => 409,
                77u8 => 412,
                78u8 => 415,
                79u8 => 418,
                80u8 => 420,
                81u8 => 517,
                82u8 => 520,
                83u8 => 525,
                84u8 => 530,
                85u8 => 535,
                86u8 => 540,
                87u8 => 545,
                88u8 => 550,
                89u8 => 555,
                _ => 560,
            },
        )
    }
}

impl Player {
    /// A player of the given job level and stats, with no permission or tool.
    pub fn new(job_level: u8, craftsmanship: u32, control: u32, cp: u32) -> (r: Self)
        ensures
            r == (Player {
                craftsmanship,
                control,
                cp,
                level: job_level,
                can_use_manipulation: false,
                has_splendorous_tool: false,
                is_specialist: false,
            }),
    {
        Player {
            craftsmanship,
            control,
            cp,
            level: job_level,
            can_use_manipulation: false,
            has_splendorous_tool: false,
            is_specialist: false,
        }
    }

    /// The crafter level of the player. Job levels above 90 have none defined
    /// and are left out.
    pub fn clvl(&self) -> (r: Option<u32>)
        requires
            self.level <= MAX_LEVEL,
        ensures
            r == spec_clvl(self.level),
            r is None <==> self.level <= 50,
    {
        let level = self.level;
        if level <= 50 {
            None
        } else if level <= 60 {
            let below: [u32; 10] = [120, 125, 130, 133, 136, 139, 142, 145, 148, 150];
            Some(below[(level - 51) as usize])
        } else if level <= 70 {
            let below: [u32; 10] = [260, 265, 270, 273, 276, 279, 282, 285, 288, 290];
            Some(below[(level - 61) as usize])
        } else if level <= 80 {
            let below: [u32; 10] = [390, 395, 400, 403, 406, 409, 412, 415, 418, 420];
            Some(below[(level - 71) as usize])
        } else {
            let below: [u32; 10] = [517, 520, 525, 530, 535, 540, 545, 550, 555, 560];
            Some(below[(level - 81) as usize])
        }
    }
}

impl Default for Player {
    fn default() -> (r: Self)
        ensures
            r == (Player {
                craftsmanship: 0,
                control: 0,
                cp: 0,
                level: 0,
                can_use_manipulation: false,
                has_splendorous_tool: false,
                is_specialist: false,
            }),
    {
        Player {
            craftsmanship: 0,
            control: 0,
            cp: 0,
            level: 0,
            can_use_manipulation: false,
            has_splendorous_tool: false,
            is_specialist: false,
        }
    }
}

} // verus!
