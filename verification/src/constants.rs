//! The months and days of the Hijri calendar that the rules name.

use vstd::prelude::*;

verus! {

/// Muharram, the first month.
pub const MONTH_MUHARRAM: usize = 1;

/// Ramadhan, the month of the obligatory fast.
pub const MONTH_RAMADHAN: usize = 9;

/// Shawwal, the month after Ramadhan.
pub const MONTH_SHAWWAL: usize = 10;

/// Dhul-Hijjah, the month of the pilgrimage.
pub const MONTH_DHUL_HIJJAH: usize = 12;

/// The day of Tasu'a, in Muharram.
pub const DAY_TASUA: usize = 9;

/// The day of Ashura, in Muharram.
pub const DAY_ASHURA: usize = 10;

/// The day of Arafah, in Dhul-Hijjah.
pub const DAY_ARAFAH: usize = 9;

/// The day of Eid al-Fitr, in Shawwal.
pub const DAY_EID_AL_FITR: usize = 1;

/// The day of Eid al-Adha, in Dhul-Hijjah.
pub const DAY_EID_AL_ADHA: usize = 10;

/// The first of the days of Tashriq, in Dhul-Hijjah.
pub const FIRST_DAY_OF_TASHRIQ: usize = 11;

/// The last of the days of Tashriq, in Dhul-Hijjah.
pub const LAST_DAY_OF_TASHRIQ: usize = 13;

/// The first of the white days of each month.
pub const FIRST_WHITE_DAY: usize = 13;

/// The last of the white days of each month.
pub const LAST_WHITE_DAY: usize = 15;

} // verus!
