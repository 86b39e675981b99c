//! The phone inventory and its parameter-target tables.

use vstd::prelude::*;
use vstd::string::StrSliceExecFns;

verus! {

/// Phones ("phonetic segments", commonly called allophones), listed in
/// alphabetical order of their names.
#[derive(Clone, Copy, Debug, PartialEq, Eq, Structural)]
pub enum Phone {
    Aa,
    Ae,
    Ah,
    Ao,
    Aw,
    Ax,
    Axp,
    Axr,
    Ay,
    Bb,
    Ch,
    Dd,
    Dh,
    Dx,
    Eh,
    El,
    Em,
    En,
    Er,
    Exr,
    Ey,
    Ff,
    Gg,
    Gp,
    Hh,
    Hx,
    Ih,
    Ix,
    Ixr,
    Iy,
    Jj,
    Kk,
    Kp,
    Ll,
    Lx,
    Mm,
    Ng,
    Nn,
    Ow,
    Oxr,
    Oy,
    Pp,
    Qq,
    Rr,
    Rx,
    Sh,
    Sil,
    Ss,
    Th,
    Tq,
    Tt,
    Uh,
    Uw,
    Uxr,
    Vv,
    Wh,
    Ww,
    Yu,
    Yy,
    Zh,
    Zz,
}

/// A full set of synthesis parameter targets for one phone: source
/// amplitudes in decibels and formant frequencies and bandwidths in hertz.
#[derive(Clone, Copy, Debug, PartialEq, Eq, Structural)]
pub struct ParamTarget {
    pub av: u8,
    pub avc: u8,
    pub asp: u8,
    pub af: u8,
    pub a2: u8,
    pub a3: u8,
    pub a4: u8,
    pub a5: u8,
    pub a6: u8,
    pub ab: u8,
    pub f1: u16,
    pub f2: u16,
    pub f3: u16,
    pub f4: u16,
    pub b1: u16,
    pub b2: u16,
    pub b3: u16,
}

/// The formant frequencies a vocalic phone glides in from.
#[derive(Clone, Copy, Debug, PartialEq, Eq, Structural)]
pub struct ParamTargetGlide {
    pub f1: u16,
    pub f2: u16,
    pub f3: u16,
}

impl ParamTarget {
    /// Build a target row; the argument order follows the printed tables.
    #[allow(clippy::too_many_arguments)]
    pub fn new(av: u8, avc: u8, asp: u8, af: u8, a2: u8, a3: u8, a4: u8, a5: u8, a6: u8, ab: u8, f1: u16, f2: u16, f3: u16, f4: u16, b1: u16, b2: u16, b3: u16) -> (r: Self)
        ensures
            r == (ParamTarget { av: av, avc: avc, asp: asp, af: af, a2: a2, a3: a3, a4: a4, a5: a5, a6: a6, ab: ab, f1: f1, f2: f2, f3: f3, f4: f4, b1: b1, b2: b2, b3: b3 }),
    {
        ParamTarget { av, avc, asp, af, a2, a3, a4, a5, a6, ab, f1, f2, f3, f4, b1, b2, b3 }
    }
}

impl ParamTargetGlide {
    /// Build a glide row from its three formant frequencies.
    pub fn new(f1: u16, f2: u16, f3: u16) -> (r: Self)
        ensures
            r == (ParamTargetGlide { f1: f1, f2: f2, f3: f3 }),
    {
        ParamTargetGlide { f1, f2, f3 }
    }
}

/// The nonvocalic table as a value: targets for consonants and silence.
pub open spec fn spec_nonvocalic_target(phone: Phone) -> Option<ParamTarget> {
    match phone {
        Phone::Axp => Some(ParamTarget { av: 57, avc: 60, asp: 0, af: 0, a2: 60, a3: 60, a4: 60, a5: 60, a6: 60, ab: 0, f1: 430, f2: 1500, f3: 2500, f4: 3300, b1: 120, b2: 60, b3: 120 }),
        Phone::Bb => Some(ParamTarget { av: 0, avc: 54, asp: 0, af: 0, a2: 0, a3: 0, a4: 0, a5: 0, a6: 0, ab: 72, f1: 200, f2: 900, f3: 2100, f4: 3300, b1: 65, b2: 90, b3: 125 }),
        Phone::Ch => Some(ParamTarget { av: 0, avc: 0, asp: 0, af: 0, a2: 0, a3: 60, a4: 75, a5: 70, a6: 70, ab: 0, f1: 300, f2: 1700, f3: 2400, f4: 3300, b1: 200, b2: 110, b3: 270 }),
        Phone::Dd => Some(ParamTarget { av: 0, avc: 54, asp: 0, af: 0, a2: 0, a3: 0, a4: 0, a5: 50, a6: 82, ab: 0, f1: 200, f2: 900, f3: 2100, f4: 3300, b1: 65, b2: 90, b3: 125 }),
        Phone::Dh => Some(ParamTarget { av: 36, avc: 54, asp: 0, af: 60, a2: 0, a3: 0, a4: 0, a5: 0, a6: 30, ab: 54, f1: 300, f2: 1150, f3: 2700, f4: 3300, b1: 60, b2: 95, b3: 185 }),
        Phone::Dx => Some(ParamTarget { av: 44, avc: 60, asp: 0, af: 0, a2: 60, a3: 60, a4: 60, a5: 60, a6: 60, ab: 0, f1: 200, f2: 1600, f3: 2700, f4: 3300, b1: 60, b2: 95, b3: 185 }),
        Phone::El => Some(ParamTarget { av: 57, avc: 57, asp: 0, af: 0, a2: 60, a3: 60, a4: 60, a5: 60, a6: 60, ab: 0, f1: 450, f2: 800, f3: 2850, f4: 3000, b1: 65, b2: 60, b3: 80 }),
        Phone::Em => Some(ParamTarget { av: 51, avc: 57, asp: 0, af: 0, a2: 60, a3: 60, a4: 60, a5: 60, a6: 60, ab: 0, f1: 200, f2: 900, f3: 2100, f4: 3300, b1: 120, b2: 60, b3: 70 }),
        Phone::En => Some(ParamTarget { av: 51, avc: 57, asp: 0, af: 0, a2: 60, a3: 60, a4: 60, a5: 60, a6: 60, ab: 0, f1: 200, f2: 1600, f3: 2700, f4: 3300, b1: 120, b2: 70, b3: 110 }),
        Phone::Ff => Some(ParamTarget { av: 0, avc: 0, asp: 31, af: 60, a2: 0, a3: 0, a4: 0, a5: 0, a6: 0, ab: 64, f1: 400, f2: 1130, f3: 2100, f4: 3300, b1: 225, b2: 120, b3: 175 }),
        Phone::Gg => Some(ParamTarget { av: 0, avc: 54, asp: 0, af: 0, a2: 70, a3: 30, a4: 30, a5: 60, a6: 10, ab: 0, f1: 250, f2: 1600, f3: 1900, f4: 3300, b1: 70, b2: 1450, b3: 190 }),
        Phone::Gp => Some(ParamTarget { av: 0, avc: 54, asp: 0, af: 0, a2: 30, a3: 70, a4: 60, a5: 62, a6: 62, ab: 0, f1: 200, f2: 1950, f3: 2800, f4: 3300, b1: 120, b2: 140, b3: 250 }),
        Phone::Hh => Some(ParamTarget { av: 0, avc: 0, asp: 60, af: 0, a2: 60, a3: 60, a4: 60, a5: 60, a6: 60, ab: 0, f1: 450, f2: 1450, f3: 2450, f4: 3300, b1: 300, b2: 160, b3: 300 }),
        Phone::Hx => Some(ParamTarget { av: 44, avc: 60, asp: 57, af: 0, a2: 60, a3: 60, a4: 60, a5: 60, a6: 60, ab: 0, f1: 450, f2: 1450, f3: 2450, f4: 3300, b1: 200, b2: 120, b3: 200 }),
        Phone::Jj => Some(ParamTarget { av: 0, avc: 54, asp: 0, af: 0, a2: 0, a3: 60, a4: 75, a5: 70, a6: 70, ab: 0, f1: 200, f2: 1700, f3: 2400, f4: 3300, b1: 50, b2: 110, b3: 270 }),
        Phone::Kk => Some(ParamTarget { av: 0, avc: 0, asp: 0, af: 0, a2: 73, a3: 30, a4: 30, a5: 60, a6: 10, ab: 0, f1: 350, f2: 1600, f3: 1900, f4: 3300, b1: 280, b2: 220, b3: 250 }),
        Phone::Kp => Some(ParamTarget { av: 0, avc: 0, asp: 0, af: 0, a2: 30, a3: 70, a4: 60, a5: 62, a6: 62, ab: 0, f1: 300, f2: 1950, f3: 2800, f4: 3300, b1: 150, b2: 140, b3: 250 }),
        Phone::Ll => Some(ParamTarget { av: 50, avc: 57, asp: 0, af: 0, a2: 60, a3: 60, a4: 60, a5: 60, a6: 60, ab: 0, f1: 330, f2: 1050, f3: 2800, f4: 3300, b1: 50, b2: 100, b3: 280 }),
        Phone::Lx => Some(ParamTarget { av: 57, avc: 57, asp: 0, af: 0, a2: 60, a3: 60, a4: 60, a5: 60, a6: 60, ab: 0, f1: 450, f2: 800, f3: 2850, f4: 3300, b1: 65, b2: 60, b3: 80 }),
        Phone::Mm => Some(ParamTarget { av: 51, avc: 57, asp: 0, af: 0, a2: 60, a3: 60, a4: 60, a5: 60, a6: 60, ab: 0, f1: 480, f2: 1050, f3: 2100, f4: 3300, b1: 40, b2: 175, b3: 120 }),
        Phone::Ng => Some(ParamTarget { av: 51, avc: 57, asp: 0, af: 0, a2: 60, a3: 60, a4: 60, a5: 60, a6: 60, ab: 0, f1: 480, f2: 1600, f3: 2050, f4: 3300, b1: 160, b2: 150, b3: 100 }),
        Phone::Nn => Some(ParamTarget { av: 51, avc: 57, asp: 0, af: 0, a2: 60, a3: 60, a4: 60, a5: 60, a6: 60, ab: 0, f1: 480, f2: 1400, f3: 2700, f4: 3300, b1: 40, b2: 300, b3: 260 }),
        Phone::Pp => Some(ParamTarget { av: 0, avc: 0, asp: 0, af: 0, a2: 0, a3: 0, a4: 0, a5: 0, a6: 0, ab: 72, f1: 300, f2: 900, f3: 2100, f4: 3300, b1: 300, b2: 190, b3: 185 }),
        Phone::Qq => Some(ParamTarget { av: 0, avc: 0, asp: 0, af: 0, a2: 60, a3: 60, a4: 60, a5: 60, a6: 60, ab: 0, f1: 400, f2: 1400, f3: 2450, f4: 3300, b1: 120, b2: 140, b3: 250 }),
        Phone::Rr => Some(ParamTarget { av: 50, avc: 57, asp: 0, af: 0, a2: 60, a3: 60, a4: 60, a5: 60, a6: 60, ab: 0, f1: 330, f2: 1060, f3: 1380, f4: 3300, b1: 70, b2: 100, b3: 120 }),
        Phone::Rx => Some(ParamTarget { av: 50, avc: 57, asp: 0, af: 0, a2: 60, a3: 60, a4: 60, a5: 60, a6: 60, ab: 0, f1: 460, f2: 1260, f3: 1560, f4: 3300, b1: 60, b2: 60, b3: 70 }),
        Phone::Sh => Some(ParamTarget { av: 0, avc: 0, asp: 31, af: 60, a2: 0, a3: 60, a4: 75, a5: 70, a6: 70, ab: 0, f1: 400, f2: 1650, f3: 2400, f4: 3300, b1: 200, b2: 110, b3: 280 }),
        Phone::Sil => Some(ParamTarget { av: 0, avc: 0, asp: 0, af: 0, a2: 60, a3: 60, a4: 60, a5: 60, a6: 60, ab: 0, f1: 400, f2: 1400, f3: 2400, f4: 3300, b1: 120, b2: 140, b3: 250 }),
        Phone::Ss => Some(ParamTarget { av: 0, avc: 0, asp: 31, af: 60, a2: 0, a3: 0, a4: 0, a5: 50, a6: 82, ab: 0, f1: 400, f2: 1400, f3: 2700, f4: 3300, b1: 200, b2: 95, b3: 220 }),
        Phone::Th => Some(ParamTarget { av: 0, avc: 0, asp: 31, af: 60, a2: 0, a3: 0, a4: 0, a5: 0, a6: 30, ab: 54, f1: 400, f2: 1400, f3: 2700, f4: 3300, b1: 225, b2: 95, b3: 200 }),
        Phone::Tq => Some(ParamTarget { av: 0, avc: 0, asp: 0, af: 0, a2: 0, a3: 0, a4: 0, a5: 50, a6: 82, ab: 0, f1: 200, f2: 1400, f3: 2700, f4: 3300, b1: 120, b2: 140, b3: 250 }),
        Phone::Tt => Some(ParamTarget { av: 0, avc: 0, asp: 0, af: 0, a2: 0, a3: 0, a4: 0, a5: 50, a6: 82, ab: 0, f1: 200, f2: 1400, f3: 2700, f4: 3300, b1: 300, b2: 120, b3: 220 }),
        Phone::Vv => Some(ParamTarget { av: 40, avc: 54, asp: 0, af: 60, a2: 0, a3: 0, a4: 0, a5: 0, a6: 0, ab: 64, f1: 300, f2: 1130, f3: 2100, f4: 3300, b1: 55, b2: 95, b3: 125 }),
        Phone::Wh => Some(ParamTarget { av: 0, avc: 57, asp: 51, af: 0, a2: 60, a3: 60, a4: 60, a5: 60, a6: 60, ab: 0, f1: 330, f2: 600, f3: 2100, f4: 3300, b1: 150, b2: 60, b3: 60 }),
        Phone::Ww => Some(ParamTarget { av: 50, avc: 57, asp: 0, af: 0, a2: 60, a3: 60, a4: 60, a5: 60, a6: 60, ab: 0, f1: 285, f2: 610, f3: 2150, f4: 3300, b1: 50, b2: 80, b3: 60 }),
        Phone::Yy => Some(ParamTarget { av: 50, avc: 57, asp: 0, af: 0, a2: 60, a3: 60, a4: 60, a5: 60, a6: 60, ab: 0, f1: 240, f2: 2070, f3: 3020, f4: 3300, b1: 220, b2: 140, b3: 250 }),
        Phone::Zh => Some(ParamTarget { av: 40, avc: 54, asp: 0, af: 60, a2: 0, a3: 60, a4: 75, a5: 70, a6: 70, ab: 0, f1: 300, f2: 1650, f3: 2400, f4: 3300, b1: 220, b2: 140, b3: 250 }),
        Phone::Zz => Some(ParamTarget { av: 40, avc: 54, asp: 0, af: 60, a2: 0, a3: 0, a4: 0, a5: 50, a6: 82, ab: 0, f1: 300, f2: 1400, f3: 2700, f4: 3300, b1: 70, b2: 85, b3: 190 }),
        _ => None,
    }
}

/// Parameter targets for consonants and silence; None for a vocalic phone.
pub fn nonvocalic_target(phone: Phone) -> (r: Option<ParamTarget>)
    ensures
        r == spec_nonvocalic_target(phone),
{
    match phone {
        Phone::Axp => Some(ParamTarget::new(57, 60, 0, 0, 60, 60, 60, 60, 60, 0, 430, 1500, 2500, 3300, 120, 60, 120)),
        Phone::Bb => Some(ParamTarget::new(0, 54, 0, 0, 0, 0, 0, 0, 0, 72, 200, 900, 2100, 3300, 65, 90, 125)),
        Phone::Ch => Some(ParamTarget::new(0, 0, 0, 0, 0, 60, 75, 70, 70, 0, 300, 1700, 2400, 3300, 200, 110, 270)),
        Phone::Dd => Some(ParamTarget::new(0, 54, 0, 0, 0, 0, 0, 50, 82, 0, 200, 900, 2100, 3300, 65, 90, 125)),
        Phone::Dh => Some(ParamTarget::new(36, 54, 0, 60, 0, 0, 0, 0, 30, 54, 300, 1150, 2700, 3300, 60, 95, 185)),
        Phone::Dx => Some(ParamTarget::new(44, 60, 0, 0, 60, 60, 60, 60, 60, 0, 200, 1600, 2700, 3300, 60, 95, 185)),
        Phone::El => Some(ParamTarget::new(57, 57, 0, 0, 60, 60, 60, 60, 60, 0, 450, 800, 2850, 3000, 65, 60, 80)),
        Phone::Em => Some(ParamTarget::new(51, 57, 0, 0, 60, 60, 60, 60, 60, 0, 200, 900, 2100, 3300, 120, 60, 70)),
        Phone::En => Some(ParamTarget::new(51, 57, 0, 0, 60, 60, 60, 60, 60, 0, 200, 1600, 2700, 3300, 120, 70, 110)),
        Phone::Ff => Some(ParamTarget::new(0, 0, 31, 60, 0, 0, 0, 0, 0, 64, 400, 1130, 2100, 3300, 225, 120, 175)),
        Phone::Gg => Some(ParamTarget::new(0, 54, 0, 0, 70, 30, 30, 60, 10, 0, 250, 1600, 1900, 3300, 70, 1450, 190)),
        Phone::Gp => Some(ParamTarget::new(0, 54, 0, 0, 30, 70, 60, 62, 62, 0, 200, 1950, 2800, 3300, 120, 140, 250)),
        Phone::Hh => Some(ParamTarget::new(0, 0, 60, 0, 60, 60, 60, 60, 60, 0, 450, 1450, 2450, 3300, 300, 160, 300)),
        Phone::Hx => Some(ParamTarget::new(44, 60, 57, 0, 60, 60, 60, 60, 60, 0, 450, 1450, 2450, 3300, 200, 120, 200)),
        Phone::Jj => Some(ParamTarget::new(0, 54, 0, 0, 0, 60, 75, 70, 70, 0, 200, 1700, 2400, 3300, 50, 110, 270)),
        Phone::Kk => Some(ParamTarget::new(0, 0, 0, 0, 73, 30, 30, 60, 10, 0, 350, 1600, 1900, 3300, 280, 220, 250)),
        Phone::Kp => Some(ParamTarget::new(0, 0, 0, 0, 30, 70, 60, 62, 62, 0, 300, 1950, 2800, 3300, 150, 140, 250)),
        Phone::Ll => Some(ParamTarget::new(50, 57, 0, 0, 60, 60, 60, 60, 60, 0, 330, 1050, 2800, 3300, 50, 100, 280)),
        Phone::Lx => Some(ParamTarget::new(57, 57, 0, 0, 60, 60, 60, 60, 60, 0, 450, 800, 2850, 3300, 65, 60, 80)),
        Phone::Mm => Some(ParamTarget::new(51, 57, 0, 0, 60, 60, 60, 60, 60, 0, 480, 1050, 2100, 3300, 40, 175, 120)),
        Phone::Ng => Some(ParamTarget::new(51, 57, 0, 0, 60, 60, 60, 60, 60, 0, 480, 1600, 2050, 3300, 160, 150, 100)),
        Phone::Nn => Some(ParamTarget::new(51, 57, 0, 0, 60, 60, 60, 60, 60, 0, 480, 1400, 2700, 3300, 40, 300, 260)),
        Phone::Pp => Some(ParamTarget::new(0, 0, 0, 0, 0, 0, 0, 0, 0, 72, 300, 900, 2100, 3300, 300, 190, 185)),
        Phone::Qq => Some(ParamTarget::new(0, 0, 0, 0, 60, 60, 60, 60, 60, 0, 400, 1400, 2450, 3300, 120, 140, 250)),
        Phone::Rr => Some(ParamTarget::new(50, 57, 0, 0, 60, 60, 60, 60, 60, 0, 330, 1060, 1380, 3300, 70, 100, 120)),
        Phone::Rx => Some(ParamTarget::new(50, 57, 0, 0, 60, 60, 60, 60, 60, 0, 460, 1260, 1560, 3300, 60, 60, 70)),
        Phone::Sh => Some(ParamTarget::new(0, 0, 31, 60, 0, 60, 75, 70, 70, 0, 400, 1650, 2400, 3300, 200, 110, 280)),
        Phone::Sil => Some(ParamTarget::new(0, 0, 0, 0, 60, 60, 60, 60, 60, 0, 400, 1400, 2400, 3300, 120, 140, 250)),
        Phone::Ss => Some(ParamTarget::new(0, 0, 31, 60, 0, 0, 0, 50, 82, 0, 400, 1400, 2700, 3300, 200, 95, 220)),
        Phone::Th => Some(ParamTarget::new(0, 0, 31, 60, 0, 0, 0, 0, 30, 54, 400, 1400, 2700, 3300, 225, 95, 200)),
        Phone::Tq => Some(ParamTarget::new(0, 0, 0, 0, 0, 0, 0, 50, 82, 0, 200, 1400, 2700, 3300, 120, 140, 250)),
        Phone::Tt => Some(ParamTarget::new(0, 0, 0, 0, 0, 0, 0, 50, 82, 0, 200, 1400, 2700, 3300, 300, 120, 220)),
        Phone::Vv => Some(ParamTarget::new(40, 54, 0, 60, 0, 0, 0, 0, 0, 64, 300, 1130, 2100, 3300, 55, 95, 125)),
        Phone::Wh => Some(ParamTarget::new(0, 57, 51, 0, 60, 60, 60, 60, 60, 0, 330, 600, 2100, 3300, 150, 60, 60)),
        Phone::Ww => Some(ParamTarget::new(50, 57, 0, 0, 60, 60, 60, 60, 60, 0, 285, 610, 2150, 3300, 50, 80, 60)),
        Phone::Yy => Some(ParamTarget::new(50, 57, 0, 0, 60, 60, 60, 60, 60, 0, 240, 2070, 3020, 3300, 220, 140, 250)),
        Phone::Zh => Some(ParamTarget::new(40, 54, 0, 60, 0, 60, 75, 70, 70, 0, 300, 1650, 2400, 3300, 220, 140, 250)),
        Phone::Zz => Some(ParamTarget::new(40, 54, 0, 60, 0, 0, 0, 50, 82, 0, 300, 1400, 2700, 3300, 70, 85, 190)),
        _ => None,
    }
}

/// The vocalic table as a value: targets for vowels and diphthongs.
pub open spec fn spec_vocalic_target(phone: Phone) -> Option<ParamTarget> {
    match phone {
        Phone::Aa => Some(ParamTarget { av: 57, avc: 57, asp: 0, af: 0, a2: 60, a3: 60, a4: 60, a5: 60, a6: 60, ab: 0, f1: 700, f2: 1220, f3: 2600, f4: 3300, b1: 130, b2: 70, b3: 160 }),
        Phone::Ae => Some(ParamTarget { av: 57, avc: 57, asp: 0, af: 0, a2: 60, a3: 60, a4: 60, a5: 60, a6: 60, ab: 0, f1: 620, f2: 1660, f3: 2430, f4: 3300, b1: 70, b2: 130, b3: 300 }),
        Phone::Ah => Some(ParamTarget { av: 59, avc: 59, asp: 0, af: 0, a2: 60, a3: 60, a4: 60, a5: 60, a6: 60, ab: 0, f1: 620, f2: 1220, f3: 2550, f4: 3300, b1: 80, b2: 50, b3: 140 }),
        Phone::Ao => Some(ParamTarget { av: 58, avc: 58, asp: 0, af: 0, a2: 60, a3: 60, a4: 60, a5: 60, a6: 60, ab: 0, f1: 600, f2: 990, f3: 2570, f4: 3300, b1: 90, b2: 100, b3: 80 }),
        Phone::Aw => Some(ParamTarget { av: 57, avc: 57, asp: 0, af: 0, a2: 60, a3: 60, a4: 60, a5: 60, a6: 60, ab: 0, f1: 640, f2: 1230, f3: 2550, f4: 3300, b1: 70, b2: 70, b3: 110 }),
        Phone::Ax => Some(ParamTarget { av: 60, avc: 60, asp: 0, af: 0, a2: 60, a3: 60, a4: 60, a5: 60, a6: 60, ab: 0, f1: 550, f2: 1260, f3: 2470, f4: 3300, b1: 80, b2: 50, b3: 140 }),
        Phone::Axr => Some(ParamTarget { av: 60, avc: 60, asp: 0, af: 0, a2: 60, a3: 60, a4: 60, a5: 60, a6: 60, ab: 0, f1: 680, f2: 1170, f3: 2380, f4: 3300, b1: 60, b2: 60, b3: 110 }),
        Phone::Ay => Some(ParamTarget { av: 58, avc: 58, asp: 0, af: 0, a2: 60, a3: 60, a4: 60, a5: 60, a6: 60, ab: 0, f1: 660, f2: 1200, f3: 2550, f4: 3300, b1: 100, b2: 120, b3: 200 }),
        Phone::Eh => Some(ParamTarget { av: 61, avc: 61, asp: 0, af: 0, a2: 60, a3: 60, a4: 60, a5: 60, a6: 60, ab: 0, f1: 530, f2: 1680, f3: 2500, f4: 3300, b1: 60, b2: 90, b3: 200 }),
        Phone::Er => Some(ParamTarget { av: 62, avc: 62, asp: 0, af: 0, a2: 60, a3: 60, a4: 60, a5: 60, a6: 60, ab: 0, f1: 470, f2: 1270, f3: 1540, f4: 3300, b1: 100, b2: 60, b3: 110 }),
        Phone::Exr => Some(ParamTarget { av: 60, avc: 60, asp: 0, af: 0, a2: 60, a3: 60, a4: 60, a5: 60, a6: 60, ab: 0, f1: 460, f2: 1650, f3: 2400, f4: 3300, b1: 60, b2: 80, b3: 140 }),
        Phone::Ey => Some(ParamTarget { av: 59, avc: 59, asp: 0, af: 0, a2: 60, a3: 60, a4: 60, a5: 60, a6: 60, ab: 0, f1: 480, f2: 1720, f3: 2520, f4: 3300, b1: 70, b2: 100, b3: 200 }),
        Phone::Ih => Some(ParamTarget { av: 60, avc: 60, asp: 0, af: 0, a2: 60, a3: 60, a4: 60, a5: 60, a6: 60, ab: 0, f1: 400, f2: 1800, f3: 2670, f4: 3300, b1: 50, b2: 100, b3: 140 }),
        Phone::Ix => Some(ParamTarget { av: 60, avc: 60, asp: 0, af: 0, a2: 60, a3: 60, a4: 60, a5: 60, a6: 60, ab: 0, f1: 420, f2: 1680, f3: 2520, f4: 3300, b1: 50, b2: 100, b3: 140 }),
        Phone::Ixr => Some(ParamTarget { av: 60, avc: 60, asp: 0, af: 0, a2: 60, a3: 60, a4: 60, a5: 60, a6: 60, ab: 0, f1: 320, f2: 1900, f3: 2900, f4: 3300, b1: 70, b2: 80, b3: 120 }),
        Phone::Iy => Some(ParamTarget { av: 60, avc: 60, asp: 0, af: 0, a2: 60, a3: 60, a4: 60, a5: 60, a6: 60, ab: 0, f1: 310, f2: 2200, f3: 2960, f4: 3300, b1: 50, b2: 200, b3: 400 }),
        Phone::Ow => Some(ParamTarget { av: 60, avc: 60, asp: 0, af: 0, a2: 60, a3: 60, a4: 60, a5: 60, a6: 60, ab: 0, f1: 540, f2: 1100, f3: 2300, f4: 3300, b1: 80, b2: 70, b3: 70 }),
        Phone::Oxr => Some(ParamTarget { av: 60, avc: 60, asp: 0, af: 0, a2: 60, a3: 60, a4: 60, a5: 60, a6: 60, ab: 0, f1: 550, f2: 820, f3: 2200, f4: 3300, b1: 60, b2: 60, b3: 60 }),
        Phone::Oy => Some(ParamTarget { av: 62, avc: 62, asp: 0, af: 0, a2: 60, a3: 60, a4: 60, a5: 60, a6: 60, ab: 0, f1: 550, f2: 960, f3: 2400, f4: 3300, b1: 80, b2: 120, b3: 160 }),
        Phone::Uh => Some(ParamTarget { av: 63, avc: 63, asp: 0, af: 0, a2: 60, a3: 60, a4: 60, a5: 60, a6: 60, ab: 0, f1: 450, f2: 1100, f3: 2350, f4: 3300, b1: 80, b2: 100, b3: 80 }),
        Phone::Uw => Some(ParamTarget { av: 64, avc: 64, asp: 0, af: 0, a2: 60, a3: 60, a4: 60, a5: 60, a6: 60, ab: 0, f1: 350, f2: 1250, f3: 2200, f4: 3300, b1: 65, b2: 110, b3: 140 }),
        Phone::Uxr => Some(ParamTarget { av: 60, avc: 60, asp: 0, af: 0, a2: 60, a3: 60, a4: 60, a5: 60, a6: 60, ab: 0, f1: 360, f2: 800, f3: 2000, f4: 3300, b1: 60, b2: 60, b3: 80 }),
        Phone::Yu => Some(ParamTarget { av: 64, avc: 64, asp: 0, af: 0, a2: 60, a3: 60, a4: 60, a5: 60, a6: 60, ab: 0, f1: 290, f2: 1900, f3: 2600, f4: 3300, b1: 70, b2: 160, b3: 220 }),
        _ => None,
    }
}

/// Parameter targets for vowels and diphthongs; None for a nonvocalic phone.
pub fn vocalic_target(phone: Phone) -> (r: Option<ParamTarget>)
    ensures
        r == spec_vocalic_target(phone),
{
    match phone {
        Phone::Aa => Some(ParamTarget::new(57, 57, 0, 0, 60, 60, 60, 60, 60, 0, 700, 1220, 2600, 3300, 130, 70, 160)),
        Phone::Ae => Some(ParamTarget::new(57, 57, 0, 0, 60, 60, 60, 60, 60, 0, 620, 1660, 2430, 3300, 70, 130, 300)),
        Phone::Ah => Some(ParamTarget::new(59, 59, 0, 0, 60, 60, 60, 60, 60, 0, 620, 1220, 2550, 3300, 80, 50, 140)),
        Phone::Ao => Some(ParamTarget::new(58, 58, 0, 0, 60, 60, 60, 60, 60, 0, 600, 990, 2570, 3300, 90, 100, 80)),
        Phone::Aw => Some(ParamTarget::new(57, 57, 0, 0, 60, 60, 60, 60, 60, 0, 640, 1230, 2550, 3300, 70, 70, 110)),
        Phone::Ax => Some(ParamTarget::new(60, 60, 0, 0, 60, 60, 60, 60, 60, 0, 550, 1260, 2470, 3300, 80, 50, 140)),
        Phone::Axr => Some(ParamTarget::new(60, 60, 0, 0, 60, 60, 60, 60, 60, 0, 680, 1170, 2380, 3300, 60, 60, 110)),
        Phone::Ay => Some(ParamTarget::new(58, 58, 0, 0, 60, 60, 60, 60, 60, 0, 660, 1200, 2550, 3300, 100, 120, 200)),
        Phone::Eh => Some(ParamTarget::new(61, 61, 0, 0, 60, 60, 60, 60, 60, 0, 530, 1680, 2500, 3300, 60, 90, 200)),
        Phone::Er => Some(ParamTarget::new(62, 62, 0, 0, 60, 60, 60, 60, 60, 0, 470, 1270, 1540, 3300, 100, 60, 110)),
        Phone::Exr => Some(ParamTarget::new(60, 60, 0, 0, 60, 60, 60, 60, 60, 0, 460, 1650, 2400, 3300, 60, 80, 140)),
        Phone::Ey => Some(ParamTarget::new(59, 59, 0, 0, 60, 60, 60, 60, 60, 0, 480, 1720, 2520, 3300, 70, 100, 200)),
        Phone::Ih => Some(ParamTarget::new(60, 60, 0, 0, 60, 60, 60, 60, 60, 0, 400, 1800, 2670, 3300, 50, 100, 140)),
        Phone::Ix => Some(ParamTarget::new(60, 60, 0, 0, 60, 60, 60, 60, 60, 0, 420, 1680, 2520, 3300, 50, 100, 140)),
        Phone::Ixr => Some(ParamTarget::new(60, 60, 0, 0, 60, 60, 60, 60, 60, 0, 320, 1900, 2900, 3300, 70, 80, 120)),
        Phone::Iy => Some(ParamTarget::new(60, 60, 0, 0, 60, 60, 60, 60, 60, 0, 310, 2200, 2960, 3300, 50, 200, 400)),
        Phone::Ow => Some(ParamTarget::new(60, 60, 0, 0, 60, 60, 60, 60, 60, 0, 540, 1100, 2300, 3300, 80, 70, 70)),
        Phone::Oxr => Some(ParamTarget::new(60, 60, 0, 0, 60, 60, 60, 60, 60, 0, 550, 820, 2200, 3300, 60, 60, 60)),
        Phone::Oy => Some(ParamTarget::new(62, 62, 0, 0, 60, 60, 60, 60, 60, 0, 550, 960, 2400, 3300, 80, 120, 160)),
        Phone::Uh => Some(ParamTarget::new(63, 63, 0, 0, 60, 60, 60, 60, 60, 0, 450, 1100, 2350, 3300, 80, 100, 80)),
        Phone::Uw => Some(ParamTarget::new(64, 64, 0, 0, 60, 60, 60, 60, 60, 0, 350, 1250, 2200, 3300, 65, 110, 140)),
        Phone::Uxr => Some(ParamTarget::new(60, 60, 0, 0, 60, 60, 60, 60, 60, 0, 360, 800, 2000, 3300, 60, 60, 80)),
        Phone::Yu => Some(ParamTarget::new(64, 64, 0, 0, 60, 60, 60, 60, 60, 0, 290, 1900, 2600, 3300, 70, 160, 220)),
        _ => None,
    }
}

/// The glide table as a value: onset formants of gliding vowels.
pub open spec fn spec_vocalic_target_glide(phone: Phone) -> Option<ParamTargetGlide> {
    match phone {
        Phone::Ae => Some(ParamTargetGlide { f1: 650, f2: 1490, f3: 2470 }),
        Phone::Ao => Some(ParamTargetGlide { f1: 630, f2: 1040, f3: 2600 }),
        Phone::Aw => Some(ParamTargetGlide { f1: 420, f2: 940, f3: 2350 }),
        Phone::Axr => Some(ParamTargetGlide { f1: 520, f2: 1400, f3: 1650 }),
        Phone::Ay => Some(ParamTargetGlide { f1: 400, f2: 1880, f3: 2500 }),
        Phone::Eh => Some(ParamTargetGlide { f1: 620, f2: 1530, f3: 2530 }),
        Phone::Exr => Some(ParamTargetGlide { f1: 450, f2: 1500, f3: 1700 }),
        Phone::Ey => Some(ParamTargetGlide { f1: 330, f2: 2200, f3: 2600 }),
        Phone::Ih => Some(ParamTargetGlide { f1: 470, f2: 1600, f3: 2600 }),
        Phone::Ixr => Some(ParamTargetGlide { f1: 420, f2: 1550, f3: 1750 }),
        Phone::Iy => Some(ParamTargetGlide { f1: 290, f2: 2070, f3: 2980 }),
        Phone::Ow => Some(ParamTargetGlide { f1: 450, f2: 900, f3: 2300 }),
        Phone::Oxr => Some(ParamTargetGlide { f1: 490, f2: 1300, f3: 1500 }),
        Phone::Oy => Some(ParamTargetGlide { f1: 360, f2: 1820, f3: 2450 }),
        Phone::Uh => Some(ParamTargetGlide { f1: 500, f2: 1180, f3: 2390 }),
        Phone::Uw => Some(ParamTargetGlide { f1: 320, f2: 900, f3: 2200 }),
        Phone::Uxr => Some(ParamTargetGlide { f1: 390, f2: 1150, f3: 1500 }),
        Phone::Yu => Some(ParamTargetGlide { f1: 330, f2: 1200, f3: 2100 }),
        _ => None,
    }
}

/// Onset formant frequencies for phones that glide; None for the rest.
pub fn vocalic_target_glide(phone: Phone) -> (r: Option<ParamTargetGlide>)
    ensures
        r == spec_vocalic_target_glide(phone),
{
    match phone {
        Phone::Ae => Some(ParamTargetGlide::new(650, 1490, 2470)),
        Phone::Ao => Some(ParamTargetGlide::new(630, 1040, 2600)),
        Phone::Aw => Some(ParamTargetGlide::new(420, 940, 2350)),
        Phone::Axr => Some(ParamTargetGlide::new(520, 1400, 1650)),
        Phone::Ay => Some(ParamTargetGlide::new(400, 1880, 2500)),
        Phone::Eh => Some(ParamTargetGlide::new(620, 1530, 2530)),
        Phone::Exr => Some(ParamTargetGlide::new(450, 1500, 1700)),
        Phone::Ey => Some(ParamTargetGlide::new(330, 2200, 2600)),
        Phone::Ih => Some(ParamTargetGlide::new(470, 1600, 2600)),
        Phone::Ixr => Some(ParamTargetGlide::new(420, 1550, 1750)),
        Phone::Iy => Some(ParamTargetGlide::new(290, 2070, 2980)),
        Phone::Ow => Some(ParamTargetGlide::new(450, 900, 2300)),
        Phone::Oxr => Some(ParamTargetGlide::new(490, 1300, 1500)),
        Phone::Oy => Some(ParamTargetGlide::new(360, 1820, 2450)),
        Phone::Uh => Some(ParamTargetGlide::new(500, 1180, 2390)),
        Phone::Uw => Some(ParamTargetGlide::new(320, 900, 2200)),
        Phone::Uxr => Some(ParamTargetGlide::new(390, 1150, 1500)),
        Phone::Yu => Some(ParamTargetGlide::new(330, 1200, 2100)),
        _ => None,
    }
}

/// Every phone has exactly one full parameter target: the vocalic and
/// nonvocalic tables together cover the whole phone inventory and never
/// both list the same phone.
pub proof fn lemma_target_partition(phone: Phone)
    ensures
        spec_vocalic_target(phone) is Some <==> spec_nonvocalic_target(phone) is None,
{
}

/// A glide entry exists only for phones the vocalic table also lists.
pub proof fn lemma_glide_is_vocalic(phone: Phone)
    ensures
        spec_vocalic_target_glide(phone) is Some ==> spec_vocalic_target(phone) is Some,
{
}

/// Compare two strings character by character.
fn str_eq(a: &str, b: &str) -> (r: bool)
    ensures
        r == (a@ == b@),
{
    let la = a.unicode_len();
    let lb = b.unicode_len();
    if la != lb {
        return false;
    }
    let mut i: usize = 0;
    while i < la
        invariant
            la == a@.len(),
            lb == b@.len(),
            la == lb,
            i <= la,
            forall|j: int| 0 <= j < i ==> a@[j] == b@[j],
        decreases la - i,
    {
        if a.get_char(i) != b.get_char(i) {
            return false;
        }
        i += 1;
    }
    proof {
        assert(a@ =~= b@);
    }
    true
}

/// The name of each phone, as a value: which phone a name denotes.
pub open spec fn spec_parse_phone(s: Seq<char>) -> Option<Phone> {
    if s == "aa"@ {
        Some(Phone::Aa)
    } else if s == "ae"@ {
        Some(Phone::Ae)
    } else if s == "ah"@ {
        Some(Phone::Ah)
    } else if s == "ao"@ {
        Some(Phone::Ao)
    } else if s == "aw"@ {
        Some(Phone::Aw)
    } else if s == "ax"@ {
        Some(Phone::Ax)
    } else if s == "axp"@ {
        Some(Phone::Axp)
    } else if s == "axr"@ {
        Some(Phone::Axr)
    } else if s == "ay"@ {
        Some(Phone::Ay)
    } else if s == "bb"@ {
        Some(Phone::Bb)
    } else if s == "ch"@ {
        Some(Phone::Ch)
    } else if s == "dd"@ {
        Some(Phone::Dd)
    } else if s == "dh"@ {
        Some(Phone::Dh)
    } else if s == "dx"@ {
        Some(Phone::Dx)
    } else if s == "eh"@ {
        Some(Phone::Eh)
    } else if s == "el"@ {
        Some(Phone::El)
    } else if s == "em"@ {
        Some(Phone::Em)
    } else if s == "en"@ {
        Some(Phone::En)
    } else if s == "er"@ {
        Some(Phone::Er)
    } else if s == "exr"@ {
        Some(Phone::Exr)
    } else if s == "ey"@ {
        Some(Phone::Ey)
    } else if s == "ff"@ {
        Some(Phone::Ff)
    } else if s == "gg"@ {
        Some(Phone::Gg)
    } else if s == "gp"@ {
        Some(Phone::Gp)
    } else if s == "hh"@ {
        Some(Phone::Hh)
    } else if s == "hx"@ {
        Some(Phone::Hx)
    } else if s == "ih"@ {
        Some(Phone::Ih)
    } else if s == "ix"@ {
        Some(Phone::Ix)
    } else if s == "ixr"@ {
        Some(Phone::Ixr)
    } else if s == "iy"@ {
        Some(Phone::Iy)
    } else if s == "jj"@ {
        Some(Phone::Jj)
    } else if s == "kk"@ {
        Some(Phone::Kk)
    } else if s == "kp"@ {
        Some(Phone::Kp)
    } else if s == "ll"@ {
        Some(Phone::Ll)
    } else if s == "lx"@ {
        Some(Phone::Lx)
    } else if s == "mm"@ {
        Some(Phone::Mm)
    } else if s == "ng"@ {
        Some(Phone::Ng)
    } else if s == "nn"@ {
        Some(Phone::Nn)
    } else if s == "ow"@ {
        Some(Phone::Ow)
    } else if s == "oxr"@ {
        Some(Phone::Oxr)
    } else if s == "oy"@ {
        Some(Phone::Oy)
    } else if s == "pp"@ {
        Some(Phone::Pp)
    } else if s == "qq"@ {
        Some(Phone::Qq)
    } else if s == "rr"@ {
        Some(Phone::Rr)
    } else if s == "rx"@ {
        Some(Phone::Rx)
    } else if s == "sil"@ {
        Some(Phone::Sil)
    } else if s == "sh"@ {
        Some(Phone::Sh)
    } else if s == "ss"@ {
        Some(Phone::Ss)
    } else if s == "th"@ {
        Some(Phone::Th)
    } else if s == "tq"@ {
        Some(Phone::Tq)
    } else if s == "tt"@ {
        Some(Phone::Tt)
    } else if s == "uh"@ {
        Some(Phone::Uh)
    } else if s == "uw"@ {
        Some(Phone::Uw)
    } else if s == "uxr"@ {
        Some(Phone::Uxr)
    } else if s == "vv"@ {
        Some(Phone::Vv)
    } else if s == "wh"@ {
        Some(Phone::Wh)
    } else if s == "ww"@ {
        Some(Phone::Ww)
    } else if s == "yu"@ {
        Some(Phone::Yu)
    } else if s == "yy"@ {
        Some(Phone::Yy)
    } else if s == "zh"@ {
        Some(Phone::Zh)
    } else if s == "zz"@ {
        Some(Phone::Zz)
    } else {
        None
    }
}

impl Phone {
    /// Parse the short name of a phone; None if the name is unknown.
    pub fn parse(name: &str) -> (r: Option<Self>)
        ensures
            r == spec_parse_phone(name@),
    {
        if str_eq(name, "aa") {
            return Some(Phone::Aa);
        }
        if str_eq(name, "ae") {
            return Some(Phone::Ae);
        }
        if str_eq(name, "ah") {
            return Some(Phone::Ah);
        }
        if str_eq(name, "ao") {
            return Some(Phone::Ao);
        }
        if str_eq(name, "aw") {
            return Some(Phone::Aw);
        }
        if str_eq(name, "ax") {
            return Some(Phone::Ax);
        }
        if str_eq(name, "axp") {
            return Some(Phone::Axp);
        }
        if str_eq(name, "axr") {
            return Some(Phone::Axr);
        }
        if str_eq(name, "ay") {
            return Some(Phone::Ay);
        }
        if str_eq(name, "bb") {
            return Some(Phone::Bb);
        }
        if str_eq(name, "ch") {
            return Some(Phone::Ch);
        }
        if str_eq(name, "dd") {
            return Some(Phone::Dd);
        }
        if str_eq(name, "dh") {
            return Some(Phone::Dh);
        }
        if str_eq(name, "dx") {
            return Some(Phone::Dx);
        }
        if str_eq(name, "eh") {
            return Some(Phone::Eh);
        }
        if str_eq(name, "el") {
            return Some(Phone::El);
        }
        if str_eq(name, "em") {
            return Some(Phone::Em);
        }
        if str_eq(name, "en") {
            return Some(Phone::En);
        }
        if str_eq(name, "er") {
            return Some(Phone::Er);
        }
        if str_eq(name, "exr") {
            return Some(Phone::Exr);
        }
        if str_eq(name, "ey") {
            return Some(Phone::Ey);
        }
        if str_eq(name, "ff") {
            return Some(Phone::Ff);
        }
        if str_eq(name, "gg") {
            return Some(Phone::Gg);
        }
        if str_eq(name, "gp") {
            return Some(Phone::Gp);
        }
        if str_eq(name, "hh") {
            return Some(Phone::Hh);
        }
        if str_eq(name, "hx") {
            return Some(Phone::Hx);
        }
        if str_eq(name, "ih") {
            return Some(Phone::Ih);
        }
        if str_eq(name, "ix") {
            return Some(Phone::Ix);
        }
        if str_eq(name, "ixr") {
            return Some(Phone::Ixr);
        }
        if str_eq(name, "iy") {
            return Some(Phone::Iy);
        }
        if str_eq(name, "jj") {
            return Some(Phone::Jj);
        }
        if str_eq(name, "kk") {
            return Some(Phone::Kk);
        }
        if str_eq(name, "kp") {
            return Some(Phone::Kp);
        }
        if str_eq(name, "ll") {
            return Some(Phone::Ll);
        }
        if str_eq(name, "lx") {
            return Some(Phone::Lx);
        }
        if str_eq(name, "mm") {
            return Some(Phone::Mm);
        }
        if str_eq(name, "ng") {
            return Some(Phone::Ng);
        }
        if str_eq(name, "nn") {
            return Some(Phone::Nn);
        }
        if str_eq(name, "ow") {
            return Some(Phone::Ow);
        }
        if str_eq(name, "oxr") {
            return Some(Phone::Oxr);
        }
        if str_eq(name, "oy") {
            return Some(Phone::Oy);
        }
        if str_eq(name, "pp") {
            return Some(Phone::Pp);
        }
        if str_eq(name, "qq") {
            return Some(Phone::Qq);
        }
        if str_eq(name, "rr") {
            return Some(Phone::Rr);
        }
        if str_eq(name, "rx") {
            return Some(Phone::Rx);
        }
        if str_eq(name, "sil") {
            return Some(Phone::Sil);
        }
        if str_eq(name, "sh") {
            return Some(Phone::Sh);
        }
        if str_eq(name, "ss") {
            return Some(Phone::Ss);
        }
        if str_eq(name, "th") {
            return Some(Phone::Th);
        }
        if str_eq(name, "tq") {
            return Some(Phone::Tq);
        }
        if str_eq(name, "tt") {
            return Some(Phone::Tt);
        }
        if str_eq(name, "uh") {
            return Some(Phone::Uh);
        }
        if str_eq(name, "uw") {
            return Some(Phone::Uw);
        }
        if str_eq(name, "uxr") {
            return Some(Phone::Uxr);
        }
        if str_eq(name, "vv") {
            return Some(Phone::Vv);
        }
        if str_eq(name, "wh") {
            return Some(Phone::Wh);
        }
        if str_eq(name, "ww") {
            return Some(Phone::Ww);
        }
        if str_eq(name, "yu") {
            return Some(Phone::Yu);
        }
        if str_eq(name, "yy") {
            return Some(Phone::Yy);
        }
        if str_eq(name, "zh") {
            return Some(Phone::Zh);
        }
        if str_eq(name, "zz") {
            return Some(Phone::Zz);
        }
        None
    }
}

} // verus!
