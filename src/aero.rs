use vstd::prelude::*;

verus! {

/// Thousandths: every coefficient and Mach limit of the default table is a
/// whole number of thousandths, so a host recovers it exactly by dividing by
/// this scale.
pub const MILLI: i32 = 1000;

/// The four Mach bands of the coarse default drag curve, slowest first.
#[derive(Clone, Copy, Debug, PartialEq, Eq, Structural)]
pub enum MachBand {
    /// Below Mach 0.8.
    Subsonic,
    /// From Mach 0.8 up to 1.2.
    Transonic,
    /// From Mach 1.2 up to 2.0.
    LowSupersonic,
    /// Mach 2.0 and above.
    HighSupersonic,
}

/// Exclusive upper Mach limit of a band, in thousandths; the fastest band has none.
pub open spec fn band_limit(b: MachBand) -> Option<int> {
    match b {
        MachBand::Subsonic => Some(800),
        MachBand::Transonic => Some(1200),
        MachBand::LowSupersonic => Some(2000),
        MachBand::HighSupersonic => None,
    }
}

/// The band that follows `b` towards higher Mach numbers, if any.
pub open spec fn band_after(b: MachBand) -> Option<MachBand> {
    match b {
        MachBand::Subsonic => Some(MachBand::Transonic),
        MachBand::Transonic => Some(MachBand::LowSupersonic),
        MachBand::LowSupersonic => Some(MachBand::HighSupersonic),
        MachBand::HighSupersonic => None,
    }
}

/// Drag coefficient of the default table in a band, in thousandths.
pub open spec fn band_drag(b: MachBand) -> int {
    match b {
        MachBand::Subsonic => 250,
        MachBand::Transonic => 400,
        MachBand::LowSupersonic => 300,
        MachBand::HighSupersonic => 250,
    }
}

impl MachBand {
    /// The slowest band, where a band search starts.
    pub fn slowest() -> (r: MachBand)
        ensures
            r == MachBand::Subsonic,
    {
        MachBand::Subsonic
    }

    /// Exclusive upper Mach limit of this band in thousandths, or `None` for
    /// the open-ended fastest band.
    pub fn upper_limit_milli(self) -> (r: Option<u32>)
        ensures
            r matches Some(l) ==> band_limit(self) == Some(l as int),
            r is None <==> band_limit(self) is None,
    {
        match self {
            MachBand::Subsonic => Some(800),
            MachBand::Transonic => Some(1200),
            MachBand::LowSupersonic => Some(2000),
            MachBand::HighSupersonic => None,
        }
    }

    /// The next band towards higher Mach numbers, or `None` for the fastest.
    pub fn next_faster(self) -> (r: Option<MachBand>)
        ensures
            r == band_after(self),
    {
        match self {
            MachBand::Subsonic => Some(MachBand::Transonic),
            MachBand::Transonic => Some(MachBand::LowSupersonic),
            MachBand::LowSupersonic => Some(MachBand::HighSupersonic),
            MachBand::HighSupersonic => None,
        }
    }
}

/// The bands tile the Mach axis: each band but the fastest has a limit, the
/// band after it starts there, and the limits rise strictly from band to band.
pub proof fn lemma_bands_tile_mach_axis(b: MachBand)
    ensures
        band_after(b) is None <==> band_limit(b) is None,
        band_after(b) matches Some(n) ==> (band_limit(n) matches Some(ln) ==> band_limit(b).unwrap()
            < ln),
{
}

/// Standard-atmosphere model used by the trajectory driver; it carries no
/// parameters of its own.
#[derive(Clone, Copy, Debug)]
pub struct Atmosphere;

/// Coarse slender-body aerodynamic model that lets the integrator run without
/// measured aero data: a four-band drag curve and constant slopes and damping
/// factors. Every coefficient is given in thousandths.
#[derive(Clone, Copy, Debug, Default)]
pub struct DefaultAeroApprox;

impl DefaultAeroApprox {
    /// Drag coefficient in thousandths for a Mach band; it does not depend on
    /// the aerodynamic angles.
    pub fn c_d_milli(&self, band: MachBand) -> (r: i32)
        ensures
            r == band_drag(band),
    {
        match band {
            MachBand::Subsonic => 250,
            MachBand::Transonic => 400,
            MachBand::LowSupersonic => 300,
            MachBand::HighSupersonic => 250,
        }
    }

    /// Lift-curve slope per radian, in thousandths (2.8).
    pub fn c_l_alpha_milli(&self) -> (r: i32)
        ensures
            r == 2800,
    {
        2800
    }

    /// Side-force slope per radian, in thousandths (2.8).
    pub fn c_y_beta_milli(&self) -> (r: i32)
        ensures
            r == 2800,
    {
        2800
    }

    /// Restoring pitch-moment slope per radian, in thousandths (-0.9).
    pub fn c_m_alpha_milli(&self) -> (r: i32)
        ensures
            r == -900,
    {
        -900
    }

    /// Pitch and yaw damping, in thousandths (-20).
    pub fn c_m_q_milli(&self) -> (r: i32)
        ensures
            r == -20000,
    {
        -20000
    }

    /// Spin damping, in thousandths (-0.02).
    pub fn c_l_p_milli(&self) -> (r: i32)
        ensures
            r == -20,
    {
        -20
    }

    /// Magnus side-force factor, in thousandths (0.1).
    pub fn c_magnus_milli(&self) -> (r: i32)
        ensures
            r == 100,
    {
        100
    }
}

} // verus!
