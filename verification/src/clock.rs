//! Clock and power bring-up.
//!
//! A `ClockConfig` is a fully resolved choice of oscillator source, PLL
//! factors and bus prescalers. It is computed once, before any peripheral is
//! touched, and every derived bus frequency must sit inside the hardware's
//! documented operating range; an invalid combination is a first-boot fatal
//! condition, never a recoverable runtime error.

use vstd::prelude::*;

verus! {

/// A fully resolved oscillator / PLL / prescaler selection.
///
/// Frequencies are in hertz; divider and multiplier fields are the raw
/// factors the hardware applies, all at least 1.
pub struct ClockConfig {
    /// Frequency of the external oscillator feeding the PLL.
    pub hse_hz: u32,
    /// Whether the 48 MHz internal oscillator is enabled; the hardware
    /// random-number generator needs it.
    pub hsi48_enabled: bool,
    /// Divider applied to the external oscillator before the PLL.
    pub pll_prediv: u32,
    /// PLL multiplier producing the VCO frequency.
    pub pll_mul: u32,
    /// Divider from the VCO to the system clock output.
    pub pll_divp: u32,
    /// Divider from the VCO to the peripheral clock output.
    pub pll_divq: u32,
    /// AHB bus prescaler.
    pub ahb_div: u32,
    /// APB1 bus prescaler.
    pub apb1_div: u32,
    /// APB2 bus prescaler.
    pub apb2_div: u32,
    /// APB3 bus prescaler.
    pub apb3_div: u32,
}

impl ClockConfig {
    /// Frequency entering the PLL after the pre-divider.
    pub open spec fn pll_input_hz(self) -> int {
        self.hse_hz as int / self.pll_prediv as int
    }

    /// Frequency of the PLL's internal oscillator.
    pub open spec fn vco_hz(self) -> int {
        self.pll_input_hz() * self.pll_mul as int
    }

    /// System clock frequency, taken from the PLL's P output.
    pub open spec fn sysclk_hz(self) -> int {
        self.vco_hz() / self.pll_divp as int
    }

    /// AHB bus frequency.
    pub open spec fn hclk_hz(self) -> int {
        self.sysclk_hz() / self.ahb_div as int
    }

    /// APB1 bus frequency.
    pub open spec fn pclk1_hz(self) -> int {
        self.hclk_hz() / self.apb1_div as int
    }

    /// APB2 bus frequency.
    pub open spec fn pclk2_hz(self) -> int {
        self.hclk_hz() / self.apb2_div as int
    }

    /// APB3 bus frequency.
    pub open spec fn pclk3_hz(self) -> int {
        self.hclk_hz() / self.apb3_div as int
    }

    /// Every factor is usable and every derived frequency sits inside the
    /// hardware's documented operating range at the highest voltage scale.
    pub open spec fn wf(self) -> bool {
        &&& self.pll_prediv >= 1
        &&& self.pll_mul >= 1
        &&& self.pll_divp >= 1
        &&& self.pll_divq >= 1
        &&& self.ahb_div >= 1
        &&& self.apb1_div >= 1
        &&& self.apb2_div >= 1
        &&& self.apb3_div >= 1
        &&& 1_000_000 <= self.pll_input_hz() <= 16_000_000
        &&& 128_000_000 <= self.vco_hz() <= 560_000_000
        &&& self.sysclk_hz() <= 250_000_000
        &&& self.hsi48_enabled
    }

    /// System clock frequency as the hardware register writer needs it.
    pub fn sysclk(&self) -> (r: u32)
        requires
            self.wf(),
        ensures
            r == self.sysclk_hz(),
    {
        ((self.hse_hz / self.pll_prediv) * self.pll_mul) / self.pll_divp
    }

    /// AHB bus frequency as the hardware register writer needs it.
    pub fn hclk(&self) -> (r: u32)
        requires
            self.wf(),
        ensures
            r == self.hclk_hz(),
    {
        self.sysclk() / self.ahb_div
    }

    /// APB1 bus frequency as the hardware register writer needs it.
    pub fn pclk1(&self) -> (r: u32)
        requires
            self.wf(),
        ensures
            r == self.pclk1_hz(),
    {
        self.hclk() / self.apb1_div
    }

    /// APB2 bus frequency as the hardware register writer needs it.
    pub fn pclk2(&self) -> (r: u32)
        requires
            self.wf(),
        ensures
            r == self.pclk2_hz(),
    {
        self.hclk() / self.apb2_div
    }

    /// APB3 bus frequency as the hardware register writer needs it.
    pub fn pclk3(&self) -> (r: u32)
        requires
            self.wf(),
        ensures
            r == self.pclk3_hz(),
    {
        self.hclk() / self.apb3_div
    }
}

/// The board's clock selection: an 8 MHz external oscillator, divided by 2
/// and multiplied by 125 in the PLL, then divided by 2 again for a 250 MHz
/// system clock; every bus runs undivided and the 48 MHz internal oscillator
/// stays on for the random-number generator.
pub fn init() -> (c: ClockConfig)
    ensures
        c.hse_hz == 8_000_000,
        c.hsi48_enabled,
        c.pll_prediv == 2,
        c.pll_mul == 125,
        c.pll_divp == 2,
        c.pll_divq == 2,
        c.ahb_div == 1,
        c.apb1_div == 1,
        c.apb2_div == 1,
        c.apb3_div == 1,
        c.wf(),
        c.sysclk_hz() == 250_000_000,
        c.hclk_hz() == 250_000_000,
{
    ClockConfig {
        hse_hz: 8_000_000,
        hsi48_enabled: true,
        pll_prediv: 2,
        pll_mul: 125,
        pll_divp: 2,
        pll_divq: 2,
        ahb_div: 1,
        apb1_div: 1,
        apb2_div: 1,
        apb3_div: 1,
    }
}

} // verus!
