use vstd::prelude::*;

verus! {

/// The low-frequency clock runs.
pub struct LfActive;

/// The low-frequency clock is stopped.
pub struct LfInactive;

/// The high-frequency clock runs.
pub struct HfActive;

/// The high-frequency clock is stopped.
pub struct HfInactive;

/// Where the low-frequency clock comes from.
#[derive(Clone, Copy, Debug, PartialEq, Eq, Structural)]
pub enum Source {
    RC,
    Xtal,
    Synth,
}

/// How the low-frequency clock was started.
#[derive(Clone, Copy, Debug, PartialEq, Eq, Structural)]
pub struct LfConfig {
    pub source: Source,
    pub bypass: bool,
    pub external: bool,
}

/// The clock controller's handle, tagged with the state of each clock. Starting a clock that
/// runs, or stopping one that is stopped, does not type-check.
pub struct Clock<P, L, H> {
    peripheral: P,
    lf: L,
    hf: H,
    lf_config: Option<LfConfig>,
}

impl<P, L, H> Clock<P, L, H> {
    pub closed spec fn peripheral_view(&self) -> P {
        self.peripheral
    }

    pub closed spec fn lf_config_view(&self) -> Option<LfConfig> {
        self.lf_config
    }

    /// The peripheral that the handle owns.
    pub fn peripheral(&self) -> (r: &P)
        ensures
            *r == self.peripheral_view(),
    {
        &self.peripheral
    }

    /// How the low-frequency clock was last started, if it was.
    pub fn lf_config(&self) -> (r: Option<LfConfig>)
        ensures
            r == self.lf_config_view(),
    {
        self.lf_config
    }
}

impl<P> Clock<P, LfInactive, HfInactive> {
    /// Takes ownership of the controller, both clocks stopped.
    pub fn new(peripheral: P) -> (r: Clock<P, LfInactive, HfInactive>)
        ensures
            r.peripheral_view() == peripheral,
            r.lf_config_view() is None,
    {
        Clock { peripheral, lf: LfInactive, hf: HfInactive, lf_config: None }
    }
}

impl<P, H> Clock<P, LfInactive, H> {
    /// Starts the low-frequency clock from `source`.
    pub fn start_lfclk(self, source: Source, bypass: bool, external: bool) -> (r: Clock<
        P,
        LfActive,
        H,
    >)
        ensures
            r.peripheral_view() == self.peripheral_view(),
            r.lf_config_view() == Some(LfConfig { source, bypass, external }),
    {
        Clock {
            peripheral: self.peripheral,
            lf: LfActive,
            hf: self.hf,
            lf_config: Some(LfConfig { source, bypass, external }),
        }
    }
}

impl<P, H> Clock<P, LfActive, H> {
    /// Stops the low-frequency clock.
    pub fn stop_lfclk(self) -> (r: Clock<P, LfInactive, H>)
        ensures
            r.peripheral_view() == self.peripheral_view(),
            r.lf_config_view() == self.lf_config_view(),
    {
        Clock { peripheral: self.peripheral, lf: LfInactive, hf: self.hf, lf_config: self.lf_config }
    }
}

impl<P, L> Clock<P, L, HfInactive> {
    /// Starts the high-frequency clock, which the radio needs.
    pub fn start_hfclk(self) -> (r: Clock<P, L, HfActive>)
        ensures
            r.peripheral_view() == self.peripheral_view(),
            r.lf_config_view() == self.lf_config_view(),
    {
        Clock { peripheral: self.peripheral, lf: self.lf, hf: HfActive, lf_config: self.lf_config }
    }
}

impl<P, L> Clock<P, L, HfActive> {
    /// Stops the high-frequency clock.
    pub fn stop_hfclk(self) -> (r: Clock<P, L, HfInactive>)
        ensures
            r.peripheral_view() == self.peripheral_view(),
            r.lf_config_view() == self.lf_config_view(),
    {
        Clock { peripheral: self.peripheral, lf: self.lf, hf: HfInactive, lf_config: self.lf_config }
    }
}

} // verus!
