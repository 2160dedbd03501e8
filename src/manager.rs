use vstd::prelude::*;

use crate::display::display_lines;
use crate::usage::{aggregate, mean_rounded};

verus! {

/// The applet's state: the last per-core sample, in hundredths of a percent,
/// one reading per logical core in core order. It starts empty and each tick
/// replaces it whole.
pub struct PowerManager {
    cpu_usages: Vec<u32>,
}

impl View for PowerManager {
    type V = Seq<u32>;

    closed spec fn view(&self) -> Seq<u32> {
        self.cpu_usages@
    }
}

impl PowerManager {
    /// A manager that has not sampled yet.
    pub fn new() -> (r: PowerManager)
        ensures
            r@ == Seq::<u32>::empty(),
    {
        PowerManager { cpu_usages: Vec::new() }
    }

    /// Replaces the stored sample with the one taken on this tick.
    pub fn tick(&mut self, sample: Vec<u32>)
        ensures
            final(self)@ == sample@,
    {
        self.cpu_usages = sample;
    }

    /// The last sample.
    pub fn cpu_usages(&self) -> (r: &Vec<u32>)
        ensures
            r@ == self@,
    {
        &self.cpu_usages
    }

    /// The mean of the last sample, rounded to a hundredth of a percent; zero
    /// before the first sample.
    pub fn calculate_avg_cpu_usage(&self) -> (r: u32)
        ensures
            r == mean_rounded(self@),
    {
        aggregate(&self.cpu_usages)
    }

    /// The popup's text: the aggregate line, then one line per core.
    pub fn view_lines(&self) -> (r: Vec<String>)
        ensures
            r@.len() == self@.len() + 1,
            forall|k: int| 0 <= k < r@.len() ==> #[trigger] r@[k]@ == display_lines(self@)[k],
    {
        crate::display::format(&self.cpu_usages)
    }
}

impl Default for PowerManager {
    fn default() -> (r: PowerManager)
        ensures
            r@ == Seq::<u32>::empty(),
    {
        PowerManager::new()
    }
}

} // verus!
