use vstd::prelude::*;

verus! {

/// Exporter of server metrics (players, tick rate, memory); it only records
/// whether export is switched on.
pub struct MetricsExporter {
    enabled: bool,
}

impl MetricsExporter {
    pub closed spec fn spec_enabled(&self) -> bool {
        self.enabled
    }

    /// The port is accepted for configuration and not used.
    pub fn new(enabled: bool, _port: u16) -> (r: MetricsExporter)
        ensures
            r.spec_enabled() == enabled,
    {
        MetricsExporter { enabled }
    }

    pub fn is_enabled(&self) -> (r: bool)
        ensures
            r == self.spec_enabled(),
    {
        self.enabled
    }
}

} // verus!
