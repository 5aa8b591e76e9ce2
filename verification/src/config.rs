//! The configuration the core consumes: an ordered list of device entries and
//! the global hysteresis thresholds. Loading and persisting the file is the
//! configuration collaborator's business; what is decided here is which
//! configurations are meaningful — a nonempty band and well-formed addresses —
//! and how the raw entries become the scanner's device configurations.

use vstd::prelude::*;
use vstd::utf8::encode_utf8;

use crate::addr::{parse_mac, spec_is_mac_str, spec_mac_bits, MacAddr};
use crate::hysteresis::{Thresholds, FRACTION_SCALE};
use crate::scanner::{DeviceConfig, DeviceKind};

verus! {

/// The address string parses as a colon-delimited hardware address.
pub open spec fn spec_str_is_mac(s: Seq<char>) -> bool {
    spec_is_mac_str(encode_utf8(s))
}

/// The 48-bit value the address string names.
pub open spec fn spec_str_mac_bits(s: Seq<char>) -> int {
    spec_mac_bits(encode_utf8(s))
}

/// One configured device entry, as the configuration file holds it: variant,
/// hardware address in string form, and the bound on one scan attempt.
#[derive(Clone, Debug)]
pub struct PlugConfig {
    pub kind: DeviceKind,
    pub addr: String,
    pub search_timeout: u64,
}

impl Default for PlugConfig {
    /// A Plug Mini entry with no address and a ten-second search bound.
    fn default() -> (r: PlugConfig)
        ensures
            r.kind == DeviceKind::PlugMini,
            r.addr@ == Seq::<char>::empty(),
            r.search_timeout == 10,
    {
        PlugConfig { kind: DeviceKind::PlugMini, addr: String::new(), search_timeout: 10 }
    }
}

/// The whole configuration: global thresholds in millionths of full charge,
/// and the ordered device list — the first configured entry that is found
/// wins.
#[derive(Clone, Debug)]
pub struct Config {
    pub stop_thresh: u32,
    pub start_thresh: u32,
    pub plugs: Vec<PlugConfig>,
}

impl Default for Config {
    /// Switch on below half charge, off above sixty percent, one default
    /// device entry.
    fn default() -> (r: Config)
        ensures
            r.stop_thresh == 600_000,
            r.start_thresh == 500_000,
            r.plugs@.len() == 1,
            r.plugs@[0].kind == DeviceKind::PlugMini,
            r.plugs@[0].addr@ == Seq::<char>::empty(),
            r.plugs@[0].search_timeout == 10,
    {
        let mut plugs: Vec<PlugConfig> = Vec::new();
        plugs.push(PlugConfig::default());
        Config { stop_thresh: 600_000, start_thresh: 500_000, plugs }
    }
}

impl Config {
    /// The configured hysteresis band, accepted exactly when it is meaningful
    /// (`start < stop`, both inside the unit scale); anything else must be
    /// rejected at configuration time.
    pub fn thresholds(&self) -> (r: Option<Thresholds>)
        ensures
            r is Some <==> (self.start_thresh < self.stop_thresh && self.stop_thresh
                <= FRACTION_SCALE),
            r matches Some(t) ==> t.spec_start() == self.start_thresh && t.spec_stop()
                == self.stop_thresh && t.wf(),
    {
        Thresholds::new(self.start_thresh, self.stop_thresh)
    }

    /// The scanner's device list: each entry's address parsed to its 48-bit
    /// value, in configuration order. Rejected as a whole when any entry's
    /// address is not a well-formed colon-delimited hardware address.
    pub fn device_configs(&self) -> (r: Option<Vec<DeviceConfig>>)
        ensures
            r is Some <==> (forall|i: int|
                0 <= i < self.plugs@.len() ==> spec_str_is_mac(#[trigger] self.plugs@[i].addr@)),
            r matches Some(v) ==> {
                &&& v@.len() == self.plugs@.len()
                &&& forall|i: int|
                    0 <= i < v@.len() ==> {
                        &&& (#[trigger] v@[i]).kind == self.plugs@[i].kind
                        &&& v@[i].addr.bits == spec_str_mac_bits(self.plugs@[i].addr@)
                        &&& v@[i].addr.wf()
                        &&& v@[i].search_timeout_secs == self.plugs@[i].search_timeout
                    }
            },
    {
        let mut out: Vec<DeviceConfig> = Vec::new();
        let mut i: usize = 0;
        while i < self.plugs.len()
            invariant
                i <= self.plugs@.len(),
                out@.len() == i,
                forall|j: int|
                    0 <= j < i ==> spec_str_is_mac(#[trigger] self.plugs@[j].addr@),
                forall|j: int|
                    0 <= j < i ==> {
                        &&& (#[trigger] out@[j]).kind == self.plugs@[j].kind
                        &&& out@[j].addr.bits == spec_str_mac_bits(self.plugs@[j].addr@)
                        &&& out@[j].addr.wf()
                        &&& out@[j].search_timeout_secs == self.plugs@[j].search_timeout
                    },
            decreases self.plugs@.len() - i,
        {
            let addr = match parse_mac(self.plugs[i].addr.as_str()) {
                Some(a) => a,
                None => {
                    return None;
                },
            };
            out.push(
                DeviceConfig {
                    kind: self.plugs[i].kind,
                    addr,
                    search_timeout_secs: self.plugs[i].search_timeout,
                },
            );
            i += 1;
        }
        Some(out)
    }
}

} // verus!
