//! What the console sets and every connection reads.
use vstd::prelude::*;

use crate::filter::PacketFilter;

verus! {

/// The settings of the proxy.
pub struct Proxy {
    /// Which packets are logged.
    pub filter: PacketFilter,
    /// Whether packets are logged at all.
    pub log_packets: bool,
    /// Whether warnings about packets that cannot be parsed are logged.
    pub log_warnings: bool,
    /// How many bytes of a packet are shown before it is cut down.
    pub max_buffer_display_length: usize,
}

/// What the settings hold.
#[verifier::ext_equal]
pub struct ProxyView {
    pub filter: crate::filter::FilterView,
    pub log_packets: bool,
    pub log_warnings: bool,
    pub max_buffer_display_length: usize,
}

impl View for Proxy {
    type V = ProxyView;

    open spec fn view(&self) -> ProxyView {
        ProxyView {
            filter: self.filter@,
            log_packets: self.log_packets,
            log_warnings: self.log_warnings,
            max_buffer_display_length: self.max_buffer_display_length,
        }
    }
}

impl Proxy {
    /// The filter is well formed.
    pub open spec fn wf(&self) -> bool {
        self.filter.wf()
    }

    /// The settings that the proxy starts with: everything is logged that the filter lets
    /// through, and the filter lets nothing through yet.
    pub fn new() -> (proxy: Proxy)
        ensures
            proxy.wf(),
            proxy@ == (ProxyView {
                filter: crate::filter::FilterView {
                    packets: Set::empty(),
                    suppressed: Set::empty(),
                    is_whitelist: true,
                    disabled: false,
                },
                log_packets: true,
                log_warnings: true,
                max_buffer_display_length: 64,
            }),
    {
        Proxy {
            filter: PacketFilter::new(),
            log_packets: true,
            log_warnings: true,
            max_buffer_display_length: 64,
        }
    }
}

} // verus!
