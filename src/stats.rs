use vstd::prelude::*;

verus! {

/// The aggregate shared by every download of one run: bytes received so far,
/// and the sum of the content lengths that servers have advertised.
pub struct TransferStats {
    pub bytes_downloaded: u64,
    pub total_bytes: u64,
}

/// Mathematical view of the transfer counters.
pub struct StatsView {
    pub downloaded: nat,
    pub total: nat,
}

impl View for TransferStats {
    type V = StatsView;

    open spec fn view(&self) -> StatsView {
        StatsView { downloaded: self.bytes_downloaded as nat, total: self.total_bytes as nat }
    }
}

impl TransferStats {
    /// Counters at the start of a run: nothing received, nothing expected.
    pub fn new() -> (r: TransferStats)
        ensures
            r@ == (StatsView { downloaded: 0, total: 0 }),
    {
        TransferStats { bytes_downloaded: 0, total_bytes: 0 }
    }

    /// Whether `n` more received bytes can be counted without overflow.
    pub fn can_add_downloaded(&self, n: u64) -> (r: bool)
        ensures
            r == (self@.downloaded + n <= u64::MAX),
    {
        n <= u64::MAX - self.bytes_downloaded
    }

    /// Whether `n` more advertised bytes can be counted without overflow.
    pub fn can_add_total(&self, n: u64) -> (r: bool)
        ensures
            r == (self@.total + n <= u64::MAX),
    {
        n <= u64::MAX - self.total_bytes
    }

    /// Counts `n` bytes received from the network and written to disk.
    pub fn add_downloaded(&mut self, n: u64)
        requires
            old(self)@.downloaded + n <= u64::MAX,
        ensures
            final(self)@ == (StatsView { downloaded: (old(self)@.downloaded + n) as nat, total: old(self)@.total }),
    {
        self.bytes_downloaded = self.bytes_downloaded + n;
    }

    /// Adds a server-advertised content length to the expected total.
    pub fn add_total(&mut self, n: u64)
        requires
            old(self)@.total + n <= u64::MAX,
        ensures
            final(self)@ == (StatsView { downloaded: old(self)@.downloaded, total: (old(self)@.total + n) as nat }),
    {
        self.total_bytes = self.total_bytes + n;
    }
}

} // verus!
