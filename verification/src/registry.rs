use vstd::prelude::*;

use crate::ids::Hash32;

verus! {

/// A chain tip: its height and block header hash.
#[derive(Debug)]
pub struct PeakInfo {
    pub height: u32,
    pub header_hash: Hash32,
}

impl PeakInfo {
    pub fn dup(&self) -> (r: PeakInfo)
        ensures
            r.height == self.height,
            r.header_hash@ == self.header_hash@,
            r.header_hash.wf() == self.header_hash.wf(),
    {
        PeakInfo { height: self.height, header_hash: self.header_hash.dup() }
    }
}

/// The best chain tip observed from any currently connected peer.
///
/// One such record is shared by all sync sessions of a wallet; the caller
/// guards it with a short-held lock, never across a suspension point. It
/// holds the maximum height observed; on a tie the later writer wins.
#[derive(Debug)]
pub struct PeerState {
    peak: Option<PeakInfo>,
}

impl PeerState {
    /// The registry's current best peak: its height and header hash bytes.
    pub closed spec fn spec_peak(self) -> Option<(u32, Seq<u8>)> {
        match self.peak {
            Some(p) => Some((p.height, p.header_hash@)),
            None => None,
        }
    }

    pub closed spec fn wf(self) -> bool {
        self.peak matches Some(p) ==> p.header_hash.wf()
    }

    /// A registry that has observed no peak yet.
    pub fn new() -> (r: PeerState)
        ensures
            r.spec_peak() is None,
            r.wf(),
    {
        PeerState { peak: None }
    }

    /// Reads the best peak observed so far, if any.
    pub fn peak(&self) -> (r: Option<PeakInfo>)
        ensures
            match r {
                Some(p) => self.spec_peak() == Some((p.height, p.header_hash@))
                    && p.header_hash.wf() == self.wf(),
                None => self.spec_peak() is None,
            },
    {
        match &self.peak {
            Some(p) => Some(p.dup()),
            None => None,
        }
    }

    /// Records a peak reported by a peer. The registry keeps the maximum
    /// height observed; on an equal height the newly reported header wins.
    pub fn observe_peak(&mut self, height: u32, header_hash: Hash32)
        requires
            header_hash.wf(),
            old(self).wf(),
        ensures
            final(self).wf(),
            match old(self).spec_peak() {
                Some((h0, hh0)) => {
                    &&& height >= h0 ==> final(self).spec_peak() == Some((height, header_hash@))
                    &&& height < h0 ==> final(self).spec_peak() == Some((h0, hh0))
                },
                None => final(self).spec_peak() == Some((height, header_hash@)),
            },
    {
        let advance = match &self.peak {
            Some(p) => height >= p.height,
            None => true,
        };
        if advance {
            self.peak = Some(PeakInfo { height, header_hash });
        }
    }
}

} // verus!
