//! Read-only mirrors for observers.
//!
//! The scan thread is the only writer of the live state; everything else
//! reads cloned snapshots. `ContextInner` is the snapshot the query layer
//! polls: the engine state, copies of both process images, and the clock
//! tick of the scan that produced it. `Visuals` is the channel mirror a
//! display front-end repaints from. The locks that share these snapshots
//! between threads belong to the surrounding service.

use vstd::prelude::*;

use crate::logic::{Channels, Logic, logic_initial};
use crate::scan::{PII_SIZE, PIQ_SIZE};

verus! {

/// The observability snapshot published once per scan.
#[derive(Debug, Clone)]
pub struct ContextInner {
    pub logic_image: Logic,
    pub pii: Vec<u8>,
    pub piq: Vec<u8>,
    pub now: u64,
}

impl ContextInner {
    /// Both image copies have their fixed sizes.
    pub open spec fn wf(&self) -> bool {
        self.pii@.len() == PII_SIZE && self.piq@.len() == PIQ_SIZE
    }

    /// A snapshot of the startup state over zeroed images.
    pub fn new() -> (r: Self)
        ensures
            r.wf(),
            r.logic_image == logic_initial(),
            r.now == 0,
            forall|i: int| 0 <= i < PII_SIZE ==> r.pii@[i] == 0,
            forall|i: int| 0 <= i < PIQ_SIZE ==> r.piq@[i] == 0,
    {
        let mut pii: Vec<u8> = Vec::new();
        let mut piq: Vec<u8> = Vec::new();
        let mut i: usize = 0;
        while i < PII_SIZE
            invariant
                i <= PII_SIZE,
                pii@.len() == i,
                forall|j: int| 0 <= j < i ==> pii@[j] == 0,
            decreases PII_SIZE - i,
        {
            pii.push(0);
            i += 1;
        }
        let mut k: usize = 0;
        while k < PIQ_SIZE
            invariant
                k <= PIQ_SIZE,
                piq@.len() == k,
                forall|j: int| 0 <= j < k ==> piq@[j] == 0,
            decreases PIQ_SIZE - k,
        {
            piq.push(0);
            k += 1;
        }
        Self { logic_image: Logic::new(), pii, piq, now: 0 }
    }

    /// Publish one scan's result: the engine state, both images and the
    /// scan's clock tick.
    pub fn publish(&mut self, logic: &Logic, pii: &[u8], piq: &[u8], now: u64)
        requires
            pii@.len() == PII_SIZE,
            piq@.len() == PIQ_SIZE,
        ensures
            final(self).wf(),
            final(self).logic_image == *logic,
            final(self).pii@ == pii@,
            final(self).piq@ == piq@,
            final(self).now == now,
    {
        self.logic_image = *logic;
        self.pii = copy_image(pii);
        self.piq = copy_image(piq);
        self.now = now;
    }
}

/// A byte-for-byte copy of an image.
fn copy_image(image: &[u8]) -> (r: Vec<u8>)
    ensures
        r@ == image@,
{
    let mut r: Vec<u8> = Vec::new();
    let mut i: usize = 0;
    while i < image.len()
        invariant
            i <= image@.len(),
            r@.len() == i,
            forall|j: int| 0 <= j < i ==> r@[j] == image@[j],
        decreases image@.len() - i,
    {
        r.push(image[i]);
        i += 1;
    }
    proof {
        assert(r@ =~= image@);
    }
    r
}

/// The channel mirror a display front-end repaints from.
#[derive(Debug, Clone, Copy)]
pub struct Visuals {
    pub channels: Channels,
}

impl Visuals {
    /// A mirror showing everything dark.
    pub fn new() -> (r: Self)
        ensures
            r.channels == (Channels {
                bottom_front: false,
                bottom_back: false,
                spikes_left: false,
                spikes_mid: false,
                spikes_right: false,
                eyes: false,
                pupil_top: false,
                pupil_down: false,
                mouth_top: false,
                mouth_mid: false,
                mouth_bottom: false,
            }),
    {
        Self {
            channels: Channels {
                bottom_front: false,
                bottom_back: false,
                spikes_left: false,
                spikes_mid: false,
                spikes_right: false,
                eyes: false,
                pupil_top: false,
                pupil_down: false,
                mouth_top: false,
                mouth_mid: false,
                mouth_bottom: false,
            },
        }
    }

    /// Take over the channel pattern of the latest scan.
    pub fn update_channels(&mut self, channels: &Channels)
        ensures
            final(self).channels == *channels,
    {
        self.channels = *channels;
    }
}

} // verus!
