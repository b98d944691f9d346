//! Adapter descriptions and the search for the adapter to render on.

use vstd::prelude::*;
use vstd::slice::slice_subrange;

verus! {

/// A locally unique identifier of an adapter.
#[derive(Clone, Copy, Debug, PartialEq, Eq, Structural)]
pub struct Luid {
    pub low_part: u32,
    pub high_part: i32,
}

/// What an adapter reports about itself.
#[derive(Clone, Copy)]
pub struct AdapterDesc {
    /// The adapter's name in UTF-16, ended by a NUL unless it fills the array.
    pub description: [u16; 128],
    pub vendor_id: u32,
    pub device_id: u32,
    pub subsys_id: u32,
    pub revision: u32,
    pub dedicated_video_memory: usize,
    pub dedicated_system_memory: usize,
    pub shared_system_memory: usize,
    pub adapter_luid: Luid,
}

/// The index of the first NUL in `s` at or after `i`, or the length of `s`.
pub open spec fn nul_from(s: Seq<u16>, i: int) -> int
    decreases s.len() - i,
{
    if i >= s.len() || s[i] == 0 {
        i
    } else {
        nul_from(s, i + 1)
    }
}

/// What decoding `units` as UTF-16, with each unpaired surrogate replaced by
/// U+FFFD, gives.
pub uninterp spec fn utf16_lossy(units: Seq<u16>) -> Seq<char>;

/// Relies on String::from_utf16_lossy, whose result depends on the units alone
/// and is empty for no units.
#[verifier::external_body]
fn from_utf16_lossy(units: &[u16]) -> (r: String)
    ensures
        r@ == utf16_lossy(units@),
        units@.len() == 0 ==> r@.len() == 0,
{
    String::from_utf16_lossy(units)
}

/// The number of units before the first NUL, or all of them.
pub fn wide_len(units: &[u16]) -> (r: usize)
    ensures
        r == nul_from(units@, 0),
{
    let mut i: usize = 0;
    while i < units.len() && units[i] != 0
        invariant
            i <= units@.len(),
            nul_from(units@, 0) == nul_from(units@, i as int),
        decreases units@.len() - i,
    {
        i = i + 1;
    }
    i
}

impl AdapterDesc {
    /// The adapter's name: the units before the first NUL, decoded.
    pub fn description(&self) -> (r: String)
        ensures
            r@ == utf16_lossy(self.description@.subrange(0, nul_from(self.description@, 0))),
    {
        let units = self.description.as_slice();
        let n = wide_len(units);
        proof {
            assert(0 <= nul_from(units@, 0) <= units@.len()) by {
                lemma_nul_from_bounds(units@, 0);
            }
        }
        from_utf16_lossy(slice_subrange(units, 0, n))
    }
}

proof fn lemma_nul_from_bounds(s: Seq<u16>, i: int)
    requires
        0 <= i <= s.len(),
    ensures
        i <= nul_from(s, i) <= s.len(),
    decreases s.len() - i,
{
    if i < s.len() && s[i] != 0 {
        lemma_nul_from_bounds(s, i + 1);
    }
}

/// The next thing the adapter search asks of the graphics API, or its outcome.
#[derive(Clone, Copy, Debug, PartialEq, Eq, Structural)]
pub enum AdapterStep {
    /// Take the factory's warp adapter.
    UseWarp,
    /// Enumerate adapter `index` and report whether it is a software one.
    Enumerate { index: u32 },
    /// Try to create a device at the required feature level on adapter `index`,
    /// without keeping it.
    DryRun { index: u32 },
    /// Adapter `index` is the one to use.
    Selected { index: u32 },
    /// No adapter qualifies.
    NoCompatibleAdapter,
}

/// What became of an adapter the search has looked at.
#[derive(Clone, Copy, Debug, PartialEq, Eq, Structural)]
pub enum Probe {
    /// A software adapter: skipped.
    Software,
    /// A hardware adapter whose dry run has not reported yet.
    Pending,
    /// A hardware adapter on which no device could be created.
    Failed,
    /// A hardware adapter on which a device could be created.
    Capable,
}

pub open spec fn rejected(p: Probe) -> bool {
    p == Probe::Software || p == Probe::Failed
}

/// The abstract state of an [`AdapterSearch`]: its next step and what it has
/// learned of each adapter, by index.
pub struct AdapterSearchView {
    pub step: AdapterStep,
    pub probes: Seq<Probe>,
}

/// The search for the adapter to create the device on: adapters by index from 0,
/// software ones skipped, the first hardware one on which a device can be created
/// taken. With warp asked for, the search is bypassed.
pub struct AdapterSearch {
    step: AdapterStep,
    probes: Ghost<Seq<Probe>>,
}

impl View for AdapterSearch {
    type V = AdapterSearchView;

    closed spec fn view(&self) -> AdapterSearchView {
        AdapterSearchView { step: self.step, probes: self.probes@ }
    }
}

/// Whether every adapter before `n` was skipped or failed.
pub open spec fn all_rejected(probes: Seq<Probe>, n: int) -> bool {
    forall|k: int| 0 <= k < n ==> rejected(#[trigger] probes[k])
}

impl AdapterSearch {
    /// What each step means of the probes: the adapters before the one at hand
    /// were all rejected; a dry run is pending on the one at hand; a selected one
    /// was capable; without a compatible adapter, all were rejected.
    pub closed spec fn wf(&self) -> bool {
        let p = self.probes@;
        match self.step {
            AdapterStep::UseWarp => p.len() == 0,
            AdapterStep::Enumerate { index } => p.len() == index && all_rejected(p, p.len() as int),
            AdapterStep::DryRun { index } => {
                &&& p.len() == index + 1
                &&& all_rejected(p, index as int)
                &&& p[index as int] == Probe::Pending
            },
            AdapterStep::Selected { index } => {
                &&& p.len() == index + 1
                &&& all_rejected(p, index as int)
                &&& p[index as int] == Probe::Capable
            },
            AdapterStep::NoCompatibleAdapter => all_rejected(p, p.len() as int),
        }
    }

    /// The search's first step: the warp adapter when asked for, else adapter 0.
    pub fn start(use_warp: bool) -> (r: AdapterSearch)
        ensures
            r.wf(),
            r@.probes == Seq::<Probe>::empty(),
            r@.step == (if use_warp {
                AdapterStep::UseWarp
            } else {
                AdapterStep::Enumerate { index: 0 }
            }),
    {
        let step = if use_warp {
            AdapterStep::UseWarp
        } else {
            AdapterStep::Enumerate { index: 0 }
        };
        AdapterSearch { step, probes: Ghost(Seq::empty()) }
    }

    pub fn step(&self) -> (r: AdapterStep)
        ensures
            r == self@.step,
    {
        self.step
    }

    /// Takes what enumerating the current adapter gave: `None` when there is no
    /// adapter at that index, else whether it is a software one. A hardware
    /// adapter gets a dry run; a software one is skipped; past the last index,
    /// or past the largest one, nothing qualifies.
    pub fn on_adapter(&mut self, software: Option<bool>)
        requires
            old(self).wf(),
            old(self)@.step is Enumerate,
        ensures
            final(self).wf(),
            ({
                let index = old(self)@.step->Enumerate_index;
                match software {
                    None => final(self)@ == (AdapterSearchView {
                        step: AdapterStep::NoCompatibleAdapter,
                        ..old(self)@
                    }),
                    Some(false) => final(self)@ == (AdapterSearchView {
                        step: AdapterStep::DryRun { index },
                        probes: old(self)@.probes.push(Probe::Pending),
                    }),
                    Some(true) => final(self)@ == (AdapterSearchView {
                        step: if index < u32::MAX {
                            AdapterStep::Enumerate { index: (index + 1) as u32 }
                        } else {
                            AdapterStep::NoCompatibleAdapter
                        },
                        probes: old(self)@.probes.push(Probe::Software),
                    }),
                }
            }),
    {
        if let AdapterStep::Enumerate { index } = self.step {
            match software {
                None => {
                    self.step = AdapterStep::NoCompatibleAdapter;
                },
                Some(false) => {
                    self.step = AdapterStep::DryRun { index };
                    self.probes = Ghost(self.probes@.push(Probe::Pending));
                },
                Some(true) => {
                    self.probes = Ghost(self.probes@.push(Probe::Software));
                    self.step = if index < u32::MAX {
                        AdapterStep::Enumerate { index: index + 1 }
                    } else {
                        AdapterStep::NoCompatibleAdapter
                    };
                },
            }
        }
    }

    /// Takes whether the dry run on the current adapter created a device: if so
    /// the adapter is selected, else the search moves on to the next index.
    pub fn on_dry_run(&mut self, created: bool)
        requires
            old(self).wf(),
            old(self)@.step is DryRun,
        ensures
            final(self).wf(),
            ({
                let index = old(self)@.step->DryRun_index;
                let probes = old(self)@.probes;
                if created {
                    final(self)@ == (AdapterSearchView {
                        step: AdapterStep::Selected { index },
                        probes: probes.update(index as int, Probe::Capable),
                    })
                } else {
                    final(self)@ == (AdapterSearchView {
                        step: if index < u32::MAX {
                            AdapterStep::Enumerate { index: (index + 1) as u32 }
                        } else {
                            AdapterStep::NoCompatibleAdapter
                        },
                        probes: probes.update(index as int, Probe::Failed),
                    })
                }
            }),
    {
        if let AdapterStep::DryRun { index } = self.step {
            if created {
                self.step = AdapterStep::Selected { index };
                self.probes = Ghost(self.probes@.update(index as int, Probe::Capable));
            } else {
                self.probes = Ghost(self.probes@.update(index as int, Probe::Failed));
                self.step = if index < u32::MAX {
                    AdapterStep::Enumerate { index: index + 1 }
                } else {
                    AdapterStep::NoCompatibleAdapter
                };
            }
        }
    }
}

/// A selected adapter is a hardware one on which a device could be created, and
/// every adapter before it was a software one or could not create a device; when
/// the search fails, every adapter it looked at was rejected.
pub proof fn lemma_selection_is_first_capable(s: AdapterSearch)
    requires
        s.wf(),
    ensures
        s@.step is Selected ==> {
            let index = s@.step->Selected_index as int;
            &&& s@.probes[index] == Probe::Capable
            &&& forall|k: int| 0 <= k < index ==> rejected(#[trigger] s@.probes[k])
        },
        s@.step is NoCompatibleAdapter ==> forall|k: int|
            0 <= k < s@.probes.len() ==> rejected(#[trigger] s@.probes[k]),
{
}

} // verus!
