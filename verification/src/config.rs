use vstd::prelude::*;

use crate::events::EVENT_KIND_COUNT;
use crate::events::EventKind;

verus! {

/// The audio mapping: for every event kind in the catalog, an optional file
/// path. An absent path means "no sound for this kind" and is not an error.
/// Entry `i` belongs to the kind whose catalog index is `i`.
#[derive(Debug)]
pub struct AudioConfig {
    pub paths: Vec<Option<String>>,
}

impl AudioConfig {
    /// There is exactly one entry per kind in the catalog.
    pub open spec fn wf(self) -> bool {
        self.paths@.len() == EVENT_KIND_COUNT
    }

    /// Whether the kind at catalog position `i` has a configured path.
    pub open spec fn configured_at(self, i: int) -> bool {
        self.paths@[i] is Some
    }

    /// Whether `k` has a configured path.
    pub open spec fn configured(self, k: EventKind) -> bool {
        self.configured_at(k.idx_spec())
    }

    /// A configuration with no sound for any kind.
    pub fn empty() -> (c: AudioConfig)
        ensures
            c.wf(),
            forall|i: int| 0 <= i < EVENT_KIND_COUNT ==> !c.configured_at(i),
    {
        let mut paths: Vec<Option<String>> = Vec::new();
        let mut i: usize = 0;
        while i < EVENT_KIND_COUNT
            invariant
                i <= EVENT_KIND_COUNT,
                paths@.len() == i,
                forall|j: int| 0 <= j < i ==> paths@[j] is None,
            decreases EVENT_KIND_COUNT - i,
        {
            paths.push(None);
            i = i + 1;
        }
        AudioConfig { paths }
    }

    /// Sets or clears the path configured for `k`, leaving every other entry
    /// as it was.
    pub fn set_path(&mut self, k: EventKind, path: Option<String>)
        requires
            old(self).wf(),
        ensures
            final(self).wf(),
            final(self).paths@ == old(self).paths@.update(k.idx_spec(), path),
    {
        let i = k.index();
        self.paths.set(i, path);
    }

    /// The path configured for `k`, if any.
    pub fn path(&self, k: EventKind) -> (p: &Option<String>)
        requires
            self.wf(),
        ensures
            p == &self.paths@[k.idx_spec()],
    {
        let i = k.index();
        &self.paths[i]
    }
}

/// The configuration document: one audio mapping shared by every document the
/// host opens.
#[derive(Debug)]
pub struct Config {
    pub files: AudioConfig,
}

} // verus!
