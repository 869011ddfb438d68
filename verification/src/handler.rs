use vstd::prelude::*;

use crate::config::AudioConfig;
use crate::errors::ResourceLoadError;
use crate::events::EVENT_KIND_COUNT;
use crate::events::EventKind;
use crate::events::kind_at;
use crate::events::lemma_kind_at_idx;
use crate::playback::PlayOutcome;
use crate::playback::play_audio;
use crate::playback::play_result_for;
use crate::registry::AttachResult;
use crate::registry::DocumentRegistry;
use crate::registry::attach_next;
use crate::table::AudioResourceTable;
use crate::table::ReadOutcome;
use crate::table::loaded_from;
use crate::table::read_failed;
use crate::table::read_failure_of;

verus! {

/// The minimal set of event kinds the dispatcher needs delivered: exactly the
/// kinds whose table entry holds a sound. Bit `i` speaks of the kind at
/// catalog position `i`.
#[derive(Debug)]
pub struct SubscriptionMask {
    pub bits: Vec<bool>,
}

impl SubscriptionMask {
    /// There is exactly one bit per kind in the catalog.
    pub open spec fn wf(self) -> bool {
        self.bits@.len() == EVENT_KIND_COUNT
    }

    /// Whether the kind at catalog position `i` is subscribed to.
    pub open spec fn contains_at(self, i: int) -> bool {
        self.bits@[i]
    }

    /// Whether `k` is subscribed to.
    pub open spec fn contains_spec(self, k: EventKind) -> bool {
        self.contains_at(k.idx_spec())
    }

    /// Whether `k` is subscribed to.
    pub fn contains(&self, k: EventKind) -> (r: bool)
        requires
            self.wf(),
        ensures
            r == self.contains_spec(k),
    {
        let i = k.index();
        self.bits[i]
    }

    /// The masked kinds in catalog order: what the host is asked to deliver.
    /// The request lists every masked kind and no other.
    pub fn kinds(&self) -> (v: Vec<EventKind>)
        requires
            self.wf(),
        ensures
            forall|j: int| 0 <= j < v@.len() ==> self.contains_spec(v@[j]),
            forall|k: EventKind| self.contains_spec(k) ==> v@.contains(k),
            forall|j1: int, j2: int|
                0 <= j1 < j2 < v@.len() ==> v@[j1].idx_spec() < v@[j2].idx_spec(),
    {
        let mut v: Vec<EventKind> = Vec::new();
        let mut i: usize = 0;
        while i < EVENT_KIND_COUNT
            invariant
                self.wf(),
                i <= EVENT_KIND_COUNT,
                forall|j: int| 0 <= j < v@.len() ==> self.contains_spec(v@[j]),
                forall|ii: int| 0 <= ii < i && self.contains_at(ii) ==> v@.contains(kind_at(ii)),
                forall|j: int| 0 <= j < v@.len() ==> v@[j].idx_spec() < i,
                forall|j1: int, j2: int|
                    0 <= j1 < j2 < v@.len() ==> v@[j1].idx_spec() < v@[j2].idx_spec(),
            decreases EVENT_KIND_COUNT - i,
        {
            if self.bits[i] {
                let ghost before = v@;
                let k = EventKind::from_index(i);
                v.push(k);
                proof {
                    assert(v@[before.len() as int] == kind_at(i as int));
                    assert forall|ii: int|
                        0 <= ii < i && self.contains_at(ii) implies v@.contains(kind_at(ii)) by {
                        let j = choose|j: int| 0 <= j < before.len() && before[j] == kind_at(ii);
                        assert(v@[j] == kind_at(ii));
                    }
                }
            }
            i = i + 1;
        }
        proof {
            assert forall|k: EventKind| self.contains_spec(k) implies v@.contains(k) by {
                lemma_kind_at_idx(k);
            }
        }
        v
    }
}

/// What the playback engine reports for kind `k` against table `t`: nothing
/// for a kind with no sound, a submitted stream exactly when the held bytes
/// decode, and an isolated decode failure naming `k` otherwise.
pub open spec fn played_for(t: AudioResourceTable, k: EventKind, r: PlayOutcome) -> bool {
    play_result_for(t.entry_at(k.idx_spec()), k, r)
}

/// The process singleton's core: the immutable audio resource table and the
/// registration guard state. The live output-device handle stays at the host
/// edge. Callback invocations may run concurrently: they share `audio`
/// read-only, and the caller takes the registry under one exclusive lock.
#[derive(Debug)]
pub struct SoundHandler {
    pub audio: AudioResourceTable,
    pub registry: DocumentRegistry,
}

/// What one "initial analysis complete" announcement led to.
pub enum AttachOutcome {
    /// First sighting of the document: the document-opened sound plays and
    /// the host is asked to deliver exactly the masked kinds for it.
    Attached { request: Vec<EventKind>, started: PlayOutcome },
    /// A repeated announcement: nothing is registered a second time.
    AlreadyAttached,
}

impl SoundHandler {
    pub open spec fn wf(self) -> bool {
        &&& self.audio.wf()
        &&& self.registry.wf()
    }

    /// Builds the singleton core from the outcomes of reading every
    /// configured path: the resource table all or nothing, an empty registry,
    /// and the startup sound's playback outcome. When any configured path
    /// failed to read, nothing is constructed and the error names the first
    /// failing kind.
    pub fn new(config: &AudioConfig, reads: &Vec<ReadOutcome>) -> (r: Result<
        (SoundHandler, PlayOutcome),
        ResourceLoadError,
    >)
        requires
            config.wf(),
            reads@.len() == EVENT_KIND_COUNT,
            forall|i: int|
                0 <= i < EVENT_KIND_COUNT ==> (reads@[i] is Some <==> config.configured_at(i)),
        ensures
            r is Ok <==> (forall|i: int| 0 <= i < EVENT_KIND_COUNT ==> !read_failed(reads@[i])),
            r matches Ok((h, started)) ==> {
                &&& h.wf()
                &&& loaded_from(h.audio, reads@)
                &&& (forall|i: int|
                    0 <= i < EVENT_KIND_COUNT ==> (h.audio.has_sound_at(i)
                        <==> config.configured_at(i)))
                &&& h.registry.ids@ =~= Seq::<u64>::empty()
                &&& played_for(h.audio, EventKind::StartBinaryNinja, started)
            },
            r matches Err(e) ==> {
                &&& 0 <= e.kind.idx_spec() < EVENT_KIND_COUNT
                &&& read_failed(reads@[e.kind.idx_spec()])
                &&& e.failure == read_failure_of(reads@[e.kind.idx_spec()])
                &&& forall|j: int| 0 <= j < e.kind.idx_spec() ==> !read_failed(reads@[j])
            },
    {
        let audio = match AudioResourceTable::load(config, reads) {
            Ok(t) => t,
            Err(e) => {
                return Err(e);
            },
        };
        let started = play_audio(
            audio.buffer(EventKind::StartBinaryNinja),
            EventKind::StartBinaryNinja,
        );
        Ok((SoundHandler { audio, registry: DocumentRegistry::new() }, started))
    }

    /// Derives the subscription mask from the table: a kind is subscribed to
    /// exactly when its table entry holds a sound. Pure and deterministic.
    pub fn triggers(&self) -> (m: SubscriptionMask)
        requires
            self.wf(),
        ensures
            m.wf(),
            forall|i: int|
                0 <= i < EVENT_KIND_COUNT ==> (m.contains_at(i) <==> self.audio.has_sound_at(i)),
            forall|k: EventKind| m.contains_spec(k) <==> self.audio.has_sound(k),
    {
        let mut bits: Vec<bool> = Vec::new();
        let mut i: usize = 0;
        while i < EVENT_KIND_COUNT
            invariant
                self.wf(),
                i <= EVENT_KIND_COUNT,
                bits@.len() == i,
                forall|j: int| 0 <= j < i ==> (bits@[j] <==> self.audio.has_sound_at(j)),
            decreases EVENT_KIND_COUNT - i,
        {
            bits.push(self.audio.sounds[i].is_some());
            i = i + 1;
        }
        let m = SubscriptionMask { bits };
        proof {
            assert forall|k: EventKind| m.contains_spec(k) <==> self.audio.has_sound(k) by {
                lemma_kind_at_idx(k);
            }
        }
        m
    }

    /// The dispatcher's one entry point: routes an event occurrence to the
    /// playback engine through the table, keyed by the event kind alone; the
    /// event's payload is never read.
    pub fn dispatch(&self, k: EventKind) -> (r: PlayOutcome)
        requires
            self.wf(),
        ensures
            played_for(self.audio, k, r),
    {
        play_audio(self.audio.buffer(k), k)
    }

    /// The host announced that a document finished its first analysis pass.
    /// On first sighting the registry records the identity, the
    /// document-opened sound plays, and the subscription request lists
    /// exactly the kinds holding a sound; a repeated announcement changes
    /// nothing and asks for nothing.
    pub fn on_analysis_complete(&mut self, doc: u64) -> (r: AttachOutcome)
        requires
            old(self).wf(),
        ensures
            final(self).wf(),
            final(self).audio == old(self).audio,
            final(self).registry.ids@ == attach_next(old(self).registry.ids@, doc),
            old(self).registry.contains_spec(doc) ==> (r is AlreadyAttached
                && final(self).registry.ids@ == old(self).registry.ids@),
            !old(self).registry.contains_spec(doc) ==> {
                &&& final(self).registry.ids@.len() == old(self).registry.ids@.len() + 1
                &&& r matches AttachOutcome::Attached { request, started }
                &&& forall|j: int|
                    0 <= j < request@.len() ==> old(self).audio.has_sound(request@[j])
                &&& forall|k: EventKind| old(self).audio.has_sound(k) ==> request@.contains(k)
                &&& forall|j1: int, j2: int|
                    0 <= j1 < j2 < request@.len() ==> request@[j1].idx_spec()
                        < request@[j2].idx_spec()
                &&& played_for(old(self).audio, EventKind::StartBinaryView, started)
            },
    {
        match self.registry.try_attach(doc) {
            AttachResult::AlreadyAttached => AttachOutcome::AlreadyAttached,
            AttachResult::Attached => {
                let started = play_audio(
                    self.audio.buffer(EventKind::StartBinaryView),
                    EventKind::StartBinaryView,
                );
                let mask = self.triggers();
                let request = mask.kinds();
                proof {
                    assert forall|j: int|
                        0 <= j < request@.len() implies self.audio.has_sound(request@[j]) by {
                        assert(mask.contains_spec(request@[j]));
                    }
                    assert forall|k: EventKind|
                        self.audio.has_sound(k) implies request@.contains(k) by {
                        assert(mask.contains_spec(k));
                    }
                }
                AttachOutcome::Attached { request, started }
            },
        }
    }
}

/// The fixed numeric default a barrier-style callback answers the host with:
/// the dispatcher purely observes and never alters host behavior, so the
/// answer is the protocol's no-op value whatever was or was not played.
pub fn barrier_response() -> (r: u64)
    ensures
        r == 0,
{
    0
}

/// Unconfigured kinds are inert: a kind whose path is absent from the
/// configuration is never in the mask the host is asked for, and dispatching
/// an occurrence of it plays nothing.
pub proof fn lemma_unconfigured_kind_silent(
    config: AudioConfig,
    t: AudioResourceTable,
    m: SubscriptionMask,
    k: EventKind,
    r: PlayOutcome,
)
    requires
        config.wf(),
        t.wf(),
        forall|i: int| 0 <= i < EVENT_KIND_COUNT ==> (t.has_sound_at(i) <==> config.configured_at(i)),
        forall|i: int| 0 <= i < EVENT_KIND_COUNT ==> (m.contains_at(i) <==> t.has_sound_at(i)),
        !config.configured(k),
        played_for(t, k, r),
    ensures
        !m.contains_spec(k),
        r is NoSound,
{
    lemma_kind_at_idx(k);
}

} // verus!
