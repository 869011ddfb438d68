use vstd::prelude::*;

use crate::config::AudioConfig;
use crate::errors::ReadFailure;
use crate::errors::ResourceLoadError;
use crate::events::EVENT_KIND_COUNT;
use crate::events::EventKind;

verus! {

/// The outcome of reading one catalog entry's configured path: `None` when no
/// path is configured, otherwise the file's bytes or why the read failed.
pub type ReadOutcome = Option<Result<Vec<u8>, ReadFailure>>;

/// The bytes an outcome delivered, if it delivered any.
pub open spec fn read_bytes(r: ReadOutcome) -> Option<Seq<u8>> {
    match r {
        Some(Ok(b)) => Some(b@),
        _ => None,
    }
}

/// Whether an outcome is a failed read of a configured path.
pub open spec fn read_failed(r: ReadOutcome) -> bool {
    r matches Some(res) && res is Err
}

/// The failure a failed outcome reported.
pub open spec fn read_failure_of(r: ReadOutcome) -> ReadFailure {
    r->Some_0->Err_0
}

/// One table entry as the bytes it holds, if any.
pub open spec fn entry_view(e: Option<Vec<u8>>) -> Option<Seq<u8>> {
    match e {
        Some(b) => Some(b@),
        None => None,
    }
}

/// The audio resource table: for every event kind, the bytes of its sound, or
/// nothing. Derived from the configuration once at startup and never mutated
/// afterwards; entry `i` belongs to the kind whose catalog index is `i`.
#[derive(Debug)]
pub struct AudioResourceTable {
    pub sounds: Vec<Option<Vec<u8>>>,
}

impl AudioResourceTable {
    /// There is exactly one entry per kind in the catalog.
    pub open spec fn wf(self) -> bool {
        self.sounds@.len() == EVENT_KIND_COUNT
    }

    /// The entry at catalog position `i`.
    pub open spec fn entry_at(self, i: int) -> Option<Seq<u8>> {
        entry_view(self.sounds@[i])
    }

    /// Whether the kind at catalog position `i` holds a sound.
    pub open spec fn has_sound_at(self, i: int) -> bool {
        self.sounds@[i] is Some
    }

    /// Whether `k` holds a sound.
    pub open spec fn has_sound(self, k: EventKind) -> bool {
        self.has_sound_at(k.idx_spec())
    }

    /// The bytes of the sound held for catalog position `i`.
    pub open spec fn sound_at(self, i: int) -> Seq<u8> {
        self.sounds@[i]->Some_0@
    }

    /// The bytes of the sound held for `k`.
    pub open spec fn sound(self, k: EventKind) -> Seq<u8> {
        self.sound_at(k.idx_spec())
    }

    /// The buffer held for `k`, shared with every concurrent reader.
    pub fn buffer(&self, k: EventKind) -> (b: &Option<Vec<u8>>)
        requires
            self.wf(),
        ensures
            b == &self.sounds@[k.idx_spec()],
            entry_view(*b) == self.entry_at(k.idx_spec()),
    {
        let i = k.index();
        &self.sounds[i]
    }
}

/// What it means for a table to be the one the read outcomes describe: entry
/// by entry, exactly the bytes that were read, and nothing for kinds whose
/// path was absent.
pub open spec fn loaded_from(t: AudioResourceTable, reads: Seq<ReadOutcome>) -> bool {
    &&& t.wf()
    &&& reads.len() == EVENT_KIND_COUNT
    &&& forall|i: int| 0 <= i < EVENT_KIND_COUNT ==> t.entry_at(i) == read_bytes(reads[i])
}

/// Loading the same outcomes twice produces byte-identical tables: the table
/// is a function of the read outcomes alone.
pub proof fn lemma_load_idempotent(
    t1: AudioResourceTable,
    t2: AudioResourceTable,
    reads: Seq<ReadOutcome>,
)
    requires
        loaded_from(t1, reads),
        loaded_from(t2, reads),
    ensures
        forall|i: int| 0 <= i < EVENT_KIND_COUNT ==> t1.entry_at(i) == t2.entry_at(i),
{
}

/// An owned copy of a byte buffer, byte for byte.
fn copy_bytes(b: &Vec<u8>) -> (r: Vec<u8>)
    ensures
        r@ == b@,
{
    let mut r: Vec<u8> = Vec::new();
    let mut i: usize = 0;
    while i < b.len()
        invariant
            i <= b@.len(),
            r@.len() == i,
            forall|j: int| 0 <= j < i ==> r@[j] == b@[j],
        decreases b@.len() - i,
    {
        r.push(b[i]);
        i = i + 1;
    }
    r
}

impl AudioResourceTable {
    /// Builds the table from the outcomes of reading every configured path,
    /// all or nothing: if any configured path failed to read, no table is
    /// published and the error names the first failing kind in catalog order.
    /// An absent path is not an error and yields an empty entry.
    pub fn load(config: &AudioConfig, reads: &Vec<ReadOutcome>) -> (r: Result<
        AudioResourceTable,
        ResourceLoadError,
    >)
        requires
            config.wf(),
            reads@.len() == EVENT_KIND_COUNT,
            forall|i: int|
                0 <= i < EVENT_KIND_COUNT ==> (reads@[i] is Some <==> config.configured_at(i)),
        ensures
            r is Ok <==> (forall|i: int| 0 <= i < EVENT_KIND_COUNT ==> !read_failed(reads@[i])),
            r matches Ok(t) ==> loaded_from(t, reads@) && (forall|i: int|
                0 <= i < EVENT_KIND_COUNT ==> (t.has_sound_at(i) <==> config.configured_at(i))),
            r matches Err(e) ==> {
                &&& 0 <= e.kind.idx_spec() < EVENT_KIND_COUNT
                &&& read_failed(reads@[e.kind.idx_spec()])
                &&& e.failure == read_failure_of(reads@[e.kind.idx_spec()])
                &&& forall|j: int| 0 <= j < e.kind.idx_spec() ==> !read_failed(reads@[j])
            },
    {
        let mut sounds: Vec<Option<Vec<u8>>> = Vec::new();
        let mut i: usize = 0;
        while i < EVENT_KIND_COUNT
            invariant
                i <= EVENT_KIND_COUNT,
                reads@.len() == EVENT_KIND_COUNT,
                sounds@.len() == i,
                forall|j: int| 0 <= j < i ==> !read_failed(reads@[j]),
                forall|j: int| 0 <= j < i ==> entry_view(sounds@[j]) == read_bytes(reads@[j]),
            decreases EVENT_KIND_COUNT - i,
        {
            match &reads[i] {
                None => {
                    sounds.push(None);
                },
                Some(Ok(b)) => {
                    sounds.push(Some(copy_bytes(b)));
                },
                Some(Err(f)) => {
                    return Err(ResourceLoadError { kind: EventKind::from_index(i), failure: *f });
                },
            }
            i = i + 1;
        }
        Ok(AudioResourceTable { sounds })
    }
}

} // verus!
