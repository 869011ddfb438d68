use vstd::prelude::*;

verus! {

/// Number of members in the event catalog.
pub const EVENT_KIND_COUNT: usize = 57;

/// One member of the fixed catalog of lifecycle events: the kinds the host
/// can raise on a document, plus the four process/document lifecycle sounds
/// the dispatcher triggers itself.
#[derive(Clone, Copy, Debug, PartialEq, Eq, Structural)]
pub enum EventKind {
    StartBinaryNinja,
    EndBinaryNinja,
    StartBinaryView,
    EndBinaryView,
    NotificationBarrier,
    DataWritten,
    DataInserted,
    DataRemoved,
    FunctionAdded,
    FunctionRemoved,
    FunctionUpdated,
    FunctionUpdateRequested,
    DataVariableAdded,
    DataVariableRemoved,
    DataVariableUpdated,
    DataMetadataUpdated,
    TagTypeUpdated,
    TagAdded,
    TagRemoved,
    TagUpdated,
    SymbolAdded,
    SymbolRemoved,
    SymbolUpdated,
    StringFound,
    StringRemoved,
    TypeDefined,
    TypeUndefined,
    TypeReferenceChanged,
    TypeFieldReferenceChanged,
    SegmentAdded,
    SegmentRemoved,
    SegmentUpdated,
    SectionAdded,
    SectionRemoved,
    SectionUpdated,
    ComponentNameUpdated,
    ComponentAdded,
    ComponentMoved,
    ComponentRemoved,
    ComponentFunctionAdded,
    ComponentFunctionRemoved,
    ComponentDataVariableAdded,
    ComponentDataVariableRemoved,
    ExternalLibraryAdded,
    ExternalLibraryUpdated,
    ExternalLibraryRemoved,
    ExternalLocationAdded,
    ExternalLocationUpdated,
    ExternalLocationRemoved,
    TypeArchiveAttached,
    TypeArchiveDetached,
    TypeArchiveConnected,
    TypeArchiveDisconnected,
    UndoEntryAdded,
    UndoEntryTaken,
    RedoEntryTaken,
    Rebased,
}

impl EventKind {
    /// Position of this kind in the catalog; tables and masks are indexed by it.
    pub open spec fn idx_spec(self) -> int {
        match self {
            EventKind::StartBinaryNinja => 0,
            EventKind::EndBinaryNinja => 1,
            EventKind::StartBinaryView => 2,
            EventKind::EndBinaryView => 3,
            EventKind::NotificationBarrier => 4,
            EventKind::DataWritten => 5,
            EventKind::DataInserted => 6,
            EventKind::DataRemoved => 7,
            EventKind::FunctionAdded => 8,
            EventKind::FunctionRemoved => 9,
            EventKind::FunctionUpdated => 10,
            EventKind::FunctionUpdateRequested => 11,
            EventKind::DataVariableAdded => 12,
            EventKind::DataVariableRemoved => 13,
            EventKind::DataVariableUpdated => 14,
            EventKind::DataMetadataUpdated => 15,
            EventKind::TagTypeUpdated => 16,
            EventKind::TagAdded => 17,
            EventKind::TagRemoved => 18,
            EventKind::TagUpdated => 19,
            EventKind::SymbolAdded => 20,
            EventKind::SymbolRemoved => 21,
            EventKind::SymbolUpdated => 22,
            EventKind::StringFound => 23,
            EventKind::StringRemoved => 24,
            EventKind::TypeDefined => 25,
            EventKind::TypeUndefined => 26,
            EventKind::TypeReferenceChanged => 27,
            EventKind::TypeFieldReferenceChanged => 28,
            EventKind::SegmentAdded => 29,
            EventKind::SegmentRemoved => 30,
            EventKind::SegmentUpdated => 31,
            EventKind::SectionAdded => 32,
            EventKind::SectionRemoved => 33,
            EventKind::SectionUpdated => 34,
            EventKind::ComponentNameUpdated => 35,
            EventKind::ComponentAdded => 36,
            EventKind::ComponentMoved => 37,
            EventKind::ComponentRemoved => 38,
            EventKind::ComponentFunctionAdded => 39,
            EventKind::ComponentFunctionRemoved => 40,
            EventKind::ComponentDataVariableAdded => 41,
            EventKind::ComponentDataVariableRemoved => 42,
            EventKind::ExternalLibraryAdded => 43,
            EventKind::ExternalLibraryUpdated => 44,
            EventKind::ExternalLibraryRemoved => 45,
            EventKind::ExternalLocationAdded => 46,
            EventKind::ExternalLocationUpdated => 47,
            EventKind::ExternalLocationRemoved => 48,
            EventKind::TypeArchiveAttached => 49,
            EventKind::TypeArchiveDetached => 50,
            EventKind::TypeArchiveConnected => 51,
            EventKind::TypeArchiveDisconnected => 52,
            EventKind::UndoEntryAdded => 53,
            EventKind::UndoEntryTaken => 54,
            EventKind::RedoEntryTaken => 55,
            EventKind::Rebased => 56,
        }
    }

    pub fn index(self) -> (i: usize)
        ensures
            i == self.idx_spec(),
            i < EVENT_KIND_COUNT,
    {
        match self {
            EventKind::StartBinaryNinja => 0,
            EventKind::EndBinaryNinja => 1,
            EventKind::StartBinaryView => 2,
            EventKind::EndBinaryView => 3,
            EventKind::NotificationBarrier => 4,
            EventKind::DataWritten => 5,
            EventKind::DataInserted => 6,
            EventKind::DataRemoved => 7,
            EventKind::FunctionAdded => 8,
            EventKind::FunctionRemoved => 9,
            EventKind::FunctionUpdated => 10,
            EventKind::FunctionUpdateRequested => 11,
            EventKind::DataVariableAdded => 12,
            EventKind::DataVariableRemoved => 13,
            EventKind::DataVariableUpdated => 14,
            EventKind::DataMetadataUpdated => 15,
            EventKind::TagTypeUpdated => 16,
            EventKind::TagAdded => 17,
            EventKind::TagRemoved => 18,
            EventKind::TagUpdated => 19,
            EventKind::SymbolAdded => 20,
            EventKind::SymbolRemoved => 21,
            EventKind::SymbolUpdated => 22,
            EventKind::StringFound => 23,
            EventKind::StringRemoved => 24,
            EventKind::TypeDefined => 25,
            EventKind::TypeUndefined => 26,
            EventKind::TypeReferenceChanged => 27,
            EventKind::TypeFieldReferenceChanged => 28,
            EventKind::SegmentAdded => 29,
            EventKind::SegmentRemoved => 30,
            EventKind::SegmentUpdated => 31,
            EventKind::SectionAdded => 32,
            EventKind::SectionRemoved => 33,
            EventKind::SectionUpdated => 34,
            EventKind::ComponentNameUpdated => 35,
            EventKind::ComponentAdded => 36,
            EventKind::ComponentMoved => 37,
            EventKind::ComponentRemoved => 38,
            EventKind::ComponentFunctionAdded => 39,
            EventKind::ComponentFunctionRemoved => 40,
            EventKind::ComponentDataVariableAdded => 41,
            EventKind::ComponentDataVariableRemoved => 42,
            EventKind::ExternalLibraryAdded => 43,
            EventKind::ExternalLibraryUpdated => 44,
            EventKind::ExternalLibraryRemoved => 45,
            EventKind::ExternalLocationAdded => 46,
            EventKind::ExternalLocationUpdated => 47,
            EventKind::ExternalLocationRemoved => 48,
            EventKind::TypeArchiveAttached => 49,
            EventKind::TypeArchiveDetached => 50,
            EventKind::TypeArchiveConnected => 51,
            EventKind::TypeArchiveDisconnected => 52,
            EventKind::UndoEntryAdded => 53,
            EventKind::UndoEntryTaken => 54,
            EventKind::RedoEntryTaken => 55,
            EventKind::Rebased => 56,
        }
    }

    pub fn from_index(i: usize) -> (k: EventKind)
        requires
            i < EVENT_KIND_COUNT,
        ensures
            k == kind_at(i as int),
            k.idx_spec() == i as int,
    {
        match i {
            0 => EventKind::StartBinaryNinja,
            1 => EventKind::EndBinaryNinja,
            2 => EventKind::StartBinaryView,
            3 => EventKind::EndBinaryView,
            4 => EventKind::NotificationBarrier,
            5 => EventKind::DataWritten,
            6 => EventKind::DataInserted,
            7 => EventKind::DataRemoved,
            8 => EventKind::FunctionAdded,
            9 => EventKind::FunctionRemoved,
            10 => EventKind::FunctionUpdated,
            11 => EventKind::FunctionUpdateRequested,
            12 => EventKind::DataVariableAdded,
            13 => EventKind::DataVariableRemoved,
            14 => EventKind::DataVariableUpdated,
            15 => EventKind::DataMetadataUpdated,
            16 => EventKind::TagTypeUpdated,
            17 => EventKind::TagAdded,
            18 => EventKind::TagRemoved,
            19 => EventKind::TagUpdated,
            20 => EventKind::SymbolAdded,
            21 => EventKind::SymbolRemoved,
            22 => EventKind::SymbolUpdated,
            23 => EventKind::StringFound,
            24 => EventKind::StringRemoved,
            25 => EventKind::TypeDefined,
            26 => EventKind::TypeUndefined,
            27 => EventKind::TypeReferenceChanged,
            28 => EventKind::TypeFieldReferenceChanged,
            29 => EventKind::SegmentAdded,
            30 => EventKind::SegmentRemoved,
            31 => EventKind::SegmentUpdated,
            32 => EventKind::SectionAdded,
            33 => EventKind::SectionRemoved,
            34 => EventKind::SectionUpdated,
            35 => EventKind::ComponentNameUpdated,
            36 => EventKind::ComponentAdded,
            37 => EventKind::ComponentMoved,
            38 => EventKind::ComponentRemoved,
            39 => EventKind::ComponentFunctionAdded,
            40 => EventKind::ComponentFunctionRemoved,
            41 => EventKind::ComponentDataVariableAdded,
            42 => EventKind::ComponentDataVariableRemoved,
            43 => EventKind::ExternalLibraryAdded,
            44 => EventKind::ExternalLibraryUpdated,
            45 => EventKind::ExternalLibraryRemoved,
            46 => EventKind::ExternalLocationAdded,
            47 => EventKind::ExternalLocationUpdated,
            48 => EventKind::ExternalLocationRemoved,
            49 => EventKind::TypeArchiveAttached,
            50 => EventKind::TypeArchiveDetached,
            51 => EventKind::TypeArchiveConnected,
            52 => EventKind::TypeArchiveDisconnected,
            53 => EventKind::UndoEntryAdded,
            54 => EventKind::UndoEntryTaken,
            55 => EventKind::RedoEntryTaken,
            _ => EventKind::Rebased,
        }
    }
}

/// The kind standing at a given catalog position.
pub open spec fn kind_at(i: int) -> EventKind {
    if i == 0 {
        EventKind::StartBinaryNinja
    }
    else if i == 1 {
        EventKind::EndBinaryNinja
    }
    else if i == 2 {
        EventKind::StartBinaryView
    }
    else if i == 3 {
        EventKind::EndBinaryView
    }
    else if i == 4 {
        EventKind::NotificationBarrier
    }
    else if i == 5 {
        EventKind::DataWritten
    }
    else if i == 6 {
        EventKind::DataInserted
    }
    else if i == 7 {
        EventKind::DataRemoved
    }
    else if i == 8 {
        EventKind::FunctionAdded
    }
    else if i == 9 {
        EventKind::FunctionRemoved
    }
    else if i == 10 {
        EventKind::FunctionUpdated
    }
    else if i == 11 {
        EventKind::FunctionUpdateRequested
    }
    else if i == 12 {
        EventKind::DataVariableAdded
    }
    else if i == 13 {
        EventKind::DataVariableRemoved
    }
    else if i == 14 {
        EventKind::DataVariableUpdated
    }
    else if i == 15 {
        EventKind::DataMetadataUpdated
    }
    else if i == 16 {
        EventKind::TagTypeUpdated
    }
    else if i == 17 {
        EventKind::TagAdded
    }
    else if i == 18 {
        EventKind::TagRemoved
    }
    else if i == 19 {
        EventKind::TagUpdated
    }
    else if i == 20 {
        EventKind::SymbolAdded
    }
    else if i == 21 {
        EventKind::SymbolRemoved
    }
    else if i == 22 {
        EventKind::SymbolUpdated
    }
    else if i == 23 {
        EventKind::StringFound
    }
    else if i == 24 {
        EventKind::StringRemoved
    }
    else if i == 25 {
        EventKind::TypeDefined
    }
    else if i == 26 {
        EventKind::TypeUndefined
    }
    else if i == 27 {
        EventKind::TypeReferenceChanged
    }
    else if i == 28 {
        EventKind::TypeFieldReferenceChanged
    }
    else if i == 29 {
        EventKind::SegmentAdded
    }
    else if i == 30 {
        EventKind::SegmentRemoved
    }
    else if i == 31 {
        EventKind::SegmentUpdated
    }
    else if i == 32 {
        EventKind::SectionAdded
    }
    else if i == 33 {
        EventKind::SectionRemoved
    }
    else if i == 34 {
        EventKind::SectionUpdated
    }
    else if i == 35 {
        EventKind::ComponentNameUpdated
    }
    else if i == 36 {
        EventKind::ComponentAdded
    }
    else if i == 37 {
        EventKind::ComponentMoved
    }
    else if i == 38 {
        EventKind::ComponentRemoved
    }
    else if i == 39 {
        EventKind::ComponentFunctionAdded
    }
    else if i == 40 {
        EventKind::ComponentFunctionRemoved
    }
    else if i == 41 {
        EventKind::ComponentDataVariableAdded
    }
    else if i == 42 {
        EventKind::ComponentDataVariableRemoved
    }
    else if i == 43 {
        EventKind::ExternalLibraryAdded
    }
    else if i == 44 {
        EventKind::ExternalLibraryUpdated
    }
    else if i == 45 {
        EventKind::ExternalLibraryRemoved
    }
    else if i == 46 {
        EventKind::ExternalLocationAdded
    }
    else if i == 47 {
        EventKind::ExternalLocationUpdated
    }
    else if i == 48 {
        EventKind::ExternalLocationRemoved
    }
    else if i == 49 {
        EventKind::TypeArchiveAttached
    }
    else if i == 50 {
        EventKind::TypeArchiveDetached
    }
    else if i == 51 {
        EventKind::TypeArchiveConnected
    }
    else if i == 52 {
        EventKind::TypeArchiveDisconnected
    }
    else if i == 53 {
        EventKind::UndoEntryAdded
    }
    else if i == 54 {
        EventKind::UndoEntryTaken
    }
    else if i == 55 {
        EventKind::RedoEntryTaken
    }
    else {
        EventKind::Rebased
    }
}

/// Each kind stands at the position its index names: indexing is a bijection
/// between the catalog and the positions 0 .. EVENT_KIND_COUNT.
pub proof fn lemma_kind_at_idx(k: EventKind)
    ensures
        kind_at(k.idx_spec()) == k,
        0 <= k.idx_spec() < EVENT_KIND_COUNT,
{
    match k {
        EventKind::StartBinaryNinja => {},
        EventKind::EndBinaryNinja => {},
        EventKind::StartBinaryView => {},
        EventKind::EndBinaryView => {},
        EventKind::NotificationBarrier => {},
        EventKind::DataWritten => {},
        EventKind::DataInserted => {},
        EventKind::DataRemoved => {},
        EventKind::FunctionAdded => {},
        EventKind::FunctionRemoved => {},
        EventKind::FunctionUpdated => {},
        EventKind::FunctionUpdateRequested => {},
        EventKind::DataVariableAdded => {},
        EventKind::DataVariableRemoved => {},
        EventKind::DataVariableUpdated => {},
        EventKind::DataMetadataUpdated => {},
        EventKind::TagTypeUpdated => {},
        EventKind::TagAdded => {},
        EventKind::TagRemoved => {},
        EventKind::TagUpdated => {},
        EventKind::SymbolAdded => {},
        EventKind::SymbolRemoved => {},
        EventKind::SymbolUpdated => {},
        EventKind::StringFound => {},
        EventKind::StringRemoved => {},
        EventKind::TypeDefined => {},
        EventKind::TypeUndefined => {},
        EventKind::TypeReferenceChanged => {},
        EventKind::TypeFieldReferenceChanged => {},
        EventKind::SegmentAdded => {},
        EventKind::SegmentRemoved => {},
        EventKind::SegmentUpdated => {},
        EventKind::SectionAdded => {},
        EventKind::SectionRemoved => {},
        EventKind::SectionUpdated => {},
        EventKind::ComponentNameUpdated => {},
        EventKind::ComponentAdded => {},
        EventKind::ComponentMoved => {},
        EventKind::ComponentRemoved => {},
        EventKind::ComponentFunctionAdded => {},
        EventKind::ComponentFunctionRemoved => {},
        EventKind::ComponentDataVariableAdded => {},
        EventKind::ComponentDataVariableRemoved => {},
        EventKind::ExternalLibraryAdded => {},
        EventKind::ExternalLibraryUpdated => {},
        EventKind::ExternalLibraryRemoved => {},
        EventKind::ExternalLocationAdded => {},
        EventKind::ExternalLocationUpdated => {},
        EventKind::ExternalLocationRemoved => {},
        EventKind::TypeArchiveAttached => {},
        EventKind::TypeArchiveDetached => {},
        EventKind::TypeArchiveConnected => {},
        EventKind::TypeArchiveDisconnected => {},
        EventKind::UndoEntryAdded => {},
        EventKind::UndoEntryTaken => {},
        EventKind::RedoEntryTaken => {},
        EventKind::Rebased => {},
    }
}

/// The whole catalog, in index order.
pub fn all_kinds() -> (v: Vec<EventKind>)
    ensures
        v@.len() == EVENT_KIND_COUNT,
        forall|i: int| 0 <= i < v@.len() ==> v@[i] == kind_at(i),
{
    let mut v: Vec<EventKind> = Vec::new();
    let mut i: usize = 0;
    while i < EVENT_KIND_COUNT
        invariant
            i <= EVENT_KIND_COUNT,
            v@.len() == i,
            forall|j: int| 0 <= j < i ==> v@[j] == kind_at(j),
        decreases EVENT_KIND_COUNT - i,
    {
        v.push(EventKind::from_index(i));
        i = i + 1;
    }
    v
}

} // verus!
