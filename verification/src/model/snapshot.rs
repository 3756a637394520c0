use vstd::prelude::*;

verus! {

/// The header of a snapshot: what is read once, before any record.
#[derive(Debug, PartialEq, Eq)]
pub struct Snapshot {
    id_size: u32,
    version: String,
    timestamp: u64,
}

/// Model of a [`Snapshot`].
pub struct SnapshotView {
    /// declared size of an identifier, in bytes
    pub id_size: u32,
    /// format version
    pub version: Seq<char>,
    /// base timestamp, in milliseconds
    pub timestamp: u64,
}

impl View for Snapshot {
    type V = SnapshotView;

    closed spec fn view(&self) -> SnapshotView {
        SnapshotView { id_size: self.id_size, version: self.version@, timestamp: self.timestamp }
    }
}

impl Snapshot {
    pub fn new(id_size: u32, version: String, timestamp: u64) -> (snapshot: Snapshot)
        ensures
            snapshot@ == (SnapshotView { id_size, version: version@, timestamp }),
    {
        Snapshot { id_size, version, timestamp }
    }

    pub fn get_id_size(&self) -> (id_size: u32)
        ensures
            id_size == self@.id_size,
    {
        self.id_size
    }

    pub fn get_version(&self) -> (version: &String)
        ensures
            version@ == self@.version,
    {
        &self.version
    }

    pub fn get_timestamp(&self) -> (timestamp: u64)
        ensures
            timestamp == self@.timestamp,
    {
        self.timestamp
    }
}

} // verus!
