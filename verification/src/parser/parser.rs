use std::collections::HashMap;
use vstd::prelude::*;

use crate::io::error::ParseError;
use crate::model::snapshot::{Snapshot, SnapshotView};
use crate::parser::hprof::{
    names, next_record, read_preamble, spec_name_from_id, spec_preamble, spec_read, spec_stream,
    EntryView, Record, RecordView,
};
use crate::parser::reader::Reader;
use crate::store::base::{Class, ClassView, STATUS_LOADED, STATUS_UNLOADED};
use crate::store::class::{class_views, load_class, spec_load, spec_unload, unload_class};

verus! {

broadcast use vstd::std_specs::hash::group_hash_axioms;

/// Model of the two tables that a pass fills.
pub struct TablesView {
    /// names by identifier
    pub symbols: Map<u64, Seq<char>>,
    /// classes by serial number
    pub classes: Map<u32, ClassView>,
}

/// The tables before the first record.
pub open spec fn spec_no_tables() -> TablesView {
    TablesView { symbols: Map::empty(), classes: Map::empty() }
}

/// The tables after one more record. A symbol record enters its name under
/// its identifier. A load-class record enters the class under its serial
/// number, with the display name that its name id has at that moment. An
/// unload-class record marks the class. No other record changes a table.
pub open spec fn spec_apply(record: RecordView, tables: TablesView) -> TablesView {
    match record {
        RecordView::Utf8(utf8) => TablesView {
            symbols: tables.symbols.insert(utf8.symbol_id, utf8.name),
            classes: tables.classes,
        },
        RecordView::LoadClass(class) => TablesView {
            symbols: tables.symbols,
            classes: spec_load(
                tables.classes,
                ClassView {
                    serial: class.serial_num,
                    id: class.id,
                    stack_trace_ser: class.stack_trace_ser,
                    name_id: class.name_id,
                    name: spec_name_from_id(class.name_id, tables.symbols),
                    status: STATUS_LOADED,
                },
            ),
        },
        RecordView::UnloadClass(serial) => TablesView {
            symbols: tables.symbols,
            classes: spec_unload(tables.classes, serial),
        },
        _ => tables,
    }
}

/// The tables after the records `entries`, taken in their order.
pub open spec fn spec_fold(entries: Seq<EntryView>) -> TablesView
    decreases entries.len(),
{
    if entries.len() == 0 {
        spec_no_tables()
    } else {
        spec_apply(entries.last().record, spec_fold(entries.drop_last()))
    }
}

/// Folds one record into the tables.
pub fn apply(record: Record, symbols: &mut HashMap<u64, String>, classes: &mut HashMap<u32, Class>)
    ensures
        (TablesView { symbols: names(final(symbols)@), classes: class_views(final(classes)@) })
            == spec_apply(
            record@,
            TablesView { symbols: names(old(symbols)@), classes: class_views(old(classes)@) },
        ),
{
    match record {
        Record::Utf8(utf8) => {
            symbols.insert(utf8.symbol_id, utf8.name);
            assert(names(symbols@) =~= names(old(symbols)@).insert(utf8.symbol_id, utf8.name@));
        },
        Record::LoadClass(class) => {
            let name = crate::parser::hprof::get_name_from_id(&class.name_id, symbols);
            load_class(
                classes,
                Class::new(class.serial_num, class.id, class.stack_trace_ser, class.name_id, name),
            );
        },
        Record::UnloadClass(serial) => {
            unload_class(classes, serial);
        },
        _ => {},
    }
}

/// What one pass over a snapshot leaves behind.
#[derive(Debug, PartialEq, Eq)]
pub struct Pass {
    /// the header
    pub snapshot: Snapshot,
    /// names by identifier
    pub symbols: HashMap<u64, String>,
    /// classes by serial number
    pub classes: HashMap<u32, Class>,
    /// offset of the cursor after the pass
    pub position: u64,
}

/// A pass over one snapshot file, with the directory that its tables are
/// kept in.
#[derive(Debug, PartialEq, Eq)]
pub struct Parser {
    file_path: String,
    work_path: String,
}

impl Parser {
    /// The path of the snapshot file.
    pub closed spec fn spec_file_path(&self) -> Seq<char> {
        self.file_path@
    }

    /// The path of the directory that the tables are kept in.
    pub closed spec fn spec_work_path(&self) -> Seq<char> {
        self.work_path@
    }

    pub fn new(file_path: String, work_path: String) -> (parser: Parser)
        ensures
            parser.spec_file_path() == file_path@,
            parser.spec_work_path() == work_path@,
    {
        Parser { file_path, work_path }
    }

    pub fn file_path(&self) -> (path: &String)
        ensures
            path@ == self.spec_file_path(),
    {
        &self.file_path
    }

    pub fn work_path(&self) -> (path: &String)
        ensures
            path@ == self.spec_work_path(),
    {
        &self.work_path
    }

    /// Makes one pass over the bytes of the snapshot file: reads the header
    /// and then record after record, and folds symbols and classes into the
    /// two tables. The pass succeeds only if it has taken every byte; any
    /// error ends it and nothing is left of it.
    pub fn parser(&self, data: Vec<u8>) -> (r: Result<Pass, ParseError>)
        ensures
            match r {
                Ok(pass) => {
                    &&& spec_read(data@) matches Ok((header, entries))
                    &&& pass.snapshot@ == header
                    &&& names(pass.symbols@) == spec_fold(entries).symbols
                    &&& class_views(pass.classes@) == spec_fold(entries).classes
                    &&& pass.position == data@.len()
                },
                Err(e) => spec_read(data@) == Err::<(SnapshotView, Seq<EntryView>), ParseError>(e),
            },
    {
        let mut reader = Reader::new(data);
        let snapshot = read_preamble(&mut reader)?;
        let ghost start = reader.cursor();
        let ghost id_size = snapshot@.id_size;
        let mut symbols: HashMap<u64, String> = HashMap::new();
        let mut classes: HashMap<u32, Class> = HashMap::new();
        let ghost mut entries: Seq<EntryView> = Seq::empty();
        assert(names(symbols@) =~= Map::empty());
        assert(class_views(classes@) =~= Map::empty());
        loop
            invariant
                reader.wf(),
                reader.bytes() == data@,
                reader.limit() == data@.len(),
                reader.id_size() == Some(id_size),
                spec_preamble(data@, 0, data@.len() as int) == Ok::<
                    (SnapshotView, int),
                    ParseError,
                >((snapshot@, start)),
                id_size == snapshot@.id_size,
                spec_stream(data@, start, id_size, Seq::empty()) == spec_stream(
                    data@,
                    reader.cursor(),
                    id_size,
                    entries,
                ),
                names(symbols@) == spec_fold(entries).symbols,
                class_views(classes@) == spec_fold(entries).classes,
            ensures
                reader.cursor() == data@.len(),
                spec_stream(data@, start, id_size, Seq::empty()) == Ok::<
                    Seq<EntryView>,
                    ParseError,
                >(entries),
                names(symbols@) == spec_fold(entries).symbols,
                class_views(classes@) == spec_fold(entries).classes,
            decreases data@.len() - reader.cursor(),
        {
            match next_record(&mut reader)? {
                None => {
                    break ;
                },
                Some(entry) => {
                    proof {
                        assert(entries.push(entry@).drop_last() =~= entries);
                        entries = entries.push(entry@);
                    }
                    apply(entry.record, &mut symbols, &mut classes);
                },
            }
        }
        let position: u64 = reader.position();
        Ok(Pass { snapshot, symbols, classes, position })
    }

    /// The display name of the identifier `id` under the symbols read so
    /// far.
    pub fn get_name_from_id(&self, id: u64, symbols: &HashMap<u64, String>) -> (name: String)
        ensures
            name@ == spec_name_from_id(id, names(symbols@)),
    {
        crate::parser::hprof::get_name_from_id(&id, symbols)
    }
}

/// Over a whole pass the status of a class only moves from loaded to
/// unloaded: a record leaves an unloaded class unloaded, unless it loads a
/// class under the same serial number anew.
pub proof fn status_never_returns(record: RecordView, tables: TablesView, serial: u32)
    requires
        tables.classes.contains_key(serial),
        tables.classes[serial].status == STATUS_UNLOADED,
        !(record matches RecordView::LoadClass(class) && class.serial_num == serial),
    ensures
        spec_apply(record, tables).classes.contains_key(serial),
        spec_apply(record, tables).classes[serial].status == STATUS_UNLOADED,
{
}

} // verus!
