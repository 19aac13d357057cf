//! The registry of managed processes.
//!
//! The registry is the orchestrator's state: which processes it tracks, under
//! which ids and names, what each was started from and what status it is in.
//! Every decision the orchestrator takes before and after talking to a child
//! (name reservation, dependency checks, status changes, removal) is an
//! operation on this registry.

/// Dependency checks made before a process is started.
pub mod dependencies;
/// Properties that relate the registry's operations to each other.
pub mod laws;

use vstd::prelude::*;

use self::dependencies::{all_registered, reaches};
use crate::error::OrchestratorError;
use crate::protocol::{PorkChildStatus, PorkControlCodec, PorkStatusUpdate};
use crate::spec::{ProcessSpec, ProcessSpecView, name_text, names_of};
use crate::types::{ManagedChildName, ProcessId};

verus! {

/// What the registry knows of one tracked process.
pub struct RecordView {
    /// The id the process was started under.
    pub process_id: u64,
    /// The managed name it carries, if any.
    pub managed_name: Option<Seq<char>>,
    /// The codec of its control channel.
    pub control_codec: PorkControlCodec,
    /// The specification it was started from.
    pub spec: ProcessSpecView,
    /// Its lifecycle status, as the orchestrator sets it.
    pub status: PorkChildStatus,
    /// The latest status report the child sent, if any.
    pub child_reported_status: Option<PorkStatusUpdate>,
}

/// One tracked process.
#[derive(Debug)]
pub struct ProcessRecord {
    process_id: ProcessId,
    managed_name: Option<ManagedChildName>,
    control_codec: PorkControlCodec,
    spec: ProcessSpec,
    status: PorkChildStatus,
    child_reported_status: Option<PorkStatusUpdate>,
}

impl View for ProcessRecord {
    type V = RecordView;

    closed spec fn view(&self) -> RecordView {
        RecordView {
            process_id: self.process_id.0,
            managed_name: name_text(self.managed_name),
            control_codec: self.control_codec,
            spec: self.spec@,
            status: self.status,
            child_reported_status: self.child_reported_status,
        }
    }
}

impl ProcessRecord {
    /// The record of a process that was just started from `spec` under `process_id`:
    /// it carries the spec's managed name and codec, and is `Running`.
    pub fn started(process_id: ProcessId, spec: ProcessSpec) -> (record: Self)
        ensures
            record@ == (RecordView {
                process_id: process_id.0,
                managed_name: spec@.managed_name,
                control_codec: spec@.control_codec,
                spec: spec@,
                status: PorkChildStatus::Running,
                child_reported_status: None,
            }),
    {
        let managed_name = match spec.managed_name() {
            Some(name) => Some(name.duplicate()),
            None => None,
        };
        let control_codec = spec.control_codec_ref();
        ProcessRecord {
            process_id,
            managed_name,
            control_codec,
            spec,
            status: PorkChildStatus::Running,
            child_reported_status: None,
        }
    }

    /// Returns the process id.
    pub fn process_id(&self) -> (id: ProcessId)
        ensures
            id.0 == self@.process_id,
    {
        self.process_id
    }

    /// Returns the managed name, if any.
    pub fn managed_name(&self) -> (name: Option<&ManagedChildName>)
        ensures
            name is Some <==> self@.managed_name is Some,
            name matches Some(n) ==> self@.managed_name == Some(n@),
    {
        self.managed_name.as_ref()
    }

    /// Returns the control codec negotiated with the child.
    pub fn control_codec(&self) -> (codec: PorkControlCodec)
        ensures
            codec == self@.control_codec,
    {
        self.control_codec
    }

    /// Returns the specification the process was started from.
    pub fn spec(&self) -> (spec: &ProcessSpec)
        ensures
            spec@ == self@.spec,
    {
        &self.spec
    }

    /// Returns the lifecycle status.
    pub fn status(&self) -> (status: PorkChildStatus)
        ensures
            status == self@.status,
    {
        self.status
    }

    /// Returns the latest status the child reported, if any.
    pub fn child_reported_status(&self) -> (update: Option<PorkStatusUpdate>)
        ensures
            update == self@.child_reported_status,
    {
        self.child_reported_status
    }

    /// A copy of the record with another lifecycle status.
    fn with_status(&self, status: PorkChildStatus) -> (record: Self)
        ensures
            record@ == (RecordView { status, ..self@ }),
    {
        ProcessRecord {
            process_id: self.process_id,
            managed_name: match &self.managed_name {
                Some(name) => Some(name.duplicate()),
                None => None,
            },
            control_codec: self.control_codec,
            spec: self.spec.clone(),
            status,
            child_reported_status: self.child_reported_status,
        }
    }

    /// A copy of the record with another child-reported status.
    fn with_child_report(&self, update: PorkStatusUpdate) -> (record: Self)
        ensures
            record@ == (RecordView { child_reported_status: Some(update), ..self@ }),
    {
        ProcessRecord {
            process_id: self.process_id,
            managed_name: match &self.managed_name {
                Some(name) => Some(name.duplicate()),
                None => None,
            },
            control_codec: self.control_codec,
            spec: self.spec.clone(),
            status: self.status,
            child_reported_status: Some(update),
        }
    }
}

/// The registry's state: the next id to hand out, the tracked processes by id,
/// and the registered managed names.
///
/// A name may be registered before the process that carries it is tracked: it
/// is reserved when a start begins.
pub struct RegistryView {
    /// The id the next start is handed.
    pub next_process_id: u64,
    /// The tracked processes, by id.
    pub records: Map<u64, RecordView>,
    /// The registered managed names and the ids they are registered under.
    pub names: Map<Seq<char>, u64>,
}

// Sequence-level descriptions of the registry's two lists.

/// No two records share an id.
pub open spec fn record_ids_distinct(records: Seq<ProcessRecord>) -> bool {
    forall|i: int, j: int|
        0 <= i < records.len() && 0 <= j < records.len() && i != j ==> #[trigger] records[i]@.process_id
            != #[trigger] records[j]@.process_id
}

/// No two records carry the same managed name.
pub open spec fn record_names_distinct(records: Seq<ProcessRecord>) -> bool {
    forall|i: int, j: int|
        0 <= i < records.len() && 0 <= j < records.len() && i != j && (#[trigger] records[i]@).managed_name
            is Some ==> records[i]@.managed_name != (#[trigger] records[j]@).managed_name
}

/// Some record has the id.
pub open spec fn has_record(records: Seq<ProcessRecord>, id: u64) -> bool {
    exists|i: int| 0 <= i < records.len() && #[trigger] records[i]@.process_id == id
}

/// The record with the id.
pub open spec fn record_with(records: Seq<ProcessRecord>, id: u64) -> RecordView {
    records[choose|i: int| 0 <= i < records.len() && #[trigger] records[i]@.process_id == id]@
}

/// The tracked processes by id.
pub open spec fn records_map(records: Seq<ProcessRecord>) -> Map<u64, RecordView> {
    Map::new(|id: u64| has_record(records, id), |id: u64| record_with(records, id))
}

/// No name is registered twice.
pub open spec fn name_keys_distinct(names: Seq<(ManagedChildName, ProcessId)>) -> bool {
    forall|i: int, j: int|
        0 <= i < names.len() && 0 <= j < names.len() && i != j ==> #[trigger] names[i].0@
            != #[trigger] names[j].0@
}

/// The name is registered.
pub open spec fn has_name(names: Seq<(ManagedChildName, ProcessId)>, name: Seq<char>) -> bool {
    exists|i: int| 0 <= i < names.len() && #[trigger] names[i].0@ == name
}

/// The id registered under the name.
pub open spec fn id_of_name(names: Seq<(ManagedChildName, ProcessId)>, name: Seq<char>) -> u64 {
    names[choose|i: int| 0 <= i < names.len() && #[trigger] names[i].0@ == name].1.0
}

/// The registered names.
pub open spec fn names_map(names: Seq<(ManagedChildName, ProcessId)>) -> Map<Seq<char>, u64> {
    Map::new(|name: Seq<char>| has_name(names, name), |name: Seq<char>| id_of_name(names, name))
}

/// With distinct ids, the map holds each record under its id.
pub proof fn lemma_records_map_at(records: Seq<ProcessRecord>, i: int)
    requires
        record_ids_distinct(records),
        0 <= i < records.len(),
    ensures
        records_map(records).contains_key(records[i]@.process_id),
        records_map(records)[records[i]@.process_id] == records[i]@,
{
    let id = records[i]@.process_id;
    assert(has_record(records, id));
    let c = choose|c: int| 0 <= c < records.len() && #[trigger] records[c]@.process_id == id;
    assert(c == i);
}

/// With distinct names, the map holds each registration.
pub proof fn lemma_names_map_at(names: Seq<(ManagedChildName, ProcessId)>, i: int)
    requires
        name_keys_distinct(names),
        0 <= i < names.len(),
    ensures
        names_map(names).contains_key(names[i].0@),
        names_map(names)[names[i].0@] == names[i].1.0,
{
    let name = names[i].0@;
    assert(has_name(names, name));
    let c = choose|c: int| 0 <= c < names.len() && #[trigger] names[c].0@ == name;
    assert(c == i);
}

/// Registering a new name adds it to the map.
pub proof fn lemma_names_push(
    names: Seq<(ManagedChildName, ProcessId)>,
    entry: (ManagedChildName, ProcessId),
)
    requires
        name_keys_distinct(names),
        !has_name(names, entry.0@),
    ensures
        name_keys_distinct(names.push(entry)),
        names_map(names.push(entry)) == names_map(names).insert(entry.0@, entry.1.0),
        forall|n: Seq<char>|
            #![auto]
            has_name(names.push(entry), n) == (has_name(names, n) || n == entry.0@),
        forall|n: Seq<char>|
            #![auto]
            has_name(names, n) ==> id_of_name(names.push(entry), n) == id_of_name(names, n),
{
    let after = names.push(entry);
    assert forall|i: int, j: int|
        0 <= i < after.len() && 0 <= j < after.len() && i != j implies #[trigger] after[i].0@
            != #[trigger] after[j].0@ by {
        if i < names.len() && j < names.len() {
            assert(after[i] == names[i] && after[j] == names[j]);
        } else if i < names.len() {
            assert(after[i] == names[i]);
        } else {
            assert(after[j] == names[j]);
        }
    }
    assert forall|n: Seq<char>| #![auto] has_name(after, n) == (has_name(names, n) || n == entry.0@) by {
        if has_name(names, n) {
            let j = choose|j: int| 0 <= j < names.len() && #[trigger] names[j].0@ == n;
            assert(after[j].0@ == n);
        }
        if n == entry.0@ {
            assert(after[names.len() as int].0@ == n);
        }
        if has_name(after, n) {
            let j = choose|j: int| 0 <= j < after.len() && #[trigger] after[j].0@ == n;
            if j < names.len() {
                assert(names[j].0@ == n);
            }
        }
    }
    assert forall|n: Seq<char>| #![auto] has_name(names, n) implies id_of_name(after, n) == id_of_name(names, n) by {
        let j = choose|j: int| 0 <= j < names.len() && #[trigger] names[j].0@ == n;
        lemma_names_map_at(names, j);
        assert(after[j] == names[j]);
        lemma_names_map_at(after, j);
    }
    assert(after[names.len() as int] == entry);
    lemma_names_map_at(after, names.len() as int);
    assert(names_map(after) =~= names_map(names).insert(entry.0@, entry.1.0));
}

/// Dropping a registration removes its name from the map.
pub proof fn lemma_names_remove(names: Seq<(ManagedChildName, ProcessId)>, i: int)
    requires
        name_keys_distinct(names),
        0 <= i < names.len(),
    ensures
        name_keys_distinct(names.remove(i)),
        names_map(names.remove(i)) == names_map(names).remove(names[i].0@),
        forall|n: Seq<char>|
            #![auto]
            has_name(names.remove(i), n) == (has_name(names, n) && n != names[i].0@),
        forall|n: Seq<char>|
            #![auto]
            has_name(names.remove(i), n) ==> id_of_name(names.remove(i), n) == id_of_name(names, n),
{
    let after = names.remove(i);
    let gone = names[i].0@;
    assert forall|a: int, b: int|
        0 <= a < after.len() && 0 <= b < after.len() && a != b implies #[trigger] after[a].0@
            != #[trigger] after[b].0@ by {
        let a2 = if a < i { a } else { a + 1 };
        let b2 = if b < i { b } else { b + 1 };
        assert(after[a] == names[a2] && after[b] == names[b2]);
    }
    assert forall|n: Seq<char>| #![auto] has_name(after, n) == (has_name(names, n) && n != gone) by {
        if has_name(after, n) {
            let a = choose|a: int| 0 <= a < after.len() && #[trigger] after[a].0@ == n;
            let a2 = if a < i { a } else { a + 1 };
            assert(after[a] == names[a2]);
            assert(names[a2].0@ == n);
            assert(a2 != i);
        }
        if has_name(names, n) && n != gone {
            let a2 = choose|a: int| 0 <= a < names.len() && #[trigger] names[a].0@ == n;
            assert(a2 != i);
            let a = if a2 < i { a2 } else { a2 - 1 };
            assert(after[a] == names[a2]);
        }
    }
    assert forall|n: Seq<char>| #![auto] has_name(after, n) implies id_of_name(after, n) == id_of_name(names, n) by {
        let a = choose|a: int| 0 <= a < after.len() && #[trigger] after[a].0@ == n;
        let a2 = if a < i { a } else { a + 1 };
        assert(after[a] == names[a2]);
        lemma_names_map_at(after, a);
        lemma_names_map_at(names, a2);
    }
    assert(names_map(after) =~= names_map(names).remove(gone));
}

/// Tracking a process under a new id adds it to the map.
pub proof fn lemma_records_push(records: Seq<ProcessRecord>, record: ProcessRecord)
    requires
        record_ids_distinct(records),
        !has_record(records, record@.process_id),
    ensures
        record_ids_distinct(records.push(record)),
        records_map(records.push(record)) == records_map(records).insert(record@.process_id, record@),
{
    let after = records.push(record);
    assert forall|i: int, j: int|
        0 <= i < after.len() && 0 <= j < after.len() && i != j implies #[trigger] after[i]@.process_id
            != #[trigger] after[j]@.process_id by {
        if i < records.len() && j < records.len() {
            assert(after[i] == records[i] && after[j] == records[j]);
        } else if i < records.len() {
            assert(after[i] == records[i]);
        } else {
            assert(after[j] == records[j]);
        }
    }
    assert forall|id: u64| #![auto] has_record(after, id) == (has_record(records, id) || id == record@.process_id) by {
        if has_record(records, id) {
            let j = choose|j: int| 0 <= j < records.len() && #[trigger] records[j]@.process_id == id;
            assert(after[j] == records[j]);
        }
        if id == record@.process_id {
            assert(after[records.len() as int] == record);
        }
        if has_record(after, id) {
            let j = choose|j: int| 0 <= j < after.len() && #[trigger] after[j]@.process_id == id;
            if j < records.len() {
                assert(after[j] == records[j]);
            }
        }
    }
    assert forall|id: u64| #[trigger] records_map(after).contains_key(id) implies records_map(after)[id]
        == records_map(records).insert(record@.process_id, record@)[id] by {
        let j = choose|j: int| 0 <= j < after.len() && #[trigger] after[j]@.process_id == id;
        lemma_records_map_at(after, j);
        if j < records.len() {
            assert(after[j] == records[j]);
            lemma_records_map_at(records, j);
        } else {
            assert(after[j] == record);
        }
    }
    assert(records_map(after) =~= records_map(records).insert(record@.process_id, record@));
}

/// Replacing a record by one with the same id replaces it in the map.
pub proof fn lemma_records_update(records: Seq<ProcessRecord>, i: int, record: ProcessRecord)
    requires
        record_ids_distinct(records),
        0 <= i < records.len(),
        record@.process_id == records[i]@.process_id,
    ensures
        record_ids_distinct(records.update(i, record)),
        records_map(records.update(i, record)) == records_map(records).insert(record@.process_id, record@),
{
    let after = records.update(i, record);
    assert forall|a: int, b: int|
        0 <= a < after.len() && 0 <= b < after.len() && a != b implies #[trigger] after[a]@.process_id
            != #[trigger] after[b]@.process_id by {
        assert(after[a]@.process_id == records[a]@.process_id);
        assert(after[b]@.process_id == records[b]@.process_id);
    }
    assert forall|id: u64| #![auto] has_record(after, id) == has_record(records, id) by {
        if has_record(records, id) {
            let j = choose|j: int| 0 <= j < records.len() && #[trigger] records[j]@.process_id == id;
            assert(after[j]@.process_id == id);
        }
        if has_record(after, id) {
            let j = choose|j: int| 0 <= j < after.len() && #[trigger] after[j]@.process_id == id;
            assert(records[j]@.process_id == id);
        }
    }
    assert forall|id: u64| #[trigger] records_map(after).contains_key(id) implies records_map(after)[id]
        == records_map(records).insert(record@.process_id, record@)[id] by {
        let j = choose|j: int| 0 <= j < after.len() && #[trigger] after[j]@.process_id == id;
        lemma_records_map_at(after, j);
        if j != i {
            assert(after[j] == records[j]);
            lemma_records_map_at(records, j);
        }
    }
    lemma_records_map_at(records, i);
    assert(records_map(after) =~= records_map(records).insert(record@.process_id, record@));
}

/// Dropping a record removes its id from the map.
pub proof fn lemma_records_remove(records: Seq<ProcessRecord>, i: int)
    requires
        record_ids_distinct(records),
        0 <= i < records.len(),
    ensures
        record_ids_distinct(records.remove(i)),
        records_map(records.remove(i)) == records_map(records).remove(records[i]@.process_id),
{
    let after = records.remove(i);
    let gone = records[i]@.process_id;
    assert forall|a: int, b: int|
        0 <= a < after.len() && 0 <= b < after.len() && a != b implies #[trigger] after[a]@.process_id
            != #[trigger] after[b]@.process_id by {
        let a2 = if a < i { a } else { a + 1 };
        let b2 = if b < i { b } else { b + 1 };
        assert(after[a] == records[a2] && after[b] == records[b2]);
    }
    assert forall|id: u64| #![auto] has_record(after, id) == (has_record(records, id) && id != gone) by {
        if has_record(after, id) {
            let a = choose|a: int| 0 <= a < after.len() && #[trigger] after[a]@.process_id == id;
            let a2 = if a < i { a } else { a + 1 };
            assert(after[a] == records[a2]);
            assert(a2 != i);
        }
        if has_record(records, id) && id != gone {
            let a2 = choose|a: int| 0 <= a < records.len() && #[trigger] records[a]@.process_id == id;
            assert(a2 != i);
            let a = if a2 < i { a2 } else { a2 - 1 };
            assert(after[a] == records[a2]);
        }
    }
    assert forall|id: u64| #[trigger] records_map(after).contains_key(id) implies records_map(after)[id]
        == records_map(records)[id] by {
        let a = choose|a: int| 0 <= a < after.len() && #[trigger] after[a]@.process_id == id;
        let a2 = if a < i { a } else { a + 1 };
        assert(after[a] == records[a2]);
        lemma_records_map_at(after, a);
        lemma_records_map_at(records, a2);
    }
    assert(records_map(after) =~= records_map(records).remove(gone));
}

/// A consistent registry has a consistent view.
pub proof fn lemma_view_consistent(
    records: Seq<ProcessRecord>,
    names: Seq<(ManagedChildName, ProcessId)>,
    next_process_id: u64,
)
    requires
        registry_consistent(records, names),
        ids_below(records, next_process_id),
    ensures
        view_consistent(
            RegistryView { next_process_id, records: records_map(records), names: names_map(names) },
        ),
{
    let v = RegistryView {
        next_process_id,
        records: records_map(records),
        names: names_map(names),
    };
    assert forall|id: u64| #[trigger] v.records.contains_key(id) implies id < next_process_id by {
        let j = choose|j: int| 0 <= j < records.len() && #[trigger] records[j]@.process_id == id;
    }
    let ids = records.map_values(|r: ProcessRecord| r@.process_id);
    assert forall|id: u64| #[trigger] v.records.dom().contains(id) == ids.to_set().contains(id) by {
        if has_record(records, id) {
            let j = choose|j: int| 0 <= j < records.len() && #[trigger] records[j]@.process_id == id;
            assert(ids[j] == id);
        }
        if ids.to_set().contains(id) {
            let j = choose|j: int| 0 <= j < ids.len() && #[trigger] ids[j] == id;
            assert(records[j]@.process_id == id);
        }
    }
    assert(v.records.dom() =~= ids.to_set());
    vstd::seq_lib::seq_to_set_is_finite(ids);
    assert forall|id: u64| #[trigger] v.records.contains_key(id) implies v.records[id].process_id
        == id by {
        let j = choose|j: int| 0 <= j < records.len() && #[trigger] records[j]@.process_id == id;
        lemma_records_map_at(records, j);
    }
    assert forall|id: u64| #[trigger]
        v.records.contains_key(id) && v.records[id].managed_name is Some implies {
        let name = v.records[id].managed_name->0;
        v.names.contains_key(name) && v.names[name] == id
    } by {
        let j = choose|j: int| 0 <= j < records.len() && #[trigger] records[j]@.process_id == id;
        lemma_records_map_at(records, j);
    }
}

/// Whether a tracked process carries the name.
pub open spec fn name_carried(view: RegistryView, name: Seq<char>) -> bool {
    exists|id: u64| #[trigger] view.records.contains_key(id) && view.records[id].managed_name == Some(name)
}

/// The registry with `name` registered under `process_id`.
pub open spec fn with_reservation(view: RegistryView, name: Seq<char>, process_id: u64) -> RegistryView {
    RegistryView { names: view.names.insert(name, process_id), ..view }
}

/// The registry without the registration of `name`.
pub open spec fn without_reservation(view: RegistryView, name: Seq<char>) -> RegistryView {
    RegistryView { names: view.names.remove(name), ..view }
}

/// The registry with the tracked process `process_id` in another status.
pub open spec fn with_status(view: RegistryView, process_id: u64, status: PorkChildStatus) -> RegistryView {
    RegistryView {
        records: view.records.insert(process_id, RecordView { status, ..view.records[process_id] }),
        ..view
    }
}

/// The registry with a new status report of the tracked process `process_id`.
pub open spec fn with_child_report(
    view: RegistryView,
    process_id: u64,
    update: PorkStatusUpdate,
) -> RegistryView {
    RegistryView {
        records: view.records.insert(
            process_id,
            RecordView { child_reported_status: Some(update), ..view.records[process_id] },
        ),
        ..view
    }
}

/// Whether a start with `reserve_name` reserves the spec's managed name.
pub open spec fn reserves(spec: ProcessSpecView, reserve_name: bool) -> bool {
    reserve_name && spec.managed_name is Some
}

/// The registry after a process id was handed out.
pub open spec fn advanced(view: RegistryView) -> RegistryView {
    RegistryView { next_process_id: (view.next_process_id + 1) as u64, ..view }
}

/// The registry a start is admitted into: the id handed out and, when the
/// start reserves, the name reserved for it.
pub open spec fn admission_view(view: RegistryView, spec: ProcessSpecView, reserve_name: bool) -> RegistryView {
    if reserves(spec, reserve_name) {
        with_reservation(advanced(view), spec.managed_name->0, view.next_process_id)
    } else {
        advanced(view)
    }
}

/// Whether another tracked process (one with another id) carries the record's name.
pub open spec fn name_carried_by_other(view: RegistryView, record: RecordView) -> bool {
    &&& record.managed_name is Some
    &&& exists|id: u64|
        #[trigger] view.records.contains_key(id) && id != record.process_id
            && view.records[id].managed_name == record.managed_name
}

/// The registry after it starts tracking a record: the record is stored under
/// its id, and its name, if any, is registered under that id.
pub open spec fn with_record(view: RegistryView, record: RecordView) -> RegistryView {
    RegistryView {
        records: view.records.insert(record.process_id, record),
        names: match record.managed_name {
            Some(name) => view.names.insert(name, record.process_id),
            None => view.names,
        },
        ..view
    }
}

/// The registry after a tracked process is dropped: its record is gone and so
/// is the registration of its name.
pub open spec fn without_record(view: RegistryView, process_id: u64) -> RegistryView {
    RegistryView {
        records: view.records.remove(process_id),
        names: match view.records[process_id].managed_name {
            Some(name) => view.names.remove(name),
            None => view.names,
        },
        ..view
    }
}

/// The registry of managed processes.
#[derive(Debug)]
pub struct ProcessRegistry {
    next_process_id: u64,
    records: Vec<ProcessRecord>,
    names: Vec<(ManagedChildName, ProcessId)>,
}

impl View for ProcessRegistry {
    type V = RegistryView;

    closed spec fn view(&self) -> RegistryView {
        RegistryView {
            next_process_id: self.next_process_id,
            records: records_map(self.records@),
            names: names_map(self.names@),
        }
    }
}

/// Whether every named tracked process is registered under its name and id.
pub open spec fn named_records_registered(
    records: Seq<ProcessRecord>,
    names: Seq<(ManagedChildName, ProcessId)>,
) -> bool {
    forall|i: int|
        0 <= i < records.len() && (#[trigger] records[i]@).managed_name is Some ==> has_name(
            names,
            records[i]@.managed_name->0,
        ) && id_of_name(names, records[i]@.managed_name->0) == records[i]@.process_id
}

/// The registry's consistency: ids and names are unique, and every named
/// tracked process is registered under its own name.
pub open spec fn registry_consistent(
    records: Seq<ProcessRecord>,
    names: Seq<(ManagedChildName, ProcessId)>,
) -> bool {
    &&& record_ids_distinct(records)
    &&& record_names_distinct(records)
    &&& name_keys_distinct(names)
    &&& named_records_registered(records, names)
}

/// Every record's id lies below `next_process_id`: it was handed out before.
pub open spec fn ids_below(records: Seq<ProcessRecord>, next_process_id: u64) -> bool {
    forall|i: int| 0 <= i < records.len() ==> #[trigger] records[i]@.process_id < next_process_id
}

/// The consistency, stated over the registry's view: ids key their records
/// and were all handed out before the next one, and every named process is
/// registered under its own id.
pub open spec fn view_consistent(view: RegistryView) -> bool {
    &&& view.records.dom().finite()
    &&& forall|id: u64| #[trigger] view.records.contains_key(id) ==> id < view.next_process_id
    &&& forall|id: u64| #[trigger]
        view.records.contains_key(id) ==> view.records[id].process_id == id
    &&& forall|id: u64| #[trigger]
        view.records.contains_key(id) && view.records[id].managed_name is Some ==> {
            let name = view.records[id].managed_name->0;
            view.names.contains_key(name) && view.names[name] == id
        }
}

impl ProcessRegistry {
    /// Ids and names are unique, named processes are registered, and every
    /// tracked id was handed out before `next_process_id`.
    #[verifier::type_invariant]
    closed spec fn consistent(self) -> bool {
        &&& registry_consistent(self.records@, self.names@)
        &&& ids_below(self.records@, self.next_process_id)
    }

    /// Creates an empty registry whose first process id is 1.
    pub fn new() -> (registry: Self)
        ensures
            registry@.next_process_id == 1,
            registry@.records == Map::<u64, RecordView>::empty(),
            registry@.names == Map::<Seq<char>, u64>::empty(),
            view_consistent(registry@),
    {
        let registry = ProcessRegistry { next_process_id: 1, records: Vec::new(), names: Vec::new() };
        assert(registry@.records =~= Map::<u64, RecordView>::empty());
        assert(registry@.names =~= Map::<Seq<char>, u64>::empty());
        registry
    }

    /// Moves the registry's contents out, leaving an empty registry behind.
    fn take(&mut self) -> (taken: Self)
        ensures
            taken == *old(self),
            registry_consistent(taken.records@, taken.names@),
            ids_below(taken.records@, taken.next_process_id),
    {
        proof {
            use_type_invariant(&*self);
        }
        let mut taken = ProcessRegistry::new();
        std::mem::swap(self, &mut taken);
        taken
    }

    /// Returns the position of the record with the id, if any.
    fn record_position(&self, id: ProcessId) -> (index: Option<usize>)
        ensures
            index matches Some(i) ==> i < self.records@.len() && self.records@[i as int]@.process_id
                == id.0,
            index is None ==> !has_record(self.records@, id.0),
    {
        let mut i: usize = 0;
        while i < self.records.len()
            invariant
                i <= self.records@.len(),
                forall|j: int| 0 <= j < i ==> #[trigger] self.records@[j]@.process_id != id.0,
            decreases self.records@.len() - i,
        {
            if self.records[i].process_id.0 == id.0 {
                return Some(i);
            }
            i = i + 1;
        }
        None
    }

    /// Returns the position of the registration of the name, if any.
    fn name_position(&self, name: &ManagedChildName) -> (index: Option<usize>)
        ensures
            index matches Some(i) ==> i < self.names@.len() && self.names@[i as int].0@ == name@,
            index is None ==> !has_name(self.names@, name@),
    {
        let mut i: usize = 0;
        while i < self.names.len()
            invariant
                i <= self.names@.len(),
                forall|j: int| 0 <= j < i ==> #[trigger] self.names@[j].0@ != name@,
            decreases self.names@.len() - i,
        {
            if self.names[i].0 == *name {
                return Some(i);
            }
            i = i + 1;
        }
        None
    }

    /// Hands out the next process id. Ids are handed out in increasing order,
    /// each once; when the largest `u64` is reached no id is left (`None`)
    /// and the registry is unchanged.
    pub fn allocate_process_id(&mut self) -> (id: Option<ProcessId>)
        ensures
            view_consistent(final(self)@),
            old(self)@.next_process_id == u64::MAX ==> id is None && final(self)@ == old(self)@,
            old(self)@.next_process_id < u64::MAX ==> {
                &&& id matches Some(handed) && handed.0 == old(self)@.next_process_id
                &&& !old(self)@.records.contains_key(old(self)@.next_process_id)
                &&& final(self)@ == (RegistryView {
                    next_process_id: (old(self)@.next_process_id + 1) as u64,
                    ..old(self)@
                })
            },
    {
        proof {
            use_type_invariant(&*self);
            lemma_view_consistent(self.records@, self.names@, self.next_process_id);
        }
        if self.next_process_id == u64::MAX {
            return None;
        }
        let id = ProcessId::new(self.next_process_id);
        let ProcessRegistry { next_process_id, records, names } = self.take();
        *self = ProcessRegistry { next_process_id: next_process_id + 1, records, names };
        proof {
            use_type_invariant(&*self);
            lemma_view_consistent(self.records@, self.names@, self.next_process_id);
        }
        Some(id)
    }

    /// Looks up the process id registered under a managed name.
    pub fn process_id_by_name(&self, name: &ManagedChildName) -> (id: Option<ProcessId>)
        ensures
            id is Some <==> self@.names.contains_key(name@),
            id matches Some(found) ==> found.0 == self@.names[name@],
    {
        proof {
            use_type_invariant(self);
        }
        match self.name_position(name) {
            Some(i) => {
                proof {
                    lemma_names_map_at(self.names@, i as int);
                }
                Some(self.names[i].1)
            },
            None => None,
        }
    }

    /// Returns `true` when a managed name is registered.
    pub fn has_process_name(&self, name: &ManagedChildName) -> (registered: bool)
        ensures
            registered == self@.names.contains_key(name@),
    {
        self.name_position(name).is_some()
    }

    /// Reserves a managed name for a process that is about to start.
    ///
    /// A name that is already registered is refused.
    pub fn reserve_name(&mut self, name: &ManagedChildName, process_id: ProcessId) -> (result: Result<
        (),
        OrchestratorError,
    >)
        ensures
            view_consistent(final(self)@),
            old(self)@.names.contains_key(name@) ==> {
                &&& result matches Err(OrchestratorError::DuplicateProcessName(n)) && n@ == name@
                &&& final(self)@ == old(self)@
            },
            !old(self)@.names.contains_key(name@) ==> {
                &&& result is Ok
                &&& final(self)@ == with_reservation(old(self)@, name@, process_id.0)
            },
    {
        proof {
            use_type_invariant(&*self);
            lemma_view_consistent(self.records@, self.names@, self.next_process_id);
        }
        if self.name_position(name).is_some() {
            return Err(OrchestratorError::DuplicateProcessName(name.duplicate()));
        }
        let entry = (name.duplicate(), process_id);
        proof {
            lemma_names_push(self.names@, entry);
            let records = self.records@;
            let after = self.names@.push(entry);
            assert forall|i: int|
                0 <= i < records.len() && (#[trigger] records[i]@).managed_name is Some implies has_name(
                    after,
                    records[i]@.managed_name->0,
                ) && id_of_name(after, records[i]@.managed_name->0) == records[i]@.process_id by {
                assert(has_name(self.names@, records[i]@.managed_name->0));
            }
        }
        let ProcessRegistry { next_process_id, records, mut names } = self.take();
        names.push(entry);
        *self = ProcessRegistry { next_process_id, records, names };
        proof {
            use_type_invariant(&*self);
            lemma_view_consistent(self.records@, self.names@, self.next_process_id);
        }
        Ok(())
    }

    /// Drops the reservation of a managed name after a start failed.
    ///
    /// A name that a tracked process carries is kept: it is not a reservation.
    pub fn release_reserved_name(&mut self, name: &ManagedChildName)
        ensures
            view_consistent(final(self)@),
            name_carried(old(self)@, name@) ==> final(self)@ == old(self)@,
            !name_carried(old(self)@, name@) ==> final(self)@ == without_reservation(old(self)@, name@),
    {
        proof {
            use_type_invariant(&*self);
            lemma_view_consistent(self.records@, self.names@, self.next_process_id);
        }
        let mut i: usize = 0;
        while i < self.records.len()
            invariant
                i <= self.records@.len(),
                registry_consistent(self.records@, self.names@),
                view_consistent(self@),
                forall|j: int| 0 <= j < i ==> (#[trigger] self.records@[j])@.managed_name != Some(name@),
            decreases self.records@.len() - i,
        {
            let carried = match &self.records[i].managed_name {
                Some(carried) => *carried == *name,
                None => false,
            };
            if carried {
                proof {
                    lemma_records_map_at(self.records@, i as int);
                }
                return;
            }
            i = i + 1;
        }
        proof {
            assert forall|id: u64| #[trigger] self@.records.contains_key(id) implies self@.records[id].managed_name
                != Some(name@) by {
                let j = choose|j: int| 0 <= j < self.records@.len() && #[trigger] self.records@[j]@.process_id == id;
                lemma_records_map_at(self.records@, j);
            }
        }
        match self.name_position(name) {
            Some(k) => {
                proof {
                    lemma_names_remove(self.names@, k as int);
                    let records = self.records@;
                    let after = self.names@.remove(k as int);
                    assert forall|r: int|
                        0 <= r < records.len() && (#[trigger] records[r]@).managed_name is Some implies has_name(
                            after,
                            records[r]@.managed_name->0,
                        ) && id_of_name(after, records[r]@.managed_name->0) == records[r]@.process_id by {
                        assert(records[r]@.managed_name != Some(name@));
                    }
                }
                let ProcessRegistry { next_process_id, records, mut names } = self.take();
                names.remove(k);
                *self = ProcessRegistry { next_process_id, records, names };
        proof {
            use_type_invariant(&*self);
            lemma_view_consistent(self.records@, self.names@, self.next_process_id);
        }
            },
            None => {
                assert(self@.names =~= self@.names.remove(name@));
            },
        }
    }

    /// Sets the lifecycle status of a tracked process.
    pub fn set_status(&mut self, process_id: ProcessId, status: PorkChildStatus) -> (result: Result<
        (),
        OrchestratorError,
    >)
        ensures
            view_consistent(final(self)@),
            !old(self)@.records.contains_key(process_id.0) ==> {
                &&& result matches Err(OrchestratorError::ProcessNotFound(p)) && p == process_id
                &&& final(self)@ == old(self)@
            },
            old(self)@.records.contains_key(process_id.0) ==> {
                &&& result is Ok
                &&& final(self)@ == with_status(old(self)@, process_id.0, status)
                &&& final(self)@.records.dom() == old(self)@.records.dom()
                &&& final(self)@.records[process_id.0] == (RecordView {
                    status,
                    ..old(self)@.records[process_id.0]
                })
                &&& forall|other: u64|
                    other != process_id.0 && #[trigger] old(self)@.records.contains_key(other)
                        ==> final(self)@.records[other] == old(self)@.records[other]
                &&& final(self)@.names == old(self)@.names
            },
    {
        proof {
            use_type_invariant(&*self);
            lemma_view_consistent(self.records@, self.names@, self.next_process_id);
        }
        match self.record_position(process_id) {
            None => Err(OrchestratorError::ProcessNotFound(process_id)),
            Some(i) => {
                proof {
                    lemma_records_map_at(self.records@, i as int);
                }
                let updated = self.records[i].with_status(status);
                self.put_record(i, updated);
                Ok(())
            },
        }
    }

    /// Stores the latest status report a tracked child sent.
    pub fn record_child_status(&mut self, process_id: ProcessId, update: PorkStatusUpdate) -> (result:
        Result<(), OrchestratorError>)
        ensures
            view_consistent(final(self)@),
            !old(self)@.records.contains_key(process_id.0) ==> {
                &&& result matches Err(OrchestratorError::ProcessNotFound(p)) && p == process_id
                &&& final(self)@ == old(self)@
            },
            old(self)@.records.contains_key(process_id.0) ==> {
                &&& result is Ok
                &&& final(self)@ == with_child_report(old(self)@, process_id.0, update)
                &&& final(self)@.records.dom() == old(self)@.records.dom()
                &&& final(self)@.records[process_id.0] == (RecordView {
                    child_reported_status: Some(update),
                    ..old(self)@.records[process_id.0]
                })
                &&& forall|other: u64|
                    other != process_id.0 && #[trigger] old(self)@.records.contains_key(other)
                        ==> final(self)@.records[other] == old(self)@.records[other]
                &&& final(self)@.names == old(self)@.names
                &&& final(self)@.next_process_id == old(self)@.next_process_id
            },
    {
        proof {
            use_type_invariant(&*self);
            lemma_view_consistent(self.records@, self.names@, self.next_process_id);
        }
        match self.record_position(process_id) {
            None => Err(OrchestratorError::ProcessNotFound(process_id)),
            Some(i) => {
                proof {
                    lemma_records_map_at(self.records@, i as int);
                }
                let updated = self.records[i].with_child_report(update);
                self.put_record(i, updated);
                Ok(())
            },
        }
    }

    /// Returns the tracked record with the id.
    fn record(&self, process_id: ProcessId) -> (result: Result<&ProcessRecord, OrchestratorError>)
        ensures
            !self@.records.contains_key(process_id.0) ==> (result matches Err(
                OrchestratorError::ProcessNotFound(p),
            ) && p == process_id),
            self@.records.contains_key(process_id.0) ==> (result matches Ok(r) && r@ == self@.records[process_id.0]),
    {
        proof {
            use_type_invariant(self);
        }
        match self.record_position(process_id) {
            None => Err(OrchestratorError::ProcessNotFound(process_id)),
            Some(i) => {
                proof {
                    lemma_records_map_at(self.records@, i as int);
                }
                Ok(&self.records[i])
            },
        }
    }

    /// Returns the lifecycle status of a tracked process.
    pub fn process_status(&self, process_id: ProcessId) -> (result: Result<
        PorkChildStatus,
        OrchestratorError,
    >)
        ensures
            !self@.records.contains_key(process_id.0) ==> (result matches Err(
                OrchestratorError::ProcessNotFound(p),
            ) && p == process_id),
            self@.records.contains_key(process_id.0) ==> (result matches Ok(status) && status
                == self@.records[process_id.0].status),
    {
        match self.record(process_id) {
            Ok(record) => Ok(record.status()),
            Err(error) => Err(error),
        }
    }

    /// Returns the latest status report of a tracked child, `None` before its first report.
    pub fn child_status(&self, process_id: ProcessId) -> (result: Result<
        Option<PorkStatusUpdate>,
        OrchestratorError,
    >)
        ensures
            !self@.records.contains_key(process_id.0) ==> (result matches Err(
                OrchestratorError::ProcessNotFound(p),
            ) && p == process_id),
            self@.records.contains_key(process_id.0) ==> (result matches Ok(update) && update
                == self@.records[process_id.0].child_reported_status),
    {
        match self.record(process_id) {
            Ok(record) => Ok(record.child_reported_status()),
            Err(error) => Err(error),
        }
    }

    /// Returns the id registered under a name, or `ProcessNameNotFound`.
    fn id_for_name(&self, name: &ManagedChildName) -> (result: Result<ProcessId, OrchestratorError>)
        ensures
            !self@.names.contains_key(name@) ==> (result matches Err(
                OrchestratorError::ProcessNameNotFound(n),
            ) && n@ == name@),
            self@.names.contains_key(name@) ==> (result matches Ok(id) && id.0 == self@.names[name@]),
    {
        match self.process_id_by_name(name) {
            Some(id) => Ok(id),
            None => Err(OrchestratorError::ProcessNameNotFound(name.duplicate())),
        }
    }

    /// Returns the lifecycle status of the process registered under a name.
    pub fn process_status_by_name(&self, name: &ManagedChildName) -> (result: Result<
        PorkChildStatus,
        OrchestratorError,
    >)
        ensures
            !self@.names.contains_key(name@) ==> (result matches Err(
                OrchestratorError::ProcessNameNotFound(n),
            ) && n@ == name@),
            self@.names.contains_key(name@) && !self@.records.contains_key(self@.names[name@])
                ==> (result matches Err(OrchestratorError::ProcessNotFound(p)) && p.0
                == self@.names[name@]),
            self@.names.contains_key(name@) && self@.records.contains_key(self@.names[name@])
                ==> (result matches Ok(status) && status == self@.records[self@.names[name@]].status),
    {
        match self.id_for_name(name) {
            Ok(id) => self.process_status(id),
            Err(error) => Err(error),
        }
    }

    /// Returns the latest status report of the child registered under a name.
    pub fn child_status_by_name(&self, name: &ManagedChildName) -> (result: Result<
        Option<PorkStatusUpdate>,
        OrchestratorError,
    >)
        ensures
            !self@.names.contains_key(name@) ==> (result matches Err(
                OrchestratorError::ProcessNameNotFound(n),
            ) && n@ == name@),
            self@.names.contains_key(name@) && !self@.records.contains_key(self@.names[name@])
                ==> (result matches Err(OrchestratorError::ProcessNotFound(p)) && p.0
                == self@.names[name@]),
            self@.names.contains_key(name@) && self@.records.contains_key(self@.names[name@])
                ==> (result matches Ok(update) && update
                == self@.records[self@.names[name@]].child_reported_status),
    {
        match self.id_for_name(name) {
            Ok(id) => self.child_status(id),
            Err(error) => Err(error),
        }
    }

    /// Returns a copy of the specification a tracked process was started from.
    pub fn spec_of(&self, process_id: ProcessId) -> (result: Result<ProcessSpec, OrchestratorError>)
        ensures
            !self@.records.contains_key(process_id.0) ==> (result matches Err(
                OrchestratorError::ProcessNotFound(p),
            ) && p == process_id),
            self@.records.contains_key(process_id.0) ==> (result matches Ok(spec) && spec@
                == self@.records[process_id.0].spec),
    {
        match self.record(process_id) {
            Ok(record) => Ok(record.spec().clone()),
            Err(error) => Err(error),
        }
    }

    /// Marks a tracked process with the status a lifecycle request puts it in
    /// (`Stopping` for a graceful shutdown, `Restarting` for a restart) and
    /// returns the codec the request is to be encoded with.
    pub fn request_lifecycle(&mut self, process_id: ProcessId, status: PorkChildStatus) -> (result:
        Result<PorkControlCodec, OrchestratorError>)
        ensures
            view_consistent(final(self)@),
            !old(self)@.records.contains_key(process_id.0) ==> {
                &&& result matches Err(OrchestratorError::ProcessNotFound(p)) && p == process_id
                &&& final(self)@ == old(self)@
            },
            old(self)@.records.contains_key(process_id.0) ==> {
                &&& result matches Ok(codec) && codec == old(self)@.records[process_id.0].control_codec
                &&& final(self)@ == with_status(old(self)@, process_id.0, status)
                &&& final(self)@.records.dom() == old(self)@.records.dom()
                &&& final(self)@.records[process_id.0] == (RecordView {
                    status,
                    ..old(self)@.records[process_id.0]
                })
                &&& forall|other: u64|
                    other != process_id.0 && #[trigger] old(self)@.records.contains_key(other)
                        ==> final(self)@.records[other] == old(self)@.records[other]
                &&& final(self)@.names == old(self)@.names
            },
    {
        match self.set_status(process_id, status) {
            Err(error) => Err(error),
            Ok(()) => match self.record(process_id) {
                Ok(record) => Ok(record.control_codec()),
                Err(error) => Err(error),
            },
        }
    }

    /// Whether shutting a tracked process down still needs a shutdown request:
    /// no request is sent again to a process that is already `Stopping`.
    pub fn shutdown_request_needed(&self, process_id: ProcessId) -> (result: Result<
        bool,
        OrchestratorError,
    >)
        ensures
            !self@.records.contains_key(process_id.0) ==> (result matches Err(
                OrchestratorError::ProcessNotFound(p),
            ) && p == process_id),
            self@.records.contains_key(process_id.0) ==> (result matches Ok(needed) && needed == (
            self@.records[process_id.0].status != PorkChildStatus::Stopping)),
    {
        match self.process_status(process_id) {
            Ok(status) => Ok(status != PorkChildStatus::Stopping),
            Err(error) => Err(error),
        }
    }


    /// Starts tracking a started process.
    ///
    /// The record is stored under its id (replacing a record with the same id)
    /// and its managed name is registered under that id. A record whose name
    /// another tracked process carries is refused.
    pub fn track(&mut self, record: ProcessRecord) -> (result: Result<(), OrchestratorError>)
        ensures
            view_consistent(final(self)@),
            record@.process_id >= old(self)@.next_process_id ==> {
                &&& result matches Err(OrchestratorError::ProcessNotFound(p)) && p.0
                    == record@.process_id
                &&& final(self)@ == old(self)@
            },
            record@.process_id < old(self)@.next_process_id && name_carried_by_other(
                old(self)@,
                record@,
            ) ==> {
                &&& result matches Err(OrchestratorError::DuplicateProcessName(n)) && Some(n@)
                    == record@.managed_name
                &&& final(self)@ == old(self)@
            },
            record@.process_id < old(self)@.next_process_id && !name_carried_by_other(
                old(self)@,
                record@,
            ) ==> {
                &&& result is Ok
                &&& final(self)@ == with_record(old(self)@, record@)
            },
    {
        proof {
            use_type_invariant(&*self);
            lemma_view_consistent(self.records@, self.names@, self.next_process_id);
        }
        if record.process_id.0 >= self.next_process_id {
            return Err(OrchestratorError::ProcessNotFound(record.process_id));
        }
        let mut same: Option<usize> = None;
        let mut i: usize = 0;
        while i < self.records.len()
            invariant
                i <= self.records@.len(),
                registry_consistent(self.records@, self.names@),
                view_consistent(self@),
                record@.process_id < self@.next_process_id,
                forall|j: int|
                    0 <= j < i && (#[trigger] self.records@[j])@.process_id != record@.process_id
                        && record@.managed_name is Some ==> self.records@[j]@.managed_name
                        != record@.managed_name,
                same matches Some(k) ==> k < i && self.records@[k as int]@.process_id
                    == record@.process_id,
                same is None ==> forall|j: int|
                    0 <= j < i ==> (#[trigger] self.records@[j])@.process_id != record@.process_id,
            decreases self.records@.len() - i,
        {
            let current = &self.records[i];
            if current.process_id.0 == record.process_id.0 {
                same = Some(i);
            } else if let Some(name) = &record.managed_name {
                if let Some(carried) = &current.managed_name {
                    if *carried == *name {
                        proof {
                            lemma_records_map_at(self.records@, i as int);
                        }
                        return Err(OrchestratorError::DuplicateProcessName(name.duplicate()));
                    }
                }
            }
            i = i + 1;
        }
        proof {
            if name_carried_by_other(self@, record@) {
                let id = choose|id: u64|
                    #[trigger] self@.records.contains_key(id) && id != record@.process_id
                        && self@.records[id].managed_name == record@.managed_name;
                let j = choose|j: int|
                    0 <= j < self.records@.len() && #[trigger] self.records@[j]@.process_id == id;
                lemma_records_map_at(self.records@, j);
                assert(self.records@[j]@.process_id != record@.process_id);
                assert(false);
            }
        }
        let position = match &record.managed_name {
            Some(name) => self.name_position(name),
            None => None,
        };
        let entry = match &record.managed_name {
            Some(name) => Some((name.duplicate(), record.process_id)),
            None => None,
        };
        let ghost old_records = self.records@;
        let ghost old_names = self.names@;
        let ProcessRegistry { next_process_id, mut records, mut names } = self.take();
        match same {
            Some(k) => {
                proof {
                    lemma_records_update(old_records, k as int, record);
                }
                records.set(k, record);
            },
            None => {
                proof {
                    if has_record(old_records, record@.process_id) {
                        let j = choose|j: int|
                            0 <= j < old_records.len() && #[trigger] old_records[j]@.process_id
                                == record@.process_id;
                        assert(old_records[j]@.process_id != record@.process_id);
                    }
                    lemma_records_push(old_records, record);
                }
                records.push(record);
            },
        }
        let ghost new_records = records@;
        let ghost tracked_record = new_records[if same is Some { same->0 as int } else { old_records.len() as int }];
        proof {
            assert(tracked_record@ == record@);
        }
        match entry {
            Some(entry) => {
                let ghost mid = names@;
                match position {
                    Some(p) => {
                        proof {
                            lemma_names_remove(old_names, p as int);
                        }
                        names.remove(p);
                    },
                    None => {
                        assert(names_map(old_names).remove(entry.0@) =~= names_map(old_names));
                    },
                }
                proof {
                    assert(!has_name(names@, entry.0@));
                    lemma_names_push(names@, entry);
                }
                names.push(entry);
            },
            None => {},
        }
        proof {
            let name = record@.managed_name;
            assert(name_keys_distinct(names@));
            assert(names_map(names@) == match name {
                Some(n) => names_map(old_names).insert(n, record@.process_id),
                None => names_map(old_names),
            }) by {
                if name is Some {
                    assert(names_map(old_names).remove(name->0).insert(name->0, record@.process_id)
                        =~= names_map(old_names).insert(name->0, record@.process_id));
                }
            }
            // Another record keeps its name, which differs from the tracked one.
            assert forall|r: int|
                0 <= r < new_records.len() && new_records[r]@.process_id != record@.process_id
                    implies #[trigger] new_records[r]@ == old_records[r]@ && (record@.managed_name
                    is Some ==> new_records[r]@.managed_name != record@.managed_name) by {
                if same is None {
                    assert(r < old_records.len());
                }
            }
            assert forall|a: int, b: int|
                0 <= a < new_records.len() && 0 <= b < new_records.len() && a != b
                    && (#[trigger] new_records[a]@).managed_name is Some implies new_records[a]@.managed_name
                    != (#[trigger] new_records[b]@).managed_name by {
                assert(new_records[a]@.process_id != new_records[b]@.process_id);
                if new_records[a]@.process_id == record@.process_id {
                    assert(new_records[b]@.process_id != record@.process_id);
                    assert(new_records[a]@ == record@);
                } else if new_records[b]@.process_id == record@.process_id {
                    assert(new_records[b]@ == record@);
                } else {
                    if same is None {
                        assert(a < old_records.len() && b < old_records.len());
                    }
                }
            }
            assert forall|r: int|
                0 <= r < new_records.len() && (#[trigger] new_records[r]@).managed_name is Some implies has_name(
                    names@,
                    new_records[r]@.managed_name->0,
                ) && id_of_name(names@, new_records[r]@.managed_name->0) == new_records[r]@.process_id by {
                let m = new_records[r]@.managed_name->0;
                if new_records[r]@.process_id == record@.process_id {
                    assert(new_records[r]@ == record@);
                    assert(names_map(names@).contains_key(m));
                } else {
                    assert(new_records[r]@ == old_records[r]@);
                    assert(has_name(old_names, m));
                    assert(names_map(old_names).contains_key(m));
                    assert(names_map(names@).contains_key(m));
                    assert(names_map(names@)[m] == names_map(old_names)[m]);
                }
            }
        }
        *self = ProcessRegistry { next_process_id, records, names };
        proof {
            use_type_invariant(&*self);
            lemma_view_consistent(self.records@, self.names@, self.next_process_id);
        }
        Ok(())
    }


    /// Stops tracking a process that has exited.
    ///
    /// The record is dropped together with the registration of its name, and
    /// returned with the status `Stopped`.
    pub fn remove_record(&mut self, process_id: ProcessId) -> (result: Result<
        ProcessRecord,
        OrchestratorError,
    >)
        ensures
            view_consistent(final(self)@),
            !old(self)@.records.contains_key(process_id.0) ==> {
                &&& result matches Err(OrchestratorError::ProcessNotFound(p)) && p == process_id
                &&& final(self)@ == old(self)@
            },
            old(self)@.records.contains_key(process_id.0) ==> {
                &&& result matches Ok(record) && record@ == (RecordView {
                    status: PorkChildStatus::Stopped,
                    ..old(self)@.records[process_id.0]
                })
                &&& final(self)@ == without_record(old(self)@, process_id.0)
            },
    {
        proof {
            use_type_invariant(&*self);
            lemma_view_consistent(self.records@, self.names@, self.next_process_id);
        }
        let i = match self.record_position(process_id) {
            None => {
                return Err(OrchestratorError::ProcessNotFound(process_id));
            },
            Some(i) => i,
        };
        proof {
            lemma_records_map_at(self.records@, i as int);
        }
        let stopped = self.records[i].with_status(PorkChildStatus::Stopped);
        let position = match &stopped.managed_name {
            Some(name) => self.name_position(name),
            None => None,
        };
        let ghost old_records = self.records@;
        let ghost old_names = self.names@;
        let ghost gone = old_records[i as int]@;
        proof {
            lemma_records_remove(old_records, i as int);
            if gone.managed_name is Some {
                assert(has_name(old_names, gone.managed_name->0));
            }
        }
        let ProcessRegistry { next_process_id, mut records, mut names } = self.take();
        records.remove(i);
        match position {
            Some(p) => {
                proof {
                    lemma_names_remove(old_names, p as int);
                }
                names.remove(p);
            },
            None => {},
        }
        proof {
            let after = records@;
            assert(names_map(names@) == match gone.managed_name {
                Some(n) => names_map(old_names).remove(n),
                None => names_map(old_names),
            });
            assert forall|a: int, b: int|
                0 <= a < after.len() && 0 <= b < after.len() && a != b
                    && (#[trigger] after[a]@).managed_name is Some implies after[a]@.managed_name
                    != (#[trigger] after[b]@).managed_name by {
                let a2 = if a < i { a } else { a + 1 };
                let b2 = if b < i { b } else { b + 1 };
                assert(after[a] == old_records[a2] && after[b] == old_records[b2]);
            }
            assert forall|r: int|
                0 <= r < after.len() && (#[trigger] after[r]@).managed_name is Some implies has_name(
                    names@,
                    after[r]@.managed_name->0,
                ) && id_of_name(names@, after[r]@.managed_name->0) == after[r]@.process_id by {
                let r2 = if r < i { r } else { r + 1 };
                assert(after[r] == old_records[r2]);
                let m = after[r]@.managed_name->0;
                assert(r2 != i);
                assert(gone.managed_name != Some(m));
                assert(has_name(old_names, m));
                assert(names_map(old_names).contains_key(m));
                assert(names_map(names@).contains_key(m));
                assert(names_map(names@)[m] == names_map(old_names)[m]);
            }
        }
        *self = ProcessRegistry { next_process_id, records, names };
        proof {
            use_type_invariant(&*self);
            lemma_view_consistent(self.records@, self.names@, self.next_process_id);
        }
        Ok(stopped)
    }

    /// Returns the ids of all tracked processes, each once.
    pub fn process_ids(&self) -> (ids: Vec<ProcessId>)
        ensures
            forall|i: int| 0 <= i < ids@.len() ==> self@.records.contains_key(#[trigger] ids@[i].0),
            forall|id: u64|
                #[trigger] self@.records.contains_key(id) ==> exists|i: int|
                    0 <= i < ids@.len() && #[trigger] ids@[i].0 == id,
            forall|i: int, j: int| 0 <= i < j < ids@.len() ==> ids@[i].0 != ids@[j].0,
    {
        proof {
            use_type_invariant(self);
        }
        let mut ids: Vec<ProcessId> = Vec::new();
        let mut i: usize = 0;
        while i < self.records.len()
            invariant
                i <= self.records@.len(),
                registry_consistent(self.records@, self.names@),
                ids@.len() == i,
                forall|j: int| 0 <= j < i ==> #[trigger] ids@[j].0 == self.records@[j]@.process_id,
            decreases self.records@.len() - i,
        {
            ids.push(self.records[i].process_id);
            i = i + 1;
        }
        proof {
            assert forall|k: int| 0 <= k < ids@.len() implies self@.records.contains_key(#[trigger] ids@[k].0) by {
                lemma_records_map_at(self.records@, k);
            }
            assert forall|id: u64| #[trigger] self@.records.contains_key(id) implies exists|k: int|
                0 <= k < ids@.len() && #[trigger] ids@[k].0 == id by {
                let k = choose|k: int| 0 <= k < self.records@.len() && #[trigger] self.records@[k]@.process_id == id;
                assert(ids@[k].0 == id);
            }
        }
        ids
    }

    /// Returns the registered managed names, each once.
    pub fn process_names(&self) -> (names: Vec<ManagedChildName>)
        ensures
            forall|i: int| 0 <= i < names@.len() ==> self@.names.contains_key(#[trigger] names@[i]@),
            forall|name: Seq<char>|
                #[trigger] self@.names.contains_key(name) ==> exists|i: int|
                    0 <= i < names@.len() && #[trigger] names@[i]@ == name,
            forall|i: int, j: int| 0 <= i < j < names@.len() ==> names@[i]@ != names@[j]@,
    {
        proof {
            use_type_invariant(self);
        }
        let mut names: Vec<ManagedChildName> = Vec::new();
        let mut i: usize = 0;
        while i < self.names.len()
            invariant
                i <= self.names@.len(),
                registry_consistent(self.records@, self.names@),
                names@.len() == i,
                forall|j: int| 0 <= j < i ==> #[trigger] names@[j]@ == self.names@[j].0@,
            decreases self.names@.len() - i,
        {
            names.push(self.names[i].0.duplicate());
            i = i + 1;
        }
        proof {
            assert forall|k: int| 0 <= k < names@.len() implies self@.names.contains_key(#[trigger] names@[k]@) by {
                lemma_names_map_at(self.names@, k);
            }
            assert forall|name: Seq<char>| #[trigger] self@.names.contains_key(name) implies exists|k: int|
                0 <= k < names@.len() && #[trigger] names@[k]@ == name by {
                let k = choose|k: int| 0 <= k < self.names@.len() && #[trigger] self.names@[k].0@ == name;
                assert(names@[k]@ == name);
            }
        }
        names
    }


    /// Admits the start of a process from `spec`, before it is spawned.
    ///
    /// A fresh process id is handed out first (`ProcessIdsExhausted` once
    /// none is left). With `reserve_name`, the spec's managed name is then
    /// reserved for that id, and a name already registered is refused. When
    /// the spec declares dependencies, each must be registered
    /// (`DependencyNotFound` for the first that is not), and a named process
    /// must not reach itself through them (`DependencyCycle`). The id stays
    /// handed out and the name stays reserved whatever the outcome of the
    /// dependency checks; a reservation is dropped only by
    /// [`Self::abandon_start`], after a failed spawn.
    pub fn prepare_start(&mut self, spec: &ProcessSpec, reserve_name: bool) -> (result: Result<
        ProcessId,
        OrchestratorError,
    >)
        ensures
            view_consistent(final(self)@),
            final(self)@.records == old(self)@.records,
            old(self)@.next_process_id == u64::MAX ==> {
                &&& result matches Err(OrchestratorError::ProcessIdsExhausted)
                &&& final(self)@ == old(self)@
            },
            old(self)@.next_process_id < u64::MAX && reserves(spec@, reserve_name)
                && old(self)@.names.contains_key(spec@.managed_name->0) ==> {
                &&& result matches Err(OrchestratorError::DuplicateProcessName(n)) && Some(n@)
                    == spec@.managed_name
                &&& final(self)@ == advanced(old(self)@)
            },
            old(self)@.next_process_id < u64::MAX && !(reserves(spec@, reserve_name)
                && old(self)@.names.contains_key(spec@.managed_name->0)) ==> {
                let admitted = admission_view(old(self)@, spec@, reserve_name);
                &&& spec@.depends_on.len() > 0 && !all_registered(admitted, spec@.depends_on) ==> {
                    &&& result matches Err(OrchestratorError::DependencyNotFound(missing))
                        && exists|i: int|
                        0 <= i < spec@.depends_on.len() && !admitted.names.contains_key(
                            #[trigger] spec@.depends_on[i],
                        ) && missing@ == spec@.depends_on[i] && all_registered(
                            admitted,
                            spec@.depends_on.take(i),
                        )
                    &&& final(self)@ == admitted
                }
                &&& spec@.depends_on.len() > 0 && all_registered(admitted, spec@.depends_on)
                    && spec@.managed_name is Some && reaches(
                    admitted,
                    spec@.depends_on,
                    spec@.managed_name->0,
                ) ==> {
                    &&& result matches Err(OrchestratorError::DependencyCycle(cycle)) && names_of(
                        cycle@,
                    ) == spec@.depends_on.push(spec@.managed_name->0)
                    &&& final(self)@ == admitted
                }
                &&& (spec@.depends_on.len() == 0 || (all_registered(admitted, spec@.depends_on)
                    && !(spec@.managed_name is Some && reaches(
                    admitted,
                    spec@.depends_on,
                    spec@.managed_name->0,
                )))) ==> {
                    &&& result matches Ok(id) && id.0 == old(self)@.next_process_id
                        && !old(self)@.records.contains_key(id.0)
                    &&& final(self)@ == admitted
                }
            },
    {
        proof {
            use_type_invariant(&*self);
            lemma_view_consistent(self.records@, self.names@, self.next_process_id);
        }
        let ghost start = self@;
        let process_id = match self.allocate_process_id() {
            Some(id) => id,
            None => {
                return Err(OrchestratorError::ProcessIdsExhausted);
            },
        };
        if reserve_name {
            if let Some(name) = spec.managed_name() {
                if let Err(error) = self.reserve_name(name, process_id) {
                    return Err(error);
                }
            }
        }
        let ghost admitted = self@;
        assert(admitted == admission_view(start, spec@, reserve_name));
        let deps = spec.depends_on_ref();
        if deps.len() > 0 {
            let checked = match self.check_dependencies_known(deps) {
                Err(error) => {
                    proof {
                        let texts = names_of(deps@);
                        if !all_registered(self@, texts) {
                            let missing = error->DependencyNotFound_0;
                            let i = choose|i: int|
                                0 <= i < deps@.len() && !self@.names.contains_key(
                                    #[trigger] deps@[i]@,
                                ) && missing@ == deps@[i]@ && all_registered(
                                    self@,
                                    names_of(deps@.take(i)),
                                );
                            assert(texts[i] == deps@[i]@);
                            assert(names_of(deps@.take(i)) =~= texts.take(i));
                            assert(!self@.names.contains_key(spec@.depends_on[i]));
                        }
                    }
                    Err(error)
                },
                Ok(()) => match spec.managed_name() {
                    Some(name) => self.check_dependency_cycle(name, deps),
                    None => Ok(()),
                },
            };
            if let Err(error) = checked {
                return Err(error);
            }
        }
        Ok(process_id)
    }

    /// Drops what a start admitted by [`Self::prepare_start`] reserved, after
    /// the child could not be spawned or connected: with `reserve_name`, the
    /// spec's name is released, unless a tracked process carries it.
    pub fn abandon_start(&mut self, spec: &ProcessSpec, reserve_name: bool)
        ensures
            view_consistent(final(self)@),
            reserves(spec@, reserve_name) && !name_carried(old(self)@, spec@.managed_name->0)
                ==> final(self)@ == without_reservation(old(self)@, spec@.managed_name->0),
            !(reserves(spec@, reserve_name) && !name_carried(old(self)@, spec@.managed_name->0))
                ==> final(self)@ == old(self)@,
    {
        proof {
            use_type_invariant(&*self);
            lemma_view_consistent(self.records@, self.names@, self.next_process_id);
        }
        if reserve_name {
            if let Some(name) = spec.managed_name() {
                self.release_reserved_name(name);
            }
        }
    }

    /// Replaces the record at a position by one with the same id and name.
    fn put_record(&mut self, i: usize, record: ProcessRecord)
        requires
            i < old(self).records@.len(),
            record@.process_id == old(self).records@[i as int]@.process_id,
            record@.managed_name == old(self).records@[i as int]@.managed_name,
        ensures
            view_consistent(final(self)@),
            final(self)@ == (RegistryView {
                records: old(self)@.records.insert(record@.process_id, record@),
                ..old(self)@
            }),
    {
        proof {
            use_type_invariant(&*self);
            lemma_view_consistent(self.records@, self.names@, self.next_process_id);
            lemma_records_update(self.records@, i as int, record);
            let before = self.records@;
            let after = before.update(i as int, record);
            assert forall|a: int, b: int|
                0 <= a < after.len() && 0 <= b < after.len() && a != b && (#[trigger] after[a]@).managed_name
                    is Some implies after[a]@.managed_name != (#[trigger] after[b]@).managed_name by {
                assert(after[a]@.managed_name == before[a]@.managed_name);
                assert(after[b]@.managed_name == before[b]@.managed_name);
            }
            assert forall|r: int|
                0 <= r < after.len() && (#[trigger] after[r]@).managed_name is Some implies has_name(
                    self.names@,
                    after[r]@.managed_name->0,
                ) && id_of_name(self.names@, after[r]@.managed_name->0) == after[r]@.process_id by {
                assert(after[r]@.managed_name == before[r]@.managed_name);
                assert(after[r]@.process_id == before[r]@.process_id);
            }
        }
        let ProcessRegistry { next_process_id, mut records, names } = self.take();
        records.set(i, record);
        *self = ProcessRegistry { next_process_id, records, names };
        proof {
            use_type_invariant(&*self);
            lemma_view_consistent(self.records@, self.names@, self.next_process_id);
        }
    }
}

} // verus!
