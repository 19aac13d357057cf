//! Properties that relate the registry's operations to each other.
//!
//! Each operation of [`ProcessRegistry`](super::ProcessRegistry) states its
//! effect on the registry's view with one of the transitions of the parent
//! module. The properties below are stated over those transitions.

use vstd::prelude::*;

use super::dependencies::{dependencies_of, is_dependency_chain, is_ready, not_ready, reaches};
use super::{
    RecordView, RegistryView, name_carried, name_carried_by_other, view_consistent, with_child_report,
    with_record, with_reservation, with_status, without_record, without_reservation,
};
use crate::protocol::{PorkChildStatus, PorkStatusUpdate};

verus! {

/// Dropping a process right after it was tracked under a fresh id and a free
/// name gives back the registry as it was before.
pub proof fn law_remove_undoes_track(view: RegistryView, record: RecordView)
    requires
        view_consistent(view),
        !view.records.contains_key(record.process_id),
        record.managed_name is Some ==> !view.names.contains_key(record.managed_name->0),
    ensures
        !name_carried_by_other(view, record),
        without_record(with_record(view, record), record.process_id) == view,
{
    if name_carried_by_other(view, record) {
        let id = choose|id: u64|
            #[trigger] view.records.contains_key(id) && id != record.process_id
                && view.records[id].managed_name == record.managed_name;
        assert(view.names.contains_key(record.managed_name->0));
    }
    let after = without_record(with_record(view, record), record.process_id);
    assert(after.records =~= view.records);
    match record.managed_name {
        Some(name) => {
            assert(after.names =~= view.names);
        },
        None => {},
    }
}

/// Releasing a name right after reserving it, while no tracked process carries
/// it, gives back the registry as it was before.
pub proof fn law_release_undoes_reservation(view: RegistryView, name: Seq<char>, process_id: u64)
    requires
        !view.names.contains_key(name),
        !name_carried(view, name),
    ensures
        !name_carried(with_reservation(view, name, process_id), name),
        without_reservation(with_reservation(view, name, process_id), name) == view,
{
    assert(without_reservation(with_reservation(view, name, process_id), name).names =~= view.names);
}

/// A status written for a tracked process is the status read back for it;
/// the other processes and the names are untouched.
pub proof fn law_status_is_read_back(view: RegistryView, process_id: u64, status: PorkChildStatus)
    requires
        view.records.contains_key(process_id),
    ensures
        with_status(view, process_id, status).records.contains_key(process_id),
        with_status(view, process_id, status).records[process_id].status == status,
        with_status(view, process_id, status).records.dom() == view.records.dom(),
        forall|other: u64|
            other != process_id && #[trigger] view.records.contains_key(other) ==> with_status(
                view,
                process_id,
                status,
            ).records[other] == view.records[other],
        with_status(view, process_id, status).names == view.names,
{
    assert(with_status(view, process_id, status).records.dom() =~= view.records.dom());
}

/// The latest status report stored for a tracked child is the one read back.
pub proof fn law_child_report_is_read_back(
    view: RegistryView,
    process_id: u64,
    update: PorkStatusUpdate,
)
    requires
        view.records.contains_key(process_id),
    ensures
        with_child_report(view, process_id, update).records[process_id].child_reported_status
            == Some(update),
        with_child_report(view, process_id, update).records[process_id].status
            == view.records[process_id].status,
        with_child_report(view, process_id, update).records.dom() == view.records.dom(),
        with_child_report(view, process_id, update).names == view.names,
        forall|other: u64|
            other != process_id && #[trigger] view.records.contains_key(other) ==> with_child_report(
                view,
                process_id,
                update,
            ).records[other] == view.records[other],
        with_child_report(view, process_id, update).records[process_id] == (RecordView {
            child_reported_status: Some(update),
            ..view.records[process_id]
        }),
{
    assert(with_child_report(view, process_id, update).records.dom() =~= view.records.dom());
}

/// The id the registry hands out next is tracked by no process.
pub proof fn law_next_id_is_fresh(view: RegistryView)
    requires
        view_consistent(view),
    ensures
        !view.records.contains_key(view.next_process_id),
{
}

/// Restarting a named process (dropping it, then tracking its replacement
/// under the id handed out next) runs the replacement under a new id, drops
/// the old id, and moves the name to the new id.
pub proof fn law_restart_moves_name_to_new_id(view: RegistryView, process_id: u64, replacement: RecordView)
    requires
        view_consistent(view),
        view.records.contains_key(process_id),
        view.records[process_id].managed_name is Some,
        replacement.managed_name == view.records[process_id].managed_name,
        replacement.process_id == without_record(view, process_id).next_process_id,
    ensures
        replacement.process_id != process_id,
        !without_record(view, process_id).records.contains_key(replacement.process_id),
        !name_carried_by_other(without_record(view, process_id), replacement),
        with_record(without_record(view, process_id), replacement).names[replacement.managed_name->0]
            == replacement.process_id,
        !with_record(without_record(view, process_id), replacement).records.contains_key(process_id),
        with_record(without_record(view, process_id), replacement).records[replacement.process_id]
            == replacement,
        with_record(without_record(view, process_id), replacement).records.dom()
            == view.records.dom().remove(process_id).insert(replacement.process_id),
{
    let dropped = without_record(view, process_id);
    assert(process_id < view.next_process_id);
    if name_carried_by_other(dropped, replacement) {
        let id = choose|id: u64|
            #[trigger] dropped.records.contains_key(id) && id != replacement.process_id
                && dropped.records[id].managed_name == replacement.managed_name;
        assert(view.records.contains_key(id));
        assert(view.names[replacement.managed_name->0] == id);
        assert(view.names[replacement.managed_name->0] == process_id);
    }
    assert(with_record(dropped, replacement).records.dom() =~= view.records.dom().remove(
        process_id,
    ).insert(replacement.process_id));
}

/// Two ids handed out one after the other differ: the second is one more
/// than the first.
pub proof fn law_successive_ids_differ(next_process_id: u64)
    requires
        next_process_id < u64::MAX,
    ensures
        (next_process_id + 1) as u64 != next_process_id,
{
}

/// A process that lists its own name among its dependencies reaches itself,
/// so it is refused as a cycle.
pub proof fn law_self_dependency_is_a_cycle(view: RegistryView, deps: Seq<Seq<char>>, root: Seq<char>)
    requires
        deps.contains(root),
    ensures
        reaches(view, deps, root),
{
    let chain = seq![root];
    assert(is_dependency_chain(view, deps, chain));
}

/// A process that depends on a tracked process which declared it as a
/// dependency reaches itself, so it is refused as a cycle.
pub proof fn law_dependency_back_to_root_is_a_cycle(
    view: RegistryView,
    deps: Seq<Seq<char>>,
    root: Seq<char>,
    dependency: Seq<char>,
    process_id: u64,
)
    requires
        view_consistent(view),
        deps.contains(dependency),
        view.records.contains_key(process_id),
        view.records[process_id].managed_name == Some(dependency),
        view.records[process_id].spec.depends_on.contains(root),
    ensures
        reaches(view, deps, root),
{
    let id = choose|id: u64|
        #[trigger] view.records.contains_key(id) && view.records[id].managed_name == Some(dependency);
    assert(view.names[dependency] == id);
    assert(view.names[dependency] == process_id);
    assert(dependencies_of(view, dependency) == view.records[process_id].spec.depends_on);
    let chain = seq![dependency, root];
    assert(chain[0] == dependency);
    assert(is_dependency_chain(view, deps, chain));
    assert(chain.last() == root);
}

/// Nothing is pending exactly when every dependency is registered, tracked
/// and running.
pub proof fn law_nothing_pending_iff_all_running(view: RegistryView, deps: Seq<Seq<char>>)
    ensures
        not_ready(view, deps).len() == 0 <==> forall|i: int|
            0 <= i < deps.len() ==> is_ready(view, #[trigger] deps[i]),
{
    let pred = |name: Seq<char>| !is_ready(view, name);
    if not_ready(view, deps).len() == 0 {
        assert forall|i: int| 0 <= i < deps.len() implies is_ready(view, #[trigger] deps[i]) by {
            if !is_ready(view, deps[i]) {
                deps.lemma_filter_contains(pred, i);
            }
        }
    } else {
        deps.lemma_filter_pred(pred, 0);
        let first = deps.filter(pred)[0];
        assert(deps.filter(pred).contains(first));
        deps.lemma_filter_contains_rev(pred, first);
    }
}

} // verus!
