//! Dependency checks made before a process is started.
//!
//! A process may declare the managed names it depends on. Before it is
//! spawned, every declared name must be registered, following the declared
//! dependencies of the tracked processes must not lead back to the process
//! itself, and every dependency must be running.

use vstd::prelude::*;

use super::{
    ProcessRecord, ProcessRegistry, RegistryView, lemma_records_map_at, registry_consistent,
};
use crate::error::OrchestratorError;
use crate::spec::names_of;
use crate::types::ManagedChildName;

verus! {

/// The dependencies declared by the tracked process that carries `name`;
/// none when no tracked process carries it.
pub open spec fn dependencies_of(view: RegistryView, name: Seq<char>) -> Seq<Seq<char>> {
    if exists|id: u64|
        #[trigger] view.records.contains_key(id) && view.records[id].managed_name == Some(name) {
        let id = choose|id: u64|
            #[trigger] view.records.contains_key(id) && view.records[id].managed_name == Some(name);
        view.records[id].spec.depends_on
    } else {
        Seq::empty()
    }
}

/// A chain of names that starts at one of `start` and goes on, name by name,
/// to a dependency declared by the process that carries the previous name.
pub open spec fn is_dependency_chain(
    view: RegistryView,
    start: Seq<Seq<char>>,
    chain: Seq<Seq<char>>,
) -> bool {
    &&& chain.len() > 0
    &&& start.contains(chain[0])
    &&& forall|k: int|
        0 <= k < chain.len() - 1 ==> #[trigger] dependencies_of(view, chain[k]).contains(
            chain[k + 1],
        )
}

/// Whether `target` is reached from `start` by following declared dependencies.
pub open spec fn reaches(view: RegistryView, start: Seq<Seq<char>>, target: Seq<char>) -> bool {
    exists|chain: Seq<Seq<char>>|
        #[trigger] is_dependency_chain(view, start, chain) && chain.last() == target
}

/// Every name is registered.
pub open spec fn all_registered(view: RegistryView, names: Seq<Seq<char>>) -> bool {
    forall|i: int| 0 <= i < names.len() ==> view.names.contains_key(#[trigger] names[i])
}

/// The process registered under `name` is tracked and running.
pub open spec fn is_ready(view: RegistryView, name: Seq<char>) -> bool {
    &&& view.names.contains_key(name)
    &&& view.records.contains_key(view.names[name])
    &&& view.records[view.names[name]].status == crate::protocol::PorkChildStatus::Running
}

/// The names that are not ready, in their order.
pub open spec fn not_ready(view: RegistryView, names: Seq<Seq<char>>) -> Seq<Seq<char>> {
    names.filter(|name: Seq<char>| !is_ready(view, name))
}

/// Every name that some tracked record declares as a dependency.
pub open spec fn declared_names(records: Seq<ProcessRecord>) -> Set<Seq<char>>
    decreases records.len(),
{
    if records.len() == 0 {
        Set::empty()
    } else {
        declared_names(records.drop_last()) + records.last()@.spec.depends_on.to_set()
    }
}

/// The declared names are finitely many and include every declared dependency.
proof fn lemma_declared_names(records: Seq<ProcessRecord>)
    ensures
        declared_names(records).finite(),
        forall|i: int, x: Seq<char>|
            0 <= i < records.len() && #[trigger] records[i]@.spec.depends_on.contains(x)
                ==> declared_names(records).contains(x),
    decreases records.len(),
{
    if records.len() > 0 {
        let rest = records.drop_last();
        lemma_declared_names(rest);
        vstd::seq_lib::seq_to_set_is_finite(records.last()@.spec.depends_on);
        assert forall|i: int, x: Seq<char>|
            0 <= i < records.len() && #[trigger] records[i]@.spec.depends_on.contains(x)
                implies declared_names(records).contains(x) by {
            if i < records.len() - 1 {
                assert(rest[i] == records[i]);
            }
        }
    }
}

/// Every name of a chain lies in a set that holds the start and is closed
/// under declared dependencies.
proof fn lemma_closed_set_holds_chain(
    view: RegistryView,
    start: Seq<Seq<char>>,
    closed: Set<Seq<char>>,
    chain: Seq<Seq<char>>,
    k: int,
)
    requires
        is_dependency_chain(view, start, chain),
        forall|x: Seq<char>| start.contains(x) ==> closed.contains(x),
        forall|v: Seq<char>, y: Seq<char>|
            closed.contains(v) && #[trigger] dependencies_of(view, v).contains(y) ==> closed.contains(
                y,
            ),
        0 <= k < chain.len(),
    ensures
        closed.contains(chain[k]),
    decreases k,
{
    if k > 0 {
        lemma_closed_set_holds_chain(view, start, closed, chain, k - 1);
        assert(dependencies_of(view, chain[k - 1]).contains(chain[k - 1 + 1]));
    }
}

/// A chain extended by a dependency of its last name is a chain.
proof fn lemma_chain_push(
    view: RegistryView,
    start: Seq<Seq<char>>,
    chain: Seq<Seq<char>>,
    next: Seq<char>,
)
    requires
        is_dependency_chain(view, start, chain),
        dependencies_of(view, chain.last()).contains(next),
    ensures
        is_dependency_chain(view, start, chain.push(next)),
        chain.push(next).last() == next,
{
    let longer = chain.push(next);
    assert(longer[0] == chain[0]);
    assert forall|k: int| 0 <= k < longer.len() - 1 implies #[trigger] dependencies_of(
        view,
        longer[k],
    ).contains(longer[k + 1]) by {
        if k < chain.len() - 1 {
            assert(longer[k] == chain[k] && longer[k + 1] == chain[k + 1]);
            assert(dependencies_of(view, chain[k]).contains(chain[k + 1]));
        } else {
            assert(longer[k] == chain.last());
        }
    }
}

/// Whether a list of names holds one with the text of `name`.
fn holds_name(names: &Vec<ManagedChildName>, name: &ManagedChildName) -> (held: bool)
    ensures
        held == names_of(names@).contains(name@),
{
    let mut i: usize = 0;
    while i < names.len()
        invariant
            i <= names@.len(),
            forall|j: int| 0 <= j < i ==> (#[trigger] names@[j])@ != name@,
        decreases names@.len() - i,
    {
        if names[i] == *name {
            assert(names_of(names@)[i as int] == name@);
            return true;
        }
        i = i + 1;
    }
    proof {
        if names_of(names@).contains(name@) {
            let j = choose|j: int| 0 <= j < names_of(names@).len() && names_of(names@)[j] == name@;
            assert(names@[j]@ == name@);
        }
    }
    false
}

impl ProcessRegistry {
    /// Returns the position of the tracked record that carries `name`, if any;
    /// its declared dependencies are the dependencies of `name`.
    fn carrier_position(&self, name: &ManagedChildName) -> (index: Option<usize>)
        ensures
            index matches Some(i) ==> {
                &&& i < self.records@.len()
                &&& self.records@[i as int]@.managed_name == Some(name@)
                &&& dependencies_of(self@, name@) == self.records@[i as int]@.spec.depends_on
            },
            index is None ==> dependencies_of(self@, name@) == Seq::<Seq<char>>::empty(),
    {
        proof {
            use_type_invariant(self);
        }
        let mut i: usize = 0;
        while i < self.records.len()
            invariant
                i <= self.records@.len(),
                registry_consistent(self.records@, self.names@),
                forall|j: int| 0 <= j < i ==> (#[trigger] self.records@[j])@.managed_name != Some(name@),
            decreases self.records@.len() - i,
        {
            let carries = match &self.records[i].managed_name {
                Some(carried) => *carried == *name,
                None => false,
            };
            if carries {
                proof {
                    let records = self.records@;
                    lemma_records_map_at(records, i as int);
                    let view = self@;
                    assert(view.records.contains_key(records[i as int]@.process_id));
                    let id = choose|id: u64|
                        #[trigger] view.records.contains_key(id) && view.records[id].managed_name
                            == Some(name@);
                    let j = choose|j: int| 0 <= j < records.len() && #[trigger] records[j]@.process_id == id;
                    lemma_records_map_at(records, j);
                    if j != i {
                        assert(records[i as int]@.managed_name != records[j]@.managed_name);
                    }
                }
                return Some(i);
            }
            i = i + 1;
        }
        proof {
            let records = self.records@;
            let view = self@;
            if exists|id: u64|
                #[trigger] view.records.contains_key(id) && view.records[id].managed_name == Some(name@) {
                let id = choose|id: u64|
                    #[trigger] view.records.contains_key(id) && view.records[id].managed_name
                        == Some(name@);
                let j = choose|j: int| 0 <= j < records.len() && #[trigger] records[j]@.process_id == id;
                lemma_records_map_at(records, j);
                assert(records[j]@.managed_name != Some(name@));
            }
        }
        None
    }
    /// Checks that every declared dependency is registered.
    ///
    /// The first name, in declaration order, that is not registered is
    /// reported as `DependencyNotFound`.
    pub fn check_dependencies_known(&self, deps: &[ManagedChildName]) -> (result: Result<
        (),
        OrchestratorError,
    >)
        ensures
            all_registered(self@, names_of(deps@)) ==> result is Ok,
            !all_registered(self@, names_of(deps@)) ==> (result matches Err(
                OrchestratorError::DependencyNotFound(missing),
            ) && exists|i: int|
                0 <= i < deps@.len() && !self@.names.contains_key(#[trigger] deps@[i]@)
                    && missing@ == deps@[i]@ && all_registered(
                    self@,
                    names_of(deps@.take(i)),
                )),
    {
        let mut i: usize = 0;
        while i < deps.len()
            invariant
                i <= deps@.len(),
                all_registered(self@, names_of(deps@.take(i as int))),
            decreases deps@.len() - i,
        {
            if !self.has_process_name(&deps[i]) {
                assert(names_of(deps@)[i as int] == deps@[i as int]@);
                return Err(OrchestratorError::DependencyNotFound(deps[i].duplicate()));
            }
            proof {
                let before = names_of(deps@.take(i as int));
                let after = names_of(deps@.take(i + 1));
                assert forall|k: int| 0 <= k < after.len() implies self@.names.contains_key(
                    #[trigger] after[k],
                ) by {
                    if k < i {
                        assert(after[k] == before[k]);
                    } else {
                        assert(after[k] == deps@[i as int]@);
                    }
                }
            }
            i = i + 1;
        }
        assert(deps@.take(deps@.len() as int) =~= deps@);
        Ok(())
    }

    /// Whether the process registered under a name is tracked and running.
    fn ready(&self, name: &ManagedChildName) -> (ready: bool)
        ensures
            ready == is_ready(self@, name@),
    {
        match self.process_id_by_name(name) {
            None => false,
            Some(id) => match self.process_status(id) {
                Ok(status) => status == crate::protocol::PorkChildStatus::Running,
                Err(_) => false,
            },
        }
    }

    /// Returns the dependencies that are not ready yet, in declaration order.
    pub fn dependencies_not_ready(&self, deps: &[ManagedChildName]) -> (pending: Vec<
        ManagedChildName,
    >)
        ensures
            names_of(pending@) == not_ready(self@, names_of(deps@)),
    {
        let ghost pred = |name: Seq<char>| !is_ready(self@, name);
        let mut pending: Vec<ManagedChildName> = Vec::new();
        let mut i: usize = 0;
        while i < deps.len()
            invariant
                i <= deps@.len(),
                pred == (|name: Seq<char>| !is_ready(self@, name)),
                names_of(pending@) == names_of(deps@).take(i as int).filter(pred),
            decreases deps@.len() - i,
        {
            let ghost before = pending@;
            let ready = self.ready(&deps[i]);
            proof {
                let texts = names_of(deps@);
                assert(texts.take(i + 1) =~= texts.take(i as int).push(texts[i as int]));
                texts.take(i as int).lemma_filter_push(texts[i as int], pred);
            }
            if !ready {
                pending.push(deps[i].duplicate());
                proof {
                    crate::spec::lemma_map_values_push(before, pending@[before.len() as int], |n: ManagedChildName| n@);
                }
            }
            i = i + 1;
        }
        assert(names_of(deps@).take(deps@.len() as int) =~= names_of(deps@));
        pending
    }

    /// One poll of the wait for dependencies: `Ok(true)` once all of them are
    /// ready, `Ok(false)` while some are not and the deadline has not been
    /// reached, and `DependencyTimeout` with the pending names once it has.
    pub fn poll_dependencies(&self, deps: &[ManagedChildName], deadline_reached: bool) -> (result:
        Result<bool, OrchestratorError>)
        ensures
            not_ready(self@, names_of(deps@)).len() == 0 ==> result matches Ok(true),
            not_ready(self@, names_of(deps@)).len() > 0 && !deadline_reached ==> result matches Ok(
                false,
            ),
            not_ready(self@, names_of(deps@)).len() > 0 && deadline_reached ==> (result matches Err(
                OrchestratorError::DependencyTimeout(pending),
            ) && names_of(pending@) == not_ready(self@, names_of(deps@))),
    {
        let pending = self.dependencies_not_ready(deps);
        if pending.len() == 0 {
            Ok(true)
        } else if !deadline_reached {
            Ok(false)
        } else {
            Err(OrchestratorError::DependencyTimeout(pending))
        }
    }
    /// Checks that the declared dependencies of a process named `root` do not
    /// lead back to it.
    ///
    /// The dependencies are followed depth first through the dependencies the
    /// tracked processes declared. When `root` is met, the error lists the
    /// declared dependencies followed by `root`.
    pub fn check_dependency_cycle(&self, root: &ManagedChildName, deps: &[ManagedChildName]) -> (result:
        Result<(), OrchestratorError>)
        ensures
            reaches(self@, names_of(deps@), root@) ==> (result matches Err(
                OrchestratorError::DependencyCycle(cycle),
            ) && names_of(cycle@) == names_of(deps@).push(root@)),
            !reaches(self@, names_of(deps@), root@) ==> result is Ok,
    {
        proof {
            use_type_invariant(self);
            lemma_declared_names(self.records@);
        }
        let ghost start = names_of(deps@);
        let ghost universe = start.to_set() + declared_names(self.records@);
        let mut stack: Vec<ManagedChildName> = Vec::new();
        let mut i: usize = 0;
        while i < deps.len()
            invariant
                i <= deps@.len(),
                start == names_of(deps@),
                stack@.len() == i,
                forall|k: int| 0 <= k < i ==> (#[trigger] stack@[k])@ == deps@[k]@,
            decreases deps@.len() - i,
        {
            stack.push(deps[i].duplicate());
            i = i + 1;
        }
        proof {
            vstd::seq_lib::seq_to_set_is_finite(start);
            assert forall|k: int| 0 <= k < stack@.len() implies universe.contains(#[trigger] stack@[k]@)
                && reaches(self@, start, stack@[k]@) by {
                assert(start[k] == stack@[k]@);
                assert(start.contains(stack@[k]@));
                let chain = seq![stack@[k]@];
                assert(chain[0] == stack@[k]@);
                assert(is_dependency_chain(self@, start, chain));
            }
            assert forall|x: Seq<char>| start.contains(x) implies names_of(stack@).contains(x) by {
                let k = choose|k: int| 0 <= k < start.len() && start[k] == x;
                assert(names_of(stack@)[k] == x);
            }
        }
        let mut visited: Vec<ManagedChildName> = Vec::new();
        let ghost mut seen: Set<Seq<char>> = Set::empty();
        while stack.len() > 0
            invariant
                registry_consistent(self.records@, self.names@),
                start == names_of(deps@),
                universe == start.to_set() + declared_names(self.records@),
                universe.finite(),
                forall|r: int, x: Seq<char>|
                    0 <= r < self.records@.len() && #[trigger] self.records@[r]@.spec.depends_on.contains(x)
                        ==> declared_names(self.records@).contains(x),
                seen.finite(),
                seen.subset_of(universe),
                forall|x: Seq<char>| seen.contains(x) == names_of(visited@).contains(x),
                forall|k: int|
                    0 <= k < stack@.len() ==> universe.contains(#[trigger] stack@[k]@) && reaches(
                        self@,
                        start,
                        stack@[k]@,
                    ),
                !seen.contains(root@),
                forall|x: Seq<char>|
                    start.contains(x) ==> seen.contains(x) || names_of(stack@).contains(x),
                forall|v: Seq<char>, y: Seq<char>|
                    seen.contains(v) && #[trigger] dependencies_of(self@, v).contains(y) ==> seen.contains(y)
                        || names_of(stack@).contains(y),
            decreases universe.len() - seen.len(), stack@.len(),
        {
            let ghost before = stack@;
            let current = stack.pop().unwrap();
            proof {
                assert(current == before.last());
                assert(stack@ =~= before.drop_last());
                // whatever the popped stack held, the shorter one still holds, or it is `current`
                assert forall|y: Seq<char>| names_of(before).contains(y) implies names_of(stack@).contains(y)
                    || y == current@ by {
                    let k = choose|k: int| 0 <= k < names_of(before).len() && names_of(before)[k] == y;
                    if k < before.len() - 1 {
                        assert(names_of(stack@)[k] == y);
                    }
                }
                vstd::set_lib::lemma_len_subset(seen, universe);
            }
            if current == *root {
                proof {
                    assert(reaches(self@, start, before[before.len() - 1]@));
                }
                let mut cycle: Vec<ManagedChildName> = Vec::new();
                let mut j: usize = 0;
                while j < deps.len()
                    invariant
                        j <= deps@.len(),
                        cycle@.len() == j,
                        forall|k: int| 0 <= k < j ==> (#[trigger] cycle@[k])@ == deps@[k]@,
                    decreases deps@.len() - j,
                {
                    cycle.push(deps[j].duplicate());
                    j = j + 1;
                }
                cycle.push(root.duplicate());
                assert(names_of(cycle@) =~= names_of(deps@).push(root@));
                return Err(OrchestratorError::DependencyCycle(cycle));
            }
            if holds_name(&visited, &current) {
                proof {
                    assert(seen.contains(current@));
                }
            } else {
                proof {
                    seen = seen.insert(current@);
                    assert(universe.contains(before[before.len() - 1]@));
                    vstd::set_lib::lemma_len_subset(seen, universe);
                }
                let ghost visited_before = visited@;
                visited.push(current.duplicate());
                proof {
                    crate::spec::lemma_map_values_push(
                        visited_before,
                        visited@[visited_before.len() as int],
                        |n: ManagedChildName| n@,
                    );
                    assert forall|x: Seq<char>| seen.contains(x) == names_of(visited@).contains(x) by {
                        assert(names_of(visited@) == names_of(visited_before).push(current@));
                        if names_of(visited_before).contains(x) {
                            let k = choose|k: int|
                                0 <= k < names_of(visited_before).len() && names_of(visited_before)[k] == x;
                            assert(names_of(visited@)[k] == x);
                        }
                        if names_of(visited@).contains(x) && x != current@ {
                            let k = choose|k: int|
                                0 <= k < names_of(visited@).len() && names_of(visited@)[k] == x;
                            assert(k < visited_before.len());
                            assert(names_of(visited_before)[k] == x);
                        }
                        assert(names_of(visited@)[visited_before.len() as int] == current@);
                    }
                }
                match self.carrier_position(&current) {
                    None => {},
                    Some(r) => {
                        let successors = self.records[r].spec.depends_on_ref();
                        let ghost pushed_from = stack@;
                        let ghost successor_texts = names_of(successors@);
                        let mut j: usize = 0;
                        while j < successors.len()
                            invariant
                                j <= successors@.len(),
                                successor_texts == names_of(successors@),
                                successor_texts == dependencies_of(self@, current@),
                                successor_texts == self.records@[r as int]@.spec.depends_on,
                                r < self.records@.len(),
                                universe.finite(),
                                forall|q: int, x: Seq<char>|
                                    0 <= q < self.records@.len()
                                        && #[trigger] self.records@[q]@.spec.depends_on.contains(x)
                                        ==> declared_names(self.records@).contains(x),
                                universe == start.to_set() + declared_names(self.records@),
                                reaches(self@, start, current@),
                                stack@.len() == pushed_from.len() + j,
                                forall|k: int|
                                    0 <= k < pushed_from.len() ==> #[trigger] stack@[k] == pushed_from[k],
                                forall|k: int|
                                    0 <= k < j ==> (#[trigger] stack@[pushed_from.len() + k])@
                                        == successor_texts[k],
                                forall|k: int|
                                    0 <= k < stack@.len() ==> universe.contains(#[trigger] stack@[k]@)
                                        && reaches(self@, start, stack@[k]@),
                            decreases successors@.len() - j,
                        {
                            let ghost stack_before = stack@;
                            let next = successors[j].duplicate();
                            proof {
                                assert(successor_texts[j as int] == next@);
                                assert(self.records@[r as int]@.spec.depends_on.contains(next@));
                                assert(declared_names(self.records@).contains(next@));
                                let chain = choose|chain: Seq<Seq<char>>|
                                    #[trigger] is_dependency_chain(self@, start, chain) && chain.last()
                                        == current@;
                                assert(dependencies_of(self@, chain.last()).contains(next@));
                                lemma_chain_push(self@, start, chain, next@);
                            }
                            stack.push(next);
                            proof {
                                assert forall|k: int| 0 <= k < stack@.len() implies universe.contains(
                                    #[trigger] stack@[k]@,
                                ) && reaches(self@, start, stack@[k]@) by {
                                    if k < stack_before.len() {
                                        assert(stack@[k] == stack_before[k]);
                                    }
                                }
                            }
                            j = j + 1;
                        }
                        proof {
                            assert forall|y: Seq<char>| #[trigger] successor_texts.contains(y) implies names_of(
                                stack@,
                            ).contains(y) by {
                                let k = choose|k: int| 0 <= k < successor_texts.len() && successor_texts[k] == y;
                                assert(names_of(stack@)[pushed_from.len() + k] == y);
                            }
                            assert forall|y: Seq<char>| names_of(pushed_from).contains(y) implies names_of(
                                stack@,
                            ).contains(y) by {
                                let k = choose|k: int| 0 <= k < names_of(pushed_from).len() && names_of(pushed_from)[k] == y;
                                assert(names_of(stack@)[k] == y);
                            }
                        }
                    },
                }
            }
        }
        proof {
            if reaches(self@, start, root@) {
                let chain = choose|chain: Seq<Seq<char>>|
                    #[trigger] is_dependency_chain(self@, start, chain) && chain.last() == root@;
                assert forall|x: Seq<char>| start.contains(x) implies seen.contains(x) by {
                    assert(!names_of(stack@).contains(x));
                }
                assert forall|v: Seq<char>, y: Seq<char>|
                    seen.contains(v) && #[trigger] dependencies_of(self@, v).contains(y) implies seen.contains(y) by {
                    assert(!names_of(stack@).contains(y));
                }
                lemma_closed_set_holds_chain(self@, start, seen, chain, chain.len() - 1);
            }
        }
        Ok(())
    }
}

} // verus!
