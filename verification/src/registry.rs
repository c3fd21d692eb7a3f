//! The registry of loaded module contracts, keyed by module name.

use vstd::prelude::*;
use crate::contract::LexModule;
use crate::text::same_text;

verus! {

/// The names of a sequence of modules, in order.
pub open spec fn module_names(modules: Seq<LexModule>) -> Seq<Seq<char>> {
    modules.map_values(|m: LexModule| m.metadata.name@)
}

/// The map that registering `modules` one after another builds: each name
/// maps to the last module registered under it.
pub open spec fn registered(modules: Seq<LexModule>) -> Map<Seq<char>, LexModule>
    decreases modules.len(),
{
    if modules.len() == 0 {
        Map::empty()
    } else {
        registered(modules.drop_last()).insert(modules.last().metadata.name@, modules.last())
    }
}

/// The loaded modules. No two of them share a name.
pub struct Registry {
    modules: Vec<LexModule>,
}

impl Registry {
    #[verifier::type_invariant]
    spec fn names_unique(self) -> bool {
        module_names(self.modules@).no_duplicates()
    }

    /// The index of the module registered under `name`.
    closed spec fn index_of_name(self, name: Seq<char>) -> int {
        choose|i: int| 0 <= i < self.modules@.len() && self.modules@[i].metadata.name@ == name
    }
}

impl View for Registry {
    type V = Map<Seq<char>, LexModule>;

    closed spec fn view(&self) -> Map<Seq<char>, LexModule> {
        Map::new(
            |name: Seq<char>| exists|i: int| 0 <= i < self.modules@.len()
                && #[trigger] self.modules@[i].metadata.name@ == name,
            |name: Seq<char>| self.modules@[self.index_of_name(name)],
        )
    }
}

impl Registry {
    /// An empty registry.
    pub fn new() -> (registry: Registry)
        ensures
            registry@ == Map::<Seq<char>, LexModule>::empty(),
    {
        let registry = Registry { modules: Vec::new() };
        assert(registry@ =~= Map::<Seq<char>, LexModule>::empty());
        registry
    }

    fn position(&self, name: &str) -> (found: Option<usize>)
        ensures
            found is Some <==> self@.dom().contains(name@),
            found matches Some(i) ==> i < self.modules@.len()
                && self.modules@[i as int].metadata.name@ == name@
                && self@[name@] == self.modules@[i as int],
    {
        proof { use_type_invariant(self); }
        let n = self.modules.len();
        let mut i: usize = 0;
        while i < n
            invariant
                n == self.modules@.len(),
                i <= n,
                forall|j: int| 0 <= j < i ==> self.modules@[j].metadata.name@ != name@,
                module_names(self.modules@).no_duplicates(),
            decreases n - i,
        {
            if same_text(self.modules[i].metadata.name.as_str(), name) {
                proof {
                    let k = self.index_of_name(name@);
                    assert(self.modules@[i as int].metadata.name@ == name@);
                    assert(module_names(self.modules@)[i as int] == name@);
                    assert(0 <= k < self.modules@.len() && self.modules@[k].metadata.name@ == name@);
                    assert(module_names(self.modules@)[k] == name@);
                    assert(k == i);
                    assert(self@.dom().contains(name@));
                }
                return Some(i);
            }
            i = i + 1;
        }
        None
    }

    /// The module registered under `name`.
    pub fn get_module(&self, name: &str) -> (module: Option<&LexModule>)
        ensures
            module is Some <==> self@.dom().contains(name@),
            module matches Some(m) ==> self@[name@] == *m,
    {
        match self.position(name) {
            Some(i) => Some(&self.modules[i]),
            None => None,
        }
    }

    /// Registers `module` under its name, replacing any module registered
    /// under the same name.
    pub fn insert_module(&mut self, module: LexModule)
        ensures
            final(self)@ == old(self)@.insert(module.metadata.name@, module),
    {
        proof { use_type_invariant(&*self); }
        let found = self.position(module.metadata.name.as_str());
        let ghost old_view = self@;
        let ghost key = module.metadata.name@;
        let mut modules: Vec<LexModule> = Vec::new();
        std::mem::swap(&mut modules, &mut self.modules);
        let ghost before = modules@;
        match found {
            Some(i) => {
                modules.set(i, module);
                proof {
                    assert(module_names(before)[i as int] == key);
                    assert(module_names(modules@) =~= module_names(before));
                    assert(module_names(modules@).no_duplicates());
                }
            },
            None => {
                modules.push(module);
                proof {
                    assert(module_names(modules@) =~= module_names(before).push(key));
                    assert forall|a: int, b: int|
                        0 <= a < modules@.len() && 0 <= b < modules@.len() && a != b
                        implies module_names(modules@)[a] != module_names(modules@)[b] by {
                        if a < before.len() && b < before.len() {
                            assert(module_names(before)[a] != module_names(before)[b]);
                        } else if a == before.len() {
                            assert(before[b].metadata.name@ != key);
                        } else {
                            assert(before[a].metadata.name@ != key);
                        }
                    }
                }
            },
        }
        self.modules = modules;
        proof {
            let new_view = self@;
            assert forall|k: Seq<char>| #![auto] new_view.dom().contains(k) <==> old_view.insert(key, module).dom().contains(k) by {
                if k == key {
                    match found {
                        Some(i) => { assert(self.modules@[i as int].metadata.name@ == key); },
                        None => { assert(self.modules@[before.len() as int].metadata.name@ == key); },
                    }
                } else if new_view.dom().contains(k) {
                    let j = choose|j: int| 0 <= j < self.modules@.len() && #[trigger] self.modules@[j].metadata.name@ == k;
                    assert(before[j].metadata.name@ == k);
                } else if old_view.dom().contains(k) {
                    let j = choose|j: int| 0 <= j < before.len() && #[trigger] before[j].metadata.name@ == k;
                    assert(self.modules@[j].metadata.name@ == k);
                }
            }
            assert forall|k: Seq<char>| #![auto] new_view.dom().contains(k) implies new_view[k] == old_view.insert(key, module)[k] by {
                let j = self.index_of_name(k);
                assert(module_names(self.modules@)[j] == k);
                if k == key {
                    match found {
                        Some(i) => { assert(module_names(self.modules@)[i as int] == k); },
                        None => { assert(module_names(self.modules@)[before.len() as int] == k); },
                    }
                } else {
                    let j0 = choose|j0: int| 0 <= j0 < before.len() && before[j0].metadata.name@ == k;
                    assert(self.modules@[j0].metadata.name@ == k);
                    assert(module_names(self.modules@)[j0] == k);
                    assert(module_names(before)[j0] == k);
                    assert(module_names(before)[j] == k);
                }
            }
            assert(new_view =~= old_view.insert(key, module));
        }
    }

    /// Builds a registry by registering `modules` in order.
    pub fn from_modules(modules: Vec<LexModule>) -> (registry: Registry)
        ensures
            registry@ == registered(modules@),
    {
        let mut registry = Registry::new();
        let ghost all = modules@;
        assert(all.skip(0) =~= all);
        let mut rest = modules;
        let mut taken: usize = 0;
        let n = rest.len();
        while rest.len() > 0
            invariant
                n == all.len(),
                rest@.len() + taken == n,
                rest@ == all.skip(taken as int),
                registry@ == registered(all.take(taken as int)),
            decreases rest@.len(),
        {
            let m = rest.remove(0);
            proof {
                assert(m == all[taken as int]);
                assert(rest@ =~= all.skip(taken + 1));
                assert(all.take(taken + 1).drop_last() =~= all.take(taken as int));
                assert(all.take(taken + 1).last() == all[taken as int]);
            }
            registry.insert_module(m);
            taken = taken + 1;
        }
        assert(all.take(n as int) =~= all);
        registry
    }

    /// The number of registered modules.
    pub fn len(&self) -> (count: usize)
        ensures
            count == self@.len(),
    {
        proof {
            use_type_invariant(self);
            let names = module_names(self.modules@);
            names.unique_seq_to_set();
            assert forall|k: Seq<char>| #![auto] self@.dom().contains(k) <==> names.to_set().contains(k) by {
                if self@.dom().contains(k) {
                    let j = choose|j: int| 0 <= j < self.modules@.len() && #[trigger] self.modules@[j].metadata.name@ == k;
                    assert(names[j] == k);
                }
                if names.to_set().contains(k) {
                    let j = choose|j: int| 0 <= j < names.len() && names[j] == k;
                    assert(self.modules@[j].metadata.name@ == k);
                }
            }
            assert(self@.dom() =~= names.to_set());
        }
        self.modules.len()
    }
}


/// Loading contracts one after another keeps, for every name, the last
/// contract loaded under it; names never loaded are absent.
pub proof fn law_registered_keeps_last(modules: Seq<LexModule>, name: Seq<char>)
    ensures
        registered(modules).dom().contains(name)
            <==> exists|i: int| 0 <= i < modules.len() && #[trigger] modules[i].metadata.name@ == name,
        registered(modules).dom().contains(name) ==> exists|i: int| {
            &&& 0 <= i < modules.len()
            &&& #[trigger] modules[i].metadata.name@ == name
            &&& registered(modules)[name] == modules[i]
            &&& forall|j: int| i < j < modules.len() ==> #[trigger] modules[j].metadata.name@ != name
        },
    decreases modules.len(),
{
    if modules.len() > 0 {
        let rest = modules.drop_last();
        let last = modules.len() - 1;
        law_registered_keeps_last(rest, name);
        assert forall|j: int| 0 <= j < last implies #[trigger] rest[j] == modules[j] by {}
        if modules[last].metadata.name@ == name {
            assert(registered(modules)[name] == modules[last]);
            assert(registered(modules).dom().contains(name));
        } else {
            assert(registered(modules).dom().contains(name) == registered(rest).dom().contains(name));
            if registered(rest).dom().contains(name) {
                assert(registered(modules)[name] == registered(rest)[name]);
                let i = choose|i: int| {
                    &&& 0 <= i < rest.len()
                    &&& #[trigger] rest[i].metadata.name@ == name
                    &&& registered(rest)[name] == rest[i]
                    &&& forall|j: int| i < j < rest.len() ==> #[trigger] rest[j].metadata.name@ != name
                };
                assert(modules[i] == rest[i]);
                assert forall|j: int| i < j < modules.len() implies #[trigger] modules[j].metadata.name@ != name by {
                    if j < last {
                        assert(rest[j] == modules[j]);
                        assert(rest[j].metadata.name@ != name);
                    }
                }
            } else {
                assert forall|i: int| 0 <= i < modules.len() implies #[trigger] modules[i].metadata.name@ != name by {
                    if i < last {
                        assert(rest[i] == modules[i]);
                        assert(rest[i].metadata.name@ != name);
                    }
                }
            }
        }
    }
}

/// Registering then reading back: the module just registered is found under
/// its name, and every other name reads as before.
pub proof fn law_read_after_register(before: Map<Seq<char>, LexModule>, module: LexModule, name: Seq<char>)
    ensures
        ({
            let after = before.insert(module.metadata.name@, module);
            &&& after.dom().contains(module.metadata.name@)
            &&& after[module.metadata.name@] == module
            &&& name != module.metadata.name@ ==> (after.dom().contains(name) == before.dom().contains(name)
                && (before.dom().contains(name) ==> after[name] == before[name]))
        }),
{
}

} // verus!
