use vstd::prelude::*;
use vstd::string::*;

use crate::runtime::values::{BooleanValue, NullValue, RuntimeValue, ValueModel};
use crate::text::str_eq;

verus! {

broadcast use vstd::string::group_string_axioms;

/// One scope of the chain, viewed mathematically: the bindings and the
/// names marked constant.
pub struct ScopeModel {
    pub vars: Map<Seq<char>, ValueModel>,
    pub consts: Set<Seq<char>>,
}

/// A scope with no bindings at all.
pub open spec fn model_empty_scope() -> ScopeModel {
    ScopeModel { vars: Map::empty(), consts: Set::empty() }
}

/// Depth of the innermost scope that binds `name`, searching outward.
pub open spec fn model_resolve(scopes: Seq<ScopeModel>, name: Seq<char>) -> Option<int>
    decreases scopes,
{
    if scopes.len() == 0 {
        None
    } else if scopes[0].vars.contains_key(name) {
        Some(0)
    } else {
        match model_resolve(scopes.subrange(1, scopes.len() as int), name) {
            Some(d) => Some(d + 1),
            None => None,
        }
    }
}

/// The value bound to `name` in the innermost scope that has it.
pub open spec fn model_lookup(scopes: Seq<ScopeModel>, name: Seq<char>) -> Option<ValueModel>
    decreases scopes,
{
    if scopes.len() == 0 {
        None
    } else if scopes[0].vars.contains_key(name) {
        Some(scopes[0].vars[name])
    } else {
        model_lookup(scopes.subrange(1, scopes.len() as int), name)
    }
}

/// Whether the scope that resolves `name` marks it constant.
pub open spec fn model_is_constant(scopes: Seq<ScopeModel>, name: Seq<char>) -> bool
    decreases scopes,
{
    if scopes.len() == 0 {
        false
    } else if scopes[0].vars.contains_key(name) {
        scopes[0].consts.contains(name)
    } else {
        model_is_constant(scopes.subrange(1, scopes.len() as int), name)
    }
}

/// A new binding in the innermost scope.
pub open spec fn model_declare(
    scopes: Seq<ScopeModel>,
    name: Seq<char>,
    value: ValueModel,
    constant: bool,
) -> Seq<ScopeModel> {
    scopes.update(
        0,
        ScopeModel {
            vars: scopes[0].vars.insert(name, value),
            consts: if constant {
                scopes[0].consts.insert(name)
            } else {
                scopes[0].consts
            },
        },
    )
}

/// Overwrite of an existing binding, in the scope that resolves `name`.
pub open spec fn model_assign(
    scopes: Seq<ScopeModel>,
    name: Seq<char>,
    value: ValueModel,
) -> Seq<ScopeModel>
    decreases scopes,
{
    if scopes.len() == 0 {
        scopes
    } else if scopes[0].vars.contains_key(name) {
        scopes.update(
            0,
            ScopeModel { vars: scopes[0].vars.insert(name, value), consts: scopes[0].consts },
        )
    } else {
        seq![scopes[0]] + model_assign(scopes.subrange(1, scopes.len() as int), name, value)
    }
}

/// A resolved depth always points inside the chain, at a scope that has
/// the name.
pub proof fn lemma_model_resolve_bound(scopes: Seq<ScopeModel>, name: Seq<char>)
    ensures
        match model_resolve(scopes, name) {
            Some(d) => 0 <= d < scopes.len() && scopes[d].vars.contains_key(name),
            None => true,
        },
    decreases scopes,
{
    if scopes.len() > 0 && !scopes[0].vars.contains_key(name) {
        lemma_model_resolve_bound(scopes.subrange(1, scopes.len() as int), name);
    }
}

/// Resolution and lookup agree: both succeed on the same names, and the
/// value looked up is the one in the resolved scope.
pub proof fn lemma_model_resolve_lookup(scopes: Seq<ScopeModel>, name: Seq<char>)
    ensures
        model_resolve(scopes, name) is Some <==> model_lookup(scopes, name) is Some,
        match model_resolve(scopes, name) {
            Some(d) => 0 <= d < scopes.len() && model_lookup(scopes, name) == Some(
                scopes[d].vars[name],
            ),
            None => true,
        },
    decreases scopes,
{
    if scopes.len() > 0 && !scopes[0].vars.contains_key(name) {
        lemma_model_resolve_lookup(scopes.subrange(1, scopes.len() as int), name);
    }
}

/// First-match search of an association list, by the keys' characters.
pub open spec fn assoc_find(entries: Seq<(String, RuntimeValue)>, name: Seq<char>) -> Option<
    ValueModel,
>
    decreases entries,
{
    if entries.len() == 0 {
        None
    } else if entries[0].0@ == name {
        Some(entries[0].1@)
    } else {
        assoc_find(entries.subrange(1, entries.len() as int), name)
    }
}

/// The association list as a map from names to values.
pub open spec fn entries_map(entries: Seq<(String, RuntimeValue)>) -> Map<Seq<char>, ValueModel> {
    Map::new(
        |n: Seq<char>| assoc_find(entries, n) is Some,
        |n: Seq<char>| assoc_find(entries, n).unwrap(),
    )
}

/// The set of names in a constants list.
pub open spec fn consts_set(cs: Seq<String>) -> Set<Seq<char>> {
    Set::new(|n: Seq<char>| exists|i: int| 0 <= i < cs.len() && cs[i]@ == n)
}

proof fn lemma_assoc_find_at(entries: Seq<(String, RuntimeValue)>, name: Seq<char>, i: int)
    requires
        0 <= i < entries.len(),
        entries[i].0@ == name,
        forall|j: int| 0 <= j < i ==> entries[j].0@ != name,
    ensures
        assoc_find(entries, name) == Some(entries[i].1@),
    decreases i,
{
    if i > 0 {
        let rest = entries.subrange(1, entries.len() as int);
        assert(rest[i - 1] == entries[i]);
        assert forall|j: int| 0 <= j < i - 1 implies rest[j].0@ != name by {
            assert(rest[j] == entries[j + 1]);
        }
        lemma_assoc_find_at(rest, name, i - 1);
    }
}

proof fn lemma_assoc_find_none(entries: Seq<(String, RuntimeValue)>, name: Seq<char>)
    requires
        forall|j: int| 0 <= j < entries.len() ==> entries[j].0@ != name,
    ensures
        assoc_find(entries, name) is None,
    decreases entries.len(),
{
    if entries.len() > 0 {
        let rest = entries.subrange(1, entries.len() as int);
        assert forall|j: int| 0 <= j < rest.len() implies rest[j].0@ != name by {
            assert(rest[j] == entries[j + 1]);
        }
        lemma_assoc_find_none(rest, name);
    }
}

proof fn lemma_assoc_find_push(
    entries: Seq<(String, RuntimeValue)>,
    entry: (String, RuntimeValue),
    n: Seq<char>,
)
    ensures
        assoc_find(entries, n) is Some ==> assoc_find(entries.push(entry), n) == assoc_find(
            entries,
            n,
        ),
        assoc_find(entries, n) is None && entry.0@ == n ==> assoc_find(entries.push(entry), n)
            == Some(entry.1@),
        assoc_find(entries, n) is None && entry.0@ != n ==> assoc_find(entries.push(entry), n)
            is None,
    decreases entries.len(),
{
    let pushed = entries.push(entry);
    if entries.len() == 0 {
        assert(pushed[0] == entry);
        assert(pushed.subrange(1, pushed.len() as int) =~= Seq::<(String, RuntimeValue)>::empty());
    } else {
        assert(pushed[0] == entries[0]);
        assert(pushed.subrange(1, pushed.len() as int) =~= entries.subrange(
            1,
            entries.len() as int,
        ).push(entry));
        lemma_assoc_find_push(entries.subrange(1, entries.len() as int), entry, n);
    }
}

proof fn lemma_assoc_find_update(
    entries: Seq<(String, RuntimeValue)>,
    i: int,
    entry: (String, RuntimeValue),
    n: Seq<char>,
)
    requires
        0 <= i < entries.len(),
        entries[i].0@ == entry.0@,
        forall|j: int| 0 <= j < i ==> entries[j].0@ != entry.0@,
    ensures
        n == entry.0@ ==> assoc_find(entries.update(i, entry), n) == Some(entry.1@),
        n != entry.0@ ==> assoc_find(entries.update(i, entry), n) == assoc_find(entries, n),
    decreases i,
{
    let updated = entries.update(i, entry);
    if i == 0 {
        assert(updated[0] == entry);
        assert(updated.subrange(1, updated.len() as int) =~= entries.subrange(
            1,
            entries.len() as int,
        ));
    } else {
        assert(updated[0] == entries[0]);
        let rest = entries.subrange(1, entries.len() as int);
        assert(updated.subrange(1, updated.len() as int) =~= rest.update(i - 1, entry));
        assert(rest[i - 1] == entries[i]);
        assert forall|j: int| 0 <= j < i - 1 implies rest[j].0@ != entry.0@ by {
            assert(rest[j] == entries[j + 1]);
        }
        lemma_assoc_find_update(rest, i - 1, entry, n);
    }
}

proof fn lemma_entries_push_map(entries: Seq<(String, RuntimeValue)>, entry: (String, RuntimeValue))
    requires
        assoc_find(entries, entry.0@) is None,
    ensures
        entries_map(entries.push(entry)) =~= entries_map(entries).insert(entry.0@, entry.1@),
{
    let m1 = entries_map(entries.push(entry));
    let m2 = entries_map(entries).insert(entry.0@, entry.1@);
    assert forall|n: Seq<char>| #[trigger] m1.contains_key(n) <==> m2.contains_key(n) by {
        lemma_assoc_find_push(entries, entry, n);
    }
    assert forall|n: Seq<char>| m1.contains_key(n) && m2.contains_key(n) implies #[trigger] m1[n]
        == #[trigger] m2[n] by {
        lemma_assoc_find_push(entries, entry, n);
    }
}

proof fn lemma_entries_update_map(
    entries: Seq<(String, RuntimeValue)>,
    i: int,
    entry: (String, RuntimeValue),
)
    requires
        0 <= i < entries.len(),
        entries[i].0@ == entry.0@,
        forall|j: int| 0 <= j < i ==> entries[j].0@ != entry.0@,
    ensures
        entries_map(entries.update(i, entry)) =~= entries_map(entries).insert(entry.0@, entry.1@),
{
    let m1 = entries_map(entries.update(i, entry));
    let m2 = entries_map(entries).insert(entry.0@, entry.1@);
    assert(entries[i].0@ == entry.0@);
    lemma_assoc_find_at(entries, entry.0@, i);
    assert forall|n: Seq<char>| #[trigger] m1.contains_key(n) <==> m2.contains_key(n) by {
        lemma_assoc_find_update(entries, i, entry, n);
    }
    assert forall|n: Seq<char>| m1.contains_key(n) && m2.contains_key(n) implies #[trigger] m1[n]
        == #[trigger] m2[n] by {
        lemma_assoc_find_update(entries, i, entry, n);
    }
}

proof fn lemma_consts_push_set(cs: Seq<String>, name: String)
    ensures
        consts_set(cs.push(name)) =~= consts_set(cs).insert(name@),
{
    let pushed = cs.push(name);
    assert forall|n: Seq<char>| #[trigger] consts_set(pushed).contains(n) <==> consts_set(
        cs,
    ).insert(name@).contains(n) by {
        if consts_set(pushed).contains(n) {
            let i = choose|i: int| 0 <= i < pushed.len() && pushed[i]@ == n;
            if i < cs.len() {
                assert(cs[i]@ == n);
            } else {
                assert(pushed[i] == name);
            }
        }
        if consts_set(cs).contains(n) {
            let i = choose|i: int| 0 <= i < cs.len() && cs[i]@ == n;
            assert(pushed[i]@ == n);
        }
        if n == name@ {
            assert(pushed[cs.len() as int]@ == n);
        }
    }
}

/// A chain of variable scopes: each scope owns at most one parent, holds
/// a mapping from names to values and the set of names declared constant.
pub struct Environment {
    parent: Option<Box<Environment>>,
    variables: Vec<(String, RuntimeValue)>,
    constants: Vec<String>,
}

impl View for Environment {
    type V = Seq<ScopeModel>;

    closed spec fn view(&self) -> Seq<ScopeModel> {
        self.scopes()
    }
}

impl Environment {
    /// The scope itself, without its ancestors.
    pub closed spec fn local_scope(self) -> ScopeModel {
        ScopeModel { vars: entries_map(self.variables@), consts: consts_set(self.constants@) }
    }

    /// The whole chain, innermost scope first.
    pub closed spec fn scopes(self) -> Seq<ScopeModel>
        decreases self,
    {
        match self.parent {
            Some(p) => seq![self.local_scope()] + p.scopes(),
            None => seq![self.local_scope()],
        }
    }

    /// Names are unique within each scope of the chain.
    pub closed spec fn wf(self) -> bool
        decreases self,
    {
        (forall|i: int, j: int|
            0 <= i < j < self.variables@.len() ==> self.variables@[i].0@ != self.variables@[j].0@)
            && match self.parent {
            Some(p) => p.wf(),
            None => true,
        }
    }

    /// The chain never has fewer than one scope.
    pub proof fn lemma_scopes_len(self)
        ensures
            self@.len() >= 1,
            self@[0] == self.local_scope(),
    {
    }

    /// Index of the binding for `name` in this scope alone, if any.
    fn local_index(&self, name: &str) -> (r: Option<usize>)
        ensures
            match r {
                Some(i) => i < self.variables@.len() && self.variables@[i as int].0@ == name@
                    && forall|j: int| 0 <= j < i ==> self.variables@[j].0@ != name@,
                None => forall|j: int|
                    0 <= j < self.variables@.len() ==> self.variables@[j].0@ != name@,
            },
    {
        let n = self.variables.len();
        let mut i: usize = 0;
        while i < n
            invariant
                n == self.variables@.len(),
                i <= n,
                forall|j: int| 0 <= j < i ==> self.variables@[j].0@ != name@,
            decreases n - i,
        {
            if str_eq(self.variables[i].0.as_str(), name) {
                return Some(i);
            }
            i += 1;
        }
        None
    }

    /// Whether this scope alone marks `name` constant.
    fn local_is_constant(&self, name: &str) -> (r: bool)
        ensures
            r == self.local_scope().consts.contains(name@),
    {
        let n = self.constants.len();
        let mut i: usize = 0;
        while i < n
            invariant
                n == self.constants@.len(),
                i <= n,
                forall|j: int| 0 <= j < i ==> self.constants@[j]@ != name@,
            decreases n - i,
        {
            if str_eq(self.constants[i].as_str(), name) {
                return true;
            }
            i += 1;
        }
        false
    }

    pub fn create(parent: Option<Box<Environment>>) -> (r: Self)
        requires
            match parent {
                Some(p) => p.wf(),
                None => true,
            },
        ensures
            r.wf(),
            r@ == (match parent {
                Some(p) => seq![model_empty_scope()] + p@,
                None => seq![model_empty_scope()],
            }),
    {
        let r = Environment { parent, variables: Vec::new(), constants: Vec::new() };
        proof {
            assert forall|n: Seq<char>| !(#[trigger] assoc_find(r.variables@, n) is Some) by {
                lemma_assoc_find_none(r.variables@, n);
            }
            assert(r.local_scope().vars =~= model_empty_scope().vars);
            assert(r.local_scope().consts =~= model_empty_scope().consts);
            assert(r.local_scope() == model_empty_scope());
        }
        r
    }

    /// A new binding in this scope; fails if this scope already has one
    /// under the same name (shadowing an ancestor's binding is allowed).
    pub fn declare_variable(&mut self, name: String, value: RuntimeValue, constant: bool) -> (r:
        Result<(), String>)
        requires
            old(self).wf(),
        ensures
            final(self).wf(),
            if old(self)@[0].vars.contains_key(name@) {
                r is Err && *final(self) == *old(self)
            } else {
                r is Ok && final(self)@ == model_declare(old(self)@, name@, value@, constant)
            },
    {
        match self.local_index(name.as_str()) {
            Some(i) => {
                proof {
                    lemma_assoc_find_at(self.variables@, name@, i as int);
                }
                Err(String::from_str("cannot declare the variable as it has already been defined"))
            },
            None => {
                proof {
                    self.lemma_scopes_len();
                    lemma_assoc_find_none(self.variables@, name@);
                }
                let ghost old_env = *self;
                let name_for_consts = name.clone();
                let ghost pushed_entry = (name, value);
                self.variables.push((name, value));
                if constant {
                    self.constants.push(name_for_consts);
                }
                proof {
                    lemma_entries_push_map(old_env.variables@, pushed_entry);
                    if constant {
                        lemma_consts_push_set(old_env.constants@, pushed_entry.0);
                    }
                    assert(self.local_scope().vars == old_env.local_scope().vars.insert(
                        name@,
                        value@,
                    ));
                    assert(self@ =~= model_declare(old_env@, name@, value@, constant));
                }
                Ok(())
            },
        }
    }

    /// Overwrite of the binding that resolves `name`; fails when the name
    /// is unresolved or was declared constant.
    pub fn assign_variable(&mut self, name: String, value: RuntimeValue) -> (r: Result<(), String>)
        requires
            old(self).wf(),
        ensures
            final(self).wf(),
            match r {
                Ok(_) => model_resolve(old(self)@, name@) is Some && !model_is_constant(
                    old(self)@,
                    name@,
                ) && final(self)@ == model_assign(old(self)@, name@, value@),
                Err(_) => (model_resolve(old(self)@, name@) is None || model_is_constant(
                    old(self)@,
                    name@,
                )) && *final(self) == *old(self),
            },
        decreases *old(self),
    {
        match self.local_index(name.as_str()) {
            Some(i) => {
                proof {
                    self.lemma_scopes_len();
                    lemma_assoc_find_at(self.variables@, name@, i as int);
                }
                if self.local_is_constant(name.as_str()) {
                    Err(
                        String::from_str(
                            "cannot reassign the variable as it has been declared constant",
                        ),
                    )
                } else {
                    let ghost old_env = *self;
                    let key = self.variables[i].0.clone();
                    let new_entry = (key, value);
                    let ghost entry_snapshot = new_entry;
                    self.variables[i] = new_entry;
                    proof {
                        assert(self.variables@ == old_env.variables@.update(
                            i as int,
                            entry_snapshot,
                        ));
                        lemma_entries_update_map(old_env.variables@, i as int, entry_snapshot);
                        assert(self@ =~= model_assign(old_env@, name@, value@));
                    }
                    Ok(())
                }
            },
            None => {
                proof {
                    self.lemma_scopes_len();
                    lemma_assoc_find_none(self.variables@, name@);
                }
                match &mut self.parent {
                    Some(p) => {
                        let ghost old_env = *old(self);
                        let ghost parent_before = **p;
                        let r = p.assign_variable(name, value);
                        proof {
                            assert(old_env@.subrange(1, old_env@.len() as int) =~= parent_before@);
                            if r is Ok {
                                assert(self@ =~= model_assign(old_env@, name@, value@));
                            }
                        }
                        r
                    },
                    None => {
                        proof {
                            reveal_with_fuel(model_resolve, 2);
                            assert(self@.subrange(1, self@.len() as int)
                                =~= Seq::<ScopeModel>::empty());
                            assert(model_resolve(self@, name@) is None);
                        }
                        Err(String::from_str("cannot resolve the variable as it does not exist"))
                    },
                }
            },
        }
    }

    /// A copy of the value bound to `name`, or nothing when unresolved.
    pub fn lookup_variable(&mut self, name: String) -> (r: Option<RuntimeValue>)
        ensures
            *final(self) == *old(self),
            r is Some <==> model_lookup(old(self)@, name@) is Some,
            r matches Some(v) ==> model_lookup(old(self)@, name@) is Some && model_lookup(
                old(self)@,
                name@,
            ).unwrap() == v@,
    {
        self.lookup_ref(name.as_str())
    }

    fn lookup_ref(&self, name: &str) -> (r: Option<RuntimeValue>)
        ensures
            r is Some <==> model_lookup(self@, name@) is Some,
            r matches Some(v) ==> model_lookup(self@, name@) is Some && model_lookup(
                self@,
                name@,
            ).unwrap() == v@,
        decreases *self,
    {
        match self.local_index(name) {
            Some(i) => {
                proof {
                    self.lemma_scopes_len();
                    lemma_assoc_find_at(self.variables@, name@, i as int);
                    assert(self@[0].vars.contains_key(name@));
                    assert(self@[0].vars[name@] == self.variables@[i as int].1@);
                    assert(model_lookup(self@, name@) == Some(self.variables@[i as int].1@));
                }
                Some(self.variables[i].1.clone())
            },
            None => {
                proof {
                    self.lemma_scopes_len();
                    lemma_assoc_find_none(self.variables@, name@);
                }
                match &self.parent {
                    Some(p) => {
                        proof {
                            assert(self@.subrange(1, self@.len() as int) =~= p@);
                        }
                        let r = p.lookup_ref(name);
                        proof {
                            assert(self@.len() > 0);
                            assert(!self@[0].vars.contains_key(name@));
                            assert(model_lookup(self@, name@) == model_lookup(p@, name@));
                            if r is None {
                                assert(model_lookup(self@, name@) is None);
                            }
                        }
                        r
                    },
                    None => {
                        proof {
                            reveal_with_fuel(model_lookup, 2);
                            assert(self@.subrange(1, self@.len() as int)
                                =~= Seq::<ScopeModel>::empty());
                            assert(model_lookup(self@, name@) is None);
                        }
                        None
                    },
                }
            },
        }
    }

    /// The scope that binds `name`, searching innermost-first.
    pub fn resolve_variable(&self, variable_name: String) -> (r: Result<&Environment, String>)
        ensures
            match r {
                Ok(e) => {
                    &&& model_resolve(self@, variable_name@) matches Some(d)
                    &&& e@ == self@.subrange(d, self@.len() as int)
                },
                Err(_) => model_resolve(self@, variable_name@) is None,
            },
        decreases *self,
    {
        match self.local_index(variable_name.as_str()) {
            Some(i) => {
                proof {
                    self.lemma_scopes_len();
                    lemma_assoc_find_at(self.variables@, variable_name@, i as int);
                    assert(self@.subrange(0, self@.len() as int) =~= self@);
                }
                Ok(self)
            },
            None => {
                proof {
                    self.lemma_scopes_len();
                    lemma_assoc_find_none(self.variables@, variable_name@);
                }
                match &self.parent {
                    Some(p) => {
                        proof {
                            assert(self@.subrange(1, self@.len() as int) =~= p@);
                        }
                        let r = p.resolve_variable(variable_name);
                        proof {
                            lemma_model_resolve_bound(p@, variable_name@);
                            if r matches Ok(e) {
                                let d = model_resolve(p@, variable_name@).unwrap();
                                assert(p@.subrange(d, p@.len() as int) =~= self@.subrange(
                                    d + 1,
                                    self@.len() as int,
                                ));
                            }
                        }
                        r
                    },
                    None => {
                        proof {
                            reveal_with_fuel(model_resolve, 2);
                            assert(self@.subrange(1, self@.len() as int)
                                =~= Seq::<ScopeModel>::empty());
                            assert(model_resolve(self@, variable_name@) is None);
                        }
                        Err(String::from_str("cannot resolve the variable as it does not exist"))
                    },
                }
            },
        }
    }

    /// Pre-populates a root scope with the constant bindings `true`,
    /// `false` and `null`; refused on a scope that has a parent.
    pub fn init_global_scope(&mut self) -> (r: Result<(), String>)
        requires
            old(self).wf(),
        ensures
            final(self).wf(),
            ({
                let s0 = old(self)@;
                let s1 = model_declare(s0, "true"@, ValueModel::Bool { value: true }, true);
                let s2 = model_declare(s1, "false"@, ValueModel::Bool { value: false }, true);
                let s3 = model_declare(s2, "null"@, ValueModel::Null, true);
                if s0.len() != 1 {
                    r is Err && *final(self) == *old(self)
                } else if s0[0].vars.contains_key("true"@) {
                    r is Err && *final(self) == *old(self)
                } else if s0[0].vars.contains_key("false"@) {
                    r is Err && final(self)@ == s1
                } else if s0[0].vars.contains_key("null"@) {
                    r is Err && final(self)@ == s2
                } else {
                    r is Ok && final(self)@ == s3
                }
            }),
    {
        proof {
            reveal_strlit("true");
            reveal_strlit("false");
            reveal_strlit("null");
            assert("true"@.len() == 4);
            assert("false"@.len() == 5);
            assert("null"@.len() == 4);
            assert("true"@[0] == 't' && "null"@[0] == 'n');
            assert("true"@ != "false"@);
            assert("true"@ != "null"@);
            assert("false"@ != "null"@);
        }
        match &self.parent {
            Some(p) => {
                proof {
                    p.lemma_scopes_len();
                    assert(self@.len() >= 2);
                }
                return Err(String::from_str("cannot create global variables in a child scope"));
            },
            None => {
                proof {
                    assert(self@.len() == 1);
                }
            },
        }
        match self.declare_variable(
            String::from_str("true"),
            BooleanValue::create(true).as_raw(),
            true,
        ) {
            Ok(_) => {},
            Err(m) => {
                return Err(m);
            },
        }
        match self.declare_variable(
            String::from_str("false"),
            BooleanValue::create(false).as_raw(),
            true,
        ) {
            Ok(_) => {},
            Err(m) => {
                return Err(m);
            },
        }
        match self.declare_variable(
            String::from_str("null"),
            NullValue::create().as_raw(),
            true,
        ) {
            Ok(_) => {},
            Err(m) => {
                return Err(m);
            },
        }
        Ok(())
    }
}

} // verus!
