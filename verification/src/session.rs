//! The session: client-local variables and the catalog version the client
//! last observed, with the commit path that keeps the two in step.

use vstd::prelude::*;

use crate::catalog::CatalogMutator;
use crate::catalog::CatalogState;
use crate::catalog::Mutation;
use crate::catalog::apply_all;
use crate::catalog::muts_view;
use crate::error::ExecError;

verus! {

/// One client-local variable.
#[derive(Debug)]
pub struct SessionVar {
    pub name: String,
    pub value: String,
}

/// Mathematical value of a client-local variable.
#[verifier::ext_equal]
pub struct SessionVarV {
    pub name: Seq<char>,
    pub value: Seq<char>,
}

impl View for SessionVar {
    type V = SessionVarV;

    open spec fn view(&self) -> SessionVarV {
        SessionVarV { name: self.name@, value: self.value@ }
    }
}

/// The view of a variable list.
pub open spec fn vars_view(v: Seq<SessionVar>) -> Seq<SessionVarV> {
    v.map_values(|e: SessionVar| e@)
}

/// The value of the first variable named `name`, if any.
pub open spec fn lookup_var(vars: Seq<SessionVarV>, name: Seq<char>) -> Option<Seq<char>>
    decreases vars.len(),
{
    if vars.len() == 0 {
        Option::None
    } else if vars[0].name == name {
        Option::Some(vars[0].value)
    } else {
        lookup_var(vars.drop_first(), name)
    }
}

/// `vars` without every variable named `name`.
pub open spec fn remove_var(vars: Seq<SessionVarV>, name: Seq<char>) -> Seq<SessionVarV>
    decreases vars.len(),
{
    if vars.len() == 0 {
        Seq::empty()
    } else {
        let rest = remove_var(vars.drop_first(), name);
        if vars[0].name == name {
            rest
        } else {
            seq![vars[0]] + rest
        }
    }
}

/// Looking up another name is unaffected by the removal.
proof fn lemma_lookup_remove(vars: Seq<SessionVarV>, name: Seq<char>, other: Seq<char>)
    requires
        other != name,
    ensures
        lookup_var(remove_var(vars, name), other) == lookup_var(vars, other),
    decreases vars.len(),
{
    if vars.len() > 0 {
        lemma_lookup_remove(vars.drop_first(), name, other);
        if vars[0].name != name {
            let rest = remove_var(vars.drop_first(), name);
            assert((seq![vars[0]] + rest)[0] == vars[0]);
            assert((seq![vars[0]] + rest).drop_first() =~= rest);
        }
    }
}

/// After the removal the name is gone.
proof fn lemma_lookup_removed(vars: Seq<SessionVarV>, name: Seq<char>)
    ensures
        lookup_var(remove_var(vars, name), name) is None,
    decreases vars.len(),
{
    if vars.len() > 0 {
        lemma_lookup_removed(vars.drop_first(), name);
        if vars[0].name != name {
            let rest = remove_var(vars.drop_first(), name);
            assert((seq![vars[0]] + rest)[0] == vars[0]);
            assert((seq![vars[0]] + rest).drop_first() =~= rest);
        }
    }
}

/// Appending a variable at the end is only seen where no earlier variable
/// shadows it.
proof fn lemma_lookup_push(vars: Seq<SessionVarV>, e: SessionVarV, name: Seq<char>)
    ensures
        lookup_var(vars, name) is Some ==> lookup_var(vars.push(e), name) == lookup_var(
            vars,
            name,
        ),
        lookup_var(vars, name) is None && e.name == name ==> lookup_var(vars.push(e), name)
            == Some(e.value),
        lookup_var(vars, name) is None && e.name != name ==> lookup_var(vars.push(e), name)
            is None,
    decreases vars.len(),
{
    if vars.len() == 0 {
        assert(vars.push(e)[0] == e);
        assert(vars.push(e).drop_first() =~= Seq::<SessionVarV>::empty());
    } else {
        assert(vars.push(e)[0] == vars[0]);
        assert(vars.push(e).drop_first() =~= vars.drop_first().push(e));
        lemma_lookup_push(vars.drop_first(), e, name);
    }
}

/// The variables from index `i` on, without those named `name`.
fn remove_var_from(v: &Vec<SessionVar>, i: usize, name: &String) -> (r: Vec<SessionVar>)
    requires
        i <= v.len(),
    ensures
        vars_view(r@) == remove_var(vars_view(v@).skip(i as int), name@),
    decreases v.len() - i,
{
    if i < v.len() {
        proof {
            assert(vars_view(v@).skip(i as int)[0] == vars_view(v@)[i as int]);
            assert(vars_view(v@).skip(i as int).drop_first() =~= vars_view(v@).skip(i as int + 1));
        }
        let mut rest = remove_var_from(v, i + 1, name);
        if v[i].name == *name {
            rest
        } else {
            let ghost pre = vars_view(rest@);
            rest.insert(
                0,
                SessionVar { name: v[i].name.clone(), value: v[i].value.clone() },
            );
            proof {
                assert(vars_view(rest@) =~= seq![v@[i as int]@] + pre);
            }
            rest
        }
    } else {
        let r: Vec<SessionVar> = Vec::new();
        proof {
            assert(vars_view(v@).skip(i as int) =~= Seq::<SessionVarV>::empty());
            assert(vars_view(r@) =~= Seq::<SessionVarV>::empty());
        }
        r
    }
}

/// One client connection's state: the catalog version it last observed
/// and its local variables.
#[derive(Debug)]
pub struct Session {
    pub version: u64,
    pub vars: Vec<SessionVar>,
}

impl Session {
    /// A fresh session that has observed catalog version `version`.
    pub fn new(version: u64) -> (r: Session)
        ensures
            r.version == version,
            r.vars@.len() == 0,
    {
        Session { version, vars: Vec::new() }
    }

    /// Sets a client-local variable: the new value is seen under the name,
    /// every other variable keeps its value, and the observed catalog
    /// version does not move.
    pub fn set_configuration(&mut self, name: String, value: String)
        ensures
            lookup_var(vars_view(final(self).vars@), name@) == Some(value@),
            forall|other: Seq<char>|
                other != name@ ==> #[trigger] lookup_var(vars_view(final(self).vars@), other)
                    == lookup_var(vars_view(old(self).vars@), other),
            final(self).version == old(self).version,
    {
        proof {
            assert(vars_view(self.vars@).skip(0) =~= vars_view(self.vars@));
        }
        let mut vars = remove_var_from(&self.vars, 0, &name);
        let ghost removed = vars_view(vars@);
        let ghost nv = name@;
        let ghost vv = value@;
        let entry = SessionVar { name, value };
        let ghost e = entry@;
        vars.push(entry);
        proof {
            assert(vars_view(vars@) =~= removed.push(e));
            lemma_lookup_removed(vars_view(old(self).vars@), nv);
            lemma_lookup_push(removed, e, nv);
            assert forall|other: Seq<char>| other != nv implies #[trigger] lookup_var(
                removed.push(e),
                other,
            ) == lookup_var(vars_view(old(self).vars@), other) by {
                lemma_lookup_remove(vars_view(old(self).vars@), nv, other);
                lemma_lookup_push(removed, e, other);
            }
        }
        self.vars = vars;
    }
}

/// Commits a mutation batch under the session's observed version and, on
/// success, advances the session to the new version.  The catalog behaves
/// exactly as the mutator promises; the session's variables never change.
pub fn commit_batch(
    session: &mut Session,
    catalog: &mut CatalogState,
    mutations: &Vec<Mutation>,
) -> (r: Result<u64, ExecError>)
    ensures
        final(session).vars == old(session).vars,
        old(session).version != old(catalog).version ==> (r matches Err(e) && e
            == (ExecError::Conflict {
            expected: old(session).version,
            current: old(catalog).version,
        })) && final(catalog).version == old(catalog).version && final(catalog).contents() == old(
            catalog,
        ).contents() && final(session).version == old(session).version,
        old(session).version == old(catalog).version && old(catalog).version < u64::MAX ==> (
        apply_all(old(catalog).contents(), muts_view(*mutations)) matches Some(c) ==> (r matches Ok(v)
            && v == old(catalog).version + 1) && final(catalog).version == old(catalog).version + 1
            && final(catalog).contents() == c && final(session).version == old(catalog).version
            + 1),
        old(session).version == old(catalog).version && old(catalog).version < u64::MAX
            && apply_all(old(catalog).contents(), muts_view(*mutations)) is None ==> (r matches Err(e)
            && e is Backend) && final(catalog).version == old(catalog).version
            && final(catalog).contents() == old(catalog).contents()
            && final(session).version == old(session).version,
        old(session).version == old(catalog).version && old(catalog).version == u64::MAX ==> (
        r matches Err(e) && e is Backend) && final(catalog).version == old(catalog).version
            && final(catalog).contents() == old(catalog).contents() && final(session).version
            == old(session).version,
{
    let expected = session.version;
    match CatalogMutator::mutate_and_commit(catalog, expected, mutations) {
        Ok(v) => {
            session.version = v;
            Ok(v)
        },
        Err(e) => Err(e),
    }
}

} // verus!
