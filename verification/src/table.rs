//! The function table: a flat mapping from function name to declared
//! signature, populated in a pre-pass over the whole program so that calls
//! resolve independently of textual order. A name is unique in the table:
//! the first registration of a name wins, and a later one is refused (the
//! analyzer reports it as a duplicate definition, not as a fatal failure).

use crate::ast::{FunctionDecl, Ty};
use vstd::prelude::*;

verus! {

/// The declared interface of one function: its name, its parameter types in
/// order, and its return type.
pub struct FunctionSignature {
    pub name: String,
    pub params: Vec<Ty>,
    pub return_type: Ty,
}

/// The mathematical content of a signature.
pub struct SigInfo {
    pub name: Seq<char>,
    pub params: Seq<Ty>,
    pub ret: Ty,
}

impl FunctionSignature {
    /// The mathematical content of this signature.
    pub open spec fn info(self) -> SigInfo {
        SigInfo { name: self.name@, params: self.params@, ret: self.return_type }
    }
}

/// The signature a function declaration states.
pub open spec fn sig_of_decl(d: FunctionDecl) -> SigInfo {
    SigInfo {
        name: d.name@,
        params: Seq::new(d.params@.len(), |i: int| d.params@[i].ty),
        ret: d.return_type,
    }
}

/// Scans the table entries from index `i` on and yields the first signature
/// with the given name.
pub open spec fn resolve_from_spec(t: Seq<SigInfo>, name: Seq<char>, i: int) -> Option<SigInfo>
    decreases t.len() - i,
{
    if i < 0 || i >= t.len() {
        None
    } else if t[i].name == name {
        Some(t[i])
    } else {
        resolve_from_spec(t, name, i + 1)
    }
}

/// The signature a name resolves to: the earliest registered one.
pub open spec fn resolve_spec(t: Seq<SigInfo>, name: Seq<char>) -> Option<SigInfo> {
    resolve_from_spec(t, name, 0)
}

/// What registering a signature does to the table: nothing if the name is
/// already taken, an append otherwise.
pub open spec fn register_spec(t: Seq<SigInfo>, s: SigInfo) -> Seq<SigInfo> {
    if resolve_spec(t, s.name) is Some {
        t
    } else {
        t.push(s)
    }
}

/// The function table.
pub struct FunctionTable {
    pub sigs: Vec<FunctionSignature>,
}

impl FunctionTable {
    /// The registered signatures, in registration order.
    pub open spec fn model(self) -> Seq<SigInfo> {
        Seq::new(self.sigs@.len(), |i: int| self.sigs@[i].info())
    }

    /// An empty table.
    pub fn new() -> (t: FunctionTable)
        ensures
            t.model() == Seq::<SigInfo>::empty(),
    {
        let t = FunctionTable { sigs: Vec::new() };
        proof {
            assert(t.model() =~= Seq::<SigInfo>::empty());
        }
        t
    }

    /// Registers a signature. Fails, leaving the table unchanged, exactly
    /// when a function with that name is already registered: the first
    /// registration stays authoritative.
    pub fn register(&mut self, sig: FunctionSignature) -> (fresh: bool)
        ensures
            fresh == (resolve_spec(old(self).model(), sig.name@) is None),
            final(self).model() == register_spec(old(self).model(), sig.info()),
    {
        let fresh = self.resolve(&sig.name).is_none();
        if fresh {
            self.sigs.push(sig);
            proof {
                assert(self.model() =~= old(self).model().push(sig.info()));
            }
            true
        } else {
            false
        }
    }

    /// Pure lookup of a name, used at call sites: yields the earliest
    /// registered signature with that name, if any.
    pub fn resolve(&self, name: &String) -> (r: Option<&FunctionSignature>)
        ensures
            match r {
                Some(s) => resolve_spec(self.model(), name@) == Some(s.info()),
                None => resolve_spec(self.model(), name@) is None,
            },
    {
        self.resolve_from(name, 0)
    }

    /// Scans the entries from index `i` on.
    fn resolve_from(&self, name: &String, i: usize) -> (r: Option<&FunctionSignature>)
        ensures
            match r {
                Some(s) => resolve_from_spec(self.model(), name@, i as int) == Some(s.info()),
                None => resolve_from_spec(self.model(), name@, i as int) is None,
            },
        decreases self.sigs@.len() - i,
    {
        if i >= self.sigs.len() {
            None
        } else {
            let s = &self.sigs[i];
            if s.name.eq(name) {
                Some(s)
            } else {
                self.resolve_from(name, i + 1)
            }
        }
    }
}

/// Appending an entry does not disturb how earlier entries resolve: a name
/// that resolved keeps resolving to the same signature, and one that did not
/// resolves to the appended entry exactly when that entry carries it.
pub proof fn lemma_resolve_push(t: Seq<SigInfo>, s: SigInfo, name: Seq<char>, i: int)
    requires
        0 <= i <= t.len(),
    ensures
        resolve_from_spec(t.push(s), name, i) == (match resolve_from_spec(t, name, i) {
            Some(r) => Some(r),
            None => if s.name == name {
                Some(s)
            } else {
                None
            },
        }),
    decreases t.len() - i,
{
    assert(t.push(s).len() == t.len() + 1);
    if i < t.len() {
        assert(t.push(s)[i] == t[i]);
        lemma_resolve_push(t, s, name, i + 1);
    } else {
        assert(t.push(s)[t.len() as int] == s);
    }
}

/// Duplicate function names: registering a second signature with a name
/// already taken is refused, leaves the table unchanged, and the name keeps
/// resolving to the first signature for every call site.
pub proof fn lemma_duplicate_first_wins(t: Seq<SigInfo>, s1: SigInfo, s2: SigInfo)
    requires
        resolve_spec(t, s1.name) is None,
        s2.name == s1.name,
    ensures
        resolve_spec(register_spec(t, s1), s1.name) == Some(s1),
        register_spec(register_spec(t, s1), s2) == register_spec(t, s1),
{
    lemma_resolve_push(t, s1, s1.name, 0);
}

} // verus!
