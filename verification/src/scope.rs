//! The scope manager: a strict stack of lexical scopes, each an ordered
//! frame of bindings. Entering a function body or a brace-delimited block
//! pushes a frame; leaving it pops the frame and discards its bindings.
//! Declaring never fails: a name already bound, in the same frame or an
//! enclosing one, is legally shadowed, and lookup always resolves to the most
//! recently declared live binding.

use crate::ast::Ty;
use vstd::prelude::*;

verus! {

/// A named, typed, scope-local slot with a mutability flag.
pub struct Binding {
    pub name: String,
    pub ty: Ty,
    pub mutable: bool,
}

/// The stack of lexical scopes. Its mathematical model is a sequence of
/// frames, each a sequence of bindings in declaration order; the last frame
/// is the innermost scope.
pub struct ScopeManager {
    pub frames: Vec<Vec<Binding>>,
}

/// Looks a name up inside one frame, most recent declaration first, and
/// yields the type and mutability of the binding found.
pub open spec fn frame_lookup_spec(f: Seq<Binding>, name: Seq<char>, j: int) -> Option<(Ty, bool)>
    decreases j,
{
    if j <= 0 || j > f.len() {
        None
    } else if f[j - 1].name@ == name {
        Some((f[j - 1].ty, f[j - 1].mutable))
    } else {
        frame_lookup_spec(f, name, j - 1)
    }
}

/// Looks a name up in the frames `sc[0, k)`, innermost frame first.
pub open spec fn lookup_from_spec(
    sc: Seq<Seq<Binding>>,
    name: Seq<char>,
    k: int,
) -> Option<(Ty, bool)>
    decreases k,
{
    if k <= 0 || k > sc.len() {
        None
    } else {
        match frame_lookup_spec(sc[k - 1], name, sc[k - 1].len() as int) {
            Some(p) => Some(p),
            None => lookup_from_spec(sc, name, k - 1),
        }
    }
}

/// Looks a name up in a whole scope stack: the innermost live binding with
/// that name wins.
pub open spec fn lookup_spec(sc: Seq<Seq<Binding>>, name: Seq<char>) -> Option<(Ty, bool)> {
    lookup_from_spec(sc, name, sc.len() as int)
}

/// Appends a binding to the innermost frame of a non-empty stack.
pub open spec fn declare_spec(sc: Seq<Seq<Binding>>, b: Binding) -> Seq<Seq<Binding>> {
    if sc.len() == 0 {
        sc
    } else {
        sc.update(sc.len() - 1, sc[sc.len() - 1].push(b))
    }
}

impl ScopeManager {
    /// The stack of frames, innermost last.
    pub open spec fn model(self) -> Seq<Seq<Binding>> {
        Seq::new(self.frames@.len(), |i: int| self.frames@[i]@)
    }

    /// An empty scope stack.
    pub fn new() -> (s: ScopeManager)
        ensures
            s.model() == Seq::<Seq<Binding>>::empty(),
    {
        let s = ScopeManager { frames: Vec::new() };
        proof {
            assert(s.model() =~= Seq::<Seq<Binding>>::empty());
        }
        s
    }

    /// How many scopes are live.
    pub fn depth(&self) -> (n: usize)
        ensures
            n == self.model().len(),
    {
        self.frames.len()
    }

    /// Pushes a new, empty innermost scope.
    pub fn enter_scope(&mut self)
        ensures
            final(self).model() == old(self).model().push(Seq::<Binding>::empty()),
    {
        self.frames.push(Vec::new());
        proof {
            assert(self.model() =~= old(self).model().push(Seq::<Binding>::empty()));
        }
    }

    /// Pops the innermost scope, discarding every binding declared in it.
    pub fn exit_scope(&mut self)
        requires
            old(self).model().len() > 0,
        ensures
            final(self).model() == old(self).model().drop_last(),
    {
        self.frames.pop();
        proof {
            assert(self.model() =~= old(self).model().drop_last());
        }
    }

    /// Creates a binding in the innermost scope. This never fails: if the
    /// name is already bound, in this frame or an enclosing one, the new
    /// binding shadows the old one.
    pub fn declare(&mut self, name: String, ty: Ty, mutable: bool)
        requires
            old(self).model().len() > 0,
        ensures
            final(self).model() == declare_spec(
                old(self).model(),
                (Binding { name, ty, mutable }),
            ),
            final(self).model().len() == old(self).model().len(),
    {
        let mut frame = self.frames.pop().unwrap();
        let ghost b = (Binding { name: name, ty: ty, mutable: mutable });
        frame.push(Binding { name, ty, mutable });
        self.frames.push(frame);
        proof {
            assert(self.model() =~= declare_spec(old(self).model(), b));
        }
    }

    /// Scans the frames from the innermost outwards and returns the type and
    /// mutability of the first binding with the given name, or `None` if no
    /// live binding has it.
    pub fn lookup(&self, name: &String) -> (r: Option<(Ty, bool)>)
        ensures
            r == lookup_spec(self.model(), name@),
    {
        self.lookup_upto(name, self.frames.len())
    }

    /// Looks the name up in the frames below index `k` only.
    fn lookup_upto(&self, name: &String, k: usize) -> (r: Option<(Ty, bool)>)
        requires
            k <= self.frames@.len(),
        ensures
            r == lookup_from_spec(self.model(), name@, k as int),
        decreases k,
    {
        if k == 0 {
            None
        } else {
            let frame = &self.frames[k - 1];
            let here = Self::frame_lookup(frame, name, frame.len());
            proof {
                assert(self.model()[k - 1] == self.frames@[k - 1]@);
            }
            match here {
                Some(p) => Some(p),
                None => self.lookup_upto(name, k - 1),
            }
        }
    }

    /// Looks the name up among the first `j` bindings of one frame, most
    /// recent first.
    fn frame_lookup(frame: &Vec<Binding>, name: &String, j: usize) -> (r: Option<(Ty, bool)>)
        requires
            j <= frame@.len(),
        ensures
            r == frame_lookup_spec(frame@, name@, j as int),
        decreases j,
    {
        if j == 0 {
            None
        } else {
            let b = &frame[j - 1];
            if b.name.eq(name) {
                Some((b.ty, b.mutable))
            } else {
                Self::frame_lookup(frame, name, j - 1)
            }
        }
    }
}

/// Declaring resolves: immediately after a binding is declared, looking its
/// name up yields exactly that binding's type and mutability, whatever was
/// bound before.
pub proof fn lemma_declare_resolves(sc: Seq<Seq<Binding>>, b: Binding)
    requires
        sc.len() > 0,
    ensures
        lookup_spec(declare_spec(sc, b), b.name@) == Some((b.ty, b.mutable)),
{
    let sc1 = declare_spec(sc, b);
    let top = sc1[sc1.len() - 1];
    assert(top == sc[sc.len() - 1].push(b));
    assert(top[top.len() - 1] == b);
}

/// Shadowing: after two declarations of the same name in the same scope, a
/// lookup of that name resolves to the second binding exclusively; in
/// particular it never fails to resolve.
pub proof fn lemma_shadowing_second_wins(sc: Seq<Seq<Binding>>, b1: Binding, b2: Binding)
    requires
        sc.len() > 0,
        b1.name@ == b2.name@,
    ensures
        lookup_spec(declare_spec(declare_spec(sc, b1), b2), b2.name@) == Some(
            (b2.ty, b2.mutable),
        ),
        lookup_spec(declare_spec(declare_spec(sc, b1), b2), b2.name@) is Some,
{
    lemma_declare_resolves(declare_spec(sc, b1), b2);
}

/// Leaving a scope discards its bindings: however the innermost frame was
/// filled, popping it re-resolves every name exactly as before the frame was
/// pushed — to the enclosing binding if one exists there, and to nothing
/// otherwise.
pub proof fn lemma_scope_exit_discards(
    sc: Seq<Seq<Binding>>,
    sc2: Seq<Seq<Binding>>,
    name: Seq<char>,
)
    requires
        sc2.len() == sc.len() + 1,
        forall|i: int| 0 <= i < sc.len() ==> sc2[i] == sc[i],
    ensures
        lookup_spec(sc2.drop_last(), name) == lookup_spec(sc, name),
{
    assert(sc2.drop_last() =~= sc);
}

} // verus!
