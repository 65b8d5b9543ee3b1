//! The binding environment: a stack of scope frames for variables, with
//! innermost-first lookup, and a flat table for functions (a separate
//! namespace, so a variable and a function may share a name).
//!
//! `declare` always succeeds and shadows only within the current frame;
//! `assign` overwrites the binding in whichever frame owns the name and
//! fails if no reachable frame has it.  Entering a block or a call pushes
//! a frame; leaving pops it, discarding every declaration made inside
//! while keeping assignments that reached enclosing frames.

use crate::common::ast::{FunctionStatement, FunctionStatementV};
use crate::common::error::{Error, ErrorKind, ErrorV};
use crate::common::object::{clone_object, obj_view, Object, Value};
use crate::common::token::Token;
use vstd::hash_map::StringHashMap;
use vstd::prelude::*;

verus! {

/// The model of a variable scope stack: innermost frame last.
pub type Frames = Seq<Map<Seq<char>, Value>>;

/// The model of one scope frame.
pub open spec fn frame_model(m: Map<Seq<char>, Object>) -> Map<Seq<char>, Value> {
    Map::new(|k: Seq<char>| m.contains_key(k), |k: Seq<char>| obj_view(m[k]))
}

/// Innermost-first lookup over a scope stack.
pub open spec fn lookup(frames: Frames, name: Seq<char>) -> Option<Value>
    decreases frames.len(),
{
    if frames.len() == 0 {
        None
    } else if frames.last().contains_key(name) {
        Some(frames.last()[name])
    } else {
        lookup(frames.drop_last(), name)
    }
}

/// The scope stack after assigning `v` to `name` in the innermost frame
/// that owns `name`, or `None` if no frame does.
pub open spec fn assigned(frames: Frames, name: Seq<char>, v: Value) -> Option<Frames>
    decreases frames.len(),
{
    if frames.len() == 0 {
        None
    } else if frames.last().contains_key(name) {
        Some(frames.update(frames.len() - 1, frames.last().insert(name, v)))
    } else {
        match assigned(frames.drop_last(), name, v) {
            Some(f) => Some(f.push(frames.last())),
            None => None,
        }
    }
}

/// An assignment succeeds exactly when lookup succeeds.
pub proof fn lemma_assigned_some_iff_lookup(frames: Frames, name: Seq<char>, v: Value)
    ensures
        assigned(frames, name, v) is Some <==> lookup(frames, name) is Some,
    decreases frames.len(),
{
    if frames.len() > 0 && !frames.last().contains_key(name) {
        lemma_assigned_some_iff_lookup(frames.drop_last(), name, v);
    }
}

/// An assignment changes no frame's domain, keeps the frame count, and
/// makes the assigned name look up to the assigned value.
pub proof fn lemma_assigned_props(frames: Frames, name: Seq<char>, v: Value)
    requires
        assigned(frames, name, v) is Some,
    ensures
        ({
            let f2 = assigned(frames, name, v)->Some_0;
            &&& f2.len() == frames.len()
            &&& forall|i: int| 0 <= i < frames.len() ==> (#[trigger] f2[i]).dom() == frames[i].dom()
            &&& lookup(f2, name) == Some(v)
        }),
    decreases frames.len(),
{
    let f2 = assigned(frames, name, v)->Some_0;
    if frames.last().contains_key(name) {
        assert(f2.last() == frames.last().insert(name, v));
        assert(f2.last().dom() =~= frames.last().dom());
        assert(forall|i: int|
            0 <= i < frames.len() - 1 ==> (#[trigger] f2[i]).dom() == frames[i].dom());
    } else {
        lemma_assigned_props(frames.drop_last(), name, v);
        let g2 = assigned(frames.drop_last(), name, v)->Some_0;
        assert(f2 == g2.push(frames.last()));
        assert(f2.last() == frames.last());
        assert(f2.drop_last() =~= g2);
        assert(forall|i: int|
            0 <= i < frames.len() - 1 ==> f2[i] == g2[i] && frames.drop_last()[i] == frames[i]);
    }
}

/// If `name` lives in frame `i` and in no frame above it, assignment
/// updates exactly frame `i`.
pub proof fn lemma_assigned_at(frames: Frames, name: Seq<char>, v: Value, i: int)
    requires
        0 <= i < frames.len(),
        frames[i].contains_key(name),
        forall|j: int| i < j < frames.len() ==> !(#[trigger] frames[j]).contains_key(name),
    ensures
        assigned(frames, name, v) == Some(frames.update(i, frames[i].insert(name, v))),
    decreases frames.len(),
{
    if i == frames.len() - 1 {
        assert(frames.last() == frames[i]);
    } else {
        assert(!frames.last().contains_key(name));
        let d = frames.drop_last();
        assert(d[i] == frames[i]);
        assert(forall|j: int| i < j < d.len() ==> !(#[trigger] d[j]).contains_key(name));
        lemma_assigned_at(d, name, v, i);
        assert(d.update(i, d[i].insert(name, v)).push(frames.last()) =~= frames.update(
            i,
            frames[i].insert(name, v),
        ));
    }
}

/// Inserting into a frame inserts the value's model into its model.
pub proof fn lemma_frame_model_insert(m: Map<Seq<char>, Object>, k: Seq<char>, o: Object)
    ensures
        frame_model(m.insert(k, o)) == frame_model(m).insert(k, obj_view(o)),
{
    assert(frame_model(m.insert(k, o)) =~= frame_model(m).insert(k, obj_view(o)));
}

/// The variable scope stack.  There is always at least one frame: the
/// global scope.
pub struct VariableBindings {
    frames: Vec<StringHashMap<Object>>,
}

impl VariableBindings {
    /// The stack of frame models, innermost last.
    pub closed spec fn model(&self) -> Frames {
        Seq::new(
            self.frames@.len(),
            |i: int|
                if 0 <= i < self.frames@.len() {
                    frame_model(self.frames@[i]@)
                } else {
                    Map::empty()
                },
        )
    }

    /// There is always a global frame.
    pub open spec fn wf(&self) -> bool {
        self.model().len() >= 1
    }

    /// A fresh stack: one empty global frame.
    pub fn new() -> (r: Self)
        ensures
            r.wf(),
            r.model().len() == 1,
            r.model()[0] == Map::<Seq<char>, Value>::empty(),
    {
        let mut frames: Vec<StringHashMap<Object>> = Vec::new();
        frames.push(StringHashMap::new());
        let r = VariableBindings { frames };
        proof {
            assert(r.model()[0] =~= Map::<Seq<char>, Value>::empty());
        }
        r
    }

    /// Enter a scope: push an empty frame.
    pub fn push_scope(&mut self)
        requires
            old(self).wf(),
        ensures
            final(self).wf(),
            final(self).model() == old(self).model().push(Map::<Seq<char>, Value>::empty()),
    {
        self.frames.push(StringHashMap::new());
        proof {
            assert(frame_model(Map::<Seq<char>, Object>::empty()) =~= Map::<Seq<char>, Value>::empty());
            assert(self.model() =~= old(self).model().push(Map::<Seq<char>, Value>::empty()));
        }
    }

    /// Leave a scope: pop the innermost frame, discarding everything
    /// declared in it.
    pub fn pop_scope(&mut self)
        requires
            old(self).wf(),
            old(self).model().len() >= 2,
        ensures
            final(self).wf(),
            final(self).model() == old(self).model().drop_last(),
    {
        let _ = self.frames.pop();
        proof {
            assert(self.model() =~= old(self).model().drop_last());
        }
    }

    /// Declare `name` in the current scope, shadowing any binding of the
    /// same name from an enclosing scope; redeclaration in the same
    /// scope overwrites.  Always succeeds.
    pub fn declare(&mut self, identifier: &Token, value: Object)
        requires
            old(self).wf(),
        ensures
            final(self).wf(),
            final(self).model() == old(self).model().update(
                old(self).model().len() - 1,
                old(self).model().last().insert(identifier@.lexeme, value@),
            ),
    {
        let ghost pre = self.model();
        let n = self.frames.len();
        let m_opt = self.frames.pop();
        let mut m = match m_opt {
            Some(m) => m,
            None => StringHashMap::new(),
        };
        m.insert(identifier.lexeme.clone(), value);
        self.frames.push(m);
        proof {
            lemma_frame_model_insert(
                old(self).frames@.last()@,
                identifier@.lexeme,
                value,
            );
            assert(self.model() =~= pre.update(
                pre.len() - 1,
                pre.last().insert(identifier@.lexeme, value@),
            ));
        }
    }

    /// Innermost-first lookup of `name`; fails with `UndefinedIdentifier`
    /// when no reachable scope has it.
    pub fn get(&self, identifier: &Token) -> (r: Result<Object, Error>)
        requires
            self.wf(),
        ensures
            match r {
                Ok(o) => lookup(self.model(), identifier@.lexeme) == Some(o@),
                Err(e) => lookup(self.model(), identifier@.lexeme) is None && e@ == (ErrorV {
                    kind: crate::common::error::ErrorKindV::UndefinedIdentifier(identifier@.lexeme),
                    position: identifier@.position,
                }),
            },
    {
        let ghost name = identifier@.lexeme;
        let mut i = self.frames.len();
        proof {
            assert(self.model().take(i as int) =~= self.model());
        }
        while i > 0
            invariant
                self.wf(),
                i <= self.frames@.len(),
                lookup(self.model(), name) == lookup(self.model().take(i as int), name),
                name == identifier@.lexeme,
            decreases i,
        {
            i = i - 1;
            match self.frames[i].get(identifier.lexeme.as_str()) {
                Some(o) => {
                    proof {
                        let t = self.model().take(i + 1);
                        assert(t.last() == self.model()[i as int]);
                        assert(t.last().contains_key(name));
                        assert(lookup(t, name) == Some(t.last()[name]));
                    }
                    return Ok(clone_object(o));
                },
                None => {
                    proof {
                        let t = self.model().take(i + 1);
                        assert(t.last() == self.model()[i as int]);
                        assert(!t.last().contains_key(name));
                        assert(t.drop_last() =~= self.model().take(i as int));
                    }
                },
            }
        }
        proof {
            assert(self.model().take(0).len() == 0);
        }
        Err(
            Error::new(
                ErrorKind::UndefinedIdentifier(identifier.lexeme.clone()),
                identifier.position.clone(),
            ),
        )
    }

    /// Assign `value` to an already declared `name`, overwriting the
    /// binding in whichever scope owns it; fails with
    /// `UndefinedIdentifier` when no reachable scope has it.
    #[verifier::loop_isolation(false)]
    pub fn assign(&mut self, identifier: &Token, value: Object) -> (r: Result<(), Error>)
        requires
            old(self).wf(),
        ensures
            final(self).wf(),
            match r {
                Ok(_) => assigned(old(self).model(), identifier@.lexeme, value@) == Some(
                    final(self).model(),
                ),
                Err(e) => {
                    &&& assigned(old(self).model(), identifier@.lexeme, value@) is None
                    &&& final(self).model() == old(self).model()
                    &&& e@ == (ErrorV {
                        kind: crate::common::error::ErrorKindV::UndefinedIdentifier(
                            identifier@.lexeme,
                        ),
                        position: identifier@.position,
                    })
                },
            },
    {
        let ghost name = identifier@.lexeme;
        let ghost pre = self.model();
        let mut i = self.frames.len();
        while i > 0
            invariant
                self.wf(),
                i <= self.frames@.len(),
                self.model() == pre,
                name == identifier@.lexeme,
                forall|j: int| i <= j < pre.len() ==> !(#[trigger] pre[j]).contains_key(name),
            decreases i,
        {
            i = i - 1;
            if self.frames[i].contains_key(identifier.lexeme.as_str()) {
                let ghost before = self.frames@;
                let mut m = self.frames.remove(i);
                m.insert(identifier.lexeme.clone(), value);
                let ghost mv = m@;
                self.frames.insert(i, m);
                proof {
                    assert(mv == before[i as int]@.insert(name, value));
                    assert(self.frames@ =~= before.update(i as int, self.frames@[i as int]));
                    assert(self.frames@[i as int]@ == mv);
                    lemma_frame_model_insert(before[i as int]@, name, value);
                    assert(frame_model(mv) == pre[i as int].insert(name, value@));
                    assert(self.model() =~= pre.update(
                        i as int,
                        pre[i as int].insert(name, value@),
                    ));
                    lemma_assigned_at(pre, name, value@, i as int);
                    assert(assigned(pre, name, value@) == Some(self.model()));
                    assert(pre == old(self).model());
                }
                return Ok(());
            }
        }
        proof {
            lemma_assigned_none(pre, name, value@);
        }
        Err(
            Error::new(
                ErrorKind::UndefinedIdentifier(identifier.lexeme.clone()),
                identifier.position.clone(),
            ),
        )
    }
}

/// If no frame contains `name`, assignment fails.
pub proof fn lemma_assigned_none(frames: Frames, name: Seq<char>, v: Value)
    requires
        forall|j: int| 0 <= j < frames.len() ==> !(#[trigger] frames[j]).contains_key(name),
    ensures
        assigned(frames, name, v) is None,
    decreases frames.len(),
{
    if frames.len() > 0 {
        let d = frames.drop_last();
        assert(forall|j: int| 0 <= j < d.len() ==> d[j] == frames[j]);
        lemma_assigned_none(d, name, v);
    }
}

/// The function table: a flat mapping from names to declarations; the
/// table is global, so a function defined inside a block stays defined.
pub struct FunctionBindings {
    map: StringHashMap<FunctionStatement>,
}

impl FunctionBindings {
    /// The model: function name to declaration model.
    pub closed spec fn model(&self) -> Map<Seq<char>, FunctionStatementV> {
        Map::new(
            |k: Seq<char>| self.map@.contains_key(k),
            |k: Seq<char>| self.map@[k]@,
        )
    }

    /// An empty table.
    pub fn new() -> (r: Self)
        ensures
            r.model() == Map::<Seq<char>, FunctionStatementV>::empty(),
    {
        let r = FunctionBindings { map: StringHashMap::new() };
        proof {
            assert(r.model() =~= Map::<Seq<char>, FunctionStatementV>::empty());
        }
        r
    }

    /// Register `f` under `identifier`, overwriting any previous entry.
    pub fn put(&mut self, identifier: &Token, f: FunctionStatement)
        ensures
            final(self).model() == old(self).model().insert(identifier@.lexeme, f@),
    {
        self.map.insert(identifier.lexeme.clone(), f);
        proof {
            assert(self.model() =~= old(self).model().insert(identifier@.lexeme, f@));
        }
    }

    /// Look `identifier` up; fails with `UndefinedIdentifier` when the
    /// table has no entry of that name.
    pub fn get(&self, identifier: &Token) -> (r: Result<FunctionStatement, Error>)
        ensures
            match r {
                Ok(f) => self.model().contains_key(identifier@.lexeme) && f@ == self.model()[
                    identifier@.lexeme
                ],
                Err(e) => !self.model().contains_key(identifier@.lexeme) && e@ == (ErrorV {
                    kind: crate::common::error::ErrorKindV::UndefinedIdentifier(identifier@.lexeme),
                    position: identifier@.position,
                }),
            },
    {
        match self.map.get(identifier.lexeme.as_str()) {
            Some(f) => Ok(f.clone()),
            None => Err(
                Error::new(
                    ErrorKind::UndefinedIdentifier(identifier.lexeme.clone()),
                    identifier.position.clone(),
                ),
            ),
        }
    }
}

} // verus!
