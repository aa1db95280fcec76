//! Sets of compiled named types, and the scope chain used while compiling.
//!
//! The chain is a stack of frames.  A frame may be tagged with the name of
//! the schema whose body is being compiled, and owns the types compiled in
//! its branch so far.  Each recursive step pushes a frame of its own and pops
//! it on return, handing the popped set back to its caller.
use crate::compile::data_type::{DataType, Type};
use crate::schema::sref::SRefSchemasObjectName;
use crate::text::same_text;
use vstd::prelude::*;

verus! {

/// Model of a set of compiled named types, in insertion order.
pub type SchemasModel<'a> = Seq<(Seq<char>, Type<'a>)>;

/// Model of one frame: its tag and its compiled set.
pub type FrameModel<'a> = (Option<Seq<char>>, SchemasModel<'a>);

/// Index of the first entry at or after `from` named `k`, or -1.
pub open spec fn model_key_index<'a>(s: SchemasModel<'a>, k: Seq<char>, from: int) -> int
    decreases s.len() - from,
{
    if from < 0 || from >= s.len() {
        -1
    } else if s[from].0 == k {
        from
    } else {
        model_key_index(s, k, from + 1)
    }
}

pub proof fn lemma_model_key_index<'a>(s: SchemasModel<'a>, k: Seq<char>, from: int)
    requires
        0 <= from,
    ensures
        model_key_index(s, k, from) == -1 || (from <= model_key_index(s, k, from) < s.len()
            && s[model_key_index(s, k, from)].0 == k),
        model_key_index(s, k, from) == -1 ==> forall|j: int| from <= j < s.len() ==> s[j].0 != k,
    decreases s.len() - from,
{
    if from < s.len() && s[from].0 != k {
        lemma_model_key_index(s, k, from + 1);
    }
}

pub open spec fn has_key<'a>(s: SchemasModel<'a>, k: Seq<char>) -> bool {
    exists|j: int| 0 <= j < s.len() && #[trigger] s[j].0 == k
}

/// `s` with `k` bound to `v`: replaced in place when present, else appended.
pub open spec fn insert_model<'a>(s: SchemasModel<'a>, k: Seq<char>, v: Type<'a>) -> SchemasModel<'a> {
    let i = model_key_index(s, k, 0);
    if i >= 0 {
        s.update(i, (k, v))
    } else {
        s.push((k, v))
    }
}

/// `a` extended with the entries of `b`, in order.
pub open spec fn merge_model<'a>(a: SchemasModel<'a>, b: SchemasModel<'a>) -> SchemasModel<'a>
    decreases b.len(),
{
    if b.len() == 0 {
        a
    } else {
        merge_model(insert_model(a, b[0].0, b[0].1), b.drop_first())
    }
}

/// Whether `name` is the tag of a frame of `chain` or a key of one of its sets.
pub open spec fn chain_contains<'a>(chain: Seq<FrameModel<'a>>, name: Seq<char>) -> bool {
    exists|i: int|
        #![trigger chain[i]]
        0 <= i < chain.len() && (chain[i].0 == Some(name) || has_key(chain[i].1, name))
}

/// A set of compiled named types, in insertion order.  The entries are kept
/// as a vector of pairs so that the set has an exact model: its values are
/// compiled types, which hold references into the document and so are not
/// plain values that a declared outside map could describe.
#[derive(Debug)]
pub struct Schemas<'a> {
    pub entries: Vec<(&'a SRefSchemasObjectName, DataType<'a>)>,
}

impl<'a> Schemas<'a> {
    pub open spec fn model(&self) -> SchemasModel<'a> {
        self.entries@.map_values(|e: (&'a SRefSchemasObjectName, DataType<'a>)| (e.0@, e.1.model()))
    }

    pub fn new() -> (r: Schemas<'a>)
        ensures
            r.model() == Seq::<(Seq<char>, Type<'a>)>::empty(),
    {
        let r = Schemas { entries: Vec::new() };
        assert(r.model() =~= Seq::<(Seq<char>, Type<'a>)>::empty());
        r
    }

    pub fn len(&self) -> (r: usize)
        ensures
            r == self.model().len(),
    {
        self.entries.len()
    }

    pub fn contains_key(&self, name: &str) -> (r: bool)
        ensures
            r == has_key(self.model(), name@),
    {
        let mut i: usize = 0;
        while i < self.entries.len()
            invariant
                i <= self.entries@.len(),
                forall|j: int| 0 <= j < i ==> self.model()[j].0 != name@,
            decreases self.entries@.len() - i,
        {
            if same_text(self.entries[i].0.as_str(), name) {
                assert(self.model()[i as int].0 == name@);
                return true;
            }
            i = i + 1;
        }
        false
    }

    /// The stored name equal to `name`, if any.
    pub fn find_key(&self, name: &str) -> (r: Option<&'a SRefSchemasObjectName>)
        ensures
            match r {
                Some(n) => n@ == name@ && has_key(self.model(), name@),
                None => !has_key(self.model(), name@),
            },
    {
        let mut i: usize = 0;
        while i < self.entries.len()
            invariant
                i <= self.entries@.len(),
                forall|j: int| 0 <= j < i ==> self.model()[j].0 != name@,
            decreases self.entries@.len() - i,
        {
            if same_text(self.entries[i].0.as_str(), name) {
                assert(self.model()[i as int].0 == name@);
                return Some(self.entries[i].0);
            }
            i = i + 1;
        }
        None
    }

    /// The type bound to `name`, if any.
    pub fn get(&self, name: &str) -> (r: Option<&DataType<'a>>)
        ensures
            match r {
                Some(t) => model_key_index(self.model(), name@, 0) >= 0 && self.model()[model_key_index(
                    self.model(),
                    name@,
                    0,
                )].1 == t.model(),
                None => !has_key(self.model(), name@),
            },
    {
        let ghost m = self.model();
        proof {
            lemma_model_key_index(m, name@, 0);
        }
        let mut i: usize = 0;
        while i < self.entries.len()
            invariant
                i <= self.entries@.len(),
                m == self.model(),
                model_key_index(m, name@, 0) == model_key_index(m, name@, i as int),
                forall|j: int| 0 <= j < i ==> m[j].0 != name@,
            decreases self.entries@.len() - i,
        {
            if same_text(self.entries[i].0.as_str(), name) {
                return Some(&self.entries[i].1);
            }
            i = i + 1;
        }
        None
    }

    /// Position of the first entry named `name`.
    fn position(&self, name: &str) -> (r: Option<usize>)
        ensures
            match r {
                Some(i) => i as int == model_key_index(self.model(), name@, 0) && i < self.entries@.len(),
                None => model_key_index(self.model(), name@, 0) == -1,
            },
    {
        let ghost m = self.model();
        proof {
            lemma_model_key_index(m, name@, 0);
        }
        let mut i: usize = 0;
        while i < self.entries.len()
            invariant
                i <= self.entries@.len(),
                m == self.model(),
                model_key_index(m, name@, 0) == model_key_index(m, name@, i as int),
            decreases self.entries@.len() - i,
        {
            if same_text(self.entries[i].0.as_str(), name) {
                assert(m[i as int].0 == name@);
                return Some(i);
            }
            i = i + 1;
        }
        None
    }

    pub fn insert(&mut self, k: &'a SRefSchemasObjectName, v: DataType<'a>)
        ensures
            final(self).model() == insert_model(old(self).model(), k@, v.model()),
    {
        let ghost m = self.model();
        let ghost vm = v.model();
        match self.position(k.as_str()) {
            Some(i) => {
                self.entries.set(i, (k, v));
                assert(self.model() =~= m.update(i as int, (k@, vm)));
            },
            None => {
                self.entries.push((k, v));
                assert(self.model() =~= m.push((k@, vm)));
            },
        }
    }

    /// Adds the entries of `other`, in order.
    pub fn merge(&mut self, other: Schemas<'a>)
        ensures
            final(self).model() == merge_model(old(self).model(), other.model()),
    {
        let ghost target = merge_model(self.model(), other.model());
        let mut rest = other;
        while rest.entries.len() > 0
            invariant
                target == merge_model(self.model(), rest.model()),
            decreases rest.entries@.len(),
        {
            let ghost rm = rest.model();
            let e = rest.entries.remove(0);
            assert(rest.model() =~= rm.drop_first());
            self.insert(e.0, e.1);
        }
        assert(rest.model() =~= Seq::<(Seq<char>, Type<'a>)>::empty());
    }
}

/// One level of the scope chain.
#[derive(Debug)]
pub struct Frame<'a> {
    pub sref: Option<&'a SRefSchemasObjectName>,
    pub current: Schemas<'a>,
}

impl<'a> Frame<'a> {
    pub open spec fn model(&self) -> FrameModel<'a> {
        (
            match self.sref {
                Some(n) => Some(n@),
                None => None,
            },
            self.current.model(),
        )
    }
}

/// The scope chain: a stack of frames, the innermost last.
#[derive(Debug)]
pub struct Stack<'a> {
    frames: Vec<Frame<'a>>,
}

impl<'a> Stack<'a> {
    pub closed spec fn model(&self) -> Seq<FrameModel<'a>> {
        self.frames@.map_values(|f: Frame<'a>| f.model())
    }

    /// A chain of one untagged, empty frame.
    pub fn new() -> (r: Stack<'a>)
        ensures
            r.model() == seq![(None::<Seq<char>>, Seq::<(Seq<char>, Type<'a>)>::empty())],
    {
        let mut frames: Vec<Frame<'a>> = Vec::new();
        frames.push(Frame { sref: None, current: Schemas::new() });
        let r = Stack { frames };
        assert(r.model() =~= seq![(None::<Seq<char>>, Seq::<(Seq<char>, Type<'a>)>::empty())]);
        r
    }

    /// Opens an untagged child scope.
    pub fn push(&mut self)
        ensures
            final(self).model() == old(self).model().push(
                (None::<Seq<char>>, Seq::<(Seq<char>, Type<'a>)>::empty()),
            ),
    {
        let ghost m = self.model();
        let f = Frame { sref: None, current: Schemas::new() };
        self.frames.push(f);
        assert(self.model() =~= m.push((None::<Seq<char>>, Seq::<(Seq<char>, Type<'a>)>::empty())));
    }

    /// Opens a child scope tagged with the schema about to be expanded.
    pub fn push_ref(&mut self, sref: &'a SRefSchemasObjectName)
        ensures
            final(self).model() == old(self).model().push(
                (Some(sref@), Seq::<(Seq<char>, Type<'a>)>::empty()),
            ),
    {
        let ghost m = self.model();
        let f = Frame { sref: Some(sref), current: Schemas::new() };
        self.frames.push(f);
        assert(self.model() =~= m.push((Some(sref@), Seq::<(Seq<char>, Type<'a>)>::empty())));
    }

    /// Closes the innermost scope and yields its compiled set.
    pub fn pop(&mut self) -> (r: Schemas<'a>)
        requires
            old(self).model().len() > 1,
        ensures
            final(self).model() == old(self).model().drop_last(),
            r.model() == old(self).model().last().1,
    {
        let ghost m = self.model();
        let f = self.frames.pop().unwrap();
        assert(self.model() =~= m.drop_last());
        f.current
    }

    /// Adds an already compiled set to the innermost scope.
    pub fn merge(&mut self, v: Schemas<'a>)
        requires
            old(self).model().len() > 0,
        ensures
            final(self).model() == old(self).model().update(
                old(self).model().len() - 1,
                (
                    old(self).model().last().0,
                    merge_model(old(self).model().last().1, v.model()),
                ),
            ),
    {
        let ghost m = self.model();
        let mut f = self.frames.pop().unwrap();
        f.current.merge(v);
        self.frames.push(f);
        assert(self.model() =~= m.update(
            m.len() - 1,
            (m.last().0, merge_model(m.last().1, v.model())),
        ));
    }

    /// Whether `name` is being expanded or was compiled anywhere in the chain.
    pub fn contains(&self, name: &str) -> (r: bool)
        ensures
            r == chain_contains(self.model(), name@),
    {
        let mut i: usize = 0;
        while i < self.frames.len()
            invariant
                i <= self.frames@.len(),
                forall|j: int|
                    0 <= j < i ==> !(#[trigger] self.model()[j].0 == Some(name@) || has_key(
                        self.model()[j].1,
                        name@,
                    )),
            decreases self.frames@.len() - i,
        {
            let f = &self.frames[i];
            let tagged = match f.sref {
                Some(n) => same_text(n.as_str(), name),
                None => false,
            };
            if tagged || f.current.contains_key(name) {
                assert(self.model()[i as int] == f.model());
                assert(self.model()[i as int].0 == Some(name@) || has_key(self.model()[i as int].1, name@));
                assert(chain_contains(self.model(), name@));
                return true;
            }
            assert(self.model()[i as int] == f.model());
            i = i + 1;
        }
        false
    }

    /// The name held in the chain (a frame's tag or a compiled key) equal to
    /// `name`, if any.
    pub fn lookup(&self, name: &str) -> (r: Option<&'a SRefSchemasObjectName>)
        ensures
            match r {
                Some(n) => n@ == name@ && chain_contains(self.model(), name@),
                None => !chain_contains(self.model(), name@),
            },
    {
        let mut i: usize = 0;
        while i < self.frames.len()
            invariant
                i <= self.frames@.len(),
                forall|j: int|
                    0 <= j < i ==> !(#[trigger] self.model()[j].0 == Some(name@) || has_key(
                        self.model()[j].1,
                        name@,
                    )),
            decreases self.frames@.len() - i,
        {
            let f = &self.frames[i];
            assert(self.model()[i as int] == f.model());
            match f.sref {
                Some(n) => {
                    if same_text(n.as_str(), name) {
                        assert(self.model()[i as int].0 == Some(name@));
                        return Some(n);
                    }
                },
                None => {},
            }
            match f.current.find_key(name) {
                Some(n) => {
                    assert(has_key(self.model()[i as int].1, name@));
                    return Some(n);
                },
                None => {},
            }
            i = i + 1;
        }
        None
    }

    /// Ends the outermost scope and yields its compiled set.
    pub fn done(self) -> (r: Schemas<'a>)
        requires
            self.model().len() == 1,
        ensures
            r.model() == self.model()[0].1,
    {
        let mut frames = self.frames;
        let f = frames.pop().unwrap();
        f.current
    }
}

} // verus!
