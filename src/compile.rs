//! Compilation of type definitions into a flat set of resolved types.
use crate::compile::data_type::Type;
use crate::compile::operation::{
    codes_model, opt_body_model, opt_response_model, scan_path, BodiesOutcome, CompileData, Error,
    Operation,
};
use crate::compile::request_body::{BodiesModel, BodyRef, Frames, RequestBodies};
use crate::compile::response_body::ResponseBodies;
use crate::compile::laws::{lemma_bodies_unique, names_unique};
use crate::compile::stack::{Schemas, Stack};
use crate::schema::path::Path;
use crate::schema::path_item::{op_type_at, OperationType, PathItem};
use crate::schema::operation::Operation as SchemaOperation;
use crate::schema::Description;
use vstd::prelude::*;

pub mod data_type;
pub mod laws;
pub mod operation;
pub mod parameter;
pub mod request_body;
pub mod response_body;
pub mod schema_compiler;
pub mod stack;

verus! {

/// Everything a document compiles to: its operations, and the named types,
/// request bodies and responses they use, each compiled once.
#[derive(Debug)]
pub struct Compiled<'a> {
    pub request_bodies: RequestBodies<'a>,
    pub response_bodies: ResponseBodies<'a>,
    pub schemas: Schemas<'a>,
    pub operations: Vec<Operation<'a>>,
}

/// An operation of the document: its method, its path, the path item and
/// the operation object.
pub type DocOp<'a> = (OperationType, &'a Path, &'a PathItem, &'a SchemaOperation);

/// The operations of a path item from slot `i` on, in slot order.
pub open spec fn item_ops<'a>(item: &'a PathItem, path: &'a Path, i: int) -> Seq<DocOp<'a>>
    decreases 8 - i,
{
    if i >= 8 || i < 0 {
        Seq::empty()
    } else if item.slot(i) is Some {
        seq![(op_type_at(i), path, item, item.slot(i)->Some_0)] + item_ops(item, path, i + 1)
    } else {
        item_ops(item, path, i + 1)
    }
}

/// The operations of the paths from the `k`-th on, in document order.
pub open spec fn all_ops<'a>(paths: &'a Vec<(Path, PathItem)>, k: int) -> Seq<DocOp<'a>>
    decreases paths@.len() - k,
{
    if k < 0 || k >= paths@.len() {
        Seq::empty()
    } else {
        item_ops(&paths@[k].1, &paths@[k].0, 0) + all_ops(paths, k + 1)
    }
}

/// The operations a document declares, in document order.
pub open spec fn document_ops<'a>(d: &'a Description) -> Seq<DocOp<'a>> {
    match &d.paths {
        Some(p) => all_ops(p, 0),
        None => Seq::empty(),
    }
}

pub open spec fn doc_keys<'a>(ops: Seq<DocOp<'a>>) -> Seq<(OperationType, &'a Path)> {
    ops.map_values(|x: DocOp<'a>| (x.0, x.1))
}

pub open spec fn op_keys<'a>(ops: Seq<Operation<'a>>) -> Seq<(OperationType, &'a Path)> {
    ops.map_values(|o: Operation<'a>| (o.op_type, o.path))
}

/// Model of what an operation's bodies compiled to: request body, default
/// response, responses by code.
pub type OpBodies<'a> = (Option<BodyRef<'a>>, Option<BodyRef<'a>>, Seq<BodyRef<'a>>);

pub open spec fn op_bodies<'a>(o: Operation<'a>) -> OpBodies<'a> {
    (
        opt_body_model(o.request_body_or_ref),
        opt_response_model(o.request_responses.default),
        codes_model(o.request_responses.codes@),
    )
}

pub open spec fn ops_bodies<'a>(ops: Seq<Operation<'a>>) -> Seq<OpBodies<'a>> {
    ops.map_values(|o: Operation<'a>| op_bodies(o))
}

/// Compiling one operation from the scope chain and the bodies compiled so
/// far: `None` when it fails, else what its bodies compile to and the chain
/// and bodies after it.
pub open spec fn op_spec<'a>(
    d: &'a Description,
    x: DocOp<'a>,
    chain: Frames<'a>,
    reqs: BodiesModel<'a>,
    resps: BodiesModel<'a>,
) -> Option<BodiesOutcome<'a>> {
    let cd = CompileData { path: x.1, item: x.2, op: x.3, components: &d.components };
    if scan_path(cd.parameters(), x.1@, 0) is Ok && cd.rest_spec(x.0, chain, reqs, resps) is Ok {
        Some(cd.rest_spec(x.0, chain, reqs, resps)->Ok_0)
    } else {
        None
    }
}

/// Compiling the operations from the `i`-th on, in turn, each seeing what the
/// ones before recorded.
pub open spec fn fold_ops<'a>(
    d: &'a Description,
    ops: Seq<DocOp<'a>>,
    i: int,
    chain: Frames<'a>,
    reqs: BodiesModel<'a>,
    resps: BodiesModel<'a>,
) -> Option<(Seq<OpBodies<'a>>, Frames<'a>, BodiesModel<'a>, BodiesModel<'a>)>
    decreases ops.len() - i,
{
    if i < 0 || i >= ops.len() {
        Some((Seq::empty(), chain, reqs, resps))
    } else {
        match op_spec(d, ops[i], chain, reqs, resps) {
            None => None,
            Some((bm, dm, cs, c, q, p)) => match fold_ops(d, ops, i + 1, c, q, p) {
                Some((l, c2, q2, p2)) => Some((seq![(bm, dm, cs)] + l, c2, q2, p2)),
                None => None,
            },
        }
    }
}

pub open spec fn initial_chain<'a>() -> Frames<'a> {
    seq![(None::<Seq<char>>, Seq::<(Seq<char>, Type<'a>)>::empty())]
}

pub open spec fn no_bodies<'a>() -> BodiesModel<'a> {
    Seq::empty()
}

/// The outcome of compiling a whole document.
pub open spec fn document_spec<'a>(d: &'a Description) -> Option<(Seq<OpBodies<'a>>, Frames<'a>, BodiesModel<'a>, BodiesModel<'a>)> {
    fold_ops(d, document_ops(d), 0, initial_chain(), no_bodies(), no_bodies())
}

proof fn lemma_item_ops_next<'a>(item: &'a PathItem, path: &'a Path, i: int)
    requires
        0 <= i,
    ensures
        ({
            let j = item.next_slot(i);
            if j >= 8 {
                item_ops(item, path, i) == Seq::<DocOp<'a>>::empty()
            } else {
                i <= j && item_ops(item, path, i) == seq![(op_type_at(j), path, item, item.slot(j)->Some_0)] + item_ops(item, path, j + 1)
            }
        }),
    decreases 8 - i,
{
    if i < 8 && item.slot(i) is None {
        lemma_item_ops_next(item, path, i + 1);
    }
}

/// Compiles every operation of the document in turn.  Named types, request
/// bodies and responses are compiled once and shared: it succeeds exactly
/// when `document_spec` does, with its final sets.
#[verifier::rlimit(100)]
pub fn compile<'a>(d: &'a Description) -> (r: Result<Compiled<'a>, Error<'a>>)
    ensures
        match document_spec(d) {
            None => r is Err,
            Some((outs, c, q, p)) => r matches Ok(x) && op_keys(x.operations@) == doc_keys(document_ops(d))
                && ops_bodies(x.operations@) == outs && x.schemas.model() == c[0].1
                && x.request_bodies.model() == q && x.response_bodies.model() == p,
        },
        r matches Ok(c) ==> names_unique(c.schemas.model()),
{
    let mut stack = Stack::new();
    assert(names_unique(stack.model()[0].1));
    let mut request_bodies = RequestBodies::new();
    let mut response_bodies = ResponseBodies::new();
    let mut operations: Vec<Operation<'a>> = Vec::new();
    let ghost all = document_ops(d);
    let ghost mut done: Seq<DocOp<'a>> = Seq::empty();
    assert(stack.model() =~= initial_chain());
    assert(ops_bodies(operations@) =~= Seq::<OpBodies<'a>>::empty());
    assert(op_keys(operations@) =~= doc_keys(done));
    assert(document_spec(d) == match fold_ops(d, all, 0, stack.model(), request_bodies.model(), response_bodies.model()) {
        Some((l, c, q, p)) => Some((ops_bodies(operations@) + l, c, q, p)),
        None => None,
    }) by {
        match fold_ops(d, all, 0, stack.model(), request_bodies.model(), response_bodies.model()) {
            Some((l, c, q, p)) => {
                assert(Seq::<OpBodies<'a>>::empty() + l =~= l);
            },
            None => {},
        }
    }
    match &d.paths {
        None => {},
        Some(paths) => {
            let mut k: usize = 0;
            assert(done + all_ops(paths, 0) =~= all);
            while k < paths.len()
                invariant
                    k <= paths@.len(),
                    d.paths == Some(*paths),
                    all == all_ops(paths, 0),
                    stack.model().len() == 1,
                    names_unique(stack.model()[0].1),
                    done + all_ops(paths, k as int) == all,
                    done.len() == operations@.len(),
                    op_keys(operations@) == doc_keys(done),
                    document_spec(d) == match fold_ops(d, all, done.len() as int, stack.model(), request_bodies.model(), response_bodies.model()) {
                        Some((l, c, q, p)) => Some((ops_bodies(operations@) + l, c, q, p)),
                        None => None,
                    },
                decreases paths@.len() - k,
            {
                let path = &paths[k].0;
                let item = &paths[k].1;
                let mut it = item.operations_iter();
                assert(done + item_ops(item, path, 0) + all_ops(paths, k + 1) =~= all);
                loop
                    invariant
                        k < paths@.len(),
                        path == &paths@[k as int].0,
                        item == &paths@[k as int].1,
                        it.path_item == item,
                        it.pos <= 8,
                        all == all_ops(paths, 0),
                        stack.model().len() == 1,
                        names_unique(stack.model()[0].1),
                        done + item_ops(item, path, it.pos as int) + all_ops(paths, k + 1) == all,
                        done.len() == operations@.len(),
                        op_keys(operations@) == doc_keys(done),
                        document_spec(d) == match fold_ops(d, all, done.len() as int, stack.model(), request_bodies.model(), response_bodies.model()) {
                            Some((l, c, q, p)) => Some((ops_bodies(operations@) + l, c, q, p)),
                            None => None,
                        },
                    ensures
                        it.pos == 8,
                    decreases 8 - it.pos,
                {
                    let ghost pos = it.pos;
                    proof {
                        lemma_item_ops_next(item, path, pos as int);
                    }
                    match it.next() {
                        None => {
                            break;
                        },
                        Some((op_type, op)) => {
                            let cdata = CompileData { path, item, op, components: &d.components };
                            let ghost s0 = stack.model();
                            let ghost q0 = request_bodies.model();
                            let ghost p0 = response_bodies.model();
                            let ghost x: DocOp<'a> = (op_type, path, item, op);
                            let ghost i = done.len() as int;
                            proof {
                                lemma_bodies_unique(cdata, op_type, s0, q0, p0);
                                let j = item.next_slot(pos as int);
                                assert(all == done.push(x) + item_ops(item, path, j + 1) + all_ops(paths, k + 1)) by {
                                    assert(done + (seq![x] + item_ops(item, path, j + 1)) + all_ops(paths, k + 1)
                                        =~= done.push(x) + item_ops(item, path, j + 1) + all_ops(paths, k + 1));
                                }
                                assert(all[i] == x);
                            }
                            let o = match cdata.compile_operation(op_type, &mut stack, &mut request_bodies, &mut response_bodies) {
                                Ok(o) => o,
                                Err(e) => {
                                    assert(op_spec(d, x, s0, q0, p0) is None);
                                    return Err(e);
                                },
                            };
                            let ghost before = operations@;
                            let ghost ob = op_bodies(o);
                            operations.push(o);
                            proof {
                                assert(op_keys(operations@) =~= op_keys(before).push((op_type, path)));
                                assert(ops_bodies(operations@) =~= ops_bodies(before).push(ob));
                                done = done.push(x);
                                assert(doc_keys(done) =~= doc_keys(done.drop_last()).push((op_type, path)));
                                assert(done.drop_last() =~= done.subrange(0, i));
                                match fold_ops(d, all, i + 1, stack.model(), request_bodies.model(), response_bodies.model()) {
                                    Some((l, c, q, p)) => {
                                        assert(ops_bodies(before) + (seq![ob] + l) =~= ops_bodies(before).push(ob) + l);
                                    },
                                    None => {},
                                }
                            }
                        },
                    }
                }
                proof {
                    assert(item_ops(item, path, it.pos as int) == Seq::<DocOp<'a>>::empty());
                    assert(done + all_ops(paths, k + 1) =~= done + item_ops(item, path, it.pos as int) + all_ops(paths, k + 1));
                }
                k = k + 1;
            }
            assert(done =~= done + all_ops(paths, k as int));
        },
    }
    proof {
        if d.paths is None {
            assert(done =~= all);
        }
        assert(done == all);
        assert(ops_bodies(operations@) + Seq::<OpBodies<'a>>::empty() =~= ops_bodies(operations@));
    }
    let schemas = stack.done();
    Ok(Compiled { request_bodies, response_bodies, schemas, operations })
}

} // verus!
