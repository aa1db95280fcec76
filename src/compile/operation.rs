//! Compilation of one operation: its parameters, request body and responses.
use crate::compile::parameter::{
    params_by_group, params_of, CompileData as ParameterCompileData, Error as ParameterError,
    ParamGroup, Parameter,
};
use crate::compile::request_body::{
    compile_body, request_step, BodiesModel, BodyRef, Error as RequestBodyError, Frames,
    RequestBodies, RequestBodyOrReference,
};
use crate::compile::response_body::{
    compile_response, response_step, Error as ResponseBodyError, ResponseBodies,
    ResponseBodyOrReference,
};
use crate::schema::response::ResponseOrReference as SchemaResponseOrReference;
use crate::compile::stack::Stack;
use crate::schema::components::Components;
use crate::schema::http_status_code::HttpStatusCode;
use crate::schema::operation::Operation as SchemaOperation;
use crate::schema::parameter::Name as SchemaParameterName;
use crate::schema::path::{param_step, ParamStep, Path, PathParseError};
use crate::schema::path_item::{OperationType, PathItem};
use crate::text::{index_of, lemma_index_of_bounds};
use vstd::prelude::*;

verus! {

#[derive(Debug)]
pub struct Operation<'a> {
    pub op_type: OperationType,
    pub path: &'a Path,
    /// The parameters named in the path, in the order they appear there.
    pub path_params: Vec<(&'a SchemaParameterName, Parameter<'a>)>,
    pub query_params: Vec<Parameter<'a>>,
    pub header_params: Vec<Parameter<'a>>,
    pub cookie_params: Vec<Parameter<'a>>,
    pub request_body_or_ref: Option<RequestBodyOrReference<'a>>,
    pub request_responses: Responses<'a>,
}

#[derive(Debug)]
pub struct Responses<'a> {
    pub default: Option<ResponseBodyOrReference<'a>>,
    pub codes: Vec<(&'a HttpStatusCode, ResponseBodyOrReference<'a>)>,
}

#[derive(Debug)]
pub enum Error<'a> {
    PathParameter(&'a Path, SchemaParameterName, ParameterError<'a>),
    QueryParameter(&'a Path, ParameterError<'a>),
    HeaderParameter(&'a Path, ParameterError<'a>),
    CookieParameter(&'a Path, ParameterError<'a>),
    PathParseError(&'a Path, PathParseError),
    RequestBodyCompile(&'a Path, OperationType, RequestBodyError<'a>),
    ResponseBodyCompile(&'a Path, OperationType, ResponseBodyError<'a>),
    ResponseCodeCompilation(&'a Path, OperationType, &'a HttpStatusCode, Box<Error<'a>>),
}

/// An operation together with the path it belongs to.
pub struct CompileData<'a> {
    pub path: &'a Path,
    pub item: &'a PathItem,
    pub op: &'a SchemaOperation,
    pub components: &'a Option<Components>,
}

/// Why the path parameters of an operation cannot be resolved: an unclosed
/// `{` at a position, or a name and what is wrong with it.
pub enum PathFault<'a> {
    Unclosed(int),
    Param(Seq<char>, ParameterError<'a>),
}

/// What is wrong with the path parameter `n`, if anything.
pub open spec fn path_check<'a>(params: ParameterCompileData<'a>, n: Seq<char>) -> Option<ParameterError<'a>> {
    match params.path_parameter(n) {
        None => Some(ParameterError::PathParameterNotDefined),
        Some(p) => if p.place is Path {
            None
        } else {
            Some(ParameterError::NotDefinedAsPathParameter)
        },
    }
}

/// The names between braces in `s` from position `pos` on, in order, each
/// checked as it is met; the first fault ends the scan.
pub open spec fn scan_path<'a>(params: ParameterCompileData<'a>, s: Seq<char>, pos: int) -> Result<Seq<Seq<char>>, PathFault<'a>>
    decreases s.len() + 1 - pos,
{
    match param_step(s, pos) {
        ParamStep::End => Ok(Seq::empty()),
        ParamStep::Unclosed(at) => Err(PathFault::Unclosed(at)),
        ParamStep::Name(n, next) => match path_check(params, n) {
            Some(pe) => Err(PathFault::Param(n, pe)),
            None => if next <= pos || next > s.len() {
                Ok(Seq::empty())
            } else {
                match scan_path(params, s, next) {
                    Ok(l) => Ok(seq![n] + l),
                    Err(f) => Err(f),
                }
            },
        },
    }
}

pub open spec fn path_param_names<'a>(ps: Seq<(&'a SchemaParameterName, Parameter<'a>)>) -> Seq<Seq<char>> {
    ps.map_values(|e: (&'a SchemaParameterName, Parameter<'a>)| e.0@)
}

/// Models of the responses by code.
pub open spec fn codes_model<'a>(codes: Seq<(&'a HttpStatusCode, ResponseBodyOrReference<'a>)>) -> Seq<BodyRef<'a>> {
    codes.map_values(|c: (&'a HttpStatusCode, ResponseBodyOrReference<'a>)| c.1.model())
}

/// Compiling the responses by status code from the `i`-th on, in order.
pub open spec fn codes_from<'a>(
    path: &'a Path,
    op_type: OperationType,
    comps: &'a Option<Components>,
    chain: Frames<'a>,
    resps: BodiesModel<'a>,
    codes: &'a Vec<(HttpStatusCode, SchemaResponseOrReference)>,
    i: int,
) -> Result<(Seq<BodyRef<'a>>, Frames<'a>, BodiesModel<'a>), Error<'a>>
    decreases codes@.len() - i,
{
    if i < 0 || i >= codes@.len() {
        Ok((Seq::empty(), chain, resps))
    } else {
        match response_step(comps, chain, resps, &codes@[i].1) {
            Err(e) => Err(
                Error::ResponseCodeCompilation(
                    path,
                    op_type,
                    &codes@[i].0,
                    Box::new(Error::ResponseBodyCompile(path, op_type, e)),
                ),
            ),
            Ok((m, c, p)) => match codes_from(path, op_type, comps, c, p, codes, i + 1) {
                Ok((l, c2, p2)) => Ok((seq![m] + l, c2, p2)),
                Err(e) => Err(e),
            },
        }
    }
}

pub open spec fn opt_body_model<'a>(b: Option<RequestBodyOrReference<'a>>) -> Option<BodyRef<'a>> {
    match b {
        Some(x) => Some(x.model()),
        None => None,
    }
}

pub open spec fn opt_response_model<'a>(b: Option<ResponseBodyOrReference<'a>>) -> Option<BodyRef<'a>> {
    match b {
        Some(x) => Some(x.model()),
        None => None,
    }
}

/// What compiling the bodies of an operation yields: the request body, the
/// default response, the responses by code, then the scope chain, request
/// bodies and responses after them.
pub type BodiesOutcome<'a> = (Option<BodyRef<'a>>, Option<BodyRef<'a>>, Seq<BodyRef<'a>>, Frames<'a>, BodiesModel<'a>, BodiesModel<'a>);

impl<'a> CompileData<'a> {
    /// What follows the path parameters: the query, header and cookie
    /// parameter groups must resolve, then the bodies compile.
    pub open spec fn rest_spec(
        &self,
        op_type: OperationType,
        chain: Frames<'a>,
        reqs: BodiesModel<'a>,
        resps: BodiesModel<'a>,
    ) -> Result<BodiesOutcome<'a>, Error<'a>> {
        let ps = &self.op.parameters;
        let is = &self.item.parameters;
        match params_by_group(ps, is, self.components, ParamGroup::Query) {
            Err(x) => Err(Error::QueryParameter(self.path, ParameterError::WrongParameterReference(x))),
            Ok(_) => match params_by_group(ps, is, self.components, ParamGroup::Header) {
                Err(x) => Err(Error::HeaderParameter(self.path, ParameterError::WrongParameterReference(x))),
                Ok(_) => match params_by_group(ps, is, self.components, ParamGroup::Cookie) {
                    Err(x) => Err(Error::CookieParameter(self.path, ParameterError::WrongParameterReference(x))),
                    Ok(_) => self.bodies_spec(op_type, chain, reqs, resps),
                },
            },
        }
    }

    /// Compiling the request body, then the default response, then the
    /// responses by code, each step seeing what the steps before recorded.
    pub open spec fn bodies_spec(
        &self,
        op_type: OperationType,
        chain: Frames<'a>,
        reqs: BodiesModel<'a>,
        resps: BodiesModel<'a>,
    ) -> Result<BodiesOutcome<'a>, Error<'a>> {
        let rb: Result<(Option<BodyRef<'a>>, Frames<'a>, BodiesModel<'a>), Error<'a>> = match &self.op.request_body {
            None => Ok((None, chain, reqs)),
            Some(b) => match request_step(self.components, chain, reqs, b) {
                Ok((m, c, q)) => Ok((Some(m), c, q)),
                Err(e) => Err(Error::RequestBodyCompile(self.path, op_type, e)),
            },
        };
        match rb {
            Err(e) => Err(e),
            Ok((bm, c1, q1)) => match &self.op.responses {
                None => Ok((bm, None, Seq::empty(), c1, q1, resps)),
                Some(rs) => {
                    let d: Result<(Option<BodyRef<'a>>, Frames<'a>, BodiesModel<'a>), Error<'a>> = match &rs.default {
                        None => Ok((None, c1, resps)),
                        Some(x) => match response_step(self.components, c1, resps, x) {
                            Ok((m, c, p)) => Ok((Some(m), c, p)),
                            Err(e) => Err(Error::ResponseBodyCompile(self.path, op_type, e)),
                        },
                    };
                    match d {
                        Err(e) => Err(e),
                        Ok((dm, c2, p2)) => match codes_from(self.path, op_type, self.components, c2, p2, &rs.codes, 0) {
                            Ok((cs, c3, p3)) => Ok((bm, dm, cs, c3, q1, p3)),
                            Err(e) => Err(e),
                        },
                    }
                },
            },
        }
    }

    pub open spec fn parameters(&self) -> ParameterCompileData<'a> {
        ParameterCompileData {
            op_parameters: &self.op.parameters,
            item_parameters: &self.item.parameters,
            components: self.components,
        }
    }

    /// Compiles the operation.  The named types its bodies introduce join the
    /// innermost scope of `stack`; bodies and responses compiled by name join
    /// `request_bodies` and `response_bodies`, and are not compiled again.
    pub fn compile_operation(
        &self,
        op_type: OperationType,
        stack: &mut Stack<'a>,
        request_bodies: &mut RequestBodies<'a>,
        response_bodies: &mut ResponseBodies<'a>,
    ) -> (r: Result<Operation<'a>, Error<'a>>)
        requires
            old(stack).model().len() > 0,
        ensures
            final(stack).model().len() == old(stack).model().len(),
            final(stack).model().drop_last() == old(stack).model().drop_last(),
            r is Err && (r->Err_0 is RequestBodyCompile || r->Err_0 is ResponseBodyCompile
                || r->Err_0 is ResponseCodeCompilation) ==> self.bodies_spec(
                op_type,
                old(stack).model(),
                old(request_bodies).model(),
                old(response_bodies).model(),
            ) == Err::<BodiesOutcome<'a>, Error<'a>>(r->Err_0),
            match scan_path(self.parameters(), self.path@, 0) {
                Err(PathFault::Unclosed(at)) => r matches Err(
                    Error::PathParseError(p, PathParseError::CannotFindCloseBrackets(t, i)),
                ) && p == self.path && t@ == self.path@ && i == at,
                Err(PathFault::Param(n, pe)) => r matches Err(Error::PathParameter(p, m, e)) && p == self.path
                    && m@ == n && e == pe,
                Ok(names) => match self.rest_spec(
                    op_type,
                    old(stack).model(),
                    old(request_bodies).model(),
                    old(response_bodies).model(),
                ) {
                    Err(e) => r matches Err(x) && x == e,
                    Ok(_) => r matches Ok(o) && path_param_names(o.path_params@) == names,
                },
            },
            r matches Ok(o) ==> {
                &&& o.op_type == op_type
                &&& o.path == self.path
                &&& forall|i: int| 0 <= i < o.path_params@.len() ==> {
                    let (n, p) = #[trigger] o.path_params@[i];
                    self.parameters().path_parameter(n@) == Some(p.schema_param)
                        && p.schema_param.place is Path
                }
                &&& params_by_group(&self.op.parameters, &self.item.parameters, self.components, ParamGroup::Query) matches Ok(l)
                    && params_of(o.query_params@) == l
                &&& params_by_group(&self.op.parameters, &self.item.parameters, self.components, ParamGroup::Header) matches Ok(l)
                    && params_of(o.header_params@) == l
                &&& params_by_group(&self.op.parameters, &self.item.parameters, self.components, ParamGroup::Cookie) matches Ok(l)
                    && params_of(o.cookie_params@) == l
                &&& self.bodies_spec(op_type, old(stack).model(), old(request_bodies).model(), old(response_bodies).model())
                    matches Ok((bm, dm, cs, c, q, p))
                    && opt_body_model(o.request_body_or_ref) == bm
                    && opt_response_model(o.request_responses.default) == dm
                    && codes_model(o.request_responses.codes@) == cs
                    && final(stack).model() == c
                    && final(request_bodies).model() == q
                    && final(response_bodies).model() == p
                &&& forall|i: int| 0 <= i < o.request_responses.codes@.len() ==> (self.op.responses matches Some(rs)
                    && i < rs.codes@.len() && #[trigger] o.request_responses.codes@[i].0 == &rs.codes@[i].0)
            },
    {
        let params = ParameterCompileData {
            op_parameters: &self.op.parameters,
            item_parameters: &self.item.parameters,
            components: self.components,
        };
        let ghost base = stack.model();
        let mut path_params: Vec<(&'a SchemaParameterName, Parameter<'a>)> = Vec::new();
        let mut it = self.path.path_params_iter();
        let ghost len = self.path@.len();
        loop
            invariant
                it.data == self.path,
                it.pos <= len + 1,
                len == self.path@.len(),
                params == self.parameters(),
                scan_path(params, self.path@, 0) == match scan_path(params, self.path@, it.pos as int) {
                    Ok(l) => Ok::<_, PathFault<'a>>(path_param_names(path_params@) + l),
                    Err(f) => Err(f),
                },
                forall|i: int| 0 <= i < path_params@.len() ==> {
                    let (n, p) = #[trigger] path_params@[i];
                    params.path_parameter(n@) == Some(p.schema_param) && p.schema_param.place is Path
                },
            ensures
                scan_path(params, self.path@, 0) == Ok::<_, PathFault<'a>>(path_param_names(path_params@)),
            decreases len + 1 - it.pos,
        {
            let ghost before = it.pos;
            proof {
                lemma_index_of_bounds(self.path@, '{', before as int);
                let st = index_of(self.path@, '{', before as int);
                if st >= 0 {
                    lemma_index_of_bounds(self.path@, '}', st);
                }
            }
            match it.next() {
                None => {
                    assert(path_param_names(path_params@) + Seq::<Seq<char>>::empty() =~= path_param_names(path_params@));
                    break;
                },
                Some(Err(e)) => return Err(Error::PathParseError(self.path, e)),
                Some(Ok(name)) => {
                    let pname = SchemaParameterName::new(name);
                    proof {
                        params.lemma_path_parameter_named(pname@);
                    }
                    let ghost seen = path_params@;
                    match params.compile_path_parameter(&pname) {
                        Ok(entry) => {
                            path_params.push(entry);
                            proof {
                                assert(path_param_names(path_params@) =~= path_param_names(seen).push(pname@));
                                match scan_path(params, self.path@, it.pos as int) {
                                    Ok(l) => {
                                        assert(path_param_names(seen) + (seq![pname@] + l) =~= path_param_names(seen).push(pname@) + l);
                                    },
                                    Err(_) => {},
                                }
                            }
                        },
                        Err(e) => return Err(Error::PathParameter(self.path, pname, e)),
                    }
                },
            }
        }
        let query_params = match params.compile_params_by_group(ParamGroup::Query) {
            Ok(v) => v,
            Err(e) => return Err(Error::QueryParameter(self.path, e)),
        };
        let header_params = match params.compile_params_by_group(ParamGroup::Header) {
            Ok(v) => v,
            Err(e) => return Err(Error::HeaderParameter(self.path, e)),
        };
        let cookie_params = match params.compile_params_by_group(ParamGroup::Cookie) {
            Ok(v) => v,
            Err(e) => return Err(Error::CookieParameter(self.path, e)),
        };
        let ghost reqs0 = request_bodies.model();
        let ghost resps0 = response_bodies.model();
        assert(stack.model() == base);
        let request_body_or_ref = match &self.op.request_body {
            None => None,
            Some(b) => match compile_body(self.components, stack, request_bodies, b) {
                Ok(res) => {
                    let v = res.aggregate(request_bodies, stack);
                    assert(request_step(self.components, base, reqs0, b) == Ok::<_, RequestBodyError<'a>>(
                        (v.model(), stack.model(), request_bodies.model()),
                    ));
                    Some(v)
                },
                Err(e) => return Err(Error::RequestBodyCompile(self.path, op_type, e)),
            },
        };
        let ghost c1 = stack.model();
        let ghost q1 = request_bodies.model();
        let mut default = None;
        let mut codes: Vec<(&'a HttpStatusCode, ResponseBodyOrReference<'a>)> = Vec::new();
        match &self.op.responses {
            None => {},
            Some(rs) => {
                match &rs.default {
                    None => {},
                    Some(d) => match compile_response(self.components, stack, response_bodies, d) {
                        Ok(res) => {
                            let v = res.aggregate(response_bodies, stack);
                            assert(response_step(self.components, c1, resps0, d) == Ok::<_, ResponseBodyError<'a>>(
                                (v.model(), stack.model(), response_bodies.model()),
                            ));
                            default = Some(v);
                        },
                        Err(e) => return Err(Error::ResponseBodyCompile(self.path, op_type, e)),
                    },
                }
                let ghost c2 = stack.model();
                let ghost p2 = response_bodies.model();
                let ghost bm = opt_body_model(request_body_or_ref);
                let ghost dm = opt_response_model(default);
                assert(self.bodies_spec(op_type, base, reqs0, resps0) == match codes_from(self.path, op_type, self.components, c2, p2, &rs.codes, 0) {
                    Ok((cs, c3, p3)) => Ok::<BodiesOutcome<'a>, Error<'a>>((bm, dm, cs, c3, q1, p3)),
                    Err(e) => Err(e),
                });
                let mut i: usize = 0;
                assert(codes_model(codes@) =~= Seq::<BodyRef<'a>>::empty());
                assert(codes_model(codes@) + Seq::<BodyRef<'a>>::empty() =~= Seq::<BodyRef<'a>>::empty());
                while i < rs.codes.len()
                    invariant
                        i <= rs.codes@.len(),
                        self.op.responses == Some(*rs),
                        stack.model().len() == base.len(),
                        base == old(stack).model(),
                        base.len() > 0,
                        stack.model().drop_last() == base.drop_last(),
                        request_bodies.model() == q1,
                        reqs0 == old(request_bodies).model(),
                        resps0 == old(response_bodies).model(),
                        params == self.parameters(),
                        scan_path(params, self.path@, 0) is Ok,
                        self.rest_spec(op_type, base, reqs0, resps0) == self.bodies_spec(op_type, base, reqs0, resps0),
                        self.bodies_spec(op_type, base, reqs0, resps0) == match codes_from(self.path, op_type, self.components, c2, p2, &rs.codes, 0) {
                            Ok((cs, c3, p3)) => Ok::<BodiesOutcome<'a>, Error<'a>>((bm, dm, cs, c3, q1, p3)),
                            Err(e) => Err(e),
                        },
                        codes@.len() == i,
                        forall|j: int| 0 <= j < i ==> #[trigger] codes@[j].0 == &rs.codes@[j].0,
                        codes_from(self.path, op_type, self.components, c2, p2, &rs.codes, 0) == match codes_from(
                            self.path,
                            op_type,
                            self.components,
                            stack.model(),
                            response_bodies.model(),
                            &rs.codes,
                            i as int,
                        ) {
                            Ok((l, c, p)) => Ok::<_, Error<'a>>((codes_model(codes@) + l, c, p)),
                            Err(e) => Err(e),
                        },
                    decreases rs.codes@.len() - i,
                {
                    let entry = &rs.codes[i];
                    let ghost cs0 = stack.model();
                    let ghost ps0 = response_bodies.model();
                    let ghost before = codes@;
                    match compile_response(self.components, stack, response_bodies, &entry.1) {
                        Ok(res) => {
                            let v = res.aggregate(response_bodies, stack);
                            assert(response_step(self.components, cs0, ps0, &entry.1) == Ok::<_, ResponseBodyError<'a>>(
                                (v.model(), stack.model(), response_bodies.model()),
                            ));
                            let ghost vm = v.model();
                            codes.push((&entry.0, v));
                            proof {
                                assert(codes_model(codes@) =~= codes_model(before).push(vm));
                                match codes_from(self.path, op_type, self.components, stack.model(), response_bodies.model(), &rs.codes, i + 1) {
                                    Ok((l, c, p)) => {
                                        assert(codes_model(before) + (seq![vm] + l) =~= codes_model(before).push(vm) + l);
                                    },
                                    Err(_) => {},
                                }
                            }
                        },
                        Err(e) => return Err(
                            Error::ResponseCodeCompilation(
                                self.path,
                                op_type,
                                &entry.0,
                                Box::new(Error::ResponseBodyCompile(self.path, op_type, e)),
                            ),
                        ),
                    }
                    i = i + 1;
                }
                assert(codes_model(codes@) + Seq::<BodyRef<'a>>::empty() =~= codes_model(codes@));
            },
        }
        Ok(
            Operation {
                op_type,
                path: self.path,
                path_params,
                query_params,
                header_params,
                cookie_params,
                request_body_or_ref,
                request_responses: Responses { default, codes },
            },
        )
    }
}

} // verus!
