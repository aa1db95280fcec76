//! Parameters of an operation, resolved through the components section.
use crate::schema::components::Components;
use crate::schema::parameter::{Name as SchemaParameterName, Parameter as SchemaParameter, ParameterOrReference, Place};
use crate::schema::reference::Reference as SchemaReference;
use crate::schema::sref::{after_prefix, parameters_prefix};
use crate::text::same_text;
use vstd::prelude::*;

verus! {

#[derive(Debug)]
pub struct Parameter<'a> {
    pub schema_param: &'a SchemaParameter,
}

#[derive(Debug)]
pub enum Error<'a> {
    WrongParameterReference(&'a SchemaReference),
    PathParameterNotDefined,
    NotDefinedAsPathParameter,
}

/// Which parameters a group holds.
#[derive(Debug, Clone, Copy, PartialEq, Eq)]
pub enum ParamGroup {
    Query,
    Header,
    Cookie,
}

pub open spec fn in_group(p: &SchemaParameter, g: ParamGroup) -> bool {
    match g {
        ParamGroup::Query => p.place is Query,
        ParamGroup::Header => p.place is Header,
        ParamGroup::Cookie => p.place is Cookie,
    }
}

/// The parameters of an operation and of its path item.
pub struct CompileData<'a> {
    pub op_parameters: &'a Option<Vec<ParameterOrReference>>,
    pub item_parameters: &'a Option<Vec<ParameterOrReference>>,
    pub components: &'a Option<Components>,
}

/// The parameter a reference points to, if any.
pub open spec fn ref_target<'a>(r: &'a SchemaReference, comps: &'a Option<Components>) -> Option<&'a SchemaParameter> {
    match after_prefix(r.sref@, parameters_prefix()) {
        Some(n) => match comps {
            Some(c) => c.parameter_at(n, 0),
            None => None,
        },
        None => None,
    }
}

pub open spec fn resolved<'a>(p: &'a ParameterOrReference, comps: &'a Option<Components>) -> Option<&'a SchemaParameter> {
    match p {
        ParameterOrReference::Parameter(x) => Some(x),
        ParameterOrReference::Reference(r) => ref_target(r, comps),
    }
}

/// The first parameter from the `i`-th on that resolves and is named `name`.
pub open spec fn first_named<'a>(
    ps: &'a Vec<ParameterOrReference>,
    i: int,
    comps: &'a Option<Components>,
    name: Seq<char>,
) -> Option<&'a SchemaParameter>
    decreases ps@.len() - i,
{
    if i < 0 || i >= ps@.len() {
        None
    } else {
        match resolved(&ps@[i], comps) {
            Some(p) => if p.name@ == name {
                Some(p)
            } else {
                first_named(ps, i + 1, comps, name)
            },
            None => first_named(ps, i + 1, comps, name),
        }
    }
}

pub proof fn lemma_first_named<'a>(
    ps: &'a Vec<ParameterOrReference>,
    i: int,
    comps: &'a Option<Components>,
    name: Seq<char>,
)
    ensures
        first_named(ps, i, comps, name) matches Some(p) ==> p.name@ == name,
    decreases ps@.len() - i,
{
    if 0 <= i < ps@.len() {
        lemma_first_named(ps, i + 1, comps, name);
    }
}

pub open spec fn names_of<'a>(ps: Seq<&'a SchemaParameter>) -> Seq<Seq<char>> {
    ps.map_values(|p: &'a SchemaParameter| p.name@)
}

/// The parameters from the `i`-th on that belong to group `g` and whose names
/// are not in `exclude`, or the first reference that does not resolve.
pub open spec fn group_from<'a>(
    ps: &'a Vec<ParameterOrReference>,
    i: int,
    comps: &'a Option<Components>,
    g: ParamGroup,
    exclude: Seq<Seq<char>>,
) -> Result<Seq<&'a SchemaParameter>, &'a SchemaReference>
    decreases ps@.len() - i,
{
    if i < 0 || i >= ps@.len() {
        Ok(Seq::empty())
    } else {
        match &ps@[i] {
            ParameterOrReference::Reference(r) if ref_target(r, comps) is None => Err(r),
            p => {
                let q = resolved(p, comps)->Some_0;
                if in_group(q, g) && !exclude.contains(q.name@) {
                    match group_from(ps, i + 1, comps, g, exclude) {
                        Ok(l) => Ok(seq![q] + l),
                        Err(r) => Err(r),
                    }
                } else {
                    group_from(ps, i + 1, comps, g, exclude)
                }
            },
        }
    }
}

pub open spec fn group_of<'a>(
    ps: &'a Option<Vec<ParameterOrReference>>,
    comps: &'a Option<Components>,
    g: ParamGroup,
    exclude: Seq<Seq<char>>,
) -> Result<Seq<&'a SchemaParameter>, &'a SchemaReference> {
    match ps {
        Some(v) => group_from(v, 0, comps, g, exclude),
        None => Ok(Seq::empty()),
    }
}

/// The parameters of group `g`: the operation's own, then the path item's
/// that the operation does not override by name.
pub open spec fn params_by_group<'a>(
    op: &'a Option<Vec<ParameterOrReference>>,
    item: &'a Option<Vec<ParameterOrReference>>,
    comps: &'a Option<Components>,
    g: ParamGroup,
) -> Result<Seq<&'a SchemaParameter>, &'a SchemaReference> {
    match group_of(op, comps, g, Seq::empty()) {
        Err(r) => Err(r),
        Ok(own) => match group_of(item, comps, g, names_of(own)) {
            Err(r) => Err(r),
            Ok(inherited) => Ok(own + inherited),
        },
    }
}

pub open spec fn params_of<'a>(ps: Seq<Parameter<'a>>) -> Seq<&'a SchemaParameter> {
    ps.map_values(|p: Parameter<'a>| p.schema_param)
}

impl<'a> CompileData<'a> {
    /// The path parameter named `pname`: looked up among the operation's
    /// parameters, then the path item's.
    pub open spec fn path_parameter(&self, pname: Seq<char>) -> Option<&'a SchemaParameter> {
        let own = match self.op_parameters {
            Some(v) => first_named(v, 0, self.components, pname),
            None => None,
        };
        if own is Some {
            own
        } else {
            match self.item_parameters {
                Some(v) => first_named(v, 0, self.components, pname),
                None => None,
            }
        }
    }

    pub proof fn lemma_path_parameter_named(&self, pname: Seq<char>)
        ensures
            self.path_parameter(pname) matches Some(p) ==> p.name@ == pname,
    {
        match self.op_parameters {
            Some(v) => lemma_first_named(v, 0, self.components, pname),
            None => {},
        }
        match self.item_parameters {
            Some(v) => lemma_first_named(v, 0, self.components, pname),
            None => {},
        }
    }

    pub fn find_param_by_ref(&self, r: &'a SchemaReference) -> (p: Option<&'a SchemaParameter>)
        ensures
            p == ref_target(r, self.components),
    {
        match r.sref.parameter_sref() {
            Some(n) => match self.components {
                Some(c) => c.find_parameter(&n),
                None => None,
            },
            None => None,
        }
    }

    fn resolve(&self, p: &'a ParameterOrReference) -> (r: Option<&'a SchemaParameter>)
        ensures
            r == resolved(p, self.components),
    {
        match p {
            ParameterOrReference::Parameter(x) => Some(x),
            ParameterOrReference::Reference(r) => self.find_param_by_ref(r),
        }
    }

    fn find_named(&self, ps: &'a Vec<ParameterOrReference>, pname: &str) -> (r: Option<&'a SchemaParameter>)
        ensures
            r == first_named(ps, 0, self.components, pname@),
    {
        let mut i: usize = 0;
        while i < ps.len()
            invariant
                i <= ps@.len(),
                first_named(ps, 0, self.components, pname@) == first_named(ps, i as int, self.components, pname@),
            decreases ps@.len() - i,
        {
            match self.resolve(&ps[i]) {
                Some(p) => {
                    if same_text(p.name.as_str(), pname) {
                        return Some(p);
                    }
                },
                None => {},
            }
            i = i + 1;
        }
        None
    }

    pub fn resolve_path_parameter(&self, pname: &SchemaParameterName) -> (r: Option<&'a SchemaParameter>)
        ensures
            r == self.path_parameter(pname@),
    {
        let own = match self.op_parameters {
            Some(v) => self.find_named(v, pname.as_str()),
            None => None,
        };
        if own.is_some() {
            own
        } else {
            match self.item_parameters {
                Some(v) => self.find_named(v, pname.as_str()),
                None => None,
            }
        }
    }

    /// The path parameter named `name`, which must be declared `in: path`.
    pub fn compile_path_parameter(&self, name: &SchemaParameterName) -> (r: Result<(&'a SchemaParameterName, Parameter<'a>), Error<'a>>)
        ensures
            match self.path_parameter(name@) {
                None => r matches Err(Error::PathParameterNotDefined),
                Some(p) => if p.place is Path {
                    r matches Ok((n, q)) && n == &p.name && q.schema_param == p
                } else {
                    r matches Err(Error::NotDefinedAsPathParameter)
                },
            },
    {
        match self.resolve_path_parameter(name) {
            None => Err(Error::PathParameterNotDefined),
            Some(p) => match p.place {
                Place::Path(_) => Ok((&p.name, Parameter { schema_param: p })),
                _ => Err(Error::NotDefinedAsPathParameter),
            },
        }
    }

    fn in_group_exec(p: &SchemaParameter, g: ParamGroup) -> (r: bool)
        ensures
            r == in_group(p, g),
    {
        match g {
            ParamGroup::Query => p.is_query(),
            ParamGroup::Header => p.is_header(),
            ParamGroup::Cookie => p.is_cookie(),
        }
    }

    fn collect_group(
        &self,
        ps: &'a Option<Vec<ParameterOrReference>>,
        g: ParamGroup,
        exclude: &Vec<&'a SchemaParameter>,
    ) -> (r: Result<Vec<&'a SchemaParameter>, &'a SchemaReference>)
        ensures
            match r {
                Ok(v) => group_of(ps, self.components, g, names_of(exclude@)) == Ok::<_, &'a SchemaReference>(v@),
                Err(x) => group_of(ps, self.components, g, names_of(exclude@)) == Err::<Seq<&'a SchemaParameter>, _>(x),
            },
    {
        let mut out: Vec<&'a SchemaParameter> = Vec::new();
        let v = match ps {
            None => return Ok(out),
            Some(v) => v,
        };
        let ghost ex = names_of(exclude@);
        let mut i: usize = 0;
        while i < v.len()
            invariant
                i <= v@.len(),
                *ps == Some(*v),
                ex == names_of(exclude@),
                group_from(v, 0, self.components, g, ex) == match group_from(v, i as int, self.components, g, ex) {
                    Ok(l) => Ok::<_, &'a SchemaReference>(out@ + l),
                    Err(x) => Err(x),
                },
            decreases v@.len() - i,
        {
            let item = &v[i];
            let q = match item {
                ParameterOrReference::Parameter(x) => x,
                ParameterOrReference::Reference(x) => match self.find_param_by_ref(x) {
                    Some(q) => q,
                    None => return Err(x),
                },
            };
            let mut excluded = false;
            let mut j: usize = 0;
            while j < exclude.len()
                invariant
                    j <= exclude@.len(),
                    ex == names_of(exclude@),
                    excluded == (exists|k: int| 0 <= k < j && ex[k] == q.name@),
                decreases exclude@.len() - j,
            {
                assert(ex[j as int] == exclude@[j as int].name@);
                if same_text(exclude[j].name.as_str(), q.name.as_str()) {
                    excluded = true;
                }
                assert(excluded == (exists|k: int| 0 <= k < j + 1 && ex[k] == q.name@)) by {
                    if excluded && !(exists|k: int| 0 <= k < j && ex[k] == q.name@) {
                        assert(ex[j as int] == q.name@);
                    }
                }
                j = j + 1;
            }
            proof {
                assert(excluded == ex.contains(q.name@));
            }
            let ghost before = out@;
            if Self::in_group_exec(q, g) && !excluded {
                out.push(q);
                proof {
                    match group_from(v, i + 1, self.components, g, ex) {
                        Ok(l) => {
                            assert(before + (seq![q] + l) =~= before.push(q) + l);
                        },
                        Err(_) => {},
                    }
                }
            }
            i = i + 1;
        }
        assert(out@ + Seq::<&'a SchemaParameter>::empty() =~= out@);
        Ok(out)
    }

    /// The parameters of group `g`, in order: the operation's own, then those
    /// of the path item that the operation does not override by name.
    pub fn compile_params_by_group(&self, g: ParamGroup) -> (r: Result<Vec<Parameter<'a>>, Error<'a>>)
        ensures
            match params_by_group(self.op_parameters, self.item_parameters, self.components, g) {
                Ok(l) => r matches Ok(v) && params_of(v@) == l,
                Err(x) => r matches Err(Error::WrongParameterReference(y)) && x == y,
            },
    {
        let none: Vec<&'a SchemaParameter> = Vec::new();
        proof {
            assert(names_of(none@) =~= Seq::<Seq<char>>::empty());
        }
        let own = match self.collect_group(self.op_parameters, g, &none) {
            Ok(v) => v,
            Err(x) => return Err(Error::WrongParameterReference(x)),
        };
        let inherited = match self.collect_group(self.item_parameters, g, &own) {
            Ok(v) => v,
            Err(x) => return Err(Error::WrongParameterReference(x)),
        };
        let ghost all = own@ + inherited@;
        let mut out: Vec<Parameter<'a>> = Vec::new();
        let mut i: usize = 0;
        while i < own.len()
            invariant
                i <= own@.len(),
                params_of(out@) =~= own@.subrange(0, i as int),
            decreases own@.len() - i,
        {
            let ghost before = out@;
            out.push(Parameter { schema_param: own[i] });
            assert(params_of(out@) =~= params_of(before).push(own@[i as int]));
            assert(own@.subrange(0, i + 1) =~= own@.subrange(0, i as int).push(own@[i as int]));
            i = i + 1;
        }
        let mut k: usize = 0;
        while k < inherited.len()
            invariant
                k <= inherited@.len(),
                params_of(out@) =~= own@ + inherited@.subrange(0, k as int),
            decreases inherited@.len() - k,
        {
            let ghost before = out@;
            out.push(Parameter { schema_param: inherited[k] });
            assert(params_of(out@) =~= params_of(before).push(inherited@[k as int]));
            assert(own@ + inherited@.subrange(0, k + 1) =~= (own@ + inherited@.subrange(0, k as int)).push(inherited@[k as int]));
            k = k + 1;
        }
        assert(inherited@.subrange(0, inherited@.len() as int) =~= inherited@);
        Ok(out)
    }
}

} // verus!
