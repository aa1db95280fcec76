//! Properties of the compiler, proved over `compile_spec` and the models of
//! the operation layer.
use crate::compile::data_type::{NormalShape, Shape, Type, TypeRef};
use crate::compile::schema_compiler::{
    actual_spec, array_spec, child, compile_spec, members_spec, no_schemas, props_spec, ref_spec,
    referenced_object, Chain, Error,
};
use crate::compile::stack::{chain_contains, has_key, insert_model, merge_model, SchemasModel};
use crate::schema::components::{entry_of, Components};
use crate::schema::data_type::{
    ActualType as SchemaActualType, Array as SchemaArray, DataType as SchemaDataType,
    MaybeNullableTypeSchema, NullableTypeSchema, NullalbleTypeSchema,
};
use crate::schema::sref::{after_prefix, schema_key_of, schemas_prefix, SchemaKey};
use crate::compile::operation::{codes_from, CompileData};
use crate::compile::request_body::{
    json_schema, merged_top, opt_components, request_step, BodiesModel, BodyRef, Error as RequestBodyError, Frames,
};
use crate::compile::response_body::response_step;
use crate::schema::http_status_code::HttpStatusCode;
use crate::schema::path::Path;
use crate::schema::path_item::OperationType;
use crate::schema::request_body::RequestBodyOrReference as SchemaRequestBodyOrReference;
use crate::schema::response::ResponseOrReference as SchemaResponseOrReference;
use crate::text::index_of;
use vstd::prelude::*;

verus! {

/// The pointer to the whole schema `name`.
pub open spec fn schema_pointer(name: Seq<char>) -> Seq<char> {
    schemas_prefix() + name
}

/// The pointer to property `prop` of the schema `name`.
pub open spec fn property_pointer(name: Seq<char>, prop: Seq<char>) -> Seq<char> {
    schemas_prefix() + name + "/properties/"@ + prop
}

/// A name without `/`.
pub open spec fn plain_name(name: Seq<char>) -> bool {
    forall|i: int| 0 <= i < name.len() ==> name[i] != '/'
}

/// Whether `sdt` is a reference whose pointer text is `p`.
pub open spec fn is_reference_to(sdt: &SchemaDataType, p: Seq<char>) -> bool {
    sdt matches SchemaDataType::Reference(r) && r.sref@ == p
}

/// A boolean, integer, number or string definition, nullable or not.
pub open spec fn is_scalar(sdt: &SchemaDataType) -> bool {
    match sdt {
        SchemaDataType::ActualType(at) => match &at.type_schema {
            MaybeNullableTypeSchema::Normal(t) => t is Boolean || t is Integer || t is Number || t is String,
            MaybeNullableTypeSchema::Nullable(n) => n.schema is Boolean || n.schema is Integer
                || n.schema is Number || n.schema is String,
            _ => false,
        },
        _ => false,
    }
}

proof fn lemma_no_char_index(s: Seq<char>, c: char, from: int)
    requires
        0 <= from,
        forall|i: int| from <= i < s.len() ==> s[i] != c,
    ensures
        index_of(s, c, from) == -1,
    decreases s.len() - from,
{
    if from < s.len() {
        lemma_no_char_index(s, c, from + 1);
    }
}

proof fn lemma_char_index(s: Seq<char>, c: char, from: int, k: int)
    requires
        0 <= from <= k < s.len(),
        s[k] == c,
        forall|i: int| from <= i < k ==> s[i] != c,
    ensures
        index_of(s, c, from) == k,
    decreases k - from,
{
    if from < k {
        lemma_char_index(s, c, from + 1, k);
    }
}

proof fn lemma_schema_pointer(name: Seq<char>)
    requires
        plain_name(name),
    ensures
        after_prefix(schema_pointer(name), schemas_prefix()) == Some(name),
        schema_key_of(name) == Some(SchemaKey::Whole(name)),
{
    let p = schema_pointer(name);
    assert(schemas_prefix() =~= p.subrange(0, schemas_prefix().len() as int));
    assert(p.subrange(schemas_prefix().len() as int, p.len() as int) =~= name);
    lemma_no_char_index(name, '/', 0);
}

proof fn lemma_property_pointer(name: Seq<char>, prop: Seq<char>)
    requires
        plain_name(name),
        plain_name(prop),
    ensures
        after_prefix(property_pointer(name, prop), schemas_prefix()) == Some(
            name + "/properties/"@ + prop,
        ),
        schema_key_of(name + "/properties/"@ + prop) == Some(SchemaKey::Property(name, prop)),
{
    reveal_strlit("/properties/");
    reveal_strlit("properties");
    let p = property_pointer(name, prop);
    let t = name + "/properties/"@ + prop;
    assert(p =~= schemas_prefix() + t);
    assert(schemas_prefix() =~= p.subrange(0, schemas_prefix().len() as int));
    assert(p.subrange(schemas_prefix().len() as int, p.len() as int) =~= t);
    let n = name.len() as int;
    lemma_char_index(t, '/', 0, n);
    lemma_char_index(t, '/', n + 1, n + 11);
    lemma_no_char_index(t, '/', n + 12);
    assert(t.subrange(n + 1, n + 11) =~= "properties"@);
    assert(t.subrange(0, n) =~= name);
    assert(t.subrange(n + 12, t.len() as int) =~= prop);
}

/// A scalar compiles to itself, whatever the scope chain and within the
/// depth bound, and introduces nothing.
pub proof fn law_scalar_is_context_free<'a>(
    sdt: &'a SchemaDataType,
    comps: Option<&'a Components>,
    chain1: Chain<'a>,
    depth1: int,
    chain2: Chain<'a>,
    depth2: int,
)
    requires
        is_scalar(sdt),
        depth1 <= 1024,
        depth2 <= 1024,
    ensures
        compile_spec(sdt, comps, chain1, depth1) == compile_spec(sdt, comps, chain2, depth2),
        compile_spec(sdt, comps, chain1, depth1) matches Ok((TypeRef::Inline(_), s)) && s == no_schemas::<'a>(),
{
}

/// `nullable: true` on a scalar gives the nullable variant of its shape;
/// without it, the normal variant.
pub proof fn law_nullable_is_distinct<'a>(
    sdt: &'a SchemaDataType,
    comps: Option<&'a Components>,
    chain: Chain<'a>,
    depth: int,
)
    requires
        is_scalar(sdt),
        depth <= 1024,
    ensures
        match sdt {
            SchemaDataType::ActualType(at) => match &at.type_schema {
                MaybeNullableTypeSchema::Nullable(_) => compile_spec(sdt, comps, chain, depth) matches Ok((TypeRef::Inline(Type::Actual(Shape::Nullable(_), _, _)), _)),
                _ => compile_spec(sdt, comps, chain, depth) matches Ok((TypeRef::Inline(Type::Actual(Shape::Normal(_), _, _)), _)),
            },
            _ => false,
        },
{
}

/// A whole-schema reference to a name that the scope chain holds (being
/// expanded, or compiled earlier) is emitted as that name and introduces
/// nothing, whatever the registry holds: a cycle ends there, and a compiled
/// schema is not expanded again.
pub proof fn law_known_name_is_reused<'a>(
    sdt: &'a SchemaDataType,
    comps: Option<&'a Components>,
    chain: Chain<'a>,
    depth: int,
    name: Seq<char>,
)
    requires
        0 <= depth <= 1024,
        is_reference_to(sdt, schema_pointer(name)),
        plain_name(name),
        chain_contains(chain, name),
    ensures
        compile_spec(sdt, comps, chain, depth) == Ok::<(TypeRef<'a>, SchemasModel<'a>), Error<'a>>(
            (TypeRef::Named(name), no_schemas()),
        ),
{
    lemma_schema_pointer(name);
}

/// An object schema whose only property refers back to the schema itself
/// compiles to one entry: the object, whose property is a reference to it.
pub proof fn law_self_reference<'a>(
    sdt: &'a SchemaDataType,
    c: &'a Components,
    chain: Chain<'a>,
    depth: int,
    name: Seq<char>,
)
    requires
        0 <= depth <= 1022,
        is_reference_to(sdt, schema_pointer(name)),
        plain_name(name),
        !chain_contains(chain, name),
        c.schema_entry(name) matches Some(e) && e.1 matches SchemaDataType::ActualType(at)
            && at.type_schema matches MaybeNullableTypeSchema::Object(o) && o.properties matches Some(ps)
            && ps@.len() == 1 && is_reference_to(&ps@[0].1, schema_pointer(name)),
    ensures
        c.schema_entry(name) matches Some(e) && e.1 matches SchemaDataType::ActualType(at)
            && at.type_schema matches MaybeNullableTypeSchema::Object(o) && o.properties matches Some(ps)
            && compile_spec(sdt, Some(c), chain, depth) == Ok::<(TypeRef<'a>, SchemasModel<'a>), Error<'a>>(
            (
                TypeRef::Named(name),
                seq![(name, Type::Actual(Shape::Normal(NormalShape::Object(seq![(ps@[0].0@, TypeRef::Named(name))])), false, false))],
            ),
        ),
{
    lemma_schema_pointer(name);
    let e = c.schema_entry(name).unwrap();
    let at = e.1->ActualType_0;
    let o = at.type_schema->Object_0;
    let ps = o.properties.unwrap();
    let inner = child(child(chain, Some(name), no_schemas()), None, no_schemas());
    assert(chain_contains(inner, name)) by {
        assert(inner[inner.len() - 2].0 == Some(name));
    }
    law_known_name_is_reused(&ps@[0].1, Some(c), inner, depth + 2, name);
    assert(merge_model(no_schemas::<'a>(), no_schemas()) == no_schemas::<'a>());
    assert(props_spec(&ps, 1, no_schemas(), Some(c), child(chain, Some(name), no_schemas()), depth + 1)
        == Ok::<(Seq<(Seq<char>, TypeRef<'a>)>, SchemasModel<'a>), Error<'a>>((Seq::empty(), no_schemas())));
    assert(seq![(ps@[0].0@, TypeRef::Named(name))] + Seq::<(Seq<char>, TypeRef<'a>)>::empty() =~= seq![(ps@[0].0@, TypeRef::Named(name))]);
    let l = seq![(ps@[0].0@, TypeRef::Named(name))];
    let t = Type::Actual(Shape::Normal(NormalShape::Object(l)), false, false);
    let c1 = child(chain, Some(name), no_schemas());
    assert(props_spec(&ps, 0, no_schemas(), Some(c), c1, depth + 1)
        == Ok::<(Seq<(Seq<char>, TypeRef<'a>)>, SchemasModel<'a>), Error<'a>>((l, no_schemas())));
    assert(crate::compile::schema_compiler::object_spec(&o, Some(c), c1, depth + 1)
        == Ok::<(Seq<(Seq<char>, TypeRef<'a>)>, SchemasModel<'a>), Error<'a>>((l, no_schemas())));
    assert(actual_spec(&*at, Some(c), c1, depth + 1)
        == Ok::<(TypeRef<'a>, SchemasModel<'a>), Error<'a>>((TypeRef::Inline(t), no_schemas())));
    assert(compile_spec(&e.1, Some(c), c1, depth + 1)
        == Ok::<(TypeRef<'a>, SchemasModel<'a>), Error<'a>>((TypeRef::Inline(t), no_schemas())));
    assert(insert_model(no_schemas::<'a>(), name, t) =~= seq![(name, t)]);
    assert(ref_spec(&sdt->Reference_0, Some(c), chain, depth)
        == Ok::<(TypeRef<'a>, SchemasModel<'a>), Error<'a>>((TypeRef::Named(name), seq![(name, t)])));
}

/// A whole-schema reference compiles to a reference or fails.
pub proof fn law_whole_reference_is_named<'a>(
    sdt: &'a SchemaDataType,
    comps: Option<&'a Components>,
    chain: Chain<'a>,
    depth: int,
    name: Seq<char>,
)
    requires
        is_reference_to(sdt, schema_pointer(name)),
        plain_name(name),
    ensures
        compile_spec(sdt, comps, chain, depth) is Err || compile_spec(sdt, comps, chain, depth) matches Ok(
            (TypeRef::Named(_), _),
        ),
{
    lemma_schema_pointer(name);
}

/// A schema whose body is only a reference to another schema gets no entry
/// of its own: a reference to it compiles as its body does, that is to a
/// reference to where the alias chain ends (a failure is wrapped with its name).
pub proof fn law_alias_collapses<'a>(
    sdt: &'a SchemaDataType,
    c: &'a Components,
    chain: Chain<'a>,
    depth: int,
    a: Seq<char>,
    b: Seq<char>,
)
    requires
        0 <= depth <= 1023,
        is_reference_to(sdt, schema_pointer(a)),
        plain_name(a),
        plain_name(b),
        !chain_contains(chain, a),
        c.schema_entry(a) matches Some(e) && is_reference_to(&e.1, schema_pointer(b)),
    ensures
        c.schema_entry(a) matches Some(e) && compile_spec(sdt, Some(c), chain, depth) == match compile_spec(
            &e.1,
            Some(c),
            child(chain, Some(a), no_schemas()),
            depth + 1,
        ) {
            Ok(x) => Ok(x),
            Err(err) => Err(Error::SchemaCompilation(&e.0, Box::new(err))),
        },
        compile_spec(sdt, Some(c), chain, depth) is Err || compile_spec(sdt, Some(c), chain, depth) matches Ok(
            (TypeRef::Named(_), _),
        ),
{
    lemma_schema_pointer(a);
    let e = c.schema_entry(a).unwrap();
    law_whole_reference_is_named(&e.1, Some(c), child(chain, Some(a), no_schemas()), depth + 1, b);
}

/// A reference to a scalar property of an object schema compiles exactly as
/// that property would in place, and introduces no entry.
pub proof fn law_property_reference<'a>(
    sdt: &'a SchemaDataType,
    c: &'a Components,
    chain: Chain<'a>,
    depth: int,
    name: Seq<char>,
    prop: Seq<char>,
)
    requires
        0 <= depth <= 1023,
        is_reference_to(sdt, property_pointer(name, prop)),
        plain_name(name),
        plain_name(prop),
        c.schema_entry(name) matches Some(e) && referenced_object(&e.1) matches Some(o)
            && o.properties matches Some(ps) && entry_of(&ps, prop) matches Some(p) && is_scalar(&p.1),
    ensures
        c.schema_entry(name) matches Some(e) && referenced_object(&e.1) matches Some(o)
            && o.properties matches Some(ps) && entry_of(&ps, prop) matches Some(p)
            && compile_spec(sdt, Some(c), chain, depth) == compile_spec(&p.1, Some(c), chain, depth),
        compile_spec(sdt, Some(c), chain, depth) matches Ok((TypeRef::Inline(_), s)) && s == no_schemas::<'a>(),
{
    lemma_property_pointer(name, prop);
    let e = c.schema_entry(name).unwrap();
    let o = referenced_object(&e.1).unwrap();
    let ps = o.properties.unwrap();
    let p = entry_of(&ps, prop).unwrap();
    law_scalar_is_context_free(&p.1, Some(c), chain, depth, child(chain, Some(name), no_schemas()), depth + 1);
}

/// `k` arrays, each the item type of the next, around `leaf`.
pub open spec fn nested_arrays(leaf: SchemaDataType, k: nat) -> SchemaDataType
    decreases k,
{
    if k == 0 {
        leaf
    } else {
        SchemaDataType::ActualType(
            Box::new(
                SchemaActualType {
                    type_schema: MaybeNullableTypeSchema::Array(
                        SchemaArray { items: Some(Box::new(nested_arrays(leaf, (k - 1) as nat))) },
                    ),
                    readonly: false,
                    writeonly: false,
                },
            ),
        )
    }
}

/// `k` nullable arrays, each the item type of the next, around `leaf`.
pub open spec fn nested_nullable_arrays(leaf: SchemaDataType, k: nat) -> SchemaDataType
    decreases k,
{
    if k == 0 {
        leaf
    } else {
        SchemaDataType::ActualType(
            Box::new(
                SchemaActualType {
                    type_schema: MaybeNullableTypeSchema::Nullable(
                        NullableTypeSchema {
                            nullable: crate::typing::AlwaysTrue {  },
                            schema: NullalbleTypeSchema::Array(
                                SchemaArray { items: Some(Box::new(nested_nullable_arrays(leaf, (k - 1) as nat))) },
                            ),
                        },
                    ),
                    readonly: false,
                    writeonly: false,
                },
            ),
        )
    }
}

/// The innermost cause of an error.
pub open spec fn root_cause<'a>(e: Error<'a>) -> Error<'a>
    decreases e,
{
    match e {
        Error::SchemaCompilation(_, b) => root_cause(*b),
        Error::PropertyCompilation(_, b) => root_cause(*b),
        Error::ArrayItemCompilation(b) => root_cause(*b),
        _ => e,
    }
}

/// Arrays nested `k` deep around a scalar, compiled at `depth`, succeed when
/// `depth + k` is at most the bound and fail with `MaxDepthReached` beyond.
pub proof fn law_depth_bound<'a>(
    leaf: &'a SchemaDataType,
    k: nat,
    comps: Option<&'a Components>,
    chain: Chain<'a>,
    depth: int,
)
    requires
        is_scalar(leaf),
        0 <= depth,
    ensures
        depth + k <= 1024 ==> compile_spec(&nested_arrays(*leaf, k), comps, chain, depth) is Ok,
        depth + k > 1024 ==> (compile_spec(&nested_arrays(*leaf, k), comps, chain, depth) matches Err(e)
            && root_cause(e) is MaxDepthReached),
    decreases k,
{
    if k > 0 && depth <= 1024 {
        let inner = nested_arrays(*leaf, (k - 1) as nat);
        law_depth_bound(leaf, (k - 1) as nat, comps, child(chain, None, no_schemas()), depth + 1);
        let node = nested_arrays(*leaf, k);
        let at = node->ActualType_0;
        let arr = at.type_schema->Array_0;
        assert(arr.items == Some(Box::new(inner)));
        assert(array_spec(&arr, comps, chain, depth) matches Ok(_) <==> compile_spec(&inner, comps, child(chain, None, no_schemas()), depth + 1) matches Ok(_));
    }
}

/// Binding a key keeps every key and adds the new one.
pub proof fn lemma_insert_keys<'a>(a: SchemasModel<'a>, k: Seq<char>, v: Type<'a>, x: Seq<char>)
    ensures
        has_key(insert_model(a, k, v), x) <==> (has_key(a, x) || x == k),
{
    crate::compile::stack::lemma_model_key_index(a, k, 0);
    let m = insert_model(a, k, v);
    if has_key(a, x) {
        let j = choose|j: int| 0 <= j < a.len() && #[trigger] a[j].0 == x;
        assert(m[j].0 == x);
    }
    if x == k {
        let i = crate::compile::stack::model_key_index(a, k, 0);
        if i >= 0 {
            assert(m[i].0 == x);
        } else {
            assert(m[a.len() as int].0 == x);
        }
    }
    if has_key(m, x) {
        let j = choose|j: int| 0 <= j < m.len() && #[trigger] m[j].0 == x;
        if j < a.len() && x != k {
            assert(a[j].0 == x);
        }
    }
}

/// Merging keeps the keys of both sides.
pub proof fn lemma_merge_keys<'a>(a: SchemasModel<'a>, b: SchemasModel<'a>, x: Seq<char>)
    ensures
        has_key(merge_model(a, b), x) <==> (has_key(a, x) || has_key(b, x)),
    decreases b.len(),
{
    if b.len() > 0 {
        lemma_insert_keys(a, b[0].0, b[0].1, x);
        lemma_merge_keys(insert_model(a, b[0].0, b[0].1), b.drop_first(), x);
        if has_key(b, x) {
            let j = choose|j: int| 0 <= j < b.len() && #[trigger] b[j].0 == x;
            if j > 0 {
                assert(b.drop_first()[j - 1].0 == x);
            }
        }
        if has_key(b.drop_first(), x) {
            let j = choose|j: int| 0 <= j < b.len() - 1 && #[trigger] b.drop_first()[j].0 == x;
            assert(b[j + 1].0 == x);
        }
    }
}

/// The members of a combinator compile in order: one result per member.
pub proof fn law_members_in_order<'a>(
    ms: &'a Vec<SchemaDataType>,
    i: int,
    acc: SchemasModel<'a>,
    comps: Option<&'a Components>,
    chain: Chain<'a>,
    depth: int,
)
    requires
        0 <= i <= ms@.len(),
    ensures
        members_spec(ms, i, acc, comps, chain, depth) is Ok ==> members_spec(ms, i, acc, comps, chain, depth)->Ok_0.0.len() == ms@.len() - i,
    decreases ms@.len() - i,
{
    if i < ms@.len() && depth <= 1024 {
        match compile_spec(&ms@[i], comps, child(chain, None, acc), depth + 1) {
            Ok((t, s)) => law_members_in_order(ms, i + 1, merge_model(acc, s), comps, chain, depth),
            Err(_) => {},
        }
    }
}

/// In a combinator, a member that refers to a schema introduced by the
/// member before it gets a reference to that schema, which is not expanded
/// again.
pub proof fn law_member_reuses_earlier<'a>(
    ms: &'a Vec<SchemaDataType>,
    i: int,
    acc: SchemasModel<'a>,
    c: &'a Components,
    chain: Chain<'a>,
    depth: int,
    name: Seq<char>,
)
    requires
        0 <= depth <= 1023,
        0 <= i,
        i + 1 < ms@.len(),
        plain_name(name),
        is_reference_to(&ms@[i + 1], schema_pointer(name)),
        c.schema_entry(name) is Some,
        compile_spec(&ms@[i], Some(c), child(chain, None, acc), depth + 1) matches Ok((_, s)) && has_key(s, name),
    ensures
        compile_spec(&ms@[i], Some(c), child(chain, None, acc), depth + 1) matches Ok((_, s))
            && compile_spec(&ms@[i + 1], Some(c), child(chain, None, merge_model(acc, s)), depth + 1)
            == Ok::<(TypeRef<'a>, SchemasModel<'a>), Error<'a>>((TypeRef::Named(name), no_schemas())),
{
    let s = compile_spec(&ms@[i], Some(c), child(chain, None, acc), depth + 1)->Ok_0.1;
    lemma_merge_keys(acc, s, name);
    let ch = child(chain, None, merge_model(acc, s));
    assert(has_key(ch[ch.len() - 1].1, name));
    assert(ch[ch.len() - 1].0 == None::<Seq<char>> || has_key(ch[ch.len() - 1].1, name));
    law_known_name_is_reused(&ms@[i + 1], Some(c), ch, depth + 1, name);
}

/// Each name at most once.
pub open spec fn names_unique<'a>(s: SchemasModel<'a>) -> bool {
    forall|i: int, j: int| 0 <= i < j < s.len() ==> s[i].0 != s[j].0
}

/// Binding a name in a set that holds each name once keeps each name once.
pub proof fn law_insert_keeps_names_unique<'a>(a: SchemasModel<'a>, k: Seq<char>, v: Type<'a>)
    requires
        names_unique(a),
    ensures
        names_unique(insert_model(a, k, v)),
{
    crate::compile::stack::lemma_model_key_index(a, k, 0);
    let m = insert_model(a, k, v);
    assert forall|i: int, j: int| 0 <= i < j < m.len() implies m[i].0 != m[j].0 by {
        if j == a.len() {
            assert(m[j].0 == k);
            assert(a[i].0 != k);
        }
    }
}

/// Merging any set into one that holds each name once keeps each name
/// once: a schema reached from many operations has a single entry in the
/// final map, which starts empty and grows by merges only.
pub proof fn law_merge_keeps_names_unique<'a>(a: SchemasModel<'a>, b: SchemasModel<'a>)
    requires
        names_unique(a),
    ensures
        names_unique(merge_model(a, b)),
    decreases b.len(),
{
    if b.len() > 0 {
        law_insert_keeps_names_unique(a, b[0].0, b[0].1);
        law_merge_keeps_names_unique(insert_model(a, b[0].0, b[0].1), b.drop_first());
    }
}

/// Merging into the innermost frame keeps each name once there.
pub proof fn lemma_merged_top_unique<'a>(chain: Frames<'a>, s: SchemasModel<'a>)
    requires
        chain.len() > 0,
        names_unique(chain.last().1),
    ensures
        merged_top(chain, s).len() == chain.len(),
        names_unique(merged_top(chain, s).last().1),
{
    law_merge_keeps_names_unique(chain.last().1, s);
}

/// Each name once in the innermost frame, before and after recording a request body.
pub proof fn lemma_request_step_unique<'a>(
    comps: &'a Option<Components>,
    chain: Frames<'a>,
    bodies: BodiesModel<'a>,
    sbody: &'a SchemaRequestBodyOrReference,
)
    requires
        chain.len() > 0,
        names_unique(chain.last().1),
    ensures
        request_step(comps, chain, bodies, sbody) matches Ok((_, c, _)) ==> c.len() == chain.len() && names_unique(c.last().1),
{
    match request_step(comps, chain, bodies, sbody) {
        Ok((_, c, _)) => {
            if c != chain {
                let s = choose|s: SchemasModel<'a>| c == merged_top(chain, s);
                lemma_merged_top_unique(chain, s);
            }
        },
        Err(_) => {},
    }
}

/// Each name once in the innermost frame, before and after recording a response.
pub proof fn lemma_response_step_unique<'a>(
    comps: &'a Option<Components>,
    chain: Frames<'a>,
    bodies: BodiesModel<'a>,
    sresp: &'a SchemaResponseOrReference,
)
    requires
        chain.len() > 0,
        names_unique(chain.last().1),
    ensures
        response_step(comps, chain, bodies, sresp) matches Ok((_, c, _)) ==> c.len() == chain.len() && names_unique(c.last().1),
{
    match response_step(comps, chain, bodies, sresp) {
        Ok((_, c, _)) => {
            if c != chain {
                let s = choose|s: SchemasModel<'a>| c == merged_top(chain, s);
                lemma_merged_top_unique(chain, s);
            }
        },
        Err(_) => {},
    }
}

pub proof fn lemma_codes_unique<'a>(
    path: &'a Path,
    op_type: OperationType,
    comps: &'a Option<Components>,
    chain: Frames<'a>,
    resps: BodiesModel<'a>,
    codes: &'a Vec<(HttpStatusCode, SchemaResponseOrReference)>,
    i: int,
)
    requires
        chain.len() > 0,
        names_unique(chain.last().1),
    ensures
        codes_from(path, op_type, comps, chain, resps, codes, i) matches Ok((_, c, _)) ==> c.len() == chain.len() && names_unique(c.last().1),
    decreases codes@.len() - i,
{
    if 0 <= i < codes@.len() {
        lemma_response_step_unique(comps, chain, resps, &codes@[i].1);
        match response_step(comps, chain, resps, &codes@[i].1) {
            Ok((_, c, p)) => lemma_codes_unique(path, op_type, comps, c, p, codes, i + 1),
            Err(_) => {},
        }
    }
}

/// Compiling the bodies of an operation keeps each name once in the
/// innermost frame of the scope chain.
pub proof fn lemma_bodies_unique<'a>(
    d: CompileData<'a>,
    op_type: OperationType,
    chain: Frames<'a>,
    reqs: BodiesModel<'a>,
    resps: BodiesModel<'a>,
)
    requires
        chain.len() > 0,
        names_unique(chain.last().1),
    ensures
        d.bodies_spec(op_type, chain, reqs, resps) matches Ok((_, _, _, c, _, _)) ==> c.len() == chain.len() && names_unique(c.last().1),
{
    let c1 = match &d.op.request_body {
        Some(b) => {
            lemma_request_step_unique(d.components, chain, reqs, b);
            match request_step(d.components, chain, reqs, b) {
                Ok((_, c, _)) => c,
                Err(_) => chain,
            }
        },
        None => chain,
    };
    match &d.op.responses {
        None => {},
        Some(rs) => {
            let (c2, p2) = match &rs.default {
                Some(x) => {
                    lemma_response_step_unique(d.components, c1, resps, x);
                    match response_step(d.components, c1, resps, x) {
                        Ok((_, c, p)) => (c, p),
                        Err(_) => (c1, resps),
                    }
                },
                None => (c1, resps),
            };
            lemma_codes_unique(d.path, op_type, d.components, c2, p2, &rs.codes, 0);
        },
    }
}

/// The depth bound holds for nullable arrays too: `k` of them around a
/// scalar, compiled at `depth`, succeed when `depth + k` is at most the bound
/// and fail with `MaxDepthReached` beyond.
pub proof fn law_depth_bound_nullable<'a>(
    leaf: &'a SchemaDataType,
    k: nat,
    comps: Option<&'a Components>,
    chain: Chain<'a>,
    depth: int,
)
    requires
        is_scalar(leaf),
        0 <= depth,
    ensures
        depth + k <= 1024 ==> compile_spec(&nested_nullable_arrays(*leaf, k), comps, chain, depth) is Ok,
        depth + k > 1024 ==> (compile_spec(&nested_nullable_arrays(*leaf, k), comps, chain, depth) matches Err(e)
            && root_cause(e) is MaxDepthReached),
    decreases k,
{
    if k > 0 && depth <= 1024 {
        let inner = nested_nullable_arrays(*leaf, (k - 1) as nat);
        law_depth_bound_nullable(leaf, (k - 1) as nat, comps, child(chain, None, no_schemas()), depth + 1);
        let node = nested_nullable_arrays(*leaf, k);
        let at = node->ActualType_0;
        let arr = at.type_schema->Nullable_0.schema->Array_0;
        assert(arr.items == Some(Box::new(inner)));
        assert(array_spec(&arr, comps, chain, depth) matches Ok(_) <==> compile_spec(&inner, comps, child(chain, None, no_schemas()), depth + 1) matches Ok(_));
    }
}

/// An alias `a` of a schema `b` that is not yet in the chain: the reference
/// to `a` is a reference to `b`, `b` gets its entry, and `a` gets none.
pub proof fn law_alias_target_entry<'a>(
    sdt: &'a SchemaDataType,
    c: &'a Components,
    chain: Chain<'a>,
    depth: int,
    a: Seq<char>,
    b: Seq<char>,
)
    requires
        0 <= depth <= 1022,
        a != b,
        is_reference_to(sdt, schema_pointer(a)),
        plain_name(a),
        plain_name(b),
        !chain_contains(chain, a),
        !chain_contains(child(chain, Some(a), no_schemas()), b),
        c.schema_entry(a) matches Some(e) && is_reference_to(&e.1, schema_pointer(b)),
        c.schema_entry(b) matches Some(f) && compile_spec(
            &f.1,
            Some(c),
            child(child(chain, Some(a), no_schemas()), Some(b), no_schemas()),
            depth + 2,
        ) matches Ok((TypeRef::Inline(_), s)) && !has_key(s, a),
    ensures
        compile_spec(sdt, Some(c), chain, depth) matches Ok((TypeRef::Named(n), s)) && n == b && has_key(s, b)
            && !has_key(s, a),
{
    lemma_schema_pointer(a);
    lemma_schema_pointer(b);
    let e = c.schema_entry(a).unwrap();
    let f = c.schema_entry(b).unwrap();
    let ch = child(chain, Some(a), no_schemas());
    let (t, s) = compile_spec(&f.1, Some(c), child(ch, Some(b), no_schemas()), depth + 2)->Ok_0;
    let t = t->Inline_0;
    lemma_insert_keys(s, b, t, a);
    lemma_insert_keys(s, b, t, b);
    assert(compile_spec(&e.1, Some(c), ch, depth + 1) == Ok::<(TypeRef<'a>, SchemasModel<'a>), Error<'a>>(
        (TypeRef::Named(b), insert_model(s, b, t)),
    ));
}

/// A reference to a schema `name` not in the chain, whose body is an object
/// with one property: the property is compiled below a scope tagged `name`,
/// and the object is promoted under `name` after what the property introduced.
pub proof fn lemma_single_property_schema<'a>(
    sdt: &'a SchemaDataType,
    c: &'a Components,
    chain: Chain<'a>,
    depth: int,
    name: Seq<char>,
)
    requires
        0 <= depth <= 1022,
        is_reference_to(sdt, schema_pointer(name)),
        plain_name(name),
        !chain_contains(chain, name),
        c.schema_entry(name) matches Some(e) && e.1 matches SchemaDataType::ActualType(at)
            && at.type_schema matches MaybeNullableTypeSchema::Object(o) && o.properties matches Some(ps)
            && ps@.len() == 1,
    ensures
        c.schema_entry(name) matches Some(e) && e.1 matches SchemaDataType::ActualType(at)
            && at.type_schema matches MaybeNullableTypeSchema::Object(o) && o.properties matches Some(ps)
            && match compile_spec(
            &ps@[0].1,
            Some(c),
            child(child(chain, Some(name), no_schemas()), None, no_schemas()),
            depth + 2,
        ) {
            Ok((tp, sp)) => compile_spec(sdt, Some(c), chain, depth) == Ok::<(TypeRef<'a>, SchemasModel<'a>), Error<'a>>(
                (
                    TypeRef::Named(name),
                    insert_model(
                        merge_model(no_schemas(), sp),
                        name,
                        Type::Actual(Shape::Normal(NormalShape::Object(seq![(ps@[0].0@, tp)])), false, false),
                    ),
                ),
            ),
            Err(_) => compile_spec(sdt, Some(c), chain, depth) is Err,
        },
{
    lemma_schema_pointer(name);
    let e = c.schema_entry(name).unwrap();
    let at = e.1->ActualType_0;
    let o = at.type_schema->Object_0;
    let ps = o.properties.unwrap();
    let c1 = child(chain, Some(name), no_schemas());
    match compile_spec(&ps@[0].1, Some(c), child(c1, None, no_schemas()), depth + 2) {
        Ok((tp, sp)) => {
            let acc = merge_model(no_schemas::<'a>(), sp);
            assert(props_spec(&ps, 1, acc, Some(c), c1, depth + 1)
                == Ok::<(Seq<(Seq<char>, TypeRef<'a>)>, SchemasModel<'a>), Error<'a>>((Seq::empty(), acc)));
            let l = seq![(ps@[0].0@, tp)];
            assert(l + Seq::<(Seq<char>, TypeRef<'a>)>::empty() =~= l);
            assert(props_spec(&ps, 0, no_schemas(), Some(c), c1, depth + 1)
                == Ok::<(Seq<(Seq<char>, TypeRef<'a>)>, SchemasModel<'a>), Error<'a>>((l, acc)));
            let t = Type::Actual(Shape::Normal(NormalShape::Object(l)), false, false);
            assert(crate::compile::schema_compiler::object_spec(&o, Some(c), c1, depth + 1)
                == Ok::<(Seq<(Seq<char>, TypeRef<'a>)>, SchemasModel<'a>), Error<'a>>((l, acc)));
            assert(actual_spec(&*at, Some(c), c1, depth + 1)
                == Ok::<(TypeRef<'a>, SchemasModel<'a>), Error<'a>>((TypeRef::Inline(t), acc)));
            assert(compile_spec(&e.1, Some(c), c1, depth + 1)
                == Ok::<(TypeRef<'a>, SchemasModel<'a>), Error<'a>>((TypeRef::Inline(t), acc)));
            assert(ref_spec(&sdt->Reference_0, Some(c), chain, depth)
                == Ok::<(TypeRef<'a>, SchemasModel<'a>), Error<'a>>((TypeRef::Named(name), insert_model(acc, name, t))));
        },
        Err(err) => {
            assert(props_spec(&ps, 0, no_schemas(), Some(c), c1, depth + 1) is Err);
            assert(crate::compile::schema_compiler::object_spec(&o, Some(c), c1, depth + 1) is Err);
            assert(actual_spec(&*at, Some(c), c1, depth + 1) is Err);
            assert(compile_spec(&e.1, Some(c), c1, depth + 1) is Err);
        },
    }
}

/// Two object schemas that refer to each other (`a` has one property
/// referring to `b`, `b` one referring to `a`) compile from a reference to
/// `a` into two entries, `b` then `a`; `b`'s property refers back to `a`.
pub proof fn law_mutual_reference<'a>(
    sdt: &'a SchemaDataType,
    c: &'a Components,
    chain: Chain<'a>,
    depth: int,
    a: Seq<char>,
    b: Seq<char>,
)
    requires
        0 <= depth <= 1020,
        a != b,
        is_reference_to(sdt, schema_pointer(a)),
        plain_name(a),
        plain_name(b),
        !chain_contains(chain, a),
        !chain_contains(chain, b),
        c.schema_entry(a) matches Some(e) && e.1 matches SchemaDataType::ActualType(at)
            && at.type_schema matches MaybeNullableTypeSchema::Object(o) && o.properties matches Some(ps)
            && ps@.len() == 1 && is_reference_to(&ps@[0].1, schema_pointer(b)),
        c.schema_entry(b) matches Some(e) && e.1 matches SchemaDataType::ActualType(at)
            && at.type_schema matches MaybeNullableTypeSchema::Object(o) && o.properties matches Some(ps)
            && ps@.len() == 1 && is_reference_to(&ps@[0].1, schema_pointer(a)),
    ensures
        c.schema_entry(a) matches Some(ea) && ea.1 matches SchemaDataType::ActualType(ata)
            && ata.type_schema matches MaybeNullableTypeSchema::Object(oa) && oa.properties matches Some(psa)
            && c.schema_entry(b) matches Some(eb) && eb.1 matches SchemaDataType::ActualType(atb)
            && atb.type_schema matches MaybeNullableTypeSchema::Object(ob) && ob.properties matches Some(psb)
            && compile_spec(sdt, Some(c), chain, depth) == Ok::<(TypeRef<'a>, SchemasModel<'a>), Error<'a>>(
            (
                TypeRef::Named(a),
                seq![
                    (b, Type::Actual(Shape::Normal(NormalShape::Object(seq![(psb@[0].0@, TypeRef::Named(a))])), false, false)),
                    (a, Type::Actual(Shape::Normal(NormalShape::Object(seq![(psa@[0].0@, TypeRef::Named(b))])), false, false)),
                ],
            ),
        ),
{
    let ea = c.schema_entry(a).unwrap();
    let psa = ea.1->ActualType_0.type_schema->Object_0.properties.unwrap();
    let eb = c.schema_entry(b).unwrap();
    let psb = eb.1->ActualType_0.type_schema->Object_0.properties.unwrap();
    let ch1 = child(chain, Some(a), no_schemas());
    let ch2 = child(ch1, None, no_schemas());
    assert(!chain_contains(ch2, b)) by {
        assert forall|i: int| 0 <= i < ch2.len() implies !(#[trigger] ch2[i].0 == Some(b) || has_key(ch2[i].1, b)) by {
            if i >= chain.len() {
                assert(!has_key(ch2[i].1, b));
            } else {
                assert(ch2[i] == chain[i]);
            }
        }
    }
    let ch3 = child(ch2, Some(b), no_schemas());
    let ch4 = child(ch3, None, no_schemas());
    assert(chain_contains(ch4, a)) by {
        assert(ch4[chain.len() as int].0 == Some(a));
    }
    law_known_name_is_reused(&psb@[0].1, Some(c), ch4, depth + 4, a);
    lemma_single_property_schema(&psa@[0].1, c, ch2, depth + 2, b);
    lemma_single_property_schema(sdt, c, chain, depth, a);
    let tb = Type::Actual(Shape::Normal(NormalShape::Object(seq![(psb@[0].0@, TypeRef::Named(a))])), false, false);
    let ta = Type::Actual(Shape::Normal(NormalShape::Object(seq![(psa@[0].0@, TypeRef::Named(b))])), false, false);
    assert(merge_model(no_schemas::<'a>(), no_schemas()) == no_schemas::<'a>());
    assert(insert_model(no_schemas::<'a>(), b, tb) =~= seq![(b, tb)]);
    let sb = seq![(b, tb)];
    assert(sb.drop_first() =~= no_schemas::<'a>());
    assert(insert_model(no_schemas::<'a>(), sb[0].0, sb[0].1) =~= sb);
    assert(merge_model(sb, no_schemas::<'a>()) == sb);
    assert(merge_model(no_schemas::<'a>(), sb) == merge_model(sb, sb.drop_first()));
    assert(merge_model(no_schemas::<'a>(), sb) == sb);
    crate::compile::stack::lemma_model_key_index(sb, a, 0);
    assert(insert_model(sb, a, ta) =~= seq![(b, tb), (a, ta)]);
}

/// Across operations: a request body written in place whose JSON schema is
/// a reference to a schema the scope chain already holds (compiled by an
/// earlier operation, say) compiles to a reference to it, and records
/// nothing new.
pub proof fn law_body_reuses_known_schema<'a>(
    comps: &'a Option<Components>,
    chain: Frames<'a>,
    reqs: BodiesModel<'a>,
    sbody: &'a SchemaRequestBodyOrReference,
    name: Seq<char>,
)
    requires
        chain.len() > 0,
        plain_name(name),
        chain_contains(chain, name),
        sbody matches SchemaRequestBodyOrReference::RequestBody(b) && json_schema(&b.content) matches Some(sdt)
            && is_reference_to(sdt, schema_pointer(name)),
    ensures
        request_step(comps, chain, reqs, sbody) == Ok::<_, RequestBodyError<'a>>(
            (BodyRef::Body(Some(TypeRef::Named(name))), chain, reqs),
        ),
{
    let b = sbody->RequestBody_0;
    let sdt = json_schema(&b.content)->Some_0;
    let ch = child(chain, None, no_schemas());
    assert(chain_contains(ch, name)) by {
        let i = choose|i: int| #![trigger chain[i]] 0 <= i < chain.len() && (chain[i].0 == Some(name) || has_key(chain[i].1, name));
        assert(ch[i] == chain[i]);
    }
    law_known_name_is_reused(sdt, opt_components(comps), ch, 0, name);
    assert(merge_model(no_schemas::<'a>(), no_schemas()) == no_schemas::<'a>());
    assert(merge_model(chain.last().1, no_schemas()) == chain.last().1);
    assert(merged_top(chain, no_schemas()) =~= chain);
}

/// A schema name the scope chain holds is still held after a request body
/// is compiled and recorded.
pub proof fn law_request_step_keeps_names<'a>(
    comps: &'a Option<Components>,
    chain: Frames<'a>,
    reqs: BodiesModel<'a>,
    sbody: &'a SchemaRequestBodyOrReference,
    name: Seq<char>,
)
    requires
        chain.len() > 0,
        chain_contains(chain, name),
    ensures
        request_step(comps, chain, reqs, sbody) matches Ok((_, c, _)) ==> chain_contains(c, name),
{
    match request_step(comps, chain, reqs, sbody) {
        Ok((_, c, _)) => {
            if c != chain {
                let s = choose|s: SchemasModel<'a>| c == merged_top(chain, s);
                let i = choose|i: int| #![trigger chain[i]] 0 <= i < chain.len() && (chain[i].0 == Some(name) || has_key(chain[i].1, name));
                lemma_merge_keys(chain.last().1, s, name);
                if i == chain.len() - 1 {
                    assert(c[i].0 == chain[i].0);
                    assert(c[i].0 == Some(name) || has_key(c[i].1, name));
                } else {
                    assert(c[i] == chain[i]);
                }
            }
        },
        Err(_) => {},
    }
}

/// The member list of a combinator keeps declaration order: its first entry
/// is what the first member compiles to, in the shared scope holding what
/// the earlier members introduced, and the rest is the list of the others.
pub proof fn law_members_keep_order<'a>(
    ms: &'a Vec<SchemaDataType>,
    i: int,
    acc: SchemasModel<'a>,
    comps: Option<&'a Components>,
    chain: Chain<'a>,
    depth: int,
)
    requires
        0 <= i < ms@.len(),
        depth <= 1024,
        members_spec(ms, i, acc, comps, chain, depth) is Ok,
    ensures
        compile_spec(&ms@[i], comps, child(chain, None, acc), depth + 1) matches Ok((t, s))
            && members_spec(ms, i + 1, merge_model(acc, s), comps, chain, depth) matches Ok((rest, a))
            && members_spec(ms, i, acc, comps, chain, depth) == Ok::<(Seq<TypeRef<'a>>, SchemasModel<'a>), Error<'a>>(
            (seq![t] + rest, a),
        ),
{
}

} // verus!
