//! Resolution of JSON Schema trees into shapes and a flat map of named entities.
//!
//! Anonymous object and union schemas become entities named after their title, or
//! else after the path of property names that leads to them. Every entity that a
//! call synthesises is inserted into the caller's accumulator before it returns.
use vstd::prelude::*;
use crate::error::Error;
use crate::json::{i64_of, number_as_i64};
use crate::ir::{Entry, Literal, Shape, ShapeModel, fields_model};
use crate::ir::Schema as Entity;
use crate::jsonschema::{BoolOr, Schema, SchemaType, keyword_of};
use crate::ordered_map::OrderedMap;
use crate::text::{pascal_case, pascal_path, starts_with};

verus! {

/// Entities by name, in the order in which they were first synthesised.
pub type Entities = OrderedMap<Entry<Entity>>;

pub open spec fn path_view(path: Seq<String>) -> Seq<Seq<char>> {
    path.map_values(|s: String| s@)
}

/// The prefix under which a document stores its named schemas.
pub open spec fn store_prefix() -> Seq<char> {
    "#/components/schemas/"@
}

/// The entity a reference names: the reference without the store prefix. Any other
/// reference points into another document, which is not supported.
pub open spec fn ref_target(r: Seq<char>) -> Result<Seq<char>, Error> {
    let p = store_prefix();
    if p.len() <= r.len() && r.take(p.len() as int) == p {
        Ok(r.skip(p.len() as int))
    } else {
        Err(Error::UnsupportedSchemaShape)
    }
}

/// The name of the entity synthesised for `s` at `path`: its title verbatim, else
/// the path in PascalCase.
pub open spec fn entity_name(path: Seq<Seq<char>>, s: Schema) -> Seq<char> {
    match s.title {
        Some(t) => t@,
        None => pascal_path(path),
    }
}

pub open spec fn property_count(s: Schema) -> nat {
    match s.properties {
        Some(m) => m.entries@.len(),
        None => 0,
    }
}

/// Whether `name` is listed in the `required` keyword of `s`.
pub open spec fn is_required(s: Schema, name: Seq<char>) -> bool {
    match s.required {
        Some(v) => path_view(v@).contains(name),
        None => false,
    }
}

/// A property is nullable exactly when it is not required.
pub open spec fn field_shape(s: Schema, name: Seq<char>, m: ShapeModel) -> ShapeModel {
    if is_required(s, name) {
        m
    } else {
        ShapeModel::Nullable(Box::new(m))
    }
}

/// The types of `ts` other than `null`, in order.
pub open spec fn drop_nulls(ts: Seq<SchemaType>) -> Seq<SchemaType>
    decreases ts.len(),
{
    if ts.len() == 0 {
        ts
    } else if ts.last() == SchemaType::Null {
        drop_nulls(ts.drop_last())
    } else {
        drop_nulls(ts.drop_last()).push(ts.last())
    }
}

/// An entity inserted into an accumulator: its name, its definition, and the schema
/// it was made from, whose description and validation keywords it carries.
pub type Insert = (Seq<char>, EntityModel, Schema);

/// The types of `ts`, each once, in the order of their first occurrence.
pub open spec fn distinct_types(ts: Seq<SchemaType>) -> Seq<SchemaType>
    decreases ts.len(),
{
    if ts.len() == 0 {
        ts
    } else if distinct_types(ts.drop_last()).contains(ts.last()) {
        distinct_types(ts.drop_last())
    } else {
        distinct_types(ts.drop_last()).push(ts.last())
    }
}

/// The outcome of resolving a shape: the shape, and the entities synthesised on
/// the way, in the order of their insertion.
pub type Outcome = Result<(ShapeModel, Seq<Insert>), Error>;

/// The outcome of resolving a list of fields: their names and shapes, and the
/// names of the entities synthesised on the way.
pub type FieldsOutcome = Result<(Seq<(Seq<char>, ShapeModel)>, Seq<Insert>), Error>;

pub open spec fn shape_outcome(path: Seq<Seq<char>>, s: Schema) -> Outcome
    decreases s, 5nat, 0nat,
{
    match s.ref_ {
        Some(r) => match ref_target(r@) {
            Ok(t) => Ok((ShapeModel::Entity(t), Seq::empty())),
            Err(e) => Err(e),
        },
        None => match s.type_ {
            None => Err(Error::UnresolvableSchema),
            Some(ts) => typed_outcome(path, s, distinct_types(ts@)),
        },
    }
}

/// Resolution of `s` as if its types were `ts`, each listed once. A list with
/// `null` among two or more types resolves the rest and makes it nullable.
pub open spec fn typed_outcome(path: Seq<Seq<char>>, s: Schema, ts: Seq<SchemaType>) -> Outcome
    decreases s, 4nat, 0nat,
{
    if ts.len() >= 2 && ts.contains(SchemaType::Null) {
        match nonnull_outcome(path, s, drop_nulls(ts)) {
            Ok((m, ns)) => Ok((ShapeModel::Nullable(Box::new(m)), ns)),
            Err(e) => Err(e),
        }
    } else {
        nonnull_outcome(path, s, ts)
    }
}

/// No types: nothing to resolve. One type: that type. More: a union entity.
pub open spec fn nonnull_outcome(path: Seq<Seq<char>>, s: Schema, ts: Seq<SchemaType>) -> Outcome
    decreases s, 3nat, 0nat,
{
    if ts.len() == 0 {
        Err(Error::UnresolvableSchema)
    } else if ts.len() == 1 {
        single_outcome(path, s, ts[0])
    } else {
        match union_outcome(path, s, ts, ts.len()) {
            Ok((fs, ns)) => Ok(
                (
                    ShapeModel::Entity(entity_name(path, s)),
                    ns.push((entity_name(path, s), EntityModel::Union(fs), s)),
                ),
            ),
            Err(e) => Err(e),
        }
    }
}

/// The first `j` fields of the union entity for `ts`, each keyed by its type's name.
pub open spec fn union_outcome(
    path: Seq<Seq<char>>,
    s: Schema,
    ts: Seq<SchemaType>,
    j: nat,
) -> FieldsOutcome
    decreases s, 2nat, j,
{
    if j == 0 || j > ts.len() {
        Ok((Seq::empty(), Seq::empty()))
    } else {
        match union_outcome(path, s, ts, (j - 1) as nat) {
            Err(e) => Err(e),
            Ok((fs, ns)) => match single_outcome(path, s, ts[j - 1]) {
                Err(e) => Err(e),
                Ok((m, cns)) => Ok((fs.push((keyword_of(ts[j - 1]), m)), ns + cns)),
            },
        }
    }
}

pub open spec fn single_outcome(path: Seq<Seq<char>>, s: Schema, t: SchemaType) -> Outcome
    decreases s, 1nat, 0nat,
{
    match t {
        SchemaType::String => Ok((ShapeModel::String, Seq::empty())),
        SchemaType::Number => Ok((ShapeModel::Float, Seq::empty())),
        SchemaType::Integer => Ok((ShapeModel::Int, Seq::empty())),
        SchemaType::Boolean => Ok((ShapeModel::Bool, Seq::empty())),
        SchemaType::Object => match fields_outcome(path, s, property_count(s)) {
            Ok((fs, ns)) => Ok(
                (
                    ShapeModel::Entity(entity_name(path, s)),
                    ns.push((entity_name(path, s), EntityModel::Record(fs), s)),
                ),
            ),
            Err(e) => Err(e),
        },
        SchemaType::Array => match s.items {
            None => Err(Error::UnresolvableSchema),
            Some(BoolOr::Bool(_)) => Err(Error::UnsupportedSchemaShape),
            Some(BoolOr::Value(b)) => match shape_outcome(path, *b) {
                Ok((m, ns)) => Ok((ShapeModel::List(Box::new(m)), ns)),
                Err(e) => Err(e),
            },
        },
        SchemaType::Null => Err(Error::UnresolvableSchema),
        SchemaType::Any => Err(Error::UnresolvableSchema),
    }
}

/// The first `j` properties of `s` as record fields: each resolved at the path
/// extended by its name, and nullable unless required.
pub open spec fn fields_outcome(path: Seq<Seq<char>>, s: Schema, j: nat) -> FieldsOutcome
    decreases s, 0nat, j,
{
    if j == 0 || j > property_count(s) {
        Ok((Seq::empty(), Seq::empty()))
    } else {
        match fields_outcome(path, s, (j - 1) as nat) {
            Err(e) => Err(e),
            Ok((fs, ns)) => {
                let p = s.properties->Some_0.entries@[j - 1];
                match shape_outcome(path.push(p.0@), p.1) {
                    Err(e) => Err(e),
                    Ok((m, cns)) => Ok((fs.push((p.0@, field_shape(s, p.0@, m))), ns + cns)),
                }
            },
        }
    }
}

/// The names of the inserted entities, in order.
pub open spec fn names_of(ins: Seq<Insert>) -> Seq<Seq<char>> {
    ins.map_values(|x: Insert| x.0)
}

pub open spec fn keys_of(es: Seq<(String, Entry<Entity>)>) -> Seq<Seq<char>> {
    es.map_values(|e: (String, Entry<Entity>)| e.0@)
}

/// The last insertion under `k`, if any.
pub open spec fn last_insert(ins: Seq<Insert>, k: Seq<char>) -> Option<Insert>
    decreases ins.len(),
{
    if ins.len() == 0 {
        None
    } else if ins.last().0 == k {
        Some(ins.last())
    } else {
        last_insert(ins.drop_last(), k)
    }
}

/// `e` is the entity that `x` describes: its definition, and the description and
/// validation keywords of the schema it was made from.
pub open spec fn entry_fits(e: Entry<Entity>, x: Insert) -> bool {
    &&& entity_model(e.inner) == x.1
    &&& e.description == x.2.description
    &&& holds_keywords(e.metadata.entries@, validation_keywords(x.2))
    &&& entry_keys_unique(e, x.2)
}

/// The maps of an entity made from `s` hold each key once: its metadata, a union's
/// fields, and a record's fields whenever `s` lists each property once.
pub open spec fn entry_keys_unique(e: Entry<Entity>, s: Schema) -> bool {
    &&& e.metadata.wf()
    &&& (e.inner matches Entity::Union { fields } ==> fields.wf())
    &&& (e.inner matches Entity::Record { fields } ==> ((s.properties is None
        || s.properties->Some_0.wf()) ==> fields.wf()))
}

/// `after` is the accumulator `before` once the entities `ins` are inserted in
/// order: its keys are those of `before` followed by each new name once, every key
/// holds its last insertion, and keys inserted nowhere keep their entity.
pub open spec fn applied(before: Seq<(String, Entry<Entity>)>, after: Entities, ins: Seq<Insert>) -> bool {
    &&& after.wf()
    &&& after.keys() == add_keys(keys_of(before), names_of(ins))
    &&& forall|i: int|
        #![trigger after.entries@[i]]
        0 <= i < after.entries@.len() ==> match last_insert(ins, after.entries@[i].0@) {
            Some(x) => entry_fits(after.entries@[i].1, x),
            None => i < before.len() && after.entries@[i].1 == before[i].1,
        }
}

proof fn lemma_add_keys_prefix(keys: Seq<Seq<char>>, names: Seq<Seq<char>>)
    ensures
        add_keys(keys, names).len() >= keys.len(),
        forall|i: int| 0 <= i < keys.len() ==> add_keys(keys, names)[i] == keys[i],
    decreases names.len(),
{
    if names.len() > 0 {
        lemma_add_keys_prefix(keys, names.drop_last());
    }
}

proof fn lemma_last_insert_concat(x: Seq<Insert>, y: Seq<Insert>, k: Seq<char>)
    ensures
        last_insert(x + y, k) == match last_insert(y, k) {
            Some(z) => Some(z),
            None => last_insert(x, k),
        },
    decreases y.len(),
{
    if y.len() == 0 {
        assert(x + y =~= x);
    } else {
        assert((x + y).drop_last() =~= x + y.drop_last());
        lemma_last_insert_concat(x, y.drop_last(), k);
    }
}

/// Inserting nothing changes nothing.
pub proof fn lemma_applied_none(a: Entities)
    requires
        a.wf(),
    ensures
        applied(a.entries@, a, Seq::empty()),
{
    assert(keys_of(a.entries@) =~= a.keys());
    assert(names_of(Seq::empty()) =~= Seq::<Seq<char>>::empty());
}

proof fn lemma_applied_trans(
    a: Seq<(String, Entry<Entity>)>,
    b: Entities,
    c: Entities,
    x: Seq<Insert>,
    y: Seq<Insert>,
)
    requires
        applied(a, b, x),
        applied(b.entries@, c, y),
    ensures
        applied(a, c, x + y),
{
    assert(keys_of(b.entries@) =~= b.keys());
    assert(names_of(x + y) =~= names_of(x) + names_of(y));
    lemma_add_keys_concat(keys_of(a), names_of(x), names_of(y));
    lemma_add_keys_prefix(b.keys(), names_of(y));
    assert forall|i: int| 0 <= i < c.entries@.len() implies match last_insert(
        x + y,
        #[trigger] c.entries@[i].0@,
    ) {
        Some(z) => entry_fits(c.entries@[i].1, z),
        None => i < a.len() && c.entries@[i].1 == a[i].1,
    } by {
        let k = c.entries@[i].0@;
        lemma_last_insert_concat(x, y, k);
        assert(c.keys()[i] == k);
        if last_insert(y, k) is None {
            assert(i < b.entries@.len() && c.entries@[i].1 == b.entries@[i].1);
            assert(b.keys()[i] == c.keys()[i]);
            assert(b.entries@[i].0@ == k);
        }
    }
}

proof fn lemma_applied_insert(b: Entities, c: Entities, key: String, value: Entry<Entity>, x: Insert)
    requires
        b.wf(),
        c.wf(),
        c.keys() == Entities::add_key(b.keys(), key@),
        b.contains(key@) ==> exists|i: int|
            0 <= i < b.entries@.len() && b.keys()[i] == key@ && c.entries@ == b.entries@.update(
                i,
                (key, value),
            ),
        !b.contains(key@) ==> c.entries@ == b.entries@.push((key, value)),
        x.0 == key@,
        entry_fits(value, x),
    ensures
        applied(b.entries@, c, seq![x]),
{
    assert(keys_of(b.entries@) =~= b.keys());
    assert(names_of(seq![x]) =~= seq![key@]);
    assert(seq![x].drop_last() =~= Seq::<Insert>::empty());
    assert(names_of(seq![x]).drop_last() =~= Seq::<Seq<char>>::empty());
    assert(add_keys(b.keys(), names_of(seq![x])) == Entities::add_key(
        add_keys(b.keys(), Seq::empty()),
        key@,
    ));
    assert forall|i: int| 0 <= i < c.entries@.len() implies match last_insert(
        seq![x],
        #[trigger] c.entries@[i].0@,
    ) {
        Some(z) => entry_fits(c.entries@[i].1, z),
        None => i < b.entries@.len() && c.entries@[i].1 == b.entries@[i].1,
    } by {
        let k = c.entries@[i].0@;
        assert(c.keys()[i] == k);
        assert(last_insert(Seq::<Insert>::empty(), k) is None);
        if k == key@ {
            assert(last_insert(seq![x], k) == Some(x));
        } else {
            assert(last_insert(seq![x], k) is None);
        }
        if b.contains(key@) {
            let j = choose|j: int|
                0 <= j < b.entries@.len() && b.keys()[j] == key@ && c.entries@
                    == b.entries@.update(j, (key, value));
            assert(c.entries@[j] == (key, value));
            assert(c.keys()[j] == key@);
            if k == key@ {
                assert(i == j) by {
                    if i != j {
                        assert(c.keys()[i] == c.keys()[j]);
                    }
                }
                assert(c.entries@[i] == (key, value));
            } else {
                assert(i != j);
                assert(c.entries@[i] == b.entries@[i]);
            }
        } else {
            assert(c.entries@[b.entries@.len() as int] == (key, value));
            if k == key@ {
                assert(i == b.entries@.len()) by {
                    if i < b.entries@.len() {
                        assert(c.entries@[i] == b.entries@[i]);
                        assert(b.keys()[i] == key@);
                        assert(b.keys().contains(key@));
                    }
                }
            } else {
                assert(i < b.entries@.len());
                assert(c.entries@[i] == b.entries@[i]);
            }
        }
    }
}

/// The keys of an accumulator after inserting `names` in order.
pub open spec fn add_keys(keys: Seq<Seq<char>>, names: Seq<Seq<char>>) -> Seq<Seq<char>>
    decreases names.len(),
{
    if names.len() == 0 {
        keys
    } else {
        Entities::add_key(add_keys(keys, names.drop_last()), names.last())
    }
}

pub proof fn lemma_add_keys_concat(keys: Seq<Seq<char>>, a: Seq<Seq<char>>, b: Seq<Seq<char>>)
    ensures
        add_keys(keys, a + b) == add_keys(add_keys(keys, a), b),
    decreases b.len(),
{
    if b.len() == 0 {
        assert(a + b =~= a);
    } else {
        assert((a + b).drop_last() =~= a + b.drop_last());
        lemma_add_keys_concat(keys, a, b.drop_last());
    }
}

/// A failure among the first `k` fields is the failure of every longer prefix.
proof fn lemma_fields_error_persists(path: Seq<Seq<char>>, s: Schema, k: nat, j: nat)
    requires
        k <= j <= property_count(s),
        fields_outcome(path, s, k) is Err,
    ensures
        fields_outcome(path, s, j) == fields_outcome(path, s, k),
    decreases j - k,
{
    if j > k {
        lemma_fields_error_persists(path, s, k, (j - 1) as nat);
    }
}

proof fn lemma_union_error_persists(
    path: Seq<Seq<char>>,
    s: Schema,
    ts: Seq<SchemaType>,
    k: nat,
    j: nat,
)
    requires
        k <= j <= ts.len(),
        union_outcome(path, s, ts, k) is Err,
    ensures
        union_outcome(path, s, ts, j) == union_outcome(path, s, ts, k),
    decreases j - k,
{
    if j > k {
        lemma_union_error_persists(path, s, ts, k, (j - 1) as nat);
    }
}

fn clone_text(o: &Option<String>) -> (r: Option<String>)
    ensures
        r == *o,
{
    match o {
        Some(t) => Some(t.clone()),
        None => None,
    }
}

/// The entity named by a reference.
pub fn resolve_ref(reference: &str) -> (r: Result<String, Error>)
    ensures
        match ref_target(reference@) {
            Ok(t) => r matches Ok(n) && n@ == t,
            Err(e) => r == Err::<String, Error>(e),
        },
{
    let prefix = "#/components/schemas/";
    if starts_with(reference, prefix) {
        let rest = reference.substring_char(prefix.unicode_len(), reference.unicode_len());
        assert(rest@ =~= reference@.skip(prefix@.len() as int));
        Ok(String::from_str(rest))
    } else {
        Err(Error::UnsupportedSchemaShape)
    }
}

/// The name of the entity synthesised for `s` at `path`.
pub fn name_entity(path: &Vec<String>, s: &Schema) -> (r: String)
    ensures
        r@ == entity_name(path_view(path@), *s),
{
    match &s.title {
        Some(t) => t.clone(),
        None => pascal_case(path),
    }
}

/// Whether `s` lists `name` as required.
pub fn requires_property(s: &Schema, name: &str) -> (r: bool)
    ensures
        r == is_required(*s, name@),
{
    match &s.required {
        None => false,
        Some(req) => {
            let mut i: usize = 0;
            while i < req.len()
                invariant
                    s.required == Some(*req),
                    i <= req@.len(),
                    forall|j: int| 0 <= j < i ==> req@[j]@ != name@,
                decreases req@.len() - i,
            {
                if crate::ordered_map::str_eq(req[i].as_str(), name) {
                    assert(path_view(req@)[i as int] == name@);
                    return true;
                }
                i = i + 1;
            }
            assert(!path_view(req@).contains(name@)) by {
                assert forall|j: int| 0 <= j < path_view(req@).len() implies path_view(
                    req@,
                )[j] != name@ by {}
            }
            false
        },
    }
}

/// The types of `ts` other than `null`, in order.
pub fn without_nulls(ts: &Vec<SchemaType>) -> (r: Vec<SchemaType>)
    ensures
        r@ == drop_nulls(ts@),
{
    let mut out: Vec<SchemaType> = Vec::new();
    let mut i: usize = 0;
    while i < ts.len()
        invariant
            i <= ts@.len(),
            out@ == drop_nulls(ts@.take(i as int)),
        decreases ts@.len() - i,
    {
        assert(ts@.take(i as int + 1).drop_last() =~= ts@.take(i as int));
        if ts[i] != SchemaType::Null {
            out.push(ts[i]);
        }
        i = i + 1;
    }
    assert(ts@.take(ts@.len() as int) =~= ts@);
    out
}

proof fn lemma_distinct_types(ts: Seq<SchemaType>)
    ensures
        distinct_types(ts).no_duplicates(),
        forall|t: SchemaType| distinct_types(ts).contains(t) <==> ts.contains(t),
    decreases ts.len(),
{
    if ts.len() > 0 {
        lemma_distinct_types(ts.drop_last());
        let d = distinct_types(ts.drop_last());
        assert forall|t: SchemaType| distinct_types(ts).contains(t) <==> ts.contains(t) by {
            if ts.contains(t) && t != ts.last() {
                let i = choose|i: int| 0 <= i < ts.len() && ts[i] == t;
                assert(ts.drop_last()[i] == t);
            }
            if ts.drop_last().contains(t) {
                let i = choose|i: int| 0 <= i < ts.drop_last().len() && ts.drop_last()[i] == t;
                assert(ts[i] == t);
            }
            assert(ts[ts.len() - 1] == ts.last());
            if !d.contains(ts.last()) {
                if d.push(ts.last()).contains(t) && t != ts.last() {
                    let i = choose|i: int| 0 <= i < d.push(ts.last()).len() && d.push(ts.last())[i] == t;
                    assert(d[i] == t);
                }
                if d.contains(t) {
                    let i = choose|i: int| 0 <= i < d.len() && d[i] == t;
                    assert(d.push(ts.last())[i] == t);
                }
                assert(d.push(ts.last())[d.len() as int] == ts.last());
            }
        }
    }
}

proof fn lemma_drop_nulls_distinct(ts: Seq<SchemaType>)
    requires
        ts.no_duplicates(),
    ensures
        drop_nulls(ts).no_duplicates(),
        forall|t: SchemaType| drop_nulls(ts).contains(t) ==> ts.contains(t),
    decreases ts.len(),
{
    if ts.len() > 0 {
        let r = ts.drop_last();
        assert(r.no_duplicates()) by {
            assert forall|a: int, b: int| 0 <= a < b < r.len() implies r[a] != r[b] by {
                assert(ts[a] != ts[b]);
            }
        }
        lemma_drop_nulls_distinct(r);
        assert forall|t: SchemaType| drop_nulls(ts).contains(t) implies ts.contains(t) by {
            if t != ts.last() {
                let i = choose|i: int| 0 <= i < drop_nulls(ts).len() && drop_nulls(ts)[i] == t;
                if ts.last() != SchemaType::Null {
                    assert(drop_nulls(r).push(ts.last())[i] == t);
                    assert(drop_nulls(r)[i] == t);
                }
                assert(drop_nulls(r).contains(t));
                assert(r.contains(t));
                let j = choose|j: int| 0 <= j < r.len() && r[j] == t;
                assert(ts[j] == t);
            } else {
                assert(ts[ts.len() - 1] == t);
            }
        }
        if ts.last() != SchemaType::Null {
            assert(!drop_nulls(r).contains(ts.last())) by {
                if drop_nulls(r).contains(ts.last()) {
                    assert(r.contains(ts.last()));
                    let j = choose|j: int| 0 <= j < r.len() && r[j] == ts.last();
                    assert(ts[j] == ts[ts.len() - 1]);
                }
            }
            let d = drop_nulls(r);
            assert forall|a: int, b: int| 0 <= a < b < d.push(ts.last()).len() implies d.push(
                ts.last(),
            )[a] != d.push(ts.last())[b] by {
                if b == d.len() {
                    assert(d[a] != ts.last()) by {
                        if d[a] == ts.last() {
                            assert(d.contains(ts.last()));
                        }
                    }
                }
            }
        }
    }
}

proof fn lemma_keyword_injective(a: SchemaType, b: SchemaType)
    ensures
        keyword_of(a) == keyword_of(b) ==> a == b,
{
    reveal_strlit("string");
    reveal_strlit("number");
    reveal_strlit("integer");
    reveal_strlit("boolean");
    reveal_strlit("object");
    reveal_strlit("array");
    reveal_strlit("null");
    reveal_strlit("any");
    if keyword_of(a) == keyword_of(b) {
        assert(keyword_of(a).len() == keyword_of(b).len());
        assert(keyword_of(a)[0] == keyword_of(b)[0]);
    }
}

/// The types of `ts`, each once, in the order of their first occurrence.
pub fn distinct(ts: &Vec<SchemaType>) -> (r: Vec<SchemaType>)
    ensures
        r@ == distinct_types(ts@),
        r@.no_duplicates(),
{
    let mut out: Vec<SchemaType> = Vec::new();
    let mut i: usize = 0;
    while i < ts.len()
        invariant
            i <= ts@.len(),
            out@ == distinct_types(ts@.take(i as int)),
        decreases ts@.len() - i,
    {
        assert(ts@.take(i as int + 1).drop_last() =~= ts@.take(i as int));
        if !lists_type(&out, ts[i]) {
            out.push(ts[i]);
        }
        i = i + 1;
    }
    assert(ts@.take(ts@.len() as int) =~= ts@);
    proof {
        lemma_distinct_types(ts@);
    }
    out
}

/// Whether `ts` lists `t`.
fn lists_type(ts: &Vec<SchemaType>, t: SchemaType) -> (r: bool)
    ensures
        r == ts@.contains(t),
{
    let mut i: usize = 0;
    while i < ts.len()
        invariant
            i <= ts@.len(),
            forall|j: int| 0 <= j < i ==> ts@[j] != t,
        decreases ts@.len() - i,
    {
        if ts[i] == t {
            return true;
        }
        i = i + 1;
    }
    false
}

/// Whether `ts` lists `null`.
pub fn lists_null(ts: &Vec<SchemaType>) -> (r: bool)
    ensures
        r == ts@.contains(SchemaType::Null),
{
    let mut i: usize = 0;
    while i < ts.len()
        invariant
            i <= ts@.len(),
            forall|j: int| 0 <= j < i ==> ts@[j] != SchemaType::Null,
        decreases ts@.len() - i,
    {
        if ts[i] == SchemaType::Null {
            return true;
        }
        i = i + 1;
    }
    false
}

/// Resolution into `acc`, which keeps what was inserted before a failure.
fn resolve_shape_into(path: &Vec<String>, schema: &Schema, acc: &mut Entities) -> (r: Result<
    Shape,
    Error,
>)
    requires
        old(acc).wf(),
    ensures
        final(acc).wf(),
        match shape_outcome(path_view(path@), *schema) {
            Ok((m, ns)) => r matches Ok(sh) && sh.model() == m && applied(
                old(acc).entries@,
                *final(acc),
                ns,
            ),
            Err(e) => r == Err::<Shape, Error>(e),
        },
    decreases schema, 5nat, 0nat,
{
    if let Some(reference) = &schema.ref_ {
        return match resolve_ref(reference.as_str()) {
            Ok(target) => Ok(Shape::Entity { target }),
            Err(e) => Err(e),
        };
    }
    match &schema.type_ {
        None => Err(Error::UnresolvableSchema),
        Some(ts) => {
            let u = distinct(ts);
            resolve_typed(path, schema, &u, acc)
        },
    }
}

fn resolve_typed(path: &Vec<String>, s: &Schema, ts: &Vec<SchemaType>, acc: &mut Entities) -> (r:
    Result<Shape, Error>)
    requires
        old(acc).wf(),
        ts@.no_duplicates(),
    ensures
        final(acc).wf(),
        match typed_outcome(path_view(path@), *s, ts@) {
            Ok((m, ns)) => r matches Ok(sh) && sh.model() == m && applied(
                old(acc).entries@,
                *final(acc),
                ns,
            ),
            Err(e) => r == Err::<Shape, Error>(e),
        },
    decreases s, 4nat, 0nat,
{
    if ts.len() >= 2 && lists_null(ts) {
        let rest = without_nulls(ts);
        proof {
            lemma_drop_nulls_distinct(ts@);
        }
        match resolve_nonnull(path, s, &rest, acc) {
            Ok(inner) => Ok(Shape::Nullable { inner: Box::new(inner) }),
            Err(e) => Err(e),
        }
    } else {
        resolve_nonnull(path, s, ts, acc)
    }
}

fn resolve_nonnull(path: &Vec<String>, s: &Schema, ts: &Vec<SchemaType>, acc: &mut Entities) -> (r:
    Result<Shape, Error>)
    requires
        old(acc).wf(),
        ts@.no_duplicates(),
    ensures
        final(acc).wf(),
        match nonnull_outcome(path_view(path@), *s, ts@) {
            Ok((m, ns)) => r matches Ok(sh) && sh.model() == m && applied(
                old(acc).entries@,
                *final(acc),
                ns,
            ),
            Err(e) => r == Err::<Shape, Error>(e),
        },
    decreases s, 3nat, 0nat,
{
    if ts.len() == 0 {
        return Err(Error::UnresolvableSchema);
    }
    if ts.len() == 1 {
        return resolve_single(path, s, ts[0], acc);
    }
    let ghost pv = path_view(path@);
    let fields = match resolve_union_fields(path, s, ts, acc) {
        Ok(f) => f,
        Err(e) => {
            return Err(e);
        },
    };
    let name = name_entity(path, s);
    let ghost fs = union_outcome(pv, *s, ts@, ts@.len())->Ok_0.0;
    let ghost ns = union_outcome(pv, *s, ts@, ts@.len())->Ok_0.1;
    let entity = decorate(s, Entity::Union { fields });
    let key = name.clone();
    let ghost mid = *acc;
    let ghost stored = (key, entity);
    acc.insert(key, entity);
    proof {
        let x = (name@, EntityModel::Union(fs), *s);
        lemma_applied_insert(mid, *acc, stored.0, stored.1, x);
        lemma_applied_trans(old(acc).entries@, mid, *acc, ns, seq![x]);
        assert(ns + seq![x] =~= ns.push(x));
    }
    Ok(Shape::Entity { target: name })
}

/// One field per type of `ts`, keyed by the type's name.
fn resolve_union_fields(path: &Vec<String>, s: &Schema, ts: &Vec<SchemaType>, acc: &mut Entities) -> (r:
    Result<OrderedMap<Entry<Shape>>, Error>)
    requires
        old(acc).wf(),
        ts@.no_duplicates(),
    ensures
        final(acc).wf(),
        r matches Ok(f) ==> f.wf(),
        match union_outcome(path_view(path@), *s, ts@, ts@.len()) {
            Ok((fs, ns)) => r matches Ok(f) && fields_model(f) == fs && applied(
                old(acc).entries@,
                *final(acc),
                ns,
            ),
            Err(e) => r == Err::<OrderedMap<Entry<Shape>>, Error>(e),
        },
    decreases s, 2nat, 0nat,
{
    let ghost pv = path_view(path@);
    let mut fields: OrderedMap<Entry<Shape>> = OrderedMap::new();
    proof {
        lemma_applied_none(*acc);
    }
    let mut i: usize = 0;
    while i < ts.len()
        invariant
            acc.wf(),
            i <= ts@.len(),
            pv == path_view(path@),
            union_outcome(pv, *s, ts@, i as nat) matches Ok((fs, ns)) && fields_model(fields) == fs
                && applied(old(acc).entries@, *acc, ns),
            fields.entries@.len() == i,
            forall|j: int| 0 <= j < i ==> #[trigger] fields.entries@[j].0@ == keyword_of(ts@[j]),
        decreases ts@.len() - i,
    {
        let ghost mid = *acc;
        let ghost prev = union_outcome(pv, *s, ts@, i as nat);
        let t = ts[i];
        let shape = match resolve_single(path, s, t, acc) {
            Ok(sh) => sh,
            Err(e) => {
                proof {
                    lemma_union_error_persists(pv, *s, ts@, i as nat + 1, ts@.len());
                }
                return Err(e);
            },
        };
        proof {
            let ns = prev->Ok_0.1;
            let cns = single_outcome(pv, *s, t)->Ok_0.1;
            lemma_applied_trans(old(acc).entries@, mid, *acc, ns, cns);
        }
        fields.entries.push((t.name(), Entry::bare(shape)));
        assert(fields_model(fields) =~= prev->Ok_0.0.push(
            (keyword_of(t), single_outcome(pv, *s, t)->Ok_0.0),
        ));
        i = i + 1;
    }
    proof {
        assert forall|a: int, b: int| 0 <= a < b < fields.keys().len() implies fields.keys()[a]
            != fields.keys()[b] by {
            lemma_keyword_injective(ts@[a], ts@[b]);
            assert(fields.entries@[a].0@ == keyword_of(ts@[a]));
            assert(fields.entries@[b].0@ == keyword_of(ts@[b]));
        }
    }
    Ok(fields)
}

fn resolve_single(path: &Vec<String>, s: &Schema, t: SchemaType, acc: &mut Entities) -> (r:
    Result<Shape, Error>)
    requires
        old(acc).wf(),
    ensures
        final(acc).wf(),
        match single_outcome(path_view(path@), *s, t) {
            Ok((m, ns)) => r matches Ok(sh) && sh.model() == m && applied(
                old(acc).entries@,
                *final(acc),
                ns,
            ),
            Err(e) => r == Err::<Shape, Error>(e),
        },
    decreases s, 1nat, 0nat,
{
    match t {
        SchemaType::String => Ok(Shape::String),
        SchemaType::Number => Ok(Shape::Float),
        SchemaType::Integer => Ok(Shape::Int),
        SchemaType::Boolean => Ok(Shape::Bool),
        SchemaType::Null => Err(Error::UnresolvableSchema),
        SchemaType::Any => Err(Error::UnresolvableSchema),
        SchemaType::Array => match &s.items {
            None => Err(Error::UnresolvableSchema),
            Some(BoolOr::Bool(_)) => Err(Error::UnsupportedSchemaShape),
            Some(BoolOr::Value(b)) => match resolve_shape_into(path, b, acc) {
                Ok(inner) => Ok(Shape::List { inner: Box::new(inner) }),
                Err(e) => Err(e),
            },
        },
        SchemaType::Object => {
            let fields = match resolve_fields(path, s, acc) {
                Ok(f) => f,
                Err(e) => {
                    return Err(e);
                },
            };
            let name = name_entity(path, s);
            let ghost fs = fields_outcome(path_view(path@), *s, property_count(*s))->Ok_0.0;
            let ghost ns = fields_outcome(path_view(path@), *s, property_count(*s))->Ok_0.1;
            let entity = decorate(s, Entity::Record { fields });
            let key = name.clone();
            let ghost mid = *acc;
            let ghost stored = (key, entity);
            acc.insert(key, entity);
            proof {
                let x = (name@, EntityModel::Record(fs), *s);
                lemma_applied_insert(mid, *acc, stored.0, stored.1, x);
                lemma_applied_trans(old(acc).entries@, mid, *acc, ns, seq![x]);
                assert(ns + seq![x] =~= ns.push(x));
            }
            Ok(Shape::Entity { target: name })
        },
    }
}

/// The properties of `s` as record fields, in order.
fn resolve_fields(path: &Vec<String>, s: &Schema, acc: &mut Entities) -> (r: Result<
    OrderedMap<Entry<Shape>>,
    Error,
>)
    requires
        old(acc).wf(),
    ensures
        final(acc).wf(),
        r matches Ok(f) ==> ((s.properties is None || s.properties->Some_0.wf()) ==> f.wf()),
        match fields_outcome(path_view(path@), *s, property_count(*s)) {
            Ok((fs, ns)) => r matches Ok(f) && fields_model(f) == fs && applied(
                old(acc).entries@,
                *final(acc),
                ns,
            ),
            Err(e) => r == Err::<OrderedMap<Entry<Shape>>, Error>(e),
        },
    decreases s, 0nat, 0nat,
{
    let ghost pv = path_view(path@);
    let mut fields: OrderedMap<Entry<Shape>> = OrderedMap::new();
    proof {
        lemma_applied_none(*acc);
    }
    match &s.properties {
        None => Ok(fields),
        Some(props) => {
            let mut i: usize = 0;
            while i < props.entries.len()
                invariant
                    acc.wf(),
                    s.properties == Some(*props),
                    i <= props.entries@.len(),
                    pv == path_view(path@),
                    fields_outcome(pv, *s, i as nat) matches Ok((fs, ns)) && fields_model(fields)
                        == fs && applied(old(acc).entries@, *acc, ns),
                    fields.entries@.len() == i,
                    forall|j: int|
                        0 <= j < i ==> #[trigger] fields.entries@[j].0@ == props.entries@[j].0@,
                decreases props.entries@.len() - i,
            {
                let ghost prev = fields_outcome(pv, *s, i as nat);
                let ghost mid = *acc;
                let name = &props.entries[i].0;
                let child = &props.entries[i].1;
                let mut child_path = path.clone();
                child_path.push(name.clone());
                assert(path_view(child_path@) =~= pv.push(name@));
                let shape = match resolve_shape_into(&child_path, child, acc) {
                    Ok(sh) => sh,
                    Err(e) => {
                        proof {
                            lemma_fields_error_persists(
                                pv,
                                *s,
                                i as nat + 1,
                                props.entries@.len(),
                            );
                        }
                        return Err(e);
                    },
                };
                proof {
                    let cns = shape_outcome(pv.push(name@), *child)->Ok_0.1;
                    lemma_applied_trans(old(acc).entries@, mid, *acc, prev->Ok_0.1, cns);
                }
                let shape = if requires_property(s, name.as_str()) {
                    shape
                } else {
                    Shape::Nullable { inner: Box::new(shape) }
                };
                let entry = Entry {
                    description: clone_text(&child.description),
                    metadata: validation_metadata(child),
                    inner: shape,
                };
                fields.entries.push((name.clone(), entry));
                assert(fields_model(fields) =~= prev->Ok_0.0.push(
                    (
                        name@,
                        field_shape(
                            *s,
                            name@,
                            shape_outcome(pv.push(name@), *child)->Ok_0.0,
                        ),
                    ),
                ));
                i = i + 1;
            }
            assert(fields.keys() =~= props.keys());
            Ok(fields)
        },
    }
}

/// An entity for `s` with its description and validation metadata.
fn decorate(s: &Schema, inner: Entity) -> (r: Entry<Entity>)
    ensures
        r.description == s.description,
        holds_keywords(r.metadata.entries@, validation_keywords(*s)),
        r.metadata.wf(),
        r.inner == inner,
{
    Entry { description: clone_text(&s.description), metadata: validation_metadata(s), inner }
}

/// The mathematical form of an entity's definition.
pub enum EntityModel {
    Record(Seq<(Seq<char>, ShapeModel)>),
    Union(Seq<(Seq<char>, ShapeModel)>),
    Enum(Seq<Seq<char>>),
    Alias(ShapeModel),
}

pub open spec fn entity_model(e: Entity) -> EntityModel {
    match e {
        Entity::Record { fields } => EntityModel::Record(fields_model(fields)),
        Entity::Union { fields } => EntityModel::Union(fields_model(fields)),
        Entity::Enum { fields } => EntityModel::Enum(fields.keys()),
        Entity::Alias { shape } => EntityModel::Alias(shape.model()),
    }
}

/// The definition that `s` gives at `path`: a record for an object schema, a union
/// for several types without `null`, and otherwise an alias of the shape that `s`
/// resolves to. Also the names of the entities synthesised on the way.
pub open spec fn entity_outcome(path: Seq<Seq<char>>, s: Schema) -> Result<
    (EntityModel, Seq<Insert>),
    Error,
> {
    if s.ref_ is None && s.type_ is Some && distinct_types(s.type_->Some_0@) == seq![
        SchemaType::Object,
    ] {
        match fields_outcome(path, s, property_count(s)) {
            Ok((fs, ns)) => Ok((EntityModel::Record(fs), ns)),
            Err(e) => Err(e),
        }
    } else if s.ref_ is None && s.type_ is Some && distinct_types(s.type_->Some_0@).len() >= 2
        && !distinct_types(s.type_->Some_0@).contains(SchemaType::Null) {
        let ts = distinct_types(s.type_->Some_0@);
        match union_outcome(path, s, ts, ts.len()) {
            Ok((fs, ns)) => Ok((EntityModel::Union(fs), ns)),
            Err(e) => Err(e),
        }
    } else {
        match shape_outcome(path, s) {
            Ok((m, ns)) => Ok((EntityModel::Alias(m), ns)),
            Err(e) => Err(e),
        }
    }
}

/// Entity resolution into `acc`, which keeps what was inserted before a failure.
fn resolve_entity_into(path: &Vec<String>, schema: &Schema, acc: &mut Entities) -> (r: Result<
    Entry<Entity>,
    Error,
>)
    requires
        old(acc).wf(),
    ensures
        final(acc).wf(),
        match entity_outcome(path_view(path@), *schema) {
            Ok((m, ns)) => r matches Ok(e) && entity_model(e.inner) == m && e.description
                == schema.description && holds_keywords(
                e.metadata.entries@,
                validation_keywords(*schema),
            ) && entry_keys_unique(e, *schema) && applied(old(acc).entries@, *final(acc), ns),
            Err(e) => r == Err::<Entry<Entity>, Error>(e),
        },
{
    let mut object = false;
    let mut union = false;
    if schema.ref_.is_none() {
        if let Some(listed) = &schema.type_ {
            let ts = distinct(listed);
            object = ts.len() == 1 && ts[0] == SchemaType::Object;
            if object {
                assert(ts@ =~= seq![SchemaType::Object]);
            }
            union = ts.len() >= 2 && !lists_null(&ts);
            if union {
                let fields = match resolve_union_fields(path, schema, &ts, acc) {
                    Ok(f) => f,
                    Err(e) => {
                        return Err(e);
                    },
                };
                return Ok(decorate(schema, Entity::Union { fields }));
            }
        }
    }
    if object {
        let fields = match resolve_fields(path, schema, acc) {
            Ok(f) => f,
            Err(e) => {
                return Err(e);
            },
        };
        return Ok(decorate(schema, Entity::Record { fields }));
    }
    match resolve_shape_into(path, schema, acc) {
        Ok(shape) => Ok(decorate(schema, Entity::Alias { shape })),
        Err(e) => Err(e),
    }
}

proof fn lemma_add_keys_dedup(keys: Seq<Seq<char>>, names: Seq<Seq<char>>)
    ensures
        add_keys(keys, add_keys(Seq::empty(), names)) == add_keys(keys, names),
    decreases names.len(),
{
    if names.len() > 0 {
        let x = names.last();
        let d = add_keys(Seq::empty(), names.drop_last());
        lemma_add_keys_dedup(keys, names.drop_last());
        if d.contains(x) {
            lemma_add_keys_set(keys, d);
            assert(add_keys(keys, d).to_set().contains(x));
        } else {
            assert(d.push(x).drop_last() =~= d);
        }
    }
}

proof fn lemma_last_insert_some(ins: Seq<Insert>, k: Seq<char>)
    ensures
        last_insert(ins, k) is Some <==> names_of(ins).contains(k),
        last_insert(ins, k) matches Some(x) ==> x.0 == k,
    decreases ins.len(),
{
    if ins.len() > 0 {
        lemma_last_insert_some(ins.drop_last(), k);
        assert(names_of(ins.drop_last()) =~= names_of(ins).drop_last());
        if names_of(ins).contains(k) && ins.last().0 != k {
            let i = choose|i: int| 0 <= i < names_of(ins).len() && names_of(ins)[i] == k;
            assert(names_of(ins.drop_last())[i] == k);
        }
        if names_of(ins.drop_last()).contains(k) {
            let i = choose|i: int| 0 <= i < names_of(ins.drop_last()).len() && names_of(ins.drop_last())[i] == k;
            assert(names_of(ins)[i] == k);
        }
        assert(names_of(ins)[ins.len() - 1] == ins.last().0);
    }
}

/// The merge loop after `j` entries of `local`: keys among them hold their last
/// insertion in `ins`, other keys keep their entity from `before`.
spec fn merged(before: Entities, after: Entities, done: Seq<Seq<char>>, ins: Seq<Insert>) -> bool {
    &&& after.wf()
    &&& after.keys() == add_keys(before.keys(), done)
    &&& forall|i: int|
        #![trigger after.entries@[i]]
        0 <= i < after.entries@.len() ==> if done.contains(after.entries@[i].0@) {
            last_insert(ins, after.entries@[i].0@) matches Some(x) && entry_fits(
                after.entries@[i].1,
                x,
            )
        } else {
            i < before.entries@.len() && after.entries@[i].1 == before.entries@[i].1
        }
}

proof fn lemma_merge_step(
    before: Entities,
    b: Entities,
    c: Entities,
    done: Seq<Seq<char>>,
    key: String,
    value: Entry<Entity>,
    ins: Seq<Insert>,
)
    requires
        merged(before, b, done, ins),
        c.wf(),
        c.keys() == Entities::add_key(b.keys(), key@),
        b.contains(key@) ==> exists|i: int|
            0 <= i < b.entries@.len() && b.keys()[i] == key@ && c.entries@ == b.entries@.update(
                i,
                (key, value),
            ),
        !b.contains(key@) ==> c.entries@ == b.entries@.push((key, value)),
        last_insert(ins, key@) matches Some(x) && entry_fits(value, x),
    ensures
        merged(before, c, done.push(key@), ins),
{
    assert(done.push(key@).drop_last() =~= done);
    assert forall|i: int| 0 <= i < c.entries@.len() implies if done.push(key@).contains(
        #[trigger] c.entries@[i].0@,
    ) {
        last_insert(ins, c.entries@[i].0@) matches Some(x) && entry_fits(c.entries@[i].1, x)
    } else {
        i < before.entries@.len() && c.entries@[i].1 == before.entries@[i].1
    } by {
        let k = c.entries@[i].0@;
        assert(c.keys()[i] == k);
        assert(done.push(key@).contains(k) <==> (done.contains(k) || k == key@)) by {
            if done.push(key@).contains(k) && k != key@ {
                let m = choose|m: int| 0 <= m < done.push(key@).len() && done.push(key@)[m] == k;
                assert(done[m] == k);
            }
            if done.contains(k) {
                let m = choose|m: int| 0 <= m < done.len() && done[m] == k;
                assert(done.push(key@)[m] == k);
            }
            if k == key@ {
                assert(done.push(key@)[done.len() as int] == k);
            }
        }
        if b.contains(key@) {
            let j = choose|j: int|
                0 <= j < b.entries@.len() && b.keys()[j] == key@ && c.entries@
                    == b.entries@.update(j, (key, value));
            assert(c.keys()[j] == key@);
            if k == key@ {
                assert(i == j) by {
                    if i != j {
                        assert(c.keys()[i] == c.keys()[j]);
                    }
                }
            } else {
                assert(i != j);
                assert(c.entries@[i] == b.entries@[i]);
                assert(b.entries@[i].0@ == k);
            }
        } else {
            assert(c.entries@[b.entries@.len() as int] == (key, value));
            if k == key@ {
                assert(i == b.entries@.len()) by {
                    if i < b.entries@.len() {
                        assert(c.entries@[i] == b.entries@[i]);
                        assert(b.keys()[i] == key@);
                        assert(b.keys().contains(key@));
                    }
                }
            } else {
                assert(i < b.entries@.len());
                assert(c.entries@[i] == b.entries@[i]);
                assert(b.entries@[i].0@ == k);
            }
        }
    }
}

/// Inserts the entities of `local`, in order, into `acc`: the whole of a resolution
/// made on its own becomes visible at once.
fn merge(acc: &mut Entities, local: Entities, Ghost(ins): Ghost<Seq<Insert>>)
    requires
        old(acc).wf(),
        applied(Seq::empty(), local, ins),
    ensures
        applied(old(acc).entries@, *final(acc), ins),
{
    let ghost orig = local.entries@;
    let ghost names = keys_of(orig);
    assert(names =~= local.keys());
    assert(keys_of(Seq::empty()) =~= Seq::<Seq<char>>::empty());
    let mut rest = local.entries;
    assert(names.take(0) =~= Seq::<Seq<char>>::empty());
    while rest.len() > 0
        invariant
            orig.len() >= rest@.len(),
            rest@ == orig.skip(orig.len() - rest@.len()),
            names == keys_of(orig),
            names.no_duplicates(),
            forall|i: int|
                #![trigger orig[i]]
                0 <= i < orig.len() ==> (last_insert(ins, orig[i].0@) matches Some(x)
                    && entry_fits(orig[i].1, x)),
            merged(*old(acc), *acc, names.take(orig.len() - rest@.len()), ins),
        decreases rest@.len(),
    {
        let ghost j = orig.len() - rest@.len();
        let ghost b = *acc;
        let (key, value) = rest.remove(0);
        assert(orig[j] == (key, value));
        let ghost k2 = key;
        let ghost v2 = value;
        acc.insert(key, value);
        proof {
            assert(names[j] == k2@);
            lemma_merge_step(*old(acc), b, *acc, names.take(j), k2, v2, ins);
            assert(names.take(j).push(k2@) =~= names.take(j + 1));
            assert(rest@ =~= orig.skip(orig.len() - rest@.len()));
        }
    }
    proof {
        assert(names.take(orig.len() as int) =~= names);
        lemma_add_keys_dedup(old(acc).keys(), names_of(ins));
        lemma_add_keys_set(Seq::empty(), names_of(ins));
        assert(keys_of(old(acc).entries@) =~= old(acc).keys());
        assert forall|i: int| 0 <= i < acc.entries@.len() implies match last_insert(
            ins,
            #[trigger] acc.entries@[i].0@,
        ) {
            Some(x) => entry_fits(acc.entries@[i].1, x),
            None => i < old(acc).entries@.len() && acc.entries@[i].1 == old(acc).entries@[i].1,
        } by {
            let k = acc.entries@[i].0@;
            lemma_last_insert_some(ins, k);
            assert(names.to_set().contains(k) <==> names.contains(k));
            assert(names_of(ins).to_set().contains(k) <==> names_of(ins).contains(k));
            assert(Seq::<Seq<char>>::empty().to_set() =~= Set::<Seq<char>>::empty());
        }
    }
}

/// Resolves `schema`, found at `path`, to a shape. Object and union schemas become
/// entities, inserted into `acc`; the shape then names them. On failure `acc` is
/// left as it was: no entity of a failed resolution becomes visible.
pub fn resolve_shape(path: &Vec<String>, schema: &Schema, acc: &mut Entities) -> (r: Result<
    Shape,
    Error,
>)
    requires
        old(acc).wf(),
    ensures
        final(acc).wf(),
        match shape_outcome(path_view(path@), *schema) {
            Ok((m, ns)) => r matches Ok(sh) && sh.model() == m && applied(
                old(acc).entries@,
                *final(acc),
                ns,
            ),
            Err(e) => r == Err::<Shape, Error>(e) && *final(acc) == *old(acc),
        },
{
    let mut local: Entities = OrderedMap::new();
    proof {
        assert(local.entries@ =~= Seq::<(String, Entry<Entity>)>::empty());
    }
    match resolve_shape_into(path, schema, &mut local) {
        Ok(shape) => {
            let ghost ns = shape_outcome(path_view(path@), *schema)->Ok_0.1;
            merge(acc, local, Ghost(ns));
            Ok(shape)
        },
        Err(e) => Err(e),
    }
}

/// Resolves `schema`, found at `path`, to the definition of an entity, with its
/// description and validation metadata. Entities synthesised for nested schemas
/// go into `acc`; the definition itself is returned for the caller to name. On
/// failure `acc` is left as it was.
pub fn resolve_entity(path: &Vec<String>, schema: &Schema, acc: &mut Entities) -> (r: Result<
    Entry<Entity>,
    Error,
>)
    requires
        old(acc).wf(),
    ensures
        final(acc).wf(),
        match entity_outcome(path_view(path@), *schema) {
            Ok((m, ns)) => r matches Ok(e) && entity_model(e.inner) == m && e.description
                == schema.description && holds_keywords(
                e.metadata.entries@,
                validation_keywords(*schema),
            ) && entry_keys_unique(e, *schema) && applied(old(acc).entries@, *final(acc), ns),
            Err(e) => r == Err::<Entry<Entity>, Error>(e) && *final(acc) == *old(acc),
        },
{
    let mut local: Entities = OrderedMap::new();
    proof {
        assert(local.entries@ =~= Seq::<(String, Entry<Entity>)>::empty());
    }
    match resolve_entity_into(path, schema, &mut local) {
        Ok(entity) => {
            let ghost ns = entity_outcome(path_view(path@), *schema)->Ok_0.1;
            merge(acc, local, Ghost(ns));
            Ok(entity)
        },
        Err(e) => Err(e),
    }
}

/// The result of resolving one schema on its own: its shape, and every entity
/// synthesised for it, in order.
pub struct Resolution {
    pub shape: Shape,
    pub entities: Entities,
}

/// Resolves `schema` at `path` with an accumulator of its own, which is handed out
/// whole on success and dropped on failure.
pub fn resolve(path: &Vec<String>, schema: &Schema) -> (r: Result<Resolution, Error>)
    ensures
        match shape_outcome(path_view(path@), *schema) {
            Ok((m, ns)) => r matches Ok(res) && res.shape.model() == m && res.entities.wf()
                && applied(Seq::empty(), res.entities, ns),
            Err(e) => r == Err::<Resolution, Error>(e),
        },
{
    let mut acc: Entities = OrderedMap::new();
    match resolve_shape_into(path, schema, &mut acc) {
        Ok(shape) => Ok(Resolution { shape, entities: acc }),
        Err(e) => Err(e),
    }
}

/// The entities that resolving the first `j` named schemas of `schemas` inserts:
/// for each, the entities synthesised inside it and then itself, under its name.
pub open spec fn components_outcome(schemas: OrderedMap<Schema>, j: nat) -> Result<
    Seq<Insert>,
    Error,
>
    decreases j,
{
    if j == 0 || j > schemas.entries@.len() {
        Ok(Seq::empty())
    } else {
        match components_outcome(schemas, (j - 1) as nat) {
            Err(e) => Err(e),
            Ok(ns) => {
                let p = schemas.entries@[j - 1];
                match entity_outcome(seq![p.0@], p.1) {
                    Err(e) => Err(e),
                    Ok((em, cns)) => Ok(ns + cns.push((p.0@, em, p.1))),
                }
            },
        }
    }
}

proof fn lemma_components_error_persists(schemas: OrderedMap<Schema>, k: nat, j: nat)
    requires
        k <= j <= schemas.entries@.len(),
        components_outcome(schemas, k) is Err,
    ensures
        components_outcome(schemas, j) == components_outcome(schemas, k),
    decreases j - k,
{
    if j > k {
        lemma_components_error_persists(schemas, k, (j - 1) as nat);
    }
}

/// Resolves a document's named schemas into one flat map of entities: each under
/// its own name, after the entities synthesised inside it.
#[verifier::rlimit(50)]
pub fn resolve_components(schemas: &OrderedMap<Schema>) -> (r: Result<Entities, Error>)
    ensures
        match components_outcome(*schemas, schemas.entries@.len()) {
            Ok(ns) => r matches Ok(es) && applied(Seq::empty(), es, ns),
            Err(e) => r == Err::<Entities, Error>(e),
        },
{
    let mut acc: Entities = OrderedMap::new();
    proof {
        lemma_applied_none(acc);
    }
    let mut i: usize = 0;
    while i < schemas.entries.len()
        invariant
            acc.wf(),
            i <= schemas.entries@.len(),
            components_outcome(*schemas, i as nat) matches Ok(ns) && applied(
                Seq::empty(),
                acc,
                ns,
            ),
        decreases schemas.entries@.len() - i,
    {
        let ghost prev = components_outcome(*schemas, i as nat)->Ok_0;
        let ghost start = acc;
        let name = &schemas.entries[i].0;
        let mut path: Vec<String> = Vec::new();
        path.push(name.clone());
        assert(path_view(path@) =~= seq![name@]);
        let entity = match resolve_entity_into(&path, &schemas.entries[i].1, &mut acc) {
            Ok(e) => e,
            Err(e) => {
                proof {
                    lemma_components_error_persists(*schemas, i as nat + 1, schemas.entries@.len());
                }
                return Err(e);
            },
        };
        let ghost em = entity_outcome(seq![name@], schemas.entries@[i as int].1)->Ok_0.0;
        let ghost cns = entity_outcome(seq![name@], schemas.entries@[i as int].1)->Ok_0.1;
        let key = name.clone();
        let ghost mid = acc;
        let ghost stored = (key, entity);
        acc.insert(key, entity);
        proof {
            let x = (name@, em, schemas.entries@[i as int].1);
            lemma_applied_trans(Seq::empty(), start, mid, prev, cns);
            lemma_applied_insert(mid, acc, stored.0, stored.1, x);
            lemma_applied_trans(Seq::empty(), mid, acc, prev + cns, seq![x]);
            assert(prev + cns + seq![x] =~= prev + cns.push(x));
        }
        i = i + 1;
    }
    Ok(acc)
}

/// A schema of type `string` resolves to `String`, wherever it stands and
/// whatever has been resolved before, and synthesises no entity.
pub proof fn law_string_resolves_to_string(path: Seq<Seq<char>>, s: Schema)
    requires
        s.ref_ is None,
        s.type_ matches Some(ts) && ts@ == seq![SchemaType::String],
    ensures
        shape_outcome(path, s) == Ok::<(ShapeModel, Seq<Insert>), Error>(
            (ShapeModel::String, Seq::empty()),
        ),
{
    let ts = s.type_->Some_0@;
    assert(ts.drop_last() =~= Seq::<SchemaType>::empty());
    assert(distinct_types(Seq::<SchemaType>::empty()) =~= Seq::<SchemaType>::empty());
    assert(!Seq::<SchemaType>::empty().contains(SchemaType::String));
    assert(distinct_types(ts) =~= seq![SchemaType::String]);
}

/// A schema of types `string` and `null` resolves to a nullable `String`, not to a
/// union, and synthesises no entity.
pub proof fn law_nullable_string(path: Seq<Seq<char>>, s: Schema)
    requires
        s.ref_ is None,
        s.type_ matches Some(ts) && ts@ == seq![SchemaType::String, SchemaType::Null],
    ensures
        shape_outcome(path, s) == Ok::<(ShapeModel, Seq<Insert>), Error>(
            (ShapeModel::Nullable(Box::new(ShapeModel::String)), Seq::empty()),
        ),
{
    let listed = s.type_->Some_0@;
    assert(listed.drop_last() =~= seq![SchemaType::String]);
    assert(seq![SchemaType::String].drop_last() =~= Seq::<SchemaType>::empty());
    assert(distinct_types(Seq::<SchemaType>::empty()) =~= Seq::<SchemaType>::empty());
    assert(!Seq::<SchemaType>::empty().contains(SchemaType::String));
    assert(distinct_types(seq![SchemaType::String]) =~= seq![SchemaType::String]);
    assert(!seq![SchemaType::String].contains(SchemaType::Null)) by {
        assert(seq![SchemaType::String][0] != SchemaType::Null);
    }
    assert(distinct_types(listed) =~= seq![SchemaType::String, SchemaType::Null]);
    let ts = distinct_types(listed);
    assert(ts.contains(SchemaType::Null)) by {
        assert(ts[1] == SchemaType::Null);
    }
    assert(ts.drop_last() =~= seq![SchemaType::String]);
    assert(seq![SchemaType::String].drop_last() =~= Seq::<SchemaType>::empty());
    assert(drop_nulls(Seq::<SchemaType>::empty()) =~= Seq::<SchemaType>::empty());
    assert(drop_nulls(seq![SchemaType::String]) =~= Seq::<SchemaType>::empty().push(
        SchemaType::String,
    ));
    assert(drop_nulls(ts) =~= seq![SchemaType::String]);
}

proof fn lemma_add_keys_set(keys: Seq<Seq<char>>, names: Seq<Seq<char>>)
    ensures
        add_keys(keys, names).to_set() == keys.to_set().union(names.to_set()),
    decreases names.len(),
{
    if names.len() == 0 {
        assert(names.to_set() =~= Set::empty());
        assert(keys.to_set().union(names.to_set()) =~= keys.to_set());
    } else {
        let k0 = add_keys(keys, names.drop_last());
        lemma_add_keys_set(keys, names.drop_last());
        let x = names.last();
        assert(names =~= names.drop_last().push(x));
        if k0.contains(x) {
            assert(keys.to_set().union(names.to_set()) =~= k0.to_set()) by {
                assert(k0.to_set().contains(x));
                assert(names.to_set() =~= names.drop_last().to_set().insert(x)) by {
                    names.drop_last().lemma_push_to_set_commute(x);
                }
            }
        } else {
            k0.lemma_push_to_set_commute(x);
            names.drop_last().lemma_push_to_set_commute(x);
            assert(keys.to_set().union(names.to_set()) =~= k0.to_set().insert(x));
        }
    }
}

/// Naming is deterministic: the entities that resolving `s` at `path` adds are the
/// same names whatever the accumulator held before, and two resolutions from an
/// empty accumulator produce the same names in the same order.
pub proof fn law_naming_deterministic(
    path: Seq<Seq<char>>,
    s: Schema,
    before1: Seq<Seq<char>>,
    before2: Seq<Seq<char>>,
)
    requires
        shape_outcome(path, s) is Ok,
    ensures
        ({
            let ns = names_of(shape_outcome(path, s)->Ok_0.1);
            &&& add_keys(before1, ns).to_set().difference(before1.to_set()) == ns.to_set().difference(
                before1.to_set(),
            )
            &&& add_keys(before2, ns).to_set().difference(before2.to_set()) == ns.to_set().difference(
                before2.to_set(),
            )
            &&& (before1.len() == 0 && before2.len() == 0 ==> add_keys(before1, ns) == add_keys(
                before2,
                ns,
            ))
        }),
{
    let ns = names_of(shape_outcome(path, s)->Ok_0.1);
    lemma_add_keys_set(before1, ns);
    lemma_add_keys_set(before2, ns);
    assert(add_keys(before1, ns).to_set().difference(before1.to_set()) =~= ns.to_set().difference(
        before1.to_set(),
    ));
    assert(add_keys(before2, ns).to_set().difference(before2.to_set()) =~= ns.to_set().difference(
        before2.to_set(),
    ));
    if before1.len() == 0 && before2.len() == 0 {
        assert(before1 =~= before2);
    }
}

/// A schema of one primitive type (string, number, integer, boolean), with no
/// reference.
pub open spec fn is_primitive(s: Schema) -> bool {
    &&& s.ref_ is None
    &&& s.type_ is Some
    &&& s.type_->Some_0@.len() == 1
    &&& {
        let t = s.type_->Some_0@[0];
        t == SchemaType::String || t == SchemaType::Number || t == SchemaType::Integer || t
            == SchemaType::Boolean
    }
}

/// An object schema whose properties are all primitive.
pub open spec fn is_flat_record(s: Schema) -> bool {
    &&& s.ref_ is None
    &&& s.type_ is Some
    &&& s.type_->Some_0@ == seq![SchemaType::Object]
    &&& forall|i: int|
        #![trigger s.properties->Some_0.entries@[i]]
        0 <= i < property_count(s) ==> is_primitive(s.properties->Some_0.entries@[i].1)
}

proof fn lemma_singleton_distinct(t: SchemaType)
    ensures
        distinct_types(seq![t]) == seq![t],
{
    assert(seq![t].drop_last() =~= Seq::<SchemaType>::empty());
    assert(distinct_types(Seq::<SchemaType>::empty()) =~= Seq::<SchemaType>::empty());
    assert(!Seq::<SchemaType>::empty().contains(t));
    assert(distinct_types(seq![t]) =~= seq![t]);
}

proof fn lemma_primitive_inserts_nothing(path: Seq<Seq<char>>, s: Schema)
    requires
        is_primitive(s),
    ensures
        shape_outcome(path, s) matches Ok((_, ns)) && ns.len() == 0,
{
    let ts = s.type_->Some_0@;
    assert(ts =~= seq![ts[0]]);
    lemma_singleton_distinct(ts[0]);
}

proof fn lemma_flat_fields(path: Seq<Seq<char>>, s: Schema, j: nat)
    requires
        is_flat_record(s),
        j <= property_count(s),
    ensures
        fields_outcome(path, s, j) matches Ok((_, ns)) && ns.len() == 0,
    decreases j,
{
    if j > 0 {
        lemma_flat_fields(path, s, (j - 1) as nat);
        let p = s.properties->Some_0.entries@[j - 1];
        assert(is_primitive(p.1));
        lemma_primitive_inserts_nothing(path.push(p.0@), p.1);
    }
}

proof fn lemma_add_keys_distinct(keys: Seq<Seq<char>>)
    requires
        keys.no_duplicates(),
    ensures
        add_keys(Seq::empty(), keys) == keys,
    decreases keys.len(),
{
    if keys.len() > 0 {
        let rest = keys.drop_last();
        assert(rest.no_duplicates()) by {
            assert forall|a: int, b: int| 0 <= a < b < rest.len() implies rest[a] != rest[b] by {
                assert(keys[a] != keys[b]);
            }
        }
        lemma_add_keys_distinct(rest);
        assert(!rest.contains(keys.last())) by {
            if rest.contains(keys.last()) {
                let i = choose|i: int| 0 <= i < rest.len() && rest[i] == keys.last();
                assert(keys[i] == keys[keys.len() - 1]);
            }
        }
        assert(rest.push(keys.last()) =~= keys);
    }
}

proof fn lemma_flat_components(schemas: OrderedMap<Schema>, j: nat)
    requires
        j <= schemas.entries@.len(),
        forall|i: int|
            #![trigger schemas.entries@[i]]
            0 <= i < schemas.entries@.len() ==> is_flat_record(schemas.entries@[i].1),
    ensures
        components_outcome(schemas, j) matches Ok(ns) && names_of(ns) == schemas.keys().take(
            j as int,
        ) && forall|k: int| #![trigger ns[k]] 0 <= k < j ==> ns[k] == flat_insert(schemas, k),
    decreases j,
{
    if j == 0 {
        assert(names_of(Seq::empty()) =~= schemas.keys().take(0));
    } else {
        lemma_flat_components(schemas, (j - 1) as nat);
        let p = schemas.entries@[j - 1];
        assert(is_flat_record(p.1));
        lemma_flat_fields(seq![p.0@], p.1, property_count(p.1));
        lemma_singleton_distinct(SchemaType::Object);
        let prev = components_outcome(schemas, (j - 1) as nat)->Ok_0;
        let cns = entity_outcome(seq![p.0@], p.1)->Ok_0.1;
        assert(cns.len() == 0);
        let em = entity_outcome(seq![p.0@], p.1)->Ok_0.0;
        let x = (p.0@, em, p.1);
        assert(cns.push(x) =~= seq![x]);
        assert(components_outcome(schemas, j) == Ok::<Seq<Insert>, Error>(prev + seq![x]));
        assert(x == flat_insert(schemas, j - 1));
        assert forall|k: int| #![trigger (prev + seq![x])[k]] 0 <= k < j implies (prev + seq![x])[k]
            == flat_insert(schemas, k) by {
            assert(names_of(prev).len() == prev.len());
            if k < j - 1 {
                assert((prev + seq![x])[k] == prev[k]);
            }
        }
        assert(names_of(prev + seq![x]) =~= names_of(prev).push(p.0@));
        assert(schemas.keys()[j - 1] == p.0@);
        assert(schemas.keys().take(j as int) =~= schemas.keys().take(j - 1).push(
            schemas.keys()[j - 1],
        ));
    }
}

/// The insertion of the `k`-th named schema as a record of its properties.
pub open spec fn flat_insert(schemas: OrderedMap<Schema>, k: int) -> Insert {
    let p = schemas.entries@[k];
    (
        p.0@,
        EntityModel::Record(fields_outcome(seq![p.0@], p.1, property_count(p.1))->Ok_0.0),
        p.1,
    )
}

proof fn lemma_last_insert_distinct(ins: Seq<Insert>, i: int)
    requires
        names_of(ins).no_duplicates(),
        0 <= i < ins.len(),
    ensures
        last_insert(ins, ins[i].0) == Some(ins[i]),
    decreases ins.len(),
{
    if i < ins.len() - 1 {
        assert(names_of(ins)[i] != names_of(ins)[ins.len() - 1]);
        let rest = ins.drop_last();
        assert(names_of(rest) =~= names_of(ins).drop_last());
        assert(names_of(rest).no_duplicates()) by {
            assert forall|a: int, b: int| 0 <= a < b < names_of(rest).len() implies names_of(
                rest,
            )[a] != names_of(rest)[b] by {
                assert(names_of(ins)[a] != names_of(ins)[b]);
            }
        }
        lemma_last_insert_distinct(rest, i);
    }
}

/// Named schemas keep their order: when every named schema is an object whose
/// properties are all primitive, and no name repeats, the entities are exactly
/// the named schemas, in the order in which the document lists them, and each is
/// the record that its own properties make, whatever the other schemas are.
pub proof fn law_flat_components_keep_order(schemas: OrderedMap<Schema>)
    requires
        schemas.wf(),
        forall|i: int|
            #![trigger schemas.entries@[i]]
            0 <= i < schemas.entries@.len() ==> is_flat_record(schemas.entries@[i].1),
    ensures
        components_outcome(schemas, schemas.entries@.len()) matches Ok(ns) && add_keys(
            keys_of(Seq::empty()),
            names_of(ns),
        ) == schemas.keys() && forall|k: int|
            #![trigger schemas.entries@[k]]
            0 <= k < schemas.entries@.len() ==> last_insert(ns, schemas.entries@[k].0@) == Some(
                flat_insert(schemas, k),
            ),
{
    lemma_flat_components(schemas, schemas.entries@.len());
    assert(schemas.keys().take(schemas.entries@.len() as int) =~= schemas.keys());
    assert(keys_of(Seq::empty()) =~= Seq::<Seq<char>>::empty());
    lemma_add_keys_distinct(schemas.keys());
    let ns = components_outcome(schemas, schemas.entries@.len())->Ok_0;
    assert forall|k: int|
        #![trigger schemas.entries@[k]]
        0 <= k < schemas.entries@.len() implies last_insert(ns, schemas.entries@[k].0@) == Some(
            flat_insert(schemas, k),
        ) by {
        assert(ns[k] == flat_insert(schemas, k));
        lemma_last_insert_distinct(ns, k);
    }
}

/// The value of a validation keyword.
pub enum KeywordValue {
    Number(serde_json::Number),
    Text(Seq<char>),
    Flag(bool),
}

pub open spec fn number_keyword(k: Seq<char>, v: Option<serde_json::Number>) -> Seq<
    (Seq<char>, KeywordValue),
> {
    match v {
        Some(n) => seq![(k, KeywordValue::Number(n))],
        None => Seq::empty(),
    }
}

pub open spec fn pattern_keyword(s: Schema) -> Seq<(Seq<char>, KeywordValue)> {
    match s.pattern {
        Some(p) => seq![("pattern"@, KeywordValue::Text(p@))],
        None => Seq::empty(),
    }
}

pub open spec fn unique_keyword(s: Schema) -> Seq<(Seq<char>, KeywordValue)> {
    match s.unique_items {
        Some(b) => seq![("uniqueItems"@, KeywordValue::Flag(b))],
        None => Seq::empty(),
    }
}

/// The validation keywords that `s` sets, in a fixed order, under their names in a
/// document. They constrain values without changing their shape.
pub open spec fn validation_keywords(s: Schema) -> Seq<(Seq<char>, KeywordValue)> {
    number_keyword("minLength"@, s.min_length) + number_keyword("maxLength"@, s.max_length)
        + pattern_keyword(s) + number_keyword("multipleOf"@, s.multiple_of) + number_keyword("minimum"@, s.minimum)
        + number_keyword("maximum"@, s.maximum) + number_keyword(
        "exclusiveMinimum"@,
        s.exclusive_minimum,
    ) + number_keyword("exclusiveMaximum"@, s.exclusive_maximum) + number_keyword(
        "minItems"@,
        s.min_items,
    ) + number_keyword("maxItems"@, s.max_items) + unique_keyword(s) + number_keyword("minProperties"@, s.min_properties) + number_keyword(
        "maxProperties"@,
        s.max_properties,
    )
}

/// The literal that holds a keyword's value: integers as `Int`, other numbers as
/// `Float`.
pub open spec fn literal_holds(l: Literal, v: KeywordValue) -> bool {
    match v {
        KeywordValue::Number(n) => match i64_of(n) {
            Some(i) => l == Literal::Int(i),
            None => l == Literal::Float(n),
        },
        KeywordValue::Text(t) => l matches Literal::String(x) && x@ == t,
        KeywordValue::Flag(b) => l == Literal::Bool(b),
    }
}

/// `entries` holds `kws` in order, each value as its literal.
pub open spec fn holds_keywords(
    entries: Seq<(String, Literal)>,
    kws: Seq<(Seq<char>, KeywordValue)>,
) -> bool {
    &&& entries.len() == kws.len()
    &&& forall|i: int|
        0 <= i < kws.len() ==> #[trigger] entries[i].0@ == kws[i].0 && literal_holds(
            entries[i].1,
            kws[i].1,
        )
}

/// Every key of `out` is in `seen`, and no key is repeated.
spec fn keys_tracked(out: Seq<(String, Literal)>, seen: Set<Seq<char>>) -> bool {
    &&& forall|i: int| 0 <= i < out.len() ==> seen.contains(#[trigger] out[i].0@)
    &&& forall|i: int, j: int| 0 <= i < j < out.len() ==> #[trigger] out[i].0@ != #[trigger] out[j].0@
}

#[verifier::spinoff_prover]
fn push_number(
    out: &mut Vec<(String, Literal)>,
    key: &str,
    v: &Option<serde_json::Number>,
    Ghost(kws): Ghost<Seq<(Seq<char>, KeywordValue)>>,
    Ghost(seen): Ghost<Set<Seq<char>>>,
)
    requires
        holds_keywords(old(out)@, kws),
        keys_tracked(old(out)@, seen),
        !seen.contains(key@),
    ensures
        holds_keywords(final(out)@, kws + number_keyword(key@, *v)),
        keys_tracked(final(out)@, seen.insert(key@)),
{
    match v {
        Some(n) => {
            let lit = match number_as_i64(n) {
                Some(i) => Literal::Int(i),
                None => Literal::Float(n.clone()),
            };
            out.push((String::from_str(key), lit));
        },
        None => {},
    }
    let ghost all = kws + number_keyword(key@, *v);
    assert(forall|i: int| 0 <= i < kws.len() ==> all[i] == kws[i]);
}

#[verifier::spinoff_prover]
fn push_pattern(
    out: &mut Vec<(String, Literal)>,
    s: &Schema,
    Ghost(kws): Ghost<Seq<(Seq<char>, KeywordValue)>>,
    Ghost(seen): Ghost<Set<Seq<char>>>,
)
    requires
        holds_keywords(old(out)@, kws),
        keys_tracked(old(out)@, seen),
        !seen.contains("pattern"@),
    ensures
        holds_keywords(final(out)@, kws + pattern_keyword(*s)),
        keys_tracked(final(out)@, seen.insert("pattern"@)),
{
    if let Some(p) = &s.pattern {
        out.push((String::from_str("pattern"), Literal::String(p.clone())));
    }
    let ghost all = kws + pattern_keyword(*s);
    assert(forall|i: int| 0 <= i < kws.len() ==> all[i] == kws[i]);
}

#[verifier::spinoff_prover]
fn push_unique(
    out: &mut Vec<(String, Literal)>,
    s: &Schema,
    Ghost(kws): Ghost<Seq<(Seq<char>, KeywordValue)>>,
    Ghost(seen): Ghost<Set<Seq<char>>>,
)
    requires
        holds_keywords(old(out)@, kws),
        keys_tracked(old(out)@, seen),
        !seen.contains("uniqueItems"@),
    ensures
        holds_keywords(final(out)@, kws + unique_keyword(*s)),
        keys_tracked(final(out)@, seen.insert("uniqueItems"@)),
{
    if let Some(b) = &s.unique_items {
        out.push((String::from_str("uniqueItems"), Literal::Bool(*b)));
    }
    let ghost all = kws + unique_keyword(*s);
    assert(forall|i: int| 0 <= i < kws.len() ==> all[i] == kws[i]);
}

/// The validation keywords of `s`, kept as metadata, each under its own name.
pub fn validation_metadata(s: &Schema) -> (r: OrderedMap<Literal>)
    ensures
        holds_keywords(r.entries@, validation_keywords(*s)),
        r.wf(),
{
    proof {
        reveal_strlit("minLength");
        reveal_strlit("maxLength");
        reveal_strlit("pattern");
        reveal_strlit("multipleOf");
        reveal_strlit("minimum");
        reveal_strlit("maximum");
        reveal_strlit("exclusiveMinimum");
        reveal_strlit("exclusiveMaximum");
        reveal_strlit("minItems");
        reveal_strlit("maxItems");
        reveal_strlit("uniqueItems");
        reveal_strlit("minProperties");
        reveal_strlit("maxProperties");
    }
    let mut out: Vec<(String, Literal)> = Vec::new();
    let ghost e = Seq::<(Seq<char>, KeywordValue)>::empty();
    let ghost k = Set::<Seq<char>>::empty();
    push_number(&mut out, "minLength", &s.min_length, Ghost(e), Ghost(k));
    let ghost e = e + number_keyword("minLength"@, s.min_length);
    let ghost k = k.insert("minLength"@);
    proof {
        assert("maxLength"@[1] != "minLength"@[1]);
    }
    push_number(&mut out, "maxLength", &s.max_length, Ghost(e), Ghost(k));
    let ghost e = e + number_keyword("maxLength"@, s.max_length);
    let ghost k = k.insert("maxLength"@);
    proof {
        assert("pattern"@.len() != "minLength"@.len());
        assert("pattern"@.len() != "maxLength"@.len());
    }
    push_pattern(&mut out, s, Ghost(e), Ghost(k));
    let ghost e = e + pattern_keyword(*s);
    let ghost k = k.insert("pattern"@);
    proof {
        assert("multipleOf"@.len() != "minLength"@.len());
        assert("multipleOf"@.len() != "maxLength"@.len());
        assert("multipleOf"@.len() != "pattern"@.len());
    }
    push_number(&mut out, "multipleOf", &s.multiple_of, Ghost(e), Ghost(k));
    let ghost e = e + number_keyword("multipleOf"@, s.multiple_of);
    let ghost k = k.insert("multipleOf"@);
    proof {
        assert("minimum"@.len() != "minLength"@.len());
        assert("minimum"@.len() != "maxLength"@.len());
        assert("minimum"@[0] != "pattern"@[0]);
        assert("minimum"@.len() != "multipleOf"@.len());
    }
    push_number(&mut out, "minimum", &s.minimum, Ghost(e), Ghost(k));
    let ghost e = e + number_keyword("minimum"@, s.minimum);
    let ghost k = k.insert("minimum"@);
    proof {
        assert("maximum"@.len() != "minLength"@.len());
        assert("maximum"@.len() != "maxLength"@.len());
        assert("maximum"@[0] != "pattern"@[0]);
        assert("maximum"@.len() != "multipleOf"@.len());
        assert("maximum"@[1] != "minimum"@[1]);
    }
    push_number(&mut out, "maximum", &s.maximum, Ghost(e), Ghost(k));
    let ghost e = e + number_keyword("maximum"@, s.maximum);
    let ghost k = k.insert("maximum"@);
    proof {
        assert("exclusiveMinimum"@.len() != "minLength"@.len());
        assert("exclusiveMinimum"@.len() != "maxLength"@.len());
        assert("exclusiveMinimum"@.len() != "pattern"@.len());
        assert("exclusiveMinimum"@.len() != "multipleOf"@.len());
        assert("exclusiveMinimum"@.len() != "minimum"@.len());
        assert("exclusiveMinimum"@.len() != "maximum"@.len());
    }
    push_number(&mut out, "exclusiveMinimum", &s.exclusive_minimum, Ghost(e), Ghost(k));
    let ghost e = e + number_keyword("exclusiveMinimum"@, s.exclusive_minimum);
    let ghost k = k.insert("exclusiveMinimum"@);
    proof {
        assert("exclusiveMaximum"@.len() != "minLength"@.len());
        assert("exclusiveMaximum"@.len() != "maxLength"@.len());
        assert("exclusiveMaximum"@.len() != "pattern"@.len());
        assert("exclusiveMaximum"@.len() != "multipleOf"@.len());
        assert("exclusiveMaximum"@.len() != "minimum"@.len());
        assert("exclusiveMaximum"@.len() != "maximum"@.len());
        assert("exclusiveMaximum"@[10] != "exclusiveMinimum"@[10]);
    }
    push_number(&mut out, "exclusiveMaximum", &s.exclusive_maximum, Ghost(e), Ghost(k));
    let ghost e = e + number_keyword("exclusiveMaximum"@, s.exclusive_maximum);
    let ghost k = k.insert("exclusiveMaximum"@);
    proof {
        assert("minItems"@.len() != "minLength"@.len());
        assert("minItems"@.len() != "maxLength"@.len());
        assert("minItems"@.len() != "pattern"@.len());
        assert("minItems"@.len() != "multipleOf"@.len());
        assert("minItems"@.len() != "minimum"@.len());
        assert("minItems"@.len() != "maximum"@.len());
        assert("minItems"@.len() != "exclusiveMinimum"@.len());
        assert("minItems"@.len() != "exclusiveMaximum"@.len());
    }
    push_number(&mut out, "minItems", &s.min_items, Ghost(e), Ghost(k));
    let ghost e = e + number_keyword("minItems"@, s.min_items);
    let ghost k = k.insert("minItems"@);
    proof {
        assert("maxItems"@.len() != "minLength"@.len());
        assert("maxItems"@.len() != "maxLength"@.len());
        assert("maxItems"@.len() != "pattern"@.len());
        assert("maxItems"@.len() != "multipleOf"@.len());
        assert("maxItems"@.len() != "minimum"@.len());
        assert("maxItems"@.len() != "maximum"@.len());
        assert("maxItems"@.len() != "exclusiveMinimum"@.len());
        assert("maxItems"@.len() != "exclusiveMaximum"@.len());
        assert("maxItems"@[1] != "minItems"@[1]);
    }
    push_number(&mut out, "maxItems", &s.max_items, Ghost(e), Ghost(k));
    let ghost e = e + number_keyword("maxItems"@, s.max_items);
    let ghost k = k.insert("maxItems"@);
    proof {
        assert("uniqueItems"@.len() != "minLength"@.len());
        assert("uniqueItems"@.len() != "maxLength"@.len());
        assert("uniqueItems"@.len() != "pattern"@.len());
        assert("uniqueItems"@.len() != "multipleOf"@.len());
        assert("uniqueItems"@.len() != "minimum"@.len());
        assert("uniqueItems"@.len() != "maximum"@.len());
        assert("uniqueItems"@.len() != "exclusiveMinimum"@.len());
        assert("uniqueItems"@.len() != "exclusiveMaximum"@.len());
        assert("uniqueItems"@.len() != "minItems"@.len());
        assert("uniqueItems"@.len() != "maxItems"@.len());
    }
    push_unique(&mut out, s, Ghost(e), Ghost(k));
    let ghost e = e + unique_keyword(*s);
    let ghost k = k.insert("uniqueItems"@);
    proof {
        assert("minProperties"@.len() != "minLength"@.len());
        assert("minProperties"@.len() != "maxLength"@.len());
        assert("minProperties"@.len() != "pattern"@.len());
        assert("minProperties"@.len() != "multipleOf"@.len());
        assert("minProperties"@.len() != "minimum"@.len());
        assert("minProperties"@.len() != "maximum"@.len());
        assert("minProperties"@.len() != "exclusiveMinimum"@.len());
        assert("minProperties"@.len() != "exclusiveMaximum"@.len());
        assert("minProperties"@.len() != "minItems"@.len());
        assert("minProperties"@.len() != "maxItems"@.len());
        assert("minProperties"@.len() != "uniqueItems"@.len());
    }
    push_number(&mut out, "minProperties", &s.min_properties, Ghost(e), Ghost(k));
    let ghost e = e + number_keyword("minProperties"@, s.min_properties);
    let ghost k = k.insert("minProperties"@);
    proof {
        assert("maxProperties"@.len() != "minLength"@.len());
        assert("maxProperties"@.len() != "maxLength"@.len());
        assert("maxProperties"@.len() != "pattern"@.len());
        assert("maxProperties"@.len() != "multipleOf"@.len());
        assert("maxProperties"@.len() != "minimum"@.len());
        assert("maxProperties"@.len() != "maximum"@.len());
        assert("maxProperties"@.len() != "exclusiveMinimum"@.len());
        assert("maxProperties"@.len() != "exclusiveMaximum"@.len());
        assert("maxProperties"@.len() != "minItems"@.len());
        assert("maxProperties"@.len() != "maxItems"@.len());
        assert("maxProperties"@.len() != "uniqueItems"@.len());
        assert("maxProperties"@[1] != "minProperties"@[1]);
    }
    push_number(&mut out, "maxProperties", &s.max_properties, Ghost(e), Ghost(k));
    let r = OrderedMap { entries: out };
    assert forall|a: int, b: int| 0 <= a < b < r.keys().len() implies r.keys()[a] != r.keys()[b] by {
        assert(r.entries@[a].0@ != r.entries@[b].0@);
    }
    r
}

} // verus!
