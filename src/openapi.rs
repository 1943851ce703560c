//! From an OpenAPI document to the intermediate representation: the document is
//! migrated to 3.1 and its named schemas are resolved into entities.
use vstd::prelude::*;
use crate::error::Error;
use crate::ir::{Entry, Service, YASpec};
use crate::migrate::{MigrateExt, document_migrated, is_v3_0};
use crate::ordered_map::OrderedMap;
use crate::resolve::{
    Entities, applied, components_outcome, entity_model, entry_fits, flat_insert, is_flat_record,
    last_insert, law_flat_components_keep_order,
    lemma_applied_none, resolve_components,
};
use crate::v3_0;
use crate::v3_1;

verus! {

/// What building the representation of a 3.1 document gives: its title, description
/// and version, no services, and the entities that its named schemas resolve to,
/// or the failure of that resolution.
pub open spec fn built_from(doc: v3_1::OpenAPI, r: Result<YASpec, Error>) -> bool {
    let outcome = match doc.components {
        Some(c) => match c.schemas {
            Some(s) => components_outcome(s, s.entries@.len()),
            None => Ok(Seq::empty()),
        },
        None => Ok(Seq::empty()),
    };
    match outcome {
        Ok(ns) => r matches Ok(y) && y.yaspec@ == "0.1.0"@ && y.name == doc.info.title
            && y.description == doc.info.description && y.version == doc.info.version
            && applied(Seq::empty(), y.entities, ns) && y.services.entries@.len() == 0,
        Err(e) => r == Err::<YASpec, Error>(e),
    }
}

/// Builds the representation of a 3.1 document.
pub fn build_spec(doc: &v3_1::OpenAPI) -> (r: Result<YASpec, Error>)
    ensures
        built_from(*doc, r),
{
    let mut entities: Entities = OrderedMap::new();
    proof {
        lemma_applied_none(entities);
    }
    if let Some(c) = &doc.components {
        if let Some(s) = &c.schemas {
            entities = match resolve_components(s) {
                Ok(es) => es,
                Err(e) => {
                    return Err(e);
                },
            };
        }
    }
    let services: OrderedMap<Entry<Service>> = OrderedMap::new();
    Ok(
        YASpec {
            yaspec: String::from_str("0.1.0"),
            name: doc.info.title.clone(),
            description: doc.info.description.to_v3_1(),
            version: doc.info.version.clone(),
            entities,
            services,
        },
    )
}

/// The representation of an OpenAPI 3.0 document: migrated to 3.1, then built.
/// A document of another dialect is refused.
pub fn parse_openapi(openapi: &v3_0::OpenAPI) -> (r: Result<YASpec, Error>)
    ensures
        !is_v3_0(openapi.openapi@) ==> r == Err::<YASpec, Error>(Error::PreconditionViolation),
        is_v3_0(openapi.openapi@) ==> exists|d: v3_1::OpenAPI|
            document_migrated(*openapi, d) && #[trigger] built_from(d, r),
{
    match openapi.to_v3_1() {
        Err(e) => Err(e),
        Ok(doc) => {
            let r = build_spec(&doc);
            assert(document_migrated(*openapi, doc) && built_from(doc, r));
            r
        },
    }
}

/// Entities follow the document's order: when the named schemas of a 3.1 document
/// are objects whose properties are all primitive, under distinct names, the
/// representation built from it has exactly those entities, in that order, each
/// the record of its own properties.
pub proof fn law_build_keeps_schema_order(doc: v3_1::OpenAPI, r: Result<YASpec, Error>)
    requires
        built_from(doc, r),
        doc.components matches Some(c) && c.schemas matches Some(s) && s.wf() && forall|i: int|
            #![trigger s.entries@[i]]
            0 <= i < s.entries@.len() ==> is_flat_record(s.entries@[i].1),
    ensures
        r matches Ok(y) && y.entities.keys() == doc.components->Some_0.schemas->Some_0.keys()
            && forall|k: int|
            #![trigger y.entities.entries@[k]]
            0 <= k < y.entities.entries@.len() ==> entry_fits(
                y.entities.entries@[k].1,
                flat_insert(doc.components->Some_0.schemas->Some_0, k),
            ),
{
    let s = doc.components->Some_0.schemas->Some_0;
    law_flat_components_keep_order(s);
    let y = r->Ok_0;
    let ns = components_outcome(s, s.entries@.len())->Ok_0;
    assert forall|k: int|
        #![trigger y.entities.entries@[k]]
        0 <= k < y.entities.entries@.len() implies entry_fits(
            y.entities.entries@[k].1,
            flat_insert(s, k),
        ) by {
        assert(y.entities.keys().len() == y.entities.entries@.len());
        assert(s.keys().len() == s.entries@.len());
        assert(y.entities.keys()[k] == s.keys()[k]);
        assert(s.keys()[k] == s.entries@[k].0@);
        assert(y.entities.keys()[k] == y.entities.entries@[k].0@);
        assert(last_insert(ns, s.entries@[k].0@) == Some(flat_insert(s, k)));
    }
}

/// Building is deterministic: two builds of one document fail with the same error,
/// or both succeed with the same entity names in the same order, each name
/// defined alike.
pub proof fn law_build_deterministic(
    doc: v3_1::OpenAPI,
    r1: Result<YASpec, Error>,
    r2: Result<YASpec, Error>,
)
    requires
        built_from(doc, r1),
        built_from(doc, r2),
    ensures
        r1 is Err ==> r1 == r2,
        r1 matches Ok(y1) ==> (r2 matches Ok(y2) && y1.entities.keys() == y2.entities.keys()
            && forall|k: int|
            #![trigger y1.entities.entries@[k]]
            0 <= k < y1.entities.entries@.len() ==> entity_model(y1.entities.entries@[k].1.inner)
                == entity_model(y2.entities.entries@[k].1.inner)),
{
    if r1 is Ok {
        let y1 = r1->Ok_0;
        let y2 = r2->Ok_0;
        assert forall|k: int|
            #![trigger y1.entities.entries@[k]]
            0 <= k < y1.entities.entries@.len() implies entity_model(
                y1.entities.entries@[k].1.inner,
            ) == entity_model(y2.entities.entries@[k].1.inner) by {
            assert(y1.entities.keys().len() == y1.entities.entries@.len());
            assert(y2.entities.keys().len() == y2.entities.entries@.len());
            assert(y1.entities.keys()[k] == y1.entities.entries@[k].0@);
            assert(y2.entities.keys()[k] == y2.entities.entries@[k].0@);
            assert(y2.entities.entries@[k] == y2.entities.entries@[k]);
        }
    }
}

} // verus!
