//! Migration of OpenAPI 3.0 documents to OpenAPI 3.1.
//!
//! Every object is migrated field by field: fields that 3.1 dropped are dropped,
//! fields new in 3.1 are absent, and maps keep their keys in order. Schemas are
//! rewritten in substance: `nullable` becomes a `null` type, a single-value `enum`
//! becomes `const`, exclusive-bound flags move the bound into the exclusive field,
//! and a single `example` becomes `examples`. `additionalProperties` is not carried
//! over; [`drops_additional_properties`] reports where that loses information in
//! one schema, and `crate::lossy` in a whole document.
use vstd::prelude::*;
use crate::error::Error;
use crate::ordered_map::OrderedMap;
use crate::text::starts_with;
use crate::v3_0;
use crate::v3_1;

verus! {

/// Migration of a 3.0 value to its 3.1 counterpart.
pub trait MigrateExt {
    type Target;

    /// `out` is what migrating `self` gives.
    spec fn migrates_to(&self, out: &Self::Target) -> bool;

    fn to_v3_1(&self) -> (out: Self::Target)
        ensures
            self.migrates_to(&out),
    ;
}

impl MigrateExt for String {
    type Target = String;

    open spec fn migrates_to(&self, out: &String) -> bool {
        *out == *self
    }

    fn to_v3_1(&self) -> (out: String) {
        self.clone()
    }
}

impl MigrateExt for bool {
    type Target = bool;

    open spec fn migrates_to(&self, out: &bool) -> bool {
        *out == *self
    }

    fn to_v3_1(&self) -> (out: bool) {
        *self
    }
}

impl MigrateExt for serde_json::Value {
    type Target = serde_json::Value;

    open spec fn migrates_to(&self, out: &serde_json::Value) -> bool {
        *out == *self
    }

    fn to_v3_1(&self) -> (out: serde_json::Value) {
        self.clone()
    }
}

impl MigrateExt for serde_json::Number {
    type Target = serde_json::Number;

    open spec fn migrates_to(&self, out: &serde_json::Number) -> bool {
        *out == *self
    }

    fn to_v3_1(&self) -> (out: serde_json::Number) {
        self.clone()
    }
}

impl<A: MigrateExt> MigrateExt for Option<A> {
    type Target = Option<A::Target>;

    open spec fn migrates_to(&self, out: &Option<A::Target>) -> bool {
        match (*self, *out) {
            (None, None) => true,
            (Some(a), Some(b)) => a.migrates_to(&b),
            _ => false,
        }
    }

    fn to_v3_1(&self) -> (out: Option<A::Target>) {
        match self {
            Some(a) => Some(a.to_v3_1()),
            None => None,
        }
    }
}

impl<A: MigrateExt> MigrateExt for Vec<A> {
    type Target = Vec<A::Target>;

    open spec fn migrates_to(&self, out: &Vec<A::Target>) -> bool {
        &&& out@.len() == self@.len()
        &&& forall|i: int| 0 <= i < self@.len() ==> #[trigger] self@[i].migrates_to(&out@[i])
    }

    fn to_v3_1(&self) -> (out: Vec<A::Target>) {
        let mut out: Vec<A::Target> = Vec::new();
        let mut i: usize = 0;
        while i < self.len()
            invariant
                i <= self@.len(),
                out@.len() == i,
                forall|j: int| 0 <= j < i ==> #[trigger] self@[j].migrates_to(&out@[j]),
            decreases self@.len() - i,
        {
            out.push(self[i].to_v3_1());
            i = i + 1;
        }
        out
    }
}

impl<A: MigrateExt> MigrateExt for OrderedMap<A> {
    type Target = OrderedMap<A::Target>;

    /// Same keys in the same order, each value migrated.
    open spec fn migrates_to(&self, out: &OrderedMap<A::Target>) -> bool {
        &&& out.entries@.len() == self.entries@.len()
        &&& forall|i: int|
            0 <= i < self.entries@.len() ==> #[trigger] out.entries@[i].0 == self.entries@[i].0
                && self.entries@[i].1.migrates_to(&out.entries@[i].1)
    }

    fn to_v3_1(&self) -> (out: OrderedMap<A::Target>) {
        let mut out: Vec<(String, A::Target)> = Vec::new();
        let mut i: usize = 0;
        while i < self.entries.len()
            invariant
                i <= self.entries@.len(),
                out@.len() == i,
                forall|j: int|
                    0 <= j < i ==> #[trigger] out@[j].0 == self.entries@[j].0
                        && self.entries@[j].1.migrates_to(&out@[j].1),
            decreases self.entries@.len() - i,
        {
            out.push((self.entries[i].0.clone(), self.entries[i].1.to_v3_1()));
            i = i + 1;
        }
        OrderedMap { entries: out }
    }
}

impl MigrateExt for v3_0::Reference {
    type Target = v3_1::Reference;

    /// A 3.1 reference may carry a summary and a description; migrated ones do not.
    open spec fn migrates_to(&self, out: &v3_1::Reference) -> bool {
        &&& out.path == self.path
        &&& out.summary is None
        &&& out.description is None
    }

    fn to_v3_1(&self) -> (out: v3_1::Reference) {
        v3_1::Reference { path: self.path.clone(), summary: None, description: None }
    }
}

impl<A: MigrateExt> MigrateExt for v3_0::Referenceable<A> {
    type Target = v3_1::Referenceable<A::Target>;

    open spec fn migrates_to(&self, out: &v3_1::Referenceable<A::Target>) -> bool {
        match (*self, *out) {
            (v3_0::Referenceable::Reference(a), v3_1::Referenceable::Reference(b)) => a.migrates_to(
                &b,
            ),
            (v3_0::Referenceable::Value(a), v3_1::Referenceable::Value(b)) => a.migrates_to(&b),
            _ => false,
        }
    }

    fn to_v3_1(&self) -> (out: v3_1::Referenceable<A::Target>) {
        match self {
            v3_0::Referenceable::Reference(r) => v3_1::Referenceable::Reference(r.to_v3_1()),
            v3_0::Referenceable::Value(v) => v3_1::Referenceable::Value(v.to_v3_1()),
        }
    }
}

impl MigrateExt for v3_0::Info {
    type Target = v3_1::Info;

    open spec fn migrates_to(&self, out: &v3_1::Info) -> bool {
        &&& self.title.migrates_to(&out.title)
        &&& out.summary is None
        &&& self.description.migrates_to(&out.description)
        &&& self.terms_of_service.migrates_to(&out.terms_of_service)
        &&& self.contact.migrates_to(&out.contact)
        &&& self.license.migrates_to(&out.license)
        &&& self.version.migrates_to(&out.version)
    }

    fn to_v3_1(&self) -> (out: v3_1::Info) {
        v3_1::Info {
            title: self.title.to_v3_1(),
            summary: None,
            description: self.description.to_v3_1(),
            terms_of_service: self.terms_of_service.to_v3_1(),
            contact: self.contact.to_v3_1(),
            license: self.license.to_v3_1(),
            version: self.version.to_v3_1(),
        }
    }
}

impl MigrateExt for v3_0::Contact {
    type Target = v3_1::Contact;

    open spec fn migrates_to(&self, out: &v3_1::Contact) -> bool {
        &&& self.name.migrates_to(&out.name)
        &&& self.url.migrates_to(&out.url)
        &&& self.email.migrates_to(&out.email)
    }

    fn to_v3_1(&self) -> (out: v3_1::Contact) {
        v3_1::Contact {
            name: self.name.to_v3_1(),
            url: self.url.to_v3_1(),
            email: self.email.to_v3_1(),
        }
    }
}

impl MigrateExt for v3_0::License {
    type Target = v3_1::License;

    open spec fn migrates_to(&self, out: &v3_1::License) -> bool {
        &&& self.name.migrates_to(&out.name)
        &&& out.identifier is None
        &&& self.url.migrates_to(&out.url)
    }

    fn to_v3_1(&self) -> (out: v3_1::License) {
        v3_1::License { name: self.name.to_v3_1(), identifier: None, url: self.url.to_v3_1() }
    }
}

impl MigrateExt for v3_0::Server {
    type Target = v3_1::Server;

    open spec fn migrates_to(&self, out: &v3_1::Server) -> bool {
        &&& self.url.migrates_to(&out.url)
        &&& self.description.migrates_to(&out.description)
        &&& self.variables.migrates_to(&out.variables)
    }

    fn to_v3_1(&self) -> (out: v3_1::Server) {
        v3_1::Server {
            url: self.url.to_v3_1(),
            description: self.description.to_v3_1(),
            variables: self.variables.to_v3_1(),
        }
    }
}

impl MigrateExt for v3_0::ServerVariable {
    type Target = v3_1::ServerVariable;

    open spec fn migrates_to(&self, out: &v3_1::ServerVariable) -> bool {
        &&& self.enum_.migrates_to(&out.enum_)
        &&& self.default.migrates_to(&out.default)
        &&& self.description.migrates_to(&out.description)
    }

    fn to_v3_1(&self) -> (out: v3_1::ServerVariable) {
        v3_1::ServerVariable {
            enum_: self.enum_.to_v3_1(),
            default: self.default.to_v3_1(),
            description: self.description.to_v3_1(),
        }
    }
}

impl MigrateExt for v3_0::ExternalDocumentation {
    type Target = v3_1::ExternalDocumentation;

    open spec fn migrates_to(&self, out: &v3_1::ExternalDocumentation) -> bool {
        &&& self.description.migrates_to(&out.description)
        &&& self.url.migrates_to(&out.url)
    }

    fn to_v3_1(&self) -> (out: v3_1::ExternalDocumentation) {
        v3_1::ExternalDocumentation {
            description: self.description.to_v3_1(),
            url: self.url.to_v3_1(),
        }
    }
}

impl MigrateExt for v3_0::Tag {
    type Target = v3_1::Tag;

    open spec fn migrates_to(&self, out: &v3_1::Tag) -> bool {
        &&& self.name.migrates_to(&out.name)
        &&& self.description.migrates_to(&out.description)
        &&& self.external_docs.migrates_to(&out.external_docs)
    }

    fn to_v3_1(&self) -> (out: v3_1::Tag) {
        v3_1::Tag {
            name: self.name.to_v3_1(),
            description: self.description.to_v3_1(),
            external_docs: self.external_docs.to_v3_1(),
        }
    }
}

impl MigrateExt for v3_0::Example {
    type Target = v3_1::Example;

    open spec fn migrates_to(&self, out: &v3_1::Example) -> bool {
        &&& self.summary.migrates_to(&out.summary)
        &&& self.description.migrates_to(&out.description)
        &&& self.value.migrates_to(&out.value)
        &&& self.external_value.migrates_to(&out.external_value)
    }

    fn to_v3_1(&self) -> (out: v3_1::Example) {
        v3_1::Example {
            summary: self.summary.to_v3_1(),
            description: self.description.to_v3_1(),
            value: self.value.to_v3_1(),
            external_value: self.external_value.to_v3_1(),
        }
    }
}

impl MigrateExt for v3_0::Link {
    type Target = v3_1::Link;

    open spec fn migrates_to(&self, out: &v3_1::Link) -> bool {
        &&& self.operation_ref.migrates_to(&out.operation_ref)
        &&& self.operation_id.migrates_to(&out.operation_id)
        &&& self.parameters.migrates_to(&out.parameters)
        &&& self.request_body.migrates_to(&out.request_body)
        &&& self.description.migrates_to(&out.description)
        &&& self.server.migrates_to(&out.server)
    }

    fn to_v3_1(&self) -> (out: v3_1::Link) {
        v3_1::Link {
            operation_ref: self.operation_ref.to_v3_1(),
            operation_id: self.operation_id.to_v3_1(),
            parameters: self.parameters.to_v3_1(),
            request_body: self.request_body.to_v3_1(),
            description: self.description.to_v3_1(),
            server: self.server.to_v3_1(),
        }
    }
}

impl MigrateExt for v3_0::SecurityScheme {
    type Target = v3_1::SecurityScheme;

    open spec fn migrates_to(&self, out: &v3_1::SecurityScheme) -> bool {
        &&& self.type_.migrates_to(&out.type_)
        &&& self.description.migrates_to(&out.description)
        &&& self.name.migrates_to(&out.name)
        &&& self.in_.migrates_to(&out.in_)
        &&& self.scheme.migrates_to(&out.scheme)
        &&& self.bearer_format.migrates_to(&out.bearer_format)
        &&& self.flows.migrates_to(&out.flows)
        &&& self.open_id_connect_url.migrates_to(&out.open_id_connect_url)
    }

    fn to_v3_1(&self) -> (out: v3_1::SecurityScheme) {
        v3_1::SecurityScheme {
            type_: self.type_.to_v3_1(),
            description: self.description.to_v3_1(),
            name: self.name.to_v3_1(),
            in_: self.in_.to_v3_1(),
            scheme: self.scheme.to_v3_1(),
            bearer_format: self.bearer_format.to_v3_1(),
            flows: self.flows.to_v3_1(),
            open_id_connect_url: self.open_id_connect_url.to_v3_1(),
        }
    }
}

impl MigrateExt for v3_0::OAuthFlows {
    type Target = v3_1::OAuthFlows;

    open spec fn migrates_to(&self, out: &v3_1::OAuthFlows) -> bool {
        &&& self.implicit.migrates_to(&out.implicit)
        &&& self.password.migrates_to(&out.password)
        &&& self.client_credentials.migrates_to(&out.client_credentials)
        &&& self.authorization_code.migrates_to(&out.authorization_code)
    }

    fn to_v3_1(&self) -> (out: v3_1::OAuthFlows) {
        v3_1::OAuthFlows {
            implicit: self.implicit.to_v3_1(),
            password: self.password.to_v3_1(),
            client_credentials: self.client_credentials.to_v3_1(),
            authorization_code: self.authorization_code.to_v3_1(),
        }
    }
}

impl MigrateExt for v3_0::OAuthFlow {
    type Target = v3_1::OAuthFlow;

    open spec fn migrates_to(&self, out: &v3_1::OAuthFlow) -> bool {
        &&& self.authorization_url.migrates_to(&out.authorization_url)
        &&& self.token_url.migrates_to(&out.token_url)
        &&& self.refresh_url.migrates_to(&out.refresh_url)
        &&& self.scopes.migrates_to(&out.scopes)
    }

    fn to_v3_1(&self) -> (out: v3_1::OAuthFlow) {
        v3_1::OAuthFlow {
            authorization_url: self.authorization_url.to_v3_1(),
            token_url: self.token_url.to_v3_1(),
            refresh_url: self.refresh_url.to_v3_1(),
            scopes: self.scopes.to_v3_1(),
        }
    }
}

pub open spec fn convert_type(t: v3_0::SchemaType) -> v3_1::SchemaType {
    match t {
        v3_0::SchemaType::Array => v3_1::SchemaType::Array,
        v3_0::SchemaType::Boolean => v3_1::SchemaType::Boolean,
        v3_0::SchemaType::Integer => v3_1::SchemaType::Integer,
        v3_0::SchemaType::Number => v3_1::SchemaType::Number,
        v3_0::SchemaType::Object => v3_1::SchemaType::Object,
        v3_0::SchemaType::String => v3_1::SchemaType::String,
    }
}

impl MigrateExt for v3_0::SchemaType {
    type Target = v3_1::SchemaType;

    open spec fn migrates_to(&self, out: &v3_1::SchemaType) -> bool {
        *out == convert_type(*self)
    }

    fn to_v3_1(&self) -> (out: v3_1::SchemaType) {
        match self {
            v3_0::SchemaType::Array => v3_1::SchemaType::Array,
            v3_0::SchemaType::Boolean => v3_1::SchemaType::Boolean,
            v3_0::SchemaType::Integer => v3_1::SchemaType::Integer,
            v3_0::SchemaType::Number => v3_1::SchemaType::Number,
            v3_0::SchemaType::Object => v3_1::SchemaType::Object,
            v3_0::SchemaType::String => v3_1::SchemaType::String,
        }
    }
}

/// None of the keywords that only JSON Schema 2020-12 knows is set.
pub open spec fn lacks_new_keywords(b: v3_1::Schema) -> bool {
    &&& b.schema is None
    &&& b.id is None
    &&& b.vocabulary is None
    &&& b.dynamic_anchor is None
    &&& b.anchor is None
    &&& b.defs is None
    &&& b.comment is None
    &&& b.content_media_type is None
    &&& b.content_encoding is None
    &&& b.content_schema is None
    &&& b.dependent_required is None
    &&& b.dependent_schemas is None
    &&& b.if_ is None
    &&& b.then_ is None
    &&& b.else_ is None
    &&& b.pattern_properties is None
    &&& b.unevaluated_properties is None
    &&& b.property_names is None
    &&& b.prefix_items is None
    &&& b.unevaluated_items is None
    &&& b.contains is None
    &&& b.min_contains is None
    &&& b.max_contains is None
}

/// `b` is a schema that holds a reference to `path` and nothing else.
pub open spec fn is_reference_to(b: v3_1::Schema, path: String) -> bool {
    &&& b.ref_ == Some(path)
    &&& lacks_new_keywords(b)
    &&& b.type_ is None
    &&& b.format is None
    &&& b.title is None
    &&& b.description is None
    &&& b.default is None
    &&& b.examples is None
    &&& b.read_only is None
    &&& b.write_only is None
    &&& b.deprecated is None
    &&& b.enum_ is None
    &&& b.const_ is None
    &&& b.all_of is None
    &&& b.any_of is None
    &&& b.one_of is None
    &&& b.not is None
    &&& b.min_length is None
    &&& b.max_length is None
    &&& b.pattern is None
    &&& b.multiple_of is None
    &&& b.maximum is None
    &&& b.exclusive_maximum is None
    &&& b.minimum is None
    &&& b.exclusive_minimum is None
    &&& b.properties is None
    &&& b.additional_properties is None
    &&& b.required is None
    &&& b.max_properties is None
    &&& b.min_properties is None
    &&& b.items is None
    &&& b.max_items is None
    &&& b.min_items is None
    &&& b.unique_items is None
}

/// The type list for a 3.0 type and `nullable` flag: none without a type, the type
/// alone, or the type and `null` when the flag is set.
pub open spec fn type_rule(a: v3_0::Schema, b: v3_1::Schema) -> bool {
    match a.type_ {
        None => b.type_ is None,
        Some(t) => b.type_ matches Some(v) && v@ == if a.nullable == Some(true) {
            seq![convert_type(t), v3_1::SchemaType::Null]
        } else {
            seq![convert_type(t)]
        },
    }
}

/// An `enum` of one value becomes `const` and leaves no `enum`; any other `enum`
/// is kept as it is.
pub open spec fn enum_rule(a: v3_0::Schema, b: v3_1::Schema) -> bool {
    match a.enum_ {
        None => b.enum_ is None && b.const_ is None,
        Some(e) => if e@.len() == 1 {
            b.enum_ is None && b.const_ == Some(e@[0])
        } else {
            b.enum_ matches Some(f) && f@ == e@ && b.const_ is None
        },
    }
}

/// A set exclusivity flag moves the bound into the exclusive field; otherwise the
/// bound stays and the exclusive field is absent.
pub open spec fn bound_rule(a: v3_0::Schema, b: v3_1::Schema) -> bool {
    &&& if a.exclusive_maximum == Some(true) {
        b.exclusive_maximum == a.maximum && b.maximum is None
    } else {
        b.maximum == a.maximum && b.exclusive_maximum is None
    }
    &&& if a.exclusive_minimum == Some(true) {
        b.exclusive_minimum == a.minimum && b.minimum is None
    } else {
        b.minimum == a.minimum && b.exclusive_minimum is None
    }
}

/// A single `example` becomes a one-element `examples`; none stays none.
pub open spec fn example_rule(a: v3_0::Schema, b: v3_1::Schema) -> bool {
    match a.example {
        None => b.examples is None,
        Some(x) => b.examples matches Some(v) && v@ == seq![x],
    }
}

/// The migration of a 3.0 schema: the rewrites above, the keywords both versions
/// share carried over, sub-schemas migrated, and nothing else set.
pub open spec fn schema_migrated(a: v3_0::Schema, b: v3_1::Schema) -> bool
    decreases a,
{
    &&& b.ref_ is None
    &&& lacks_new_keywords(b)
    &&& b.additional_properties is None
    &&& type_rule(a, b)
    &&& enum_rule(a, b)
    &&& bound_rule(a, b)
    &&& example_rule(a, b)
    &&& a.format.migrates_to(&b.format)
    &&& a.title.migrates_to(&b.title)
    &&& a.description.migrates_to(&b.description)
    &&& a.default.migrates_to(&b.default)
    &&& a.read_only.migrates_to(&b.read_only)
    &&& a.write_only.migrates_to(&b.write_only)
    &&& a.deprecated.migrates_to(&b.deprecated)
    &&& a.min_length.migrates_to(&b.min_length)
    &&& a.max_length.migrates_to(&b.max_length)
    &&& a.pattern.migrates_to(&b.pattern)
    &&& a.multiple_of.migrates_to(&b.multiple_of)
    &&& a.required.migrates_to(&b.required)
    &&& a.max_properties.migrates_to(&b.max_properties)
    &&& a.min_properties.migrates_to(&b.min_properties)
    &&& a.max_items.migrates_to(&b.max_items)
    &&& a.min_items.migrates_to(&b.min_items)
    &&& a.unique_items.migrates_to(&b.unique_items)
    &&& match (a.not, b.not) {
        (None, None) => true,
        (Some(x), Some(y)) => ref_schema_migrated(*x, *y),
        _ => false,
    }
    &&& match (a.items, b.items) {
        (None, None) => true,
        (Some(x), Some(v3_1::BoolOr::Value(y))) => ref_schema_migrated(*x, *y),
        _ => false,
    }
    &&& schema_list_migrated(a.all_of, b.all_of)
    &&& schema_list_migrated(a.any_of, b.any_of)
    &&& schema_list_migrated(a.one_of, b.one_of)
    &&& schema_map_migrated(a.properties, b.properties)
}

/// A reference becomes a schema that holds only the reference.
pub open spec fn ref_schema_migrated(a: v3_0::Referenceable<v3_0::Schema>, b: v3_1::Schema) -> bool
    decreases a,
{
    match a {
        v3_0::Referenceable::Reference(r) => is_reference_to(b, r.path),
        v3_0::Referenceable::Value(v) => schema_migrated(v, b),
    }
}

pub open spec fn schema_list_migrated(
    a: Option<Vec<v3_0::Referenceable<v3_0::Schema>>>,
    b: Option<Vec<v3_1::Schema>>,
) -> bool
    decreases a,
{
    match (a, b) {
        (None, None) => true,
        (Some(x), Some(y)) => x@.len() == y@.len() && forall|i: int|
            #![trigger y@[i]]
            0 <= i < x@.len() ==> ref_schema_migrated(x@[i], y@[i]),
        _ => false,
    }
}

pub open spec fn schema_map_migrated(
    a: Option<OrderedMap<v3_0::Referenceable<v3_0::Schema>>>,
    b: Option<OrderedMap<v3_1::Schema>>,
) -> bool
    decreases a,
{
    match (a, b) {
        (None, None) => true,
        (Some(x), Some(y)) => x.entries@.len() == y.entries@.len() && forall|i: int|
            0 <= i < x.entries@.len() ==> #[trigger] y.entries@[i].0 == x.entries@[i].0
                && ref_schema_migrated(x.entries@[i].1, y.entries@[i].1),
        _ => false,
    }
}

fn copy_number(n: &Option<serde_json::Number>) -> (r: Option<serde_json::Number>)
    ensures
        r == *n,
{
    match n {
        Some(x) => Some(x.clone()),
        None => None,
    }
}

fn reference_schema(path: &String) -> (b: v3_1::Schema)
    ensures
        is_reference_to(b, *path),
{
    v3_1::Schema {
        ref_: Some(path.clone()),
        type_: None,
        format: None,
        schema: None,
        id: None,
        vocabulary: None,
        dynamic_anchor: None,
        anchor: None,
        defs: None,
        title: None,
        description: None,
        default: None,
        examples: None,
        read_only: None,
        write_only: None,
        deprecated: None,
        comment: None,
        enum_: None,
        const_: None,
        content_media_type: None,
        content_encoding: None,
        content_schema: None,
        all_of: None,
        any_of: None,
        one_of: None,
        not: None,
        dependent_required: None,
        dependent_schemas: None,
        if_: None,
        then_: None,
        else_: None,
        min_length: None,
        max_length: None,
        pattern: None,
        multiple_of: None,
        maximum: None,
        exclusive_maximum: None,
        minimum: None,
        exclusive_minimum: None,
        properties: None,
        pattern_properties: None,
        additional_properties: None,
        unevaluated_properties: None,
        required: None,
        property_names: None,
        max_properties: None,
        min_properties: None,
        items: None,
        prefix_items: None,
        unevaluated_items: None,
        contains: None,
        min_contains: None,
        max_contains: None,
        max_items: None,
        min_items: None,
        unique_items: None,
    }
}

fn migrate_type(a: &v3_0::Schema) -> (r: Option<Vec<v3_1::SchemaType>>)
    ensures
        match a.type_ {
            None => r is None,
            Some(t) => r matches Some(v) && v@ == if a.nullable == Some(true) {
                seq![convert_type(t), v3_1::SchemaType::Null]
            } else {
                seq![convert_type(t)]
            },
        },
{
    match &a.type_ {
        None => None,
        Some(t) => {
            let mut v: Vec<v3_1::SchemaType> = Vec::new();
            v.push(t.to_v3_1());
            if matches!(a.nullable, Some(true)) {
                v.push(v3_1::SchemaType::Null);
                assert(v@ =~= seq![convert_type(*t), v3_1::SchemaType::Null]);
            } else {
                assert(v@ =~= seq![convert_type(*t)]);
            }
            Some(v)
        },
    }
}

/// Migrates a 3.0 schema; see [`schema_migrated`].
pub fn migrate_schema(a: &v3_0::Schema) -> (b: v3_1::Schema)
    ensures
        schema_migrated(*a, b),
    decreases a,
{
    let type_ = migrate_type(a);
    let (enum_, const_) = match &a.enum_ {
        None => (None, None),
        Some(e) => if e.len() == 1 {
            (None, Some(e[0].clone()))
        } else {
            let kept = e.to_v3_1();
            assert forall|j: int| 0 <= j < e@.len() implies kept@[j] == e@[j] by {
                assert(e@[j].migrates_to(&kept@[j]));
            }
            assert(kept@ =~= e@);
            (Some(kept), None)
        },
    };
    let (maximum, exclusive_maximum) = if matches!(a.exclusive_maximum, Some(true)) {
        (None, copy_number(&a.maximum))
    } else {
        (copy_number(&a.maximum), None)
    };
    let (minimum, exclusive_minimum) = if matches!(a.exclusive_minimum, Some(true)) {
        (None, copy_number(&a.minimum))
    } else {
        (copy_number(&a.minimum), None)
    };
    let examples = match &a.example {
        None => None,
        Some(x) => {
            let mut v: Vec<serde_json::Value> = Vec::new();
            v.push(x.clone());
            assert(v@ =~= seq![*x]);
            Some(v)
        },
    };
    let not = match &a.not {
        None => None,
        Some(x) => Some(Box::new(migrate_ref_schema(x))),
    };
    let items = match &a.items {
        None => None,
        Some(x) => Some(v3_1::BoolOr::Value(Box::new(migrate_ref_schema(x)))),
    };
    v3_1::Schema {
        ref_: None,
        type_,
        format: a.format.to_v3_1(),
        schema: None,
        id: None,
        vocabulary: None,
        dynamic_anchor: None,
        anchor: None,
        defs: None,
        title: a.title.to_v3_1(),
        description: a.description.to_v3_1(),
        default: a.default.to_v3_1(),
        examples,
        read_only: a.read_only.to_v3_1(),
        write_only: a.write_only.to_v3_1(),
        deprecated: a.deprecated.to_v3_1(),
        comment: None,
        enum_,
        const_,
        content_media_type: None,
        content_encoding: None,
        content_schema: None,
        all_of: migrate_schema_list(&a.all_of),
        any_of: migrate_schema_list(&a.any_of),
        one_of: migrate_schema_list(&a.one_of),
        not,
        dependent_required: None,
        dependent_schemas: None,
        if_: None,
        then_: None,
        else_: None,
        min_length: a.min_length.to_v3_1(),
        max_length: a.max_length.to_v3_1(),
        pattern: a.pattern.to_v3_1(),
        multiple_of: a.multiple_of.to_v3_1(),
        maximum,
        exclusive_maximum,
        minimum,
        exclusive_minimum,
        properties: migrate_schema_map(&a.properties),
        pattern_properties: None,
        additional_properties: None,
        unevaluated_properties: None,
        required: a.required.to_v3_1(),
        property_names: None,
        max_properties: a.max_properties.to_v3_1(),
        min_properties: a.min_properties.to_v3_1(),
        items,
        prefix_items: None,
        unevaluated_items: None,
        contains: None,
        min_contains: None,
        max_contains: None,
        max_items: a.max_items.to_v3_1(),
        min_items: a.min_items.to_v3_1(),
        unique_items: a.unique_items.to_v3_1(),
    }
}

/// Migrates a schema or a reference to one; a reference becomes a schema that holds
/// only the reference.
pub fn migrate_ref_schema(a: &v3_0::Referenceable<v3_0::Schema>) -> (b: v3_1::Schema)
    ensures
        ref_schema_migrated(*a, b),
    decreases a,
{
    match a {
        v3_0::Referenceable::Reference(r) => reference_schema(&r.path),
        v3_0::Referenceable::Value(v) => migrate_schema(v),
    }
}

fn migrate_schema_list(a: &Option<Vec<v3_0::Referenceable<v3_0::Schema>>>) -> (b: Option<
    Vec<v3_1::Schema>,
>)
    ensures
        schema_list_migrated(*a, b),
    decreases a,
{
    match a {
        None => None,
        Some(x) => {
            let mut out: Vec<v3_1::Schema> = Vec::new();
            let mut i: usize = 0;
            while i < x.len()
                invariant
                    *a == Some(*x),
                    i <= x@.len(),
                    out@.len() == i,
                    forall|j: int| #![trigger out@[j]] 0 <= j < i ==> ref_schema_migrated(x@[j], out@[j]),
                decreases x@.len() - i,
            {
                proof {
                    assert(decreases_to!(*a => (*a)->Some_0));
                    assert(decreases_to!(*x => x[i as int]));
                }
                out.push(migrate_ref_schema(&x[i]));
                i = i + 1;
            }
            Some(out)
        },
    }
}

fn migrate_schema_map(a: &Option<OrderedMap<v3_0::Referenceable<v3_0::Schema>>>) -> (b: Option<
    OrderedMap<v3_1::Schema>,
>)
    ensures
        schema_map_migrated(*a, b),
    decreases a,
{
    match a {
        None => None,
        Some(x) => {
            let mut out: Vec<(String, v3_1::Schema)> = Vec::new();
            let mut i: usize = 0;
            while i < x.entries.len()
                invariant
                    *a == Some(*x),
                    i <= x.entries@.len(),
                    out@.len() == i,
                    forall|j: int|
                        0 <= j < i ==> #[trigger] out@[j].0 == x.entries@[j].0 && ref_schema_migrated(
                            x.entries@[j].1,
                            out@[j].1,
                        ),
                decreases x.entries@.len() - i,
            {
                proof {
                    assert(decreases_to!(*a => (*a)->Some_0));
                    assert(decreases_to!(x.entries => x.entries[i as int]));
                }
                out.push((x.entries[i].0.clone(), migrate_ref_schema(&x.entries[i].1)));
                i = i + 1;
            }
            Some(OrderedMap { entries: out })
        },
    }
}

impl MigrateExt for v3_0::Schema {
    type Target = v3_1::Schema;

    open spec fn migrates_to(&self, out: &v3_1::Schema) -> bool {
        schema_migrated(*self, *out)
    }

    fn to_v3_1(&self) -> (out: v3_1::Schema) {
        migrate_schema(self)
    }
}

impl MigrateExt for v3_0::Parameter {
    type Target = v3_1::Parameter;

    open spec fn migrates_to(&self, out: &v3_1::Parameter) -> bool {
        &&& self.name.migrates_to(&out.name)
        &&& self.in_.migrates_to(&out.in_)
        &&& self.description.migrates_to(&out.description)
        &&& self.required.migrates_to(&out.required)
        &&& self.deprecated.migrates_to(&out.deprecated)
        &&& self.allow_empty_value.migrates_to(&out.allow_empty_value)
        &&& self.style.migrates_to(&out.style)
        &&& self.explode.migrates_to(&out.explode)
        &&& self.allow_reserved.migrates_to(&out.allow_reserved)
        &&& self.schema.migrates_to(&out.schema)
        &&& self.example.migrates_to(&out.example)
        &&& self.examples.migrates_to(&out.examples)
        &&& self.content.migrates_to(&out.content)
    }

    fn to_v3_1(&self) -> (out: v3_1::Parameter) {
        v3_1::Parameter {
            name: self.name.to_v3_1(),
            in_: self.in_.to_v3_1(),
            description: self.description.to_v3_1(),
            required: self.required.to_v3_1(),
            deprecated: self.deprecated.to_v3_1(),
            allow_empty_value: self.allow_empty_value.to_v3_1(),
            style: self.style.to_v3_1(),
            explode: self.explode.to_v3_1(),
            allow_reserved: self.allow_reserved.to_v3_1(),
            schema: self.schema.to_v3_1(),
            example: self.example.to_v3_1(),
            examples: self.examples.to_v3_1(),
            content: self.content.to_v3_1(),
        }
    }
}

/// The migration of a header: the shared fields, its content migrated.
pub open spec fn header_migrated(a: v3_0::Header, b: v3_1::Header) -> bool
    decreases a,
{
    &&& a.description.migrates_to(&b.description)
    &&& a.required.migrates_to(&b.required)
    &&& a.deprecated.migrates_to(&b.deprecated)
    &&& a.allow_empty_value.migrates_to(&b.allow_empty_value)
    &&& a.style.migrates_to(&b.style)
    &&& a.explode.migrates_to(&b.explode)
    &&& a.allow_reserved.migrates_to(&b.allow_reserved)
    &&& a.schema.migrates_to(&b.schema)
    &&& a.example.migrates_to(&b.example)
    &&& a.examples.migrates_to(&b.examples)
    &&& media_map_migrated(a.content, b.content)
}

/// The migration of a media type: its schema or schema reference migrated, its
/// encodings migrated.
pub open spec fn media_type_migrated(a: v3_0::MediaType, b: v3_1::MediaType) -> bool
    decreases a,
{
    &&& a.schema.migrates_to(&b.schema)
    &&& a.example.migrates_to(&b.example)
    &&& a.examples.migrates_to(&b.examples)
    &&& encoding_map_migrated(a.encoding, b.encoding)
}

pub open spec fn encoding_migrated(a: v3_0::Encoding, b: v3_1::Encoding) -> bool
    decreases a,
{
    &&& a.content_type.migrates_to(&b.content_type)
    &&& header_map_migrated(a.headers, b.headers)
    &&& a.style.migrates_to(&b.style)
    &&& a.explode.migrates_to(&b.explode)
    &&& a.allow_reserved.migrates_to(&b.allow_reserved)
}

pub open spec fn ref_header_migrated(
    a: v3_0::Referenceable<v3_0::Header>,
    b: v3_1::Referenceable<v3_1::Header>,
) -> bool
    decreases a,
{
    match (a, b) {
        (v3_0::Referenceable::Reference(r), v3_1::Referenceable::Reference(s)) => r.migrates_to(&s),
        (v3_0::Referenceable::Value(h), v3_1::Referenceable::Value(k)) => header_migrated(h, k),
        _ => false,
    }
}

pub open spec fn media_map_migrated(a: Option<OrderedMap<v3_0::MediaType>>, b: Option<OrderedMap<v3_1::MediaType>>) -> bool
    decreases a,
{
    match (a, b) {
        (None, None) => true,
        (Some(x), Some(y)) => x.entries@.len() == y.entries@.len() && forall|i: int|
            #![trigger y.entries@[i]]
            0 <= i < x.entries@.len() ==> y.entries@[i].0 == x.entries@[i].0 && media_type_migrated(
                x.entries@[i].1,
                y.entries@[i].1,
            ),
        _ => false,
    }
}

pub open spec fn encoding_map_migrated(a: Option<OrderedMap<v3_0::Encoding>>, b: Option<OrderedMap<v3_1::Encoding>>) -> bool
    decreases a,
{
    match (a, b) {
        (None, None) => true,
        (Some(x), Some(y)) => x.entries@.len() == y.entries@.len() && forall|i: int|
            #![trigger y.entries@[i]]
            0 <= i < x.entries@.len() ==> y.entries@[i].0 == x.entries@[i].0 && encoding_migrated(
                x.entries@[i].1,
                y.entries@[i].1,
            ),
        _ => false,
    }
}

pub open spec fn header_map_migrated(a: Option<OrderedMap<v3_0::Referenceable<v3_0::Header>>>, b: Option<OrderedMap<v3_1::Referenceable<v3_1::Header>>>) -> bool
    decreases a,
{
    match (a, b) {
        (None, None) => true,
        (Some(x), Some(y)) => x.entries@.len() == y.entries@.len() && forall|i: int|
            #![trigger y.entries@[i]]
            0 <= i < x.entries@.len() ==> y.entries@[i].0 == x.entries@[i].0 && ref_header_migrated(
                x.entries@[i].1,
                y.entries@[i].1,
            ),
        _ => false,
    }
}

/// Migrates a header; see [`header_migrated`].
pub fn migrate_header(a: &v3_0::Header) -> (b: v3_1::Header)
    ensures
        header_migrated(*a, b),
    decreases a,
{
    v3_1::Header {
        description: a.description.to_v3_1(),
        required: a.required.to_v3_1(),
        deprecated: a.deprecated.to_v3_1(),
        allow_empty_value: a.allow_empty_value.to_v3_1(),
        style: a.style.to_v3_1(),
        explode: a.explode.to_v3_1(),
        allow_reserved: a.allow_reserved.to_v3_1(),
        schema: a.schema.to_v3_1(),
        example: a.example.to_v3_1(),
        examples: a.examples.to_v3_1(),
        content: migrate_media_map(&a.content),
    }
}

/// Migrates a media type; see [`media_type_migrated`].
pub fn migrate_media_type(a: &v3_0::MediaType) -> (b: v3_1::MediaType)
    ensures
        media_type_migrated(*a, b),
    decreases a,
{
    v3_1::MediaType {
        schema: a.schema.to_v3_1(),
        example: a.example.to_v3_1(),
        examples: a.examples.to_v3_1(),
        encoding: migrate_encoding_map(&a.encoding),
    }
}

fn migrate_encoding(a: &v3_0::Encoding) -> (b: v3_1::Encoding)
    ensures
        encoding_migrated(*a, b),
    decreases a,
{
    v3_1::Encoding {
        content_type: a.content_type.to_v3_1(),
        headers: migrate_header_map(&a.headers),
        style: a.style.to_v3_1(),
        explode: a.explode.to_v3_1(),
        allow_reserved: a.allow_reserved.to_v3_1(),
    }
}

fn migrate_ref_header(a: &v3_0::Referenceable<v3_0::Header>) -> (b: v3_1::Referenceable<
    v3_1::Header,
>)
    ensures
        ref_header_migrated(*a, b),
    decreases a,
{
    match a {
        v3_0::Referenceable::Reference(r) => v3_1::Referenceable::Reference(r.to_v3_1()),
        v3_0::Referenceable::Value(h) => v3_1::Referenceable::Value(migrate_header(h)),
    }
}

fn migrate_media_map(a: &Option<OrderedMap<v3_0::MediaType>>) -> (b: Option<OrderedMap<v3_1::MediaType>>)
    ensures
        media_map_migrated(*a, b),
    decreases a,
{
    match a {
        None => None,
        Some(x) => {
            let mut out: Vec<(String, v3_1::MediaType)> = Vec::new();
            let mut i: usize = 0;
            while i < x.entries.len()
                invariant
                    *a == Some(*x),
                    i <= x.entries@.len(),
                    out@.len() == i,
                    forall|j: int|
                        #![trigger out@[j]]
                        0 <= j < i ==> out@[j].0 == x.entries@[j].0 && media_type_migrated(
                            x.entries@[j].1,
                            out@[j].1,
                        ),
                decreases x.entries@.len() - i,
            {
                proof {
                    assert(decreases_to!(*a => (*a)->Some_0));
                    assert(decreases_to!(x.entries => x.entries[i as int]));
                }
                out.push((x.entries[i].0.clone(), migrate_media_type(&x.entries[i].1)));
                i = i + 1;
            }
            Some(OrderedMap { entries: out })
        },
    }
}

fn migrate_encoding_map(a: &Option<OrderedMap<v3_0::Encoding>>) -> (b: Option<OrderedMap<v3_1::Encoding>>)
    ensures
        encoding_map_migrated(*a, b),
    decreases a,
{
    match a {
        None => None,
        Some(x) => {
            let mut out: Vec<(String, v3_1::Encoding)> = Vec::new();
            let mut i: usize = 0;
            while i < x.entries.len()
                invariant
                    *a == Some(*x),
                    i <= x.entries@.len(),
                    out@.len() == i,
                    forall|j: int|
                        #![trigger out@[j]]
                        0 <= j < i ==> out@[j].0 == x.entries@[j].0 && encoding_migrated(
                            x.entries@[j].1,
                            out@[j].1,
                        ),
                decreases x.entries@.len() - i,
            {
                proof {
                    assert(decreases_to!(*a => (*a)->Some_0));
                    assert(decreases_to!(x.entries => x.entries[i as int]));
                }
                out.push((x.entries[i].0.clone(), migrate_encoding(&x.entries[i].1)));
                i = i + 1;
            }
            Some(OrderedMap { entries: out })
        },
    }
}

fn migrate_header_map(a: &Option<OrderedMap<v3_0::Referenceable<v3_0::Header>>>) -> (b: Option<OrderedMap<v3_1::Referenceable<v3_1::Header>>>)
    ensures
        header_map_migrated(*a, b),
    decreases a,
{
    match a {
        None => None,
        Some(x) => {
            let mut out: Vec<(String, v3_1::Referenceable<v3_1::Header>)> = Vec::new();
            let mut i: usize = 0;
            while i < x.entries.len()
                invariant
                    *a == Some(*x),
                    i <= x.entries@.len(),
                    out@.len() == i,
                    forall|j: int|
                        #![trigger out@[j]]
                        0 <= j < i ==> out@[j].0 == x.entries@[j].0 && ref_header_migrated(
                            x.entries@[j].1,
                            out@[j].1,
                        ),
                decreases x.entries@.len() - i,
            {
                proof {
                    assert(decreases_to!(*a => (*a)->Some_0));
                    assert(decreases_to!(x.entries => x.entries[i as int]));
                }
                out.push((x.entries[i].0.clone(), migrate_ref_header(&x.entries[i].1)));
                i = i + 1;
            }
            Some(OrderedMap { entries: out })
        },
    }
}

impl MigrateExt for v3_0::Header {
    type Target = v3_1::Header;

    open spec fn migrates_to(&self, out: &v3_1::Header) -> bool {
        header_migrated(*self, *out)
    }

    fn to_v3_1(&self) -> (out: v3_1::Header) {
        migrate_header(self)
    }
}

impl MigrateExt for v3_0::MediaType {
    type Target = v3_1::MediaType;

    open spec fn migrates_to(&self, out: &v3_1::MediaType) -> bool {
        media_type_migrated(*self, *out)
    }

    fn to_v3_1(&self) -> (out: v3_1::MediaType) {
        migrate_media_type(self)
    }
}

impl MigrateExt for v3_0::Encoding {
    type Target = v3_1::Encoding;

    open spec fn migrates_to(&self, out: &v3_1::Encoding) -> bool {
        encoding_migrated(*self, *out)
    }

    fn to_v3_1(&self) -> (out: v3_1::Encoding) {
        migrate_encoding(self)
    }
}

impl MigrateExt for v3_0::RequestBody {
    type Target = v3_1::RequestBody;

    open spec fn migrates_to(&self, out: &v3_1::RequestBody) -> bool {
        &&& self.description.migrates_to(&out.description)
        &&& self.content.migrates_to(&out.content)
        &&& self.required.migrates_to(&out.required)
    }

    fn to_v3_1(&self) -> (out: v3_1::RequestBody) {
        v3_1::RequestBody {
            description: self.description.to_v3_1(),
            content: self.content.to_v3_1(),
            required: self.required.to_v3_1(),
        }
    }
}

impl MigrateExt for v3_0::Response {
    type Target = v3_1::Response;

    open spec fn migrates_to(&self, out: &v3_1::Response) -> bool {
        &&& self.description.migrates_to(&out.description)
        &&& self.headers.migrates_to(&out.headers)
        &&& self.content.migrates_to(&out.content)
        &&& self.links.migrates_to(&out.links)
    }

    fn to_v3_1(&self) -> (out: v3_1::Response) {
        v3_1::Response {
            description: self.description.to_v3_1(),
            headers: self.headers.to_v3_1(),
            content: self.content.to_v3_1(),
            links: self.links.to_v3_1(),
        }
    }
}

impl MigrateExt for v3_0::Responses {
    type Target = v3_1::Responses;

    open spec fn migrates_to(&self, out: &v3_1::Responses) -> bool {
        &&& self.default.migrates_to(&out.default)
        &&& self.items.migrates_to(&out.items)
    }

    fn to_v3_1(&self) -> (out: v3_1::Responses) {
        v3_1::Responses { default: self.default.to_v3_1(), items: self.items.to_v3_1() }
    }
}

/// The migration of a path item: the fields both versions share, each operation
/// migrated with its callbacks.
pub open spec fn path_item_migrated(a: v3_0::PathItem, b: v3_1::PathItem) -> bool
    decreases a,
{
    &&& a.summary.migrates_to(&b.summary)
    &&& a.description.migrates_to(&b.description)
    &&& a.servers.migrates_to(&b.servers)
    &&& a.parameters.migrates_to(&b.parameters)
    &&& operation_opt_migrated(a.get, b.get)
    &&& operation_opt_migrated(a.put, b.put)
    &&& operation_opt_migrated(a.post, b.post)
    &&& operation_opt_migrated(a.delete, b.delete)
    &&& operation_opt_migrated(a.options, b.options)
    &&& operation_opt_migrated(a.head, b.head)
    &&& operation_opt_migrated(a.patch, b.patch)
    &&& operation_opt_migrated(a.trace, b.trace)
}

pub open spec fn operation_opt_migrated(a: Option<v3_0::Operation>, b: Option<v3_1::Operation>) -> bool
    decreases a,
{
    match (a, b) {
        (None, None) => true,
        (Some(x), Some(y)) => operation_migrated(x, y),
        _ => false,
    }
}

pub open spec fn operation_migrated(a: v3_0::Operation, b: v3_1::Operation) -> bool
    decreases a,
{
    &&& a.tags.migrates_to(&b.tags)
    &&& a.summary.migrates_to(&b.summary)
    &&& a.description.migrates_to(&b.description)
    &&& a.external_docs.migrates_to(&b.external_docs)
    &&& a.operation_id.migrates_to(&b.operation_id)
    &&& a.parameters.migrates_to(&b.parameters)
    &&& a.request_body.migrates_to(&b.request_body)
    &&& a.responses.migrates_to(&b.responses)
    &&& callbacks_migrated(a.callbacks, b.callbacks)
    &&& a.deprecated.migrates_to(&b.deprecated)
    &&& a.security.migrates_to(&b.security)
    &&& a.servers.migrates_to(&b.servers)
}

pub open spec fn callbacks_migrated(
    a: Option<OrderedMap<v3_0::Referenceable<v3_0::Callback>>>,
    b: Option<OrderedMap<v3_1::Referenceable<v3_1::Callback>>>,
) -> bool
    decreases a,
{
    match (a, b) {
        (None, None) => true,
        (Some(x), Some(y)) => x.entries@.len() == y.entries@.len() && forall|i: int|
            #![trigger y.entries@[i]]
            0 <= i < x.entries@.len() ==> y.entries@[i].0 == x.entries@[i].0
                && ref_callback_migrated(x.entries@[i].1, y.entries@[i].1),
        _ => false,
    }
}

pub open spec fn ref_callback_migrated(
    a: v3_0::Referenceable<v3_0::Callback>,
    b: v3_1::Referenceable<v3_1::Callback>,
) -> bool
    decreases a,
{
    match (a, b) {
        (v3_0::Referenceable::Reference(r), v3_1::Referenceable::Reference(s)) => r.migrates_to(&s),
        (v3_0::Referenceable::Value(c), v3_1::Referenceable::Value(d)) => path_items_migrated(c, d),
        _ => false,
    }
}

/// Same expressions in the same order, each path item migrated.
pub open spec fn path_items_migrated(
    a: OrderedMap<v3_0::Referenceable<v3_0::PathItem>>,
    b: OrderedMap<v3_1::Referenceable<v3_1::PathItem>>,
) -> bool
    decreases a,
{
    &&& a.entries@.len() == b.entries@.len()
    &&& forall|i: int|
        #![trigger b.entries@[i]]
        0 <= i < a.entries@.len() ==> b.entries@[i].0 == a.entries@[i].0
            && ref_path_item_migrated(a.entries@[i].1, b.entries@[i].1)
}

pub open spec fn ref_path_item_migrated(
    a: v3_0::Referenceable<v3_0::PathItem>,
    b: v3_1::Referenceable<v3_1::PathItem>,
) -> bool
    decreases a,
{
    match (a, b) {
        (v3_0::Referenceable::Reference(r), v3_1::Referenceable::Reference(s)) => r.migrates_to(&s),
        (v3_0::Referenceable::Value(p), v3_1::Referenceable::Value(q)) => path_item_migrated(p, q),
        _ => false,
    }
}

/// Migrates a path item; see [`path_item_migrated`].
pub fn migrate_path_item(a: &v3_0::PathItem) -> (b: v3_1::PathItem)
    ensures
        path_item_migrated(*a, b),
    decreases a,
{
    v3_1::PathItem {
        summary: a.summary.to_v3_1(),
        description: a.description.to_v3_1(),
        get: migrate_operation_opt(&a.get),
        put: migrate_operation_opt(&a.put),
        post: migrate_operation_opt(&a.post),
        delete: migrate_operation_opt(&a.delete),
        options: migrate_operation_opt(&a.options),
        head: migrate_operation_opt(&a.head),
        patch: migrate_operation_opt(&a.patch),
        trace: migrate_operation_opt(&a.trace),
        servers: a.servers.to_v3_1(),
        parameters: a.parameters.to_v3_1(),
    }
}

fn migrate_operation_opt(a: &Option<v3_0::Operation>) -> (b: Option<v3_1::Operation>)
    ensures
        operation_opt_migrated(*a, b),
    decreases a,
{
    match a {
        None => None,
        Some(x) => Some(migrate_operation(x)),
    }
}

/// Migrates an operation; see [`operation_migrated`].
pub fn migrate_operation(a: &v3_0::Operation) -> (b: v3_1::Operation)
    ensures
        operation_migrated(*a, b),
    decreases a,
{
    v3_1::Operation {
        tags: a.tags.to_v3_1(),
        summary: a.summary.to_v3_1(),
        description: a.description.to_v3_1(),
        external_docs: a.external_docs.to_v3_1(),
        operation_id: a.operation_id.to_v3_1(),
        parameters: a.parameters.to_v3_1(),
        request_body: a.request_body.to_v3_1(),
        responses: a.responses.to_v3_1(),
        callbacks: migrate_callbacks(&a.callbacks),
        deprecated: a.deprecated.to_v3_1(),
        security: a.security.to_v3_1(),
        servers: a.servers.to_v3_1(),
    }
}

fn migrate_callbacks(a: &Option<OrderedMap<v3_0::Referenceable<v3_0::Callback>>>) -> (b: Option<
    OrderedMap<v3_1::Referenceable<v3_1::Callback>>,
>)
    ensures
        callbacks_migrated(*a, b),
    decreases a,
{
    match a {
        None => None,
        Some(x) => {
            let mut out: Vec<(String, v3_1::Referenceable<v3_1::Callback>)> = Vec::new();
            let mut i: usize = 0;
            while i < x.entries.len()
                invariant
                    *a == Some(*x),
                    i <= x.entries@.len(),
                    out@.len() == i,
                    forall|j: int|
                        #![trigger out@[j]]
                        0 <= j < i ==> out@[j].0 == x.entries@[j].0 && ref_callback_migrated(
                            x.entries@[j].1,
                            out@[j].1,
                        ),
                decreases x.entries@.len() - i,
            {
                proof {
                    assert(decreases_to!(*a => (*a)->Some_0));
                    assert(decreases_to!(x.entries => x.entries[i as int]));
                }
                out.push((x.entries[i].0.clone(), migrate_ref_callback(&x.entries[i].1)));
                i = i + 1;
            }
            Some(OrderedMap { entries: out })
        },
    }
}

fn migrate_ref_callback(a: &v3_0::Referenceable<v3_0::Callback>) -> (b: v3_1::Referenceable<
    v3_1::Callback,
>)
    ensures
        ref_callback_migrated(*a, b),
    decreases a,
{
    match a {
        v3_0::Referenceable::Reference(r) => v3_1::Referenceable::Reference(r.to_v3_1()),
        v3_0::Referenceable::Value(c) => v3_1::Referenceable::Value(migrate_path_items(c)),
    }
}

/// Migrates path items by expression; see [`path_items_migrated`].
pub fn migrate_path_items(a: &OrderedMap<v3_0::Referenceable<v3_0::PathItem>>) -> (b: OrderedMap<
    v3_1::Referenceable<v3_1::PathItem>,
>)
    ensures
        path_items_migrated(*a, b),
    decreases a,
{
    let mut out: Vec<(String, v3_1::Referenceable<v3_1::PathItem>)> = Vec::new();
    let mut i: usize = 0;
    while i < a.entries.len()
        invariant
            i <= a.entries@.len(),
            out@.len() == i,
            forall|j: int|
                #![trigger out@[j]]
                0 <= j < i ==> out@[j].0 == a.entries@[j].0 && ref_path_item_migrated(
                    a.entries@[j].1,
                    out@[j].1,
                ),
        decreases a.entries@.len() - i,
    {
        proof {
            assert(decreases_to!(a.entries => a.entries[i as int]));
        }
        out.push((a.entries[i].0.clone(), migrate_ref_path_item(&a.entries[i].1)));
        i = i + 1;
    }
    OrderedMap { entries: out }
}

fn migrate_ref_path_item(a: &v3_0::Referenceable<v3_0::PathItem>) -> (b: v3_1::Referenceable<
    v3_1::PathItem,
>)
    ensures
        ref_path_item_migrated(*a, b),
    decreases a,
{
    match a {
        v3_0::Referenceable::Reference(r) => v3_1::Referenceable::Reference(r.to_v3_1()),
        v3_0::Referenceable::Value(p) => v3_1::Referenceable::Value(migrate_path_item(p)),
    }
}

impl MigrateExt for v3_0::PathItem {
    type Target = v3_1::PathItem;

    open spec fn migrates_to(&self, out: &v3_1::PathItem) -> bool {
        path_item_migrated(*self, *out)
    }

    fn to_v3_1(&self) -> (out: v3_1::PathItem) {
        migrate_path_item(self)
    }
}

impl MigrateExt for v3_0::Operation {
    type Target = v3_1::Operation;

    open spec fn migrates_to(&self, out: &v3_1::Operation) -> bool {
        operation_migrated(*self, *out)
    }

    fn to_v3_1(&self) -> (out: v3_1::Operation) {
        migrate_operation(self)
    }
}

impl MigrateExt for v3_0::Components {
    type Target = v3_1::Components;

    open spec fn migrates_to(&self, out: &v3_1::Components) -> bool {
        &&& schema_map_migrated(self.schemas, out.schemas)
        &&& self.responses.migrates_to(&out.responses)
        &&& self.parameters.migrates_to(&out.parameters)
        &&& self.examples.migrates_to(&out.examples)
        &&& self.request_bodies.migrates_to(&out.request_bodies)
        &&& self.headers.migrates_to(&out.headers)
        &&& self.security_schemes.migrates_to(&out.security_schemes)
        &&& self.links.migrates_to(&out.links)
        &&& callbacks_migrated(self.callbacks, out.callbacks)
        &&& out.path_items is None
    }

    fn to_v3_1(&self) -> (out: v3_1::Components) {
        v3_1::Components {
            schemas: migrate_schema_map(&self.schemas),
            responses: self.responses.to_v3_1(),
            parameters: self.parameters.to_v3_1(),
            examples: self.examples.to_v3_1(),
            request_bodies: self.request_bodies.to_v3_1(),
            headers: self.headers.to_v3_1(),
            security_schemes: self.security_schemes.to_v3_1(),
            links: self.links.to_v3_1(),
            callbacks: migrate_callbacks(&self.callbacks),
            path_items: None,
        }
    }
}

/// Whether `version` names a 3.0 document: it begins with `3.0`.
pub open spec fn is_v3_0(version: Seq<char>) -> bool {
    "3.0"@.len() <= version.len() && version.take("3.0"@.len() as int) == "3.0"@
}

/// The migration of a whole document: its version becomes `3.1.0`, every part is
/// migrated, and a missing `paths` becomes an empty one. The document-level
/// `security` of 3.0 lists schemes rather than requirements and is not carried.
pub open spec fn document_migrated(a: v3_0::OpenAPI, b: v3_1::OpenAPI) -> bool {
    &&& b.openapi@ == "3.1.0"@
    &&& a.info.migrates_to(&b.info)
    &&& b.json_schema_dialect is None
    &&& a.servers.migrates_to(&b.servers)
    &&& match a.paths {
        Some(p) => p.migrates_to(&b.paths),
        None => b.paths.entries@.len() == 0,
    }
    &&& b.webhooks is None
    &&& a.components.migrates_to(&b.components)
    &&& b.security is None
    &&& a.tags.migrates_to(&b.tags)
    &&& a.external_docs.migrates_to(&b.external_docs)
}

impl MigrateExt for v3_0::OpenAPI {
    type Target = Result<v3_1::OpenAPI, Error>;

    /// A document of another dialect than 3.0 is refused and nothing is produced.
    open spec fn migrates_to(&self, out: &Result<v3_1::OpenAPI, Error>) -> bool {
        if is_v3_0(self.openapi@) {
            *out matches Ok(b) && document_migrated(*self, b)
        } else {
            *out == Err::<v3_1::OpenAPI, Error>(Error::PreconditionViolation)
        }
    }

    fn to_v3_1(&self) -> (out: Result<v3_1::OpenAPI, Error>) {
        if !starts_with(self.openapi.as_str(), "3.0") {
            return Err(Error::PreconditionViolation);
        }
        let paths = match &self.paths {
            Some(p) => p.to_v3_1(),
            None => OrderedMap::new(),
        };
        Ok(
            v3_1::OpenAPI {
                openapi: String::from_str("3.1.0"),
                info: self.info.to_v3_1(),
                json_schema_dialect: None,
                servers: self.servers.to_v3_1(),
                paths,
                webhooks: None,
                components: self.components.to_v3_1(),
                security: None,
                tags: self.tags.to_v3_1(),
                external_docs: self.external_docs.to_v3_1(),
            },
        )
    }
}

/// Whether migrating `a` loses an `additionalProperties` keyword, in `a` itself or
/// in a sub-schema that 3.1 keeps (`not`, `items`, `allOf`, `anyOf`, `oneOf`,
/// `properties`). The migration carries no such keyword over.
pub open spec fn drops_additional(a: v3_0::Schema) -> bool
    decreases a,
{
    ||| a.additional_properties is Some
    ||| match a.not {
        Some(x) => ref_drops_additional(*x),
        None => false,
    }
    ||| match a.items {
        Some(x) => ref_drops_additional(*x),
        None => false,
    }
    ||| list_drops_additional(a.all_of)
    ||| list_drops_additional(a.any_of)
    ||| list_drops_additional(a.one_of)
    ||| map_drops_additional(a.properties)
}

pub open spec fn ref_drops_additional(a: v3_0::Referenceable<v3_0::Schema>) -> bool
    decreases a,
{
    match a {
        v3_0::Referenceable::Reference(_) => false,
        v3_0::Referenceable::Value(v) => drops_additional(v),
    }
}

pub open spec fn list_drops_additional(a: Option<Vec<v3_0::Referenceable<v3_0::Schema>>>) -> bool
    decreases a,
{
    match a {
        Some(x) => exists|i: int| #![trigger x@[i]] 0 <= i < x@.len() && ref_drops_additional(x@[i]),
        None => false,
    }
}

pub open spec fn map_drops_additional(a: Option<OrderedMap<v3_0::Referenceable<v3_0::Schema>>>) -> bool
    decreases a,
{
    match a {
        Some(x) => exists|i: int|
            #![trigger x.entries@[i]]
            0 <= i < x.entries@.len() && ref_drops_additional(x.entries@[i].1),
        None => false,
    }
}

/// Reports whether migrating `a` loses an `additionalProperties` keyword. The
/// migration still succeeds: this is a warning for callers who need to know.
pub fn drops_additional_properties(a: &v3_0::Schema) -> (r: bool)
    ensures
        r == drops_additional(*a),
    decreases a,
{
    if a.additional_properties.is_some() {
        return true;
    }
    let in_not = match &a.not {
        Some(x) => ref_drops(x),
        None => false,
    };
    let in_items = match &a.items {
        Some(x) => ref_drops(x),
        None => false,
    };
    in_not || in_items || list_drops(&a.all_of) || list_drops(&a.any_of) || list_drops(&a.one_of)
        || map_drops(&a.properties)
}

fn ref_drops(a: &v3_0::Referenceable<v3_0::Schema>) -> (r: bool)
    ensures
        r == ref_drops_additional(*a),
    decreases a,
{
    match a {
        v3_0::Referenceable::Reference(_) => false,
        v3_0::Referenceable::Value(v) => drops_additional_properties(v),
    }
}

fn list_drops(a: &Option<Vec<v3_0::Referenceable<v3_0::Schema>>>) -> (r: bool)
    ensures
        r == list_drops_additional(*a),
    decreases a,
{
    match a {
        None => false,
        Some(x) => {
            let mut i: usize = 0;
            while i < x.len()
                invariant
                    *a == Some(*x),
                    i <= x@.len(),
                    forall|j: int| #![trigger x@[j]] 0 <= j < i ==> !ref_drops_additional(x@[j]),
                decreases x@.len() - i,
            {
                proof {
                    assert(decreases_to!(*a => (*a)->Some_0));
                    assert(decreases_to!(*x => x[i as int]));
                }
                if ref_drops(&x[i]) {
                    return true;
                }
                i = i + 1;
            }
            false
        },
    }
}

fn map_drops(a: &Option<OrderedMap<v3_0::Referenceable<v3_0::Schema>>>) -> (r: bool)
    ensures
        r == map_drops_additional(*a),
    decreases a,
{
    match a {
        None => false,
        Some(x) => {
            let mut i: usize = 0;
            while i < x.entries.len()
                invariant
                    *a == Some(*x),
                    i <= x.entries@.len(),
                    forall|j: int|
                        #![trigger x.entries@[j]]
                        0 <= j < i ==> !ref_drops_additional(x.entries@[j].1),
                decreases x.entries@.len() - i,
            {
                proof {
                    assert(decreases_to!(*a => (*a)->Some_0));
                    assert(decreases_to!(x.entries => x.entries[i as int]));
                }
                if ref_drops(&x.entries[i].1) {
                    return true;
                }
                i = i + 1;
            }
            false
        },
    }
}

/// The names of the named schemas of a document whose migration loses an
/// `additionalProperties` keyword, in order.
pub open spec fn lossy_names(schemas: Seq<(String, v3_0::Referenceable<v3_0::Schema>)>, k: nat) -> Seq<
    Seq<char>,
>
    decreases k,
{
    if k == 0 || k > schemas.len() {
        Seq::empty()
    } else {
        lossy_names(schemas, (k - 1) as nat) + if ref_drops_additional(schemas[k - 1].1) {
            seq![schemas[k - 1].0@]
        } else {
            Seq::empty()
        }
    }
}

/// The named schemas of `doc` whose migration loses an `additionalProperties`
/// keyword. Schemas elsewhere in the document are covered by
/// `crate::lossy::LosesAdditional`.
pub fn lossy_schemas(doc: &v3_0::OpenAPI) -> (r: Vec<String>)
    ensures
        match doc.components {
            Some(c) => match c.schemas {
                Some(s) => r@.map_values(|n: String| n@) == lossy_names(s.entries@, s.entries@.len()),
                None => r@.len() == 0,
            },
            None => r@.len() == 0,
        },
{
    let mut out: Vec<String> = Vec::new();
    if let Some(c) = &doc.components {
        if let Some(s) = &c.schemas {
            let mut i: usize = 0;
            while i < s.entries.len()
                invariant
                    i <= s.entries@.len(),
                    out@.map_values(|n: String| n@) == lossy_names(s.entries@, i as nat),
                decreases s.entries@.len() - i,
            {
                if ref_drops(&s.entries[i].1) {
                    out.push(s.entries[i].0.clone());
                }
                assert(out@.map_values(|n: String| n@) =~= lossy_names(s.entries@, i as nat + 1));
                i = i + 1;
            }
        }
    }
    out
}

/// Migrating `{enum: [v]}` gives `{const: v}` and no `enum`; an `enum` of any other
/// length is kept as given, with no `const`.
pub proof fn law_single_enum_becomes_const(a: v3_0::Schema, b: v3_1::Schema)
    requires
        a.migrates_to(&b),
    ensures
        a.enum_ is None ==> b.enum_ is None && b.const_ is None,
        a.enum_ is Some && a.enum_->Some_0@.len() == 1 ==> b.enum_ is None && b.const_ == Some(
            a.enum_->Some_0@[0],
        ),
        a.enum_ is Some && a.enum_->Some_0@.len() != 1 ==> (b.enum_ matches Some(f) && f@
            == a.enum_->Some_0@) && b.const_ is None,
{
}

/// A set exclusivity flag moves the bound into the exclusive field and clears the
/// plain one; an unset flag keeps the bound where it was and leaves the exclusive
/// field absent.
pub proof fn law_exclusive_bounds_move(a: v3_0::Schema, b: v3_1::Schema)
    requires
        a.migrates_to(&b),
    ensures
        a.exclusive_maximum == Some(true) ==> b.exclusive_maximum == a.maximum && b.maximum is None,
        a.exclusive_maximum != Some(true) ==> b.maximum == a.maximum && b.exclusive_maximum is None,
        a.exclusive_minimum == Some(true) ==> b.exclusive_minimum == a.minimum && b.minimum is None,
        a.exclusive_minimum != Some(true) ==> b.minimum == a.minimum && b.exclusive_minimum is None,
{
}

} // verus!
