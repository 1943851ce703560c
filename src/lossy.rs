//! Where migrating a document to 3.1 loses information: every schema it touches
//! is searched for an `additionalProperties` keyword, which the migration does not
//! carry over.
use vstd::prelude::*;
use crate::migrate::{drops_additional, drops_additional_properties};
use crate::ordered_map::OrderedMap;
use crate::v3_0;

verus! {

/// Whether migrating a value loses an `additionalProperties` keyword in a schema
/// somewhere inside it.
pub trait LosesAdditional {
    spec fn loses_additional(&self) -> bool;

    fn drops_additional(&self) -> (r: bool)
        ensures
            r == self.loses_additional(),
    ;
}

impl<A: LosesAdditional> LosesAdditional for Option<A> {
    open spec fn loses_additional(&self) -> bool {
        match *self {
            Some(a) => a.loses_additional(),
            None => false,
        }
    }

    fn drops_additional(&self) -> (r: bool) {
        match self {
            Some(a) => a.drops_additional(),
            None => false,
        }
    }
}

impl<A: LosesAdditional> LosesAdditional for Vec<A> {
    open spec fn loses_additional(&self) -> bool {
        exists|i: int| 0 <= i < self@.len() && #[trigger] self@[i].loses_additional()
    }

    fn drops_additional(&self) -> (r: bool) {
        let mut i: usize = 0;
        while i < self.len()
            invariant
                i <= self@.len(),
                forall|j: int| 0 <= j < i ==> !#[trigger] self@[j].loses_additional(),
            decreases self@.len() - i,
        {
            if self[i].drops_additional() {
                return true;
            }
            i = i + 1;
        }
        false
    }
}

impl<A: LosesAdditional> LosesAdditional for OrderedMap<A> {
    open spec fn loses_additional(&self) -> bool {
        exists|i: int| 0 <= i < self.entries@.len() && #[trigger] self.entries@[i].1.loses_additional()
    }

    fn drops_additional(&self) -> (r: bool) {
        let mut i: usize = 0;
        while i < self.entries.len()
            invariant
                i <= self.entries@.len(),
                forall|j: int| 0 <= j < i ==> !#[trigger] self.entries@[j].1.loses_additional(),
            decreases self.entries@.len() - i,
        {
            if self.entries[i].1.drops_additional() {
                return true;
            }
            i = i + 1;
        }
        false
    }
}

/// A reference is migrated as it is; only a value can lose anything.
impl<A: LosesAdditional> LosesAdditional for v3_0::Referenceable<A> {
    open spec fn loses_additional(&self) -> bool {
        match *self {
            v3_0::Referenceable::Reference(_) => false,
            v3_0::Referenceable::Value(a) => a.loses_additional(),
        }
    }

    fn drops_additional(&self) -> (r: bool) {
        match self {
            v3_0::Referenceable::Reference(_) => false,
            v3_0::Referenceable::Value(a) => a.drops_additional(),
        }
    }
}

impl LosesAdditional for v3_0::Schema {
    open spec fn loses_additional(&self) -> bool {
        drops_additional(*self)
    }

    fn drops_additional(&self) -> (r: bool) {
        drops_additional_properties(self)
    }
}

impl LosesAdditional for v3_0::Parameter {
    open spec fn loses_additional(&self) -> bool {
        self.schema.loses_additional() || media_map_loses(self.content)
    }

    fn drops_additional(&self) -> (r: bool) {
        self.schema.drops_additional() || media_map_drops(&self.content)
    }
}

impl LosesAdditional for v3_0::RequestBody {
    open spec fn loses_additional(&self) -> bool {
        exists|i: int|
            #![trigger self.content.entries@[i]]
            0 <= i < self.content.entries@.len() && media_type_loses(self.content.entries@[i].1)
    }

    fn drops_additional(&self) -> (r: bool) {
        let mut i: usize = 0;
        while i < self.content.entries.len()
            invariant
                i <= self.content.entries@.len(),
                forall|j: int|
                    #![trigger self.content.entries@[j]]
                    0 <= j < i ==> !media_type_loses(self.content.entries@[j].1),
            decreases self.content.entries@.len() - i,
        {
            if media_type_drops(&self.content.entries[i].1) {
                return true;
            }
            i = i + 1;
        }
        false
    }
}

impl LosesAdditional for v3_0::Response {
    open spec fn loses_additional(&self) -> bool {
        header_map_loses(self.headers) || media_map_loses(self.content)
    }

    fn drops_additional(&self) -> (r: bool) {
        header_map_drops(&self.headers) || media_map_drops(&self.content)
    }
}

impl LosesAdditional for v3_0::Responses {
    open spec fn loses_additional(&self) -> bool {
        self.default.loses_additional() || self.items.loses_additional()
    }

    fn drops_additional(&self) -> (r: bool) {
        self.default.drops_additional() || self.items.drops_additional()
    }
}

impl LosesAdditional for v3_0::Header {
    open spec fn loses_additional(&self) -> bool {
        header_loses(*self)
    }

    fn drops_additional(&self) -> (r: bool) {
        header_drops(self)
    }
}

impl LosesAdditional for v3_0::PathItem {
    open spec fn loses_additional(&self) -> bool {
        path_item_loses(*self)
    }

    fn drops_additional(&self) -> (r: bool) {
        path_item_drops(self)
    }
}

impl LosesAdditional for v3_0::Components {
    open spec fn loses_additional(&self) -> bool {
        ||| self.schemas.loses_additional()
        ||| self.responses.loses_additional()
        ||| self.parameters.loses_additional()
        ||| self.request_bodies.loses_additional()
        ||| header_map_loses(self.headers)
        ||| callbacks_loses(self.callbacks)
    }

    fn drops_additional(&self) -> (r: bool) {
        self.schemas.drops_additional() || self.responses.drops_additional()
            || self.parameters.drops_additional() || self.request_bodies.drops_additional()
            || header_map_drops(&self.headers) || callbacks_drops(&self.callbacks)
    }
}

impl LosesAdditional for v3_0::OpenAPI {
    /// Some schema of the document, in its paths or its components, has an
    /// `additionalProperties` keyword that migration to 3.1 does not carry over.
    open spec fn loses_additional(&self) -> bool {
        self.paths.loses_additional() || self.components.loses_additional()
    }

    fn drops_additional(&self) -> (r: bool) {
        self.paths.drops_additional() || self.components.drops_additional()
    }
}

pub open spec fn header_loses(h: v3_0::Header) -> bool
    decreases h,
{
    h.schema.loses_additional() || media_map_loses(h.content)
}

pub open spec fn media_type_loses(m: v3_0::MediaType) -> bool
    decreases m,
{
    m.schema.loses_additional() || encoding_map_loses(m.encoding)
}

pub open spec fn encoding_loses(e: v3_0::Encoding) -> bool
    decreases e,
{
    header_map_loses(e.headers)
}

pub open spec fn ref_header_loses(r: v3_0::Referenceable<v3_0::Header>) -> bool
    decreases r,
{
    match r {
        v3_0::Referenceable::Reference(_) => false,
        v3_0::Referenceable::Value(h) => header_loses(h),
    }
}

pub open spec fn media_map_loses(a: Option<OrderedMap<v3_0::MediaType>>) -> bool
    decreases a,
{
    match a {
        Some(x) => exists|i: int|
            #![trigger x.entries@[i]]
            0 <= i < x.entries@.len() && media_type_loses(x.entries@[i].1),
        None => false,
    }
}

pub open spec fn encoding_map_loses(a: Option<OrderedMap<v3_0::Encoding>>) -> bool
    decreases a,
{
    match a {
        Some(x) => exists|i: int|
            #![trigger x.entries@[i]]
            0 <= i < x.entries@.len() && encoding_loses(x.entries@[i].1),
        None => false,
    }
}

pub open spec fn header_map_loses(a: Option<OrderedMap<v3_0::Referenceable<v3_0::Header>>>) -> bool
    decreases a,
{
    match a {
        Some(x) => exists|i: int|
            #![trigger x.entries@[i]]
            0 <= i < x.entries@.len() && ref_header_loses(x.entries@[i].1),
        None => false,
    }
}

fn header_drops(h: &v3_0::Header) -> (r: bool)
    ensures
        r == header_loses(*h),
    decreases h,
{
    h.schema.drops_additional() || media_map_drops(&h.content)
}

fn media_type_drops(m: &v3_0::MediaType) -> (r: bool)
    ensures
        r == media_type_loses(*m),
    decreases m,
{
    m.schema.drops_additional() || encoding_map_drops(&m.encoding)
}

fn encoding_drops(e: &v3_0::Encoding) -> (r: bool)
    ensures
        r == encoding_loses(*e),
    decreases e,
{
    header_map_drops(&e.headers)
}

fn ref_header_drops(r: &v3_0::Referenceable<v3_0::Header>) -> (b: bool)
    ensures
        b == ref_header_loses(*r),
    decreases r,
{
    match r {
        v3_0::Referenceable::Reference(_) => false,
        v3_0::Referenceable::Value(h) => header_drops(h),
    }
}

fn media_map_drops(a: &Option<OrderedMap<v3_0::MediaType>>) -> (r: bool)
    ensures
        r == media_map_loses(*a),
    decreases a,
{
    match a {
        None => false,
        Some(x) => {
            let mut i: usize = 0;
            while i < x.entries.len()
                invariant
                    *a == Some(*x),
                    i <= x.entries@.len(),
                    forall|j: int| #![trigger x.entries@[j]] 0 <= j < i ==> !media_type_loses(x.entries@[j].1),
                decreases x.entries@.len() - i,
            {
                proof {
                    assert(decreases_to!(*a => (*a)->Some_0));
                    assert(decreases_to!(x.entries => x.entries[i as int]));
                }
                if media_type_drops(&x.entries[i].1) {
                    return true;
                }
                i = i + 1;
            }
            false
        },
    }
}

fn encoding_map_drops(a: &Option<OrderedMap<v3_0::Encoding>>) -> (r: bool)
    ensures
        r == encoding_map_loses(*a),
    decreases a,
{
    match a {
        None => false,
        Some(x) => {
            let mut i: usize = 0;
            while i < x.entries.len()
                invariant
                    *a == Some(*x),
                    i <= x.entries@.len(),
                    forall|j: int| #![trigger x.entries@[j]] 0 <= j < i ==> !encoding_loses(x.entries@[j].1),
                decreases x.entries@.len() - i,
            {
                proof {
                    assert(decreases_to!(*a => (*a)->Some_0));
                    assert(decreases_to!(x.entries => x.entries[i as int]));
                }
                if encoding_drops(&x.entries[i].1) {
                    return true;
                }
                i = i + 1;
            }
            false
        },
    }
}

fn header_map_drops(a: &Option<OrderedMap<v3_0::Referenceable<v3_0::Header>>>) -> (r: bool)
    ensures
        r == header_map_loses(*a),
    decreases a,
{
    match a {
        None => false,
        Some(x) => {
            let mut i: usize = 0;
            while i < x.entries.len()
                invariant
                    *a == Some(*x),
                    i <= x.entries@.len(),
                    forall|j: int| #![trigger x.entries@[j]] 0 <= j < i ==> !ref_header_loses(x.entries@[j].1),
                decreases x.entries@.len() - i,
            {
                proof {
                    assert(decreases_to!(*a => (*a)->Some_0));
                    assert(decreases_to!(x.entries => x.entries[i as int]));
                }
                if ref_header_drops(&x.entries[i].1) {
                    return true;
                }
                i = i + 1;
            }
            false
        },
    }
}

pub open spec fn path_item_loses(p: v3_0::PathItem) -> bool
    decreases p,
{
    ||| p.parameters.loses_additional()
    ||| operation_opt_loses(p.get)
    ||| operation_opt_loses(p.put)
    ||| operation_opt_loses(p.post)
    ||| operation_opt_loses(p.delete)
    ||| operation_opt_loses(p.options)
    ||| operation_opt_loses(p.head)
    ||| operation_opt_loses(p.patch)
    ||| operation_opt_loses(p.trace)
}

pub open spec fn operation_opt_loses(o: Option<v3_0::Operation>) -> bool
    decreases o,
{
    match o {
        Some(op) => operation_loses(op),
        None => false,
    }
}

pub open spec fn operation_loses(op: v3_0::Operation) -> bool
    decreases op,
{
    ||| op.parameters.loses_additional()
    ||| op.request_body.loses_additional()
    ||| op.responses.loses_additional()
    ||| callbacks_loses(op.callbacks)
}

pub open spec fn ref_callback_loses(r: v3_0::Referenceable<v3_0::Callback>) -> bool
    decreases r,
{
    match r {
        v3_0::Referenceable::Reference(_) => false,
        v3_0::Referenceable::Value(c) => exists|i: int|
            #![trigger c.entries@[i]]
            0 <= i < c.entries@.len() && ref_path_item_loses(c.entries@[i].1),
    }
}

pub open spec fn ref_path_item_loses(r: v3_0::Referenceable<v3_0::PathItem>) -> bool
    decreases r,
{
    match r {
        v3_0::Referenceable::Reference(_) => false,
        v3_0::Referenceable::Value(p) => path_item_loses(p),
    }
}

pub open spec fn callbacks_loses(a: Option<OrderedMap<v3_0::Referenceable<v3_0::Callback>>>) -> bool
    decreases a,
{
    match a {
        Some(x) => exists|i: int|
            #![trigger x.entries@[i]]
            0 <= i < x.entries@.len() && ref_callback_loses(x.entries@[i].1),
        None => false,
    }
}

fn path_item_drops(p: &v3_0::PathItem) -> (r: bool)
    ensures
        r == path_item_loses(*p),
    decreases p,
{
    p.parameters.drops_additional() || operation_opt_drops(&p.get) || operation_opt_drops(&p.put)
        || operation_opt_drops(&p.post) || operation_opt_drops(&p.delete) || operation_opt_drops(
        &p.options,
    ) || operation_opt_drops(&p.head) || operation_opt_drops(&p.patch) || operation_opt_drops(
        &p.trace,
    )
}

fn operation_opt_drops(o: &Option<v3_0::Operation>) -> (r: bool)
    ensures
        r == operation_opt_loses(*o),
    decreases o,
{
    match o {
        Some(op) => operation_drops(op),
        None => false,
    }
}

fn operation_drops(op: &v3_0::Operation) -> (r: bool)
    ensures
        r == operation_loses(*op),
    decreases op,
{
    op.parameters.drops_additional() || op.request_body.drops_additional()
        || op.responses.drops_additional() || callbacks_drops(&op.callbacks)
}

fn ref_callback_drops(r: &v3_0::Referenceable<v3_0::Callback>) -> (b: bool)
    ensures
        b == ref_callback_loses(*r),
    decreases r,
{
    match r {
        v3_0::Referenceable::Reference(_) => false,
        v3_0::Referenceable::Value(c) => {
            let mut i: usize = 0;
            while i < c.entries.len()
                invariant
                    *r == v3_0::Referenceable::<v3_0::Callback>::Value(*c),
                    i <= c.entries@.len(),
                    forall|j: int|
                        #![trigger c.entries@[j]]
                        0 <= j < i ==> !ref_path_item_loses(c.entries@[j].1),
                decreases c.entries@.len() - i,
            {
                proof {
                    assert(decreases_to!(*r => (*r)->Value_0));
                    assert(decreases_to!(c.entries => c.entries[i as int]));
                }
                if ref_path_item_drops(&c.entries[i].1) {
                    return true;
                }
                i = i + 1;
            }
            false
        },
    }
}

fn ref_path_item_drops(r: &v3_0::Referenceable<v3_0::PathItem>) -> (b: bool)
    ensures
        b == ref_path_item_loses(*r),
    decreases r,
{
    match r {
        v3_0::Referenceable::Reference(_) => false,
        v3_0::Referenceable::Value(p) => path_item_drops(p),
    }
}

fn callbacks_drops(a: &Option<OrderedMap<v3_0::Referenceable<v3_0::Callback>>>) -> (r: bool)
    ensures
        r == callbacks_loses(*a),
    decreases a,
{
    match a {
        None => false,
        Some(x) => {
            let mut i: usize = 0;
            while i < x.entries.len()
                invariant
                    *a == Some(*x),
                    i <= x.entries@.len(),
                    forall|j: int| #![trigger x.entries@[j]] 0 <= j < i ==> !ref_callback_loses(x.entries@[j].1),
                decreases x.entries@.len() - i,
            {
                proof {
                    assert(decreases_to!(*a => (*a)->Some_0));
                    assert(decreases_to!(x.entries => x.entries[i as int]));
                }
                if ref_callback_drops(&x.entries[i].1) {
                    return true;
                }
                i = i + 1;
            }
            false
        },
    }
}

} // verus!
