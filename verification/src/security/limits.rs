//! Builders for limit ranges and their items.
use vstd::prelude::*;
use crate::collections::{inserted_text, OrderedMap};
use crate::resources::meta::BuildError;
use crate::resources::policy::{LimitRange, LimitRangeItem, LimitRangeSpec};
use crate::security::rbac::{build_meta, meta_built_from};

verus! {

/// The kind of object that a limit range item bounds.
#[derive(Debug, Clone, Copy, PartialEq, Eq)]
pub enum LimitRangeType {
    Container,
    Pod,
    PersistentVolumeClaim,
}

impl LimitRangeType {
    /// The name Kubernetes gives the kind.
    pub open spec fn kind_name(self) -> Seq<char> {
        match self {
            LimitRangeType::Container => "Container"@,
            LimitRangeType::Pod => "Pod"@,
            LimitRangeType::PersistentVolumeClaim => "PersistentVolumeClaim"@,
        }
    }

    /// The name Kubernetes gives the kind.
    pub fn to_k8s_string(self) -> (r: String)
        ensures
            r@ == self.kind_name(),
    {
        match self {
            LimitRangeType::Container => String::from_str("Container"),
            LimitRangeType::Pod => String::from_str("Pod"),
            LimitRangeType::PersistentVolumeClaim => String::from_str("PersistentVolumeClaim"),
        }
    }
}

/// The entries of an optional map of texts; none reads as empty.
pub open spec fn text_entries(m: Option<OrderedMap<String>>) -> Map<Seq<char>, String> {
    match m {
        Some(x) => x@,
        None => Map::empty(),
    }
}

/// `new` holds the entries of `old` with the text `v` stored under `k`.
pub open spec fn inserted_into(
    new: Option<OrderedMap<String>>,
    old: Option<OrderedMap<String>>,
    k: Seq<char>,
    v: Seq<char>,
) -> bool {
    &&& new is Some
    &&& text_entries(new).dom() == text_entries(old).dom().insert(k)
    &&& text_entries(new)[k]@ == v
    &&& forall|q: Seq<char>|
        q != k && text_entries(old).contains_key(q) ==> #[trigger] text_entries(new)[q]
            == text_entries(old)[q]
}

/// Stores `v` under `k` in the map, making the map when there is none.
fn insert_into(m: Option<OrderedMap<String>>, k: &str, v: &str) -> (r: Option<OrderedMap<String>>)
    ensures
        inserted_into(r, m, k@, v@),
{
    let mut map = match m {
        Some(x) => x,
        None => OrderedMap::new(),
    };
    let ghost before = map;
    map.insert_text(k, v);
    assert(inserted_text(map, before, k@, v@));
    Some(map)
}

/// The settings of a limit range item under construction.
#[derive(Debug)]
pub struct LimitRangeItemBuilder {
    pub limit_type: LimitRangeType,
    pub max: Option<OrderedMap<String>>,
    pub min: Option<OrderedMap<String>>,
    pub default: Option<OrderedMap<String>>,
    pub default_request: Option<OrderedMap<String>>,
    pub max_limit_request_ratio: Option<OrderedMap<String>>,
}

impl LimitRangeItemBuilder {
    /// An item for the given kind, with no bound yet.
    pub fn new(limit_type: LimitRangeType) -> (r: Self)
        ensures
            r.limit_type == limit_type,
            r.max is None,
            r.min is None,
            r.default is None,
            r.default_request is None,
            r.max_limit_request_ratio is None,
    {
        LimitRangeItemBuilder {
            limit_type,
            max: None,
            min: None,
            default: None,
            default_request: None,
            max_limit_request_ratio: None,
        }
    }

    /// Replaces the maximum quantities.
    pub fn with_max(self, max: OrderedMap<String>) -> (r: Self)
        ensures
            r == (LimitRangeItemBuilder { max: Some(max), ..self }),
    {
        LimitRangeItemBuilder { max: Some(max), ..self }
    }

    /// Sets the maximum quantity of one resource.
    pub fn with_max_value(self, key: &str, value: &str) -> (r: Self)
        ensures
            inserted_into(r.max, self.max, key@, value@),
            r == (LimitRangeItemBuilder { max: r.max, ..self }),
    {
        let LimitRangeItemBuilder { limit_type, max, min, default, default_request, max_limit_request_ratio } = self;
        LimitRangeItemBuilder {
            limit_type,
            max: insert_into(max, key, value),
            min,
            default,
            default_request,
            max_limit_request_ratio,
        }
    }

    /// Replaces the minimum quantities.
    pub fn with_min(self, min: OrderedMap<String>) -> (r: Self)
        ensures
            r == (LimitRangeItemBuilder { min: Some(min), ..self }),
    {
        LimitRangeItemBuilder { min: Some(min), ..self }
    }

    /// Sets the minimum quantity of one resource.
    pub fn with_min_value(self, key: &str, value: &str) -> (r: Self)
        ensures
            inserted_into(r.min, self.min, key@, value@),
            r == (LimitRangeItemBuilder { min: r.min, ..self }),
    {
        let LimitRangeItemBuilder { limit_type, max, min, default, default_request, max_limit_request_ratio } = self;
        LimitRangeItemBuilder {
            limit_type,
            max,
            min: insert_into(min, key, value),
            default,
            default_request,
            max_limit_request_ratio,
        }
    }

    /// Replaces the default limits.
    pub fn with_default(self, default: OrderedMap<String>) -> (r: Self)
        ensures
            r == (LimitRangeItemBuilder { default: Some(default), ..self }),
    {
        LimitRangeItemBuilder { default: Some(default), ..self }
    }

    /// Sets the default limit of one resource.
    pub fn with_default_value(self, key: &str, value: &str) -> (r: Self)
        ensures
            inserted_into(r.default, self.default, key@, value@),
            r == (LimitRangeItemBuilder { default: r.default, ..self }),
    {
        let LimitRangeItemBuilder { limit_type, max, min, default, default_request, max_limit_request_ratio } = self;
        LimitRangeItemBuilder {
            limit_type,
            max,
            min,
            default: insert_into(default, key, value),
            default_request,
            max_limit_request_ratio,
        }
    }

    /// Replaces the default requests.
    pub fn with_default_request(self, default_request: OrderedMap<String>) -> (r: Self)
        ensures
            r == (LimitRangeItemBuilder { default_request: Some(default_request), ..self }),
    {
        LimitRangeItemBuilder { default_request: Some(default_request), ..self }
    }

    /// Sets the default request of one resource.
    pub fn with_default_request_value(self, key: &str, value: &str) -> (r: Self)
        ensures
            inserted_into(r.default_request, self.default_request, key@, value@),
            r == (LimitRangeItemBuilder { default_request: r.default_request, ..self }),
    {
        let LimitRangeItemBuilder { limit_type, max, min, default, default_request, max_limit_request_ratio } = self;
        LimitRangeItemBuilder {
            limit_type,
            max,
            min,
            default,
            default_request: insert_into(default_request, key, value),
            max_limit_request_ratio,
        }
    }

    /// Replaces the largest allowed ratios of limit to request.
    pub fn with_max_limit_request_ratio(self, ratio: OrderedMap<String>) -> (r: Self)
        ensures
            r == (LimitRangeItemBuilder { max_limit_request_ratio: Some(ratio), ..self }),
    {
        LimitRangeItemBuilder { max_limit_request_ratio: Some(ratio), ..self }
    }

    /// The item: the name of its kind and every bound as set.
    pub fn build(self) -> (r: LimitRangeItem)
        ensures
            r.type_@ == self.limit_type.kind_name(),
            r.max == self.max,
            r.min == self.min,
            r.default == self.default,
            r.default_request == self.default_request,
            r.max_limit_request_ratio == self.max_limit_request_ratio,
    {
        let LimitRangeItemBuilder { limit_type, max, min, default, default_request, max_limit_request_ratio } = self;
        LimitRangeItem {
            type_: limit_type.to_k8s_string(),
            max,
            min,
            default,
            default_request,
            max_limit_request_ratio,
        }
    }
}

/// The settings of a limit range under construction.
#[derive(Debug)]
pub struct LimitRangeBuilder {
    pub name: String,
    pub namespace: String,
    pub limits: Vec<LimitRangeItem>,
    pub labels: OrderedMap<String>,
    pub annotations: OrderedMap<String>,
}

impl LimitRangeBuilder {
    pub fn new(name: &str, namespace: &str) -> (r: Self)
        ensures
            r.name@ == name@,
            r.namespace@ == namespace@,
            r.limits@.len() == 0,
            r.labels@.len() == 0,
            r.annotations@.len() == 0,
    {
        LimitRangeBuilder {
            name: name.to_string(),
            namespace: namespace.to_string(),
            limits: Vec::new(),
            labels: OrderedMap::new(),
            annotations: OrderedMap::new(),
        }
    }

    /// Appends an item.
    pub fn with_limit(self, limit: LimitRangeItem) -> (r: Self)
        ensures
            r.limits@ == self.limits@.push(limit),
            r == (LimitRangeBuilder { limits: r.limits, ..self }),
    {
        let mut s = self;
        s.limits.push(limit);
        s
    }

    /// Replaces the items.
    pub fn with_limits(self, limits: Vec<LimitRangeItem>) -> (r: Self)
        ensures
            r == (LimitRangeBuilder { limits, ..self }),
    {
        LimitRangeBuilder { limits, ..self }
    }

    pub fn with_label(self, key: &str, value: &str) -> (r: Self)
        ensures
            inserted_text(r.labels, self.labels, key@, value@),
            r == (LimitRangeBuilder { labels: r.labels, ..self }),
    {
        let mut s = self;
        s.labels.insert_text(key, value);
        s
    }

    pub fn with_annotation(self, key: &str, value: &str) -> (r: Self)
        ensures
            inserted_text(r.annotations, self.annotations, key@, value@),
            r == (LimitRangeBuilder { annotations: r.annotations, ..self }),
    {
        let mut s = self;
        s.annotations.insert_text(key, value);
        s
    }

    /// The limit range; it always builds, and has no spec when it has no
    /// item.
    pub fn build(self) -> (r: Result<LimitRange, BuildError>)
        ensures
            r matches Ok(lr) && meta_built_from(
                lr.metadata,
                self.name,
                Some(self.namespace),
                self.labels,
                self.annotations,
            ) && (if self.limits@.len() == 0 {
                lr.spec is None
            } else {
                lr.spec == Some(LimitRangeSpec { limits: self.limits })
            }),
    {
        let LimitRangeBuilder { name, namespace, limits, labels, annotations } = self;
        let spec = if limits.len() == 0 {
            None
        } else {
            Some(LimitRangeSpec { limits })
        };
        Ok(LimitRange { metadata: build_meta(name, Some(namespace), labels, annotations), spec })
    }
}

} // verus!
