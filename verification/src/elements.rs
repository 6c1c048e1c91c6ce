//! The canonical, strongly-typed document model.
//!
//! Every value here is immutable once the decoder has built it.  Each type
//! with text or list fields carries a mathematical view (`@`) over which the
//! decoder contracts are stated.

use vstd::prelude::*;
use crate::value::{Number, NumberV};

verus! {

/// One key-value tag attached to an entity.
#[derive(Debug, Clone, PartialEq)]
pub struct Tag {
    pub key: String,
    pub value: String,
}

/// Mathematical image of [`Tag`].
pub struct TagV {
    pub key: Seq<char>,
    pub value: Seq<char>,
}

impl View for Tag {
    type V = TagV;

    open spec fn view(&self) -> TagV {
        (TagV { key: self.key@, value: self.value@ })
    }
}

/// A reference from a way to one of its nodes.
#[derive(Debug, Clone, Copy, PartialEq, Eq, Structural)]
pub struct NodeRef {
    pub reference: i64,
}

impl View for NodeRef {
    type V = NodeRef;

    open spec fn view(&self) -> NodeRef {
        *self
    }
}

/// The kind of entity a relation member points at.
#[derive(Debug, Clone, Copy, PartialEq, Eq, Structural)]
pub enum ElementType {
    Node,
    Way,
    Relation,
}

impl View for ElementType {
    type V = ElementType;

    open spec fn view(&self) -> ElementType {
        *self
    }
}

/// A reference from a relation to one of its members.
#[derive(Debug, Clone, PartialEq)]
pub struct ElementRef {
    pub element_type: ElementType,
    pub reference: i64,
    pub role: String,
}

/// Mathematical image of [`ElementRef`].
pub struct ElementRefV {
    pub element_type: ElementType,
    pub reference: i64,
    pub role: Seq<char>,
}

impl View for ElementRef {
    type V = ElementRefV;

    open spec fn view(&self) -> ElementRefV {
        (ElementRefV {
            element_type: self.element_type,
            reference: self.reference,
            role: self.role@,
        })
    }
}

/// The common bookkeeping attributes every entity carries.
#[derive(Debug, Clone, PartialEq)]
pub struct Attributes {
    pub user: String,
    pub uid: i64,
    pub timestamp: String,
    pub visible: bool,
    pub version: u8,
    pub changeset: i64,
}

/// Mathematical image of [`Attributes`].
pub struct AttributesV {
    pub user: Seq<char>,
    pub uid: i64,
    pub timestamp: Seq<char>,
    pub visible: bool,
    pub version: u8,
    pub changeset: i64,
}

impl View for Attributes {
    type V = AttributesV;

    open spec fn view(&self) -> AttributesV {
        (AttributesV {
            user: self.user@,
            uid: self.uid,
            timestamp: self.timestamp@,
            visible: self.visible,
            version: self.version,
            changeset: self.changeset,
        })
    }
}

/// A point in space.
#[derive(Debug, Clone, PartialEq)]
pub struct Node {
    pub id: i64,
    pub lat: Number,
    pub lon: Number,
    pub tags: Vec<Tag>,
    pub attributes: Attributes,
}

/// Mathematical image of [`Node`].
pub struct NodeV {
    pub id: i64,
    pub lat: NumberV,
    pub lon: NumberV,
    pub tags: Seq<TagV>,
    pub attributes: AttributesV,
}

impl View for Node {
    type V = NodeV;

    open spec fn view(&self) -> NodeV {
        (NodeV {
            id: self.id,
            lat: self.lat@,
            lon: self.lon@,
            tags: self.tags@.map_values(|t: Tag| t@),
            attributes: self.attributes@,
        })
    }
}

/// An ordered chain of nodes.
#[derive(Debug, Clone, PartialEq)]
pub struct Way {
    pub id: i64,
    pub nodes: Vec<NodeRef>,
    pub tags: Vec<Tag>,
    pub attributes: Attributes,
}

/// Mathematical image of [`Way`].
pub struct WayV {
    pub id: i64,
    pub nodes: Seq<NodeRef>,
    pub tags: Seq<TagV>,
    pub attributes: AttributesV,
}

impl View for Way {
    type V = WayV;

    open spec fn view(&self) -> WayV {
        (WayV {
            id: self.id,
            nodes: self.nodes@,
            tags: self.tags@.map_values(|t: Tag| t@),
            attributes: self.attributes@,
        })
    }
}

/// A group of entities under one set of tags.
#[derive(Debug, Clone, PartialEq)]
pub struct Relation {
    pub members: Vec<ElementRef>,
    pub tags: Vec<Tag>,
    pub attributes: Attributes,
}

/// Mathematical image of [`Relation`].
pub struct RelationV {
    pub members: Seq<ElementRefV>,
    pub tags: Seq<TagV>,
    pub attributes: AttributesV,
}

impl View for Relation {
    type V = RelationV;

    open spec fn view(&self) -> RelationV {
        (RelationV {
            members: self.members@.map_values(|m: ElementRef| m@),
            tags: self.tags@.map_values(|t: Tag| t@),
            attributes: self.attributes@,
        })
    }
}

/// Supported protocol versions, in one of the three legal wire shapes.
///
/// Exactly one variant is ever populated per document.  `Unknown` is
/// reserved strictly for "field absent from the document": malformed input
/// is an error, never `Unknown`.
///
/// Note the stored order of `VersionRange`: first the value found under the
/// maximum alias, then the value found under the minimum alias — the field
/// extraction order of the decoder, kept for wire compatibility even though
/// it contradicts the natural reading.
#[derive(Debug, Clone, PartialEq)]
pub enum ApiVersion {
    Versions(Vec<String>),
    VersionRange(String, String),
    Unknown,
}

/// Mathematical image of [`ApiVersion`].
pub enum ApiVersionV {
    Versions(Seq<Seq<char>>),
    VersionRange(Seq<char>, Seq<char>),
    Unknown,
}

impl View for ApiVersion {
    type V = ApiVersionV;

    open spec fn view(&self) -> ApiVersionV {
        match self {
            ApiVersion::Versions(vs) => ApiVersionV::Versions(vs@.map_values(|s: String| s@)),
            ApiVersion::VersionRange(mx, mn) => ApiVersionV::VersionRange(mx@, mn@),
            ApiVersion::Unknown => ApiVersionV::Unknown,
        }
    }
}

/// A minimum/maximum pair of version strings.
#[derive(Debug, Clone, PartialEq)]
pub struct VersionRange {
    pub min: String,
    pub max: String,
}

/// Mathematical image of [`VersionRange`].
pub struct VersionRangeV {
    pub min: Seq<char>,
    pub max: Seq<char>,
}

impl View for VersionRange {
    type V = VersionRangeV;

    open spec fn view(&self) -> VersionRangeV {
        (VersionRangeV { min: self.min@, max: self.max@ })
    }
}

/// Operational state of one sub-service.
#[derive(Debug, Clone, Copy, PartialEq, Eq, Structural)]
pub enum Status {
    Online,
    ReadOnly,
    Offline,
}

impl View for Status {
    type V = Status;

    open spec fn view(&self) -> Status {
        *self
    }
}

/// The status of all three sub-services; always complete when present.
#[derive(Debug, Clone, Copy, PartialEq, Eq, Structural)]
pub struct ApiStatus {
    pub database: Status,
    pub api: Status,
    pub gpx: Status,
}

impl View for ApiStatus {
    type V = ApiStatus;

    open spec fn view(&self) -> ApiStatus {
        *self
    }
}

/// Paging limits for changeset/note queries.  `default` and `max` are
/// required on the wire; `max_elements` is omitted by some server versions.
#[derive(Debug, Clone, Copy, PartialEq)]
pub struct QueryLimit {
    pub default: i64,
    pub max: i64,
    pub max_elements: Option<i64>,
}

impl View for QueryLimit {
    type V = QueryLimit;

    open spec fn view(&self) -> QueryLimit {
        *self
    }
}

/// The server's capability document: version information, per-resource
/// limits and status flags.  Every field besides `version` is optional —
/// the document is inherently partial and evolves across server versions.
#[derive(Debug, Clone, PartialEq)]
pub struct Api {
    pub version: ApiVersion,
    pub max_areas: Option<Number>,
    pub max_note_areas: Option<i64>,
    pub trackpoints_per_page: Option<i64>,
    pub max_way_nodes: Option<i64>,
    pub max_relation_members: Option<i64>,
    pub changesets: Option<QueryLimit>,
    pub notes: Option<QueryLimit>,
    pub timeout: Option<i64>,
    pub status: Option<ApiStatus>,
}

/// Mathematical image of [`Api`].
pub struct ApiV {
    pub version: ApiVersionV,
    pub max_areas: Option<NumberV>,
    pub max_note_areas: Option<i64>,
    pub trackpoints_per_page: Option<i64>,
    pub max_way_nodes: Option<i64>,
    pub max_relation_members: Option<i64>,
    pub changesets: Option<QueryLimit>,
    pub notes: Option<QueryLimit>,
    pub timeout: Option<i64>,
    pub status: Option<ApiStatus>,
}

impl View for Api {
    type V = ApiV;

    open spec fn view(&self) -> ApiV {
        (ApiV {
            version: self.version@,
            max_areas: match self.max_areas {
                Some(n) => Some(n@),
                None => None,
            },
            max_note_areas: self.max_note_areas,
            trackpoints_per_page: self.trackpoints_per_page,
            max_way_nodes: self.max_way_nodes,
            max_relation_members: self.max_relation_members,
            changesets: self.changesets,
            notes: self.notes,
            timeout: self.timeout,
            status: self.status,
        })
    }
}

impl Default for Api {
    /// An empty capability document: no version information, no limits.
    fn default() -> (r: Api)
        ensures
            r@.version is Unknown,
            r@.max_areas is None,
            r@.max_note_areas is None,
            r@.trackpoints_per_page is None,
            r@.max_way_nodes is None,
            r@.max_relation_members is None,
            r@.changesets is None,
            r@.notes is None,
            r@.timeout is None,
            r@.status is None,
    {
        Api {
            version: ApiVersion::Unknown,
            max_areas: None,
            max_note_areas: None,
            trackpoints_per_page: None,
            max_way_nodes: None,
            max_relation_members: None,
            changesets: None,
            notes: None,
            timeout: None,
            status: None,
        }
    }
}

/// The top-level document: document metadata, the optional capability
/// document, and the entity collections.
#[derive(Debug, Clone, PartialEq)]
pub struct OSM {
    pub version: String,
    pub generator: String,
    pub time_stamp_osm_base: Option<String>,
    pub copyright: String,
    pub license: String,
    pub attribution: String,
    pub error: Option<String>,
    pub node: Vec<Node>,
    pub way: Vec<Way>,
    pub relation: Vec<Relation>,
    pub api: Option<Api>,
}

/// Mathematical image of [`OSM`].
pub struct OSMV {
    pub version: Seq<char>,
    pub generator: Seq<char>,
    pub time_stamp_osm_base: Option<Seq<char>>,
    pub copyright: Seq<char>,
    pub license: Seq<char>,
    pub attribution: Seq<char>,
    pub error: Option<Seq<char>>,
    pub node: Seq<NodeV>,
    pub way: Seq<WayV>,
    pub relation: Seq<RelationV>,
    pub api: Option<ApiV>,
}

impl View for OSM {
    type V = OSMV;

    open spec fn view(&self) -> OSMV {
        (OSMV {
            version: self.version@,
            generator: self.generator@,
            time_stamp_osm_base: match self.time_stamp_osm_base {
                Some(s) => Some(s@),
                None => None,
            },
            copyright: self.copyright@,
            license: self.license@,
            attribution: self.attribution@,
            error: match self.error {
                Some(s) => Some(s@),
                None => None,
            },
            node: self.node@.map_values(|n: Node| n@),
            way: self.way@.map_values(|w: Way| w@),
            relation: self.relation@.map_values(|r: Relation| r@),
            api: match self.api {
                Some(a) => Some(a@),
                None => None,
            },
        })
    }
}

} // verus!
