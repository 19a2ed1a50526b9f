//! Simplified objects for codegen.
//!
//! This contains the necessary objects for generating actual
//! API objects, their builders, impls, etc.

use vstd::prelude::*;

verus! {

/// HTTP methods an operation can be bound to.
#[derive(Debug, Clone, Copy, PartialEq, Eq, Structural)]
pub enum HttpMethod {
    Get,
    Put,
    Post,
    Delete,
    Options,
    Head,
    Patch,
}

impl View for HttpMethod {
    type V = HttpMethod;

    open spec fn view(&self) -> HttpMethod {
        *self
    }
}

impl DeepView for HttpMethod {
    type V = HttpMethod;

    open spec fn deep_view(&self) -> HttpMethod {
        *self
    }
}

/// The display form of a method, as it appears in generated type names.
pub open spec fn method_name(m: HttpMethod) -> Seq<char> {
    match m {
        HttpMethod::Get => "Get"@,
        HttpMethod::Put => "Put"@,
        HttpMethod::Post => "Post"@,
        HttpMethod::Delete => "Delete"@,
        HttpMethod::Options => "Options"@,
        HttpMethod::Head => "Head"@,
        HttpMethod::Patch => "Patch"@,
    }
}

impl HttpMethod {
    /// The display form of this method (capitalized, as in `Get`).
    pub fn as_str(self) -> (r: &'static str)
        ensures
            r@ == method_name(self),
    {
        match self {
            HttpMethod::Get => "Get",
            HttpMethod::Put => "Put",
            HttpMethod::Post => "Post",
            HttpMethod::Delete => "Delete",
            HttpMethod::Options => "Options",
            HttpMethod::Head => "Head",
            HttpMethod::Patch => "Patch",
        }
    }
}

/// How a merged attribute contributes to a builder: as a field of the
/// object's body or as an operation parameter, required or optional.
#[derive(Debug, Clone, Copy, PartialEq, Eq, Structural)]
pub enum Property {
    RequiredField,
    OptionalField,
    RequiredParam,
    OptionalParam,
}

/// Whether a property is required.
pub open spec fn spec_is_required(p: Property) -> bool {
    p == Property::RequiredField || p == Property::RequiredParam
}

/// Whether a property is a parameter.
pub open spec fn spec_is_parameter(p: Property) -> bool {
    p == Property::RequiredParam || p == Property::OptionalParam
}

/// Whether a property is a field.
pub open spec fn spec_is_field(p: Property) -> bool {
    p == Property::RequiredField || p == Property::OptionalField
}

impl Property {
    /// Whether this property is required.
    pub fn is_required(self) -> (r: bool)
        ensures
            r == spec_is_required(self),
    {
        match self {
            Property::RequiredField | Property::RequiredParam => true,
            _ => false,
        }
    }

    /// Checks whether this property is a parameter.
    pub fn is_parameter(self) -> (r: bool)
        ensures
            r == spec_is_parameter(self),
    {
        match self {
            Property::RequiredParam | Property::OptionalParam => true,
            _ => false,
        }
    }

    /// Checks whether this property is a field.
    pub fn is_field(self) -> (r: bool)
        ensures
            r == spec_is_field(self),
    {
        match self {
            Property::RequiredField | Property::OptionalField => true,
            _ => false,
        }
    }
}

/// Represents some parameter somewhere (header, path, query, etc.).
#[derive(Debug)]
pub struct Parameter {
    /// Name of the parameter (snake-cased).
    pub name: String,
    /// Type of the parameter as a path.
    pub ty_path: String,
    /// Whether this parameter is required.
    pub required: bool,
}

/// Mathematical model of a `Parameter`.
pub struct ParameterModel {
    pub name: Seq<char>,
    pub ty_path: Seq<char>,
    pub required: bool,
}

impl View for Parameter {
    type V = ParameterModel;

    open spec fn view(&self) -> ParameterModel {
        ParameterModel { name: self.name@, ty_path: self.ty_path@, required: self.required }
    }
}

impl DeepView for Parameter {
    type V = ParameterModel;

    open spec fn deep_view(&self) -> ParameterModel {
        self.view()
    }
}

/// Represents a struct field.
#[derive(Debug)]
pub struct ObjectField {
    /// Name of the field (snake-cased).
    pub name: String,
    /// Actual name of the field (should it be serde-renamed).
    pub rename: Option<String>,
    /// Type of the field as a path.
    pub ty_path: String,
    /// Whether this field is required (i.e., not optional).
    pub is_required: bool,
    /// Whether this field should be boxed.
    pub boxed: bool,
}

/// Mathematical model of an `ObjectField`.
pub struct ObjectFieldModel {
    pub name: Seq<char>,
    pub rename: Option<Seq<char>>,
    pub ty_path: Seq<char>,
    pub is_required: bool,
    pub boxed: bool,
}

impl View for ObjectField {
    type V = ObjectFieldModel;

    open spec fn view(&self) -> ObjectFieldModel {
        ObjectFieldModel {
            name: self.name@,
            rename: match self.rename {
                Some(s) => Some(s@),
                None => None,
            },
            ty_path: self.ty_path@,
            is_required: self.is_required,
            boxed: self.boxed,
        }
    }
}

impl DeepView for ObjectField {
    type V = ObjectFieldModel;

    open spec fn deep_view(&self) -> ObjectFieldModel {
        self.view()
    }
}

/// Requirement for an object corresponding to some operation.
#[derive(Debug)]
pub struct OpRequirement {
    /// Operation ID (if it's provided in the schema).
    ///
    /// If there are multiple operations for the same path, then we
    /// attempt to use this.
    pub id: Option<String>,
    /// Parameters required for this operation.
    pub params: Vec<Parameter>,
    /// Whether the object itself is required (in body) for this operation.
    pub body_required: bool,
}

/// Mathematical model of an `OpRequirement`.
pub struct OpRequirementModel {
    pub id: Option<Seq<char>>,
    pub params: Seq<ParameterModel>,
    pub body_required: bool,
}

impl View for OpRequirement {
    type V = OpRequirementModel;

    open spec fn view(&self) -> OpRequirementModel {
        OpRequirementModel {
            id: match self.id {
                Some(s) => Some(s@),
                None => None,
            },
            params: self.params.deep_view(),
            body_required: self.body_required,
        }
    }
}

impl DeepView for OpRequirement {
    type V = OpRequirementModel;

    open spec fn deep_view(&self) -> OpRequirementModel {
        self.view()
    }
}

/// Operations in a path.
///
/// Operations are kept as an ordered association list from HTTP method to
/// requirement; methods are unique within one path, and the order is the
/// order in which downstream stages visit them.
#[derive(Debug)]
pub struct PathOps {
    /// Operations for this object and their associated requirements.
    pub req: Vec<(HttpMethod, OpRequirement)>,
    /// Parameters required for all operations in this path.
    pub params: Vec<Parameter>,
}

/// Mathematical model of a `PathOps`.
pub struct PathOpsModel {
    pub req: Seq<(HttpMethod, OpRequirementModel)>,
    pub params: Seq<ParameterModel>,
}

impl View for PathOps {
    type V = PathOpsModel;

    open spec fn view(&self) -> PathOpsModel {
        PathOpsModel { req: self.req.deep_view(), params: self.params.deep_view() }
    }
}

impl DeepView for PathOps {
    type V = PathOpsModel;

    open spec fn deep_view(&self) -> PathOpsModel {
        self.view()
    }
}

/// The methods bound in a path are pairwise distinct.
pub open spec fn methods_unique(ops: PathOpsModel) -> bool {
    forall|i: int, j: int|
        0 <= i < j < ops.req.len() ==> ops.req[i].0 != ops.req[j].0
}

impl Default for PathOps {
    fn default() -> (r: Self)
        ensures
            r@.req.len() == 0,
            r@.params.len() == 0,
    {
        PathOps { req: Vec::new(), params: Vec::new() }
    }
}

/// Represents a (simplified) Rust struct.
#[derive(Debug)]
pub struct ApiObject {
    /// Name of the struct (camel-cased).
    pub name: String,
    /// Path to this object from (generated) root module.
    pub path: String,
    /// List of fields.
    pub fields: Vec<ObjectField>,
    /// Paths with operations which address this object.
    ///
    /// Kept as an ordered association list from path identifier to the
    /// operations bound on that path; path identifiers are unique within
    /// one object, and the order is the order in which builders are derived.
    pub paths: Vec<(String, PathOps)>,
}

/// Mathematical model of an `ApiObject`.
pub struct ApiObjectModel {
    pub name: Seq<char>,
    pub path: Seq<char>,
    pub fields: Seq<ObjectFieldModel>,
    pub paths: Seq<(Seq<char>, PathOpsModel)>,
}

impl View for ApiObject {
    type V = ApiObjectModel;

    open spec fn view(&self) -> ApiObjectModel {
        ApiObjectModel {
            name: self.name@,
            path: self.path@,
            fields: self.fields.deep_view(),
            paths: self.paths.deep_view(),
        }
    }
}

impl DeepView for ApiObject {
    type V = ApiObjectModel;

    open spec fn deep_view(&self) -> ApiObjectModel {
        self.view()
    }
}

/// Structural invariants of an object's model: path identifiers are unique,
/// methods within one path are unique, and field names are unique.
pub open spec fn object_wf(o: ApiObjectModel) -> bool {
    &&& forall|i: int, j: int| 0 <= i < j < o.paths.len() ==> o.paths[i].0 != o.paths[j].0
    &&& forall|i: int| 0 <= i < o.paths.len() ==> methods_unique(#[trigger] o.paths[i].1)
    &&& forall|i: int, j: int|
        0 <= i < j < o.fields.len() ==> o.fields[i].name != o.fields[j].name
}

impl ApiObject {
    /// Create an object with the given name.
    pub fn with_name(name: &str) -> (r: Self)
        ensures
            r@.name == name@,
            r@.path.len() == 0,
            r@.fields.len() == 0,
            r@.paths.len() == 0,
    {
        ApiObject {
            // NOTE: Even though it's empty, it'll be replaced by the emitter.
            path: String::new(),
            name: name.to_owned(),
            fields: Vec::new(),
            paths: Vec::new(),
        }
    }
}

} // verus!
