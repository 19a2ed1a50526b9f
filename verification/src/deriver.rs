//! Derivation of builder descriptors from an API object.
//!
//! Each builder is bound to one operation in one path. If the object is not
//! bound to any operation, a single standalone builder is derived instead.

use vstd::prelude::*;

use crate::model::{
    ApiObject, ApiObjectModel, HttpMethod, ObjectField, ObjectFieldModel,
    Parameter, ParameterModel,
};

verus! {

/// Represents a builder struct for some API object.
#[derive(Debug)]
pub struct ApiObjectBuilder {
    /// Zero-based rank of this builder's path among the object's bound paths.
    pub idx: usize,
    /// Module prefix qualifying the shared "missing" marker type.
    pub helper_module_prefix: String,
    /// Operation ID, if the bound operation declares one.
    pub op_id: Option<String>,
    /// The bound HTTP method, absent for a standalone builder.
    pub method: Option<HttpMethod>,
    /// Name of the object this builder produces.
    pub object: String,
    /// Whether the object itself is required (in body) for this operation.
    pub body_required: bool,
    /// The object's fields.
    pub fields: Vec<ObjectField>,
    /// Parameters shared by every operation in the bound path.
    pub global_params: Vec<Parameter>,
    /// Parameters specific to the bound operation.
    pub local_params: Vec<Parameter>,
}

/// Mathematical model of an `ApiObjectBuilder`.
pub struct ApiObjectBuilderModel {
    pub idx: int,
    pub helper_module_prefix: Seq<char>,
    pub op_id: Option<Seq<char>>,
    pub method: Option<HttpMethod>,
    pub object: Seq<char>,
    pub body_required: bool,
    pub fields: Seq<ObjectFieldModel>,
    pub global_params: Seq<ParameterModel>,
    pub local_params: Seq<ParameterModel>,
}

impl View for ApiObjectBuilder {
    type V = ApiObjectBuilderModel;

    open spec fn view(&self) -> ApiObjectBuilderModel {
        ApiObjectBuilderModel {
            idx: self.idx as int,
            helper_module_prefix: self.helper_module_prefix@,
            op_id: match self.op_id {
                Some(s) => Some(s@),
                None => None,
            },
            method: self.method,
            object: self.object@,
            body_required: self.body_required,
            fields: self.fields.deep_view(),
            global_params: self.global_params.deep_view(),
            local_params: self.local_params.deep_view(),
        }
    }
}

impl DeepView for ApiObjectBuilder {
    type V = ApiObjectBuilderModel;

    open spec fn deep_view(&self) -> ApiObjectBuilderModel {
        self.view()
    }
}

/// The single builder derived for an object with no bound paths: it only
/// keeps track of the fields, and the body is always required.
pub open spec fn standalone_builder(o: ApiObjectModel, prefix: Seq<char>) -> ApiObjectBuilderModel {
    ApiObjectBuilderModel {
        idx: 0,
        helper_module_prefix: prefix,
        op_id: None,
        method: None,
        object: o.name,
        body_required: true,
        fields: o.fields,
        global_params: Seq::empty(),
        local_params: Seq::empty(),
    }
}

/// The builder derived for the operation at index `oi` of the path at
/// index `pi`.
pub open spec fn operation_builder(
    o: ApiObjectModel,
    prefix: Seq<char>,
    pi: int,
    oi: int,
) -> ApiObjectBuilderModel
    recommends
        0 <= pi < o.paths.len(),
        0 <= oi < o.paths[pi].1.req.len(),
{
    let ops = o.paths[pi].1;
    let req = ops.req[oi].1;
    ApiObjectBuilderModel {
        idx: pi,
        helper_module_prefix: prefix,
        op_id: req.id,
        method: Some(ops.req[oi].0),
        object: o.name,
        body_required: req.body_required,
        fields: o.fields,
        global_params: ops.params,
        local_params: req.params,
    }
}

/// All builders derived for the path at index `pi`, in method order.
pub open spec fn path_builders(o: ApiObjectModel, prefix: Seq<char>, pi: int) -> Seq<
    ApiObjectBuilderModel,
>
    recommends
        0 <= pi < o.paths.len(),
{
    Seq::new(o.paths[pi].1.req.len(), |oi: int| operation_builder(o, prefix, pi, oi))
}

/// All builders derived for the paths before index `pi`, in path-then-method
/// order.
pub open spec fn builders_upto(o: ApiObjectModel, prefix: Seq<char>, pi: int) -> Seq<
    ApiObjectBuilderModel,
>
    decreases pi,
{
    if pi <= 0 {
        Seq::empty()
    } else {
        builders_upto(o, prefix, pi - 1) + path_builders(o, prefix, pi - 1)
    }
}

/// The full sequence of builders derived for an object: one per bound
/// (path, operation) pair, or exactly one standalone builder if the object
/// has no bound paths.
pub open spec fn derived_builders(o: ApiObjectModel, prefix: Seq<char>) -> Seq<
    ApiObjectBuilderModel,
> {
    if o.paths.len() == 0 {
        seq![standalone_builder(o, prefix)]
    } else {
        builders_upto(o, prefix, o.paths.len() as int)
    }
}

/// The number of (path, method) pairs among the paths before index `pi`.
pub open spec fn operations_upto(o: ApiObjectModel, pi: int) -> int
    decreases pi,
{
    if pi <= 0 {
        0
    } else {
        operations_upto(o, pi - 1) + o.paths[pi - 1].1.req.len()
    }
}

/// The deriver yields one builder per bound (path, method) pair: for an
/// object with N such pairs it yields exactly N descriptors, and for an
/// unbound object exactly one.
pub proof fn lemma_builder_count(o: ApiObjectModel, prefix: Seq<char>)
    ensures
        o.paths.len() == 0 ==> derived_builders(o, prefix).len() == 1,
        o.paths.len() > 0 ==> derived_builders(o, prefix).len() == operations_upto(
            o,
            o.paths.len() as int,
        ),
{
    lemma_builders_upto_len(o, prefix, o.paths.len() as int);
}

proof fn lemma_builders_upto_len(o: ApiObjectModel, prefix: Seq<char>, pi: int)
    ensures
        builders_upto(o, prefix, pi).len() == operations_upto(o, pi),
    decreases pi,
{
    if pi > 0 {
        lemma_builders_upto_len(o, prefix, pi - 1);
    }
}

/// Pushing onto a vector pushes the element's model onto the vector's model.
pub(crate) proof fn lemma_deep_view_push<T: DeepView>(prev: Vec<T>, cur: Vec<T>, x: T)
    requires
        cur@ == prev@.push(x),
    ensures
        cur.deep_view() =~= prev.deep_view().push(x.deep_view()),
{
    assert(forall|k: int| 0 <= k < prev@.len() ==> cur@[k] == prev@[k]);
}

/// Makes a copy of an optional string with the same model.
fn copy_opt_string(s: &Option<String>) -> (r: Option<String>)
    ensures
        r.deep_view() == s.deep_view(),
{
    match s {
        Some(x) => Some(x.clone()),
        None => None,
    }
}

/// Makes a copy of a parameter list with the same model.
fn copy_params(ps: &Vec<Parameter>) -> (r: Vec<Parameter>)
    ensures
        r.deep_view() == ps.deep_view(),
{
    let mut r: Vec<Parameter> = Vec::new();
    let mut i: usize = 0;
    while i < ps.len()
        invariant
            i <= ps.len(),
            r@.len() == i,
            r.deep_view() =~= ps.deep_view().take(i as int),
        decreases ps.len() - i,
    {
        let p = &ps[i];
        let q = Parameter { name: p.name.clone(), ty_path: p.ty_path.clone(), required: p.required };
        let ghost prev = r;
        r.push(q);
        i = i + 1;
        proof {
            lemma_deep_view_push(prev, r, q);
            assert(r.deep_view() =~= ps.deep_view().take(i as int));
        }
    }
    proof {
        assert(ps.deep_view().take(ps.len() as int) =~= ps.deep_view());
    }
    r
}

/// Makes a copy of a field list with the same model.
fn copy_fields(fs: &Vec<ObjectField>) -> (r: Vec<ObjectField>)
    ensures
        r.deep_view() == fs.deep_view(),
{
    let mut r: Vec<ObjectField> = Vec::new();
    let mut i: usize = 0;
    while i < fs.len()
        invariant
            i <= fs.len(),
            r@.len() == i,
            r.deep_view() =~= fs.deep_view().take(i as int),
        decreases fs.len() - i,
    {
        let f = &fs[i];
        let q = ObjectField {
            name: f.name.clone(),
            rename: copy_opt_string(&f.rename),
            ty_path: f.ty_path.clone(),
            is_required: f.is_required,
            boxed: f.boxed,
        };
        let ghost prev = r;
        r.push(q);
        i = i + 1;
        proof {
            lemma_deep_view_push(prev, r, q);
            assert(r.deep_view() =~= fs.deep_view().take(i as int));
        }
    }
    proof {
        assert(fs.deep_view().take(fs.len() as int) =~= fs.deep_view());
    }
    r
}

impl ApiObject {
    /// Returns the builders for this object.
    ///
    /// Each builder is bound to an operation in a path. If the object is not
    /// bound to any operation, then the builder only keeps track of the fields.
    pub fn builders(&self, helper_module_prefix: &str) -> (r: Vec<ApiObjectBuilder>)
        ensures
            r.deep_view() == derived_builders(self@, helper_module_prefix@),
    {
        let mut r: Vec<ApiObjectBuilder> = Vec::new();
        if self.paths.len() == 0 {
            let q = ApiObjectBuilder {
                idx: 0,
                helper_module_prefix: helper_module_prefix.to_owned(),
                op_id: None,
                method: None,
                object: self.name.clone(),
                body_required: true,
                fields: copy_fields(&self.fields),
                global_params: Vec::new(),
                local_params: Vec::new(),
            };
            let ghost prev = r;
            r.push(q);
            proof {
                lemma_deep_view_push(prev, r, q);
                assert(q.deep_view().global_params =~= Seq::<ParameterModel>::empty());
                assert(q.deep_view().local_params =~= Seq::<ParameterModel>::empty());
                assert(q.deep_view() == standalone_builder(self@, helper_module_prefix@));
                assert(r.deep_view() =~= derived_builders(self@, helper_module_prefix@));
            }
            return r;
        }

        let mut pi: usize = 0;
        while pi < self.paths.len()
            invariant
                pi <= self.paths.len(),
                self.paths.len() > 0,
                r.deep_view() =~= builders_upto(self@, helper_module_prefix@, pi as int),
            decreases self.paths.len() - pi,
        {
            let ops = &self.paths[pi].1;
            let mut oi: usize = 0;
            while oi < ops.req.len()
                invariant
                    pi < self.paths.len(),
                    oi <= ops.req.len(),
                    ops == &self.paths@[pi as int].1,
                    r.deep_view() =~= builders_upto(self@, helper_module_prefix@, pi as int)
                        + path_builders(self@, helper_module_prefix@, pi as int).take(oi as int),
                decreases ops.req.len() - oi,
            {
                let req = &ops.req[oi].1;
                let q = ApiObjectBuilder {
                    idx: pi,
                    helper_module_prefix: helper_module_prefix.to_owned(),
                    op_id: copy_opt_string(&req.id),
                    method: Some(ops.req[oi].0),
                    object: self.name.clone(),
                    body_required: req.body_required,
                    fields: copy_fields(&self.fields),
                    global_params: copy_params(&ops.params),
                    local_params: copy_params(&req.params),
                };
                let ghost prev = r;
                r.push(q);
                oi = oi + 1;
                proof {
                    lemma_deep_view_push(prev, r, q);
                    assert(q.deep_view() == operation_builder(
                        self@,
                        helper_module_prefix@,
                        pi as int,
                        oi - 1,
                    ));
                    assert(r.deep_view() =~= builders_upto(self@, helper_module_prefix@, pi as int)
                        + path_builders(self@, helper_module_prefix@, pi as int).take(oi as int));
                }
            }
            pi = pi + 1;
            proof {
                assert(path_builders(self@, helper_module_prefix@, pi - 1).take(
                    self.paths@[pi - 1].1.req@.len() as int,
                ) =~= path_builders(self@, helper_module_prefix@, pi - 1));
                assert(r.deep_view() =~= builders_upto(self@, helper_module_prefix@, pi as int));
            }
        }
        r
    }

    /// Returns a struct representing the impl for this object.
    pub fn impl_repr(&self) -> (r: ApiObjectImpl<'_>)
        ensures
            r.inner == self,
            r.builders@.len() == 0,
    {
        ApiObjectImpl { inner: self, builders: Vec::new() }
    }
}

/// Represents the API object impl: the object together with the builders
/// whose constructor methods the impl block exposes.
pub struct ApiObjectImpl<'a> {
    /// The object the impl block is for.
    pub inner: &'a ApiObject,
    /// The builders whose constructors the impl block exposes.
    pub builders: Vec<ApiObjectBuilder>,
}

} // verus!
