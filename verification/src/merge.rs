//! Merging of path parameters, operation parameters and object fields into
//! the unique, ordered attribute set of one builder.
//!
//! Source order is: path-level parameters, then operation-level parameters,
//! then object fields. Duplicate names are resolved by a single linear pass
//! that keeps the first occurrence encountered and discards later duplicates;
//! because parameters are merged before fields, a same-named parameter always
//! wins over a same-named field.

use vstd::prelude::*;

use crate::deriver::{lemma_deep_view_push, ApiObjectBuilder, ApiObjectBuilderModel};
use crate::model::{ObjectFieldModel, ParameterModel, Property};

verus! {

/// One attribute of a builder: a field of the object's body or an operation
/// parameter, together with its type path and its property tag.
#[derive(Debug)]
pub struct Attr {
    /// Name of the attribute (as declared; not yet case-normalized).
    pub name: String,
    /// Type of the attribute as a path.
    pub ty_path: String,
    /// How the attribute contributes to the builder.
    pub prop: Property,
}

/// Mathematical model of an `Attr`.
pub struct AttrModel {
    pub name: Seq<char>,
    pub ty_path: Seq<char>,
    pub prop: Property,
}

impl View for Attr {
    type V = AttrModel;

    open spec fn view(&self) -> AttrModel {
        AttrModel { name: self.name@, ty_path: self.ty_path@, prop: self.prop }
    }
}

impl DeepView for Attr {
    type V = AttrModel;

    open spec fn deep_view(&self) -> AttrModel {
        self.view()
    }
}

/// The attributes contributed by a parameter list, in order.
pub open spec fn param_attrs(ps: Seq<ParameterModel>) -> Seq<AttrModel> {
    ps.map_values(
        |p: ParameterModel|
            AttrModel {
                name: p.name,
                ty_path: p.ty_path,
                prop: if p.required {
                    Property::RequiredParam
                } else {
                    Property::OptionalParam
                },
            },
    )
}

/// The attributes contributed by the object's fields, in order. A field is
/// required only if both the field itself and the object's body are required
/// for this operation.
pub open spec fn field_attrs(fs: Seq<ObjectFieldModel>, body_required: bool) -> Seq<AttrModel> {
    fs.map_values(
        |f: ObjectFieldModel|
            AttrModel {
                name: f.name,
                ty_path: f.ty_path,
                prop: if body_required && f.is_required {
                    Property::RequiredField
                } else {
                    Property::OptionalField
                },
            },
    )
}

/// The undeduplicated attribute sources of a builder, in precedence order:
/// path-level parameters, operation-level parameters, then fields.
pub open spec fn raw_attrs(b: ApiObjectBuilderModel) -> Seq<AttrModel> {
    param_attrs(b.global_params) + param_attrs(b.local_params) + field_attrs(
        b.fields,
        b.body_required,
    )
}

/// Whether some attribute in `s` carries the name `n`.
pub open spec fn contains_name(s: Seq<AttrModel>, n: Seq<char>) -> bool {
    exists|k: int| 0 <= k < s.len() && s[k].name == n
}

/// One step of the deduplicating pass: keep `a` only if its name is new.
pub open spec fn dedup_push(acc: Seq<AttrModel>, a: AttrModel) -> Seq<AttrModel> {
    if contains_name(acc, a.name) {
        acc
    } else {
        acc.push(a)
    }
}

/// The deduplicating pass over the first `n` elements of `s`, keeping the
/// first occurrence of each name.
pub open spec fn dedup_prefix(s: Seq<AttrModel>, n: int) -> Seq<AttrModel>
    decreases n,
{
    if n <= 0 {
        Seq::empty()
    } else {
        dedup_push(dedup_prefix(s, n - 1), s[n - 1])
    }
}

/// The merged, deduplicated, ordered attribute set of a builder.
pub open spec fn merged_attrs(b: ApiObjectBuilderModel) -> Seq<AttrModel> {
    dedup_prefix(raw_attrs(b), raw_attrs(b).len() as int)
}

/// `a` stands at some position `k` below `n` in `s`, and no earlier element
/// of `s` carries its name.
pub open spec fn is_first_occurrence(s: Seq<AttrModel>, n: int, a: AttrModel) -> bool {
    exists|k: int|
        0 <= k < n && s[k] == a && !contains_name(s.take(k), a.name)
}

/// What the deduplicating pass guarantees: the kept attributes carry pairwise
/// distinct names, a name survives iff it occurs in the prefix, and every
/// kept attribute is the first occurrence of its name.
proof fn lemma_dedup_prefix_props(s: Seq<AttrModel>, n: int)
    requires
        0 <= n <= s.len(),
    ensures
        forall|i: int, j: int|
            0 <= i < j < dedup_prefix(s, n).len() ==> dedup_prefix(s, n)[i].name != dedup_prefix(
                s,
                n,
            )[j].name,
        forall|x: Seq<char>|
            #[trigger] contains_name(dedup_prefix(s, n), x) <==> contains_name(s.take(n), x),
        forall|j: int|
            0 <= j < dedup_prefix(s, n).len() ==> is_first_occurrence(
                s,
                n,
                #[trigger] dedup_prefix(s, n)[j],
            ),
    decreases n,
{
    if n > 0 {
        lemma_dedup_prefix_props(s, n - 1);
        let prev = dedup_prefix(s, n - 1);
        let cur = dedup_prefix(s, n);
        let a = s[n - 1];
        assert(s.take(n - 1) =~= s.take(n).take(n - 1));
        assert forall|x: Seq<char>| #[trigger]
            contains_name(cur, x) <==> contains_name(s.take(n), x) by {
            if contains_name(cur, x) {
                let k = choose|k: int| 0 <= k < cur.len() && cur[k].name == x;
                if k < prev.len() {
                    assert(contains_name(prev, x));
                    let k2 = choose|k2: int|
                        0 <= k2 < s.take(n - 1).len() && #[trigger] s.take(n - 1)[k2].name == x;
                    assert(s.take(n)[k2].name == x);
                } else {
                    assert(cur[k] == a);
                    assert(s.take(n)[n - 1].name == x);
                }
            }
            if contains_name(s.take(n), x) {
                let k = choose|k: int| 0 <= k < n && s.take(n)[k].name == x;
                if k < n - 1 {
                    assert(s.take(n - 1)[k].name == x);
                    assert(contains_name(prev, x));
                    let k2 = choose|k2: int| 0 <= k2 < prev.len() && prev[k2].name == x;
                    assert(cur[k2].name == x);
                } else {
                    if contains_name(prev, a.name) {
                        let k2 = choose|k2: int| 0 <= k2 < prev.len() && prev[k2].name == a.name;
                        assert(cur[k2].name == x);
                    } else {
                        assert(cur[cur.len() - 1].name == x);
                    }
                }
            }
        }
        assert forall|j: int| 0 <= j < cur.len() implies is_first_occurrence(
            s,
            n,
            #[trigger] cur[j],
        ) by {
            if j < prev.len() {
                assert(is_first_occurrence(s, n - 1, prev[j]));
                let k = choose|k: int|
                    0 <= k < n - 1 && s[k] == prev[j] && !contains_name(s.take(k), prev[j].name);
                assert(cur[j] == prev[j]);
                assert(0 <= k < n && s[k] == cur[j] && !contains_name(s.take(k), cur[j].name));
            } else {
                assert(cur[j] == a);
                assert(!contains_name(prev, a.name));
                assert(!contains_name(s.take(n - 1), a.name));
                assert(0 <= n - 1 < n && s[n - 1] == a && !contains_name(
                    s.take(n - 1),
                    a.name,
                ));
            }
        }
    }
}

/// The merged attribute set of any builder contains no duplicate names.
pub proof fn lemma_merged_names_unique(b: ApiObjectBuilderModel)
    ensures
        forall|i: int, j: int|
            0 <= i < j < merged_attrs(b).len() ==> merged_attrs(b)[i].name != merged_attrs(
                b,
            )[j].name,
{
    lemma_dedup_prefix_props(raw_attrs(b), raw_attrs(b).len() as int);
}

/// Whether some parameter of the builder (path-level or operation-level)
/// carries the name `n`.
pub open spec fn params_contain(b: ApiObjectBuilderModel, n: Seq<char>) -> bool {
    (exists|k: int| 0 <= k < b.global_params.len() && b.global_params[k].name == n) || (exists|
        k: int,
    | 0 <= k < b.local_params.len() && b.local_params[k].name == n)
}

/// When a parameter collides with a same-named field, the parameter wins:
/// any merged attribute whose name is carried by some parameter is tagged as
/// a parameter, never as a field.
pub proof fn lemma_parameter_wins(b: ApiObjectBuilderModel, j: int)
    requires
        0 <= j < merged_attrs(b).len(),
        params_contain(b, merged_attrs(b)[j].name),
    ensures
        crate::model::spec_is_parameter(merged_attrs(b)[j].prop),
{
    let s = raw_attrs(b);
    let np = b.global_params.len() + b.local_params.len();
    lemma_dedup_prefix_props(s, s.len() as int);
    let a = merged_attrs(b)[j];
    assert(is_first_occurrence(s, s.len() as int, a));
    let k = choose|k: int| 0 <= k < s.len() && s[k] == a && !contains_name(s.take(k), a.name);
    // Some parameter carries the name, so it occurs in the parameter region
    // of the raw sources; by minimality of the first occurrence, `k` lies in
    // that region too, and every attribute there is tagged as a parameter.
    if exists|p: int| 0 <= p < b.global_params.len() && b.global_params[p].name == a.name {
        let p = choose|p: int| 0 <= p < b.global_params.len() && b.global_params[p].name == a.name;
        assert(s[p].name == a.name);
        if k > p {
            assert(s.take(k)[p].name == a.name);
            assert(contains_name(s.take(k), a.name));
        }
    } else {
        let p = choose|p: int| 0 <= p < b.local_params.len() && b.local_params[p].name == a.name;
        assert(s[b.global_params.len() + p].name == a.name);
        if k > b.global_params.len() + p {
            assert(s.take(k)[b.global_params.len() + p].name == a.name);
            assert(contains_name(s.take(k), a.name));
        }
    }
    assert(k < np);
    if k < b.global_params.len() {
        assert(s[k] == param_attrs(b.global_params)[k]);
    } else {
        assert(s[k] == param_attrs(b.local_params)[k - b.global_params.len()]);
    }
}

/// Whether some attribute in `v` carries the given name.
fn contains_attr_name(v: &Vec<Attr>, name: &String) -> (r: bool)
    ensures
        r == contains_name(v.deep_view(), name@),
{
    let mut i: usize = 0;
    let mut found = false;
    while i < v.len()
        invariant
            i <= v.len(),
            found == contains_name(v.deep_view().take(i as int), name@),
        decreases v.len() - i,
    {
        let ghost before = v.deep_view().take(i as int);
        if v[i].name == *name {
            found = true;
        }
        i = i + 1;
        proof {
            assert(v.deep_view().take(i as int).drop_last() =~= before);
            if found && !contains_name(before, name@) {
                assert(v.deep_view().take(i as int)[i - 1].name == name@);
            }
            if contains_name(v.deep_view().take(i as int), name@) && !found {
                let k = choose|k: int|
                    0 <= k < i && #[trigger] v.deep_view().take(i as int)[k].name == name@;
                assert(k < i - 1 ==> before[k].name == name@);
            }
        }
    }
    proof {
        assert(v.deep_view().take(v.len() as int) =~= v.deep_view());
    }
    found
}

/// Whether some parameter in `ps` is required.
fn any_required_param(ps: &Vec<crate::model::Parameter>) -> (r: bool)
    ensures
        r == exists|k: int| 0 <= k < ps.deep_view().len() && ps.deep_view()[k].required,
{
    let mut i: usize = 0;
    let mut found = false;
    while i < ps.len()
        invariant
            i <= ps.len(),
            found == exists|k: int| 0 <= k < i && ps.deep_view()[k].required,
        decreases ps.len() - i,
    {
        if ps[i].required {
            found = true;
            proof {
                assert(ps.deep_view()[i as int].required);
            }
        }
        i = i + 1;
    }
    found
}

/// Whether some field in `fs` is required.
fn any_required_field(fs: &Vec<crate::model::ObjectField>) -> (r: bool)
    ensures
        r == exists|k: int| 0 <= k < fs.deep_view().len() && fs.deep_view()[k].is_required,
{
    let mut i: usize = 0;
    let mut found = false;
    while i < fs.len()
        invariant
            i <= fs.len(),
            found == exists|k: int| 0 <= k < i && fs.deep_view()[k].is_required,
        decreases fs.len() - i,
    {
        if fs[i].is_required {
            found = true;
            proof {
                assert(fs.deep_view()[i as int].is_required);
            }
        }
        i = i + 1;
    }
    found
}

/// A builder needs a separate container iff it has at least one required
/// parameter (from either source), or it requires the object's body and the
/// object has at least one required field.
pub open spec fn spec_needs_container(b: ApiObjectBuilderModel) -> bool {
    (exists|k: int| 0 <= k < b.local_params.len() && b.local_params[k].required) || (exists|k: int|
        0 <= k < b.global_params.len() && b.global_params[k].required) || (b.body_required
        && exists|k: int| 0 <= k < b.fields.len() && b.fields[k].is_required)
}

/// Whether the builder struct will have at least one field: some merged
/// attribute is a parameter or is required.
pub open spec fn spec_has_any_field(b: ApiObjectBuilderModel) -> bool {
    exists|k: int|
        0 <= k < merged_attrs(b).len() && (crate::model::spec_is_parameter(
            #[trigger] merged_attrs(b)[k].prop,
        ) || crate::model::spec_is_required(merged_attrs(b)[k].prop))
}

impl ApiObjectBuilder {
    /// Returns the merged attribute set for the builder struct: all fields
    /// and parameters it must expose, in source order, deduplicated by name.
    ///
    /// **NOTE:** The names yielded are unique for a builder. Duplicate names
    /// are resolved by keeping the first occurrence: a parameter that
    /// collides with a same-named field therefore wins over the field.
    pub fn struct_fields_iter(&self) -> (r: Vec<Attr>)
        ensures
            r.deep_view() == merged_attrs(self@),
    {
        let mut raw: Vec<Attr> = Vec::new();
        let mut i: usize = 0;
        while i < self.global_params.len()
            invariant
                i <= self.global_params.len(),
                raw@.len() == i,
                raw.deep_view() =~= param_attrs(self.global_params.deep_view()).take(i as int),
            decreases self.global_params.len() - i,
        {
            let p = &self.global_params[i];
            let q = Attr {
                name: p.name.clone(),
                ty_path: p.ty_path.clone(),
                prop: if p.required {
                    Property::RequiredParam
                } else {
                    Property::OptionalParam
                },
            };
            let ghost prev = raw;
            raw.push(q);
            i = i + 1;
            proof {
                lemma_deep_view_push(prev, raw, q);
                assert(raw.deep_view() =~= param_attrs(self.global_params.deep_view()).take(
                    i as int,
                ));
            }
        }
        let ghost gp = param_attrs(self@.global_params);
        proof {
            assert(raw.deep_view() =~= gp);
        }
        let mut j: usize = 0;
        while j < self.local_params.len()
            invariant
                j <= self.local_params.len(),
                raw@.len() == gp.len() + j,
                raw.deep_view() =~= gp + param_attrs(self.local_params.deep_view()).take(j as int),
            decreases self.local_params.len() - j,
        {
            let p = &self.local_params[j];
            let q = Attr {
                name: p.name.clone(),
                ty_path: p.ty_path.clone(),
                prop: if p.required {
                    Property::RequiredParam
                } else {
                    Property::OptionalParam
                },
            };
            let ghost prev = raw;
            raw.push(q);
            j = j + 1;
            proof {
                lemma_deep_view_push(prev, raw, q);
                assert(raw.deep_view() =~= gp + param_attrs(self.local_params.deep_view()).take(
                    j as int,
                ));
            }
        }
        let ghost lp = param_attrs(self@.local_params);
        proof {
            assert(raw.deep_view() =~= gp + lp);
        }
        let mut k: usize = 0;
        while k < self.fields.len()
            invariant
                k <= self.fields.len(),
                raw@.len() == gp.len() + lp.len() + k,
                raw.deep_view() =~= (gp + lp) + field_attrs(
                    self.fields.deep_view(),
                    self.body_required,
                ).take(k as int),
            decreases self.fields.len() - k,
        {
            let f = &self.fields[k];
            let q = Attr {
                name: f.name.clone(),
                ty_path: f.ty_path.clone(),
                prop: if self.body_required && f.is_required {
                    Property::RequiredField
                } else {
                    Property::OptionalField
                },
            };
            let ghost prev = raw;
            raw.push(q);
            k = k + 1;
            proof {
                lemma_deep_view_push(prev, raw, q);
                assert(raw.deep_view() =~= (gp + lp) + field_attrs(
                    self.fields.deep_view(),
                    self.body_required,
                ).take(k as int));
            }
        }
        proof {
            assert(raw.deep_view() =~= raw_attrs(self@));
        }

        let mut res: Vec<Attr> = Vec::new();
        let mut n: usize = 0;
        while n < raw.len()
            invariant
                n <= raw.len(),
                raw.deep_view() == raw_attrs(self@),
                res.deep_view() =~= dedup_prefix(raw_attrs(self@), n as int),
            decreases raw.len() - n,
        {
            let dup = contains_attr_name(&res, &raw[n].name);
            if !dup {
                let q = Attr {
                    name: raw[n].name.clone(),
                    ty_path: raw[n].ty_path.clone(),
                    prop: raw[n].prop,
                };
                let ghost prev = res;
                res.push(q);
                proof {
                    lemma_deep_view_push(prev, res, q);
                    assert(q.deep_view() == raw_attrs(self@)[n as int]);
                }
            }
            n = n + 1;
            proof {
                assert(res.deep_view() =~= dedup_prefix(raw_attrs(self@), n as int));
            }
        }
        proof {
            assert(res.deep_view() =~= merged_attrs(self@));
        }
        res
    }

    /// Returns whether a separate container is needed for the builder struct.
    pub fn needs_container(&self) -> (r: bool)
        ensures
            r == spec_needs_container(self@),
    {
        let lp = any_required_param(&self.local_params);
        let gp = any_required_param(&self.global_params);
        let bf = self.body_required && any_required_field(&self.fields);
        proof {
            if lp {
                let k = choose|k: int|
                    0 <= k < self.local_params.deep_view().len()
                        && #[trigger] self.local_params.deep_view()[k].required;
                assert(self@.local_params[k].required);
            } else if exists|k: int|
                0 <= k < self@.local_params.len() && #[trigger] self@.local_params[k].required {
                let k = choose|k: int|
                    0 <= k < self@.local_params.len() && #[trigger] self@.local_params[k].required;
                assert(self.local_params.deep_view()[k].required);
            }
            if gp {
                let k = choose|k: int|
                    0 <= k < self.global_params.deep_view().len()
                        && #[trigger] self.global_params.deep_view()[k].required;
                assert(self@.global_params[k].required);
            } else if exists|k: int|
                0 <= k < self@.global_params.len() && #[trigger] self@.global_params[k].required {
                let k = choose|k: int|
                    0 <= k < self@.global_params.len()
                        && #[trigger] self@.global_params[k].required;
                assert(self.global_params.deep_view()[k].required);
            }
            if self.body_required {
                if bf {
                    let k = choose|k: int|
                        0 <= k < self.fields.deep_view().len()
                            && #[trigger] self.fields.deep_view()[k].is_required;
                    assert(self@.fields[k].is_required);
                } else if exists|k: int|
                    0 <= k < self@.fields.len() && #[trigger] self@.fields[k].is_required {
                    let k = choose|k: int|
                        0 <= k < self@.fields.len() && #[trigger] self@.fields[k].is_required;
                    assert(self.fields.deep_view()[k].is_required);
                }
            }
        }
        lp || gp || bf
    }

    /// Returns whether this builder will have at least one field.
    pub fn has_atleast_one_field(&self) -> (r: bool)
        ensures
            r == spec_has_any_field(self@),
    {
        let attrs = self.struct_fields_iter();
        let mut i: usize = 0;
        let mut found = false;
        while i < attrs.len()
            invariant
                i <= attrs.len(),
                attrs.deep_view() == merged_attrs(self@),
                found == exists|k: int|
                    0 <= k < i && (crate::model::spec_is_parameter(
                        #[trigger] merged_attrs(self@)[k].prop,
                    ) || crate::model::spec_is_required(merged_attrs(self@)[k].prop)),
            decreases attrs.len() - i,
        {
            if attrs[i].prop.is_parameter() || attrs[i].prop.is_required() {
                found = true;
                proof {
                    assert(attrs.deep_view()[i as int].prop == attrs@[i as int].prop);
                }
            }
            i = i + 1;
        }
        found
    }
}

} // verus!
