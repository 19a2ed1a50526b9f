//! Rendering of record, builder, container and constructor-impl descriptors
//! into target source text.
//!
//! Every renderer appends to a plain string sink, and its contract states
//! the appended text exactly, so rendering is deterministic by construction.

use vstd::prelude::*;
use vstd::string::StringExecFns;

use crate::casing::{camel_of, snake_of, to_camel_case, to_snek_case};
use crate::deriver::{ApiObjectBuilder, ApiObjectBuilderModel};
use crate::merge::{merged_attrs, spec_has_any_field, spec_needs_container, AttrModel};
use crate::model::{spec_is_parameter, spec_is_required, Property};
use crate::naming::{builder_name, container_name};

verus! {

/// The required attributes of the first `n` merged attributes, in merge
/// order.
pub open spec fn required_only(s: Seq<AttrModel>, n: int) -> Seq<AttrModel>
    decreases n,
{
    if n <= 0 {
        Seq::empty()
    } else if spec_is_required(s[n - 1].prop) {
        required_only(s, n - 1).push(s[n - 1])
    } else {
        required_only(s, n - 1)
    }
}

/// The required attributes of a builder's merged set, in merge order. Each
/// of them owns one typestate type parameter on the builder.
pub open spec fn required_attrs(b: ApiObjectBuilderModel) -> Seq<AttrModel> {
    required_only(merged_attrs(b), merged_attrs(b).len() as int)
}

/// The case-normalized typestate type-parameter names of a builder, one per
/// required attribute of its merged set, in merge order.
pub open spec fn typestate_params(b: ApiObjectBuilderModel) -> Seq<Seq<char>> {
    Seq::new(required_attrs(b).len(), |i: int| camel_of(required_attrs(b)[i].name))
}

/// The `i`-th piece of a generics list: a separator when `i` is positive,
/// the qualified "missing" marker when actual types are wanted, then the
/// type-parameter name.
pub open spec fn generics_piece(
    name: Seq<char>,
    prefix: Seq<char>,
    types: bool,
    i: int,
) -> Seq<char> {
    (if i > 0 {
        ", "@
    } else {
        Seq::empty()
    }) + (if types {
        prefix + "Missing"@
    } else {
        Seq::empty()
    }) + name
}

/// The first `n` pieces of a generics list over the given type-parameter
/// names.
pub open spec fn generics_join(
    names: Seq<Seq<char>>,
    prefix: Seq<char>,
    types: bool,
    n: int,
) -> Seq<char>
    decreases n,
{
    if n <= 0 {
        Seq::empty()
    } else {
        generics_join(names, prefix, types, n - 1) + generics_piece(names[n - 1], prefix, types, n - 1)
    }
}

/// The full generics list of a builder: empty when no attribute is
/// required, otherwise one type parameter per required attribute of the
/// merged set, in merge order, angle-bracketed.
pub open spec fn generics_text(b: ApiObjectBuilderModel, types: bool) -> Seq<char> {
    let names = typestate_params(b);
    if names.len() == 0 {
        Seq::empty()
    } else {
        "<"@ + generics_join(names, b.helper_module_prefix, types, names.len() as int) + ">"@
    }
}

/// `generics_join` reads only the names below `n`, so appending a name does
/// not change it.
proof fn lemma_generics_join_push(
    names: Seq<Seq<char>>,
    x: Seq<char>,
    prefix: Seq<char>,
    types: bool,
    n: int,
)
    requires
        n <= names.len(),
    ensures
        generics_join(names.push(x), prefix, types, n) == generics_join(names, prefix, types, n),
    decreases n,
{
    if n > 0 {
        lemma_generics_join_push(names, x, prefix, types, n - 1);
    }
}

/// `required_only` over a prefix is the filter of that prefix by the
/// required tag.
proof fn lemma_required_only_is_filter(s: Seq<AttrModel>, n: int)
    requires
        0 <= n <= s.len(),
    ensures
        required_only(s, n) == s.take(n).filter(|a: AttrModel| spec_is_required(a.prop)),
    decreases n,
{
    let pred = |a: AttrModel| spec_is_required(a.prop);
    if n == 0 {
        assert(s.take(0) =~= Seq::<AttrModel>::empty());
        assert(s.take(0).filter(pred) == s.take(0));
    } else {
        lemma_required_only_is_filter(s, n - 1);
        reveal_with_fuel(Seq::filter, 2);
        let t = s.take(n);
        assert(t.len() == n);
        assert(t.filter(pred) == if pred(t.last()) {
            t.drop_last().filter(pred).push(t.last())
        } else {
            t.drop_last().filter(pred)
        });
        assert(t.drop_last() =~= s.take(n - 1));
        assert(t.last() == s[n - 1]);
    }
}

/// The typestate type parameters of a builder: exactly one per required
/// attribute of its merged set, carrying that attribute's case-normalized
/// name, in merge order.
pub proof fn lemma_typestate_param_per_required_attr(b: ApiObjectBuilderModel)
    ensures
        required_attrs(b) == merged_attrs(b).filter(|a: AttrModel| spec_is_required(a.prop)),
        typestate_params(b).len() == required_attrs(b).len(),
        forall|i: int|
            0 <= i < required_attrs(b).len() ==> typestate_params(b)[i] == camel_of(
                required_attrs(b)[i].name,
            ),
{
    let merged = merged_attrs(b);
    lemma_required_only_is_filter(merged, merged.len() as int);
    assert(merged.take(merged.len() as int) =~= merged);
}

impl ApiObjectBuilder {
    /// Writes generic parameters, if needed.
    ///
    /// Also takes a bool to specify whether the parameters should make
    /// use of actual types (defaults for impl).
    #[verifier::rlimit(100)]
    pub fn write_generics_if_necessary(&self, f: &mut String, types: bool)
        ensures
            final(f)@ == old(f)@ + generics_text(self@, types),
    {
        let attrs = self.struct_fields_iter();
        let ghost merged = merged_attrs(self@);
        let mut count: usize = 0;
        let mut i: usize = 0;
        while i < attrs.len()
            invariant
                i <= attrs.len(),
                attrs.deep_view() == merged,
                merged == merged_attrs(self@),
                count <= i,
                count == required_only(merged, i as int).len(),
                count == 0 ==> f@ == old(f)@,
                count > 0 ==> f@ == old(f)@ + "<"@ + generics_join(
                    Seq::new(
                        required_only(merged, i as int).len(),
                        |k: int| camel_of(required_only(merged, i as int)[k].name),
                    ),
                    self@.helper_module_prefix,
                    types,
                    count as int,
                ),
            decreases attrs.len() - i,
        {
            let ghost req_before = required_only(merged, i as int);
            let ghost names_before = Seq::new(
                req_before.len(),
                |k: int| camel_of(req_before[k].name),
            );
            if attrs[i].prop.is_required() {
                if count == 0 {
                    f.append("<");
                } else {
                    f.append(", ");
                }
                if types {
                    f.append(self.helper_module_prefix.as_str());
                    f.append("Missing");
                }
                let cc = to_camel_case(attrs[i].name.as_str());
                f.append(cc.as_str());
                count = count + 1;
                proof {
                    let req_after = required_only(merged, i + 1);
                    let names_after = Seq::new(
                        req_after.len(),
                        |k: int| camel_of(req_after[k].name),
                    );
                    assert(attrs.deep_view()[i as int] == merged[i as int]);
                    assert(req_after == req_before.push(merged[i as int]));
                    assert(names_after =~= names_before.push(camel_of(merged[i as int].name)));
                    lemma_generics_join_push(
                        names_before,
                        camel_of(merged[i as int].name),
                        self@.helper_module_prefix,
                        types,
                        count - 1,
                    );
                    assert(generics_join(
                        names_after,
                        self@.helper_module_prefix,
                        types,
                        count as int,
                    ) == generics_join(
                        names_before,
                        self@.helper_module_prefix,
                        types,
                        count - 1,
                    ) + generics_piece(
                        camel_of(merged[i as int].name),
                        self@.helper_module_prefix,
                        types,
                        count - 1,
                    ));
                    assert(f@ =~= old(f)@ + "<"@ + generics_join(
                        names_after,
                        self@.helper_module_prefix,
                        types,
                        count as int,
                    ));
                }
            } else {
                proof {
                    assert(attrs.deep_view()[i as int] == merged[i as int]);
                    assert(required_only(merged, i + 1) == req_before);
                }
            }
            i = i + 1;
        }
        if count > 0 {
            f.append(">");
        }
        proof {
            assert(required_only(merged, merged.len() as int) == required_attrs(self@));
            if count > 0 {
                assert(Seq::new(
                    required_attrs(self@).len(),
                    |k: int| camel_of(required_attrs(self@)[k].name),
                ) =~= typestate_params(self@));
                assert(f@ =~= old(f)@ + generics_text(self@, types));
            } else {
                assert(typestate_params(self@).len() == 0);
                assert(f@ =~= old(f)@ + generics_text(self@, types));
            }
        }
    }
}

/// The body field of a builder or container, present only when the object's
/// body is required for the operation.
pub open spec fn body_field_text(b: ApiObjectBuilderModel) -> Seq<char> {
    if b.body_required {
        "\n    body: "@ + b.object + ","@
    } else {
        Seq::empty()
    }
}

/// The optional-parameter field for one attribute, present only when the
/// attribute is a parameter.
pub open spec fn param_field_text(prop: Property, name: Seq<char>, ty: Seq<char>) -> Seq<char> {
    if spec_is_parameter(prop) {
        "\n    param_"@ + name + ": Option<"@ + ty + ">,"@
    } else {
        Seq::empty()
    }
}

/// The zero-sized marker field for one attribute, present only when the
/// attribute is required; it is typed by the attribute's typestate type
/// parameter.
pub open spec fn marker_field_text(a: AttrModel) -> Seq<char> {
    if spec_is_required(a.prop) {
        "\n    "@ + (if spec_is_parameter(a.prop) {
            "_param"@
        } else {
            Seq::empty()
        }) + "_"@ + snake_of(a.name) + ": core::marker::PhantomData<"@ + camel_of(a.name) + ">,"@
    } else {
        Seq::empty()
    }
}

/// What one merged attribute contributes to the builder struct itself: its
/// optional-parameter field when no container is used, and its marker field.
pub open spec fn main_attr_text(a: AttrModel, nc: bool) -> Seq<char> {
    (if !nc {
        param_field_text(a.prop, snake_of(a.name), a.ty_path)
    } else {
        Seq::empty()
    }) + marker_field_text(a)
}

/// What the first `n` merged attributes contribute to the builder struct.
pub open spec fn main_attrs_text(s: Seq<AttrModel>, nc: bool, n: int) -> Seq<char>
    decreases n,
{
    if n <= 0 {
        Seq::empty()
    } else {
        main_attrs_text(s, nc, n - 1) + main_attr_text(s[n - 1], nc)
    }
}

/// What the first `n` merged attributes contribute to the container: their
/// optional-parameter fields, when a container is used.
pub open spec fn container_attrs_text(s: Seq<AttrModel>, nc: bool, n: int) -> Seq<char>
    decreases n,
{
    if n <= 0 {
        Seq::empty()
    } else {
        container_attrs_text(s, nc, n - 1) + (if nc {
            param_field_text(s[n - 1].prop, snake_of(s[n - 1].name), s[n - 1].ty_path)
        } else {
            Seq::empty()
        })
    }
}

/// The full rendering of one builder struct, with its container struct when
/// one is needed.
pub open spec fn builder_decl_text(b: ApiObjectBuilderModel) -> Seq<char> {
    let nc = spec_needs_container(b);
    let hf = spec_has_any_field(b);
    let merged = merged_attrs(b);
    (if nc {
        "#[repr(transparent)]\n"@
    } else {
        Seq::empty()
    }) + "#[derive(Debug, Clone)]\npub struct "@ + builder_name(b) + generics_text(b, false) + (
    if hf || b.body_required || nc {
        " {"@
    } else {
        Seq::empty()
    }) + (if nc {
        "\n    inner: "@ + container_name(b) + ","@
    } else {
        body_field_text(b)
    }) + main_attrs_text(merged, nc, merged.len() as int) + (if hf || b.body_required {
        "\n}\n"@
    } else {
        ";\n"@
    }) + (if nc {
        "\n"@ + "#[derive(Debug, Default, Clone)]\nstruct "@ + container_name(b) + " {"@
            + body_field_text(b) + container_attrs_text(merged, nc, merged.len() as int) + "\n}\n"@
    } else {
        Seq::empty()
    })
}

impl ApiObjectBuilder {
    /// Writes the body field into the sink if required.
    pub fn write_body_field_if_required(&self, f: &mut String)
        ensures
            final(f)@ == old(f)@ + body_field_text(self@),
    {
        if self.body_required {
            f.append("\n    body: ");
            f.append(self.object.as_str());
            f.append(",");
        }
        proof {
            assert(f@ =~= old(f)@ + body_field_text(self@));
        }
    }

    /// Writes the parameter into the sink if required.
    pub fn write_parameter_if_required(&self, prop: Property, name: &str, ty: &str, f: &mut String)
        ensures
            final(f)@ == old(f)@ + param_field_text(prop, name@, ty@),
    {
        if prop.is_parameter() {
            f.append("\n    param_");
            f.append(name);
            f.append(": Option<");
            f.append(ty);
            f.append(">,");
        }
        proof {
            assert(f@ =~= old(f)@ + param_field_text(prop, name@, ty@));
        }
    }

    /// Renders this builder struct, and its container struct when one is
    /// needed, into target source text.
    #[verifier::rlimit(60)]
    pub fn render(&self) -> (r: String)
        ensures
            r@ == builder_decl_text(self@),
    {
        let ghost merged = merged_attrs(self@);
        let mut f = String::new();
        // If the builder "needs" parameters/fields, then we go for a separate
        // container which holds both the body (if any) and the parameters,
        // so that we can make the actual builder `#[repr(transparent)]`
        // for safe transmuting.
        let nc = self.needs_container();
        if nc {
            f.append("#[repr(transparent)]\n");
        }
        f.append("#[derive(Debug, Clone)]\npub struct ");
        self.write_name(&mut f);
        self.write_generics_if_necessary(&mut f, false);

        // If structs don't have any fields, then we go for unit structs.
        let hf = self.has_atleast_one_field();
        if hf || self.body_required || nc {
            f.append(" {");
        }

        let mut container = String::new();
        if nc {
            container.append("#[derive(Debug, Default, Clone)]\nstruct ");
            self.write_container_name(&mut container);
            container.append(" {");
            self.write_body_field_if_required(&mut container);

            f.append("\n    inner: ");
            self.write_container_name(&mut f);
            f.append(",");
        } else {
            self.write_body_field_if_required(&mut f);
        }

        let attrs = self.struct_fields_iter();
        let ghost f_mid = f@;
        let ghost c_mid = container@;
        let mut i: usize = 0;
        while i < attrs.len()
            invariant
                i <= attrs.len(),
                attrs.deep_view() == merged,
                f@ == f_mid + main_attrs_text(merged, nc, i as int),
                container@ == c_mid + container_attrs_text(merged, nc, i as int),
            decreases attrs.len() - i,
        {
            let ghost f_before = f@;
            let ghost c_before = container@;
            let sk = to_snek_case(attrs[i].name.as_str());
            let cc = to_camel_case(attrs[i].name.as_str());
            if nc {
                self.write_parameter_if_required(
                    attrs[i].prop,
                    sk.as_str(),
                    attrs[i].ty_path.as_str(),
                    &mut container,
                );
            } else {
                self.write_parameter_if_required(
                    attrs[i].prop,
                    sk.as_str(),
                    attrs[i].ty_path.as_str(),
                    &mut f,
                );
            }

            if attrs[i].prop.is_required() {
                f.append("\n    ");
                if attrs[i].prop.is_parameter() {
                    f.append("_param");
                }
                f.append("_");
                f.append(sk.as_str());
                f.append(": core::marker::PhantomData<");
                f.append(cc.as_str());
                f.append(">,");
            }
            i = i + 1;
            proof {
                let a = merged[i - 1];
                assert(attrs.deep_view()[i - 1] == a);
                let cpiece = if nc {
                    param_field_text(a.prop, snake_of(a.name), a.ty_path)
                } else {
                    Seq::<char>::empty()
                };
                assert(f@ =~= f_before + main_attr_text(a, nc));
                assert(container@ =~= c_before + cpiece);
                vstd::seq_lib::lemma_concat_associative(
                    f_mid,
                    main_attrs_text(merged, nc, i - 1),
                    main_attr_text(a, nc),
                );
                assert(main_attrs_text(merged, nc, i as int) == main_attrs_text(merged, nc, i - 1)
                    + main_attr_text(a, nc));
                assert(f@ == f_mid + main_attrs_text(merged, nc, i as int));
                vstd::seq_lib::lemma_concat_associative(
                    c_mid,
                    container_attrs_text(merged, nc, i - 1),
                    cpiece,
                );
                assert(container_attrs_text(merged, nc, i as int) == container_attrs_text(
                    merged,
                    nc,
                    i - 1,
                ) + cpiece);
                assert(container@ == c_mid + container_attrs_text(merged, nc, i as int));
            }
        }

        if hf || self.body_required {
            f.append("\n}\n");
        } else {
            f.append(";\n");
        }

        if nc {
            f.append("\n");
            f.append(container.as_str());
            f.append("\n}\n");
        }
        proof {
            assert(f@ =~= builder_decl_text(self@));
        }
        f
    }
}
/// Whether `p` is a prefix of `s`.
pub open spec fn starts_with(s: Seq<char>, p: Seq<char>) -> bool {
    s.len() >= p.len() && s.take(p.len() as int) == p
}

/// The rendered builder carries the memory-layout-transparency annotation
/// exactly when the builder needs a container.
pub proof fn lemma_layout_annotation(b: ApiObjectBuilderModel)
    ensures
        spec_needs_container(b) <==> starts_with(builder_decl_text(b), "#[repr(transparent)]\n"@),
{
    reveal_strlit("#[repr(transparent)]\n");
    reveal_strlit("#[derive(Debug, Clone)]\npub struct ");
    let p = "#[repr(transparent)]\n"@;
    let t = builder_decl_text(b);
    if spec_needs_container(b) {
        assert(t.take(p.len() as int) =~= p);
    } else {
        if starts_with(t, p) {
            assert(t.take(p.len() as int)[2] == t[2]);
            assert(t[2] == 'r');
            assert(t[2] == ("#[derive(Debug, Clone)]\npub struct "@)[2]);
            assert(false);
        }
    }
}
} // verus!
