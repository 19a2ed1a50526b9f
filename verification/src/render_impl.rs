//! Rendering of constructor-impl blocks: one constructor method per
//! builder descriptor, each returning the fully "missing" instantiation of
//! its builder type.

use vstd::prelude::*;
use vstd::string::StringExecFns;

use crate::casing::{snake_of, to_snek_case};
use crate::deriver::{ApiObjectBuilder, ApiObjectBuilderModel, ApiObjectImpl};
use crate::merge::{merged_attrs, spec_needs_container, AttrModel};
use crate::model::{method_name, spec_is_parameter, spec_is_required};
use crate::naming::{builder_name, dec_digits, dec_str};
use crate::render::generics_text;

verus! {


/// The constructor-method name resolved for a builder.
///
/// If the builder is bound to a method and the object has no other builder,
/// the method name is used. Otherwise a declared operation ID wins; next a
/// bound method name, disambiguated with the path ordinal when positive;
/// and a standalone builder gets the fixed generic name.
pub open spec fn ctor_method_name(b: ApiObjectBuilderModel, has_multiple: bool) -> Seq<char> {
    match b.method {
        Some(m) => if !has_multiple {
            snake_of(method_name(m))
        } else {
            match b.op_id {
                Some(id) => snake_of(id),
                None => snake_of(method_name(m)) + (if b.idx > 0 {
                    "_"@ + dec_digits(b.idx as nat)
                } else {
                    Seq::empty()
                }),
            }
        },
        None => match b.op_id {
            Some(id) => snake_of(id),
            None => "builder"@,
        },
    }
}

/// What one merged attribute contributes to a constructor body: a marker
/// initializer when required, an empty optional-parameter initializer when
/// it is a parameter kept directly on the builder.
pub open spec fn ctor_init_text(a: AttrModel, nc: bool) -> Seq<char> {
    if spec_is_required(a.prop) {
        "\n            "@ + (if spec_is_parameter(a.prop) {
            "_param"@
        } else {
            Seq::empty()
        }) + "_"@ + snake_of(a.name) + ": core::marker::PhantomData,"@
    } else if spec_is_parameter(a.prop) && !nc {
        "\n            param_"@ + snake_of(a.name) + ": None,"@
    } else {
        Seq::empty()
    }
}

/// What the first `n` merged attributes contribute to a constructor body.
pub open spec fn ctor_inits_text(s: Seq<AttrModel>, nc: bool, n: int) -> Seq<char>
    decreases n,
{
    if n <= 0 {
        Seq::empty()
    } else {
        ctor_inits_text(s, nc, n - 1) + ctor_init_text(s[n - 1], nc)
    }
}

/// The full rendering of one constructor method: it returns the fully
/// "missing" instantiation of its builder type.
pub open spec fn ctor_text(b: ApiObjectBuilderModel, has_multiple: bool) -> Seq<char> {
    let nc = spec_needs_container(b);
    let merged = merged_attrs(b);
    "\n    #[inline]\n    pub fn "@ + ctor_method_name(b, has_multiple) + "() -> "@ + builder_name(
        b,
    ) + generics_text(b, true) + " {\n        "@ + builder_name(b) + " {"@ + (if nc {
        "\n            inner: Default::default(),"@
    } else if b.body_required {
        "\n            body: Default::default(),"@
    } else {
        Seq::empty()
    }) + ctor_inits_text(merged, nc, merged.len() as int) + "\n        }\n    }"@
}

/// The rendering of the first `n` constructor methods of an impl block.
pub open spec fn builder_methods_text(bs: Seq<ApiObjectBuilderModel>, n: int) -> Seq<char>
    decreases n,
{
    if n <= 0 {
        Seq::empty()
    } else {
        builder_methods_text(bs, n - 1) + ctor_text(bs[n - 1], bs.len() > 1)
    }
}

/// The full rendering of an object's impl block: one constructor method per
/// builder, suppressed entirely when there are no builders.
pub open spec fn impl_decl_text(name: Seq<char>, bs: Seq<ApiObjectBuilderModel>) -> Seq<char> {
    if bs.len() == 0 {
        Seq::empty()
    } else {
        "impl "@ + name + " {"@ + builder_methods_text(bs, bs.len() as int) + "\n}\n"@
    }
}

/// Writes one constructor method for `builder` into the sink: its resolved
/// name, its signature returning the fully "missing" builder instantiation,
/// and one initializer per merged attribute that needs one.
#[verifier::rlimit(100)]
fn write_ctor_method(builder: &ApiObjectBuilder, has_multiple: bool, f: &mut String)
    ensures
        final(f)@ == old(f)@ + ctor_text(builder@, has_multiple),
{
    let ghost f_before = f@;
    f.append("\n    #[inline]\n    pub fn ");
    match builder.method {
        // If there's a method and we don't have any collisions
        // (i.e., two or more paths for same object), then we default
        // to using the method ...
        Some(meth) => {
            if !has_multiple {
                let m = to_snek_case(meth.as_str());
                f.append(m.as_str());
            } else {
                match &builder.op_id {
                    // If there's an operation ID, then we go for that ...
                    Some(id) => {
                        let n = to_snek_case(id.as_str());
                        f.append(n.as_str());
                    },
                    // If there's a method, then we go for numbered functions ...
                    None => {
                        let m = to_snek_case(meth.as_str());
                        f.append(m.as_str());
                        if builder.idx > 0 {
                            f.append("_");
                            let d = dec_str(builder.idx);
                            f.append(d.as_str());
                        }
                    },
                }
            }
        },
        None => {
            match &builder.op_id {
                Some(id) => {
                    let n = to_snek_case(id.as_str());
                    f.append(n.as_str());
                },
                // Otherwise it's a simple object builder.
                None => {
                    f.append("builder");
                },
            }
        },
    }
    proof {
        assert(f@ =~= f_before + "\n    #[inline]\n    pub fn "@ + ctor_method_name(
            builder@,
            has_multiple,
        ));
    }

    f.append("() -> ");
    builder.write_name(f);
    builder.write_generics_if_necessary(f, true);
    f.append(" {\n        ");
    builder.write_name(f);
    f.append(" {");

    let nc = builder.needs_container();
    if nc {
        f.append("\n            inner: Default::default(),");
    } else if builder.body_required {
        f.append("\n            body: Default::default(),");
    }

    let attrs = builder.struct_fields_iter();
    let ghost merged = merged_attrs(builder@);
    let ghost f_pre = f@;
    proof {
        let b = builder@;
        assert(f_pre =~= f_before + "\n    #[inline]\n    pub fn "@ + ctor_method_name(
            b,
            has_multiple,
        ) + "() -> "@ + builder_name(b) + generics_text(b, true) + " {\n        "@
            + builder_name(b) + " {"@ + (if spec_needs_container(b) {
            "\n            inner: Default::default(),"@
        } else if b.body_required {
            "\n            body: Default::default(),"@
        } else {
            Seq::empty()
        }));
    }
    let mut j: usize = 0;
    while j < attrs.len()
        invariant
            j <= attrs.len(),
            attrs.deep_view() == merged,
            nc == spec_needs_container(builder@),
            merged == merged_attrs(builder@),
            f@ == f_pre + ctor_inits_text(merged, nc, j as int),
        decreases attrs.len() - j,
    {
        let ghost f_loop = f@;
        if attrs[j].prop.is_required() {
            f.append("\n            ");
            if attrs[j].prop.is_parameter() {
                f.append("_param");
            }
            f.append("_");
            let sk = to_snek_case(attrs[j].name.as_str());
            f.append(sk.as_str());
            f.append(": core::marker::PhantomData,");
        } else if attrs[j].prop.is_parameter() && !nc {
            f.append("\n            param_");
            let sk = to_snek_case(attrs[j].name.as_str());
            f.append(sk.as_str());
            f.append(": None,");
        }
        j = j + 1;
        proof {
            let a = merged[j - 1];
            assert(attrs.deep_view()[j - 1] == a);
            assert(f@ =~= f_loop + ctor_init_text(a, nc));
            vstd::seq_lib::lemma_concat_associative(
                f_pre,
                ctor_inits_text(merged, nc, j - 1),
                ctor_init_text(a, nc),
            );
            assert(f@ == f_pre + ctor_inits_text(merged, nc, j as int));
        }
    }

    f.append("\n        }\n    }");
    proof {
        let b = builder@;
        let pre = "\n    #[inline]\n    pub fn "@ + ctor_method_name(b, has_multiple)
            + "() -> "@ + builder_name(b) + generics_text(b, true) + " {\n        "@
            + builder_name(b) + " {"@ + (if spec_needs_container(b) {
            "\n            inner: Default::default(),"@
        } else if b.body_required {
            "\n            body: Default::default(),"@
        } else {
            Seq::empty()
        });
        let inits = ctor_inits_text(
            merged_attrs(b),
            spec_needs_container(b),
            merged_attrs(b).len() as int,
        );
        assert(f_pre == f_before + pre);
        assert(f@ == (f_pre + inits) + "\n        }\n    }"@);
        assert(ctor_text(b, has_multiple) == (pre + inits) + "\n        }\n    }"@);
        vstd::seq_lib::lemma_concat_associative(f_before, pre, inits);
        vstd::seq_lib::lemma_concat_associative(
            f_before,
            pre + inits,
            "\n        }\n    }"@,
        );
        assert(f@ == f_before + ctor_text(b, has_multiple));
    }
}

impl<'a> ApiObjectImpl<'a> {
    /// Writes one constructor method per builder into the sink.
    pub fn write_builder_methods(&self, f: &mut String)
        ensures
            final(f)@ == old(f)@ + builder_methods_text(
                self.builders.deep_view(),
                self.builders.deep_view().len() as int,
            ),
    {
        let ghost bs = self.builders.deep_view();
        let has_multiple = self.builders.len() > 1;

        let mut i: usize = 0;
        while i < self.builders.len()
            invariant
                i <= self.builders.len(),
                bs == self.builders.deep_view(),
                has_multiple == (bs.len() > 1),
                f@ == old(f)@ + builder_methods_text(bs, i as int),
            decreases self.builders.len() - i,
        {
            let builder = &self.builders[i];
            proof {
                assert(builder.deep_view() == bs[i as int]);
            }
            write_ctor_method(builder, has_multiple, f);
            i = i + 1;
            proof {
                vstd::seq_lib::lemma_concat_associative(
                    old(f)@,
                    builder_methods_text(bs, i - 1),
                    ctor_text(bs[i - 1], has_multiple),
                );
                assert(f@ == old(f)@ + builder_methods_text(bs, i as int));
            }
        }
    }

    /// Renders this object's impl block into target source text. The block
    /// is suppressed entirely when there are no builders.
    pub fn render(&self) -> (r: String)
        ensures
            r@ == impl_decl_text(self.inner@.name, self.builders.deep_view()),
    {
        let mut f = String::new();
        if self.builders.len() == 0 {
            proof {
                assert(f@ =~= impl_decl_text(self.inner@.name, self.builders.deep_view()));
            }
            return f;
        }

        f.append("impl ");
        f.append(self.inner.name.as_str());
        f.append(" {");
        self.write_builder_methods(&mut f);
        f.append("\n}\n");
        proof {
            assert(f@ =~= impl_decl_text(self.inner@.name, self.builders.deep_view()));
        }
        f
    }
}

} // verus!
