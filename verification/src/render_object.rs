//! Rendering of record types into target source text.

use vstd::prelude::*;
use vstd::string::StringExecFns;

use crate::model::{ApiObject, ApiObjectModel, ObjectField, ObjectFieldModel};

verus! {


/// The rendering of one record field: its rename annotation when the wire
/// name differs, then the field, optional fields wrapped in a nullable
/// wrapper and boxed fields in an indirection marker (innermost).
pub open spec fn field_decl_text(fd: ObjectFieldModel) -> Seq<char> {
    "\n    "@ + (match fd.rename {
        Some(n) => "#[serde(rename = \""@ + n + "\")]\n    "@,
        None => Seq::empty(),
    }) + "pub "@ + fd.name + ": "@ + (if !fd.is_required {
        "Option<"@
    } else {
        Seq::empty()
    }) + (if fd.boxed {
        "Box<"@
    } else {
        Seq::empty()
    }) + fd.ty_path + (if fd.boxed {
        ">"@
    } else {
        Seq::empty()
    }) + (if !fd.is_required {
        ">"@
    } else {
        Seq::empty()
    }) + ","@
}

/// The rendering of the first `n` fields of a record, in declaration order.
pub open spec fn fields_text(fs: Seq<ObjectFieldModel>, n: int) -> Seq<char>
    decreases n,
{
    if n <= 0 {
        Seq::empty()
    } else {
        fields_text(fs, n - 1) + field_decl_text(fs[n - 1])
    }
}

/// The full rendering of a record type: one field per declared field, in
/// declaration order.
pub open spec fn object_decl_text(o: ApiObjectModel) -> Seq<char> {
    "#[derive(Debug, Default, Clone, Deserialize, Serialize)]"@ + "\npub struct "@ + o.name
        + " {"@ + fields_text(o.fields, o.fields.len() as int) + (if o.fields.len() > 0 {
        "\n"@
    } else {
        Seq::empty()
    }) + "}\n"@
}

/// Writes the declaration of one record field into the sink.
#[verifier::rlimit(100)]
fn write_field_decl(field: &ObjectField, f: &mut String)
    ensures
        final(f)@ == old(f)@ + field_decl_text(field@),
{
    f.append("\n    ");
    match &field.rename {
        Some(name) => {
            f.append("#[serde(rename = \"");
            f.append(name.as_str());
            f.append("\")]\n    ");
        },
        None => {},
    }
    let ghost f1 = f@;
    proof {
        assert(f1 =~= old(f)@ + "\n    "@ + (match field@.rename {
            Some(n) => "#[serde(rename = \""@ + n + "\")]\n    "@,
            None => Seq::<char>::empty(),
        }));
    }

    f.append("pub ");
    f.append(field.name.as_str());
    f.append(": ");
    let ghost f2 = f@;
    if !field.is_required {
        f.append("Option<");
    }
    if field.boxed {
        f.append("Box<");
    }
    f.append(field.ty_path.as_str());
    if field.boxed {
        f.append(">");
    }
    if !field.is_required {
        f.append(">");
    }
    f.append(",");
    proof {
        let fd = field@;
        assert(f@ =~= f2 + (if !fd.is_required {
            "Option<"@
        } else {
            Seq::empty()
        }) + (if fd.boxed {
            "Box<"@
        } else {
            Seq::empty()
        }) + fd.ty_path + (if fd.boxed {
            ">"@
        } else {
            Seq::empty()
        }) + (if !fd.is_required {
            ">"@
        } else {
            Seq::empty()
        }) + ","@);
        assert(f@ =~= old(f)@ + field_decl_text(fd));
    }
}

impl ApiObject {
    /// Renders this record type into target source text.
    pub fn render(&self) -> (r: String)
        ensures
            r@ == object_decl_text(self@),
    {
        let mut f = String::new();
        f.append("#[derive(Debug, Default, Clone, Deserialize, Serialize)]");
        f.append("\npub struct ");
        f.append(self.name.as_str());
        f.append(" {");

        let ghost f_mid = f@;
        let mut i: usize = 0;
        while i < self.fields.len()
            invariant
                i <= self.fields.len(),
                f@ == f_mid + fields_text(self@.fields, i as int),
            decreases self.fields.len() - i,
        {
            let field = &self.fields[i];
            proof {
                assert(self.fields.deep_view()[i as int] == self@.fields[i as int]);
            }
            write_field_decl(field, &mut f);
            i = i + 1;
            proof {
                vstd::seq_lib::lemma_concat_associative(
                    f_mid,
                    fields_text(self@.fields, i - 1),
                    field_decl_text(self@.fields[i - 1]),
                );
                assert(f@ == f_mid + fields_text(self@.fields, i as int));
            }
        }

        if self.fields.len() > 0 {
            f.append("\n");
        }
        f.append("}\n");
        proof {
            assert(f@ =~= object_decl_text(self@));
        }
        f
    }
}


/// Rendering is a pure function of the record's model: two renderings of
/// the same unchanged input are byte-identical.
pub proof fn lemma_rendering_deterministic(o: ApiObjectModel, r1: Seq<char>, r2: Seq<char>)
    requires
        r1 == object_decl_text(o),
        r2 == object_decl_text(o),
    ensures
        r1 == r2,
{
}


} // verus!
