use openapi_codegen::model::{
    ApiObject, HttpMethod, ObjectField, OpRequirement, Parameter, PathOps,
};

fn field(name: &str, ty: &str, required: bool) -> ObjectField {
    ObjectField {
        name: name.to_string(),
        rename: None,
        ty_path: ty.to_string(),
        is_required: required,
        boxed: false,
    }
}

fn param(name: &str, ty: &str, required: bool) -> Parameter {
    Parameter {
        name: name.to_string(),
        ty_path: ty.to_string(),
        required,
    }
}

fn op(id: Option<&str>, params: Vec<Parameter>, body_required: bool) -> OpRequirement {
    OpRequirement {
        id: id.map(|s| s.to_string()),
        params,
        body_required,
    }
}

const PREFIX: &str = "crate::util::";

#[test]
fn with_name_starts_empty() {
    let obj = ApiObject::with_name("Pet");
    assert_eq!(obj.name, "Pet");
    assert_eq!(obj.path, "");
    assert!(obj.fields.is_empty());
    assert!(obj.paths.is_empty());
}

#[test]
fn path_ops_default_is_empty() {
    let ops = PathOps::default();
    assert!(ops.req.is_empty());
    assert!(ops.params.is_empty());
}

#[test]
fn deriver_yields_one_descriptor_per_bound_operation() {
    let mut obj = ApiObject::with_name("Pet");
    obj.paths = vec![
        (
            "/pets".to_string(),
            PathOps {
                req: vec![
                    (HttpMethod::Get, op(None, vec![], true)),
                    (HttpMethod::Post, op(None, vec![], true)),
                ],
                params: vec![],
            },
        ),
        (
            "/pets/{id}".to_string(),
            PathOps {
                req: vec![(HttpMethod::Delete, op(None, vec![], false))],
                params: vec![],
            },
        ),
    ];
    assert_eq!(obj.builders(PREFIX).len(), 3);
}

#[test]
fn deriver_yields_single_standalone_descriptor_for_unbound_record() {
    let obj = ApiObject::with_name("Pet");
    let builders = obj.builders(PREFIX);
    assert_eq!(builders.len(), 1);
    // The standalone builder always requires the body and has no parameters.
    let text = builders[0].render();
    assert_eq!(
        text,
        "#[derive(Debug, Clone)]\npub struct PetBuilder {\n    body: Pet,\n}\n"
    );
}

#[test]
fn merged_attributes_have_unique_names_and_parameter_wins() {
    let mut obj = ApiObject::with_name("Pet");
    obj.fields = vec![field("id", "i64", true), field("status", "String", false)];
    obj.paths = vec![(
        "/pets".to_string(),
        PathOps {
            req: vec![(
                HttpMethod::Get,
                op(None, vec![param("status", "String", true)], true),
            )],
            params: vec![param("status", "String", false)],
        },
    )];
    let builders = obj.builders(PREFIX);
    let attrs = builders[0].struct_fields_iter();
    let names: Vec<String> = attrs.iter().map(|a| a.name.clone()).collect();
    for i in 0..names.len() {
        for j in i + 1..names.len() {
            assert_ne!(names[i], names[j]);
        }
    }
    assert_eq!(names, vec!["status".to_string(), "id".to_string()]);
    // The surviving "status" is a parameter, not the same-named field, and
    // it is the first occurrence (the optional path-level parameter).
    let status = attrs.iter().find(|a| a.name == "status").unwrap();
    assert!(status.prop.is_parameter());
    assert!(!status.prop.is_required());
    let id = attrs.iter().find(|a| a.name == "id").unwrap();
    assert!(id.prop.is_field());
    assert!(id.prop.is_required());
}

#[test]
fn fields_not_required_when_body_is_not() {
    let mut obj = ApiObject::with_name("Pet");
    obj.fields = vec![field("id", "i64", true)];
    obj.paths = vec![(
        "/pets".to_string(),
        PathOps {
            req: vec![(HttpMethod::Get, op(None, vec![], false))],
            params: vec![],
        },
    )];
    let builders = obj.builders(PREFIX);
    let attrs = builders[0].struct_fields_iter();
    assert!(attrs[0].prop.is_field());
    assert!(!attrs[0].prop.is_required());
}

#[test]
fn container_needed_with_required_parameter_and_required_body_field() {
    let mut obj = ApiObject::with_name("Pet");
    obj.fields = vec![field("name", "String", true)];
    obj.paths = vec![(
        "/pets".to_string(),
        PathOps {
            req: vec![(
                HttpMethod::Post,
                op(None, vec![param("petId", "i64", true)], true),
            )],
            params: vec![],
        },
    )];
    let builders = obj.builders(PREFIX);
    assert!(builders[0].needs_container());
}

#[test]
fn container_needed_with_required_body_field_alone() {
    let mut obj = ApiObject::with_name("Pet");
    obj.fields = vec![field("name", "String", true)];
    obj.paths = vec![(
        "/pets".to_string(),
        PathOps {
            req: vec![(HttpMethod::Post, op(None, vec![], true))],
            params: vec![],
        },
    )];
    let builders = obj.builders(PREFIX);
    assert!(builders[0].needs_container());
}

#[test]
fn no_container_when_nothing_is_required() {
    let mut obj = ApiObject::with_name("Pet");
    obj.fields = vec![field("name", "String", true)];
    obj.paths = vec![(
        "/pets".to_string(),
        PathOps {
            req: vec![(
                HttpMethod::Get,
                op(None, vec![param("limit", "i64", false)], false),
            )],
            params: vec![],
        },
    )];
    let builders = obj.builders(PREFIX);
    assert!(!builders[0].needs_container());
}

#[test]
fn layout_annotation_present_exactly_when_container_needed() {
    let mut obj = ApiObject::with_name("Pet");
    obj.paths = vec![(
        "/pets".to_string(),
        PathOps {
            req: vec![(
                HttpMethod::Get,
                op(None, vec![param("petId", "i64", true)], false),
            )],
            params: vec![],
        },
    )];
    let builders = obj.builders(PREFIX);
    assert!(builders[0].needs_container());
    assert!(builders[0].render().starts_with("#[repr(transparent)]\n"));

    let mut plain = ApiObject::with_name("Pet");
    plain.paths = vec![(
        "/pets".to_string(),
        PathOps {
            req: vec![(
                HttpMethod::Get,
                op(None, vec![param("petId", "i64", false)], false),
            )],
            params: vec![],
        },
    )];
    let builders = plain.builders(PREFIX);
    assert!(!builders[0].needs_container());
    assert!(!builders[0].render().starts_with("#[repr(transparent)]\n"));
}

#[test]
fn one_typestate_parameter_per_required_attribute_in_merge_order() {
    let mut obj = ApiObject::with_name("Pet");
    obj.fields = vec![field("name", "String", true)];
    obj.paths = vec![(
        "/pets".to_string(),
        PathOps {
            req: vec![(
                HttpMethod::Post,
                op(
                    None,
                    vec![param("petId", "i64", true), param("limit", "i64", false)],
                    true,
                ),
            )],
            params: vec![param("user", "String", true)],
        },
    )];
    let builders = obj.builders(PREFIX);
    // Required attributes in merge order: user, petId, name.
    let mut generics = String::new();
    builders[0].write_generics_if_necessary(&mut generics, false);
    assert_eq!(generics, "<User, PetId, Name>");
    let text = builders[0].render();
    assert!(text.contains("pub struct PetPostBuilder<User, PetId, Name>"));
    assert!(text.contains("_param_user: core::marker::PhantomData<User>,"));
    assert!(text.contains("_param_pet_id: core::marker::PhantomData<PetId>,"));
    assert!(text.contains("_name: core::marker::PhantomData<Name>,"));
}

#[test]
fn two_get_operations_without_ids_resolve_to_get_and_get_1() {
    let mut obj = ApiObject::with_name("Pet");
    obj.paths = vec![
        (
            "/pets".to_string(),
            PathOps {
                req: vec![(HttpMethod::Get, op(None, vec![], true))],
                params: vec![],
            },
        ),
        (
            "/pets/{id}".to_string(),
            PathOps {
                req: vec![(HttpMethod::Get, op(None, vec![], true))],
                params: vec![],
            },
        ),
    ];
    let mut repr = obj.impl_repr();
    repr.builders = obj.builders(PREFIX);
    let text = repr.render();
    assert!(text.contains("pub fn get()"));
    assert!(text.contains("pub fn get_1()"));
}

#[test]
fn single_get_builder_resolves_to_get_without_suffix() {
    let mut obj = ApiObject::with_name("Pet");
    obj.paths = vec![(
        "/pets".to_string(),
        PathOps {
            req: vec![(HttpMethod::Get, op(None, vec![], true))],
            params: vec![],
        },
    )];
    let mut repr = obj.impl_repr();
    repr.builders = obj.builders(PREFIX);
    let text = repr.render();
    assert!(text.contains("pub fn get()"));
    assert!(!text.contains("get_1"));
}

#[test]
fn operation_id_wins_when_multiple_builders_exist() {
    let mut obj = ApiObject::with_name("Pet");
    obj.paths = vec![
        (
            "/pets".to_string(),
            PathOps {
                req: vec![(HttpMethod::Get, op(Some("listPets"), vec![], true))],
                params: vec![],
            },
        ),
        (
            "/pets/{id}".to_string(),
            PathOps {
                req: vec![(HttpMethod::Get, op(None, vec![], true))],
                params: vec![],
            },
        ),
    ];
    let mut repr = obj.impl_repr();
    repr.builders = obj.builders(PREFIX);
    let text = repr.render();
    assert!(text.contains("pub fn list_pets()"));
    assert!(text.contains("pub fn get_1()"));
}

#[test]
fn standalone_builder_constructor_is_named_builder() {
    let obj = ApiObject::with_name("Pet");
    let mut repr = obj.impl_repr();
    repr.builders = obj.builders(PREFIX);
    let text = repr.render();
    assert!(text.contains("pub fn builder() -> PetBuilder"));
}

#[test]
fn impl_block_suppressed_without_builders() {
    let obj = ApiObject::with_name("Pet");
    let repr = obj.impl_repr();
    assert_eq!(repr.render(), "");
}

#[test]
fn rendering_twice_is_byte_identical() {
    let mut obj = ApiObject::with_name("Pet");
    obj.fields = vec![field("id", "i64", true), field("name", "String", false)];
    obj.paths = vec![(
        "/pets".to_string(),
        PathOps {
            req: vec![(
                HttpMethod::Get,
                op(None, vec![param("petId", "i64", true)], true),
            )],
            params: vec![],
        },
    )];
    assert_eq!(obj.render().into_bytes(), obj.render().into_bytes());
    let b1 = obj.builders(PREFIX);
    let b2 = obj.builders(PREFIX);
    assert_eq!(b1[0].render().into_bytes(), b2[0].render().into_bytes());
    let mut r1 = obj.impl_repr();
    r1.builders = b1;
    let mut r2 = obj.impl_repr();
    r2.builders = b2;
    assert_eq!(r1.render().into_bytes(), r2.render().into_bytes());
}

#[test]
fn record_rendering_wraps_optional_after_required_in_declaration_order() {
    let mut obj = ApiObject::with_name("Pet");
    obj.fields = vec![field("id", "i64", true), field("name", "String", false)];
    let text = obj.render();
    assert_eq!(
        text,
        "#[derive(Debug, Default, Clone, Deserialize, Serialize)]\npub struct Pet {\n    pub id: i64,\n    pub name: Option<String>,\n}\n"
    );
}

#[test]
fn record_rendering_boxes_and_renames_fields() {
    let mut obj = ApiObject::with_name("Pet");
    let mut f = field("pet_name", "String", false);
    f.rename = Some("petName".to_string());
    f.boxed = true;
    obj.fields = vec![f];
    let text = obj.render();
    assert_eq!(
        text,
        "#[derive(Debug, Default, Clone, Deserialize, Serialize)]\npub struct Pet {\n    #[serde(rename = \"petName\")]\n    pub pet_name: Option<Box<String>>,\n}\n"
    );
}

#[test]
fn record_rendering_of_empty_record_is_compact() {
    let obj = ApiObject::with_name("Pet");
    let text = obj.render();
    assert_eq!(
        text,
        "#[derive(Debug, Default, Clone, Deserialize, Serialize)]\npub struct Pet {}\n"
    );
}

#[test]
fn builder_without_anything_renders_as_unit_struct() {
    let mut obj = ApiObject::with_name("Pet");
    obj.paths = vec![(
        "/pets".to_string(),
        PathOps {
            req: vec![(HttpMethod::Get, op(None, vec![], false))],
            params: vec![],
        },
    )];
    let builders = obj.builders(PREFIX);
    assert!(!builders[0].has_atleast_one_field());
    assert_eq!(
        builders[0].render(),
        "#[derive(Debug, Clone)]\npub struct PetGetBuilder;\n"
    );
}

#[test]
fn builder_names_carry_method_and_ordinal() {
    let mut obj = ApiObject::with_name("Pet");
    obj.paths = vec![
        (
            "/pets".to_string(),
            PathOps {
                req: vec![(HttpMethod::Get, op(None, vec![], true))],
                params: vec![],
            },
        ),
        (
            "/pets/{id}".to_string(),
            PathOps {
                req: vec![(HttpMethod::Put, op(None, vec![], true))],
                params: vec![],
            },
        ),
    ];
    let builders = obj.builders(PREFIX);
    let mut first = String::new();
    builders[0].write_name(&mut first);
    assert_eq!(first, "PetGetBuilder");
    let mut second = String::new();
    builders[1].write_name(&mut second);
    assert_eq!(second, "PetPutBuilder1");
    let mut container = String::new();
    builders[1].write_container_name(&mut container);
    assert_eq!(container, "PetPutBuilder1Container");
}

#[test]
fn container_collects_body_and_optional_parameters() {
    let mut obj = ApiObject::with_name("Pet");
    obj.fields = vec![field("name", "String", true)];
    obj.paths = vec![(
        "/pets".to_string(),
        PathOps {
            req: vec![(
                HttpMethod::Post,
                op(
                    None,
                    vec![param("petId", "i64", true), param("limit", "i64", false)],
                    true,
                ),
            )],
            params: vec![],
        },
    )];
    let builders = obj.builders(PREFIX);
    let text = builders[0].render();
    assert!(text.contains("\n    inner: PetPostBuilderContainer,"));
    assert!(text.contains("#[derive(Debug, Default, Clone)]\nstruct PetPostBuilderContainer {"));
    assert!(text.contains("\n    body: Pet,"));
    assert!(text.contains("\n    param_limit: Option<i64>,"));
    // The required parameter lives on the builder as a marker, not in the
    // container.
    assert!(text.contains("_param_pet_id: core::marker::PhantomData<PetId>,"));
}

#[test]
fn constructor_instantiates_missing_markers() {
    let mut obj = ApiObject::with_name("Pet");
    obj.fields = vec![field("name", "String", true)];
    obj.paths = vec![(
        "/pets".to_string(),
        PathOps {
            req: vec![(
                HttpMethod::Post,
                op(None, vec![param("petId", "i64", true)], true),
            )],
            params: vec![],
        },
    )];
    let mut repr = obj.impl_repr();
    repr.builders = obj.builders(PREFIX);
    let text = repr.render();
    assert!(text.contains(
        "pub fn post() -> PetPostBuilder<crate::util::MissingPetId, crate::util::MissingName>"
    ));
    assert!(text.contains("inner: Default::default(),"));
    assert!(text.contains("_param_pet_id: core::marker::PhantomData,"));
    assert!(text.contains("_name: core::marker::PhantomData,"));
}

#[test]
fn optional_parameter_initialized_to_none_without_container() {
    let mut obj = ApiObject::with_name("Pet");
    obj.paths = vec![(
        "/pets".to_string(),
        PathOps {
            req: vec![(
                HttpMethod::Get,
                op(None, vec![param("limit", "i64", false)], false),
            )],
            params: vec![],
        },
    )];
    let mut repr = obj.impl_repr();
    repr.builders = obj.builders(PREFIX);
    let text = repr.render();
    assert!(text.contains("param_limit: None,"));
}
