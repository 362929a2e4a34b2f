use humblegen::ast::{
    AtomType, EnumDef, FieldDefPair, FieldNode, ServiceDef, Spec, SpecItem, StructDef,
    StructFields, TupleDef, TypeIdent, VariantDef, VariantType,
};
use humblegen::elm::{
    generate_atom, generate_doc_comment, generate_type_ident, to_atom, DirProbe, Generator,
};
use humblegen::{Artifact, LibError};

fn field(name: &str, ty: TypeIdent) -> FieldNode {
    FieldNode {
        doc_comment: None,
        pair: FieldDefPair::Field { name: name.to_string(), type_ident: ty },
    }
}

fn sdef(name: &str, fields: Vec<FieldNode>) -> SpecItem {
    SpecItem::StructDef(StructDef {
        name: name.to_string(),
        doc_comment: None,
        fields: StructFields(fields),
    })
}

fn atom(a: AtomType) -> TypeIdent {
    TypeIdent::BuiltIn(a)
}

#[test]
fn atom_renderings() {
    assert_eq!(generate_atom(&AtomType::Empty), "()");
    assert_eq!(generate_atom(&AtomType::Str), "String");
    assert_eq!(generate_atom(&AtomType::I32), "Int");
    assert_eq!(generate_atom(&AtomType::U32), "Int");
    assert_eq!(generate_atom(&AtomType::U8), "Int");
    assert_eq!(generate_atom(&AtomType::F64), "Float");
    assert_eq!(generate_atom(&AtomType::Bool), "Bool");
    assert_eq!(generate_atom(&AtomType::DateTime), "Time.Posix");
    assert_eq!(generate_atom(&AtomType::Date), "Date.Date");
    assert_eq!(generate_atom(&AtomType::Uuid), "String");
    assert_eq!(generate_atom(&AtomType::Bytes), "String");
}

#[test]
fn to_atom_wraps_only_multiword_renderings() {
    assert_eq!(to_atom("Int".to_string()), "Int");
    assert_eq!(to_atom("List Int".to_string()), "(List Int)");
}

#[test]
fn type_ident_renderings() {
    let list = TypeIdent::List(Box::new(TypeIdent::List(Box::new(atom(AtomType::I32)))));
    assert_eq!(generate_type_ident(&list), "List (List Int)");
    let opt = TypeIdent::Option(Box::new(atom(AtomType::Str)));
    assert_eq!(generate_type_ident(&opt), "Maybe String");
    let res = TypeIdent::Result(Box::new(atom(AtomType::I32)), Box::new(atom(AtomType::Str)));
    // The error alternative is rendered first.
    assert_eq!(generate_type_ident(&res), "Result String Int");
    let dict = TypeIdent::Dict(Box::new(atom(AtomType::Str)), Box::new(atom(AtomType::F64)));
    assert_eq!(generate_type_ident(&dict), "Dict String Float");
    let tup = TypeIdent::Tuple(TupleDef(vec![atom(AtomType::I32), atom(AtomType::I32)]));
    assert_eq!(generate_type_ident(&tup), "(Int, Int)");
    let user = TypeIdent::UserDefined("Color".to_string());
    assert_eq!(generate_type_ident(&user), "Color");
}

#[test]
fn doc_comment_rendering() {
    assert_eq!(generate_doc_comment(&None), "");
    assert_eq!(
        generate_doc_comment(&Some("A monster.".to_string())),
        "{-| A monster.\n-}\n"
    );
}

#[test]
fn struct_declaration_golden() {
    let spec = Spec(vec![sdef(
        "Monster",
        vec![field("id", atom(AtomType::I32)), field("name", atom(AtomType::Str))],
    )]);
    let out = Generator::generate_user_defined_types(&spec);
    assert_eq!(
        out,
        "module Api.Data exposing (..)\n\n\
         \ntype alias Monster =\n    { id: Int\n    , name: String\n    }\n\n"
    );
}

#[test]
fn struct_doc_comment_precedes_header() {
    let spec = Spec(vec![SpecItem::StructDef(StructDef {
        name: "Monster".to_string(),
        doc_comment: Some("A monster.".to_string()),
        fields: StructFields(vec![field("id", atom(AtomType::I32))]),
    })]);
    let out = Generator::generate_user_defined_types(&spec);
    assert_eq!(
        out,
        "module Api.Data exposing (..)\n\n\
         \n{-| A monster.\n-}\ntype alias Monster =\n    { id: Int\n    }\n\n"
    );
}

#[test]
fn field_docs_fold_into_the_leading_comment() {
    let spec = Spec(vec![SpecItem::StructDef(StructDef {
        name: "Monster".to_string(),
        doc_comment: Some("A monster.".to_string()),
        fields: StructFields(vec![
            FieldNode {
                doc_comment: Some("Monster ID.".to_string()),
                pair: FieldDefPair::Field {
                    name: "id".to_string(),
                    type_ident: atom(AtomType::I32),
                },
            },
            field("hp", atom(AtomType::I32)),
        ]),
    })]);
    let out = Generator::generate_user_defined_types(&spec);
    assert_eq!(
        out,
        "module Api.Data exposing (..)\n\n\
         \n{-| A monster.\n- id: Monster ID.\n-}\n\
         type alias Monster =\n    { id: Int\n    , hp: Int\n    }\n\n"
    );
}

#[test]
fn variant_docs_fold_into_the_leading_comment() {
    let spec = Spec(vec![SpecItem::EnumDef(EnumDef {
        name: "Color".to_string(),
        doc_comment: None,
        variants: vec![VariantDef {
            name: "Red".to_string(),
            doc_comment: Some("Pure red.".to_string()),
            variant_type: VariantType::Simple,
        }],
    })]);
    let out = Generator::generate_user_defined_types(&spec);
    assert_eq!(
        out,
        "module Api.Data exposing (..)\n\n\
         \n{-| \n- Red: Pure red.\n-}\ntype Color\n    = Red\n\n"
    );
}

#[test]
fn field_identifiers_are_camel_cased_in_declarations() {
    let spec = Spec(vec![sdef("Customer", vec![field("net_worth", atom(AtomType::Str))])]);
    let out = Generator::generate_user_defined_types(&spec);
    assert!(out.contains("netWorth: String"));
    assert!(!out.contains("net_worth"));
}

#[test]
fn enum_declaration_all_four_shapes() {
    let spec = Spec(vec![SpecItem::EnumDef(EnumDef {
        name: "Color".to_string(),
        doc_comment: None,
        variants: vec![
            VariantDef {
                name: "Red".to_string(),
                doc_comment: None,
                variant_type: VariantType::Simple,
            },
            VariantDef {
                name: "Rgb".to_string(),
                doc_comment: None,
                variant_type: VariantType::Tuple(TupleDef(vec![
                    atom(AtomType::U8),
                    atom(AtomType::U8),
                    atom(AtomType::U8),
                ])),
            },
            VariantDef {
                name: "Hsv".to_string(),
                doc_comment: None,
                variant_type: VariantType::Struct(StructFields(vec![field(
                    "h",
                    atom(AtomType::U8),
                )])),
            },
            VariantDef {
                name: "Named".to_string(),
                doc_comment: None,
                variant_type: VariantType::Newtype(TypeIdent::List(Box::new(atom(
                    AtomType::Str,
                )))),
            },
        ],
    })]);
    let out = Generator::generate_user_defined_types(&spec);
    assert_eq!(
        out,
        "module Api.Data exposing (..)\n\n\
         \ntype Color\
         \n    = Red\
         \n    | Rgb Int Int Int\
         \n    | Hsv\n        { h: Int\n        }\
         \n    | Named (List String)\n\n"
    );
}

#[test]
fn services_contribute_no_declaration() {
    let spec = Spec(vec![
        SpecItem::ServiceDef(ServiceDef { name: "Api".to_string(), doc_comment: None }),
        sdef("Unit", vec![field("v", atom(AtomType::Empty))]),
    ]);
    let out = Generator::generate_user_defined_types(&spec);
    assert_eq!(
        out,
        "module Api.Data exposing (..)\n\n\ntype alias Unit =\n    { v: ()\n    }\n\n"
    );
}

#[test]
fn two_declarations_in_schema_order() {
    let spec = Spec(vec![
        sdef("A", vec![field("x", atom(AtomType::Bool))]),
        sdef("B", vec![field("y", atom(AtomType::Bool))]),
    ]);
    let out = Generator::generate_user_defined_types(&spec);
    let a = out.find("type alias A").unwrap();
    let b = out.find("type alias B").unwrap();
    assert!(a < b);
    // Exactly two blank lines separate successive top-level declarations.
    assert!(out.contains("}\n\n\ntype alias B"));
}

#[test]
fn field_order_matches_declaration_order() {
    let spec = Spec(vec![sdef(
        "P",
        vec![
            field("alpha", atom(AtomType::I32)),
            field("beta", atom(AtomType::I32)),
            field("gamma", atom(AtomType::I32)),
        ],
    )]);
    let out = Generator::generate_user_defined_types(&spec);
    let a = out.find("alpha:").unwrap();
    let b = out.find("beta:").unwrap();
    let c = out.find("gamma:").unwrap();
    assert!(a < b && b < c);
}

#[test]
fn backend_rejects_server_endpoints_at_construction() {
    assert!(Generator::new(Artifact::TypesOnly).is_ok());
    assert!(Generator::new(Artifact::ClientEndpoints).is_ok());
    match Generator::new(Artifact::ServerEndpoints) {
        Err(LibError::UnsupportedArtifact { artifact, backend }) => {
            assert_eq!(artifact, Artifact::ServerEndpoints);
            assert_eq!(backend, "elm");
        },
        _ => unreachable!(),
    }
}

#[test]
fn output_directory_guard() {
    assert!(Generator::validate_output_dir(&DirProbe { is_dir: true, is_empty: true }).is_ok());
    match Generator::validate_output_dir(&DirProbe { is_dir: false, is_empty: true }) {
        Err(LibError::OutputMustBeFolder { backend }) => assert_eq!(backend, "elm"),
        _ => unreachable!(),
    }
    match Generator::validate_output_dir(&DirProbe { is_dir: true, is_empty: false }) {
        Err(LibError::OutputFolderNotEmpty { backend }) => assert_eq!(backend, "elm"),
        _ => unreachable!(),
    }
}
