use humblegen::ast::{
    clone_spec, AtomType, FieldDefPair, FieldNode, Spec, SpecItem, StructDef, StructFields,
    TypeIdent,
};
use humblegen::ast::{EnumDef, ServiceDef, VariantDef, VariantType};
use humblegen::embeds::{resolve_embeds, spec_contains_embed, spec_resolve_embeds_one_level};
use humblegen::LibError;

fn field(name: &str, ty: TypeIdent) -> FieldNode {
    FieldNode {
        doc_comment: None,
        pair: FieldDefPair::Field { name: name.to_string(), type_ident: ty },
    }
}

fn embed(name: &str) -> FieldNode {
    FieldNode { doc_comment: None, pair: FieldDefPair::Embed { name: name.to_string() } }
}

fn sdef(name: &str, fields: Vec<FieldNode>) -> SpecItem {
    SpecItem::StructDef(StructDef {
        name: name.to_string(),
        doc_comment: None,
        fields: StructFields(fields),
    })
}

fn atom(a: AtomType) -> TypeIdent {
    TypeIdent::BuiltIn(a)
}

#[test]
fn order_preservation_monster() {
    let mut spec = Spec(vec![
        sdef(
            "Monster",
            vec![field("id", atom(AtomType::I32)), embed("MonsterData")],
        ),
        sdef(
            "MonsterData",
            vec![field("name", atom(AtomType::Str)), field("hp", atom(AtomType::I32))],
        ),
    ]);
    assert!(resolve_embeds(&mut spec).is_ok());
    let expected = vec![
        field("id", atom(AtomType::I32)),
        field("name", atom(AtomType::Str)),
        field("hp", atom(AtomType::I32)),
    ];
    match &spec.0[0] {
        SpecItem::StructDef(sd) => assert_eq!(sd.fields.0, expected),
        _ => unreachable!(),
    }
    // The data struct itself is untouched.
    match &spec.0[1] {
        SpecItem::StructDef(sd) => assert_eq!(sd.fields.0.len(), 2),
        _ => unreachable!(),
    }
}

#[test]
fn resolution_is_idempotent() {
    let mut spec = Spec(vec![
        sdef("Outer", vec![embed("Inner")]),
        sdef("Inner", vec![field("x", atom(AtomType::Bool))]),
    ]);
    assert!(resolve_embeds(&mut spec).is_ok());
    assert!(!spec_contains_embed(&spec));
    let resolved = clone_spec(&spec);
    // A second resolution performs zero substitutions and changes nothing.
    let mut again = clone_spec(&spec);
    assert_eq!(spec_resolve_embeds_one_level(&mut again), Ok(false));
    assert!(resolve_embeds(&mut again).is_ok());
    assert_eq!(again, resolved);
}

#[test]
fn two_level_chain_resolves() {
    let mut spec = Spec(vec![
        sdef("A", vec![embed("B")]),
        sdef("B", vec![embed("C")]),
        sdef("C", vec![field("leaf", atom(AtomType::U8))]),
    ]);
    assert!(resolve_embeds(&mut spec).is_ok());
    match &spec.0[0] {
        SpecItem::StructDef(sd) => {
            assert_eq!(sd.fields.0, vec![field("leaf", atom(AtomType::U8))])
        },
        _ => unreachable!(),
    }
}

#[test]
fn mutual_embed_cycle_aborts_with_depth_error() {
    let mut spec = Spec(vec![
        sdef("A", vec![embed("B")]),
        sdef("B", vec![embed("A")]),
    ]);
    assert_eq!(
        resolve_embeds(&mut spec),
        Err(LibError::EmbedDepthExceeded { max_depth: 10 })
    );
}

#[test]
fn self_embed_cycle_aborts_with_depth_error() {
    let mut spec = Spec(vec![sdef("Loop", vec![embed("Loop")])]);
    assert_eq!(
        resolve_embeds(&mut spec),
        Err(LibError::EmbedDepthExceeded { max_depth: 10 })
    );
}

fn chain(len: usize) -> Spec {
    let mut items: Vec<SpecItem> = Vec::new();
    for i in 0..len {
        let name = format!("S{}", i);
        if i + 1 < len {
            items.push(sdef(&name, vec![embed(&format!("S{}", i + 1))]));
        } else {
            items.push(sdef(&name, vec![field("leaf", atom(AtomType::U8))]));
        }
    }
    Spec(items)
}

#[test]
fn deep_chain_within_the_pass_budget_resolves() {
    // Each pass substitutes against the current, already partially expanded
    // snapshot, so the resolved depth doubles per pass: ten passes reach
    // chains of up to 512 embeds.
    let mut spec = chain(513);
    assert!(resolve_embeds(&mut spec).is_ok());
    assert!(!spec_contains_embed(&spec));
}

#[test]
fn chain_beyond_the_pass_budget_aborts() {
    let mut spec = chain(1025);
    assert_eq!(
        resolve_embeds(&mut spec),
        Err(LibError::EmbedDepthExceeded { max_depth: 10 })
    );
}

#[test]
fn unknown_embed_target_fails_fatally() {
    let mut spec = Spec(vec![sdef(
        "Monster",
        vec![field("id", atom(AtomType::I32)), embed("Nope")],
    )]);
    assert_eq!(
        resolve_embeds(&mut spec),
        Err(LibError::UnknownEmbedTarget { name: "Nope".to_string() })
    );
    // The failing pass commits nothing: the schema is exactly as before.
    let before = Spec(vec![sdef(
        "Monster",
        vec![field("id", atom(AtomType::I32)), embed("Nope")],
    )]);
    assert_eq!(spec, before);
}

#[test]
fn one_level_expands_exactly_one_level() {
    let mut spec = Spec(vec![
        sdef("A", vec![embed("B")]),
        sdef("B", vec![embed("C")]),
        sdef("C", vec![field("leaf", atom(AtomType::U8))]),
    ]);
    assert_eq!(spec_resolve_embeds_one_level(&mut spec), Ok(true));
    // After one pass A holds B's old fields: an embed of C, not yet C's leaf.
    match &spec.0[0] {
        SpecItem::StructDef(sd) => assert_eq!(sd.fields.0, vec![embed("C")]),
        _ => unreachable!(),
    }
}

#[test]
fn resolve_then_generate_pipeline() {
    let mut spec = Spec(vec![
        sdef(
            "Monster",
            vec![field("id", atom(AtomType::I32)), embed("MonsterData")],
        ),
        sdef("MonsterData", vec![field("name", atom(AtomType::Str))]),
    ]);
    assert!(resolve_embeds(&mut spec).is_ok());
    let types = humblegen::elm::Generator::generate_user_defined_types(&spec);
    assert!(types.contains("type alias Monster =\n    { id: Int\n    , name: String\n    }"));
    let decoders = humblegen::elm_decoders::generate_type_decoders(&spec).unwrap();
    assert!(decoders.contains("|> required \"id\" D.int\n        |> required \"name\" D.string"));
    let encoders = humblegen::elm_encoders::generate_type_encoders(&spec).unwrap();
    assert!(encoders.contains("(\"id\", E.int obj.id)\n        , (\"name\", E.string obj.name)"));
}

#[test]
fn enums_and_services_are_skipped_by_resolution() {
    let mut spec = Spec(vec![
        SpecItem::EnumDef(EnumDef {
            name: "Color".to_string(),
            doc_comment: None,
            variants: vec![VariantDef {
                name: "Red".to_string(),
                doc_comment: None,
                variant_type: VariantType::Simple,
            }],
        }),
        SpecItem::ServiceDef(ServiceDef { name: "Api".to_string(), doc_comment: None }),
    ]);
    assert!(resolve_embeds(&mut spec).is_ok());
    assert_eq!(spec.0.len(), 2);
}
