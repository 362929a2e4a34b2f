use humblegen::ast::{
    AtomType, EnumDef, FieldDefPair, FieldNode, ServiceDef, Spec, SpecItem, StructDef,
    StructFields, TupleDef, TypeIdent, VariantDef, VariantType,
};
use humblegen::elm_decoders::{
    generate_enum_helpers, generate_rest_api_client_helpers, generate_type_decoders,
};
use humblegen::elm_encoders::generate_type_encoders;
use humblegen::LibError;

fn field(name: &str, ty: TypeIdent) -> FieldNode {
    FieldNode {
        doc_comment: None,
        pair: FieldDefPair::Field { name: name.to_string(), type_ident: ty },
    }
}

fn sdef(name: &str, fields: Vec<FieldNode>) -> SpecItem {
    SpecItem::StructDef(StructDef {
        name: name.to_string(),
        doc_comment: None,
        fields: StructFields(fields),
    })
}

fn atom(a: AtomType) -> TypeIdent {
    TypeIdent::BuiltIn(a)
}

fn simple(name: &str) -> VariantDef {
    VariantDef { name: name.to_string(), doc_comment: None, variant_type: VariantType::Simple }
}

#[test]
fn struct_decoder_golden() {
    let spec = Spec(vec![sdef(
        "Monster",
        vec![field("id", atom(AtomType::I32)), field("name", atom(AtomType::Str))],
    )]);
    let out = generate_type_decoders(&spec).unwrap();
    assert_eq!(
        out,
        "monsterDecoder : D.Decoder Monster \n\
         monsterDecoder =\n   D.succeed Monster\n        \
         |> required \"id\" D.int\n        |> required \"name\" D.string"
    );
}

#[test]
fn struct_encoder_golden() {
    let spec = Spec(vec![sdef(
        "Monster",
        vec![field("id", atom(AtomType::I32)), field("net_worth", atom(AtomType::Str))],
    )]);
    let out = generate_type_encoders(&spec).unwrap();
    assert_eq!(
        out,
        "encodeMonster : Monster -> E.Value\n\
         encodeMonster obj =\n    E.object\n        \
         [ (\"id\", E.int obj.id)\n        , (\"net_worth\", E.string obj.netWorth)\n        ]"
    );
}

#[test]
fn wire_keys_keep_declared_names_and_order() {
    let spec = Spec(vec![sdef(
        "P",
        vec![
            field("alpha", atom(AtomType::Bool)),
            field("beta", atom(AtomType::Bool)),
            field("gamma", atom(AtomType::Bool)),
        ],
    )]);
    let enc = generate_type_encoders(&spec).unwrap();
    let a = enc.find("\"alpha\"").unwrap();
    let b = enc.find("\"beta\"").unwrap();
    let c = enc.find("\"gamma\"").unwrap();
    assert!(a < b && b < c);
    let dec = generate_type_decoders(&spec).unwrap();
    let a = dec.find("\"alpha\"").unwrap();
    let b = dec.find("\"beta\"").unwrap();
    let c = dec.find("\"gamma\"").unwrap();
    assert!(a < b && b < c);
}

#[test]
fn enum_helpers_golden() {
    let edef = EnumDef {
        name: "Color".to_string(),
        doc_comment: None,
        variants: vec![
            simple("Red"),
            simple("Blue"),
            VariantDef {
                name: "Named".to_string(),
                doc_comment: None,
                variant_type: VariantType::Newtype(atom(AtomType::Str)),
            },
        ],
    };
    let out = generate_enum_helpers(&edef);
    let mut expected = String::new();
    expected.push_str("parseEnumColorFromString : String -> Maybe Color\n");
    expected.push_str("parseEnumColorFromString s = case s of \n");
    expected.push_str("  \"Red\" -> Just Red\n\n  \"Blue\" -> Just Blue\n  _ -> Nothing\n");
    assert_eq!(out, expected);
}

#[test]
fn enum_decoder_mixed_variants_golden() {
    let spec = Spec(vec![SpecItem::EnumDef(EnumDef {
        name: "Color".to_string(),
        doc_comment: None,
        variants: vec![
            simple("Red"),
            VariantDef {
                name: "Rgb".to_string(),
                doc_comment: None,
                variant_type: VariantType::Tuple(TupleDef(vec![
                    atom(AtomType::U8),
                    atom(AtomType::U8),
                ])),
            },
        ],
    })]);
    let out = generate_type_decoders(&spec).unwrap();
    assert_eq!(
        out,
        "colorDecoder : D.Decoder Color\ncolorDecoder =\n    D.oneOf\n        \
         [unwrapDecoder (D.map parseEnumColorFromString D.string)\n        , \
         D.field \"Rgb\" (D.succeed Rgb |> requiredIdx 0 D.int |> requiredIdx 1 D.int)\n        ]"
    );
}

#[test]
fn enum_decoder_keys_alternatives_by_their_own_names() {
    let spec = Spec(vec![SpecItem::EnumDef(EnumDef {
        name: "Shape".to_string(),
        doc_comment: None,
        variants: vec![
            VariantDef {
                name: "Circle".to_string(),
                doc_comment: None,
                variant_type: VariantType::Newtype(atom(AtomType::F64)),
            },
            VariantDef {
                name: "Square".to_string(),
                doc_comment: None,
                variant_type: VariantType::Newtype(atom(AtomType::F64)),
            },
        ],
    })]);
    let out = generate_type_decoders(&spec).unwrap();
    assert!(out.contains("D.field \"Circle\" (D.map Circle D.float)"));
    assert!(out.contains("D.field \"Square\" (D.map Square D.float)"));
    // No bare-string alternative without simple variants.
    assert!(!out.contains("unwrapDecoder"));
}

#[test]
fn enum_encoder_golden() {
    let spec = Spec(vec![SpecItem::EnumDef(EnumDef {
        name: "Color".to_string(),
        doc_comment: None,
        variants: vec![
            simple("Red"),
            VariantDef {
                name: "Rgb".to_string(),
                doc_comment: None,
                variant_type: VariantType::Tuple(TupleDef(vec![
                    atom(AtomType::U8),
                    atom(AtomType::U8),
                ])),
            },
            VariantDef {
                name: "Hsv".to_string(),
                doc_comment: None,
                variant_type: VariantType::Struct(StructFields(vec![field(
                    "h",
                    atom(AtomType::U8),
                )])),
            },
            VariantDef {
                name: "Named".to_string(),
                doc_comment: None,
                variant_type: VariantType::Newtype(atom(AtomType::Str)),
            },
        ],
    })]);
    let out = generate_type_encoders(&spec).unwrap();
    assert_eq!(
        out,
        "encodeColor : Color -> E.Value\nencodeColor v =\n    case v of\n        \
         Red -> E.string \"Red\"\n        \
         Rgb x0 x1 -> E.object [ (\"Rgb\", E.list identity [E.int x0, E.int x1]) ]\n        \
         Hsv obj -> E.object [ (\"Hsv\", E.object [(\"h\", E.int obj.h)]) ]\n        \
         Named obj -> E.object [ (\"Named\", E.string obj) ]"
    );
}

#[test]
fn tuple_codecs_golden() {
    let tup = TypeIdent::Tuple(TupleDef(vec![atom(AtomType::I32), atom(AtomType::Str)]));
    let spec = Spec(vec![sdef("Pair", vec![field("p", tup)])]);
    let dec = generate_type_decoders(&spec).unwrap();
    assert!(dec.contains(
        "(D.succeed (\\x0 x1 -> (x0, x1)) |> requiredIdx 0 D.int |> requiredIdx 1 D.string)"
    ));
    let enc = generate_type_encoders(&spec).unwrap();
    assert!(enc.contains("(\\(x0, x1) -> E.list identity [ E.int x0, E.string x1 ])"));
}

#[test]
fn tuple_indices_render_in_decimal() {
    let elems: Vec<TypeIdent> = (0..11).map(|_| atom(AtomType::I32)).collect();
    let spec = Spec(vec![sdef("Wide", vec![field("w", TypeIdent::Tuple(TupleDef(elems)))])]);
    let dec = generate_type_decoders(&spec).unwrap();
    assert!(dec.contains("|> requiredIdx 10 "));
    let enc = generate_type_encoders(&spec).unwrap();
    assert!(enc.contains("E.int x10"));
}

#[test]
fn atom_codecs_cover_every_atom() {
    let atoms = vec![
        (AtomType::Empty, "(D.succeed ())", "(_ -> E.null)"),
        (AtomType::Str, "D.string", "E.string"),
        (AtomType::I32, "D.int", "E.int"),
        (AtomType::U32, "D.int", "E.int"),
        (AtomType::U8, "D.int", "E.int"),
        (AtomType::F64, "D.float", "E.float"),
        (AtomType::Bool, "D.bool", "E.bool"),
        (AtomType::DateTime, "Iso8601.decoder", "Iso8601.encode"),
        (AtomType::Date, "dateDecoder", "encDate"),
        (AtomType::Uuid, "uuidDecoder", "encUuid"),
        (AtomType::Bytes, "bytesDecoder", "encBytes"),
    ];
    for (a, dec_text, enc_text) in atoms {
        let spec = Spec(vec![sdef("W", vec![field("v", atom(a))])]);
        let dec = generate_type_decoders(&spec).unwrap();
        assert!(dec.contains(dec_text), "decoder for {:?}", a);
        let enc = generate_type_encoders(&spec).unwrap();
        assert!(enc.contains(enc_text), "encoder for {:?}", a);
    }
}

#[test]
fn composite_codecs_mirror_each_other() {
    let ty = TypeIdent::List(Box::new(TypeIdent::Option(Box::new(TypeIdent::Result(
        Box::new(atom(AtomType::I32)),
        Box::new(atom(AtomType::Str)),
    )))));
    let spec = Spec(vec![sdef("W", vec![field("v", ty)])]);
    let dec = generate_type_decoders(&spec).unwrap();
    assert!(dec.contains("D.list (D.maybe (resultDecoder D.string D.int))"));
    let enc = generate_type_encoders(&spec).unwrap();
    assert!(enc.contains("E.list (encMaybe (encResult E.string E.int))"));
}

#[test]
fn user_defined_references_use_derived_codec_names() {
    let spec = Spec(vec![sdef(
        "Party",
        vec![field("guest", TypeIdent::UserDefined("Customer".to_string()))],
    )]);
    let dec = generate_type_decoders(&spec).unwrap();
    assert!(dec.contains("|> required \"guest\" customerDecoder"));
    let enc = generate_type_encoders(&spec).unwrap();
    assert!(enc.contains("(\"guest\", encodeCustomer obj.guest)"));
}

#[test]
fn string_keyed_maps_are_accepted() {
    let dict = TypeIdent::Dict(Box::new(atom(AtomType::Str)), Box::new(atom(AtomType::F64)));
    let spec = Spec(vec![sdef("Bets", vec![field("bets", dict)])]);
    let dec = generate_type_decoders(&spec).unwrap();
    assert!(dec.contains("D.dict D.float"));
    let enc = generate_type_encoders(&spec).unwrap();
    assert!(enc.contains("E.dict identity E.float"));
}

#[test]
fn non_string_map_key_fails_both_directions() {
    let dict = TypeIdent::Dict(Box::new(atom(AtomType::I32)), Box::new(atom(AtomType::Str)));
    let spec = Spec(vec![sdef("Bad", vec![field("m", dict)])]);
    // Decoder and encoder generation stay in lock-step: both reject exactly
    // the same schema, naming the offending key type.
    assert_eq!(
        generate_type_decoders(&spec),
        Err(LibError::MapKeyMustBeString { key: "Int".to_string() })
    );
    assert_eq!(
        generate_type_encoders(&spec),
        Err(LibError::MapKeyMustBeString { key: "Int".to_string() })
    );
}

#[test]
fn nested_bad_map_key_is_still_caught() {
    let inner = TypeIdent::Dict(
        Box::new(TypeIdent::Tuple(TupleDef(vec![atom(AtomType::I32)]))),
        Box::new(atom(AtomType::Str)),
    );
    let ty = TypeIdent::List(Box::new(TypeIdent::Option(Box::new(inner))));
    let spec = Spec(vec![sdef("Bad", vec![field("m", ty)])]);
    assert_eq!(
        generate_type_decoders(&spec),
        Err(LibError::MapKeyMustBeString { key: "(Int)".to_string() })
    );
}

#[test]
fn decoders_skip_services_and_separate_items() {
    let spec = Spec(vec![
        sdef("Alpha", vec![field("x", atom(AtomType::Bool))]),
        SpecItem::ServiceDef(ServiceDef { name: "Portal".to_string(), doc_comment: None }),
        sdef("Beta", vec![field("y", atom(AtomType::Bool))]),
    ]);
    let out = generate_type_decoders(&spec).unwrap();
    assert!(out.contains("alphaDecoder"));
    assert!(out.contains("betaDecoder"));
    assert!(out.contains("\n\n\n"));
    assert!(!out.contains("Portal"));
}

#[test]
fn client_helpers_concatenate_enum_helpers() {
    let edef = EnumDef {
        name: "Color".to_string(),
        doc_comment: None,
        variants: vec![simple("Red")],
    };
    let expected = generate_enum_helpers(&edef);
    let spec = Spec(vec![
        sdef("A", vec![field("x", atom(AtomType::Bool))]),
        SpecItem::EnumDef(edef),
    ]);
    let out = generate_rest_api_client_helpers(&spec);
    assert_eq!(out, expected);
}
