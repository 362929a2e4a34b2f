//! Encoder generation: one wire-format encoder per struct or enum, the
//! mirror image of decoder generation.

use vstd::prelude::*;

use crate::ast::{
    AtomType, EnumDef, EnumV, FieldDefPair, FieldNode, FieldPairV, FieldV, ItemV, Spec, SpecItem,
    StructDef, StructV, TupleDef, TypeIdent, TypeV, VariantDef, VariantType, VariantTypeV,
    VariantV, fields_resolved, item_resolved, lemma_tuple_elem_views, schema_resolved,
    variant_resolved, variants_resolved,
};
use crate::elm::{generate_type_ident, to_atom, type_ident_text};
use crate::elm_decoders::{
    field_first_bad, fields_first_bad_from, first_bad_key, first_bad_key_seq, item_first_bad,
    map_key_err, schema_first_bad_from, variant_first_bad, variants_first_bad_from,
};
use crate::text::{
    atomize, camel_of, join_strings, join_text, make_xparts, nat_text, string_views,
    to_camel_case_str, usize_text, xparts,
};
use crate::LibError;

verus! {

// ---------------------------------------------------------------------------
// Encoder texts
// ---------------------------------------------------------------------------

/// The encoder function identifier derived from a type name.
pub open spec fn encoder_name_text(name: Seq<char>) -> Seq<char> {
    camel_of("encode"@ + name)
}

/// The encoder of an atomic type; date, time, UUID and raw-byte encoders are
/// runtime support helpers referenced by name.
pub open spec fn atom_encoder_text(a: AtomType) -> Seq<char> {
    match a {
        AtomType::Empty => "(_ -> E.null)"@,
        AtomType::Str => "E.string"@,
        AtomType::I32 => "E.int"@,
        AtomType::U32 => "E.int"@,
        AtomType::U8 => "E.int"@,
        AtomType::F64 => "E.float"@,
        AtomType::Bool => "E.bool"@,
        AtomType::DateTime => "Iso8601.encode"@,
        AtomType::Date => "encDate"@,
        AtomType::Uuid => "encUuid"@,
        AtomType::Bytes => "encBytes"@,
    }
}

/// The encoder of a type identifier; a result encodes its error alternative
/// first, mirroring the declared type's argument order.
pub open spec fn type_encoder_text(t: TypeV) -> Seq<char>
    decreases t, 0int,
{
    match t {
        TypeV::BuiltIn(a) => atom_encoder_text(a),
        TypeV::List(inner) => "E.list "@ + atomize(type_encoder_text(*inner)),
        TypeV::Option(inner) => "encMaybe "@ + atomize(type_encoder_text(*inner)),
        TypeV::Result(ok, err) => "encResult "@ + atomize(type_encoder_text(*err)) + " "@
            + atomize(type_encoder_text(*ok)),
        TypeV::Dict(key, value) => "E.dict identity "@ + atomize(type_encoder_text(*value)),
        TypeV::Tuple(ts) => tuple_encoder_text(ts),
        TypeV::UserDefined(n) => encoder_name_text(n),
    }
}

/// The positional component encodings of a tuple from `k` on.
pub open spec fn component_encoder_texts_from(ts: Seq<TypeV>, k: int) -> Seq<Seq<char>>
    decreases ts, ts.len() - k,
{
    if k < 0 || k >= ts.len() {
        Seq::empty()
    } else {
        seq![type_encoder_text(ts[k]) + " x"@ + nat_text(k as nat)]
            + component_encoder_texts_from(ts, k + 1)
    }
}

/// The encoder of a tuple: an n-ary value encoded positionally into an
/// n-element wire array.
pub open spec fn tuple_encoder_text(ts: Seq<TypeV>) -> Seq<char>
    decreases ts, ts.len() + 1,
{
    "\\("@ + join_text(xparts(ts.len()), ", "@) + ") -> E.list identity [ "@ + join_text(
        component_encoder_texts_from(ts, 0),
        ", "@,
    ) + " ]"@
}

/// The object entry of one field: its declared wire name and its encoded
/// current value.
pub open spec fn field_encoder_text(f: FieldV) -> Seq<char> {
    match f.pair {
        FieldPairV::Field { name, type_ident } => "(\""@ + name + "\", "@ + atomize(
            type_encoder_text(type_ident),
        ) + " obj."@ + camel_of(name) + ")"@,
        FieldPairV::Embed { name } => "(\""@ + name + "\", "@ + " obj."@ + camel_of(name) + ")"@,
    }
}

/// The object entries of the fields from `k` on, in declared order.
pub open spec fn field_encoder_texts_from(fields: Seq<FieldV>, k: int) -> Seq<Seq<char>>
    decreases fields.len() - k,
{
    if k < 0 || k >= fields.len() {
        Seq::empty()
    } else {
        seq![field_encoder_text(fields[k])] + field_encoder_texts_from(fields, k + 1)
    }
}

/// The encoder of a struct: an object with one entry per field, in declared
/// order.
pub open spec fn struct_encoder_text(s: StructV) -> Seq<char> {
    encoder_name_text(s.name) + " : "@ + s.name + " -> E.Value\n"@ + encoder_name_text(s.name)
        + " obj =\n    E.object\n        [ "@ + join_text(
        field_encoder_texts_from(s.fields, 0),
        "\n        , "@,
    ) + "\n        ]"@
}

/// The encoding branch of one variant: a bare wire string for a simple
/// variant, a single-key object keyed by the variant's name otherwise.
pub open spec fn variant_encoder_branch_text(v: VariantV) -> Seq<char> {
    match v.variant_type {
        VariantTypeV::Simple => v.name + " -> E.string \""@ + v.name + "\""@,
        VariantTypeV::Tuple(ts) => v.name + " "@ + join_text(xparts(ts.len()), " "@)
            + " -> E.object [ (\""@ + v.name + "\", E.list identity ["@ + join_text(
            component_encoder_texts_from(ts, 0),
            ", "@,
        ) + "]) ]"@,
        VariantTypeV::Struct(fs) => v.name + " obj -> E.object [ (\""@ + v.name
            + "\", E.object ["@ + join_text(field_encoder_texts_from(fs, 0), ", "@) + "]) ]"@,
        VariantTypeV::Newtype(t) => v.name + " obj -> E.object [ (\""@ + v.name + "\", "@
            + type_encoder_text(t) + " obj) ]"@,
    }
}

/// The encoding branches of the variants from `k` on.
pub open spec fn variant_branch_texts_from(vs: Seq<VariantV>, k: int) -> Seq<Seq<char>>
    decreases vs.len() - k,
{
    if k < 0 || k >= vs.len() {
        Seq::empty()
    } else {
        seq![variant_encoder_branch_text(vs[k])] + variant_branch_texts_from(vs, k + 1)
    }
}

/// The encoder of an enum: one case branch per variant, in declaration
/// order.
pub open spec fn enum_encoder_text(e: EnumV) -> Seq<char> {
    encoder_name_text(e.name) + " : "@ + e.name + " -> E.Value\n"@ + encoder_name_text(e.name)
        + " v =\n    case v of\n        "@ + join_text(
        variant_branch_texts_from(e.variants, 0),
        "\n        "@,
    )
}

/// The encoders of the items from `k` on, one per struct or enum, with
/// services skipped.
pub open spec fn encoder_texts_from(items: Seq<ItemV>, k: int) -> Seq<Seq<char>>
    decreases items.len() - k,
{
    if k < 0 || k >= items.len() {
        Seq::empty()
    } else {
        match items[k] {
            ItemV::Struct(s) => seq![struct_encoder_text(s)] + encoder_texts_from(items, k + 1),
            ItemV::Enum(e) => seq![enum_encoder_text(e)] + encoder_texts_from(items, k + 1),
            ItemV::Service(_) => encoder_texts_from(items, k + 1),
        }
    }
}

/// The whole encoders artifact, in schema order.
pub open spec fn type_encoders_text(items: Seq<ItemV>) -> Seq<char> {
    join_text(encoder_texts_from(items, 0), "\n\n\n"@)
}

// ---------------------------------------------------------------------------
// Executable encoder generation
// ---------------------------------------------------------------------------

/// Construct the encoder function name for a type name.
pub fn encoder_name(ident: &str) -> (r: String)
    ensures
        r@ == encoder_name_text(ident@),
{
    let mut s = String::from_str("encode");
    s.append(ident);
    to_camel_case_str(s.as_str())
}

/// Render the encoder of an atomic type.
pub fn generate_atom_encoder(atom: &AtomType) -> (r: String)
    ensures
        r@ == atom_encoder_text(*atom),
{
    let s = match atom {
        AtomType::Empty => "(_ -> E.null)",
        AtomType::Str => "E.string",
        AtomType::I32 => "E.int",
        AtomType::U32 => "E.int",
        AtomType::U8 => "E.int",
        AtomType::F64 => "E.float",
        AtomType::Bool => "E.bool",
        AtomType::DateTime => "Iso8601.encode",
        AtomType::Date => "encDate",
        AtomType::Uuid => "encUuid",
        AtomType::Bytes => "encBytes",
    };
    String::from_str(s)
}

/// Render the encoder of a type identifier; a map whose key type is not the
/// string atom is a fatal configuration error, exactly as for decoders.
pub fn generate_type_encoder(type_ident: &TypeIdent) -> (r: Result<String, LibError>)
    ensures
        match r {
            Ok(s) => first_bad_key(type_ident@) is None && s@ == type_encoder_text(type_ident@),
            Err(e) => first_bad_key(type_ident@) matches Some(bad) && map_key_err(e, bad),
        },
    decreases type_ident,
{
    match type_ident {
        TypeIdent::BuiltIn(atom) => Ok(generate_atom_encoder(atom)),
        TypeIdent::List(inner) => {
            match generate_type_encoder(inner) {
                Ok(d) => {
                    let mut r = String::from_str("E.list ");
                    r.append(to_atom(d).as_str());
                    proof {
                        assert(r@ =~= type_encoder_text(type_ident@));
                    }
                    Ok(r)
                },
                Err(e) => Err(e),
            }
        },
        TypeIdent::Option(inner) => {
            match generate_type_encoder(inner) {
                Ok(d) => {
                    let mut r = String::from_str("encMaybe ");
                    r.append(to_atom(d).as_str());
                    proof {
                        assert(r@ =~= type_encoder_text(type_ident@));
                    }
                    Ok(r)
                },
                Err(e) => Err(e),
            }
        },
        TypeIdent::Result(ok, err) => {
            let ok_enc = match generate_type_encoder(ok) {
                Ok(d) => d,
                Err(e) => {
                    return Err(e);
                },
            };
            let err_enc = match generate_type_encoder(err) {
                Ok(d) => d,
                Err(e) => {
                    return Err(e);
                },
            };
            let mut r = String::from_str("encResult ");
            r.append(to_atom(err_enc).as_str());
            r.append(" ");
            r.append(to_atom(ok_enc).as_str());
            proof {
                assert(r@ =~= type_encoder_text(type_ident@));
            }
            Ok(r)
        },
        TypeIdent::Dict(key, value) => {
            let key_is_str = match &**key {
                TypeIdent::BuiltIn(AtomType::Str) => true,
                _ => false,
            };
            if !key_is_str {
                let ktext = generate_type_ident(key);
                return Err(LibError::MapKeyMustBeString { key: ktext });
            }
            match generate_type_encoder(value) {
                Ok(d) => {
                    let mut r = String::from_str("E.dict identity ");
                    r.append(to_atom(d).as_str());
                    proof {
                        assert(r@ =~= type_encoder_text(type_ident@));
                    }
                    Ok(r)
                },
                Err(e) => Err(e),
            }
        },
        TypeIdent::Tuple(tdef) => generate_tuple_encoder(tdef),
        TypeIdent::UserDefined(ident) => Ok(encoder_name(ident.as_str())),
    }
}

/// Build the positional component encodings of a tuple.
fn generate_component_encoders(tuple: &TupleDef) -> (r: Result<Vec<String>, LibError>)
    ensures
        match r {
            Ok(parts) => first_bad_key_seq(tuple@, 0) is None && string_views(parts@)
                == component_encoder_texts_from(tuple@, 0),
            Err(e) => first_bad_key_seq(tuple@, 0) matches Some(bad) && map_key_err(e, bad),
        },
    decreases tuple, 0int,
{
    let ghost ts = tuple@;
    let n = tuple.0.len();
    let mut parts: Vec<String> = Vec::new();
    proof {
        lemma_tuple_elem_views(*tuple, 0);
    }
    for i in 0..n
        invariant
            n == tuple.0.len(),
            ts == tuple@,
            ts.len() == n,
            forall|k: int| 0 <= k < n ==> ts[k] == tuple.0[k]@,
            parts.len() == i,
            first_bad_key_seq(ts, 0) == first_bad_key_seq(ts, i as int),
            forall|k: int|
                0 <= k < i ==> parts[k]@ == type_encoder_text(ts[k]) + " x"@ + nat_text(k as nat),
    {
        let enc = match generate_type_encoder(&tuple.0[i]) {
            Ok(d) => d,
            Err(e) => {
                proof {
                    assert(first_bad_key_seq(ts, i as int) == first_bad_key(ts[i as int]));
                }
                return Err(e);
            },
        };
        let mut part = String::from_str(enc.as_str());
        part.append(" x");
        part.append(usize_text(i).as_str());
        parts.push(part);
    }
    proof {
        lemma_component_encoder_texts(ts, 0);
        assert(string_views(parts@) =~= component_encoder_texts_from(ts, 0));
    }
    Ok(parts)
}

/// Pointwise characterization of `component_encoder_texts_from`.
proof fn lemma_component_encoder_texts(ts: Seq<TypeV>, k: int)
    requires
        0 <= k <= ts.len(),
    ensures
        component_encoder_texts_from(ts, k).len() == ts.len() - k,
        forall|i: int|
            0 <= i < ts.len() - k ==> component_encoder_texts_from(ts, k)[i] == type_encoder_text(
                ts[k + i],
            ) + " x"@ + nat_text((k + i) as nat),
    decreases ts.len() - k,
{
    if k < ts.len() {
        lemma_component_encoder_texts(ts, k + 1);
    }
}

/// Render the encoder of a tuple type.
pub fn generate_tuple_encoder(tdef: &TupleDef) -> (r: Result<String, LibError>)
    ensures
        match r {
            Ok(s) => first_bad_key_seq(tdef@, 0) is None && s@ == tuple_encoder_text(tdef@),
            Err(e) => first_bad_key_seq(tdef@, 0) matches Some(bad) && map_key_err(e, bad),
        },
    decreases tdef, 1int,
{
    let encs = match generate_component_encoders(tdef) {
        Ok(p) => p,
        Err(e) => {
            return Err(e);
        },
    };
    let len = tdef.0.len();
    let names = make_xparts(len);
    let mut r = String::from_str("\\(");
    r.append(join_strings(&names, ", ").as_str());
    r.append(") -> E.list identity [ ");
    r.append(join_strings(&encs, ", ").as_str());
    r.append(" ]");
    proof {
        lemma_tuple_elem_views(*tdef, 0);
        assert(r@ =~= tuple_encoder_text(tdef@));
    }
    Ok(r)
}

/// Render the object entry of one field: its declared wire name paired with
/// its encoded current value.
pub fn generate_field_encoder(field: &FieldNode) -> (r: Result<String, LibError>)
    requires
        field@.pair is Field,
    ensures
        match r {
            Ok(s) => field_first_bad(field@) is None && s@ == field_encoder_text(field@),
            Err(e) => field_first_bad(field@) matches Some(bad) && map_key_err(e, bad),
        },
{
    match &field.pair {
        FieldDefPair::Field { name, type_ident } => {
            let enc = match generate_type_encoder(type_ident) {
                Ok(d) => d,
                Err(e) => {
                    return Err(e);
                },
            };
            let fname = crate::elm::field_name(name.as_str());
            let mut r = String::from_str("(\"");
            r.append(name.as_str());
            r.append("\", ");
            r.append(to_atom(enc).as_str());
            r.append(" obj.");
            r.append(fname.as_str());
            r.append(")");
            proof {
                assert(r@ =~= field_encoder_text(field@));
            }
            Ok(r)
        },
        FieldDefPair::Embed { .. } => {
            proof {
                assert(false);
            }
            Ok(String::new())
        },
    }
}

/// Build the object entries of a resolved field list.
fn generate_field_encoder_parts(fields: &Vec<FieldNode>) -> (r: Result<Vec<String>, LibError>)
    requires
        fields_resolved(crate::ast::field_nodes_view(fields@)),
    ensures
        match r {
            Ok(parts) => fields_first_bad_from(crate::ast::field_nodes_view(fields@), 0) is None
                && string_views(parts@) == field_encoder_texts_from(
                crate::ast::field_nodes_view(fields@),
                0,
            ),
            Err(e) => fields_first_bad_from(crate::ast::field_nodes_view(fields@), 0) matches Some(
                bad,
            ) && map_key_err(e, bad),
        },
{
    let ghost fv = crate::ast::field_nodes_view(fields@);
    let n = fields.len();
    let mut parts: Vec<String> = Vec::new();
    for i in 0..n
        invariant
            n == fields.len(),
            fv == crate::ast::field_nodes_view(fields@),
            fv.len() == n,
            fields_resolved(fv),
            forall|k: int| 0 <= k < n ==> fv[k] == fields[k]@,
            parts.len() == i,
            fields_first_bad_from(fv, 0) == fields_first_bad_from(fv, i as int),
            forall|k: int| 0 <= k < i ==> parts[k]@ == field_encoder_text(fv[k]),
    {
        let part = match generate_field_encoder(&fields[i]) {
            Ok(p) => p,
            Err(e) => {
                proof {
                    assert(fields_first_bad_from(fv, i as int) == field_first_bad(fv[i as int]));
                }
                return Err(e);
            },
        };
        proof {
            assert(field_first_bad(fv[i as int]) is None);
            assert(fields_first_bad_from(fv, i as int) == fields_first_bad_from(fv, i + 1));
        }
        parts.push(part);
    }
    proof {
        lemma_field_encoder_texts(fv, 0);
        assert(string_views(parts@) =~= field_encoder_texts_from(fv, 0));
    }
    Ok(parts)
}

/// Pointwise characterization of `field_encoder_texts_from`.
pub proof fn lemma_field_encoder_texts(fields: Seq<FieldV>, k: int)
    requires
        0 <= k <= fields.len(),
    ensures
        field_encoder_texts_from(fields, k).len() == fields.len() - k,
        forall|i: int|
            0 <= i < fields.len() - k ==> field_encoder_texts_from(fields, k)[i]
                == field_encoder_text(fields[k + i]),
    decreases fields.len() - k,
{
    if k < fields.len() {
        lemma_field_encoder_texts(fields, k + 1);
    }
}

/// Render the encoder of a struct: one object entry per field, in declared
/// order, so the emitted key order matches the declared field order.
pub fn generate_struct_encoder(sdef: &StructDef) -> (r: Result<String, LibError>)
    requires
        fields_resolved(sdef.fields@),
    ensures
        match r {
            Ok(s) => fields_first_bad_from(sdef@.fields, 0) is None && s@ == struct_encoder_text(
                sdef@,
            ),
            Err(e) => fields_first_bad_from(sdef@.fields, 0) matches Some(bad) && map_key_err(
                e,
                bad,
            ),
        },
{
    let parts = match generate_field_encoder_parts(&sdef.fields.0) {
        Ok(p) => p,
        Err(e) => {
            return Err(e);
        },
    };
    let joined = join_strings(&parts, "\n        , ");
    let enc = encoder_name(sdef.name.as_str());
    let mut r = String::from_str(enc.as_str());
    r.append(" : ");
    r.append(sdef.name.as_str());
    r.append(" -> E.Value\n");
    r.append(enc.as_str());
    r.append(" obj =\n    E.object\n        [ ");
    r.append(joined.as_str());
    r.append("\n        ]");
    proof {
        assert(r@ =~= struct_encoder_text(sdef@));
    }
    Ok(r)
}

/// Render the encoding branch of one variant.
pub fn generate_variant_encoder_branch(variant: &VariantDef) -> (r: Result<String, LibError>)
    requires
        variant_resolved(variant@),
    ensures
        match r {
            Ok(s) => variant_first_bad(variant@) is None && s@ == variant_encoder_branch_text(
                variant@,
            ),
            Err(e) => variant_first_bad(variant@) matches Some(bad) && map_key_err(e, bad),
        },
{
    match &variant.variant_type {
        VariantType::Simple => {
            let mut r = String::from_str(variant.name.as_str());
            r.append(" -> E.string \"");
            r.append(variant.name.as_str());
            r.append("\"");
            proof {
                assert(r@ =~= variant_encoder_branch_text(variant@));
            }
            Ok(r)
        },
        VariantType::Tuple(tdef) => {
            let encs = match generate_component_encoders(tdef) {
                Ok(p) => p,
                Err(e) => {
                    return Err(e);
                },
            };
            let names = make_xparts(tdef.0.len());
            let mut r = String::from_str(variant.name.as_str());
            r.append(" ");
            r.append(join_strings(&names, " ").as_str());
            r.append(" -> E.object [ (\"");
            r.append(variant.name.as_str());
            r.append("\", E.list identity [");
            r.append(join_strings(&encs, ", ").as_str());
            r.append("]) ]");
            proof {
                lemma_tuple_elem_views(*tdef, 0);
                assert(r@ =~= variant_encoder_branch_text(variant@));
            }
            Ok(r)
        },
        VariantType::Struct(fields) => {
            let parts = match generate_field_encoder_parts(&fields.0) {
                Ok(p) => p,
                Err(e) => {
                    return Err(e);
                },
            };
            let mut r = String::from_str(variant.name.as_str());
            r.append(" obj -> E.object [ (\"");
            r.append(variant.name.as_str());
            r.append("\", E.object [");
            r.append(join_strings(&parts, ", ").as_str());
            r.append("]) ]");
            proof {
                assert(r@ =~= variant_encoder_branch_text(variant@));
            }
            Ok(r)
        },
        VariantType::Newtype(ty) => {
            let enc = match generate_type_encoder(ty) {
                Ok(d) => d,
                Err(e) => {
                    return Err(e);
                },
            };
            let mut r = String::from_str(variant.name.as_str());
            r.append(" obj -> E.object [ (\"");
            r.append(variant.name.as_str());
            r.append("\", ");
            r.append(enc.as_str());
            r.append(" obj) ]");
            proof {
                assert(r@ =~= variant_encoder_branch_text(variant@));
            }
            Ok(r)
        },
    }
}

/// Render the encoder of an enum: one case branch per variant, in
/// declaration order.
pub fn generate_enum_encoder(edef: &EnumDef) -> (r: Result<String, LibError>)
    requires
        variants_resolved(edef@.variants),
    ensures
        match r {
            Ok(s) => variants_first_bad_from(edef@.variants, 0) is None && s@ == enum_encoder_text(
                edef@,
            ),
            Err(e) => variants_first_bad_from(edef@.variants, 0) matches Some(bad) && map_key_err(
                e,
                bad,
            ),
        },
{
    let ghost vs = edef@.variants;
    let n = edef.variants.len();
    let mut branches: Vec<String> = Vec::new();
    for i in 0..n
        invariant
            n == edef.variants.len(),
            vs == edef@.variants,
            vs.len() == n,
            variants_resolved(vs),
            forall|k: int| 0 <= k < n ==> vs[k] == edef.variants[k]@,
            branches.len() == i,
            variants_first_bad_from(vs, 0) == variants_first_bad_from(vs, i as int),
            forall|k: int| 0 <= k < i ==> branches[k]@ == variant_encoder_branch_text(vs[k]),
    {
        let branch = match generate_variant_encoder_branch(&edef.variants[i]) {
            Ok(b) => b,
            Err(e) => {
                proof {
                    assert(variants_first_bad_from(vs, i as int) == variant_first_bad(
                        vs[i as int],
                    ));
                }
                return Err(e);
            },
        };
        proof {
            assert(variant_first_bad(vs[i as int]) is None);
            assert(variants_first_bad_from(vs, i as int) == variants_first_bad_from(vs, i + 1));
        }
        branches.push(branch);
    }
    proof {
        lemma_variant_branch_texts(vs, 0);
        assert(string_views(branches@) =~= variant_branch_texts_from(vs, 0));
    }
    let joined = join_strings(&branches, "\n        ");
    let enc = encoder_name(edef.name.as_str());
    let mut r = String::from_str(enc.as_str());
    r.append(" : ");
    r.append(edef.name.as_str());
    r.append(" -> E.Value\n");
    r.append(enc.as_str());
    r.append(" v =\n    case v of\n        ");
    r.append(joined.as_str());
    proof {
        assert(r@ =~= enum_encoder_text(edef@));
    }
    Ok(r)
}

/// Pointwise characterization of `variant_branch_texts_from`.
proof fn lemma_variant_branch_texts(vs: Seq<VariantV>, k: int)
    requires
        0 <= k <= vs.len(),
    ensures
        variant_branch_texts_from(vs, k).len() == vs.len() - k,
        forall|i: int|
            0 <= i < vs.len() - k ==> variant_branch_texts_from(vs, k)[i]
                == variant_encoder_branch_text(vs[k + i]),
    decreases vs.len() - k,
{
    if k < vs.len() {
        lemma_variant_branch_texts(vs, k + 1);
    }
}

/// Render the encoders of every struct and enum of a resolved schema, in
/// schema order, separated by two blank lines; services contribute nothing.
/// Encoder generation succeeds exactly where decoder generation does: both
/// fail on precisely the schemas holding an inadmissible map key.
pub fn generate_type_encoders(spec: &Spec) -> (r: Result<String, LibError>)
    requires
        schema_resolved(spec@),
    ensures
        match r {
            Ok(s) => schema_first_bad_from(spec@, 0) is None && s@ == type_encoders_text(spec@),
            Err(e) => schema_first_bad_from(spec@, 0) matches Some(bad) && map_key_err(e, bad),
        },
{
    let ghost items = spec@;
    let n = spec.0.len();
    let mut parts: Vec<String> = Vec::new();
    for idx in 0..n
        invariant
            n == spec.0.len(),
            items == spec@,
            items.len() == n,
            schema_resolved(items),
            forall|k: int| 0 <= k < n ==> items[k] == spec.0[k]@,
            schema_first_bad_from(items, 0) == schema_first_bad_from(items, idx as int),
            string_views(parts@) + encoder_texts_from(items, idx as int) == encoder_texts_from(
                items,
                0,
            ),
    {
        match &spec.0[idx] {
            SpecItem::StructDef(sdef) => {
                proof {
                    assert(items[idx as int] == ItemV::Struct(sdef@));
                    assert(item_resolved(items[idx as int]));
                }
                let enc = match generate_struct_encoder(sdef) {
                    Ok(d) => d,
                    Err(e) => {
                        proof {
                            assert(schema_first_bad_from(items, idx as int) == item_first_bad(
                                items[idx as int],
                            ));
                        }
                        return Err(e);
                    },
                };
                parts.push(enc);
                proof {
                    assert(string_views(parts@) + encoder_texts_from(items, idx + 1)
                        =~= encoder_texts_from(items, 0));
                }
            },
            SpecItem::EnumDef(edef) => {
                proof {
                    assert(items[idx as int] == ItemV::Enum(edef@));
                    assert(item_resolved(items[idx as int]));
                }
                let enc = match generate_enum_encoder(edef) {
                    Ok(d) => d,
                    Err(e) => {
                        proof {
                            assert(schema_first_bad_from(items, idx as int) == item_first_bad(
                                items[idx as int],
                            ));
                        }
                        return Err(e);
                    },
                };
                parts.push(enc);
                proof {
                    assert(string_views(parts@) + encoder_texts_from(items, idx + 1)
                        =~= encoder_texts_from(items, 0));
                }
            },
            SpecItem::ServiceDef(_) => {
                proof {
                    assert(encoder_texts_from(items, idx as int) == encoder_texts_from(
                        items,
                        idx + 1,
                    ));
                }
            },
        }
    }
    proof {
        assert(encoder_texts_from(items, n as int) =~= Seq::<Seq<char>>::empty());
        assert(string_views(parts@) =~= encoder_texts_from(items, 0));
    }
    Ok(join_strings(&parts, "\n\n\n"))
}

// ---------------------------------------------------------------------------
// Lock-step of the two codec directions
// ---------------------------------------------------------------------------

/// Decoder and encoder generation stay in lock-step: from item `k` on they
/// emit codecs for exactly the same items, in the same order, one per struct
/// or enum. Success is in lock-step too: both directions' contracts succeed
/// on exactly the schemas where `schema_first_bad_from` finds no
/// inadmissible map key.
pub proof fn lemma_codec_lockstep(items: Seq<ItemV>, k: int)
    requires
        0 <= k <= items.len(),
    ensures
        encoder_texts_from(items, k).len() == crate::elm_decoders::decoder_texts_from(
            items,
            k,
        ).len(),
    decreases items.len() - k,
{
    if k < items.len() {
        lemma_codec_lockstep(items, k + 1);
    }
}

// ---------------------------------------------------------------------------
// Field order fidelity
// ---------------------------------------------------------------------------

/// Field order fidelity: the declared field order determines both renderings
/// position by position. The k-th line of a struct's declaration block is the
/// k-th declared field's line, the k-th entry of its encoder's emitted object
/// is the k-th declared field's entry, and the k-th stage of its decoder
/// pipeline is keyed by the k-th declared field; so declared order, declared
/// type field order and emitted object-key order all agree.
pub proof fn lemma_field_order_fidelity(fields: Seq<FieldV>, lvl: nat, k: int)
    requires
        0 <= k < fields.len(),
    ensures
        field_encoder_texts_from(fields, 0).len() == fields.len(),
        field_encoder_texts_from(fields, 0)[k] == field_encoder_text(fields[k]),
        crate::elm_decoders::field_decoder_texts_from(fields, 0).len() == fields.len(),
        crate::elm_decoders::field_decoder_texts_from(fields, 0)[k]
            == crate::elm_decoders::field_decoder_text(fields[k]),
        crate::elm::field_lines_from(fields, lvl, k) == crate::elm::field_line(
            fields[k],
            lvl,
            k == 0,
        ) + crate::elm::field_lines_from(fields, lvl, k + 1),
{
    lemma_field_encoder_texts(fields, 0);
    crate::elm_decoders::lemma_field_decoder_texts(fields, 0);
}

} // verus!
