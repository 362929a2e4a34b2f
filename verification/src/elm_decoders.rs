//! Decoder generation: one wire-format decoder per struct or enum, plus one
//! string-lookup helper per enum that has simple variants.

use vstd::prelude::*;

use crate::ast::{
    AtomType, EnumDef, EnumV, FieldDefPair, FieldNode, FieldPairV, FieldV, ItemV, Spec, SpecItem,
    StructDef, StructV, TupleDef, TypeIdent, TypeV, VariantDef, VariantType, VariantTypeV,
    VariantV, fields_resolved, item_resolved, lemma_tuple_elem_views, schema_resolved,
    variant_resolved, variants_resolved,
};
use crate::elm::{generate_type_ident, to_atom, type_ident_text};
use crate::text::{
    atomize, camel_of, join_strings, join_text, make_xparts, nat_text, string_views,
    to_camel_case_str, usize_text, xparts,
};
use crate::LibError;

verus! {

// ---------------------------------------------------------------------------
// Map-key admissibility
// ---------------------------------------------------------------------------

/// The first map key type other than the string atom in generation order
/// within a type, if any; codecs can only be generated when there is none.
pub open spec fn first_bad_key(t: TypeV) -> Option<TypeV>
    decreases t,
{
    match t {
        TypeV::BuiltIn(_) => None,
        TypeV::List(inner) => first_bad_key(*inner),
        TypeV::Option(inner) => first_bad_key(*inner),
        TypeV::Result(ok, err) => match first_bad_key(*ok) {
            Some(b) => Some(b),
            None => first_bad_key(*err),
        },
        TypeV::Dict(key, value) => if *key != TypeV::BuiltIn(AtomType::Str) {
            Some(*key)
        } else {
            first_bad_key(*value)
        },
        TypeV::Tuple(ts) => first_bad_key_seq(ts, 0),
        TypeV::UserDefined(_) => None,
    }
}

/// The first inadmissible map key among the component types from `k` on.
pub open spec fn first_bad_key_seq(ts: Seq<TypeV>, k: int) -> Option<TypeV>
    decreases ts, ts.len() - k,
{
    if k < 0 || k >= ts.len() {
        None
    } else {
        match first_bad_key(ts[k]) {
            Some(b) => Some(b),
            None => first_bad_key_seq(ts, k + 1),
        }
    }
}

/// The first inadmissible map key within one field's type.
pub open spec fn field_first_bad(f: FieldV) -> Option<TypeV> {
    match f.pair {
        FieldPairV::Field { type_ident, .. } => first_bad_key(type_ident),
        FieldPairV::Embed { .. } => None,
    }
}

/// The first inadmissible map key among the field types from `k` on.
pub open spec fn fields_first_bad_from(fields: Seq<FieldV>, k: int) -> Option<TypeV>
    decreases fields.len() - k,
{
    if k < 0 || k >= fields.len() {
        None
    } else {
        match field_first_bad(fields[k]) {
            Some(b) => Some(b),
            None => fields_first_bad_from(fields, k + 1),
        }
    }
}

/// The first inadmissible map key within one variant's payload.
pub open spec fn variant_first_bad(v: VariantV) -> Option<TypeV> {
    match v.variant_type {
        VariantTypeV::Simple => None,
        VariantTypeV::Tuple(ts) => first_bad_key_seq(ts, 0),
        VariantTypeV::Struct(fs) => fields_first_bad_from(fs, 0),
        VariantTypeV::Newtype(t) => first_bad_key(t),
    }
}

/// The first inadmissible map key among the variants from `k` on.
pub open spec fn variants_first_bad_from(vs: Seq<VariantV>, k: int) -> Option<TypeV>
    decreases vs.len() - k,
{
    if k < 0 || k >= vs.len() {
        None
    } else {
        match variant_first_bad(vs[k]) {
            Some(b) => Some(b),
            None => variants_first_bad_from(vs, k + 1),
        }
    }
}

/// The first inadmissible map key within one top-level item.
pub open spec fn item_first_bad(it: ItemV) -> Option<TypeV> {
    match it {
        ItemV::Struct(s) => fields_first_bad_from(s.fields, 0),
        ItemV::Enum(e) => variants_first_bad_from(e.variants, 0),
        ItemV::Service(_) => None,
    }
}

/// The first inadmissible map key in the schema from item `k` on.
pub open spec fn schema_first_bad_from(items: Seq<ItemV>, k: int) -> Option<TypeV>
    decreases items.len() - k,
{
    if k < 0 || k >= items.len() {
        None
    } else {
        match item_first_bad(items[k]) {
            Some(b) => Some(b),
            None => schema_first_bad_from(items, k + 1),
        }
    }
}

/// The error reported for an inadmissible map key: it names the rendering of
/// the offending key type.
pub open spec fn map_key_err(e: LibError, bad: TypeV) -> bool {
    match e {
        LibError::MapKeyMustBeString { key } => key@ == type_ident_text(bad),
        _ => false,
    }
}

// ---------------------------------------------------------------------------
// Decoder texts
// ---------------------------------------------------------------------------

/// The decoder function identifier derived from a type name.
pub open spec fn decoder_name_text(name: Seq<char>) -> Seq<char> {
    camel_of(name + "Decoder"@)
}

/// The string-lookup helper identifier derived from an enum name.
pub open spec fn enum_string_decoder_name_text(name: Seq<char>) -> Seq<char> {
    camel_of("parseEnum"@ + name + "FromString"@)
}

/// The decoder of an atomic type; date, time, UUID and raw-byte decoders are
/// runtime support helpers referenced by name.
pub open spec fn atom_decoder_text(a: AtomType) -> Seq<char> {
    match a {
        AtomType::Empty => "(D.succeed ())"@,
        AtomType::Str => "D.string"@,
        AtomType::I32 => "D.int"@,
        AtomType::U32 => "D.int"@,
        AtomType::U8 => "D.int"@,
        AtomType::F64 => "D.float"@,
        AtomType::Bool => "D.bool"@,
        AtomType::DateTime => "Iso8601.decoder"@,
        AtomType::Date => "dateDecoder"@,
        AtomType::Uuid => "uuidDecoder"@,
        AtomType::Bytes => "bytesDecoder"@,
    }
}

/// The decoder of a type identifier; a result decodes its error alternative
/// first, mirroring the declared type's argument order.
pub open spec fn type_decoder_text(t: TypeV) -> Seq<char>
    decreases t, 0int,
{
    match t {
        TypeV::BuiltIn(a) => atom_decoder_text(a),
        TypeV::List(inner) => "D.list "@ + atomize(type_decoder_text(*inner)),
        TypeV::Option(inner) => "D.maybe "@ + atomize(type_decoder_text(*inner)),
        TypeV::Result(ok, err) => "resultDecoder "@ + atomize(type_decoder_text(*err)) + " "@
            + atomize(type_decoder_text(*ok)),
        TypeV::Dict(key, value) => "D.dict "@ + atomize(type_decoder_text(*value)),
        TypeV::Tuple(ts) => tuple_decoder_text(ts),
        TypeV::UserDefined(n) => decoder_name_text(n),
    }
}

/// The positional pipeline entries decoding tuple components from `k` on.
pub open spec fn component_decoder_texts_from(ts: Seq<TypeV>, k: int) -> Seq<Seq<char>>
    decreases ts, ts.len() - k,
{
    if k < 0 || k >= ts.len() {
        Seq::empty()
    } else {
        seq![
            "|> requiredIdx "@ + nat_text(k as nat) + " "@ + atomize(type_decoder_text(ts[k])),
        ] + component_decoder_texts_from(ts, k + 1)
    }
}

/// The pipeline that decodes tuple components by index.
pub open spec fn components_by_index_text(ts: Seq<TypeV>) -> Seq<char>
    decreases ts, ts.len() + 1,
{
    join_text(component_decoder_texts_from(ts, 0), " "@)
}

/// The decoder of a tuple: an n-element wire array decoded positionally.
pub open spec fn tuple_decoder_text(ts: Seq<TypeV>) -> Seq<char>
    decreases ts, ts.len() + 2,
{
    "D.succeed (\\"@ + join_text(xparts(ts.len()), " "@) + " -> ("@ + join_text(
        xparts(ts.len()),
        ", "@,
    ) + ")) "@ + components_by_index_text(ts)
}

/// The decoder pipeline entry of one field, keyed by its declared wire name.
pub open spec fn field_decoder_text(f: FieldV) -> Seq<char> {
    match f.pair {
        FieldPairV::Field { name, type_ident } => "|> required \""@ + name + "\" "@ + atomize(
            type_decoder_text(type_ident),
        ),
        FieldPairV::Embed { name } => "|> required \""@ + name + "\" "@,
    }
}

/// The decoder pipeline entries of the fields from `k` on.
pub open spec fn field_decoder_texts_from(fields: Seq<FieldV>, k: int) -> Seq<Seq<char>>
    decreases fields.len() - k,
{
    if k < 0 || k >= fields.len() {
        Seq::empty()
    } else {
        seq![field_decoder_text(fields[k])] + field_decoder_texts_from(fields, k + 1)
    }
}

/// The decoder of a struct: per-field decoders in declared order, aggregated
/// only if every field decodes.
pub open spec fn struct_decoder_text(s: StructV) -> Seq<char> {
    decoder_name_text(s.name) + " : D.Decoder "@ + s.name + " \n"@ + decoder_name_text(s.name)
        + " =\n   D.succeed "@ + s.name + "\n        "@ + join_text(
        field_decoder_texts_from(s.fields, 0),
        "\n        "@,
    )
}

/// Whether any variant is simple.
pub open spec fn has_simple(vs: Seq<VariantV>) -> bool {
    exists|i: int| 0 <= i < vs.len() && vs[i].variant_type is Simple
}

/// Whether any variant is not simple.
pub open spec fn has_complex(vs: Seq<VariantV>) -> bool {
    exists|i: int| 0 <= i < vs.len() && !(vs[i].variant_type is Simple)
}

/// The string-lookup helper's match lines for the simple variants from `k`
/// on.
pub open spec fn simple_helper_lines_from(vs: Seq<VariantV>, k: int) -> Seq<Seq<char>>
    decreases vs.len() - k,
{
    if k < 0 || k >= vs.len() {
        Seq::empty()
    } else if vs[k].variant_type is Simple {
        seq!["  \""@ + vs[k].name + "\" -> Just "@ + vs[k].name] + simple_helper_lines_from(
            vs,
            k + 1,
        )
    } else {
        simple_helper_lines_from(vs, k + 1)
    }
}

/// The per-enum helper mapping a bare wire string back to the matching
/// simple variant, or to nothing.
pub open spec fn enum_helpers_text(e: EnumV) -> Seq<char> {
    enum_string_decoder_name_text(e.name) + " : String -> Maybe "@ + e.name + "\n"@
        + enum_string_decoder_name_text(e.name) + " s = case s of \n"@ + join_text(
        simple_helper_lines_from(e.variants, 0),
        "\n\n"@,
    ) + "\n"@ + "  "@ + "_ -> Nothing\n"@
}

/// The decoder of one non-simple variant's payload.
pub open spec fn variant_decoder_text(v: VariantV) -> Seq<char> {
    match v.variant_type {
        VariantTypeV::Simple => Seq::empty(),
        VariantTypeV::Tuple(ts) => "D.succeed "@ + v.name + " "@ + components_by_index_text(ts),
        VariantTypeV::Struct(fs) => "D.succeed "@ + v.name + " "@ + join_text(
            field_decoder_texts_from(fs, 0),
            " "@,
        ),
        VariantTypeV::Newtype(t) => "D.map "@ + v.name + " "@ + atomize(type_decoder_text(t)),
    }
}

/// The keyed-object alternatives for the non-simple variants from `k` on:
/// each is keyed by its own variant's name.
pub open spec fn complex_alt_texts_from(vs: Seq<VariantV>, k: int) -> Seq<Seq<char>>
    decreases vs.len() - k,
{
    if k < 0 || k >= vs.len() {
        Seq::empty()
    } else if vs[k].variant_type is Simple {
        complex_alt_texts_from(vs, k + 1)
    } else {
        seq!["D.field \""@ + vs[k].name + "\" "@ + atomize(variant_decoder_text(vs[k]))]
            + complex_alt_texts_from(vs, k + 1)
    }
}

/// Wire disambiguation of the keyed-object alternatives, at the level of the
/// generated text: a non-simple variant contributes exactly one alternative
/// to its enum's decoder, keyed by its own variant name and decoding its own
/// payload — never another variant's.
pub proof fn lemma_enum_decoder_variant_keys(vs: Seq<VariantV>, t: int)
    requires
        0 <= t < vs.len(),
        !(vs[t].variant_type is Simple),
    ensures
        exists|e: int|
            0 <= e < complex_alt_texts_from(vs, 0).len() && #[trigger] complex_alt_texts_from(
                vs,
                0,
            )[e] == "D.field \""@ + vs[t].name + "\" "@ + atomize(variant_decoder_text(vs[t])),
{
    lemma_complex_alt_present(vs, 0, t);
}

/// The induction behind `lemma_enum_decoder_variant_keys`.
proof fn lemma_complex_alt_present(vs: Seq<VariantV>, k: int, t: int)
    requires
        0 <= k <= t < vs.len(),
        !(vs[t].variant_type is Simple),
    ensures
        exists|e: int|
            0 <= e < complex_alt_texts_from(vs, k).len() && #[trigger] complex_alt_texts_from(
                vs,
                k,
            )[e] == "D.field \""@ + vs[t].name + "\" "@ + atomize(variant_decoder_text(vs[t])),
    decreases t - k,
{
    if k == t {
        assert(complex_alt_texts_from(vs, k)[0] == "D.field \""@ + vs[t].name + "\" "@ + atomize(
            variant_decoder_text(vs[t]),
        ));
    } else {
        lemma_complex_alt_present(vs, k + 1, t);
        let e = choose|e: int|
            0 <= e < complex_alt_texts_from(vs, k + 1).len() && #[trigger] complex_alt_texts_from(
                vs,
                k + 1,
            )[e] == "D.field \""@ + vs[t].name + "\" "@ + atomize(variant_decoder_text(vs[t]));
        if vs[k].variant_type is Simple {
            assert(complex_alt_texts_from(vs, k)[e] == complex_alt_texts_from(vs, k + 1)[e]);
        } else {
            assert(complex_alt_texts_from(vs, k)[e + 1] == complex_alt_texts_from(vs, k + 1)[e]);
        }
    }
}

/// The bare-string alternative of an enum decoder, present only when the
/// enum has simple variants.
pub open spec fn opt_string_decoder_text(e: EnumV) -> Seq<char> {
    if has_simple(e.variants) {
        "unwrapDecoder (D.map "@ + enum_string_decoder_name_text(e.name) + " D.string)"@ + (
        if has_complex(e.variants) {
            "\n        ,"@
        } else {
            Seq::empty()
        })
    } else {
        Seq::empty()
    }
}

/// The decoder of an enum: the union of the bare-string alternative, if any,
/// and each non-simple variant's keyed-object alternative in declaration
/// order.
pub open spec fn enum_decoder_text(e: EnumV) -> Seq<char> {
    decoder_name_text(e.name) + " : D.Decoder "@ + e.name + "\n"@ + decoder_name_text(e.name)
        + " =\n    D.oneOf\n        ["@ + opt_string_decoder_text(e) + " "@ + join_text(
        complex_alt_texts_from(e.variants, 0),
        "\n        ,"@,
    ) + "\n        ]"@
}

/// The decoders of the items from `k` on, one per struct or enum, with
/// services skipped.
pub open spec fn decoder_texts_from(items: Seq<ItemV>, k: int) -> Seq<Seq<char>>
    decreases items.len() - k,
{
    if k < 0 || k >= items.len() {
        Seq::empty()
    } else {
        match items[k] {
            ItemV::Struct(s) => seq![struct_decoder_text(s)] + decoder_texts_from(items, k + 1),
            ItemV::Enum(e) => seq![enum_decoder_text(e)] + decoder_texts_from(items, k + 1),
            ItemV::Service(_) => decoder_texts_from(items, k + 1),
        }
    }
}

/// The whole decoders artifact, in schema order.
pub open spec fn type_decoders_text(items: Seq<ItemV>) -> Seq<char> {
    join_text(decoder_texts_from(items, 0), "\n\n\n"@)
}

/// The string-lookup helpers of every enum of the schema, concatenated in
/// schema order.
pub open spec fn rest_helpers_from(items: Seq<ItemV>, k: int) -> Seq<char>
    decreases items.len() - k,
{
    if k < 0 || k >= items.len() {
        Seq::empty()
    } else {
        match items[k] {
            ItemV::Enum(e) => enum_helpers_text(e) + rest_helpers_from(items, k + 1),
            _ => rest_helpers_from(items, k + 1),
        }
    }
}

// ---------------------------------------------------------------------------
// Executable decoder generation
// ---------------------------------------------------------------------------

/// Construct the decoder function name for a type name.
pub fn decoder_name(ident: &str) -> (r: String)
    ensures
        r@ == decoder_name_text(ident@),
{
    let mut s = String::from_str(ident);
    s.append("Decoder");
    to_camel_case_str(s.as_str())
}

/// Construct the string-lookup helper name for an enum name.
pub fn enum_string_decoder_name(ident: &str) -> (r: String)
    ensures
        r@ == enum_string_decoder_name_text(ident@),
{
    let mut s = String::from_str("parseEnum");
    s.append(ident);
    s.append("FromString");
    to_camel_case_str(s.as_str())
}

/// Render the decoder of an atomic type.
pub fn generate_atom_decoder(atom: &AtomType) -> (r: String)
    ensures
        r@ == atom_decoder_text(*atom),
{
    let s = match atom {
        AtomType::Empty => "(D.succeed ())",
        AtomType::Str => "D.string",
        AtomType::I32 => "D.int",
        AtomType::U32 => "D.int",
        AtomType::U8 => "D.int",
        AtomType::F64 => "D.float",
        AtomType::Bool => "D.bool",
        AtomType::DateTime => "Iso8601.decoder",
        AtomType::Date => "dateDecoder",
        AtomType::Uuid => "uuidDecoder",
        AtomType::Bytes => "bytesDecoder",
    };
    String::from_str(s)
}

/// Render the decoder of a type identifier; a map whose key type is not the
/// string atom is a fatal configuration error.
pub fn generate_type_decoder(type_ident: &TypeIdent) -> (r: Result<String, LibError>)
    ensures
        match r {
            Ok(s) => first_bad_key(type_ident@) is None && s@ == type_decoder_text(type_ident@),
            Err(e) => first_bad_key(type_ident@) matches Some(bad) && map_key_err(e, bad),
        },
    decreases type_ident,
{
    match type_ident {
        TypeIdent::BuiltIn(atom) => Ok(generate_atom_decoder(atom)),
        TypeIdent::List(inner) => {
            match generate_type_decoder(inner) {
                Ok(d) => {
                    let mut r = String::from_str("D.list ");
                    r.append(to_atom(d).as_str());
                    proof {
                        assert(r@ =~= type_decoder_text(type_ident@));
                    }
                    Ok(r)
                },
                Err(e) => Err(e),
            }
        },
        TypeIdent::Option(inner) => {
            match generate_type_decoder(inner) {
                Ok(d) => {
                    let mut r = String::from_str("D.maybe ");
                    r.append(to_atom(d).as_str());
                    proof {
                        assert(r@ =~= type_decoder_text(type_ident@));
                    }
                    Ok(r)
                },
                Err(e) => Err(e),
            }
        },
        TypeIdent::Result(ok, err) => {
            let ok_dec = match generate_type_decoder(ok) {
                Ok(d) => d,
                Err(e) => {
                    return Err(e);
                },
            };
            let err_dec = match generate_type_decoder(err) {
                Ok(d) => d,
                Err(e) => {
                    return Err(e);
                },
            };
            let mut r = String::from_str("resultDecoder ");
            r.append(to_atom(err_dec).as_str());
            r.append(" ");
            r.append(to_atom(ok_dec).as_str());
            proof {
                assert(r@ =~= type_decoder_text(type_ident@));
            }
            Ok(r)
        },
        TypeIdent::Dict(key, value) => {
            let key_is_str = match &**key {
                TypeIdent::BuiltIn(AtomType::Str) => true,
                _ => false,
            };
            if !key_is_str {
                let ktext = generate_type_ident(key);
                return Err(LibError::MapKeyMustBeString { key: ktext });
            }
            match generate_type_decoder(value) {
                Ok(d) => {
                    let mut r = String::from_str("D.dict ");
                    r.append(to_atom(d).as_str());
                    proof {
                        assert(r@ =~= type_decoder_text(type_ident@));
                    }
                    Ok(r)
                },
                Err(e) => Err(e),
            }
        },
        TypeIdent::Tuple(tdef) => generate_tuple_decoder(tdef),
        TypeIdent::UserDefined(ident) => Ok(decoder_name(ident.as_str())),
    }
}

/// Render the pipeline that decodes tuple components by index.
pub fn generate_components_by_index_pipeline(tuple: &TupleDef) -> (r: Result<String, LibError>)
    ensures
        match r {
            Ok(s) => first_bad_key_seq(tuple@, 0) is None && s@ == components_by_index_text(
                tuple@,
            ),
            Err(e) => first_bad_key_seq(tuple@, 0) matches Some(bad) && map_key_err(e, bad),
        },
    decreases tuple, 0int,
{
    let ghost ts = tuple@;
    let n = tuple.0.len();
    let mut parts: Vec<String> = Vec::new();
    proof {
        lemma_tuple_elem_views(*tuple, 0);
    }
    for i in 0..n
        invariant
            n == tuple.0.len(),
            ts == tuple@,
            ts.len() == n,
            forall|k: int| 0 <= k < n ==> ts[k] == tuple.0[k]@,
            parts.len() == i,
            first_bad_key_seq(ts, 0) == first_bad_key_seq(ts, i as int),
            forall|k: int|
                0 <= k < i ==> parts[k]@ == "|> requiredIdx "@ + nat_text(k as nat) + " "@
                    + atomize(type_decoder_text(ts[k])),
    {
        let dec = match generate_type_decoder(&tuple.0[i]) {
            Ok(d) => d,
            Err(e) => {
                proof {
                    assert(first_bad_key_seq(ts, i as int) == first_bad_key(ts[i as int]));
                }
                return Err(e);
            },
        };
        let mut part = String::from_str("|> requiredIdx ");
        part.append(usize_text(i).as_str());
        part.append(" ");
        part.append(to_atom(dec).as_str());
        parts.push(part);
    }
    let joined = join_strings(&parts, " ");
    proof {
        lemma_component_decoder_texts(ts, 0);
        assert(string_views(parts@) =~= component_decoder_texts_from(ts, 0));
    }
    Ok(joined)
}

/// Pointwise characterization of `component_decoder_texts_from`.
proof fn lemma_component_decoder_texts(ts: Seq<TypeV>, k: int)
    requires
        0 <= k <= ts.len(),
    ensures
        component_decoder_texts_from(ts, k).len() == ts.len() - k,
        forall|i: int|
            0 <= i < ts.len() - k ==> component_decoder_texts_from(ts, k)[i] == "|> requiredIdx "@
                + nat_text((k + i) as nat) + " "@ + atomize(type_decoder_text(ts[k + i])),
    decreases ts.len() - k,
{
    if k < ts.len() {
        lemma_component_decoder_texts(ts, k + 1);
    }
}

/// Render the decoder of a tuple type.
pub fn generate_tuple_decoder(tdef: &TupleDef) -> (r: Result<String, LibError>)
    ensures
        match r {
            Ok(s) => first_bad_key_seq(tdef@, 0) is None && s@ == tuple_decoder_text(tdef@)
                && first_bad_key(TypeV::Tuple(tdef@)) is None,
            Err(e) => first_bad_key_seq(tdef@, 0) matches Some(bad) && map_key_err(e, bad),
        },
    decreases tdef, 1int,
{
    let pipeline = match generate_components_by_index_pipeline(tdef) {
        Ok(p) => p,
        Err(e) => {
            return Err(e);
        },
    };
    let len = tdef.0.len();
    let parts = make_xparts(len);
    let from = join_strings(&parts, " ");
    let to = join_strings(&parts, ", ");
    let mut r = String::from_str("D.succeed (\\");
    r.append(from.as_str());
    r.append(" -> (");
    r.append(to.as_str());
    r.append(")) ");
    r.append(pipeline.as_str());
    proof {
        lemma_tuple_elem_views(*tdef, 0);
        assert(r@ =~= tuple_decoder_text(tdef@));
    }
    Ok(r)
}

/// Render the decoder pipeline entry of one field, keyed by the field's
/// declared wire name.
pub fn generate_field_decoder(field: &FieldNode) -> (r: Result<String, LibError>)
    requires
        field@.pair is Field,
    ensures
        match r {
            Ok(s) => field_first_bad(field@) is None && s@ == field_decoder_text(field@),
            Err(e) => field_first_bad(field@) matches Some(bad) && map_key_err(e, bad),
        },
{
    match &field.pair {
        FieldDefPair::Field { name, type_ident } => {
            let dec = match generate_type_decoder(type_ident) {
                Ok(d) => d,
                Err(e) => {
                    return Err(e);
                },
            };
            let mut r = String::from_str("|> required \"");
            r.append(name.as_str());
            r.append("\" ");
            r.append(to_atom(dec).as_str());
            proof {
                assert(r@ =~= field_decoder_text(field@));
            }
            Ok(r)
        },
        FieldDefPair::Embed { .. } => {
            proof {
                assert(false);
            }
            Ok(String::new())
        },
    }
}

/// Build the decoder pipeline entries of a resolved field list.
fn generate_field_decoder_parts(fields: &Vec<FieldNode>) -> (r: Result<Vec<String>, LibError>)
    requires
        fields_resolved(crate::ast::field_nodes_view(fields@)),
    ensures
        match r {
            Ok(parts) => fields_first_bad_from(crate::ast::field_nodes_view(fields@), 0) is None
                && string_views(parts@) == field_decoder_texts_from(
                crate::ast::field_nodes_view(fields@),
                0,
            ),
            Err(e) => fields_first_bad_from(crate::ast::field_nodes_view(fields@), 0) matches Some(
                bad,
            ) && map_key_err(e, bad),
        },
{
    let ghost fv = crate::ast::field_nodes_view(fields@);
    let n = fields.len();
    let mut parts: Vec<String> = Vec::new();
    for i in 0..n
        invariant
            n == fields.len(),
            fv == crate::ast::field_nodes_view(fields@),
            fv.len() == n,
            fields_resolved(fv),
            forall|k: int| 0 <= k < n ==> fv[k] == fields[k]@,
            parts.len() == i,
            fields_first_bad_from(fv, 0) == fields_first_bad_from(fv, i as int),
            forall|k: int| 0 <= k < i ==> parts[k]@ == field_decoder_text(fv[k]),
    {
        let part = match generate_field_decoder(&fields[i]) {
            Ok(p) => p,
            Err(e) => {
                proof {
                    assert(fields_first_bad_from(fv, i as int) == field_first_bad(fv[i as int]));
                }
                return Err(e);
            },
        };
        proof {
            assert(field_first_bad(fv[i as int]) is None);
            assert(fields_first_bad_from(fv, i as int) == fields_first_bad_from(fv, i + 1));
        }
        parts.push(part);
    }
    proof {
        lemma_field_decoder_texts(fv, 0);
        assert(string_views(parts@) =~= field_decoder_texts_from(fv, 0));
    }
    Ok(parts)
}

/// Pointwise characterization of `field_decoder_texts_from`.
pub proof fn lemma_field_decoder_texts(fields: Seq<FieldV>, k: int)
    requires
        0 <= k <= fields.len(),
    ensures
        field_decoder_texts_from(fields, k).len() == fields.len() - k,
        forall|i: int|
            0 <= i < fields.len() - k ==> field_decoder_texts_from(fields, k)[i]
                == field_decoder_text(fields[k + i]),
    decreases fields.len() - k,
{
    if k < fields.len() {
        lemma_field_decoder_texts(fields, k + 1);
    }
}

/// Render the decoder of a struct.
pub fn generate_struct_decoder(sdef: &StructDef) -> (r: Result<String, LibError>)
    requires
        fields_resolved(sdef.fields@),
    ensures
        match r {
            Ok(s) => fields_first_bad_from(sdef@.fields, 0) is None && s@ == struct_decoder_text(
                sdef@,
            ),
            Err(e) => fields_first_bad_from(sdef@.fields, 0) matches Some(bad) && map_key_err(
                e,
                bad,
            ),
        },
{
    let parts = match generate_field_decoder_parts(&sdef.fields.0) {
        Ok(p) => p,
        Err(e) => {
            return Err(e);
        },
    };
    let joined = join_strings(&parts, "\n        ");
    let dec = decoder_name(sdef.name.as_str());
    let mut r = String::from_str(dec.as_str());
    r.append(" : D.Decoder ");
    r.append(sdef.name.as_str());
    r.append(" \n");
    r.append(dec.as_str());
    r.append(" =\n   D.succeed ");
    r.append(sdef.name.as_str());
    r.append("\n        ");
    r.append(joined.as_str());
    proof {
        assert(r@ =~= struct_decoder_text(sdef@));
    }
    Ok(r)
}

/// Render the string-lookup helper of an enum: it maps each simple variant's
/// bare wire name back to the variant, and anything else to nothing.
pub fn generate_enum_helpers(edef: &EnumDef) -> (r: String)
    ensures
        r@ == enum_helpers_text(edef@),
{
    let ghost vs = edef@.variants;
    let n = edef.variants.len();
    let mut parts: Vec<String> = Vec::new();
    for i in 0..n
        invariant
            n == edef.variants.len(),
            vs == edef@.variants,
            vs.len() == n,
            forall|k: int| 0 <= k < n ==> vs[k] == edef.variants[k]@,
            string_views(parts@) + simple_helper_lines_from(vs, i as int)
                == simple_helper_lines_from(vs, 0),
    {
        match &edef.variants[i].variant_type {
            VariantType::Simple => {
                let mut line = String::from_str("  \"");
                line.append(edef.variants[i].name.as_str());
                line.append("\" -> Just ");
                line.append(edef.variants[i].name.as_str());
                parts.push(line);
                proof {
                    assert(string_views(parts@) + simple_helper_lines_from(vs, i + 1)
                        =~= simple_helper_lines_from(vs, 0));
                }
            },
            _ => {
                proof {
                    assert(simple_helper_lines_from(vs, i as int) == simple_helper_lines_from(
                        vs,
                        i + 1,
                    ));
                }
            },
        }
    }
    proof {
        assert(simple_helper_lines_from(vs, n as int) =~= Seq::<Seq<char>>::empty());
        assert(string_views(parts@) =~= simple_helper_lines_from(vs, 0));
    }
    let joined = join_strings(&parts, "\n\n");
    let fname = enum_string_decoder_name(edef.name.as_str());
    let mut r = String::from_str(fname.as_str());
    r.append(" : String -> Maybe ");
    r.append(edef.name.as_str());
    r.append("\n");
    r.append(fname.as_str());
    r.append(" s = case s of \n");
    r.append(joined.as_str());
    r.append("\n");
    r.append("  ");
    r.append("_ -> Nothing\n");
    proof {
        assert(r@ =~= enum_helpers_text(edef@));
    }
    r
}

/// Render the decoder of one non-simple variant's payload.
pub fn generate_variant_decoder(variant: &VariantDef) -> (r: Result<String, LibError>)
    requires
        !(variant@.variant_type is Simple),
        variant_resolved(variant@),
    ensures
        match r {
            Ok(s) => variant_first_bad(variant@) is None && s@ == variant_decoder_text(variant@),
            Err(e) => variant_first_bad(variant@) matches Some(bad) && map_key_err(e, bad),
        },
{
    match &variant.variant_type {
        VariantType::Simple => {
            proof {
                assert(false);
            }
            Ok(String::new())
        },
        VariantType::Tuple(components) => {
            let pipeline = match generate_components_by_index_pipeline(components) {
                Ok(p) => p,
                Err(e) => {
                    return Err(e);
                },
            };
            let mut r = String::from_str("D.succeed ");
            r.append(variant.name.as_str());
            r.append(" ");
            r.append(pipeline.as_str());
            proof {
                assert(r@ =~= variant_decoder_text(variant@));
            }
            Ok(r)
        },
        VariantType::Struct(fields) => {
            let parts = match generate_field_decoder_parts(&fields.0) {
                Ok(p) => p,
                Err(e) => {
                    return Err(e);
                },
            };
            let joined = join_strings(&parts, " ");
            let mut r = String::from_str("D.succeed ");
            r.append(variant.name.as_str());
            r.append(" ");
            r.append(joined.as_str());
            proof {
                assert(r@ =~= variant_decoder_text(variant@));
            }
            Ok(r)
        },
        VariantType::Newtype(ty) => {
            let dec = match generate_type_decoder(ty) {
                Ok(d) => d,
                Err(e) => {
                    return Err(e);
                },
            };
            let mut r = String::from_str("D.map ");
            r.append(variant.name.as_str());
            r.append(" ");
            r.append(to_atom(dec).as_str());
            proof {
                assert(r@ =~= variant_decoder_text(variant@));
            }
            Ok(r)
        },
    }
}

/// Render the decoder of an enum: the bare-string alternative when simple
/// variants exist, then every non-simple variant's keyed-object alternative
/// in declaration order.
pub fn generate_enum_decoder(edef: &EnumDef) -> (r: Result<String, LibError>)
    requires
        variants_resolved(edef@.variants),
    ensures
        match r {
            Ok(s) => variants_first_bad_from(edef@.variants, 0) is None && s@ == enum_decoder_text(
                edef@,
            ),
            Err(e) => variants_first_bad_from(edef@.variants, 0) matches Some(bad) && map_key_err(
                e,
                bad,
            ),
        },
{
    let ghost vs = edef@.variants;
    let n = edef.variants.len();
    let mut any_simple = false;
    let mut any_complex = false;
    for i in 0..n
        invariant
            n == edef.variants.len(),
            vs == edef@.variants,
            vs.len() == n,
            forall|k: int| 0 <= k < n ==> vs[k] == edef.variants[k]@,
            !any_simple ==> forall|t: int| 0 <= t < i ==> !(vs[t].variant_type is Simple),
            any_simple ==> has_simple(vs),
            !any_complex ==> forall|t: int| 0 <= t < i ==> vs[t].variant_type is Simple,
            any_complex ==> has_complex(vs),
    {
        match &edef.variants[i].variant_type {
            VariantType::Simple => {
                proof {
                    assert(vs[i as int].variant_type is Simple);
                }
                any_simple = true;
            },
            _ => {
                proof {
                    assert(!(vs[i as int].variant_type is Simple));
                }
                any_complex = true;
            },
        }
    }
    proof {
        assert(any_simple == has_simple(vs));
        assert(any_complex == has_complex(vs));
    }
    let mut alts: Vec<String> = Vec::new();
    for i in 0..n
        invariant
            n == edef.variants.len(),
            vs == edef@.variants,
            vs.len() == n,
            variants_resolved(vs),
            forall|k: int| 0 <= k < n ==> vs[k] == edef.variants[k]@,
            variants_first_bad_from(vs, 0) == variants_first_bad_from(vs, i as int),
            string_views(alts@) + complex_alt_texts_from(vs, i as int) == complex_alt_texts_from(
                vs,
                0,
            ),
    {
        match &edef.variants[i].variant_type {
            VariantType::Simple => {
                proof {
                    assert(complex_alt_texts_from(vs, i as int) == complex_alt_texts_from(
                        vs,
                        i + 1,
                    ));
                    assert(variant_first_bad(vs[i as int]) is None);
                }
            },
            _ => {
                let dec = match generate_variant_decoder(&edef.variants[i]) {
                    Ok(d) => d,
                    Err(e) => {
                        proof {
                            assert(variants_first_bad_from(vs, i as int) == variant_first_bad(
                                vs[i as int],
                            ));
                        }
                        return Err(e);
                    },
                };
                let mut alt = String::from_str("D.field \"");
                alt.append(edef.variants[i].name.as_str());
                alt.append("\" ");
                alt.append(to_atom(dec).as_str());
                alts.push(alt);
                proof {
                    assert(string_views(alts@) + complex_alt_texts_from(vs, i + 1)
                        =~= complex_alt_texts_from(vs, 0));
                }
            },
        }
    }
    proof {
        assert(complex_alt_texts_from(vs, n as int) =~= Seq::<Seq<char>>::empty());
        assert(string_views(alts@) =~= complex_alt_texts_from(vs, 0));
    }
    let joined = join_strings(&alts, "\n        ,");
    let dec = decoder_name(edef.name.as_str());
    let mut r = String::from_str(dec.as_str());
    r.append(" : D.Decoder ");
    r.append(edef.name.as_str());
    r.append("\n");
    r.append(dec.as_str());
    r.append(" =\n    D.oneOf\n        [");
    if any_simple {
        let parser = enum_string_decoder_name(edef.name.as_str());
        r.append("unwrapDecoder (D.map ");
        r.append(parser.as_str());
        r.append(" D.string)");
        if any_complex {
            r.append("\n        ,");
        }
    }
    r.append(" ");
    r.append(joined.as_str());
    r.append("\n        ]");
    proof {
        assert(r@ =~= enum_decoder_text(edef@));
    }
    Ok(r)
}

/// Render the decoders of every struct and enum of a resolved schema, in
/// schema order, separated by two blank lines; services contribute nothing.
pub fn generate_type_decoders(spec: &Spec) -> (r: Result<String, LibError>)
    requires
        schema_resolved(spec@),
    ensures
        match r {
            Ok(s) => schema_first_bad_from(spec@, 0) is None && s@ == type_decoders_text(spec@),
            Err(e) => schema_first_bad_from(spec@, 0) matches Some(bad) && map_key_err(e, bad),
        },
{
    let ghost items = spec@;
    let n = spec.0.len();
    let mut parts: Vec<String> = Vec::new();
    for idx in 0..n
        invariant
            n == spec.0.len(),
            items == spec@,
            items.len() == n,
            schema_resolved(items),
            forall|k: int| 0 <= k < n ==> items[k] == spec.0[k]@,
            schema_first_bad_from(items, 0) == schema_first_bad_from(items, idx as int),
            string_views(parts@) + decoder_texts_from(items, idx as int) == decoder_texts_from(
                items,
                0,
            ),
    {
        match &spec.0[idx] {
            SpecItem::StructDef(sdef) => {
                proof {
                    assert(items[idx as int] == ItemV::Struct(sdef@));
                    assert(item_resolved(items[idx as int]));
                }
                let dec = match generate_struct_decoder(sdef) {
                    Ok(d) => d,
                    Err(e) => {
                        proof {
                            assert(schema_first_bad_from(items, idx as int) == item_first_bad(
                                items[idx as int],
                            ));
                        }
                        return Err(e);
                    },
                };
                parts.push(dec);
                proof {
                    assert(string_views(parts@) + decoder_texts_from(items, idx + 1)
                        =~= decoder_texts_from(items, 0));
                }
            },
            SpecItem::EnumDef(edef) => {
                proof {
                    assert(items[idx as int] == ItemV::Enum(edef@));
                    assert(item_resolved(items[idx as int]));
                }
                let dec = match generate_enum_decoder(edef) {
                    Ok(d) => d,
                    Err(e) => {
                        proof {
                            assert(schema_first_bad_from(items, idx as int) == item_first_bad(
                                items[idx as int],
                            ));
                        }
                        return Err(e);
                    },
                };
                parts.push(dec);
                proof {
                    assert(string_views(parts@) + decoder_texts_from(items, idx + 1)
                        =~= decoder_texts_from(items, 0));
                }
            },
            SpecItem::ServiceDef(_) => {
                proof {
                    assert(decoder_texts_from(items, idx as int) == decoder_texts_from(
                        items,
                        idx + 1,
                    ));
                }
            },
        }
    }
    proof {
        assert(decoder_texts_from(items, n as int) =~= Seq::<Seq<char>>::empty());
        assert(string_views(parts@) =~= decoder_texts_from(items, 0));
    }
    Ok(join_strings(&parts, "\n\n\n"))
}

/// Render the string-lookup helpers of every enum of the schema, in schema
/// order; structs and services contribute nothing.
pub fn generate_rest_api_client_helpers(spec: &Spec) -> (r: String)
    ensures
        r@ == rest_helpers_from(spec@, 0),
{
    let ghost items = spec@;
    let n = spec.0.len();
    let mut out = String::new();
    for idx in 0..n
        invariant
            n == spec.0.len(),
            items == spec@,
            items.len() == n,
            forall|k: int| 0 <= k < n ==> items[k] == spec.0[k]@,
            out@ + rest_helpers_from(items, idx as int) == rest_helpers_from(items, 0),
    {
        match &spec.0[idx] {
            SpecItem::EnumDef(edef) => {
                let helper = generate_enum_helpers(edef);
                out.append(helper.as_str());
                proof {
                    assert(out@ + rest_helpers_from(items, idx + 1) =~= rest_helpers_from(
                        items,
                        0,
                    ));
                }
            },
            _ => {
                proof {
                    assert(rest_helpers_from(items, idx as int) == rest_helpers_from(
                        items,
                        idx + 1,
                    ));
                }
            },
        }
    }
    proof {
        assert(rest_helpers_from(items, n as int) =~= Seq::<char>::empty());
        assert(out@ =~= rest_helpers_from(items, 0));
    }
    out
}

} // verus!
