//! Elm backend: type declarations for a resolved schema, and the backend's
//! construction-time and pre-flight checks.

use vstd::prelude::*;

use crate::ast::{
    AtomType, FieldDefPair, FieldNode, FieldPairV, FieldV, ItemV, Spec, SpecItem, StructDef,
    StructFields, EnumDef, TupleDef, TypeIdent, TypeV, VariantDef, VariantType, VariantTypeV,
    VariantV, StructV, EnumV, doc_view, fields_resolved, variant_resolved, variants_resolved,
    pair_name,
    item_resolved, schema_resolved, lemma_tuple_elem_views,
};
use crate::emit::{IndentWriter, blank_lines_text, newline_text};
use crate::text::{atomize, camel_of, join_text, join_strings, string_views, to_camel_case_str};
use crate::{Artifact, LibError};

verus! {

/// The name this backend reports in configuration errors.
pub const BACKEND_NAME: &'static str = "elm";

// ---------------------------------------------------------------------------
// Type rendering
// ---------------------------------------------------------------------------

/// The rendering of an atomic type.
pub open spec fn atom_text(a: AtomType) -> Seq<char> {
    match a {
        AtomType::Empty => "()"@,
        AtomType::Str => "String"@,
        AtomType::I32 => "Int"@,
        AtomType::U32 => "Int"@,
        AtomType::U8 => "Int"@,
        AtomType::F64 => "Float"@,
        AtomType::Bool => "Bool"@,
        AtomType::DateTime => "Time.Posix"@,
        AtomType::Date => "Date.Date"@,
        AtomType::Uuid => "String"@,
        AtomType::Bytes => "String"@,
    }
}

/// The rendering of a type identifier.
pub open spec fn type_ident_text(t: TypeV) -> Seq<char>
    decreases t,
{
    match t {
        TypeV::BuiltIn(a) => atom_text(a),
        TypeV::List(inner) => "List "@ + atomize(type_ident_text(*inner)),
        TypeV::Option(inner) => "Maybe "@ + atomize(type_ident_text(*inner)),
        TypeV::Result(ok, err) => "Result "@ + atomize(type_ident_text(*err)) + " "@ + atomize(
            type_ident_text(*ok),
        ),
        TypeV::Dict(key, value) => "Dict "@ + atomize(type_ident_text(*key)) + " "@ + atomize(
            type_ident_text(*value),
        ),
        TypeV::Tuple(ts) => tuple_def_text(ts),
        TypeV::UserDefined(n) => n,
    }
}

/// The renderings of the component types from position `k` on.
pub open spec fn type_texts_from(ts: Seq<TypeV>, k: int) -> Seq<Seq<char>>
    decreases ts, ts.len() - k,
{
    if k < 0 || k >= ts.len() {
        Seq::empty()
    } else {
        seq![type_ident_text(ts[k])] + type_texts_from(ts, k + 1)
    }
}

/// The rendering of a tuple type.
pub open spec fn tuple_def_text(ts: Seq<TypeV>) -> Seq<char>
    decreases ts, ts.len() + 1,
{
    "("@ + join_text(type_texts_from(ts, 0), ", "@) + ")"@
}

/// Pointwise characterization of `type_texts_from`.
pub proof fn lemma_type_texts_from(ts: Seq<TypeV>, k: int)
    requires
        0 <= k <= ts.len(),
    ensures
        type_texts_from(ts, k).len() == ts.len() - k,
        forall|i: int|
            0 <= i < ts.len() - k ==> type_texts_from(ts, k)[i] == type_ident_text(ts[k + i]),
    decreases ts.len() - k,
{
    if k < ts.len() {
        lemma_type_texts_from(ts, k + 1);
    }
}

/// Render an atomic type.
pub fn generate_atom(atom: &AtomType) -> (r: String)
    ensures
        r@ == atom_text(*atom),
{
    let s = match atom {
        AtomType::Empty => "()",
        AtomType::Str => "String",
        AtomType::I32 => "Int",
        AtomType::U32 => "Int",
        AtomType::U8 => "Int",
        AtomType::F64 => "Float",
        AtomType::Bool => "Bool",
        AtomType::DateTime => "Time.Posix",
        AtomType::Date => "Date.Date",
        AtomType::Uuid => "String",
        AtomType::Bytes => "String",
    };
    String::from_str(s)
}

/// Wrap a rendering in parentheses if it contains a space, to keep it atomic
/// in prefix syntax.
pub fn to_atom(s: String) -> (r: String)
    ensures
        r@ == atomize(s@),
{
    let n = s.as_str().unicode_len();
    let mut found = false;
    for i in 0..n
        invariant
            n == s@.len(),
            found == exists|t: int| 0 <= t < i && s@[t] == ' ',
    {
        if s.as_str().get_char(i) == ' ' {
            found = true;
        }
    }
    if found {
        let mut r = String::from_str("(");
        r.append(s.as_str());
        r.append(")");
        proof {
            assert(crate::text::has_space(s@));
            assert(r@ =~= atomize(s@));
        }
        r
    } else {
        proof {
            assert(!crate::text::has_space(s@));
        }
        s
    }
}

/// Render a type identifier.
pub fn generate_type_ident(type_ident: &TypeIdent) -> (r: String)
    ensures
        r@ == type_ident_text(type_ident@),
    decreases type_ident,
{
    match type_ident {
        TypeIdent::BuiltIn(atom) => generate_atom(atom),
        TypeIdent::List(inner) => {
            let mut r = String::from_str("List ");
            r.append(to_atom(generate_type_ident(inner)).as_str());
            proof {
                assert(r@ =~= type_ident_text(type_ident@));
            }
            r
        },
        TypeIdent::Option(inner) => {
            let mut r = String::from_str("Maybe ");
            r.append(to_atom(generate_type_ident(inner)).as_str());
            proof {
                assert(r@ =~= type_ident_text(type_ident@));
            }
            r
        },
        TypeIdent::Result(ok, err) => {
            let mut r = String::from_str("Result ");
            r.append(to_atom(generate_type_ident(err)).as_str());
            r.append(" ");
            r.append(to_atom(generate_type_ident(ok)).as_str());
            proof {
                assert(r@ =~= type_ident_text(type_ident@));
            }
            r
        },
        TypeIdent::Dict(key, value) => {
            let mut r = String::from_str("Dict ");
            r.append(to_atom(generate_type_ident(key)).as_str());
            r.append(" ");
            r.append(to_atom(generate_type_ident(value)).as_str());
            proof {
                assert(r@ =~= type_ident_text(type_ident@));
            }
            r
        },
        TypeIdent::Tuple(tdef) => generate_tuple_def(tdef),
        TypeIdent::UserDefined(ident) => ident.clone(),
    }
}

/// Render a tuple type.
pub fn generate_tuple_def(tdef: &TupleDef) -> (r: String)
    ensures
        r@ == tuple_def_text(tdef@),
    decreases tdef,
{
    let n = tdef.0.len();
    let mut parts: Vec<String> = Vec::new();
    for i in 0..n
        invariant
            n == tdef.0.len(),
            parts.len() == i,
            forall|k: int| 0 <= k < i ==> parts[k]@ == type_ident_text(tdef.0[k]@),
    {
        parts.push(generate_type_ident(&tdef.0[i]));
    }
    let joined = join_strings(&parts, ", ");
    let mut r = String::from_str("(");
    r.append(joined.as_str());
    r.append(")");
    proof {
        lemma_type_texts_from(tdef@, 0);
        lemma_tuple_elem_views(*tdef, 0);
        assert(string_views(parts@) =~= type_texts_from(tdef@, 0));
        assert(r@ =~= tuple_def_text(tdef@));
    }
    r
}

/// Derive a record field identifier from a declared field name.
pub fn field_name(ident: &str) -> (r: String)
    ensures
        r@ == camel_of(ident@),
{
    to_camel_case_str(ident)
}

// ---------------------------------------------------------------------------
// Declarations
// ---------------------------------------------------------------------------

/// The rendering of an optional doc string: a leading block comment, or
/// nothing.
pub open spec fn doc_comment_text(doc: Option<Seq<char>>) -> Seq<char> {
    match doc {
        Some(ds) => "{-| "@ + ds + "\n-}\n"@,
        None => Seq::empty(),
    }
}

/// Render a doc string, or an empty string if there is none.
pub fn generate_doc_comment(doc_comment: &Option<String>) -> (r: String)
    ensures
        r@ == doc_comment_text(doc_view(doc_comment)),
{
    match doc_comment {
        Some(ds) => {
            let mut r = String::from_str("{-| ");
            r.append(ds.as_str());
            r.append("\n-}\n");
            proof {
                assert(r@ =~= doc_comment_text(doc_view(doc_comment)));
            }
            r
        },
        None => String::new(),
    }
}

/// The bulleted line a documented field contributes to its type's leading
/// comment; the target syntax has no per-field documentation, so field docs
/// are folded into that single comment and never duplicated elsewhere.
pub open spec fn field_doc_bullet(f: FieldV) -> Seq<char> {
    match f.doc_comment {
        Some(d) => "\n- "@ + pair_name(f.pair) + ": "@ + d,
        None => Seq::empty(),
    }
}

/// The bulleted lines of the documented fields from position `k` on.
pub open spec fn field_doc_bullets_from(fields: Seq<FieldV>, k: int) -> Seq<char>
    decreases fields.len() - k,
{
    if k < 0 || k >= fields.len() {
        Seq::empty()
    } else {
        field_doc_bullet(fields[k]) + field_doc_bullets_from(fields, k + 1)
    }
}

/// The bulleted line a documented variant contributes to its enum's leading
/// comment.
pub open spec fn variant_doc_bullet(v: VariantV) -> Seq<char> {
    match v.doc_comment {
        Some(d) => "\n- "@ + v.name + ": "@ + d,
        None => Seq::empty(),
    }
}

/// The bulleted lines of the documented variants from position `k` on.
pub open spec fn variant_doc_bullets_from(vs: Seq<VariantV>, k: int) -> Seq<char>
    decreases vs.len() - k,
{
    if k < 0 || k >= vs.len() {
        Seq::empty()
    } else {
        variant_doc_bullet(vs[k]) + variant_doc_bullets_from(vs, k + 1)
    }
}

/// A type's own doc string with the member bullets folded in: nothing when
/// both are absent, otherwise one combined comment body.
pub open spec fn merged_doc(doc: Option<Seq<char>>, bullets: Seq<char>) -> Option<Seq<char>> {
    if bullets.len() == 0 {
        doc
    } else {
        match doc {
            Some(d) => Some(d + bullets),
            None => Some(bullets),
        }
    }
}

/// Collect the bulleted lines of a field list's documented fields.
fn collect_field_doc_bullets(fields: &StructFields) -> (r: String)
    ensures
        r@ == field_doc_bullets_from(fields@, 0),
{
    let mut out = String::new();
    let n = fields.0.len();
    for i in 0..n
        invariant
            n == fields.0.len(),
            fields@.len() == n,
            out@ + field_doc_bullets_from(fields@, i as int) == field_doc_bullets_from(
                fields@,
                0,
            ),
    {
        match &fields.0[i].doc_comment {
            Some(d) => {
                out.append("\n- ");
                out.append(fields.0[i].pair.name().as_str());
                out.append(": ");
                out.append(d.as_str());
                proof {
                    assert(out@ + field_doc_bullets_from(fields@, i + 1)
                        =~= field_doc_bullets_from(fields@, 0));
                }
            },
            None => {
                proof {
                    assert(field_doc_bullet(fields@[i as int]) =~= Seq::<char>::empty());
                    assert(field_doc_bullets_from(fields@, i as int) =~= field_doc_bullets_from(
                        fields@,
                        i + 1,
                    ));
                }
            },
        }
    }
    proof {
        assert(field_doc_bullets_from(fields@, n as int) =~= Seq::<char>::empty());
        assert(out@ =~= field_doc_bullets_from(fields@, 0));
    }
    out
}

/// Collect the bulleted lines of an enum's documented variants.
fn collect_variant_doc_bullets(variants: &Vec<VariantDef>) -> (r: String)
    ensures
        r@ == variant_doc_bullets_from(crate::ast::variant_defs_view(variants@), 0),
{
    let ghost vs = crate::ast::variant_defs_view(variants@);
    let mut out = String::new();
    let n = variants.len();
    for i in 0..n
        invariant
            n == variants.len(),
            vs == crate::ast::variant_defs_view(variants@),
            vs.len() == n,
            forall|k: int| 0 <= k < n ==> vs[k] == variants[k]@,
            out@ + variant_doc_bullets_from(vs, i as int) == variant_doc_bullets_from(vs, 0),
    {
        match &variants[i].doc_comment {
            Some(d) => {
                out.append("\n- ");
                out.append(variants[i].name.as_str());
                out.append(": ");
                out.append(d.as_str());
                proof {
                    assert(out@ + variant_doc_bullets_from(vs, i + 1) =~= variant_doc_bullets_from(
                        vs,
                        0,
                    ));
                }
            },
            None => {
                proof {
                    assert(variant_doc_bullet(vs[i as int]) =~= Seq::<char>::empty());
                    assert(variant_doc_bullets_from(vs, i as int) =~= variant_doc_bullets_from(
                        vs,
                        i + 1,
                    ));
                }
            },
        }
    }
    proof {
        assert(variant_doc_bullets_from(vs, n as int) =~= Seq::<char>::empty());
        assert(out@ =~= variant_doc_bullets_from(vs, 0));
    }
    out
}

/// Render a type-level doc string with member bullets folded in.
fn generate_merged_doc(doc_comment: &Option<String>, bullets: String) -> (r: String)
    ensures
        r@ == doc_comment_text(merged_doc(doc_view(doc_comment), bullets@)),
{
    if bullets.as_str().unicode_len() == 0 {
        generate_doc_comment(doc_comment)
    } else {
        let mut m = match doc_comment {
            Some(d) => d.clone(),
            None => String::new(),
        };
        m.append(bullets.as_str());
        proof {
            assert(m@ =~= merged_doc(doc_view(doc_comment), bullets@)->Some_0);
        }
        let merged = Some(m);
        let r = generate_doc_comment(&merged);
        proof {
            assert(doc_view(&merged) == merged_doc(doc_view(doc_comment), bullets@));
        }
        r
    }
}

/// The record entry of one resolved field: its identifier and its type.
pub open spec fn field_decl_entry(f: FieldV) -> Seq<char> {
    match f.pair {
        FieldPairV::Field { name, type_ident } => camel_of(name) + ": "@ + type_ident_text(
            type_ident,
        ),
        FieldPairV::Embed { name } => camel_of(name) + ": "@,
    }
}

/// One record line: a fresh line at the given level, the opening or
/// continuing delimiter, and the field's entry.
pub open spec fn field_line(f: FieldV, lvl: nat, first: bool) -> Seq<char> {
    newline_text(lvl) + (if first {
        "{ "@
    } else {
        ", "@
    }) + field_decl_entry(f)
}

/// The record lines of the fields from position `k` on.
pub open spec fn field_lines_from(fields: Seq<FieldV>, lvl: nat, k: int) -> Seq<char>
    decreases fields.len() - k,
{
    if k < 0 || k >= fields.len() {
        Seq::empty()
    } else {
        field_line(fields[k], lvl, k == 0) + field_lines_from(fields, lvl, k + 1)
    }
}

/// A whole record block at the given line level, closed on its own line.
pub open spec fn struct_fields_text(fields: Seq<FieldV>, lvl: nat) -> Seq<char> {
    field_lines_from(fields, lvl, 0) + newline_text(lvl) + "}"@
}

/// Render one struct field as a record line.
fn generate_struct_field(field: &FieldNode, first: bool, file: &mut IndentWriter)
    requires
        field@.pair is Field,
    ensures
        final(file).text() == old(file).text() + field_line(field@, old(file).level(), first),
        final(file).level() == old(file).level(),
{
    match &field.pair {
        FieldDefPair::Field { name, type_ident } => {
            file.start_line();
            if first {
                file.write_str("{ ");
            } else {
                file.write_str(", ");
            }
            let fname = field_name(name.as_str());
            file.write_str(fname.as_str());
            file.write_str(": ");
            let ty = generate_type_ident(type_ident);
            file.write_str(ty.as_str());
            proof {
                assert(file.text() =~= old(file).text() + field_line(
                    field@,
                    old(file).level(),
                    first,
                ));
            }
        },
        FieldDefPair::Embed { .. } => {
            proof {
                assert(false);
            }
        },
    }
}

/// Render a resolved field list as an indented record block.
pub fn generate_struct_fields(fields: &StructFields, file: &mut IndentWriter)
    requires
        fields_resolved(fields@),
        old(file).level() < usize::MAX,
    ensures
        final(file).text() == old(file).text() + struct_fields_text(
            fields@,
            old(file).level() + 1,
        ),
        final(file).level() == old(file).level(),
{
    let _ = file.increase_indent();
    let ghost lvl = file.level();
    let n = fields.0.len();
    for idx in 0..n
        invariant
            fields_resolved(fields@),
            n == fields.0.len(),
            file.level() == lvl,
            lvl == old(file).level() + 1,
            file.text() + field_lines_from(fields@, lvl, idx as int) == old(file).text()
                + field_lines_from(fields@, lvl, 0),
    {
        generate_struct_field(&fields.0[idx], idx == 0, file);
        proof {
            assert(file.text() + field_lines_from(fields@, lvl, idx + 1) =~= old(file).text()
                + field_lines_from(fields@, lvl, 0));
        }
    }
    file.start_line();
    file.write_str("}");
    let _ = file.decrease_indent();
    proof {
        assert(field_lines_from(fields@, lvl, n as int) =~= Seq::<char>::empty());
        assert(file.text() =~= old(file).text() + struct_fields_text(
            fields@,
            old(file).level() + 1,
        ));
    }
}

/// A whole struct declaration: a fresh top-level line, the leading comment
/// with field docs folded in, the record header and block, and two blank
/// separator lines.
pub open spec fn struct_def_text(s: StructV) -> Seq<char> {
    newline_text(0) + doc_comment_text(
        merged_doc(s.doc_comment, field_doc_bullets_from(s.fields, 0)),
    ) + "type alias "@ + s.name + " ="@ + struct_fields_text(s.fields, 1) + blank_lines_text(2)
}

/// Render a struct declaration; always starts at indentation zero.
pub fn generate_struct_def(def: &StructDef, file: &mut IndentWriter)
    requires
        fields_resolved(def.fields@),
    ensures
        final(file).text() == old(file).text() + struct_def_text(def@),
        final(file).level() == 0,
{
    file.kill_indent();
    file.start_line();
    let bullets = collect_field_doc_bullets(&def.fields);
    let doc = generate_merged_doc(&def.doc_comment, bullets);
    file.write_str(doc.as_str());
    file.write_str("type alias ");
    file.write_str(def.name.as_str());
    file.write_str(" =");
    generate_struct_fields(&def.fields, file);
    file.empty_lines(2);
    proof {
        assert(file.text() =~= old(file).text() + struct_def_text(def@));
    }
}

/// The renderings of a tuple variant's components, each made atomic.
pub open spec fn atomized_type_texts(ts: Seq<TypeV>) -> Seq<Seq<char>> {
    type_texts_from(ts, 0).map_values(|s: Seq<char>| atomize(s))
}

/// One variant line at the given level: the leading or continuing
/// alternative delimiter, the variant name, and its shape's payload.
pub open spec fn variant_line(v: VariantV, lvl: nat, first: bool) -> Seq<char> {
    let head = newline_text(lvl) + (if first {
        "= "@
    } else {
        "| "@
    }) + v.name;
    match v.variant_type {
        VariantTypeV::Simple => head,
        VariantTypeV::Tuple(ts) => head + " "@ + join_text(atomized_type_texts(ts), " "@),
        VariantTypeV::Struct(fs) => head + struct_fields_text(fs, lvl + 1),
        VariantTypeV::Newtype(t) => head + " "@ + atomize(type_ident_text(t)),
    }
}

/// The variant lines from position `k` on.
pub open spec fn variant_lines_from(vs: Seq<VariantV>, lvl: nat, k: int) -> Seq<char>
    decreases vs.len() - k,
{
    if k < 0 || k >= vs.len() {
        Seq::empty()
    } else {
        variant_line(vs[k], lvl, k == 0) + variant_lines_from(vs, lvl, k + 1)
    }
}

/// Render one enum variant.
fn generate_variant_def(variant: &VariantDef, first: bool, file: &mut IndentWriter)
    requires
        variant_resolved(variant@),
        old(file).level() < usize::MAX,
    ensures
        final(file).text() == old(file).text() + variant_line(
            variant@,
            old(file).level(),
            first,
        ),
        final(file).level() == old(file).level(),
{
    file.start_line();
    if first {
        file.write_str("= ");
    } else {
        file.write_str("| ");
    }
    file.write_str(variant.name.as_str());
    match &variant.variant_type {
        VariantType::Simple => {},
        VariantType::Tuple(tdef) => {
            file.write_str(" ");
            let n = tdef.0.len();
            let mut parts: Vec<String> = Vec::new();
            for i in 0..n
                invariant
                    n == tdef.0.len(),
                    parts.len() == i,
                    forall|k: int|
                        0 <= k < i ==> parts[k]@ == atomize(type_ident_text(tdef.0[k]@)),
            {
                parts.push(to_atom(generate_type_ident(&tdef.0[i])));
            }
            let joined = join_strings(&parts, " ");
            file.write_str(joined.as_str());
            proof {
                lemma_type_texts_from(tdef@, 0);
                lemma_tuple_elem_views(*tdef, 0);
                assert(string_views(parts@) =~= atomized_type_texts(tdef@));
            }
        },
        VariantType::Struct(fields) => {
            generate_struct_fields(fields, file);
        },
        VariantType::Newtype(ty) => {
            file.write_str(" ");
            let t = to_atom(generate_type_ident(ty));
            file.write_str(t.as_str());
        },
    }
    proof {
        assert(file.text() =~= old(file).text() + variant_line(
            variant@,
            old(file).level(),
            first,
        ));
    }
}

/// A whole enum declaration: a fresh top-level line, the leading comment with
/// variant docs folded in, the sum-type header, one line per variant at one
/// level of indentation, and two blank separator lines.
pub open spec fn enum_def_text(e: EnumV) -> Seq<char> {
    newline_text(0) + doc_comment_text(
        merged_doc(e.doc_comment, variant_doc_bullets_from(e.variants, 0)),
    ) + "type "@ + e.name + variant_lines_from(e.variants, 1, 0) + blank_lines_text(2)
}

/// Render an enum declaration; always starts at indentation zero.
pub fn generate_enum_def(def: &EnumDef, file: &mut IndentWriter)
    requires
        variants_resolved(def@.variants),
    ensures
        final(file).text() == old(file).text() + enum_def_text(def@),
        final(file).level() == 1,
{
    file.kill_indent();
    file.start_line();
    let bullets = collect_variant_doc_bullets(&def.variants);
    let doc = generate_merged_doc(&def.doc_comment, bullets);
    file.write_str(doc.as_str());
    file.write_str("type ");
    file.write_str(def.name.as_str());
    let _ = file.increase_indent();
    let n = def.variants.len();
    for idx in 0..n
        invariant
            variants_resolved(def@.variants),
            n == def.variants.len(),
            def@.variants.len() == n,
            file.level() == 1,
            file.text() + variant_lines_from(def@.variants, 1, idx as int) == old(file).text()
                + newline_text(0) + doc_comment_text(
                merged_doc(def@.doc_comment, variant_doc_bullets_from(def@.variants, 0)),
            ) + "type "@ + def@.name + variant_lines_from(def@.variants, 1, 0),
    {
        generate_variant_def(&def.variants[idx], idx == 0, file);
        proof {
            assert(def@.variants[idx as int] == def.variants[idx as int]@);
            assert(file.text() + variant_lines_from(def@.variants, 1, idx + 1) =~= old(
                file,
            ).text() + newline_text(0) + doc_comment_text(
                merged_doc(def@.doc_comment, variant_doc_bullets_from(def@.variants, 0)),
            ) + "type "@ + def@.name + variant_lines_from(def@.variants, 1, 0));
        }
    }
    file.empty_lines(2);
    proof {
        assert(variant_lines_from(def@.variants, 1, n as int) =~= Seq::<char>::empty());
        assert(file.text() =~= old(file).text() + enum_def_text(def@));
    }
}

// ---------------------------------------------------------------------------
// Backend surface
// ---------------------------------------------------------------------------

/// What one top-level item contributes to the declarations artifact.
pub open spec fn item_decl_text(it: ItemV) -> Seq<char> {
    match it {
        ItemV::Struct(s) => struct_def_text(s),
        ItemV::Enum(e) => enum_def_text(e),
        ItemV::Service(_) => Seq::empty(),
    }
}

/// The declarations of the items from position `k` on, in schema order.
pub open spec fn items_decl_from(items: Seq<ItemV>, k: int) -> Seq<char>
    decreases items.len() - k,
{
    if k < 0 || k >= items.len() {
        Seq::empty()
    } else {
        item_decl_text(items[k]) + items_decl_from(items, k + 1)
    }
}

/// The whole declarations artifact: module header, then every declaration in
/// schema order.
pub open spec fn user_types_text(items: Seq<ItemV>) -> Seq<char> {
    "module Api.Data exposing (..)"@ + blank_lines_text(2) + items_decl_from(items, 0)
}

/// What a caller observed about the output directory before generation.
pub struct DirProbe {
    /// The path exists and is a directory.
    pub is_dir: bool,
    /// The directory holds no entry.
    pub is_empty: bool,
}

/// The Elm backend, instantiated for one requested artifact kind.
pub struct Generator {
    _artifact: Artifact,
}

impl Generator {
    /// The artifact kind this backend was instantiated for.
    pub closed spec fn artifact(&self) -> Artifact {
        self._artifact
    }

    /// Instantiate the backend; server bindings are not implemented by this
    /// backend, and asking for them fails before any generation work.
    pub fn new(artifact: Artifact) -> (r: Result<Generator, LibError>)
        ensures
            match r {
                Ok(g) => (artifact == Artifact::TypesOnly || artifact == Artifact::ClientEndpoints)
                    && g.artifact() == artifact,
                Err(e) => artifact == Artifact::ServerEndpoints && match e {
                    LibError::UnsupportedArtifact { artifact: a, backend } => a == artifact
                        && backend@ == BACKEND_NAME@,
                    _ => false,
                },
            },
    {
        match artifact {
            Artifact::TypesOnly | Artifact::ClientEndpoints => Ok(Generator { _artifact: artifact }),
            Artifact::ServerEndpoints => Err(
                LibError::UnsupportedArtifact {
                    artifact,
                    backend: String::from_str(BACKEND_NAME),
                },
            ),
        }
    }

    /// Render the declarations artifact for a resolved schema: the module
    /// header, then one declaration per struct or enum in schema order, with
    /// services skipped.
    pub fn generate_user_defined_types(spec: &Spec) -> (r: String)
        requires
            schema_resolved(spec@),
        ensures
            r@ == user_types_text(spec@),
    {
        let mut file = IndentWriter::new();
        file.write_str("module Api.Data exposing (..)");
        file.empty_lines(2);
        let n = spec.0.len();
        for idx in 0..n
            invariant
                schema_resolved(spec@),
                n == spec.0.len(),
                spec@.len() == n,
                file.text() + items_decl_from(spec@, idx as int) == user_types_text(spec@),
        {
            match &spec.0[idx] {
                SpecItem::StructDef(sdef) => {
                    proof {
                        assert(spec@[idx as int] == ItemV::Struct(sdef@));
                        assert(item_resolved(spec@[idx as int]));
                    }
                    generate_struct_def(sdef, &mut file);
                },
                SpecItem::EnumDef(edef) => {
                    proof {
                        assert(spec@[idx as int] == ItemV::Enum(edef@));
                        assert(item_resolved(spec@[idx as int]));
                    }
                    generate_enum_def(edef, &mut file);
                },
                SpecItem::ServiceDef(_) => {},
            }
            proof {
                assert(file.text() + items_decl_from(spec@, idx + 1) =~= user_types_text(spec@));
            }
        }
        proof {
            assert(items_decl_from(spec@, n as int) =~= Seq::<char>::empty());
        }
        let r = file.into_string();
        proof {
            assert(r@ =~= user_types_text(spec@));
        }
        r
    }

    /// Pre-flight check of the observed output directory state: generation
    /// requires an existing, empty directory, and fails before any file is
    /// created otherwise.
    pub fn validate_output_dir(probe: &DirProbe) -> (r: Result<(), LibError>)
        ensures
            match r {
                Ok(()) => probe.is_dir && probe.is_empty,
                Err(e) => match e {
                    LibError::OutputMustBeFolder { backend } => !probe.is_dir && backend@
                        == BACKEND_NAME@,
                    LibError::OutputFolderNotEmpty { backend } => probe.is_dir && !probe.is_empty
                        && backend@ == BACKEND_NAME@,
                    _ => false,
                },
            },
    {
        if !probe.is_dir {
            return Err(LibError::OutputMustBeFolder { backend: String::from_str(BACKEND_NAME) });
        }
        if !probe.is_empty {
            return Err(LibError::OutputFolderNotEmpty { backend: String::from_str(BACKEND_NAME) });
        }
        Ok(())
    }
}

} // verus!
