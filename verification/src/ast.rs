//! In-memory schema model: struct/enum/service declarations and the recursive
//! type-identifier grammar, together with the spec-level views that contracts
//! are stated over.

use vstd::prelude::*;

verus! {

// ---------------------------------------------------------------------------
// Executable model
// ---------------------------------------------------------------------------

/// A built-in primitive type.
#[derive(Clone, Copy, Debug, PartialEq, Eq, Structural)]
pub enum AtomType {
    Empty,
    Str,
    I32,
    U32,
    U8,
    F64,
    Bool,
    DateTime,
    Date,
    Uuid,
    Bytes,
}

/// The closed recursive type grammar.
#[derive(Debug, PartialEq)]
pub enum TypeIdent {
    BuiltIn(AtomType),
    List(Box<TypeIdent>),
    Option(Box<TypeIdent>),
    Result(Box<TypeIdent>, Box<TypeIdent>),
    Dict(Box<TypeIdent>, Box<TypeIdent>),
    Tuple(TupleDef),
    UserDefined(String),
}

/// An ordered sequence of component types (arity is assumed to be at least 1).
#[derive(Debug, PartialEq)]
pub struct TupleDef(pub Vec<TypeIdent>);

/// A field name together with its type, or an embed marker: a field with no
/// independent type whose name names another struct whose fields are to be
/// spliced in at this position.
#[derive(Debug, PartialEq)]
pub enum FieldDefPair {
    Field { name: String, type_ident: TypeIdent },
    Embed { name: String },
}

/// One field of a struct, with its optional doc string.
#[derive(Debug, PartialEq)]
pub struct FieldNode {
    pub doc_comment: Option<String>,
    pub pair: FieldDefPair,
}

/// The ordered field list of a struct; order is significant and preserved
/// through every transformation and through wire encoding.
#[derive(Debug, PartialEq)]
pub struct StructFields(pub Vec<FieldNode>);

/// A struct declaration.
#[derive(Debug, PartialEq)]
pub struct StructDef {
    pub name: String,
    pub doc_comment: Option<String>,
    pub fields: StructFields,
}

/// The shape of one enum variant.
#[derive(Debug, PartialEq)]
pub enum VariantType {
    Simple,
    Tuple(TupleDef),
    Struct(StructFields),
    Newtype(TypeIdent),
}

/// One alternative of an enum.
#[derive(Debug, PartialEq)]
pub struct VariantDef {
    pub name: String,
    pub doc_comment: Option<String>,
    pub variant_type: VariantType,
}

/// An enum declaration.
#[derive(Debug, PartialEq)]
pub struct EnumDef {
    pub name: String,
    pub doc_comment: Option<String>,
    pub variants: Vec<VariantDef>,
}

/// A service declaration. Its internals are an external collaborator's
/// concern: this core only needs to skip or iterate over it.
#[derive(Debug, PartialEq)]
pub struct ServiceDef {
    pub name: String,
    pub doc_comment: Option<String>,
}

/// One top-level item of a schema.
#[derive(Debug, PartialEq)]
pub enum SpecItem {
    StructDef(StructDef),
    EnumDef(EnumDef),
    ServiceDef(ServiceDef),
}

/// An ordered collection of top-level declarations forming one compilation
/// unit.
#[derive(Debug, PartialEq)]
pub struct Spec(pub Vec<SpecItem>);

// ---------------------------------------------------------------------------
// Spec-level views
// ---------------------------------------------------------------------------

pub enum TypeV {
    BuiltIn(AtomType),
    List(Box<TypeV>),
    Option(Box<TypeV>),
    Result(Box<TypeV>, Box<TypeV>),
    Dict(Box<TypeV>, Box<TypeV>),
    Tuple(Seq<TypeV>),
    UserDefined(Seq<char>),
}

pub enum FieldPairV {
    Field { name: Seq<char>, type_ident: TypeV },
    Embed { name: Seq<char> },
}

pub struct FieldV {
    pub doc_comment: Option<Seq<char>>,
    pub pair: FieldPairV,
}

pub struct StructV {
    pub name: Seq<char>,
    pub doc_comment: Option<Seq<char>>,
    pub fields: Seq<FieldV>,
}

pub enum VariantTypeV {
    Simple,
    Tuple(Seq<TypeV>),
    Struct(Seq<FieldV>),
    Newtype(TypeV),
}

pub struct VariantV {
    pub name: Seq<char>,
    pub doc_comment: Option<Seq<char>>,
    pub variant_type: VariantTypeV,
}

pub struct EnumV {
    pub name: Seq<char>,
    pub doc_comment: Option<Seq<char>>,
    pub variants: Seq<VariantV>,
}

pub struct ServiceV {
    pub name: Seq<char>,
    pub doc_comment: Option<Seq<char>>,
}

pub enum ItemV {
    Struct(StructV),
    Enum(EnumV),
    Service(ServiceV),
}

pub open spec fn doc_view(doc: &Option<String>) -> Option<Seq<char>> {
    match doc {
        Some(d) => Some(d@),
        None => None,
    }
}

/// The view of a type identifier, written as a free function so that the
/// recursion through `Box` and `Vec` children stays out of trait resolution.
pub open spec fn type_view(t: TypeIdent) -> TypeV
    decreases t,
{
    match t {
        TypeIdent::BuiltIn(a) => TypeV::BuiltIn(a),
        TypeIdent::List(inner) => TypeV::List(Box::new(type_view(*inner))),
        TypeIdent::Option(inner) => TypeV::Option(Box::new(type_view(*inner))),
        TypeIdent::Result(ok, err) => TypeV::Result(
            Box::new(type_view(*ok)),
            Box::new(type_view(*err)),
        ),
        TypeIdent::Dict(key, value) => TypeV::Dict(
            Box::new(type_view(*key)),
            Box::new(type_view(*value)),
        ),
        TypeIdent::Tuple(td) => TypeV::Tuple(tuple_elem_views(td, 0)),
        TypeIdent::UserDefined(n) => TypeV::UserDefined(n@),
    }
}

/// The views of a tuple's component types from position `k` on.
pub open spec fn tuple_elem_views(td: TupleDef, k: int) -> Seq<TypeV>
    decreases td, td.0.len() - k,
{
    if k < 0 || k >= td.0.len() {
        Seq::empty()
    } else {
        seq![type_view(td.0[k])] + tuple_elem_views(td, k + 1)
    }
}

/// Pointwise characterization of `tuple_elem_views`.
pub proof fn lemma_tuple_elem_views(td: TupleDef, k: int)
    requires
        0 <= k <= td.0.len(),
    ensures
        tuple_elem_views(td, k).len() == td.0.len() - k,
        forall|i: int|
            0 <= i < td.0.len() - k ==> tuple_elem_views(td, k)[i] == type_view(td.0[k + i]),
    decreases td.0.len() - k,
{
    if k < td.0.len() {
        lemma_tuple_elem_views(td, k + 1);
    }
}

impl View for TypeIdent {
    type V = TypeV;

    open spec fn view(&self) -> TypeV {
        type_view(*self)
    }
}

impl View for TupleDef {
    type V = Seq<TypeV>;

    open spec fn view(&self) -> Seq<TypeV> {
        tuple_elem_views(*self, 0)
    }
}

impl View for FieldDefPair {
    type V = FieldPairV;

    open spec fn view(&self) -> FieldPairV {
        match self {
            FieldDefPair::Field { name, type_ident } => FieldPairV::Field {
                name: name@,
                type_ident: type_ident@,
            },
            FieldDefPair::Embed { name } => FieldPairV::Embed { name: name@ },
        }
    }
}

impl View for FieldNode {
    type V = FieldV;

    open spec fn view(&self) -> FieldV {
        FieldV { doc_comment: doc_view(&self.doc_comment), pair: self.pair@ }
    }
}

/// The views of a sequence of field nodes.
pub open spec fn field_nodes_view(s: Seq<FieldNode>) -> Seq<FieldV> {
    Seq::new(s.len(), |i: int| s[i]@)
}

/// The views of a sequence of variant definitions.
pub open spec fn variant_defs_view(s: Seq<VariantDef>) -> Seq<VariantV> {
    Seq::new(s.len(), |i: int| s[i]@)
}

/// The views of a sequence of top-level items.
pub open spec fn spec_items_view(s: Seq<SpecItem>) -> Seq<ItemV> {
    Seq::new(s.len(), |i: int| s[i]@)
}

impl View for StructFields {
    type V = Seq<FieldV>;

    open spec fn view(&self) -> Seq<FieldV> {
        field_nodes_view(self.0@)
    }
}

impl View for StructDef {
    type V = StructV;

    open spec fn view(&self) -> StructV {
        StructV {
            name: self.name@,
            doc_comment: doc_view(&self.doc_comment),
            fields: self.fields@,
        }
    }
}

impl View for VariantType {
    type V = VariantTypeV;

    open spec fn view(&self) -> VariantTypeV {
        match self {
            VariantType::Simple => VariantTypeV::Simple,
            VariantType::Tuple(td) => VariantTypeV::Tuple(td@),
            VariantType::Struct(fields) => VariantTypeV::Struct(fields@),
            VariantType::Newtype(ty) => VariantTypeV::Newtype(ty@),
        }
    }
}

impl View for VariantDef {
    type V = VariantV;

    open spec fn view(&self) -> VariantV {
        VariantV {
            name: self.name@,
            doc_comment: doc_view(&self.doc_comment),
            variant_type: self.variant_type@,
        }
    }
}

impl View for EnumDef {
    type V = EnumV;

    open spec fn view(&self) -> EnumV {
        EnumV {
            name: self.name@,
            doc_comment: doc_view(&self.doc_comment),
            variants: variant_defs_view(self.variants@),
        }
    }
}

impl View for ServiceDef {
    type V = ServiceV;

    open spec fn view(&self) -> ServiceV {
        ServiceV { name: self.name@, doc_comment: doc_view(&self.doc_comment) }
    }
}

impl View for SpecItem {
    type V = ItemV;

    open spec fn view(&self) -> ItemV {
        match self {
            SpecItem::StructDef(d) => ItemV::Struct(d@),
            SpecItem::EnumDef(d) => ItemV::Enum(d@),
            SpecItem::ServiceDef(d) => ItemV::Service(d@),
        }
    }
}

impl View for Spec {
    type V = Seq<ItemV>;

    open spec fn view(&self) -> Seq<ItemV> {
        spec_items_view(self.0@)
    }
}

impl FieldDefPair {
    /// Whether this pair is an embed marker.
    pub fn is_embed(&self) -> (r: bool)
        ensures
            r == (self@ is Embed),
    {
        match self {
            FieldDefPair::Field { .. } => false,
            FieldDefPair::Embed { .. } => true,
        }
    }

    /// The field name, or the name of the embedded struct for an embed marker.
    pub fn name(&self) -> (r: &String)
        ensures
            r@ == pair_name(self@),
    {
        match self {
            FieldDefPair::Field { name, .. } => name,
            FieldDefPair::Embed { name } => name,
        }
    }
}

/// The name carried by a field-definition pair, embed marker or not.
pub open spec fn pair_name(p: FieldPairV) -> Seq<char> {
    match p {
        FieldPairV::Field { name, .. } => name,
        FieldPairV::Embed { name } => name,
    }
}

// ---------------------------------------------------------------------------
// Resolvedness: what generators may assume of their input
// ---------------------------------------------------------------------------

/// No field of the list is an embed marker.
pub open spec fn fields_resolved(fields: Seq<FieldV>) -> bool {
    forall|i: int| 0 <= i < fields.len() ==> fields[i].pair is Field
}

/// A struct-shaped variant's field list holds no embed marker.
pub open spec fn variant_resolved(v: VariantV) -> bool {
    match v.variant_type {
        VariantTypeV::Struct(fs) => fields_resolved(fs),
        _ => true,
    }
}

/// Every variant of the list is resolved.
pub open spec fn variants_resolved(vs: Seq<VariantV>) -> bool {
    forall|i: int| 0 <= i < vs.len() ==> variant_resolved(vs[i])
}

/// No field list reachable from the item holds an embed marker.
pub open spec fn item_resolved(it: ItemV) -> bool {
    match it {
        ItemV::Struct(s) => fields_resolved(s.fields),
        ItemV::Enum(e) => variants_resolved(e.variants),
        ItemV::Service(_) => true,
    }
}

/// No field list anywhere in the schema holds an embed marker.
pub open spec fn schema_resolved(items: Seq<ItemV>) -> bool {
    forall|i: int| 0 <= i < items.len() ==> item_resolved(items[i])
}

// ---------------------------------------------------------------------------
// Deep copies with view-preserving contracts
// ---------------------------------------------------------------------------

/// Copy an optional doc string.
pub fn clone_opt_string(d: &Option<String>) -> (r: Option<String>)
    ensures
        doc_view(&r) == doc_view(d),
{
    match d {
        Some(s) => Some(s.clone()),
        None => None,
    }
}

/// Copy a type identifier.
pub fn clone_type_ident(t: &TypeIdent) -> (r: TypeIdent)
    ensures
        r@ == t@,
    decreases t,
{
    match t {
        TypeIdent::BuiltIn(a) => TypeIdent::BuiltIn(*a),
        TypeIdent::List(inner) => TypeIdent::List(Box::new(clone_type_ident(inner))),
        TypeIdent::Option(inner) => TypeIdent::Option(Box::new(clone_type_ident(inner))),
        TypeIdent::Result(ok, err) => TypeIdent::Result(
            Box::new(clone_type_ident(ok)),
            Box::new(clone_type_ident(err)),
        ),
        TypeIdent::Dict(key, value) => TypeIdent::Dict(
            Box::new(clone_type_ident(key)),
            Box::new(clone_type_ident(value)),
        ),
        TypeIdent::Tuple(td) => TypeIdent::Tuple(clone_tuple_def(td)),
        TypeIdent::UserDefined(n) => TypeIdent::UserDefined(n.clone()),
    }
}

/// Copy a tuple definition.
pub fn clone_tuple_def(td: &TupleDef) -> (r: TupleDef)
    ensures
        r@ == td@,
    decreases td,
{
    let n = td.0.len();
    let mut elems: Vec<TypeIdent> = Vec::new();
    for i in 0..n
        invariant
            n == td.0.len(),
            elems.len() == i,
            forall|k: int| 0 <= k < i ==> elems[k]@ == td.0[k]@,
    {
        elems.push(clone_type_ident(&td.0[i]));
    }
    let r = TupleDef(elems);
    proof {
        lemma_tuple_elem_views(r, 0);
        lemma_tuple_elem_views(*td, 0);
        assert(r@ =~= td@);
    }
    r
}

/// Copy a field-definition pair.
pub fn clone_field_def_pair(p: &FieldDefPair) -> (r: FieldDefPair)
    ensures
        r@ == p@,
{
    match p {
        FieldDefPair::Field { name, type_ident } => FieldDefPair::Field {
            name: name.clone(),
            type_ident: clone_type_ident(type_ident),
        },
        FieldDefPair::Embed { name } => FieldDefPair::Embed { name: name.clone() },
    }
}

/// Copy a field node.
pub fn clone_field_node(f: &FieldNode) -> (r: FieldNode)
    ensures
        r@ == f@,
{
    FieldNode {
        doc_comment: clone_opt_string(&f.doc_comment),
        pair: clone_field_def_pair(&f.pair),
    }
}

/// Copy a struct's field list.
pub fn clone_struct_fields(fs: &StructFields) -> (r: StructFields)
    ensures
        r@ == fs@,
{
    let n = fs.0.len();
    let mut nodes: Vec<FieldNode> = Vec::new();
    for i in 0..n
        invariant
            n == fs.0.len(),
            nodes.len() == i,
            forall|k: int| 0 <= k < i ==> nodes[k]@ == fs.0[k]@,
    {
        nodes.push(clone_field_node(&fs.0[i]));
    }
    let r = StructFields(nodes);
    proof {
        assert(r@ =~= fs@);
    }
    r
}

/// Copy a struct declaration.
pub fn clone_struct_def(d: &StructDef) -> (r: StructDef)
    ensures
        r@ == d@,
{
    StructDef {
        name: d.name.clone(),
        doc_comment: clone_opt_string(&d.doc_comment),
        fields: clone_struct_fields(&d.fields),
    }
}

/// Copy a variant shape.
pub fn clone_variant_type(v: &VariantType) -> (r: VariantType)
    ensures
        r@ == v@,
{
    match v {
        VariantType::Simple => VariantType::Simple,
        VariantType::Tuple(td) => VariantType::Tuple(clone_tuple_def(td)),
        VariantType::Struct(fs) => VariantType::Struct(clone_struct_fields(fs)),
        VariantType::Newtype(ty) => VariantType::Newtype(clone_type_ident(ty)),
    }
}

/// Copy a variant definition.
pub fn clone_variant_def(v: &VariantDef) -> (r: VariantDef)
    ensures
        r@ == v@,
{
    VariantDef {
        name: v.name.clone(),
        doc_comment: clone_opt_string(&v.doc_comment),
        variant_type: clone_variant_type(&v.variant_type),
    }
}

/// Copy an enum declaration.
pub fn clone_enum_def(d: &EnumDef) -> (r: EnumDef)
    ensures
        r@ == d@,
{
    let n = d.variants.len();
    let mut variants: Vec<VariantDef> = Vec::new();
    for i in 0..n
        invariant
            n == d.variants.len(),
            variants.len() == i,
            forall|k: int| 0 <= k < i ==> variants[k]@ == d.variants[k]@,
    {
        variants.push(clone_variant_def(&d.variants[i]));
    }
    let r = EnumDef {
        name: d.name.clone(),
        doc_comment: clone_opt_string(&d.doc_comment),
        variants,
    };
    proof {
        assert(variant_defs_view(r.variants@) =~= variant_defs_view(d.variants@));
    }
    r
}

/// Copy a service declaration.
pub fn clone_service_def(d: &ServiceDef) -> (r: ServiceDef)
    ensures
        r@ == d@,
{
    ServiceDef { name: d.name.clone(), doc_comment: clone_opt_string(&d.doc_comment) }
}

/// Copy a top-level item.
pub fn clone_spec_item(it: &SpecItem) -> (r: SpecItem)
    ensures
        r@ == it@,
{
    match it {
        SpecItem::StructDef(d) => SpecItem::StructDef(clone_struct_def(d)),
        SpecItem::EnumDef(d) => SpecItem::EnumDef(clone_enum_def(d)),
        SpecItem::ServiceDef(d) => SpecItem::ServiceDef(clone_service_def(d)),
    }
}

/// Copy a whole schema.
pub fn clone_spec(s: &Spec) -> (r: Spec)
    ensures
        r@ == s@,
{
    let n = s.0.len();
    let mut items: Vec<SpecItem> = Vec::new();
    for i in 0..n
        invariant
            n == s.0.len(),
            items.len() == i,
            forall|k: int| 0 <= k < i ==> items[k]@ == s.0[k]@,
    {
        items.push(clone_spec_item(&s.0[i]));
    }
    let r = Spec(items);
    proof {
        assert(r@ =~= s@);
    }
    r
}

} // verus!
