//! Embed resolution: a fixed-point rewrite that replaces every embed marker in
//! every struct's field list with the field list of the struct it names.
//!
//! Each pass expands exactly one embed-nesting level. A pass reads a snapshot
//! of every struct's current field list taken at the start of the pass and
//! commits all candidate field lists only once every struct's candidate has
//! been computed, so no struct's expansion sees a partially updated sibling.
//! The pass loop repeats until a pass performs no substitution; a fixed
//! maximum number of passes bounds both legitimately deep chains and embed
//! cycles, which never reach a fixed point.

use vstd::prelude::*;

use crate::ast::{
    FieldNode, FieldPairV, FieldV, ItemV, Spec, SpecItem, StructDef, StructFields, StructV,
    clone_field_node, clone_opt_string, clone_spec_item, field_nodes_view, pair_name,
};
use crate::LibError;

verus! {

/// Maximum depth to which embeds are resolved; exceeding it is a fatal error.
pub const MAX_EMBED_DEPTH: usize = 10;

// ---------------------------------------------------------------------------
// Functional model of one pass
// ---------------------------------------------------------------------------

/// Whether an item is a struct whose field list holds an embed marker.
pub open spec fn item_has_embed(it: ItemV) -> bool {
    match it {
        ItemV::Struct(s) => fields_have_embed(s.fields),
        _ => false,
    }
}

/// Whether a field list holds an embed marker.
pub open spec fn fields_have_embed(fields: Seq<FieldV>) -> bool {
    exists|i: int| 0 <= i < fields.len() && fields[i].pair is Embed
}

/// Whether any struct of the schema still holds an embed marker.
pub open spec fn schema_has_embed(items: Seq<ItemV>) -> bool {
    exists|i: int| 0 <= i < items.len() && item_has_embed(items[i])
}

/// The current field list of the first struct named `name`, if any.
pub open spec fn lookup_fields_from(items: Seq<ItemV>, name: Seq<char>, k: int) -> Option<
    Seq<FieldV>,
>
    decreases items.len() - k,
{
    if k < 0 || k >= items.len() {
        None
    } else {
        match items[k] {
            ItemV::Struct(s) => if s.name == name {
                Some(s.fields)
            } else {
                lookup_fields_from(items, name, k + 1)
            },
            _ => lookup_fields_from(items, name, k + 1),
        }
    }
}

/// First-match lookup of a struct's field list by exact name.
pub open spec fn lookup_struct_fields(items: Seq<ItemV>, name: Seq<char>) -> Option<Seq<FieldV>> {
    lookup_fields_from(items, name, 0)
}

/// Whether a field is an embed marker naming a struct absent from the snapshot.
pub open spec fn field_unknown(snap: Seq<ItemV>, f: FieldV) -> bool {
    match f.pair {
        FieldPairV::Embed { name } => lookup_struct_fields(snap, name) is None,
        _ => false,
    }
}

/// The name of the first unknown embed target in a field list from position
/// `k` on, if any.
pub open spec fn first_unknown_in_fields_from(
    snap: Seq<ItemV>,
    fields: Seq<FieldV>,
    k: int,
) -> Option<Seq<char>>
    decreases fields.len() - k,
{
    if k < 0 || k >= fields.len() {
        None
    } else if field_unknown(snap, fields[k]) {
        Some(pair_name(fields[k].pair))
    } else {
        first_unknown_in_fields_from(snap, fields, k + 1)
    }
}

/// The name of the first unknown embed target in the schema from item `k` on.
pub open spec fn first_unknown_from(snap: Seq<ItemV>, items: Seq<ItemV>, k: int) -> Option<
    Seq<char>,
>
    decreases items.len() - k,
{
    if k < 0 || k >= items.len() {
        None
    } else {
        let here = match items[k] {
            ItemV::Struct(s) => first_unknown_in_fields_from(snap, s.fields, 0),
            _ => None,
        };
        if here is Some {
            here
        } else {
            first_unknown_from(snap, items, k + 1)
        }
    }
}

/// The name of the first unknown embed target of a pass over the schema.
pub open spec fn first_unknown(items: Seq<ItemV>) -> Option<Seq<char>> {
    first_unknown_from(items, items, 0)
}

/// What one field contributes to its struct's candidate field list: an embed
/// marker is replaced by the snapshot fields of the struct it names, any other
/// field is copied through unchanged.
pub open spec fn expand_field(snap: Seq<ItemV>, f: FieldV) -> Seq<FieldV> {
    match f.pair {
        FieldPairV::Embed { name } => match lookup_struct_fields(snap, name) {
            Some(fs) => fs,
            None => Seq::empty(),
        },
        _ => seq![f],
    }
}

/// The candidate field list built from position `k` on.
pub open spec fn expand_fields_from(snap: Seq<ItemV>, fields: Seq<FieldV>, k: int) -> Seq<FieldV>
    decreases fields.len() - k,
{
    if k < 0 || k >= fields.len() {
        Seq::empty()
    } else {
        expand_field(snap, fields[k]) + expand_fields_from(snap, fields, k + 1)
    }
}

/// The candidate field list of one struct: every embed marker substituted by
/// one level, order preserved.
pub open spec fn expand_fields(snap: Seq<ItemV>, fields: Seq<FieldV>) -> Seq<FieldV> {
    expand_fields_from(snap, fields, 0)
}

/// One item after a pass: structs get their candidate field list, everything
/// else is unchanged.
pub open spec fn pass_item(snap: Seq<ItemV>, it: ItemV) -> ItemV {
    match it {
        ItemV::Struct(s) => ItemV::Struct(
            StructV { name: s.name, doc_comment: s.doc_comment, fields: expand_fields(snap, s.fields) },
        ),
        _ => it,
    }
}

/// The whole schema after one pass.
pub open spec fn pass_items(items: Seq<ItemV>) -> Seq<ItemV> {
    Seq::new(items.len(), |i: int| pass_item(items, items[i]))
}

// ---------------------------------------------------------------------------
// Functional model of the pass loop
// ---------------------------------------------------------------------------

/// The outcome of resolution, together with the schema state it leaves behind.
pub enum ResolveOutcome {
    /// Fixed point reached: no struct holds an embed marker.
    Done(Seq<ItemV>),
    /// An embed marker names a struct absent from the schema; raised eagerly
    /// during collection, before the pass commits anything.
    Unknown(Seq<char>, Seq<ItemV>),
    /// The pass budget is exhausted and the schema still holds embed markers.
    Depth(Seq<ItemV>),
}

/// Resolution as a function of the schema and the remaining pass budget.
pub open spec fn resolve_run(items: Seq<ItemV>, budget: nat) -> ResolveOutcome
    decreases budget,
{
    if !schema_has_embed(items) {
        ResolveOutcome::Done(items)
    } else if first_unknown(items) is Some {
        ResolveOutcome::Unknown(first_unknown(items)->Some_0, items)
    } else if budget == 0 {
        ResolveOutcome::Depth(pass_items(items))
    } else {
        resolve_run(pass_items(items), (budget - 1) as nat)
    }
}

// ---------------------------------------------------------------------------
// Laws of resolution
// ---------------------------------------------------------------------------

/// Whether one field is an embed marker naming `a` or `b`.
pub open spec fn field_embeds_one_of(f: FieldV, a: Seq<char>, b: Seq<char>) -> bool {
    match f.pair {
        FieldPairV::Embed { name } => name == a || name == b,
        _ => false,
    }
}

/// Whether some field of the list is an embed marker naming `a` or `b`.
pub open spec fn embeds_one_of(fields: Seq<FieldV>, a: Seq<char>, b: Seq<char>) -> bool {
    exists|i: int| 0 <= i < fields.len() && #[trigger] field_embeds_one_of(fields[i], a, b)
}

/// Whether one field is an embed marker naming `nm`.
pub open spec fn field_embeds_name(f: FieldV, nm: Seq<char>) -> bool {
    match f.pair {
        FieldPairV::Embed { name } => name == nm,
        _ => false,
    }
}

/// Whether some field of the list is an embed marker naming `nm`.
pub open spec fn fields_embed_name(fields: Seq<FieldV>, nm: Seq<char>) -> bool {
    exists|i: int| 0 <= i < fields.len() && #[trigger] field_embeds_name(fields[i], nm)
}

/// Every embed marker of the field list names a struct present in the
/// snapshot.
pub open spec fn fields_embeds_known(snap: Seq<ItemV>, fields: Seq<FieldV>) -> bool {
    forall|i: int| 0 <= i < fields.len() ==> !field_unknown(snap, fields[i])
}

/// An item's embed markers, if it has any, all name structs present in the
/// snapshot.
pub open spec fn item_embeds_known(snap: Seq<ItemV>, it: ItemV) -> bool {
    match it {
        ItemV::Struct(s) => fields_embeds_known(snap, s.fields),
        _ => true,
    }
}

/// Every embed marker anywhere in the schema names a struct present in it.
pub open spec fn all_embeds_known(items: Seq<ItemV>) -> bool {
    forall|k: int| 0 <= k < items.len() ==> #[trigger] item_embeds_known(items, items[k])
}

/// Whether an item is a struct bearing the given name and fields.
pub open spec fn is_struct_named(it: ItemV, nm: Seq<char>, fs: Seq<FieldV>) -> bool {
    match it {
        ItemV::Struct(s) => s.name == nm && s.fields == fs,
        _ => false,
    }
}

/// A known field list never yields an unknown-embed error.
proof fn lemma_fields_known_no_unknown(snap: Seq<ItemV>, fields: Seq<FieldV>, k: int)
    requires
        0 <= k,
        fields_embeds_known(snap, fields),
    ensures
        first_unknown_in_fields_from(snap, fields, k) is None,
    decreases fields.len() - k,
{
    if k < fields.len() {
        lemma_fields_known_no_unknown(snap, fields, k + 1);
    }
}

/// A schema whose embeds are all known never yields an unknown-embed error.
proof fn lemma_known_no_unknown(items: Seq<ItemV>, k: int)
    requires
        0 <= k,
        all_embeds_known(items),
    ensures
        first_unknown_from(items, items, k) is None,
    decreases items.len() - k,
{
    if k < items.len() {
        assert(item_embeds_known(items, items[k]));
        match items[k] {
            ItemV::Struct(s) => {
                lemma_fields_known_no_unknown(items, s.fields, 0);
            },
            _ => {},
        }
        lemma_known_no_unknown(items, k + 1);
    }
}

/// A successful lookup returns the fields of some struct of the schema, and
/// that struct bears the looked-up name.
proof fn lemma_lookup_some_struct(items: Seq<ItemV>, nm: Seq<char>, k: int)
    requires
        0 <= k,
        lookup_fields_from(items, nm, k) is Some,
    ensures
        exists|t: int|
            k <= t < items.len() && #[trigger] is_struct_named(
                items[t],
                nm,
                lookup_fields_from(items, nm, k)->Some_0,
            ),
    decreases items.len() - k,
{
    if k < items.len() {
        match items[k] {
            ItemV::Struct(s) => {
                if s.name == nm {
                    assert(is_struct_named(
                        items[k],
                        nm,
                        lookup_fields_from(items, nm, k)->Some_0,
                    ));
                } else {
                    lemma_lookup_some_struct(items, nm, k + 1);
                    let t = choose|t: int|
                        k + 1 <= t < items.len() && #[trigger] is_struct_named(
                            items[t],
                            nm,
                            lookup_fields_from(items, nm, k + 1)->Some_0,
                        );
                    assert(is_struct_named(
                        items[t],
                        nm,
                        lookup_fields_from(items, nm, k)->Some_0,
                    ));
                }
            },
            _ => {
                lemma_lookup_some_struct(items, nm, k + 1);
                let t = choose|t: int|
                    k + 1 <= t < items.len() && #[trigger] is_struct_named(
                        items[t],
                        nm,
                        lookup_fields_from(items, nm, k + 1)->Some_0,
                    );
                assert(is_struct_named(items[t], nm, lookup_fields_from(items, nm, k)->Some_0));
            },
        }
    }
}

/// A pass preserves the presence of every looked-up struct: after the pass
/// the same name resolves to that struct's expanded candidate field list.
proof fn lemma_lookup_after_pass(items: Seq<ItemV>, nm: Seq<char>, k: int)
    requires
        0 <= k,
    ensures
        lookup_fields_from(items, nm, k) is None <==> lookup_fields_from(
            pass_items(items),
            nm,
            k,
        ) is None,
        lookup_fields_from(items, nm, k) matches Some(fs) ==> lookup_fields_from(
            pass_items(items),
            nm,
            k,
        ) == Some(expand_fields(items, fs)),
    decreases items.len() - k,
{
    if k < items.len() {
        assert(pass_items(items)[k] == pass_item(items, items[k]));
        match items[k] {
            ItemV::Struct(s) => {
                if s.name != nm {
                    lemma_lookup_after_pass(items, nm, k + 1);
                }
            },
            _ => {
                lemma_lookup_after_pass(items, nm, k + 1);
            },
        }
    }
}

/// Every field of a candidate field list built from known fields is itself
/// known in the snapshot: embed markers in the candidate only come from field
/// lists that are already part of the snapshot.
proof fn lemma_expand_embeds_known(snap: Seq<ItemV>, fields: Seq<FieldV>, k: int)
    requires
        0 <= k,
        all_embeds_known(snap),
        fields_embeds_known(snap, fields),
    ensures
        fields_embeds_known(snap, expand_fields_from(snap, fields, k)),
    decreases fields.len() - k,
{
    if k < fields.len() {
        lemma_expand_embeds_known(snap, fields, k + 1);
        let seg = expand_field(snap, fields[k]);
        let rest = expand_fields_from(snap, fields, k + 1);
        assert forall|p: int|
            0 <= p < expand_fields_from(snap, fields, k).len() implies !field_unknown(
            snap,
            expand_fields_from(snap, fields, k)[p],
        ) by {
            if p < seg.len() {
                assert(expand_fields_from(snap, fields, k)[p] == seg[p]);
                match fields[k].pair {
                    FieldPairV::Embed { name } => {
                        assert(!field_unknown(snap, fields[k]));
                        lemma_lookup_some_struct(snap, name, 0);
                        let t = choose|t: int|
                            0 <= t < snap.len() && #[trigger] is_struct_named(
                                snap[t],
                                name,
                                lookup_struct_fields(snap, name)->Some_0,
                            );
                        assert(item_embeds_known(snap, snap[t]));
                        assert(fields_embeds_known(snap, snap[t]->Struct_0.fields));
                        assert(seg == snap[t]->Struct_0.fields);
                    },
                    _ => {
                        assert(seg[p] == fields[k]);
                    },
                }
            } else {
                assert(expand_fields_from(snap, fields, k)[p] == rest[p - seg.len()]);
            }
        }
    }
}

/// A pass preserves knownness of every embed: names of structs never change,
/// and candidate field lists only copy fields that were already present.
proof fn lemma_pass_preserves_known(items: Seq<ItemV>)
    requires
        all_embeds_known(items),
    ensures
        all_embeds_known(pass_items(items)),
{
    let p = pass_items(items);
    assert forall|k: int| 0 <= k < p.len() implies #[trigger] item_embeds_known(p, p[k]) by {
        assert(p[k] == pass_item(items, items[k]));
        match items[k] {
            ItemV::Struct(s) => {
                assert(item_embeds_known(items, items[k]));
                lemma_expand_embeds_known(items, s.fields, 0);
                let nf = expand_fields(items, s.fields);
                assert forall|i: int| 0 <= i < nf.len() implies !field_unknown(p, nf[i]) by {
                    assert(!field_unknown(items, nf[i]));
                    match nf[i].pair {
                        FieldPairV::Embed { name } => {
                            lemma_lookup_after_pass(items, name, 0);
                        },
                        _ => {},
                    }
                }
            },
            _ => {},
        }
    }
}

/// The pair of structs at `i` and `j` each hold an embed marker naming one of
/// the two, and each is the struct its own name resolves to.
pub open spec fn cyclic_pair(items: Seq<ItemV>, i: int, j: int) -> bool {
    &&& 0 <= i < items.len()
    &&& 0 <= j < items.len()
    &&& items[i] is Struct
    &&& items[j] is Struct
    &&& lookup_struct_fields(items, items[i]->Struct_0.name) == Some(items[i]->Struct_0.fields)
    &&& lookup_struct_fields(items, items[j]->Struct_0.name) == Some(items[j]->Struct_0.fields)
    &&& embeds_one_of(
        items[i]->Struct_0.fields,
        items[i]->Struct_0.name,
        items[j]->Struct_0.name,
    )
    &&& embeds_one_of(
        items[j]->Struct_0.fields,
        items[i]->Struct_0.name,
        items[j]->Struct_0.name,
    )
}

/// Expansion keeps an embed-of-the-pair in the candidate list: the marker is
/// replaced by the fields of one of the two structs, which hold one again.
proof fn lemma_expand_keeps_pair_embed(
    snap: Seq<ItemV>,
    fields: Seq<FieldV>,
    k: int,
    a: Seq<char>,
    b: Seq<char>,
    fa: Seq<FieldV>,
    fb: Seq<FieldV>,
)
    requires
        0 <= k,
        lookup_struct_fields(snap, a) == Some(fa),
        lookup_struct_fields(snap, b) == Some(fb),
        embeds_one_of(fa, a, b),
        embeds_one_of(fb, a, b),
        exists|t: int| k <= t < fields.len() && #[trigger] field_embeds_one_of(fields[t], a, b),
    ensures
        embeds_one_of(expand_fields_from(snap, fields, k), a, b),
    decreases fields.len() - k,
{
    let t = choose|t: int|
        k <= t < fields.len() && #[trigger] field_embeds_one_of(fields[t], a, b);
    let seg = expand_field(snap, fields[k]);
    let rest = expand_fields_from(snap, fields, k + 1);
    if t == k {
        match fields[k].pair {
            FieldPairV::Embed { name } => {
                assert(seg == if name == a {
                    fa
                } else {
                    fb
                });
                let u = choose|u: int|
                    0 <= u < seg.len() && #[trigger] field_embeds_one_of(seg[u], a, b);
                assert(expand_fields_from(snap, fields, k)[u] == seg[u]);
                assert(field_embeds_one_of(expand_fields_from(snap, fields, k)[u], a, b));
            },
            _ => {
                assert(false);
            },
        }
    } else {
        lemma_expand_keeps_pair_embed(snap, fields, k + 1, a, b, fa, fb);
        let u = choose|u: int| 0 <= u < rest.len() && #[trigger] field_embeds_one_of(rest[u], a, b);
        assert(expand_fields_from(snap, fields, k)[seg.len() + u] == rest[u]);
        assert(field_embeds_one_of(expand_fields_from(snap, fields, k)[seg.len() + u], a, b));
    }
}

/// A pass preserves the cyclic pair: both structs keep their names and each
/// candidate field list holds an embed of the pair again.
proof fn lemma_pass_preserves_pair(items: Seq<ItemV>, i: int, j: int)
    requires
        cyclic_pair(items, i, j),
    ensures
        cyclic_pair(pass_items(items), i, j),
{
    let p = pass_items(items);
    let a = items[i]->Struct_0.name;
    let b = items[j]->Struct_0.name;
    let fa = items[i]->Struct_0.fields;
    let fb = items[j]->Struct_0.fields;
    assert(p[i] == pass_item(items, items[i]));
    assert(p[j] == pass_item(items, items[j]));
    lemma_lookup_after_pass(items, a, 0);
    lemma_lookup_after_pass(items, b, 0);
    lemma_expand_keeps_pair_embed(items, fa, 0, a, b, fa, fb);
    lemma_expand_keeps_pair_embed(items, fb, 0, a, b, fa, fb);
    assert(p[i]->Struct_0.fields == expand_fields(items, fa));
    assert(p[j]->Struct_0.fields == expand_fields(items, fb));
}

/// Cycle termination: a schema holding two structs that embed each other, in
/// a schema whose embed targets all exist, never reaches a fixed point, so
/// resolution exhausts any pass budget and ends in the depth-exceeded
/// outcome instead of looping.
pub proof fn lemma_mutual_embed_depth_exceeded(items: Seq<ItemV>, i: int, j: int, budget: nat)
    requires
        0 <= i < items.len(),
        0 <= j < items.len(),
        items[i] is Struct,
        items[j] is Struct,
        lookup_struct_fields(items, items[i]->Struct_0.name) == Some(items[i]->Struct_0.fields),
        lookup_struct_fields(items, items[j]->Struct_0.name) == Some(items[j]->Struct_0.fields),
        fields_embed_name(items[i]->Struct_0.fields, items[j]->Struct_0.name),
        fields_embed_name(items[j]->Struct_0.fields, items[i]->Struct_0.name),
        all_embeds_known(items),
    ensures
        resolve_run(items, budget) is Depth,
{
    let a = items[i]->Struct_0.name;
    let b = items[j]->Struct_0.name;
    let fa = items[i]->Struct_0.fields;
    let fb = items[j]->Struct_0.fields;
    let ta = choose|t: int| 0 <= t < fa.len() && #[trigger] field_embeds_name(fa[t], b);
    assert(field_embeds_one_of(fa[ta], a, b));
    let tb = choose|t: int| 0 <= t < fb.len() && #[trigger] field_embeds_name(fb[t], a);
    assert(field_embeds_one_of(fb[tb], a, b));
    lemma_cycle_runs_out(items, i, j, budget);
}

/// The induction behind cycle termination, over the generalized invariant:
/// each struct of the pair embeds one of the pair.
proof fn lemma_cycle_runs_out(items: Seq<ItemV>, i: int, j: int, budget: nat)
    requires
        cyclic_pair(items, i, j),
        all_embeds_known(items),
    ensures
        resolve_run(items, budget) is Depth,
    decreases budget,
{
    let fa = items[i]->Struct_0.fields;
    let t = choose|t: int|
        0 <= t < fa.len() && #[trigger] field_embeds_one_of(
            fa[t],
            items[i]->Struct_0.name,
            items[j]->Struct_0.name,
        );
    assert(fa[t].pair is Embed);
    assert(fields_have_embed(fa));
    assert(item_has_embed(items[i]));
    assert(schema_has_embed(items));
    lemma_known_no_unknown(items, 0);
    if budget > 0 {
        lemma_pass_preserves_pair(items, i, j);
        lemma_pass_preserves_known(items);
        lemma_cycle_runs_out(pass_items(items), i, j, (budget - 1) as nat);
    }
}

/// Whatever schema resolution completes on holds no embed marker any more.
pub proof fn lemma_run_done_resolved(items: Seq<ItemV>, budget: nat)
    ensures
        resolve_run(items, budget) matches ResolveOutcome::Done(d) ==> !schema_has_embed(d),
    decreases budget,
{
    if schema_has_embed(items) && first_unknown(items) is None && budget > 0 {
        lemma_run_done_resolved(pass_items(items), (budget - 1) as nat);
    }
}

/// Resolution is idempotent: on a schema without embed markers it performs no
/// substitution and leaves the schema untouched, so re-resolving the result
/// of a successful resolution changes nothing.
pub proof fn lemma_resolution_idempotent(items: Seq<ItemV>, b1: nat, b2: nat)
    ensures
        resolve_run(items, b1) matches ResolveOutcome::Done(d) ==> resolve_run(d, b2)
            == ResolveOutcome::Done(d),
{
    lemma_run_done_resolved(items, b1);
}

// ---------------------------------------------------------------------------
// Executable resolver
// ---------------------------------------------------------------------------

/// Whether any struct of the schema still holds an embed marker.
pub fn spec_contains_embed(spec: &Spec) -> (r: bool)
    ensures
        r == schema_has_embed(spec@),
{
    let n = spec.0.len();
    for i in 0..n
        invariant
            n == spec.0.len(),
            forall|t: int| 0 <= t < i ==> !item_has_embed(spec@[t]),
    {
        match &spec.0[i] {
            SpecItem::StructDef(sd) => {
                let m = sd.fields.0.len();
                for j in 0..m
                    invariant
                        n == spec.0.len(),
                        i < n,
                        spec.0@[i as int] == SpecItem::StructDef(*sd),
                        m == sd.fields.0.len(),
                        forall|t: int| 0 <= t < j ==> !(sd.fields@[t].pair is Embed),
                {
                    if sd.fields.0[j].pair.is_embed() {
                        proof {
                            assert(sd.fields@[j as int].pair is Embed);
                            assert(fields_have_embed(sd.fields@));
                            assert(spec@[i as int] == ItemV::Struct(sd@));
                            assert(item_has_embed(spec@[i as int]));
                        }
                        return true;
                    }
                }
                proof {
                    assert(!fields_have_embed(sd.fields@));
                    assert(spec@[i as int] == ItemV::Struct(sd@));
                }
            },
            _ => {},
        }
    }
    false
}

/// First-match lookup of a struct's current field list by exact name.
fn lookup_fields<'a>(spec: &'a Spec, name: &String) -> (r: Option<&'a StructFields>)
    ensures
        match r {
            Some(fs) => lookup_struct_fields(spec@, name@) == Some(fs@),
            None => lookup_struct_fields(spec@, name@) is None,
        },
{
    let n = spec.0.len();
    for i in 0..n
        invariant
            n == spec.0.len(),
            lookup_fields_from(spec@, name@, 0) == lookup_fields_from(spec@, name@, i as int),
    {
        match &spec.0[i] {
            SpecItem::StructDef(sd) => {
                if sd.name == *name {
                    return Some(&sd.fields);
                }
            },
            _ => {},
        }
    }
    None
}

/// Append copies of the snapshot fields `src` to a candidate field list.
fn append_cloned_fields(dst: &mut Vec<FieldNode>, src: &StructFields)
    ensures
        field_nodes_view(final(dst)@) == field_nodes_view(old(dst)@) + src@,
{
    let n = src.0.len();
    for i in 0..n
        invariant
            n == src.0.len(),
            dst.len() == old(dst).len() + i,
            forall|k: int| 0 <= k < old(dst).len() ==> dst[k]@ == old(dst)[k]@,
            forall|k: int| 0 <= k < i ==> dst[old(dst).len() + k]@ == src.0[k]@,
    {
        dst.push(clone_field_node(&src.0[i]));
    }
    proof {
        assert(field_nodes_view(dst@) =~= field_nodes_view(old(dst)@) + src@);
    }
}

/// One resolution pass: substitute every embed marker by the snapshot fields
/// of the struct it names, one level deep, over the whole schema, and report
/// whether any substitution occurred. An embed marker naming a struct absent
/// from the schema fails the pass before anything is committed.
pub fn spec_resolve_embeds_one_level(spec: &mut Spec) -> (r: Result<bool, LibError>)
    ensures
        match r {
            Ok(changed) => {
                &&& first_unknown(old(spec)@) is None
                &&& final(spec)@ == pass_items(old(spec)@)
                &&& changed == schema_has_embed(old(spec)@)
            },
            Err(e) => {
                &&& final(spec)@ == old(spec)@
                &&& first_unknown(old(spec)@) is Some
                &&& match e {
                    LibError::UnknownEmbedTarget { name } => name@ == first_unknown(
                        old(spec)@,
                    )->Some_0,
                    _ => false,
                }
            },
        },
{
    let ghost snap = spec@;
    let mut new_items: Vec<SpecItem> = Vec::new();
    let mut changed = false;
    let n = spec.0.len();
    for idx in 0..n
        invariant
            spec.0 == old(spec).0,
            snap == spec@,
            n == spec.0.len(),
            snap.len() == n,
            new_items.len() == idx,
            forall|k: int| 0 <= k < idx ==> new_items[k]@ == pass_item(snap, snap[k]),
            first_unknown_from(snap, snap, 0) == first_unknown_from(snap, snap, idx as int),
            changed == exists|t: int| 0 <= t < idx && item_has_embed(snap[t]),
    {
        match &spec.0[idx] {
            SpecItem::StructDef(sd) => {
                let mut new_fields: Vec<FieldNode> = Vec::new();
                let m = sd.fields.0.len();
                let ghost entry_changed = changed;
                for fidx in 0..m
                    invariant
                        spec.0 == old(spec).0,
                        snap == spec@,
                        n == spec.0.len(),
                        snap.len() == n,
                        idx < n,
                        spec@[idx as int] == ItemV::Struct(sd@),
                        first_unknown_from(snap, snap, 0) == first_unknown_from(
                            snap,
                            snap,
                            idx as int,
                        ),
                        m == sd.fields.0.len(),
                        field_nodes_view(new_fields@) + expand_fields_from(
                            snap,
                            sd.fields@,
                            fidx as int,
                        ) == expand_fields(snap, sd.fields@),
                        first_unknown_in_fields_from(snap, sd.fields@, 0)
                            == first_unknown_in_fields_from(snap, sd.fields@, fidx as int),
                        changed == (entry_changed || exists|t: int|
                            0 <= t < fidx && sd.fields@[t].pair is Embed),
                        entry_changed == exists|t: int| 0 <= t < idx && item_has_embed(snap[t]),
                {
                    let fnode = &sd.fields.0[fidx];
                    if fnode.pair.is_embed() {
                        match lookup_fields(spec, fnode.pair.name()) {
                            Some(fs) => {
                                proof {
                                    assert(sd.fields@[fidx as int].pair is Embed);
                                    assert(fields_have_embed(sd.fields@));
                                    assert(expand_field(snap, sd.fields@[fidx as int]) == fs@);
                                }
                                changed = true;
                                append_cloned_fields(&mut new_fields, fs);
                                proof {
                                    assert(field_nodes_view(new_fields@) + expand_fields_from(
                                        snap,
                                        sd.fields@,
                                        fidx + 1,
                                    ) =~= expand_fields(snap, sd.fields@));
                                }
                            },
                            None => {
                                proof {
                                    assert(field_unknown(snap, sd.fields@[fidx as int]));
                                    assert(first_unknown_in_fields_from(snap, sd.fields@, fidx as int)
                                        == Some(pair_name(sd.fields@[fidx as int].pair)));
                                    assert(first_unknown_from(snap, snap, idx as int)
                                        == Some(pair_name(sd.fields@[fidx as int].pair)));
                                }
                                return Err(
                                    LibError::UnknownEmbedTarget { name: fnode.pair.name().clone() },
                                );
                            },
                        }
                    } else {
                        let copied = clone_field_node(fnode);
                        new_fields.push(copied);
                        proof {
                            assert(expand_field(snap, sd.fields@[fidx as int]) =~= seq![
                                sd.fields@[fidx as int],
                            ]);
                            assert(field_nodes_view(new_fields@) =~= field_nodes_view(
                                new_fields@.drop_last(),
                            ).push(sd.fields@[fidx as int]));
                            assert(field_nodes_view(new_fields@) + expand_fields_from(
                                snap,
                                sd.fields@,
                                fidx + 1,
                            ) =~= expand_fields(snap, sd.fields@));
                        }
                    }
                }
                let replacement = SpecItem::StructDef(
                    StructDef {
                        name: sd.name.clone(),
                        doc_comment: clone_opt_string(&sd.doc_comment),
                        fields: StructFields(new_fields),
                    },
                );
                proof {
                    assert(expand_fields_from(snap, sd.fields@, m as int) =~= Seq::<FieldV>::empty());
                    assert(field_nodes_view(replacement->StructDef_0.fields.0@) =~= expand_fields(
                        snap,
                        sd.fields@,
                    ));
                    assert(replacement@ == pass_item(snap, snap[idx as int]));
                    assert(sd.fields@.len() == m);
                    assert(first_unknown_in_fields_from(snap, sd.fields@, m as int) is None);
                    assert(first_unknown_from(snap, snap, idx as int) == first_unknown_from(
                        snap,
                        snap,
                        idx + 1,
                    ));
                    assert((exists|t: int| 0 <= t < m && sd.fields@[t].pair is Embed)
                        == fields_have_embed(sd.fields@));
                    assert(item_has_embed(snap[idx as int]) == fields_have_embed(sd.fields@));
                    assert(changed == (entry_changed || item_has_embed(snap[idx as int])));
                    assert(changed == (exists|t: int|
                        0 <= t < idx + 1 && item_has_embed(snap[t]))) by {
                        if changed {
                            if entry_changed {
                                let t = choose|t: int| 0 <= t < idx && item_has_embed(snap[t]);
                                assert(0 <= t < idx + 1 && item_has_embed(snap[t]));
                            } else {
                                assert(0 <= idx < idx + 1 && item_has_embed(snap[idx as int]));
                            }
                        } else {
                            if exists|t: int| 0 <= t < idx + 1 && item_has_embed(snap[t]) {
                                let t = choose|t: int|
                                    0 <= t < idx + 1 && item_has_embed(snap[t]);
                                if t < idx {
                                    assert(exists|u: int|
                                        0 <= u < idx && item_has_embed(snap[u]));
                                } else {
                                    assert(item_has_embed(snap[idx as int]));
                                }
                                assert(false);
                            }
                        }
                    };
                }
                new_items.push(replacement);
            },
            it => {
                let copied = clone_spec_item(it);
                proof {
                    assert(snap[idx as int] == spec.0@[idx as int]@);
                    assert(copied@ == pass_item(snap, snap[idx as int]));
                    assert(!item_has_embed(snap[idx as int]));
                    assert(first_unknown_from(snap, snap, idx as int) == first_unknown_from(
                        snap,
                        snap,
                        idx + 1,
                    ));
                    assert((exists|t: int| 0 <= t < idx + 1 && item_has_embed(snap[t])) == (
                    exists|t: int| 0 <= t < idx && item_has_embed(snap[t]))) by {
                        if exists|t: int| 0 <= t < idx + 1 && item_has_embed(snap[t]) {
                            let t = choose|t: int| 0 <= t < idx + 1 && item_has_embed(snap[t]);
                            assert(t < idx);
                            assert(exists|u: int| 0 <= u < idx && item_has_embed(snap[u]));
                        }
                    };
                }
                new_items.push(copied);
            },
        }
    }
    spec.0 = new_items;
    proof {
        assert(spec@ =~= pass_items(snap));
        assert(changed == schema_has_embed(snap));
    }
    Ok(changed)
}

/// Resolve every embed marker in the schema, expanding one nesting level per
/// pass until a pass performs no substitution. An embed marker naming a
/// struct absent from the schema is fatal, as is exhausting the fixed pass
/// budget, which an embed cycle always does.
pub fn resolve_embeds(spec: &mut Spec) -> (r: Result<(), LibError>)
    ensures
        match resolve_run(old(spec)@, MAX_EMBED_DEPTH as nat) {
            ResolveOutcome::Done(s) => r is Ok && final(spec)@ == s,
            ResolveOutcome::Unknown(nm, s) => final(spec)@ == s && match r {
                Err(LibError::UnknownEmbedTarget { name }) => name@ == nm,
                _ => false,
            },
            ResolveOutcome::Depth(s) => final(spec)@ == s && match r {
                Err(LibError::EmbedDepthExceeded { max_depth }) => max_depth == MAX_EMBED_DEPTH,
                _ => false,
            },
        },
{
    let mut budget: usize = MAX_EMBED_DEPTH;
    loop
        invariant
            budget <= MAX_EMBED_DEPTH,
            resolve_run(old(spec)@, MAX_EMBED_DEPTH as nat) == resolve_run(spec@, budget as nat),
        decreases budget,
    {
        if !spec_contains_embed(spec) {
            return Ok(());
        }
        match spec_resolve_embeds_one_level(spec) {
            Ok(_) => {},
            Err(e) => {
                return Err(e);
            },
        }
        if budget == 0 {
            return Err(LibError::EmbedDepthExceeded { max_depth: MAX_EMBED_DEPTH });
        }
        budget = budget - 1;
    }
}

} // verus!
