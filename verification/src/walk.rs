//! The read-only walk over a schema tree.
//!
//! The walk is depth first and takes the fields of every structure in the
//! order in which they were declared. It lists the leaves, each with the
//! dotted path that leads to it from the root.

use vstd::prelude::*;
use vstd::string::*;
use crate::error::{Error, ErrorInner};
use crate::meta::{Field, FieldKind, LeafKind, Meta};
use crate::text::{dotted, join_path, prefix_view};

verus! {

/// A leaf of a schema tree, as the walk hands it out.
#[derive(Debug, Clone, PartialEq)]
pub struct Leaf {
    /// The names of the fields from the root to this leaf, joined by dots.
    pub path: String,
    /// The environment variable that feeds this leaf, if any.
    pub env: Option<&'static str>,
    /// Whether a value is mandatory, and the default if there is one.
    pub kind: LeafKind,
}

/// A [`Leaf`] with its path as a sequence of characters.
pub struct LeafView {
    pub path: Seq<char>,
    pub env: Option<&'static str>,
    pub kind: LeafKind,
}

impl View for Leaf {
    type V = LeafView;

    open spec fn view(&self) -> LeafView {
        LeafView { path: self.path@, env: self.env, kind: self.kind }
    }
}

impl LeafView {
    /// Whether a configuration is incomplete unless a source gives this leaf
    /// a value: the leaf is required and has no default.
    pub open spec fn needs_source(self) -> bool {
        self.kind == (LeafKind::Required { default: None })
    }
}

impl Leaf {
    /// The error to report where no source gives this leaf a value: a missing
    /// value under the leaf's dotted path if the leaf is required and has no
    /// default, and none otherwise.
    pub fn missing_value(&self) -> (r: Option<Error>)
        ensures
            r is Some <==> self@.needs_source(),
            r matches Some(e) ==> (*e.inner matches ErrorInner::MissingValue(path) && path@
                == self.path@),
    {
        match self.kind {
            LeafKind::Required { default: None } => Some(
                Error::from(ErrorInner::MissingValue(self.path.clone())),
            ),
            LeafKind::Required { default: Some(_) } => None,
            LeafKind::Optional => None,
        }
    }
}

/// The views of a list of leaves.
pub open spec fn leaf_views(leaves: Seq<Leaf>) -> Seq<LeafView> {
    leaves.map_values(|l: Leaf| l@)
}

impl Meta {
    /// The leaves of this schema in the order of the walk, as seen from a
    /// place with the path `prefix` (`None` at the root).
    pub open spec fn spec_leaves(self, prefix: Option<Seq<char>>) -> Seq<LeafView>
        decreases self,
    {
        leaves_upto(self.fields@, prefix, self.fields@.len() as int)
    }

    /// Walks the schema depth first, fields in declaration order, and lists
    /// its leaves with their dotted paths.
    pub fn leaves(&self) -> (out: Vec<Leaf>)
        ensures
            leaf_views(out@) == self.spec_leaves(None),
    {
        let mut out: Vec<Leaf> = Vec::new();
        collect(self, None, &mut out);
        out
    }
}

/// The leaves that one field contributes: itself if it is a leaf, else the
/// leaves of the nested schema under the field's own path.
pub open spec fn field_leaves(field: Field, prefix: Option<Seq<char>>) -> Seq<LeafView>
    decreases field,
{
    match field.kind {
        FieldKind::Leaf { env, kind } => seq![
            LeafView { path: dotted(prefix, field.name@), env, kind },
        ],
        FieldKind::Nested { meta } => meta.spec_leaves(Some(dotted(prefix, field.name@))),
    }
}

/// The leaves of the first `n` fields: those of the first field, then those
/// of the second, and so on.
pub open spec fn leaves_upto(fields: Seq<Field>, prefix: Option<Seq<char>>, n: int) -> Seq<LeafView>
    decreases fields, n,
{
    if 0 < n <= fields.len() {
        leaves_upto(fields, prefix, n - 1) + field_leaves(fields[n - 1], prefix)
    } else {
        Seq::empty()
    }
}

/// Appends the leaves of `meta`, seen from `prefix`, to `out`.
fn collect(meta: &Meta, prefix: Option<&str>, out: &mut Vec<Leaf>)
    ensures
        leaf_views(final(out)@) == leaf_views(old(out)@) + meta.spec_leaves(prefix_view(prefix)),
    decreases *meta,
{
    let ghost before = leaf_views(out@);
    let mut i: usize = 0;
    while i < meta.fields.len()
        invariant
            i <= meta.fields.len(),
            leaf_views(out@) == before + leaves_upto(meta.fields@, prefix_view(prefix), i as int),
        decreases meta.fields.len() - i,
    {
        let field = &meta.fields[i];
        let path = join_path(prefix, field.name);
        let ghost so_far = leaf_views(out@);
        match field.kind {
            FieldKind::Leaf { env, kind } => {
                out.push(Leaf { path, env, kind });
                assert(leaf_views(out@) =~= so_far + field_leaves(*field, prefix_view(prefix)));
            },
            FieldKind::Nested { meta: inner } => {
                collect(inner, Some(path.as_str()), out);
            },
        }
        i = i + 1;
    }
}

/// The leaves of the first `n` fields are the leaves of the first `m`
/// fields, followed by more.
pub proof fn lemma_leaves_upto_extends(
    fields: Seq<Field>,
    prefix: Option<Seq<char>>,
    m: int,
    n: int,
)
    requires
        0 <= m <= n <= fields.len(),
    ensures
        leaves_upto(fields, prefix, m).len() <= leaves_upto(fields, prefix, n).len(),
        leaves_upto(fields, prefix, n).subrange(0, leaves_upto(fields, prefix, m).len() as int)
            == leaves_upto(fields, prefix, m),
    decreases n - m,
{
    if m < n {
        lemma_leaves_upto_extends(fields, prefix, m, n - 1);
    }
}

/// The walk follows the declaration order. The leaves that the field at
/// index `i` contributes stand together in the enumeration of the schema,
/// right behind the leaves of the fields declared before it, and so before
/// the leaves of every field declared after it.
pub proof fn law_walk_follows_declaration_order(meta: Meta, prefix: Option<Seq<char>>, i: int)
    requires
        0 <= i < meta.fields@.len(),
    ensures
        ({
            let all = meta.spec_leaves(prefix);
            let earlier = leaves_upto(meta.fields@, prefix, i);
            let own = field_leaves(meta.fields@[i], prefix);
            &&& earlier.len() + own.len() <= all.len()
            &&& all.subrange(0, earlier.len() as int) == earlier
            &&& all.subrange(earlier.len() as int, (earlier.len() + own.len()) as int) == own
        }),
{
    let fields = meta.fields@;
    let earlier = leaves_upto(fields, prefix, i);
    let own = field_leaves(fields[i], prefix);
    let upto_own = leaves_upto(fields, prefix, i + 1);
    // The whole enumeration starts with the leaves up to field `i`, and with
    // the leaves up to and including it; the second is the first, then `own`.
    lemma_leaves_upto_extends(fields, prefix, i, fields.len() as int);
    lemma_leaves_upto_extends(fields, prefix, i + 1, fields.len() as int);
    assert(upto_own.subrange(earlier.len() as int, (earlier.len() + own.len()) as int) =~= own);
}

/// Where every field of a schema is a leaf, the walk lists exactly the
/// fields, one leaf for each, in declaration order, under the field's name.
pub proof fn law_flat_schema_lists_its_fields(meta: Meta, prefix: Option<Seq<char>>)
    requires
        forall|i: int| 0 <= i < meta.fields@.len() ==> (#[trigger] meta.fields@[i]).kind is Leaf,
    ensures
        meta.spec_leaves(prefix).len() == meta.fields@.len(),
        forall|i: int|
            0 <= i < meta.fields@.len() ==> (#[trigger] meta.spec_leaves(prefix)[i]).path
                == dotted(prefix, meta.fields@[i].name@),
        forall|i: int|
            0 <= i < meta.fields@.len() ==> field_leaves(meta.fields@[i], prefix) == seq![
                #[trigger] meta.spec_leaves(prefix)[i],
            ],
{
    lemma_flat_upto(meta.fields@, prefix, meta.fields@.len() as int);
}

/// The statement of [`law_flat_schema_lists_its_fields`] for the first `n`
/// fields.
proof fn lemma_flat_upto(fields: Seq<Field>, prefix: Option<Seq<char>>, n: int)
    requires
        0 <= n <= fields.len(),
        forall|i: int| 0 <= i < fields.len() ==> (#[trigger] fields[i]).kind is Leaf,
    ensures
        leaves_upto(fields, prefix, n).len() == n,
        forall|i: int|
            0 <= i < n ==> (#[trigger] leaves_upto(fields, prefix, n)[i]).path == dotted(
                prefix,
                fields[i].name@,
            ),
        forall|i: int|
            0 <= i < n ==> field_leaves(fields[i], prefix) == seq![
                #[trigger] leaves_upto(fields, prefix, n)[i],
            ],
    decreases n,
{
    if n > 0 {
        lemma_flat_upto(fields, prefix, n - 1);
        let shorter = leaves_upto(fields, prefix, n - 1);
        let longer = leaves_upto(fields, prefix, n);
        // The last field is a leaf and adds one entry behind the others.
        assert(longer == shorter + field_leaves(fields[n - 1], prefix));
        assert forall|i: int| 0 <= i < n implies (#[trigger] longer[i]).path == dotted(
            prefix,
            fields[i].name@,
        ) && field_leaves(fields[i], prefix) == seq![longer[i]] by {}
    }
}

/// The path of a leaf is made of the names of the fields on the way to it.
/// Where the field at index `i` of a schema is nested, and the field at index
/// `j` of the nested schema is a leaf, the walk lists that leaf under the
/// path of the outer field, a dot, and the name of the inner field.
pub proof fn law_nested_leaf_path(meta: Meta, prefix: Option<Seq<char>>, i: int, j: int) -> (k: int)
    requires
        0 <= i < meta.fields@.len(),
        meta.fields@[i].kind is Nested,
        0 <= j < meta.fields@[i].kind->meta.fields@.len(),
        meta.fields@[i].kind->meta.fields@[j].kind is Leaf,
    ensures
        0 <= k < meta.spec_leaves(prefix).len(),
        meta.spec_leaves(prefix)[k].path == dotted(
            Some(dotted(prefix, meta.fields@[i].name@)),
            meta.fields@[i].kind->meta.fields@[j].name@,
        ),
        meta.spec_leaves(prefix)[k].env == meta.fields@[i].kind->meta.fields@[j].kind->env,
        meta.spec_leaves(prefix)[k].kind == meta.fields@[i].kind->meta.fields@[j].kind->kind,
{
    let outer = meta.fields@[i];
    let inner = *outer.kind->meta;
    let under = Some(dotted(prefix, outer.name@));
    law_walk_follows_declaration_order(meta, prefix, i);
    law_walk_follows_declaration_order(inner, under, j);
    // The leaf stands at `at` among the leaves of the nested schema, which
    // start at `start` in the enumeration of the whole.
    let own = field_leaves(outer, prefix);
    let start = leaves_upto(meta.fields@, prefix, i).len() as int;
    let at = leaves_upto(inner.fields@, under, j).len() as int;
    assert(own.subrange(at, at + 1)[0] == own[at]);
    start + at
}

} // verus!
