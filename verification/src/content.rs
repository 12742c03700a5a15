//! Chunk items and the immutable content of a chunk.
use crate::error::ChunkError;
use crate::ident::{idents_view, AssetIdent, IdentView};
use crate::unique::{extend_unique, lemma_extend_unique_step, push_unique};
use vstd::prelude::*;

verus! {

/// The compiled form of one module as it takes part in a chunk.
#[derive(Debug, PartialEq, Eq)]
pub struct ChunkItem {
    /// The item's own identity.
    pub ident: AssetIdent,
    /// The identity of the module that the item was compiled from.
    pub module: AssetIdent,
    /// The output assets that the item refers to at run time.
    pub references: Vec<AssetIdent>,
}

/// The mathematical value of a [`ChunkItem`].
pub struct ItemView {
    pub ident: IdentView,
    pub module: IdentView,
    pub references: Seq<IdentView>,
}

impl View for ChunkItem {
    type V = ItemView;

    open spec fn view(&self) -> ItemView {
        ItemView {
            ident: self.ident@,
            module: self.module@,
            references: idents_view(self.references@),
        }
    }
}

impl Clone for ChunkItem {
    fn clone(&self) -> (r: Self)
        ensures
            r@ == self@,
    {
        ChunkItem {
            ident: self.ident.clone(),
            module: self.module.clone(),
            references: clone_idents(&self.references),
        }
    }
}

/// The views of a sequence of chunk items, element by element.
pub open spec fn items_view(v: Seq<ChunkItem>) -> Seq<ItemView> {
    v.map_values(|c: ChunkItem| c@)
}

/// The identities of the given items, in order.
pub open spec fn item_idents(items: Seq<ItemView>) -> Seq<IdentView> {
    items.map_values(|c: ItemView| c.ident)
}

/// No two items share an identity.
pub open spec fn distinct_idents(items: Seq<ItemView>) -> bool {
    forall|i: int, j: int| 0 <= i < j < items.len() ==> items[i].ident != items[j].ident
}

/// The deduplicated union of the items' references, in order of first occurrence.
pub open spec fn referenced_assets(items: Seq<ItemView>) -> Seq<IdentView>
    decreases items.len(),
{
    if items.len() == 0 {
        Seq::empty()
    } else {
        extend_unique(referenced_assets(items.drop_last()), items.last().references)
    }
}

/// The mathematical value of a [`ChunkContent`].
pub struct ContentView {
    pub chunk_items: Seq<ItemView>,
    pub chunk_group_root: Option<IdentView>,
    pub referenced_output_assets: Seq<IdentView>,
}

/// The view of an optional identity.
pub open spec fn option_view(o: Option<AssetIdent>) -> Option<IdentView> {
    match o {
        Some(a) => Some(a@),
        None => None,
    }
}

/// The selected chunk items, the availability root they were selected under, and the output
/// assets they refer to. Fixed once built.
#[derive(Debug, PartialEq, Eq)]
pub struct ChunkContent {
    chunk_items: Vec<ChunkItem>,
    chunk_group_root: Option<AssetIdent>,
    referenced_output_assets: Vec<AssetIdent>,
}

impl View for ChunkContent {
    type V = ContentView;

    closed spec fn view(&self) -> ContentView {
        ContentView {
            chunk_items: items_view(self.chunk_items@),
            chunk_group_root: option_view(self.chunk_group_root),
            referenced_output_assets: idents_view(self.referenced_output_assets@),
        }
    }
}

/// The failure of the first item that failed to resolve, if any did.
pub open spec fn first_failure(items: Seq<Result<ChunkItem, ChunkError>>) -> Option<ChunkError>
    decreases items.len(),
{
    if items.len() == 0 {
        None
    } else {
        match first_failure(items.drop_last()) {
            Some(e) => Some(e),
            None => match items.last() {
                Ok(_) => None,
                Err(e) => Some(e),
            },
        }
    }
}

/// The views of the items, for items that all resolved.
pub open spec fn resolved_items(items: Seq<Result<ChunkItem, ChunkError>>) -> Seq<ItemView> {
    items.map_values(|i: Result<ChunkItem, ChunkError>| i->Ok_0@)
}

/// What resolving the items and the availability root of a chunk comes to: the failure of
/// the first item that failed; else that of the root; else, where two items share an
/// identity, that; else the content made of them.
pub open spec fn resolution(
    items: Seq<Result<ChunkItem, ChunkError>>,
    root: Option<Result<AssetIdent, ChunkError>>,
) -> Result<ContentView, ChunkError> {
    match (first_failure(items), root) {
        (Some(e), _) => Err(e),
        (None, Some(Err(e))) => Err(e),
        (None, _) => if distinct_idents(resolved_items(items)) {
            Ok(
                ContentView {
                    chunk_items: resolved_items(items),
                    chunk_group_root: match root {
                        Some(Ok(r)) => Some(r@),
                        _ => None,
                    },
                    referenced_output_assets: referenced_assets(resolved_items(items)),
                },
            )
        } else {
            Err(ChunkError::DuplicateItem)
        },
    }
}

/// Whether `v` holds an identity equal to `x`.
pub fn contains_ident(v: &Vec<AssetIdent>, x: &AssetIdent) -> (r: bool)
    ensures
        r == idents_view(v@).contains(x@),
{
    let mut i: usize = 0;
    while i < v.len()
        invariant
            i <= v.len(),
            forall|j: int| 0 <= j < i ==> idents_view(v@)[j] != x@,
        decreases v.len() - i,
    {
        if v[i].same_as(x) {
            assert(idents_view(v@)[i as int] == x@);
            return true;
        }
        i += 1;
    }
    false
}

/// A copy of `v`, identity by identity.
pub fn clone_idents(v: &Vec<AssetIdent>) -> (r: Vec<AssetIdent>)
    ensures
        idents_view(r@) == idents_view(v@),
{
    let mut out: Vec<AssetIdent> = Vec::new();
    let mut i: usize = 0;
    while i < v.len()
        invariant
            i <= v.len(),
            out.len() == i,
            forall|j: int| 0 <= j < i ==> out[j]@ == v[j]@,
        decreases v.len() - i,
    {
        out.push(v[i].clone());
        i += 1;
    }
    assert(idents_view(out@) =~= idents_view(v@));
    out
}

/// Whether no two of the items share an identity.
fn has_distinct_idents(items: &Vec<ChunkItem>) -> (r: bool)
    ensures
        r == distinct_idents(items_view(items@)),
{
    let mut j: usize = 0;
    while j < items.len()
        invariant
            j <= items.len(),
            forall|a: int, b: int| 0 <= a < b < j ==> items[a]@.ident != items[b]@.ident,
        decreases items.len() - j,
    {
        let mut i: usize = 0;
        while i < j
            invariant
                i <= j,
                j < items.len(),
                forall|a: int| 0 <= a < i ==> items[a]@.ident != items[j as int]@.ident,
            decreases j - i,
        {
            if items[i].ident.same_as(&items[j].ident) {
                assert(items_view(items@)[i as int].ident == items_view(items@)[j as int].ident);
                return false;
            }
            i += 1;
        }
        j += 1;
    }
    true
}

/// The deduplicated union of the items' references.
fn collect_references(items: &Vec<ChunkItem>) -> (r: Vec<AssetIdent>)
    ensures
        idents_view(r@) == referenced_assets(items_view(items@)),
{
    let ghost all = items_view(items@);
    let mut out: Vec<AssetIdent> = Vec::new();
    let mut k: usize = 0;
    assert(idents_view(out@) =~= referenced_assets(all.take(0)));
    while k < items.len()
        invariant
            k <= items.len(),
            all == items_view(items@),
            idents_view(out@) == referenced_assets(all.take(k as int)),
        decreases items.len() - k,
    {
        let item = &items[k];
        let ghost start = idents_view(out@);
        let ghost refs = item@.references;
        let mut m: usize = 0;
        assert(refs.take(0) =~= Seq::<IdentView>::empty());
        while m < item.references.len()
            invariant
                m <= item.references.len(),
                refs == idents_view(item.references@),
                idents_view(out@) == extend_unique(start, refs.take(m as int)),
            decreases item.references.len() - m,
        {
            let candidate = &item.references[m];
            proof {
                lemma_extend_unique_step(start, refs, m as int);
            }
            if !contains_ident(&out, candidate) {
                let ghost before = idents_view(out@);
                out.push(candidate.clone());
                assert(idents_view(out@) =~= before.push(candidate@));
            }
            m += 1;
        }
        proof {
            assert(refs.take(m as int) =~= refs);
            assert(all.take(k + 1).drop_last() =~= all.take(k as int));
            assert(all.take(k + 1).last() == item@);
        }
        k += 1;
    }
    assert(all.take(k as int) =~= all);
    out
}

/// A failure among the first `n` items is the first failure among all of them.
pub proof fn lemma_first_failure_stays(items: Seq<Result<ChunkItem, ChunkError>>, n: int)
    requires
        0 <= n <= items.len(),
        first_failure(items.take(n)).is_some(),
    ensures
        first_failure(items) == first_failure(items.take(n)),
    decreases items.len() - n,
{
    if n < items.len() {
        assert(items.take(n + 1).drop_last() =~= items.take(n));
        lemma_first_failure_stays(items, n + 1);
    } else {
        assert(items.take(n) =~= items);
    }
}

impl ChunkContent {
    /// The content is valid: no two items share an identity, and the referenced output assets
    /// are the deduplicated union of the items' references.
    #[verifier::type_invariant]
    closed spec fn well_formed(self) -> bool {
        &&& distinct_idents(items_view(self.chunk_items@))
        &&& idents_view(self.referenced_output_assets@) == referenced_assets(
            items_view(self.chunk_items@),
        )
    }

    /// Builds the content of a chunk from the selected items, kept in the given order, and
    /// the availability root. `None` exactly when two items share an identity.
    pub fn new(chunk_items: Vec<ChunkItem>, chunk_group_root: Option<AssetIdent>) -> (r: Option<
        ChunkContent,
    >)
        ensures
            r.is_some() == distinct_idents(items_view(chunk_items@)),
            r matches Some(c) ==> c@ == (ContentView {
                chunk_items: items_view(chunk_items@),
                chunk_group_root: option_view(chunk_group_root),
                referenced_output_assets: referenced_assets(items_view(chunk_items@)),
            }),
    {
        if !has_distinct_idents(&chunk_items) {
            return None;
        }
        let referenced_output_assets = collect_references(&chunk_items);
        Some(ChunkContent { chunk_items, chunk_group_root, referenced_output_assets })
    }

    /// Builds the content of a chunk from items and an availability root that each resolved
    /// or failed. One failure fails the whole: there is no content of a part of the items.
    pub fn resolve(
        items: &Vec<Result<ChunkItem, ChunkError>>,
        root: &Option<Result<AssetIdent, ChunkError>>,
    ) -> (r: Result<ChunkContent, ChunkError>)
        ensures
            match resolution(items@, *root) {
                Ok(c) => r is Ok && r->Ok_0@ == c,
                Err(e) => r == Err::<ChunkContent, ChunkError>(e),
            },
    {
        let mut resolved: Vec<ChunkItem> = Vec::new();
        let mut k: usize = 0;
        assert(items_view(resolved@) =~= resolved_items(items@.take(0)));
        while k < items.len()
            invariant
                k <= items.len(),
                first_failure(items@.take(k as int)).is_none(),
                items_view(resolved@) == resolved_items(items@.take(k as int)),
            decreases items.len() - k,
        {
            assert(items@.take(k + 1).drop_last() =~= items@.take(k as int));
            match &items[k] {
                Ok(item) => {
                    let ghost before = items_view(resolved@);
                    resolved.push(item.clone());
                    assert(items_view(resolved@) =~= before.push(item@));
                    assert(resolved_items(items@.take(k + 1)) =~= resolved_items(
                        items@.take(k as int),
                    ).push(item@));
                },
                Err(e) => {
                    proof {
                        lemma_first_failure_stays(items@, k + 1);
                    }
                    return Err(e.clone());
                },
            }
            k += 1;
        }
        assert(items@.take(k as int) =~= items@);
        let chunk_group_root = match root {
            Some(Ok(root)) => Some(root.clone()),
            Some(Err(e)) => {
                return Err(e.clone());
            },
            None => None,
        };
        match ChunkContent::new(resolved, chunk_group_root) {
            Some(content) => Ok(content),
            None => Err(ChunkError::DuplicateItem),
        }
    }

    /// The contained chunk items, in stored order.
    pub fn chunk_items(&self) -> (r: &Vec<ChunkItem>)
        ensures
            items_view(r@) == self@.chunk_items,
            distinct_idents(self@.chunk_items),
    {
        proof {
            use_type_invariant(self);
        }
        &self.chunk_items
    }

    /// The availability root, if the content was built under one.
    pub fn chunk_group_root(&self) -> (r: &Option<AssetIdent>)
        ensures
            option_view(*r) == self@.chunk_group_root,
    {
        &self.chunk_group_root
    }

    /// The output assets that the contained items refer to, each once.
    pub fn referenced_output_assets(&self) -> (r: &Vec<AssetIdent>)
        ensures
            idents_view(r@) == self@.referenced_output_assets,
            idents_view(r@) == referenced_assets(self@.chunk_items),
    {
        proof {
            use_type_invariant(self);
        }
        &self.referenced_output_assets
    }
}

} // verus!
