//! Laws of chunk identity, references and introspection.
use crate::chunk::{
    children_of, derived_ident, details_text, item_lines, item_qualifiers, module_children,
    reference_children, root_qualifiers, ChildKind,
};
use crate::content::{referenced_assets, ContentView, ItemView};
use crate::ident::{ident_text, IdentView, QualifierKind};
use crate::unique::lemma_extend_unique;
use vstd::prelude::*;

verus! {

/// The identity of a chunk, and so its string form, is decided by the base identity, the
/// identities of the contained items in their order, and the availability root: the same
/// inputs give the same identity.
pub proof fn lemma_ident_deterministic(
    base1: IdentView,
    items1: Seq<IdentView>,
    root1: Option<IdentView>,
    base2: IdentView,
    items2: Seq<IdentView>,
    root2: Option<IdentView>,
)
    requires
        base1 == base2,
        items1 == items2,
        root1 == root2,
    ensures
        derived_ident(base1, items1, root1) == derived_ident(base2, items2, root2),
        ident_text(derived_ident(base1, items1, root1)) == ident_text(
            derived_ident(base2, items2, root2),
        ),
{
}

/// Over one base identity, equal chunk identities come only from the same items in the same
/// order under the same availability root.
pub proof fn lemma_ident_injective(
    base: IdentView,
    items1: Seq<IdentView>,
    root1: Option<IdentView>,
    items2: Seq<IdentView>,
    root2: Option<IdentView>,
)
    requires
        derived_ident(base, items1, root1) == derived_ident(base, items2, root2),
    ensures
        items1 == items2,
        root1 == root2,
{
    let a1 = derived_ident(base, items1, root1).assets;
    let a2 = derived_ident(base, items2, root2).assets;
    let n = base.assets.len() as int;
    assert(a1 == a2);
    assert(a1.len() == n + items1.len() + root_qualifiers(root1).len());
    assert(a2.len() == n + items2.len() + root_qualifiers(root2).len());
    if items1.len() < items2.len() {
        let k = items1.len() as int;
        assert(root1 is Some);
        assert(a1[n + k] == (QualifierKind::AvailabilityRoot, root1->0));
        assert(a2[n + k] == (QualifierKind::ChunkItem, items2[k]));
    } else if items2.len() < items1.len() {
        let k = items2.len() as int;
        assert(root2 is Some);
        assert(a2[n + k] == (QualifierKind::AvailabilityRoot, root2->0));
        assert(a1[n + k] == (QualifierKind::ChunkItem, items1[k]));
    } else {
        let k = items1.len() as int;
        assert forall|i: int| 0 <= i < k implies items1[i] == items2[i] by {
            assert(a1[n + i] == (QualifierKind::ChunkItem, items1[i]));
            assert(a2[n + i] == (QualifierKind::ChunkItem, items2[i]));
        }
        assert(items1 =~= items2);
        if root1 is Some {
            assert(root2 is Some);
            assert(a1[n + k] == (QualifierKind::AvailabilityRoot, root1->0));
            assert(a2[n + k] == (QualifierKind::AvailabilityRoot, root2->0));
        }
    }
}

/// Two chunks over one base identity whose item identities differ, as sequences or as sets,
/// have different identities, whatever their availability roots.
pub proof fn lemma_membership_sensitive(
    base: IdentView,
    items1: Seq<IdentView>,
    root1: Option<IdentView>,
    items2: Seq<IdentView>,
    root2: Option<IdentView>,
)
    requires
        items1 != items2 || items1.to_set() != items2.to_set(),
    ensures
        derived_ident(base, items1, root1) != derived_ident(base, items2, root2),
{
    if derived_ident(base, items1, root1) == derived_ident(base, items2, root2) {
        lemma_ident_injective(base, items1, root1, items2, root2);
    }
}

/// Two chunks built under different availability roots have different identities, whatever
/// their base identities and items; and over one base identity and the same items, a chunk
/// built under a root differs from the one built under none.
pub proof fn lemma_context_sensitive(
    base1: IdentView,
    items1: Seq<IdentView>,
    root1: IdentView,
    base2: IdentView,
    items2: Seq<IdentView>,
    root2: IdentView,
)
    requires
        root1 != root2,
    ensures
        derived_ident(base1, items1, Some(root1)) != derived_ident(base2, items2, Some(root2)),
        derived_ident(base1, items1, Some(root1)) != derived_ident(base1, items1, None),
{
    let a1 = derived_ident(base1, items1, Some(root1)).assets;
    let a2 = derived_ident(base2, items2, Some(root2)).assets;
    assert(a1.last() == (QualifierKind::AvailabilityRoot, root1));
    assert(a2.last() == (QualifierKind::AvailabilityRoot, root2));
    assert(a1.len() == derived_ident(base1, items1, None).assets.len() + 1);
}

/// A chunk without items and without availability root has its base identity.
pub proof fn lemma_empty_chunk_ident(base: IdentView)
    ensures
        derived_ident(base, Seq::empty(), None) == base,
{
    assert(derived_ident(base, Seq::empty(), None).assets =~= base.assets);
}

/// Whether some item refers to `x`.
pub open spec fn some_item_references(items: Seq<ItemView>, x: IdentView) -> bool {
    exists|i: int| 0 <= i < items.len() && (#[trigger] items[i]).references.contains(x)
}

/// The referenced output assets hold each asset once, and hold exactly the assets that some
/// item refers to.
pub proof fn lemma_references_complete(items: Seq<ItemView>)
    ensures
        referenced_assets(items).no_duplicates(),
        forall|x: IdentView| #[trigger]
            referenced_assets(items).contains(x) <==> some_item_references(items, x),
    decreases items.len(),
{
    if items.len() > 0 {
        let front = items.drop_last();
        lemma_references_complete(front);
        lemma_extend_unique(referenced_assets(front), items.last().references);
        assert forall|x: IdentView| #[trigger]
            referenced_assets(items).contains(x) <==> some_item_references(items, x) by {
            if some_item_references(front, x) {
                let i = choose|i: int|
                    0 <= i < front.len() && (#[trigger] front[i]).references.contains(x);
                assert(items[i].references.contains(x));
            }
            if items.last().references.contains(x) {
                assert(items[items.len() - 1].references.contains(x));
            }
            if some_item_references(items, x) {
                let i = choose|i: int|
                    0 <= i < items.len() && (#[trigger] items[i]).references.contains(x);
                if i < front.len() {
                    assert(front[i].references.contains(x));
                }
            }
        }
    }
}

/// After adding an item that refers to `x`, `x` is among the referenced output assets.
pub proof fn lemma_added_reference_appears(items: Seq<ItemView>, item: ItemView, x: IdentView)
    requires
        item.references.contains(x),
    ensures
        referenced_assets(items.push(item)).contains(x),
{
    lemma_references_complete(items.push(item));
    assert(items.push(item)[items.len() as int].references.contains(x));
}

/// After removing the only item that refers to `x`, `x` is no longer among the referenced
/// output assets.
pub proof fn lemma_removed_reference_disappears(items: Seq<ItemView>, k: int, x: IdentView)
    requires
        0 <= k < items.len(),
        forall|i: int| 0 <= i < items.len() && i != k ==> !items[i].references.contains(x),
    ensures
        !referenced_assets(items.remove(k)).contains(x),
{
    let rest = items.remove(k);
    lemma_references_complete(rest);
    if some_item_references(rest, x) {
        let i = choose|i: int| 0 <= i < rest.len() && (#[trigger] rest[i]).references.contains(x);
        if i < k {
            assert(rest[i] == items[i]);
        } else {
            assert(rest[i] == items[i + 1]);
        }
    }
}

/// The details start with the line of the heading; the lines of the items follow it.
pub proof fn lemma_details_heading(idents: Seq<IdentView>, content: Seq<char>)
    ensures
        "Chunk items:\n"@.is_prefix_of(details_text(idents, content)),
        (("Chunk items:\n"@) + item_lines(idents)).is_prefix_of(details_text(idents, content)),
{
    let head = "Chunk items:\n"@;
    let text = details_text(idents, content);
    assert(text.subrange(0, head.len() as int) =~= head);
    assert(text.subrange(0, (head + item_lines(idents)).len() as int) =~= head + item_lines(
        idents,
    ));
}

/// The details hold one line for each item: none for no item, and one more for one more.
pub proof fn lemma_one_line_per_item(idents: Seq<IdentView>, next: IdentView)
    ensures
        item_lines(Seq::empty()) == Seq::<char>::empty(),
        item_lines(idents.push(next)) == item_lines(idents) + "- "@ + ident_text(next) + "\n"@,
{
    assert(idents.push(next).drop_last() =~= idents);
}

/// The children of a chunk hold the module of each item and a child for each referenced
/// output asset, each once, and nothing else.
pub proof fn lemma_children_complete(content: ContentView)
    requires
        content.referenced_output_assets.no_duplicates(),
    ensures
        children_of(content).no_duplicates(),
        forall|i: int|
            0 <= i < content.chunk_items.len() ==> children_of(content).contains(
                (ChildKind::Module, (#[trigger] content.chunk_items[i]).module),
            ),
        forall|j: int|
            0 <= j < content.referenced_output_assets.len() ==> children_of(content).contains(
                (ChildKind::Reference, #[trigger] content.referenced_output_assets[j]),
            ),
        forall|c: (ChildKind, IdentView)| #[trigger]
            children_of(content).contains(c) ==> reference_children(
                content.referenced_output_assets,
            ).contains(c) || module_children(content.chunk_items).contains(c),
{
    let refs = reference_children(content.referenced_output_assets);
    let modules = module_children(content.chunk_items);
    assert forall|i: int, j: int| 0 <= i < refs.len() && 0 <= j < refs.len() && i != j implies
        refs[i] != refs[j] by {
        assert(content.referenced_output_assets[i] != content.referenced_output_assets[j]);
    }
    lemma_extend_unique(refs, modules);
    assert forall|i: int| 0 <= i < content.chunk_items.len() implies children_of(
        content,
    ).contains((ChildKind::Module, (#[trigger] content.chunk_items[i]).module)) by {
        assert(modules[i] == (ChildKind::Module, content.chunk_items[i].module));
        assert(modules.contains((ChildKind::Module, content.chunk_items[i].module)));
    }
    assert forall|j: int| 0 <= j < content.referenced_output_assets.len() implies children_of(
        content,
    ).contains((ChildKind::Reference, #[trigger] content.referenced_output_assets[j])) by {
        assert(refs[j] == (ChildKind::Reference, content.referenced_output_assets[j]));
        assert(refs.contains((ChildKind::Reference, content.referenced_output_assets[j])));
    }
}

} // verus!
