//! The chunk itself: its derived identity, its references and its introspection view.
use crate::content::{
    clone_idents, item_idents, items_view, referenced_assets, ChunkContent, ContentView, ItemView,
};
use crate::error::ChunkError;
use crate::ident::{ident_text, idents_view, AssetIdent, IdentView, QualifierKind};
use crate::unique::{extend_unique, lemma_extend_unique_step};
use vstd::prelude::*;
use vstd::string::StringExecFns;

verus! {

/// The bytes of an asset.
#[derive(Debug, PartialEq, Eq)]
pub struct AssetContent {
    pub bytes: Vec<u8>,
}

/// The id under which a module is registered at run time.
#[derive(Debug, PartialEq, Eq)]
pub enum ModuleId {
    Number(u32),
    Name(String),
}

/// The tag of a child in the introspection view.
#[derive(Clone, Copy, Debug, PartialEq, Eq, Structural, Hash)]
pub enum ChildKind {
    /// An output asset that the chunk refers to.
    Reference,
    /// The module behind a contained chunk item.
    Module,
}

impl ChildKind {
    /// The text of the tag.
    pub open spec fn label_text(self) -> Seq<char> {
        match self {
            ChildKind::Reference => "reference"@,
            ChildKind::Module => "module"@,
        }
    }

    /// The tag as shown by tooling.
    pub fn label(&self) -> (r: &'static str)
        ensures
            r@ == self.label_text(),
    {
        match self {
            ChildKind::Reference => "reference",
            ChildKind::Module => "module",
        }
    }
}

/// One qualifier pair tagged as chunk item for each of the given identities, in order.
pub open spec fn item_qualifiers(idents: Seq<IdentView>) -> Seq<(QualifierKind, IdentView)> {
    idents.map_values(|i: IdentView| (QualifierKind::ChunkItem, i))
}

/// The qualifier pair of the availability root, if there is one.
pub open spec fn root_qualifiers(root: Option<IdentView>) -> Seq<(QualifierKind, IdentView)> {
    match root {
        Some(r) => seq![(QualifierKind::AvailabilityRoot, r)],
        None => Seq::empty(),
    }
}

/// The identity of a chunk: the base identity, followed by one pair per contained item in
/// stored order, followed by the pair of the availability root where there is one.
pub open spec fn derived_ident(
    base: IdentView,
    items: Seq<IdentView>,
    root: Option<IdentView>,
) -> IdentView {
    IdentView {
        path: base.path,
        assets: base.assets + item_qualifiers(items) + root_qualifiers(root),
    }
}

/// One line per identity: a dash, a space, the identity's string form, a line break.
pub open spec fn item_lines(idents: Seq<IdentView>) -> Seq<char>
    decreases idents.len(),
{
    if idents.len() == 0 {
        Seq::empty()
    } else {
        item_lines(idents.drop_last()) + "- "@ + ident_text(idents.last()) + "\n"@
    }
}

/// The details text of a chunk with the given item identities and rendered content.
pub open spec fn details_text(idents: Seq<IdentView>, content: Seq<char>) -> Seq<char> {
    "Chunk items:\n"@ + item_lines(idents) + "\nContent:\n"@ + content
}

/// The views of a sequence of children, element by element.
pub open spec fn children_view(v: Seq<(ChildKind, AssetIdent)>) -> Seq<(ChildKind, IdentView)> {
    v.map_values(|c: (ChildKind, AssetIdent)| (c.0, c.1@))
}

/// One child per referenced output asset.
pub open spec fn reference_children(refs: Seq<IdentView>) -> Seq<(ChildKind, IdentView)> {
    refs.map_values(|r: IdentView| (ChildKind::Reference, r))
}

/// One child per item: the item's module.
pub open spec fn module_children(items: Seq<ItemView>) -> Seq<(ChildKind, IdentView)> {
    items.map_values(|c: ItemView| (ChildKind::Module, c.module))
}

/// The children of a chunk: those of its references, then the modules of its items, each
/// pair of tag and identity once.
pub open spec fn children_of(content: ContentView) -> Seq<(ChildKind, IdentView)> {
    extend_unique(
        reference_children(content.referenced_output_assets),
        module_children(content.chunk_items),
    )
}

/// Whether `v` holds the child `(kind, x)`.
fn contains_child(v: &Vec<(ChildKind, AssetIdent)>, kind: ChildKind, x: &AssetIdent) -> (r: bool)
    ensures
        r == children_view(v@).contains((kind, x@)),
{
    let mut i: usize = 0;
    while i < v.len()
        invariant
            i <= v.len(),
            forall|j: int| 0 <= j < i ==> children_view(v@)[j] != (kind, x@),
        decreases v.len() - i,
    {
        if v[i].0 == kind && v[i].1.same_as(x) {
            assert(children_view(v@)[i as int] == (kind, x@));
            return true;
        }
        i += 1;
    }
    false
}

/// An output chunk of ECMAScript modules: a chunking context, a base identity and the
/// content selected for the chunk, or the failure that selecting it ended in.
#[derive(Debug)]
pub struct EcmascriptChunk<P> {
    pub chunking_context: P,
    pub ident: AssetIdent,
    pub content: Result<ChunkContent, ChunkError>,
}

/// A list of chunks.
#[derive(Debug)]
pub struct EcmascriptChunks<P>(pub Vec<EcmascriptChunk<P>>);

impl<P> EcmascriptChunk<P> {
    /// A chunk of the given parts, stored as they are.
    pub fn new(
        chunking_context: P,
        ident: AssetIdent,
        content: Result<ChunkContent, ChunkError>,
    ) -> (r: Self)
        ensures
            r.chunking_context == chunking_context,
            r.ident == ident,
            r.content == content,
    {
        EcmascriptChunk { chunking_context, ident, content }
    }

    /// The ids of the modules to run when the chunk is loaded: none.
    pub fn entry_ids(&self) -> (r: Vec<ModuleId>)
        ensures
            r@.len() == 0,
    {
        Vec::new()
    }

    /// The derived identity of the chunk. Where the content failed, that failure.
    pub fn ident(&self) -> (r: Result<AssetIdent, ChunkError>)
        ensures
            match self.content {
                Ok(c) => r is Ok && r->Ok_0@ == derived_ident(
                    self.ident@,
                    item_idents(c@.chunk_items),
                    c@.chunk_group_root,
                ),
                Err(e) => r == Err::<AssetIdent, ChunkError>(e),
            },
    {
        let content = match &self.content {
            Ok(content) => content,
            Err(e) => {
                return Err(e.clone());
            },
        };
        let mut ident = self.ident.clone();
        let items = content.chunk_items();
        let ghost idents = item_idents(content@.chunk_items);
        let mut k: usize = 0;
        assert(ident@.assets =~= self.ident@.assets + item_qualifiers(idents.take(0)));
        while k < items.len()
            invariant
                k <= items.len(),
                idents == item_idents(items_view(items@)),
                ident@.path == self.ident@.path,
                ident@.assets == self.ident@.assets + item_qualifiers(idents.take(k as int)),
            decreases items.len() - k,
        {
            ident.add_asset(QualifierKind::ChunkItem, items[k].ident.clone());
            assert(ident@.assets =~= self.ident@.assets + item_qualifiers(idents.take(k + 1)));
            k += 1;
        }
        assert(idents.take(k as int) =~= idents);
        match content.chunk_group_root() {
            Some(root) => {
                ident.add_asset(QualifierKind::AvailabilityRoot, root.clone());
            },
            None => {},
        }
        assert(ident@.assets =~= self.ident@.assets + item_qualifiers(idents) + root_qualifiers(
            content@.chunk_group_root,
        ));
        Ok(ident)
    }

    /// The chunking context that the chunk was made with.
    pub fn chunking_context(&self) -> (r: &P)
        ensures
            *r == self.chunking_context,
    {
        &self.chunking_context
    }

    /// The output assets that the chunk refers to: those of its content, each once. Where
    /// the content failed, that failure.
    pub fn references(&self) -> (r: Result<Vec<AssetIdent>, ChunkError>)
        ensures
            match self.content {
                Ok(c) => r is Ok && idents_view(r->Ok_0@) == c@.referenced_output_assets
                    && idents_view(r->Ok_0@) == referenced_assets(c@.chunk_items),
                Err(e) => r == Err::<Vec<AssetIdent>, ChunkError>(e),
            },
    {
        match &self.content {
            Ok(content) => Ok(clone_idents(content.referenced_output_assets())),
            Err(e) => Err(e.clone()),
        }
    }

    /// The label of the chunk for logs: the word chunk and the base identity.
    pub fn to_string(&self) -> (r: String)
        ensures
            r@ == "chunk "@ + ident_text(self.ident@),
    {
        let mut out = String::from_str("chunk ");
        let text = self.ident.to_string();
        out.append(text.as_str());
        out
    }

    /// The content this chunk was made with.
    pub fn chunk_content(&self) -> (r: &Result<ChunkContent, ChunkError>)
        ensures
            *r == self.content,
    {
        &self.content
    }

    /// The number of contained chunk items. Where the content failed, that failure.
    pub fn chunk_items_count(&self) -> (r: Result<usize, ChunkError>)
        ensures
            match self.content {
                Ok(c) => r == Ok::<usize, ChunkError>(c@.chunk_items.len() as usize),
                Err(e) => r == Err::<usize, ChunkError>(e),
            },
    {
        match &self.content {
            Ok(content) => Ok(content.chunk_items().len()),
            Err(e) => Err(e.clone()),
        }
    }

    /// The bytes of the chunk as a plain asset: there are none at this level, whatever the
    /// chunk holds.
    pub fn content(&self) -> (r: Result<AssetContent, ChunkError>)
        ensures
            r == Err::<AssetContent, ChunkError>(ChunkError::Unsupported),
    {
        Err(ChunkError::Unsupported)
    }

    /// The kind of node that a chunk is in the introspection view.
    pub fn ty(&self) -> (r: &'static str)
        ensures
            r@ == "ecmascript chunk"@,
    {
        "ecmascript chunk"
    }

    /// The title of the chunk: the path of its identity, which is that of its base identity
    /// whatever the chunk holds.
    pub fn title(&self) -> (r: String)
        ensures
            r@ == self.ident@.path,
            forall|items: Seq<IdentView>, root: Option<IdentView>|
                r@ == (#[trigger] derived_ident(self.ident@, items, root)).path,
    {
        self.ident.path.clone()
    }

    /// The details of the chunk: its items, one per line, then the content as `rendered` by
    /// the renderer of its kind. Where the content of the chunk failed, that failure is
    /// handed on unchanged; else, where rendering failed, that one.
    pub fn details(&self, rendered: Result<String, ChunkError>) -> (r: Result<String, ChunkError>)
        ensures
            match (self.content, rendered) {
                (Err(e), _) => r == Err::<String, ChunkError>(e),
                (Ok(_), Err(e)) => r == Err::<String, ChunkError>(e),
                (Ok(c), Ok(text)) => r is Ok && r->Ok_0@ == details_text(
                    item_idents(c@.chunk_items),
                    text@,
                ),
            },
    {
        let content = match &self.content {
            Ok(content) => content,
            Err(e) => {
                return Err(e.clone());
            },
        };
        let text = match rendered {
            Ok(text) => text,
            Err(e) => {
                return Err(e);
            },
        };
        let items = content.chunk_items();
        let ghost idents = item_idents(content@.chunk_items);
        let mut details = String::from_str("Chunk items:\n");
        let mut k: usize = 0;
        assert(details@ =~= "Chunk items:\n"@ + item_lines(idents.take(0)));
        while k < items.len()
            invariant
                k <= items.len(),
                idents == item_idents(items_view(items@)),
                details@ == "Chunk items:\n"@ + item_lines(idents.take(k as int)),
            decreases items.len() - k,
        {
            let line = items[k].ident.to_string();
            let ghost before = details@;
            details.append("- ");
            details.append(line.as_str());
            details.append("\n");
            proof {
                assert(idents.take(k + 1).drop_last() =~= idents.take(k as int));
                assert(idents.take(k + 1).last() == items[k as int]@.ident);
                assert(details@ =~= "Chunk items:\n"@ + item_lines(idents.take(k + 1)));
            }
            k += 1;
        }
        assert(idents.take(k as int) =~= idents);
        details.append("\nContent:\n");
        details.append(text.as_str());
        Ok(details)
    }

    /// The children of the chunk in the introspection view: one per referenced output asset,
    /// then the module of each contained item, each pair of tag and identity once. Where the
    /// content failed, that failure.
    pub fn children(&self) -> (r: Result<Vec<(ChildKind, AssetIdent)>, ChunkError>)
        ensures
            match self.content {
                Ok(c) => r is Ok && children_view(r->Ok_0@) == children_of(c@),
                Err(e) => r == Err::<Vec<(ChildKind, AssetIdent)>, ChunkError>(e),
            },
    {
        let content = match &self.content {
            Ok(content) => content,
            Err(e) => {
                return Err(e.clone());
            },
        };
        let refs = content.referenced_output_assets();
        let items = content.chunk_items();
        let ghost start = reference_children(content@.referenced_output_assets);
        let ghost modules = module_children(content@.chunk_items);
        let mut out: Vec<(ChildKind, AssetIdent)> = Vec::new();
        let mut i: usize = 0;
        while i < refs.len()
            invariant
                i <= refs.len(),
                out.len() == i,
                forall|j: int|
                    0 <= j < i ==> out[j].0 == ChildKind::Reference && out[j].1@ == refs[j]@,
            decreases refs.len() - i,
        {
            out.push((ChildKind::Reference, refs[i].clone()));
            i += 1;
        }
        assert(children_view(out@) =~= start);
        let mut k: usize = 0;
        assert(modules.take(0) =~= Seq::<(ChildKind, IdentView)>::empty());
        while k < items.len()
            invariant
                k <= items.len(),
                modules == module_children(items_view(items@)),
                children_view(out@) == extend_unique(start, modules.take(k as int)),
            decreases items.len() - k,
        {
            let module = &items[k].module;
            proof {
                lemma_extend_unique_step(start, modules, k as int);
            }
            if !contains_child(&out, ChildKind::Module, module) {
                let ghost before = children_view(out@);
                out.push((ChildKind::Module, module.clone()));
                assert(children_view(out@) =~= before.push((ChildKind::Module, module@)));
            }
            k += 1;
        }
        assert(modules.take(k as int) =~= modules);
        Ok(out)
    }
}

} // verus!
