use ecmascript_chunk::chunk::{AssetContent, ChildKind, EcmascriptChunk};
use ecmascript_chunk::error::ChunkError;
use ecmascript_chunk::content::{contains_ident, ChunkContent, ChunkItem};
use ecmascript_chunk::ident::{AssetIdent, QualifierKind};

fn id(path: &str) -> AssetIdent {
    AssetIdent::from_path(path)
}

fn item(path: &str, module: &str, references: &[&str]) -> ChunkItem {
    ChunkItem {
        ident: id(path),
        module: id(module),
        references: references.iter().map(|r| id(r)).collect(),
    }
}

fn chunk(items: Vec<ChunkItem>, root: Option<AssetIdent>) -> EcmascriptChunk<u32> {
    let content = ChunkContent::new(items, root).expect("distinct item identities");
    EcmascriptChunk::new(7, id("entry.js"), Ok(content))
}

fn two_items() -> Vec<ChunkItem> {
    vec![
        item("a.js", "src/a.js", &["runtime.js"]),
        item("b.js", "src/b.js", &["runtime.js"]),
    ]
}

#[test]
fn two_items_sharing_one_reference() {
    let c = chunk(two_items(), None);
    assert_eq!(c.references().unwrap(), vec![id("runtime.js")]);
    assert_eq!(c.chunk_items_count().unwrap(), 2);
    let details = c.details(Ok(String::from("rendered"))).unwrap();
    assert_eq!(details, "Chunk items:\n- a.js\n- b.js\n\nContent:\nrendered");
    assert!(details.contains("a.js"));
    assert!(details.contains("b.js"));
}

#[test]
fn same_items_under_two_roots() {
    let c1 = chunk(two_items(), Some(id("root1.js")));
    let c2 = chunk(two_items(), Some(id("root2.js")));
    assert_ne!(c1.ident().unwrap(), c2.ident().unwrap());
    assert!(!c1.ident().unwrap().same_as(&c2.ident().unwrap()));
    assert_eq!(c1.chunk_items_count().unwrap(), c2.chunk_items_count().unwrap());
}

#[test]
fn ident_folds_items_then_root() {
    let c = chunk(two_items(), Some(id("root.js")));
    let ident = c.ident().unwrap();
    assert_eq!(ident.path, "entry.js");
    assert_eq!(
        ident.assets,
        vec![
            (QualifierKind::ChunkItem, id("a.js")),
            (QualifierKind::ChunkItem, id("b.js")),
            (QualifierKind::AvailabilityRoot, id("root.js")),
        ]
    );
    assert_eq!(
        ident.to_string(),
        "entry.js {chunk item => a.js} {chunk item => b.js} {current availability root => root.js}"
    );
}

#[test]
fn ident_keeps_the_qualifiers_of_the_base() {
    let mut base = id("entry.js");
    base.add_asset(QualifierKind::ChunkItem, id("earlier.js"));
    let content = ChunkContent::new(vec![item("a.js", "src/a.js", &[])], None).unwrap();
    let c = EcmascriptChunk::new(0u8, base, Ok(content));
    assert_eq!(
        c.ident().unwrap().assets,
        vec![
            (QualifierKind::ChunkItem, id("earlier.js")),
            (QualifierKind::ChunkItem, id("a.js")),
        ]
    );
}

#[test]
fn ident_is_deterministic() {
    let c1 = chunk(two_items(), Some(id("root.js")));
    let c2 = chunk(two_items(), Some(id("root.js")));
    assert_eq!(c1.ident().unwrap(), c1.ident().unwrap());
    assert_eq!(c1.ident().unwrap(), c2.ident().unwrap());
    assert_eq!(c1.ident().unwrap().to_string(), c2.ident().unwrap().to_string());
    assert!(c1.ident().unwrap().same_as(&c2.ident().unwrap()));
}

#[test]
fn ident_is_sensitive_to_membership() {
    let mut three = two_items();
    three.push(item("c.js", "src/c.js", &[]));
    let c2 = chunk(two_items(), None);
    let c3 = chunk(three, None);
    assert_ne!(c2.ident().unwrap(), c3.ident().unwrap());
    assert!(!c2.ident().unwrap().same_as(&c3.ident().unwrap()));
}

#[test]
fn ident_tells_an_item_from_a_root() {
    let as_item = chunk(vec![item("a.js", "src/a.js", &[])], None);
    let as_root = chunk(vec![], Some(id("a.js")));
    assert_ne!(as_item.ident().unwrap(), as_root.ident().unwrap());
}

#[test]
fn empty_chunk_has_the_base_ident() {
    let c = chunk(vec![], None);
    assert_eq!(c.ident().unwrap(), id("entry.js"));
    assert!(c.ident().unwrap().same_as(&id("entry.js")));
    assert_eq!(c.chunk_items_count().unwrap(), 0);
    assert_eq!(c.references().unwrap(), Vec::<AssetIdent>::new());
    assert_eq!(c.children().unwrap(), vec![]);
    assert_eq!(c.details(Ok(String::new())).unwrap(), "Chunk items:\n\nContent:\n");
}

#[test]
fn content_rejects_items_with_one_ident() {
    let items = vec![item("a.js", "src/a.js", &[]), item("a.js", "src/other.js", &[])];
    assert!(ChunkContent::new(items, None).is_none());
    let mut qualified = id("a.js");
    qualified.add_asset(QualifierKind::ChunkItem, id("x.js"));
    let items = vec![
        item("a.js", "src/a.js", &[]),
        ChunkItem { ident: qualified, module: id("src/a.js"), references: vec![] },
    ];
    assert!(ChunkContent::new(items, None).is_some());
}

#[test]
fn references_are_the_deduplicated_union() {
    let items = vec![
        item("a.js", "src/a.js", &["runtime.js", "shared.js", "runtime.js"]),
        item("b.js", "src/b.js", &["shared.js", "b.css"]),
    ];
    let c = chunk(items, None);
    assert_eq!(c.references().unwrap(), vec![id("runtime.js"), id("shared.js"), id("b.css")]);
    assert_eq!(
        c.chunk_content().as_ref().unwrap().referenced_output_assets(),
        &vec![id("runtime.js"), id("shared.js"), id("b.css")]
    );
}

#[test]
fn adding_and_removing_a_referencer() {
    let without = chunk(vec![item("a.js", "src/a.js", &["runtime.js"])], None);
    assert!(!contains_ident(&without.references().unwrap(), &id("x.js")));
    let with = chunk(
        vec![item("a.js", "src/a.js", &["runtime.js"]), item("b.js", "src/b.js", &["x.js"])],
        None,
    );
    assert!(contains_ident(&with.references().unwrap(), &id("x.js")));
    assert!(contains_ident(&with.references().unwrap(), &id("runtime.js")));
}

#[test]
fn content_accessor_is_unsupported() {
    assert_eq!(chunk(vec![], None).content(), Err(ChunkError::Unsupported));
    assert_eq!(chunk(two_items(), Some(id("r.js"))).content(), Err(ChunkError::Unsupported));
    let none: Option<AssetContent> = chunk(two_items(), None).content().ok();
    assert!(none.is_none());
}

#[test]
fn details_hand_on_a_failure() {
    let c = chunk(two_items(), None);
    let failed = c.details(Err(ChunkError::Dependency(String::from("render failed"))));
    assert_eq!(failed, Err(ChunkError::Dependency(String::from("render failed"))));
    assert_eq!(c.details(Err(ChunkError::Unsupported)), Err(ChunkError::Unsupported));
}

#[test]
fn details_list_one_line_per_item() {
    let c = chunk(two_items(), None);
    let details = c.details(Ok(String::from("x"))).unwrap();
    assert!(details.starts_with("Chunk items:\n"));
    let lines: Vec<&str> = details.lines().collect();
    assert_eq!(lines, vec!["Chunk items:", "- a.js", "- b.js", "", "Content:", "x"]);
}

#[test]
fn children_hold_references_then_modules() {
    let c = chunk(two_items(), None);
    assert_eq!(
        c.children().unwrap(),
        vec![
            (ChildKind::Reference, id("runtime.js")),
            (ChildKind::Module, id("src/a.js")),
            (ChildKind::Module, id("src/b.js")),
        ]
    );
}

#[test]
fn children_hold_each_pair_once() {
    let items = vec![
        item("a.js", "src/shared.js", &["shared.js"]),
        item("b.js", "src/shared.js", &["src/shared.js"]),
    ];
    let c = chunk(items, None);
    assert_eq!(
        c.children().unwrap(),
        vec![
            (ChildKind::Reference, id("shared.js")),
            (ChildKind::Reference, id("src/shared.js")),
            (ChildKind::Module, id("src/shared.js")),
        ]
    );
    assert_eq!(ChildKind::Module.label(), "module");
    assert_eq!(ChildKind::Reference.label(), "reference");
}

#[test]
fn plain_accessors() {
    let c = chunk(two_items(), Some(id("root.js")));
    assert_eq!(*c.chunking_context(), 7);
    assert_eq!(c.to_string(), "chunk entry.js");
    assert_eq!(c.ty(), "ecmascript chunk");
    assert_eq!(c.title(), "entry.js");
    assert_eq!(c.title(), c.ident().unwrap().path);
    assert!(c.entry_ids().is_empty());
    let content = c.chunk_content().as_ref().unwrap();
    assert_eq!(content.chunk_items().len(), 2);
    assert_eq!(content.chunk_group_root(), &Some(id("root.js")));
}

#[test]
fn ident_text_nests() {
    let mut inner = id("inner.js");
    inner.add_asset(QualifierKind::AvailabilityRoot, id("root.js"));
    let mut outer = id("outer.js");
    outer.add_asset(QualifierKind::ChunkItem, inner.clone());
    assert_eq!(
        outer.to_string(),
        "outer.js {chunk item => inner.js {current availability root => root.js}}"
    );
    assert_eq!(outer.clone(), outer);
    assert!(outer.clone().same_as(&outer));
    assert!(!outer.same_as(&inner));
    assert!(!outer.same_as(&id("outer.js")));
    assert_eq!(QualifierKind::ChunkItem.label(), "chunk item");
    assert_eq!(QualifierKind::AvailabilityRoot.label(), "current availability root");
}

#[test]
fn failed_content_fails_every_derived_value() {
    let failure = ChunkError::Dependency(String::from("a.js: unexpected token"));
    let c = EcmascriptChunk::new(7u32, id("entry.js"), Err(failure.clone()));
    assert_eq!(c.ident(), Err(failure.clone()));
    assert_eq!(c.references(), Err(failure.clone()));
    assert_eq!(c.chunk_items_count(), Err(failure.clone()));
    assert_eq!(c.children(), Err(failure.clone()));
    assert_eq!(c.details(Ok(String::from("x"))), Err(failure.clone()));
    assert_eq!(c.details(Err(ChunkError::Unsupported)), Err(failure.clone()));
    assert_eq!(c.content(), Err(ChunkError::Unsupported));
    assert_eq!(c.to_string(), "chunk entry.js");
    assert_eq!(c.title(), "entry.js");
    assert_eq!(c.chunk_content(), &Err(failure));
}

#[test]
fn one_broken_item_fails_the_content() {
    let broken = ChunkError::Dependency(String::from("b.js: unexpected token"));
    let later = ChunkError::Dependency(String::from("c.js: not found"));
    let items = vec![
        Ok(item("a.js", "src/a.js", &["runtime.js"])),
        Err(broken.clone()),
        Err(later),
    ];
    assert_eq!(ChunkContent::resolve(&items, &None), Err(broken.clone()));
    let root_failed = Some(Err(ChunkError::Dependency(String::from("root"))));
    assert_eq!(ChunkContent::resolve(&items, &root_failed), Err(broken.clone()));
    let c = EcmascriptChunk::new(1u8, id("entry.js"), ChunkContent::resolve(&items, &None));
    assert_eq!(c.ident(), Err(broken.clone()));
    assert_eq!(c.references(), Err(broken));
}

#[test]
fn resolved_items_make_the_content() {
    let items = vec![
        Ok(item("a.js", "src/a.js", &["runtime.js"])),
        Ok(item("b.js", "src/b.js", &["runtime.js"])),
    ];
    let resolved = ChunkContent::resolve(&items, &Some(Ok(id("root.js"))));
    assert_eq!(resolved, Ok(ChunkContent::new(two_items(), Some(id("root.js"))).unwrap()));
    let failed_root = ChunkError::Dependency(String::from("root.js: gone"));
    assert_eq!(
        ChunkContent::resolve(&items, &Some(Err(failed_root.clone()))),
        Err(failed_root)
    );
    let twice = vec![Ok(item("a.js", "src/a.js", &[])), Ok(item("a.js", "src/a.js", &[]))];
    assert_eq!(ChunkContent::resolve(&twice, &None), Err(ChunkError::DuplicateItem));
    assert_eq!(ChunkContent::resolve(&vec![], &None), Ok(ChunkContent::new(vec![], None).unwrap()));
}

#[test]
fn failures_in_words() {
    assert_eq!(
        ChunkError::Unsupported.to_string(),
        "EcmascriptChunk::content() is not implemented"
    );
    assert_eq!(
        ChunkError::DuplicateItem.to_string(),
        "two chunk items of one chunk share an identity"
    );
    assert_eq!(ChunkError::Dependency(String::from("a.js: gone")).to_string(), "a.js: gone");
    assert_eq!(ChunkError::Dependency(String::from("x")).clone(), ChunkError::Dependency(String::from("x")));
}
