//! Structural asset identities: a path plus an ordered list of tagged nested identities.
use vstd::prelude::*;
use vstd::string::StringExecFns;

verus! {

/// The closed set of tags under which a nested identity can be attached to an identity.
#[derive(Clone, Copy, Debug, PartialEq, Eq, Structural, Hash)]
pub enum QualifierKind {
    /// The nested identity is a chunk item contained in the chunk.
    ChunkItem,
    /// The nested identity is the availability root the chunk was built under.
    AvailabilityRoot,
}

impl QualifierKind {
    /// The text of the tag.
    pub open spec fn label_text(self) -> Seq<char> {
        match self {
            QualifierKind::ChunkItem => "chunk item"@,
            QualifierKind::AvailabilityRoot => "current availability root"@,
        }
    }

    /// The tag as it is shown in the string form of an identity.
    pub fn label(&self) -> (r: &'static str)
        ensures
            r@ == self.label_text(),
    {
        match self {
            QualifierKind::ChunkItem => "chunk item",
            QualifierKind::AvailabilityRoot => "current availability root",
        }
    }
}

/// A fully resolved identity: a path and the qualifier pairs attached to it, in order.
#[derive(Debug, PartialEq, Eq)]
pub struct AssetIdent {
    pub path: String,
    pub assets: Vec<(QualifierKind, AssetIdent)>,
}

/// The mathematical value of an [`AssetIdent`].
pub struct IdentView {
    pub path: Seq<char>,
    pub assets: Seq<(QualifierKind, IdentView)>,
}

impl View for AssetIdent {
    type V = IdentView;

    open spec fn view(&self) -> IdentView
        decreases self,
    {
        IdentView { path: self.path@, assets: pairs_view(self.assets@) }
    }
}

/// The views of a sequence of qualifier pairs, element by element.
pub open spec fn pairs_view(v: Seq<(QualifierKind, AssetIdent)>) -> Seq<(QualifierKind, IdentView)>
    decreases v,
{
    if v.len() == 0 {
        Seq::empty()
    } else {
        pairs_view(v.drop_last()).push((v.last().0, v.last().1.view()))
    }
}

/// `pairs_view` keeps the length and maps each pair to its kind and the view of its identity.
pub proof fn lemma_pairs_view(v: Seq<(QualifierKind, AssetIdent)>)
    ensures
        pairs_view(v).len() == v.len(),
        forall|i: int| 0 <= i < v.len() ==> #[trigger] pairs_view(v)[i] == (v[i].0, v[i].1@),
    decreases v.len(),
{
    if v.len() > 0 {
        lemma_pairs_view(v.drop_last());
        assert(pairs_view(v) == pairs_view(v.drop_last()).push((v.last().0, v.last().1@)));
        assert forall|i: int| 0 <= i < v.len() implies #[trigger] pairs_view(v)[i] == (
            v[i].0,
            v[i].1@,
        ) by {
            if i < v.len() - 1 {
                assert(v.drop_last()[i] == v[i]);
                assert(pairs_view(v.drop_last())[i] == (v[i].0, v[i].1@));
            }
        }
    } else {
        assert(pairs_view(v) == Seq::<(QualifierKind, IdentView)>::empty());
    }
}

/// The views of a sequence of identities, element by element.
pub open spec fn idents_view(v: Seq<AssetIdent>) -> Seq<IdentView> {
    v.map_values(|a: AssetIdent| a@)
}

/// The string form of one qualifier pair, given the string form of its nested identity.
pub open spec fn qualifier_text(kind: QualifierKind, nested: Seq<char>) -> Seq<char> {
    " {"@ + kind.label_text() + " => "@ + nested + "}"@
}

/// The string forms of the given qualifier pairs, one after the other.
pub open spec fn qualifiers_text(pairs: Seq<(QualifierKind, IdentView)>) -> Seq<char>
    decreases pairs,
{
    if pairs.len() == 0 {
        Seq::empty()
    } else {
        qualifiers_text(pairs.drop_last()) + qualifier_text(
            pairs.last().0,
            ident_text(pairs.last().1),
        )
    }
}

/// The canonical string form of an identity: its path, then each qualifier pair in order.
pub open spec fn ident_text(m: IdentView) -> Seq<char>
    decreases m,
{
    m.path + qualifiers_text(m.assets)
}

impl AssetIdent {
    /// An identity with the given path and no qualifier pairs.
    pub fn from_path(path: &str) -> (r: AssetIdent)
        ensures
            r@.path == path@,
            r@.assets.len() == 0,
    {
        AssetIdent { path: String::from_str(path), assets: Vec::new() }
    }

    /// Appends the pair `(kind, nested)` after the pairs already present.
    pub fn add_asset(&mut self, kind: QualifierKind, nested: AssetIdent)
        ensures
            final(self)@.path == old(self)@.path,
            final(self)@.assets == old(self)@.assets.push((kind, nested@)),
    {
        self.assets.push((kind, nested));
        assert(self.assets@.drop_last() =~= old(self).assets@);
    }

    /// Structural equality: same path and the same qualifier pairs in the same order.
    pub fn same_as(&self, other: &AssetIdent) -> (r: bool)
        ensures
            r == (self@ == other@),
        decreases self,
    {
        proof {
            lemma_pairs_view(self.assets@);
            lemma_pairs_view(other.assets@);
        }
        if self.path != other.path {
            return false;
        }
        if self.assets.len() != other.assets.len() {
            return false;
        }
        let mut i: usize = 0;
        while i < self.assets.len()
            invariant
                i <= self.assets.len(),
                self.assets.len() == other.assets.len(),
                self@.assets.len() == self.assets.len(),
                other@.assets.len() == self.assets.len(),
                forall|j: int|
                    0 <= j < self.assets.len() ==> #[trigger] self@.assets[j] == (
                        self.assets@[j].0,
                        self.assets@[j].1@,
                    ),
                forall|j: int|
                    0 <= j < self.assets.len() ==> #[trigger] other@.assets[j] == (
                        other.assets@[j].0,
                        other.assets@[j].1@,
                    ),
                forall|j: int| 0 <= j < i ==> self@.assets[j] == other@.assets[j],
            decreases self.assets.len() - i,
        {
            let a = &self.assets[i];
            let b = &other.assets[i];
            if a.0 != b.0 {
                assert(self@.assets[i as int] != other@.assets[i as int]);
                return false;
            }
            if !a.1.same_as(&b.1) {
                assert(self@.assets[i as int] != other@.assets[i as int]);
                return false;
            }
            i += 1;
        }
        assert(self@.assets =~= other@.assets);
        true
    }

    /// The canonical string form.
    pub fn to_string(&self) -> (r: String)
        ensures
            r@ == ident_text(self@),
        decreases self,
    {
        let mut out = self.path.clone();
        let mut i: usize = 0;
        assert(self.assets@.take(0) =~= Seq::<(QualifierKind, AssetIdent)>::empty());
        while i < self.assets.len()
            invariant
                i <= self.assets.len(),
                out@ == self@.path + qualifiers_text(pairs_view(self.assets@.take(i as int))),
            decreases self.assets.len() - i,
        {
            let pair = &self.assets[i];
            let nested = pair.1.to_string();
            let ghost before = out@;
            let ghost done = self.assets@.take(i as int);
            out.append(" {");
            out.append(pair.0.label());
            out.append(" => ");
            out.append(nested.as_str());
            out.append("}");
            proof {
                assert(out@ =~= before + qualifier_text(pair.0, nested@));
                assert(self.assets@.take(i + 1).drop_last() =~= done);
                assert(self.assets@.take(i + 1).last() == self.assets@[i as int]);
                let next = pairs_view(self.assets@.take(i + 1));
                assert(next == pairs_view(done).push((pair.0, pair.1@)));
                assert(next.drop_last() =~= pairs_view(done));
                assert(out@ =~= self@.path + qualifiers_text(next));
            }
            i += 1;
        }
        assert(self.assets@.take(i as int) =~= self.assets@);
        out
    }
}

impl Clone for AssetIdent {
    fn clone(&self) -> (r: Self)
        ensures
            r@ == self@,
        decreases self,
    {
        let mut assets: Vec<(QualifierKind, AssetIdent)> = Vec::new();
        let mut i: usize = 0;
        assert(self.assets@.take(0) =~= assets@);
        while i < self.assets.len()
            invariant
                i <= self.assets.len(),
                pairs_view(assets@) == pairs_view(self.assets@.take(i as int)),
            decreases self.assets.len() - i,
        {
            let pair = &self.assets[i];
            let nested = pair.1.clone();
            let ghost before = assets@;
            assets.push((pair.0, nested));
            proof {
                assert(assets@.drop_last() =~= before);
                assert(self.assets@.take(i + 1).drop_last() =~= self.assets@.take(i as int));
            }
            i += 1;
        }
        assert(self.assets@.take(i as int) =~= self.assets@);
        AssetIdent { path: self.path.clone(), assets }
    }
}

} // verus!
