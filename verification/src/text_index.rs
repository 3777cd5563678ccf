//! The text index: an inverted index over four text fields, held by the
//! `tantivy` search engine behind a small trusted boundary.
//!
//! The index state is described by mathematical maps: the staged (pending)
//! changes of an open writer, the committed state, and the snapshot that
//! searches read.  A commit publishes the pending changes into the
//! committed state; an explicit reload publishes the committed state into
//! the snapshot.  Searches walk a deterministic ranked sequence of the
//! snapshot documents matching a query, one fixed-size page at a time.

use vstd::prelude::*;

use tantivy::ReloadPolicy;
use tantivy::TantivyDocument;
use tantivy::TantivyError;
use tantivy::Term;
use tantivy::collector::TopDocs;
use tantivy::query::AllQuery;
use tantivy::query::BooleanQuery;
use tantivy::query::Query;
use tantivy::query::RegexQuery;
use tantivy::query::TermQuery;
use tantivy::schema::Field;
use tantivy::schema::IndexRecordOption;
use tantivy::schema::STORED;
use tantivy::schema::STRING;
use tantivy::schema::Schema;
use tantivy::schema::TEXT;
use tantivy::schema::Value;

use regex::escape;

use crate::model::EntrypointId;
use crate::model::PluginId;

verus! {

/// The tantivy-backed index: the in-memory index itself, its manual-reload
/// reader, and the writer of the currently open staging section, if any.
#[verifier::external_body]
pub struct TextIndex {
    index: tantivy::Index,
    reader: tantivy::IndexReader,
    writer: Option<tantivy::IndexWriter>,
    field_entrypoint_name: Field,
    field_entrypoint_id: Field,
    field_plugin_name: Field,
    field_plugin_id: Field,
}

/// The tantivy error type, carried through as the cause of index failures.
#[verifier::external_type_specification]
#[verifier::external_body]
pub struct ExTantivyError(TantivyError);

/// A point-in-time read view of the index.
#[verifier::external_type_specification]
#[verifier::external_body]
pub struct ExSearcher(tantivy::Searcher);

/// The address of one document within a searcher.
#[verifier::external_type_specification]
#[verifier::external_body]
pub struct ExDocAddress(tantivy::DocAddress);

/// One stored document, as a search hands it back: the four text fields it
/// was indexed with.
pub struct IndexedDocument {
    pub entrypoint_name: String,
    pub entrypoint_id: String,
    pub plugin_name: String,
    pub plugin_id: String,
}

/// The committed documents: plugin id, to entrypoint id, to the entrypoint
/// name stored in that document.
pub uninterp spec fn committed_docs(ix: TextIndex) -> Map<Seq<char>, Map<Seq<char>, Seq<char>>>;

/// The plugin name stored in the committed documents of each plugin.
pub uninterp spec fn committed_names(ix: TextIndex) -> Map<Seq<char>, Seq<char>>;

/// The documents visible to searches: the committed state as of the last
/// successful reload.
pub uninterp spec fn snap_docs(ix: TextIndex) -> Map<Seq<char>, Map<Seq<char>, Seq<char>>>;

/// The plugin name visible to searches for each plugin.
pub uninterp spec fn snap_names(ix: TextIndex) -> Map<Seq<char>, Seq<char>>;

/// The plugin ids whose documents the open writer has staged for deletion.
pub uninterp spec fn pending_deletes(ix: TextIndex) -> Set<Seq<char>>;

/// The documents the open writer has staged for addition.
pub uninterp spec fn pending_docs(ix: TextIndex) -> Map<Seq<char>, Map<Seq<char>, Seq<char>>>;

/// The plugin name carried by the staged documents of each plugin.
pub uninterp spec fn pending_names(ix: TextIndex) -> Map<Seq<char>, Seq<char>>;

/// Whether a writer is currently open.
pub uninterp spec fn writer_open(ix: TextIndex) -> bool;

/// What the default tantivy tokenizer makes of a text: split at
/// non-alphanumeric characters, overlong tokens removed, lower-cased.
/// The result depends on the characters of the text alone.
pub uninterp spec fn tokens_of(text: Seq<char>) -> Seq<Seq<char>>;

/// The ranked sequence of (plugin id, entrypoint id) pairs that a search
/// with the given terms walks: every matching snapshot document exactly
/// once, in the engine's deterministic score order.  An empty term sequence
/// stands for the match-everything query.
pub uninterp spec fn ranked(ix: TextIndex, terms: Seq<Seq<char>>) -> Seq<(Seq<char>, Seq<char>)>;

/// The searcher is a view of this index's current snapshot.
pub uninterp spec fn searcher_of(s: tantivy::Searcher, ix: TextIndex) -> bool;

/// The address names a document that is alive in this searcher's view: it
/// came out of a search on this very searcher.  An address held across a
/// later commit, or made up, points at nothing or at a deleted document's
/// leftover storage, and nothing is promised of resolving it.
pub uninterp spec fn addr_live(s: tantivy::Searcher, a: tantivy::DocAddress) -> bool;

/// The (plugin id, entrypoint id) stored in the document at this address
/// of this searcher.
pub uninterp spec fn addr_pair(s: tantivy::Searcher, a: tantivy::DocAddress) -> (
    Seq<char>,
    Seq<char>,
);

/// The longest byte sequence the engine indexes as one term.  An
/// exact-match identifier longer than this would still be stored in its
/// documents but would carry no term, so deleting those documents by term
/// could never reach them.
pub const MAX_ID_BYTES: usize = 65530;

/// The identifier's UTF-8 encoding fits within one indexable term.
pub open spec fn id_within_term_limit(s: Seq<char>) -> bool {
    vstd::utf8::encode_utf8(s).len() <= MAX_ID_BYTES
}

/// `needle` occurs contiguously inside `hay`.
pub open spec fn is_substring_of(needle: Seq<char>, hay: Seq<char>) -> bool {
    exists|i: int|
        0 <= i && i + needle.len() <= hay.len() && #[trigger] hay.subrange(i, i + needle.len())
            == needle
}

/// Some token of `text` contains `term`.
pub open spec fn token_contains_term(text: Seq<char>, term: Seq<char>) -> bool {
    exists|j: int| 0 <= j < tokens_of(text).len() && is_substring_of(term, tokens_of(text)[j])
}

/// Every term occurs somewhere inside some token of `text`; vacuously true
/// of no terms at all.
pub open spec fn field_matches(text: Seq<char>, terms: Seq<Seq<char>>) -> bool {
    forall|i: int| 0 <= i < terms.len() ==> token_contains_term(text, #[trigger] terms[i])
}

/// A document matches when either prose field carries every term.
pub open spec fn entry_matches(
    entrypoint_name: Seq<char>,
    plugin_name: Seq<char>,
    terms: Seq<Seq<char>>,
) -> bool {
    field_matches(entrypoint_name, terms) || field_matches(plugin_name, terms)
}

/// The (plugin id, entrypoint id) pair names a snapshot document that
/// matches the terms.
pub open spec fn snap_pair_matches(
    ix: TextIndex,
    pe: (Seq<char>, Seq<char>),
    terms: Seq<Seq<char>>,
) -> bool {
    &&& snap_docs(ix).contains_key(pe.0)
    &&& snap_docs(ix)[pe.0].contains_key(pe.1)
    &&& entry_matches(snap_docs(ix)[pe.0][pe.1], snap_names(ix)[pe.0], terms)
}

/// The ranked sequence enumerates exactly the matching snapshot documents,
/// each once.
pub open spec fn ranked_enumerates_matches(ix: TextIndex, terms: Seq<Seq<char>>) -> bool {
    &&& ranked(ix, terms).no_duplicates()
    &&& forall|pe: (Seq<char>, Seq<char>)|
        #[trigger] ranked(ix, terms).contains(pe) <==> snap_pair_matches(ix, pe, terms)
}

/// The slice of `r` that a page of the given offset and limit returns.
pub open spec fn page_of(
    r: Seq<(Seq<char>, Seq<char>)>,
    offset: int,
    limit: int,
) -> Seq<(Seq<char>, Seq<char>)> {
    if offset >= r.len() {
        Seq::empty()
    } else if offset + limit >= r.len() {
        r.subrange(offset, r.len() as int)
    } else {
        r.subrange(offset, offset + limit)
    }
}

/// The identifying pair of each returned document.
pub open spec fn hit_pairs(v: Seq<IndexedDocument>) -> Seq<(Seq<char>, Seq<char>)> {
    v.map_values(|h: IndexedDocument| (h.plugin_id@, h.entrypoint_id@))
}

/// The pair stored at each returned address.
pub open spec fn addr_pairs(s: tantivy::Searcher, addrs: Seq<tantivy::DocAddress>) -> Seq<
    (Seq<char>, Seq<char>),
> {
    addrs.map_values(|a: tantivy::DocAddress| addr_pair(s, a))
}

/// Each returned document carries the stored names of its snapshot entry.
pub open spec fn hit_names_ok(ix: TextIndex, v: Seq<IndexedDocument>) -> bool {
    forall|i: int|
        0 <= i < v.len() ==> {
            let h = #[trigger] v[i];
            h.entrypoint_name@ == snap_docs(ix)[h.plugin_id@][h.entrypoint_id@]
                && h.plugin_name@ == snap_names(ix)[h.plugin_id@]
        }
}

/// The committed state is the same in both index values.
pub open spec fn committed_unchanged(a: TextIndex, b: TextIndex) -> bool {
    committed_docs(b) == committed_docs(a) && committed_names(b) == committed_names(a)
}

/// The snapshot is the same in both index values.
pub open spec fn snapshot_unchanged(a: TextIndex, b: TextIndex) -> bool {
    snap_docs(b) == snap_docs(a) && snap_names(b) == snap_names(a)
}

/// The staged changes are the same in both index values.
pub open spec fn pending_unchanged(a: TextIndex, b: TextIndex) -> bool {
    pending_deletes(b) == pending_deletes(a) && pending_docs(b) == pending_docs(a)
        && pending_names(b) == pending_names(a)
}

impl TextIndex {
    /// Relies on tantivy's schema builder, `Index::create_in_ram` and the
    /// manual-reload `IndexReader`: a freshly created in-memory index holds
    /// no documents, and neither does its first snapshot.
    #[verifier::external_body]
    pub(crate) fn create() -> (r: Result<TextIndex, TantivyError>)
        ensures
            match r {
                Ok(ix) => {
                    &&& committed_docs(ix) == Map::<Seq<char>, Map<Seq<char>, Seq<char>>>::empty()
                    &&& committed_names(ix) == Map::<Seq<char>, Seq<char>>::empty()
                    &&& snap_docs(ix) == Map::<Seq<char>, Map<Seq<char>, Seq<char>>>::empty()
                    &&& snap_names(ix) == Map::<Seq<char>, Seq<char>>::empty()
                    &&& !writer_open(ix)
                },
                Err(_) => true,
            },
    {
        let mut builder = Schema::builder();
        let field_entrypoint_name = builder.add_text_field("entrypoint_name", TEXT | STORED);
        let field_entrypoint_id = builder.add_text_field("entrypoint_id", STRING | STORED);
        let field_plugin_name = builder.add_text_field("plugin_name", TEXT | STORED);
        let field_plugin_id = builder.add_text_field("plugin_id", STRING | STORED);
        let index = tantivy::Index::create_in_ram(builder.build());
        let reader = index.reader_builder().reload_policy(ReloadPolicy::Manual).try_into()?;
        Ok(TextIndex { index, reader, writer: None, field_entrypoint_name, field_entrypoint_id, field_plugin_name, field_plugin_id })
    }

    /// Relies on `Index::writer`: a fresh writer has nothing staged, and its
    /// creation touches neither the committed state nor the snapshot.  The
    /// byte count is tantivy's indexing memory arena.
    #[verifier::external_body]
    pub(crate) fn open_writer(&mut self) -> (r: Result<(), TantivyError>)
        requires
            !writer_open(*old(self)),
        ensures
            committed_unchanged(*old(self), *final(self)),
            snapshot_unchanged(*old(self), *final(self)),
            match r {
                Ok(()) => {
                    &&& writer_open(*final(self))
                    &&& pending_deletes(*final(self)) == Set::<Seq<char>>::empty()
                    &&& pending_docs(*final(self)) == Map::<
                        Seq<char>,
                        Map<Seq<char>, Seq<char>>,
                    >::empty()
                    &&& pending_names(*final(self)) == Map::<Seq<char>, Seq<char>>::empty()
                },
                Err(_) => !writer_open(*final(self)),
            },
    {
        let writer = self.index.writer::<TantivyDocument>(15_000_000)?;
        self.writer = Some(writer);
        Ok(())
    }

    /// Relies on `IndexWriter::delete_query` with an exact term query on the
    /// plugin id field: it stages the deletion of exactly the documents of
    /// that plugin, and of those only documents staged or committed before
    /// it, which the caller guarantees by staging deletions first.
    #[verifier::external_body]
    pub(crate) fn stage_delete(&mut self, plugin_id: &PluginId) -> (r: Result<(), TantivyError>)
        requires
            writer_open(*old(self)),
            pending_docs(*old(self)) == Map::<Seq<char>, Map<Seq<char>, Seq<char>>>::empty(),
        ensures
            committed_unchanged(*old(self), *final(self)),
            snapshot_unchanged(*old(self), *final(self)),
            writer_open(*final(self)),
            match r {
                Ok(()) => {
                    &&& pending_deletes(*final(self)) == pending_deletes(*old(self)).insert(
                        plugin_id@,
                    )
                    &&& pending_docs(*final(self)) == pending_docs(*old(self))
                    &&& pending_names(*final(self)) == pending_names(*old(self))
                },
                Err(_) => true,
            },
    {
        let writer = self.writer.as_ref().expect("a writer must be open");
        let term = Term::from_field_text(self.field_plugin_id, &plugin_id.to_string());
        writer.delete_query(Box::new(TermQuery::new(term, IndexRecordOption::Basic)))?;
        Ok(())
    }

    /// Relies on `IndexWriter::add_document`: it stages one document with
    /// the four given stored text fields.  The plugin id must fit within
    /// one indexable term: the engine drops longer tokens, and a document
    /// whose plugin id carries no term could never be deleted again by
    /// `stage_delete`, breaking the one-document-per-pair bookkeeping.
    #[verifier::external_body]
    pub(crate) fn stage_add(
        &mut self,
        entrypoint_name: &String,
        entrypoint_id: &EntrypointId,
        plugin_name: &String,
        plugin_id: &PluginId,
    ) -> (r: Result<(), TantivyError>)
        requires
            writer_open(*old(self)),
            id_within_term_limit(plugin_id@),
            pending_deletes(*old(self)).contains(plugin_id@),
            pending_docs(*old(self)).contains_key(plugin_id@) ==> !pending_docs(*old(self))[
                plugin_id@
            ].contains_key(entrypoint_id@),
            pending_names(*old(self)).contains_key(plugin_id@) ==> pending_names(*old(self))[
                plugin_id@
            ] == plugin_name@,
        ensures
            committed_unchanged(*old(self), *final(self)),
            snapshot_unchanged(*old(self), *final(self)),
            writer_open(*final(self)),
            match r {
                Ok(()) => {
                    &&& pending_deletes(*final(self)) == pending_deletes(*old(self))
                    &&& pending_docs(*final(self)) == pending_docs(*old(self)).insert(
                        plugin_id@,
                        if pending_docs(*old(self)).contains_key(plugin_id@) {
                            pending_docs(*old(self))[plugin_id@].insert(
                                entrypoint_id@,
                                entrypoint_name@,
                            )
                        } else {
                            Map::<Seq<char>, Seq<char>>::empty().insert(
                                entrypoint_id@,
                                entrypoint_name@,
                            )
                        },
                    )
                    &&& pending_names(*final(self)) == pending_names(*old(self)).insert(
                        plugin_id@,
                        plugin_name@,
                    )
                },
                Err(_) => true,
            },
    {
        let writer = self.writer.as_ref().expect("a writer must be open");
        let mut doc = TantivyDocument::new();
        doc.add_text(self.field_entrypoint_name, entrypoint_name);
        doc.add_text(self.field_entrypoint_id, entrypoint_id.to_string());
        doc.add_text(self.field_plugin_name, plugin_name);
        doc.add_text(self.field_plugin_id, plugin_id.to_string());
        writer.add_document(doc)?;
        Ok(())
    }

    /// Relies on `IndexWriter::commit`: on success all staged changes are
    /// published atomically into the committed state; on failure nothing is
    /// published.  The snapshot never moves here.  The writer is consumed
    /// either way, so staged deletions apply to previously committed
    /// documents and to staged additions of this very section only.  The
    /// deletions are complete because every committed document's plugin id
    /// entered through `stage_add`, whose bound keeps it within one
    /// indexable term, so the delete-by-term of `stage_delete` reaches it.
    #[verifier::external_body]
    pub(crate) fn commit_staged(&mut self) -> (r: Result<(), TantivyError>)
        requires
            writer_open(*old(self)),
            pending_docs(*old(self)).dom().subset_of(pending_deletes(*old(self))),
            pending_names(*old(self)).dom() == pending_docs(*old(self)).dom(),
        ensures
            !writer_open(*final(self)),
            snapshot_unchanged(*old(self), *final(self)),
            match r {
                Ok(()) => {
                    &&& committed_docs(*final(self)) == committed_docs(*old(self)).remove_keys(
                        pending_deletes(*old(self)),
                    ).union_prefer_right(pending_docs(*old(self)))
                    &&& committed_names(*final(self)) == committed_names(*old(self)).remove_keys(
                        pending_deletes(*old(self)),
                    ).union_prefer_right(pending_names(*old(self)))
                },
                Err(_) => committed_unchanged(*old(self), *final(self)),
            },
    {
        let mut writer = self.writer.take().expect("a writer must be open");
        writer.commit()?;
        Ok(())
    }

    /// Dropping the writer discards everything it staged; committed state
    /// and snapshot stay as they are.
    #[verifier::external_body]
    pub(crate) fn discard_writer(&mut self)
        ensures
            !writer_open(*final(self)),
            committed_unchanged(*old(self), *final(self)),
            snapshot_unchanged(*old(self), *final(self)),
    {
        self.writer = None;
    }

    /// Relies on `IndexReader::reload`: on success the snapshot becomes the
    /// committed state; on failure searches keep the old snapshot.
    #[verifier::external_body]
    pub(crate) fn reload(&mut self) -> (r: Result<(), TantivyError>)
        ensures
            committed_unchanged(*old(self), *final(self)),
            writer_open(*final(self)) == writer_open(*old(self)),
            pending_unchanged(*old(self), *final(self)),
            match r {
                Ok(()) => snap_docs(*final(self)) == committed_docs(*old(self)) && snap_names(
                    *final(self),
                ) == committed_names(*old(self)),
                Err(_) => snapshot_unchanged(*old(self), *final(self)),
            },
    {
        self.reader.reload()
    }

    /// Relies on the default tantivy tokenizer, the same one the prose
    /// fields are indexed with: its output depends on the characters of the
    /// text alone, and an empty text yields no tokens.
    #[verifier::external_body]
    pub(crate) fn tokenize(&self, text: &str) -> (r: Vec<String>)
        ensures
            r.deep_view() == tokens_of(text@),
            text@.len() == 0 ==> r@.len() == 0,
    {
        let mut analyzer =
            self.index.tokenizers().get("default").expect("the default tokenizer is registered");
        let mut terms: Vec<String> = Vec::new();
        let mut stream = analyzer.token_stream(text);
        stream.process(&mut |token| {
            terms.push(token.text.to_string());
        });
        terms
    }

    /// Relies on `Searcher::search` over a union, across the two prose
    /// fields, of per-term contains-regex intersections, collected with
    /// tantivy's offset and limited top-docs collector: the addresses of
    /// one page are one contiguous slice of the deterministic ranked
    /// sequence of matching snapshot documents.
    #[verifier::external_body]
    pub(crate) fn search_addresses_terms(
        &self,
        terms: &Vec<String>,
        offset: usize,
        limit: usize,
    ) -> (r: Result<(tantivy::Searcher, Vec<tantivy::DocAddress>), TantivyError>)
        requires
            terms.len() >= 1,
            limit >= 1,
        ensures
            match r {
                Ok(sa) => {
                    &&& searcher_of(sa.0, *self)
                    &&& ranked_enumerates_matches(*self, terms.deep_view())
                    &&& addr_pairs(sa.0, sa.1@) == page_of(
                        ranked(*self, terms.deep_view()),
                        offset as int,
                        limit as int,
                    )
                    &&& forall|i: int| 0 <= i < sa.1@.len() ==> addr_live(sa.0, #[trigger] sa.1@[i])
                },
                Err(_) => true,
            },
    {
        let mut groups: Vec<Box<dyn Query>> = Vec::new();
        for f in [self.field_entrypoint_name, self.field_plugin_name] {
            let parts = terms.iter().map(|t| {
                RegexQuery::from_pattern(&format!(".*{}.*", escape(t)), f)
                    .map(|q| Box::new(q) as Box<dyn Query>)
            }).collect::<Result<Vec<_>, _>>()?;
            groups.push(Box::new(BooleanQuery::intersection(parts)));
        }
        let s = self.reader.searcher();
        let hits = s.search(&BooleanQuery::union(groups), &TopDocs::with_limit(limit).and_offset(offset).order_by_score())?;
        Ok((s, hits.into_iter().map(|(_score, a)| a).collect()))
    }

    /// Relies on `Searcher::search` with the match-everything query and the
    /// same collector: one page of the ranked sequence of all snapshot
    /// documents, which is the matching set of the empty term sequence.
    #[verifier::external_body]
    pub(crate) fn search_addresses_all(&self, offset: usize, limit: usize) -> (r: Result<
        (tantivy::Searcher, Vec<tantivy::DocAddress>),
        TantivyError,
    >)
        requires
            limit >= 1,
        ensures
            match r {
                Ok(sa) => {
                    &&& searcher_of(sa.0, *self)
                    &&& ranked_enumerates_matches(*self, Seq::<Seq<char>>::empty())
                    &&& addr_pairs(sa.0, sa.1@) == page_of(
                        ranked(*self, Seq::<Seq<char>>::empty()),
                        offset as int,
                        limit as int,
                    )
                    &&& forall|i: int| 0 <= i < sa.1@.len() ==> addr_live(sa.0, #[trigger] sa.1@[i])
                },
                Err(_) => true,
            },
    {
        let searcher = self.reader.searcher();
        let hits = searcher.search(&AllQuery, &TopDocs::with_limit(limit).and_offset(offset).order_by_score())?;
        Ok((searcher, hits.into_iter().map(|(_score, addr)| addr).collect()))
    }

    /// Relies on `Searcher::doc` and the stored text fields: the document
    /// at a live address of a searcher over this index's snapshot hands
    /// back the four fields it was indexed with, which are its pair and the
    /// names the snapshot stores for that pair.  Only live addresses are
    /// admitted: the document store neither bounds-checks a made-up
    /// address nor consults the alive set, so a stale address could panic
    /// or hand back a deleted document's leftover fields.
    #[verifier::external_body]
    pub(crate) fn resolve_hit(
        &self,
        searcher: &tantivy::Searcher,
        addr: &tantivy::DocAddress,
    ) -> (r: Result<IndexedDocument, TantivyError>)
        requires
            searcher_of(*searcher, *self),
            addr_live(*searcher, *addr),
        ensures
            match r {
                Ok(d) => {
                    &&& (d.plugin_id@, d.entrypoint_id@) == addr_pair(*searcher, *addr)
                    &&& d.entrypoint_name@ == snap_docs(*self)[d.plugin_id@][d.entrypoint_id@]
                    &&& d.plugin_name@ == snap_names(*self)[d.plugin_id@]
                },
                Err(_) => true,
            },
    {
        let doc: TantivyDocument = searcher.doc(*addr)?;
        let text = |f: Field| -> String {
            doc.get_first(f).and_then(|v| v.as_str()).expect("every indexed document stores this field as text").to_string()
        };
        Ok(IndexedDocument {
            entrypoint_name: text(self.field_entrypoint_name),
            entrypoint_id: text(self.field_entrypoint_id),
            plugin_name: text(self.field_plugin_name),
            plugin_id: text(self.field_plugin_id),
        })
    }
}

/// Whether a plugin identifier fits within one indexable term: the bound
/// that saving documents for it demands.
pub fn id_fits_term_limit(id: &PluginId) -> (r: bool)
    ensures
        r == id_within_term_limit(id@),
{
    let s = id.to_string();
    let bytes = s.as_str().as_bytes();
    proof {
        assert(bytes@ == vstd::utf8::encode_utf8(id@));
    }
    bytes.len() <= MAX_ID_BYTES
}

} // verus!
