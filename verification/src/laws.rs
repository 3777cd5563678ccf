//! Laws of the coordinator's visible behaviour, stated over the same
//! spec functions its contracts use.

use vstd::prelude::*;

use crate::search::plugin_entry_matches;
use crate::store::PluginModel;
use crate::text_index::entry_matches;

verus! {

/// Replacing one plugin is atomic: once its data is the new `pm`, a pair of
/// that plugin matches a query exactly when the new data says so — no old
/// entry survives, no mix of old and new — while every other plugin's
/// matching is untouched.  Together with the search contract, which answers
/// from the current metadata alone, this is the whole of
/// replace-then-search.
pub proof fn lemma_replace_is_atomic(
    plugins: Map<Seq<char>, PluginModel>,
    p: Seq<char>,
    pm: PluginModel,
    e: Seq<char>,
    terms: Seq<Seq<char>>,
)
    ensures
        plugin_entry_matches(plugins.insert(p, pm), p, e, terms) <==> (
        pm.entrypoints.contains_key(e) && entry_matches(
            pm.entrypoints[e].entrypoint_name,
            pm.name,
            terms,
        )),
        forall|q: Seq<char>, e2: Seq<char>|
            q != p ==> (plugin_entry_matches(plugins.insert(p, pm), q, e2, terms)
                <==> plugin_entry_matches(plugins, q, e2, terms)),
{
}

/// Removal is scoped: after a plugin is removed no pair of it matches any
/// query, every other plugin's data is identical to before, and every
/// other plugin's matching is untouched.
pub proof fn lemma_removal_is_scoped(
    plugins: Map<Seq<char>, PluginModel>,
    p: Seq<char>,
    terms: Seq<Seq<char>>,
)
    ensures
        forall|e: Seq<char>| !plugin_entry_matches(plugins.remove(p), p, e, terms),
        forall|q: Seq<char>|
            q != p ==> plugins.remove(p).contains_key(q) == plugins.contains_key(q),
        forall|q: Seq<char>|
            q != p && plugins.contains_key(q) ==> plugins.remove(p)[q] == plugins[q],
        forall|q: Seq<char>, e2: Seq<char>|
            q != p ==> (plugin_entry_matches(plugins.remove(p), q, e2, terms)
                <==> plugin_entry_matches(plugins, q, e2, terms)),
{
}

/// A query of no terms matches every indexed pair: matching is vacuous, so
/// a search answers with one record per (plugin, entrypoint) pair held in
/// the metadata.  The tokenizer wrapper guarantees at each call that an
/// empty query string yields no terms, so this is the empty-query case of
/// the search contract.
pub proof fn lemma_no_terms_match_everything(
    plugins: Map<Seq<char>, PluginModel>,
    p: Seq<char>,
    e: Seq<char>,
)
    ensures
        plugin_entry_matches(plugins, p, e, Seq::<Seq<char>>::empty()) <==> (plugins.contains_key(
            p,
        ) && plugins[p].entrypoints.contains_key(e)),
{
}

} // verus!
