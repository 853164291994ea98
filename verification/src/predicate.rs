//! The text of the metadata-search predicate.
//!
//! The native search takes a predicate built from a free-text query and a
//! list of allowed extension patterns: the query must appear in the display
//! name; the item must either match one of the extension patterns or be a
//! dot-free folder; and system files are excluded.  The native predicate
//! objects are compounded outside this crate from exactly the clause
//! strings built here.

use vstd::prelude::*;

verus! {

/// The clause matching one allowed extension pattern against the display
/// name, case-insensitively.
pub open spec fn extension_clause_text(pattern: Seq<char>) -> Seq<char> {
    "kMDItemDisplayName LIKE[c] '"@ + pattern + "'"@
}

/// The clause matching the free-text query against the display name,
/// case- and diacritic-insensitively.
pub open spec fn search_clause_text(query: Seq<char>) -> Seq<char> {
    "kMDItemDisplayName CONTAINS[cd] '"@ + query + "'"@
}

/// Builds the display-name clause for one allowed extension pattern.
pub fn extension_clause(pattern: &str) -> (r: String)
    ensures
        r@ == extension_clause_text(pattern@),
{
    String::from_str("kMDItemDisplayName LIKE[c] '").concat(pattern).concat("'")
}

/// Builds the display-name clause for the free-text query.
pub fn search_clause(query: &str) -> (r: String)
    ensures
        r@ == search_clause_text(query@),
{
    String::from_str("kMDItemDisplayName CONTAINS[cd] '").concat(query).concat("'")
}

/// The clause admitting folders, which may not carry a dot in their name.
pub fn folder_clause() -> (r: &'static str)
    ensures
        r@ == "kMDItemContentType == 'public.folder' AND NOT (kMDItemDisplayName CONTAINS[cd] '.')"@,
{
    "kMDItemContentType == 'public.folder' AND NOT (kMDItemDisplayName CONTAINS[cd] '.')"
}

/// The clause excluding system files.
pub fn exclude_system_clause() -> (r: &'static str)
    ensures
        r@ == "NOT (kMDItemSupportFileType == 'MDSystemFile')"@,
{
    "NOT (kMDItemSupportFileType == 'MDSystemFile')"
}

/// The effective search term: an absent query searches for the empty text.
pub fn search_term(query: &Option<String>) -> (r: &str)
    ensures
        query matches Some(q) ==> r@ == q@,
        query is None ==> r@ == Seq::<char>::empty(),
{
    match query {
        Some(q) => q.as_str(),
        None => {
            let r = "";
            proof {
                reveal_strlit("");
                assert(r@ =~= Seq::<char>::empty());
            }
            r
        },
    }
}

/// Every clause string of one search predicate.  The native side disjoins
/// the extension clauses, disjoins that with the folder clause, and
/// conjoins the result with the search clause and the system-file
/// exclusion.
pub struct PredicateParts {
    pub extension_clauses: Vec<String>,
    pub search_clause: String,
    pub folder_clause: String,
    pub exclude_system_clause: String,
}

/// Builds every clause of the predicate for one search: one extension
/// clause per allowed pattern, in their given order, and the three fixed
/// or query-derived clauses.
pub fn build_predicate_parts(query_text: &str, allowed_extensions: &Vec<String>) -> (r:
    PredicateParts)
    ensures
        r.extension_clauses@.len() == allowed_extensions@.len(),
        forall|i: int|
            0 <= i < allowed_extensions@.len() ==> r.extension_clauses@[i]@
                == extension_clause_text(allowed_extensions@[i]@),
        r.search_clause@ == search_clause_text(query_text@),
        r.folder_clause@
            == "kMDItemContentType == 'public.folder' AND NOT (kMDItemDisplayName CONTAINS[cd] '.')"@,
        r.exclude_system_clause@ == "NOT (kMDItemSupportFileType == 'MDSystemFile')"@,
{
    let mut extension_clauses: Vec<String> = Vec::new();
    let mut i: usize = 0;
    while i < allowed_extensions.len()
        invariant
            i <= allowed_extensions@.len(),
            extension_clauses@.len() == i,
            forall|j: int|
                0 <= j < i ==> extension_clauses@[j]@ == extension_clause_text(
                    allowed_extensions@[j]@,
                ),
        decreases allowed_extensions@.len() - i,
    {
        extension_clauses.push(extension_clause(allowed_extensions[i].as_str()));
        i += 1;
    }
    PredicateParts {
        extension_clauses,
        search_clause: search_clause(query_text),
        folder_clause: String::from_str(folder_clause()),
        exclude_system_clause: String::from_str(exclude_system_clause()),
    }
}

} // verus!
