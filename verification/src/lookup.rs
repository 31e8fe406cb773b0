use vstd::prelude::*;

use crate::record::AudioRecord;

verus! {

/// The text of the one statement the gateway ever issues against the
/// datastore: a point read of the audio table keyed by the statement's
/// single bound parameter.
pub open spec fn lookup_statement_text() -> Seq<char> {
    "SELECT audio, id FROM \"Audio\" WHERE id = $1"@
}

/// The statement text used when looking up `id`. It is the same fixed text
/// whatever the identifier: the identifier never becomes part of the
/// statement, only of the value bound to its parameter.
pub open spec fn statement_for(id: Seq<char>) -> Seq<char> {
    lookup_statement_text()
}

/// A fully prepared lookup: the fixed statement, and the identifier to bind
/// as the statement's single parameter.
pub struct LookupQuery {
    pub statement: String,
    pub binding: String,
}

/// Prepares the lookup for `id`, taken verbatim from the request path.
///
/// The identifier is never interpolated into the statement text; it is
/// carried separately, to be bound as the statement's parameter by the
/// datastore driver.
pub fn lookup_query(id: String) -> (q: LookupQuery)
    ensures
        q.statement@ == statement_for(id@),
        q.binding@ == id@,
{
    LookupQuery {
        statement: "SELECT audio, id FROM \"Audio\" WHERE id = $1".to_owned(),
        binding: id,
    }
}

/// The lookup statement is immune to identifier injection: whatever the
/// identifier holds — quotes, control characters, fragments of query
/// syntax — the statement handed to the datastore is the same fixed text,
/// and the identifier reaches the datastore only as the value bound to the
/// statement's parameter.
pub proof fn lemma_statement_independent_of_identifier(a: Seq<char>, b: Seq<char>)
    ensures
        statement_for(a) == statement_for(b),
{
}

/// Everything a datastore lookup can come to. A connection-acquisition
/// failure, a timeout, a driver fault, or an ambiguous multi-row answer are
/// all `DatastoreError`: no internal detail is carried outward.
pub enum LookupOutcome {
    Found(AudioRecord),
    NotFound,
    DatastoreError,
}

} // verus!
