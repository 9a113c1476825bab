//! The description table: an ordered, immutable list of (identifier,
//! description) entries built once from external data, and the two-pass
//! lookup that resolves an identifier with an endianness fallback.

use vstd::prelude::*;
use vstd::string::StringSliceAdditionalSpecFns;
use crate::guid::PartitionTypeGuid;
use crate::parse::{parse_guid, spec_parse_guid, ParseError};

verus! {

/// The human-readable label of a partition type: an operating-system name
/// and a description, sourced verbatim from the external data.
#[derive(Clone, Copy, Debug, PartialEq, Eq)]
pub struct PartitionDescription {
    pub os: &'static str,
    pub type_description: &'static str,
}

/// An ordered sequence of (identifier, description) entries. Built exactly
/// once from external (os, description, identifier-text) records and never
/// mutated afterward; order is preserved from the external data, duplicates
/// are permitted, and the first occurrence wins on lookup.
pub struct DescriptionTable {
    entries: Vec<(PartitionTypeGuid, PartitionDescription)>,
}

impl View for DescriptionTable {
    type V = Seq<(PartitionTypeGuid, PartitionDescription)>;

    closed spec fn view(&self) -> Seq<(PartitionTypeGuid, PartitionDescription)> {
        self.entries@
    }
}

/// The description of the first entry, in table order, whose identifier
/// equals the query; nothing when no entry matches.
pub open spec fn spec_first_match(
    entries: Seq<(PartitionTypeGuid, PartitionDescription)>,
    query: PartitionTypeGuid,
) -> Option<PartitionDescription>
    decreases entries.len(),
{
    if entries.len() == 0 {
        None
    } else if entries[0].0 == query {
        Some(entries[0].1)
    } else {
        spec_first_match(entries.drop_first(), query)
    }
}

/// The two-pass lookup policy: the first entry matching the query as given;
/// failing that, the first entry matching its byte-swapped counterpart;
/// failing both, nothing.
pub open spec fn spec_describe(
    entries: Seq<(PartitionTypeGuid, PartitionDescription)>,
    query: PartitionTypeGuid,
) -> Option<PartitionDescription> {
    match spec_first_match(entries, query) {
        Some(d) => Some(d),
        None => spec_first_match(entries, query.spec_flip()),
    }
}

/// Fieldwise equality of two identifiers.
fn eq(x: PartitionTypeGuid, y: PartitionTypeGuid) -> (r: bool)
    ensures
        r == (x == y),
{
    x.time_low == y.time_low && x.time_mid == y.time_mid && x.time_hi_and_version
        == y.time_hi_and_version && x.clock_seq == y.clock_seq && x.node == y.node
}

/// A scan that found no match among the first `i` entries finds its first
/// match, if any, in the remainder.
proof fn lemma_first_match_skip(
    entries: Seq<(PartitionTypeGuid, PartitionDescription)>,
    query: PartitionTypeGuid,
    i: int,
)
    requires
        0 <= i <= entries.len(),
        forall|j: int| 0 <= j < i ==> (#[trigger] entries[j]).0 != query,
    ensures
        spec_first_match(entries, query) == spec_first_match(entries.skip(i), query),
    decreases i,
{
    if i == 0 {
        assert(entries.skip(0) =~= entries);
    } else {
        assert(forall|j: int|
            0 <= j < i - 1 ==> (#[trigger] entries.drop_first()[j]).0 != query) by {
            assert(forall|j: int|
                0 <= j < i - 1 ==> entries.drop_first()[j] == (#[trigger] entries[j + 1]));
        }
        lemma_first_match_skip(entries.drop_first(), query, i - 1);
        assert(entries.drop_first().skip(i - 1) =~= entries.skip(i));
    }
}

impl DescriptionTable {
    /// Builds the table from the external data: an ordered sequence of
    /// (os, description, identifier-text) records, each identifier in the
    /// canonical 36-character form.
    ///
    /// Succeeds exactly when every identifier text parses; the entries then
    /// hold the parsed identifiers with their labels, in the records'
    /// order. Fails with the parse error of the first rejected record.
    pub fn build(records: &Vec<(&'static str, &'static str, &'static str)>) -> (r: Result<
        DescriptionTable,
        ParseError,
    >)
        ensures
            r matches Ok(t) ==> {
                &&& t@.len() == records@.len()
                &&& forall|i: int|
                    0 <= i < records@.len() ==> spec_parse_guid(
                        (#[trigger] records@[i]).2.spec_bytes(),
                    ) == Ok::<PartitionTypeGuid, ParseError>(t@[i].0)
                &&& forall|i: int|
                    0 <= i < records@.len() ==> (#[trigger] t@[i]).1 == (PartitionDescription {
                        os: records@[i].0,
                        type_description: records@[i].1,
                    })
            },
            r matches Err(e) ==> exists|i: int|
                {
                    &&& 0 <= i < records@.len()
                    &&& spec_parse_guid((#[trigger] records@[i]).2.spec_bytes()) == Err::<
                        PartitionTypeGuid,
                        ParseError,
                    >(e)
                    &&& forall|j: int|
                        0 <= j < i ==> spec_parse_guid(
                            (#[trigger] records@[j]).2.spec_bytes(),
                        ) is Ok
                },
            r is Ok <==> forall|i: int|
                0 <= i < records@.len() ==> spec_parse_guid(
                    (#[trigger] records@[i]).2.spec_bytes(),
                ) is Ok,
    {
        let mut entries: Vec<(PartitionTypeGuid, PartitionDescription)> = Vec::new();
        let mut i: usize = 0;
        while i < records.len()
            invariant
                0 <= i <= records@.len(),
                entries@.len() == i,
                forall|j: int|
                    0 <= j < i ==> spec_parse_guid((#[trigger] records@[j]).2.spec_bytes())
                        == Ok::<PartitionTypeGuid, ParseError>(entries@[j].0),
                forall|j: int|
                    0 <= j < i ==> (#[trigger] entries@[j]).1 == (PartitionDescription {
                        os: records@[j].0,
                        type_description: records@[j].1,
                    }),
            decreases records@.len() - i,
        {
            let record = records[i];
            match parse_guid(record.2) {
                Ok(g) => {
                    entries.push(
                        (g, PartitionDescription { os: record.0, type_description: record.1 }),
                    );
                },
                Err(e) => {
                    return Err(e);
                },
            }
            i = i + 1;
        }
        Ok(DescriptionTable { entries })
    }

    /// The number of entries in the table.
    pub fn len(&self) -> (r: usize)
        ensures
            r == self@.len(),
    {
        self.entries.len()
    }

    /// The description of the first entry, in table order, whose identifier
    /// equals `query`; nothing when no entry matches. No endianness
    /// fallback is applied.
    pub fn lookup_exact(&self, query: PartitionTypeGuid) -> (r: Option<PartitionDescription>)
        ensures
            r == spec_first_match(self@, query),
    {
        let mut i: usize = 0;
        while i < self.entries.len()
            invariant
                0 <= i <= self@.len(),
                forall|j: int| 0 <= j < i ==> (#[trigger] self@[j]).0 != query,
            decreases self@.len() - i,
        {
            let entry = self.entries[i];
            if eq(entry.0, query) {
                proof {
                    lemma_first_match_skip(self@, query, i as int);
                    assert(self@.skip(i as int)[0] == self@[i as int]);
                }
                return Some(entry.1);
            }
            i = i + 1;
        }
        proof {
            lemma_first_match_skip(self@, query, self@.len() as int);
            assert(self@.skip(self@.len() as int) =~= Seq::<
                (PartitionTypeGuid, PartitionDescription),
            >::empty());
        }
        None
    }

    /// Resolves an identifier to its description: first the query as given,
    /// then, if no entry matches, its byte-swapped counterpart; within
    /// whichever pass matches, the first entry in table order wins.
    pub fn describe(&self, query: PartitionTypeGuid) -> (r: Option<PartitionDescription>)
        ensures
            r == spec_describe(self@, query),
    {
        match self.lookup_exact(query) {
            Some(d) => Some(d),
            None => self.lookup_exact(query.flip_endian()),
        }
    }
}

impl PartitionTypeGuid {
    /// Resolves this identifier through the table's two-pass lookup; see
    /// [`DescriptionTable::describe`].
    pub fn description(self, table: &DescriptionTable) -> (r: Option<PartitionDescription>)
        ensures
            r == spec_describe(table@, self),
    {
        table.describe(self)
    }
}

} // verus!
