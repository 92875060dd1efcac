//! The sensor registry: which sensor, if any, a pair of names belongs to.

use vstd::prelude::*;

verus! {

/// The registry's own key of a sensor.
#[derive(Debug, Clone, Copy, PartialEq, Eq, Structural)]
pub struct SensorKey {
    pub id: u128,
}

/// One entry of the registry.
#[derive(Debug)]
pub struct SensorRow {
    pub key: SensorKey,
    pub identifier: String,
    pub measuring: String,
}

/// The mathematical value of a [`SensorRow`].
pub struct SensorRowModel {
    pub key: SensorKey,
    pub identifier: Seq<char>,
    pub measuring: Seq<char>,
}

impl View for SensorRow {
    type V = SensorRowModel;

    open spec fn view(&self) -> SensorRowModel {
        SensorRowModel {
            key: self.key,
            identifier: self.identifier@,
            measuring: self.measuring@,
        }
    }
}

/// The sensors that are known, in the order in which the registry lists them.
///
/// The registry is meant to hold at most one sensor for each pair of names
/// (see [`distinct`]); resolving does not depend on it.
#[derive(Debug)]
pub struct SensorRegistry {
    pub rows: Vec<SensorRow>,
}

impl View for SensorRegistry {
    type V = Seq<SensorRowModel>;

    open spec fn view(&self) -> Seq<SensorRowModel> {
        Seq::new(self.rows@.len(), |i: int| self.rows@[i]@)
    }
}

impl SensorRowModel {
    /// Whether the entry is the sensor with both names.
    pub open spec fn answers(self, identifier: Seq<char>, measuring: Seq<char>) -> bool {
        self.identifier == identifier && self.measuring == measuring
    }
}

/// The key of the first entry, from position `from` on, that answers to both names.
pub open spec fn resolved_from(
    rows: Seq<SensorRowModel>,
    identifier: Seq<char>,
    measuring: Seq<char>,
    from: int,
) -> Option<SensorKey>
    decreases rows.len() - from,
{
    if from < 0 || from >= rows.len() {
        None
    } else if rows[from].answers(identifier, measuring) {
        Some(rows[from].key)
    } else {
        resolved_from(rows, identifier, measuring, from + 1)
    }
}

/// The key of the sensor with both names: that of the first entry that answers
/// to them, or nothing where no entry does.
pub open spec fn resolved(rows: Seq<SensorRowModel>, identifier: Seq<char>, measuring: Seq<char>)
    -> Option<SensorKey> {
    resolved_from(rows, identifier, measuring, 0)
}

/// No two entries answer to the same pair of names.
pub open spec fn distinct(rows: Seq<SensorRowModel>) -> bool {
    forall|i: int, j: int|
        0 <= i < j < rows.len() ==> !(#[trigger] rows[i]).answers(
            (#[trigger] rows[j]).identifier,
            rows[j].measuring,
        )
}

impl SensorRegistry {
    /// Looks up the sensor with both names.
    pub fn resolve(&self, identifier: &str, measuring: &str) -> (r: Option<SensorKey>)
        ensures
            r == resolved(self@, identifier@, measuring@),
    {
        let wanted_identifier = identifier.to_owned();
        let wanted_measuring = measuring.to_owned();
        let mut i: usize = 0;
        while i < self.rows.len()
            invariant
                i <= self.rows.len(),
                wanted_identifier@ == identifier@,
                wanted_measuring@ == measuring@,
                resolved(self@, identifier@, measuring@) == resolved_from(
                    self@,
                    identifier@,
                    measuring@,
                    i as int,
                ),
            decreases self.rows.len() - i,
        {
            assert(self@[i as int] == self.rows@[i as int]@);
            if self.rows[i].identifier == wanted_identifier && self.rows[i].measuring
                == wanted_measuring {
                return Some(self.rows[i].key);
            }
            i += 1;
        }
        None
    }
}

/// Nothing is resolved exactly where no entry answers to the names, and what is
/// resolved is the key of an entry that does.
pub proof fn lemma_resolved_answers(
    rows: Seq<SensorRowModel>,
    identifier: Seq<char>,
    measuring: Seq<char>,
)
    ensures
        resolved(rows, identifier, measuring) is None <==> forall|i: int|
            0 <= i < rows.len() ==> !(#[trigger] rows[i]).answers(identifier, measuring),
        resolved(rows, identifier, measuring) matches Some(key) ==> exists|i: int|
            0 <= i < rows.len() && (#[trigger] rows[i]).answers(identifier, measuring)
                && rows[i].key == key,
{
    lemma_resolved_from(rows, identifier, measuring, 0);
}

proof fn lemma_resolved_from(
    rows: Seq<SensorRowModel>,
    identifier: Seq<char>,
    measuring: Seq<char>,
    from: int,
)
    requires
        0 <= from,
    ensures
        resolved_from(rows, identifier, measuring, from) is None <==> forall|i: int|
            from <= i < rows.len() ==> !(#[trigger] rows[i]).answers(identifier, measuring),
        resolved_from(rows, identifier, measuring, from) matches Some(key) ==> exists|i: int|
            from <= i < rows.len() && (#[trigger] rows[i]).answers(identifier, measuring)
                && rows[i].key == key && forall|j: int|
                from <= j < i ==> !(#[trigger] rows[j]).answers(identifier, measuring),
    decreases rows.len() - from,
{
    if from < rows.len() {
        if rows[from].answers(identifier, measuring) {
        } else {
            lemma_resolved_from(rows, identifier, measuring, from + 1);
            match resolved_from(rows, identifier, measuring, from + 1) {
                Some(key) => {
                    let i = choose|i: int|
                        from + 1 <= i < rows.len() && (#[trigger] rows[i]).answers(
                            identifier,
                            measuring,
                        ) && rows[i].key == key && forall|j: int|
                            from + 1 <= j < i ==> !(#[trigger] rows[j]).answers(
                                identifier,
                                measuring,
                            );
                    assert forall|j: int| from <= j < i implies !(#[trigger] rows[j]).answers(
                        identifier,
                        measuring,
                    ) by {
                        if j == from {
                        }
                    }
                },
                None => {
                    assert forall|i: int| from <= i < rows.len() implies !(#[trigger] rows[i])
                        .answers(identifier, measuring) by {
                        if i == from {
                        }
                    }
                },
            }
        }
    }
}

/// In a registry that holds at most one sensor for each pair of names, a pair
/// resolves to the key of the one entry that answers to it: never to another.
pub proof fn lemma_resolution_is_unique(
    rows: Seq<SensorRowModel>,
    identifier: Seq<char>,
    measuring: Seq<char>,
    at: int,
)
    requires
        distinct(rows),
        0 <= at < rows.len(),
        rows[at].answers(identifier, measuring),
    ensures
        resolved(rows, identifier, measuring) == Some(rows[at].key),
{
    lemma_resolved_from(rows, identifier, measuring, 0);
    match resolved(rows, identifier, measuring) {
        Some(key) => {
            let i = choose|i: int|
                0 <= i < rows.len() && (#[trigger] rows[i]).answers(identifier, measuring)
                    && rows[i].key == key;
            if i < at {
                assert(!rows[i].answers(rows[at].identifier, rows[at].measuring));
            } else if at < i {
                assert(!rows[at].answers(rows[i].identifier, rows[i].measuring));
            }
        },
        None => {
            assert(!rows[at].answers(identifier, measuring));
        },
    }
}

/// A registry of one sensor resolves that sensor's names to its key, and any
/// other pair of names to nothing.
pub proof fn lemma_single_sensor(row: SensorRowModel, identifier: Seq<char>, measuring: Seq<char>)
    ensures
        resolved(seq![row], identifier, measuring) == if row.answers(identifier, measuring) {
            Some(row.key)
        } else {
            None
        },
{
    let rows = seq![row];
    assert(rows[0] == row);
    assert(resolved_from(rows, identifier, measuring, 1) is None);
}

} // verus!
