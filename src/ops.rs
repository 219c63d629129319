use vstd::prelude::*;
use crate::search::texts;
use crate::text::{decimal_of, joined, render_i64};

verus! {

/// Failure of a lookup in the search index.
#[derive(Clone, Copy, Debug, PartialEq, Eq, Structural)]
pub enum DatabaseError {
    /// No record matches.
    RecordNotFound,
    /// The index could not be queried, or its answer is inconsistent.
    InternalDatabaseError,
}

impl DatabaseError {
    /// Human-readable description.
    pub fn message(&self) -> (r: String)
        ensures
            r@ == (match self {
                DatabaseError::RecordNotFound => "Record not found."@,
                DatabaseError::InternalDatabaseError => "Internal database error."@,
            }),
    {
        match self {
            DatabaseError::RecordNotFound => String::from_str("Record not found."),
            DatabaseError::InternalDatabaseError => String::from_str("Internal database error."),
        }
    }

    /// HTTP status that reports this error to a client.
    pub fn status_code(&self) -> (r: u16)
        ensures
            r == (match self {
                DatabaseError::RecordNotFound => 404u16,
                DatabaseError::InternalDatabaseError => 500u16,
            }),
    {
        match self {
            DatabaseError::RecordNotFound => 404,
            DatabaseError::InternalDatabaseError => 500,
        }
    }
}

/// Filter that selects the beatmapset with id `id`.
pub fn beatmapset_id_filter(id: i64) -> (r: String)
    ensures
        r@ == "id = "@ + decimal_of(id as int),
{
    let digits = render_i64(id);
    joined("id = ", digits.as_str())
}

/// Filter that selects the beatmapset holding the beatmap with id `id`.
pub fn beatmap_id_filter(id: i64) -> (r: String)
    ensures
        r@ == "beatmaps.id = "@ + decimal_of(id as int),
{
    let digits = render_i64(id);
    joined("beatmaps.id = ", digits.as_str())
}

/// Filter that selects the beatmapset holding a beatmap with this checksum.
pub fn checksum_filter(checksum: &str) -> (r: String)
    ensures
        r@ == "beatmaps.checksum = "@ + checksum@,
{
    joined("beatmaps.checksum = ", checksum)
}

/// The record a lookup answers with: the first hit. `hits` is `None` when
/// the index could not be queried.
pub fn first_hit<T>(hits: Option<Vec<T>>) -> (r: Result<T, DatabaseError>)
    ensures
        match hits {
            None => r == Err::<T, DatabaseError>(DatabaseError::InternalDatabaseError),
            Some(v) => if v@.len() == 0 {
                r == Err::<T, DatabaseError>(DatabaseError::RecordNotFound)
            } else {
                r == Ok::<T, DatabaseError>(v@[0])
            },
        },
{
    match hits {
        None => Err(DatabaseError::InternalDatabaseError),
        Some(mut v) => {
            if v.len() == 0 {
                Err(DatabaseError::RecordNotFound)
            } else {
                Ok(v.remove(0))
            }
        },
    }
}

/// Position of the beatmap with id `id` among a beatmapset's beatmap ids.
/// The set was found by that beatmap id, so its absence is an
/// inconsistency of the index.
pub fn beatmap_position(ids: &Vec<i64>, id: i64) -> (r: Result<usize, DatabaseError>)
    ensures
        match r {
            Ok(i) => i < ids@.len() && ids@[i as int] == id
                && forall|j: int| 0 <= j < i ==> ids@[j] != id,
            Err(e) => e == DatabaseError::InternalDatabaseError && !ids@.contains(id),
        },
{
    let mut i: usize = 0;
    while i < ids.len()
        invariant
            i <= ids@.len(),
            forall|j: int| 0 <= j < i ==> ids@[j] != id,
        decreases ids.len() - i,
    {
        if ids[i] == id {
            return Ok(i);
        }
        i = i + 1;
    }
    Err(DatabaseError::InternalDatabaseError)
}

/// The entries of `wanted` that `existing` lacks, in order.
pub open spec fn missing(wanted: Seq<Seq<char>>, existing: Seq<Seq<char>>) -> Seq<Seq<char>>
    decreases wanted.len(),
{
    if wanted.len() == 0 {
        Seq::empty()
    } else {
        let rest = missing(wanted.drop_last(), existing);
        if existing.contains(wanted.last()) {
            rest
        } else {
            rest.push(wanted.last())
        }
    }
}

fn contains_text(v: &Vec<String>, s: &String) -> (r: bool)
    ensures
        r == texts(v@).contains(s@),
{
    let mut i: usize = 0;
    while i < v.len()
        invariant
            i <= v@.len(),
            forall|j: int| 0 <= j < i ==> v@[j]@ != s@,
        decreases v.len() - i,
    {
        if v[i] == *s {
            proof {
                assert(texts(v@)[i as int] == s@);
            }
            return true;
        }
        i = i + 1;
    }
    proof {
        if texts(v@).contains(s@) {
            let j = choose|j: int| 0 <= j < texts(v@).len() && texts(v@)[j] == s@;
            assert(v@[j]@ == s@);
        }
    }
    false
}

/// The index settings of `wanted` that `existing` lacks; the settings must
/// be updated exactly when this is not empty.
pub fn missing_attributes(existing: &Vec<String>, wanted: &Vec<String>) -> (r: Vec<String>)
    ensures
        texts(r@) == missing(texts(wanted@), texts(existing@)),
{
    let mut out: Vec<String> = Vec::new();
    let mut i: usize = 0;
    while i < wanted.len()
        invariant
            i <= wanted@.len(),
            texts(out@) == missing(texts(wanted@).take(i as int), texts(existing@)),
        decreases wanted.len() - i,
    {
        proof {
            assert(texts(wanted@).take(i + 1).drop_last() =~= texts(wanted@).take(i as int));
            assert(texts(wanted@).take(i + 1).last() == wanted@[i as int]@);
        }
        if !contains_text(existing, &wanted[i]) {
            let ghost before = out@;
            out.push(wanted[i].clone());
            proof {
                assert(texts(out@) =~= texts(before).push(wanted@[i as int]@));
            }
        }
        i = i + 1;
    }
    proof {
        assert(texts(wanted@).take(wanted@.len() as int) =~= texts(wanted@));
    }
    out
}

fn texts_of(items: Vec<&str>) -> (r: Vec<String>)
    ensures
        r@.len() == items@.len(),
        forall|i: int| 0 <= i < items@.len() ==> #[trigger] r@[i]@ == items@[i]@,
{
    let mut out: Vec<String> = Vec::new();
    let mut i: usize = 0;
    while i < items.len()
        invariant
            i <= items@.len(),
            out@.len() == i,
            forall|j: int| 0 <= j < i ==> #[trigger] out@[j]@ == items@[j]@,
        decreases items.len() - i,
    {
        out.push(String::from_str(items[i]));
        i = i + 1;
    }
    out
}

/// Attributes of indexed beatmapsets that searches filter on.
pub fn beatmapset_filterable() -> (r: Vec<String>)
    ensures
        texts(r@) == seq![
            "beatmaps.id"@, "id"@, "title"@, "title_unicode"@, "beatmaps.checksum"@,
            "beatmaps.mode"@, "status"@,
        ],
{
    let r = texts_of(vec![
        "beatmaps.id", "id", "title", "title_unicode", "beatmaps.checksum", "beatmaps.mode", "status",
    ]);
    proof {
        assert(texts(r@) =~= seq![
            "beatmaps.id"@, "id"@, "title"@, "title_unicode"@, "beatmaps.checksum"@,
            "beatmaps.mode"@, "status"@,
        ]);
    }
    r
}

/// Attributes of indexed beatmapsets that searches sort on.
pub fn beatmapset_sortable() -> (r: Vec<String>)
    ensures
        texts(r@) == seq![
            "id"@, "title"@, "title_unicode"@, "last_updated"@, "ranked_date"@,
            "submitted_date"@, "play_count"@,
        ],
{
    let r = texts_of(vec![
        "id", "title", "title_unicode", "last_updated", "ranked_date", "submitted_date", "play_count",
    ]);
    proof {
        assert(texts(r@) =~= seq![
            "id"@, "title"@, "title_unicode"@, "last_updated"@, "ranked_date"@,
            "submitted_date"@, "play_count"@,
        ]);
    }
    r
}

/// Attributes of download records that lookups filter on.
pub fn downloads_filterable() -> (r: Vec<String>)
    ensures
        texts(r@) == seq!["id"@],
{
    let r = texts_of(vec!["id"]);
    proof {
        assert(texts(r@) =~= seq!["id"@]);
    }
    r
}

} // verus!
