use vstd::prelude::*;
use crate::text::joined;

verus! {

/// Game mode of a beatmap.
#[derive(Clone, Copy, Debug, PartialEq, Eq, Structural)]
pub enum OsuRuleset {
    Osu,
    Taiko,
    Fruits,
    Mania,
}

/// Name of a game mode as stored in the index.
pub open spec fn ruleset_name(ruleset: OsuRuleset) -> Seq<char> {
    match ruleset {
        OsuRuleset::Osu => "osu"@,
        OsuRuleset::Taiko => "taiko"@,
        OsuRuleset::Fruits => "fruits"@,
        OsuRuleset::Mania => "mania"@,
    }
}

/// Name of a game mode as stored in the index.
pub fn serialize_ruleset(ruleset: OsuRuleset) -> (r: String)
    ensures
        r@ == ruleset_name(ruleset),
{
    match ruleset {
        OsuRuleset::Osu => String::from_str("osu"),
        OsuRuleset::Taiko => String::from_str("taiko"),
        OsuRuleset::Fruits => String::from_str("fruits"),
        OsuRuleset::Mania => String::from_str("mania"),
    }
}

/// `parts` separated by `sep`.
pub open spec fn join(parts: Seq<Seq<char>>, sep: Seq<char>) -> Seq<char>
    decreases parts.len(),
{
    if parts.len() == 0 {
        Seq::empty()
    } else if parts.len() == 1 {
        parts[0]
    } else {
        join(parts.drop_last(), sep) + sep + parts.last()
    }
}

/// The texts held by a vector of strings.
pub open spec fn texts(v: Seq<String>) -> Seq<Seq<char>> {
    v.map_values(|s: String| s@)
}

/// `parts` separated by `sep`.
pub fn join_strings(parts: &Vec<String>, sep: &str) -> (r: String)
    ensures
        r@ == join(texts(parts@), sep@),
{
    let mut out = String::new();
    let mut i: usize = 0;
    while i < parts.len()
        invariant
            i <= parts.len(),
            out@ == join(texts(parts@).take(i as int), sep@),
        decreases parts.len() - i,
    {
        proof {
            assert(texts(parts@).take(i + 1).drop_last() =~= texts(parts@).take(i as int));
        }
        if i > 0 {
            out.append(sep);
        }
        out.append(parts[i].as_str());
        proof {
            if i == 0 {
                assert(out@ =~= join(texts(parts@).take(1), sep@));
            }
        }
        i = i + 1;
    }
    proof {
        assert(texts(parts@).take(parts@.len() as int) =~= texts(parts@));
    }
    out
}

/// A search over indexed beatmapsets as a client asked for it.
pub struct SearchQuery {
    pub query: Option<String>,
    pub limit: Option<i32>,
    pub offset: Option<i32>,
    pub statuses: Option<Vec<String>>,
    pub sort: Option<String>,
    pub modes: Option<Vec<OsuRuleset>>,
}

/// The index query that answers a `SearchQuery`.
pub struct SearchPlan {
    /// Free text to match.
    pub query: String,
    /// Filter expression over status and game mode.
    pub filter: String,
    /// Sort rule, `attribute:direction`.
    pub sort: String,
    pub offset: i32,
    pub limit: i32,
}

/// Statuses searched when the client names none.
pub open spec fn default_statuses() -> Seq<Seq<char>> {
    seq!["ranked"@, "loved"@, "aproved"@, "qualified"@]
}

/// Game modes searched when the client names none.
pub open spec fn all_rulesets() -> Seq<OsuRuleset> {
    seq![OsuRuleset::Osu, OsuRuleset::Taiko, OsuRuleset::Fruits, OsuRuleset::Mania]
}

/// Filter clause that selects one game mode.
pub open spec fn mode_clause(ruleset: OsuRuleset) -> Seq<char> {
    "(beatmaps.mode = '"@ + ruleset_name(ruleset) + "')"@
}

/// Filter expression: any of the statuses, and any of the game modes.
pub open spec fn search_filter(statuses: Seq<Seq<char>>, modes: Seq<OsuRuleset>) -> Seq<char> {
    "(status IN ["@ + join(statuses, ", "@) + "]) AND ("@
        + join(modes.map_values(|m: OsuRuleset| mode_clause(m)), " OR "@) + ")"@
}

/// Sort rule for a client's sort name.
pub open spec fn sort_rule(sort: Option<Seq<char>>) -> Seq<char> {
    if sort == Some("updated_asc"@) {
        "last_updated:asc"@
    } else if sort == Some("playcount"@) {
        "play_count:asc"@
    } else {
        "last_updated:desc"@
    }
}

fn mode_clause_text(ruleset: OsuRuleset) -> (r: String)
    ensures
        r@ == mode_clause(ruleset),
{
    let name = serialize_ruleset(ruleset);
    let head = joined("(beatmaps.mode = '", name.as_str());
    joined(head.as_str(), "')")
}

fn mode_clauses(modes: &Vec<OsuRuleset>) -> (r: Vec<String>)
    ensures
        texts(r@) == modes@.map_values(|m: OsuRuleset| mode_clause(m)),
{
    let mut out: Vec<String> = Vec::new();
    let mut i: usize = 0;
    while i < modes.len()
        invariant
            i <= modes.len(),
            out@.len() == i,
            forall|j: int| 0 <= j < i ==> #[trigger] out@[j]@ == mode_clause(modes@[j]),
        decreases modes.len() - i,
    {
        let clause = mode_clause_text(modes[i]);
        out.push(clause);
        i = i + 1;
    }
    proof {
        assert(texts(out@) =~= modes@.map_values(|m: OsuRuleset| mode_clause(m)));
    }
    out
}

fn sort_rule_text(sort: &Option<String>) -> (r: String)
    ensures
        r@ == sort_rule(match sort {
            Some(s) => Some(s@),
            None => None,
        }),
{
    match sort {
        Some(s) => {
            if *s == String::from_str("updated_asc") {
                String::from_str("last_updated:asc")
            } else if *s == String::from_str("playcount") {
                String::from_str("play_count:asc")
            } else {
                String::from_str("last_updated:desc")
            }
        },
        None => String::from_str("last_updated:desc"),
    }
}

/// The index query for a client's search: the given statuses (ranked,
/// loved, approved and qualified by default) and game modes (all four by
/// default), the named sort (most recently updated first by default), from
/// offset 0, at most 50 results by default.
pub fn plan_search(q: SearchQuery) -> (r: SearchPlan)
    ensures
        r.query@ == (match q.query {
            Some(s) => s@,
            None => Seq::empty(),
        }),
        r.filter@ == search_filter(
            match q.statuses {
                Some(v) => texts(v@),
                None => default_statuses(),
            },
            match q.modes {
                Some(v) => v@,
                None => all_rulesets(),
            },
        ),
        r.sort@ == sort_rule(match q.sort {
            Some(s) => Some(s@),
            None => None,
        }),
        r.offset == (match q.offset {
            Some(n) => n,
            None => 0,
        }),
        r.limit == (match q.limit {
            Some(n) => n,
            None => 50,
        }),
{
    let statuses = match q.statuses {
        Some(v) => v,
        None => vec![
            String::from_str("ranked"),
            String::from_str("loved"),
            String::from_str("aproved"),
            String::from_str("qualified"),
        ],
    };
    proof {
        if q.statuses is None {
            assert(texts(statuses@) =~= default_statuses());
        }
    }
    let modes = match q.modes {
        Some(v) => v,
        None => vec![OsuRuleset::Osu, OsuRuleset::Taiko, OsuRuleset::Fruits, OsuRuleset::Mania],
    };
    proof {
        if q.modes is None {
            assert(modes@ =~= all_rulesets());
        }
    }
    let status_list = join_strings(&statuses, ", ");
    let clauses = mode_clauses(&modes);
    let mode_list = join_strings(&clauses, " OR ");
    let f1 = joined("(status IN [", status_list.as_str());
    let f2 = joined(f1.as_str(), "]) AND (");
    let f3 = joined(f2.as_str(), mode_list.as_str());
    let filter = joined(f3.as_str(), ")");
    proof {
        assert(filter@ =~= search_filter(texts(statuses@), modes@));
    }
    let sort = sort_rule_text(&q.sort);
    let query = match q.query {
        Some(s) => s,
        None => String::new(),
    };
    let offset = match q.offset {
        Some(n) => n,
        None => 0,
    };
    let limit = match q.limit {
        Some(n) => n,
        None => 50,
    };
    SearchPlan { query, filter, sort, offset, limit }
}

} // verus!
