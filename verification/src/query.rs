//! The search statement builder: renders the optional filter fields
//! into one SQL SELECT with a case-insensitive substring predicate per
//! present field, conjoined with AND, and the bound values wrapped in
//! LIKE wildcards.  The bind list order is exactly the predicate
//! emission order: title, then artist, then genre.

use vstd::prelude::*;
use vstd::string::StringExecFns;
use crate::song::{SearchFilter, FilterView};

verus! {

/// The constant head of every search statement.
pub open spec fn select_head() -> Seq<char> {
    "SELECT * FROM songs"@
}

/// The predicate emitted for a present title.
pub open spec fn title_predicate() -> Seq<char> {
    "LOWER(title) LIKE LOWER(?)"@
}

/// The predicate emitted for a present artist.
pub open spec fn artist_predicate() -> Seq<char> {
    "LOWER(artist) LIKE LOWER(?)"@
}

/// The predicate emitted for a present genre.
pub open spec fn genre_predicate() -> Seq<char> {
    "LOWER(genre) LIKE LOWER(?)"@
}

/// The predicates the filter contributes, in binding order.
pub open spec fn predicates_of(f: FilterView) -> Seq<Seq<char>> {
    (if f.title is Some {
        seq![title_predicate()]
    } else {
        Seq::empty()
    }) + (if f.artist is Some {
        seq![artist_predicate()]
    } else {
        Seq::empty()
    }) + (if f.genre is Some {
        seq![genre_predicate()]
    } else {
        Seq::empty()
    })
}

/// The clause that follows the head: empty with no predicate, else
/// " WHERE " before the first predicate and " AND " before each later
/// one.
pub open spec fn joined_clause(ps: Seq<Seq<char>>) -> Seq<char>
    decreases ps.len(),
{
    if ps.len() == 0 {
        Seq::empty()
    } else {
        joined_clause(ps.drop_last()) + (if ps.len() == 1 {
            " WHERE "@
        } else {
            " AND "@
        }) + ps.last()
    }
}

/// The full text of the search statement for a filter.
pub open spec fn search_sql(f: FilterView) -> Seq<char> {
    select_head() + joined_clause(predicates_of(f))
}

/// A value wrapped in LIKE wildcards on both ends, making the
/// comparison a substring match.
pub open spec fn like_pattern(v: Seq<char>) -> Seq<char> {
    seq!['%'] + v + seq!['%']
}

/// The values to bind, one per present field, in predicate order.
pub open spec fn bind_patterns(f: FilterView) -> Seq<Seq<char>> {
    (match f.title {
        Some(t) => seq![like_pattern(t)],
        None => Seq::empty(),
    }) + (match f.artist {
        Some(a) => seq![like_pattern(a)],
        None => Seq::empty(),
    }) + (match f.genre {
        Some(g) => seq![like_pattern(g)],
        None => Seq::empty(),
    })
}

/// The view of each bound value, in order.
pub open spec fn pattern_views(ss: Seq<String>) -> Seq<Seq<char>> {
    ss.map_values(|s: String| s@)
}

/// Appending predicate `n` extends the clause with " WHERE " if it is
/// the first, " AND " otherwise.
proof fn lemma_joined_step(ps: Seq<Seq<char>>, n: int)
    requires
        0 <= n < ps.len(),
    ensures
        joined_clause(ps.take(n + 1)) == joined_clause(ps.take(n)) + (if n == 0 {
            " WHERE "@
        } else {
            " AND "@
        }) + ps[n],
{
    assert(ps.take(n + 1).drop_last() =~= ps.take(n));
    assert(ps.take(n + 1).last() == ps[n]);
}

/// Wraps one search value in wildcards.
fn wildcard(v: &String) -> (r: String)
    ensures
        r@ == like_pattern(v@),
{
    let mut r = String::from_str("%");
    r.append(v.as_str());
    r.append("%");
    proof {
        reveal_strlit("%");
        assert(r@ =~= like_pattern(v@));
    }
    r
}

/// Builds the search statement and its bind list from the filter; the
/// bound values stand in exactly the order their placeholders appear.
#[verifier::rlimit(80)]
pub fn build_search_query(f: &SearchFilter) -> (r: (String, Vec<String>))
    ensures
        r.0@ == search_sql(f@),
        pattern_views(r.1@) == bind_patterns(f@),
{
    let ghost ps = predicates_of(f@);
    let mut sql = String::from_str("SELECT * FROM songs");
    let mut binds: Vec<String> = Vec::new();
    let mut n: usize = 0;
    if let Some(t) = &f.title {
        sql.append(if n == 0 {
            " WHERE "
        } else {
            " AND "
        });
        sql.append("LOWER(title) LIKE LOWER(?)");
        binds.push(wildcard(t));
        proof {
            assert(ps.take(1) =~= seq![title_predicate()]);
            lemma_joined_step(ps, 0);
            assert(ps.take(0) =~= Seq::<Seq<char>>::empty());
            assert(sql@ =~= select_head() + joined_clause(ps.take(1)));
        }
        n = n + 1;
    }
    proof {
        assert(sql@ == select_head() + joined_clause(ps.take(n as int)));
        assert(n as int == ps.take(n as int).len());
    }
    if let Some(a) = &f.artist {
        sql.append(if n == 0 {
            " WHERE "
        } else {
            " AND "
        });
        sql.append("LOWER(artist) LIKE LOWER(?)");
        binds.push(wildcard(a));
        proof {
            assert(ps[n as int] == artist_predicate());
            lemma_joined_step(ps, n as int);
            assert(sql@ =~= select_head() + joined_clause(ps.take(n as int + 1)));
        }
        n = n + 1;
    }
    if let Some(g) = &f.genre {
        sql.append(if n == 0 {
            " WHERE "
        } else {
            " AND "
        });
        sql.append("LOWER(genre) LIKE LOWER(?)");
        binds.push(wildcard(g));
        proof {
            assert(ps[n as int] == genre_predicate());
            lemma_joined_step(ps, n as int);
            assert(sql@ =~= select_head() + joined_clause(ps.take(n as int + 1)));
        }
        n = n + 1;
    }
    proof {
        assert(n as int == ps.len());
        assert(ps.take(n as int) =~= ps);
        assert(pattern_views(binds@) =~= bind_patterns(f@));
    }
    (sql, binds)
}

} // verus!
