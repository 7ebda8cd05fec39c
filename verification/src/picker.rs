use vstd::prelude::*;
use crate::config::Query;

verus! {

/// What a rendered picker line holds: the alias, the delimiter and a space,
/// then the SQL text.
pub open spec fn rendered_line(alias: Seq<char>, sql: Seq<char>) -> Seq<char> {
    alias + seq![':', ' '] + sql
}

/// The alias portion of a picker line: everything before the first ':', or
/// the whole line when it holds no ':'.
pub open spec fn alias_prefix(line: Seq<char>) -> Seq<char> {
    match line.index_of_first(':') {
        Some(i) => line.subrange(0, i),
        None => line,
    }
}

/// The first entry whose alias matches, if any.
pub open spec fn first_match(queries: Seq<Query>, alias: Seq<char>) -> Option<Query>
    decreases queries.len(),
{
    if queries.len() == 0 {
        None
    } else if queries[0].alias@ == alias {
        Some(queries[0])
    } else {
        first_match(queries.drop_first(), alias)
    }
}

/// Renders one entry as the single line the picker displays for it.
pub fn render_line(q: &Query) -> (r: String)
    ensures
        r@ == rendered_line(q.alias@, q.sql@),
{
    let mut r = q.alias.clone();
    r.append(": ");
    r.append(q.sql.as_str());
    proof {
        reveal_strlit(": ");
        assert(": "@ =~= seq![':', ' ']);
        assert(r@ =~= rendered_line(q.alias@, q.sql@));
    }
    r
}

/// Renders every entry, in order, as its picker line.
pub fn render_lines(queries: &Vec<Query>) -> (r: Vec<String>)
    ensures
        r@.len() == queries@.len(),
        forall|i: int| 0 <= i < queries@.len() ==> #[trigger] r@[i]@ == rendered_line(
            queries@[i].alias@,
            queries@[i].sql@,
        ),
{
    let n: usize = queries.len();
    let mut r: Vec<String> = Vec::new();
    let mut i: usize = 0;
    while i < n
        invariant
            n == queries@.len(),
            i <= n,
            r@.len() == i,
            forall|j: int| 0 <= j < i ==> #[trigger] r@[j]@ == rendered_line(
                queries@[j].alias@,
                queries@[j].sql@,
            ),
        decreases n - i,
    {
        let line = render_line(&queries[i]);
        r.push(line);
        i += 1;
    }
    r
}

/// The buffer handed to the picker: the given lines joined with single
/// newline separators, with no trailing newline.
pub open spec fn joined(lines: Seq<Seq<char>>) -> Seq<char>
    decreases lines.len(),
{
    if lines.len() == 0 {
        Seq::empty()
    } else if lines.len() == 1 {
        lines[0]
    } else {
        joined(lines.drop_last()) + seq!['\n'] + lines.last()
    }
}

/// Joins the rendered lines into the one buffer the picker reads.
pub fn join_lines(lines: &Vec<String>) -> (r: String)
    ensures
        r@ == joined(lines@.map_values(|s: String| s@)),
{
    let ghost m = lines@.map_values(|s: String| s@);
    let n: usize = lines.len();
    let mut r = String::new();
    let mut i: usize = 0;
    while i < n
        invariant
            n == lines@.len(),
            i <= n,
            m == lines@.map_values(|s: String| s@),
            r@ == joined(m.take(i as int)),
        decreases n - i,
    {
        if i > 0 {
            r.append("\n");
        }
        r.append(lines[i].as_str());
        proof {
            reveal_strlit("\n");
            assert("\n"@ =~= seq!['\n']);
            assert(m.take(i + 1).drop_last() =~= m.take(i as int));
            assert(m.take(i + 1).last() == m[i as int]);
            if i > 0 {
                assert(r@ == joined(m.take(i as int)) + seq!['\n'] + m[i as int]);
            } else {
                assert(joined(m.take(0)) =~= Seq::<char>::empty());
                assert(r@ =~= m[0]);
            }
        }
        i += 1;
    }
    proof {
        assert(m.take(n as int) =~= m);
    }
    r
}

/// Takes the part of the chosen line that stands before the first ':' — the
/// alias, when the alias itself holds no ':'. A line without a ':' is taken
/// whole.
pub fn alias_of_line(line: &str) -> (r: String)
    ensures
        r@ == alias_prefix(line@),
{
    let n: usize = line.unicode_len();
    let mut i: usize = 0;
    let mut found: bool = false;
    while !found && i < n
        invariant
            n == line@.len(),
            i <= n,
            forall|j: int| 0 <= j < i ==> line@[j] != ':',
            found ==> i < n && line@[i as int] == ':',
        decreases n - i, (if found { 0int } else { 1int }),
    {
        if line.get_char(i) == ':' {
            found = true;
        } else {
            i += 1;
        }
    }
    let prefix = line.substring_char(0, i);
    proof {
        line@.index_of_first_ensures(':');
        if found {
            let idx = line@.index_of_first(':').unwrap();
            assert(line@.contains(':'));
            assert(idx == i as int);
        } else {
            assert(i == n);
            assert(!line@.contains(':'));
            assert(prefix@ =~= line@);
        }
    }
    String::from_str(prefix)
}

/// Returns a copy of the first entry whose alias equals `alias`, if any.
pub fn lookup(queries: &Vec<Query>, alias: &String) -> (r: Option<Query>)
    ensures
        r == first_match(queries@, alias@),
{
    let n: usize = queries.len();
    let mut i: usize = 0;
    while i < n
        invariant
            n == queries@.len(),
            i <= n,
            forall|j: int| 0 <= j < i ==> #[trigger] queries@[j].alias@ != alias@,
        decreases n - i,
    {
        if queries[i].alias.eq(alias) {
            let q = queries[i].clone();
            proof {
                lemma_first_match_skip(queries@, alias@, i as int);
                assert(queries@.skip(i as int)[0] == queries@[i as int]);
            }
            return Some(q);
        }
        i += 1;
    }
    proof {
        lemma_first_match_skip(queries@, alias@, n as int);
        assert(queries@.skip(n as int).len() == 0);
    }
    None
}

/// Parses the picker's chosen line back into an entry: the text before the
/// first ':' is taken as the alias and looked up among the entries. When an
/// alias itself holds a ':', the recovered prefix is shorter than that alias,
/// so the lookup can miss; see [`lemma_delimiter_breaks_round_trip`].
pub fn parse_selection(queries: &Vec<Query>, line: &str) -> (r: Option<Query>)
    ensures
        r == first_match(queries@, alias_prefix(line@)),
{
    let alias = alias_of_line(line);
    lookup(queries, &alias)
}

/// Resolves what the picker handed back: nothing on an abort, otherwise the
/// entry whose alias the chosen line names, if any.
pub fn resolve_selection(queries: &Vec<Query>, picked: Option<&str>) -> (r: Option<Query>)
    ensures
        r == (match picked {
            Some(line) => first_match(queries@, alias_prefix(line@)),
            None => None::<Query>,
        }),
{
    match picked {
        Some(line) => parse_selection(queries, line),
        None => None,
    }
}

/// Splitting a rendered line at the first ':' recovers the alias exactly,
/// as long as the alias holds no ':' itself.
pub proof fn lemma_alias_prefix_of_rendered(alias: Seq<char>, sql: Seq<char>)
    requires
        !alias.contains(':'),
    ensures
        alias_prefix(rendered_line(alias, sql)) == alias,
{
    let line = rendered_line(alias, sql);
    assert(line[alias.len() as int] == ':');
    assert(line.contains(':'));
    line.index_of_first_ensures(':');
    let idx = line.index_of_first(':').unwrap();
    assert forall|j: int| 0 <= j < alias.len() implies line[j] != ':' by {
        assert(line[j] == alias[j]);
        assert(!alias.contains(':'));
    }
    assert(idx == alias.len());
    assert(line.subrange(0, alias.len() as int) =~= alias);
}

/// Line rendering is injective on the alias when aliases hold no delimiter:
/// rendering an entry and re-parsing the alias portion finds that entry
/// again, provided aliases are unique and delimiter-free.
pub proof fn lemma_render_parse_round_trip(queries: Seq<Query>, k: int)
    requires
        0 <= k < queries.len(),
        forall|i: int, j: int| 0 <= i < j < queries.len() ==> #[trigger] queries[i].alias@
            != #[trigger] queries[j].alias@,
        forall|i: int| 0 <= i < queries.len() ==> !(#[trigger] queries[i].alias@).contains(':'),
    ensures
        first_match(queries, alias_prefix(rendered_line(queries[k].alias@, queries[k].sql@)))
            == Some(queries[k]),
{
    lemma_alias_prefix_of_rendered(queries[k].alias@, queries[k].sql@);
    lemma_first_match_of_unique(queries, k);
}

/// An alias that holds the delimiter cannot round-trip: the recovered prefix
/// is a strict prefix of the alias, never the alias itself.
pub proof fn lemma_delimiter_breaks_round_trip(alias: Seq<char>, sql: Seq<char>)
    requires
        alias.contains(':'),
    ensures
        alias_prefix(rendered_line(alias, sql)) != alias,
{
    let line = rendered_line(alias, sql);
    let m = choose|m: int| 0 <= m < alias.len() && alias[m] == ':';
    assert(line[m] == ':');
    assert(line.contains(':'));
    line.index_of_first_ensures(':');
    let idx = line.index_of_first(':').unwrap();
    assert(idx <= m);
    assert(alias_prefix(line).len() == idx < alias.len());
}

/// The first match of an alias that no earlier entry shares is the entry
/// itself.
proof fn lemma_first_match_of_unique(queries: Seq<Query>, k: int)
    requires
        0 <= k < queries.len(),
        forall|j: int| 0 <= j < k ==> #[trigger] queries[j].alias@ != queries[k].alias@,
    ensures
        first_match(queries, queries[k].alias@) == Some(queries[k]),
    decreases k,
{
    if k > 0 {
        lemma_first_match_of_unique(queries.drop_first(), k - 1);
    }
}

/// A prefix without a matching alias does not change what the first match is.
proof fn lemma_first_match_skip(queries: Seq<Query>, alias: Seq<char>, i: int)
    requires
        0 <= i <= queries.len(),
        forall|j: int| 0 <= j < i ==> #[trigger] queries[j].alias@ != alias,
    ensures
        first_match(queries, alias) == first_match(queries.skip(i), alias),
    decreases i,
{
    if i == 0 {
        assert(queries.skip(0) =~= queries);
    } else {
        assert(queries[0].alias@ != alias);
        lemma_first_match_skip(queries.drop_first(), alias, i - 1);
        assert(queries.drop_first().skip(i - 1) =~= queries.skip(i));
    }
}

} // verus!
