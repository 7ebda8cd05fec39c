use vstd::prelude::*;
use crate::config::Query;

verus! {

/// The argument list execute mode hands to the database client: the user
/// flag and username, the database name, the script-mode flag, and the
/// inline-command flag carrying the raw SQL as one argument.
pub open spec fn command_args_spec(username: Seq<char>, dbname: Seq<char>, sql: Seq<char>) -> Seq<
    Seq<char>,
> {
    seq![seq!['-', 'u'], username, dbname, seq!['-', 'S'], seq!['-', 'c'], sql]
}

/// The name of the external database client executable.
pub fn command_program() -> (r: String)
    ensures
        r@ == "csql"@,
{
    String::from_str("csql")
}

/// Builds the client's argument list. The list is a function of the three
/// inputs alone, and the SQL text goes in untouched as the last argument.
pub fn command_args(username: &str, dbname: &str, sql: &str) -> (r: Vec<String>)
    ensures
        r@.len() == 6,
        forall|i: int| 0 <= i < 6 ==> #[trigger] r@[i]@ == command_args_spec(
            username@,
            dbname@,
            sql@,
        )[i],
{
    let mut r: Vec<String> = Vec::new();
    r.push(String::from_str("-u"));
    r.push(String::from_str(username));
    r.push(String::from_str(dbname));
    r.push(String::from_str("-S"));
    r.push(String::from_str("-c"));
    r.push(String::from_str(sql));
    proof {
        reveal_strlit("-u");
        reveal_strlit("-S");
        reveal_strlit("-c");
        assert("-u"@ =~= seq!['-', 'u']);
        assert("-S"@ =~= seq!['-', 'S']);
        assert("-c"@ =~= seq!['-', 'c']);
    }
    r
}

/// Execute mode is deterministic: the argument list depends on
/// (username, dbname, sql) alone, so equal inputs give identical lists,
/// byte for byte.
pub proof fn lemma_command_args_deterministic(
    u1: Seq<char>,
    d1: Seq<char>,
    s1: Seq<char>,
    u2: Seq<char>,
    d2: Seq<char>,
    s2: Seq<char>,
)
    requires
        u1 == u2,
        d1 == d2,
        s1 == s2,
    ensures
        command_args_spec(u1, d1, s1) == command_args_spec(u2, d2, s2),
{
}

/// The line announcing an execute-mode launch, as printed before spawning.
pub fn execute_announcement(username: &str, dbname: &str, sql: &str) -> (r: String)
    ensures
        r@ == "Executing: csql -u "@ + username@ + " "@ + dbname@ + " -S -c \""@ + sql@ + "\""@,
{
    let mut r = String::from_str("Executing: csql -u ");
    r.append(username);
    r.append(" ");
    r.append(dbname);
    r.append(" -S -c \"");
    r.append(sql);
    r.append("\"");
    r
}

/// The line announcing which query was selected.
pub fn selection_announcement(alias: &str) -> (r: String)
    ensures
        r@ == "Executing Query: "@ + alias@,
{
    let mut r = String::from_str("Executing Query: ");
    r.append(alias);
    r
}

/// The message printed when the picker was aborted or nothing matched.
pub fn no_selection_message() -> (r: String)
    ensures
        r@ == "No query selected."@,
{
    String::from_str("No query selected.")
}

/// The two lines print mode emits for one entry.
pub open spec fn entry_lines_spec(q: Query) -> Seq<Seq<char>> {
    seq!["Alias: "@ + q.alias@, "SQL: "@ + q.sql@]
}

/// Prints one entry in print mode: its alias line and its SQL line.
pub fn entry_lines(q: &Query) -> (r: Vec<String>)
    ensures
        r@.len() == 2,
        r@[0]@ == entry_lines_spec(*q)[0],
        r@[1]@ == entry_lines_spec(*q)[1],
{
    let mut alias_line = String::from_str("Alias: ");
    alias_line.append(q.alias.as_str());
    let mut sql_line = String::from_str("SQL: ");
    sql_line.append(q.sql.as_str());
    let mut r: Vec<String> = Vec::new();
    r.push(alias_line);
    r.push(sql_line);
    r
}

/// What list-all mode prints: every entry's two lines, entries separated by
/// one blank line.
pub open spec fn listing(queries: Seq<Query>) -> Seq<Seq<char>>
    decreases queries.len(),
{
    if queries.len() == 0 {
        Seq::empty()
    } else if queries.len() == 1 {
        entry_lines_spec(queries[0])
    } else {
        listing(queries.drop_last()) + seq![Seq::<char>::empty()] + entry_lines_spec(
            queries.last(),
        )
    }
}

/// List-all mode: renders every entry unconditionally, bypassing selection.
pub fn list_all_lines(queries: &Vec<Query>) -> (r: Vec<String>)
    ensures
        r@.map_values(|s: String| s@) == listing(queries@),
{
    let n: usize = queries.len();
    let mut r: Vec<String> = Vec::new();
    let mut i: usize = 0;
    while i < n
        invariant
            n == queries@.len(),
            i <= n,
            r@.len() == (if i == 0 { 0int } else { 3 * i - 1 }),
            r@.map_values(|s: String| s@) == listing(queries@.take(i as int)),
        decreases n - i,
    {
        if i > 0 {
            r.push(String::new());
        }
        let lines = entry_lines(&queries[i]);
        r.push(lines[0].clone());
        r.push(lines[1].clone());
        proof {
            assert(queries@.take(i + 1).drop_last() =~= queries@.take(i as int));
            assert(queries@.take(i + 1).last() == queries@[i as int]);
            if i > 0 {
                assert(r@.map_values(|s: String| s@) =~~= listing(queries@.take(i as int))
                    + seq![Seq::<char>::empty()] + entry_lines_spec(queries@[i as int]));
            } else {
                assert(r@.map_values(|s: String| s@) =~~= entry_lines_spec(queries@[0]));
            }
        }
        i += 1;
    }
    proof {
        assert(queries@.take(n as int) =~= queries@);
    }
    r
}

} // verus!
