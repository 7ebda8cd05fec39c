use vstd::prelude::*;

verus! {

/// A named query: the alias that identifies it in the picker, and the SQL
/// text it stands for.
pub struct Query {
    pub alias: String,
    pub sql: String,
}

impl Clone for Query {
    fn clone(&self) -> (r: Self)
        ensures
            r == *self,
    {
        Query { alias: self.alias.clone(), sql: self.sql.clone() }
    }
}

/// The whole configuration: the database user and database name used by
/// execute mode, and the query entries in the order the loader handed them
/// over.
pub struct Config {
    pub username: String,
    pub dbname: String,
    pub queries: Vec<Query>,
}

impl Config {
    /// Builds a configuration from plain (alias, sql) pairs, keeping every
    /// entry exactly as given: same count, same order, no trimming and no
    /// escaping. Duplicate aliases are kept as they are.
    pub fn from_pairs(username: String, dbname: String, pairs: &Vec<(String, String)>) -> (r: Config)
        ensures
            r.username == username,
            r.dbname == dbname,
            r.queries@.len() == pairs@.len(),
            forall|i: int| 0 <= i < pairs@.len() ==> (#[trigger] r.queries@[i]).alias == pairs@[i].0
                && r.queries@[i].sql == pairs@[i].1,
    {
        let n: usize = pairs.len();
        let mut queries: Vec<Query> = Vec::new();
        let mut i: usize = 0;
        while i < n
            invariant
                n == pairs@.len(),
                i <= n,
                queries@.len() == i,
                forall|j: int| 0 <= j < i ==> (#[trigger] queries@[j]).alias == pairs@[j].0
                    && queries@[j].sql == pairs@[j].1,
            decreases n - i,
        {
            let alias = pairs[i].0.clone();
            let sql = pairs[i].1.clone();
            queries.push(Query { alias, sql });
            i += 1;
        }
        Config { username, dbname, queries }
    }
}

} // verus!
