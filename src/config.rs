//! Per-deployment settings: the webhook secret and the recipient tables.
use vstd::prelude::*;

verus! {

pub struct GithubConfig {
    /// Shared secret that signs every delivery.
    pub secret: String,
    /// Team whose review requests this deployment watches, if one is set.
    pub team: Option<String>,
}

pub struct DiscordConfig {
    /// Discord webhook that receives the messages.
    pub webhook_url: String,
    /// GitHub login to Discord user id.
    pub user_ids: Vec<(String, String)>,
    /// GitHub team slug to Discord role id.
    pub role_ids: Vec<(String, String)>,
}

pub struct AppConfig {
    pub github: GithubConfig,
    pub discord: DiscordConfig,
}

/// The value of the first entry of `table` whose key is `key`.
pub open spec fn table_get(table: Seq<(String, String)>, key: Seq<char>) -> Option<Seq<char>>
    decreases table.len(),
{
    if table.len() == 0 {
        None
    } else if table[0].0@ == key {
        Some(table[0].1@)
    } else {
        table_get(table.drop_first(), key)
    }
}

/// Looks `key` up in a recipient table.
pub fn lookup_id(table: &Vec<(String, String)>, key: &String) -> (r: Option<String>)
    ensures
        match r {
            Some(id) => table_get(table@, key@) == Some(id@),
            None => table_get(table@, key@) is None,
        },
{
    let mut i: usize = 0;
    proof {
        assert(table@.skip(0) =~= table@);
    }
    while i < table.len()
        invariant
            i <= table@.len(),
            table_get(table@, key@) == table_get(table@.skip(i as int), key@),
        decreases table@.len() - i,
    {
        proof {
            assert(table@.skip(i as int).drop_first() =~= table@.skip(i + 1));
            assert(table@.skip(i as int)[0] == table@[i as int]);
        }
        if table[i].0 == *key {
            return Some(table[i].1.clone());
        }
        i = i + 1;
    }
    proof {
        assert(table@.skip(i as int).len() == 0);
    }
    None
}

/// No two entries of `table` share a key: the table is a map.
pub open spec fn keys_distinct(table: Seq<(String, String)>) -> bool {
    forall|i: int, j: int| 0 <= i < j < table.len() ==> table[i].0@ != table[j].0@
}

impl DiscordConfig {
    /// Both recipient tables are maps.
    pub open spec fn wf(&self) -> bool {
        keys_distinct(self.user_ids@) && keys_distinct(self.role_ids@)
    }

    /// Builds the Discord settings; `None` when a recipient table names a
    /// key twice.
    pub fn new(
        webhook_url: String,
        user_ids: Vec<(String, String)>,
        role_ids: Vec<(String, String)>,
    ) -> (r: Option<DiscordConfig>)
        ensures
            r is Some <==> keys_distinct(user_ids@) && keys_distinct(role_ids@),
            r matches Some(c) ==> c.wf() && c.webhook_url == webhook_url && c.user_ids@
                == user_ids@ && c.role_ids@ == role_ids@,
    {
        if has_distinct_keys(&user_ids) && has_distinct_keys(&role_ids) {
            Some(DiscordConfig { webhook_url, user_ids, role_ids })
        } else {
            None
        }
    }
}

/// Tells whether the keys of `table` are distinct.
pub fn has_distinct_keys(table: &Vec<(String, String)>) -> (r: bool)
    ensures
        r == keys_distinct(table@),
{
    let n = table.len();
    let mut j: usize = 0;
    while j < n
        invariant
            n == table@.len(),
            j <= n,
            forall|a: int, b: int| 0 <= a < b < j ==> table@[a].0@ != table@[b].0@,
        decreases n - j,
    {
        let mut i: usize = 0;
        while i < j
            invariant
                n == table@.len(),
                i <= j < n,
                forall|a: int, b: int| 0 <= a < b < j ==> table@[a].0@ != table@[b].0@,
                forall|a: int| 0 <= a < i ==> table@[a].0@ != table@[j as int].0@,
            decreases j - i,
        {
            if table[i].0 == table[j].0 {
                return false;
            }
            i = i + 1;
        }
        j = j + 1;
    }
    true
}

/// In a table whose keys are distinct, looking up the key of any entry
/// gives that entry's value.
pub proof fn lemma_distinct_lookup(table: Seq<(String, String)>, i: int)
    requires
        keys_distinct(table),
        0 <= i < table.len(),
    ensures
        table_get(table, table[i].0@) == Some(table[i].1@),
    decreases i,
{
    if i > 0 {
        let rest = table.drop_first();
        assert(keys_distinct(rest)) by {
            assert forall|a: int, b: int| 0 <= a < b < rest.len() implies rest[a].0@ != rest[b].0@ by {
                assert(rest[a] == table[a + 1] && rest[b] == table[b + 1]);
            }
        }
        lemma_distinct_lookup(rest, i - 1);
        assert(rest[i - 1] == table[i]);
    }
}

} // verus!
