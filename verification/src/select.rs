//! Picking an environment, a collection or a configuration out of the
//! service catalog.
//!
//! The catalog types here hold exactly what the selection logic reads:
//! ids, names, the read-only marker, and creation order (oldest first).
//! The surrounding binary fills them in from the service's JSON answers.

use vstd::prelude::*;

verus! {

/// What selection reads of one collection.
#[derive(Debug)]
pub struct CollectionRecord {
    /// The service-assigned collection id.
    pub collection_id: String,
    /// The user-facing name.
    pub name: String,
}

/// What selection reads of one configuration.
#[derive(Debug)]
pub struct ConfigurationRecord {
    /// The service-assigned configuration id.
    pub configuration_id: String,
    /// The user-facing name.
    pub name: String,
}

/// What selection reads of one environment: its id, the service's
/// read-only marker, and its configurations and collections in creation
/// order, oldest first.
#[derive(Debug)]
pub struct EnvironmentInfo {
    /// The service-assigned environment id.
    pub environment_id: String,
    /// The read-only marker; `None` when the environment record carries
    /// none. An unmarked environment counts as neither read-only nor
    /// writable.
    pub read_only: Option<bool>,
    /// Configurations, oldest first.
    pub configurations: Vec<ConfigurationRecord>,
    /// Collections, oldest first.
    pub collections: Vec<CollectionRecord>,
}

/// The whole catalog: every environment of the service instance.
#[derive(Debug)]
pub struct DiscoveryServiceInfo {
    /// Environments, in the order the service lists them.
    pub environments: Vec<EnvironmentInfo>,
}

/// Why a selection came up empty.
#[derive(Clone, Copy, Debug, PartialEq, Eq, Structural)]
pub enum SelectError {
    /// Nothing matched.
    NotFound,
    /// More than one resource matched where exactly one was required.
    Ambiguous,
}

/// Which resource a command line picks.
#[derive(Debug)]
pub enum Selector {
    /// By user-facing name.
    Named(String),
    /// By service-assigned id.
    ById(String),
    /// The oldest resource.
    Oldest,
    /// The newest (youngest) resource; the default.
    Newest,
}

/// An environment the service marks read-only.
pub open spec fn is_read_only(e: EnvironmentInfo) -> bool {
    e.read_only == Some(true)
}

/// An environment open for writing: marked, and marked writable.
pub open spec fn is_writable(e: EnvironmentInfo) -> bool {
    e.read_only == Some(false)
}

/// How many environments are marked read-only.
pub open spec fn count_read_only(s: Seq<EnvironmentInfo>) -> nat
    decreases s.len(),
{
    if s.len() == 0 {
        0
    } else {
        count_read_only(s.drop_last()) + if is_read_only(s.last()) { 1nat } else { 0nat }
    }
}

/// How many environments are writable.
pub open spec fn count_writable(s: Seq<EnvironmentInfo>) -> nat
    decreases s.len(),
{
    if s.len() == 0 {
        0
    } else {
        count_writable(s.drop_last()) + if is_writable(s.last()) { 1nat } else { 0nat }
    }
}

/// How many collections carry this name.
pub open spec fn count_collections_named(s: Seq<CollectionRecord>, name: Seq<char>) -> nat
    decreases s.len(),
{
    if s.len() == 0 {
        0
    } else {
        count_collections_named(s.drop_last(), name)
            + if s.last().name@ == name { 1nat } else { 0nat }
    }
}

/// How many collections carry this id.
pub open spec fn count_collections_with_id(s: Seq<CollectionRecord>, id: Seq<char>) -> nat
    decreases s.len(),
{
    if s.len() == 0 {
        0
    } else {
        count_collections_with_id(s.drop_last(), id)
            + if s.last().collection_id@ == id { 1nat } else { 0nat }
    }
}

/// The index of the newest configuration carrying this name, or -1.
pub open spec fn last_config_named(s: Seq<ConfigurationRecord>, name: Seq<char>) -> int
    decreases s.len(),
{
    if s.len() == 0 {
        -1
    } else if s.last().name@ == name {
        s.len() - 1
    } else {
        last_config_named(s.drop_last(), name)
    }
}

/// The index of the newest configuration carrying this id, or -1.
pub open spec fn last_config_with_id(s: Seq<ConfigurationRecord>, id: Seq<char>) -> int
    decreases s.len(),
{
    if s.len() == 0 {
        -1
    } else if s.last().configuration_id@ == id {
        s.len() - 1
    } else {
        last_config_with_id(s.drop_last(), id)
    }
}

/// The one environment the service marks read-only — and an error when
/// there is none, or more than one.
#[verifier::loop_isolation(false)]
pub fn read_only_environment<'a>(info: &'a DiscoveryServiceInfo)
    -> (r: Result<&'a EnvironmentInfo, SelectError>)
    ensures
        match r {
            Ok(e) => count_read_only(info.environments@) == 1 && is_read_only(*e)
                && (exists|i: int| 0 <= i < info.environments@.len()
                    && info.environments@[i] == *e),
            Err(SelectError::NotFound) => count_read_only(info.environments@) == 0,
            Err(SelectError::Ambiguous) => count_read_only(info.environments@) >= 2,
        },
{
    let n = info.environments.len();
    let mut found: usize = 0;
    let mut hits: usize = 0;
    let mut i: usize = 0;
    proof {
        assert(info.environments@.take(0) =~= Seq::<EnvironmentInfo>::empty());
    }
    while i < n
        invariant
            i <= n,
            hits <= i,
            hits == count_read_only(info.environments@.take(i as int)),
            hits > 0 ==> found < i && is_read_only(info.environments@[found as int]),
        decreases n - i,
    {
        let ghost prefix = info.environments@.take(i as int);
        let marked = match info.environments[i].read_only {
            Some(true) => true,
            _ => false,
        };
        if marked {
            if hits == 0 {
                found = i;
            }
            hits = hits + 1;
        }
        i = i + 1;
        proof {
            assert(info.environments@.take(i as int).drop_last() =~= prefix);
            assert(info.environments@.take(i as int).last() == info.environments@[i - 1]);
        }
    }
    proof {
        assert(info.environments@.take(n as int) =~= info.environments@);
    }
    if hits == 1 {
        Ok(&info.environments[found])
    } else if hits == 0 {
        Err(SelectError::NotFound)
    } else {
        Err(SelectError::Ambiguous)
    }
}

/// The one writable environment — and an error when there is none, or
/// more than one.
#[verifier::loop_isolation(false)]
pub fn writable_environment<'a>(info: &'a DiscoveryServiceInfo)
    -> (r: Result<&'a EnvironmentInfo, SelectError>)
    ensures
        match r {
            Ok(e) => count_writable(info.environments@) == 1 && is_writable(*e)
                && (exists|i: int| 0 <= i < info.environments@.len()
                    && info.environments@[i] == *e),
            Err(SelectError::NotFound) => count_writable(info.environments@) == 0,
            Err(SelectError::Ambiguous) => count_writable(info.environments@) >= 2,
        },
{
    let n = info.environments.len();
    let mut found: usize = 0;
    let mut hits: usize = 0;
    let mut i: usize = 0;
    proof {
        assert(info.environments@.take(0) =~= Seq::<EnvironmentInfo>::empty());
    }
    while i < n
        invariant
            i <= n,
            hits <= i,
            hits == count_writable(info.environments@.take(i as int)),
            hits > 0 ==> found < i && is_writable(info.environments@[found as int]),
        decreases n - i,
    {
        let ghost prefix = info.environments@.take(i as int);
        let marked = match info.environments[i].read_only {
            Some(false) => true,
            _ => false,
        };
        if marked {
            if hits == 0 {
                found = i;
            }
            hits = hits + 1;
        }
        i = i + 1;
        proof {
            assert(info.environments@.take(i as int).drop_last() =~= prefix);
            assert(info.environments@.take(i as int).last() == info.environments@[i - 1]);
        }
    }
    proof {
        assert(info.environments@.take(n as int) =~= info.environments@);
    }
    if hits == 1 {
        Ok(&info.environments[found])
    } else if hits == 0 {
        Err(SelectError::NotFound)
    } else {
        Err(SelectError::Ambiguous)
    }
}

/// The oldest collection of an environment; nothing when it has none.
pub fn oldest_collection<'a>(env: &'a EnvironmentInfo) -> (r: Option<&'a CollectionRecord>)
    ensures
        match r {
            Some(c) => env.collections@.len() > 0 && *c == env.collections@[0],
            None => env.collections@.len() == 0,
        },
{
    if env.collections.len() == 0 {
        None
    } else {
        Some(&env.collections[0])
    }
}

/// The newest collection of an environment; nothing when it has none.
pub fn newest_collection<'a>(env: &'a EnvironmentInfo) -> (r: Option<&'a CollectionRecord>)
    ensures
        match r {
            Some(c) => env.collections@.len() > 0
                && *c == env.collections@[env.collections@.len() - 1],
            None => env.collections@.len() == 0,
        },
{
    let n = env.collections.len();
    if n == 0 {
        None
    } else {
        Some(&env.collections[n - 1])
    }
}

/// The one collection carrying this name — and an error when none does,
/// or several do.
#[verifier::loop_isolation(false)]
pub fn collection_with_name<'a>(env: &'a EnvironmentInfo, name: &String)
    -> (r: Result<&'a CollectionRecord, SelectError>)
    ensures
        match r {
            Ok(c) => count_collections_named(env.collections@, name@) == 1
                && c.name@ == name@
                && (exists|i: int| 0 <= i < env.collections@.len()
                    && env.collections@[i] == *c),
            Err(SelectError::NotFound) =>
                count_collections_named(env.collections@, name@) == 0,
            Err(SelectError::Ambiguous) =>
                count_collections_named(env.collections@, name@) >= 2,
        },
{
    let n = env.collections.len();
    let mut found: usize = 0;
    let mut hits: usize = 0;
    let mut i: usize = 0;
    proof {
        assert(env.collections@.take(0) =~= Seq::<CollectionRecord>::empty());
    }
    while i < n
        invariant
            i <= n,
            hits <= i,
            hits == count_collections_named(env.collections@.take(i as int), name@),
            hits > 0 ==> found < i && env.collections@[found as int].name@ == name@,
        decreases n - i,
    {
        let ghost prefix = env.collections@.take(i as int);
        if env.collections[i].name == *name {
            if hits == 0 {
                found = i;
            }
            hits = hits + 1;
        }
        i = i + 1;
        proof {
            assert(env.collections@.take(i as int).drop_last() =~= prefix);
            assert(env.collections@.take(i as int).last() == env.collections@[i - 1]);
        }
    }
    proof {
        assert(env.collections@.take(n as int) =~= env.collections@);
    }
    if hits == 1 {
        Ok(&env.collections[found])
    } else if hits == 0 {
        Err(SelectError::NotFound)
    } else {
        Err(SelectError::Ambiguous)
    }
}

/// The one collection carrying this id — and an error when none does,
/// or several do.
#[verifier::loop_isolation(false)]
pub fn collection_with_id<'a>(env: &'a EnvironmentInfo, id: &String)
    -> (r: Result<&'a CollectionRecord, SelectError>)
    ensures
        match r {
            Ok(c) => count_collections_with_id(env.collections@, id@) == 1
                && c.collection_id@ == id@
                && (exists|i: int| 0 <= i < env.collections@.len()
                    && env.collections@[i] == *c),
            Err(SelectError::NotFound) =>
                count_collections_with_id(env.collections@, id@) == 0,
            Err(SelectError::Ambiguous) =>
                count_collections_with_id(env.collections@, id@) >= 2,
        },
{
    let n = env.collections.len();
    let mut found: usize = 0;
    let mut hits: usize = 0;
    let mut i: usize = 0;
    proof {
        assert(env.collections@.take(0) =~= Seq::<CollectionRecord>::empty());
    }
    while i < n
        invariant
            i <= n,
            hits <= i,
            hits == count_collections_with_id(env.collections@.take(i as int), id@),
            hits > 0 ==> found < i && env.collections@[found as int].collection_id@ == id@,
        decreases n - i,
    {
        let ghost prefix = env.collections@.take(i as int);
        if env.collections[i].collection_id == *id {
            if hits == 0 {
                found = i;
            }
            hits = hits + 1;
        }
        i = i + 1;
        proof {
            assert(env.collections@.take(i as int).drop_last() =~= prefix);
            assert(env.collections@.take(i as int).last() == env.collections@[i - 1]);
        }
    }
    proof {
        assert(env.collections@.take(n as int) =~= env.collections@);
    }
    if hits == 1 {
        Ok(&env.collections[found])
    } else if hits == 0 {
        Err(SelectError::NotFound)
    } else {
        Err(SelectError::Ambiguous)
    }
}

/// The collection a command line picks: by name, by id, oldest, or the
/// newest as the default.
pub fn select_collection<'a>(env: &'a EnvironmentInfo, selector: &Selector)
    -> (r: Result<&'a CollectionRecord, SelectError>)
    ensures
        match *selector {
            Selector::Named(n) => (match r {
                Ok(c) => count_collections_named(env.collections@, n@) == 1
                    && c.name@ == n@
                    && (exists|i: int| 0 <= i < env.collections@.len()
                        && env.collections@[i] == *c),
                Err(SelectError::NotFound) =>
                    count_collections_named(env.collections@, n@) == 0,
                Err(SelectError::Ambiguous) =>
                    count_collections_named(env.collections@, n@) >= 2,
            }),
            Selector::ById(v) => (match r {
                Ok(c) => count_collections_with_id(env.collections@, v@) == 1
                    && c.collection_id@ == v@
                    && (exists|i: int| 0 <= i < env.collections@.len()
                        && env.collections@[i] == *c),
                Err(SelectError::NotFound) =>
                    count_collections_with_id(env.collections@, v@) == 0,
                Err(SelectError::Ambiguous) =>
                    count_collections_with_id(env.collections@, v@) >= 2,
            }),
            Selector::Oldest => (match r {
                Ok(c) => env.collections@.len() > 0 && *c == env.collections@[0],
                Err(SelectError::NotFound) => env.collections@.len() == 0,
                Err(SelectError::Ambiguous) => false,
            }),
            Selector::Newest => (match r {
                Ok(c) => env.collections@.len() > 0
                    && *c == env.collections@[env.collections@.len() - 1],
                Err(SelectError::NotFound) => env.collections@.len() == 0,
                Err(SelectError::Ambiguous) => false,
            }),
        },
{
    match selector {
        Selector::Named(n) => collection_with_name(env, n),
        Selector::ById(v) => collection_with_id(env, v),
        Selector::Oldest => match oldest_collection(env) {
            Some(c) => Ok(c),
            None => Err(SelectError::NotFound),
        },
        Selector::Newest => match newest_collection(env) {
            Some(c) => Ok(c),
            None => Err(SelectError::NotFound),
        },
    }
}

/// The newest configuration carrying this name — and an error when none
/// does. Several sharing the name is not an error: the newest wins.
#[verifier::loop_isolation(false)]
pub fn configuration_with_name<'a>(env: &'a EnvironmentInfo, name: &String)
    -> (r: Result<&'a ConfigurationRecord, SelectError>)
    ensures
        match r {
            Ok(cf) => last_config_named(env.configurations@, name@) >= 0
                && *cf == env.configurations@[last_config_named(env.configurations@, name@)],
            Err(SelectError::NotFound) =>
                last_config_named(env.configurations@, name@) == -1,
            Err(SelectError::Ambiguous) => false,
        },
{
    let n = env.configurations.len();
    let mut found: usize = 0;
    let mut seen: bool = false;
    let mut i: usize = 0;
    proof {
        assert(env.configurations@.take(0) =~= Seq::<ConfigurationRecord>::empty());
    }
    while i < n
        invariant
            i <= n,
            seen ==> found < i,
            seen ==> found == last_config_named(env.configurations@.take(i as int), name@),
            !seen ==> last_config_named(env.configurations@.take(i as int), name@) == -1,
        decreases n - i,
    {
        let ghost prefix = env.configurations@.take(i as int);
        if env.configurations[i].name == *name {
            found = i;
            seen = true;
        }
        i = i + 1;
        proof {
            assert(env.configurations@.take(i as int).drop_last() =~= prefix);
            assert(env.configurations@.take(i as int).last() == env.configurations@[i - 1]);
        }
    }
    proof {
        assert(env.configurations@.take(n as int) =~= env.configurations@);
    }
    if seen {
        Ok(&env.configurations[found])
    } else {
        Err(SelectError::NotFound)
    }
}

/// The newest configuration carrying this id — and an error when none
/// does.
#[verifier::loop_isolation(false)]
pub fn configuration_with_id<'a>(env: &'a EnvironmentInfo, id: &String)
    -> (r: Result<&'a ConfigurationRecord, SelectError>)
    ensures
        match r {
            Ok(cf) => last_config_with_id(env.configurations@, id@) >= 0
                && *cf == env.configurations@[last_config_with_id(env.configurations@, id@)],
            Err(SelectError::NotFound) =>
                last_config_with_id(env.configurations@, id@) == -1,
            Err(SelectError::Ambiguous) => false,
        },
{
    let n = env.configurations.len();
    let mut found: usize = 0;
    let mut seen: bool = false;
    let mut i: usize = 0;
    proof {
        assert(env.configurations@.take(0) =~= Seq::<ConfigurationRecord>::empty());
    }
    while i < n
        invariant
            i <= n,
            seen ==> found < i,
            seen ==> found == last_config_with_id(env.configurations@.take(i as int), id@),
            !seen ==> last_config_with_id(env.configurations@.take(i as int), id@) == -1,
        decreases n - i,
    {
        let ghost prefix = env.configurations@.take(i as int);
        if env.configurations[i].configuration_id == *id {
            found = i;
            seen = true;
        }
        i = i + 1;
        proof {
            assert(env.configurations@.take(i as int).drop_last() =~= prefix);
            assert(env.configurations@.take(i as int).last() == env.configurations@[i - 1]);
        }
    }
    proof {
        assert(env.configurations@.take(n as int) =~= env.configurations@);
    }
    if seen {
        Ok(&env.configurations[found])
    } else {
        Err(SelectError::NotFound)
    }
}

/// The oldest configuration of an environment; nothing when it has none.
pub fn oldest_configuration<'a>(env: &'a EnvironmentInfo) -> (r: Option<&'a ConfigurationRecord>)
    ensures
        match r {
            Some(cf) => env.configurations@.len() > 0 && *cf == env.configurations@[0],
            None => env.configurations@.len() == 0,
        },
{
    if env.configurations.len() == 0 {
        None
    } else {
        Some(&env.configurations[0])
    }
}

/// The newest configuration of an environment; nothing when it has none.
pub fn newest_configuration<'a>(env: &'a EnvironmentInfo) -> (r: Option<&'a ConfigurationRecord>)
    ensures
        match r {
            Some(cf) => env.configurations@.len() > 0
                && *cf == env.configurations@[env.configurations@.len() - 1],
            None => env.configurations@.len() == 0,
        },
{
    let n = env.configurations.len();
    if n == 0 {
        None
    } else {
        Some(&env.configurations[n - 1])
    }
}

/// The configuration a command line picks: by name, by id, oldest, or
/// the newest as the default.
pub fn select_configuration<'a>(env: &'a EnvironmentInfo, selector: &Selector)
    -> (r: Result<&'a ConfigurationRecord, SelectError>)
    ensures
        match *selector {
            Selector::Named(n) => (match r {
                Ok(cf) => last_config_named(env.configurations@, n@) >= 0
                    && *cf == env.configurations@[last_config_named(env.configurations@, n@)],
                Err(SelectError::NotFound) =>
                    last_config_named(env.configurations@, n@) == -1,
                Err(SelectError::Ambiguous) => false,
            }),
            Selector::ById(v) => (match r {
                Ok(cf) => last_config_with_id(env.configurations@, v@) >= 0
                    && *cf == env.configurations@[last_config_with_id(env.configurations@, v@)],
                Err(SelectError::NotFound) =>
                    last_config_with_id(env.configurations@, v@) == -1,
                Err(SelectError::Ambiguous) => false,
            }),
            Selector::Oldest => (match r {
                Ok(cf) => env.configurations@.len() > 0 && *cf == env.configurations@[0],
                Err(SelectError::NotFound) => env.configurations@.len() == 0,
                Err(SelectError::Ambiguous) => false,
            }),
            Selector::Newest => (match r {
                Ok(cf) => env.configurations@.len() > 0
                    && *cf == env.configurations@[env.configurations@.len() - 1],
                Err(SelectError::NotFound) => env.configurations@.len() == 0,
                Err(SelectError::Ambiguous) => false,
            }),
        },
{
    match selector {
        Selector::Named(n) => configuration_with_name(env, n),
        Selector::ById(v) => configuration_with_id(env, v),
        Selector::Oldest => match oldest_configuration(env) {
            Some(cf) => Ok(cf),
            None => Err(SelectError::NotFound),
        },
        Selector::Newest => match newest_configuration(env) {
            Some(cf) => Ok(cf),
            None => Err(SelectError::NotFound),
        },
    }
}

/// The selector a command line implies, in priority order: an explicit
/// name wins, then an explicit id, then the oldest flag; the default is
/// the newest resource.
pub fn selector_from_flags(named: Option<String>, id: Option<String>, oldest: bool) -> (s: Selector)
    ensures
        match named {
            Some(n) => s == Selector::Named(n),
            None => (match id {
                Some(v) => s == Selector::ById(v),
                None => s == (if oldest { Selector::Oldest } else { Selector::Newest }),
            }),
        },
{
    match named {
        Some(n) => Selector::Named(n),
        None => match id {
            Some(v) => Selector::ById(v),
            None => if oldest { Selector::Oldest } else { Selector::Newest },
        },
    }
}

} // verus!
