//! Configuration inputs: what several snippets say together, before any
//! validation.

use crate::config::snippets::{
    entries_of_tables, entry_text, last_set, lemma_last_set_push, merged, CincinnatiSnippet,
    ConfigSnippet, IdentitySnippet, MergedEntries, SnippetEntries, UpdateSnippet,
};
use vstd::prelude::*;

verus! {

/// Runtime configuration holding environmental inputs.
#[derive(Debug, PartialEq, Eq)]
pub struct ConfigInput {
    pub cincinnati: CincinnatiInput,
    pub updates: UpdateConfig,
    pub identity: IdentityInput,
}

/// Inputs of the update-graph client.
#[derive(Debug, PartialEq, Eq)]
pub struct CincinnatiInput {
    pub base_url: String,
}

/// Inputs of the agent's identity.
#[derive(Debug, PartialEq, Eq)]
pub struct IdentityInput {
    pub group: String,
    pub node_uuid: String,
    pub throttle_permille: String,
}

/// Inputs of the update logic.
#[derive(Debug, PartialEq, Eq)]
pub struct UpdateConfig {
    pub strategy: String,
    /// `remote_http` strategy config.
    pub remote_http: StratHttpInput,
    /// `periodic` strategy config.
    pub periodic: StratPeriodicConfig,
}

/// Inputs of the `remote_http` strategy.
#[derive(Debug, PartialEq, Eq)]
pub struct StratHttpInput {
    /// Base URL for the remote semaphore manager.
    pub base_url: String,
}

/// Inputs of the `periodic` strategy.
#[derive(Clone, Copy, Debug, PartialEq, Eq)]
pub struct StratPeriodicConfig {}

impl CincinnatiInput {
    /// Merges the snippets of the update-graph client: for each entry the
    /// last snippet that sets it wins.
    pub fn from_snippets(snippets: Vec<CincinnatiSnippet>) -> (cfg: Self)
        ensures
            cfg.base_url@ == last_set(CincinnatiSnippet::base_urls(snippets@)),
    {
        let mut cfg = CincinnatiInput { base_url: String::new() };
        let mut i: usize = 0;
        assert(CincinnatiSnippet::base_urls(snippets@.take(0)) =~= Seq::empty());
        while i < snippets.len()
            invariant
                i <= snippets.len(),
                cfg.base_url@ == last_set(CincinnatiSnippet::base_urls(snippets@.take(i as int))),
            decreases snippets.len() - i,
        {
            proof {
                let seen = CincinnatiSnippet::base_urls(snippets@.take(i as int));
                let entry = entry_text(snippets@[i as int].base_url);
                assert(CincinnatiSnippet::base_urls(snippets@.take(i + 1)) =~= seen.push(entry));
                lemma_last_set_push(seen, entry);
            }
            match &snippets[i].base_url {
                Some(u) => {
                    cfg.base_url = u.clone();
                },
                None => {},
            }
            i += 1;
        }
        assert(snippets@.take(i as int) =~= snippets@);
        cfg
    }
}

impl IdentityInput {
    /// Merges the snippets of the agent's identity: for each entry the
    /// last snippet that sets it wins.
    pub fn from_snippets(snippets: Vec<IdentitySnippet>) -> (cfg: Self)
        ensures
            cfg.group@ == last_set(IdentitySnippet::groups(snippets@)),
            cfg.node_uuid@ == last_set(IdentitySnippet::node_uuids(snippets@)),
            cfg.throttle_permille@ == last_set(IdentitySnippet::throttles(snippets@)),
    {
        let mut cfg = IdentityInput {
            group: String::new(),
            node_uuid: String::new(),
            throttle_permille: String::new(),
        };
        let mut i: usize = 0;
        assert(IdentitySnippet::groups(snippets@.take(0)) =~= Seq::empty());
        assert(IdentitySnippet::node_uuids(snippets@.take(0)) =~= Seq::empty());
        assert(IdentitySnippet::throttles(snippets@.take(0)) =~= Seq::empty());
        while i < snippets.len()
            invariant
                i <= snippets.len(),
                cfg.group@ == last_set(IdentitySnippet::groups(snippets@.take(i as int))),
                cfg.node_uuid@ == last_set(IdentitySnippet::node_uuids(snippets@.take(i as int))),
                cfg.throttle_permille@ == last_set(
                    IdentitySnippet::throttles(snippets@.take(i as int)),
                ),
            decreases snippets.len() - i,
        {
            proof {
                let before = snippets@.take(i as int);
                let after = snippets@.take(i + 1);
                let snip = snippets@[i as int];
                assert(IdentitySnippet::groups(after) =~= IdentitySnippet::groups(before).push(
                    entry_text(snip.group),
                ));
                assert(IdentitySnippet::node_uuids(after) =~= IdentitySnippet::node_uuids(
                    before,
                ).push(entry_text(snip.node_uuid)));
                assert(IdentitySnippet::throttles(after) =~= IdentitySnippet::throttles(
                    before,
                ).push(entry_text(snip.throttle_permille)));
                lemma_last_set_push(IdentitySnippet::groups(before), entry_text(snip.group));
                lemma_last_set_push(
                    IdentitySnippet::node_uuids(before),
                    entry_text(snip.node_uuid),
                );
                lemma_last_set_push(
                    IdentitySnippet::throttles(before),
                    entry_text(snip.throttle_permille),
                );
            }
            match &snippets[i].group {
                Some(g) => {
                    cfg.group = g.clone();
                },
                None => {},
            }
            match &snippets[i].node_uuid {
                Some(nu) => {
                    cfg.node_uuid = nu.clone();
                },
                None => {},
            }
            match &snippets[i].throttle_permille {
                Some(tp) => {
                    cfg.throttle_permille = tp.clone();
                },
                None => {},
            }
            i += 1;
        }
        assert(snippets@.take(i as int) =~= snippets@);
        cfg
    }
}

impl UpdateConfig {
    /// Merges the snippets of the update logic: for each entry the last
    /// snippet that sets it wins.
    pub fn from_snippets(snippets: Vec<UpdateSnippet>) -> (cfg: Self)
        ensures
            cfg.strategy@ == last_set(UpdateSnippet::strategies(snippets@)),
            cfg.remote_http.base_url@ == last_set(
                UpdateSnippet::remote_http_base_urls(snippets@),
            ),
    {
        let mut strategy = String::new();
        let mut remote_http = StratHttpInput { base_url: String::new() };
        let periodic = StratPeriodicConfig {  };
        let mut i: usize = 0;
        assert(UpdateSnippet::strategies(snippets@.take(0)) =~= Seq::empty());
        assert(UpdateSnippet::remote_http_base_urls(snippets@.take(0)) =~= Seq::empty());
        while i < snippets.len()
            invariant
                i <= snippets.len(),
                strategy@ == last_set(UpdateSnippet::strategies(snippets@.take(i as int))),
                remote_http.base_url@ == last_set(
                    UpdateSnippet::remote_http_base_urls(snippets@.take(i as int)),
                ),
            decreases snippets.len() - i,
        {
            proof {
                let before = snippets@.take(i as int);
                let after = snippets@.take(i + 1);
                let snip = snippets@[i as int];
                assert(UpdateSnippet::strategies(after) =~= UpdateSnippet::strategies(
                    before,
                ).push(entry_text(snip.strategy)));
                assert(UpdateSnippet::remote_http_base_urls(after)
                    =~= UpdateSnippet::remote_http_base_urls(before).push(
                    snip.remote_http_base_url(),
                ));
                lemma_last_set_push(UpdateSnippet::strategies(before), entry_text(snip.strategy));
                lemma_last_set_push(
                    UpdateSnippet::remote_http_base_urls(before),
                    snip.remote_http_base_url(),
                );
            }
            match &snippets[i].strategy {
                Some(s) => {
                    strategy = s.clone();
                },
                None => {},
            }
            match &snippets[i].remote_http {
                Some(remote) => {
                    match &remote.base_url {
                        Some(b) => {
                            remote_http.base_url = b.clone();
                        },
                        None => {},
                    }
                },
                None => {},
            }
            i += 1;
        }
        assert(snippets@.take(i as int) =~= snippets@);
        UpdateConfig { strategy, remote_http, periodic }
    }
}

impl ConfigInput {
    /// What this configuration says of each entry.
    pub open spec fn entries(self) -> MergedEntries {
        MergedEntries {
            cincinnati_base_url: self.cincinnati.base_url@,
            strategy: self.updates.strategy@,
            remote_http_base_url: self.updates.remote_http.base_url@,
            group: self.identity.group@,
            node_uuid: self.identity.node_uuid@,
            throttle_permille: self.identity.throttle_permille@,
        }
    }

    /// Merges multiple snippets into a single configuration.
    pub fn merge_snippets(snippets: Vec<ConfigSnippet>) -> (cfg: Self)
        ensures
            cfg.entries() == merged(ConfigSnippet::all_entries(snippets@)),
    {
        let mut cincinnatis: Vec<CincinnatiSnippet> = Vec::new();
        let mut updates: Vec<UpdateSnippet> = Vec::new();
        let mut identities: Vec<IdentitySnippet> = Vec::new();
        let mut i: usize = 0;
        proof {
            lemma_tables_start(ConfigSnippet::all_entries(snippets@.take(0)));
        }
        while i < snippets.len()
            invariant
                i <= snippets.len(),
                tables_hold(
                    cincinnatis@,
                    updates@,
                    identities@,
                    merged(ConfigSnippet::all_entries(snippets@.take(i as int))),
                ),
            decreases snippets.len() - i,
        {
            proof {
                let before = ConfigSnippet::all_entries(snippets@.take(i as int));
                let after = ConfigSnippet::all_entries(snippets@.take(i + 1));
                assert(after =~= before.push(snippets@[i as int].entries()));
                lemma_tables_step(
                    cincinnatis@,
                    updates@,
                    identities@,
                    before,
                    snippets@[i as int].cincinnati,
                    snippets@[i as int].updates,
                    snippets@[i as int].identity,
                );
            }
            match &snippets[i].cincinnati {
                Some(c) => {
                    cincinnatis.push(c.clone());
                },
                None => {},
            }
            match &snippets[i].updates {
                Some(f) => {
                    updates.push(f.clone());
                },
                None => {},
            }
            match &snippets[i].identity {
                Some(id) => {
                    identities.push(id.clone());
                },
                None => {},
            }
            i += 1;
        }
        assert(snippets@.take(i as int) =~= snippets@);
        ConfigInput {
            cincinnati: CincinnatiInput::from_snippets(cincinnatis),
            updates: UpdateConfig::from_snippets(updates),
            identity: IdentityInput::from_snippets(identities),
        }
    }
}

/// The tables gathered from some snippets say of every entry what the
/// snippets themselves say.
pub open spec fn tables_hold(
    cincinnatis: Seq<CincinnatiSnippet>,
    updates: Seq<UpdateSnippet>,
    identities: Seq<IdentitySnippet>,
    said: MergedEntries,
) -> bool {
    &&& last_set(CincinnatiSnippet::base_urls(cincinnatis)) == said.cincinnati_base_url
    &&& last_set(UpdateSnippet::strategies(updates)) == said.strategy
    &&& last_set(UpdateSnippet::remote_http_base_urls(updates)) == said.remote_http_base_url
    &&& last_set(IdentitySnippet::groups(identities)) == said.group
    &&& last_set(IdentitySnippet::node_uuids(identities)) == said.node_uuid
    &&& last_set(IdentitySnippet::throttles(identities)) == said.throttle_permille
}

/// No tables say what no snippets say.
pub proof fn lemma_tables_start(none: Seq<SnippetEntries>)
    requires
        none.len() == 0,
    ensures
        tables_hold(Seq::empty(), Seq::empty(), Seq::empty(), merged(none)),
{
    assert(CincinnatiSnippet::base_urls(Seq::empty()) =~= Seq::empty());
    assert(UpdateSnippet::strategies(Seq::empty()) =~= Seq::empty());
    assert(UpdateSnippet::remote_http_base_urls(Seq::empty()) =~= Seq::empty());
    assert(IdentitySnippet::groups(Seq::empty()) =~= Seq::empty());
    assert(IdentitySnippet::node_uuids(Seq::empty()) =~= Seq::empty());
    assert(IdentitySnippet::throttles(Seq::empty()) =~= Seq::empty());
}

/// Gathering the tables of one more snippet keeps the tables in step with
/// the snippets.
pub proof fn lemma_tables_step(
    cincinnatis: Seq<CincinnatiSnippet>,
    updates: Seq<UpdateSnippet>,
    identities: Seq<IdentitySnippet>,
    before: Seq<SnippetEntries>,
    cincinnati: Option<CincinnatiSnippet>,
    update: Option<UpdateSnippet>,
    identity: Option<IdentitySnippet>,
)
    requires
        tables_hold(cincinnatis, updates, identities, merged(before)),
    ensures
        tables_hold(
            match cincinnati {
                Some(c) => cincinnatis.push(c),
                None => cincinnatis,
            },
            match update {
                Some(u) => updates.push(u),
                None => updates,
            },
            match identity {
                Some(id) => identities.push(id),
                None => identities,
            },
            merged(before.push(entries_of_tables(cincinnati, update, identity))),
        ),
{
    let entries = entries_of_tables(cincinnati, update, identity);
    let after = before.push(entries);
    assert(Seq::new(after.len(), |i: int| after[i].cincinnati_base_url) =~= Seq::new(
        before.len(),
        |i: int| before[i].cincinnati_base_url,
    ).push(entries.cincinnati_base_url));
    assert(Seq::new(after.len(), |i: int| after[i].strategy) =~= Seq::new(
        before.len(),
        |i: int| before[i].strategy,
    ).push(entries.strategy));
    assert(Seq::new(after.len(), |i: int| after[i].remote_http_base_url) =~= Seq::new(
        before.len(),
        |i: int| before[i].remote_http_base_url,
    ).push(entries.remote_http_base_url));
    assert(Seq::new(after.len(), |i: int| after[i].group) =~= Seq::new(
        before.len(),
        |i: int| before[i].group,
    ).push(entries.group));
    assert(Seq::new(after.len(), |i: int| after[i].node_uuid) =~= Seq::new(
        before.len(),
        |i: int| before[i].node_uuid,
    ).push(entries.node_uuid));
    assert(Seq::new(after.len(), |i: int| after[i].throttle_permille) =~= Seq::new(
        before.len(),
        |i: int| before[i].throttle_permille,
    ).push(entries.throttle_permille));
    lemma_last_set_push(
        Seq::new(before.len(), |i: int| before[i].cincinnati_base_url),
        entries.cincinnati_base_url,
    );
    lemma_last_set_push(Seq::new(before.len(), |i: int| before[i].strategy), entries.strategy);
    lemma_last_set_push(
        Seq::new(before.len(), |i: int| before[i].remote_http_base_url),
        entries.remote_http_base_url,
    );
    lemma_last_set_push(Seq::new(before.len(), |i: int| before[i].group), entries.group);
    lemma_last_set_push(Seq::new(before.len(), |i: int| before[i].node_uuid), entries.node_uuid);
    lemma_last_set_push(
        Seq::new(before.len(), |i: int| before[i].throttle_permille),
        entries.throttle_permille,
    );
    match cincinnati {
        Some(c) => {
            assert(CincinnatiSnippet::base_urls(cincinnatis.push(c))
                =~= CincinnatiSnippet::base_urls(cincinnatis).push(entry_text(c.base_url)));
            lemma_last_set_push(CincinnatiSnippet::base_urls(cincinnatis), entry_text(c.base_url));
        },
        None => {},
    }
    match update {
        Some(u) => {
            assert(UpdateSnippet::strategies(updates.push(u)) =~= UpdateSnippet::strategies(
                updates,
            ).push(entry_text(u.strategy)));
            assert(UpdateSnippet::remote_http_base_urls(updates.push(u))
                =~= UpdateSnippet::remote_http_base_urls(updates).push(u.remote_http_base_url()));
            lemma_last_set_push(UpdateSnippet::strategies(updates), entry_text(u.strategy));
            lemma_last_set_push(
                UpdateSnippet::remote_http_base_urls(updates),
                u.remote_http_base_url(),
            );
        },
        None => {},
    }
    match identity {
        Some(id) => {
            assert(IdentitySnippet::groups(identities.push(id)) =~= IdentitySnippet::groups(
                identities,
            ).push(entry_text(id.group)));
            assert(IdentitySnippet::node_uuids(identities.push(id))
                =~= IdentitySnippet::node_uuids(identities).push(entry_text(id.node_uuid)));
            assert(IdentitySnippet::throttles(identities.push(id)) =~= IdentitySnippet::throttles(
                identities,
            ).push(entry_text(id.throttle_permille)));
            lemma_last_set_push(IdentitySnippet::groups(identities), entry_text(id.group));
            lemma_last_set_push(IdentitySnippet::node_uuids(identities), entry_text(id.node_uuid));
            lemma_last_set_push(
                IdentitySnippet::throttles(identities),
                entry_text(id.throttle_permille),
            );
        },
        None => {},
    }
}

} // verus!
