//! Configuration snippets: single files, each holding any subset of the
//! configuration entries.

use vstd::prelude::*;

verus! {

/// The text of an entry, where the snippet sets it.
pub open spec fn entry_text(entry: Option<String>) -> Option<Seq<char>> {
    match entry {
        Some(text) => Some(text@),
        None => None,
    }
}

/// The text that wins among the entries of several snippets: that of the
/// last snippet that sets the entry, the empty text where none does.
pub open spec fn last_set(entries: Seq<Option<Seq<char>>>) -> Seq<char>
    decreases entries.len(),
{
    if entries.len() == 0 {
        Seq::empty()
    } else {
        match entries.last() {
            Some(text) => text,
            None => last_set(entries.drop_last()),
        }
    }
}

/// One more snippet at the end wins if it sets the entry, and changes
/// nothing if it does not.
pub proof fn lemma_last_set_push(entries: Seq<Option<Seq<char>>>, entry: Option<Seq<char>>)
    ensures
        last_set(entries.push(entry)) == match entry {
            Some(text) => text,
            None => last_set(entries),
        },
{
    assert(entries.push(entry).drop_last() =~= entries);
}

/// Top-level configuration stanza.
#[derive(Debug, PartialEq, Eq)]
pub struct ConfigSnippet {
    /// Agent configuration.
    pub agent: Option<AgentSnippet>,
    /// Update-graph client configuration.
    pub cincinnati: Option<CincinnatiSnippet>,
    /// Update strategy configuration.
    pub updates: Option<UpdateSnippet>,
    /// Agent identity.
    pub identity: Option<IdentitySnippet>,
}

/// Top-level configuration stanza where finalization is configured under a
/// table of its own.
#[derive(Debug, PartialEq, Eq)]
pub struct SingleSnippet {
    /// Agent configuration.
    pub agent: Option<AgentSnippet>,
    /// Update-graph client configuration.
    pub cincinnati: Option<CincinnatiSnippet>,
    /// Finalization strategy configuration.
    pub finalize: Option<FinalizeSnippet>,
    /// Agent identity.
    pub identity: Option<IdentitySnippet>,
}

/// General agent configuration.
#[derive(Clone, Copy, Debug, PartialEq, Eq)]
pub struct AgentSnippet {}

/// Config snippet for the agent's identity.
#[derive(Debug, PartialEq, Eq)]
pub struct IdentitySnippet {
    /// Update group for this agent (default: 'default').
    pub group: Option<String>,
    /// Node id (default: computed).
    pub node_uuid: Option<String>,
    /// Throttle bucket for this agent (default: computed).
    pub throttle_permille: Option<String>,
}

/// Config snippet for the update-graph client.
#[derive(Debug, PartialEq, Eq)]
pub struct CincinnatiSnippet {
    /// Base URL to the upstream update-graph server.
    pub base_url: Option<String>,
}

/// Config snippet for update logic.
#[derive(Debug, PartialEq, Eq)]
pub struct UpdateSnippet {
    /// Update strategy (default: immediate).
    pub strategy: Option<String>,
    /// `remote_http` strategy config.
    pub remote_http: Option<StratHttpSnippet>,
    /// `periodic` strategy config.
    pub periodic: Option<StratPeriodicSnippet>,
}

/// Config snippet for the finalizer: it has the entries of the update
/// logic.
pub type FinalizeSnippet = UpdateSnippet;

/// Config snippet for the `remote_http` strategy.
#[derive(Debug, PartialEq, Eq)]
pub struct StratHttpSnippet {
    /// Base URL for the remote semaphore manager.
    pub base_url: Option<String>,
}

/// Config snippet for the `periodic` strategy.
#[derive(Clone, Copy, Debug, PartialEq, Eq)]
pub struct StratPeriodicSnippet {}

impl Clone for IdentitySnippet {
    fn clone(&self) -> (r: Self)
        ensures
            r == *self,
    {
        IdentitySnippet {
            group: self.group.clone(),
            node_uuid: self.node_uuid.clone(),
            throttle_permille: self.throttle_permille.clone(),
        }
    }
}

impl Clone for CincinnatiSnippet {
    fn clone(&self) -> (r: Self)
        ensures
            r == *self,
    {
        CincinnatiSnippet { base_url: self.base_url.clone() }
    }
}

impl Clone for StratHttpSnippet {
    fn clone(&self) -> (r: Self)
        ensures
            r == *self,
    {
        StratHttpSnippet { base_url: self.base_url.clone() }
    }
}

impl Clone for UpdateSnippet {
    fn clone(&self) -> (r: Self)
        ensures
            r == *self,
    {
        UpdateSnippet {
            strategy: self.strategy.clone(),
            remote_http: self.remote_http.clone(),
            periodic: self.periodic,
        }
    }
}

/// What one top-level snippet says of each entry that is merged.
pub struct SnippetEntries {
    pub cincinnati_base_url: Option<Seq<char>>,
    pub strategy: Option<Seq<char>>,
    pub remote_http_base_url: Option<Seq<char>>,
    pub group: Option<Seq<char>>,
    pub node_uuid: Option<Seq<char>>,
    pub throttle_permille: Option<Seq<char>>,
}

/// What several snippets say together of each entry that is merged.
pub struct MergedEntries {
    pub cincinnati_base_url: Seq<char>,
    pub strategy: Seq<char>,
    pub remote_http_base_url: Seq<char>,
    pub group: Seq<char>,
    pub node_uuid: Seq<char>,
    pub throttle_permille: Seq<char>,
}

/// Merges snippets entry by entry: for each entry the last snippet that
/// sets it wins, and an entry that no snippet sets is the empty text.
pub open spec fn merged(snippets: Seq<SnippetEntries>) -> MergedEntries {
    MergedEntries {
        cincinnati_base_url: last_set(
            Seq::new(snippets.len(), |i: int| snippets[i].cincinnati_base_url),
        ),
        strategy: last_set(Seq::new(snippets.len(), |i: int| snippets[i].strategy)),
        remote_http_base_url: last_set(
            Seq::new(snippets.len(), |i: int| snippets[i].remote_http_base_url),
        ),
        group: last_set(Seq::new(snippets.len(), |i: int| snippets[i].group)),
        node_uuid: last_set(Seq::new(snippets.len(), |i: int| snippets[i].node_uuid)),
        throttle_permille: last_set(
            Seq::new(snippets.len(), |i: int| snippets[i].throttle_permille),
        ),
    }
}

/// The entries that the three tables of a snippet set.
pub open spec fn entries_of_tables(
    cincinnati: Option<CincinnatiSnippet>,
    updates: Option<UpdateSnippet>,
    identity: Option<IdentitySnippet>,
) -> SnippetEntries {
    SnippetEntries {
        cincinnati_base_url: match cincinnati {
            Some(c) => entry_text(c.base_url),
            None => None,
        },
        strategy: match updates {
            Some(u) => entry_text(u.strategy),
            None => None,
        },
        remote_http_base_url: match updates {
            Some(u) => u.remote_http_base_url(),
            None => None,
        },
        group: match identity {
            Some(id) => entry_text(id.group),
            None => None,
        },
        node_uuid: match identity {
            Some(id) => entry_text(id.node_uuid),
            None => None,
        },
        throttle_permille: match identity {
            Some(id) => entry_text(id.throttle_permille),
            None => None,
        },
    }
}

impl ConfigSnippet {
    /// What this snippet says of each entry.
    pub open spec fn entries(self) -> SnippetEntries {
        entries_of_tables(self.cincinnati, self.updates, self.identity)
    }

    /// What each of the snippets says.
    pub open spec fn all_entries(snippets: Seq<ConfigSnippet>) -> Seq<SnippetEntries> {
        Seq::new(snippets.len(), |i: int| snippets[i].entries())
    }
}

impl SingleSnippet {
    /// What this snippet says of each entry.
    pub open spec fn entries(self) -> SnippetEntries {
        entries_of_tables(self.cincinnati, self.finalize, self.identity)
    }

    /// What each of the snippets says.
    pub open spec fn all_entries(snippets: Seq<SingleSnippet>) -> Seq<SnippetEntries> {
        Seq::new(snippets.len(), |i: int| snippets[i].entries())
    }
}

impl CincinnatiSnippet {
    /// What each snippet says of the base URL.
    pub open spec fn base_urls(snippets: Seq<CincinnatiSnippet>) -> Seq<Option<Seq<char>>> {
        Seq::new(snippets.len(), |i: int| entry_text(snippets[i].base_url))
    }
}

impl IdentitySnippet {
    /// What each snippet says of the group.
    pub open spec fn groups(snippets: Seq<IdentitySnippet>) -> Seq<Option<Seq<char>>> {
        Seq::new(snippets.len(), |i: int| entry_text(snippets[i].group))
    }

    /// What each snippet says of the node id.
    pub open spec fn node_uuids(snippets: Seq<IdentitySnippet>) -> Seq<Option<Seq<char>>> {
        Seq::new(snippets.len(), |i: int| entry_text(snippets[i].node_uuid))
    }

    /// What each snippet says of the throttle bucket.
    pub open spec fn throttles(snippets: Seq<IdentitySnippet>) -> Seq<Option<Seq<char>>> {
        Seq::new(snippets.len(), |i: int| entry_text(snippets[i].throttle_permille))
    }
}

impl UpdateSnippet {
    /// What this snippet says of the lock manager's base URL.
    pub open spec fn remote_http_base_url(self) -> Option<Seq<char>> {
        match self.remote_http {
            Some(remote) => entry_text(remote.base_url),
            None => None,
        }
    }

    /// What each snippet says of the strategy's name.
    pub open spec fn strategies(snippets: Seq<UpdateSnippet>) -> Seq<Option<Seq<char>>> {
        Seq::new(snippets.len(), |i: int| entry_text(snippets[i].strategy))
    }

    /// What each snippet says of the lock manager's base URL.
    pub open spec fn remote_http_base_urls(snippets: Seq<UpdateSnippet>) -> Seq<
        Option<Seq<char>>,
    > {
        Seq::new(snippets.len(), |i: int| snippets[i].remote_http_base_url())
    }
}

} // verus!
