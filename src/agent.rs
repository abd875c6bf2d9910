use vstd::prelude::*;

verus! {

pub type AgentId = String;

/// How an agent expects to be authenticated.
#[derive(Debug, Clone)]
pub enum AuthMethod {
    NoAuth,
    ApiKey { key: String },
    Bearer { token: String },
}

/// Identity and launch recipe of one agent.
#[derive(Debug, Clone)]
pub struct AgentConfig {
    pub id: AgentId,
    pub name: String,
    pub endpoint: String,
    pub args: Vec<String>,
    pub env: Vec<(String, String)>,
    pub auth: AuthMethod,
    pub timeout_ms: u64,
}

/// The state of the connection to an agent.
#[derive(Debug, Clone, Copy, PartialEq, Eq, Structural)]
pub enum AgentStatus {
    Disconnected,
    Connecting,
    Connected,
    Error,
}

/// The known agents and the one that is active.
pub struct AgentRegistry {
    agents: Vec<AgentConfig>,
    active_agent_id: Option<AgentId>,
}

pub struct RegistryView {
    pub agents: Seq<AgentConfig>,
    pub active: Option<Seq<char>>,
}

impl View for AgentRegistry {
    type V = RegistryView;

    closed spec fn view(&self) -> RegistryView {
        RegistryView {
            agents: self.agents@,
            active: match self.active_agent_id {
                Some(id) => Some(id@),
                None => None,
            },
        }
    }
}

/// The first agent with the given id.
pub open spec fn find_agent(agents: Seq<AgentConfig>, id: Seq<char>) -> Option<AgentConfig>
    decreases agents.len(),
{
    if agents.len() == 0 {
        None
    } else if agents[0].id@ == id {
        Some(agents[0])
    } else {
        find_agent(agents.drop_first(), id)
    }
}

/// The agents whose id differs from `id`, in their order.
pub open spec fn without_id(agents: Seq<AgentConfig>, id: Seq<char>) -> Seq<AgentConfig>
    decreases agents.len(),
{
    if agents.len() == 0 {
        agents
    } else if agents.last().id@ == id {
        without_id(agents.drop_last(), id)
    } else {
        without_id(agents.drop_last(), id).push(agents.last())
    }
}

impl AgentRegistry {
    pub fn new() -> (r: AgentRegistry)
        ensures
            r@.agents == Seq::<AgentConfig>::empty(),
            r@.active.is_none(),
    {
        AgentRegistry { agents: Vec::new(), active_agent_id: None }
    }

    pub fn agents(&self) -> (r: &[AgentConfig])
        ensures
            r@ == self@.agents,
    {
        self.agents.as_slice()
    }

    pub fn active_agent_id(&self) -> (r: Option<&AgentId>)
        ensures
            match r {
                Some(id) => self@.active == Some(id@),
                None => self@.active.is_none(),
            },
    {
        self.active_agent_id.as_ref()
    }

    /// The first agent whose id is the active one.
    pub fn active_agent(&self) -> (r: Option<&AgentConfig>)
        ensures
            match r {
                Some(a) => self@.active is Some && find_agent(self@.agents, self@.active->0) == Some(
                    *a,
                ),
                None => self@.active is None || find_agent(self@.agents, self@.active->0) is None,
            },
    {
        match &self.active_agent_id {
            None => None,
            Some(id) => {
                let mut i: usize = 0;
                assert(self.agents@.subrange(0, self.agents@.len() as int) =~= self.agents@);
                while i < self.agents.len()
                    invariant
                        i <= self.agents@.len(),
                        self@.active == Some(id@),
                        find_agent(self.agents@, id@) == find_agent(
                            self.agents@.subrange(i as int, self.agents@.len() as int),
                            id@,
                        ),
                    decreases self.agents@.len() - i,
                {
                    let ghost rest = self.agents@.subrange(i as int, self.agents@.len() as int);
                    assert(rest[0] == self.agents@[i as int]);
                    if self.agents[i].id == *id {
                        assert(rest.len() > 0 && rest[0].id@ == id@);
                        assert(find_agent(rest, id@) == Some(self.agents@[i as int]));
                        return Some(&self.agents[i]);
                    }
                    assert(rest.drop_first() =~= self.agents@.subrange(
                        i + 1,
                        self.agents@.len() as int,
                    ));
                    i = i + 1;
                }
                None
            },
        }
    }

    pub fn add_agent(&mut self, config: AgentConfig)
        ensures
            final(self)@.agents == old(self)@.agents.push(config),
            final(self)@.active == old(self)@.active,
    {
        self.agents.push(config);
    }

    /// Removes every agent with the given id, and clears the active id if it
    /// was that one.
    pub fn remove_agent(&mut self, id: &str)
        ensures
            final(self)@.agents == without_id(old(self)@.agents, id@),
            final(self)@.active == if old(self)@.active == Some(id@) {
                None
            } else {
                old(self)@.active
            },
    {
        let wanted = id.to_owned();
        let mut rest: Vec<AgentConfig> = Vec::new();
        std::mem::swap(&mut rest, &mut self.agents);
        let ghost all = rest@;
        let mut kept: Vec<AgentConfig> = Vec::new();
        let total = rest.len();
        let mut i: usize = 0;
        assert(all.subrange(0, 0) =~= Seq::<AgentConfig>::empty());
        assert(rest@ =~= all.subrange(0, all.len() as int));
        while rest.len() > 0
            invariant
                wanted@ == id@,
                all.len() == total,
                i <= all.len(),
                rest@ == all.subrange(i as int, all.len() as int),
                kept@ == without_id(all.subrange(0, i as int), id@),
            decreases rest@.len(),
        {
            let a = rest.remove(0);
            let ghost next = all.subrange(0, i + 1);
            assert(next.drop_last() =~= all.subrange(0, i as int));
            assert(next.last() == a);
            if a.id != wanted {
                kept.push(a);
            }
            assert(rest@ =~= all.subrange(i + 1, all.len() as int));
            i = i + 1;
        }
        assert(all.subrange(0, all.len() as int) =~= all);
        self.agents = kept;
        let clear = match &self.active_agent_id {
            Some(active) => *active == wanted,
            None => false,
        };
        if clear {
            self.active_agent_id = None;
        }
    }

    pub fn set_active(&mut self, id: Option<AgentId>)
        ensures
            final(self)@.agents == old(self)@.agents,
            final(self)@.active == match id {
                Some(s) => Some(s@),
                None => None::<Seq<char>>,
            },
    {
        self.active_agent_id = id;
    }
}

} // verus!
