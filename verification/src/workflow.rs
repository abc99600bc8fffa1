//! The workflow manager's job registry and its scan decisions.

use std::collections::HashMap;
use vstd::prelude::*;
use vstd::std_specs::iter::IteratorSpec;

verus! {

broadcast use vstd::std_specs::hash::group_hash_axioms;

/// Lifecycle status of a workflow or of one of its node jobs.
#[derive(Clone, Copy, Debug, PartialEq, Eq, Structural)]
pub enum JobStatus {
    PENDING,
    STARTING,
    RUNNING,
    STOPPING,
    STOPPED,
    FAILED,
}

/// The text a status is stored and compared as.
pub open spec fn job_status_text(s: JobStatus) -> Seq<char> {
    match s {
        JobStatus::PENDING => "PENDING"@,
        JobStatus::STARTING => "STARTING"@,
        JobStatus::RUNNING => "RUNNING"@,
        JobStatus::STOPPING => "STOPPING"@,
        JobStatus::STOPPED => "STOPPED"@,
        JobStatus::FAILED => "FAILED"@,
    }
}

impl JobStatus {
    pub fn as_str(&self) -> (s: &'static str)
        ensures
            s@ == job_status_text(*self),
    {
        match self {
            JobStatus::PENDING => "PENDING",
            JobStatus::STARTING => "STARTING",
            JobStatus::RUNNING => "RUNNING",
            JobStatus::STOPPING => "STOPPING",
            JobStatus::STOPPED => "STOPPED",
            JobStatus::FAILED => "FAILED",
        }
    }
}

/// One node of a workflow that this service runs, with its current status.
#[derive(Clone, Copy, Debug)]
pub struct SigbotWorkflowNodeJob {
    pub workflow_id: i64,
    pub node_id: i64,
    pub status: JobStatus,
}

impl SigbotWorkflowNodeJob {
    /// A new job starts out PENDING.
    pub fn new(workflow_id: i64, node_id: i64) -> (job: Self)
        ensures
            job.workflow_id == workflow_id,
            job.node_id == node_id,
            job.status == JobStatus::PENDING,
    {
        SigbotWorkflowNodeJob { workflow_id, node_id, status: JobStatus::PENDING }
    }

    pub fn node_id(&self) -> (id: i64)
        ensures
            id == self.node_id,
    {
        self.node_id
    }

    pub fn workflow_id(&self) -> (id: i64)
        ensures
            id == self.workflow_id,
    {
        self.workflow_id
    }

    pub fn set_status(&mut self, status: JobStatus)
        ensures
            final(self).status == status,
            final(self).workflow_id == old(self).workflow_id,
            final(self).node_id == old(self).node_id,
    {
        self.status = status;
    }

    pub fn get_status(&self) -> (s: JobStatus)
        ensures
            s == self.status,
    {
        self.status
    }
}


/// `jobs` lists each job of `m` exactly once.
pub open spec fn jobs_list_of(jobs: Seq<SigbotWorkflowNodeJob>, m: Map<i64, SigbotWorkflowNodeJob>) -> bool {
    &&& jobs.len() == m.dom().len()
    &&& jobs.to_set() == m.values()
}

fn collect_jobs(node_map: &HashMap<i64, SigbotWorkflowNodeJob>) -> (jobs: Vec<SigbotWorkflowNodeJob>)
    ensures
        jobs_list_of(jobs@, node_map@),
        (forall|n: i64| #[trigger] node_map@.contains_key(n) ==> node_map@[n].node_id == n) ==> jobs@.no_duplicates(),
{
    let mut jobs: Vec<SigbotWorkflowNodeJob> = Vec::new();
    let ghost m = node_map@;
    let ghost keys = vstd::std_specs::hash::spec_keys_iter(node_map).remaining().unref();
    for k in it: node_map.keys()
        invariant
            m == node_map@,
            it.seq().unref() == keys,
            keys.to_set() == m.dom(),
            keys.no_duplicates(),
            keys.len() == m.dom().len(),
            jobs@.len() == it.index(),
            forall|i: int| 0 <= i < it.index() ==> #[trigger] jobs@[i] == m[keys[i]],
    {
        let ghost idx = it.index();
        proof {
            assert(keys[idx as int] == *k);
            assert(keys.to_set().contains(*k));
        }
        match node_map.get(k) {
            Some(v) => {
                jobs.push(*v);
            },
            None => {
                assert(false);
            },
        }
    }
    proof {
        assert(jobs@.len() == keys.len());
        assert forall|j: SigbotWorkflowNodeJob| #[trigger] jobs@.to_set().contains(j) == m.values().contains(j) by {
            if jobs@.to_set().contains(j) {
                assert(jobs@.contains(j));
                let i = choose|i: int| 0 <= i < jobs@.len() && jobs@[i] == j;
                assert(keys.to_set().contains(keys[i]));
                assert(m.contains_key(keys[i]) && m[keys[i]] == j);
            }
            if m.values().contains(j) {
                let n = choose|n: i64| #[trigger] m.contains_key(n) && m[n] == j;
                assert(keys.to_set().contains(n));
                assert(keys.contains(n));
                let i = choose|i: int| 0 <= i < keys.len() && keys[i] == n;
                assert(jobs@[i] == j);
                assert(jobs@.contains(j));
            }
        }
        assert(jobs@.to_set() =~= m.values());
        if forall|n: i64| #[trigger] m.contains_key(n) ==> m[n].node_id == n {
            assert forall|a: int, b: int| 0 <= a < jobs@.len() && 0 <= b < jobs@.len() && a != b
                implies jobs@[a] != jobs@[b] by {
                assert(keys.to_set().contains(keys[a]) && keys.to_set().contains(keys[b]));
                assert(m.contains_key(keys[a]) && m.contains_key(keys[b]));
                if jobs@[a] == jobs@[b] {
                    assert(m[keys[a]].node_id == keys[a]);
                    assert(m[keys[b]].node_id == keys[b]);
                }
            }
        }
    }
    jobs
}


/// The registered jobs whose status is `s`.
pub open spec fn jobs_in_status(
    reg: Map<i64, Map<i64, SigbotWorkflowNodeJob>>,
    s: JobStatus,
) -> Set<SigbotWorkflowNodeJob> {
    registered_jobs(reg, Some(s))
}

/// Whether a job's status passes the filter; no filter passes every status.
pub open spec fn status_passes(filter: Option<JobStatus>, s: JobStatus) -> bool {
    match filter {
        Some(f) => s == f,
        None => true,
    }
}

/// The registered jobs whose status passes `filter`.
pub open spec fn registered_jobs(
    reg: Map<i64, Map<i64, SigbotWorkflowNodeJob>>,
    filter: Option<JobStatus>,
) -> Set<SigbotWorkflowNodeJob> {
    Set::new(
        |j: SigbotWorkflowNodeJob|
            reg.contains_key(j.workflow_id) && reg[j.workflow_id].contains_key(j.node_id)
                && reg[j.workflow_id][j.node_id] == j && status_passes(filter, j.status),
    )
}


proof fn lemma_push_contains<A>(s: Seq<A>, x: A)
    ensures
        forall|y: A| #[trigger] s.push(x).contains(y) == (s.contains(y) || y == x),
        forall|y: A| #[trigger] s.push(x).to_set().contains(y) == (s.to_set().contains(y) || y == x),
{
    assert forall|y: A| #[trigger] s.push(x).contains(y) == (s.contains(y) || y == x) by {
        let d = s.push(x);
        if d.contains(y) {
            let k = choose|k: int| 0 <= k < d.len() && d[k] == y;
            if k < s.len() {
                assert(s[k] == y);
            }
        }
        if s.contains(y) {
            let k = choose|k: int| 0 <= k < s.len() && s[k] == y;
            assert(d[k] == y);
        }
        if y == x {
            assert(d[s.len() as int] == y);
        }
    }
}

proof fn lemma_take_push_contains<A>(s: Seq<A>, i: int)
    requires
        0 < i <= s.len(),
    ensures
        forall|y: A| #[trigger] s.take(i).contains(y) == (s.take(i - 1).contains(y) || y == s[i - 1]),
{
    assert(s.take(i) =~= s.take(i - 1).push(s[i - 1]));
    lemma_push_contains(s.take(i - 1), s[i - 1]);
}


/// The jobs of `m`, each with its status replaced by `s`.
pub open spec fn with_status(m: Map<i64, SigbotWorkflowNodeJob>, s: JobStatus) -> Map<i64, SigbotWorkflowNodeJob> {
    m.map_values(|j: SigbotWorkflowNodeJob| SigbotWorkflowNodeJob { workflow_id: j.workflow_id, node_id: j.node_id, status: s })
}

/// The stage's nodes that the flow defines, in stage order.
pub open spec fn start_targets(stage: Seq<i64>, flow: Seq<i64>) -> Seq<i64>
    decreases stage.len(),
{
    if stage.len() == 0 {
        Seq::empty()
    } else {
        let rest = start_targets(stage.drop_last(), flow);
        if flow.contains(stage.last()) {
            rest.push(stage.last())
        } else {
            rest
        }
    }
}

/// A STARTING job for each target node of the workflow.
pub open spec fn starting_jobs(workflow_id: i64, targets: Seq<i64>) -> Map<i64, SigbotWorkflowNodeJob> {
    Map::new(
        |n: i64| targets.contains(n),
        |n: i64| SigbotWorkflowNodeJob { workflow_id, node_id: n, status: JobStatus::STARTING },
    )
}

/// Whether `v` holds `x`.
pub fn contains_i64(v: &Vec<i64>, x: i64) -> (r: bool)
    ensures
        r == v@.contains(x),
{
    let mut i: usize = 0;
    while i < v.len()
        invariant
            0 <= i <= v.len(),
            forall|k: int| 0 <= k < i ==> v@[k] != x,
        decreases v.len() - i,
    {
        if v[i] == x {
            assert(v@[i as int] == x);
            return true;
        }
        i += 1;
    }
    false
}

/// The registry a manager holds: workflow id to node id to job.
pub type JobRegistry = Map<i64, Map<i64, SigbotWorkflowNodeJob>>;

/// The job registered for a workflow node, if any.
pub open spec fn job_at(reg: Map<i64, Map<i64, SigbotWorkflowNodeJob>>, workflow_id: i64, node_id: i64)
    -> Option<SigbotWorkflowNodeJob> {
    if reg.contains_key(workflow_id) && reg[workflow_id].contains_key(node_id) {
        Some(reg[workflow_id][node_id])
    } else {
        None
    }
}

/// The registry after registering a job: unchanged when its node already
/// has a job, else with the job added under its workflow and node.
pub open spec fn with_job(reg: Map<i64, Map<i64, SigbotWorkflowNodeJob>>, job: SigbotWorkflowNodeJob)
    -> Map<i64, Map<i64, SigbotWorkflowNodeJob>> {
    if job_at(reg, job.workflow_id, job.node_id) is Some {
        reg
    } else {
        reg.insert(
            job.workflow_id,
            (if reg.contains_key(job.workflow_id) { reg[job.workflow_id] } else { Map::empty() }).insert(job.node_id, job),
        )
    }
}

/// The registry after removing a node's job: a workflow left without jobs
/// is dropped; a node without a job leaves the registry as it is.
pub open spec fn without_job(reg: Map<i64, Map<i64, SigbotWorkflowNodeJob>>, workflow_id: i64, node_id: i64)
    -> Map<i64, Map<i64, SigbotWorkflowNodeJob>> {
    if job_at(reg, workflow_id, node_id) is Some {
        if reg[workflow_id].dom().len() == 1 {
            reg.remove(workflow_id)
        } else {
            reg.insert(workflow_id, reg[workflow_id].remove(node_id))
        }
    } else {
        reg
    }
}

/// Every workflow in the registry has finitely many jobs, at least one.
pub open spec fn registry_ok(reg: Map<i64, Map<i64, SigbotWorkflowNodeJob>>) -> bool {
    forall|w: i64| #[trigger] reg.contains_key(w) ==> reg[w].dom().finite() && reg[w].dom().len() > 0
}

/// Each registered job sits under its own workflow and node ids.
pub open spec fn ids_consistent(reg: Map<i64, Map<i64, SigbotWorkflowNodeJob>>) -> bool {
    forall|w: i64, n: i64| #[trigger] reg.contains_key(w) && #[trigger] reg[w].contains_key(n)
        ==> reg[w][n].workflow_id == w && reg[w][n].node_id == n
}

/// Registry of the node jobs this service runs, keyed by workflow and node.
pub struct SigbotWorkflowManager {
    schedule_cron: Option<String>,
    schedule_channels: Option<usize>,
    job_registry: HashMap<i64, HashMap<i64, SigbotWorkflowNodeJob>>,
}

impl SigbotWorkflowManager {
    /// The registered jobs: workflow id to node id to job.
    pub closed spec fn registry(&self) -> Map<i64, Map<i64, SigbotWorkflowNodeJob>> {
        Map::new(
            |w: i64| self.job_registry@.contains_key(w),
            |w: i64| self.job_registry@[w]@,
        )
    }

    /// Every workflow entry holds at least one job, and each job sits under its own ids.
    pub closed spec fn wf(&self) -> bool {
        &&& forall|w: i64| #[trigger] self.job_registry@.contains_key(w)
            ==> self.job_registry@[w]@.dom().len() > 0 && self.job_registry@[w]@.dom().finite()
        &&& forall|w: i64, n: i64| #[trigger] self.job_registry@.contains_key(w)
            && #[trigger] self.job_registry@[w]@.contains_key(n)
            ==> self.job_registry@[w]@[n].workflow_id == w && self.job_registry@[w]@[n].node_id == n
    }

    pub closed spec fn spec_schedule_cron(&self) -> Option<String> {
        self.schedule_cron
    }

    pub closed spec fn spec_schedule_channels(&self) -> Option<usize> {
        self.schedule_channels
    }

    pub fn new(schedule_cron: Option<String>, schedule_channels: Option<usize>) -> (m: Self)
        ensures
            m.wf(),
            m.registry() == Map::<i64, Map<i64, SigbotWorkflowNodeJob>>::empty(),
            m.spec_schedule_cron() == schedule_cron,
            m.spec_schedule_channels() == schedule_channels,
    {
        let m = SigbotWorkflowManager {
            schedule_cron,
            schedule_channels,
            job_registry: HashMap::new(),
        };
        assert(m.registry() =~= Map::<i64, Map<i64, SigbotWorkflowNodeJob>>::empty());
        m
    }

    /// Registers a job unless a job for the same workflow and node is already registered.
    pub fn register_job(&mut self, job: SigbotWorkflowNodeJob)
        requires
            old(self).wf(),
        ensures
            final(self).wf(),
            final(self).registry() == with_job(old(self).registry(), job),
            final(self).spec_schedule_cron() == old(self).spec_schedule_cron(),
            final(self).spec_schedule_channels() == old(self).spec_schedule_channels(),
    {
        let workflow_id = job.workflow_id;
        let node_id = job.node_id;
        let ghost old_reg = self.registry();
        let mut node_map = match self.job_registry.remove(&workflow_id) {
            Some(existing) => existing,
            None => HashMap::new(),
        };
        if node_map.contains_key(&node_id) {
            self.job_registry.insert(workflow_id, node_map);
            assert(self.registry() =~= old_reg);
            return;
        }
        node_map.insert(node_id, job);
        self.job_registry.insert(workflow_id, node_map);
        assert(self.registry() =~= old_reg.insert(
            workflow_id,
            (if old_reg.contains_key(workflow_id) { old_reg[workflow_id] } else { Map::empty() }).insert(node_id, job),
        ));
    }


    /// The job registered for a workflow node, if any.
    pub fn get_node_job(&self, workflow_id: i64, node_id: i64) -> (r: Option<SigbotWorkflowNodeJob>)
        requires
            self.wf(),
        ensures
            r == job_at(self.registry(), workflow_id, node_id),
    {
        match self.job_registry.get(&workflow_id) {
            Some(node_map) => match node_map.get(&node_id) {
                Some(job) => Some(*job),
                None => None,
            },
            None => None,
        }
    }

    /// All jobs registered for a workflow, in no particular order.
    pub fn get_node_jobs(&self, workflow_id: i64) -> (jobs: Vec<SigbotWorkflowNodeJob>)
        requires
            self.wf(),
        ensures
            self.registry().contains_key(workflow_id) ==> jobs_list_of(jobs@, self.registry()[workflow_id]),
            !self.registry().contains_key(workflow_id) ==> jobs@.len() == 0,
            jobs@.no_duplicates(),
    {
        match self.job_registry.get(&workflow_id) {
            Some(node_map) => collect_jobs(node_map),
            None => Vec::new(),
        }
    }

    /// Removes every job of a workflow and returns them.
    pub fn unregister_workflow_jobs(&mut self, workflow_id: i64) -> (jobs: Vec<SigbotWorkflowNodeJob>)
        requires
            old(self).wf(),
        ensures
            final(self).wf(),
            final(self).registry() == old(self).registry().remove(workflow_id),
            old(self).registry().contains_key(workflow_id) ==> jobs_list_of(
                jobs@,
                old(self).registry()[workflow_id],
            ),
            !old(self).registry().contains_key(workflow_id) ==> jobs@.len() == 0,
            jobs@.no_duplicates(),
            final(self).spec_schedule_cron() == old(self).spec_schedule_cron(),
            final(self).spec_schedule_channels() == old(self).spec_schedule_channels(),
    {
        let ghost old_reg = self.registry();
        let removed = self.job_registry.remove(&workflow_id);
        assert(self.registry() =~= old_reg.remove(workflow_id));
        match removed {
            Some(node_map) => collect_jobs(&node_map),
            None => Vec::new(),
        }
    }

    /// Removes one node job; a workflow left without jobs is dropped from the registry.
    pub fn unregister_node_job(&mut self, workflow_id: i64, node_id: i64) -> (r: Option<SigbotWorkflowNodeJob>)
        requires
            old(self).wf(),
        ensures
            final(self).wf(),
            r == job_at(old(self).registry(), workflow_id, node_id),
            final(self).registry() == without_job(old(self).registry(), workflow_id, node_id),
            final(self).spec_schedule_cron() == old(self).spec_schedule_cron(),
            final(self).spec_schedule_channels() == old(self).spec_schedule_channels(),
    {
        let ghost old_reg = self.registry();
        match self.job_registry.remove(&workflow_id) {
            Some(mut node_map) => {
                match node_map.remove(&node_id) {
                    Some(job) => {
                        if node_map.is_empty() {
                            proof {
                                vstd::set_lib::lemma_set_empty_equivalency_len(node_map@.dom());
                                assert(old_reg[workflow_id].dom() =~= node_map@.dom().insert(node_id));
                            }
                            assert(self.registry() =~= old_reg.remove(workflow_id));
                        } else {
                            proof {
                                assert(old_reg[workflow_id].dom() =~= node_map@.dom().insert(node_id));
                                assert(node_map@.dom().len() > 0);
                            }
                            self.job_registry.insert(workflow_id, node_map);
                            assert(self.registry() =~= old_reg.insert(workflow_id, old_reg[workflow_id].remove(node_id)));
                        }
                        Some(job)
                    },
                    None => {
                        assert(node_map@ =~= old_reg[workflow_id]);
                        self.job_registry.insert(workflow_id, node_map);
                        assert(self.registry() =~= old_reg);
                        None
                    },
                }
            },
            None => {
                assert(self.registry() =~= old_reg);
                None
            },
        }
    }


    /// Every registered job, across all workflows, whose status is `status`.
    pub fn get_node_jobs_by_status(&self, status: JobStatus) -> (jobs: Vec<SigbotWorkflowNodeJob>)
        requires
            self.wf(),
        ensures
            jobs@.to_set() == jobs_in_status(self.registry(), status),
            jobs@.no_duplicates(),
    {
        self.collect_registered(Some(status))
    }

    fn collect_registered(&self, status: Option<JobStatus>) -> (jobs: Vec<SigbotWorkflowNodeJob>)
        requires
            self.wf(),
        ensures
            jobs@.to_set() == registered_jobs(self.registry(), status),
            jobs@.no_duplicates(),
    {
        let mut result: Vec<SigbotWorkflowNodeJob> = Vec::new();
        let ghost reg = self.registry();
        let ghost keys = vstd::std_specs::hash::spec_keys_iter(&self.job_registry).remaining().unref();
        let ghost mut done_keys: Seq<i64> = Seq::empty();
        proof {
            assert(keys.no_duplicates());
        }
        assert(result@.to_set() =~= Set::<SigbotWorkflowNodeJob>::empty());
        for w in it: self.job_registry.keys()
            invariant
                self.wf(),
                reg == self.registry(),
                it.seq().unref() == keys,
                keys.to_set() == self.job_registry@.dom(),
                done_keys == it.seq().take(it.index() as int).unref(),
                keys.no_duplicates(),
                result@.no_duplicates(),
                result@.to_set() == Set::new(
                    |j: SigbotWorkflowNodeJob|
                        registered_jobs(reg, status).contains(j) && done_keys.contains(j.workflow_id),
                ),
        {
            let ghost before = result@.to_set();
            let ghost done = done_keys;
            let ghost wid = *w;
            assert(it.seq().take(it.index() + 1).unref() =~= done.push(wid));
            assert(keys.contains(wid)) by {
                assert(keys[it.index()] == wid);
            }
            assert(!done.contains(wid)) by {
                if done.contains(wid) {
                    let k = choose|k: int| 0 <= k < done.len() && done[k] == wid;
                    assert(keys[k] == wid && keys[it.index() as int] == wid);
                }
            }
            match self.job_registry.get(w) {
                Some(node_map) => {
                    let ghost inner = node_map@;
                    proof {
                        assert forall|n: i64| #[trigger] inner.contains_key(n) implies inner[n].node_id == n by {
                            assert(self.job_registry@[wid]@.contains_key(n));
                        }
                    }
                    let jobs = collect_jobs(node_map);
                    proof {
                        assert forall|k: int| 0 <= k < jobs@.len() implies (#[trigger] jobs@[k]).workflow_id == wid by {
                            assert(jobs@.to_set().contains(jobs@[k]));
                            assert(inner.values().contains(jobs@[k]));
                            let n = choose|n: i64| #[trigger] inner.contains_key(n) && inner[n] == jobs@[k];
                            assert(self.job_registry@[wid]@.contains_key(n));
                        }
                    }
                    let mut i: usize = 0;
                    while i < jobs.len()
                        invariant
                            0 <= i <= jobs.len(),
                            jobs_list_of(jobs@, inner),
                            jobs@.no_duplicates(),
                            forall|k: int| 0 <= k < jobs@.len() ==> (#[trigger] jobs@[k]).workflow_id == wid,
                            !done.contains(wid),
                            forall|x: SigbotWorkflowNodeJob| #[trigger] before.contains(x) ==> done.contains(x.workflow_id),
                            result@.no_duplicates(),
                            result@.to_set() == before.union(Set::new(
                                |j: SigbotWorkflowNodeJob| status_passes(status, j.status) && jobs@.take(i as int).contains(j),
                            )),
                        decreases jobs.len() - i,
                    {
                        let job = jobs[i];
                        let ghost prev = result@;
                        proof {
                            if prev.contains(job) {
                                assert(prev.to_set().contains(job));
                                if before.contains(job) {
                                    assert(done.contains(job.workflow_id));
                                } else {
                                    assert(jobs@.take(i as int).contains(job));
                                    let k = choose|k: int| 0 <= k < i && jobs@.take(i as int)[k] == job;
                                    assert(jobs@[k] == jobs@[i as int]);
                                }
                            }
                        }
                        let passes = match status {
                            Some(f) => job.status == f,
                            None => true,
                        };
                        if passes {
                            result.push(job);
                        }
                        i += 1;
                        proof {
                            lemma_push_contains(prev, job);
                            lemma_take_push_contains(jobs@, i as int);
                            assert(result@.to_set() =~= before.union(Set::new(
                                |j: SigbotWorkflowNodeJob| status_passes(status, j.status) && jobs@.take(i as int).contains(j),
                            )));
                        }
                    }
                    proof {
                        assert(jobs@.take(i as int) =~= jobs@);
                        lemma_push_contains(done, wid);
                        assert forall|j: SigbotWorkflowNodeJob| #[trigger] result@.to_set().contains(j)
                            == (registered_jobs(reg, status).contains(j) && done.push(wid).contains(j.workflow_id)) by {
                            if status_passes(status, j.status) && jobs@.contains(j) {
                                assert(jobs@.to_set().contains(j));
                                assert(inner.values().contains(j));
                                let n = choose|n: i64| #[trigger] inner.contains_key(n) && inner[n] == j;
                                assert(self.job_registry@.contains_key(wid));
                                assert(self.job_registry@[wid]@.contains_key(n));
                            }
                            if registered_jobs(reg, status).contains(j) && j.workflow_id == wid {
                                assert(inner.contains_key(j.node_id));
                                assert(inner.values().contains(j));
                                assert(jobs@.to_set().contains(j));
                            }
                        }
                        assert(result@.to_set() =~= Set::new(
                            |j: SigbotWorkflowNodeJob|
                                registered_jobs(reg, status).contains(j) && done.push(wid).contains(j.workflow_id),
                        ));
                        done_keys = done.push(wid);
                    }
                },
                None => {
                    assert(false);
                },
            }
        }
        proof {
            assert(done_keys =~= keys);
            assert(result@.to_set() == Set::new(
                |j: SigbotWorkflowNodeJob| registered_jobs(reg, status).contains(j) && keys.contains(j.workflow_id),
            ));
            assert forall|j: SigbotWorkflowNodeJob| #[trigger] result@.to_set().contains(j)
                == registered_jobs(reg, status).contains(j) by {
                if registered_jobs(reg, status).contains(j) {
                    assert(keys.to_set().contains(j.workflow_id));
                }
            }
            assert(result@.to_set() =~= registered_jobs(reg, status));
        }
        result
    }


    /// Changes the status of a registered job; returns whether the job was registered.
    pub fn set_node_status(&mut self, workflow_id: i64, node_id: i64, status: JobStatus) -> (found: bool)
        requires
            old(self).wf(),
        ensures
            final(self).wf(),
            found == (old(self).registry().contains_key(workflow_id)
                && old(self).registry()[workflow_id].contains_key(node_id)),
            found ==> final(self).registry() == old(self).registry().insert(
                workflow_id,
                old(self).registry()[workflow_id].insert(
                    node_id,
                    SigbotWorkflowNodeJob { workflow_id, node_id, status },
                ),
            ),
            !found ==> final(self).registry() == old(self).registry(),
            final(self).spec_schedule_cron() == old(self).spec_schedule_cron(),
            final(self).spec_schedule_channels() == old(self).spec_schedule_channels(),
    {
        let ghost old_reg = self.registry();
        match self.job_registry.remove(&workflow_id) {
            Some(mut node_map) => {
                if node_map.contains_key(&node_id) {
                    node_map.insert(node_id, SigbotWorkflowNodeJob { workflow_id, node_id, status });
                    proof {
                        assert(node_map@.dom() =~= old_reg[workflow_id].dom());
                    }
                    self.job_registry.insert(workflow_id, node_map);
                    assert(self.registry() =~= old_reg.insert(
                        workflow_id,
                        old_reg[workflow_id].insert(node_id, SigbotWorkflowNodeJob { workflow_id, node_id, status }),
                    ));
                    true
                } else {
                    self.job_registry.insert(workflow_id, node_map);
                    assert(self.registry() =~= old_reg);
                    false
                }
            },
            None => {
                assert(self.registry() =~= old_reg);
                false
            },
        }
    }

    /// Marks every job of a workflow STOPPING and returns them, ready to be stopped.
    pub fn begin_stop(&mut self, workflow_id: i64) -> (jobs: Vec<SigbotWorkflowNodeJob>)
        requires
            old(self).wf(),
        ensures
            final(self).wf(),
            old(self).registry().contains_key(workflow_id) ==> {
                &&& final(self).registry() == old(self).registry().insert(
                    workflow_id,
                    with_status(old(self).registry()[workflow_id], JobStatus::STOPPING),
                )
                &&& jobs_list_of(jobs@, final(self).registry()[workflow_id])
            },
            !old(self).registry().contains_key(workflow_id) ==> {
                &&& final(self).registry() == old(self).registry()
                &&& jobs@.len() == 0
            },
            final(self).spec_schedule_cron() == old(self).spec_schedule_cron(),
            final(self).spec_schedule_channels() == old(self).spec_schedule_channels(),
    {
        let ghost old_reg = self.registry();
        match self.job_registry.remove(&workflow_id) {
            Some(node_map) => {
                let ghost inner = node_map@;
                let old_jobs = collect_jobs(&node_map);
                let mut updated: HashMap<i64, SigbotWorkflowNodeJob> = HashMap::new();
                let mut i: usize = 0;
                while i < old_jobs.len()
                    invariant
                        0 <= i <= old_jobs.len(),
                        jobs_list_of(old_jobs@, inner),
                        forall|n: i64| #[trigger] inner.contains_key(n)
                            ==> inner[n].workflow_id == workflow_id && inner[n].node_id == n,
                        forall|n: i64| #[trigger] updated@.contains_key(n) <==>
                            exists|k: int| 0 <= k < i && old_jobs@[k].node_id == n,
                        forall|n: i64| #[trigger] updated@.contains_key(n) ==>
                            updated@[n] == (SigbotWorkflowNodeJob { workflow_id, node_id: n, status: JobStatus::STOPPING }),
                    decreases old_jobs.len() - i,
                {
                    let job = old_jobs[i];
                    assert(old_jobs@.to_set().contains(job));
                    assert(inner.values().contains(job));
                    updated.insert(job.node_id, SigbotWorkflowNodeJob { workflow_id, node_id: job.node_id, status: JobStatus::STOPPING });
                    i += 1;
                    proof {
                        assert forall|n: i64| #[trigger] updated@.contains_key(n) <==>
                            exists|k: int| 0 <= k < i && old_jobs@[k].node_id == n by {
                            if updated@.contains_key(n) && n != job.node_id {
                                let k = choose|k: int| 0 <= k < i - 1 && old_jobs@[k].node_id == n;
                                assert(0 <= k < i && old_jobs@[k].node_id == n);
                            }
                            if n == job.node_id {
                                assert(old_jobs@[i - 1].node_id == n);
                            }
                        }
                    }
                }
                proof {
                    assert forall|n: i64| #[trigger] updated@.contains_key(n) <==> inner.contains_key(n) by {
                        if inner.contains_key(n) {
                            assert(inner.values().contains(inner[n]));
                            assert(old_jobs@.to_set().contains(inner[n]));
                            let k = choose|k: int| 0 <= k < old_jobs@.len() && old_jobs@[k] == inner[n];
                            assert(old_jobs@[k].node_id == n);
                        }
                        if updated@.contains_key(n) {
                            let k = choose|k: int| 0 <= k < i && old_jobs@[k].node_id == n;
                            assert(old_jobs@.to_set().contains(old_jobs@[k]));
                            assert(inner.values().contains(old_jobs@[k]));
                            let m = choose|m: i64| #[trigger] inner.contains_key(m) && inner[m] == old_jobs@[k];
                            assert(m == n);
                        }
                    }
                    assert(updated@ =~= with_status(inner, JobStatus::STOPPING));
                    assert(updated@.dom() =~= inner.dom());
                }
                let jobs = collect_jobs(&updated);
                self.job_registry.insert(workflow_id, updated);
                assert(self.registry() =~= old_reg.insert(workflow_id, with_status(inner, JobStatus::STOPPING)));
                jobs
            },
            None => {
                assert(self.registry() =~= old_reg);
                Vec::new()
            },
        }
    }

    /// Registers a STARTING job for each node of the stage that the workflow's flow defines,
    /// and returns those nodes in stage order. Nodes the flow lacks are skipped.
    pub fn begin_start(
        &mut self,
        workflow_id: i64,
        stage_node_ids: &Vec<i64>,
        flow_node_ids: &Vec<i64>,
    ) -> (targets: Vec<i64>)
        requires
            old(self).wf(),
            !old(self).registry().contains_key(workflow_id),
        ensures
            final(self).wf(),
            targets@ == start_targets(stage_node_ids@, flow_node_ids@),
            targets@.len() == 0 ==> final(self).registry() == old(self).registry(),
            targets@.len() > 0 ==> final(self).registry() == old(self).registry().insert(
                workflow_id,
                starting_jobs(workflow_id, targets@),
            ),
            final(self).spec_schedule_cron() == old(self).spec_schedule_cron(),
            final(self).spec_schedule_channels() == old(self).spec_schedule_channels(),
    {
        let ghost old_reg = self.registry();
        let mut targets: Vec<i64> = Vec::new();
        let mut i: usize = 0;
        assert(stage_node_ids@.take(0) =~= Seq::<i64>::empty());
        while i < stage_node_ids.len()
            invariant
                0 <= i <= stage_node_ids.len(),
                self.wf(),
                old(self).registry() == old_reg,
                !old_reg.contains_key(workflow_id),
                targets@ == start_targets(stage_node_ids@.take(i as int), flow_node_ids@),
                targets@.len() == 0 ==> self.registry() == old_reg,
                targets@.len() > 0 ==> self.registry() == old_reg.insert(
                    workflow_id,
                    starting_jobs(workflow_id, targets@),
                ),
                self.spec_schedule_cron() == old(self).spec_schedule_cron(),
                self.spec_schedule_channels() == old(self).spec_schedule_channels(),
            decreases stage_node_ids.len() - i,
        {
            let node_id = stage_node_ids[i];
            assert(stage_node_ids@.take(i + 1).drop_last() =~= stage_node_ids@.take(i as int));
            if contains_i64(flow_node_ids, node_id) {
                let ghost before = self.registry();
                let ghost old_targets = targets@;
                let mut job = SigbotWorkflowNodeJob::new(workflow_id, node_id);
                job.set_status(JobStatus::STARTING);
                assert(job == SigbotWorkflowNodeJob { workflow_id, node_id, status: JobStatus::STARTING });
                self.register_job(job);
                targets.push(node_id);
                proof {
                    lemma_push_contains(old_targets, node_id);
                    if old_targets.len() == 0 {
                        assert(starting_jobs(workflow_id, targets@) =~= Map::<i64, SigbotWorkflowNodeJob>::empty().insert(node_id, job));
                    } else if old_targets.contains(node_id) {
                        assert(starting_jobs(workflow_id, targets@) =~= starting_jobs(workflow_id, old_targets));
                    } else {
                        assert(starting_jobs(workflow_id, targets@) =~= starting_jobs(workflow_id, old_targets).insert(node_id, job));
                    }
                    assert(self.registry() =~= old_reg.insert(workflow_id, starting_jobs(workflow_id, targets@)));
                }
            }
            i += 1;
        }
        assert(stage_node_ids@.take(i as int) =~= stage_node_ids@);
        targets
    }

    /// Removes and returns every registered job, leaving the registry empty.
    pub fn take_all_jobs(&mut self) -> (jobs: Vec<SigbotWorkflowNodeJob>)
        requires
            old(self).wf(),
        ensures
            final(self).wf(),
            final(self).registry() == Map::<i64, Map<i64, SigbotWorkflowNodeJob>>::empty(),
            jobs@.to_set() == registered_jobs(old(self).registry(), None),
            jobs@.no_duplicates(),
            final(self).spec_schedule_cron() == old(self).spec_schedule_cron(),
            final(self).spec_schedule_channels() == old(self).spec_schedule_channels(),
    {
        let jobs = self.collect_registered(None);
        self.job_registry.clear();
        assert(self.registry() =~= Map::<i64, Map<i64, SigbotWorkflowNodeJob>>::empty());
        jobs
    }

    /// Whether any job of the workflow is registered.
    pub fn has_node_jobs(&self, workflow_id: i64) -> (b: bool)
        requires
            self.wf(),
        ensures
            b == self.registry().contains_key(workflow_id),
    {
        self.job_registry.contains_key(&workflow_id)
    }
}


/// What the scan learns from outside, one step at a time. The scan offers each
/// workflow found to stop (`StopCandidate`) before each workflow found to start
/// (`StartCandidate`); the other events report what the previous action led to.
#[derive(Clone, Debug)]
pub enum ScanEvent {
    /// A workflow that its store marks to be stopped.
    StopCandidate { workflow_id: i64 },
    /// A node's stop ended; `stopped` tells whether it succeeded.
    NodeStopped { workflow_id: i64, node_id: i64, stopped: bool },
    /// A workflow that its store marks to be started.
    StartCandidate { workflow_id: i64 },
    /// The start lock of a workflow was asked for; with the workflow's stage
    /// nodes and the nodes its flow defines.
    StartLock { workflow_id: i64, acquired: bool, stage_node_ids: Vec<i64>, flow_node_ids: Vec<i64> },
    /// A node's start ended; `started` tells whether it succeeded.
    NodeStarted { workflow_id: i64, node_id: i64, started: bool },
    /// Every node of a start round has reported.
    StartRoundDone { workflow_id: i64 },
    /// Every node stopped after a failed start has reported.
    RollbackDone { workflow_id: i64 },
}

/// What the scan asks to be done next.
#[derive(Clone, Debug)]
pub enum ScanAction {
    /// Nothing: no start and stop handlers are registered.
    Idle,
    /// Nothing for this workflow.
    Skip,
    /// Record the listed jobs (now STOPPING) and the workflow as STOPPING, then stop each node.
    StopNodes { workflow_id: i64, jobs: Vec<SigbotWorkflowNodeJob> },
    /// Record a node's new status.
    RecordNodeStatus { workflow_id: i64, node_id: i64, status: JobStatus },
    /// Ask for the workflow's start lock.
    AcquireLock { workflow_id: i64, lock_name: String },
    /// Give the lock back without starting anything.
    ReleaseLock { lock_name: String },
    /// Record the workflow and the listed nodes as STARTING, give the lock back,
    /// then start each node in this order.
    StartNodes { workflow_id: i64, node_ids: Vec<i64>, lock_name: String },
    /// Some nodes failed to start: record the listed nodes as STOPPING and stop
    /// them; `jobs` are the workflow's jobs as the round ended.
    RollBack { workflow_id: i64, jobs: Vec<SigbotWorkflowNodeJob>, stop_node_ids: Vec<i64> },
    /// Record the workflow's final status; `jobs` are its jobs as the round ended.
    Finish { workflow_id: i64, status: JobStatus, jobs: Vec<SigbotWorkflowNodeJob> },
}

/// Whether some job of the list has the status.
pub open spec fn has_status(js: Seq<SigbotWorkflowNodeJob>, s: JobStatus) -> bool {
    exists|k: int| 0 <= k < js.len() && (#[trigger] js[k]).status == s
}

/// The nodes of the listed jobs that are RUNNING, in list order.
pub open spec fn running_ids(js: Seq<SigbotWorkflowNodeJob>) -> Seq<i64>
    decreases js.len(),
{
    if js.len() == 0 {
        Seq::empty()
    } else {
        let prev = running_ids(js.drop_last());
        if js.last().status == JobStatus::RUNNING { prev.push(js.last().node_id) } else { prev }
    }
}

/// The registry after the RUNNING jobs of the list are marked STOPPING.
pub open spec fn mark_stopping(reg: JobRegistry, workflow_id: i64, js: Seq<SigbotWorkflowNodeJob>) -> JobRegistry
    decreases js.len(),
{
    if js.len() == 0 {
        reg
    } else {
        let r = mark_stopping(reg, workflow_id, js.drop_last());
        let j = js.last();
        if j.status == JobStatus::RUNNING && job_at(r, workflow_id, j.node_id) is Some {
            r.insert(workflow_id, r[workflow_id].insert(
                j.node_id,
                SigbotWorkflowNodeJob { workflow_id, node_id: j.node_id, status: JobStatus::STOPPING },
            ))
        } else {
            r
        }
    }
}

/// The jobs an action carries, if any.
pub open spec fn action_jobs(act: ScanAction) -> Seq<SigbotWorkflowNodeJob> {
    match act {
        ScanAction::StopNodes { jobs, .. } => jobs@,
        ScanAction::RollBack { jobs, .. } => jobs@,
        ScanAction::Finish { jobs, .. } => jobs@,
        _ => Seq::empty(),
    }
}

impl SigbotWorkflowManager {
    fn round_flags(jobs: &Vec<SigbotWorkflowNodeJob>) -> (r: (bool, bool))
        ensures
            r.0 == has_status(jobs@, JobStatus::FAILED),
            r.1 == has_status(jobs@, JobStatus::RUNNING),
    {
        let mut failed = false;
        let mut running = false;
        let mut i: usize = 0;
        while i < jobs.len()
            invariant
                0 <= i <= jobs.len(),
                failed == exists|k: int| 0 <= k < i && (#[trigger] jobs@[k]).status == JobStatus::FAILED,
                running == exists|k: int| 0 <= k < i && (#[trigger] jobs@[k]).status == JobStatus::RUNNING,
            decreases jobs.len() - i,
        {
            let st = jobs[i].status;
            if st == JobStatus::FAILED {
                failed = true;
            }
            if st == JobStatus::RUNNING {
                running = true;
            }
            i += 1;
        }
        (failed, running)
    }

    fn roll_back(&mut self, workflow_id: i64, jobs: &Vec<SigbotWorkflowNodeJob>) -> (ids: Vec<i64>)
        requires
            old(self).wf(),
        ensures
            final(self).wf(),
            ids@ == running_ids(jobs@),
            final(self).registry() == mark_stopping(old(self).registry(), workflow_id, jobs@),
            final(self).spec_schedule_cron() == old(self).spec_schedule_cron(),
            final(self).spec_schedule_channels() == old(self).spec_schedule_channels(),
    {
        let mut ids: Vec<i64> = Vec::new();
        let mut i: usize = 0;
        proof {
            assert(jobs@.take(0) =~= Seq::<SigbotWorkflowNodeJob>::empty());
        }
        while i < jobs.len()
            invariant
                0 <= i <= jobs.len(),
                self.wf(),
                ids@ == running_ids(jobs@.take(i as int)),
                self.registry() == mark_stopping(old(self).registry(), workflow_id, jobs@.take(i as int)),
                self.spec_schedule_cron() == old(self).spec_schedule_cron(),
                self.spec_schedule_channels() == old(self).spec_schedule_channels(),
            decreases jobs.len() - i,
        {
            let job = jobs[i];
            proof {
                assert(jobs@.take(i + 1).drop_last() =~= jobs@.take(i as int));
                assert(jobs@.take(i + 1).last() == job);
            }
            if job.status == JobStatus::RUNNING {
                self.set_node_status(workflow_id, job.node_id, JobStatus::STOPPING);
                ids.push(job.node_id);
            }
            i += 1;
        }
        proof {
            assert(jobs@.take(i as int) =~= jobs@);
        }
        ids
    }

    /// One step of the periodic scan that starts and stops flow node jobs: from
    /// what was learned (`ev`) to what is to be done next. Without registered
    /// start and stop handlers the scan does nothing. A workflow to stop that
    /// has jobs has them all marked STOPPING; one to start is skipped while it
    /// has jobs, and otherwise needs its start lock first; with the lock, a job
    /// STARTING is registered for each stage node of its flow, and the lock is
    /// given back. Each node's outcome is recorded. A round in which no node
    /// failed leaves the workflow RUNNING; one in which some failed and some
    /// started stops the started ones first; then the workflow's jobs are
    /// unregistered and it is FAILED.
    pub fn scan_step(&mut self, handlers_registered: bool, ev: ScanEvent) -> (act: ScanAction)
        requires
            old(self).wf(),
        ensures
            final(self).wf(),
            final(self).spec_schedule_cron() == old(self).spec_schedule_cron(),
            final(self).spec_schedule_channels() == old(self).spec_schedule_channels(),
            !handlers_registered ==> act is Idle && final(self).registry() == old(self).registry(),
            handlers_registered ==> match ev {
                ScanEvent::StopCandidate { workflow_id } =>
                    if old(self).registry().contains_key(workflow_id) {
                        &&& act matches ScanAction::StopNodes { workflow_id: w, jobs } && w == workflow_id
                        &&& final(self).registry() == old(self).registry().insert(
                            workflow_id,
                            with_status(old(self).registry()[workflow_id], JobStatus::STOPPING),
                        )
                        &&& jobs_list_of(action_jobs(act), final(self).registry()[workflow_id])
                    } else {
                        act is Skip && final(self).registry() == old(self).registry()
                    },
                ScanEvent::NodeStopped { workflow_id, node_id, stopped } => {
                    let st = if stopped { JobStatus::STOPPED } else { JobStatus::FAILED };
                    &&& act == ScanAction::RecordNodeStatus { workflow_id, node_id, status: st }
                    &&& final(self).registry() == (if job_at(old(self).registry(), workflow_id, node_id) is Some {
                        old(self).registry().insert(workflow_id, old(self).registry()[workflow_id].insert(
                            node_id, SigbotWorkflowNodeJob { workflow_id, node_id, status: st }))
                    } else {
                        old(self).registry()
                    })
                },
                ScanEvent::StartCandidate { workflow_id } =>
                    if old(self).registry().contains_key(workflow_id) {
                        act is Skip && final(self).registry() == old(self).registry()
                    } else {
                        &&& act matches ScanAction::AcquireLock { workflow_id: w, lock_name }
                            && w == workflow_id
                            && lock_name@ == "WORKFLOW_START_"@ + crate::text::int_text(workflow_id as int)
                        &&& final(self).registry() == old(self).registry()
                    },
                ScanEvent::StartLock { workflow_id, acquired, stage_node_ids, flow_node_ids } =>
                    if !acquired {
                        act is Skip && final(self).registry() == old(self).registry()
                    } else if old(self).registry().contains_key(workflow_id) {
                        &&& act matches ScanAction::ReleaseLock { lock_name }
                            && lock_name@ == "WORKFLOW_START_"@ + crate::text::int_text(workflow_id as int)
                        &&& final(self).registry() == old(self).registry()
                    } else {
                        let targets = start_targets(stage_node_ids@, flow_node_ids@);
                        &&& act matches ScanAction::StartNodes { workflow_id: w, node_ids, lock_name }
                            && w == workflow_id && node_ids@ == targets
                            && lock_name@ == "WORKFLOW_START_"@ + crate::text::int_text(workflow_id as int)
                        &&& targets.len() == 0 ==> final(self).registry() == old(self).registry()
                        &&& targets.len() > 0 ==> final(self).registry() == old(self).registry().insert(
                            workflow_id, starting_jobs(workflow_id, targets))
                    },
                ScanEvent::NodeStarted { workflow_id, node_id, started } => {
                    let st = if started { JobStatus::RUNNING } else { JobStatus::FAILED };
                    &&& act == ScanAction::RecordNodeStatus { workflow_id, node_id, status: st }
                    &&& final(self).registry() == (if job_at(old(self).registry(), workflow_id, node_id) is Some {
                        old(self).registry().insert(workflow_id, old(self).registry()[workflow_id].insert(
                            node_id, SigbotWorkflowNodeJob { workflow_id, node_id, status: st }))
                    } else {
                        old(self).registry()
                    })
                },
                ScanEvent::StartRoundDone { workflow_id } => {
                    let js = action_jobs(act);
                    &&& (old(self).registry().contains_key(workflow_id) ==> jobs_list_of(js, old(self).registry()[workflow_id]))
                    &&& (!old(self).registry().contains_key(workflow_id) ==> js.len() == 0)
                    &&& (!has_status(js, JobStatus::FAILED) ==> (act matches ScanAction::Finish { workflow_id: w, status, .. }
                        && w == workflow_id && status == JobStatus::RUNNING) && final(self).registry() == old(self).registry())
                    &&& (has_status(js, JobStatus::FAILED) && has_status(js, JobStatus::RUNNING) ==>
                        (act matches ScanAction::RollBack { workflow_id: w, stop_node_ids, .. } && w == workflow_id
                            && stop_node_ids@ == running_ids(js))
                        && final(self).registry() == mark_stopping(old(self).registry(), workflow_id, js))
                    &&& (has_status(js, JobStatus::FAILED) && !has_status(js, JobStatus::RUNNING) ==>
                        (act matches ScanAction::Finish { workflow_id: w, status, .. } && w == workflow_id
                            && status == JobStatus::FAILED)
                        && final(self).registry() == old(self).registry().remove(workflow_id))
                },
                ScanEvent::RollbackDone { workflow_id } => {
                    &&& act matches ScanAction::Finish { workflow_id: w, status, .. } && w == workflow_id
                        && status == JobStatus::FAILED
                    &&& final(self).registry() == old(self).registry().remove(workflow_id)
                    &&& old(self).registry().contains_key(workflow_id) ==> jobs_list_of(action_jobs(act), old(self).registry()[workflow_id])
                    &&& !old(self).registry().contains_key(workflow_id) ==> action_jobs(act).len() == 0
                },
            },
    {
        if !handlers_registered {
            return ScanAction::Idle;
        }
        match ev {
            ScanEvent::StopCandidate { workflow_id } => {
                if self.has_node_jobs(workflow_id) {
                    let jobs = self.begin_stop(workflow_id);
                    ScanAction::StopNodes { workflow_id, jobs }
                } else {
                    ScanAction::Skip
                }
            },
            ScanEvent::NodeStopped { workflow_id, node_id, stopped } => {
                let status = stop_result_status(stopped);
                self.set_node_status(workflow_id, node_id, status);
                ScanAction::RecordNodeStatus { workflow_id, node_id, status }
            },
            ScanEvent::StartCandidate { workflow_id } => {
                if self.has_node_jobs(workflow_id) {
                    ScanAction::Skip
                } else {
                    ScanAction::AcquireLock { workflow_id, lock_name: start_lock_name(workflow_id) }
                }
            },
            ScanEvent::StartLock { workflow_id, acquired, stage_node_ids, flow_node_ids } => {
                if !acquired {
                    ScanAction::Skip
                } else if self.has_node_jobs(workflow_id) {
                    ScanAction::ReleaseLock { lock_name: start_lock_name(workflow_id) }
                } else {
                    let node_ids = self.begin_start(workflow_id, &stage_node_ids, &flow_node_ids);
                    ScanAction::StartNodes { workflow_id, node_ids, lock_name: start_lock_name(workflow_id) }
                }
            },
            ScanEvent::NodeStarted { workflow_id, node_id, started } => {
                let status = start_result_status(started);
                self.set_node_status(workflow_id, node_id, status);
                ScanAction::RecordNodeStatus { workflow_id, node_id, status }
            },
            ScanEvent::StartRoundDone { workflow_id } => {
                let jobs = self.get_node_jobs(workflow_id);
                let (failed, running) = Self::round_flags(&jobs);
                if !failed {
                    ScanAction::Finish { workflow_id, status: JobStatus::RUNNING, jobs }
                } else if running {
                    let stop_node_ids = self.roll_back(workflow_id, &jobs);
                    ScanAction::RollBack { workflow_id, jobs, stop_node_ids }
                } else {
                    self.unregister_workflow_jobs(workflow_id);
                    ScanAction::Finish { workflow_id, status: JobStatus::FAILED, jobs }
                }
            },
            ScanEvent::RollbackDone { workflow_id } => {
                let jobs = self.unregister_workflow_jobs(workflow_id);
                ScanAction::Finish { workflow_id, status: JobStatus::FAILED, jobs }
            },
        }
    }
}

impl SigbotWorkflowManager {
    /// A well-formed manager's registry has no workflow without jobs.
    pub proof fn lemma_registry_ok(&self)
        requires
            self.wf(),
        ensures
            registry_ok(self.registry()),
            ids_consistent(self.registry()),
    {
    }
}

/// Registering a job for a node that has none makes it the node's job;
/// registering another job for a node that has one changes nothing (the
/// first registration stays).
pub proof fn lemma_register_then_lookup(reg: JobRegistry, job: SigbotWorkflowNodeJob, other: SigbotWorkflowNodeJob)
    requires
        other.workflow_id == job.workflow_id,
        other.node_id == job.node_id,
    ensures
        job_at(reg, job.workflow_id, job.node_id) is None ==> job_at(with_job(reg, job), job.workflow_id, job.node_id) == Some(job),
        with_job(with_job(reg, job), other) == with_job(reg, job),
{
}

/// Registering a job leaves the jobs of every other node as they were.
pub proof fn lemma_register_keeps_others(reg: JobRegistry, job: SigbotWorkflowNodeJob, workflow_id: i64, node_id: i64)
    requires
        workflow_id != job.workflow_id || node_id != job.node_id,
    ensures
        job_at(with_job(reg, job), workflow_id, node_id) == job_at(reg, workflow_id, node_id),
{
}

/// Removing the job of a node that was just registered gives back the
/// registry as it was before.
pub proof fn lemma_unregister_undoes_register(reg: JobRegistry, job: SigbotWorkflowNodeJob)
    requires
        registry_ok(reg),
        job_at(reg, job.workflow_id, job.node_id) is None,
    ensures
        without_job(with_job(reg, job), job.workflow_id, job.node_id) == reg,
        registry_ok(with_job(reg, job)),
{
    let w = job.workflow_id;
    let n = job.node_id;
    let reg2 = with_job(reg, job);
    if reg.contains_key(w) {
        let inner = reg[w];
        assert(!inner.contains_key(n));
        assert(inner.insert(n, job).dom() == inner.dom().insert(n));
        assert(inner.insert(n, job).dom().len() == inner.dom().len() + 1);
        assert(inner.insert(n, job).remove(n) =~= inner);
        assert(reg2.insert(w, reg2[w].remove(n)) =~= reg);
    } else {
        let inner = Map::<i64, SigbotWorkflowNodeJob>::empty().insert(n, job);
        assert(inner.dom() =~= Set::<i64>::empty().insert(n));
        assert(inner.dom().len() == 1);
        assert(reg2.remove(w) =~= reg);
    }
    assert forall|x: i64| #[trigger] reg2.contains_key(x) implies reg2[x].dom().finite() && reg2[x].dom().len() > 0 by {
        if x == w {
            if reg.contains_key(w) {
                assert(reg2[w].dom() == reg[w].dom().insert(n));
            } else {
                assert(reg2[w].dom() =~= Set::<i64>::empty().insert(n));
            }
        }
    }
}

/// How many of the results are `true`.
pub open spec fn count_true(results: Seq<bool>) -> nat
    decreases results.len(),
{
    if results.len() == 0 {
        0
    } else {
        count_true(results.drop_last()) + if results.last() { 1nat } else { 0nat }
    }
}

/// What a round of node starts of one workflow amounted to.
#[derive(Clone, Copy, Debug)]
pub struct StartSummary {
    /// Nodes that started.
    pub success_count: usize,
    /// Nodes that failed to start.
    pub failure_count: usize,
    /// Whether the nodes that did start must be stopped again.
    pub rollback: bool,
    /// The status the workflow is given.
    pub workflow_status: JobStatus,
}

/// Sums up the start results of a workflow's nodes, in start order. When any node
/// failed, the nodes that started are stopped again and the workflow is FAILED;
/// otherwise it is RUNNING.
pub fn summarize_start(results: &Vec<bool>) -> (sum: StartSummary)
    ensures
        sum.success_count == count_true(results@),
        sum.success_count + sum.failure_count == results@.len(),
        sum.rollback == (sum.failure_count > 0 && sum.success_count > 0),
        sum.workflow_status == (if sum.failure_count == 0 { JobStatus::RUNNING } else { JobStatus::FAILED }),
{
    let mut success_count: usize = 0;
    let mut failure_count: usize = 0;
    let mut i: usize = 0;
    while i < results.len()
        invariant
            0 <= i <= results.len(),
            success_count == count_true(results@.take(i as int)),
            success_count + failure_count == i,
        decreases results.len() - i,
    {
        assert(results@.take(i + 1).drop_last() =~= results@.take(i as int));
        if results[i] {
            success_count += 1;
        } else {
            failure_count += 1;
        }
        i += 1;
    }
    assert(results@.take(i as int) =~= results@);
    let workflow_status = if failure_count == 0 { JobStatus::RUNNING } else { JobStatus::FAILED };
    StartSummary {
        success_count,
        failure_count,
        rollback: failure_count > 0 && success_count > 0,
        workflow_status,
    }
}

/// A node that started runs; one that did not has failed.
pub fn start_result_status(started: bool) -> (s: JobStatus)
    ensures
        s == (if started { JobStatus::RUNNING } else { JobStatus::FAILED }),
{
    if started { JobStatus::RUNNING } else { JobStatus::FAILED }
}

/// A node that stopped is STOPPED; one that could not be stopped has failed.
pub fn stop_result_status(stopped: bool) -> (s: JobStatus)
    ensures
        s == (if stopped { JobStatus::STOPPED } else { JobStatus::FAILED }),
{
    if stopped { JobStatus::STOPPED } else { JobStatus::FAILED }
}

/// Name of the distributed lock that guards the periodic scan.
pub fn scan_lock_name() -> (s: String)
    ensures
        s@ == "WORKFLOW_MANAGER"@,
{
    crate::text::copy_str("WORKFLOW_MANAGER")
}

/// Name of the distributed lock that guards starting one workflow.
pub fn start_lock_name(workflow_id: i64) -> (s: String)
    ensures
        s@ == "WORKFLOW_START_"@ + crate::text::int_text(workflow_id as int),
{
    let id = crate::text::i64_text(workflow_id);
    crate::text::concat2("WORKFLOW_START_", id.as_str())
}

/// The workflow id a stored workflow is known by; one never stored counts as 0.
pub fn workflow_id_of(id: Option<i64>) -> (r: i64)
    ensures
        r == (match id {
            Some(v) => v,
            None => 0,
        }),
{
    match id {
        Some(v) => v,
        None => 0,
    }
}

/// A query with named parameters and the text bound to each of them.
pub struct NamedQuery {
    pub sql: String,
    pub params: Vec<(String, String)>,
}

/// Pending workflows, and running ones that have not been refreshed for 180 seconds.
pub fn find_start_jobs_query() -> (q: NamedQuery)
    ensures
        q.sql@ == "SELECT * FROM s_workflow WHERE del_flag = FALSE AND (status = :PENDING OR (status = :RUNNING AND updated_at < NOW() - INTERVAL :TIMEOUT seconds))"@,
        q.params@.len() == 3,
        q.params@[0].0@ == "PENDING"@ && q.params@[0].1@ == job_status_text(JobStatus::PENDING),
        q.params@[1].0@ == "RUNNING"@ && q.params@[1].1@ == job_status_text(JobStatus::RUNNING),
        q.params@[2].0@ == "TIMEOUT"@ && q.params@[2].1@ == "180"@,
{
    let sql = crate::text::copy_str(
        "SELECT * FROM s_workflow WHERE del_flag = FALSE AND (status = :PENDING OR (status = :RUNNING AND updated_at < NOW() - INTERVAL :TIMEOUT seconds))",
    );
    let mut params: Vec<(String, String)> = Vec::new();
    params.push((crate::text::copy_str("PENDING"), crate::text::copy_str(JobStatus::PENDING.as_str())));
    params.push((crate::text::copy_str("RUNNING"), crate::text::copy_str(JobStatus::RUNNING.as_str())));
    params.push((crate::text::copy_str("TIMEOUT"), crate::text::copy_str("180")));
    NamedQuery { sql, params }
}

/// Workflows that are being stopped.
pub fn find_stop_jobs_query() -> (q: NamedQuery)
    ensures
        q.sql@ == "SELECT * FROM s_workflow WHERE del_flag = 0 AND status = :STOPPING"@,
        q.params@.len() == 1,
        q.params@[0].0@ == "STOPPING"@ && q.params@[0].1@ == job_status_text(JobStatus::STOPPING),
{
    let sql = crate::text::copy_str("SELECT * FROM s_workflow WHERE del_flag = 0 AND status = :STOPPING");
    let mut params: Vec<(String, String)> = Vec::new();
    params.push((crate::text::copy_str("STOPPING"), crate::text::copy_str(JobStatus::STOPPING.as_str())));
    NamedQuery { sql, params }
}

/// A node of a stored workflow's flow, with the status last recorded for it.
#[derive(Clone, Debug)]
pub struct FlowNode {
    pub id: String,
    pub status: Option<String>,
}

/// The refusal of a status update for a workflow that the store does not hold.
pub open spec fn workflow_not_found_text(workflow_id: int) -> Seq<char> {
    "Workflow with id "@ + crate::text::int_text(workflow_id) + " not found"@
}

/// The workflow a status update rewrites: the first record that the lookup
/// by `workflow_id` selected, or the refusal when it selected none.
pub fn workflow_for_update<T>(selected: Vec<T>, workflow_id: i64) -> (r: Result<T, String>)
    ensures
        selected@.len() == 0 <==> r is Err,
        r matches Ok(x) ==> x == selected@[0],
        r matches Err(m) ==> m@ == workflow_not_found_text(workflow_id as int),
{
    let mut v = selected;
    if v.len() > 0 {
        Ok(v.remove(0))
    } else {
        let id = crate::text::i64_text(workflow_id);
        Err(crate::text::concat3("Workflow with id ", id.as_str(), " not found"))
    }
}

/// Records `status` on the first node of the flow whose id is `node_id`;
/// returns whether such a node exists. Other nodes are left as they are.
pub fn update_flow_node_status(nodes: &mut Vec<FlowNode>, node_id: &str, status: &str) -> (found: bool)
    ensures
        final(nodes)@.len() == old(nodes)@.len(),
        found == (exists|k: int| 0 <= k < old(nodes)@.len() && #[trigger] old(nodes)@[k].id@ == node_id@),
        forall|k: int| 0 <= k < old(nodes)@.len() ==> #[trigger] final(nodes)@[k].id@ == old(nodes)@[k].id@,
        forall|k: int| 0 <= k < old(nodes)@.len() ==> {
            let first = (forall|m: int| 0 <= m < k ==> #[trigger] old(nodes)@[m].id@ != node_id@);
            if #[trigger] final(nodes)@[k].id@ == node_id@ && first {
                final(nodes)@[k].status matches Some(st) && st@ == status@
            } else {
                final(nodes)@[k].status == old(nodes)@[k].status
            }
        },
{
    let mut i: usize = 0;
    while i < nodes.len()
        invariant
            0 <= i <= nodes.len(),
            nodes@ == old(nodes)@,
            forall|m: int| 0 <= m < i ==> #[trigger] old(nodes)@[m].id@ != node_id@,
        decreases nodes.len() - i,
    {
        if crate::text::str_eq(nodes[i].id.as_str(), node_id) {
            let ghost before = nodes@;
            let id = nodes[i].id.clone();
            nodes.set(i, FlowNode { id, status: Some(crate::text::copy_str(status)) });
            assert(old(nodes)@[i as int].id@ == node_id@);
            return true;
        }
        i += 1;
    }
    false
}

/// Removing a node's job hands back the job the node had and leaves the node
/// without one; the workflow keeps an entry exactly when one of its jobs is
/// for another node (a workflow's job list tells which), and every other
/// workflow keeps its jobs.
pub proof fn lemma_unregister_node_job(
    reg: JobRegistry,
    workflow_id: i64,
    node_id: i64,
    jobs: Seq<SigbotWorkflowNodeJob>,
)
    requires
        registry_ok(reg),
        ids_consistent(reg),
        reg.contains_key(workflow_id) ==> jobs_list_of(jobs, reg[workflow_id]),
    ensures
        job_at(without_job(reg, workflow_id, node_id), workflow_id, node_id) is None,
        registry_ok(without_job(reg, workflow_id, node_id)),
        ids_consistent(without_job(reg, workflow_id, node_id)),
        reg.contains_key(workflow_id) ==> (without_job(reg, workflow_id, node_id).contains_key(workflow_id)
            <==> exists|k: int| 0 <= k < jobs.len() && #[trigger] jobs[k].node_id != node_id),
        !reg.contains_key(workflow_id) ==> without_job(reg, workflow_id, node_id) == reg,
        forall|w: i64| w != workflow_id ==> (#[trigger] without_job(reg, workflow_id, node_id).contains_key(w)
            == reg.contains_key(w)),
        forall|w: i64| w != workflow_id && reg.contains_key(w) ==> #[trigger] without_job(reg, workflow_id, node_id)[w] == reg[w],
{
    let r = without_job(reg, workflow_id, node_id);
    if reg.contains_key(workflow_id) {
        let m = reg[workflow_id];
        assert(m.dom().finite() && m.dom().len() > 0);
        let other = exists|k: int| 0 <= k < jobs.len() && #[trigger] jobs[k].node_id != node_id;
        if m.contains_key(node_id) {
            if m.dom().len() == 1 {
                assert(m.dom() =~= set![node_id]) by {
                    assert forall|x: i64| m.dom().contains(x) implies x == node_id by {
                        if x != node_id {
                            assert(m.dom().remove(node_id).contains(x));
                            assert(m.dom().remove(node_id).len() == 0);
                        }
                    }
                }
                if other {
                    let k = choose|k: int| 0 <= k < jobs.len() && #[trigger] jobs[k].node_id != node_id;
                    assert(jobs.to_set().contains(jobs[k]));
                    assert(m.values().contains(jobs[k]));
                    let x = choose|x: i64| #[trigger] m.contains_key(x) && m[x] == jobs[k];
                    assert(x == node_id);
                }
            } else {
                let rest = m.dom().remove(node_id);
                assert(rest.finite() && rest.len() > 0);
                let x = rest.choose();
                assert(rest.contains(x));
                assert(m.values().contains(m[x]));
                assert(jobs.to_set().contains(m[x]));
                let k = choose|k: int| 0 <= k < jobs.len() && jobs[k] == m[x];
                assert(jobs[k].node_id == x);
                assert(r[workflow_id].dom() =~= m.dom().remove(node_id));
            }
        } else {
            let x = m.dom().choose();
            assert(m.dom().contains(x));
            assert(m.values().contains(m[x]));
            assert(jobs.to_set().contains(m[x]));
            let k = choose|k: int| 0 <= k < jobs.len() && jobs[k] == m[x];
            assert(jobs[k].node_id == x);
        }
    }
}

} // verus!
