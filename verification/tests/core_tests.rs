use sigbot::log_query::{
    like_pattern, mongo_search_filter_of, mongo_stats_filter_of, mongo_tail_filter_of, position_filter_of,
    search_queries, stats_queries, tail_query, FieldCond, LogBind, LogFilters,
};
use sigbot::schedule::resolve_schedule;
use sigbot::sql_params::{prepare_postgres_query, prepare_sqlite_query};
use sigbot::tenant::{
    check_derived_pair, check_generated_pair, check_provided_key, cloud_managed, finish_enable_cloud, save_response,
    system_master_key,
    finish_new_tenant_keys, plan_existing_keys, plan_keys, ExistingKeyPlan, KeyPair, KeyPlan, SaveTenantKeyRequest,
    TenantKeyError, TenantKeyFields,
};
use sigbot::workflow::{
    find_start_jobs_query, find_stop_jobs_query, scan_lock_name, start_lock_name, start_result_status,
    stop_result_status, summarize_start, update_flow_node_status, workflow_for_update, workflow_id_of, FlowNode, JobStatus,
    ScanAction, ScanEvent, SigbotWorkflowManager, SigbotWorkflowNodeJob,
};

fn filters() -> LogFilters {
    LogFilters {
        service_name: None,
        log_type: None,
        level: None,
        source: None,
        tags: None,
        keyword: None,
        has_start_time: false,
        has_end_time: false,
    }
}

#[test]
fn job_status_texts() {
    assert_eq!(JobStatus::PENDING.as_str(), "PENDING");
    assert_eq!(JobStatus::STOPPING.as_str(), "STOPPING");
    assert_eq!(JobStatus::FAILED.as_str(), "FAILED");
}

#[test]
fn registry_first_job_wins_and_unregister() {
    let mut m = SigbotWorkflowManager::new(None, None);
    let mut j = SigbotWorkflowNodeJob::new(1, 10);
    j.set_status(JobStatus::RUNNING);
    m.register_job(j);
    m.register_job(SigbotWorkflowNodeJob::new(1, 10));
    m.register_job(SigbotWorkflowNodeJob::new(1, 11));
    assert_eq!(m.get_node_job(1, 10).unwrap().get_status(), JobStatus::RUNNING);
    assert_eq!(m.get_node_jobs(1).len(), 2);
    assert!(m.has_node_jobs(1));
    assert_eq!(m.get_node_jobs_by_status(JobStatus::PENDING).len(), 1);
    assert!(m.unregister_node_job(1, 10).is_some());
    assert!(m.unregister_node_job(1, 10).is_none());
    assert!(m.unregister_node_job(1, 11).is_some());
    assert!(!m.has_node_jobs(1));
}

#[test]
fn workflow_start_and_stop() {
    let mut m = SigbotWorkflowManager::new(Some("0/5 * * * * *".to_string()), Some(3));
    let targets = m.begin_start(7, &vec![1, 2, 3], &vec![3, 1]);
    assert_eq!(targets, vec![1, 3]);
    assert_eq!(m.get_node_job(7, 1).unwrap().get_status(), JobStatus::STARTING);
    assert!(m.get_node_job(7, 2).is_none());
    assert!(m.set_node_status(7, 3, JobStatus::RUNNING));
    assert!(!m.set_node_status(7, 2, JobStatus::RUNNING));
    let stopping = m.begin_stop(7);
    assert_eq!(stopping.len(), 2);
    assert!(stopping.iter().all(|j| j.get_status() == JobStatus::STOPPING));
    let removed = m.unregister_workflow_jobs(7);
    assert_eq!(removed.len(), 2);
    assert!(!m.has_node_jobs(7));
    m.register_job(SigbotWorkflowNodeJob::new(8, 1));
    assert_eq!(m.take_all_jobs().len(), 1);
    assert!(!m.has_node_jobs(8));
}

#[test]
fn start_summary() {
    let s = summarize_start(&vec![true, true]);
    assert_eq!((s.success_count, s.failure_count, s.rollback), (2, 0, false));
    assert_eq!(s.workflow_status, JobStatus::RUNNING);
    let s = summarize_start(&vec![true, false, true]);
    assert_eq!((s.success_count, s.failure_count, s.rollback), (2, 1, true));
    assert_eq!(s.workflow_status, JobStatus::FAILED);
    assert_eq!(start_result_status(true), JobStatus::RUNNING);
    assert_eq!(start_result_status(false), JobStatus::FAILED);
    assert_eq!(stop_result_status(true), JobStatus::STOPPED);
}

#[test]
fn workflow_names_and_queries() {
    assert_eq!(scan_lock_name(), "WORKFLOW_MANAGER");
    assert_eq!(start_lock_name(12), "WORKFLOW_START_12");
    assert_eq!(workflow_id_of(None), 0);
    let q = find_start_jobs_query();
    assert_eq!(q.params[2], ("TIMEOUT".to_string(), "180".to_string()));
    let q = find_stop_jobs_query();
    assert_eq!(q.sql, "SELECT * FROM s_workflow WHERE del_flag = 0 AND status = :STOPPING");
    assert_eq!(q.params, vec![("STOPPING".to_string(), "STOPPING".to_string())]);
}

#[test]
fn flow_node_status_first_match() {
    let mut nodes = vec![
        FlowNode { id: "a".to_string(), status: None },
        FlowNode { id: "b".to_string(), status: None },
        FlowNode { id: "b".to_string(), status: Some("old".to_string()) },
    ];
    assert!(update_flow_node_status(&mut nodes, "b", "RUNNING"));
    assert_eq!(nodes[1].status.as_deref(), Some("RUNNING"));
    assert_eq!(nodes[2].status.as_deref(), Some("old"));
    assert!(!update_flow_node_status(&mut nodes, "z", "X"));
}

#[test]
fn schedule_resolution() {
    let (cron, ch) = resolve_schedule(&None, &None, None, None);
    assert_eq!((cron.as_str(), ch), ("0/30 * * * * *", 5));
    let (cron, ch) = resolve_schedule(&Some("0/10 * * * * *".to_string()), &Some("0/20 * * * * *".to_string()), None, Some(8));
    assert_eq!((cron.as_str(), ch), ("0/10 * * * * *", 8));
    let (cron, _) = resolve_schedule(&Some("not a cron".to_string()), &None, Some(1), None);
    assert_eq!(cron, "0/30 * * * * *");
}

#[test]
fn sqlite_named_params() {
    let q = prepare_sqlite_query(
        "SELECT * FROM t WHERE a = :a AND b = :b AND c = :a",
        &vec!["a".to_string(), "c".to_string()],
    );
    assert_eq!(q.sql, "SELECT * FROM t WHERE a = ? AND b = :b AND c = ?");
    assert_eq!(q.bind_names, vec!["a".to_string(), "a".to_string()]);
    let q = prepare_sqlite_query("SELECT 1", &vec![]);
    assert_eq!(q.sql, "SELECT 1");
    assert!(q.bind_names.is_empty());
}

#[test]
fn sqlite_params_replaced_where_they_stand() {
    let q = prepare_sqlite_query("SELECT * FROM t WHERE a = :idx AND b = :id", &vec!["id".to_string()]);
    assert_eq!(q.sql, "SELECT * FROM t WHERE a = :idx AND b = ?");
    assert_eq!(q.bind_names, vec!["id".to_string()]);
    let q = prepare_sqlite_query("SELECT 'é→😀' AS s WHERE x = :x AND y = :y", &vec!["y".to_string(), "x".to_string()]);
    assert_eq!(q.sql, "SELECT 'é→😀' AS s WHERE x = ? AND y = ?");
    assert_eq!(q.bind_names, vec!["x".to_string(), "y".to_string()]);
    let q = prepare_sqlite_query("a::b :c_1,:c", &vec!["c".to_string(), "b".to_string()]);
    assert_eq!(q.sql, "a:? :c_1,?");
    assert_eq!(q.bind_names, vec!["b".to_string(), "c".to_string()]);
}

#[test]
fn log_tail_sql() {
    let mut f = filters();
    f.service_name = Some("api".to_string());
    f.keyword = Some("err".to_string());
    let q = tail_query(&f, true, None);
    assert_eq!(
        q.sql,
        "SELECT * FROM sys_log WHERE del_flag = 0 AND service_name = $1 AND content LIKE $2 AND created_at > $3 ORDER BY created_at DESC LIMIT $4"
    );
    assert_eq!(q.binds.len(), 4);
    assert!(matches!(&q.binds[1], LogBind::Text(t) if t == "%err%"));
    assert!(matches!(q.binds[2], LogBind::Since));
    assert!(matches!(q.binds[3], LogBind::Int(100)));
    assert_eq!(like_pattern("x"), "%x%");
}

#[test]
fn log_search_and_stats_sql() {
    let mut f = filters();
    f.level = Some("ERROR".to_string());
    f.has_end_time = true;
    let (count, page) = search_queries(&f, 20, 40);
    assert_eq!(count.sql, "SELECT COUNT(1) as count FROM sys_log WHERE del_flag = 0 AND level = $1 AND created_at <= $2");
    assert_eq!(
        page.sql,
        "SELECT * FROM sys_log WHERE del_flag = 0 AND level = $1 AND created_at <= $2 ORDER BY created_at DESC LIMIT $3 OFFSET $4"
    );
    assert!(matches!(page.binds[2], LogBind::Int(20)));
    assert!(matches!(page.binds[3], LogBind::Int(40)));
    let (total, by_level, by_type, binds) = stats_queries(&filters());
    assert_eq!(total, "SELECT COUNT(1) as count FROM sys_log WHERE del_flag = 0");
    assert_eq!(by_level, "SELECT level, COUNT(1) as count FROM sys_log WHERE del_flag = 0 AND level IS NOT NULL GROUP BY level");
    assert_eq!(by_type, "SELECT log_type, COUNT(1) as count FROM sys_log WHERE del_flag = 0 AND log_type IS NOT NULL GROUP BY log_type");
    assert!(binds.is_empty());
}

#[test]
fn mongo_filters() {
    let mut f = filters();
    f.tags = Some("t".to_string());
    f.has_start_time = true;
    f.has_end_time = true;
    let d = mongo_search_filter_of(&f);
    let keys: Vec<&str> = d.entries.iter().map(|e| e.0.as_str()).collect();
    assert_eq!(keys, vec!["del_flag", "tags", "created_at"]);
    assert!(matches!(&d.entries[1].1, FieldCond::RegexI(t) if t == "t"));
    assert!(matches!(d.entries[2].1, FieldCond::AtOrBeforeEnd));
    let d = mongo_tail_filter_of(&filters(), true);
    assert!(matches!(d.entries[1].1, FieldCond::AfterSince));
    let d = mongo_stats_filter_of(&filters());
    assert_eq!(d.entries.len(), 1);
    let d = position_filter_of(3, "BTCUSDT");
    assert!(matches!(d.entries[0].1, FieldCond::Int(3)));
}

fn req(id: Option<i64>, public: Option<&str>, private: Option<&str>, cloud: Option<bool>) -> SaveTenantKeyRequest {
    SaveTenantKeyRequest {
        id,
        encryption_public_key: public.map(|s| s.to_string()),
        encryption_private_key: private.map(|s| s.to_string()),
        cloud_managed_key: cloud,
    }
}

fn fields(encrypted: Option<&str>, cloud: Option<bool>) -> TenantKeyFields {
    TenantKeyFields {
        encryption_public_key: Some("pub".to_string()),
        encryption_private_key_hash: Some("hash".to_string()),
        encrypted_private_key: encrypted.map(|s| s.to_string()),
        cloud_managed_key: cloud,
    }
}

#[test]
fn tenant_key_plans() {
    assert!(matches!(plan_keys(&req(Some(4), None, None, None)), KeyPlan::LoadExisting(4)));
    assert!(matches!(plan_keys(&req(None, None, None, None)), KeyPlan::GeneratePair));
    assert!(matches!(plan_keys(&req(None, Some("p"), None, None)), KeyPlan::Reject(TenantKeyError::PrivateKeyRequired)));
    assert!(matches!(plan_keys(&req(None, Some("p"), Some("k"), None)), KeyPlan::DeriveFromPrivateKey(k) if k == "k"));
    assert!(cloud_managed(&req(None, None, None, None)));
    assert!(!cloud_managed(&req(None, None, None, Some(false))));
}

#[test]
fn tenant_new_keys() {
    let r = req(None, Some("pub"), Some("priv"), None);
    let pair = KeyPair { public_key: "pub".to_string(), private_key: "priv".to_string() };
    assert_eq!(check_derived_pair(&r, Ok(pair.clone())).unwrap(), "pub");
    let other = KeyPair { public_key: "other".to_string(), private_key: "priv".to_string() };
    assert!(matches!(check_derived_pair(&r, Ok(other)), Err(TenantKeyError::PrivateKeyMismatch)));
    assert!(matches!(check_derived_pair(&r, Err("bad".to_string())), Err(TenantKeyError::InvalidPrivateKey(m)) if m == "bad"));
    assert!(matches!(check_generated_pair(Err("rng".to_string())), Err(TenantKeyError::GenerateFailed(_))));
    assert_eq!(check_generated_pair(Ok(pair)).unwrap().private_key, "priv");
    let out = finish_new_tenant_keys(false, "pub".to_string(), "h".to_string(), None, Some("priv".to_string())).unwrap();
    assert!(out.fields.encrypted_private_key.is_none());
    assert_eq!(out.fields.cloud_managed_key, Some(false));
    assert_eq!(out.private_key_to_return.as_deref(), Some("priv"));
    let out = finish_new_tenant_keys(true, "pub".to_string(), "h".to_string(), Some(Ok("enc".to_string())), None).unwrap();
    assert_eq!(out.fields.encrypted_private_key.as_deref(), Some("enc"));
    assert!(matches!(
        finish_new_tenant_keys(true, "pub".to_string(), "h".to_string(), Some(Err("kms".to_string())), None),
        Err(TenantKeyError::EncryptFailed(m)) if m == "kms"
    ));
}

#[test]
fn tenant_existing_keys() {
    match plan_existing_keys(&req(Some(1), None, None, None), &fields(Some("e"), Some(true))) {
        ExistingKeyPlan::Done(f) => assert_eq!(f.encrypted_private_key.as_deref(), Some("e")),
        _ => panic!(),
    }
    match plan_existing_keys(&req(Some(1), None, None, Some(false)), &fields(Some("e"), Some(true))) {
        ExistingKeyPlan::Done(f) => {
            assert!(f.encrypted_private_key.is_none());
            assert_eq!(f.encryption_private_key_hash.as_deref(), Some("hash"));
        }
        _ => panic!(),
    }
    assert!(matches!(
        plan_existing_keys(&req(Some(1), None, None, Some(true)), &fields(None, Some(false))),
        ExistingKeyPlan::Reject(TenantKeyError::PrivateKeyRequiredForCloud)
    ));
    assert!(matches!(
        plan_existing_keys(&req(Some(1), None, Some("k"), Some(true)), &fields(None, Some(false))),
        ExistingKeyPlan::VerifyAndEncrypt(k) if k == "k"
    ));
    assert!(check_provided_key(&fields(None, None), "hash").is_ok());
    assert!(matches!(check_provided_key(&fields(None, None), "nope"), Err(TenantKeyError::ProvidedKeyMismatch)));
    let f = finish_enable_cloud(&fields(None, Some(false)), Ok("enc".to_string())).unwrap();
    assert_eq!(f.cloud_managed_key, Some(true));
    assert_eq!(f.encrypted_private_key.as_deref(), Some("enc"));
    assert!(finish_enable_cloud(&fields(None, None), Err("x".to_string())).is_err());
}

#[test]
fn tenant_error_texts() {
    assert_eq!(TenantKeyError::PrivateKeyMismatch.message(), "Private key does not match public key");
    assert_eq!(TenantKeyError::InvalidPrivateKey("x".to_string()).message(), "Invalid private key: x");
    assert_eq!(
        TenantKeyError::PrivateKeyRequired.message(),
        "Private key must be provided when public key is provided"
    );
    assert_eq!(
        TenantKeyError::EncryptFailed("e".to_string()).message(),
        "Failed to encrypt private key for cloud management: e"
    );
    assert_eq!(TenantKeyError::GenerateFailed("g".to_string()).message(), "Failed to generate encryption keys: g");
    assert_eq!(TenantKeyError::ProvidedKeyMismatch.message(), "Provided private key does not match tenant's key");
    assert_eq!(
        TenantKeyError::PrivateKeyRequiredForCloud.message(),
        "Private key must be provided to enable cloud-managed key"
    );
}


#[test]
fn status_update_needs_the_stored_workflow() {
    assert_eq!(workflow_for_update(vec!["a", "b"], 7).unwrap(), "a");
    assert_eq!(workflow_for_update(Vec::<&str>::new(), 42).unwrap_err(), "Workflow with id 42 not found");
    assert_eq!(workflow_for_update(Vec::<u8>::new(), -3).unwrap_err(), "Workflow with id -3 not found");
}

fn status_of(m: &SigbotWorkflowManager, w: i64, n: i64) -> Option<JobStatus> {
    m.get_node_job(w, n).map(|j| j.get_status())
}

#[test]
fn scan_without_handlers_does_nothing() {
    let mut m = SigbotWorkflowManager::new(None, None);
    assert!(matches!(m.scan_step(false, ScanEvent::StartCandidate { workflow_id: 1 }), ScanAction::Idle));
    assert!(!m.has_node_jobs(1));
}

#[test]
fn scan_starts_a_workflow_under_its_lock() {
    let mut m = SigbotWorkflowManager::new(None, None);
    match m.scan_step(true, ScanEvent::StartCandidate { workflow_id: 4 }) {
        ScanAction::AcquireLock { workflow_id, lock_name } => {
            assert_eq!(workflow_id, 4);
            assert_eq!(lock_name, "WORKFLOW_START_4");
        }
        other => panic!("unexpected {:?}", other),
    }
    assert!(matches!(
        m.scan_step(true, ScanEvent::StartLock { workflow_id: 4, acquired: false, stage_node_ids: vec![1], flow_node_ids: vec![1] }),
        ScanAction::Skip
    ));
    match m.scan_step(true, ScanEvent::StartLock { workflow_id: 4, acquired: true, stage_node_ids: vec![1, 9, 2], flow_node_ids: vec![2, 1] }) {
        ScanAction::StartNodes { workflow_id, node_ids, lock_name } => {
            assert_eq!(workflow_id, 4);
            assert_eq!(node_ids, vec![1, 2]);
            assert_eq!(lock_name, "WORKFLOW_START_4");
        }
        other => panic!("unexpected {:?}", other),
    }
    assert_eq!(status_of(&m, 4, 1), Some(JobStatus::STARTING));
    assert!(matches!(m.scan_step(true, ScanEvent::StartCandidate { workflow_id: 4 }), ScanAction::Skip));
    m.scan_step(true, ScanEvent::NodeStarted { workflow_id: 4, node_id: 1, started: true });
    m.scan_step(true, ScanEvent::NodeStarted { workflow_id: 4, node_id: 2, started: true });
    match m.scan_step(true, ScanEvent::StartRoundDone { workflow_id: 4 }) {
        ScanAction::Finish { workflow_id, status, jobs } => {
            assert_eq!((workflow_id, status, jobs.len()), (4, JobStatus::RUNNING, 2));
        }
        other => panic!("unexpected {:?}", other),
    }
    assert_eq!(status_of(&m, 4, 2), Some(JobStatus::RUNNING));
    match m.scan_step(true, ScanEvent::StopCandidate { workflow_id: 4 }) {
        ScanAction::StopNodes { workflow_id, jobs } => {
            assert_eq!(workflow_id, 4);
            assert_eq!(jobs.len(), 2);
            assert!(jobs.iter().all(|j| j.get_status() == JobStatus::STOPPING));
        }
        other => panic!("unexpected {:?}", other),
    }
    m.scan_step(true, ScanEvent::NodeStopped { workflow_id: 4, node_id: 1, stopped: false });
    assert_eq!(status_of(&m, 4, 1), Some(JobStatus::FAILED));
    assert!(matches!(m.scan_step(true, ScanEvent::StopCandidate { workflow_id: 5 }), ScanAction::Skip));
}

#[test]
fn scan_rolls_back_a_partly_failed_start() {
    let mut m = SigbotWorkflowManager::new(None, None);
    m.scan_step(true, ScanEvent::StartLock { workflow_id: 7, acquired: true, stage_node_ids: vec![1, 2, 3], flow_node_ids: vec![1, 2, 3] });
    m.scan_step(true, ScanEvent::NodeStarted { workflow_id: 7, node_id: 1, started: true });
    m.scan_step(true, ScanEvent::NodeStarted { workflow_id: 7, node_id: 2, started: false });
    m.scan_step(true, ScanEvent::NodeStarted { workflow_id: 7, node_id: 3, started: true });
    match m.scan_step(true, ScanEvent::StartRoundDone { workflow_id: 7 }) {
        ScanAction::RollBack { workflow_id, mut stop_node_ids, .. } => {
            assert_eq!(workflow_id, 7);
            stop_node_ids.sort();
            assert_eq!(stop_node_ids, vec![1, 3]);
        }
        other => panic!("unexpected {:?}", other),
    }
    assert_eq!(status_of(&m, 7, 1), Some(JobStatus::STOPPING));
    assert_eq!(status_of(&m, 7, 2), Some(JobStatus::FAILED));
    m.scan_step(true, ScanEvent::NodeStopped { workflow_id: 7, node_id: 1, stopped: true });
    match m.scan_step(true, ScanEvent::RollbackDone { workflow_id: 7 }) {
        ScanAction::Finish { workflow_id, status, jobs } => assert_eq!((workflow_id, status, jobs.len()), (7, JobStatus::FAILED, 3)),
        other => panic!("unexpected {:?}", other),
    }
    assert!(!m.has_node_jobs(7));
    // every node failing: the jobs are unregistered at once
    m.scan_step(true, ScanEvent::StartLock { workflow_id: 8, acquired: true, stage_node_ids: vec![1], flow_node_ids: vec![1] });
    m.scan_step(true, ScanEvent::NodeStarted { workflow_id: 8, node_id: 1, started: false });
    match m.scan_step(true, ScanEvent::StartRoundDone { workflow_id: 8 }) {
        ScanAction::Finish { status, .. } => assert_eq!(status, JobStatus::FAILED),
        other => panic!("unexpected {:?}", other),
    }
    assert!(!m.has_node_jobs(8));
}

#[test]
fn unregistering_the_last_node_drops_the_workflow() {
    let mut m = SigbotWorkflowManager::new(None, None);
    m.register_job(SigbotWorkflowNodeJob::new(3, 1));
    m.register_job(SigbotWorkflowNodeJob::new(3, 2));
    m.register_job(SigbotWorkflowNodeJob::new(6, 1));
    assert_eq!(m.unregister_node_job(3, 1).map(|j| j.node_id()), Some(1));
    assert!(m.get_node_job(3, 1).is_none());
    assert!(m.has_node_jobs(3));
    assert!(m.unregister_node_job(3, 2).is_some());
    assert!(!m.has_node_jobs(3));
    assert!(m.has_node_jobs(6));
}

#[test]
fn system_master_key_fallback_chain() {
    assert_eq!(system_master_key(Some("env".to_string()), Some("jwt".to_string())), "env");
    assert_eq!(system_master_key(None, Some("jwt".to_string())), "jwt");
    assert_eq!(system_master_key(None, None), "default-system-master-key-change-in-production");
    assert_eq!(save_response(5, None, Some("pk".to_string())), (5, String::new(), Some("pk".to_string())));
    assert_eq!(save_response(6, Some("pub".to_string()), None), (6, "pub".to_string(), None));
}

#[test]
fn postgres_named_params() {
    let q = prepare_postgres_query(
        "SELECT * FROM t WHERE a = :a AND b = :b AND c = :a",
        &vec!["a".to_string(), "c".to_string()],
    );
    assert_eq!(q.sql, "SELECT * FROM t WHERE a = $1 AND b = :b AND c = $2");
    assert_eq!(q.bind_names, vec!["a".to_string(), "a".to_string()]);
    let q = prepare_postgres_query("SELECT 1", &vec![]);
    assert_eq!(q.sql, "SELECT 1");
    assert!(q.bind_names.is_empty());
}

#[test]
fn postgres_params_replaced_where_they_stand() {
    let q = prepare_postgres_query("SELECT * FROM t WHERE a = :idx AND b = :id", &vec!["id".to_string()]);
    assert_eq!(q.sql, "SELECT * FROM t WHERE a = :idx AND b = $1");
    assert_eq!(q.bind_names, vec!["id".to_string()]);
    let q = prepare_postgres_query("SELECT 'é→😀' AS s WHERE x = $x AND y = :y", &vec!["y".to_string(), "x".to_string()]);
    assert_eq!(q.sql, "SELECT 'é→😀' AS s WHERE x = $1 AND y = $2");
    assert_eq!(q.bind_names, vec!["x".to_string(), "y".to_string()]);
}

#[test]
fn postgres_dollar_after_a_word_is_no_parameter() {
    let names: Vec<String> = vec!["a".to_string(), "b".to_string(), "c".to_string()];
    let q = prepare_postgres_query("x$a ($b) :c$a", &names);
    assert_eq!(q.sql, "x$a ($1) $2$a");
    assert_eq!(q.bind_names, vec!["b".to_string(), "c".to_string()]);
    let q = prepare_postgres_query("$a,$b,$c,:a,:b,:c,:d,:e,:f,:g,:h", &vec![
        "a".to_string(), "b".to_string(), "c".to_string(), "d".to_string(), "e".to_string(),
        "f".to_string(), "g".to_string(), "h".to_string(),
    ]);
    assert_eq!(q.sql, "$1,$2,$3,$4,$5,$6,$7,$8,$9,$10,$11");
    assert_eq!(q.bind_names.len(), 11);
}
