use stratisd::actions::DeferredAction;
use stratisd::api::{
    configure_simulator, connect, create_pool, destroy_pool, get_base_tree, get_version, handle,
    process_deferred_actions, Call, DbusContext, Reply,
};
use stratisd::engine::{Engine, PoolSummary};
use stratisd::errors::{EngineError, ErrorKind};
use stratisd::paths::STRATIS_BASE_PATH;
use stratisd::registry::{ObjectKind, Registry};

#[derive(Default)]
struct MockEngine {
    pools: Vec<(String, u128, Vec<u128>, Vec<u128>)>,
    next_uuid: u128,
    destroy_calls: usize,
    lose_pools: bool,
    simulator: Option<u32>,
}

impl Engine for MockEngine {
    fn create_pool(
        &mut self,
        name: &str,
        blockdev_paths: &Vec<String>,
        _redundancy: Option<u16>,
        _force: bool,
    ) -> Result<u128, EngineError> {
        if self.pools.iter().any(|p| p.0 == name) {
            return Err(EngineError::new(ErrorKind::AlreadyExists, format!("pool {} exists", name)));
        }
        self.next_uuid += 1;
        let uuid = self.next_uuid;
        let mut devs = Vec::new();
        for _ in blockdev_paths {
            self.next_uuid += 1;
            devs.push(self.next_uuid);
        }
        self.pools.push((name.to_string(), uuid, Vec::new(), devs));
        Ok(uuid)
    }

    fn destroy_pool(&mut self, uuid: u128) -> Result<bool, EngineError> {
        self.destroy_calls += 1;
        let before = self.pools.len();
        self.pools.retain(|p| p.1 != uuid);
        Ok(self.pools.len() != before)
    }

    fn configure_simulator(&mut self, denominator: u32) -> Result<(), EngineError> {
        if denominator == 0 {
            return Err(EngineError::new(ErrorKind::Invalid, "denominator is zero".to_string()));
        }
        self.simulator = Some(denominator);
        Ok(())
    }

    fn pool_blockdevs(&self, uuid: u128) -> Option<Vec<u128>> {
        if self.lose_pools {
            return None;
        }
        self.pools.iter().find(|p| p.1 == uuid).map(|p| p.3.clone())
    }

    fn pools(&self) -> Vec<PoolSummary> {
        self.pools.iter().map(|p| PoolSummary::new(p.1, p.2.clone(), p.3.clone())).collect()
    }
}

fn path(i: u64) -> String {
    format!("{}/{}", STRATIS_BASE_PATH, i)
}

fn fresh() -> (DbusContext<MockEngine>, Registry) {
    let (ctx, registry, applied) = connect(MockEngine::default());
    assert!(applied.is_empty());
    (ctx, registry)
}

#[test]
fn create_pool_success() {
    let (mut ctx, mut registry) = fresh();
    let devs = vec!["/dev/x1".to_string()];
    let reply = create_pool(&mut ctx, "p1", (false, 0), false, &devs);
    assert_eq!(reply.return_code, 0);
    assert_eq!(reply.return_string, "OK");
    assert_eq!(reply.result.0, path(1));
    assert_ne!(reply.result.0, "/");
    let engine_devs = ctx.engine.pool_blockdevs(ctx.engine.pools[0].1).unwrap();
    assert_eq!(reply.result.1.len(), engine_devs.len());
    assert_eq!(reply.result.1, vec![path(2)]);
    assert_eq!(ctx.actions.len(), 2);
    let applied = process_deferred_actions(&mut registry, &mut ctx.actions);
    assert_eq!(applied.len(), 2);
    assert!(applied.iter().all(|a| matches!(a, DeferredAction::Add { .. })));
    let pool = registry.lookup(&path(1)).unwrap().unwrap();
    assert_eq!(pool.kind, ObjectKind::Pool);
    assert_eq!(pool.parent, STRATIS_BASE_PATH);
    let dev = registry.lookup(&path(2)).unwrap().unwrap();
    assert_eq!(dev.kind, ObjectKind::Blockdev);
    assert_eq!(dev.parent, path(1));
    assert_eq!(dev.uuid, engine_devs[0]);
}

#[test]
fn create_pool_collision() {
    let (mut ctx, mut registry) = fresh();
    let devs = vec!["/dev/x1".to_string()];
    create_pool(&mut ctx, "p1", (false, 0), false, &devs);
    process_deferred_actions(&mut registry, &mut ctx.actions);
    let before = registry.len();
    let reply = create_pool(&mut ctx, "p1", (false, 0), false, &devs);
    assert_eq!(reply.result.0, "/");
    assert!(reply.result.1.is_empty());
    assert_ne!(reply.return_code, 0);
    assert_eq!(reply.return_code, 2);
    assert!(!reply.return_string.is_empty());
    assert_eq!(reply.return_string, "pool p1 exists");
    assert!(ctx.actions.is_empty());
    process_deferred_actions(&mut registry, &mut ctx.actions);
    assert_eq!(registry.len(), before);
}

#[test]
fn create_pool_lost_by_engine() {
    let mut engine = MockEngine::default();
    engine.lose_pools = true;
    engine.next_uuid = 0xa1a2a3a4b1b2c1c2d1d2d3d4d5d6d7d7;
    let (mut ctx, _registry, _) = connect(engine);
    let reply = create_pool(&mut ctx, "p1", (true, 1), false, &vec![]);
    assert_eq!(reply.result.0, "/");
    assert_eq!(reply.return_code, 7);
    assert_eq!(reply.return_string, "no pool for uuid a1a2a3a4-b1b2-c1c2-d1d2-d3d4d5d6d7d8");
    assert_eq!(ctx.actions.len(), 1);
}

#[test]
fn destroy_pool_unregistered() {
    let (mut ctx, registry) = fresh();
    let reply = destroy_pool(&mut ctx, &registry, path(42));
    assert!(!reply.action);
    assert_eq!(reply.return_code, 0);
    assert_eq!(reply.return_string, "OK");
    assert_eq!(ctx.engine.destroy_calls, 0);
    assert!(ctx.actions.is_empty());
}

#[test]
fn destroy_pool_root_has_no_record() {
    let (mut ctx, registry) = fresh();
    let reply = destroy_pool(&mut ctx, &registry, STRATIS_BASE_PATH.to_string());
    assert!(!reply.action);
    assert_eq!(reply.return_code, 5);
    assert_eq!(reply.return_string, "no data for object path /org/storage/stratis1");
    assert_eq!(ctx.engine.destroy_calls, 0);
}

#[test]
fn destroy_pool_registered() {
    let (mut ctx, mut registry) = fresh();
    create_pool(&mut ctx, "p1", (false, 0), false, &vec!["/dev/x1".to_string()]);
    process_deferred_actions(&mut registry, &mut ctx.actions);
    let reply = destroy_pool(&mut ctx, &registry, path(1));
    assert!(reply.action);
    assert_eq!(reply.return_code, 0);
    assert_eq!(ctx.engine.destroy_calls, 1);
    assert_eq!(ctx.actions.len(), 1);
    let applied = process_deferred_actions(&mut registry, &mut ctx.actions);
    assert!(matches!(&applied[0], DeferredAction::Remove { path: p } if *p == path(1)));
    assert!(!registry.contains(&path(1)));
    // Destroying a pool unbinds the pool's own path only.
    assert!(registry.contains(&path(2)));
}

#[test]
fn configure_simulator_replies() {
    let (mut ctx, _registry) = fresh();
    let ok = configure_simulator(&mut ctx, 4);
    assert_eq!((ok.return_code, ok.return_string.as_str()), (0, "OK"));
    assert_eq!(ctx.engine.simulator, Some(4));
    let bad = configure_simulator(&mut ctx, 0);
    assert_eq!(bad.return_code, 6);
    assert_eq!(bad.return_string, "denominator is zero");
    assert!(ctx.actions.is_empty());
}

#[test]
fn bootstrap_binds_existing_pools() {
    let mut engine = MockEngine::default();
    engine.pools.push(("a".to_string(), 10, vec![11], vec![12, 13]));
    engine.pools.push(("b".to_string(), 20, vec![], vec![21]));
    let (ctx, registry, applied) = connect(engine);
    assert!(ctx.actions.is_empty());
    assert_eq!(applied.len(), 6);
    // root + 2 pools + 1 filesystem + 3 block devices
    assert_eq!(registry.len(), 7);
    let mut pools = 0;
    let mut filesystems = 0;
    for p in registry.paths() {
        match registry.lookup(&p).unwrap() {
            None => assert_eq!(p, STRATIS_BASE_PATH),
            Some(d) => match d.kind {
                ObjectKind::Pool => {
                    pools += 1;
                    assert_eq!(d.parent, STRATIS_BASE_PATH);
                }
                kind => {
                    if kind == ObjectKind::Filesystem {
                        filesystems += 1;
                    }
                    let parent = registry.lookup(&d.parent).unwrap().unwrap();
                    assert_eq!(parent.kind, ObjectKind::Pool);
                }
            },
        }
    }
    assert_eq!((pools, filesystems), (2, 1));
    let fs = registry.lookup(&path(2)).unwrap().unwrap();
    assert_eq!((fs.kind, fs.parent.as_str(), fs.uuid), (ObjectKind::Filesystem, path(1).as_str(), 11));
    assert_eq!(registry.lookup(&path(5)).unwrap().unwrap().uuid, 20);
    assert_eq!(registry.path_of(20), Some(path(5)));
    assert_eq!(registry.path_of(13), Some(path(4)));
    assert_eq!(ctx.next_index, 6);
}

#[test]
fn handle_runs_call_and_drains() {
    let (mut ctx, mut registry) = fresh();
    let call = Call::CreatePool {
        name: "p1".to_string(),
        redundancy: (false, 0),
        force: false,
        devices: vec!["/dev/x1".to_string(), "/dev/x2".to_string()],
    };
    let (reply, applied) = handle(&mut ctx, &mut registry, call);
    match reply {
        Reply::CreatePool(r) => assert_eq!(r.result.1, vec![path(2), path(3)]),
        _ => panic!("wrong reply"),
    }
    assert_eq!(applied.len(), 3);
    assert!(ctx.actions.is_empty());
    assert_eq!(registry.len(), 4);
    let (reply, applied) = handle(&mut ctx, &mut registry, Call::DestroyPool { pool: path(9) });
    assert!(matches!(reply, Reply::DestroyPool(ref r) if !r.action && r.return_code == 0));
    assert!(applied.is_empty());
    assert_eq!(ctx.engine.destroy_calls, 0);
    let (reply, _) = handle(&mut ctx, &mut registry, Call::ConfigureSimulator { denominator: 3 });
    assert!(matches!(reply, Reply::ConfigureSimulator(ref r) if r.return_code == 0));
}

#[test]
fn base_tree_and_version() {
    let (registry, root) = get_base_tree();
    assert_eq!(root, "/org/storage/stratis1");
    assert_eq!(registry.len(), 1);
    assert!(registry.lookup(&root).unwrap().is_none());
    assert_eq!(get_version(), "0.1.0");
}
