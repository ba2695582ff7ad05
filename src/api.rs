//! The manager object's calls: each runs its engine operation first and then,
//! with the engine no longer borrowed, queues the namespace changes and builds
//! the reply.

use vstd::prelude::*;

use crate::actions::{actions_view, ActionQueue, ActionView, DeferredAction};
use crate::engine::{pools_view, Engine, PoolSummary, PoolView};
use crate::errors::{
    code_of, engine_to_dbus_err_tuple, error_code, msg_code_ok, msg_string_ok, EngineError,
    ErrorKind, OK_CODE, OK_MESSAGE,
};
use crate::identity::{hyphenated, uuid_text};
use crate::paths::{
    index_after, lemma_index_after_add, lemma_index_after_step, object_path, object_path_for,
    STRATIS_BASE_PATH,
};
use crate::registry::{apply_actions, ObjectData, ObjectKind, ObjectRecord, PathMap, Registry};

verus! {

/// The version that the manager object reports.
pub const VERSION: &'static str = "0.1.0";

/// The pool path of a CreatePool reply that did not succeed.
pub const DEFAULT_PATH: &'static str = "/";

/// The message of a pool that the engine created but then could not find.
pub const NO_POOL_PREFIX: &'static str = "no pool for uuid ";

/// The message of a bound path that carries no record.
pub const NO_DATA_PREFIX: &'static str = "no data for object path ";

/// What the calls share: the engine, the queue of deferred namespace changes
/// and the counter that numbers object paths.
pub struct DbusContext<E> {
    pub engine: E,
    pub actions: ActionQueue,
    pub next_index: u64,
}

impl<E: Engine> DbusContext<E> {
    /// A context around `engine`, with nothing queued and no path numbered.
    pub fn new(engine: E) -> (r: DbusContext<E>)
        ensures
            r.engine == engine,
            r.actions@ == Seq::<ActionView>::empty(),
            r.next_index == 0,
    {
        DbusContext { engine, actions: ActionQueue::new(), next_index: 0 }
    }
}

/// The reply of CreatePool: the pool's path and its block devices' paths,
/// then a code and a message.
pub struct CreatePoolReply {
    pub result: (String, Vec<String>),
    pub return_code: u16,
    pub return_string: String,
}

/// The reply of DestroyPool: whether anything was done, a code and a message.
pub struct DestroyPoolReply {
    pub action: bool,
    pub return_code: u16,
    pub return_string: String,
}

/// The reply of ConfigureSimulator: a code and a message.
pub struct SimulatorReply {
    pub return_code: u16,
    pub return_string: String,
}

/// The texts of a list of strings.
pub open spec fn strings_view(v: Seq<String>) -> Seq<Seq<char>> {
    v.map_values(|s: String| s@)
}

/// The action that binds `path` to an entity.
pub open spec fn add_object(path: Seq<char>, kind: ObjectKind, parent: Seq<char>, uuid: u128) -> ActionView {
    ActionView::Add(path, ObjectRecord { kind, parent, uuid })
}

/// The paths of `count` objects numbered from `first` steps after `n` on.
pub open spec fn paths_from(n: u64, first: int, count: nat) -> Seq<Seq<char>> {
    Seq::new(count, |k: int| object_path_for(index_after(n, first + k)))
}

/// The actions that bind one object of `kind` under `parent` for each of
/// `uuids`, numbered from `first` steps after `n` on.
pub open spec fn child_adds(n: u64, first: int, kind: ObjectKind, parent: Seq<char>, uuids: Seq<u128>) -> Seq<ActionView> {
    Seq::new(
        uuids.len(),
        |k: int| add_object(object_path_for(index_after(n, first + k)), kind, parent, uuids[k]),
    )
}

/// The block devices of a pool as the engine gave them.
pub open spec fn opt_seq(v: Option<Vec<u128>>) -> Option<Seq<u128>> {
    match v {
        Some(x) => Some(x@),
        None => None,
    }
}

/// A CreatePool reply with the fixed placeholder payload.
pub open spec fn has_default_payload(r: CreatePoolReply) -> bool {
    r.result.0@ == DEFAULT_PATH@ && r.result.1@.len() == 0
}

/// What CreatePool leaves behind, given what the engine answered: `result`
/// from creating the pool and `blockdevs` from looking it up afterwards.
/// `before`, `n` are the queue and the counter before the call, `after`, `m`
/// after it.
pub open spec fn create_pool_done(
    parent: Seq<char>,
    before: Seq<ActionView>,
    n: u64,
    result: Result<u128, EngineError>,
    blockdevs: Option<Seq<u128>>,
    reply: CreatePoolReply,
    after: Seq<ActionView>,
    m: u64,
) -> bool {
    match result {
        Err(e) => {
            &&& has_default_payload(reply)
            &&& reply.return_code == code_of(e.kind)
            &&& reply.return_string@ == e.message@
            &&& after == before
            &&& m == n
        },
        Ok(u) => {
            let pool_path = object_path_for(index_after(n, 1));
            let pool_add = add_object(pool_path, ObjectKind::Pool, parent, u);
            match blockdevs {
                None => {
                    &&& has_default_payload(reply)
                    &&& reply.return_code == code_of(ErrorKind::NotFound)
                    &&& reply.return_string@ == NO_POOL_PREFIX@ + hyphenated(u)
                    &&& after == before.push(pool_add)
                    &&& m == index_after(n, 1)
                },
                Some(bs) => {
                    &&& reply.result.0@ == pool_path
                    &&& reply.result.1@.len() == bs.len()
                    &&& strings_view(reply.result.1@) == paths_from(index_after(n, 1), 1, bs.len())
                    &&& reply.return_code == OK_CODE
                    &&& reply.return_string@ == OK_MESSAGE@
                    &&& after == before.push(pool_add) + child_adds(
                        index_after(n, 1),
                        1,
                        ObjectKind::Blockdev,
                        pool_path,
                        bs,
                    )
                    &&& m == index_after(n, bs.len() + 1int)
                },
            }
        },
    }
}

/// Numbers a new object, queues the action that binds its path, and returns
/// the path.
pub fn create_dbus_object(
    actions: &mut ActionQueue,
    next_index: &mut u64,
    parent: &String,
    kind: ObjectKind,
    uuid: u128,
) -> (r: String)
    ensures
        *final(next_index) == index_after(*old(next_index), 1),
        r@ == object_path_for(*final(next_index)),
        final(actions)@ == old(actions)@.push(add_object(r@, kind, parent@, uuid)),
{
    proof {
        lemma_index_after_step(*next_index, 0);
    }
    *next_index = next_index.wrapping_add(1);
    let path = object_path(*next_index);
    actions.push_add(path.clone(), ObjectData::new(kind, parent.clone(), uuid));
    path
}

/// The placeholder payload of a CreatePool reply that did not succeed.
fn default_create_result() -> (r: (String, Vec<String>))
    ensures
        r.0@ == DEFAULT_PATH@,
        r.1@.len() == 0,
{
    (String::from_str(DEFAULT_PATH), Vec::new())
}

/// Finishes CreatePool once the engine has answered: queues a binding for the
/// new pool and one for each of its block devices, and builds the reply.
pub fn finish_create_pool(
    actions: &mut ActionQueue,
    next_index: &mut u64,
    parent: &String,
    result: Result<u128, EngineError>,
    blockdevs: Option<Vec<u128>>,
) -> (reply: CreatePoolReply)
    ensures
        create_pool_done(
            parent@,
            old(actions)@,
            *old(next_index),
            result,
            opt_seq(blockdevs),
            reply,
            final(actions)@,
            *final(next_index),
        ),
{
    let ghost n = *next_index;
    match result {
        Err(e) => {
            let (rc, rs) = engine_to_dbus_err_tuple(&e);
            CreatePoolReply { result: default_create_result(), return_code: rc, return_string: rs }
        },
        Ok(u) => {
            let pool_path = create_dbus_object(actions, next_index, parent, ObjectKind::Pool, u);
            match blockdevs {
                None => {
                    let mut message = String::from_str(NO_POOL_PREFIX);
                    let text = uuid_text(u);
                    message.append(text.as_str());
                    CreatePoolReply {
                        result: default_create_result(),
                        return_code: error_code(ErrorKind::NotFound),
                        return_string: message,
                    }
                },
                Some(bs) => {
                    let paths = bind_children(
                        actions,
                        next_index,
                        &pool_path,
                        ObjectKind::Blockdev,
                        &bs,
                    );
                    proof {
                        lemma_index_after_add(n, 1, bs.len() as int);
                    }
                    CreatePoolReply {
                        result: (pool_path, paths),
                        return_code: msg_code_ok(),
                        return_string: msg_string_ok(),
                    }
                },
            }
        },
    }
}

/// A redundancy argument as the engine takes it: the level where it is present.
pub fn tuple_to_option(redundancy: (bool, u16)) -> (r: Option<u16>)
    ensures
        r == (if redundancy.0 {
            Some(redundancy.1)
        } else {
            None
        }),
{
    if redundancy.0 {
        Some(redundancy.1)
    } else {
        None
    }
}

/// The engine's part of CreatePool: create the pool, then list its block
/// devices. Nothing but the engine is touched here.
fn engine_create_pool<E: Engine>(
    engine: &mut E,
    name: &str,
    redundancy: (bool, u16),
    force: bool,
    devs: &Vec<String>,
) -> (Result<u128, EngineError>, Option<Vec<u128>>) {
    let result = engine.create_pool(name, devs, tuple_to_option(redundancy), force);
    let blockdevs = match &result {
        Ok(u) => engine.pool_blockdevs(*u),
        Err(_) => None,
    };
    (result, blockdevs)
}

/// What CreatePool leaves behind, whatever the engine answered.
pub open spec fn create_pool_post<E>(
    before: DbusContext<E>,
    reply: CreatePoolReply,
    after: DbusContext<E>,
) -> bool {
    exists|result: Result<u128, EngineError>, blockdevs: Option<Seq<u128>>|
        #[trigger] create_pool_done(
            STRATIS_BASE_PATH@,
            before.actions@,
            before.next_index,
            result,
            blockdevs,
            reply,
            after.actions@,
            after.next_index,
        )
}

/// CreatePool: asks the engine for a pool named `name` on `devs`, then queues
/// the bindings of its object paths under the manager object.
pub fn create_pool<E: Engine>(
    ctx: &mut DbusContext<E>,
    name: &str,
    redundancy: (bool, u16),
    force: bool,
    devs: &Vec<String>,
) -> (reply: CreatePoolReply)
    ensures
        create_pool_post(*old(ctx), reply, *final(ctx)),
{
    let (result, blockdevs) = engine_create_pool(&mut ctx.engine, name, redundancy, force, devs);
    let ghost r0 = result;
    let ghost b0 = opt_seq(blockdevs);
    let parent = String::from_str(STRATIS_BASE_PATH);
    let reply = finish_create_pool(&mut ctx.actions, &mut ctx.next_index, &parent, result, blockdevs);
    assert(create_pool_done(
        STRATIS_BASE_PATH@,
        old(ctx).actions@,
        old(ctx).next_index,
        r0,
        b0,
        reply,
        ctx.actions@,
        ctx.next_index,
    ));
    reply
}

/// What DestroyPool leaves behind once the engine has answered `result` for
/// the pool bound at `path`.
pub open spec fn destroy_pool_done(
    path: Seq<char>,
    before: Seq<ActionView>,
    result: Result<bool, EngineError>,
    reply: DestroyPoolReply,
    after: Seq<ActionView>,
) -> bool {
    match result {
        Ok(action) => {
            &&& reply.action == action
            &&& reply.return_code == OK_CODE
            &&& reply.return_string@ == OK_MESSAGE@
            &&& after == before.push(ActionView::Remove(path))
        },
        Err(e) => {
            &&& !reply.action
            &&& reply.return_code == code_of(e.kind)
            &&& reply.return_string@ == e.message@
            &&& after == before
        },
    }
}

/// Finishes DestroyPool once the engine has answered: where it succeeded, the
/// pool's path is queued for unbinding.
pub fn finish_destroy_pool(
    actions: &mut ActionQueue,
    object_path: String,
    result: Result<bool, EngineError>,
) -> (reply: DestroyPoolReply)
    ensures
        destroy_pool_done(object_path@, old(actions)@, result, reply, final(actions)@),
{
    match result {
        Ok(action) => {
            actions.push_remove(object_path);
            DestroyPoolReply {
                action,
                return_code: msg_code_ok(),
                return_string: msg_string_ok(),
            }
        },
        Err(e) => {
            let (rc, rs) = engine_to_dbus_err_tuple(&e);
            DestroyPoolReply { action: false, return_code: rc, return_string: rs }
        },
    }
}

/// A DestroyPool reply that says nothing was done and nothing failed.
pub open spec fn is_noop_reply(reply: DestroyPoolReply) -> bool {
    &&& !reply.action
    &&& reply.return_code == OK_CODE
    &&& reply.return_string@ == OK_MESSAGE@
}

/// What DestroyPool leaves behind, whatever the engine answered.
pub open spec fn destroy_pool_post<E>(
    before: DbusContext<E>,
    registry: PathMap,
    path: Seq<char>,
    reply: DestroyPoolReply,
    after: DbusContext<E>,
) -> bool {
    if !registry.contains_key(path) {
        is_noop_reply(reply) && after == before
    } else if registry[path] is None {
        &&& !reply.action
        &&& reply.return_code == code_of(ErrorKind::Internal)
        &&& reply.return_string@ == NO_DATA_PREFIX@ + path
        &&& after == before
    } else {
        &&& after.next_index == before.next_index
        &&& exists|result: Result<bool, EngineError>|
            #[trigger] destroy_pool_done(path, before.actions@, result, reply, after.actions@)
    }
}

/// DestroyPool: resolves `object_path` in the registry and asks the engine to
/// destroy the pool it stands for. A path that is not bound is answered as a
/// success with nothing done, without a call to the engine. Only the given
/// path is queued for unbinding: the paths of the pool's filesystems and block
/// devices are left as they are.
pub fn destroy_pool<E: Engine>(
    ctx: &mut DbusContext<E>,
    registry: &Registry,
    object_path: String,
) -> (reply: DestroyPoolReply)
    requires
        registry.wf(),
    ensures
        destroy_pool_post(*old(ctx), registry@, object_path@, reply, *final(ctx)),
{
    let pool_uuid = match registry.lookup(&object_path) {
        None => {
            return DestroyPoolReply {
                action: false,
                return_code: msg_code_ok(),
                return_string: msg_string_ok(),
            };
        },
        Some(None) => {
            let mut message = String::from_str(NO_DATA_PREFIX);
            message.append(object_path.as_str());
            return DestroyPoolReply {
                action: false,
                return_code: error_code(ErrorKind::Internal),
                return_string: message,
            };
        },
        Some(Some(data)) => data.uuid,
    };
    let result = ctx.engine.destroy_pool(pool_uuid);
    let ghost r0 = result;
    let reply = finish_destroy_pool(&mut ctx.actions, object_path, result);
    assert(destroy_pool_done(object_path@, old(ctx).actions@, r0, reply, ctx.actions@));
    reply
}

/// The reply of ConfigureSimulator to what the engine answered.
pub open spec fn simulator_done(result: Result<(), EngineError>, reply: SimulatorReply) -> bool {
    match result {
        Ok(_) => reply.return_code == OK_CODE && reply.return_string@ == OK_MESSAGE@,
        Err(e) => reply.return_code == code_of(e.kind) && reply.return_string@ == e.message@,
    }
}

/// The reply of ConfigureSimulator for what the engine answered.
pub fn simulator_reply(result: Result<(), EngineError>) -> (reply: SimulatorReply)
    ensures
        simulator_done(result, reply),
{
    match result {
        Ok(_) => SimulatorReply { return_code: msg_code_ok(), return_string: msg_string_ok() },
        Err(e) => {
            let (rc, rs) = engine_to_dbus_err_tuple(&e);
            SimulatorReply { return_code: rc, return_string: rs }
        },
    }
}

/// ConfigureSimulator: passes the failure rate on to the engine. No object
/// path changes.
pub fn configure_simulator<E: Engine>(ctx: &mut DbusContext<E>, denominator: u32) -> (reply:
    SimulatorReply)
    ensures
        final(ctx).actions == old(ctx).actions,
        final(ctx).next_index == old(ctx).next_index,
        exists|result: Result<(), EngineError>| #[trigger] simulator_done(result, reply),
{
    let result = ctx.engine.configure_simulator(denominator);
    let ghost r0 = result;
    let reply = simulator_reply(result);
    assert(simulator_done(r0, reply));
    reply
}

/// The version of the daemon.
pub fn get_version() -> (r: String)
    ensures
        r@ == VERSION@,
{
    String::from_str(VERSION)
}

/// The namespace before any entity is bound: the manager object alone, with
/// no record.
pub open spec fn base_map() -> PathMap {
    Map::empty().insert(STRATIS_BASE_PATH@, None)
}

/// A registry holding the manager object, and the manager's path.
pub fn get_base_tree() -> (r: (Registry, String))
    ensures
        r.0.wf(),
        r.0@ == base_map(),
        r.1@ == STRATIS_BASE_PATH@,
{
    let mut registry = Registry::new();
    let path = String::from_str(STRATIS_BASE_PATH);
    registry.bind(path.clone(), None);
    (registry, path)
}

/// Applies every queued action to the registry, oldest first, and empties the
/// queue. The actions are handed back, in the same order, for the transport to
/// register and unregister the same paths.
pub fn process_deferred_actions(registry: &mut Registry, actions: &mut ActionQueue) -> (r: Vec<
    DeferredAction,
>)
    requires
        old(registry).wf(),
    ensures
        final(registry).wf(),
        final(registry)@ == apply_actions(old(registry)@, old(actions)@),
        final(actions)@ == Seq::<ActionView>::empty(),
        actions_view(r@) == old(actions)@,
{
    let drained = actions.drain();
    let ghost s = actions_view(drained@);
    let mut i: usize = 0;
    while i < drained.len()
        invariant
            i <= drained.len(),
            s == actions_view(drained@),
            registry.wf(),
            registry@ == apply_actions(old(registry)@, s.take(i as int)),
        decreases drained.len() - i,
    {
        registry.apply(drained[i].copied());
        i = i + 1;
        assert(s.take(i as int).drop_last() =~= s.take(i - 1));
    }
    assert(s.take(i as int) =~= s);
    drained
}

/// The number of objects that the pools in `ps` bind: each pool, each of its
/// filesystems and each of its block devices.
pub open spec fn counter_after(ps: Seq<PoolView>, n: u64) -> u64
    decreases ps.len(),
{
    if ps.len() == 0 {
        n
    } else {
        let p = ps.last();
        index_after(counter_after(ps.drop_last(), n), 1int + p.filesystems.len() + p.blockdevs.len())
    }
}

/// The actions that bind a pool found at startup under `root`, then its
/// filesystems, then its block devices, numbered on from `n`.
pub open spec fn pool_actions(root: Seq<char>, p: PoolView, n: u64) -> Seq<ActionView> {
    let pool_path = object_path_for(index_after(n, 1));
    seq![add_object(pool_path, ObjectKind::Pool, root, p.uuid)] + child_adds(
        n,
        2,
        ObjectKind::Filesystem,
        pool_path,
        p.filesystems,
    ) + child_adds(n, 2int + p.filesystems.len(), ObjectKind::Blockdev, pool_path, p.blockdevs)
}

/// The actions that startup queues for the pools `ps`, first pool first.
pub open spec fn bootstrap_actions(root: Seq<char>, ps: Seq<PoolView>, n: u64) -> Seq<ActionView>
    decreases ps.len(),
{
    if ps.len() == 0 {
        Seq::empty()
    } else {
        bootstrap_actions(root, ps.drop_last(), n) + pool_actions(
            root,
            ps.last(),
            counter_after(ps.drop_last(), n),
        )
    }
}

/// Numbering on from `n` after `a` steps is numbering on from `n` from
/// `a + first` steps on.
pub proof fn lemma_child_adds_shift(
    n: u64,
    a: int,
    first: int,
    kind: ObjectKind,
    parent: Seq<char>,
    uuids: Seq<u128>,
)
    requires
        0 <= a,
        0 <= first,
    ensures
        child_adds(index_after(n, a), first, kind, parent, uuids) == child_adds(
            n,
            a + first,
            kind,
            parent,
            uuids,
        ),
{
    assert forall|k: int| 0 <= k < uuids.len() implies #[trigger] index_after(
        index_after(n, a),
        first + k,
    ) == index_after(n, a + first + k) by {
        lemma_index_after_add(n, a, first + k);
    }
    assert(child_adds(index_after(n, a), first, kind, parent, uuids) =~= child_adds(
        n,
        a + first,
        kind,
        parent,
        uuids,
    ));
}

/// Numbers one object of `kind` under `parent` for each of `uuids`, in
/// order, and queues their bindings; returns their paths.
pub fn bind_children(
    actions: &mut ActionQueue,
    next_index: &mut u64,
    parent: &String,
    kind: ObjectKind,
    uuids: &Vec<u128>,
) -> (r: Vec<String>)
    ensures
        final(actions)@ == old(actions)@ + child_adds(
            *old(next_index),
            1,
            kind,
            parent@,
            uuids@,
        ),
        *final(next_index) == index_after(*old(next_index), uuids.len() as int),
        r.len() == uuids.len(),
        strings_view(r@) == paths_from(*old(next_index), 1, uuids.len() as nat),
{
    let ghost n = *next_index;
    let ghost start = actions@;
    let mut paths: Vec<String> = Vec::new();
    let mut i: usize = 0;
    proof {
        lemma_index_after_add(n, 0, 0);
    }
    while i < uuids.len()
        invariant
            i <= uuids.len(),
            paths.len() == i,
            strings_view(paths@) == paths_from(n, 1, i as nat),
            actions@ == start + child_adds(n, 1, kind, parent@, uuids@.take(i as int)),
            *next_index == index_after(n, i as int),
        decreases uuids.len() - i,
    {
        proof {
            lemma_index_after_add(n, i as int, 1);
        }
        let p = create_dbus_object(actions, next_index, parent, kind, uuids[i]);
        let ghost old_paths = paths@;
        paths.push(p);
        i = i + 1;
        assert forall|k: int| 0 <= k < i implies strings_view(paths@)[k] == paths_from(
            n,
            1,
            i as nat,
        )[k] by {
            if k < i - 1 {
                assert(paths@[k] == old_paths[k]);
                assert(strings_view(old_paths)[k] == paths_from(n, 1, (i - 1) as nat)[k]);
            }
        }
        assert(strings_view(paths@) =~= paths_from(n, 1, i as nat));
        assert(child_adds(n, 1, kind, parent@, uuids@.take(i as int)) =~= child_adds(
            n,
            1,
            kind,
            parent@,
            uuids@.take(i - 1),
        ).push(add_object(p@, kind, parent@, uuids@[i - 1])));
        assert(actions@ =~= start + child_adds(n, 1, kind, parent@, uuids@.take(i as int)));
    }
    assert(uuids@.take(i as int) =~= uuids@);
    paths
}

/// Queues the bindings of the pools that the engine holds at startup, with
/// their filesystems and block devices, each pool under `root`.
pub fn bootstrap<E: Engine>(ctx: &mut DbusContext<E>, root: &String, pools: &Vec<PoolSummary>)
    ensures
        final(ctx).engine == old(ctx).engine,
        final(ctx).actions@ == old(ctx).actions@ + bootstrap_actions(
            root@,
            pools_view(pools@),
            old(ctx).next_index,
        ),
        final(ctx).next_index == counter_after(pools_view(pools@), old(ctx).next_index),
{
    let ghost n = ctx.next_index;
    let ghost start = ctx.actions@;
    let ghost pv = pools_view(pools@);
    let mut i: usize = 0;
    assert(pv.take(0) =~= Seq::<PoolView>::empty());
    while i < pools.len()
        invariant
            i <= pools.len(),
            pv == pools_view(pools@),
            ctx.engine == old(ctx).engine,
            ctx.actions@ == start + bootstrap_actions(root@, pv.take(i as int), n),
            ctx.next_index == counter_after(pv.take(i as int), n),
        decreases pools.len() - i,
    {
        let pool = &pools[i];
        let ghost m = ctx.next_index;
        let ghost before = ctx.actions@;
        let pool_path = create_dbus_object(
            &mut ctx.actions,
            &mut ctx.next_index,
            root,
            ObjectKind::Pool,
            pool.uuid,
        );
        bind_children(
            &mut ctx.actions,
            &mut ctx.next_index,
            &pool_path,
            ObjectKind::Filesystem,
            &pool.filesystems,
        );
        bind_children(
            &mut ctx.actions,
            &mut ctx.next_index,
            &pool_path,
            ObjectKind::Blockdev,
            &pool.blockdevs,
        );
        proof {
            let fs = pool.filesystems@;
            let bd = pool.blockdevs@;
            lemma_child_adds_shift(m, 1, 1, ObjectKind::Filesystem, pool_path@, fs);
            lemma_index_after_add(m, 1, fs.len() as int);
            lemma_child_adds_shift(m, 1 + fs.len() as int, 1, ObjectKind::Blockdev, pool_path@, bd);
            lemma_index_after_add(m, 1 + fs.len() as int, bd.len() as int);
            assert(pv.take(i + 1).drop_last() =~= pv.take(i as int));
            assert(pv.take(i + 1).last() == pool@);
            assert(ctx.actions@ =~= before + pool_actions(root@, pool@, m));
        }
        i = i + 1;
    }
    assert(pv.take(i as int) =~= pv);
}

/// What startup leaves behind for the pools `ps` that the engine listed: the
/// bindings that were applied, in order, and the namespace they make.
pub open spec fn connected<E>(
    ps: Seq<PoolView>,
    ctx: DbusContext<E>,
    registry: PathMap,
    applied: Seq<ActionView>,
) -> bool {
    &&& applied == bootstrap_actions(STRATIS_BASE_PATH@, ps, 0)
    &&& ctx.next_index == counter_after(ps, 0)
    &&& registry == apply_actions(base_map(), applied)
}

/// Startup: a registry holding the manager object, then a binding for each
/// pool that the engine holds and for each of its filesystems and block
/// devices, all applied before the first call. Returns the context, the
/// registry and the bindings applied, for the transport to register.
pub fn connect<E: Engine>(engine: E) -> (r: (DbusContext<E>, Registry, Vec<DeferredAction>))
    ensures
        r.0.engine == engine,
        r.0.actions@ == Seq::<ActionView>::empty(),
        r.1.wf(),
        exists|ps: Seq<PoolView>| #[trigger] connected(ps, r.0, r.1@, actions_view(r.2@)),
{
    let (mut registry, root) = get_base_tree();
    let mut ctx = DbusContext::new(engine);
    let pools = ctx.engine.pools();
    bootstrap(&mut ctx, &root, &pools);
    let ghost queued = bootstrap_actions(STRATIS_BASE_PATH@, pools_view(pools@), 0);
    assert(Seq::<ActionView>::empty() + queued =~= queued);
    let applied = process_deferred_actions(&mut registry, &mut ctx.actions);
    let r = (ctx, registry, applied);
    assert(connected(pools_view(pools@), r.0, r.1@, actions_view(r.2@)));
    r
}

/// An inbound call on the manager object, with its arguments.
pub enum Call {
    CreatePool { name: String, redundancy: (bool, u16), force: bool, devices: Vec<String> },
    DestroyPool { pool: String },
    ConfigureSimulator { denominator: u32 },
}

/// The reply to a call.
pub enum Reply {
    CreatePool(CreatePoolReply),
    DestroyPool(DestroyPoolReply),
    ConfigureSimulator(SimulatorReply),
}

/// What running `call` leaves behind: the reply of the matching handler and
/// that handler's changes to the context.
pub open spec fn dispatch_post<E>(
    before: DbusContext<E>,
    registry: PathMap,
    call: Call,
    reply: Reply,
    after: DbusContext<E>,
) -> bool {
    match (call, reply) {
        (Call::CreatePool { .. }, Reply::CreatePool(r)) => create_pool_post(before, r, after),
        (Call::DestroyPool { pool }, Reply::DestroyPool(r)) => destroy_pool_post(
            before,
            registry,
            pool@,
            r,
            after,
        ),
        (Call::ConfigureSimulator { .. }, Reply::ConfigureSimulator(r)) => {
            &&& after.actions == before.actions
            &&& after.next_index == before.next_index
            &&& exists|result: Result<(), EngineError>| #[trigger] simulator_done(result, r)
        },
        _ => false,
    }
}

/// Runs the handler that matches `call`.
pub fn dispatch<E: Engine>(ctx: &mut DbusContext<E>, registry: &Registry, call: Call) -> (reply:
    Reply)
    requires
        registry.wf(),
    ensures
        dispatch_post(*old(ctx), registry@, call, reply, *final(ctx)),
{
    let ghost call0 = call;
    let reply = match call {
        Call::CreatePool { name, redundancy, force, devices } => {
            let r = Reply::CreatePool(create_pool(ctx, name.as_str(), redundancy, force, &devices));
            assert(dispatch_post(*old(ctx), registry@, call0, r, *ctx));
            r
        },
        Call::DestroyPool { pool } => {
            let ghost p = pool@;
            let d = destroy_pool(ctx, registry, pool);
            assert(destroy_pool_post(*old(ctx), registry@, p, d, *ctx));
            let r = Reply::DestroyPool(d);
            assert(dispatch_post(*old(ctx), registry@, call0, r, *ctx));
            r
        },
        Call::ConfigureSimulator { denominator } => {
            let d = configure_simulator(ctx, denominator);
            let r = Reply::ConfigureSimulator(d);
            assert(r->0 == d);
            assert(dispatch_post(*old(ctx), registry@, call0, r, *ctx));
            r
        },
    };
    assert(dispatch_post(*old(ctx), registry@, call0, reply, *ctx));
    reply
}

/// What a call cycle leaves behind: `mid` is the context as the handler left
/// it, whose queued actions were then applied.
pub open spec fn cycle_post<E>(
    before: DbusContext<E>,
    registry: PathMap,
    call: Call,
    reply: Reply,
    applied: Seq<ActionView>,
    mid: DbusContext<E>,
    after: DbusContext<E>,
) -> bool {
    &&& dispatch_post(before, registry, call, reply, mid)
    &&& applied == mid.actions@
    &&& after.engine == mid.engine
    &&& after.next_index == mid.next_index
}

/// One call cycle: runs the handler, then applies every queued action to the
/// registry, oldest first, so that nothing is left queued for the next call.
/// Returns the reply and the actions applied, for the transport to mirror.
pub fn handle<E: Engine>(ctx: &mut DbusContext<E>, registry: &mut Registry, call: Call) -> (r: (
    Reply,
    Vec<DeferredAction>,
))
    requires
        old(registry).wf(),
    ensures
        final(registry).wf(),
        final(ctx).actions@ == Seq::<ActionView>::empty(),
        final(registry)@ == apply_actions(old(registry)@, actions_view(r.1@)),
        exists|mid: DbusContext<E>|
            #[trigger] cycle_post(*old(ctx), old(registry)@, call, r.0, actions_view(r.1@), mid, *final(ctx)),
{
    let ghost call0 = call;
    let reply = dispatch(ctx, registry, call);
    let ghost mid = *ctx;
    let applied = process_deferred_actions(registry, &mut ctx.actions);
    assert(cycle_post(*old(ctx), old(registry)@, call0, reply, actions_view(applied@), mid, *ctx));
    let r = (reply, applied);
    assert(r.0 == reply);
    assert(r.1 == applied);
    assert(exists|m: DbusContext<E>|
        #[trigger] cycle_post(*old(ctx), old(registry)@, call0, r.0, actions_view(r.1@), m, *ctx));
    r
}

} // verus!
