//! The single-owner state manager: the sole mutator of the task queue, the
//! pending-result table and the waiter slot.
//!
//! All access goes through a serialized stream of [`StateManagerCommand`]s.
//! Each handler is a pure transformation of the state that also emits
//! [`Effect`]s: the single-shot channel sends the surrounding runtime must
//! perform.  Every transition is specified exactly by a `..._step` spec
//! function, and the laws at the end of this module establish the delivery
//! and correlation guarantees over those transitions.
//!
//! Channels are identified here by plain [`ChannelId`] tokens; the runtime
//! owns the real single-shot senders and maps tokens to them.

use std::collections::HashMap;
use std::collections::VecDeque;
use vstd::prelude::*;

use crate::tool_args::ToolArguments;
use crate::tool_result::ToolResult;

verus! {

broadcast use vstd::std_specs::hash::group_hash_axioms;

/// Identifies one single-shot channel held by the surrounding runtime.
pub type ChannelId = u64;

/// The commands that mediate all access to the state manager.
#[derive(Debug, PartialEq, Eq)]
pub enum StateManagerCommand {
    /// From a dispatcher: track `args.id` and hand `args` to a poller.
    DispatchTask { args: ToolArguments, response_ch: ChannelId },
    /// From the HTTP endpoint: give the next task to the polling plugin.
    PollForTask { response_ch: ChannelId },
    /// From the HTTP endpoint: the plugin's result for a handed-out task.
    SubmitTaskResult { task_id: u128, result: ToolResult },
    /// From a dispatcher whose deadline elapsed: stop tracking the task.
    CleanupTaskOnTimeout { task_id: u128 },
}

/// A single-shot send the runtime must perform after a command is handled.
///
/// The two task deliveries differ in what a failed send means, which is why
/// they are distinct variants: a task popped for a poll is discarded when
/// the poller has gone (its pending entry stays for timeout cleanup, and
/// the dispatcher's own deadline closes the race), while a task handed to a
/// parked waiter is already committed and goes back through
/// [`StateManager::requeue_undelivered`].
#[derive(Clone, Debug, PartialEq, Eq)]
pub enum Effect {
    /// Send `Some(task)` to the poller on `ch`, answering its poll.  If the
    /// send fails, discard the task; do **not** re-queue it.
    DeliverTask { ch: ChannelId, task: ToolArguments },
    /// Send `Some(task)` to the waiter parked on `ch`, fulfilling it with a
    /// freshly dispatched task.  If the send fails, call
    /// [`StateManager::requeue_undelivered`] with the task.
    HandToWaiter { ch: ChannelId, task: ToolArguments },
    /// Drop the superseded poller `ch`; it observes `None` and answers
    /// `204 No Content`.
    CancelPoller { ch: ChannelId },
    /// Send the correlated result to the dispatcher awaiting on `ch`.
    DeliverResult { ch: ChannelId, result: ToolResult },
}

/// The mathematical state of the manager.
///
/// `handed` records the ids of tasks handed out to pollers and not since
/// taken back by [`requeue_step`]; `resolved` records the dispatcher
/// channels that have received their result.  Both exist only to state the
/// delivery laws; the executable state keeps them as ghosts.
#[verifier::ext_equal]
pub struct StateModel {
    pub queue: Seq<ToolArguments>,
    pub pending: Map<u128, ChannelId>,
    pub waiter: Option<ChannelId>,
    pub handed: Seq<u128>,
    pub resolved: Seq<ChannelId>,
}

/// The state of a newly started manager: everything empty.
pub open spec fn init_state() -> StateModel {
    StateModel {
        queue: Seq::empty(),
        pending: Map::empty(),
        waiter: None,
        handed: Seq::empty(),
        resolved: Seq::empty(),
    }
}

/// Handling `DispatchTask`: track the id, then either fulfil the parked
/// waiter directly or enqueue at the back.
pub open spec fn dispatch_step(pre: StateModel, args: ToolArguments, response_ch: ChannelId) -> (
    StateModel,
    Seq<Effect>,
) {
    let id = args.id->0;
    let pending = pre.pending.insert(id, response_ch);
    match pre.waiter {
        Some(w) => (
            StateModel {
                queue: pre.queue,
                pending,
                waiter: None,
                handed: pre.handed.push(id),
                resolved: pre.resolved,
            },
            seq![Effect::HandToWaiter { ch: w, task: args }],
        ),
        None => (
            StateModel {
                queue: pre.queue.push(args),
                pending,
                waiter: pre.waiter,
                handed: pre.handed,
                resolved: pre.resolved,
            },
            Seq::empty(),
        ),
    }
}

/// Handling `PollForTask`: pop the front of the queue if there is one; else
/// park, superseding (and cancelling) any previously parked poller.
///
/// Whatever becomes of the [`Effect::DeliverTask`] send, the popped task is
/// gone from the queue and no waiter is installed: a poller that gave up
/// concurrently loses the task (its pending entry stays until timeout
/// cleanup), closing that race on the dispatcher's deadline.
pub open spec fn poll_step(pre: StateModel, response_ch: ChannelId) -> (StateModel, Seq<Effect>) {
    if pre.queue.len() > 0 {
        let task = pre.queue[0];
        (
            StateModel {
                queue: pre.queue.drop_first(),
                pending: pre.pending,
                waiter: pre.waiter,
                handed: pre.handed.push(task.id->0),
                resolved: pre.resolved,
            },
            seq![Effect::DeliverTask { ch: response_ch, task }],
        )
    } else {
        let parked = StateModel {
            queue: pre.queue,
            pending: pre.pending,
            waiter: Some(response_ch),
            handed: pre.handed,
            resolved: pre.resolved,
        };
        match pre.waiter {
            Some(w) => (parked, seq![Effect::CancelPoller { ch: w }]),
            None => (parked, Seq::empty()),
        }
    }
}

/// Handling `SubmitTaskResult`: deliver to the tracked channel and stop
/// tracking; a submission for an untracked id is stale and dropped.
pub open spec fn submit_step(pre: StateModel, task_id: u128, result: ToolResult) -> (
    StateModel,
    Seq<Effect>,
) {
    if pre.pending.contains_key(task_id) {
        let ch = pre.pending[task_id];
        (
            StateModel {
                queue: pre.queue,
                pending: pre.pending.remove(task_id),
                waiter: pre.waiter,
                handed: pre.handed,
                resolved: pre.resolved.push(ch),
            },
            seq![Effect::DeliverResult { ch, result }],
        )
    } else {
        (pre, Seq::empty())
    }
}

/// Handling `CleanupTaskOnTimeout`: forget the pending entry if present.
pub open spec fn cleanup_step(pre: StateModel, task_id: u128) -> StateModel {
    StateModel {
        queue: pre.queue,
        pending: pre.pending.remove(task_id),
        waiter: pre.waiter,
        handed: pre.handed,
        resolved: pre.resolved,
    }
}

/// Taking back a task whose hand-off to a parked waiter failed: the request
/// is already committed, so it goes to the back of the queue instead.
pub open spec fn requeue_step(pre: StateModel, args: ToolArguments) -> StateModel {
    StateModel {
        queue: pre.queue.push(args),
        pending: pre.pending,
        waiter: pre.waiter,
        handed: if pre.handed.len() > 0 && pre.handed.last() == args.id->0 {
            pre.handed.drop_last()
        } else {
            pre.handed
        },
        resolved: pre.resolved,
    }
}

/// Shutting down: all bookkeeping is dropped.
pub open spec fn shutdown_step(pre: StateModel) -> StateModel {
    StateModel {
        queue: Seq::empty(),
        pending: Map::empty(),
        waiter: None,
        handed: pre.handed,
        resolved: pre.resolved,
    }
}

/// The channels whose hangup a shutdown causes: every awaiting dispatcher
/// and any parked poller.  The runtime performs the hangups by dropping its
/// sender table; each owner wakes with a closed-channel outcome.
pub open spec fn shutdown_cancels(pre: StateModel) -> Set<ChannelId> {
    pre.pending.values().union(
        match pre.waiter {
            Some(w) => set![w],
            None => Set::empty(),
        },
    )
}

/// Any command, dispatched to its step.
pub open spec fn command_step(pre: StateModel, command: StateManagerCommand) -> (
    StateModel,
    Seq<Effect>,
) {
    match command {
        StateManagerCommand::DispatchTask { args, response_ch } => dispatch_step(
            pre,
            args,
            response_ch,
        ),
        StateManagerCommand::PollForTask { response_ch } => poll_step(pre, response_ch),
        StateManagerCommand::SubmitTaskResult { task_id, result } => submit_step(
            pre,
            task_id,
            result,
        ),
        StateManagerCommand::CleanupTaskOnTimeout { task_id } => (
            cleanup_step(pre, task_id),
            Seq::empty(),
        ),
    }
}

/// Single-owner holder of the task queue, the pending-result table and the
/// waiter slot.
pub struct StateManager {
    task_queue: VecDeque<ToolArguments>,
    pending_tasks: HashMap<u128, ChannelId>,
    client_waiter: Option<ChannelId>,
    handed: Ghost<Seq<u128>>,
    resolved: Ghost<Seq<ChannelId>>,
}

impl View for StateManager {
    type V = StateModel;

    closed spec fn view(&self) -> StateModel {
        StateModel {
            queue: self.task_queue@,
            pending: self.pending_tasks@,
            waiter: self.client_waiter,
            handed: self.handed@,
            resolved: self.resolved@,
        }
    }
}

impl StateManager {
    /// A manager with empty queue, empty pending table and no waiter.
    pub fn new() -> (s: StateManager)
        ensures
            s@ == init_state(),
    {
        let s = StateManager {
            task_queue: VecDeque::new(),
            pending_tasks: HashMap::new(),
            client_waiter: None,
            handed: Ghost(Seq::empty()),
            resolved: Ghost(Seq::empty()),
        };
        proof {
            assert(s@ =~= init_state());
        }
        s
    }

    /// Tracks `args.id` in the pending table, then hands `args` to the
    /// parked waiter if one exists, else enqueues it at the back.
    ///
    /// Every dispatched task carries an id; a task without one is mis-wired
    /// and is refused here rather than at run time.
    pub fn handle_dispatch(&mut self, args: ToolArguments, response_ch: ChannelId) -> (effects: Vec<
        Effect,
    >)
        requires
            args.id is Some,
        ensures
            final(self)@ == dispatch_step(old(self)@, args, response_ch).0,
            effects@ == dispatch_step(old(self)@, args, response_ch).1,
    {
        let ghost pre = self@;
        let id = args.id.unwrap();
        self.pending_tasks.insert(id, response_ch);
        let mut effects: Vec<Effect> = Vec::new();
        if self.client_waiter.is_some() {
            let w = self.client_waiter.unwrap();
            self.client_waiter = None;
            self.handed = Ghost(self.handed@.push(id));
            effects.push(Effect::HandToWaiter { ch: w, task: args });
        } else {
            self.task_queue.push_back(args);
        }
        proof {
            assert(self@ =~= dispatch_step(pre, args, response_ch).0);
            assert(effects@ =~= dispatch_step(pre, args, response_ch).1);
        }
        effects
    }

    /// Pops and delivers the front task, or parks the poller, superseding
    /// (and cancelling) a previously parked one.
    ///
    /// A popped task is delivered through [`Effect::DeliverTask`]: if that
    /// send fails, the task is discarded, never re-queued.
    pub fn handle_poll(&mut self, response_ch: ChannelId) -> (effects: Vec<Effect>)
        ensures
            final(self)@ == poll_step(old(self)@, response_ch).0,
            effects@ == poll_step(old(self)@, response_ch).1,
    {
        let ghost pre = self@;
        let mut effects: Vec<Effect> = Vec::new();
        match self.task_queue.pop_front() {
            Some(task) => {
                self.handed = Ghost(self.handed@.push(task.id->0));
                effects.push(Effect::DeliverTask { ch: response_ch, task });
            },
            None => {
                if self.client_waiter.is_some() {
                    let w = self.client_waiter.unwrap();
                    effects.push(Effect::CancelPoller { ch: w });
                }
                self.client_waiter = Some(response_ch);
            },
        }
        proof {
            assert(self@ =~= poll_step(pre, response_ch).0);
            assert(effects@ =~= poll_step(pre, response_ch).1);
        }
        effects
    }

    /// Delivers the result to the channel tracked for `task_id` and stops
    /// tracking it; a stale submission (unknown id) is dropped.
    pub fn handle_submit(&mut self, task_id: u128, result: ToolResult) -> (effects: Vec<Effect>)
        ensures
            final(self)@ == submit_step(old(self)@, task_id, result).0,
            effects@ == submit_step(old(self)@, task_id, result).1,
    {
        let ghost pre = self@;
        let mut effects: Vec<Effect> = Vec::new();
        match self.pending_tasks.remove(&task_id) {
            Some(ch) => {
                self.resolved = Ghost(self.resolved@.push(ch));
                effects.push(Effect::DeliverResult { ch, result });
            },
            None => {},
        }
        proof {
            assert(self@ =~= submit_step(pre, task_id, result).0);
            assert(effects@ =~= submit_step(pre, task_id, result).1);
        }
        effects
    }

    /// Forgets the pending entry for a timed-out task; no error if absent.
    pub fn handle_cleanup(&mut self, task_id: u128)
        ensures
            final(self)@ == cleanup_step(old(self)@, task_id),
    {
        let ghost pre = self@;
        self.pending_tasks.remove(&task_id);
        proof {
            assert(self@ =~= cleanup_step(pre, task_id));
        }
    }

    /// Puts back a task whose [`Effect::HandToWaiter`] send failed: the
    /// request is already committed, so it must not be discarded.  This is
    /// only for failed waiter hand-offs; a failed poll delivery discards
    /// its task instead.
    pub fn requeue_undelivered(&mut self, args: ToolArguments)
        ensures
            final(self)@ == requeue_step(old(self)@, args),
    {
        let ghost pre = self@;
        self.handed = Ghost(
            if pre.handed.len() > 0 && pre.handed.last() == args.id->0 {
                pre.handed.drop_last()
            } else {
                pre.handed
            },
        );
        self.task_queue.push_back(args);
        proof {
            assert(self@ =~= requeue_step(pre, args));
        }
    }

    /// Handles one command from the serialized stream, as the manager's
    /// receive loop does for each command it takes.
    pub fn handle_command(&mut self, command: StateManagerCommand) -> (effects: Vec<Effect>)
        requires
            command matches StateManagerCommand::DispatchTask { args, .. } ==> args.id is Some,
        ensures
            final(self)@ == command_step(old(self)@, command).0,
            effects@ == command_step(old(self)@, command).1,
    {
        match command {
            StateManagerCommand::DispatchTask { args, response_ch } => self.handle_dispatch(
                args,
                response_ch,
            ),
            StateManagerCommand::PollForTask { response_ch } => self.handle_poll(response_ch),
            StateManagerCommand::SubmitTaskResult { task_id, result } => self.handle_submit(
                task_id,
                result,
            ),
            StateManagerCommand::CleanupTaskOnTimeout { task_id } => {
                self.handle_cleanup(task_id);
                Vec::new()
            },
        }
    }

    /// Drops all bookkeeping on shutdown.  The runtime then drops its
    /// sender table, which hangs up every channel in
    /// [`shutdown_cancels`]`(pre)`.
    pub fn shutdown(&mut self)
        ensures
            final(self)@ == shutdown_step(old(self)@),
    {
        let ghost pre = self@;
        self.task_queue.clear();
        self.pending_tasks.clear();
        self.client_waiter = None;
        proof {
            assert(self@ =~= shutdown_step(pre));
        }
    }
}

impl StateModel {
    /// The ids of the queued tasks, front first.
    pub open spec fn queue_ids(self) -> Seq<u128> {
        self.queue.map_values(|t: ToolArguments| t.id->0)
    }

    /// What the state manager keeps true of its state:
    /// - every queued task carries an id, and no id is queued twice;
    /// - a poller parks only while the queue is empty;
    /// - no id is ever handed out twice, and a handed-out id is no longer
    ///   queued;
    /// - distinct pending ids await on distinct channels;
    /// - no channel still awaiting a result has already received one, and
    ///   no channel receives two.
    pub open spec fn wf(self) -> bool {
        &&& forall|i: int| 0 <= i < self.queue.len() ==> (#[trigger] self.queue[i]).id is Some
        &&& self.queue_ids().no_duplicates()
        &&& self.waiter is Some ==> self.queue.len() == 0
        &&& self.handed.no_duplicates()
        &&& forall|i: int|
            0 <= i < self.queue.len() ==> !self.handed.contains(
                (#[trigger] self.queue[i]).id->0,
            )
        &&& forall|k1: u128, k2: u128|
            #![trigger self.pending[k1], self.pending[k2]]
            self.pending.contains_key(k1) && self.pending.contains_key(k2) && k1 != k2
                ==> self.pending[k1] != self.pending[k2]
        &&& forall|k: u128| #[trigger]
            self.pending.contains_key(k) ==> !self.resolved.contains(self.pending[k])
        &&& self.resolved.no_duplicates()
    }

    /// Every queued id is tracked in the pending table.  This holds along
    /// the normal flow; a timeout cleanup or a stale submission naming a
    /// still-queued id removes the entry early (the queued task is then
    /// handed out anyway and its late result dropped as stale).
    pub open spec fn queue_backed(self) -> bool {
        forall|i: int|
            0 <= i < self.queue.len() ==> self.pending.contains_key(
                (#[trigger] self.queue[i]).id->0,
            )
    }
}

/// A newly started manager is well-formed.
pub proof fn lemma_init_wf()
    ensures
        init_state().wf(),
        init_state().queue_backed(),
{
}

/// Dispatching a fresh task and a fresh channel preserves well-formedness.
///
/// Freshness is what the id generator and the runtime's channel allocation
/// provide: the id is tracked nowhere yet and the channel has never been
/// used.
pub proof fn lemma_dispatch_preserves_wf(
    pre: StateModel,
    args: ToolArguments,
    response_ch: ChannelId,
)
    requires
        pre.wf(),
        args.id is Some,
        !pre.pending.contains_key(args.id->0),
        !pre.handed.contains(args.id->0),
        !pre.queue_ids().contains(args.id->0),
        forall|k: u128| #[trigger] pre.pending.contains_key(k) ==> pre.pending[k] != response_ch,
        !pre.resolved.contains(response_ch),
    ensures
        dispatch_step(pre, args, response_ch).0.wf(),
        pre.queue_backed() ==> dispatch_step(pre, args, response_ch).0.queue_backed(),
{
    let post = dispatch_step(pre, args, response_ch).0;
    let id = args.id->0;
    match pre.waiter {
        Some(w) => {
            assert(pre.queue.len() == 0);
            assert(post.handed.no_duplicates()) by {
                assert(forall|i: int|
                    0 <= i < pre.handed.len() ==> pre.handed[i] != id);
            }
        },
        None => {
            assert(post.queue_ids() =~= pre.queue_ids().push(id));
            assert(post.queue_ids().no_duplicates()) by {
                assert(forall|i: int|
                    0 <= i < pre.queue_ids().len() ==> pre.queue_ids()[i] != id);
            }
            assert(forall|i: int|
                0 <= i < post.queue.len() ==> !post.handed.contains(
                    (#[trigger] post.queue[i]).id->0,
                )) by {
                assert(forall|i: int|
                    0 <= i < pre.queue.len() ==> post.queue[i] == pre.queue[i]);
            }
        },
    }
}

/// A poll preserves well-formedness, touches no pending entry, and needs no
/// assumption about the polling channel.
pub proof fn lemma_poll_preserves_wf(pre: StateModel, response_ch: ChannelId)
    requires
        pre.wf(),
    ensures
        poll_step(pre, response_ch).0.wf(),
        pre.queue_backed() ==> poll_step(pre, response_ch).0.queue_backed(),
        poll_step(pre, response_ch).0.pending == pre.pending,
{
    let post = poll_step(pre, response_ch).0;
    if pre.queue.len() > 0 {
        let id = pre.queue[0].id->0;
        assert(post.queue =~= pre.queue.drop_first());
        assert(forall|i: int|
            0 <= i < post.queue.len() ==> post.queue[i] == pre.queue[i + 1]);
        assert(post.queue_ids() =~= pre.queue_ids().drop_first());
        assert(post.queue_ids().no_duplicates()) by {
            assert(forall|i: int|
                0 <= i < post.queue_ids().len() ==> post.queue_ids()[i] == pre.queue_ids()[i
                    + 1]);
        }
        assert(!pre.handed.contains(id));
        assert(post.handed.no_duplicates()) by {
            assert(forall|i: int|
                0 <= i < pre.handed.len() ==> pre.handed[i] != id);
        }
        assert(forall|i: int|
            0 <= i < post.queue.len() ==> !post.handed.contains(
                (#[trigger] post.queue[i]).id->0,
            )) by {
            assert(forall|i: int| 0 <= i < post.queue.len() ==> {
                &&& post.queue[i] == pre.queue[i + 1]
                &&& !pre.handed.contains(pre.queue_ids()[i + 1])
                &&& pre.queue_ids()[i + 1] != pre.queue_ids()[0]
            });
        }
    }
}

/// A submission preserves well-formedness.
pub proof fn lemma_submit_preserves_wf(pre: StateModel, task_id: u128, result: ToolResult)
    requires
        pre.wf(),
    ensures
        submit_step(pre, task_id, result).0.wf(),
        pre.queue_backed() && !pre.queue_ids().contains(task_id) ==> submit_step(
            pre,
            task_id,
            result,
        ).0.queue_backed(),
{
    let post = submit_step(pre, task_id, result).0;
    if pre.pending.contains_key(task_id) {
        let ch = pre.pending[task_id];
        assert(post.resolved.no_duplicates()) by {
            assert(forall|i: int|
                0 <= i < pre.resolved.len() ==> pre.resolved[i] != ch);
        }
        assert(forall|k: u128| #[trigger]
            post.pending.contains_key(k) ==> !post.resolved.contains(post.pending[k])) by {
            assert(forall|k: u128|
                post.pending.contains_key(k) ==> k != task_id && pre.pending.contains_key(k)
                    && #[trigger] post.pending[k] == pre.pending[k] && pre.pending[k] != ch);
        }
        if pre.queue_backed() && !pre.queue_ids().contains(task_id) {
            assert(forall|i: int|
                0 <= i < post.queue.len() ==> post.pending.contains_key(
                    (#[trigger] post.queue[i]).id->0,
                )) by {
                assert(forall|i: int|
                    0 <= i < pre.queue.len() ==> (#[trigger] pre.queue[i]).id->0
                        == pre.queue_ids()[i] && pre.queue_ids()[i] != task_id);
            }
        }
    }
}

/// A timeout cleanup preserves well-formedness unconditionally; the pending
/// table only shrinks.
pub proof fn lemma_cleanup_preserves_wf(pre: StateModel, task_id: u128)
    requires
        pre.wf(),
    ensures
        cleanup_step(pre, task_id).wf(),
        pre.queue_backed() && !pre.queue_ids().contains(task_id) ==> cleanup_step(
            pre,
            task_id,
        ).queue_backed(),
{
    let post = cleanup_step(pre, task_id);
    if pre.queue_backed() && !pre.queue_ids().contains(task_id) {
        assert(forall|i: int|
            0 <= i < post.queue.len() ==> post.pending.contains_key(
                (#[trigger] post.queue[i]).id->0,
            )) by {
            assert(forall|i: int|
                0 <= i < pre.queue.len() ==> (#[trigger] pre.queue[i]).id->0
                    == pre.queue_ids()[i] && pre.queue_ids()[i] != task_id);
        }
    }
}

/// The tie-break of a failed hand-off: when the parked waiter proves dead,
/// the already-committed task goes to the back of the queue instead of
/// being discarded, and the state stays well-formed with the hand-off
/// undone.
pub proof fn lemma_failed_handoff_requeue(
    pre: StateModel,
    args: ToolArguments,
    response_ch: ChannelId,
)
    requires
        pre.wf(),
        pre.waiter is Some,
        args.id is Some,
        !pre.pending.contains_key(args.id->0),
        !pre.handed.contains(args.id->0),
        forall|k: u128| #[trigger] pre.pending.contains_key(k) ==> pre.pending[k] != response_ch,
        !pre.resolved.contains(response_ch),
    ensures
        ({
            let mid = dispatch_step(pre, args, response_ch).0;
            let post = requeue_step(mid, args);
            &&& post.wf()
            &&& post.handed == pre.handed
            &&& post.queue == seq![args]
            &&& post.pending.contains_key(args.id->0)
        }),
{
    let mid = dispatch_step(pre, args, response_ch).0;
    let post = requeue_step(mid, args);
    assert(pre.queue.len() == 0);
    assert(mid.handed == pre.handed.push(args.id->0));
    assert(post.handed =~= pre.handed);
    assert(post.queue =~= seq![args]);
    assert(post.queue_ids() =~= seq![args.id->0]);
}

/// Law: at-most-once delivery, queue side.  A poll hands out the front
/// task, whose id was never handed out before; it is recorded so that it
/// never will be again.
pub proof fn lemma_poll_hands_out_fresh_id(pre: StateModel, response_ch: ChannelId)
    requires
        pre.wf(),
        pre.queue.len() > 0,
    ensures
        ({
            let (post, effects) = poll_step(pre, response_ch);
            &&& effects == seq![Effect::DeliverTask { ch: response_ch, task: pre.queue[0] }]
            &&& !pre.handed.contains(pre.queue[0].id->0)
            &&& post.handed == pre.handed.push(pre.queue[0].id->0)
            &&& post.handed.no_duplicates()
        }),
{
    let (post, effects) = poll_step(pre, response_ch);
    assert(effects =~= seq![Effect::DeliverTask { ch: response_ch, task: pre.queue[0] }]);
    assert(!pre.handed.contains(pre.queue[0].id->0));
    assert(post.handed.no_duplicates()) by {
        assert(forall|i: int|
            0 <= i < pre.handed.len() ==> pre.handed[i] != pre.queue[0].id->0);
    }
}

/// Law: at-most-once delivery, waiter side.  Handing a freshly dispatched
/// task straight to the parked waiter hands out an id never handed out
/// before.
pub proof fn lemma_dispatch_hands_out_fresh_id(
    pre: StateModel,
    args: ToolArguments,
    response_ch: ChannelId,
)
    requires
        pre.wf(),
        pre.waiter is Some,
        args.id is Some,
        !pre.handed.contains(args.id->0),
    ensures
        ({
            let (post, effects) = dispatch_step(pre, args, response_ch);
            &&& effects == seq![Effect::HandToWaiter { ch: pre.waiter->0, task: args }]
            &&& post.handed == pre.handed.push(args.id->0)
            &&& post.handed.no_duplicates()
        }),
{
    let (post, effects) = dispatch_step(pre, args, response_ch);
    assert(effects =~= seq![Effect::HandToWaiter { ch: pre.waiter->0, task: args }]);
    assert(post.handed.no_duplicates()) by {
        assert(forall|i: int|
            0 <= i < pre.handed.len() ==> pre.handed[i] != args.id->0);
    }
}

/// Law: at-most-one result.  A submission for a tracked id delivers on a
/// channel that never received a result before, records that it now has,
/// and removes the pending entry — so the removal happens exactly once and
/// a second submission for the same id is dropped as stale.
pub proof fn lemma_at_most_one_result(pre: StateModel, task_id: u128, result: ToolResult)
    requires
        pre.wf(),
        pre.pending.contains_key(task_id),
    ensures
        ({
            let (post, effects) = submit_step(pre, task_id, result);
            &&& effects == seq![Effect::DeliverResult { ch: pre.pending[task_id], result }]
            &&& !pre.resolved.contains(pre.pending[task_id])
            &&& post.resolved == pre.resolved.push(pre.pending[task_id])
            &&& post.resolved.no_duplicates()
            &&& !post.pending.contains_key(task_id)
            &&& submit_step(post, task_id, result).1 == Seq::<Effect>::empty()
        }),
{
    let (post, effects) = submit_step(pre, task_id, result);
    let ch = pre.pending[task_id];
    assert(effects =~= seq![Effect::DeliverResult { ch, result }]);
    assert(post.resolved.no_duplicates()) by {
        assert(forall|i: int| 0 <= i < pre.resolved.len() ==> pre.resolved[i] != ch);
    }
}

/// Law: timeout drops.  After a cleanup the pending table has no entry for
/// the id, and a late submission for it changes nothing and delivers
/// nothing.
pub proof fn lemma_timeout_drops(pre: StateModel, task_id: u128, result: ToolResult)
    ensures
        ({
            let post = cleanup_step(pre, task_id);
            &&& !post.pending.contains_key(task_id)
            &&& submit_step(post, task_id, result).0 == post
            &&& submit_step(post, task_id, result).1 == Seq::<Effect>::empty()
        }),
{
}

/// Law: superseding waiter.  The waiter slot holds at most one parked
/// poller by construction; a second poll on an empty queue cancels the
/// first poller (it observes `None`) and parks the second.
pub proof fn lemma_superseding_waiter(pre: StateModel, first_ch: ChannelId, second_ch: ChannelId)
    requires
        pre.queue.len() == 0,
        pre.waiter is None,
    ensures
        ({
            let (mid, first_effects) = poll_step(pre, first_ch);
            let (post, second_effects) = poll_step(mid, second_ch);
            &&& first_effects == Seq::<Effect>::empty()
            &&& mid.waiter == Some(first_ch)
            &&& second_effects == seq![Effect::CancelPoller { ch: first_ch }]
            &&& post.waiter == Some(second_ch)
        }),
{
    let (mid, first_effects) = poll_step(pre, first_ch);
    let (post, second_effects) = poll_step(mid, second_ch);
    assert(second_effects =~= seq![Effect::CancelPoller { ch: first_ch }]);
}

/// Law: no deadlock under shutdown.  Shutting down empties the pending
/// table, and every channel a dispatcher was awaiting on — and any parked
/// poller — is among the channels the runtime then hangs up, so each of
/// them wakes with a closed-channel outcome rather than blocking forever.
pub proof fn lemma_shutdown_wakes_all(pre: StateModel)
    ensures
        shutdown_step(pre).pending == Map::<u128, ChannelId>::empty(),
        shutdown_step(pre).waiter is None,
        forall|id: u128| #[trigger]
            pre.pending.contains_key(id) ==> shutdown_cancels(pre).contains(pre.pending[id]),
        pre.waiter matches Some(w) ==> shutdown_cancels(pre).contains(w),
{
    assert(forall|id: u128| #[trigger]
        pre.pending.contains_key(id) ==> pre.pending.values().contains(pre.pending[id]));
}

/// The state after a run of successive polls on the channels `chs`.
pub open spec fn drain_state(m: StateModel, chs: Seq<ChannelId>) -> StateModel
    decreases chs.len(),
{
    if chs.len() == 0 {
        m
    } else {
        drain_state(poll_step(m, chs[0]).0, chs.drop_first())
    }
}

/// Polls leave the pending table untouched, however many of them run.
pub proof fn lemma_polls_preserve_pending(m: StateModel, chs: Seq<ChannelId>)
    ensures
        drain_state(m, chs).pending == m.pending,
    decreases chs.len(),
{
    if chs.len() > 0 {
        lemma_polls_preserve_pending(poll_step(m, chs[0]).0, chs.drop_first());
    }
}

/// Law: unique correlation.  However many polls run between a task's
/// dispatch and its submission, the submitted result is delivered on
/// exactly the channel registered for its id at dispatch: the id delivered
/// to the plugin, the id in the submission and the id awaited by the
/// dispatcher are one and the same key of the pending table.
pub proof fn lemma_unique_correlation(
    pre: StateModel,
    args: ToolArguments,
    response_ch: ChannelId,
    chs: Seq<ChannelId>,
    result: ToolResult,
)
    requires
        args.id is Some,
    ensures
        ({
            let mid = drain_state(dispatch_step(pre, args, response_ch).0, chs);
            submit_step(mid, args.id->0, result).1 == seq![
                Effect::DeliverResult { ch: response_ch, result },
            ]
        }),
{
    let dispatched = dispatch_step(pre, args, response_ch).0;
    lemma_polls_preserve_pending(dispatched, chs);
    let mid = drain_state(dispatched, chs);
    assert(mid.pending[args.id->0] == response_ch);
    assert(submit_step(mid, args.id->0, result).1 =~= seq![
        Effect::DeliverResult { ch: response_ch, result },
    ]);
}

/// The tasks delivered by a run of successive polls on the channels `chs`,
/// in delivery order.
pub open spec fn drain_deliveries(m: StateModel, chs: Seq<ChannelId>) -> Seq<ToolArguments>
    decreases chs.len(),
{
    if chs.len() == 0 {
        Seq::empty()
    } else {
        let first = if m.queue.len() > 0 {
            seq![m.queue[0]]
        } else {
            Seq::empty()
        };
        first + drain_deliveries(poll_step(m, chs[0]).0, chs.drop_first())
    }
}

/// Successive polls deliver the queue front-first: the first `n` polls
/// deliver exactly the first `n` queued tasks, in queue order.
pub proof fn lemma_polls_deliver_in_order(m: StateModel, chs: Seq<ChannelId>)
    requires
        chs.len() <= m.queue.len(),
    ensures
        drain_deliveries(m, chs) == m.queue.take(chs.len() as int),
    decreases chs.len(),
{
    if chs.len() == 0 {
        assert(drain_deliveries(m, chs) =~= m.queue.take(0));
    } else {
        let m1 = poll_step(m, chs[0]).0;
        assert(m1.queue == m.queue.drop_first());
        lemma_polls_deliver_in_order(m1, chs.drop_first());
        assert(drain_deliveries(m, chs) =~= m.queue.take(chs.len() as int));
    }
}

/// Law: ordering.  If task `a` is dispatched before task `b` while no
/// waiter is parked, then `a` is handed to a poller before `b`: the queue
/// after the two dispatches is the old queue with `a` before `b` at its
/// back, and polls drain it front-first.
pub proof fn lemma_fifo_order(
    pre: StateModel,
    a: ToolArguments,
    ch_a: ChannelId,
    b: ToolArguments,
    ch_b: ChannelId,
    chs: Seq<ChannelId>,
)
    requires
        pre.waiter is None,
        chs.len() == pre.queue.len() + 2,
    ensures
        ({
            let mid = dispatch_step(pre, a, ch_a).0;
            let post = dispatch_step(mid, b, ch_b).0;
            &&& post.queue == pre.queue.push(a).push(b)
            &&& drain_deliveries(post, chs) == pre.queue.push(a).push(b)
        }),
{
    let mid = dispatch_step(pre, a, ch_a).0;
    let post = dispatch_step(mid, b, ch_b).0;
    lemma_polls_deliver_in_order(post, chs);
    assert(post.queue.take(chs.len() as int) =~= post.queue);
}

} // verus!
