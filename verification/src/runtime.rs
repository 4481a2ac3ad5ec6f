//! The runtime's scene state machine: one current scene, driven by key
//! events and update ticks, with a pending-transition slot and a running
//! flag.
//!
//! Every hook invocation is recorded in a ghost history of events; scenes
//! are numbered by generation (the initial scene is generation 0, each
//! transition increments it). The well-formedness of that history is the
//! state machine's guarantee: a generation's first event is its `init`,
//! `init` never repeats within a generation, and generations never go back.

use crate::key::Key;
use crate::message::{Command, Msg};
use crate::scene::Scene;
use crate::state::State;
use vstd::prelude::*;

verus! {

/// Which hook ran.
pub enum Hook {
    Init,
    Input,
    Update,
}

/// One recorded hook invocation: which hook, on the scene of which
/// generation. An event is recorded exactly when the runtime invokes the
/// corresponding hook.
pub struct Event {
    pub hook: Hook,
    pub generation: nat,
}

/// The event recording one hook invocation.
pub open spec fn hook_event(hook: Hook, generation: nat) -> Event {
    Event { hook, generation }
}

/// A well-formed hook history for current generation `g`:
/// the history starts with the initial scene's `init`, its last event
/// belongs to the current generation, generations never decrease, and an
/// event is an `init` exactly where the generation steps up — so each
/// generation's first event, and only its first, is its `init`.
pub open spec fn history_wf(h: Seq<Event>, g: nat) -> bool {
    &&& h.len() > 0
    &&& h[0].generation == 0
    &&& h[h.len() - 1].generation == g
    &&& forall|i: int, j: int|
        #![trigger h[i].generation, h[j].generation]
        0 <= i <= j < h.len() ==> h[i].generation <= h[j].generation
    &&& forall|i: int|
        #![trigger h[i].hook]
        0 <= i < h.len() ==> (h[i].hook is Init <==> (i == 0 || h[i - 1].generation
            < h[i].generation))
}

/// What one driven hook returned.
#[derive(Clone, Copy, PartialEq, Eq, Structural, Debug)]
pub enum Outcome {
    /// The scene kept running.
    Continue,
    /// The scene handed over to a new one, whose `init` already ran.
    Transitioned,
    /// The scene stopped with nothing pending: the runtime is stopped for
    /// good and `Shutdown` is queued for the I/O actor.
    Stopped,
}

/// The runtime: the current scene, the shared state, and the ghost record
/// of every hook invocation.
pub struct Runtime<S> {
    scene: S,
    /// The state the hooks mutate. The hosting application drains its
    /// message queue after each step and forwards it to the I/O actor.
    pub state: State<S>,
    stopped: bool,
    generation: Ghost<nat>,
    history: Ghost<Seq<Event>>,
}

impl<S: Scene> Runtime<S> {
    /// The generation of the current scene.
    pub closed spec fn spec_generation(self) -> nat {
        self.generation@
    }

    /// Every hook invocation so far, in order.
    pub closed spec fn spec_history(self) -> Seq<Event> {
        self.history@
    }

    /// Whether the runtime reached the `Stopped` state. `Stopped` is
    /// terminal: `step_input` and `step_update` require it to be false, so
    /// once a scene stopped with nothing pending, no hook on any scene is
    /// ever invoked again.
    pub closed spec fn is_stopped(self) -> bool {
        self.stopped
    }

    /// The shared state, as the contracts see it.
    pub closed spec fn spec_state(self) -> State<S> {
        self.state
    }

    /// The runtime's invariant between steps: its hook history is
    /// well-formed, and while it is not stopped the scene is running with no
    /// transition pending — `running == false` is the only trigger for
    /// transition evaluation, and every step settles it before returning.
    pub open spec fn wf(self) -> bool {
        &&& history_wf(self.spec_history(), self.spec_generation())
        &&& !self.is_stopped() ==> self.spec_state().is_running()
            && self.spec_state().pending_scene() is None
    }

    /// What driving one `hook` through the runtime guarantees, `pre` the
    /// runtime before, `post` after, and `mid` the state the hook left
    /// behind (each step returns it as a ghost snapshot). The hook itself is
    /// recorded on the scene that was current, and what follows is a
    /// function of `mid` alone: a running `mid` means the step continues
    /// with exactly that state; a stopped `mid` with a scene pending means
    /// the transition happened and the very next recorded event is the new
    /// scene's `init`; a stopped `mid` with nothing pending means the
    /// runtime is stopped for good, with `Shutdown` queued after the hook's
    /// own messages.
    pub open spec fn stepped(
        pre: Runtime<S>,
        post: Runtime<S>,
        o: Outcome,
        hook: Hook,
        mid: State<S>,
    ) -> bool {
        &&& post.wf()
        &&& pre.spec_history().is_prefix_of(post.spec_history())
        &&& post.spec_history().len() > pre.spec_history().len()
        &&& post.spec_history()[pre.spec_history().len() as int] == hook_event(
            hook,
            pre.spec_generation(),
        )
        &&& post.spec_generation() >= pre.spec_generation()
        &&& post.spec_history().len() == pre.spec_history().len() + 1 + post.spec_generation()
            - pre.spec_generation()
        &&& forall|k: int|
            pre.spec_history().len() + 1 <= k < post.spec_history().len()
                ==> post.spec_history()[k] == hook_event(
                Hook::Init,
                (pre.spec_generation() + k - pre.spec_history().len()) as nat,
            )
        &&& (o is Stopped <==> post.is_stopped())
        &&& (o is Transitioned <==> !post.is_stopped() && post.spec_generation()
            > pre.spec_generation())
        &&& (o is Continue <==> !post.is_stopped() && post.spec_generation()
            == pre.spec_generation())
        &&& (post.spec_generation() > pre.spec_generation() ==> post.spec_history()[pre.spec_history().len() + 1 as int]
            == hook_event(Hook::Init, pre.spec_generation() + 1))
        &&& (!post.is_stopped() ==> post.spec_state().is_running())
        &&& (post.is_stopped() ==> post.spec_state().pending().len() > 0
            && post.spec_state().pending().last() is Shutdown)
        &&& (o is Continue <==> mid.is_running())
        &&& (o is Continue ==> post.spec_state() == mid)
        &&& (!mid.is_running() && mid.pending_scene() is Some ==> post.spec_generation()
            > pre.spec_generation())
        &&& (!mid.is_running() && mid.pending_scene() is None ==> o is Stopped
            && post.spec_state().pending() == mid.pending().push(Msg::Shutdown)
            && post.spec_state().spec_cursor() == mid.spec_cursor()
            && post.spec_state().spec_size() == mid.spec_size()
            && !post.spec_state().is_running() && post.spec_state().pending_scene() is None)
    }

    /// Reads whether the runtime is stopped.
    pub fn has_stopped(&self) -> (b: bool)
        ensures
            b == self.is_stopped(),
    {
        self.stopped
    }

    /// Creates the runtime over an initial scene and calls the scene's
    /// `init` — exactly once, before any other hook — then settles any
    /// transition `init` itself requested. The history holds nothing but
    /// the `init` of each scene that became current, in order. The given
    /// state must be fresh: running, with no transition pending. Besides
    /// the runtime it returns a ghost snapshot of the state `init` left
    /// behind, and what followed is fixed for every value of it.
    pub fn new(scene: S, state: State<S>) -> (r: (Runtime<S>, Ghost<State<S>>))
        requires
            state.is_running(),
            state.pending_scene() is None,
        ensures
            r.0.wf(),
            r.0.spec_history().len() == r.0.spec_generation() + 1,
            forall|k: int|
                0 <= k < r.0.spec_history().len() ==> r.0.spec_history()[k] == hook_event(
                    Hook::Init,
                    k as nat,
                ),
            r.1@.is_running() ==> !r.0.is_stopped() && r.0.spec_generation() == 0
                && r.0.spec_state() == r.1@,
            !r.1@.is_running() && r.1@.pending_scene() is Some ==> r.0.spec_generation() > 0,
            !r.1@.is_running() && r.1@.pending_scene() is None ==> r.0.is_stopped()
                && r.0.spec_state().pending() == r.1@.pending().push(Msg::Shutdown)
                && r.0.spec_state().spec_cursor() == r.1@.spec_cursor()
                && r.0.spec_state().spec_size() == r.1@.spec_size(),
            r.0.is_stopped() ==> r.0.spec_state().pending().len() > 0
                && r.0.spec_state().pending().last() is Shutdown,
    {
        let mut scene = scene;
        let mut state = state;
        scene.init(&mut state);
        let ghost mid = state;
        let ghost h0: Seq<Event> = seq![Event { hook: Hook::Init, generation: 0 }];
        let mut rt = Runtime {
            scene,
            state,
            stopped: false,
            generation: Ghost(0),
            history: Ghost(h0),
        };
        let _ = rt.settle();
        (rt, Ghost(mid))
    }

    /// Invokes `process_input` on the current scene for one key event, then
    /// evaluates the transition check. Besides the outcome it returns a
    /// ghost snapshot of the state the hook left behind; `stepped` fixes
    /// what the step did for every value of that snapshot.
    pub fn step_input(&mut self, key: Key) -> (r: (Outcome, Ghost<State<S>>))
        requires
            old(self).wf(),
            !old(self).is_stopped(),
        ensures
            Runtime::stepped(*old(self), *final(self), r.0, Hook::Input, r.1@),
    {
        let ghost g0 = self.generation@;
        self.scene.process_input(&mut self.state, key);
        let ghost mid = self.state;
        proof {
            lemma_history_push_non_init(self.history@, g0, Hook::Input);
        }
        self.history = Ghost(self.history@.push(Event { hook: Hook::Input, generation: g0 }));
        let o = self.settle();
        (o, Ghost(mid))
    }

    /// Invokes `update` on the current scene for one timer tick, then
    /// evaluates the transition check. Besides the outcome it returns a
    /// ghost snapshot of the state the hook left behind; `stepped` fixes
    /// what the step did for every value of that snapshot.
    pub fn step_update(&mut self) -> (r: (Outcome, Ghost<State<S>>))
        requires
            old(self).wf(),
            !old(self).is_stopped(),
        ensures
            Runtime::stepped(*old(self), *final(self), r.0, Hook::Update, r.1@),
    {
        let ghost g0 = self.generation@;
        self.scene.update(&mut self.state);
        let ghost mid = self.state;
        proof {
            lemma_history_push_non_init(self.history@, g0, Hook::Update);
        }
        self.history = Ghost(self.history@.push(Event { hook: Hook::Update, generation: g0 }));
        let o = self.settle();
        (o, Ghost(mid))
    }

    /// The transition check, run after every hook: while the scene is not
    /// running, either a pending scene takes over (its `init` runs, and the
    /// check repeats), or nothing is pending and the runtime stops for good,
    /// queueing `Shutdown` for the I/O actor.
    fn settle(&mut self) -> (o: Outcome)
        requires
            history_wf(old(self).spec_history(), old(self).spec_generation()),
            !old(self).is_stopped(),
        ensures
            final(self).wf(),
            o is Continue <==> old(self).spec_state().is_running(),
            !old(self).spec_state().is_running() && old(self).spec_state().pending_scene() is Some
                ==> final(self).spec_generation() > old(self).spec_generation(),
            !old(self).spec_state().is_running() && old(self).spec_state().pending_scene() is None
                ==> o is Stopped
                && final(self).spec_state().pending()
                    == old(self).spec_state().pending().push(Msg::Shutdown)
                && final(self).spec_state().spec_cursor() == old(self).spec_state().spec_cursor()
                && final(self).spec_state().spec_size() == old(self).spec_state().spec_size()
                && !final(self).spec_state().is_running()
                && final(self).spec_state().pending_scene() is None
                && final(self).spec_history() == old(self).spec_history(),
            old(self).spec_history().is_prefix_of(final(self).spec_history()),
            final(self).spec_generation() >= old(self).spec_generation(),
            final(self).spec_history().len() == old(self).spec_history().len()
                + final(self).spec_generation() - old(self).spec_generation(),
            forall|k: int|
                old(self).spec_history().len() <= k < final(self).spec_history().len()
                    ==> final(self).spec_history()[k] == hook_event(
                    Hook::Init,
                    (old(self).spec_generation() + 1 + k - old(self).spec_history().len()) as nat,
                ),
            o is Stopped <==> final(self).is_stopped(),
            o is Transitioned <==> !final(self).is_stopped() && final(self).spec_generation()
                > old(self).spec_generation(),
            o is Continue <==> !final(self).is_stopped() && final(self).spec_generation()
                == old(self).spec_generation(),
            o is Continue ==> *final(self) == *old(self),
            !final(self).is_stopped() ==> final(self).spec_state().is_running()
                && final(self).spec_state().pending_scene() is None,
            final(self).is_stopped() ==> final(self).spec_state().pending().len() > 0
                && final(self).spec_state().pending().last() is Shutdown,
    {
        let ghost g0 = self.generation@;
        let ghost h0 = self.history@;
        let mut transitioned: bool = false;
        let mut fuel: u64 = u64::MAX;
        loop
            invariant
                g0 == old(self).spec_generation(),
                h0 == old(self).spec_history(),
                history_wf(self.history@, self.generation@),
                !self.is_stopped(),
                h0.is_prefix_of(self.history@),
                self.generation@ >= g0,
                self.history@.len() == h0.len() + self.generation@ - g0,
                forall|k: int|
                    h0.len() <= k < self.history@.len() ==> self.history@[k] == hook_event(
                        Hook::Init,
                        (g0 + 1 + k - h0.len()) as nat,
                    ),
                transitioned <==> self.generation@ > g0,
                !transitioned ==> *self == *old(self),
                !transitioned ==> fuel == u64::MAX,
                transitioned ==> !old(self).spec_state().is_running(),
                !old(self).spec_state().is_running() && old(self).spec_state().pending_scene()
                    is None ==> !transitioned,
            decreases fuel,
        {
            if self.state.running_flag() {
                proof {
                    use_type_invariant(&self.state);
                }
                if transitioned {
                    return Outcome::Transitioned;
                } else {
                    return Outcome::Continue;
                }
            }
            if fuel == 0 {
                // a transition chain this long is a runaway loop of scenes
                // handing over to each other from `init`; treat it as fatal
                self.state.push_command(Command::Shutdown);
                self.stopped = true;
                return Outcome::Stopped;
            }
            fuel = fuel - 1;
            match self.state.take_pending_scene() {
                Some(next) => {
                    self.state.set_running();
                    self.scene = next;
                    self.scene.init(&mut self.state);
                    proof {
                        lemma_history_push_init(self.history@, self.generation@);
                    }
                    self.history = Ghost(
                        self.history@.push(
                            Event { hook: Hook::Init, generation: self.generation@ + 1 },
                        ),
                    );
                    self.generation = Ghost(self.generation@ + 1);
                    transitioned = true;
                },
                None => {
                    self.state.push_command(Command::Shutdown);
                    self.stopped = true;
                    return Outcome::Stopped;
                },
            }
        }
    }
}

/// Appending a non-`init` event of the current generation keeps a history
/// well-formed.
proof fn lemma_history_push_non_init(h: Seq<Event>, g: nat, hook: Hook)
    requires
        history_wf(h, g),
        !(hook is Init),
    ensures
        history_wf(h.push(Event { hook, generation: g }), g),
{
    let h2 = h.push(Event { hook, generation: g });
    assert forall|i: int, j: int|
        #![trigger h2[i].generation, h2[j].generation]
        0 <= i <= j < h2.len() implies h2[i].generation <= h2[j].generation by {
        if j < h.len() {
            assert(h2[i] == h[i]);
            assert(h2[j] == h[j]);
        } else if i < h.len() {
            assert(h2[i] == h[i]);
            assert(h[i].generation <= h[h.len() - 1].generation);
        }
    }
    assert forall|i: int|
        #![trigger h2[i].hook]
        0 <= i < h2.len() implies (h2[i].hook is Init <==> (i == 0 || h2[i - 1].generation
            < h2[i].generation)) by {
        if i < h.len() {
            assert(h2[i] == h[i]);
            assert(h2[i].hook == h[i].hook);
            if i >= 1 {
                assert(h2[i - 1] == h[i - 1]);
            }
        } else {
            assert(h2[i - 1] == h[h.len() - 1]);
            assert(h2[i].hook == hook);
        }
    }
}

/// Appending the next generation's `init` keeps a history well-formed for
/// that next generation.
proof fn lemma_history_push_init(h: Seq<Event>, g: nat)
    requires
        history_wf(h, g),
    ensures
        history_wf(h.push(Event { hook: Hook::Init, generation: g + 1 }), g + 1),
{
    let h2 = h.push(Event { hook: Hook::Init, generation: g + 1 });
    assert forall|i: int, j: int|
        #![trigger h2[i].generation, h2[j].generation]
        0 <= i <= j < h2.len() implies h2[i].generation <= h2[j].generation by {
        if j < h.len() {
            assert(h2[i] == h[i]);
            assert(h2[j] == h[j]);
        } else if i < h.len() {
            assert(h2[i] == h[i]);
            assert(h[i].generation <= h[h.len() - 1].generation);
        }
    }
    assert forall|i: int|
        #![trigger h2[i].hook]
        0 <= i < h2.len() implies (h2[i].hook is Init <==> (i == 0 || h2[i - 1].generation
            < h2[i].generation)) by {
        if i < h.len() {
            assert(h2[i] == h[i]);
            assert(h2[i].hook == h[i].hook);
            if i >= 1 {
                assert(h2[i - 1] == h[i - 1]);
            }
        } else {
            assert(h2[i - 1] == h[h.len() - 1]);
        }
    }
}

/// Law: generations never go back. Once a transition recorded any event of
/// a newer scene, every later event belongs to that scene or a newer one —
/// no hook of the replaced scene ever runs afterward.
pub proof fn lemma_generations_monotone(h: Seq<Event>, g: nat, i: int, j: int)
    requires
        history_wf(h, g),
        0 <= i <= j < h.len(),
    ensures
        h[i].generation <= h[j].generation,
{
}

/// Law: a scene's `init` runs first. Every recorded `process_input` or
/// `update` is preceded by the `init` of the same scene generation.
pub proof fn lemma_init_precedes(h: Seq<Event>, g: nat, i: int)
    requires
        history_wf(h, g),
        0 <= i < h.len(),
        !(h[i].hook is Init),
    ensures
        exists|k: int|
            0 <= k < i && (#[trigger] h[k]).hook is Init && h[k].generation == h[i].generation,
    decreases i,
{
    assert(i > 0 && h[i - 1].generation >= h[i].generation);
    assert(h[i - 1].generation <= h[i].generation);
    if h[i - 1].hook is Init {
        assert((h[i - 1]).hook is Init && h[i - 1].generation == h[i].generation);
    } else {
        lemma_init_precedes(h, g, i - 1);
    }
}

/// Law: a scene's `init` runs only once. Two events of the same generation
/// never include a second `init`: a scene is initialized again only if it
/// becomes current again, under a new generation.
pub proof fn lemma_init_once(h: Seq<Event>, g: nat, i: int, j: int)
    requires
        history_wf(h, g),
        0 <= i < j < h.len(),
        h[i].generation == h[j].generation,
    ensures
        !(h[j].hook is Init),
{
    lemma_generations_monotone(h, g, i, j - 1);
    lemma_generations_monotone(h, g, j - 1, j);
}

} // verus!
