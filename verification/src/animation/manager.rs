//! Which animation of a window may render.
//!
//! Animations of the same thing share a key. Each one claims a token, and only the one
//! with the newest token may start, once the one before it has let go. A key is forgotten
//! once its newest token has let go, but no token of a key is ever given out twice.

use vstd::prelude::*;

use crate::animation::settings::AnimationPrefix;
use crate::text;

verus! {

#[derive(Clone, Copy, Debug, PartialEq, Eq, Structural)]
pub enum AnimationPhase {
    /// Claimed but not yet rendering.
    Waiting,
    /// Rendering frames. One that takes too long may lose the slot.
    Running,
    /// Final positioning. It never loses the slot.
    PostRender,
}

#[derive(Clone, Copy, Debug, PartialEq, Eq, Structural)]
pub struct AnimationState {
    /// The newest token of the key.
    pub request_seq: u64,
    /// The token that renders, or zero.
    pub running_request: u64,
    pub in_progress: bool,
    /// Since when it renders, in milliseconds.
    pub started_at: Option<u64>,
    pub phase: AnimationPhase,
}

#[derive(Debug)]
pub struct AnimationManager {
    keys: Vec<String>,
    states: Vec<AnimationState>,
    /// The greatest token of the keys that were forgotten.
    spent: u64,
}

/// The claims, for contracts.
pub struct Claims {
    /// The states of the keys that are claimed.
    pub states: Map<Seq<char>, AnimationState>,
    /// The greatest token of the keys that were forgotten.
    pub spent: u64,
}

impl Claims {
    /// The claims with the state of a key replaced.
    pub open spec fn with(self, key: Seq<char>, state: AnimationState) -> Claims {
        Claims { states: self.states.insert(key, state), ..self }
    }

    /// The claims without a key. Later tokens of it are greater than the one it had.
    pub open spec fn without(self, key: Seq<char>) -> Claims {
        Claims {
            states: self.states.remove(key),
            spent: if self.states[key].request_seq > self.spent {
                self.states[key].request_seq
            } else {
                self.spent
            },
        }
    }
}

/// No key was ever claimed.
pub open spec fn no_claims() -> Claims {
    Claims { states: Map::empty(), spent: 0 }
}

/// The text with which the keys of a kind of animation begin.
pub open spec fn prefix_of(prefix: AnimationPrefix) -> Seq<char> {
    match prefix {
        AnimationPrefix::Movement => "movement"@,
        AnimationPrefix::Transparency => "transparency"@,
    }
}

pub fn prefix_text(prefix: AnimationPrefix) -> (r: &'static str)
    ensures
        r@ == prefix_of(prefix),
{
    match prefix {
        AnimationPrefix::Movement => "movement",
        AnimationPrefix::Transparency => "transparency",
    }
}

/// A key that nobody claims.
pub open spec fn unclaimed() -> AnimationState {
    AnimationState {
        request_seq: 0,
        running_request: 0,
        in_progress: false,
        started_at: None,
        phase: AnimationPhase::Waiting,
    }
}

impl AnimationState {
    /// The state once nothing renders any more.
    pub open spec fn released(self) -> AnimationState {
        AnimationState { request_seq: self.request_seq, ..unclaimed() }
    }

    /// Where something renders, it is known since when, it is no newer than the newest
    /// token, and it renders frames or its last one. Where nothing renders, nothing of a
    /// renderer is left.
    pub open spec fn is_valid(self) -> bool {
        &&& self.request_seq >= 1
        &&& self.in_progress ==> {
            &&& self.started_at is Some
            &&& self.phase != AnimationPhase::Waiting
            &&& 1 <= self.running_request <= self.request_seq
        }
        &&& !self.in_progress ==> self == self.released()
    }

    fn release(&mut self)
        ensures
            *final(self) == old(self).released(),
    {
        self.in_progress = false;
        self.running_request = 0;
        self.started_at = None;
        self.phase = AnimationPhase::Waiting;
    }
}

/// Whether the states of the keys are what claims can make of them.
pub open spec fn valid(claims: Claims) -> bool {
    &&& claims.states.dom().finite()
    &&& forall|key: Seq<char>| #[trigger]
        claims.states.contains_key(key) ==> claims.states[key].is_valid()
}

/// The position of a key, from an index on.
spec fn key_from(keys: Seq<String>, key: Seq<char>, from: int) -> Option<int>
    decreases keys.len() - from,
{
    if from < 0 || from >= keys.len() {
        None
    } else if keys[from]@ == key {
        Some(from)
    } else {
        key_from(keys, key, from + 1)
    }
}

proof fn key_is_there(keys: Seq<String>, key: Seq<char>, from: int)
    requires
        from >= 0,
    ensures
        match key_from(keys, key, from) {
            Some(at) => from <= at < keys.len() && keys[at]@ == key,
            None => forall|k: int| from <= k < keys.len() ==> (#[trigger] keys[k])@ != key,
        },
    decreases keys.len() - from,
{
    if from < keys.len() && keys[from]@ != key {
        key_is_there(keys, key, from + 1);
    }
}

impl View for AnimationManager {
    type V = Claims;

    closed spec fn view(&self) -> Claims {
        Claims {
            states: Map::new(
                |key: Seq<char>| key_from(self.keys@, key, 0) is Some,
                |key: Seq<char>| self.states@[key_from(self.keys@, key, 0)->0],
            ),
            spent: self.spent,
        }
    }
}

/// The state of a key.
pub open spec fn state_of(claims: Claims, key: Seq<char>) -> AnimationState {
    if claims.states.contains_key(key) {
        claims.states[key]
    } else {
        unclaimed()
    }
}

/// Whether a key is claimed: its newest token has not let go yet.
pub open spec fn is_claimed(claims: Claims, key: Seq<char>) -> bool {
    claims.states.contains_key(key)
}

/// The token that the next one of a key follows: its newest one, or where it is not
/// claimed, the greatest one that a forgotten key has had.
pub open spec fn newest(claims: Claims, key: Seq<char>) -> u64 {
    if is_claimed(claims, key) {
        claims.states[key].request_seq
    } else {
        claims.spent
    }
}

/// Whether a token is the newest one of a key, and whether one renders. Of a key that is
/// not claimed, every token counts as the newest one.
pub open spec fn observed(claims: Claims, key: Seq<char>, seq: u64) -> (bool, bool) {
    (
        !is_claimed(claims, key) || newest(claims, key) == seq,
        state_of(claims, key).in_progress,
    )
}

/// Whether a token holds the slot of a key.
pub open spec fn owns(claims: Claims, key: Seq<char>, seq: u64) -> bool {
    state_of(claims, key).in_progress && state_of(claims, key).running_request == seq
}

/// Whether a token holds the slot of a key and is the newest one.
pub open spec fn leads(claims: Claims, key: Seq<char>, seq: u64) -> bool {
    owns(claims, key, seq) && newest(claims, key) == seq
}

/// Whether a token may start to render.
pub open spec fn may_start(claims: Claims, key: Seq<char>, seq: u64) -> bool {
    is_claimed(claims, key) && newest(claims, key) == seq && !state_of(
        claims,
        key,
    ).in_progress
}

/// Whether the one that renders has taken too long.
pub open spec fn is_stale(
    claims: Claims,
    key: Seq<char>,
    budget_ms: u64,
    now_ms: u64,
) -> bool {
    let state = state_of(claims, key);
    &&& state.in_progress
    &&& state.phase == AnimationPhase::Running
    &&& state.started_at matches Some(started_at) && now_ms - started_at > budget_ms
}

/// The claims after a token of a key was claimed.
pub open spec fn requested(claims: Claims, key: Seq<char>) -> Claims {
    claims.with(
        key,
        AnimationState {
            request_seq: (newest(claims, key) + 1) as u64,
            ..state_of(claims, key)
        },
    )
}

/// The claims after a token has started to render.
pub open spec fn started(
    claims: Claims,
    key: Seq<char>,
    seq: u64,
    now_ms: u64,
) -> Claims {
    if may_start(claims, key, seq) {
        claims.with(
            key,
            AnimationState {
                in_progress: true,
                running_request: seq,
                started_at: Some(now_ms),
                phase: AnimationPhase::Running,
                ..claims.states[key]
            },
        )
    } else {
        claims
    }
}

/// The claims after a token has rendered its last frame.
pub open spec fn post_rendering(
    claims: Claims,
    key: Seq<char>,
    seq: u64,
) -> Claims {
    if owns(claims, key, seq) {
        claims.with(
            key,
            AnimationState { phase: AnimationPhase::PostRender, ..claims.states[key] },
        )
    } else {
        claims
    }
}

/// The claims after one that takes too long has lost the slot.
pub open spec fn taken_over(
    claims: Claims,
    key: Seq<char>,
    budget_ms: u64,
    now_ms: u64,
) -> Claims {
    if is_stale(claims, key, budget_ms, now_ms) {
        claims.with(key, claims.states[key].released())
    } else {
        claims
    }
}

/// The claims after a token has let go. A key whose newest token has let go is
/// forgotten.
pub open spec fn completed(
    claims: Claims,
    key: Seq<char>,
    seq: u64,
) -> Claims {
    if !owns(claims, key, seq) {
        claims
    } else if newest(claims, key) == seq {
        claims.without(key)
    } else {
        claims.with(key, claims.states[key].released())
    }
}

/// The keys that are claimed.
pub open spec fn claimed_keys(claims: Claims) -> Set<Seq<char>> {
    claims.states.dom()
}

/// Whether an animation renders whose key begins with a text.
pub open spec fn renders(
    claims: Claims,
    key: Seq<char>,
    prefix: Seq<char>,
) -> bool {
    state_of(claims, key).in_progress && prefix.is_prefix_of(key)
}

/// The keys that begin with a text and of which an animation renders.
pub open spec fn rendering_keys(
    claims: Claims,
    prefix: Seq<char>,
) -> Set<Seq<char>> {
    claims.states.dom().filter(|key: Seq<char>| renders(claims, key, prefix))
}

impl AnimationManager {
    /// No key occurs twice.
    pub closed spec fn has_unique_keys(&self) -> bool {
        &&& self.keys@.len() == self.states@.len()
        &&& forall|i: int, j: int|
            0 <= i < j < self.keys@.len() ==> (#[trigger] self.keys@[i])@ != (
            #[trigger] self.keys@[j])@
    }

    pub open spec fn wf(&self) -> bool {
        self.has_unique_keys() && valid(self@)
    }

    pub fn new() -> (r: Self)
        ensures
            r.wf(),
            r@ == no_claims(),
    {
        let r = AnimationManager { keys: Vec::new(), states: Vec::new(), spent: 0 };
        assert(r@.states =~= no_claims().states);
        r
    }

    fn position(&self, key: &str) -> (r: Option<usize>)
        requires
            self.wf(),
        ensures
            match r {
                Some(at) => {
                    &&& at < self.states@.len()
                    &&& key_from(self.keys@, key@, 0) == Some(at as int)
                    &&& self@.states.contains_key(key@)
                    &&& self@.states[key@] == self.states@[at as int]
                    &&& self.states@[at as int].is_valid()
                },
                None => key_from(self.keys@, key@, 0) is None && !self@.states.contains_key(key@),
            },
    {
        let mut i: usize = 0;
        while i < self.keys.len()
            invariant
                self.wf(),
                i <= self.keys@.len(),
                key_from(self.keys@, key@, 0) == key_from(self.keys@, key@, i as int),
            decreases self.keys@.len() - i,
        {
            if text::equal(self.keys[i].as_str(), key) {
                assert(self@.states.contains_key(key@));
                return Some(i);
            }
            i = i + 1;
        }
        None
    }

    fn set_state(&mut self, at: usize, key: &str, state: AnimationState)
        requires
            old(self).wf(),
            at < old(self).states@.len(),
            key_from(old(self).keys@, key@, 0) == Some(at as int),
            state.is_valid(),
        ensures
            final(self).wf(),
            final(self)@ == old(self)@.with(key@, state),
    {
        let ghost before = *self;
        self.states[at] = state;
        proof {
            assert(self.keys@ == before.keys@);
            key_is_there(self.keys@, key@, 0);
            assert forall|k: Seq<char>| #[trigger] self@.states.contains_key(k) implies self@.states[k]
                == before@.with(key@, state).states[k] by {
                key_is_there(self.keys@, k, 0);
            }
        }
        assert(self@.states =~= before@.with(key@, state).states);
    }

    fn add_state(&mut self, key: &str, state: AnimationState)
        requires
            old(self).wf(),
            key_from(old(self).keys@, key@, 0) is None,
            state.is_valid(),
        ensures
            final(self).wf(),
            final(self)@ == old(self)@.with(key@, state),
    {
        let ghost before = *self;
        self.keys.push(key.to_owned());
        self.states.push(state);
        proof {
            key_is_there(before.keys@, key@, 0);
            appended(before.keys@, self.keys@, 0);
            assert forall|k: Seq<char>|
                #![trigger key_from(self.keys@, k, 0)]
                k != key@ implies key_from(self.keys@, k, 0) == key_from(before.keys@, k, 0) && (
            key_from(before.keys@, k, 0) matches Some(at) ==> 0 <= at < before.keys@.len()) by {
                others_stay(before.keys@, self.keys@, k, 0);
                key_is_there(before.keys@, k, 0);
            }
        }
        assert(self@.states =~= before@.with(key@, state).states);
    }

    fn forget(&mut self, at: usize, key: &str)
        requires
            old(self).wf(),
            at < old(self).states@.len(),
            key_from(old(self).keys@, key@, 0) == Some(at as int),
        ensures
            final(self).wf(),
            final(self)@ == old(self)@.without(key@),
    {
        let ghost before = *self;
        let state = self.states.remove(at);
        let _ = self.keys.remove(at);
        if state.request_seq > self.spent {
            self.spent = state.request_seq;
        }
        proof {
            key_is_there(before.keys@, key@, 0);
            assert forall|i: int, j: int| 0 <= i < j < self.keys@.len() implies (
            #[trigger] self.keys@[i])@ != (#[trigger] self.keys@[j])@ by {
                assert(self.keys@[i] == before.keys@[if i < at { i } else { i + 1 }]);
                assert(self.keys@[j] == before.keys@[if j < at { j } else { j + 1 }]);
            }
            assert forall|k: Seq<char>|
                #![trigger self@.states.contains_key(k)]
                #![trigger before@.states.contains_key(k)]
                self@.states.contains_key(k) == before@.without(key@).states.contains_key(k) && (
            self@.states.contains_key(k) ==> self@.states[k]
                == before@.states[k]) by {
                key_is_there(self.keys@, k, 0);
                key_is_there(before.keys@, k, 0);
                if self@.states.contains_key(k) {
                    let i = key_from(self.keys@, k, 0)->0;
                    let earlier = if i < at { i } else { i + 1 };
                    assert(self.keys@[i] == before.keys@[earlier]);
                    before.key_stands_at(earlier);
                    if k == key@ {
                        assert(before.keys@[earlier]@ == before.keys@[at as int]@);
                    }
                } else if before@.states.contains_key(k) && k != key@ {
                    let i = key_from(before.keys@, k, 0)->0;
                    let later = if i < at { i } else { i - 1 };
                    assert(self.keys@[later] == before.keys@[i]);
                }
            }
            assert(self@.states =~= before@.without(key@).states);
        }
    }

    /// The newest token of a key, where it is claimed.
    pub fn latest_claim(&self, animation_key: &str) -> (r: Option<u64>)
        requires
            self.wf(),
        ensures
            r == (if is_claimed(self@, animation_key@) {
                Some(newest(self@, animation_key@))
            } else {
                None
            }),
    {
        match self.position(animation_key) {
            Some(at) => Some(self.states[at].request_seq),
            None => None,
        }
    }

    /// Whether there is another token of a key.
    pub fn can_request(&self, animation_key: &str) -> (r: bool)
        requires
            self.wf(),
        ensures
            r == (newest(self@, animation_key@) < u64::MAX),
    {
        match self.position(animation_key) {
            Some(at) => self.states[at].request_seq < u64::MAX,
            None => self.spent < u64::MAX,
        }
    }

    /// Claim the newest token of a key. All older ones are superseded.
    pub fn request(&mut self, animation_key: &str) -> (r: u64)
        requires
            old(self).wf(),
            newest(old(self)@, animation_key@) < u64::MAX,
        ensures
            final(self).wf(),
            final(self)@ == requested(old(self)@, animation_key@),
            r == newest(old(self)@, animation_key@) + 1,
    {
        match self.position(animation_key) {
            Some(at) => {
                let mut state = self.states[at];
                state.request_seq = state.request_seq + 1;
                self.set_state(at, animation_key, state);
                state.request_seq
            },
            None => {
                let seq: u64 = self.spent + 1;
                self.add_state(
                    animation_key,
                    AnimationState {
                        request_seq: seq,
                        running_request: 0,
                        in_progress: false,
                        started_at: None,
                        phase: AnimationPhase::Waiting,
                    },
                );
                seq
            },
        }
    }

    /// Whether a token is the newest one of a key, and whether one renders. Where nobody
    /// claims the key any more, there is no newer one.
    pub fn observe(&self, animation_key: &str, seq: u64) -> (r: (bool, bool))
        requires
            self.wf(),
        ensures
            r == observed(self@, animation_key@, seq),
    {
        match self.position(animation_key) {
            Some(at) => (self.states[at].request_seq == seq, self.states[at].in_progress),
            None => (true, false),
        }
    }

    /// Take the slot of a key. Only the newest token can, and only while it is free.
    pub fn try_start(&mut self, animation_key: &str, seq: u64, now_ms: u64) -> (r: bool)
        requires
            old(self).wf(),
        ensures
            final(self).wf(),
            r == may_start(old(self)@, animation_key@, seq),
            final(self)@ == started(old(self)@, animation_key@, seq, now_ms),
    {
        match self.position(animation_key) {
            Some(at) => {
                let mut state = self.states[at];
                if state.request_seq == seq && !state.in_progress {
                    state.in_progress = true;
                    state.running_request = seq;
                    state.started_at = Some(now_ms);
                    state.phase = AnimationPhase::Running;
                    self.set_state(at, animation_key, state);
                    true
                } else {
                    false
                }
            },
            None => false,
        }
    }

    /// Whether a token holds the slot of a key. It does until it lets go, even where a
    /// newer one was claimed, so that the newer one does not start before.
    pub fn is_owner(&self, animation_key: &str, seq: u64) -> (r: bool)
        requires
            self.wf(),
        ensures
            r == owns(self@, animation_key@, seq),
    {
        match self.position(animation_key) {
            Some(at) => self.states[at].in_progress && self.states[at].running_request == seq,
            None => false,
        }
    }

    /// Note that a token has rendered its last frame, and does not lose the slot from now
    /// on. Tells whether it had it.
    pub fn mark_post_render(&mut self, animation_key: &str, seq: u64) -> (r: bool)
        requires
            old(self).wf(),
        ensures
            final(self).wf(),
            r == owns(old(self)@, animation_key@, seq),
            final(self)@ == post_rendering(old(self)@, animation_key@, seq),
    {
        match self.position(animation_key) {
            Some(at) => {
                let mut state = self.states[at];
                if state.in_progress && state.running_request == seq {
                    state.phase = AnimationPhase::PostRender;
                    self.set_state(at, animation_key, state);
                    true
                } else {
                    false
                }
            },
            None => false,
        }
    }

    /// Take the slot of a key away from one that renders for too long. Where that
    /// happens, those that wait are to be woken.
    pub fn takeover_if_stale(&mut self, animation_key: &str, budget_ms: u64, now_ms: u64) -> (r: bool)
        requires
            old(self).wf(),
        ensures
            final(self).wf(),
            r == is_stale(old(self)@, animation_key@, budget_ms, now_ms),
            final(self)@ == taken_over(old(self)@, animation_key@, budget_ms, now_ms),
    {
        match self.position(animation_key) {
            Some(at) => {
                let mut state = self.states[at];
                let is_late = match state.started_at {
                    Some(started_at) => now_ms > started_at && now_ms - started_at > budget_ms,
                    None => false,
                };
                if state.in_progress && state.phase == AnimationPhase::Running && is_late {
                    state.release();
                    self.set_state(at, animation_key, state);
                    true
                } else {
                    false
                }
            },
            None => false,
        }
    }

    /// Whether a token holds the slot of a key and is still the newest one.
    pub fn is_current(&self, animation_key: &str, seq: u64) -> (r: bool)
        requires
            self.wf(),
        ensures
            r == leads(self@, animation_key@, seq),
    {
        match self.position(animation_key) {
            Some(at) => self.states[at].in_progress && self.states[at].request_seq == seq
                && self.states[at].running_request == seq,
            None => false,
        }
    }

    /// Let go of the slot of a key, and forget the key where that was its newest token.
    /// Those that wait are to be woken.
    pub fn complete(&mut self, animation_key: &str, seq: u64)
        requires
            old(self).wf(),
        ensures
            final(self).wf(),
            final(self)@ == completed(old(self)@, animation_key@, seq),
    {
        match self.position(animation_key) {
            Some(at) => {
                let mut state = self.states[at];
                if state.in_progress && state.running_request == seq {
                    if state.request_seq == seq {
                        self.forget(at, animation_key);
                    } else {
                        state.release();
                        self.set_state(at, animation_key, state);
                    }
                }
            },
            None => {},
        }
    }

    /// A key is found where it stands.
    proof fn key_stands_at(&self, at: int)
        requires
            self.wf(),
            0 <= at < self.keys@.len(),
        ensures
            key_from(self.keys@, self.keys@[at]@, 0) == Some(at),
            self@.states.contains_key(self.keys@[at]@),
            self@.states[self.keys@[at]@] == self.states@[at],
    {
        let key = self.keys@[at]@;
        key_is_there(self.keys@, key, 0);
        let found = key_from(self.keys@, key, 0)->0;
        if found < at {
            assert(self.keys@[found]@ != self.keys@[at]@);
        }
        if at < found {
            assert(self.keys@[at]@ != self.keys@[found]@);
        }
    }

    /// How many claims of a kind render.
    pub fn count_in_progress(&self, animation_key_prefix: AnimationPrefix) -> (r: usize)
        requires
            self.wf(),
        ensures
            rendering_keys(self@, prefix_of(animation_key_prefix)).finite(),
            r == rendering_keys(self@, prefix_of(animation_key_prefix)).len(),
    {
        let prefix = prefix_text(animation_key_prefix);
        let ghost all = rendering_keys(self@, prefix@);
        let ghost mut found: Set<Seq<char>> = Set::empty();
        let mut count: usize = 0;
        let mut i: usize = 0;
        assert forall|key: Seq<char>| all.contains(key) implies #[trigger] key_from(
            self.keys@,
            key,
            0,
        )->0 >= 0 by {
            key_is_there(self.keys@, key, 0);
        }
        while i < self.keys.len()
            invariant
                self.wf(),
                i <= self.keys@.len(),
                all == rendering_keys(self@, prefix@),
                found.finite(),
                count == found.len(),
                count <= i,
                forall|key: Seq<char>| #[trigger]
                    found.contains(key) == (all.contains(key) && key_from(self.keys@, key, 0)->0
                        < i),
            decreases self.keys@.len() - i,
        {
            let ghost key = self.keys@[i as int]@;
            let ghost earlier = found;
            proof {
                self.key_stands_at(i as int);
            }
            if self.states[i].in_progress && text::starts_with(self.keys[i].as_str(), prefix) {
                count = count + 1;
                proof {
                    found = found.insert(key);
                }
            }
            i = i + 1;
            proof {
                assert forall|other: Seq<char>| #[trigger]
                    found.contains(other) == (all.contains(other) && key_from(self.keys@, other, 0)->0
                        < i) by {
                    key_is_there(self.keys@, other, 0);
                    assert(earlier.contains(other) == (all.contains(other) && key_from(
                        self.keys@,
                        other,
                        0,
                    )->0 < i - 1));
                }
            }
        }
        proof {
            assert forall|key: Seq<char>| #[trigger] found.contains(key) == all.contains(key) by {
                key_is_there(self.keys@, key, 0);
            }
            assert(found =~= all);
        }
        count
    }

    /// How many keys are claimed.
    pub fn count(&self) -> (r: usize)
        requires
            self.wf(),
        ensures
            claimed_keys(self@).finite(),
            r == claimed_keys(self@).len(),
    {
        proof {
            let names = self.keys@.map_values(|key: String| key@);
            assert forall|i: int, j: int|
                0 <= i < names.len() && 0 <= j < names.len() && i != j implies names[i]
                != names[j] by {
                if i < j {
                    assert(self.keys@[i]@ != self.keys@[j]@);
                } else {
                    assert(self.keys@[j]@ != self.keys@[i]@);
                }
            }
            names.unique_seq_to_set();
            assert forall|key: Seq<char>| names.to_set().contains(key) == claimed_keys(
                self@,
            ).contains(key) by {
                key_is_there(self.keys@, key, 0);
                if names.contains(key) {
                    let i = choose|i: int| 0 <= i < names.len() && names[i] == key;
                    self.key_stands_at(i);
                }
                if claimed_keys(self@).contains(key) {
                    assert(names[key_from(self.keys@, key, 0)->0] == key);
                }
            }
            assert(names.to_set() =~= claimed_keys(self@));
        }
        self.keys.len()
    }
}

impl Default for AnimationManager {
    fn default() -> (r: Self)
        ensures
            r.wf(),
            r@ == no_claims(),
    {
        Self::new()
    }
}

proof fn appended(before: Seq<String>, after: Seq<String>, from: int)
    requires
        0 <= from <= before.len(),
        after.len() == before.len() + 1,
        forall|k: int| 0 <= k < before.len() ==> #[trigger] after[k] == before[k],
        forall|k: int| from <= k < before.len() ==> (#[trigger] before[k])@ != after.last()@,
    ensures
        key_from(after, after.last()@, from) == Some(before.len() as int),
    decreases before.len() - from,
{
    if from < before.len() {
        assert(after[from]@ == before[from]@);
        appended(before, after, from + 1);
    }
}

proof fn others_stay(before: Seq<String>, after: Seq<String>, key: Seq<char>, from: int)
    requires
        0 <= from,
        after.len() == before.len() + 1,
        forall|k: int| 0 <= k < before.len() ==> #[trigger] after[k] == before[k],
        after.last()@ != key,
    ensures
        key_from(after, key, from) == key_from(before, key, from),
    decreases after.len() - from,
{
    if from < after.len() {
        others_stay(before, after, key, from + 1);
    }
}

/// Something that is done with the claims of a key.
pub enum ClaimStep {
    Request(Seq<char>),
    Start { key: Seq<char>, seq: u64, now_ms: u64 },
    PostRender { key: Seq<char>, seq: u64 },
    Takeover { key: Seq<char>, budget_ms: u64, now_ms: u64 },
    Complete { key: Seq<char>, seq: u64 },
}

/// The claims after a step. There is no token after the largest one.
pub open spec fn stepped(claims: Claims, step: ClaimStep) -> Claims {
    match step {
        ClaimStep::Request(key) => if newest(claims, key) < u64::MAX {
            requested(claims, key)
        } else {
            claims
        },
        ClaimStep::Start { key, seq, now_ms } => started(claims, key, seq, now_ms),
        ClaimStep::PostRender { key, seq } => post_rendering(claims, key, seq),
        ClaimStep::Takeover { key, budget_ms, now_ms } => taken_over(
            claims,
            key,
            budget_ms,
            now_ms,
        ),
        ClaimStep::Complete { key, seq } => completed(claims, key, seq),
    }
}

/// The claims after some steps.
pub open spec fn after(claims: Claims, steps: Seq<ClaimStep>) -> Claims
    decreases steps.len(),
{
    if steps.len() == 0 {
        claims
    } else {
        stepped(after(claims, steps.drop_last()), steps.last())
    }
}

/// Whatever is done with the claims, the states stay valid, and the newest token of a key
/// never becomes smaller.
pub proof fn tokens_only_grow(
    claims: Claims,
    steps: Seq<ClaimStep>,
    key: Seq<char>,
)
    requires
        valid(claims),
    ensures
        valid(after(claims, steps)),
        newest(claims, key) <= newest(after(claims, steps), key),
    decreases steps.len(),
{
    if steps.len() > 0 {
        tokens_only_grow(claims, steps.drop_last(), key);
    }
}

/// A token that is claimed is greater than every earlier one of the key, whatever was done
/// with the claims in between. From the later claim on the earlier token never starts
/// again, and never counts as the newest one while the key is claimed.
pub proof fn tokens_never_repeat(
    claims: Claims,
    key: Seq<char>,
    between: Seq<ClaimStep>,
    later: Seq<ClaimStep>,
)
    requires
        valid(claims),
        newest(claims, key) < u64::MAX,
        newest(after(requested(claims, key), between), key) < u64::MAX,
    ensures
        ({
            let earlier = (newest(claims, key) + 1) as u64;
            let before = after(requested(claims, key), between);
            let newer = newest(before, key) + 1;
            let claimed = requested(before, key);
            let end = after(claimed, later);
            &&& earlier < newer
            &&& !observed(claimed, key, earlier).0
            &&& !may_start(claimed, key, earlier)
            &&& !leads(claimed, key, earlier)
            &&& is_claimed(end, key) ==> !observed(end, key, earlier).0
            &&& !may_start(end, key, earlier)
        }),
{
    let first = requested(claims, key);
    tokens_only_grow(first, between, key);
    let claimed = requested(after(first, between), key);
    tokens_only_grow(claimed, later, key);
}

/// A newer claim supersedes all older ones: none of them counts as the newest, leads or
/// can start.
pub proof fn newer_claims_supersede(
    claims: Claims,
    key: Seq<char>,
    older: u64,
)
    requires
        older <= newest(claims, key) < u64::MAX,
    ensures
        !observed(requested(claims, key), key, older).0,
        !leads(requested(claims, key), key, older),
        !may_start(requested(claims, key), key, older),
{
}

/// Of two claims in a row only the later one is the newest, and each token that they give
/// is the next one. Claims neither take nor free the slot: one renders after them where one
/// did before, and the same token holds the slot.
pub proof fn only_the_newest_claim_counts(claims: Claims, key: Seq<char>)
    requires
        valid(claims),
        newest(claims, key) + 2 <= u64::MAX,
    ensures
        ({
            let once = requested(claims, key);
            let twice = requested(once, key);
            let first = newest(once, key);
            let second = newest(twice, key);
            let is_held = exists|seq: u64| owns(claims, key, seq);
            &&& first == newest(claims, key) + 1
            &&& second == first + 1
            &&& observed(twice, key, second) == (true, is_held)
            &&& observed(twice, key, first) == (false, is_held)
            &&& forall|seq: u64| #[trigger] owns(twice, key, seq) == owns(claims, key, seq)
        }),
{
    if state_of(claims, key).in_progress {
        assert(owns(claims, key, state_of(claims, key).running_request));
    }
}

/// Of a key that is not claimed every token counts as the newest one, and none renders,
/// starts or is current.
pub proof fn unclaimed_keys_have_no_newer_token(claims: Claims, key: Seq<char>, seq: u64)
    requires
        !is_claimed(claims, key),
    ensures
        observed(claims, key, seq) == (true, false),
        !owns(claims, key, seq),
        !leads(claims, key, seq),
        !may_start(claims, key, seq),
{
}

/// At most one token holds the slot of a key.
pub proof fn one_owner(claims: Claims, key: Seq<char>, a: u64, b: u64)
    requires
        owns(claims, key, a),
        owns(claims, key, b),
    ensures
        a == b,
{
}

/// A token is current where it holds the slot and counts as the newest one. That is so of
/// one token at most; of none right after a claim; not of a token that has let go; and of
/// none where the key is not claimed.
pub proof fn the_current_token_owns_and_is_newest(
    claims: Claims,
    key: Seq<char>,
    seq: u64,
    other: u64,
)
    requires
        valid(claims),
    ensures
        leads(claims, key, seq) == (owns(claims, key, seq) && observed(
            claims,
            key,
            seq,
        ).0),
        leads(claims, key, seq) && leads(claims, key, other) ==> seq == other,
        newest(claims, key) < u64::MAX ==> !leads(requested(claims, key), key, seq),
        !leads(completed(claims, key, seq), key, seq),
        !is_claimed(claims, key) ==> !leads(claims, key, seq),
{
}

/// A claim leaves the one that renders in the slot, so that the new one cannot start
/// before it has let go.
pub proof fn claims_wait_for_the_owner(
    claims: Claims,
    key: Seq<char>,
    owner: u64,
    seq: u64,
)
    requires
        owns(claims, key, owner),
        newest(claims, key) < u64::MAX,
    ensures
        owns(requested(claims, key), key, owner),
        !may_start(requested(claims, key), key, seq),
{
}

/// The newest claim can start once the one before it has let go.
pub proof fn the_newest_claim_starts(
    claims: Claims,
    key: Seq<char>,
    owner: u64,
    now_ms: u64,
)
    requires
        valid(claims),
        owns(claims, key, owner),
        newest(claims, key) < u64::MAX,
    ensures
        ({
            let newer = (newest(claims, key) + 1) as u64;
            let free = completed(requested(claims, key), key, owner);
            may_start(free, key, newer) && leads(started(free, key, newer, now_ms), key, newer)
        }),
{
}

/// A slot is taken over where it is held, its holder has not rendered its last frame, and
/// has held it for longer than the budget. Nobody holds it afterwards, and the newest
/// token, which stays the newest, can start. Otherwise nothing changes, and no other key
/// ever does.
pub proof fn only_late_holders_lose_the_slot(
    claims: Claims,
    key: Seq<char>,
    budget_ms: u64,
    now_ms: u64,
    seq: u64,
    other: Seq<char>,
)
    requires
        valid(claims),
    ensures
        ({
            let state = state_of(claims, key);
            let freed = taken_over(claims, key, budget_ms, now_ms);
            let stale = is_stale(claims, key, budget_ms, now_ms);
            &&& stale == (owns(claims, key, state.running_request) && state.phase
                != AnimationPhase::PostRender && now_ms - state.started_at->0 > budget_ms)
            &&& stale ==> {
                &&& !owns(freed, key, seq)
                &&& newest(freed, key) == newest(claims, key)
                &&& may_start(freed, key, newest(claims, key))
            }
            &&& !stale ==> freed == claims
            &&& other != key ==> state_of(freed, other) == state_of(claims, other)
        }),
{
}

/// The time of a slot is that at which it was taken, for as long as it is held.
pub proof fn holders_keep_their_start(
    claims: Claims,
    key: Seq<char>,
    seq: u64,
    now_ms: u64,
    step: ClaimStep,
)
    ensures
        may_start(claims, key, seq) ==> state_of(
            started(claims, key, seq, now_ms),
            key,
        ).started_at == Some(now_ms),
        owns(claims, key, seq) && owns(stepped(claims, step), key, seq) ==> state_of(
            stepped(claims, step),
            key,
        ).started_at == state_of(claims, key).started_at,
{
}

/// One that has rendered its last frame never loses the slot, however long it takes.
pub proof fn post_rendering_is_not_taken_over(
    claims: Claims,
    key: Seq<char>,
    seq: u64,
    budget_ms: u64,
    now_ms: u64,
)
    requires
        owns(claims, key, seq),
    ensures
        ({
            let last = post_rendering(claims, key, seq);
            taken_over(last, key, budget_ms, now_ms) == last && owns(last, key, seq)
        }),
{
}

/// A token that does not hold the slot, be it that it has lost it, never had it or is
/// none, changes nothing when it lets go or ends.
pub proof fn losers_leave_the_slot_alone(
    claims: Claims,
    key: Seq<char>,
    loser: u64,
)
    requires
        !owns(claims, key, loser),
    ensures
        completed(claims, key, loser) == claims,
        post_rendering(claims, key, loser) == claims,
{
}

/// A set without one of its elements.
proof fn one_less(smaller: Set<Seq<char>>, larger: Set<Seq<char>>, key: Seq<char>)
    requires
        larger.finite(),
        larger.contains(key),
        forall|k: Seq<char>| #[trigger]
            smaller.contains(k) == (larger.contains(k) && k != key),
    ensures
        smaller.finite(),
        smaller.len() + 1 == larger.len(),
{
    assert(smaller =~= larger.remove(key));
}

/// Once its holder has let go, nobody holds a slot. The key is forgotten where that was
/// the newest token; otherwise it stays claimed, and keeps its newest token. Either way the
/// next token of it is a greater one. The other keys never change.
pub proof fn completed_claims_free_the_slot(
    claims: Claims,
    key: Seq<char>,
    seq: u64,
    any: u64,
    other: Seq<char>,
)
    requires
        valid(claims),
        owns(claims, key, seq),
    ensures
        ({
            let end = completed(claims, key, seq);
            let claimed = claimed_keys(claims).len();
            &&& !owns(end, key, any)
            &&& newest(end, key) >= newest(claims, key)
            &&& is_claimed(end, key) == !observed(claims, key, seq).0
            &&& is_claimed(end, key) ==> newest(end, key) == newest(claims, key)
            &&& claimed_keys(end).len() == (if observed(claims, key, seq).0 {
                claimed - 1
            } else {
                claimed as int
            })
            &&& other != key ==> state_of(end, other) == state_of(claims, other)
        }),
{
    let end = completed(claims, key, seq);
    if observed(claims, key, seq).0 {
        one_less(claimed_keys(end), claimed_keys(claims), key);
    } else {
        assert(claimed_keys(end) =~= claimed_keys(claims));
    }
}

/// No more claims render than keys are claimed, and each of them has a holder.
pub proof fn rendering_keys_are_claimed(
    claims: Claims,
    prefix: Seq<char>,
)
    requires
        valid(claims),
    ensures
        rendering_keys(claims, prefix).finite(),
        claimed_keys(claims).finite(),
        rendering_keys(claims, prefix).len() <= claimed_keys(claims).len(),
        forall|key: Seq<char>| #[trigger]
            rendering_keys(claims, prefix).contains(key) == (prefix.is_prefix_of(key) && exists|
                seq: u64,
            | owns(claims, key, seq)),
{
    let rendering = rendering_keys(claims, prefix);
    let claimed = claimed_keys(claims);
    assert(rendering.subset_of(claimed));
    vstd::set_lib::lemma_len_subset(rendering, claimed);
    assert forall|key: Seq<char>| #[trigger]
        rendering.contains(key) == (prefix.is_prefix_of(key) && exists|seq: u64|
            owns(claims, key, seq)) by {
        if rendering.contains(key) {
            assert(owns(claims, key, state_of(claims, key).running_request));
        }
    }
}

/// A claim leaves the number of claims of a kind that render as it is. One that
/// starts adds one, and one that lets go or loses the slot takes one away.
pub proof fn starts_and_ends_are_counted(
    claims: Claims,
    prefix: Seq<char>,
    key: Seq<char>,
    seq: u64,
    budget_ms: u64,
    now_ms: u64,
)
    requires
        valid(claims),
        prefix.is_prefix_of(key),
    ensures
        ({
            let count = rendering_keys(claims, prefix).len();
            &&& rendering_keys(requested(claims, key), prefix).len() == count
            &&& may_start(claims, key, seq) ==> rendering_keys(
                started(claims, key, seq, now_ms),
                prefix,
            ).len() == count + 1
            &&& owns(claims, key, seq) ==> rendering_keys(
                completed(claims, key, seq),
                prefix,
            ).len() == count - 1
            &&& is_stale(claims, key, budget_ms, now_ms) ==> rendering_keys(
                taken_over(claims, key, budget_ms, now_ms),
                prefix,
            ).len() == count - 1
        }),
{
    let rendering = rendering_keys(claims, prefix);
    assert(rendering_keys(requested(claims, key), prefix) =~= rendering);
    if may_start(claims, key, seq) {
        let more = rendering_keys(started(claims, key, seq, now_ms), prefix);
        assert(more =~= rendering.insert(key));
    }
    if owns(claims, key, seq) {
        one_less(rendering_keys(completed(claims, key, seq), prefix), rendering, key);
    }
    if is_stale(claims, key, budget_ms, now_ms) {
        one_less(
            rendering_keys(taken_over(claims, key, budget_ms, now_ms), prefix),
            rendering,
            key,
        );
    }
}

} // verus!
