use vstd::prelude::*;
use crate::keybinds::{bindings, lookup_action, reverse_lookup, KeyCode, KeybindMap, Keybinds};

verus! {

/// Which camera-relative basis vectors a tick's movement sums: one flag per
/// movement action. Jump is bound but moves nothing here.
#[derive(Clone, Copy, Debug, PartialEq, Eq, Structural)]
pub struct MoveIntent {
    pub forward: bool,
    pub backward: bool,
    pub left: bool,
    pub right: bool,
}

/// Some key of `pressed` is bound to action `a` in `m`.
pub open spec fn action_pressed(m: Map<Keybinds, KeyCode>, pressed: Seq<KeyCode>, a: Keybinds) -> bool {
    exists|i: int| 0 <= i < pressed.len() && reverse_lookup(m, pressed[i]) == Some(a)
}

/// The intent that the pressed keys give under the bindings `m`.
pub open spec fn intent_of(m: Map<Keybinds, KeyCode>, pressed: Seq<KeyCode>) -> MoveIntent {
    MoveIntent {
        forward: action_pressed(m, pressed, Keybinds::Forward),
        backward: action_pressed(m, pressed, Keybinds::Backward),
        left: action_pressed(m, pressed, Keybinds::Left),
        right: action_pressed(m, pressed, Keybinds::Right),
    }
}

impl MoveIntent {
    pub open spec fn spec_is_still(&self) -> bool {
        !self.forward && !self.backward && !self.left && !self.right
    }

    /// No basis vector is selected: the displacement is zero.
    #[verifier::when_used_as_spec(spec_is_still)]
    pub fn is_still(&self) -> (r: bool)
        ensures
            r == self.spec_is_still(),
    {
        !self.forward && !self.backward && !self.left && !self.right
    }
}

/// Collects, over every pressed key, the movement action it is bound to. Each
/// pressed movement action contributes; none overrides another.
pub fn movement_intent(pressed: &Vec<KeyCode>, map: &KeybindMap) -> (r: MoveIntent)
    ensures
        r == intent_of(bindings(*map), pressed@),
{
    let ghost m = bindings(*map);
    let mut r = MoveIntent { forward: false, backward: false, left: false, right: false };
    let mut i: usize = 0;
    while i < pressed.len()
        invariant
            i <= pressed.len(),
            m == bindings(*map),
            r == intent_of(m, pressed@.take(i as int)),
        decreases pressed.len() - i,
    {
        let k = pressed[i];
        let a = lookup_action(map, k);
        match a {
            Some(Keybinds::Forward) => r.forward = true,
            Some(Keybinds::Backward) => r.backward = true,
            Some(Keybinds::Left) => r.left = true,
            Some(Keybinds::Right) => r.right = true,
            _ => {},
        }
        proof {
            let prev = pressed@.take(i as int);
            let next = pressed@.take(i + 1);
            assert(next[i as int] == k);
            assert forall|x: Keybinds| action_pressed(m, next, x) == (action_pressed(m, prev, x) || reverse_lookup(m, k) == Some(x)) by {
                if action_pressed(m, next, x) {
                    let j = choose|j: int| 0 <= j < next.len() && reverse_lookup(m, next[j]) == Some(x);
                    if j < i {
                        assert(prev[j] == next[j]);
                    }
                }
                if action_pressed(m, prev, x) {
                    let j = choose|j: int| 0 <= j < prev.len() && reverse_lookup(m, prev[j]) == Some(x);
                    assert(prev[j] == next[j]);
                }
            }
        }
        i = i + 1;
    }
    assert(pressed@.take(pressed@.len() as int) == pressed@);
    r
}

/// With no key pressed, no basis vector is selected, whatever the bindings.
pub proof fn lemma_no_keys_no_motion(m: Map<Keybinds, KeyCode>, pressed: Seq<KeyCode>)
    requires
        pressed.len() == 0,
    ensures
        intent_of(m, pressed).spec_is_still(),
{
}

/// Keys pressed together accumulate: when one pressed key is bound to forward
/// and another to left, both basis vectors are selected.
pub proof fn lemma_keys_accumulate(m: Map<Keybinds, KeyCode>, pressed: Seq<KeyCode>, i: int, j: int)
    requires
        0 <= i < pressed.len(),
        0 <= j < pressed.len(),
        reverse_lookup(m, pressed[i]) == Some(Keybinds::Forward),
        reverse_lookup(m, pressed[j]) == Some(Keybinds::Left),
    ensures
        intent_of(m, pressed).forward,
        intent_of(m, pressed).left,
{
}

} // verus!
