use vstd::prelude::*;
use bimap::BiMap;
use crate::config::{Config, KeybindConfig};

verus! {

broadcast use {vstd::string::axiom_spec_iter, vstd::string::next_postcondition};

/// The logical inputs a player can trigger.
#[derive(Clone, Copy, Debug, PartialEq, Eq, Hash, Structural)]
pub enum Keybinds {
    Forward,
    Backward,
    Left,
    Right,
    Jump,
}

/// The physical keys that a key-name string can resolve to.
#[derive(Clone, Copy, Debug, PartialEq, Eq, Hash, Structural)]
pub enum KeyCode {
    W,
    A,
    S,
    D,
    Space,
}

/// A key-name string that is not in the lookup table.
#[derive(Debug, PartialEq, Eq)]
pub struct UnrecognizedKeybindError(pub String);

impl UnrecognizedKeybindError {
    /// The message shown for this error.
    pub fn message(&self) -> (r: String)
        ensures
            r@ == "Unrecognized Keybind found: "@ + self.0@,
    {
        let mut r = String::from_str("Unrecognized Keybind found: ");
        r.append(self.0.as_str());
        r
    }
}

/// A key name whose key an earlier action already has.
#[derive(Debug, PartialEq, Eq)]
pub struct SharedKeybindError(pub String);

impl SharedKeybindError {
    /// The message shown for this error.
    pub fn message(&self) -> (r: String)
        ensures
            r@ == "Keybind bound to more than one action: "@ + self.0@,
    {
        let mut r = String::from_str("Keybind bound to more than one action: ");
        r.append(self.0.as_str());
        r
    }
}

/// Why a key map could not be built from a configuration.
#[derive(Debug, PartialEq, Eq)]
pub enum KeybindError {
    Unrecognized(UnrecognizedKeybindError),
    SharedKey(SharedKeybindError),
}

/// The key named by a key-name string, if the lookup table holds it.
pub open spec fn key_of(s: Seq<char>) -> Option<KeyCode> {
    if s.len() != 1 {
        None
    } else if s[0] == 'w' {
        Some(KeyCode::W)
    } else if s[0] == 'a' {
        Some(KeyCode::A)
    } else if s[0] == 's' {
        Some(KeyCode::S)
    } else if s[0] == 'd' {
        Some(KeyCode::D)
    } else if s[0] == ' ' {
        Some(KeyCode::Space)
    } else {
        None
    }
}

/// Resolves a key-name string through the lookup table.
pub fn key_from_str(s: &str) -> (r: Result<KeyCode, UnrecognizedKeybindError>)
    ensures
        match key_of(s@) {
            Some(k) => r == Ok::<KeyCode, UnrecognizedKeybindError>(k),
            None => r matches Err(e) && e.0@ == s@,
        },
{
    let mut it = s.chars();
    let first = it.next();
    let second = it.next();
    let found = match (first, second) {
        (Some(c), None) => {
            if c == 'w' {
                Some(KeyCode::W)
            } else if c == 'a' {
                Some(KeyCode::A)
            } else if c == 's' {
                Some(KeyCode::S)
            } else if c == 'd' {
                Some(KeyCode::D)
            } else if c == ' ' {
                Some(KeyCode::Space)
            } else {
                None
            }
        },
        _ => None,
    };
    match found {
        Some(k) => Ok(k),
        None => Err(UnrecognizedKeybindError(s.to_owned())),
    }
}

#[verifier::external_type_specification]
#[verifier::external_body]
#[verifier::reject_recursive_types(L)]
#[verifier::reject_recursive_types(R)]
#[verifier::reject_recursive_types(LS)]
#[verifier::reject_recursive_types(RS)]
pub struct ExBiHashMap<L, R, LS, RS>(bimap::BiHashMap<L, R, LS, RS>);

/// A bijection between actions and the keys that trigger them.
pub type KeybindMap = BiMap<Keybinds, KeyCode>;

/// The pairs that a bimap of actions and keys holds, as a map from each action
/// to its key.
pub uninterp spec fn bindings(m: KeybindMap) -> Map<Keybinds, KeyCode>;

/// The bindings of an empty bimap.
pub open spec fn no_bindings() -> Map<Keybinds, KeyCode> {
    Map::empty()
}

/// Action `a` is bound to key `k` in `m`.
pub open spec fn bound(m: Map<Keybinds, KeyCode>, a: Keybinds, k: KeyCode) -> bool {
    m.contains_key(a) && m[a] == k
}

/// The action bound to key `k` in `m`, if any.
pub open spec fn reverse_lookup(m: Map<Keybinds, KeyCode>, k: KeyCode) -> Option<Keybinds> {
    if exists|a: Keybinds| bound(m, a, k) {
        Some(choose|a: Keybinds| bound(m, a, k))
    } else {
        None
    }
}

/// Relies on bimap::BiHashMap::new: a new bimap holds no pair.
#[verifier::external_body]
fn new_bindings() -> (r: KeybindMap)
    ensures
        bindings(r) == no_bindings(),
{
    BiMap::new()
}

/// Relies on bimap::BiHashMap::insert_no_overwrite: when neither `a` nor `k`
/// is in the bimap it adds `(a, k)` and succeeds; otherwise it leaves the
/// bimap as it was and fails.
#[verifier::external_body]
fn insert_new_binding(m: &mut KeybindMap, a: Keybinds, k: KeyCode) -> (r: bool)
    ensures
        r == !(bindings(*old(m)).contains_key(a) || exists|x: Keybinds|
            bound(bindings(*old(m)), x, k)),
        r ==> bindings(*final(m)) == bindings(*old(m)).insert(a, k),
        !r ==> bindings(*final(m)) == bindings(*old(m)),
{
    m.insert_no_overwrite(a, k).is_ok()
}

/// Relies on bimap::BiHashMap::get_by_right: it returns the one action that the
/// bimap pairs with `k`, if there is one.
#[verifier::external_body]
fn action_of_key(m: &KeybindMap, k: &KeyCode) -> (r: Option<Keybinds>)
    ensures
        r is None <==> !(exists|a: Keybinds| bound(bindings(*m), a, *k)),
        forall|a: Keybinds| bound(bindings(*m), a, *k) ==> r == Some(a),
{
    m.get_by_right(k).copied()
}

/// The action bound to key `k` in `m`, if any.
pub fn lookup_action(m: &KeybindMap, k: KeyCode) -> (r: Option<Keybinds>)
    ensures
        r == reverse_lookup(bindings(*m), k),
{
    let r = action_of_key(m, &k);
    proof {
        if exists|a: Keybinds| bound(bindings(*m), a, k) {
            let a = choose|a: Keybinds| bound(bindings(*m), a, k);
            assert(r == Some(a));
        }
    }
    r
}

/// The map that binds each action to its key.
pub open spec fn built_bindings(
    f: KeyCode,
    b: KeyCode,
    l: KeyCode,
    r: KeyCode,
    j: KeyCode,
) -> Map<Keybinds, KeyCode> {
    no_bindings().insert(Keybinds::Forward, f).insert(Keybinds::Backward, b).insert(
        Keybinds::Left,
        l,
    ).insert(Keybinds::Right, r).insert(Keybinds::Jump, j)
}

/// All five key names of `kb` are in the lookup table.
pub open spec fn all_recognized(kb: KeybindConfig) -> bool {
    &&& key_of(kb.forward@) is Some
    &&& key_of(kb.backward@) is Some
    &&& key_of(kb.left@) is Some
    &&& key_of(kb.right@) is Some
    &&& key_of(kb.jump@) is Some
}

/// The bindings that the key names of `kb` describe.
pub open spec fn configured_bindings(kb: KeybindConfig) -> Map<Keybinds, KeyCode> {
    built_bindings(
        key_of(kb.forward@)->0,
        key_of(kb.backward@)->0,
        key_of(kb.left@)->0,
        key_of(kb.right@)->0,
        key_of(kb.jump@)->0,
    )
}

/// The first key name of `kb`, in the order forward, backward, left, right,
/// jump, that the lookup table lacks.
pub open spec fn first_unrecognized(kb: KeybindConfig) -> Seq<char> {
    if key_of(kb.forward@) is None {
        kb.forward@
    } else if key_of(kb.backward@) is None {
        kb.backward@
    } else if key_of(kb.left@) is None {
        kb.left@
    } else if key_of(kb.right@) is None {
        kb.right@
    } else {
        kb.jump@
    }
}

/// The five key names of `kb` resolve to five different keys.
pub open spec fn distinct_keys(kb: KeybindConfig) -> bool {
    let f = key_of(kb.forward@);
    let b = key_of(kb.backward@);
    let l = key_of(kb.left@);
    let r = key_of(kb.right@);
    let j = key_of(kb.jump@);
    f != b && f != l && f != r && f != j && b != l && b != r && b != j && l != r && l != j
        && r != j
}

/// The first key name of `kb`, in the order backward, left, right, jump,
/// that resolves to the same key as a name before it.
pub open spec fn first_shared(kb: KeybindConfig) -> Seq<char> {
    let f = key_of(kb.forward@);
    let b = key_of(kb.backward@);
    let l = key_of(kb.left@);
    let r = key_of(kb.right@);
    if b == f {
        kb.backward@
    } else if l == f || l == b {
        kb.left@
    } else if r == f || r == b || r == l {
        kb.right@
    } else {
        kb.jump@
    }
}

/// Every action is bound in `m`, and the action bound to an action's key is
/// that action.
pub open spec fn round_trips(m: Map<Keybinds, KeyCode>) -> bool {
    forall|a: Keybinds|
        #![trigger m[a]]
        m.contains_key(a) && reverse_lookup(m, m[a]) == Some(a)
}

/// Resolves every key name of the configuration and binds each action to its
/// key. Fails on the first name that the lookup table lacks, and otherwise on
/// the first name whose key an earlier action already has; no partial map is
/// returned.
pub fn build_keybind_map(cfg: Config) -> (r: Result<KeybindMap, KeybindError>)
    ensures
        r is Ok <==> all_recognized(cfg.keybinds) && distinct_keys(cfg.keybinds),
        !all_recognized(cfg.keybinds) ==> (r matches Err(KeybindError::Unrecognized(e))
            && e.0@ == first_unrecognized(cfg.keybinds)),
        all_recognized(cfg.keybinds) && !distinct_keys(cfg.keybinds) ==> (r matches Err(
            KeybindError::SharedKey(e),
        ) && e.0@ == first_shared(cfg.keybinds)),
        r matches Ok(m) ==> bindings(m) == configured_bindings(cfg.keybinds),
        r matches Ok(m) ==> round_trips(bindings(m)),
{
    let kb = cfg.keybinds;
    let f = resolve(kb.forward.as_str())?;
    let b = resolve(kb.backward.as_str())?;
    let l = resolve(kb.left.as_str())?;
    let rt = resolve(kb.right.as_str())?;
    let j = resolve(kb.jump.as_str())?;
    let mut map = new_bindings();
    let ghost m0 = bindings(map);
    let ok_f = insert_new_binding(&mut map, Keybinds::Forward, f);
    assert(ok_f);
    let ghost m1 = bindings(map);
    if !insert_new_binding(&mut map, Keybinds::Backward, b) {
        assert(bound(m0.insert(Keybinds::Forward, f), Keybinds::Forward, b));
        return Err(KeybindError::SharedKey(SharedKeybindError(kb.backward.clone())));
    }
    assert(b != f) by {
        if b == f {
            assert(bound(m1, Keybinds::Forward, b));
        }
    }
    let ghost m2 = bindings(map);
    if !insert_new_binding(&mut map, Keybinds::Left, l) {
        if l == f {
            assert(bound(m2, Keybinds::Forward, l));
        } else {
            assert(bound(m2, Keybinds::Backward, l));
        }
        return Err(KeybindError::SharedKey(SharedKeybindError(kb.left.clone())));
    }
    assert(l != f && l != b) by {
        if l == f {
            assert(bound(m2, Keybinds::Forward, l));
        }
        if l == b {
            assert(bound(m2, Keybinds::Backward, l));
        }
    }
    let ghost m3 = bindings(map);
    if !insert_new_binding(&mut map, Keybinds::Right, rt) {
        if rt == f {
            assert(bound(m3, Keybinds::Forward, rt));
        } else if rt == b {
            assert(bound(m3, Keybinds::Backward, rt));
        } else {
            assert(bound(m3, Keybinds::Left, rt));
        }
        return Err(KeybindError::SharedKey(SharedKeybindError(kb.right.clone())));
    }
    assert(rt != f && rt != b && rt != l) by {
        if rt == f {
            assert(bound(m3, Keybinds::Forward, rt));
        }
        if rt == b {
            assert(bound(m3, Keybinds::Backward, rt));
        }
        if rt == l {
            assert(bound(m3, Keybinds::Left, rt));
        }
    }
    let ghost m4 = bindings(map);
    if !insert_new_binding(&mut map, Keybinds::Jump, j) {
        if j == f {
            assert(bound(m4, Keybinds::Forward, j));
        } else if j == b {
            assert(bound(m4, Keybinds::Backward, j));
        } else if j == l {
            assert(bound(m4, Keybinds::Left, j));
        } else {
            assert(bound(m4, Keybinds::Right, j));
        }
        return Err(KeybindError::SharedKey(SharedKeybindError(kb.jump.clone())));
    }
    assert(j != f && j != b && j != l && j != rt) by {
        if j == f {
            assert(bound(m4, Keybinds::Forward, j));
        }
        if j == b {
            assert(bound(m4, Keybinds::Backward, j));
        }
        if j == l {
            assert(bound(m4, Keybinds::Left, j));
        }
        if j == rt {
            assert(bound(m4, Keybinds::Right, j));
        }
    }
    proof {
        lemma_lookup_round_trip(kb);
    }
    Ok(map)
}

/// Resolves one key name, as a keybind build error.
fn resolve(s: &str) -> (r: Result<KeyCode, KeybindError>)
    ensures
        match key_of(s@) {
            Some(k) => r == Ok::<KeyCode, KeybindError>(k),
            None => r matches Err(KeybindError::Unrecognized(e)) && e.0@ == s@,
        },
{
    match key_from_str(s) {
        Ok(k) => Ok(k),
        Err(e) => Err(KeybindError::Unrecognized(e)),
    }
}

/// In a map built from key names that resolve to five different keys, every
/// action is bound, and the action bound to an action's key is that action.
pub proof fn lemma_lookup_round_trip(kb: KeybindConfig)
    requires
        all_recognized(kb),
        distinct_keys(kb),
    ensures
        round_trips(configured_bindings(kb)),
{
    let m = configured_bindings(kb);
    assert forall|a: Keybinds| #![trigger m[a]] m.contains_key(a) && reverse_lookup(m, m[a]) == Some(a) by {
        assert(bound(m, a, m[a]));
        let c = choose|x: Keybinds| bound(m, x, m[a]);
        assert(bound(m, c, m[a]));
        assert(c == a);
    }
}

} // verus!
