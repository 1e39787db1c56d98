//! The set of device paths that cameras of this process hold open.

use vstd::prelude::*;
use vstd::string::*;

verus! {

/// The devices that cameras of this process hold open: a device is reserved before it is
/// opened and released when the camera lets go of it, so no two cameras write to one device.
/// The names are kept in a list in which none occurs twice (the type invariant).
pub struct DeviceRegistry {
    names: Vec<String>,
}

impl View for DeviceRegistry {
    type V = Set<Seq<char>>;

    closed spec fn view(&self) -> Set<Seq<char>> {
        Set::new(|s: Seq<char>| exists|i: int| 0 <= i < self.names@.len() && self.names@[i]@ == s)
    }
}

/// The position of the name `name` in `names`, if it is there.
fn position(names: &Vec<String>, name: &str) -> (pos: Option<usize>)
    ensures
        pos matches Some(i) ==> i < names@.len() && names@[i as int]@ == name@,
        pos is None ==> forall|k: int| 0 <= k < names@.len() ==> names@[k]@ != name@,
{
    let wanted = String::from_str(name);
    let mut i: usize = 0;
    while i < names.len()
        invariant
            wanted@ == name@,
            i <= names@.len(),
            forall|k: int| 0 <= k < i ==> names@[k]@ != name@,
        decreases names@.len() - i,
    {
        if names[i] == wanted {
            return Some(i);
        }
        i = i + 1;
    }
    None
}

impl DeviceRegistry {
    /// No name is held twice.
    #[verifier::type_invariant]
    spec fn names_distinct(self) -> bool {
        forall|i: int, j: int|
            0 <= i < j < self.names@.len() ==> #[trigger] self.names@[i]@ != #[trigger] self.names@[j]@
    }

    /// A registry that holds no device.
    pub fn new() -> (registry: Self)
        ensures
            registry@ == Set::<Seq<char>>::empty(),
    {
        let registry = DeviceRegistry { names: Vec::new() };
        assert(registry@ =~= Set::<Seq<char>>::empty());
        registry
    }

    /// Whether `name` is held.
    pub fn contains(&self, name: &str) -> (held: bool)
        ensures
            held == self@.contains(name@),
    {
        match position(&self.names, name) {
            Some(i) => {
                assert(self@.contains(name@)) by {
                    assert(self.names@[i as int]@ == name@);
                }
                true
            },
            None => false,
        }
    }

    /// Reserves `name` if no camera holds it. Returns whether it was free; a held name is
    /// left as it is.
    pub fn try_reserve(&mut self, name: &str) -> (reserved: bool)
        ensures
            reserved == !old(self)@.contains(name@),
            final(self)@ == old(self)@.insert(name@),
    {
        proof {
            use_type_invariant(&*self);
        }
        if self.contains(name) {
            assert(self@.insert(name@) =~= self@);
            return false;
        }
        let ghost before = self@;
        let mut names: Vec<String> = Vec::new();
        std::mem::swap(&mut names, &mut self.names);
        let ghost old_names = names@;
        assert(forall|k: int| 0 <= k < old_names.len() ==> old_names[k]@ != name@) by {
            assert forall|k: int| 0 <= k < old_names.len() implies old_names[k]@ != name@ by {
                if old_names[k]@ == name@ {
                    assert(before.contains(old_names[k]@));
                }
            }
        }
        names.push(String::from_str(name));
        assert forall|i: int, j: int| 0 <= i < j < names@.len() implies #[trigger] names@[i]@
            != #[trigger] names@[j]@ by {
            if j < old_names.len() {
                assert(old_names[i]@ != old_names[j]@);
            }
        }
        self.names = names;
        assert(self@ =~= before.insert(name@)) by {
            assert forall|s: Seq<char>| before.insert(name@).contains(s) implies #[trigger] self@.contains(s) by {
                if s == name@ {
                    assert(self.names@[self.names@.len() - 1]@ == s);
                } else {
                    let i = choose|i: int| 0 <= i < old_names.len() && old_names[i]@ == s;
                    assert(self.names@[i]@ == s);
                }
            }
            assert forall|s: Seq<char>| #[trigger] self@.contains(s) implies before.insert(name@).contains(s) by {
                let k = choose|k: int| 0 <= k < self.names@.len() && self.names@[k]@ == s;
                if k < old_names.len() {
                    assert(old_names[k]@ == s);
                }
            }
        }
        true
    }

    /// Lets go of `name`; releasing a name that is not held changes nothing.
    pub fn release(&mut self, name: &str)
        ensures
            final(self)@ == old(self)@.remove(name@),
    {
        proof {
            use_type_invariant(&*self);
        }
        let ghost before = self@;
        let mut names: Vec<String> = Vec::new();
        std::mem::swap(&mut names, &mut self.names);
        let ghost old_names = names@;
        match position(&names, name) {
            Some(p) => {
                names.remove(p);
                assert forall|i: int, j: int| 0 <= i < j < names@.len() implies #[trigger] names@[i]@
                    != #[trigger] names@[j]@ by {
                    let oi = if i < p { i } else { i + 1 };
                    let oj = if j < p { j } else { j + 1 };
                    assert(names@[i] == old_names[oi] && names@[j] == old_names[oj]);
                    assert(old_names[oi]@ != old_names[oj]@);
                }
                self.names = names;
                assert(self@ =~= before.remove(name@)) by {
                    assert forall|s: Seq<char>| before.remove(name@).contains(s) implies #[trigger] self@.contains(s) by {
                        let m = choose|m: int| 0 <= m < old_names.len() && old_names[m]@ == s;
                        assert(m != p);
                        if m < p {
                            assert(self.names@[m]@ == s);
                        } else {
                            assert(self.names@[m - 1]@ == s);
                        }
                    }
                    assert forall|s: Seq<char>| #[trigger] self@.contains(s) implies before.remove(name@).contains(s) by {
                        let k = choose|k: int| 0 <= k < self.names@.len() && self.names@[k]@ == s;
                        let ok = if k < p { k } else { k + 1 };
                        assert(self.names@[k] == old_names[ok]);
                        assert(ok != p as int);
                        if s == name@ {
                            assert(old_names[ok]@ != old_names[p as int]@);
                        }
                    }
                }
            },
            None => {
                self.names = names;
                assert(self@ =~= before.remove(name@)) by {
                    assert forall|s: Seq<char>| #[trigger] self@.contains(s) implies before.remove(name@).contains(s) by {
                        let k = choose|k: int| 0 <= k < self.names@.len() && self.names@[k]@ == s;
                        assert(old_names[k]@ != name@);
                    }
                }
            },
        }
    }
}

/// Reserving a free device and then releasing it leaves the registry as it was.
pub proof fn lemma_reserve_release_restores(before: Set<Seq<char>>, name: Seq<char>)
    requires
        !before.contains(name),
    ensures
        before.insert(name).remove(name) == before,
{
    assert(before.insert(name).remove(name) =~= before);
}

/// A device that was reserved cannot be reserved again until it is released.
pub proof fn lemma_reserved_device_is_busy(before: Set<Seq<char>>, name: Seq<char>)
    ensures
        before.insert(name).contains(name),
        !before.insert(name).remove(name).contains(name),
{
}

} // verus!
