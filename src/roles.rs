//! Capabilities held by addresses: administrator, relayer and pause operator.

use vstd::prelude::*;
use crate::address::Address;
use crate::error::Error;

verus! {

/// A capability that gates some bridge operations.
#[derive(Clone, Copy, Debug, PartialEq, Eq, Structural)]
pub enum Role {
    /// Configures tokens, fees and relayers.
    Admin,
    /// Settles inbound events.
    Relayer,
    /// Pauses and unpauses the bridge.
    Pauser,
}

/// The set of (capability, holder) grants.
pub struct RoleSet {
    grants: Vec<(Role, Address)>,
}

impl View for RoleSet {
    type V = Set<(Role, Address)>;

    closed spec fn view(&self) -> Set<(Role, Address)> {
        self.grants@.to_set()
    }
}

impl RoleSet {
    /// No grant at all.
    pub fn new() -> (r: RoleSet)
        ensures
            r@ == Set::<(Role, Address)>::empty(),
    {
        let r = RoleSet { grants: Vec::new() };
        assert(r@ =~= Set::<(Role, Address)>::empty());
        r
    }

    /// Whether `account` holds `role`.
    pub fn has_role(&self, role: Role, account: &Address) -> (r: bool)
        ensures
            r == self@.contains((role, *account)),
    {
        let mut i: usize = 0;
        while i < self.grants.len()
            invariant
                i <= self.grants@.len(),
                forall|j: int| 0 <= j < i ==> self.grants@[j] != (role, *account),
            decreases self.grants@.len() - i,
        {
            let (r, a) = self.grants[i];
            if r == role && a == *account {
                assert(self.grants@[i as int] == (role, *account));
                return true;
            }
            i = i + 1;
        }
        false
    }

    /// Fails with `MissingRole` where `account` does not hold `role`.
    pub fn check_role(&self, role: Role, account: &Address) -> (r: Result<(), Error>)
        ensures
            r == (if self@.contains((role, *account)) {
                Ok(())
            } else {
                Err(Error::MissingRole)
            }),
    {
        if self.has_role(role, account) {
            Ok(())
        } else {
            Err(Error::MissingRole)
        }
    }

    /// Gives `role` to `account`.
    pub fn grant(&mut self, role: Role, account: Address)
        ensures
            final(self)@ == old(self)@.insert((role, account)),
    {
        if !self.has_role(role, &account) {
            self.grants.push((role, account));
        }
        assert(final(self)@ =~= old(self)@.insert((role, account))) by {
            assert(self.grants@.contains((role, account))) by {
                if !old(self)@.contains((role, account)) {
                    assert(self.grants@[old(self).grants@.len() as int] == (role, account));
                }
            }
            assert forall|x: (Role, Address)| #[trigger] old(self)@.contains(x) implies self@.contains(x) by {
                let j = choose|j: int| 0 <= j < old(self).grants@.len() && old(self).grants@[j] == x;
                assert(self.grants@[j] == x);
            }
        }
    }

    /// Takes `role` away from `account`.
    pub fn revoke(&mut self, role: Role, account: &Address)
        ensures
            final(self)@ == old(self)@.remove((role, *account)),
    {
        let mut kept: Vec<(Role, Address)> = Vec::new();
        let mut i: usize = 0;
        while i < self.grants.len()
            invariant
                i <= self.grants@.len(),
                forall|x: (Role, Address)| #[trigger] kept@.contains(x) <==> (x != (role, *account)
                    && exists|j: int| 0 <= j < i && self.grants@[j] == x),
            decreases self.grants@.len() - i,
        {
            let ghost before = kept@;
            let (r, a) = self.grants[i];
            let keep = !(r == role && a == *account);
            if keep {
                kept.push((r, a));
            }
            proof {
                let g = self.grants@[i as int];
                assert forall|x: (Role, Address)| #[trigger] kept@.contains(x) <==> (before.contains(x)
                    || (keep && x == g)) by {
                    if kept@.contains(x) && !before.contains(x) {
                        let k = choose|k: int| 0 <= k < kept@.len() && kept@[k] == x;
                        if k < before.len() {
                            assert(before[k] == x);
                        }
                    }
                    if before.contains(x) {
                        let k = choose|k: int| 0 <= k < before.len() && before[k] == x;
                        assert(kept@[k] == x);
                    }
                    if keep && x == g {
                        assert(kept@[kept@.len() - 1] == x);
                    }
                }
                assert forall|x: (Role, Address)| #[trigger] kept@.contains(x) <==> (x != (role, *account)
                    && exists|j: int| 0 <= j < i + 1 && self.grants@[j] == x) by {
                    if x != (role, *account) && (exists|j: int| 0 <= j < i + 1 && self.grants@[j] == x) {
                        let j = choose|j: int| 0 <= j < i + 1 && self.grants@[j] == x;
                        if j < i {
                            assert(before.contains(x));
                        }
                    }
                }
            }
            i = i + 1;
        }
        self.grants = kept;
        assert(final(self)@ =~= old(self)@.remove((role, *account)));
    }
}

} // verus!
