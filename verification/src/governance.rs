use vstd::prelude::*;
use crate::dao::Dao;
use crate::error::ErrorCode;

verus! {

/// Whether some registry in `s` already uses `name`.
pub open spec fn dao_name_taken(s: Seq<Dao>, name: Seq<char>) -> bool {
    exists|i: int| 0 <= i < s.len() && s[i].name@ == name
}

/// The root of the governance system: every registry, uniquely named and
/// numbered by its position.
pub struct Governance {
    pub daos: Vec<Dao>,
}

impl Governance {
    /// Well-formedness: each registry is well formed, carries its position
    /// as its identity, and no two registries share a name.
    pub open spec fn wf(self) -> bool {
        &&& forall|i: int| 0 <= i < self.daos@.len() ==> (#[trigger] self.daos@[i]).wf()
        &&& forall|i: int| 0 <= i < self.daos@.len() ==> (#[trigger] self.daos@[i]).id == i
        &&& forall|i: int, j: int|
            0 <= i < self.daos@.len() && 0 <= j < self.daos@.len() && i != j
                ==> self.daos@[i].name@ != self.daos@[j].name@
    }

    pub fn new() -> (g: Governance)
        ensures
            g.wf(),
            g.daos@.len() == 0,
    {
        Governance { daos: Vec::new() }
    }

    /// Creates a registry: records the caller as authority, binds the credit
    /// reference, starts the proposal counter at zero. Fails if the name is
    /// already in use.
    pub fn initialize(
        &mut self,
        authority: u64,
        governance_mint: u64,
        name: String,
        quorum_threshold: u64,
    ) -> (r: Result<u64, ErrorCode>)
        requires
            old(self).wf(),
        ensures
            final(self).wf(),
            r is Ok <==> !dao_name_taken(old(self).daos@, name@),
            r == Err::<u64, ErrorCode>(ErrorCode::AlreadyExists) <==> dao_name_taken(
                old(self).daos@,
                name@,
            ),
            r matches Ok(id) ==> id == old(self).daos@.len(),
            r is Ok ==> final(self).daos@.len() == old(self).daos@.len() + 1,
            r is Ok ==> forall|i: int|
                0 <= i < old(self).daos@.len() ==> final(self).daos@[i] == old(self).daos@[i],
            r is Ok ==> ({
                let d = final(self).daos@.last();
                d.wf() && d.authority == authority && d.governance_mint == governance_mint
                    && d.name@ == name@ && d.proposal_count == 0 && d.quorum_threshold
                    == quorum_threshold && d.id == old(self).daos@.len() && d.proposals@.len() == 0
                    && d.whitelist@.len() == 0 && d.mint_records@.len() == 0
                    && d.credit_accounts@.len() == 0 && d.vote_records@.len() == 0
            }),
            r is Err ==> *final(self) == *old(self),
    {
        let n = self.daos.len();
        let mut i: usize = 0;
        while i < n
            invariant
                *self == *old(self),
                old(self).wf(),
                n == self.daos@.len(),
                i <= n,
                forall|j: int| 0 <= j < i ==> self.daos@[j].name@ != name@,
            decreases n - i,
        {
            if self.daos[i].name == name {
                return Err(ErrorCode::AlreadyExists);
            }
            i = i + 1;
        }
        let id = n as u64;
        let dao = Dao::new(id, authority, governance_mint, name, quorum_threshold);
        self.daos.push(dao);
        Ok(id)
    }

    /// The registry with identity `id`, where one exists.
    pub fn get_dao(&self, id: u64) -> (r: Option<&Dao>)
        ensures
            r is Some <==> id < self.daos@.len(),
            r matches Some(d) ==> *d == self.daos@[id as int],
    {
        let n = self.daos.len();
        if id < n as u64 {
            Some(&self.daos[id as usize])
        } else {
            None
        }
    }
}

} // verus!
