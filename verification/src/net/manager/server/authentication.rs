//! The authentication questions the manager has relayed to a client and still waits an answer
//! for.
use vstd::prelude::*;

use crate::net::common::id_set::IdSet;
use crate::net::manager::data::ManagerAuthenticationId;
use crate::net::manager::server::state::ManagerError;
use crate::protocol::common::error::IoErrorKind;
use crate::text::copy_str;

verus! {

broadcast use vstd::string::group_string_axioms;

/// The ids of the authentication questions waiting for an answer.
pub struct AuthRegistry {
    pending: IdSet,
}

impl View for AuthRegistry {
    type V = Set<ManagerAuthenticationId>;

    closed spec fn view(&self) -> Set<ManagerAuthenticationId> {
        self.pending@
    }
}

impl AuthRegistry {
    /// No question is waited for twice.
    pub closed spec fn wf(&self) -> bool {
        self.pending.wf()
    }

    /// A registry waiting for nothing.
    pub fn new() -> (r: Self)
        ensures
            r.wf(),
            r@ == Set::<ManagerAuthenticationId>::empty(),
    {
        AuthRegistry { pending: IdSet::new() }
    }

    /// Waits for the answer to a question sent under the given id.
    pub fn expect(&mut self, id: ManagerAuthenticationId)
        requires
            old(self).wf(),
        ensures
            final(self).wf(),
            final(self)@ == old(self)@.insert(id),
    {
        self.pending.insert(id);
    }

    /// Takes an answer to the question with the given id: it is no longer waited for; an id that
    /// is not waited for is refused with `InvalidInput`.
    pub fn answer(&mut self, id: ManagerAuthenticationId) -> (r: Result<(), ManagerError>)
        requires
            old(self).wf(),
        ensures
            final(self).wf(),
            final(self)@ == old(self)@.remove(id),
            match r {
                Ok(()) => old(self)@.contains(id),
                Err(e) => !old(self)@.contains(id) && e.kind == IoErrorKind::InvalidInput
                    && e.description@ == "Invalid authentication id"@,
            },
    {
        if self.pending.remove(id) {
            Ok(())
        } else {
            Err(
                ManagerError {
                    kind: IoErrorKind::InvalidInput,
                    description: copy_str("Invalid authentication id"),
                },
            )
        }
    }
}

/// A question is answered once: the first answer is taken, and a second one to the same id is
/// refused.
pub proof fn lemma_answered_once(pending: Set<ManagerAuthenticationId>, id: ManagerAuthenticationId)
    ensures
        pending.insert(id).contains(id),
        !pending.insert(id).remove(id).contains(id),
{
}

} // verus!
