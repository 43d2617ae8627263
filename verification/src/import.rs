//! The import of one block into a light client: what is staged for it
//! before the header store takes it over.

use crate::error::ClientError;
use crate::primitives::{AuthorityId, Header, Justification};
use crate::state::OnDemandState;
use crate::trie::MemoryDb;
use std::marker::PhantomData;
use vstd::prelude::*;

verus! {

/// What an import operation has staged.
pub struct Staged {
    /// Whether the block is to become the best one.
    pub is_new_best: bool,
    /// The header to import, once it has been set.
    pub header: Option<Header>,
    /// The authority set to import with the header, if one has been given.
    pub authorities: Option<Vec<AuthorityId>>,
}

impl Staged {
    /// Nothing staged: no header, no authorities, and not the best block.
    pub open spec fn fresh() -> Staged {
        Staged { is_new_best: false, header: None, authorities: None }
    }

    /// What is staged after block data has been set on top of `self`: the
    /// header and the flag are the new ones, the authorities stay.
    pub open spec fn with_block_data(self, header: Header, is_new_best: bool) -> Staged {
        Staged { is_new_best, header: Some(header), authorities: self.authorities }
    }

    /// What is staged after authorities have been given on top of `self`:
    /// the header and the flag stay.
    pub open spec fn with_authorities(self, authorities: Vec<AuthorityId>) -> Staged {
        Staged {
            is_new_best: self.is_new_best,
            header: self.header,
            authorities: Some(authorities),
        }
    }

    /// Whether this can be committed: it can once there is a header.
    pub open spec fn is_ready(self) -> bool {
        self.header is Some
    }

    /// What a commit hands to the header store: the flag, the header and
    /// the authorities.
    pub open spec fn import_arguments(self) -> (bool, Header, Option<Vec<AuthorityId>>)
        recommends
            self.is_ready(),
    {
        (self.is_new_best, self.header.unwrap(), self.authorities)
    }

    /// Block data and then authorities, staged on top of anything, are
    /// ready to commit, and the commit hands exactly these to the header
    /// store.
    pub proof fn lemma_staged_import(
        self,
        header: Header,
        is_new_best: bool,
        authorities: Vec<AuthorityId>,
    )
        ensures
            self.with_block_data(header, is_new_best).with_authorities(authorities).is_ready(),
            self.with_block_data(header, is_new_best).with_authorities(
                authorities,
            ).import_arguments() == (is_new_best, header, Some(authorities)),
    {
    }

    /// Only block data makes an operation ready to commit: one with
    /// nothing staged is not ready, authorities change nothing of that,
    /// and block data always does. So a commit is owed to no operation that
    /// was never given its block data.
    pub proof fn lemma_ready_by_block_data(
        self,
        header: Header,
        is_new_best: bool,
        authorities: Vec<AuthorityId>,
    )
        ensures
            !Staged::fresh().is_ready(),
            self.with_authorities(authorities).is_ready() == self.is_ready(),
            self.with_block_data(header, is_new_best).is_ready(),
    {
    }

    /// Block data and authorities can be staged in either order: each
    /// leaves the other as it was.
    pub proof fn lemma_staging_commutes(
        self,
        header: Header,
        is_new_best: bool,
        authorities: Vec<AuthorityId>,
    )
        ensures
            self.with_block_data(header, is_new_best).with_authorities(authorities)
                == self.with_authorities(authorities).with_block_data(header, is_new_best),
    {
    }
}

/// Light block (header and justification) import operation.
///
/// A light client keeps headers only. Bodies, justifications and changes to
/// the state are taken and dropped, so that code written for any backend
/// can drive this one.
#[verifier::reject_recursive_types(S)]
#[verifier::reject_recursive_types(F)]
pub struct ImportOperation<S, F> {
    is_new_best: bool,
    header: Option<Header>,
    authorities: Option<Vec<AuthorityId>>,
    _phantom: PhantomData<(S, F)>,
}

impl<S, F> View for ImportOperation<S, F> {
    type V = Staged;

    closed spec fn view(&self) -> Staged {
        Staged { is_new_best: self.is_new_best, header: self.header, authorities: self.authorities }
    }
}

impl<S, F> ImportOperation<S, F> {
    /// An operation with nothing staged.
    pub fn new() -> (r: Self)
        ensures
            r@ == Staged::fresh(),
    {
        ImportOperation { is_new_best: false, header: None, authorities: None, _phantom: PhantomData }
    }

    /// Whether the block is to become the best one.
    pub fn is_new_best(&self) -> (r: bool)
        ensures
            r == self@.is_new_best,
    {
        self.is_new_best
    }

    /// The header to import, once it has been set.
    pub fn header(&self) -> (r: Option<Header>)
        ensures
            r == self@.header,
    {
        self.header
    }

    /// Whether the operation can be committed: it can once it has been
    /// given its block data.
    pub fn is_ready(&self) -> (r: bool)
        ensures
            r == self@.is_ready(),
    {
        self.header.is_some()
    }

    /// The state that the import works on. There is none: a light client
    /// holds no state locally.
    pub fn state(&self) -> (r: Result<Option<&OnDemandState<S, F>>, ClientError>)
        ensures
            r matches Ok(None),
    {
        Ok(None)
    }

    /// Stages the header and whether the block becomes the best one. The
    /// body and the justification are not kept.
    pub fn set_block_data(
        &mut self,
        header: Header,
        body: Option<Vec<Vec<u8>>>,
        justification: Option<Justification>,
        is_new_best: bool,
    ) -> (r: Result<(), ClientError>)
        ensures
            r is Ok,
            final(self)@ == old(self)@.with_block_data(header, is_new_best),
    {
        self.is_new_best = is_new_best;
        self.header = Some(header);
        Ok(())
    }

    /// Stages the authority set that comes into force with the block.
    pub fn update_authorities(&mut self, authorities: Vec<AuthorityId>)
        ensures
            final(self)@ == old(self)@.with_authorities(authorities),
    {
        self.authorities = Some(authorities);
    }

    /// Takes the changes to the state and drops them: nothing is staged.
    pub fn update_storage(&mut self, update: ()) -> (r: Result<(), ClientError>)
        ensures
            r is Ok,
            final(self)@ == old(self)@,
    {
        Ok(())
    }

    /// Takes the new nodes of the changes trie and drops them: nothing is
    /// staged.
    pub fn update_changes_trie(&mut self, update: MemoryDb) -> (r: Result<(), ClientError>)
        ensures
            r is Ok,
            final(self)@ == old(self)@,
    {
        Ok(())
    }

    /// Takes a whole new state and drops it: nothing is staged.
    pub fn reset_storage<I: Iterator<Item = (Vec<u8>, Vec<u8>)>>(&mut self, pairs: I) -> (r: Result<(), ClientError>)
        ensures
            r is Ok,
            final(self)@ == old(self)@,
    {
        Ok(())
    }

    /// Ends the operation and gives out what a commit hands to the header
    /// store.
    pub fn into_import_arguments(self) -> (r: (bool, Header, Option<Vec<AuthorityId>>))
        requires
            self@.is_ready(),
        ensures
            r == self@.import_arguments(),
    {
        (self.is_new_best, self.header.unwrap(), self.authorities)
    }
}

} // verus!
