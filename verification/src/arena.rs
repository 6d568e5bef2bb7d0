//! Arenas: large memory areas reserved from the OS up front, from which
//! mimalloc then allocates. A heap can be bound to one arena.
use vstd::prelude::*;

use libmimalloc_sys::mi_arena_id_t;

verus! {

/// How much memory a new arena reserves, and whether it is committed up
/// front and may use large OS pages (2MiB and up).
#[derive(Debug, Clone, Copy)]
pub enum MemoryStrat {
    /// Commit this many bytes up front.
    Commit(usize),
    /// Reserve this many bytes, commit them as they are used.
    Reserve(usize),
    /// As `Commit`, with large OS pages allowed.
    CommitLarge(usize),
    /// As `Reserve`, with large OS pages allowed.
    ReserveLarge(usize),
}

/// The arguments of one call of `mi_reserve_os_memory_ex`.
#[derive(Debug, Clone, Copy, PartialEq, Eq, Structural)]
pub struct ReserveRequest {
    pub size: usize,
    pub commit: bool,
    pub allow_large: bool,
    pub exclusive: bool,
}

impl MemoryStrat {
    /// The number of bytes the strategy reserves.
    pub open spec fn spec_size(self) -> usize {
        match self {
            MemoryStrat::Commit(n) => n,
            MemoryStrat::Reserve(n) => n,
            MemoryStrat::CommitLarge(n) => n,
            MemoryStrat::ReserveLarge(n) => n,
        }
    }

    /// Whether the strategy commits its memory up front.
    pub open spec fn spec_commits(self) -> bool {
        self is Commit || self is CommitLarge
    }

    /// Whether the strategy allows large OS pages.
    pub open spec fn spec_allows_large(self) -> bool {
        self is CommitLarge || self is ReserveLarge
    }

    pub open spec fn spec_request(self, exclusive: bool) -> ReserveRequest {
        ReserveRequest {
            size: self.spec_size(),
            commit: self.spec_commits(),
            allow_large: self.spec_allows_large(),
            exclusive,
        }
    }

    /// The reservation that an arena made with this strategy asks for;
    /// `exclusive` arenas serve only the heaps bound to them.
    pub fn request(self, exclusive: bool) -> (r: ReserveRequest)
        ensures
            r == self.spec_request(exclusive),
            r.exclusive == exclusive,
            self matches MemoryStrat::Commit(n) ==> r.size == n && r.commit && !r.allow_large,
            self matches MemoryStrat::Reserve(n) ==> r.size == n && !r.commit && !r.allow_large,
            self matches MemoryStrat::CommitLarge(n) ==> r.size == n && r.commit && r.allow_large,
            self matches MemoryStrat::ReserveLarge(n) ==> r.size == n && !r.commit && r.allow_large,
    {
        match self {
            MemoryStrat::Commit(commit) => ReserveRequest {
                size: commit,
                commit: true,
                allow_large: false,
                exclusive,
            },
            MemoryStrat::Reserve(reserve) => ReserveRequest {
                size: reserve,
                commit: false,
                allow_large: false,
                exclusive,
            },
            MemoryStrat::CommitLarge(commit_large) => ReserveRequest {
                size: commit_large,
                commit: true,
                allow_large: true,
                exclusive,
            },
            MemoryStrat::ReserveLarge(reserve_large) => ReserveRequest {
                size: reserve_large,
                commit: false,
                allow_large: true,
                exclusive,
            },
        }
    }
}

/// The value an arena id holds until mimalloc writes a real one.
pub const NO_ARENA: mi_arena_id_t = -1;

/// A reservation that mimalloc refused, with the error code it returned
/// (0 where it returned success but wrote no arena id).
#[derive(Debug, Clone, Copy, PartialEq, Eq, Structural)]
pub struct ReserveError {
    pub errno: i32,
}

/// An arena that mimalloc reserved, known by its id.
#[derive(Debug, Clone, Copy)]
pub struct Arena(mi_arena_id_t);

impl Arena {
    #[verifier::type_invariant]
    spec fn inv(self) -> bool {
        self.0 != NO_ARENA
    }

    pub closed spec fn spec_id(&self) -> mi_arena_id_t {
        self.0
    }

    /// The id mimalloc gave this arena.
    #[verifier::when_used_as_spec(spec_id)]
    pub fn id(&self) -> (r: mi_arena_id_t)
        ensures
            r == self.spec_id(),
            r != NO_ARENA,
    {
        proof {
            use_type_invariant(self);
        }
        self.0
    }

    /// Reads the outcome of `mi_reserve_os_memory_ex`: its return code and
    /// the arena id it wrote (`NO_ARENA` where it wrote none). The
    /// reservation stands only where the code is 0 and an id was written.
    pub fn from_reserve_outcome(err: i32, id: mi_arena_id_t) -> (r: Result<Arena, ReserveError>)
        ensures
            r is Ok <==> (err == 0 && id != -1),
            r matches Ok(a) ==> a.spec_id() == id,
            r matches Err(e) ==> e.errno == err,
    {
        if err != 0 || id == NO_ARENA {
            Err(ReserveError { errno: err })
        } else {
            Ok(Arena(id))
        }
    }
}

/// Each strategy reserves exactly the bytes it carries. `Commit` and
/// `CommitLarge` commit them up front, `Reserve` and `ReserveLarge` do not,
/// and only the two `Large` strategies allow large OS pages, whatever the
/// size and whether or not the arena is exclusive.
pub proof fn lemma_request_follows_strategy(n: usize, exclusive: bool)
    ensures
        MemoryStrat::Commit(n).spec_request(exclusive) == (ReserveRequest {
            size: n,
            commit: true,
            allow_large: false,
            exclusive,
        }),
        MemoryStrat::Reserve(n).spec_request(exclusive) == (ReserveRequest {
            size: n,
            commit: false,
            allow_large: false,
            exclusive,
        }),
        MemoryStrat::CommitLarge(n).spec_request(exclusive) == (ReserveRequest {
            size: n,
            commit: true,
            allow_large: true,
            exclusive,
        }),
        MemoryStrat::ReserveLarge(n).spec_request(exclusive) == (ReserveRequest {
            size: n,
            commit: false,
            allow_large: true,
            exclusive,
        }),
{
}

/// An arena made by `Arena::new` and one made by `Arena::exclusive` with the
/// same strategy reserve the same memory in the same way; only the
/// `exclusive` flag tells them apart.
pub proof fn lemma_exclusive_changes_only_the_flag(strat: MemoryStrat)
    ensures
        strat.spec_request(false).size == strat.spec_request(true).size,
        strat.spec_request(false).commit == strat.spec_request(true).commit,
        strat.spec_request(false).allow_large == strat.spec_request(true).allow_large,
        !strat.spec_request(false).exclusive,
        strat.spec_request(true).exclusive,
{
}

} // verus!
