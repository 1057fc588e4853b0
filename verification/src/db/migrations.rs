//! Schema migrations, versioned by SQLite's `user_version`.
//!
//! The store reports its version; this module decides which migration
//! scripts to apply, in order. The discipline is append-only: migration `n`
//! moves a store from version `n - 1` to `n`.

use vstd::prelude::*;

verus! {

/// The schema version the bundled scripts bring a store to.
pub const CURRENT_VERSION: i32 = 1;

/// The migrations a store at `version` still needs: every `n` with
/// `version < n <= CURRENT_VERSION`, in increasing order.
pub open spec fn pending(version: int) -> Seq<i32> {
    if version < 1 {
        seq![1i32]
    } else {
        Seq::empty()
    }
}

/// The migrations to apply to a store that reports `version`, in order.
pub fn pending_migrations(version: i32) -> (r: Vec<i32>)
    ensures
        r@ == pending(version as int),
        forall|k: int| 0 <= k < r@.len() ==> version < #[trigger] r@[k] <= CURRENT_VERSION,
{
    let mut r: Vec<i32> = Vec::new();
    if version < 1 {
        r.push(1);
    }
    assert(r@ =~= pending(version as int));
    r
}

/// The version a store at `version` reports once `scripts` have run (each
/// script sets the version to its own number).
pub open spec fn version_after(version: int, scripts: Seq<i32>) -> int {
    if scripts.len() == 0 {
        version
    } else {
        scripts.last() as int
    }
}

/// Migrating is idempotent: a store at any version up to the current one
/// ends at the current version, and a store at the current version (or a
/// newer one) needs nothing more.
pub proof fn lemma_migrations_idempotent(version: int)
    requires
        version <= CURRENT_VERSION,
    ensures
        version_after(version, pending(version)) == CURRENT_VERSION,
        pending(version_after(version, pending(version))).len() == 0,
{
}

/// Nothing is pending once a store has reached the current version.
pub proof fn lemma_current_needs_nothing(version: int)
    requires
        version >= CURRENT_VERSION,
    ensures
        pending(version).len() == 0,
{
}

} // verus!
