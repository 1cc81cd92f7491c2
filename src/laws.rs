use vstd::prelude::*;
use crate::ecdsa::{first_effect, protocol_inv, chain_code_effect, master_key_effect, rotate_second_effect, rotate_third_effect, second_effect, session_absent, third_effect};
use crate::kind::EcdsaStruct;
use crate::round::{Round, needs};
use crate::store::{Contents, has_all, session_used};

verus! {

/// An empty store satisfies the protocol invariant; every round keeps it
/// (see the rounds' contracts), so every store that only the rounds have
/// written satisfies it.
pub proof fn lemma_empty_store_inv()
    ensures
        protocol_inv(Contents::empty()),
{
}

/// A session that holds nothing for a customer, in particular another
/// customer's session, satisfies no round: each of them answers `NotFound`.
pub proof fn lemma_foreign_session_not_found(m: Contents, c: Seq<char>, id: Seq<char>, r: Round)
    requires
        session_absent(m, c, id),
    ensures
        !has_all(m, c, id, needs(r)),
{
    assert(needs(r).len() > 0);
    if has_all(m, c, id, needs(r)) {
        assert(m.contains_key((c, id, needs(r)[0])));
    }
}

/// The third key generation round cannot run before the second has stored
/// the private share.
pub proof fn lemma_third_needs_second(m: Contents, c: Seq<char>, id: Seq<char>)
    requires
        !m.contains_key((c, id, EcdsaStruct::Party1Private)),
    ensures
        !has_all(m, c, id, needs(Round::KeyGenThird)),
{
    if has_all(m, c, id, needs(Round::KeyGenThird)) {
        assert(m.contains_key((c, id, needs(Round::KeyGenThird)[6])));
    }
}

/// Right after a first key generation round minted a session that no
/// customer held before, the session holds no private share, so its third
/// round answers `NotFound` (and, by its contract, stores nothing).
pub proof fn lemma_fresh_session_third_not_found(
    m: Contents,
    c: Seq<char>,
    id: Seq<char>,
    a: Seq<u8>,
    b: Seq<u8>,
    d: Seq<u8>,
)
    requires
        !session_used(m, id),
    ensures
        !first_effect(m, c, id, a, b, d).contains_key((c, id, EcdsaStruct::Party1Private)),
        !has_all(first_effect(m, c, id, a, b, d), c, id, needs(Round::KeyGenThird)),
{
    assert(!m.contains_key((c, id, EcdsaStruct::Party1Private)));
    lemma_third_needs_second(first_effect(m, c, id, a, b, d), c, id);
}

/// In a store that keeps the protocol invariant, a session without a
/// position holds nothing at all for that customer, so the second key
/// generation round (like every other round) answers `NotFound` and, by its
/// contract, leaves the store as it was.
pub proof fn lemma_no_position_no_session(m: Contents, c: Seq<char>, id: Seq<char>)
    requires
        protocol_inv(m),
        !m.contains_key((c, id, EcdsaStruct::POS)),
    ensures
        session_absent(m, c, id),
        !has_all(m, c, id, needs(Round::KeyGenSecond)),
{
    assert forall|k: EcdsaStruct| !#[trigger] m.contains_key((c, id, k)) by {
        if m.contains_key((c, id, k)) {
            assert(m.contains_key((c, id, EcdsaStruct::POS)));
        }
    }
    lemma_foreign_session_not_found(m, c, id, Round::KeyGenSecond);
}

/// What a round needs stays stored once it was: no round removes anything.
pub proof fn lemma_needs_kept(m: Contents, m2: Contents, c: Seq<char>, id: Seq<char>, r: Round)
    requires
        has_all(m, c, id, needs(r)),
        m.dom().subset_of(m2.dom()),
    ensures
        has_all(m2, c, id, needs(r)),
{
    assert forall|i: int| 0 <= i < needs(r).len() implies #[trigger] m2.contains_key(
        (c, id, needs(r)[i]),
    ) by {
        assert(m.contains_key((c, id, needs(r)[i])));
    }
}

/// Replaying the second key generation round with the same values leaves
/// the store as the first call left it.
pub proof fn lemma_second_replay(m: Contents, c: Seq<char>, id: Seq<char>, a: Seq<u8>, b: Seq<u8>, d: Seq<u8>)
    ensures
        m.dom().subset_of(second_effect(m, c, id, a, b, d).dom()),
        second_effect(second_effect(m, c, id, a, b, d), c, id, a, b, d) == second_effect(m, c, id, a, b, d),
{
    assert(second_effect(second_effect(m, c, id, a, b, d), c, id, a, b, d) =~= second_effect(m, c, id, a, b, d));
}

/// Replaying the third key generation round with the same values leaves the
/// store as the first call left it.
pub proof fn lemma_third_replay(m: Contents, c: Seq<char>, id: Seq<char>, a: Seq<u8>, b: Seq<u8>, d: Seq<u8>)
    ensures
        m.dom().subset_of(third_effect(m, c, id, a, b, d).dom()),
        third_effect(third_effect(m, c, id, a, b, d), c, id, a, b, d) == third_effect(m, c, id, a, b, d),
{
    assert(third_effect(third_effect(m, c, id, a, b, d), c, id, a, b, d) =~= third_effect(m, c, id, a, b, d));
}

/// Replaying the second chain code round (or the chain code computation)
/// with the same values leaves the store as the first call left it.
pub proof fn lemma_chain_code_replay(m: Contents, c: Seq<char>, id: Seq<char>, cc: Seq<u8>, mk: Seq<u8>)
    ensures
        m.dom().subset_of(chain_code_effect(m, c, id, cc, mk).dom()),
        chain_code_effect(chain_code_effect(m, c, id, cc, mk), c, id, cc, mk) == chain_code_effect(
            m,
            c,
            id,
            cc,
            mk,
        ),
{
    assert(chain_code_effect(chain_code_effect(m, c, id, cc, mk), c, id, cc, mk) =~= chain_code_effect(
        m,
        c,
        id,
        cc,
        mk,
    ));
}

/// Replaying a master key commit, or a successful fourth rotation round,
/// with the same key leaves the store as the first call left it.
pub proof fn lemma_master_key_replay(m: Contents, c: Seq<char>, id: Seq<char>, mk: Seq<u8>)
    ensures
        m.dom().subset_of(master_key_effect(m, c, id, mk).dom()),
        master_key_effect(master_key_effect(m, c, id, mk), c, id, mk) == master_key_effect(m, c, id, mk),
{
    assert(master_key_effect(master_key_effect(m, c, id, mk), c, id, mk) =~= master_key_effect(m, c, id, mk));
}

/// Replaying the second rotation round with the same values leaves the
/// store as the first call left it.
pub proof fn lemma_rotate_second_replay(
    m: Contents,
    c: Seq<char>,
    id: Seq<char>,
    a: Seq<u8>,
    b: Seq<u8>,
    d: Seq<u8>,
)
    ensures
        m.dom().subset_of(rotate_second_effect(m, c, id, a, b, d).dom()),
        rotate_second_effect(rotate_second_effect(m, c, id, a, b, d), c, id, a, b, d)
            == rotate_second_effect(m, c, id, a, b, d),
{
    assert(rotate_second_effect(rotate_second_effect(m, c, id, a, b, d), c, id, a, b, d)
        =~= rotate_second_effect(m, c, id, a, b, d));
}

/// Replaying the third rotation round with the same values leaves the store
/// as the first call left it.
pub proof fn lemma_rotate_third_replay(
    m: Contents,
    c: Seq<char>,
    id: Seq<char>,
    a: Seq<u8>,
    b: Seq<u8>,
    d: Seq<u8>,
    e: Seq<u8>,
)
    ensures
        m.dom().subset_of(rotate_third_effect(m, c, id, a, b, d, e).dom()),
        rotate_third_effect(rotate_third_effect(m, c, id, a, b, d, e), c, id, a, b, d, e)
            == rotate_third_effect(m, c, id, a, b, d, e),
{
    assert(rotate_third_effect(rotate_third_effect(m, c, id, a, b, d, e), c, id, a, b, d, e)
        =~= rotate_third_effect(m, c, id, a, b, d, e));
}

} // verus!
