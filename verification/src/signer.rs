//! Signers: which one to load, and the order of those of a multisig account.

use crate::pubkey::{comes_before, order_is_irreflexive, order_is_total, order_is_transitive, Pubkey};
use std::sync::Arc;
use vstd::prelude::*;

verus! {

/// A signer that was loaded, with the address for which it signs. The library never looks into
/// the signer itself.
pub struct LoadedSigner<S: ?Sized> {
    pub signer: Arc<S>,
    pub pubkey: Pubkey,
}

impl<S: ?Sized> LoadedSigner<S> {
    /// Whether the address is the signer's own, as `key_of` tells it.
    pub open spec fn is_paired(self, key_of: spec_fn(Arc<S>) -> Pubkey) -> bool {
        self.pubkey == key_of(self.signer)
    }

    /// The same signer once more.
    pub fn share(&self) -> (shared: LoadedSigner<S>)
        ensures
            shared == *self,
    {
        LoadedSigner { signer: self.signer.clone(), pubkey: self.pubkey }
    }
}

/// A signer to load: from where, under which name to ask for it, and whether an address without a
/// key will do.
#[derive(Debug)]
pub struct SignerRequest {
    pub path: String,
    pub keypair_name: String,
    pub allow_null_signer: bool,
}

/// A signer to load.
pub struct SignerRequestView {
    pub path: Seq<char>,
    pub keypair_name: Seq<char>,
    pub allow_null_signer: bool,
}

impl View for SignerRequest {
    type V = SignerRequestView;

    open spec fn view(&self) -> SignerRequestView {
        SignerRequestView {
            path: self.path@,
            keypair_name: self.keypair_name@,
            allow_null_signer: self.allow_null_signer,
        }
    }
}

impl SignerRequest {
    /// The same request once more.
    pub fn again(&self) -> (request: SignerRequest)
        ensures
            request@ == self@,
    {
        SignerRequest {
            path: self.path.clone(),
            keypair_name: self.keypair_name.clone(),
            allow_null_signer: self.allow_null_signer,
        }
    }
}

/// What came of loading a signer, the reason by its text.
pub open spec fn loading<S: ?Sized>(loaded: Result<LoadedSigner<S>, String>) -> Result<
    LoadedSigner<S>,
    Seq<char>,
> {
    match loaded {
        Ok(signer) => Ok(signer),
        Err(reason) => Err(reason@),
    }
}

/// The signers themselves.
pub open spec fn signers<S: ?Sized>(loaded: Seq<LoadedSigner<S>>) -> Seq<Arc<S>> {
    loaded.map_values(|one: LoadedSigner<S>| one.signer)
}

/// The addresses of signers.
pub open spec fn addresses<S: ?Sized>(loaded: Seq<LoadedSigner<S>>) -> Seq<Pubkey> {
    loaded.map_values(|one: LoadedSigner<S>| one.pubkey)
}

/// Whether every signer comes with its own address.
pub open spec fn are_paired<S: ?Sized>(
    loaded: Seq<LoadedSigner<S>>,
    key_of: spec_fn(Arc<S>) -> Pubkey,
) -> bool {
    forall|i: int| 0 <= i < loaded.len() ==> (#[trigger] loaded[i]).is_paired(key_of)
}

/// The signers of `sorted`, with `added` behind all those whose address does not come after its
/// own.
pub open spec fn with_signer<S: ?Sized>(
    sorted: Seq<LoadedSigner<S>>,
    added: LoadedSigner<S>,
) -> Seq<LoadedSigner<S>>
    decreases sorted.len(),
{
    if sorted.len() > 0 && comes_before(added.pubkey, sorted.last().pubkey) {
        with_signer(sorted.drop_last(), added).push(sorted.last())
    } else {
        sorted.push(added)
    }
}

/// The signers in the order of their addresses, those of one address in the order in which they
/// were given.
pub open spec fn by_address<S: ?Sized>(signers: Seq<LoadedSigner<S>>) -> Seq<LoadedSigner<S>>
    decreases signers.len(),
{
    if signers.len() == 0 {
        signers
    } else {
        with_signer(by_address(signers.drop_last()), signers.last())
    }
}

/// Whether no signer stands behind one whose address comes after its own.
pub open spec fn in_address_order<S: ?Sized>(signers: Seq<LoadedSigner<S>>) -> bool {
    forall|i: int, j: int|
        0 <= i < j < signers.len() ==> !comes_before(
            (#[trigger] signers[j]).pubkey,
            (#[trigger] signers[i]).pubkey,
        )
}

/// Those of the signers that sign for `key`, in their order.
pub open spec fn signers_for<S: ?Sized>(
    signers: Seq<LoadedSigner<S>>,
    key: Pubkey,
) -> Seq<LoadedSigner<S>> {
    signers.filter(|signer: LoadedSigner<S>| signer.pubkey == key)
}

/// Sorts the signers by address. The sort is stable.
pub fn sort_by_address<S: ?Sized>(signers: &Vec<LoadedSigner<S>>) -> (sorted: Vec<LoadedSigner<S>>)
    ensures
        sorted@ == by_address(signers@),
{
    let mut sorted: Vec<LoadedSigner<S>> = Vec::new();
    let mut i: usize = 0;
    assert(signers@.take(0) == Seq::<LoadedSigner<S>>::empty());
    while i < signers.len()
        invariant
            i <= signers.len(),
            sorted@ == by_address(signers@.take(i as int)),
        decreases signers.len() - i,
    {
        let added = signers[i].share();
        let mut place: usize = sorted.len();
        let ghost before = sorted@;
        assert(before.take(place as int) == before);
        assert(before.skip(place as int) == Seq::<LoadedSigner<S>>::empty());
        assert(with_signer(before, added) == with_signer(before, added) + before.skip(place as int));
        while place > 0 && added.pubkey.precedes(&sorted[place - 1].pubkey)
            invariant
                place <= sorted.len(),
                sorted@ == before,
                with_signer(before, added) == with_signer(before.take(place as int), added)
                    + before.skip(place as int),
            decreases place,
        {
            proof {
                let head = before.take(place as int);
                assert(head.drop_last() == before.take(place - 1));
                assert(with_signer(head, added) == with_signer(head.drop_last(), added).push(
                    head.last(),
                ));
                assert(with_signer(head.drop_last(), added).push(head.last()) + before.skip(
                    place as int,
                ) == with_signer(head.drop_last(), added) + before.skip(place - 1));
            }
            place = place - 1;
        }
        proof {
            let head = before.take(place as int);
            assert(with_signer(head, added) == head.push(added));
            assert(before.insert(place as int, added) == head.push(added) + before.skip(
                place as int,
            ));
            assert(signers@.take(i + 1).drop_last() == signers@.take(i as int));
        }
        sorted.insert(place, added);
        i = i + 1;
    }
    assert(signers@.take(i as int) == signers@);
    sorted
}

/// The sorted signers are the given ones, each as often as it was given.
pub proof fn sorting_keeps_the_signers<S: ?Sized>(signers: Seq<LoadedSigner<S>>)
    ensures
        by_address(signers).len() == signers.len(),
        by_address(signers).to_multiset() == signers.to_multiset(),
    decreases signers.len(),
{
    broadcast use vstd::seq_lib::group_to_multiset_ensures;
    if signers.len() > 0 {
        sorting_keeps_the_signers(signers.drop_last());
        adding_adds_one(by_address(signers.drop_last()), signers.last());
        assert(signers.drop_last().push(signers.last()) == signers);
    }
}

proof fn adding_adds_one<S: ?Sized>(sorted: Seq<LoadedSigner<S>>, added: LoadedSigner<S>)
    ensures
        with_signer(sorted, added).len() == sorted.len() + 1,
        with_signer(sorted, added).to_multiset() == sorted.to_multiset().insert(added),
    decreases sorted.len(),
{
    broadcast use vstd::seq_lib::group_to_multiset_ensures;
    if sorted.len() > 0 && comes_before(added.pubkey, sorted.last().pubkey) {
        adding_adds_one(sorted.drop_last(), added);
        assert(sorted.drop_last().push(sorted.last()) == sorted);
        assert(with_signer(sorted, added).to_multiset() =~= sorted.to_multiset().insert(added));
    }
}

/// The sorted signers stand in the order of their addresses.
pub proof fn sorting_orders<S: ?Sized>(signers: Seq<LoadedSigner<S>>)
    ensures
        in_address_order(by_address(signers)),
    decreases signers.len(),
{
    if signers.len() > 0 {
        sorting_orders(signers.drop_last());
        adding_keeps_order(by_address(signers.drop_last()), signers.last());
    }
}

proof fn adding_keeps_order<S: ?Sized>(sorted: Seq<LoadedSigner<S>>, added: LoadedSigner<S>)
    requires
        in_address_order(sorted),
    ensures
        in_address_order(with_signer(sorted, added)),
    decreases sorted.len(),
{
    let all = with_signer(sorted, added);
    if sorted.len() > 0 && comes_before(added.pubkey, sorted.last().pubkey) {
        let head = sorted.drop_last();
        let last = sorted.last();
        adding_keeps_order(head, added);
        adding_adds_one(head, added);
        assert forall|i: int| 0 <= i < all.len() - 1 implies !comes_before(
            last.pubkey,
            (#[trigger] all[i]).pubkey,
        ) by {
            let one = with_signer(head, added)[i];
            adding_takes_from(head, added, i);
            if one == added {
                if comes_before(last.pubkey, added.pubkey) {
                    order_is_transitive(last.pubkey, added.pubkey, last.pubkey);
                    order_is_irreflexive(last.pubkey);
                }
            } else {
                let k = choose|k: int| 0 <= k < head.len() && head[k] == one;
                assert(sorted[k] == one);
            }
        }
    } else {
        assert forall|i: int| 0 <= i < sorted.len() implies !comes_before(
            added.pubkey,
            (#[trigger] sorted[i]).pubkey,
        ) by {
            let last = sorted.last();
            if comes_before(added.pubkey, sorted[i].pubkey) {
                order_is_total(sorted[i].pubkey, last.pubkey);
                if comes_before(sorted[i].pubkey, last.pubkey) {
                    order_is_transitive(added.pubkey, sorted[i].pubkey, last.pubkey);
                }
            }
        }
    }
}

proof fn adding_takes_from<S: ?Sized>(sorted: Seq<LoadedSigner<S>>, added: LoadedSigner<S>, i: int)
    requires
        0 <= i < with_signer(sorted, added).len(),
    ensures
        with_signer(sorted, added)[i] == added || exists|k: int|
            0 <= k < sorted.len() && sorted[k] == with_signer(sorted, added)[i],
    decreases sorted.len(),
{
    if sorted.len() > 0 && comes_before(added.pubkey, sorted.last().pubkey) {
        let head = sorted.drop_last();
        if i < with_signer(head, added).len() {
            adding_takes_from(head, added, i);
            if with_signer(sorted, added)[i] != added {
                let k = choose|k: int|
                    0 <= k < head.len() && head[k] == with_signer(head, added)[i];
                assert(sorted[k] == with_signer(sorted, added)[i]);
            }
        } else {
            assert(sorted[sorted.len() - 1] == with_signer(sorted, added)[i]);
        }
    } else if i < sorted.len() {
        assert(sorted[i] == with_signer(sorted, added)[i]);
    }
}

/// The sort is stable: the signers of one address keep the order in which they were given.
pub proof fn sorting_is_stable<S: ?Sized>(signers: Seq<LoadedSigner<S>>, key: Pubkey)
    ensures
        signers_for(by_address(signers), key) == signers_for(signers, key),
    decreases signers.len(),
{
    reveal(Seq::filter);
    if signers.len() > 0 {
        sorting_is_stable(signers.drop_last(), key);
        sorting_orders(signers.drop_last());
        adding_is_stable(by_address(signers.drop_last()), signers.last(), key);
    }
}

proof fn adding_is_stable<S: ?Sized>(
    sorted: Seq<LoadedSigner<S>>,
    added: LoadedSigner<S>,
    key: Pubkey,
)
    requires
        in_address_order(sorted),
    ensures
        signers_for(with_signer(sorted, added), key) == if added.pubkey == key {
            signers_for(sorted, key).push(added)
        } else {
            signers_for(sorted, key)
        },
    decreases sorted.len(),
{
    reveal(Seq::filter);
    let all = with_signer(sorted, added);
    if sorted.len() > 0 && comes_before(added.pubkey, sorted.last().pubkey) {
        order_is_irreflexive(added.pubkey);
        adding_is_stable(sorted.drop_last(), added, key);
        assert(all.drop_last() == with_signer(sorted.drop_last(), added));
    } else {
        assert(all.drop_last() == sorted);
    }
}

/// Order and stability leave one arrangement: signers that stand in the order of their addresses,
/// and of which those of each address are the given ones in their order, are the sorted signers.
pub proof fn sorting_is_the_only_arrangement<S: ?Sized>(
    signers: Seq<LoadedSigner<S>>,
    arranged: Seq<LoadedSigner<S>>,
)
    requires
        in_address_order(arranged),
        forall|key: Pubkey| #[trigger] signers_for(arranged, key) == signers_for(signers, key),
    ensures
        arranged == by_address(signers),
{
    sorting_orders(signers);
    assert forall|key: Pubkey| #[trigger]
        signers_for(arranged, key) == signers_for(by_address(signers), key) by {
        sorting_is_stable(signers, key);
    }
    same_arrangement(arranged, by_address(signers));
}

proof fn same_arrangement<S: ?Sized>(a: Seq<LoadedSigner<S>>, b: Seq<LoadedSigner<S>>)
    requires
        in_address_order(a),
        in_address_order(b),
        forall|key: Pubkey| #[trigger] signers_for(a, key) == signers_for(b, key),
    ensures
        a == b,
    decreases a.len(),
{
    reveal(Seq::filter);
    if a.len() == 0 {
        if b.len() > 0 {
            assert(signers_for(b, b.last().pubkey).len() > 0);
            assert(signers_for(a, b.last().pubkey).len() == 0);
        }
        assert(a == b);
    } else {
        let key = a.last().pubkey;
        assert(signers_for(a, key).last() == a.last());
        if b.len() == 0 {
            assert(signers_for(b, key).len() == 0);
        }
        let other = b.last().pubkey;
        assert(signers_for(b, other).last() == b.last());
        has_signer_for(b, key);
        has_signer_for(a, other);
        let i = choose|i: int| 0 <= i < b.len() && b[i].pubkey == key;
        let j = choose|j: int| 0 <= j < a.len() && a[j].pubkey == other;
        order_is_irreflexive(key);
        assert(!comes_before(other, key));
        assert(!comes_before(key, other));
        order_is_total(key, other);
        assert(a.last() == b.last());
        let shorter_a = a.drop_last();
        let shorter_b = b.drop_last();
        assert forall|k: Pubkey| #[trigger]
            signers_for(shorter_a, k) == signers_for(shorter_b, k) by {
            assert(signers_for(a, k) == signers_for(b, k));
            if k == key {
                assert(signers_for(shorter_a, k) == signers_for(a, k).drop_last());
                assert(signers_for(shorter_b, k) == signers_for(b, k).drop_last());
            }
        }
        same_arrangement(shorter_a, shorter_b);
        assert(a == shorter_a.push(a.last()));
        assert(b == shorter_b.push(b.last()));
    }
}

/// Signers that come with their own addresses do so when they are sorted.
pub proof fn sorting_keeps_pairs<S: ?Sized>(
    signers: Seq<LoadedSigner<S>>,
    key_of: spec_fn(Arc<S>) -> Pubkey,
)
    requires
        are_paired(signers, key_of),
    ensures
        are_paired(by_address(signers), key_of),
    decreases signers.len(),
{
    if signers.len() > 0 {
        let sorted = by_address(signers.drop_last());
        let added = signers.last();
        sorting_keeps_pairs(signers.drop_last(), key_of);
        assert forall|i: int| 0 <= i < with_signer(sorted, added).len() implies (
        #[trigger] with_signer(sorted, added)[i]).is_paired(key_of) by {
            adding_takes_from(sorted, added, i);
        }
    }
}

/// The sorted addresses do not depend on the order in which the signers were given.
pub proof fn sorted_addresses_do_not_depend_on_the_order<S: ?Sized>(
    a: Seq<LoadedSigner<S>>,
    b: Seq<LoadedSigner<S>>,
)
    requires
        addresses(a).to_multiset() == addresses(b).to_multiset(),
    ensures
        addresses(by_address(a)) == addresses(by_address(b)),
{
    let leq = |x: Pubkey, y: Pubkey| !comes_before(y, x);
    order_is_a_total_ordering(leq);
    sorting_sorts_the_addresses(a, leq);
    sorting_sorts_the_addresses(b, leq);
    vstd::seq_lib::lemma_sorted_unique(
        addresses(by_address(a)),
        addresses(by_address(b)),
        leq,
    );
}

proof fn order_is_a_total_ordering(leq: spec_fn(Pubkey, Pubkey) -> bool)
    requires
        forall|x: Pubkey, y: Pubkey| #[trigger] leq(x, y) == !comes_before(y, x),
    ensures
        vstd::relations::total_ordering(leq),
{
    assert forall|x: Pubkey| #[trigger] leq(x, x) by {
        order_is_irreflexive(x);
    }
    assert forall|x: Pubkey, y: Pubkey| #[trigger] leq(x, y) && #[trigger] leq(y, x) implies x
        == y by {
        order_is_total(x, y);
    }
    assert forall|x: Pubkey, y: Pubkey, z: Pubkey| #[trigger]
        leq(x, y) && #[trigger] leq(y, z) implies leq(x, z) by {
        if comes_before(z, x) {
            order_is_total(x, y);
            if comes_before(x, y) {
                order_is_transitive(z, x, y);
            }
        }
    }
    assert forall|x: Pubkey, y: Pubkey| #[trigger] leq(x, y) || #[trigger] leq(y, x) by {
        if comes_before(x, y) && comes_before(y, x) {
            order_is_transitive(x, y, x);
            order_is_irreflexive(x);
        }
    }
}

proof fn sorting_sorts_the_addresses<S: ?Sized>(
    signers: Seq<LoadedSigner<S>>,
    leq: spec_fn(Pubkey, Pubkey) -> bool,
)
    requires
        forall|x: Pubkey, y: Pubkey| #[trigger] leq(x, y) == !comes_before(y, x),
    ensures
        addresses(by_address(signers)).to_multiset() == addresses(signers).to_multiset(),
        vstd::relations::sorted_by(addresses(by_address(signers)), leq),
{
    sorting_orders(signers);
    sorting_keeps_the_addresses(signers);
    let sorted = by_address(signers);
    assert forall|i: int, j: int| 0 <= i < j < addresses(sorted).len() implies #[trigger] leq(
        addresses(sorted)[i],
        addresses(sorted)[j],
    ) by {
        assert(addresses(sorted)[i] == sorted[i].pubkey);
        assert(addresses(sorted)[j] == sorted[j].pubkey);
    }
}

proof fn sorting_keeps_the_addresses<S: ?Sized>(signers: Seq<LoadedSigner<S>>)
    ensures
        addresses(by_address(signers)).to_multiset() == addresses(signers).to_multiset(),
    decreases signers.len(),
{
    broadcast use vstd::seq_lib::group_to_multiset_ensures;
    if signers.len() > 0 {
        sorting_keeps_the_addresses(signers.drop_last());
        adding_adds_one_address(by_address(signers.drop_last()), signers.last());
        assert(addresses(signers) == addresses(signers.drop_last()).push(signers.last().pubkey));
    }
}

proof fn adding_adds_one_address<S: ?Sized>(sorted: Seq<LoadedSigner<S>>, added: LoadedSigner<S>)
    ensures
        addresses(with_signer(sorted, added)).to_multiset() == addresses(
            sorted,
        ).to_multiset().insert(added.pubkey),
    decreases sorted.len(),
{
    broadcast use vstd::seq_lib::group_to_multiset_ensures;
    if sorted.len() > 0 && comes_before(added.pubkey, sorted.last().pubkey) {
        let head = sorted.drop_last();
        let last = sorted.last().pubkey;
        adding_adds_one_address(head, added);
        assert(addresses(sorted) == addresses(head).push(last));
        assert(addresses(with_signer(sorted, added)) == addresses(with_signer(head, added)).push(
            last,
        ));
        assert(addresses(with_signer(sorted, added)).to_multiset() =~= addresses(
            sorted,
        ).to_multiset().insert(added.pubkey));
    } else {
        assert(addresses(sorted.push(added)) == addresses(sorted).push(added.pubkey));
    }
}

proof fn has_signer_for<S: ?Sized>(signers: Seq<LoadedSigner<S>>, key: Pubkey)
    requires
        signers_for(signers, key).len() > 0,
    ensures
        exists|i: int| 0 <= i < signers.len() && signers[i].pubkey == key,
    decreases signers.len(),
{
    reveal(Seq::filter);
    if signers.len() > 0 && signers.last().pubkey != key {
        has_signer_for(signers.drop_last(), key);
        let i = choose|i: int|
            0 <= i < signers.drop_last().len() && signers.drop_last()[i].pubkey == key;
        assert(signers[i].pubkey == key);
    } else if signers.len() > 0 {
        assert(signers[signers.len() - 1].pubkey == key);
    }
}

/// The signers and the addresses of loaded signers are theirs, one for one, and what came of loading
/// one is told as it is.
pub proof fn loaded_signers_are_told_as_they_are<S: ?Sized>(
    loaded: Seq<LoadedSigner<S>>,
    one: Result<LoadedSigner<S>, String>,
    request: SignerRequest,
)
    ensures
        signers(loaded).len() == loaded.len(),
        addresses(loaded).len() == loaded.len(),
        forall|i: int|
            0 <= i < loaded.len() ==> #[trigger] signers(loaded)[i] == loaded[i].signer,
        forall|i: int|
            0 <= i < loaded.len() ==> #[trigger] addresses(loaded)[i] == loaded[i].pubkey,
        one matches Ok(signer) ==> loading(one) == Ok::<_, Seq<char>>(signer),
        one matches Err(reason) ==> loading(one) == Err::<LoadedSigner<S>, _>(reason@),
        request@.path == request.path@,
        request@.keypair_name == request.keypair_name@,
        request@.allow_null_signer == request.allow_null_signer,
{
}

} // verus!
