use vstd::prelude::*;
use crate::address::Address;

verus! {

/// How many identities an allow-list can hold.
pub const MAX_WHITELIST_ENTRIES: usize = 50;

/// `list` with `entry` at its end, unless it is in the list already.
pub open spec fn with_entry(list: Seq<Address>, entry: Address) -> Seq<Address> {
    if list.contains(entry) {
        list
    } else {
        list.push(entry)
    }
}

/// `list` with each of `entries` added in turn, skipping those already in.
pub open spec fn with_entries(list: Seq<Address>, entries: Seq<Address>) -> Seq<Address>
    decreases entries.len(),
{
    if entries.len() == 0 {
        list
    } else {
        with_entry(with_entries(list, entries.drop_last()), entries.last())
    }
}

/// `list` without every identity that occurs in `entries`, order kept.
pub open spec fn without_entries(list: Seq<Address>, entries: Seq<Address>) -> Seq<Address> {
    list.filter(|a: Address| !entries.contains(a))
}

/// Whether `at` is the first place at which `entry` occurs in `list`.
pub open spec fn is_first_position(list: Seq<Address>, entry: Address, at: int) -> bool {
    &&& 0 <= at < list.len()
    &&& list[at] == entry
    &&& forall|j: int| 0 <= j < at ==> list[j] != entry
}

/// The first place at which `entry` occurs in `list`, where it occurs.
pub open spec fn first_position(list: Seq<Address>, entry: Address) -> int {
    choose|at: int| is_first_position(list, entry, at)
}

/// Adding identities keeps a set a set, adds at most as many as were
/// given, and yields exactly the union.
pub proof fn lemma_with_entries(list: Seq<Address>, entries: Seq<Address>)
    ensures
        list.no_duplicates() ==> with_entries(list, entries).no_duplicates(),
        list.len() <= with_entries(list, entries).len() <= list.len() + entries.len(),
        forall|a: Address| #[trigger]
            with_entries(list, entries).contains(a) <==> list.contains(a) || entries.contains(a),
    decreases entries.len(),
{
    if entries.len() > 0 {
        let shorter = entries.drop_last();
        let last = entries.last();
        let sofar = with_entries(list, shorter);
        lemma_with_entries(list, shorter);
        let all = with_entries(list, entries);
        assert(all == with_entry(sofar, last));
        assert forall|a: Address| #[trigger]
            all.contains(a) <==> list.contains(a) || entries.contains(a) by {
            if entries.contains(a) {
                let i = choose|i: int| 0 <= i < entries.len() && entries[i] == a;
                if i < shorter.len() {
                    assert(shorter[i] == a);
                    assert(shorter.contains(a));
                }
            }
            if shorter.contains(a) {
                let i = choose|i: int| 0 <= i < shorter.len() && shorter[i] == a;
                assert(entries[i] == a);
            }
            assert(entries[entries.len() - 1] == last);
            if !sofar.contains(last) {
                assert(sofar.push(last)[sofar.len() as int] == last);
                if sofar.contains(a) {
                    let i = choose|i: int| 0 <= i < sofar.len() && sofar[i] == a;
                    assert(sofar.push(last)[i] == a);
                }
                if all.contains(a) {
                    let i = choose|i: int| 0 <= i < all.len() && all[i] == a;
                    if i < sofar.len() {
                        assert(sofar[i] == a);
                    }
                }
            }
        }
    }
}

/// Removing identities keeps a set a set, never makes the list longer,
/// and yields exactly the difference.
pub proof fn lemma_without_entries(list: Seq<Address>, entries: Seq<Address>)
    ensures
        list.no_duplicates() ==> without_entries(list, entries).no_duplicates(),
        without_entries(list, entries).len() <= list.len(),
        forall|a: Address| #[trigger]
            without_entries(list, entries).contains(a) <==> list.contains(a) && !entries.contains(
                a,
            ),
    decreases list.len(),
{
    reveal(Seq::filter);
    let keep = |a: Address| !entries.contains(a);
    if list.len() > 0 {
        let shorter = list.drop_last();
        let last = list.last();
        lemma_without_entries(shorter, entries);
        let kept = without_entries(shorter, entries);
        let all = without_entries(list, entries);
        assert(all == if keep(last) {
            kept.push(last)
        } else {
            kept
        });
        assert(list[list.len() - 1] == last);
        if list.no_duplicates() {
            assert(shorter.no_duplicates());
            if shorter.contains(last) {
                let i = choose|i: int| 0 <= i < shorter.len() && shorter[i] == last;
                assert(list[i] == last);
            }
            assert(!kept.contains(last));
            assert(all.no_duplicates());
        }
        assert forall|a: Address| #[trigger]
            all.contains(a) <==> list.contains(a) && !entries.contains(a) by {
            if list.contains(a) {
                let i = choose|i: int| 0 <= i < list.len() && list[i] == a;
                if i < shorter.len() {
                    assert(shorter[i] == a);
                }
            }
            if shorter.contains(a) {
                let i = choose|i: int| 0 <= i < shorter.len() && shorter[i] == a;
                assert(list[i] == a);
            }
            if keep(last) {
                assert(kept.push(last)[kept.len() as int] == last);
                if kept.contains(a) {
                    let i = choose|i: int| 0 <= i < kept.len() && kept[i] == a;
                    assert(kept.push(last)[i] == a);
                }
                if all.contains(a) {
                    let i = choose|i: int| 0 <= i < all.len() && all[i] == a;
                    if i < kept.len() {
                        assert(kept[i] == a);
                    }
                }
            }
        }
    }
}

/// Whether `entry` occurs in `list`.
pub fn list_contains(list: &Vec<Address>, entry: &Address) -> (found: bool)
    ensures
        found == list@.contains(*entry),
{
    list_position(list, entry).is_some()
}

/// The first place at which `entry` occurs in `list`, if it occurs.
pub fn list_position(list: &Vec<Address>, entry: &Address) -> (found: Option<usize>)
    ensures
        match found {
            Some(at) => is_first_position(list@, *entry, at as int) && at == first_position(
                list@,
                *entry,
            ),
            None => !list@.contains(*entry),
        },
{
    let mut i: usize = 0;
    while i < list.len()
        invariant
            i <= list.len(),
            forall|j: int| 0 <= j < i ==> list@[j] != *entry,
        decreases list.len() - i,
    {
        if list[i] == *entry {
            assert(is_first_position(list@, *entry, i as int));
            return Some(i);
        }
        i += 1;
    }
    None
}

/// Adds each of `entries` to `list` in turn, skipping those already in.
pub fn add_entries(list: &mut Vec<Address>, entries: &Vec<Address>)
    ensures
        final(list)@ == with_entries(old(list)@, entries@),
{
    let mut i: usize = 0;
    while i < entries.len()
        invariant
            i <= entries.len(),
            list@ == with_entries(old(list)@, entries@.subrange(0, i as int)),
        decreases entries.len() - i,
    {
        let entry = entries[i];
        let present = list_contains(list, &entry);
        proof {
            let next = entries@.subrange(0, i + 1);
            assert(next.drop_last() =~= entries@.subrange(0, i as int));
            assert(next.last() == entry);
        }
        if !present {
            list.push(entry);
        }
        i += 1;
    }
    assert(entries@.subrange(0, entries.len() as int) =~= entries@);
}

/// Removes from `list` every identity that occurs in `entries`.
pub fn remove_entries(list: &mut Vec<Address>, entries: &Vec<Address>)
    ensures
        final(list)@ == without_entries(old(list)@, entries@),
{
    let mut kept: Vec<Address> = Vec::new();
    let mut i: usize = 0;
    proof {
        reveal(Seq::filter);
        assert(list@.subrange(0, 0).len() == 0);
    }
    while i < list.len()
        invariant
            i <= list.len(),
            kept@ == without_entries(list@.subrange(0, i as int), entries@),
        decreases list.len() - i,
    {
        let entry = list[i];
        let dropped = list_contains(entries, &entry);
        proof {
            reveal(Seq::filter);
            let next = list@.subrange(0, i + 1);
            assert(next.drop_last() =~= list@.subrange(0, i as int));
            assert(next.last() == entry);
        }
        if !dropped {
            kept.push(entry);
        }
        i += 1;
    }
    assert(list@.subrange(0, list.len() as int) =~= list@);
    *list = kept;
}

/// A copy of `list`.
pub fn copy_list(list: &Vec<Address>) -> (copy: Vec<Address>)
    ensures
        copy@ == list@,
{
    let mut copy: Vec<Address> = Vec::new();
    let mut i: usize = 0;
    while i < list.len()
        invariant
            i <= list.len(),
            copy@ == list@.subrange(0, i as int),
        decreases list.len() - i,
    {
        copy.push(list[i]);
        assert(list@.subrange(0, i + 1) =~= list@.subrange(0, i as int).push(list@[i as int]));
        i += 1;
    }
    assert(list@.subrange(0, list.len() as int) =~= list@);
    copy
}

/// The takers that one offer's maker has authorized to fill it.
#[derive(Clone, Debug, PartialEq, Eq)]
pub struct Whitelist {
    /// Who controls the list.
    pub maker: Address,
    /// The address of the offer that the list belongs to.
    pub offer: Address,
    /// The authorized takers, in the order in which they were added.
    pub takers: Vec<Address>,
}

impl Whitelist {
    /// The list is a set of at most 50 identities.
    pub open spec fn wf(&self) -> bool {
        self.takers@.len() <= MAX_WHITELIST_ENTRIES && self.takers@.no_duplicates()
    }

    /// Whether `taker` is on the list.
    pub open spec fn admits(&self, taker: Address) -> bool {
        self.takers@.contains(taker)
    }

    /// Executable form of [`Whitelist::admits`].
    pub fn contains(&self, taker: &Address) -> (found: bool)
        ensures
            found == self.admits(*taker),
    {
        list_contains(&self.takers, taker)
    }
}

} // verus!
