//! Single-use hazards (bananas and fireballs): who they knock out and which
//! of them despawn in a tick, once the contacts have been measured.
use vstd::prelude::*;
use crate::kart::{hit_spec, Kart};

verus! {

/// A fireball burns out once it is older than this: eight seconds.
pub const FIREBALL_TTL: u64 = 8_000_000_000;

/// Whether a fireball of this age, in nanoseconds, has burnt out.
pub fn fireball_expired(age: u64) -> (r: bool)
    ensures
        r == (age > FIREBALL_TTL),
{
    age > FIREBALL_TTL
}

/// What one hazard met this tick: the first kart, the second kart, or the
/// end of its life.
#[derive(Clone, Copy, Debug, PartialEq, Eq, Structural)]
pub struct Contact {
    pub kart1: bool,
    pub kart2: bool,
    pub expired: bool,
}

/// A hazard stays when it touched no kart and has not expired.
pub open spec fn stays(c: Contact) -> bool {
    !c.kart1 && !c.kart2 && !c.expired
}

/// True when some hazard among `contacts` hit the first kart.
pub open spec fn hits_kart1(contacts: Seq<Contact>) -> bool {
    exists|i: int| 0 <= i < contacts.len() && (#[trigger] contacts[i]).kart1
}

/// True when some hazard among `contacts` hit the second kart; a hazard that
/// touches both is spent on the first.
pub open spec fn hits_kart2(contacts: Seq<Contact>) -> bool {
    exists|i: int| 0 <= i < contacts.len() && !(#[trigger] contacts[i]).kart1 && contacts[i].kart2
}

/// Resolves one tick of hazards, in order. A hazard touching the first kart
/// knocks it out for `knockout` and is removed; otherwise one touching the
/// second kart does the same to it; otherwise an expired one is removed.
/// Returns, for each hazard, whether it stays.
pub fn sweep_hazards(kart1: &mut Kart, kart2: &mut Kart, contacts: &Vec<Contact>, knockout: u64) -> (keep: Vec<bool>)
    ensures
        keep@.len() == contacts@.len(),
        forall|i: int| 0 <= i < contacts@.len() ==> #[trigger] keep@[i] == stays(contacts@[i]),
        *final(kart1) == if hits_kart1(contacts@) {
            hit_spec(*old(kart1), knockout)
        } else {
            *old(kart1)
        },
        *final(kart2) == if hits_kart2(contacts@) {
            hit_spec(*old(kart2), knockout)
        } else {
            *old(kart2)
        },
{
    let mut keep: Vec<bool> = Vec::new();
    let mut i: usize = 0;
    while i < contacts.len()
        invariant
            i <= contacts@.len(),
            keep@.len() == i,
            forall|j: int| 0 <= j < i ==> #[trigger] keep@[j] == stays(contacts@[j]),
            *kart1 == if hits_kart1(contacts@.subrange(0, i as int)) {
                hit_spec(*old(kart1), knockout)
            } else {
                *old(kart1)
            },
            *kart2 == if hits_kart2(contacts@.subrange(0, i as int)) {
                hit_spec(*old(kart2), knockout)
            } else {
                *old(kart2)
            },
        decreases contacts@.len() - i,
    {
        let c = contacts[i];
        let ghost before = contacts@.subrange(0, i as int);
        let ghost after = contacts@.subrange(0, i + 1);
        if c.kart1 {
            kart1.hit(knockout);
        } else if c.kart2 {
            kart2.hit(knockout);
        }
        keep.push(!c.kart1 && !c.kart2 && !c.expired);
        proof {
            assert(after[i as int] == c);
            assert forall|j: int| 0 <= j < i implies #[trigger] after[j] == before[j] by {}
            if hits_kart1(before) {
                let j = choose|j: int| 0 <= j < before.len() && (#[trigger] before[j]).kart1;
                assert(after[j] == before[j]);
            }
            if hits_kart2(before) {
                let j = choose|j: int| 0 <= j < before.len() && !(#[trigger] before[j]).kart1 && before[j].kart2;
                assert(after[j] == before[j]);
            }
            if hits_kart1(after) && !c.kart1 {
                let j = choose|j: int| 0 <= j < after.len() && (#[trigger] after[j]).kart1;
                assert(before[j] == after[j]);
            }
            if hits_kart2(after) && !(!c.kart1 && c.kart2) {
                let j = choose|j: int| 0 <= j < after.len() && !(#[trigger] after[j]).kart1 && after[j].kart2;
                assert(before[j] == after[j]);
            }
        }
        i = i + 1;
    }
    proof {
        assert(contacts@.subrange(0, contacts@.len() as int) =~= contacts@);
    }
    keep
}

/// The items whose flag is set, in their order.
pub open spec fn kept<T>(items: Seq<T>, keep: Seq<bool>) -> Seq<T>
    decreases items.len(),
{
    if items.len() == 0 {
        Seq::empty()
    } else {
        let rest = kept(items.drop_first(), keep.drop_first());
        if keep[0] {
            seq![items[0]] + rest
        } else {
            rest
        }
    }
}

/// Removes the hazards that `sweep_hazards` did not keep; the others stay in
/// their order.
pub fn retain_flagged<T>(items: &mut Vec<T>, keep: &Vec<bool>)
    requires
        keep@.len() == old(items)@.len(),
    ensures
        final(items)@ == kept(old(items)@, keep@),
{
    let n = items.len();
    let mut i = n;
    while i > 0
        invariant
            i <= n,
            n == old(items)@.len(),
            keep@.len() == n,
            items@ == old(items)@.subrange(0, i as int) + kept(
                old(items)@.subrange(i as int, n as int),
                keep@.subrange(i as int, n as int),
            ),
        decreases i,
    {
        i = i - 1;
        let ghost s = old(items)@.subrange(i as int, n as int);
        let ghost k = keep@.subrange(i as int, n as int);
        let ghost rest = kept(old(items)@.subrange(i + 1, n as int), keep@.subrange(i + 1, n as int));
        proof {
            assert(s.drop_first() =~= old(items)@.subrange(i + 1, n as int));
            assert(k.drop_first() =~= keep@.subrange(i + 1, n as int));
            assert(old(items)@.subrange(0, i + 1) =~= old(items)@.subrange(0, i as int).push(old(items)@[i as int]));
        }
        if !keep[i] {
            items.remove(i);
            proof {
                assert(items@ =~= old(items)@.subrange(0, i as int) + rest);
            }
        } else {
            proof {
                assert(items@ =~= old(items)@.subrange(0, i as int) + (seq![s[0]] + rest));
            }
        }
    }
    proof {
        assert(old(items)@.subrange(0, n as int) =~= old(items)@);
        assert(keep@.subrange(0, n as int) =~= keep@);
        assert(old(items)@.subrange(0, 0) + kept(old(items)@, keep@) =~= kept(old(items)@, keep@));
        assert(items@ =~= kept(old(items)@, keep@));
    }
}

} // verus!
