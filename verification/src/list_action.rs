//! Pending structural edits on animation and effect collections.
//!
//! Every animation and post-effect instance carries one pending list action.
//! The owning collection applies all pending actions once per frame, before
//! any compute work is recorded: deletions first, then single-slot moves
//! toward the front (scanned forward) and toward the back (scanned
//! backward), and finally every surviving element's action is cleared.

use vstd::prelude::*;

verus! {

/// A structural edit queued against one element of a collection.
#[derive(Clone, Copy, Debug, PartialEq, Eq, Structural)]
pub enum ListAction {
    /// No edit pending.
    Idle,
    /// Remove the element.
    Delete,
    /// Swap the element with its predecessor.
    MoveUp,
    /// Swap the element with its successor.
    MoveDown,
}

/// An element of an editable collection: it exposes its pending action, can
/// clear it, and reports whether it takes part in compute work.
pub trait HandleAction: Sized {
    /// The pending action.
    spec fn spec_action(&self) -> ListAction;

    /// The element with its pending action cleared, all else equal.
    spec fn spec_reset(&self) -> Self;

    /// Whether the element takes part in compute work.
    spec fn spec_enabled(&self) -> bool;

    /// The pending action.
    fn selected_action(&self) -> (r: ListAction)
        ensures
            r == self.spec_action(),
    ;

    /// Clears the pending action and changes nothing else.
    fn reset_action(&mut self)
        ensures
            *final(self) == old(self).spec_reset(),
            final(self).spec_action() == ListAction::Idle,
            final(self).spec_enabled() == old(self).spec_enabled(),
    ;

    /// Whether the element takes part in compute work.
    fn enabled(&self) -> (r: bool)
        ensures
            r == self.spec_enabled(),
    ;
}

/// The elements from position `i` on that are not pending deletion, in
/// order.
pub open spec fn keep_from<T: HandleAction>(s: Seq<T>, i: int) -> Seq<T>
    decreases s.len() - i,
    when 0 <= i <= s.len()
{
    if i >= s.len() {
        Seq::empty()
    } else if s[i].spec_action() is Delete {
        keep_from(s, i + 1)
    } else {
        seq![s[i]] + keep_from(s, i + 1)
    }
}

/// One forward scan from position `i`: an element pending `MoveUp` swaps
/// with its predecessor.
pub open spec fn move_ups_from<T: HandleAction>(s: Seq<T>, i: int) -> Seq<T>
    decreases s.len() - i,
    when 0 <= i
{
    if i >= s.len() {
        s
    } else {
        let s2 = if s[i].spec_action() is MoveUp && i > 0 {
            s.update(i - 1, s[i]).update(i, s[i - 1])
        } else {
            s
        };
        move_ups_from(s2, i + 1)
    }
}

/// One backward scan down from position `i`: an element pending `MoveDown`
/// swaps with its successor.
pub open spec fn move_downs_down_from<T: HandleAction>(s: Seq<T>, i: int) -> Seq<T>
    decreases i + 1,
    when i < s.len()
{
    if i < 0 {
        s
    } else {
        let s2 = if s[i].spec_action() is MoveDown && i + 1 < s.len() {
            s.update(i, s[i + 1]).update(i + 1, s[i])
        } else {
            s
        };
        move_downs_down_from(s2, i - 1)
    }
}

/// Every element with its pending action cleared.
pub open spec fn reset_all<T: HandleAction>(s: Seq<T>) -> Seq<T> {
    s.map_values(|t: T| t.spec_reset())
}

/// The collection after one per-frame application of all pending actions.
pub open spec fn spec_update_list<T: HandleAction>(s: Seq<T>) -> Seq<T> {
    let kept = keep_from(s, 0);
    let upped = move_ups_from(kept, 0);
    let downed = move_downs_down_from(upped, upped.len() - 1);
    reset_all(downed)
}

/// Every survivor of the deletion pass is an element of the original
/// collection.
proof fn lemma_keep_membership<T: HandleAction>(s: Seq<T>, i: int)
    requires
        0 <= i <= s.len(),
    ensures
        forall|x: T| #[trigger] keep_from(s, i).contains(x) ==> s.contains(x),
    decreases s.len() - i,
{
    if i < s.len() {
        lemma_keep_membership(s, i + 1);
        assert forall|x: T| #[trigger] keep_from(s, i).contains(x) implies s.contains(x) by {
            if s[i].spec_action() is Delete {
                assert(keep_from(s, i + 1).contains(x));
            } else {
                let k = choose|k: int|
                    0 <= k < keep_from(s, i).len() && keep_from(s, i)[k] == x;
                if k == 0 {
                    assert(keep_from(s, i)[0] == s[i]);
                    assert(s[i] == x);
                } else {
                    assert(keep_from(s, i)[k] == keep_from(s, i + 1)[k - 1]);
                    assert(keep_from(s, i + 1).contains(x));
                }
            }
        }
    }
}

/// Swapping two positions never introduces an element.
proof fn lemma_swap_membership<T>(s: Seq<T>, a: int, b: int)
    requires
        0 <= a < s.len(),
        0 <= b < s.len(),
    ensures
        forall|x: T| #[trigger] s.update(a, s[b]).update(b, s[a]).contains(x) ==> s.contains(x),
{
    let s2 = s.update(a, s[b]).update(b, s[a]);
    assert forall|x: T| #[trigger] s2.contains(x) implies s.contains(x) by {
        let k = choose|k: int| 0 <= k < s2.len() && s2[k] == x;
        if k == b {
            assert(s[a] == x);
        } else if k == a {
            assert(s[b] == x);
        } else {
            assert(s[k] == x);
        }
    }
}

/// The forward move pass permutes the collection: no element appears that
/// was not already there.
proof fn lemma_move_ups_membership<T: HandleAction>(s: Seq<T>, i: int)
    requires
        0 <= i,
    ensures
        forall|x: T| #[trigger] move_ups_from(s, i).contains(x) ==> s.contains(x),
    decreases s.len() - i,
{
    if i < s.len() {
        let s2 = if s[i].spec_action() is MoveUp && i > 0 {
            s.update(i - 1, s[i]).update(i, s[i - 1])
        } else {
            s
        };
        lemma_move_ups_membership(s2, i + 1);
        assert(move_ups_from(s, i) == move_ups_from(s2, i + 1));
        if s[i].spec_action() is MoveUp && i > 0 {
            lemma_swap_membership(s, i - 1, i);
            assert(s2 == s.update(i - 1, s[i]).update(i, s[i - 1]));
        }
        assert forall|x: T| #[trigger] move_ups_from(s, i).contains(x) implies s.contains(x) by {
            assert(move_ups_from(s2, i + 1).contains(x));
            assert(s2.contains(x));
        }
    }
}

/// The backward move pass permutes the collection: no element appears that
/// was not already there.
proof fn lemma_move_downs_membership<T: HandleAction>(s: Seq<T>, i: int)
    requires
        i < s.len(),
    ensures
        forall|x: T| #[trigger] move_downs_down_from(s, i).contains(x) ==> s.contains(x),
    decreases i + 1,
{
    if i >= 0 {
        let s2 = if s[i].spec_action() is MoveDown && i + 1 < s.len() {
            s.update(i, s[i + 1]).update(i + 1, s[i])
        } else {
            s
        };
        lemma_move_downs_membership(s2, i - 1);
        assert(move_downs_down_from(s, i) == move_downs_down_from(s2, i - 1));
        if s[i].spec_action() is MoveDown && i + 1 < s.len() {
            lemma_swap_membership(s, i, i + 1);
            assert(s2 == s.update(i, s[i + 1]).update(i + 1, s[i]));
        }
        assert forall|x: T| #[trigger] move_downs_down_from(s, i).contains(x) implies s.contains(
            x,
        ) by {
            assert(move_downs_down_from(s2, i - 1).contains(x));
            assert(s2.contains(x));
        }
    }
}

/// Every element of the updated collection is some original element with
/// its pending action cleared: the per-frame application deletes, moves and
/// resets, but never invents an instance.
pub proof fn lemma_update_list_membership<T: HandleAction>(s: Seq<T>)
    ensures
        forall|x: T| #[trigger] spec_update_list(s).contains(x) ==> exists|y: T|
            s.contains(y) && x == #[trigger] y.spec_reset(),
{
    let kept = keep_from(s, 0);
    let upped = move_ups_from(kept, 0);
    let downed = move_downs_down_from(upped, upped.len() - 1);
    lemma_keep_membership(s, 0);
    lemma_move_ups_membership(kept, 0);
    lemma_move_downs_membership(upped, upped.len() - 1);
    assert(spec_update_list(s).len() == downed.len());
    assert forall|x: T| #[trigger] spec_update_list(s).contains(x) implies exists|y: T|
        s.contains(y) && x == #[trigger] y.spec_reset() by {
        let k = choose|k: int|
            0 <= k < spec_update_list(s).len() && spec_update_list(s)[k] == x;
        assert(spec_update_list(s)[k] == downed[k].spec_reset());
        assert(downed.contains(downed[k]));
        assert(upped.contains(downed[k]));
        assert(kept.contains(downed[k]));
        assert(s.contains(downed[k]));
        let y = downed[k];
        assert(s.contains(y) && x == y.spec_reset());
    }
}

/// Applying pending actions to an empty collection yields an empty
/// collection.
pub proof fn lemma_update_list_empty<T: HandleAction>()
    ensures
        spec_update_list(Seq::<T>::empty()) == Seq::<T>::empty(),
{
    assert(keep_from(Seq::<T>::empty(), 0) =~= Seq::<T>::empty());
    assert(move_ups_from(Seq::<T>::empty(), 0) =~= Seq::<T>::empty());
    assert(move_downs_down_from(Seq::<T>::empty(), -1) =~= Seq::<T>::empty());
    assert(reset_all(Seq::<T>::empty()) =~= Seq::<T>::empty());
}

impl ListAction {
    /// Applies every pending action of the collection, once: deletions,
    /// then moves toward the front, then moves toward the back, and clears
    /// all actions.
    pub fn update_list<T: HandleAction>(list: &mut Vec<T>)
        ensures
            final(list)@ == spec_update_list(old(list)@),
    {
        let ghost orig = list@;
        let mut input: Vec<T> = Vec::new();
        core::mem::swap(list, &mut input);

        // Deletions.
        let mut kept: Vec<T> = Vec::new();
        while input.len() > 0
            invariant
                input@.len() <= orig.len(),
                input@ == orig.subrange(orig.len() - input@.len(), orig.len() as int),
                kept@ + keep_from(orig, orig.len() - input@.len()) == keep_from(orig, 0),
            decreases input@.len(),
        {
            let ghost pre = input@;
            let ghost processed = orig.len() - pre.len();
            let t = input.remove(0);
            proof {
                assert(pre == orig.subrange(processed, orig.len() as int));
                assert(orig.subrange(processed, orig.len() as int)[0] == orig[processed]);
                assert(t == orig[processed]);
                pre.remove_ensures(0);
                assert forall|k: int| 0 <= k < input@.len() implies input@[k] == orig.subrange(
                    processed + 1,
                    orig.len() as int,
                )[k] by {
                    assert(input@[k] == pre[k + 1]);
                    assert(orig.subrange(processed, orig.len() as int)[k + 1] == orig[processed + 1
                        + k]);
                    assert(orig.subrange(processed + 1, orig.len() as int)[k] == orig[processed + 1
                        + k]);
                }
                assert(input@ =~= orig.subrange(processed + 1, orig.len() as int));
            }
            if !matches!(t.selected_action(), ListAction::Delete) {
                kept.push(t);
            }
        }
        proof {
            assert(kept@ =~= keep_from(orig, 0));
        }

        // Moves toward the front.
        let ghost k0 = kept@;
        let mut i: usize = 0;
        while i < kept.len()
            invariant
                kept@.len() == k0.len(),
                i <= kept@.len(),
                move_ups_from(k0, 0) == move_ups_from(kept@, i as int),
            decreases kept@.len() - i,
        {
            let ghost before = kept@;
            if i > 0 && matches!(kept[i].selected_action(), ListAction::MoveUp) {
                let t = kept.remove(i);
                kept.insert(i - 1, t);
                proof {
                    assert(kept@ =~= before.update(i - 1, before[i as int]).update(
                        i as int,
                        before[i - 1],
                    ));
                }
            }
            i = i + 1;
        }
        let ghost k1 = kept@;
        proof {
            assert(k1 == move_ups_from(k0, 0));
        }

        // Moves toward the back.
        let mut j: usize = kept.len();
        while j > 0
            invariant
                kept@.len() == k1.len(),
                j <= kept@.len(),
                move_downs_down_from(k1, k1.len() - 1) == move_downs_down_from(kept@, j - 1),
            decreases j,
        {
            let ghost before = kept@;
            let p = j - 1;
            if p + 1 < kept.len() && matches!(kept[p].selected_action(), ListAction::MoveDown) {
                let t = kept.remove(p);
                kept.insert(p + 1, t);
                proof {
                    assert(kept@ =~= before.update(p as int, before[p + 1]).update(
                        p + 1,
                        before[p as int],
                    ));
                }
            }
            j = p;
        }
        let ghost k2 = kept@;
        proof {
            assert(k2 == move_downs_down_from(k1, k1.len() - 1));
        }

        // Clear all actions.
        let mut r: usize = 0;
        while r < kept.len()
            invariant
                kept@.len() == k2.len(),
                r <= kept@.len(),
                forall|q: int| 0 <= q < r ==> kept@[q] == k2[q].spec_reset(),
                forall|q: int| r <= q < k2.len() ==> kept@[q] == k2[q],
            decreases kept@.len() - r,
        {
            let elem: &mut T = &mut kept[r];
            elem.reset_action();
            r = r + 1;
        }
        proof {
            assert(kept@ =~= reset_all(k2));
        }

        *list = kept;
    }
}

} // verus!
