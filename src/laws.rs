//! Properties of the reducer, stated over its model.

use vstd::prelude::*;
use crate::current_input::{
    ActionKind, HostEvent, InputEvent, InputModel, ingest_all, ingest_model, run, step_model,
    update_model,
};
use crate::identity::{Key, KeyCode, KeyView};

verus! {

/// `e` is a press (initial or repeated) of the logical key `v`.
pub open spec fn is_press_of(e: InputEvent, v: KeyView) -> bool {
    match e {
        InputEvent::KeyboardInput { logical_key, pressed, .. } => pressed && logical_key@ == v,
        _ => false,
    }
}

/// `e` is a release of the logical key `v`.
pub open spec fn is_release_of(e: InputEvent, v: KeyView) -> bool {
    match e {
        InputEvent::KeyboardInput { logical_key, pressed, .. } => !pressed && logical_key@ == v,
        _ => false,
    }
}

/// `h` hands in a release of the logical key `v`.
pub open spec fn releases(h: HostEvent, v: KeyView) -> bool {
    match h {
        HostEvent::Input(e) => is_release_of(e, v),
        _ => false,
    }
}

/// Entries already in the key log stay there for the rest of the tick.
pub proof fn lemma_key_log_kept(m: InputModel, e: InputEvent, x: (ActionKind, KeyView))
    requires
        m.key_log.contains(x),
    ensures
        ingest_model(m, e).key_log.contains(x),
{
    let i = choose|i: int| 0 <= i < m.key_log.len() && m.key_log[i] == x;
    assert(ingest_model(m, e).key_log[i] == x);
}

/// After a press of `k` and a tick boundary, `k` is held; it stays held over any
/// further events and tick boundaries that hold no release of `k`.
pub proof fn lemma_held_until_release(m: InputModel, k: Key, c: KeyCode, hs: Seq<HostEvent>)
    requires
        forall|i: int| 0 <= i < hs.len() ==> !releases(#[trigger] hs[i], k@),
    ensures
        step_model(
            ingest_model(m, InputEvent::KeyboardInput { logical_key: k, physical_key: c, pressed: true }),
        ).keys_held.contains(k@),
        run(
            step_model(
                ingest_model(m, InputEvent::KeyboardInput { logical_key: k, physical_key: c, pressed: true }),
            ),
            hs,
        ).keys_held.contains(k@),
    decreases hs.len(),
{
    if hs.len() > 0 {
        let init = hs.drop_last();
        assert forall|i: int| 0 <= i < init.len() implies !releases(#[trigger] init[i], k@) by {
            assert(init[i] == hs[i]);
        }
        lemma_held_until_release(m, k, c, init);
        assert(!releases(hs[hs.len() - 1], k@));
    }
}

/// In the tick of a press from idle, the key log gains exactly one edge for the
/// key, however many repeats follow in that tick, and one press-or-repeat entry
/// per press.
pub proof fn lemma_pressed_once(m: InputModel, evs: Seq<InputEvent>, v: KeyView)
    requires
        !m.keys_held.contains(v),
        evs.len() > 0,
        forall|i: int| 0 <= i < evs.len() ==> is_press_of(#[trigger] evs[i], v),
    ensures
        ingest_all(m, evs).key_log == m.key_log + seq![(ActionKind::Pressed, v)] + Seq::new(
            evs.len(),
            |i: int| (ActionKind::PressedOs, v),
        ),
        ingest_all(m, evs).keys_held.contains(v),
    decreases evs.len(),
{
    let init = evs.drop_last();
    if init.len() == 0 {
        assert(ingest_all(m, init) == m);
        assert(ingest_all(m, evs).key_log =~= m.key_log + seq![(ActionKind::Pressed, v)]
            + Seq::new(evs.len(), |i: int| (ActionKind::PressedOs, v)));
    } else {
        assert forall|i: int| 0 <= i < init.len() implies is_press_of(#[trigger] init[i], v) by {
            assert(init[i] == evs[i]);
        }
        lemma_pressed_once(m, init, v);
        assert(is_press_of(evs[evs.len() - 1], v));
        assert(ingest_all(m, evs).key_log =~= m.key_log + seq![(ActionKind::Pressed, v)]
            + Seq::new(evs.len(), |i: int| (ActionKind::PressedOs, v)));
    }
}

/// In a tick that begins with the key held, no edge for the key is logged while
/// no release of it arrives: the edge belongs to the tick of the press alone.
pub proof fn lemma_no_edge_while_held(m: InputModel, evs: Seq<InputEvent>, v: KeyView)
    requires
        m.keys_held.contains(v),
        forall|i: int| 0 <= i < evs.len() ==> !is_release_of(#[trigger] evs[i], v),
    ensures
        !ingest_all(step_model(m), evs).key_log.contains((ActionKind::Pressed, v)),
        ingest_all(step_model(m), evs).keys_held.contains(v),
    decreases evs.len(),
{
    if evs.len() == 0 {
        assert(step_model(m).key_log.len() == 0);
    } else {
        let init = evs.drop_last();
        assert forall|i: int| 0 <= i < init.len() implies !is_release_of(#[trigger] init[i], v) by {
            assert(init[i] == evs[i]);
        }
        lemma_no_edge_while_held(m, init, v);
        let prev = ingest_all(step_model(m), init);
        let e = evs[evs.len() - 1];
        assert(!is_release_of(e, v));
        let next = ingest_all(step_model(m), evs);
        if next.key_log.contains((ActionKind::Pressed, v)) {
            let j = choose|j: int| 0 <= j < next.key_log.len() && next.key_log[j] == (ActionKind::Pressed, v);
            if j < prev.key_log.len() {
                assert(prev.key_log[j] == next.key_log[j]);
            }
        }
    }
}

/// A tick in which at least one press of the key arrives logs a press-or-repeat
/// entry for it.
pub proof fn lemma_pressed_os_in_tick(m: InputModel, evs: Seq<InputEvent>, v: KeyView, p: int)
    requires
        0 <= p < evs.len(),
        is_press_of(evs[p], v),
    ensures
        ingest_all(m, evs).key_log.contains((ActionKind::PressedOs, v)),
    decreases evs.len(),
{
    let init = evs.drop_last();
    let prev = ingest_all(m, init);
    let e = evs[evs.len() - 1];
    if p == evs.len() - 1 {
        let next = ingest_model(prev, e);
        let n: int = prev.key_log.len() as int;
        if prev.keys_held.contains(v) {
            assert(next.key_log[n] == (ActionKind::PressedOs, v));
        } else {
            assert(next.key_log[n + 1] == (ActionKind::PressedOs, v));
        }
    } else {
        assert(init[p] == evs[p]);
        lemma_pressed_os_in_tick(m, init, v, p);
        lemma_key_log_kept(prev, e, (ActionKind::PressedOs, v));
    }
}

/// Releasing a key always leaves it up and logs the release, also when it was
/// already up.
pub proof fn lemma_release_idempotent(m: InputModel, k: Key, c: KeyCode)
    ensures
        ({
            let r = ingest_model(
                m,
                InputEvent::KeyboardInput { logical_key: k, physical_key: c, pressed: false },
            );
            &&& !r.keys_held.contains(k@)
            &&& !r.codes_held.contains(c)
            &&& r.key_log == m.key_log.push((ActionKind::Released, k@))
            &&& r.scan_log == m.scan_log.push((ActionKind::Released, c))
        }),
{
}

/// One key event updates the logical and the physical namespace each on its own:
/// a press holds both identities, and each table changes in its own entry only.
pub proof fn lemma_namespaces_independent(m: InputModel, k: Key, c: KeyCode)
    ensures
        ({
            let r = ingest_model(
                m,
                InputEvent::KeyboardInput { logical_key: k, physical_key: c, pressed: true },
            );
            &&& r.keys_held.contains(k@)
            &&& r.codes_held.contains(c)
            &&& r.keys_held == m.keys_held.insert(k@)
            &&& r.codes_held == m.codes_held.insert(c)
        }),
{
}

} // verus!
