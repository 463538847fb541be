//! What holds of every run of a cursor.
//!
//! A run is told over a domain: the records that the subsystem holds, in its
//! order, and the status with which it answers once they are used up. The
//! owner of the cursor is taken to do what each decision asks of it: after an
//! item it calls `next` and feeds the reply, and after an end it calls `end`
//! on the handle that it was given.

use vstd::prelude::*;
use crate::cursor::{CursorState, CursorStep};
use crate::error::{spec_cg_result, spec_is_failure, C_GROUP_SUCCESS};
use crate::manipulation::GroupModel;

verus! {

/// The status with which the subsystem answers at a place of the domain.
pub open spec fn status_at<T>(domain: Seq<T>, last: i32, at: int) -> i32 {
    if 0 <= at < domain.len() {
        C_GROUP_SUCCESS
    } else {
        last
    }
}

/// The record that the subsystem leaves at a place of the domain; past the
/// end it leaves `filler`, which nobody may read.
pub open spec fn record_at<T>(domain: Seq<T>, filler: T, at: int) -> T {
    if 0 <= at < domain.len() {
        domain[at]
    } else {
        filler
    }
}

/// A run so far: where the cursor stands, the items it gave, and the handles
/// on which it asked for `end`, each in order.
pub struct Run<T> {
    pub state: CursorState<T>,
    pub items: Seq<T>,
    pub teardowns: Seq<usize>,
}

/// The run of a cursor that was just begun on a domain.
pub open spec fn begun<T>(domain: Seq<T>, last: i32, handle: usize, filler: T) -> Run<T> {
    Run {
        state: CursorState::Created.after_begin(
            handle,
            status_at(domain, last, 0),
            record_at(domain, filler, 0),
        ),
        items: Seq::empty(),
        teardowns: Seq::empty(),
    }
}

/// One pull, with what the owner does on it.
pub open spec fn pull<T>(run: Run<T>, domain: Seq<T>, last: i32, filler: T) -> Run<T> {
    match run.state.pulled() {
        CursorStep::Item { item, handle } => Run {
            state: run.state.after_pull().after_next(
                status_at(domain, last, run.items.len() as int + 1),
                record_at(domain, filler, run.items.len() as int + 1),
            ),
            items: run.items.push(item),
            teardowns: run.teardowns,
        },
        CursorStep::End { teardown } => Run {
            state: run.state.after_pull(),
            items: run.items,
            teardowns: match teardown {
                Some(handle) => run.teardowns.push(handle),
                None => run.teardowns,
            },
        },
    }
}

/// The run after a number of pulls.
pub open spec fn pulls<T>(domain: Seq<T>, last: i32, handle: usize, filler: T, n: nat) -> Run<T>
    decreases n,
{
    if n == 0 {
        begun(domain, last, handle, filler)
    } else {
        pull(pulls(domain, last, handle, filler, (n - 1) as nat), domain, last, filler)
    }
}

/// The run after the cursor was given up.
pub open spec fn given_up<T>(run: Run<T>) -> Run<T> {
    Run {
        state: run.state.after_end(),
        items: run.items,
        teardowns: match run.state.open_handle() {
            Some(handle) => run.teardowns.push(handle),
            None => run.teardowns,
        },
    }
}

/// `begin` fails on a domain when it has no record and the status that
/// stands for its end is a failure.
pub open spec fn begin_fails<T>(domain: Seq<T>, last: i32) -> bool {
    domain.len() == 0 && spec_is_failure(last)
}

/// Where a run stands after `n` pulls. While records are left the cursor
/// holds the next one, has given those before it in order, and has asked for
/// no teardown. The pull after the last record asks for the one teardown,
/// and every later pull for none. Where `begin` failed nothing is ever open
/// and nothing is asked for.
pub proof fn lemma_pulls<T>(domain: Seq<T>, last: i32, handle: usize, filler: T, n: nat)
    requires
        last != C_GROUP_SUCCESS,
    ensures
        ({
            let run = pulls(domain, last, handle, filler, n);
            if begin_fails(domain, last) {
                &&& run.state == (CursorState::<T>::Ended { status: last })
                &&& run.items == Seq::<T>::empty()
                &&& run.teardowns == Seq::<usize>::empty()
            } else if n < domain.len() {
                &&& run.state == (CursorState::HasItem { handle, record: domain[n as int] })
                &&& run.items == domain.take(n as int)
                &&& run.teardowns == Seq::<usize>::empty()
            } else if n == domain.len() {
                &&& run.state == (CursorState::<T>::Drained { handle, status: last })
                &&& run.items == domain
                &&& run.teardowns == Seq::<usize>::empty()
            } else {
                &&& run.state == (CursorState::<T>::Ended { status: last })
                &&& run.items == domain
                &&& run.teardowns == seq![handle]
            }
        }),
    decreases n,
{
    if n == 0 {
        assert(domain.take(0) =~= Seq::<T>::empty());
        if domain.len() == 0 {
            assert(domain =~= Seq::<T>::empty());
        }
    } else {
        let before = pulls(domain, last, handle, filler, (n - 1) as nat);
        lemma_pulls(domain, last, handle, filler, (n - 1) as nat);
        if begin_fails(domain, last) {
        } else if n - 1 < domain.len() {
            assert(domain.take(n - 1).push(domain[n - 1]) =~= domain.take(n as int));
            if n == domain.len() {
                assert(domain.take(n as int) =~= domain);
            }
        } else if n - 1 == domain.len() {
            assert(Seq::<usize>::empty().push(handle) =~= seq![handle]);
        } else {
        }
    }
}

/// On a domain without records whose end is no failure, the cursor gives no
/// item, however often it is pulled, and asks for `end` exactly once:
/// at the first pull, or when it is given up before any pull.
pub proof fn lemma_empty_domain<T>(last: i32, handle: usize, filler: T, n: nat)
    requires
        last != C_GROUP_SUCCESS,
        !spec_is_failure(last),
    ensures
        given_up(pulls(Seq::<T>::empty(), last, handle, filler, n)).items == Seq::<T>::empty(),
        given_up(pulls(Seq::<T>::empty(), last, handle, filler, n)).teardowns == seq![handle],
        n >= 1 ==> pulls(Seq::<T>::empty(), last, handle, filler, n).teardowns == seq![handle],
{
    lemma_pulls(Seq::<T>::empty(), last, handle, filler, n);
    assert(Seq::<usize>::empty().push(handle) =~= seq![handle]);
}

/// A cursor that is given up after `n` pulls has given the first `n` records
/// of its domain, in order, or all of them where there are fewer, and has
/// asked for `end` exactly once, on its own handle; after that nothing is
/// open. Where `begin` failed there was never a cursor to close, and `end`
/// is asked for not at all.
pub proof fn lemma_given_up<T>(domain: Seq<T>, last: i32, handle: usize, filler: T, n: nat)
    requires
        last != C_GROUP_SUCCESS,
    ensures
        ({
            let run = given_up(pulls(domain, last, handle, filler, n));
            &&& !run.state.is_open()
            &&& run.teardowns == if begin_fails(domain, last) {
                Seq::<usize>::empty()
            } else {
                seq![handle]
            }
            &&& run.items == if begin_fails(domain, last) {
                Seq::<T>::empty()
            } else if n < domain.len() {
                domain.take(n as int)
            } else {
                domain
            }
        }),
{
    lemma_pulls(domain, last, handle, filler, n);
    assert(Seq::<usize>::empty().push(handle) =~= seq![handle]);
}

/// A teardown is asked for only while a context is open, and leaves none
/// open: so no step can ask for a second one, whatever came before.
pub proof fn lemma_teardown_at_most_once<T>(state: CursorState<T>)
    ensures
        !state.after_end().is_open(),
        state.after_end().open_handle() is None,
        state.after_end().after_end() == state.after_end(),
        state.after_end().pulled() == (CursorStep::<T>::End { teardown: None }),
        state.pulled() is End ==> !state.after_pull().is_open(),
        state.open_handle() is Some <==> state.is_open(),
{
}

/// What can happen to a cursor: the replies that are fed to it, a pull, and
/// its being given up.
pub enum CursorEvent<T> {
    Begin { handle: usize, status: i32, record: T },
    Next { status: i32, record: T },
    Pull,
    End,
}

/// The state of a cursor after an event.
pub open spec fn state_after<T>(state: CursorState<T>, event: CursorEvent<T>) -> CursorState<T> {
    match event {
        CursorEvent::Begin { handle, status, record } => state.after_begin(handle, status, record),
        CursorEvent::Next { status, record } => state.after_next(status, record),
        CursorEvent::Pull => state.after_pull(),
        CursorEvent::End => state.after_end(),
    }
}

/// The handle on which the cursor asks for `end` at an event, if it asks.
pub open spec fn asked_at<T>(state: CursorState<T>, event: CursorEvent<T>) -> Option<usize> {
    match event {
        CursorEvent::Pull => match state.pulled() {
            CursorStep::End { teardown } => teardown,
            CursorStep::Item { .. } => None,
        },
        CursorEvent::End => state.open_handle(),
        _ => None,
    }
}

/// The state of a cursor after a sequence of events.
pub open spec fn state_after_all<T>(state: CursorState<T>, events: Seq<CursorEvent<T>>)
    -> CursorState<T>
    decreases events.len(),
{
    if events.len() == 0 {
        state
    } else {
        state_after_all(state_after(state, events[0]), events.drop_first())
    }
}

/// The handles on which a cursor asks for `end` along a sequence of events,
/// in order.
pub open spec fn asked_along<T>(state: CursorState<T>, events: Seq<CursorEvent<T>>) -> Seq<usize>
    decreases events.len(),
{
    if events.len() == 0 {
        Seq::empty()
    } else {
        let rest = asked_along(state_after(state, events[0]), events.drop_first());
        match asked_at(state, events[0]) {
            Some(handle) => seq![handle] + rest,
            None => rest,
        }
    }
}

/// Whatever happens to a cursor, in whatever order, and be it out of turn:
/// while its context is open it has asked for no teardown, and once the
/// context is closed it has asked for exactly one, on the handle of that
/// context. A cursor on which nothing is open and something was begun asks
/// for none and stays as it is. So no context is closed twice, none is
/// closed that was not opened, and none that was opened is left open by a
/// run that ends with a teardown.
pub proof fn lemma_every_run<T>(state: CursorState<T>, events: Seq<CursorEvent<T>>)
    ensures
        ({
            let end = state_after_all(state, events);
            let asked = asked_along(state, events);
            match state.open_handle() {
                Some(handle) => {
                    &&& end.is_open() ==> asked == Seq::<usize>::empty() && end.open_handle()
                        == Some(handle)
                    &&& !end.is_open() ==> asked == seq![handle] && end is Ended
                },
                None => if state is Created {
                    &&& asked.len() <= 1
                    &&& end.is_open() ==> asked.len() == 0
                    &&& asked.len() == 1 ==> end is Ended
                } else {
                    &&& asked == Seq::<usize>::empty()
                    &&& end == state
                },
            }
        }),
        events.len() > 0 && events.last() is End ==> !state_after_all(state, events).is_open(),
    decreases events.len(),
{
    if events.len() > 0 {
        let next = state_after(state, events[0]);
        let rest = events.drop_first();
        lemma_every_run(next, rest);
        let asked_rest = asked_along(next, rest);
        assert(seq![0usize].len() == 1);
        match asked_at(state, events[0]) {
            Some(handle) => {
                assert(!next.is_open());
                assert(!(next is Created));
                assert(seq![handle] + asked_rest =~= seq![handle]);
            },
            None => {},
        }
        if rest.len() > 0 {
            assert(rest.last() == events.last());
        }
    }
}

/// The handles that a number of releases in a row give to be freed, in
/// order.
pub open spec fn frees(group: GroupModel, n: nat) -> Seq<usize>
    decreases n,
{
    if n == 0 {
        Seq::empty()
    } else {
        match group.released() {
            Some(handle) => seq![handle] + frees(group.after_free(), (n - 1) as nat),
            None => frees(group.after_free(), (n - 1) as nat),
        }
    }
}

/// However often a group is released, its handle is given to be freed at
/// most once: by the first release of a group that is alive. A group
/// without a handle gives nothing to free, so none is freed twice.
pub proof fn lemma_free_once(group: GroupModel, n: nat)
    ensures
        frees(group, n) == (if group.is_null() || n == 0 {
            Seq::<usize>::empty()
        } else {
            seq![group.handle]
        }),
        group.after_free().released() is None,
        group.after_free().after_free() == group.after_free(),
    decreases n,
{
    if n > 0 {
        lemma_free_once(group.after_free(), (n - 1) as nat);
        if !group.is_null() {
            assert(seq![group.handle] + Seq::<usize>::empty() =~= seq![group.handle]);
        }
    }
}

/// A copy of a group is a group of its own: it has the name of its
/// source and another handle, so the release of either frees only its
/// own handle and leaves the other alive. Where the copy was made, its
/// status alone decides whether it succeeded; and whether the two are
/// then equal is for the native comparator to say: they are equal exactly
/// when it reports success.
pub proof fn lemma_copy_is_independent(source: GroupModel, fresh: usize, status: i32)
    requires
        source.clone_error(fresh) is None,
    ensures
        ({
            let copy = source.cloned(fresh);
            &&& copy.name == source.name
            &&& !copy.is_null()
            &&& copy.released() == Some(fresh)
            &&& source.released() == Some(source.handle)
            &&& copy.released() != source.released()
            &&& copy.copy_result(source, status) == spec_cg_result(status)
            &&& copy.after_copy(source).handle == fresh
            &&& copy.after_copy(source).equal(source, status) <==> status == C_GROUP_SUCCESS
            &&& copy.after_copy(source).equal(source.after_free(), status) == false
        }),
{
}

/// Once the controllers of a group were taken back, or the group was
/// released, it owns none of the handles that it handed out before.
pub proof fn lemma_taken_back(group: GroupModel, ctrl: usize)
    ensures
        !group.after_free_controllers().attached.contains(ctrl),
        !group.after_free().attached.contains(ctrl),
        group.after_attach(ctrl).attached.contains(ctrl),
        group.after_attach(ctrl).handle == group.handle,
{
}

} // verus!
